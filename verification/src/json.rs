//! The JSON form of a [`Response`]: a specification of the exact encoding —
//! member order, omission of absent parts, string escaping — and a verified
//! encoder producing it.
//!
//! String members are escaped as JSON requires: quote and backslash get a
//! backslash, the control characters with short forms use them, and every
//! other control character becomes a `\u00..` sequence with lowercase hex
//! digits.

use vstd::prelude::*;

verus! {

use crate::response::{Attachment, AttachmentView, Field, FieldView, Response, ResponseView,
    opt_view};
use crate::text::{chars_of, string_from_chars};

/// The escaped form of one character inside a JSON string.
pub open spec fn escape_char(c: char) -> Seq<char> {
    if c == '"' {
        seq!['\\', '"']
    } else if c == '\\' {
        seq!['\\', '\\']
    } else if c == '\u{8}' {
        seq!['\\', 'b']
    } else if c == '\u{9}' {
        seq!['\\', 't']
    } else if c == '\u{A}' {
        seq!['\\', 'n']
    } else if c == '\u{C}' {
        seq!['\\', 'f']
    } else if c == '\u{D}' {
        seq!['\\', 'r']
    } else if (c as u32) < 0x20 {
        seq!['\\', 'u', '0', '0', "0123456789abcdef"@[((c as u32) / 16) as int], "0123456789abcdef"@[((c as u32) % 16) as int]]
    } else {
        seq![c]
    }
}

/// The escaped form of a whole string body.
pub open spec fn escape(s: Seq<char>) -> Seq<char>
    decreases s.len(),
{
    if s.len() == 0 {
        Seq::<char>::empty()
    } else {
        escape_char(s[0]) + escape(s.drop_first())
    }
}

/// A JSON string: the escaped body between double quotes.
pub open spec fn quoted(s: Seq<char>) -> Seq<char> {
    seq!['"'] + escape(s) + seq!['"']
}

/// A JSON boolean.
pub open spec fn json_bool(b: bool) -> Seq<char> {
    if b {
        "true"@
    } else {
        "false"@
    }
}

/// The decimal digits of `n`, most significant first.
pub open spec fn dec_chars(n: nat) -> Seq<char>
    decreases n,
{
    if n < 10 {
        seq!["0123456789"@[n as int]]
    } else {
        dec_chars(n / 10) + seq!["0123456789"@[(n % 10) as int]]
    }
}

/// Object members joined by commas.
pub open spec fn join_comma(ms: Seq<Seq<char>>) -> Seq<char>
    decreases ms.len(),
{
    if ms.len() == 0 {
        Seq::<char>::empty()
    } else if ms.len() == 1 {
        ms[0]
    } else {
        join_comma(ms.drop_last()) + seq![','] + ms.last()
    }
}

/// A string-valued member when the value is present; nothing when absent.
pub open spec fn member_str(prefix: Seq<char>, v: Option<Seq<char>>) -> Seq<Seq<char>> {
    match v {
        Some(s) => seq![prefix + quoted(s)],
        None => seq![],
    }
}

/// The timestamp member of an attachment, when present.
pub open spec fn ts_member(ts: Option<usize>) -> Seq<Seq<char>> {
    match ts {
        Some(n) => seq!["\"ts\":"@ + dec_chars(n as nat)],
        None => seq![],
    }
}

/// The JSON object for one field: all three members, in declaration order.
pub open spec fn json_of_field(f: FieldView) -> Seq<char> {
    seq!['{'] + "\"title\":"@ + quoted(f.title) + seq![','] + "\"value\":"@ + quoted(f.value)
        + seq![','] + "\"short\":"@ + json_bool(f.short) + seq!['}']
}

/// The fields member of an attachment, omitted when there are none.
pub open spec fn fields_member(fs: Seq<FieldView>) -> Seq<Seq<char>> {
    if fs.len() == 0 {
        seq![]
    } else {
        seq![
            "\"fields\":"@ + seq!['['] + join_comma(fs.map_values(|f: FieldView| json_of_field(f)))
                + seq![']'],
        ]
    }
}

/// The members of an attachment object, in declaration order, each absent
/// part omitted.
pub open spec fn attachment_members(a: AttachmentView) -> Seq<Seq<char>> {
    member_str("\"text\":"@, a.text) + member_str("\"color\":"@, a.color) + member_str(
        "\"fallback\":"@,
        a.fallback,
    ) + member_str("\"pretext\":"@, a.pretext) + member_str("\"title\":"@, a.title) + member_str(
        "\"title_link\":"@,
        a.title_link,
    ) + member_str("\"author_name\":"@, a.author_name) + member_str(
        "\"author_link\":"@,
        a.author_link,
    ) + member_str("\"author_icon\":"@, a.author_icon) + member_str(
        "\"image_url\":"@,
        a.image_url,
    ) + member_str("\"thumb_url\":"@, a.thumb_url) + member_str("\"footer\":"@, a.footer)
        + member_str("\"footer_icon\":"@, a.footer_icon) + ts_member(a.ts) + fields_member(
        a.fields,
    )
}

/// The JSON object for one attachment.
pub open spec fn json_of_attachment(a: AttachmentView) -> Seq<char> {
    seq!['{'] + join_comma(attachment_members(a)) + seq!['}']
}

/// The attachments member of a response, omitted when there are none.
pub open spec fn attachments_member(atts: Seq<AttachmentView>) -> Seq<Seq<char>> {
    if atts.len() == 0 {
        seq![]
    } else {
        seq![
            "\"attachments\":"@ + seq!['['] + join_comma(
                atts.map_values(|a: AttachmentView| json_of_attachment(a)),
            ) + seq![']'],
        ]
    }
}

/// The members of a response object: the optional text, the display scope,
/// and the attachments when there are any.
pub open spec fn response_members(r: ResponseView) -> Seq<Seq<char>> {
    member_str("\"text\":"@, r.text) + seq!["\"response_type\":"@ + quoted(r.response_type)]
        + attachments_member(r.attachments)
}

/// The JSON object for a whole response.
pub open spec fn json_of_response(r: ResponseView) -> Seq<char> {
    seq!['{'] + join_comma(response_members(r)) + seq!['}']
}

/// The views of a list of rendered members.
pub open spec fn views_of(ms: Seq<Vec<char>>) -> Seq<Seq<char>> {
    ms.map_values(|m: Vec<char>| m@)
}

fn push_char(out: &mut Vec<char>, c: char)
    ensures
        final(out)@ == old(out)@ + seq![c],
{
    out.push(c);
    proof {
        assert(out@ =~= old(out)@ + seq![c]);
    }
}

fn push_lit(out: &mut Vec<char>, s: &str)
    ensures
        final(out)@ == old(out)@ + s@,
{
    let mut cs = chars_of(s);
    out.append(&mut cs);
}

fn push_seq(out: &mut Vec<char>, v: &Vec<char>)
    ensures
        final(out)@ == old(out)@ + v@,
{
    let mut j: usize = 0;
    proof {
        assert(out@ =~= old(out)@ + v@.take(0int));
    }
    while j < v.len()
        invariant
            j <= v.len(),
            out@ == old(out)@ + v@.take(j as int),
        decreases v.len() - j,
    {
        out.push(v[j]);
        proof {
            assert(old(out)@ + v@.take(j + 1) =~= (old(out)@ + v@.take(j as int)).push(
                v@[j as int],
            ));
        }
        j += 1;
    }
    proof {
        assert(v@.take(v@.len() as int) =~= v@);
    }
}

proof fn lemma_escape_snoc(s: Seq<char>, c: char)
    ensures
        escape(s.push(c)) == escape(s) + escape_char(c),
    decreases s.len(),
{
    if s.len() == 0 {
        assert(s.push(c)[0] == c);
        assert(s.push(c).drop_first() =~= Seq::<char>::empty());
        assert(escape(Seq::<char>::empty()) == Seq::<char>::empty());
        assert(escape(s.push(c)) == escape_char(c) + escape(Seq::<char>::empty()));
        assert(escape(s.push(c)) =~= escape(s) + escape_char(c));
    } else {
        lemma_escape_snoc(s.drop_first(), c);
        assert(s.push(c).drop_first() =~= s.drop_first().push(c));
        assert(escape(s.push(c)) =~= escape(s) + escape_char(c));
    }
}

fn push_escaped_char(out: &mut Vec<char>, c: char)
    ensures
        final(out)@ == old(out)@ + escape_char(c),
{
    if c == '"' {
        push_char(out, '\\');
        push_char(out, '"');
    } else if c == '\\' {
        push_char(out, '\\');
        push_char(out, '\\');
    } else if c == '\u{8}' {
        push_char(out, '\\');
        push_char(out, 'b');
    } else if c == '\u{9}' {
        push_char(out, '\\');
        push_char(out, 't');
    } else if c == '\u{A}' {
        push_char(out, '\\');
        push_char(out, 'n');
    } else if c == '\u{C}' {
        push_char(out, '\\');
        push_char(out, 'f');
    } else if c == '\u{D}' {
        push_char(out, '\\');
        push_char(out, 'r');
    } else {
        let code = c as u32;
        if code < 0x20 {
            let table = chars_of("0123456789abcdef");
            proof {
                reveal_strlit("0123456789abcdef");
            }
            push_char(out, '\\');
            push_char(out, 'u');
            push_char(out, '0');
            push_char(out, '0');
            push_char(out, table[(code / 16) as usize]);
            push_char(out, table[(code % 16) as usize]);
        } else {
            push_char(out, c);
        }
    }
    proof {
        assert(out@ =~= old(out)@ + escape_char(c));
    }
}

fn push_escaped(out: &mut Vec<char>, s: &String)
    ensures
        final(out)@ == old(out)@ + escape(s@),
{
    let cs = chars_of(s.as_str());
    let mut j: usize = 0;
    proof {
        assert(escape(s@.take(0int)) =~= Seq::<char>::empty());
        assert(out@ =~= old(out)@ + escape(s@.take(0int)));
    }
    while j < cs.len()
        invariant
            j <= cs.len(),
            cs@ == s@,
            out@ == old(out)@ + escape(s@.take(j as int)),
        decreases cs.len() - j,
    {
        push_escaped_char(out, cs[j]);
        proof {
            lemma_escape_snoc(s@.take(j as int), s@[j as int]);
            assert(s@.take(j + 1) =~= s@.take(j as int).push(s@[j as int]));
        }
        j += 1;
    }
    proof {
        assert(s@.take(s@.len() as int) =~= s@);
    }
}

fn push_quoted(out: &mut Vec<char>, s: &String)
    ensures
        final(out)@ == old(out)@ + quoted(s@),
{
    push_char(out, '"');
    push_escaped(out, s);
    push_char(out, '"');
}

fn push_dec(out: &mut Vec<char>, n: usize)
    ensures
        final(out)@ == old(out)@ + dec_chars(n as nat),
    decreases n,
{
    let table = chars_of("0123456789");
    proof {
        reveal_strlit("0123456789");
    }
    if n < 10 {
        push_char(out, table[n]);
    } else {
        proof {
            assert(n / 10 < n) by (nonlinear_arith)
                requires
                    n >= 10,
            ;
        }
        push_dec(out, n / 10);
        push_char(out, table[n % 10]);
    }
}

fn push_join(out: &mut Vec<char>, members: &Vec<Vec<char>>)
    ensures
        final(out)@ == old(out)@ + join_comma(views_of(members@)),
{
    let ghost dv = views_of(members@);
    let mut j: usize = 0;
    proof {
        assert(out@ =~= old(out)@ + join_comma(dv.take(0int)));
    }
    while j < members.len()
        invariant
            j <= members.len(),
            dv == views_of(members@),
            dv.len() == members@.len(),
            out@ == old(out)@ + join_comma(dv.take(j as int)),
        decreases members.len() - j,
    {
        proof {
            assert(dv.take(j + 1).drop_last() =~= dv.take(j as int));
            assert(dv.take(j + 1).last() == dv[j as int]);
            assert(dv[j as int] == members@[j as int]@);
        }
        if j > 0 {
            push_char(out, ',');
            push_seq(out, &members[j]);
            proof {
                assert(join_comma(dv.take(j + 1)) == join_comma(dv.take(j as int)) + seq![',']
                    + dv[j as int]);
            }
        } else {
            push_seq(out, &members[j]);
            proof {
                assert(join_comma(dv.take(1int)) == dv[0int]);
                assert(old(out)@ + Seq::<char>::empty() + dv[0int] =~= old(out)@ + dv[0int]);
            }
        }
        j += 1;
    }
    proof {
        assert(dv.take(dv.len() as int) =~= dv);
    }
}

/// Renders one member carrying a quoted string value, when it is present.
fn push_member_str(members: &mut Vec<Vec<char>>, prefix: &str, v: &Option<String>)
    ensures
        views_of(final(members)@) == views_of(old(members)@) + member_str(prefix@, opt_view(*v)),
{
    match v {
        Some(s) => {
            let mut m: Vec<char> = Vec::new();
            push_lit(&mut m, prefix);
            push_quoted(&mut m, s);
            proof {
                assert(Seq::<char>::empty() + prefix@ =~= prefix@);
            }
            members.push(m);
            proof {
                assert(views_of(members@) =~= views_of(old(members)@) + member_str(
                    prefix@,
                    opt_view(*v),
                ));
            }
        },
        None => {
            proof {
                assert(views_of(members@) =~= views_of(old(members)@) + member_str(
                    prefix@,
                    opt_view(*v),
                ));
            }
        },
    }
}

/// Renders one field as its JSON object.
fn field_chars(f: &Field) -> (r: Vec<char>)
    ensures
        r@ == json_of_field(f@),
{
    let mut out: Vec<char> = Vec::new();
    push_char(&mut out, '{');
    proof {
        assert(Seq::<char>::empty() + seq!['{'] =~= seq!['{']);
    }
    push_lit(&mut out, "\"title\":");
    push_quoted(&mut out, &f.title);
    push_char(&mut out, ',');
    push_lit(&mut out, "\"value\":");
    push_quoted(&mut out, &f.value);
    push_char(&mut out, ',');
    push_lit(&mut out, "\"short\":");
    if f.short {
        push_lit(&mut out, "true");
    } else {
        push_lit(&mut out, "false");
    }
    push_char(&mut out, '}');
    out
}

/// Renders one attachment as its JSON object.
fn attachment_chars(a: &Attachment) -> (r: Vec<char>)
    ensures
        r@ == json_of_attachment(a@),
{
    let mut members: Vec<Vec<char>> = Vec::new();
    proof {
        assert(views_of(members@) =~= Seq::<Seq<char>>::empty());
    }
    push_member_str(&mut members, "\"text\":", &a.text);
    proof {
        assert(Seq::<Seq<char>>::empty() + member_str("\"text\":"@, opt_view(a.text)) =~= member_str(
            "\"text\":"@,
            opt_view(a.text),
        ));
    }
    push_member_str(&mut members, "\"color\":", &a.color);
    push_member_str(&mut members, "\"fallback\":", &a.fallback);
    push_member_str(&mut members, "\"pretext\":", &a.pretext);
    push_member_str(&mut members, "\"title\":", &a.title);
    push_member_str(&mut members, "\"title_link\":", &a.title_link);
    push_member_str(&mut members, "\"author_name\":", &a.author_name);
    push_member_str(&mut members, "\"author_link\":", &a.author_link);
    push_member_str(&mut members, "\"author_icon\":", &a.author_icon);
    push_member_str(&mut members, "\"image_url\":", &a.image_url);
    push_member_str(&mut members, "\"thumb_url\":", &a.thumb_url);
    push_member_str(&mut members, "\"footer\":", &a.footer);
    push_member_str(&mut members, "\"footer_icon\":", &a.footer_icon);
    let ghost before_ts = views_of(members@);
    match &a.ts {
        Some(n) => {
            let mut m: Vec<char> = Vec::new();
            push_lit(&mut m, "\"ts\":");
            push_dec(&mut m, *n);
            proof {
                assert(Seq::<char>::empty() + "\"ts\":"@ =~= "\"ts\":"@);
            }
            members.push(m);
            proof {
                assert(views_of(members@) =~= before_ts + ts_member(a@.ts));
            }
        },
        None => {
            proof {
                assert(views_of(members@) =~= before_ts + ts_member(a@.ts));
            }
        },
    }
    let ghost before_fields = views_of(members@);
    if a.fields.len() > 0 {
        let mut fmembers: Vec<Vec<char>> = Vec::new();
        let mut j: usize = 0;
        while j < a.fields.len()
            invariant
                j <= a.fields.len(),
                fmembers@.len() == j,
                forall|k: int| 0 <= k < j ==> fmembers@[k]@ == json_of_field(a.fields@[k]@),
            decreases a.fields.len() - j,
        {
            let fm = field_chars(&a.fields[j]);
            fmembers.push(fm);
            j += 1;
        }
        let mut m: Vec<char> = Vec::new();
        push_lit(&mut m, "\"fields\":");
        push_char(&mut m, '[');
        proof {
            assert(Seq::<char>::empty() + "\"fields\":"@ =~= "\"fields\":"@);
            assert(views_of(fmembers@) =~= a@.fields.map_values(
                |f: FieldView| json_of_field(f),
            ));
        }
        push_join(&mut m, &fmembers);
        push_char(&mut m, ']');
        members.push(m);
        proof {
            assert(a@.fields.len() > 0);
            assert(views_of(members@) =~= before_fields + fields_member(a@.fields));
        }
    } else {
        proof {
            assert(a@.fields.len() == 0);
            assert(views_of(members@) =~= before_fields + fields_member(a@.fields));
        }
    }
    let mut out: Vec<char> = Vec::new();
    push_char(&mut out, '{');
    push_join(&mut out, &members);
    push_char(&mut out, '}');
    proof {
        assert(Seq::<char>::empty() + seq!['{'] =~= seq!['{']);
    }
    out
}

impl Response {
    /// The JSON encoding of this response, exactly as [`json_of_response`]
    /// describes it.
    pub fn to_json(&self) -> (r: String)
        ensures
            r@ == json_of_response(self@),
    {
        let mut members: Vec<Vec<char>> = Vec::new();
        proof {
            assert(views_of(members@) =~= Seq::<Seq<char>>::empty());
        }
        push_member_str(&mut members, "\"text\":", &self.text);
        proof {
            assert(Seq::<Seq<char>>::empty() + member_str("\"text\":"@, opt_view(self.text))
                =~= member_str("\"text\":"@, opt_view(self.text)));
        }
        let mut m: Vec<char> = Vec::new();
        push_lit(&mut m, "\"response_type\":");
        push_quoted(&mut m, &self.response_type);
        proof {
            assert(Seq::<char>::empty() + "\"response_type\":"@ =~= "\"response_type\":"@);
        }
        let ghost before_rt = views_of(members@);
        members.push(m);
        proof {
            assert(views_of(members@) =~= before_rt + seq![
                "\"response_type\":"@ + quoted(self@.response_type),
            ]);
        }
        let ghost before_atts = views_of(members@);
        if self.attachments.len() > 0 {
            let mut amembers: Vec<Vec<char>> = Vec::new();
            let mut j: usize = 0;
            while j < self.attachments.len()
                invariant
                    j <= self.attachments.len(),
                    amembers@.len() == j,
                    forall|k: int| 0 <= k < j ==> amembers@[k]@ == json_of_attachment(
                        self.attachments@[k]@,
                    ),
                decreases self.attachments.len() - j,
            {
                let am = attachment_chars(&self.attachments[j]);
                amembers.push(am);
                j += 1;
            }
            let mut m2: Vec<char> = Vec::new();
            push_lit(&mut m2, "\"attachments\":");
            push_char(&mut m2, '[');
            proof {
                assert(Seq::<char>::empty() + "\"attachments\":"@ =~= "\"attachments\":"@);
                assert(views_of(amembers@) =~= self@.attachments.map_values(
                    |a: AttachmentView| json_of_attachment(a),
                ));
            }
            push_join(&mut m2, &amembers);
            push_char(&mut m2, ']');
            members.push(m2);
            proof {
                assert(self@.attachments.len() > 0);
                assert(views_of(members@) =~= before_atts + attachments_member(
                    self@.attachments,
                ));
            }
        } else {
            proof {
                assert(self@.attachments.len() == 0);
                assert(views_of(members@) =~= before_atts + attachments_member(
                    self@.attachments,
                ));
            }
        }
        let mut out: Vec<char> = Vec::new();
        push_char(&mut out, '{');
        push_join(&mut out, &members);
        push_char(&mut out, '}');
        proof {
            assert(Seq::<char>::empty() + seq!['{'] =~= seq!['{']);
        }
        string_from_chars(&out)
    }
}

} // verus!
