//! The reply payload for a command, its attachments, and builder interfaces
//! for constructing them.

use vstd::prelude::*;

verus! {

use vstd::string::StringExecFns;

/// The mathematical content of a [`Field`].
pub struct FieldView {
    pub title: Seq<char>,
    pub value: Seq<char>,
    pub short: bool,
}

/// One titled entry inside an [`Attachment`].
pub struct Field {
    pub title: String,
    pub value: String,
    pub short: bool,
}

impl View for Field {
    type V = FieldView;

    open spec fn view(&self) -> FieldView {
        FieldView { title: self.title@, value: self.value@, short: self.short }
    }
}

/// The mathematical content of an [`Attachment`].
pub struct AttachmentView {
    pub text: Option<Seq<char>>,
    pub color: Option<Seq<char>>,
    pub fallback: Option<Seq<char>>,
    pub pretext: Option<Seq<char>>,
    pub title: Option<Seq<char>>,
    pub title_link: Option<Seq<char>>,
    pub author_name: Option<Seq<char>>,
    pub author_link: Option<Seq<char>>,
    pub author_icon: Option<Seq<char>>,
    pub image_url: Option<Seq<char>>,
    pub thumb_url: Option<Seq<char>>,
    pub footer: Option<Seq<char>>,
    pub footer_icon: Option<Seq<char>>,
    pub ts: Option<usize>,
    pub fields: Seq<FieldView>,
}

/// A rich attachment carried by a [`Response`]. Absent parts are omitted
/// from the serialized payload altogether.
pub struct Attachment {
    pub text: Option<String>,
    pub color: Option<String>,
    pub fallback: Option<String>,
    pub pretext: Option<String>,
    pub title: Option<String>,
    pub title_link: Option<String>,
    pub author_name: Option<String>,
    pub author_link: Option<String>,
    pub author_icon: Option<String>,
    pub image_url: Option<String>,
    pub thumb_url: Option<String>,
    pub footer: Option<String>,
    pub footer_icon: Option<String>,
    pub ts: Option<usize>,
    pub fields: Vec<Field>,
}

/// The view of an optional string field.
pub open spec fn opt_view(v: Option<String>) -> Option<Seq<char>> {
    match v {
        Some(s) => Some(s@),
        None => None,
    }
}

impl View for Attachment {
    type V = AttachmentView;

    open spec fn view(&self) -> AttachmentView {
        AttachmentView {
            text: opt_view(self.text),
            color: opt_view(self.color),
            fallback: opt_view(self.fallback),
            pretext: opt_view(self.pretext),
            title: opt_view(self.title),
            title_link: opt_view(self.title_link),
            author_name: opt_view(self.author_name),
            author_link: opt_view(self.author_link),
            author_icon: opt_view(self.author_icon),
            image_url: opt_view(self.image_url),
            thumb_url: opt_view(self.thumb_url),
            footer: opt_view(self.footer),
            footer_icon: opt_view(self.footer_icon),
            ts: self.ts,
            fields: self.fields@.map_values(|f: Field| f@),
        }
    }
}

/// The mathematical content of a [`Response`].
pub struct ResponseView {
    pub text: Option<Seq<char>>,
    pub response_type: Seq<char>,
    pub attachments: Seq<AttachmentView>,
}

/// A payload to reply to commands with: an optional body, a display scope
/// (visible to the invoking user only, or to the whole channel), and any
/// number of attachments.
pub struct Response {
    pub text: Option<String>,
    pub response_type: String,
    pub attachments: Vec<Attachment>,
}

impl View for Response {
    type V = ResponseView;

    open spec fn view(&self) -> ResponseView {
        ResponseView {
            text: opt_view(self.text),
            response_type: self.response_type@,
            attachments: self.attachments@.map_values(|a: Attachment| a@),
        }
    }
}

/// The view of an optional response, as handler contracts speak of it.
pub open spec fn resp_view(r: Option<Response>) -> Option<ResponseView> {
    match r {
        Some(resp) => Some(resp@),
        None => None,
    }
}

impl Response {
    /// A response displayed only for the user that issued the command.
    pub fn ephemeral(text: &str) -> (r: Response)
        ensures
            r@.text == Some(text@),
            r@.response_type == "ephemeral"@,
            r@.attachments == Seq::<AttachmentView>::empty(),
    {
        let r = Response {
            text: Some(String::from_str(text)),
            response_type: String::from_str("ephemeral"),
            attachments: Vec::new(),
        };
        proof {
            assert(r@.attachments =~= Seq::<AttachmentView>::empty());
        }
        r
    }

    /// A response displayed for anyone in the channel.
    pub fn in_channel(text: &str) -> (r: Response)
        ensures
            r@.text == Some(text@),
            r@.response_type == "in_channel"@,
            r@.attachments == Seq::<AttachmentView>::empty(),
    {
        let r = Response {
            text: Some(String::from_str(text)),
            response_type: String::from_str("in_channel"),
            attachments: Vec::new(),
        };
        proof {
            assert(r@.attachments =~= Seq::<AttachmentView>::empty());
        }
        r
    }

    /// A builder interface for constructing responses.
    pub fn builder() -> (r: ResponseBuilder)
        ensures
            r@ == (ResponseView {
                text: None,
                response_type: "ephemeral"@,
                attachments: Seq::<AttachmentView>::empty(),
            }),
    {
        ResponseBuilder::new()
    }
}

/// Accumulates the parts of a [`Response`]; the scope starts out ephemeral.
pub struct ResponseBuilder {
    pub text: Option<String>,
    pub response_type: String,
    pub attachments: Vec<Attachment>,
}

impl View for ResponseBuilder {
    type V = ResponseView;

    open spec fn view(&self) -> ResponseView {
        ResponseView {
            text: opt_view(self.text),
            response_type: self.response_type@,
            attachments: self.attachments@.map_values(|a: Attachment| a@),
        }
    }
}

impl ResponseBuilder {
    pub fn new() -> (r: ResponseBuilder)
        ensures
            r@ == (ResponseView {
                text: None,
                response_type: "ephemeral"@,
                attachments: Seq::<AttachmentView>::empty(),
            }),
    {
        let r = ResponseBuilder {
            text: None,
            response_type: String::from_str("ephemeral"),
            attachments: Vec::new(),
        };
        proof {
            assert(r@.attachments =~= Seq::<AttachmentView>::empty());
        }
        r
    }

    /// Sets the body text.
    pub fn text(self, text: &str) -> (r: ResponseBuilder)
        ensures
            r@ == (ResponseView { text: Some(text@), ..self@ }),
    {
        ResponseBuilder { text: Some(String::from_str(text)), ..self }
    }

    /// Scopes the response to the issuing user.
    pub fn ephemeral(self) -> (r: ResponseBuilder)
        ensures
            r@ == (ResponseView { response_type: "ephemeral"@, ..self@ }),
    {
        ResponseBuilder { response_type: String::from_str("ephemeral"), ..self }
    }

    /// Scopes the response to the whole channel.
    pub fn in_channel(self) -> (r: ResponseBuilder)
        ensures
            r@ == (ResponseView { response_type: "in_channel"@, ..self@ }),
    {
        ResponseBuilder { response_type: String::from_str("in_channel"), ..self }
    }

    /// Adds an attachment.
    pub fn attach(self, at: Attachment) -> (r: ResponseBuilder)
        ensures
            r@ == (ResponseView { attachments: self@.attachments.push(at@), ..self@ }),
    {
        let mut attachments = self.attachments;
        let ghost prior = attachments@;
        attachments.push(at);
        let r = ResponseBuilder { text: self.text, response_type: self.response_type, attachments };
        proof {
            assert(r@.attachments =~= prior.map_values(|a: Attachment| a@).push(at@));
        }
        r
    }

    /// The response accumulated so far.
    pub fn build(self) -> (r: Response)
        ensures
            r@ == self@,
    {
        Response { text: self.text, response_type: self.response_type, attachments: self.attachments }
    }
}

impl Attachment {
    /// An attachment with every part absent.
    pub fn new() -> (r: Attachment)
        ensures
            r@ == (AttachmentView {
                text: None,
                color: None,
                fallback: None,
                pretext: None,
                title: None,
                title_link: None,
                author_name: None,
                author_link: None,
                author_icon: None,
                image_url: None,
                thumb_url: None,
                footer: None,
                footer_icon: None,
                ts: None,
                fields: Seq::<FieldView>::empty(),
            }),
    {
        let r = Attachment {
            text: None,
            color: None,
            fallback: None,
            pretext: None,
            title: None,
            title_link: None,
            author_name: None,
            author_link: None,
            author_icon: None,
            image_url: None,
            thumb_url: None,
            footer: None,
            footer_icon: None,
            ts: None,
            fields: Vec::new(),
        };
        proof {
            assert(r@.fields =~= Seq::<FieldView>::empty());
        }
        r
    }

    /// A builder interface for constructing attachments.
    pub fn builder() -> (r: AttachmentBuilder)
        ensures
            r@ == Attachment::new_view(),
    {
        AttachmentBuilder::new()
    }

    /// The view of an attachment with every part absent.
    pub open spec fn new_view() -> AttachmentView {
        AttachmentView {
            text: None,
            color: None,
            fallback: None,
            pretext: None,
            title: None,
            title_link: None,
            author_name: None,
            author_link: None,
            author_icon: None,
            image_url: None,
            thumb_url: None,
            footer: None,
            footer_icon: None,
            ts: None,
            fields: Seq::<FieldView>::empty(),
        }
    }
}

/// Accumulates the parts of an [`Attachment`].
pub struct AttachmentBuilder {
    pub text: Option<String>,
    pub color: Option<String>,
    pub fallback: Option<String>,
    pub pretext: Option<String>,
    pub title: Option<String>,
    pub title_link: Option<String>,
    pub author_name: Option<String>,
    pub author_link: Option<String>,
    pub author_icon: Option<String>,
    pub image_url: Option<String>,
    pub thumb_url: Option<String>,
    pub footer: Option<String>,
    pub footer_icon: Option<String>,
    pub ts: Option<usize>,
    pub fields: Vec<Field>,
}

impl View for AttachmentBuilder {
    type V = AttachmentView;

    open spec fn view(&self) -> AttachmentView {
        AttachmentView {
            text: opt_view(self.text),
            color: opt_view(self.color),
            fallback: opt_view(self.fallback),
            pretext: opt_view(self.pretext),
            title: opt_view(self.title),
            title_link: opt_view(self.title_link),
            author_name: opt_view(self.author_name),
            author_link: opt_view(self.author_link),
            author_icon: opt_view(self.author_icon),
            image_url: opt_view(self.image_url),
            thumb_url: opt_view(self.thumb_url),
            footer: opt_view(self.footer),
            footer_icon: opt_view(self.footer_icon),
            ts: self.ts,
            fields: self.fields@.map_values(|f: Field| f@),
        }
    }
}

impl AttachmentBuilder {
    pub fn new() -> (r: AttachmentBuilder)
        ensures
            r@ == Attachment::new_view(),
    {
        let r = AttachmentBuilder {
            text: None,
            color: None,
            fallback: None,
            pretext: None,
            title: None,
            title_link: None,
            author_name: None,
            author_link: None,
            author_icon: None,
            image_url: None,
            thumb_url: None,
            footer: None,
            footer_icon: None,
            ts: None,
            fields: Vec::new(),
        };
        proof {
            assert(r@.fields =~= Seq::<FieldView>::empty());
        }
        r
    }

    pub fn text(self, v: &str) -> (r: AttachmentBuilder)
        ensures
            r@ == (AttachmentView { text: Some(v@), ..self@ }),
    {
        AttachmentBuilder { text: Some(String::from_str(v)), ..self }
    }

    pub fn color(self, v: &str) -> (r: AttachmentBuilder)
        ensures
            r@ == (AttachmentView { color: Some(v@), ..self@ }),
    {
        AttachmentBuilder { color: Some(String::from_str(v)), ..self }
    }

    pub fn fallback(self, v: &str) -> (r: AttachmentBuilder)
        ensures
            r@ == (AttachmentView { fallback: Some(v@), ..self@ }),
    {
        AttachmentBuilder { fallback: Some(String::from_str(v)), ..self }
    }

    pub fn pretext(self, v: &str) -> (r: AttachmentBuilder)
        ensures
            r@ == (AttachmentView { pretext: Some(v@), ..self@ }),
    {
        AttachmentBuilder { pretext: Some(String::from_str(v)), ..self }
    }

    pub fn title(self, v: &str) -> (r: AttachmentBuilder)
        ensures
            r@ == (AttachmentView { title: Some(v@), ..self@ }),
    {
        AttachmentBuilder { title: Some(String::from_str(v)), ..self }
    }

    pub fn author_name(self, v: &str) -> (r: AttachmentBuilder)
        ensures
            r@ == (AttachmentView { author_name: Some(v@), ..self@ }),
    {
        AttachmentBuilder { author_name: Some(String::from_str(v)), ..self }
    }

    pub fn author_link(self, v: &str) -> (r: AttachmentBuilder)
        ensures
            r@ == (AttachmentView { author_link: Some(v@), ..self@ }),
    {
        AttachmentBuilder { author_link: Some(String::from_str(v)), ..self }
    }

    pub fn author_icon(self, v: &str) -> (r: AttachmentBuilder)
        ensures
            r@ == (AttachmentView { author_icon: Some(v@), ..self@ }),
    {
        AttachmentBuilder { author_icon: Some(String::from_str(v)), ..self }
    }

    pub fn image_url(self, v: &str) -> (r: AttachmentBuilder)
        ensures
            r@ == (AttachmentView { image_url: Some(v@), ..self@ }),
    {
        AttachmentBuilder { image_url: Some(String::from_str(v)), ..self }
    }

    pub fn thumb_url(self, v: &str) -> (r: AttachmentBuilder)
        ensures
            r@ == (AttachmentView { thumb_url: Some(v@), ..self@ }),
    {
        AttachmentBuilder { thumb_url: Some(String::from_str(v)), ..self }
    }

    pub fn footer(self, v: &str) -> (r: AttachmentBuilder)
        ensures
            r@ == (AttachmentView { footer: Some(v@), ..self@ }),
    {
        AttachmentBuilder { footer: Some(String::from_str(v)), ..self }
    }

    pub fn footer_icon(self, v: &str) -> (r: AttachmentBuilder)
        ensures
            r@ == (AttachmentView { footer_icon: Some(v@), ..self@ }),
    {
        AttachmentBuilder { footer_icon: Some(String::from_str(v)), ..self }
    }

    pub fn field(self, f: Field) -> (r: AttachmentBuilder)
        ensures
            r@ == (AttachmentView { fields: self@.fields.push(f@), ..self@ }),
    {
        let mut fields = self.fields;
        let ghost prior = fields@;
        fields.push(f);
        let r = AttachmentBuilder { fields, ..self };
        proof {
            assert(r@.fields =~= prior.map_values(|f: Field| f@).push(r.fields@.last()@));
        }
        r
    }

    pub fn ts(self, s: usize) -> (r: AttachmentBuilder)
        ensures
            r@ == (AttachmentView { ts: Some(s), ..self@ }),
    {
        AttachmentBuilder { ts: Some(s), ..self }
    }

    /// The attachment accumulated so far.
    pub fn build(self) -> (r: Attachment)
        ensures
            r@ == self@,
    {
        Attachment {
            text: self.text,
            color: self.color,
            fallback: self.fallback,
            pretext: self.pretext,
            title: self.title,
            title_link: self.title_link,
            author_name: self.author_name,
            author_link: self.author_link,
            author_icon: self.author_icon,
            image_url: self.image_url,
            thumb_url: self.thumb_url,
            footer: self.footer,
            footer_icon: self.footer_icon,
            ts: self.ts,
            fields: self.fields,
        }
    }
}

} // verus!
