//! Matchers decide whether a route handles a command, optionally extracting
//! named captures from its text.

use vstd::prelude::*;

verus! {

use crate::captures::{Captures, caps_view};
use crate::command::{Command, CommandView};
use crate::text::starts_with;

#[verifier::external_type_specification]
#[verifier::external_body]
pub struct ExRegex(regex::Regex);

/// Whether `regex::Regex::new` accepts `pattern`: a function of the pattern
/// text alone.
pub uninterp spec fn regex_compiles(pattern: Seq<char>) -> bool;

/// Whether the compiled `pattern` matches anywhere in `text`, as
/// `regex::Regex::is_match` decides it: a function of the two texts alone.
pub uninterp spec fn regex_is_match(pattern: Seq<char>, text: Seq<char>) -> bool;

/// The named capture groups of `pattern` that participate in its first match
/// in `text`, each with the substring it captured, as `regex::Regex::captures`
/// reports them: a function of the two texts alone.
pub uninterp spec fn regex_named_captures(pattern: Seq<char>, text: Seq<char>) -> Map<
    Seq<char>,
    Seq<char>,
>;

/// A direct command matcher: accepts a command iff its slash-command name
/// equals the configured string. Never yields captures.
pub struct MatchCommand(pub String);

impl MatchCommand {
    /// Whether this matcher accepts `cmd`.
    pub open spec fn spec_matches(&self, cmd: CommandView) -> bool {
        cmd.command == self.0@
    }

    pub fn matches(&self, cmd: &Command) -> (r: (Option<Captures>, bool))
        ensures
            r.1 == self.spec_matches(cmd@),
            r.0 is None,
    {
        (None, cmd.command == self.0)
    }
}

/// A matcher that takes any text starting with the configured string for a
/// subcommand, as in `/cmd help`. Never yields captures.
pub struct MatchSubCommand(pub String);

impl MatchSubCommand {
    /// Whether this matcher accepts `cmd`.
    pub open spec fn spec_matches(&self, cmd: CommandView) -> bool {
        self.0@.is_prefix_of(cmd.text)
    }

    pub fn matches(&self, cmd: &Command) -> (r: (Option<Captures>, bool))
        ensures
            r.1 == self.spec_matches(cmd@),
            r.0 is None,
    {
        (None, starts_with(cmd.text.as_str(), self.0.as_str()))
    }
}

/// A pattern matcher for command text. On a match, the pattern's named
/// captures are provided to the matched handler. The compiled program and
/// the pattern it came from never part ways: both are set together by
/// [`MatchText::new`] and fixed afterwards, which the contracts of the
/// trusted calls below lean on.
pub struct MatchText {
    pattern: String,
    regex: regex::Regex,
}

impl MatchText {
    /// The pattern this matcher was compiled from.
    pub closed spec fn spec_pattern(&self) -> Seq<char> {
        self.pattern@
    }

    /// Relies on `regex::Regex::new`: whether a pattern compiles is a
    /// function of the pattern text alone, here named `regex_compiles`.
    #[verifier::external_body]
    pub fn new(pattern: &str) -> (r: Option<MatchText>)
        ensures
            r is Some <==> regex_compiles(pattern@),
            r matches Some(m) ==> m.spec_pattern() == pattern@,
    {
        match regex::Regex::new(pattern) {
            Ok(regex) => Some(MatchText { pattern: pattern.to_owned(), regex }),
            Err(_) => None,
        }
    }

    /// Whether this matcher accepts `cmd`.
    pub open spec fn spec_matches(&self, cmd: CommandView) -> bool {
        regex_is_match(self.spec_pattern(), cmd.text)
    }

    /// The captures this matcher yields for `cmd`: on a match, exactly the
    /// participating named groups; otherwise nothing.
    pub open spec fn spec_captures(&self, cmd: CommandView) -> Option<Map<Seq<char>, Seq<char>>> {
        if regex_is_match(self.spec_pattern(), cmd.text) {
            Some(regex_named_captures(self.spec_pattern(), cmd.text))
        } else {
            None
        }
    }

    pub fn matches(&self, cmd: &Command) -> (r: (Option<Captures>, bool))
        ensures
            r.1 == self.spec_matches(cmd@),
            caps_view(r.0) == self.spec_captures(cmd@),
    {
        regex_search(self, cmd.text.as_str())
    }
}

/// Relies on `regex::Regex::captures` (a match exists iff it returns a value,
/// as `regex::Regex::is_match` decides it, here named `regex_is_match`), and
/// on `regex::Regex::capture_names` with `regex::Captures::name` to read out
/// the named groups that participated, here named `regex_named_captures`.
#[verifier::external_body]
fn regex_search(m: &MatchText, text: &str) -> (r: (Option<Captures>, bool))
    ensures
        r.1 == regex_is_match(m.spec_pattern(), text@),
        caps_view(r.0) == (if regex_is_match(m.spec_pattern(), text@) {
            Some(regex_named_captures(m.spec_pattern(), text@))
        } else {
            None::<Map<Seq<char>, Seq<char>>>
        }),
{
    match m.regex.captures(text) {
        Some(caps) => {
            let mut pairs: Vec<(String, String)> = Vec::new();
            for name in m.regex.capture_names().flatten() {
                if let Some(got) = caps.name(name) {
                    pairs.push((name.to_owned(), got.as_str().to_owned()));
                }
            }
            (Some(Captures { pairs }), true)
        },
        None => (None, false),
    }
}

/// A matcher bound into a route: one of the built-in matching strategies.
pub enum Matcher {
    /// Accepts a command whose slash-command name equals the configured
    /// string.
    Command(MatchCommand),
    /// Accepts a command whose text starts with the configured prefix.
    SubCommand(MatchSubCommand),
    /// Accepts a command whose text matches the configured pattern,
    /// collecting named captures.
    Text(MatchText),
}

impl Matcher {
    /// Whether this matcher accepts `cmd`.
    pub open spec fn spec_matches(&self, cmd: CommandView) -> bool {
        match self {
            Matcher::Command(m) => m.spec_matches(cmd),
            Matcher::SubCommand(m) => m.spec_matches(cmd),
            Matcher::Text(m) => m.spec_matches(cmd),
        }
    }

    /// The captures this matcher yields for `cmd`; only a pattern matcher
    /// ever yields any.
    pub open spec fn spec_captures(&self, cmd: CommandView) -> Option<Map<Seq<char>, Seq<char>>> {
        match self {
            Matcher::Text(m) => m.spec_captures(cmd),
            _ => None::<Map<Seq<char>, Seq<char>>>,
        }
    }

    /// Decides the match: optional captures, and whether the command is
    /// matched.
    pub fn matches(&self, cmd: &Command) -> (r: (Option<Captures>, bool))
        ensures
            r.1 == self.spec_matches(cmd@),
            caps_view(r.0) == self.spec_captures(cmd@),
    {
        match self {
            Matcher::Command(m) => m.matches(cmd),
            Matcher::SubCommand(m) => m.matches(cmd),
            Matcher::Text(m) => m.matches(cmd),
        }
    }
}

} // verus!
