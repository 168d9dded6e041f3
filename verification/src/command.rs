//! The record of one inbound slash-command invocation, and its construction
//! from the decoded request parameters.

use vstd::prelude::*;

verus! {

use vstd::string::StringExecFns;

/// The mathematical content of a [`Command`]: each field as a sequence of
/// characters.
pub struct CommandView {
    pub token: Seq<char>,
    pub team_id: Seq<char>,
    pub team_domain: Seq<char>,
    pub channel_id: Seq<char>,
    pub channel_name: Seq<char>,
    pub user_id: Seq<char>,
    pub user_name: Seq<char>,
    pub command: Seq<char>,
    pub text: Seq<char>,
    pub response_url: Seq<char>,
}

/// One decoded slash-command invocation and the context it was triggered
/// from. A `Command` is only ever built whole, by [`Command::from_params`]
/// or field by field; it is read-only afterwards.
pub struct Command {
    pub token: String,
    pub team_id: String,
    pub team_domain: String,
    pub channel_id: String,
    pub channel_name: String,
    pub user_id: String,
    pub user_name: String,
    pub command: String,
    pub text: String,
    pub response_url: String,
}

impl View for Command {
    type V = CommandView;

    open spec fn view(&self) -> CommandView {
        CommandView {
            token: self.token@,
            team_id: self.team_id@,
            team_domain: self.team_domain@,
            channel_id: self.channel_id@,
            channel_name: self.channel_name@,
            user_id: self.user_id@,
            user_name: self.user_name@,
            command: self.command@,
            text: self.text@,
            response_url: self.response_url@,
        }
    }
}

/// The value bound to `key` in a parameter list, where a later binding of the
/// same key overrides an earlier one, as insertion into a map would.
pub open spec fn lookup(params: Seq<(String, String)>, key: Seq<char>) -> Option<Seq<char>>
    decreases params.len(),
{
    if params.len() == 0 {
        None
    } else if params.last().0@ == key {
        Some(params.last().1@)
    } else {
        lookup(params.drop_last(), key)
    }
}

/// True iff `params` binds every one of the ten fields a [`Command`] requires.
pub open spec fn complete(params: Seq<(String, String)>) -> bool {
    &&& lookup(params, "token"@) is Some
    &&& lookup(params, "team_id"@) is Some
    &&& lookup(params, "team_domain"@) is Some
    &&& lookup(params, "channel_id"@) is Some
    &&& lookup(params, "channel_name"@) is Some
    &&& lookup(params, "user_id"@) is Some
    &&& lookup(params, "user_name"@) is Some
    &&& lookup(params, "command"@) is Some
    &&& lookup(params, "text"@) is Some
    &&& lookup(params, "response_url"@) is Some
}

/// The command described by a complete parameter list.
pub open spec fn command_of(params: Seq<(String, String)>) -> CommandView {
    CommandView {
        token: lookup(params, "token"@)->Some_0,
        team_id: lookup(params, "team_id"@)->Some_0,
        team_domain: lookup(params, "team_domain"@)->Some_0,
        channel_id: lookup(params, "channel_id"@)->Some_0,
        channel_name: lookup(params, "channel_name"@)->Some_0,
        user_id: lookup(params, "user_id"@)->Some_0,
        user_name: lookup(params, "user_name"@)->Some_0,
        command: lookup(params, "command"@)->Some_0,
        text: lookup(params, "text"@)->Some_0,
        response_url: lookup(params, "response_url"@)->Some_0,
    }
}

/// The last value bound to `key` in `params`, cloned, or `None` when the key
/// is absent.
fn get_param(params: &Vec<(String, String)>, key: &String) -> (r: Option<String>)
    ensures
        match r {
            Some(v) => lookup(params@, key@) == Some(v@),
            None => lookup(params@, key@) is None,
        },
{
    let mut i: usize = params.len();
    proof {
        assert(params@.take(i as int) =~= params@);
    }
    while i > 0
        invariant
            i <= params.len(),
            lookup(params@, key@) == lookup(params@.take(i as int), key@),
        decreases i,
    {
        proof {
            assert(params@.take(i as int).last() == params@[i - 1]);
            assert(params@.take(i as int).drop_last() =~= params@.take(i - 1));
        }
        let pair = &params[i - 1];
        if pair.0 == *key {
            assert(params@[i - 1].0@ == key@);
            return Some(pair.1.clone());
        }
        assert(params@[i - 1].0@ != key@);
        i -= 1;
    }
    assert(params@.take(0int) =~= Seq::<(String, String)>::empty());
    None
}

impl Command {
    /// Builds a `Command` from the decoded request parameters. Construction
    /// is all-or-nothing: if any one of the ten required keys is absent, no
    /// `Command` is produced at all.
    pub fn from_params(params: &Vec<(String, String)>) -> (r: Option<Command>)
        ensures
            r is Some <==> complete(params@),
            r matches Some(cmd) ==> cmd@ == command_of(params@),
    {
        let token = get_param(params, &String::from_str("token"));
        let team_id = get_param(params, &String::from_str("team_id"));
        let team_domain = get_param(params, &String::from_str("team_domain"));
        let channel_id = get_param(params, &String::from_str("channel_id"));
        let channel_name = get_param(params, &String::from_str("channel_name"));
        let user_id = get_param(params, &String::from_str("user_id"));
        let user_name = get_param(params, &String::from_str("user_name"));
        let command = get_param(params, &String::from_str("command"));
        let text = get_param(params, &String::from_str("text"));
        let response_url = get_param(params, &String::from_str("response_url"));
        if let (Some(token),
            Some(team_id),
            Some(team_domain),
            Some(channel_id),
            Some(channel_name),
            Some(user_id),
            Some(user_name),
            Some(command),
            Some(text),
            Some(response_url)) = (
            token,
            team_id,
            team_domain,
            channel_id,
            channel_name,
            user_id,
            user_name,
            command,
            text,
            response_url,
        ) {
            Some(Command {
                token,
                team_id,
                team_domain,
                channel_id,
                channel_name,
                user_id,
                user_name,
                command,
                text,
                response_url,
            })
        } else {
            None
        }
    }
}

} // verus!
