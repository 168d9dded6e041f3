use std::cell::Cell;
use std::rc::Rc;
use std::sync::atomic::{AtomicU32, Ordering};
use std::sync::{Arc, Mutex};

use commodore::{
    Captures, Command, DefaultResponder, DiscardResponder, Handler, MatchCommand,
    MatchSubCommand, Matcher, Mux, Responder, Response, TokenValidator,
};

fn command(command: &str, text: &str, token: &str, response_url: &str) -> Command {
    Command {
        token: token.to_string(),
        team_id: "T1".to_string(),
        team_domain: "example".to_string(),
        channel_id: "C1".to_string(),
        channel_name: "general".to_string(),
        user_id: "U1".to_string(),
        user_name: "crew".to_string(),
        command: command.to_string(),
        text: text.to_string(),
        response_url: response_url.to_string(),
    }
}

/// Replies with a fixed ephemeral text and counts how often it ran.
struct CountingHandler {
    hits: Rc<Cell<u32>>,
    reply: &'static str,
}

impl Handler for CountingHandler {
    fn handle<R: Responder>(
        &self,
        _cmd: &Command,
        _caps: &Option<Captures>,
        _responder: R,
    ) -> Option<Response> {
        self.hits.set(self.hits.get() + 1);
        Some(Response::ephemeral(self.reply))
    }
}

/// Echoes a capture back, to show captures reach the handler.
struct EchoCapture;

impl Handler for EchoCapture {
    fn handle<R: Responder>(
        &self,
        _cmd: &Command,
        caps: &Option<Captures>,
        _responder: R,
    ) -> Option<Response> {
        let caps = caps.as_ref()?;
        let dir = caps.name(&"dir".to_string())?;
        Some(Response::in_channel(&dir))
    }
}

#[test]
fn first_match_wins() {
    let first_hits = Rc::new(Cell::new(0));
    let second_hits = Rc::new(Cell::new(0));
    let mut mux: Mux<CountingHandler> = Mux::new();
    mux.matching(
        Matcher::SubCommand(MatchSubCommand("go".to_owned())),
        CountingHandler { hits: first_hits.clone(), reply: "first" },
    );
    mux.matching(
        Matcher::SubCommand(MatchSubCommand(String::new())),
        CountingHandler { hits: second_hits.clone(), reply: "second" },
    );
    let cmd = command("/x", "go north", "", "");
    let reply = mux.handle(&cmd, &None, DiscardResponder);
    assert_eq!(reply.unwrap().text, Some("first".to_string()));
    assert_eq!(first_hits.get(), 1);
    assert_eq!(second_hits.get(), 0);
}

#[test]
fn no_routes_returns_nothing() {
    let mux: Mux<CountingHandler> = Mux::new();
    let cmd = command("/anything", "at all", "t", "u");
    assert!(mux.handle(&cmd, &None, DiscardResponder).is_none());
}

#[test]
fn no_matching_route_returns_nothing() {
    let hits = Rc::new(Cell::new(0));
    let mut mux: Mux<CountingHandler> = Mux::new();
    mux.matching(
        Matcher::Command(MatchCommand("/only".to_owned())),
        CountingHandler { hits: hits.clone(), reply: "never" },
    );
    let cmd = command("/other", "", "", "");
    assert!(mux.handle(&cmd, &None, DiscardResponder).is_none());
    assert_eq!(hits.get(), 0);
}

#[test]
fn token_validator_gates_inner_handler() {
    let hits = Rc::new(Cell::new(0));
    let validator = TokenValidator::new(
        CountingHandler { hits: hits.clone(), reply: "ok" },
        "T".to_string(),
    );
    let good = command("/c", "", "T", "");
    let reply = validator.handle(&good, &None, DiscardResponder);
    assert_eq!(reply.unwrap().text, Some("ok".to_string()));
    assert_eq!(hits.get(), 1);
    let bad = command("/c", "", "wrong", "");
    assert!(validator.handle(&bad, &None, DiscardResponder).is_none());
    assert_eq!(hits.get(), 1);
}

#[test]
fn ping_round_trip_with_token() {
    let hits = Rc::new(Cell::new(0));
    let mut mux: Mux<CountingHandler> = Mux::new();
    mux.command(
        "/ping".to_string(),
        "secret".to_string(),
        CountingHandler { hits: hits.clone(), reply: "pong" },
    );
    let good = command("/ping", "", "secret", "https://callback.example/1");
    let reply = mux.handle(&good, &None, DiscardResponder);
    assert_eq!(reply.unwrap().text, Some("pong".to_string()));
    assert_eq!(hits.get(), 1);
    let wrong = command("/ping", "", "wrong", "https://callback.example/1");
    assert!(mux.handle(&wrong, &None, DiscardResponder).is_none());
    assert_eq!(hits.get(), 1);
}

#[test]
fn captures_reach_the_handler() {
    let mut mux: Mux<EchoCapture> = Mux::new();
    mux.matching(
        Matcher::Text(commodore::MatchText::new(r"go (?P<dir>\w+)").unwrap()),
        EchoCapture,
    );
    let cmd = command("/x", "go north", "", "");
    let reply = mux.handle(&cmd, &None, DiscardResponder);
    assert_eq!(reply.unwrap().text, Some("north".to_string()));
}

#[test]
fn nested_mux_acts_as_handler() {
    let hits = Rc::new(Cell::new(0));
    let mut inner: Mux<CountingHandler> = Mux::new();
    inner.matching(
        Matcher::SubCommand(MatchSubCommand("deep".to_owned())),
        CountingHandler { hits: hits.clone(), reply: "nested" },
    );
    let mut outer: Mux<Mux<CountingHandler>> = Mux::new();
    outer.matching(Matcher::SubCommand(MatchSubCommand(String::new())), inner);
    let cmd = command("/x", "deep dive", "", "");
    let reply = outer.handle(&cmd, &None, DiscardResponder);
    assert_eq!(reply.unwrap().text, Some("nested".to_string()));
    assert_eq!(hits.get(), 1);
}

/// Returns nothing at once; the reply goes later through the responder, as
/// a handler doing slow work in the background would send it.
struct SlowHandler;

impl Handler for SlowHandler {
    fn handle<R: Responder>(
        &self,
        _cmd: &Command,
        _caps: &Option<Captures>,
        responder: R,
    ) -> Option<Response> {
        responder.respond(Response::in_channel("done"));
        None
    }
}

/// Records every delivery it is asked to make, standing in for the
/// transport that would perform the POST.
struct RecordingResponder {
    posts: Arc<AtomicU32>,
    last: Arc<Mutex<Option<(String, String)>>>,
    target: DefaultResponder,
}

impl Responder for RecordingResponder {
    fn respond(&self, response: Response) {
        let (url, body) = self.target.delivery(&response);
        self.posts.fetch_add(1, Ordering::SeqCst);
        *self.last.lock().unwrap() = Some((url, body));
    }
}

#[test]
fn deferred_reply_is_one_post_to_the_callback() {
    let mut mux: Mux<SlowHandler> = Mux::new();
    mux.matching(Matcher::Command(MatchCommand("/slow".to_owned())), SlowHandler);
    let cmd = command("/slow", "", "", "https://callback.example/hook");
    let posts = Arc::new(AtomicU32::new(0));
    let last = Arc::new(Mutex::new(None));
    let responder = RecordingResponder {
        posts: posts.clone(),
        last: last.clone(),
        target: DefaultResponder::new(cmd.response_url.clone()),
    };
    let immediate = mux.handle(&cmd, &None, responder);
    assert!(immediate.is_none());
    assert_eq!(posts.load(Ordering::SeqCst), 1);
    let (url, body) = last.lock().unwrap().take().expect("a delivery was recorded");
    assert_eq!(url, "https://callback.example/hook");
    assert_eq!(body, r#"{"text":"done","response_type":"in_channel"}"#);
}

#[test]
fn fn_handler_adapts_closures() {
    let mut mux = Mux::new();
    mux.matching(
        Matcher::Command(MatchCommand("/echo".to_owned())),
        commodore::FnHandler::new(|cmd: &Command, _caps: &Option<Captures>| {
            Some(Response::ephemeral(&cmd.text))
        }),
    );
    let cmd = command("/echo", "hello", "", "");
    let reply = mux.handle(&cmd, &None, DiscardResponder);
    assert_eq!(reply.unwrap().text, Some("hello".to_string()));
}

#[test]
fn route_registration_feeds_the_scan() {
    let hits = Rc::new(Cell::new(0));
    let mut mux: Mux<CountingHandler> = Mux::new();
    mux.route(commodore::Route::new(
        Matcher::Command(MatchCommand("/direct".to_owned())),
        CountingHandler { hits: hits.clone(), reply: "routed" },
    ));
    let cmd = command("/direct", "", "", "");
    assert!(mux.handler(&cmd).is_some());
    assert!(mux.handler(&command("/other", "", "", "")).is_none());
    let reply = mux.handle(&cmd, &None, DiscardResponder);
    assert_eq!(reply.unwrap().text, Some("routed".to_string()));
    assert_eq!(hits.get(), 1);
}

#[test]
fn discard_responder_swallows_replies() {
    DiscardResponder.respond(Response::ephemeral("nobody hears this"));
}

#[test]
fn default_responder_shapes_the_post() {
    let responder = DefaultResponder::new("https://callback.example/2".to_string());
    let (url, body) = responder.delivery(&Response::ephemeral("later"));
    assert_eq!(url, "https://callback.example/2");
    assert_eq!(body, r#"{"text":"later","response_type":"ephemeral"}"#);
}
