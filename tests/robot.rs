use rustin::config::Config;
use rustin::handler::Action;
use rustin::message::{IncomingMessage, OutgoingMessage, Source, Target};
use rustin::result::{Error, ErrorKind};
use rustin::robot::{Command, Dispatch, Event, Handle, Phase, Robot, RouteFailure};
use rustin::route::{matching_routes, Route};
use rustin::store::{Memory, Store};
use rustin::user::User;

struct NullChat;

struct Outcome<S> {
    store: S,
    invoked: Vec<usize>,
    sent: Vec<OutgoingMessage>,
    failures: Vec<RouteFailure>,
}

/// Runs one message through the routes, the way a run loop does, with sends that succeed
/// unless their body is "fail".
fn deliver<F, S: Store>(
    routes: &Vec<Route<F>>,
    store: S,
    message: &IncomingMessage,
    call: &dyn Fn(&F, &mut Handle<S>) -> Result<Vec<Action>, Error>,
) -> Outcome<S> {
    let mut dispatch = Dispatch::new(matching_routes(routes, message));
    let mut store = Some(store);
    let mut pending: Vec<Action> = Vec::new();
    let mut invoked = Vec::new();
    let mut sent = Vec::new();
    let mut command = dispatch.start();
    loop {
        command = match command {
            Command::Invoke(i) => {
                invoked.push(i);
                let route = &routes[i];
                let mut handle = Handle::new(message.clone(), route.namespace(), store.take().unwrap());
                let result = call(route.callback(), &mut handle);
                store = Some(handle.into_store());
                match result {
                    Ok(actions) => {
                        pending = actions.into_iter().rev().collect();
                        dispatch.step(Event::Invoked(Ok(())))
                    }
                    Err(e) => dispatch.step(Event::Invoked(Err(e))),
                }
            }
            Command::Pull => dispatch.step(Event::Pulled(pending.pop().map(Ok))),
            Command::Send(m) => {
                let failed = m.body() == "fail";
                sent.push(m);
                if failed {
                    dispatch.step(Event::Sent(Err(Error::custom("send failed"))))
                } else {
                    dispatch.step(Event::Sent(Ok(())))
                }
            }
            Command::Done => break,
        };
    }
    assert_eq!(dispatch.phase(), Phase::Finished);
    Outcome { store: store.unwrap(), invoked, sent, failures: dispatch.into_failures() }
}

fn direct(body: &str) -> IncomingMessage {
    IncomingMessage::new(Source::User(User::new("42", Some("alice"), Some("Alice"))), body.to_string(), 0)
}

fn welcome_back<S: Store>(handle: &mut Handle<S>) -> Result<Vec<Action>, Error> {
    let id = handle.user().id().to_owned();
    match handle.get(&id)? {
        Some(_) => {
            let name = handle.user().display_name().unwrap_or(&id).to_owned();
            Ok(vec![handle.reply(&format!("Hello again, {}!", name))])
        }
        None => {
            handle.set(&id, "1")?;
            Ok(Vec::new())
        }
    }
}

struct WelcomeBack;

impl WelcomeBack {
    fn call<S: Store>(&self, handle: &mut Handle<S>) -> Result<Vec<Action>, Error> {
        welcome_back(handle)
    }
}

fn check_welcome_back<F>(robot: Robot<NullChat, Memory, F>, call: &dyn Fn(&F, &mut Handle<Memory>) -> Result<Vec<Action>, Error>) {
    let (_chat, _config, routes, store) = robot.into_parts();
    let first = deliver(&routes, store, &direct("hi"), call);
    assert_eq!(first.invoked, vec![0]);
    assert!(first.sent.is_empty());
    assert_eq!(first.store.get("welcome.back.42").unwrap(), Some("1".to_string()));

    let second = deliver(&routes, first.store, &direct("hi again"), call);
    assert_eq!(second.sent.len(), 1);
    assert_eq!(second.sent[0].body(), "Hello again, Alice!");
    assert!(matches!(second.sent[0].target(), Target::User(u) if u.id() == "42"));
    assert_eq!(second.store.get("welcome.back.42").unwrap(), Some("1".to_string()));
    assert!(second.failures.is_empty());
}

#[test]
fn manual_callback() {
    let robot = Robot::build(Config::default(), NullChat, Memory::new())
        .route(Route::new(r".*", true, "welcome.back", WelcomeBack).unwrap())
        .finish();
    check_welcome_back(robot, &|cb: &WelcomeBack, h: &mut Handle<Memory>| cb.call(h));
}

#[test]
fn fn_stateful_callback() {
    let robot = Robot::build(Config::default(), NullChat, Memory::new())
        .route(Route::new(r".*", true, "welcome.back", welcome_back::<Memory> as fn(&mut Handle<Memory>) -> Result<Vec<Action>, Error>).unwrap())
        .finish();
    check_welcome_back(robot, &|cb: &fn(&mut Handle<Memory>) -> Result<Vec<Action>, Error>, h: &mut Handle<Memory>| cb(h));
}

type Callback = fn(&mut Handle<Memory>) -> Result<Vec<Action>, Error>;

fn echo(handle: &mut Handle<Memory>) -> Result<Vec<Action>, Error> {
    Ok(vec![handle.reply(handle.message_body())])
}

fn silent(_handle: &mut Handle<Memory>) -> Result<Vec<Action>, Error> {
    Ok(Vec::new())
}

fn broken(_handle: &mut Handle<Memory>) -> Result<Vec<Action>, Error> {
    Err(Error::custom("callback failed"))
}

fn three_replies(handle: &mut Handle<Memory>) -> Result<Vec<Action>, Error> {
    Ok(vec![handle.reply("one"), handle.reply("fail"), handle.reply("three")])
}

fn call(cb: &Callback, handle: &mut Handle<Memory>) -> Result<Vec<Action>, Error> {
    cb(handle)
}

#[test]
fn echo_replies_once_to_the_source() {
    let robot = Robot::build(Config::default(), NullChat, Memory::new())
        .route(Route::new(".*", true, "echo", echo as Callback).unwrap())
        .finish();
    let (_chat, _config, routes, store) = robot.into_parts();
    let out = deliver(&routes, store, &direct("hello"), &call);
    assert_eq!(out.sent.len(), 1);
    assert_eq!(out.sent[0].body(), "hello");
    assert!(matches!(out.sent[0].target(), Target::User(u) if u.id() == "42"));
}

#[test]
fn echo_in_room_replies_to_room() {
    let routes = vec![Route::new(".*", true, "echo", echo as Callback).unwrap()];
    let source = Source::UserInRoom(User::new("7", None, None), rustin::room::Room::new("r1", Some("general")));
    let message = IncomingMessage::new(source, "hey".to_string(), 0);
    let out = deliver(&routes, Memory::new(), &message, &call);
    assert_eq!(out.sent.len(), 1);
    assert!(matches!(out.sent[0].target(), Target::Room(r) if r.id() == "r1"));
}

#[test]
fn empty_action_sequence_sends_nothing() {
    let routes = vec![Route::new(".*", true, "quiet", silent as Callback).unwrap()];
    let out = deliver(&routes, Memory::new(), &direct("hello"), &call);
    assert_eq!(out.invoked, vec![0]);
    assert!(out.sent.is_empty());
    assert!(out.failures.is_empty());
}

#[test]
fn routes_fire_in_registration_order() {
    let routes = vec![
        Route::new("^h", true, "a", silent as Callback).unwrap(),
        Route::new("^x", true, "b", silent as Callback).unwrap(),
        Route::new("llo$", true, "c", silent as Callback).unwrap(),
        Route::new(".*", false, "d", silent as Callback).unwrap(),
        Route::new("", true, "e", silent as Callback).unwrap(),
    ];
    let out = deliver(&routes, Memory::new(), &direct("hello"), &call);
    assert_eq!(out.invoked, vec![0, 2, 4]);
    let robot = routes.into_iter().fold(Robot::build(Config::default(), NullChat, Memory::new()), |b, r| b.route(r)).finish();
    assert_eq!(robot.matching_routes(&direct("hello")), vec![0, 2, 4]);
    assert_eq!(robot.routes().len(), 5);
}

#[test]
fn directed_message_reaches_non_eavesdropping_routes() {
    let routes = vec![
        Route::new("hello", false, "a", silent as Callback).unwrap(),
        Route::new("hello", true, "b", silent as Callback).unwrap(),
    ];
    let undirected = direct("hello");
    assert!(!routes[0].eligible(&undirected));
    assert!(routes[1].eligible(&undirected));
    assert!(!routes[0].matches(&undirected));
    assert!(routes[1].matches(&undirected));
    let directed = IncomingMessage::new(Source::User(User::new("1", None, None)), "bot hello".to_string(), 4);
    assert!(routes[0].eligible(&directed));
    assert!(routes[0].matches(&directed));
    assert!(routes[1].matches(&directed));
    let other = IncomingMessage::new(Source::User(User::new("1", None, None)), "bot bye".to_string(), 4);
    assert!(!routes[0].matches(&other));
    assert!(!routes[1].matches(&other));
}

#[test]
fn failing_callback_does_not_stop_other_routes() {
    let routes = vec![
        Route::new(".*", true, "broken", broken as Callback).unwrap(),
        Route::new(".*", true, "echo", echo as Callback).unwrap(),
    ];
    let out = deliver(&routes, Memory::new(), &direct("hello"), &call);
    assert_eq!(out.invoked, vec![0, 1]);
    assert_eq!(out.sent.len(), 1);
    assert_eq!(out.failures.len(), 1);
    assert_eq!(out.failures[0].route, 0);
    assert!(matches!(out.failures[0].error.kind(), ErrorKind::Custom(m) if m == "callback failed"));
}

#[test]
fn failed_send_skips_the_rest_of_the_sequence() {
    let routes = vec![
        Route::new(".*", true, "three", three_replies as Callback).unwrap(),
        Route::new(".*", true, "echo", echo as Callback).unwrap(),
    ];
    let out = deliver(&routes, Memory::new(), &direct("hello"), &call);
    let bodies: Vec<&str> = out.sent.iter().map(|m| m.body()).collect();
    assert_eq!(bodies, vec!["one", "fail", "hello"]);
    assert_eq!(out.failures.len(), 1);
    assert_eq!(out.failures[0].route, 0);
}

#[test]
fn dispatch_without_matching_routes_is_done_at_once() {
    let mut dispatch = Dispatch::new(Vec::new());
    assert!(matches!(dispatch.start(), Command::Done));
    assert_eq!(dispatch.phase(), Phase::Finished);
    assert!(!dispatch.expects(&Event::Pulled(None)));
}

#[test]
fn dispatch_steps_through_commands() {
    let mut dispatch = Dispatch::new(vec![3, 5]);
    assert!(matches!(dispatch.start(), Command::Invoke(3)));
    assert!(dispatch.expects(&Event::Invoked(Ok(()))));
    assert!(matches!(dispatch.step(Event::Invoked(Ok(()))), Command::Pull));
    let m = direct("x").reply("pong");
    assert!(matches!(dispatch.step(Event::Pulled(Some(Ok(Action::SendMessage(m))))), Command::Send(ref s) if s.body() == "pong"));
    assert_eq!(dispatch.phase(), Phase::Sending);
    assert!(matches!(dispatch.step(Event::Sent(Ok(()))), Command::Pull));
    assert!(matches!(dispatch.step(Event::Pulled(Some(Err(Error::custom("bad"))))), Command::Invoke(5)));
    assert!(matches!(dispatch.step(Event::Invoked(Err(Error::custom("worse")))), Command::Done));
    let failures = dispatch.into_failures();
    assert_eq!(failures.iter().map(|f| f.route).collect::<Vec<_>>(), vec![3, 5]);
}

#[test]
fn invalid_pattern_is_rejected() {
    let r = Route::new("(unclosed", true, "x", silent as Callback);
    assert!(matches!(r, Err(ref e) if matches!(e.kind(), ErrorKind::Regex(_))));
}

#[test]
fn route_accessors() {
    let r = Route::new("^ping$", false, "pinger", silent as Callback).unwrap();
    assert!(!r.eavesdrop());
    assert_eq!(r.namespace(), "pinger");
    assert_eq!(r.pattern().as_str(), "^ping$");
    assert!(r.pattern().regex().is_match("ping"));
}

#[test]
fn config_default_has_no_alias() {
    assert!(Config::default().alias.is_none());
}

#[test]
fn errors_convert_from_messages_and_patterns() {
    let e: Error = String::from("boom").into();
    assert!(matches!(e.kind(), ErrorKind::Custom(m) if m == "boom"));
    let bad = regex::Regex::new("(").unwrap_err();
    let e: Error = bad.into();
    assert!(matches!(e.kind(), ErrorKind::Regex(_)));
}
