use rustin::message::{IncomingMessage, OutgoingMessage, Source, Target};
use rustin::robot::Handle;
use rustin::handler::Action;
use rustin::room::Room;
use rustin::store::{Memory, Store};
use rustin::user::User;

fn in_room() -> IncomingMessage {
    IncomingMessage::new(
        Source::UserInRoom(User::new("u1", Some("bob"), None), Room::new("r1", None)),
        "Rustin: do it".to_string(),
        8,
    )
}

#[test]
fn body_drops_the_mention() {
    let m = in_room();
    assert_eq!(m.body(), "do it");
    assert_eq!(m.raw_body(), "Rustin: do it");
    assert_eq!(m.mention_offset(), 8);
}

#[test]
fn body_after_multibyte_mention() {
    let m = IncomingMessage::new(Source::User(User::new("1", None, None)), "ünï rest".to_string(), 5);
    assert_eq!(m.body(), " rest");
}

#[test]
fn replies_pick_their_targets() {
    let m = in_room();
    assert!(matches!(m.reply("a").target(), Target::Room(r) if r.id() == "r1"));
    assert!(matches!(m.reply_privately("b").target(), Target::User(u) if u.id() == "u1"));
    assert!(matches!(m.reply_with_mention("c").target(), Target::UserInRoom(u, r) if u.id() == "u1" && r.id() == "r1"));
    assert_eq!(m.reply_with_mention("c").body(), "c");

    let d = IncomingMessage::new(Source::User(User::new("u2", None, None)), "x".to_string(), 0);
    assert!(matches!(d.reply("a").target(), Target::User(u) if u.id() == "u2"));
    assert!(matches!(d.reply_privately("a").target(), Target::User(u) if u.id() == "u2"));
    assert!(matches!(d.reply_with_mention("a").target(), Target::User(u) if u.id() == "u2"));
}

#[test]
fn room_and_user_of_a_message() {
    let m = in_room();
    assert_eq!(m.room().map(|r| r.id()), Some("r1"));
    assert_eq!(m.user().id(), "u1");
    let d = IncomingMessage::new(Source::User(User::new("u2", None, None)), "x".to_string(), 0);
    assert!(d.room().is_none());
    assert!(d.source().room().is_none());
    assert_eq!(d.source().user().id(), "u2");
}

#[test]
fn user_names_fall_back() {
    let full = User::new("1", Some("nick"), Some("Nick Name"));
    assert_eq!(full.username(), Some("nick"));
    assert_eq!(full.display_name(), Some("Nick Name"));
    let bare = User::new("1", None, None);
    assert_eq!(bare.id(), "1");
    assert_eq!(bare.username(), Some("1"));
    assert_eq!(bare.display_name(), Some("1"));
    let partial = User::new("2", Some("n"), None);
    assert_eq!(partial.display_name(), Some("n"));
}

#[test]
fn room_accessors() {
    let r = Room::new("id", Some("name"));
    assert_eq!(r.id(), "id");
    assert_eq!(r.name(), Some("name"));
    assert_eq!(Room::new("id", None).name(), None);
}

#[test]
fn outgoing_message_holds_body_and_target() {
    let m = OutgoingMessage::new(Target::User(User::new("9", None, None)), "hi");
    assert_eq!(m.body(), "hi");
    assert!(matches!(m.target(), Target::User(u) if u.id() == "9"));
    let copy = m.clone();
    assert_eq!(copy.body(), "hi");
}

#[test]
fn handle_scopes_keys_to_namespace() {
    let mut h = Handle::new(in_room(), "ns", Memory::new());
    assert_eq!(h.namespace(), "ns");
    assert_eq!(h.message_body(), "do it");
    assert_eq!(h.get("k").unwrap(), None);
    h.set("k", "v").unwrap();
    assert_eq!(h.get("k").unwrap(), Some("v".to_string()));
    assert_eq!(h.store().get("ns.k").unwrap(), Some("v".to_string()));
    assert_eq!(h.user().id(), "u1");
    assert_eq!(h.room().map(|r| r.id()), Some("r1"));
    assert!(matches!(h.reply_privately("p"), Action::SendMessage(ref m) if m.body() == "p" && matches!(m.target(), Target::User(_))));
    assert!(matches!(h.reply_with_mention("q"), Action::SendMessage(ref m) if matches!(m.target(), Target::UserInRoom(_, _))));
    assert_eq!(h.message().raw_body(), "Rustin: do it");
    let root = h.into_store();
    assert_eq!(root.get("ns.k").unwrap(), Some("v".to_string()));
}
