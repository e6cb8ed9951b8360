use rustin::store::{Memory, ScopedStore, Store};

#[test]
fn nested_scopes_round_trip() {
    let mut scoped = Memory::new().scoped("a").scoped("b");
    scoped.set("k", "v").unwrap();
    assert_eq!(scoped.get("k").unwrap(), Some("v".to_string()));
    assert_eq!(scoped.prefix(), "b");
    assert_eq!(scoped.parent().prefix(), "a");
    let root = scoped.into_parent().into_parent();
    assert_eq!(root.get("a.b.k").unwrap(), Some("v".to_string()));
    assert_eq!(root.get("k").unwrap(), None);
}

#[test]
fn unset_key_reads_none() {
    let mut m = Memory::new();
    assert_eq!(m.get("missing").unwrap(), None);
    m.set("present", "1").unwrap();
    assert_eq!(m.get("missing").unwrap(), None);
    assert_eq!(m.get("").unwrap(), None);
}

#[test]
fn set_overwrites() {
    let mut m = Memory::new();
    m.set("k", "1").unwrap();
    m.set("j", "2").unwrap();
    m.set("k", "3").unwrap();
    assert_eq!(m.get("k").unwrap(), Some("3".to_string()));
    assert_eq!(m.get("j").unwrap(), Some("2".to_string()));
}

#[test]
fn scopes_are_separate() {
    let mut a = ScopedStore::new(Memory::new(), "one");
    a.set("k", "x").unwrap();
    let mut b = a.into_parent().scoped("two");
    assert_eq!(b.get("k").unwrap(), None);
    b.set("k", "y").unwrap();
    let root = b.into_parent();
    assert_eq!(root.get("one.k").unwrap(), Some("x".to_string()));
    assert_eq!(root.get("two.k").unwrap(), Some("y".to_string()));
}

#[test]
fn separator_is_inherited() {
    let s = Memory::new().scoped("a").scoped("b");
    assert_eq!(s.separator(), '.');
    assert_eq!(Memory::new().separator(), '.');
}
