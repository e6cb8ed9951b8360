//! Types for persisting data.

use vstd::prelude::*;
use vstd::string::StringExecFns;

use crate::result::Error;
use crate::user::opt_view;

verus! {

/// Relies on `String::push`: the character is appended at the end.
pub assume_specification[ String::push ](s: &mut String, ch: char)
    ensures
        final(s)@ == old(s)@.push(ch),
;

/// The value held under `key`, if any.
pub open spec fn lookup(entries: Map<Seq<char>, Seq<char>>, key: Seq<char>) -> Option<Seq<char>> {
    if entries.contains_key(key) {
        Some(entries[key])
    } else {
        None
    }
}

/// The key under which a scope with `prefix` keeps `key` in its parent.
pub open spec fn scoped_key(prefix: Seq<char>, separator: char, key: Seq<char>) -> Seq<char> {
    prefix + seq![separator] + key
}

/// Persistent data storage for the robot.
pub trait Store: Sized {
    /// The entries visible through this store.
    spec fn entries(&self) -> Map<Seq<char>, Seq<char>>;

    /// The character placed between a scope's prefix and its keys.
    spec fn spec_separator(&self) -> char;

    /// Whether every operation on this store succeeds.
    spec fn infallible(&self) -> bool;

    /// The prefixes of the scopes this store lies under, outermost first.
    spec fn prefixes(&self) -> Seq<Seq<char>>;

    /// Everything held by the store at the root of this one.
    spec fn root_entries(&self) -> Map<Seq<char>, Seq<char>>;

    /// The key under which the root store keeps `key` of this one.
    spec fn root_key(&self, key: Seq<char>) -> Seq<char>;

    /// Gets the value of the given key, if any.
    fn get(&self, key: &str) -> (r: Result<Option<String>, Error>)
        ensures
            self.infallible() ==> r is Ok,
            r is Ok ==> opt_view(r->Ok_0) == lookup(self.entries(), key@),
    ;

    /// Sets the given key to the given value.
    fn set(&mut self, key: &str, value: &str) -> (r: Result<(), Error>)
        ensures
            old(self).infallible() ==> r is Ok,
            r is Ok ==> final(self).entries() == old(self).entries().insert(key@, value@),
            final(self).spec_separator() == old(self).spec_separator(),
            final(self).infallible() == old(self).infallible(),
            final(self).prefixes() == old(self).prefixes(),
            forall|k: Seq<char>| #[trigger] final(self).root_key(k) == old(self).root_key(k),
            r is Ok ==> final(self).root_entries() == old(self).root_entries().insert(
                old(self).root_key(key@),
                value@,
            ),
    ;

    /// Returns the character used to separate each nested scope created by `scoped`.
    fn separator(&self) -> (r: char)
        ensures
            r == self.spec_separator(),
    ;
}

/// The entries of a list of pairs; where a key occurs more than once, the first pair counts.
pub open spec fn entries_of(data: Seq<(String, String)>) -> Map<Seq<char>, Seq<char>>
    decreases data.len(),
{
    if data.len() == 0 {
        Map::empty()
    } else {
        entries_of(data.drop_first()).insert(data[0].0@, data[0].1@)
    }
}

/// No pair before `i` has the key `key`.
pub open spec fn absent_before(data: Seq<(String, String)>, key: Seq<char>, i: int) -> bool {
    forall|j: int| 0 <= j < i ==> (#[trigger] data[j]).0@ != key
}

/// The first pair with a key gives its value.
proof fn lemma_first_entry(data: Seq<(String, String)>, i: int)
    requires
        0 <= i < data.len(),
        absent_before(data, data[i].0@, i),
    ensures
        entries_of(data).contains_key(data[i].0@),
        entries_of(data)[data[i].0@] == data[i].1@,
    decreases i,
{
    if i > 0 {
        let rest = data.drop_first();
        assert(rest[i - 1] == data[i]);
        assert forall|j: int| 0 <= j < i - 1 implies (#[trigger] rest[j]).0@ != rest[i - 1].0@ by {
            assert(rest[j] == data[j + 1]);
        }
        lemma_first_entry(rest, i - 1);
        assert(data[0].0@ != data[i].0@);
    }
}

/// A key that no pair has is not an entry.
proof fn lemma_no_entry(data: Seq<(String, String)>, key: Seq<char>)
    requires
        absent_before(data, key, data.len() as int),
    ensures
        !entries_of(data).contains_key(key),
    decreases data.len(),
{
    if data.len() > 0 {
        let rest = data.drop_first();
        assert forall|j: int| 0 <= j < rest.len() implies (#[trigger] rest[j]).0@ != key by {
            assert(rest[j] == data[j + 1]);
        }
        lemma_no_entry(rest, key);
        assert(data[0].0@ != key);
    }
}

/// Replacing the first pair with a key replaces that key's entry.
proof fn lemma_replace_entry(data: Seq<(String, String)>, i: int, pair: (String, String))
    requires
        0 <= i < data.len(),
        data[i].0@ == pair.0@,
        absent_before(data, pair.0@, i),
    ensures
        entries_of(data.update(i, pair)) =~= entries_of(data).insert(pair.0@, pair.1@),
    decreases i,
{
    let after = data.update(i, pair);
    if i == 0 {
        assert(after.drop_first() =~= data.drop_first());
    } else {
        let rest = data.drop_first();
        assert(after.drop_first() =~= rest.update(i - 1, pair));
        assert forall|j: int| 0 <= j < i - 1 implies (#[trigger] rest[j]).0@ != pair.0@ by {
            assert(rest[j] == data[j + 1]);
        }
        lemma_replace_entry(rest, i - 1, pair);
        assert(data[0].0@ != pair.0@);
        assert(after[0] == data[0]);
    }
}

/// Appending a pair with a new key adds that entry.
proof fn lemma_append_entry(data: Seq<(String, String)>, pair: (String, String))
    requires
        absent_before(data, pair.0@, data.len() as int),
    ensures
        entries_of(data.push(pair)) =~= entries_of(data).insert(pair.0@, pair.1@),
    decreases data.len(),
{
    let after = data.push(pair);
    if data.len() == 0 {
        assert(after.drop_first() =~= Seq::<(String, String)>::empty());
        assert(entries_of(after.drop_first()) == Map::<Seq<char>, Seq<char>>::empty());
        assert(entries_of(after) == entries_of(after.drop_first()).insert(pair.0@, pair.1@));
    } else {
        let rest = data.drop_first();
        assert(after.drop_first() =~= rest.push(pair));
        assert forall|j: int| 0 <= j < rest.len() implies (#[trigger] rest[j]).0@ != pair.0@ by {
            assert(rest[j] == data[j + 1]);
        }
        lemma_append_entry(rest, pair);
        assert(data[0].0@ != pair.0@);
        assert(after[0] == data[0]);
    }
}

/// A `Store` that lives in program memory, emptying when the program exits.
#[derive(Debug)]
pub struct Memory {
    data: Vec<(String, String)>,
}

impl Memory {
    /// Creates a new, empty `Memory`.
    pub fn new() -> (r: Self)
        ensures
            r.entries() == Map::<Seq<char>, Seq<char>>::empty(),
    {
        Memory { data: Vec::new() }
    }

    /// Creates a new store that prepends the given prefix to all key names.
    pub fn scoped(self, prefix: &str) -> (r: ScopedStore<Self>)
        ensures
            r.spec_parent() == self,
            r.spec_prefix() == prefix@,
    {
        ScopedStore::new(self, prefix)
    }

    /// The position of the first pair with `key`, if there is one.
    fn position(&self, key: &String) -> (r: Option<usize>)
        ensures
            r is None ==> absent_before(self.data@, key@, self.data@.len() as int),
            r is Some ==> r->0 < self.data@.len() && self.data@[r->0 as int].0@ == key@
                && absent_before(self.data@, key@, r->0 as int),
    {
        let mut i: usize = 0;
        while i < self.data.len()
            invariant
                i <= self.data@.len(),
                absent_before(self.data@, key@, i as int),
            decreases self.data@.len() - i,
        {
            if self.data[i].0 == *key {
                return Some(i);
            }
            i = i + 1;
        }
        None
    }
}

impl Store for Memory {
    closed spec fn entries(&self) -> Map<Seq<char>, Seq<char>> {
        entries_of(self.data@)
    }

    open spec fn spec_separator(&self) -> char {
        '.'
    }

    open spec fn infallible(&self) -> bool {
        true
    }

    open spec fn prefixes(&self) -> Seq<Seq<char>> {
        Seq::empty()
    }

    open spec fn root_entries(&self) -> Map<Seq<char>, Seq<char>> {
        self.entries()
    }

    open spec fn root_key(&self, key: Seq<char>) -> Seq<char> {
        key
    }

    fn get(&self, key: &str) -> (r: Result<Option<String>, Error>) {
        let key = key.to_owned();
        match self.position(&key) {
            Some(i) => {
                proof {
                    lemma_first_entry(self.data@, i as int);
                }
                Ok(Some(self.data[i].1.clone()))
            },
            None => {
                proof {
                    lemma_no_entry(self.data@, key@);
                }
                Ok(None)
            },
        }
    }

    fn set(&mut self, key: &str, value: &str) -> (r: Result<(), Error>) {
        let key = key.to_owned();
        let value = value.to_owned();
        let ghost before = self.data@;
        let ghost pair = (key, value);
        match self.position(&key) {
            Some(i) => {
                proof {
                    lemma_replace_entry(before, i as int, pair);
                }
                self.data.set(i, (key, value));
            },
            None => {
                proof {
                    lemma_append_entry(before, pair);
                }
                self.data.push((key, value));
            },
        }
        Ok(())
    }

    fn separator(&self) -> (r: char) {
        '.'
    }
}

/// A `Store` that persists data into a parent store, prepending a prefix to all key names.
#[derive(Debug)]
pub struct ScopedStore<S> {
    parent: S,
    prefix: String,
}

impl<S: Store> ScopedStore<S> {
    /// The store this one writes into.
    pub closed spec fn spec_parent(&self) -> S {
        self.parent
    }

    /// The prefix put before every key.
    pub closed spec fn spec_prefix(&self) -> Seq<char> {
        self.prefix@
    }

    /// The key under which this scope keeps `key` in its parent.
    pub open spec fn parent_key(&self, key: Seq<char>) -> Seq<char> {
        scoped_key(self.spec_prefix(), self.spec_parent().spec_separator(), key)
    }

    /// Creates a new `ScopedStore`.
    pub fn new(store: S, prefix: &str) -> (r: Self)
        ensures
            r.spec_parent() == store,
            r.spec_prefix() == prefix@,
    {
        ScopedStore { parent: store, prefix: prefix.to_owned() }
    }

    /// Creates a new store that prepends the given prefix to all key names.
    pub fn scoped(self, prefix: &str) -> (r: ScopedStore<Self>)
        ensures
            r.spec_parent() == self,
            r.spec_prefix() == prefix@,
    {
        ScopedStore::new(self, prefix)
    }

    /// The store this one writes into.
    pub fn parent(&self) -> (r: &S)
        ensures
            *r == self.spec_parent(),
    {
        &self.parent
    }

    /// Gives back the store this one writes into.
    pub fn into_parent(self) -> (r: S)
        ensures
            r == self.spec_parent(),
    {
        self.parent
    }

    /// The prefix put before every key.
    pub fn prefix(&self) -> (r: &str)
        ensures
            r@ == self.spec_prefix(),
    {
        self.prefix.as_str()
    }

    /// Builds the key under which `key` is kept in the parent.
    fn full_key(&self, key: &str) -> (r: String)
        ensures
            r@ == self.parent_key(key@),
    {
        let mut r = self.prefix.clone();
        r.push(self.parent.separator());
        r.append(key);
        r
    }
}

impl<S: Store> Store for ScopedStore<S> {
    open spec fn entries(&self) -> Map<Seq<char>, Seq<char>> {
        Map::new(
            |k: Seq<char>| self.spec_parent().entries().contains_key(self.parent_key(k)),
            |k: Seq<char>| self.spec_parent().entries()[self.parent_key(k)],
        )
    }

    open spec fn spec_separator(&self) -> char {
        self.spec_parent().spec_separator()
    }

    open spec fn infallible(&self) -> bool {
        self.spec_parent().infallible()
    }

    open spec fn prefixes(&self) -> Seq<Seq<char>> {
        self.spec_parent().prefixes().push(self.spec_prefix())
    }

    open spec fn root_entries(&self) -> Map<Seq<char>, Seq<char>> {
        self.spec_parent().root_entries()
    }

    open spec fn root_key(&self, key: Seq<char>) -> Seq<char> {
        self.spec_parent().root_key(self.parent_key(key))
    }

    fn get(&self, key: &str) -> (r: Result<Option<String>, Error>)
        ensures
            r is Ok ==> opt_view(r->Ok_0) == lookup(self.spec_parent().entries(), self.parent_key(key@)),
    {
        let full = self.full_key(key);
        self.parent.get(full.as_str())
    }

    fn set(&mut self, key: &str, value: &str) -> (r: Result<(), Error>)
        ensures
            final(self).spec_prefix() == old(self).spec_prefix(),
            final(self).spec_parent().prefixes() == old(self).spec_parent().prefixes(),
            r is Ok ==> final(self).spec_parent().entries() == old(self).spec_parent().entries().insert(
                old(self).parent_key(key@),
                value@,
            ),
    {
        let full = self.full_key(key);
        let r = self.parent.set(full.as_str(), value);
        proof {
            if r is Ok {
                lemma_scoped_key_injective(self.spec_prefix(), self.spec_parent().spec_separator(), key@);
                assert(self.entries() =~= old(self).entries().insert(key@, value@));
            }
        }
        r
    }

    fn separator(&self) -> (r: char) {
        self.parent.separator()
    }
}

/// Distinct keys stay distinct under a prefix.
proof fn lemma_scoped_key_injective(prefix: Seq<char>, separator: char, key: Seq<char>)
    ensures
        forall|k: Seq<char>| #[trigger] scoped_key(prefix, separator, k) == scoped_key(prefix, separator, key) ==> k == key,
{
    assert forall|k: Seq<char>| #[trigger] scoped_key(prefix, separator, k) == scoped_key(prefix, separator, key) implies k == key by {
        let n = prefix.len() + 1;
        let a = scoped_key(prefix, separator, k);
        let b = scoped_key(prefix, separator, key);
        assert(seq![separator].len() == 1);
        assert(a.len() == n + k.len());
        assert(b.len() == n + key.len());
        assert(k.len() == key.len());
        assert forall|i: int| 0 <= i < k.len() implies k[i] == key[i] by {
            assert(a[n + i] == k[i]);
            assert(b[n + i] == key[i]);
        }
        assert(k =~= key);
    }
}

/// The key under which the root store keeps `key` of a store two scopes below it.
pub open spec fn nested_key(outer: Seq<char>, inner: Seq<char>, separator: char, key: Seq<char>) -> Seq<
    char,
> {
    outer + seq![separator] + inner + seq![separator] + key
}

/// Nested scopes: what `root.scoped(a).scoped(b)` holds under `k` is what `root` holds under
/// `a.b.k`, with the root's separator.
pub proof fn lemma_nested_scope_entries<S: Store>(nested: ScopedStore<ScopedStore<S>>, key: Seq<char>)
    ensures
        lookup(nested.entries(), key) == lookup(
            nested.spec_parent().spec_parent().entries(),
            nested_key(
                nested.spec_parent().spec_prefix(),
                nested.spec_prefix(),
                nested.spec_parent().spec_parent().spec_separator(),
                key,
            ),
        ),
{
    let inner = nested.spec_parent();
    let sep = inner.spec_parent().spec_separator();
    assert(inner.parent_key(nested.parent_key(key)) =~= nested_key(
        inner.spec_prefix(),
        nested.spec_prefix(),
        sep,
        key,
    ));
}

/// Scoped-store round trip: after `set(k, v)` succeeds on `root.scoped(a).scoped(b)`, `get(k)`
/// through the same scopes gives `v`, and the root store holds `v` under `a.b.k`; no other key of
/// the root store changes.
pub proof fn lemma_nested_scope_round_trip<S: Store>(
    before: ScopedStore<ScopedStore<S>>,
    after: ScopedStore<ScopedStore<S>>,
    key: Seq<char>,
    value: Seq<char>,
)
    requires
        after.entries() == before.entries().insert(key, value),
        after.prefixes() == before.prefixes(),
        after.spec_separator() == before.spec_separator(),
        after.root_entries() == before.root_entries().insert(before.root_key(key), value),
    ensures
        lookup(after.entries(), key) == Some(value),
        after.spec_parent().spec_parent().root_entries() == before.spec_parent().spec_parent().root_entries().insert(
            before.spec_parent().spec_parent().root_key(
                nested_key(
                    before.spec_parent().spec_prefix(),
                    before.spec_prefix(),
                    before.spec_separator(),
                    key,
                ),
            ),
            value,
        ),
        lookup(
            after.spec_parent().spec_parent().entries(),
            nested_key(
                before.spec_parent().spec_prefix(),
                before.spec_prefix(),
                before.spec_separator(),
                key,
            ),
        ) == Some(value),
{
    lemma_nested_scope_entries(after, key);
    let inner = before.spec_parent();
    assert(inner.parent_key(before.parent_key(key)) =~= nested_key(
        inner.spec_prefix(),
        before.spec_prefix(),
        before.spec_separator(),
        key,
    ));
    assert(after.prefixes().last() == after.spec_prefix());
    assert(before.prefixes().last() == before.spec_prefix());
    assert(after.prefixes().drop_last() =~= after.spec_parent().prefixes());
    assert(before.prefixes().drop_last() =~= before.spec_parent().prefixes());
    assert(after.spec_parent().prefixes().last() == after.spec_parent().spec_prefix());
    assert(before.spec_parent().prefixes().last() == before.spec_parent().spec_prefix());
}

/// The entries after a series of writes, in order.
pub open spec fn after_writes(
    entries: Map<Seq<char>, Seq<char>>,
    writes: Seq<(Seq<char>, Seq<char>)>,
) -> Map<Seq<char>, Seq<char>>
    decreases writes.len(),
{
    if writes.len() == 0 {
        entries
    } else {
        after_writes(entries, writes.drop_last()).insert(writes.last().0, writes.last().1)
    }
}

/// Unset keys: in a memory store that started empty, a key that no write has set reads as
/// nothing, and reading never fails.
pub proof fn lemma_unset_key_reads_none(
    store: Memory,
    writes: Seq<(Seq<char>, Seq<char>)>,
    key: Seq<char>,
)
    requires
        store.entries() == after_writes(Map::empty(), writes),
        forall|i: int| 0 <= i < writes.len() ==> (#[trigger] writes[i]).0 != key,
    ensures
        store.infallible(),
        lookup(store.entries(), key) is None,
{
    lemma_unwritten_key(writes, key);
}

proof fn lemma_unwritten_key(writes: Seq<(Seq<char>, Seq<char>)>, key: Seq<char>)
    requires
        forall|i: int| 0 <= i < writes.len() ==> (#[trigger] writes[i]).0 != key,
    ensures
        !after_writes(Map::empty(), writes).contains_key(key),
    decreases writes.len(),
{
    if writes.len() > 0 {
        let rest = writes.drop_last();
        assert forall|i: int| 0 <= i < rest.len() implies (#[trigger] rest[i]).0 != key by {
            assert(rest[i] == writes[i]);
        }
        lemma_unwritten_key(rest, key);
        assert(writes.last() == writes[writes.len() - 1]);
    }
}

} // verus!
