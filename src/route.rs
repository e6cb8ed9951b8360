//! Routes match incoming messages to callbacks.

use vstd::prelude::*;

use crate::message::{IncomingMessage, IncomingMessageView};
use crate::pattern::{regex_compiles, regex_matches, Pattern};
use crate::result::{Error, ErrorKind};

verus! {

/// A route determines whether or not to invoke a callback by matching incoming messages against a
/// set of criteria.
#[derive(Debug)]
pub struct Route<F> {
    callback: F,
    eavesdrop: bool,
    namespace: String,
    pattern: Pattern,
}

impl<F> Route<F> {
    /// The callback the route invokes.
    pub closed spec fn spec_callback(&self) -> F {
        self.callback
    }

    /// Whether the route also fires on messages not directed at the robot.
    pub closed spec fn spec_eavesdrop(&self) -> bool {
        self.eavesdrop
    }

    /// The namespace of the data the callback persists.
    pub closed spec fn spec_namespace(&self) -> Seq<char> {
        self.namespace@
    }

    /// The text of the route's regular expression.
    pub closed spec fn spec_pattern(&self) -> Seq<char> {
        self.pattern.spec_source()
    }

    /// Whether the route considers a message at all: it eavesdrops, or the message is directed at
    /// the robot.
    pub open spec fn considers(&self, message: IncomingMessageView) -> bool {
        self.spec_eavesdrop() || message.mention_offset > 0
    }

    /// Whether the route fires on a message: it considers the message and the pattern matches
    /// the raw body.
    pub open spec fn accepts(&self, message: IncomingMessageView) -> bool {
        self.considers(message) && regex_matches(self.spec_pattern(), message.body)
    }

    /// Constructs a new `Route`.
    ///
    /// # Errors
    ///
    /// Returns an error if the provided pattern can't be turned into a regular expression.
    pub fn new(pattern: &str, eavesdrop: bool, namespace: &str, callback: F) -> (r: Result<
        Self,
        Error,
    >)
        ensures
            r is Ok <==> regex_compiles(pattern@),
            r is Ok ==> r->Ok_0.spec_pattern() == pattern@ && r->Ok_0.spec_eavesdrop() == eavesdrop
                && r->Ok_0.spec_namespace() == namespace@ && r->Ok_0.spec_callback() == callback,
            r is Err ==> r->Err_0.spec_kind() is Regex,
    {
        match Pattern::new(pattern) {
            Ok(pattern) => Ok(
                Route { callback, eavesdrop, namespace: namespace.to_owned(), pattern },
            ),
            Err(e) => Err(Error::regex(e)),
        }
    }

    /// Whether or not the robot should "eavesdrop" to look for this message.
    ///
    /// When `true`, the message does not need to be directed to the robot by name or alias.
    pub fn eavesdrop(&self) -> (r: bool)
        ensures
            r == self.spec_eavesdrop(),
    {
        self.eavesdrop
    }

    /// The namespace to use for any data persisted within the callback.
    pub fn namespace(&self) -> (r: &str)
        ensures
            r@ == self.spec_namespace(),
    {
        self.namespace.as_str()
    }

    /// The route's regular expression.
    pub fn pattern(&self) -> (r: &Pattern)
        ensures
            r.spec_source() == self.spec_pattern(),
    {
        &self.pattern
    }

    /// The callback the route invokes.
    pub fn callback(&self) -> (r: &F)
        ensures
            *r == self.spec_callback(),
    {
        &self.callback
    }

    /// Whether the route considers `message` at all: it eavesdrops, or the message is directed
    /// at the robot.
    pub fn eligible(&self, message: &IncomingMessage) -> (r: bool)
        ensures
            r == self.considers(message@),
    {
        self.eavesdrop || message.mention_offset() > 0
    }

    /// Whether the route fires on `message`.
    pub fn matches(&self, message: &IncomingMessage) -> (r: bool)
        ensures
            r == self.accepts(message@),
    {
        self.eligible(message) && self.pattern.is_match(message.raw_body())
    }
}

/// The positions, in increasing order, of the first `n` routes that fire on `message`.
pub open spec fn matching<F>(routes: Seq<Route<F>>, message: IncomingMessageView, n: int) -> Seq<
    usize,
>
    decreases n,
{
    if n <= 0 {
        Seq::empty()
    } else if routes[n - 1].accepts(message) {
        matching(routes, message, n - 1).push((n - 1) as usize)
    } else {
        matching(routes, message, n - 1)
    }
}

/// The routes that fire on a message, by position, in registration order.
pub open spec fn matching_routes_spec<F>(routes: Seq<Route<F>>, message: IncomingMessageView) -> Seq<
    usize,
> {
    matching(routes, message, routes.len() as int)
}

/// The positions of the routes that fire on `message`, in registration order.
pub fn matching_routes<F>(routes: &Vec<Route<F>>, message: &IncomingMessage) -> (r: Vec<usize>)
    ensures
        r@ == matching_routes_spec(routes@, message@),
{
    let mut r: Vec<usize> = Vec::new();
    let mut i: usize = 0;
    while i < routes.len()
        invariant
            i <= routes@.len(),
            r@ == matching(routes@, message@, i as int),
        decreases routes@.len() - i,
    {
        if routes[i].matches(message) {
            r.push(i);
        }
        i = i + 1;
    }
    r
}

/// A route fires on a message exactly when its position is among the matching ones, and those
/// positions come in registration order.
pub proof fn lemma_matching_routes<F>(routes: Seq<Route<F>>, message: IncomingMessageView)
    requires
        routes.len() <= usize::MAX,
    ensures
        forall|k: usize|
            #![trigger matching_routes_spec(routes, message).contains(k)]
            matching_routes_spec(routes, message).contains(k) <==> (k < routes.len()
                && routes[k as int].accepts(message)),
        forall|a: int, b: int|
            0 <= a < b < matching_routes_spec(routes, message).len() ==> (#[trigger] matching_routes_spec(
                routes,
                message,
            )[a]) < (#[trigger] matching_routes_spec(routes, message)[b]),
{
    lemma_matching_prefix(routes, message, routes.len() as int);
}

proof fn lemma_matching_prefix<F>(routes: Seq<Route<F>>, message: IncomingMessageView, n: int)
    requires
        0 <= n <= routes.len(),
        routes.len() <= usize::MAX,
    ensures
        forall|k: usize|
            #![trigger matching(routes, message, n).contains(k)]
            matching(routes, message, n).contains(k) <==> (k < n && routes[k as int].accepts(
                message,
            )),
        forall|i: int|
            0 <= i < matching(routes, message, n).len() ==> (#[trigger] matching(
                routes,
                message,
                n,
            )[i]) < n,
        forall|a: int, b: int|
            0 <= a < b < matching(routes, message, n).len() ==> (#[trigger] matching(
                routes,
                message,
                n,
            )[a]) < (#[trigger] matching(routes, message, n)[b]),
    decreases n,
{
    if n > 0 {
        lemma_matching_prefix(routes, message, n - 1);
        let prev = matching(routes, message, n - 1);
        let cur = matching(routes, message, n);
        if routes[n - 1].accepts(message) {
            let last = (n - 1) as usize;
            assert(cur == prev.push(last));
            assert(last == n - 1);
            assert forall|k: usize| #[trigger] cur.contains(k) implies (k < n && routes[k as int].accepts(message)) by {
                let i = choose|i: int| 0 <= i < cur.len() && cur[i] == k;
                if i < prev.len() {
                    assert(cur[i] == prev[i]);
                    assert(prev.contains(k));
                }
            }
            assert forall|k: usize| (k < n && routes[k as int].accepts(message)) implies #[trigger] cur.contains(k) by {
                if k < n - 1 {
                    assert(prev.contains(k));
                    let i = choose|i: int| 0 <= i < prev.len() && prev[i] == k;
                    assert(cur[i] == k);
                } else {
                    assert(cur[prev.len() as int] == k);
                }
            }
            assert forall|i: int| 0 <= i < cur.len() implies #[trigger] cur[i] < n by {
                if i < prev.len() {
                    assert(cur[i] == prev[i]);
                }
            }
            assert forall|a: int, b: int| 0 <= a < b < cur.len() implies #[trigger] cur[a] < #[trigger] cur[b] by {
                assert(cur[a] == prev[a]);
                if b < prev.len() {
                    assert(cur[b] == prev[b]);
                }
            }
        } else {
            assert forall|k: usize| #[trigger] cur.contains(k) <==> (k < n && routes[k as int].accepts(message)) by {
                if k < n && routes[k as int].accepts(message) {
                    assert(k < n - 1);
                }
            }
        }
    }
}

/// Eavesdropping: a route that does not eavesdrop never fires on a message without a leading
/// mention of the robot; one that eavesdrops fires exactly when its pattern matches, whatever the
/// mention offset.
pub proof fn lemma_eavesdrop<F>(route: Route<F>, message: IncomingMessageView)
    ensures
        !route.spec_eavesdrop() && message.mention_offset == 0 ==> !route.accepts(message),
        route.spec_eavesdrop() ==> (route.accepts(message) <==> regex_matches(
            route.spec_pattern(),
            message.body,
        )),
{
}

} // verus!
