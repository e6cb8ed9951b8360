//! The decisions the robot takes while one message goes through its routes.
//!
//! A run loop asks a `Dispatch` what to do next (`Command`), does it, and hands back what
//! happened (`Event`). Routes are invoked in registration order; a route's actions are executed
//! in order, each before the next is pulled; the first failure ends that route's turn and is
//! recorded, and the next route follows.

use vstd::prelude::*;

use crate::handler::Action;
use crate::message::OutgoingMessage;
use crate::result::Error;

verus! {

/// Where a dispatch stands.
#[derive(Clone, Copy, Debug, PartialEq, Eq, Structural)]
pub enum Phase {
    /// Not started.
    Ready,
    /// Waiting for the current route's callback to return.
    Invoking,
    /// Waiting for the next action of the current route.
    Pulling,
    /// Waiting for the transport to send a message.
    Sending,
    /// Every matching route has had its turn.
    Finished,
}

/// What the run loop is asked to do next.
#[derive(Debug)]
pub enum Command {
    /// Invoke the callback of the route at this position.
    Invoke(usize),
    /// Pull the next action of the current route's sequence.
    Pull,
    /// Send this message through the transport.
    Send(OutgoingMessage),
    /// The message has been dispatched.
    Done,
}

/// What happened when the run loop carried out a command.
#[derive(Debug)]
pub enum Event {
    /// The callback returned: a sequence of actions is ready, or it failed.
    Invoked(Result<(), Error>),
    /// The next action of the sequence, the sequence's failure, or its end.
    Pulled(Option<Result<Action, Error>>),
    /// The transport sent the message, or failed to.
    Sent(Result<(), Error>),
}

/// A route whose turn ended in an error.
#[derive(Debug)]
pub struct RouteFailure {
    /// The position of the route.
    pub route: usize,
    /// What went wrong.
    pub error: Error,
}

/// The state of a dispatch, as mathematical values.
pub struct DispatchState {
    /// The positions of the routes to invoke, in order.
    pub targets: Seq<usize>,
    /// How many of them have been invoked.
    pub next: nat,
    pub phase: Phase,
    /// The routes whose turn failed, in order.
    pub failures: Seq<RouteFailure>,
}

/// A route is being served.
pub open spec fn active(phase: Phase) -> bool {
    phase == Phase::Invoking || phase == Phase::Pulling || phase == Phase::Sending
}

/// The counter stays within the targets, and a route is being served only after one was invoked.
pub open spec fn consistent(s: DispatchState) -> bool {
    s.next <= s.targets.len() && (active(s.phase) ==> s.next >= 1) && (s.phase == Phase::Ready
        ==> s.next == 0) && (s.phase == Phase::Finished ==> s.next == s.targets.len())
}

/// The route being served.
pub open spec fn current(s: DispatchState) -> usize {
    s.targets[s.next - 1]
}

/// The state before anything happened.
pub open spec fn initial(targets: Seq<usize>) -> DispatchState {
    DispatchState { targets, next: 0, phase: Phase::Ready, failures: Seq::empty() }
}

/// Moves on to the next route, or finishes.
pub open spec fn advance(s: DispatchState) -> (DispatchState, Command) {
    if s.next < s.targets.len() {
        (
            DispatchState { next: s.next + 1, phase: Phase::Invoking, ..s },
            Command::Invoke(s.targets[s.next as int]),
        )
    } else {
        (DispatchState { phase: Phase::Finished, ..s }, Command::Done)
    }
}

/// Records that the current route failed.
pub open spec fn fail(s: DispatchState, error: Error) -> DispatchState {
    DispatchState { failures: s.failures.push(RouteFailure { route: current(s), error }), ..s }
}

/// Whether the dispatch waits for this kind of event.
pub open spec fn expects(phase: Phase, event: Event) -> bool {
    match event {
        Event::Invoked(_) => phase == Phase::Invoking,
        Event::Pulled(_) => phase == Phase::Pulling,
        Event::Sent(_) => phase == Phase::Sending,
    }
}

/// The next state and command after an event.
pub open spec fn transition(s: DispatchState, event: Event) -> (DispatchState, Command) {
    match event {
        Event::Invoked(Ok(())) => (DispatchState { phase: Phase::Pulling, ..s }, Command::Pull),
        Event::Invoked(Err(e)) => advance(fail(s, e)),
        Event::Pulled(Some(Ok(Action::SendMessage(m)))) => (
            DispatchState { phase: Phase::Sending, ..s },
            Command::Send(m),
        ),
        Event::Pulled(Some(Err(e))) => advance(fail(s, e)),
        Event::Pulled(None) => advance(s),
        Event::Sent(Ok(())) => (DispatchState { phase: Phase::Pulling, ..s }, Command::Pull),
        Event::Sent(Err(e)) => advance(fail(s, e)),
    }
}

/// The state of one message's way through the matching routes.
#[derive(Debug)]
pub struct Dispatch {
    targets: Vec<usize>,
    next: usize,
    phase: Phase,
    failures: Vec<RouteFailure>,
}

impl View for Dispatch {
    type V = DispatchState;

    closed spec fn view(&self) -> DispatchState {
        DispatchState {
            targets: self.targets@,
            next: self.next as nat,
            phase: self.phase,
            failures: self.failures@,
        }
    }
}

impl Dispatch {
    /// A dispatch that will invoke the routes at `targets`, in that order.
    pub fn new(targets: Vec<usize>) -> (r: Self)
        ensures
            r@ == initial(targets@),
    {
        Dispatch { targets, next: 0, phase: Phase::Ready, failures: Vec::new() }
    }

    /// Where the dispatch stands.
    pub fn phase(&self) -> (r: Phase)
        ensures
            r == self@.phase,
    {
        self.phase
    }

    /// Whether the dispatch waits for this kind of event.
    pub fn expects(&self, event: &Event) -> (r: bool)
        ensures
            r == expects(self@.phase, *event),
    {
        match event {
            Event::Invoked(_) => self.phase == Phase::Invoking,
            Event::Pulled(_) => self.phase == Phase::Pulling,
            Event::Sent(_) => self.phase == Phase::Sending,
        }
    }

    fn advance(&mut self) -> (r: Command)
        requires
            old(self)@.next <= old(self)@.targets.len(),
        ensures
            (final(self)@, r) == advance(old(self)@),
    {
        if self.next < self.targets.len() {
            let route = self.targets[self.next];
            self.next = self.next + 1;
            self.phase = Phase::Invoking;
            Command::Invoke(route)
        } else {
            self.phase = Phase::Finished;
            Command::Done
        }
    }

    fn fail(&mut self, error: Error)
        requires
            1 <= old(self)@.next <= old(self)@.targets.len(),
        ensures
            final(self)@ == fail(old(self)@, error),
    {
        let route = self.targets[self.next - 1];
        self.failures.push(RouteFailure { route, error });
    }

    /// Starts the dispatch: invokes the first route, or finishes at once if there is none.
    pub fn start(&mut self) -> (r: Command)
        requires
            old(self)@.phase == Phase::Ready,
            consistent(old(self)@),
        ensures
            (final(self)@, r) == advance(old(self)@),
            consistent(final(self)@),
    {
        self.advance()
    }

    /// Takes in what happened and says what to do next.
    pub fn step(&mut self, event: Event) -> (r: Command)
        requires
            expects(old(self)@.phase, event),
            consistent(old(self)@),
        ensures
            (final(self)@, r) == transition(old(self)@, event),
            consistent(final(self)@),
    {
        match event {
            Event::Invoked(Ok(())) => {
                self.phase = Phase::Pulling;
                Command::Pull
            },
            Event::Invoked(Err(e)) => {
                self.fail(e);
                self.advance()
            },
            Event::Pulled(Some(Ok(Action::SendMessage(m)))) => {
                self.phase = Phase::Sending;
                Command::Send(m)
            },
            Event::Pulled(Some(Err(e))) => {
                self.fail(e);
                self.advance()
            },
            Event::Pulled(None) => self.advance(),
            Event::Sent(Ok(())) => {
                self.phase = Phase::Pulling;
                Command::Pull
            },
            Event::Sent(Err(e)) => {
                self.fail(e);
                self.advance()
            },
        }
    }

    /// The routes whose turn failed, in order, with their errors.
    pub fn into_failures(self) -> (r: Vec<RouteFailure>)
        ensures
            r@ == self@.failures,
    {
        self.failures
    }
}

/// The state and the commands after a series of events.
pub open spec fn run(s: DispatchState, events: Seq<Event>) -> (DispatchState, Seq<Command>)
    decreases events.len(),
{
    if events.len() == 0 {
        (s, Seq::empty())
    } else {
        let (next, command) = transition(s, events[0]);
        let (last, commands) = run(next, events.drop_first());
        (last, seq![command] + commands)
    }
}

/// Each event of the series is one the dispatch waits for at that point.
pub open spec fn well_formed_run(s: DispatchState, events: Seq<Event>) -> bool
    decreases events.len(),
{
    events.len() == 0 || (expects(s.phase, events[0]) && well_formed_run(
        transition(s, events[0]).0,
        events.drop_first(),
    ))
}

/// The routes invoked by a series of commands, in order.
pub open spec fn invoked(commands: Seq<Command>) -> Seq<usize>
    decreases commands.len(),
{
    if commands.len() == 0 {
        Seq::empty()
    } else {
        let first = match commands[0] {
            Command::Invoke(route) => seq![route],
            _ => Seq::empty(),
        };
        first + invoked(commands.drop_first())
    }
}

/// The messages sent by a series of commands, in order.
pub open spec fn sent(commands: Seq<Command>) -> Seq<OutgoingMessage>
    decreases commands.len(),
{
    if commands.len() == 0 {
        Seq::empty()
    } else {
        let first = match commands[0] {
            Command::Send(m) => seq![m],
            _ => Seq::empty(),
        };
        first + sent(commands.drop_first())
    }
}

/// The messages of the actions pulled in a series of events, in order.
pub open spec fn pulled(events: Seq<Event>) -> Seq<OutgoingMessage>
    decreases events.len(),
{
    if events.len() == 0 {
        Seq::empty()
    } else {
        let first = match events[0] {
            Event::Pulled(Some(Ok(Action::SendMessage(m)))) => seq![m],
            _ => Seq::empty(),
        };
        first + pulled(events.drop_first())
    }
}

proof fn lemma_invoked_cons(c: Command, commands: Seq<Command>)
    ensures
        invoked(seq![c] + commands) == invoked(seq![c]) + invoked(commands),
{
    assert((seq![c] + commands).drop_first() =~= commands);
    assert(seq![c].drop_first() =~= Seq::<Command>::empty());
    assert(invoked(seq![c]) == invoked(seq![c]).add(invoked(Seq::<Command>::empty())));
    assert(invoked(seq![c]) =~= invoked(seq![c]) + Seq::<usize>::empty());
}

proof fn lemma_sent_cons(c: Command, commands: Seq<Command>)
    ensures
        sent(seq![c] + commands) == sent(seq![c]) + sent(commands),
{
    assert((seq![c] + commands).drop_first() =~= commands);
    assert(seq![c].drop_first() =~= Seq::<Command>::empty());
    assert(sent(Seq::<Command>::empty()) == Seq::<OutgoingMessage>::empty());
    assert(sent(seq![c]) =~= sent(seq![c]) + Seq::<OutgoingMessage>::empty());
}

/// One step keeps the state consistent and invokes the routes that the counter passes over.
proof fn lemma_transition_invokes(s: DispatchState, event: Event)
    requires
        consistent(s),
        expects(s.phase, event),
    ensures
        ({
            let (t, c) = transition(s, event);
            consistent(t) && t.targets == s.targets && t.phase != Phase::Ready && s.next <= t.next
                && invoked(seq![c]) =~= s.targets.subrange(s.next as int, t.next as int)
        }),
{
    let (t, c) = transition(s, event);
    assert(seq![c].drop_first() =~= Seq::<Command>::empty());
    assert(invoked(Seq::<Command>::empty()) == Seq::<usize>::empty());
}

/// One step sends exactly the message of the action it pulled.
proof fn lemma_transition_sends(s: DispatchState, event: Event)
    ensures
        sent(seq![transition(s, event).1]) =~= pulled(seq![event]),
{
    let c = transition(s, event).1;
    assert(seq![c].drop_first() =~= Seq::<Command>::empty());
    assert(seq![event].drop_first() =~= Seq::<Event>::empty());
    assert(sent(Seq::<Command>::empty()) == Seq::<OutgoingMessage>::empty());
    assert(pulled(Seq::<Event>::empty()) == Seq::<OutgoingMessage>::empty());
}

proof fn lemma_run_invokes(s: DispatchState, events: Seq<Event>)
    requires
        consistent(s),
        s.phase != Phase::Ready,
        well_formed_run(s, events),
    ensures
        ({
            let (t, commands) = run(s, events);
            consistent(t) && t.targets == s.targets && t.phase != Phase::Ready && s.next <= t.next
                && invoked(commands) =~= s.targets.subrange(s.next as int, t.next as int)
        }),
    decreases events.len(),
{
    if events.len() > 0 {
        let (s1, c) = transition(s, events[0]);
        lemma_transition_invokes(s, events[0]);
        lemma_run_invokes(s1, events.drop_first());
        let (t, rest) = run(s1, events.drop_first());
        lemma_invoked_cons(c, rest);
        assert(s.targets.subrange(s.next as int, s1.next as int) + s.targets.subrange(
            s1.next as int,
            t.next as int,
        ) =~= s.targets.subrange(s.next as int, t.next as int));
    }
}

/// Invocation order: over a dispatch, the routes invoked are the targets, in order; at any point
/// a prefix of them, and all of them once the dispatch has finished.
pub proof fn lemma_invokes_targets_in_order(targets: Seq<usize>, events: Seq<Event>)
    requires
        well_formed_run(advance(initial(targets)).0, events),
    ensures
        ({
            let (s0, c0) = advance(initial(targets));
            let (t, commands) = run(s0, events);
            &&& t.next <= targets.len()
            &&& invoked(seq![c0] + commands) == targets.subrange(0, t.next as int)
            &&& t.phase == Phase::Finished ==> invoked(seq![c0] + commands) == targets
        }),
{
    let (s0, c0) = advance(initial(targets));
    assert(seq![c0].drop_first() =~= Seq::<Command>::empty());
    assert(invoked(Seq::<Command>::empty()) == Seq::<usize>::empty());
    assert(invoked(seq![c0]) =~= targets.subrange(0, s0.next as int));
    lemma_run_invokes(s0, events);
    let (t, commands) = run(s0, events);
    lemma_invoked_cons(c0, commands);
    assert(targets.subrange(0, s0.next as int) + targets.subrange(s0.next as int, t.next as int)
        =~= targets.subrange(0, t.next as int));
    assert(t.next == targets.len() ==> targets.subrange(0, t.next as int) =~= targets);
}

/// Action execution: the messages sent are exactly those of the actions pulled, in the order they
/// were pulled.
pub proof fn lemma_sends_pulled_actions(s: DispatchState, events: Seq<Event>)
    ensures
        sent(run(s, events).1) == pulled(events),
    decreases events.len(),
{
    if events.len() > 0 {
        let (s1, c) = transition(s, events[0]);
        lemma_transition_sends(s, events[0]);
        lemma_sends_pulled_actions(s1, events.drop_first());
        lemma_sent_cons(c, run(s1, events.drop_first()).1);
        assert(events =~= seq![events[0]] + events.drop_first());
        assert(seq![events[0]].drop_first() =~= Seq::<Event>::empty());
        assert(pulled(Seq::<Event>::empty()) == Seq::<OutgoingMessage>::empty());
        assert((seq![events[0]] + events.drop_first()).drop_first() =~= events.drop_first());
        assert(pulled(events) =~= pulled(seq![events[0]]) + pulled(events.drop_first()));
    }
}

/// A callback that returns an empty sequence of actions sends nothing: its turn is one pull, and
/// then the dispatch moves on.
pub proof fn lemma_empty_sequence_sends_nothing(s: DispatchState)
    requires
        s.phase == Phase::Invoking,
    ensures
        ({
            let events = seq![Event::Invoked(Ok(())), Event::Pulled(None)];
            let (t, commands) = run(s, events);
            &&& commands == seq![Command::Pull, advance(s).1]
            &&& t == advance(s).0
            &&& sent(commands).len() == 0
        }),
{
    let events = seq![Event::Invoked(Ok(())), Event::Pulled(None)];
    let s1 = DispatchState { phase: Phase::Pulling, ..s };
    assert(events.drop_first() =~= seq![Event::Pulled(None)]);
    assert(seq![Event::Pulled(None)].drop_first() =~= Seq::<Event>::empty());
    assert(run(advance(s1).0, Seq::<Event>::empty()).1 == Seq::<Command>::empty());
    assert(run(s1, seq![Event::Pulled(None)]).1 =~= seq![advance(s1).1]);
    assert(advance(s1) == advance(s));
    let commands = run(s, events).1;
    assert(commands =~= seq![Command::Pull, advance(s).1]);
    lemma_sends_pulled_actions(s, events);
    assert(pulled(seq![Event::Pulled(None)]) =~= Seq::<OutgoingMessage>::empty()) by {
        assert(pulled(Seq::<Event>::empty()) == Seq::<OutgoingMessage>::empty());
    }
    assert(pulled(events) =~= Seq::<OutgoingMessage>::empty());
}

/// A failure ends the route's turn: it is recorded, nothing more of that route's sequence is
/// pulled, and the dispatch moves on to the next route.
pub proof fn lemma_failure_ends_turn(s: DispatchState, event: Event)
    requires
        consistent(s),
        expects(s.phase, event),
        match event {
            Event::Invoked(r) => r is Err,
            Event::Pulled(r) => r is Some && r->0 is Err,
            Event::Sent(r) => r is Err,
        },
    ensures
        ({
            let (t, c) = transition(s, event);
            &&& t.failures.len() == s.failures.len() + 1
            &&& t.failures.last().route == current(s)
            &&& c is Invoke || c is Done
            &&& (t, c) == advance(fail(s, t.failures.last().error))
        }),
{
}

} // verus!
