use vstd::prelude::*;

verus! {

/// Milliseconds to wait after a failed connection attempt or a dropped
/// connection before trying to connect again.
pub const BACKOFF_MILLIS: u64 = 5000;

/// Milliseconds between two dispatch rounds while connected.
pub const DISPATCH_TICK_MILLIS: u64 = 100;

/// Where the supervisor stands with the live position feed.
#[derive(Clone, Copy, PartialEq, Eq, Structural, Debug)]
pub enum LinkState {
    /// No connection; the next interaction is a connection attempt.
    Disconnected,
    /// Connected, with the periodic position subscription established;
    /// the next interaction is a dispatch round.
    Connected,
}

/// The outcome of the last interaction with the feed, reported by the
/// driving loop.
#[derive(Clone, Copy, PartialEq, Eq, Structural, Debug)]
pub enum LinkEvent {
    /// A connection attempt failed, e.g. the simulator is not running.
    /// Expected and non-fatal: the normal "waiting for the simulator"
    /// state.
    ConnectFailed,
    /// A connection attempt succeeded and the periodic subscription was
    /// established.
    ConnectSucceeded,
    /// A dispatch round completed normally.
    DispatchSucceeded,
    /// A dispatch round failed: the connection is gone. A failure to push
    /// a parsed sample downstream counts as this too.
    DispatchFailed,
}

/// What the driving loop must do next.
#[derive(Clone, Copy, PartialEq, Eq, Structural, Debug)]
pub enum LinkAction {
    /// Sleep `BACKOFF_MILLIS`, then attempt to connect (and subscribe).
    BackoffThenConnect,
    /// Dispatch pending messages now, then wait `DISPATCH_TICK_MILLIS`.
    Dispatch,
}

/// Which events can be reported in which state: connection outcomes while
/// disconnected, dispatch outcomes while connected.
pub open spec fn event_fits(s: LinkState, e: LinkEvent) -> bool {
    match s {
        LinkState::Disconnected => e == LinkEvent::ConnectFailed || e
            == LinkEvent::ConnectSucceeded,
        LinkState::Connected => e == LinkEvent::DispatchSucceeded || e
            == LinkEvent::DispatchFailed,
    }
}

/// One supervision step: any failure leads back to a backed-off reconnect,
/// any success keeps the connection dispatching. There is no terminal
/// state: the supervisor never gives up.
pub open spec fn step_spec(s: LinkState, e: LinkEvent) -> (LinkState, LinkAction) {
    match e {
        LinkEvent::ConnectFailed => (LinkState::Disconnected, LinkAction::BackoffThenConnect),
        LinkEvent::ConnectSucceeded => (LinkState::Connected, LinkAction::Dispatch),
        LinkEvent::DispatchSucceeded => (LinkState::Connected, LinkAction::Dispatch),
        LinkEvent::DispatchFailed => (LinkState::Disconnected, LinkAction::BackoffThenConnect),
    }
}

/// Decide the next state, and the action the driving loop must take, from
/// the current state and the outcome of the last interaction.
pub fn supervisor_step(s: LinkState, e: LinkEvent) -> (r: (LinkState, LinkAction))
    requires
        event_fits(s, e),
    ensures
        r == step_spec(s, e),
{
    match e {
        LinkEvent::ConnectFailed => (LinkState::Disconnected, LinkAction::BackoffThenConnect),
        LinkEvent::ConnectSucceeded => (LinkState::Connected, LinkAction::Dispatch),
        LinkEvent::DispatchSucceeded => (LinkState::Connected, LinkAction::Dispatch),
        LinkEvent::DispatchFailed => (LinkState::Disconnected, LinkAction::BackoffThenConnect),
    }
}

/// The run of the supervisor on a sequence of events from an initial
/// state: element `i` is the state reached by consuming event `i`, paired
/// with the action decided on it. The state in which event `i + 1` is
/// consumed is therefore `run[i].0`.
pub open spec fn run_from(init: LinkState, events: Seq<LinkEvent>) -> Seq<
    (LinkState, LinkAction),
>
    decreases events.len(),
{
    if events.len() == 0 {
        Seq::empty()
    } else {
        let step = step_spec(init, events[0]);
        seq![step] + run_from(step.0, events.drop_first())
    }
}

/// Every event of the sequence fits the state it meets.
pub open spec fn run_fits(init: LinkState, events: Seq<LinkEvent>) -> bool
    decreases events.len(),
{
    events.len() == 0 || (event_fits(init, events[0]) && run_fits(
        step_spec(init, events[0]).0,
        events.drop_first(),
    ))
}

/// Reconnect liveness: if connecting fails `f` consecutive times and then
/// succeeds, the supervisor consumes every one of the `f + 1` outcomes in
/// the disconnected state — it starts disconnected and each failure leaves
/// it disconnected — so it makes exactly `f + 1` connection attempts. It
/// answers each failure with `BackoffThenConnect`, so consecutive attempts
/// are at least `BACKOFF_MILLIS` apart, and the successful attempt moves
/// it to the connected state with dispatching as the immediate next
/// action.
pub proof fn lemma_reconnect_liveness(f: nat)
    ensures
        ({
            let events = Seq::new(f, |i: int| LinkEvent::ConnectFailed).push(
                LinkEvent::ConnectSucceeded,
            );
            let run = run_from(LinkState::Disconnected, events);
            &&& run_fits(LinkState::Disconnected, events)
            &&& run.len() == f + 1
            &&& forall|i: int|
                0 <= i < f ==> run[i] == (
                    LinkState::Disconnected,
                    LinkAction::BackoffThenConnect,
                )
            &&& run[f as int] == (LinkState::Connected, LinkAction::Dispatch)
        }),
    decreases f,
{
    reveal_with_fuel(run_from, 2);
    reveal_with_fuel(run_fits, 2);
    let events = Seq::new(f, |i: int| LinkEvent::ConnectFailed).push(LinkEvent::ConnectSucceeded);
    let run = run_from(LinkState::Disconnected, events);
    if f == 0 {
        assert(events[0] == LinkEvent::ConnectSucceeded);
        assert(events.drop_first() =~= Seq::<LinkEvent>::empty());
        assert(run =~= seq![(LinkState::Connected, LinkAction::Dispatch)]);
        assert(run[0] == (LinkState::Connected, LinkAction::Dispatch));
    } else {
        let shorter = Seq::new((f - 1) as nat, |i: int| LinkEvent::ConnectFailed).push(
            LinkEvent::ConnectSucceeded,
        );
        assert(events[0] == LinkEvent::ConnectFailed);
        assert(events.drop_first() =~= shorter);
        lemma_reconnect_liveness((f - 1) as nat);
        let rest = run_from(LinkState::Disconnected, shorter);
        assert(run =~= seq![
            (LinkState::Disconnected, LinkAction::BackoffThenConnect),
        ] + rest);
        assert forall|i: int|
            0 <= i < f implies run[i] == (
            LinkState::Disconnected,
            LinkAction::BackoffThenConnect,
        ) by {
            if i > 0 {
                assert(run[i] == rest[i - 1]);
            }
        }
        assert(run[f as int] == rest[(f - 1) as int]);
    }
}

} // verus!
