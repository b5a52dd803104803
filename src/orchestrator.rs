use vstd::prelude::*;

use crate::clock::{instant_now, nanos_since};
use crate::controller::{after_reading, after_stop, Controller, ControllerView};
use crate::water_pump::WaterPump;

verus! {

/// Something the orchestrator's wait returned.
#[derive(Clone, Copy, Debug, PartialEq, Eq, Structural)]
pub enum Event {
    /// A shutdown was requested.
    Shutdown,
    /// The sensor of pair `pair` produced `value`.
    Reading { pair: usize, value: u16 },
    /// The readings channel of pair `pair` was closed.
    Closed { pair: usize },
}

/// Whether the orchestrator's wait loop goes on.
#[derive(Clone, Copy, Debug, PartialEq, Eq, Structural)]
pub enum LoopControl {
    Continue,
    Exit,
}

/// The event for a wait that woke on channel `index` and received `received`.
///
/// Channel 0 is the shutdown channel; channel `i + 1` carries the readings of
/// pair `i`; `None` means the channel was closed.
pub open spec fn event_of(index: usize, received: Option<u16>) -> Event {
    if index == 0 {
        Event::Shutdown
    } else {
        match received {
            Some(value) => Event::Reading { pair: (index - 1) as usize, value },
            None => Event::Closed { pair: (index - 1) as usize },
        }
    }
}

/// Turns what the wait on the registered channels returned into an event.
pub fn event_from_select(index: usize, received: Option<u16>) -> (r: Event)
    ensures
        r == event_of(index, received),
{
    if index == 0 {
        Event::Shutdown
    } else {
        match received {
            Some(value) => Event::Reading { pair: index - 1, value },
            None => Event::Closed { pair: index - 1 },
        }
    }
}

/// What an orchestrator is, as a mathematical value.
pub struct OrchestratorView {
    /// The controllers, in the order of the pairs.
    pub controllers: Seq<ControllerView>,
    /// False once the orchestrator has shut down.
    pub running: bool,
    /// The pairs whose controllers were stopped, in the order of the `stop` calls.
    pub stop_order: Seq<usize>,
}

/// The pair indices `0, 1, ..., n - 1`.
pub open spec fn pairs_in_order(n: nat) -> Seq<usize> {
    Seq::new(n, |i: int| i as usize)
}

/// The orchestrator after `event` at time `now`.
///
/// A reading goes to the controller of its pair alone; a shutdown or a closed
/// channel stops every pump once, in pair order, and ends the run; after that
/// nothing changes.
pub open spec fn after_event(v: OrchestratorView, event: Event, now: u64) -> OrchestratorView {
    if !v.running {
        v
    } else {
        match event {
            Event::Reading { pair, value } => if pair < v.controllers.len() {
                OrchestratorView {
                    controllers: v.controllers.update(
                        pair as int,
                        after_reading(v.controllers[pair as int], value, now),
                    ),
                    running: true,
                    stop_order: v.stop_order,
                }
            } else {
                v
            },
            _ => OrchestratorView {
                controllers: v.controllers.map_values(|c: ControllerView| after_stop(c)),
                running: false,
                stop_order: v.stop_order + pairs_in_order(v.controllers.len()),
            },
        }
    }
}

/// Whether the wait loop goes on after `event` in state `v`.
pub open spec fn control_after(v: OrchestratorView, event: Event) -> LoopControl {
    if v.running && event is Reading {
        LoopControl::Continue
    } else {
        LoopControl::Exit
    }
}

/// The orchestrator after each of `events`, in order, each with its time.
pub open spec fn after_events(v: OrchestratorView, events: Seq<(Event, u64)>) -> OrchestratorView
    decreases events.len(),
{
    if events.len() == 0 {
        v
    } else {
        after_events(after_event(v, events[0].0, events[0].1), events.drop_first())
    }
}

/// A reading of pair `pair` reaches the controller of that pair and no other.
pub proof fn lemma_reading_reaches_its_pair_only(
    v: OrchestratorView,
    pair: usize,
    value: u16,
    now: u64,
)
    requires
        v.running,
        pair < v.controllers.len(),
    ensures
        after_event(v, Event::Reading { pair, value }, now).controllers.len()
            == v.controllers.len(),
        after_event(v, Event::Reading { pair, value }, now).controllers[pair as int]
            == after_reading(v.controllers[pair as int], value, now),
        forall|other: int|
            0 <= other < v.controllers.len() && other != pair ==> #[trigger] after_event(
                v,
                Event::Reading { pair, value },
                now,
            ).controllers[other] == v.controllers[other],
{
}

/// Once a shutdown comes, every controller gets exactly one `stop`, in pair order,
/// whatever events follow it.
pub proof fn lemma_shutdown_stops_each_once(
    v: OrchestratorView,
    now: u64,
    later: Seq<(Event, u64)>,
)
    requires
        v.running,
    ensures
        ({
            let w = after_events(after_event(v, Event::Shutdown, now), later);
            &&& !w.running
            &&& w.controllers.len() == v.controllers.len()
            &&& w.stop_order == v.stop_order + pairs_in_order(v.controllers.len())
            &&& forall|k: int|
                0 <= k < v.controllers.len() ==> #[trigger] w.controllers[k] == after_stop(
                    v.controllers[k],
                )
        }),
{
    lemma_events_after_shutdown_change_nothing(after_event(v, Event::Shutdown, now), later);
}

/// An orchestrator that has shut down stays as it is.
pub proof fn lemma_events_after_shutdown_change_nothing(
    v: OrchestratorView,
    events: Seq<(Event, u64)>,
)
    requires
        !v.running,
    ensures
        after_events(v, events) == v,
    decreases events.len(),
{
    if events.len() > 0 {
        lemma_events_after_shutdown_change_nothing(
            after_event(v, events[0].0, events[0].1),
            events.drop_first(),
        );
    }
}

/// Routes readings to the controllers of their pairs and shuts every pump down at the end.
pub struct Orchestrator<P: WaterPump> {
    controllers: Vec<Controller<P>>,
    running: bool,
    clock_origin: std::time::Instant,
    stop_order: Ghost<Seq<usize>>,
}

impl<P: WaterPump> View for Orchestrator<P> {
    type V = OrchestratorView;

    closed spec fn view(&self) -> OrchestratorView {
        OrchestratorView {
            controllers: self.controllers@.map_values(|c: Controller<P>| c@),
            running: self.running,
            stop_order: self.stop_order@,
        }
    }
}

impl<P: WaterPump> Orchestrator<P> {
    /// An orchestrator for `controllers`, the pairs in configuration order; its clock starts now.
    pub fn new(controllers: Vec<Controller<P>>) -> (r: Orchestrator<P>)
        ensures
            r@ == (OrchestratorView {
                controllers: controllers@.map_values(|c: Controller<P>| c@),
                running: true,
                stop_order: Seq::empty(),
            }),
    {
        Orchestrator {
            controllers,
            running: true,
            clock_origin: instant_now(),
            stop_order: Ghost(Seq::empty()),
        }
    }

    /// Handles `event`, timing a reading by the orchestrator's clock.
    pub fn handle(&mut self, event: Event) -> (r: LoopControl)
        ensures
            r == control_after(old(self)@, event),
            exists|now: u64| final(self)@ == after_event(old(self)@, event, now),
    {
        let now = nanos_since(&self.clock_origin);
        self.handle_at(event, now)
    }

    /// Handles `event`, with a reading taken at `now`.
    pub fn handle_at(&mut self, event: Event, now: u64) -> (r: LoopControl)
        ensures
            r == control_after(old(self)@, event),
            final(self)@ == after_event(old(self)@, event, now),
    {
        if !self.running {
            return LoopControl::Exit;
        }
        match event {
            Event::Reading { pair, value } => {
                if pair < self.controllers.len() {
                    let _ = self.controllers[pair].new_reading_at(value, now);
                    proof {
                        assert(self@.controllers =~= old(self)@.controllers.update(
                            pair as int,
                            after_reading(old(self)@.controllers[pair as int], value, now),
                        ));
                    }
                }
                LoopControl::Continue
            },
            _ => {
                self.stop_all();
                LoopControl::Exit
            },
        }
    }

    /// Stops every pump, in pair order, and ends the run.
    fn stop_all(&mut self)
        ensures
            final(self)@ == (OrchestratorView {
                controllers: old(self)@.controllers.map_values(|c: ControllerView| after_stop(c)),
                running: false,
                stop_order: old(self)@.stop_order + pairs_in_order(old(self)@.controllers.len()),
            }),
    {
        let n = self.controllers.len();
        let mut i: usize = 0;
        while i < n
            invariant
                n == self.controllers@.len(),
                n == old(self).controllers@.len(),
                i <= n,
                forall|k: int| 0 <= k < i ==> #[trigger] self.controllers@[k]@ == after_stop(old(self).controllers@[k]@),
                forall|k: int| i <= k < n ==> #[trigger] self.controllers@[k]@ == old(self).controllers@[k]@,
                self.running == old(self).running,
                self.stop_order@ == old(self).stop_order@ + pairs_in_order(i as nat),
            decreases n - i,
        {
            self.controllers[i].stop();
            proof {
                assert(old(self).stop_order@ + pairs_in_order((i + 1) as nat) =~= (old(
                    self,
                ).stop_order@ + pairs_in_order(i as nat)).push(i));
            }
            self.stop_order = Ghost(self.stop_order@.push(i));
            i = i + 1;
        }
        self.running = false;
        proof {
            assert(self@.controllers =~= old(self)@.controllers.map_values(|c: ControllerView| after_stop(c)));
        }
    }

    /// The number of pairs.
    pub fn len(&self) -> (r: usize)
        ensures
            r == self@.controllers.len(),
    {
        self.controllers.len()
    }

    /// Whether the orchestrator has not shut down yet.
    pub fn is_running(&self) -> (r: bool)
        ensures
            r == self@.running,
    {
        self.running
    }

    /// The controller of pair `pair`.
    pub fn controller(&self, pair: usize) -> (r: &Controller<P>)
        requires
            pair < self@.controllers.len(),
        ensures
            r@ == self@.controllers[pair as int],
    {
        &self.controllers[pair]
    }
}

} // verus!
