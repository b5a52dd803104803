use vstd::prelude::*;

use crate::clock::{instant_now, nanos_since};
use crate::time_span::TimeSpan;
use crate::water_pump::{PumpCommand, PumpError, WaterPump};

verus! {

/// What a controller is, as a mathematical value.
///
/// Times are nanoseconds on one clock: the controller's own, which starts when
/// the controller is made, for `new_reading`; the orchestrator's, for readings
/// routed by `Orchestrator::handle`; the caller's, for `new_reading_at`.
pub struct ControllerView {
    pub name: Seq<char>,
    /// Readings above this value mean the soil is too dry.
    pub threshold: u16,
    /// Least time between two starts of watering.
    pub throttle: u64,
    /// Longest time the pump stays on after a start.
    pub duration: u64,
    /// When watering last started; `None` if it never did.
    pub last_water_time: Option<u64>,
    /// Every command given to the pump so far.
    pub commands: Seq<PumpCommand>,
}

/// Time from `start` to `now`, or zero if `now` is earlier.
pub open spec fn elapsed_since(now: u64, start: u64) -> u64 {
    if now >= start {
        (now - start) as u64
    } else {
        0
    }
}

/// The command a reading of `reading` at time `now` gives the pump, if any.
pub open spec fn command_for(v: ControllerView, reading: u16, now: u64) -> Option<PumpCommand> {
    if reading > v.threshold {
        match v.last_water_time {
            None => Some(PumpCommand::On),
            Some(t) => if elapsed_since(now, t) >= v.throttle {
                Some(PumpCommand::On)
            } else if elapsed_since(now, t) >= v.duration {
                Some(PumpCommand::Off)
            } else {
                None
            },
        }
    } else {
        match v.last_water_time {
            None => None,
            Some(t) => if elapsed_since(now, t) >= v.duration {
                Some(PumpCommand::Off)
            } else {
                None
            },
        }
    }
}

/// `s` with `c` added at the end, if there is a `c`.
pub open spec fn with_command(s: Seq<PumpCommand>, c: Option<PumpCommand>) -> Seq<PumpCommand> {
    match c {
        Some(c) => s.push(c),
        None => s,
    }
}

/// The controller after a reading of `reading` at time `now`: it gives the pump the
/// command for that reading, and a start of watering records `now`.
pub open spec fn after_reading(v: ControllerView, reading: u16, now: u64) -> ControllerView {
    let c = command_for(v, reading, now);
    ControllerView {
        last_water_time: if c == Some(PumpCommand::On) {
            Some(now)
        } else {
            v.last_water_time
        },
        commands: with_command(v.commands, c),
        ..v
    }
}

/// The controller after `stop`: one more `Stop` for the pump, nothing else changed.
pub open spec fn after_stop(v: ControllerView) -> ControllerView {
    ControllerView { commands: v.commands.push(PumpCommand::Stop), ..v }
}

/// The controller after `n` calls of `stop`.
pub open spec fn after_stops(v: ControllerView, n: nat) -> ControllerView
    decreases n,
{
    if n == 0 {
        v
    } else {
        after_stop(after_stops(v, (n - 1) as nat))
    }
}

/// A reading that is not above the threshold, on a controller that never watered,
/// gives the pump no command and changes nothing.
pub proof fn lemma_wet_reading_before_any_watering(v: ControllerView, reading: u16, now: u64)
    requires
        v.last_water_time is None,
        reading <= v.threshold,
    ensures
        after_reading(v, reading, now) == v,
{
}

/// The first reading above the threshold switches the pump on, exactly once, and
/// records its time as the start of watering.
pub proof fn lemma_first_dry_reading_starts_watering(v: ControllerView, reading: u16, now: u64)
    requires
        v.last_water_time is None,
        reading > v.threshold,
    ensures
        after_reading(v, reading, now).commands == v.commands.push(PumpCommand::On),
        after_reading(v, reading, now).last_water_time == Some(now),
{
}

/// After a reading that starts watering at `t1`, a second dry reading at `t2`, less
/// than the watering duration later, gives the pump no further command.
///
/// The second reading must also come before the throttle has elapsed: a throttle
/// shorter than the duration restarts watering.
pub proof fn lemma_dry_readings_within_duration(
    v: ControllerView,
    r1: u16,
    t1: u64,
    r2: u16,
    t2: u64,
)
    requires
        command_for(v, r1, t1) == Some(PumpCommand::On),
        r2 > v.threshold,
        t1 <= t2,
        t2 - t1 < v.duration,
        t2 - t1 < v.throttle,
    ensures
        after_reading(after_reading(v, r1, t1), r2, t2) == after_reading(v, r1, t1),
{
}

/// A dry reading once the duration has elapsed but the throttle has not switches the
/// pump off, exactly once; a later dry reading, still before the throttle has elapsed,
/// does not switch it on again.
pub proof fn lemma_dry_reading_after_duration(
    v: ControllerView,
    start: u64,
    r1: u16,
    t1: u64,
    r2: u16,
    t2: u64,
)
    requires
        v.last_water_time == Some(start),
        r1 > v.threshold,
        r2 > v.threshold,
        start <= t1 <= t2,
        t1 - start >= v.duration,
        t2 - start < v.throttle,
    ensures
        after_reading(v, r1, t1).commands == v.commands.push(PumpCommand::Off),
        after_reading(v, r1, t1).last_water_time == Some(start),
        after_reading(after_reading(v, r1, t1), r2, t2).commands == v.commands.push(
            PumpCommand::Off,
        ).push(PumpCommand::Off),
        after_reading(after_reading(v, r1, t1), r2, t2).last_water_time == Some(start),
{
}

/// A dry reading once the throttle has elapsed switches the pump on again and makes
/// its own time the start of watering: the pump then goes off when the duration has
/// elapsed from that new start.
pub proof fn lemma_dry_reading_after_throttle(
    v: ControllerView,
    start: u64,
    r1: u16,
    t1: u64,
    r2: u16,
    t2: u64,
)
    requires
        v.last_water_time == Some(start),
        r1 > v.threshold,
        start <= t1 <= t2,
        t1 - start >= v.throttle,
        t2 - t1 >= v.duration,
        t2 - t1 < v.throttle,
    ensures
        after_reading(v, r1, t1).commands == v.commands.push(PumpCommand::On),
        after_reading(v, r1, t1).last_water_time == Some(t1),
        after_reading(after_reading(v, r1, t1), r2, t2).commands == v.commands.push(
            PumpCommand::On,
        ).push(PumpCommand::Off),
{
}

/// A reading not above the threshold, less than the duration after the start of
/// watering, gives no command: the watering runs its full duration.
pub proof fn lemma_wet_reading_within_duration(
    v: ControllerView,
    start: u64,
    reading: u16,
    now: u64,
)
    requires
        v.last_water_time == Some(start),
        reading <= v.threshold,
        start <= now,
        now - start < v.duration,
    ensures
        after_reading(v, reading, now) == v,
{
}

/// A reading not above the threshold, once the duration has elapsed, switches the
/// pump off, exactly once, and keeps the start of watering.
pub proof fn lemma_wet_reading_after_duration(
    v: ControllerView,
    start: u64,
    reading: u16,
    now: u64,
)
    requires
        v.last_water_time == Some(start),
        reading <= v.threshold,
        start <= now,
        now - start >= v.duration,
    ensures
        after_reading(v, reading, now).commands == v.commands.push(PumpCommand::Off),
        after_reading(v, reading, now).last_water_time == Some(start),
{
}

/// Any number of `stop` calls give the pump exactly one `Stop` each, and change
/// nothing else.
pub proof fn lemma_repeated_stops(v: ControllerView, n: nat)
    ensures
        after_stops(v, n) == (ControllerView {
            commands: v.commands + Seq::new(n, |i: int| PumpCommand::Stop),
            ..v
        }),
    decreases n,
{
    if n == 0 {
        assert(v.commands + Seq::new(0, |i: int| PumpCommand::Stop) =~= v.commands);
    } else {
        lemma_repeated_stops(v, (n - 1) as nat);
        assert(v.commands + Seq::new(n, |i: int| PumpCommand::Stop) =~= (v.commands + Seq::new(
            (n - 1) as nat,
            |i: int| PumpCommand::Stop,
        )).push(PumpCommand::Stop));
    }
}

/// With readings in time order, the start of watering never moves back: it stays
/// at `start` or moves to the time of the reading.
pub proof fn lemma_start_never_moves_back(v: ControllerView, start: u64, reading: u16, now: u64)
    requires
        v.last_water_time == Some(start),
        start <= now,
    ensures
        ({
            let s = after_reading(v, reading, now).last_water_time;
            &&& s is Some
            &&& start <= s->0 <= now
        }),
{
}

/// The controller that runs the watering state machine of one sensor and pump pair.
pub struct Controller<P: WaterPump> {
    name: String,
    threshold: u16,
    watering_throttle: TimeSpan,
    watering_duration: TimeSpan,
    pump: P,
    last_water_time: Option<u64>,
    clock_origin: std::time::Instant,
}

impl<P: WaterPump> View for Controller<P> {
    type V = ControllerView;

    closed spec fn view(&self) -> ControllerView {
        ControllerView {
            name: self.name@,
            threshold: self.threshold,
            throttle: self.watering_throttle.nanos,
            duration: self.watering_duration.nanos,
            last_water_time: self.last_water_time,
            commands: self.pump.commands(),
        }
    }
}

impl<P: WaterPump> Controller<P> {
    /// A controller that has never watered; its clock starts now.
    pub fn new(
        name: String,
        threshold: u16,
        watering_throttle: TimeSpan,
        watering_duration: TimeSpan,
        pump: P,
    ) -> (r: Controller<P>)
        ensures
            r@ == (ControllerView {
                name: name@,
                threshold,
                throttle: watering_throttle.nanos,
                duration: watering_duration.nanos,
                last_water_time: None,
                commands: pump.commands(),
            }),
    {
        Controller {
            name,
            threshold,
            watering_throttle,
            watering_duration,
            pump,
            last_water_time: None,
            clock_origin: instant_now(),
        }
    }

    /// Handles a reading taken now, by the controller's clock.
    pub fn new_reading(&mut self, reading: u16) -> (r: Result<(), PumpError>)
        ensures
            r is Ok,
            exists|now: u64| final(self)@ == after_reading(old(self)@, reading, now),
    {
        let now = nanos_since(&self.clock_origin);
        self.new_reading_at(reading, now)
    }

    /// Handles a reading taken at `now` nanoseconds, on the same clock as earlier readings.
    ///
    /// A failure of the pump does not stop the state machine: it moves on as if
    /// the command had been carried out.
    pub fn new_reading_at(&mut self, reading: u16, now: u64) -> (r: Result<(), PumpError>)
        ensures
            r is Ok,
            final(self)@ == after_reading(old(self)@, reading, now),
    {
        if reading > self.threshold {
            self.threshold_breached(reading, now);
        } else {
            self.below_threshold(reading, now);
        }
        Ok(())
    }

    /// Stops the pump, whatever state the controller is in.
    pub fn stop(&mut self)
        ensures
            final(self)@ == after_stop(old(self)@),
    {
        let _ = self.pump.stop();
    }

    /// The pair's name.
    pub fn name(&self) -> (r: &String)
        ensures
            r@ == self@.name,
    {
        &self.name
    }

    /// The moisture threshold.
    pub fn threshold(&self) -> (r: u16)
        ensures
            r == self@.threshold,
    {
        self.threshold
    }

    /// When watering last started, in nanoseconds on the clock its readings were timed by.
    pub fn last_water_time(&self) -> (r: Option<u64>)
        ensures
            r == self@.last_water_time,
    {
        self.last_water_time
    }

    /// The pump this controller drives.
    pub fn pump(&self) -> (r: &P)
        ensures
            r.commands() == self@.commands,
    {
        &self.pump
    }

    fn elapsed(&self, now: u64, start: u64) -> (r: u64)
        ensures
            r == elapsed_since(now, start),
    {
        if now >= start {
            now - start
        } else {
            0
        }
    }

    /// The dry branch of `new_reading_at`; `reading` only fixes which branch this is.
    fn threshold_breached(&mut self, reading: u16, now: u64)
        requires
            reading > old(self).threshold,
        ensures
            final(self)@ == after_reading(old(self)@, reading, now),
    {
        match self.last_water_time {
            None => {
                self.last_water_time = Some(now);
                let _ = self.pump.on();
            },
            Some(start) => {
                let e = self.elapsed(now, start);
                if e >= self.watering_throttle.nanos {
                    self.last_water_time = Some(now);
                    let _ = self.pump.on();
                } else if e >= self.watering_duration.nanos {
                    let _ = self.pump.off();
                }
            },
        }
    }

    /// The wet branch of `new_reading_at`; `reading` only fixes which branch this is.
    fn below_threshold(&mut self, reading: u16, now: u64)
        requires
            reading <= old(self).threshold,
        ensures
            final(self)@ == after_reading(old(self)@, reading, now),
    {
        match self.last_water_time {
            None => {},
            Some(start) => {
                let e = self.elapsed(now, start);
                if e >= self.watering_duration.nanos {
                    let _ = self.pump.off();
                }
            },
        }
    }
}

} // verus!
