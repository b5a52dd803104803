use vstd::prelude::*;

use crate::gpio::{describe, set_output};

verus! {

/// A command that a controller sends to its pump.
#[derive(Clone, Copy, Debug, PartialEq, Eq, Structural)]
pub enum PumpCommand {
    /// Start pumping water.
    On,
    /// Stop pumping water; the controller may start it again later.
    Off,
    /// Stop pumping water at shutdown.
    Stop,
}

/// A pump that could not carry out a command.
#[derive(Debug)]
pub struct PumpError {
    pub reason: String,
}

/// An on/off water pump.
///
/// `commands` is the sequence of commands the pump has been given so far, in order;
/// every method adds exactly its own command to it, whether or not the hardware
/// carried it out.
pub trait WaterPump {
    spec fn commands(&self) -> Seq<PumpCommand>;

    /// Stops the pump at shutdown; safe to call any number of times.
    fn stop(&mut self) -> (r: Result<(), PumpError>)
        ensures
            final(self).commands() == old(self).commands().push(PumpCommand::Stop),
    ;

    /// Switches the pump on.
    fn on(&mut self) -> (r: Result<(), PumpError>)
        ensures
            final(self).commands() == old(self).commands().push(PumpCommand::On),
    ;

    /// Switches the pump off.
    fn off(&mut self) -> (r: Result<(), PumpError>)
        ensures
            final(self).commands() == old(self).commands().push(PumpCommand::Off),
    ;
}

/// A pump without hardware: it remembers whether it is running and every
/// command it was given.
pub struct WaterPumpMock {
    pub is_on: bool,
    pub calls: Vec<PumpCommand>,
}

impl WaterPumpMock {
    /// A pump that is off and has been given no command.
    pub fn new() -> (r: WaterPumpMock)
        ensures
            !r.is_on,
            r.calls@ == Seq::<PumpCommand>::empty(),
    {
        WaterPumpMock { is_on: false, calls: Vec::new() }
    }

    /// How many of the recorded commands equal `command`.
    pub fn count(&self, command: PumpCommand) -> (r: usize)
        ensures
            r == count_of(self.calls@, command),
    {
        let mut n: usize = 0;
        let mut i: usize = 0;
        while i < self.calls.len()
            invariant
                i <= self.calls@.len(),
                n == count_of(self.calls@.take(i as int), command),
                n <= i,
            decreases self.calls@.len() - i,
        {
            proof {
                assert(self.calls@.take(i + 1).drop_last() == self.calls@.take(i as int));
            }
            if self.calls[i] == command {
                n = n + 1;
            }
            i = i + 1;
        }
        proof {
            assert(self.calls@.take(i as int) == self.calls@);
        }
        n
    }
}

/// How many elements of `s` equal `c`.
pub open spec fn count_of(s: Seq<PumpCommand>, c: PumpCommand) -> nat
    decreases s.len(),
{
    if s.len() == 0 {
        0
    } else {
        count_of(s.drop_last(), c) + if s.last() == c { 1nat } else { 0nat }
    }
}

impl WaterPump for WaterPumpMock {
    open spec fn commands(&self) -> Seq<PumpCommand> {
        self.calls@
    }

    fn stop(&mut self) -> (r: Result<(), PumpError>)
        ensures
            r is Ok,
            !final(self).is_on,
    {
        self.is_on = false;
        self.calls.push(PumpCommand::Stop);
        Ok(())
    }

    fn on(&mut self) -> (r: Result<(), PumpError>)
        ensures
            r is Ok,
            final(self).is_on,
    {
        self.is_on = true;
        self.calls.push(PumpCommand::On);
        Ok(())
    }

    fn off(&mut self) -> (r: Result<(), PumpError>)
        ensures
            r is Ok,
            !final(self).is_on,
    {
        self.is_on = false;
        self.calls.push(PumpCommand::Off);
        Ok(())
    }
}

/// Whether a pump given `commands` was last reported as running.
///
/// In a dry run `Stop` reports nothing, so the earlier report stands.
pub open spec fn reported_on(commands: Seq<PumpCommand>, dry_run: bool) -> bool
    decreases commands.len(),
{
    if commands.len() == 0 {
        false
    } else if dry_run && commands.last() == PumpCommand::Stop {
        reported_on(commands.drop_last(), dry_run)
    } else {
        commands.last() == PumpCommand::On
    }
}

/// A pump driven by a sysfs GPIO pin: high runs it, low stops it.
///
/// In a dry run the pin is left alone; the pump still reports the state it was
/// commanded into, except that `stop` reports nothing.
pub struct WaterPumpImpl {
    pump: sysfs_gpio::Pin,
    pin: u64,
    dry_run: bool,
    state: ReportedState,
    pin_writes: Ghost<Seq<u8>>,
}

/// What a pump reported last, with the commands that led to it.
struct ReportedState {
    is_on: bool,
    commands: Ghost<Seq<PumpCommand>>,
}

impl WaterPumpImpl {
    #[verifier::type_invariant]
    spec fn reports_its_commands(&self) -> bool {
        self.state.is_on == reported_on(self.state.commands@, self.dry_run)
    }

    /// The pin number.
    pub closed spec fn spec_pin(&self) -> u64 {
        self.pin
    }

    /// Whether this pump runs dry.
    pub closed spec fn spec_dry_run(&self) -> bool {
        self.dry_run
    }

    /// Every value written to the pin since it was exported, in order.
    pub closed spec fn spec_pin_writes(&self) -> Seq<u8> {
        self.pin_writes@
    }

    /// Exports pin `pin`, makes it an output and sets it low.
    pub fn new(pin: u64, dry_run: bool) -> (r: Result<WaterPumpImpl, PumpError>)
        ensures
            r matches Ok(p) ==> {
                &&& p.commands() == Seq::<PumpCommand>::empty()
                &&& p.spec_pin() == pin
                &&& p.spec_dry_run() == dry_run
                &&& p.spec_pin_writes() == seq![0u8]
            },
    {
        let water_pump = sysfs_gpio::Pin::new(pin);
        match water_pump.export() {
            Ok(()) => {},
            Err(e) => return Err(PumpError { reason: describe(&e) }),
        }
        match set_output(&water_pump) {
            Ok(()) => {},
            Err(e) => return Err(PumpError { reason: describe(&e) }),
        }
        match water_pump.set_value(0) {
            Ok(()) => {},
            Err(e) => return Err(PumpError { reason: describe(&e) }),
        }
        Ok(WaterPumpImpl {
            pump: water_pump,
            pin,
            dry_run,
            state: ReportedState { is_on: false, commands: Ghost(Seq::empty()) },
            pin_writes: Ghost(Seq::empty().push(0u8)),
        })
    }

    /// The pin number.
    pub fn pin(&self) -> (r: u64)
        ensures
            r == self.spec_pin(),
    {
        self.pin
    }

    /// Whether this pump runs dry.
    pub fn dry_run(&self) -> (r: bool)
        ensures
            r == self.spec_dry_run(),
    {
        self.dry_run
    }

    /// Whether the pump was last reported as running.
    pub fn is_on(&self) -> (r: bool)
        ensures
            r == reported_on(self.commands(), self.spec_dry_run()),
    {
        proof {
            use_type_invariant(self);
        }
        self.state.is_on
    }

    /// Drives the pin to `value` unless this is a dry run.
    fn write_pin(&mut self, value: u8) -> (r: Result<(), PumpError>)
        ensures
            final(self).state == old(self).state,
            final(self).dry_run == old(self).dry_run,
            final(self).pin == old(self).pin,
            old(self).dry_run ==> r is Ok && final(self).pin_writes@ == old(self).pin_writes@,
            !old(self).dry_run ==> final(self).pin_writes@ == old(self).pin_writes@.push(value),
    {
        proof {
            use_type_invariant(&*self);
        }
        if self.dry_run {
            return Ok(());
        }
        self.pin_writes = Ghost(self.pin_writes@.push(value));
        match self.pump.set_value(value) {
            Ok(()) => Ok(()),
            Err(e) => Err(PumpError { reason: describe(&e) }),
        }
    }
}

impl WaterPump for WaterPumpImpl {
    closed spec fn commands(&self) -> Seq<PumpCommand> {
        self.state.commands@
    }

    fn stop(&mut self) -> (r: Result<(), PumpError>)
        ensures
            old(self).spec_dry_run() ==> r is Ok && final(self).spec_pin_writes()
                == old(self).spec_pin_writes(),
            !old(self).spec_dry_run() ==> final(self).spec_pin_writes() == old(
                self,
            ).spec_pin_writes().push(0u8),
            final(self).spec_dry_run() == old(self).spec_dry_run(),
            final(self).spec_pin() == old(self).spec_pin(),
    {
        proof {
            use_type_invariant(&*self);
            let before = self.state.commands@;
            assert(before.push(PumpCommand::Stop).drop_last() =~= before);
        }
        let is_on = if self.dry_run {
            self.state.is_on
        } else {
            false
        };
        self.state = ReportedState {
            is_on,
            commands: Ghost(self.state.commands@.push(PumpCommand::Stop)),
        };
        self.write_pin(0)
    }

    fn on(&mut self) -> (r: Result<(), PumpError>)
        ensures
            old(self).spec_dry_run() ==> r is Ok && final(self).spec_pin_writes()
                == old(self).spec_pin_writes(),
            !old(self).spec_dry_run() ==> final(self).spec_pin_writes() == old(
                self,
            ).spec_pin_writes().push(1u8),
            final(self).spec_dry_run() == old(self).spec_dry_run(),
            final(self).spec_pin() == old(self).spec_pin(),
    {
        self.state = ReportedState {
            is_on: true,
            commands: Ghost(self.state.commands@.push(PumpCommand::On)),
        };
        self.write_pin(1)
    }

    fn off(&mut self) -> (r: Result<(), PumpError>)
        ensures
            old(self).spec_dry_run() ==> r is Ok && final(self).spec_pin_writes()
                == old(self).spec_pin_writes(),
            !old(self).spec_dry_run() ==> final(self).spec_pin_writes() == old(
                self,
            ).spec_pin_writes().push(0u8),
            final(self).spec_dry_run() == old(self).spec_dry_run(),
            final(self).spec_pin() == old(self).spec_pin(),
    {
        self.state = ReportedState {
            is_on: false,
            commands: Ghost(self.state.commands@.push(PumpCommand::Off)),
        };
        self.write_pin(0)
    }
}

} // verus!
