//! One PIO block: four state machines that share installed programs.

use crate::program::InstalledProgram;
use crate::rx::Rx;
use crate::state_machine;
use crate::state_machine::{Binding, SlotView, State, StateMachine};
use crate::tx::Tx;
use vstd::prelude::*;

verus! {

/// Clock divisor of one state machine: integer and fractional part.
pub type ClockOption = Option<(u16, u8)>;

/// Pin window of one state machine: base pin and number of pins.
pub type PinOption = Option<(u8, u8)>;

/// The two channels of one state machine.
pub type RxTx = (Rx, Tx);

/// Pin windows by state machine.
pub type Pins = (PinOption, PinOption, PinOption, PinOption);

/// Clock divisors by state machine.
pub type ClockDivisors = (ClockOption, ClockOption, ClockOption, ClockOption);

/// Channels by state machine.
pub type Channels = (Option<RxTx>, Option<RxTx>, Option<RxTx>, Option<RxTx>);

/// An install request that cannot be met.
#[derive(Debug, Clone, Copy, PartialEq, Eq, Structural)]
pub enum Error {
    /// Requesting more state machines than are available
    TooManyStateMachinesRequested,
    /// Bad State machine programming input
    BadStateMachineProgramming,
}

/// The pin window given for state machine `slot`.
pub open spec fn pin_entry(pins: Pins, slot: int) -> PinOption {
    if slot == 0 {
        pins.0
    } else if slot == 1 {
        pins.1
    } else if slot == 2 {
        pins.2
    } else {
        pins.3
    }
}

/// The clock divisor given for state machine `slot`.
pub open spec fn clock_entry(clock_divisors: ClockDivisors, slot: int) -> ClockOption {
    if slot == 0 {
        clock_divisors.0
    } else if slot == 1 {
        clock_divisors.1
    } else if slot == 2 {
        clock_divisors.2
    } else {
        clock_divisors.3
    }
}

/// The channels given for state machine `slot`.
pub open spec fn channel_entry(channels: Channels, slot: int) -> Option<RxTx> {
    if slot == 0 {
        channels.0
    } else if slot == 1 {
        channels.1
    } else if slot == 2 {
        channels.2
    } else {
        channels.3
    }
}

/// `rxtx` is the channel pair of state machine `slot` of block `block`.
pub open spec fn channels_of(rxtx: RxTx, block: u8, slot: int) -> bool {
    &&& rxtx.0.block() == block
    &&& rxtx.0.slot() == slot
    &&& rxtx.1.block() == block
    &&& rxtx.1.slot() == slot
}

/// State machine `slot` can be bound: it has a pin window and a clock
/// divisor, and no program yet.
pub open spec fn can_bind(
    slots: Seq<SlotView>,
    pins: Pins,
    clock_divisors: ClockDivisors,
    slot: int,
) -> bool {
    &&& pin_entry(pins, slot) is Some
    &&& clock_entry(clock_divisors, slot) is Some
    &&& slots[slot] is Uninitialized
}

/// What installing `program` on the first `count` state machines of a block
/// in state `slots` gives: the block's new state, or the reason why nothing
/// was installed.
pub open spec fn install_outcome(
    slots: Seq<SlotView>,
    program: ::pio::Program<32>,
    count: usize,
    pins: Pins,
    clock_divisors: ClockDivisors,
) -> Result<Seq<SlotView>, Error> {
    if count > 4 {
        Err(Error::TooManyStateMachinesRequested)
    } else if exists|slot: int| 0 <= slot < count && !can_bind(slots, pins, clock_divisors, slot) {
        Err(Error::BadStateMachineProgramming)
    } else {
        Ok(
            Seq::new(
                4,
                |slot: int|
                    if slot < count {
                        SlotView::Stopped(
                            Binding {
                                program,
                                pins: pin_entry(pins, slot).unwrap(),
                                clock_divisor: clock_entry(clock_divisors, slot).unwrap(),
                            },
                        )
                    } else {
                        slots[slot]
                    },
            ),
        )
    }
}

/// `channels` holds the channel pairs of the first `count` state machines of
/// block `block`, each in its state machine's place, and nothing else.
pub open spec fn installed_channels(channels: Channels, block: u8, count: int) -> bool {
    forall|slot: int|
        0 <= slot < 4 ==> match #[trigger] channel_entry(channels, slot) {
            Some(rxtx) => slot < count && channels_of(rxtx, block, slot),
            None => slot >= count,
        }
}

/// The entry of `channels` for state machine `slot`, if there is one, can be
/// taken back: the state machine has a program and the channels are its own.
pub open spec fn can_release(slots: Seq<SlotView>, channels: Channels, block: u8, slot: int) -> bool {
    channel_entry(channels, slot) matches Some(rxtx) ==> !(slots[slot] is Uninitialized)
        && channels_of(rxtx, block, slot)
}

/// Every entry of `channels` up to and including that of state machine
/// `slot` can be taken back.
pub open spec fn can_release_through(
    slots: Seq<SlotView>,
    channels: Channels,
    block: u8,
    slot: int,
) -> bool {
    forall|earlier: int| 0 <= earlier <= slot && earlier < 4 ==> can_release(slots, channels, block, earlier)
}

/// What uninstalling `channels` from block `block` in state `slots` gives.
///
/// The state machines are taken in order. The first entry that cannot be
/// taken back ends the call with `NoProgramToUninstall`; the state machines
/// before it stay uninstalled.
pub open spec fn uninstall_outcome(slots: Seq<SlotView>, channels: Channels, block: u8) -> (
    Seq<SlotView>,
    Result<(), state_machine::Error>,
) {
    (
        Seq::new(
            4,
            |slot: int|
                if channel_entry(channels, slot) is Some && can_release_through(
                    slots,
                    channels,
                    block,
                    slot,
                ) {
                    SlotView::Uninitialized
                } else {
                    slots[slot]
                },
        ),
        if can_release_through(slots, channels, block, 3) {
            Ok(())
        } else {
            Err(state_machine::Error::NoProgramToUninstall)
        },
    )
}

/// No state machine up to and including `slot` is running.
pub open spec fn none_running_through(slots: Seq<SlotView>, slot: int) -> bool {
    forall|earlier: int| 0 <= earlier <= slot && earlier < 4 ==> !(slots[earlier] is Running)
}

/// No state machine up to and including `slot` is stopped.
pub open spec fn none_stopped_through(slots: Seq<SlotView>, slot: int) -> bool {
    forall|earlier: int| 0 <= earlier <= slot && earlier < 4 ==> !(slots[earlier] is Stopped)
}

/// What starting a block in state `slots` gives.
///
/// The state machines are taken in order and those without a program are
/// passed over. The first one that is already running ends the call with
/// `FailedToStart`; the state machines started before it stay running.
pub open spec fn start_outcome(slots: Seq<SlotView>) -> (
    Seq<SlotView>,
    Result<(), state_machine::Error>,
) {
    (
        Seq::new(
            4,
            |slot: int|
                match slots[slot] {
                    SlotView::Stopped(binding) if none_running_through(slots, slot) => {
                        SlotView::Running(binding)
                    },
                    unchanged => unchanged,
                },
        ),
        if none_running_through(slots, 3) {
            Ok(())
        } else {
            Err(state_machine::Error::FailedToStart)
        },
    )
}

/// What stopping a block in state `slots` gives.
///
/// The state machines are taken in order and those without a program are
/// passed over. The first one that is already stopped ends the call with
/// `FailedToStop`; the state machines stopped before it stay stopped.
pub open spec fn stop_outcome(slots: Seq<SlotView>) -> (
    Seq<SlotView>,
    Result<(), state_machine::Error>,
) {
    (
        Seq::new(
            4,
            |slot: int|
                match slots[slot] {
                    SlotView::Running(binding) if none_stopped_through(slots, slot) => {
                        SlotView::Stopped(binding)
                    },
                    unchanged => unchanged,
                },
        ),
        if none_stopped_through(slots, 3) {
            Ok(())
        } else {
            Err(state_machine::Error::FailedToStop)
        },
    )
}

/// Some state machine of a block in state `slots` has a program.
pub open spec fn any_bound(slots: Seq<SlotView>) -> bool {
    exists|slot: int| 0 <= slot < 4 && !(#[trigger] slots[slot] is Uninitialized)
}

/// PIO block `BLOCK` with its four state machines.
#[derive(Debug)]
pub struct Pio<const BLOCK: u8> {
    sm0: StateMachine<BLOCK, 0>,
    sm1: StateMachine<BLOCK, 1>,
    sm2: StateMachine<BLOCK, 2>,
    sm3: StateMachine<BLOCK, 3>,
}

impl<const BLOCK: u8> Pio<BLOCK> {
    /// The states of the four state machines, by number.
    pub closed spec fn view(&self) -> Seq<SlotView> {
        seq![self.sm0@, self.sm1@, self.sm2@, self.sm3@]
    }

    /// A block has four state machines.
    pub proof fn lemma_four_state_machines(&self)
        ensures
            self@.len() == 4,
    {
    }

    /// A block with no program on any state machine.
    pub fn new() -> (pio: Pio<BLOCK>)
        requires
            BLOCK < 2,
        ensures
            pio@ == Seq::new(4, |slot: int| SlotView::Uninitialized),
    {
        Pio {
            sm0: StateMachine::new(),
            sm1: StateMachine::new(),
            sm2: StateMachine::new(),
            sm3: StateMachine::new(),
        }
    }

    /// Where state machine `slot` is in its lifecycle; `None` where the
    /// block has no such state machine.
    pub fn state(&self, slot: usize) -> (state: Option<State>)
        ensures
            state == if slot < 4 {
                Some(self@[slot as int].state())
            } else {
                None
            },
    {
        if slot == 0 {
            Some(self.sm0.state())
        } else if slot == 1 {
            Some(self.sm1.state())
        } else if slot == 2 {
            Some(self.sm2.state())
        } else if slot == 3 {
            Some(self.sm3.state())
        } else {
            None
        }
    }

    /// The program that state machine `slot` is bound to, if it is
    /// programmed.
    pub fn installed(&self, slot: usize) -> (installed: Option<&InstalledProgram>)
        ensures
            match (if slot < 4 {
                self@[slot as int].binding()
            } else {
                None
            }) {
                Some(binding) => installed matches Some(program) && program@ == binding.program,
                None => installed is None,
            },
    {
        if slot == 0 {
            self.sm0.installed()
        } else if slot == 1 {
            self.sm1.installed()
        } else if slot == 2 {
            self.sm2.installed()
        } else if slot == 3 {
            self.sm3.installed()
        } else {
            None
        }
    }

    /// The pin window that state machine `slot` is programmed with, if it is.
    pub fn pins(&self, slot: usize) -> (pins: PinOption)
        ensures
            pins == if slot < 4 {
                match self@[slot as int].binding() {
                    Some(binding) => Some(binding.pins),
                    None => None,
                }
            } else {
                None
            },
    {
        if slot == 0 {
            self.sm0.pins()
        } else if slot == 1 {
            self.sm1.pins()
        } else if slot == 2 {
            self.sm2.pins()
        } else if slot == 3 {
            self.sm3.pins()
        } else {
            None
        }
    }

    /// The clock divisor that state machine `slot` is programmed with, if it
    /// is.
    pub fn clock_divisor(&self, slot: usize) -> (clock_divisor: ClockOption)
        ensures
            clock_divisor == if slot < 4 {
                match self@[slot as int].binding() {
                    Some(binding) => Some(binding.clock_divisor),
                    None => None,
                }
            } else {
                None
            },
    {
        if slot == 0 {
            self.sm0.clock_divisor()
        } else if slot == 1 {
            self.sm1.clock_divisor()
        } else if slot == 2 {
            self.sm2.clock_divisor()
        } else if slot == 3 {
            self.sm3.clock_divisor()
        } else {
            None
        }
    }

    /// Whether `state_machine` can be bound with the given entries.
    fn ready<const SLOT: u8>(
        state_machine: &StateMachine<BLOCK, SLOT>,
        pins: &PinOption,
        clock_divisor: &ClockOption,
    ) -> (ready: bool)
        ensures
            ready == (pins is Some && clock_divisor is Some && state_machine@ is Uninitialized),
    {
        pins.is_some() && clock_divisor.is_some() && !state_machine.is_initialized()
    }

    /// Binds `state_machine` to `installed` with the given entries.
    fn bind<const SLOT: u8>(
        state_machine: &mut StateMachine<BLOCK, SLOT>,
        installed: &InstalledProgram,
        pins: PinOption,
        clock_divisor: ClockOption,
    ) -> (r: Result<RxTx, Error>)
        ensures
            r is Ok <==> pins is Some && clock_divisor is Some && old(state_machine)@ is Uninitialized,
            r matches Ok(rxtx) ==> {
                &&& final(state_machine)@ == SlotView::Stopped(
                    (Binding {
                        program: installed@,
                        pins: pins.unwrap(),
                        clock_divisor: clock_divisor.unwrap(),
                    }),
                )
                &&& channels_of(rxtx, BLOCK, SLOT as int)
            },
            r matches Err(e) ==> e == Error::BadStateMachineProgramming && final(state_machine)@
                == old(state_machine)@,
    {
        let Some(pins) = pins else {
            return Err(Error::BadStateMachineProgramming);
        };
        let Some(clock_divisor) = clock_divisor else {
            return Err(Error::BadStateMachineProgramming);
        };
        let Ok(rxtx) = state_machine.program(installed, pins, clock_divisor) else {
            return Err(Error::BadStateMachineProgramming);
        };
        Ok(rxtx)
    }

    /// Installs a program on the first `num_state_machines` state machines.
    ///
    /// Each of them needs an entry in `state_machine_pins` and in
    /// `state_machine_clock_divisors` and must have no program yet. All of
    /// this is checked before anything is changed: on an error the block is
    /// as it was. On success the state machines are stopped and share the
    /// program, and the channels of each come back in its place.
    pub fn install_program(
        &mut self,
        program: ::pio::Program<32>,
        num_state_machines: usize,
        state_machine_pins: Pins,
        state_machine_clock_divisors: ClockDivisors,
    ) -> (r: Result<Channels, Error>)
        ensures
            match install_outcome(
                old(self)@,
                program,
                num_state_machines,
                state_machine_pins,
                state_machine_clock_divisors,
            ) {
                Ok(slots) => {
                    &&& final(self)@ == slots
                    &&& r matches Ok(channels)
                    &&& installed_channels(channels, BLOCK, num_state_machines as int)
                },
                Err(e) => r == Err::<Channels, Error>(e) && final(self)@ == old(self)@,
            },
            num_state_machines > 4 ==> r == Err::<Channels, Error>(
                Error::TooManyStateMachinesRequested,
            ),
            num_state_machines <= 4 && (exists|slot: int|
                0 <= slot < num_state_machines && (pin_entry(state_machine_pins, slot) is None
                    || clock_entry(state_machine_clock_divisors, slot) is None)) ==> r == Err::<
                Channels,
                Error,
            >(Error::BadStateMachineProgramming),
            r is Err ==> final(self)@ == old(self)@,
    {
        if num_state_machines > 4 {
            return Err(Error::TooManyStateMachinesRequested);
        }
        // Check every request before any state machine is touched
        if num_state_machines >= 1 && !Self::ready(
            &self.sm0,
            &state_machine_pins.0,
            &state_machine_clock_divisors.0,
        ) {
            assert(!can_bind(old(self)@, state_machine_pins, state_machine_clock_divisors, 0));
            return Err(Error::BadStateMachineProgramming);
        }
        if num_state_machines >= 2 && !Self::ready(
            &self.sm1,
            &state_machine_pins.1,
            &state_machine_clock_divisors.1,
        ) {
            assert(!can_bind(old(self)@, state_machine_pins, state_machine_clock_divisors, 1));
            return Err(Error::BadStateMachineProgramming);
        }
        if num_state_machines >= 3 && !Self::ready(
            &self.sm2,
            &state_machine_pins.2,
            &state_machine_clock_divisors.2,
        ) {
            assert(!can_bind(old(self)@, state_machine_pins, state_machine_clock_divisors, 2));
            return Err(Error::BadStateMachineProgramming);
        }
        if num_state_machines >= 4 && !Self::ready(
            &self.sm3,
            &state_machine_pins.3,
            &state_machine_clock_divisors.3,
        ) {
            assert(!can_bind(old(self)@, state_machine_pins, state_machine_clock_divisors, 3));
            return Err(Error::BadStateMachineProgramming);
        }

        // Install the program to the PIO block
        let installed = InstalledProgram::new(program);

        let mut rxtx0 = None;
        let mut rxtx1 = None;
        let mut rxtx2 = None;
        let mut rxtx3 = None;

        if num_state_machines >= 1 {
            // Install to state machine 0
            let rxtx = Self::bind(
                &mut self.sm0,
                &installed,
                state_machine_pins.0,
                state_machine_clock_divisors.0,
            )?;
            rxtx0 = Some(rxtx);
        }
        if num_state_machines >= 2 {
            // Install to state machine 1
            let rxtx = Self::bind(
                &mut self.sm1,
                &installed,
                state_machine_pins.1,
                state_machine_clock_divisors.1,
            )?;
            rxtx1 = Some(rxtx);
        }
        if num_state_machines >= 3 {
            // Install to state machine 2
            let rxtx = Self::bind(
                &mut self.sm2,
                &installed,
                state_machine_pins.2,
                state_machine_clock_divisors.2,
            )?;
            rxtx2 = Some(rxtx);
        }
        if num_state_machines >= 4 {
            // Install to state machine 3
            let rxtx = Self::bind(
                &mut self.sm3,
                &installed,
                state_machine_pins.3,
                state_machine_clock_divisors.3,
            )?;
            rxtx3 = Some(rxtx);
        }
        Ok((rxtx0, rxtx1, rxtx2, rxtx3))
    }

    /// Uninstalls a program
    ///
    /// * `rxtx` - The same rx and tx channels returned by install_program
    ///
    /// Each state machine with an entry in `rxtx` is stopped if it is
    /// running and is left without a program.
    pub fn unininstall_program(&mut self, rxtx: Channels) -> (r: Result<(), state_machine::Error>)
        ensures
            (final(self)@, r) == uninstall_outcome(old(self)@, rxtx, BLOCK),
    {
        let ghost slots = self@;
        let (rxtx0, rxtx1, rxtx2, rxtx3) = rxtx;
        if let Some((rx, tx)) = rxtx0 {
            let released = self.sm0.uninstall(rx, tx);
            assert(released is Ok <==> can_release(slots, rxtx, BLOCK, 0));
            if released.is_err() {
                return released;
            }
        }
        if let Some((rx, tx)) = rxtx1 {
            let released = self.sm1.uninstall(rx, tx);
            assert(released is Ok <==> can_release(slots, rxtx, BLOCK, 1));
            if released.is_err() {
                return released;
            }
        }
        if let Some((rx, tx)) = rxtx2 {
            let released = self.sm2.uninstall(rx, tx);
            assert(released is Ok <==> can_release(slots, rxtx, BLOCK, 2));
            if released.is_err() {
                return released;
            }
        }
        if let Some((rx, tx)) = rxtx3 {
            let released = self.sm3.uninstall(rx, tx);
            assert(released is Ok <==> can_release(slots, rxtx, BLOCK, 3));
            if released.is_err() {
                return released;
            }
        }
        Ok(())
    }

    /// Returns whether or not this pio is in use: whether any of its state
    /// machines has a program.
    pub fn in_use(&self) -> (in_use: bool)
        ensures
            in_use == any_bound(self@),
    {
        self.sm0.is_initialized() || self.sm1.is_initialized() || self.sm2.is_initialized()
            || self.sm3.is_initialized()
    }

    /// Starts the state machines
    pub fn start(&mut self) -> (r: Result<(), state_machine::Error>)
        ensures
            (final(self)@, r) == start_outcome(old(self)@),
    {
        if self.sm0.is_initialized() {
            let started = self.sm0.start();
            if started.is_err() {
                return started;
            }
        }
        if self.sm1.is_initialized() {
            let started = self.sm1.start();
            if started.is_err() {
                return started;
            }
        }
        if self.sm2.is_initialized() {
            let started = self.sm2.start();
            if started.is_err() {
                return started;
            }
        }
        if self.sm3.is_initialized() {
            let started = self.sm3.start();
            if started.is_err() {
                return started;
            }
        }
        Ok(())
    }

    /// Stops the state machines
    pub fn stop(&mut self) -> (r: Result<(), state_machine::Error>)
        ensures
            (final(self)@, r) == stop_outcome(old(self)@),
    {
        if self.sm0.is_initialized() {
            let stopped = self.sm0.stop();
            if stopped.is_err() {
                return stopped;
            }
        }
        if self.sm1.is_initialized() {
            let stopped = self.sm1.stop();
            if stopped.is_err() {
                return stopped;
            }
        }
        if self.sm2.is_initialized() {
            let stopped = self.sm2.stop();
            if stopped.is_err() {
                return stopped;
            }
        }
        if self.sm3.is_initialized() {
            let stopped = self.sm3.stop();
            if stopped.is_err() {
                return stopped;
            }
        }
        Ok(())
    }
}

/// Uninstalling undoes installing.
///
/// If installing a program on the first `count` state machines of a block
/// succeeds, then uninstalling the channels that it handed out succeeds as
/// well, leaves each of those state machines uninitialized, and leaves the
/// block in the state it had before the install: no state machine keeps a
/// handle to the program, and no other state machine has changed.
pub proof fn lemma_uninstall_undoes_install(
    slots: Seq<SlotView>,
    program: ::pio::Program<32>,
    count: usize,
    pins: Pins,
    clock_divisors: ClockDivisors,
    channels: Channels,
    block: u8,
)
    requires
        slots.len() == 4,
        install_outcome(slots, program, count, pins, clock_divisors) is Ok,
        installed_channels(channels, block, count as int),
    ensures
        uninstall_outcome(
            install_outcome(slots, program, count, pins, clock_divisors)->Ok_0,
            channels,
            block,
        ) == (slots, Ok::<(), state_machine::Error>(())),
        forall|slot: int| 0 <= slot < count ==> slots[slot] is Uninitialized,
{
    assert forall|slot: int| 0 <= slot < count implies slots[slot] is Uninitialized by {
        assert(can_bind(slots, pins, clock_divisors, slot));
    }
}

/// Starting a block passes over the state machines without a program: each
/// of them stays uninitialized and none of them makes the call fail. Where
/// no state machine has a program, starting changes nothing and succeeds.
pub proof fn lemma_start_passes_over_uninitialized(slots: Seq<SlotView>, slot: int)
    requires
        slots.len() == 4,
        0 <= slot < 4,
        slots[slot] is Uninitialized,
    ensures
        start_outcome(slots).0[slot] is Uninitialized,
        start_outcome(slots).1 is Err ==> exists|other: int|
            0 <= other < 4 && other != slot && #[trigger] slots[other] is Running,
        !any_bound(slots) ==> start_outcome(slots) == (slots, Ok::<(), state_machine::Error>(())),
{
}

/// Starting a block with a state machine that is already running fails with
/// `FailedToStart`.
pub proof fn lemma_start_of_running_fails(slots: Seq<SlotView>, slot: int)
    requires
        slots.len() == 4,
        0 <= slot < 4,
        slots[slot] is Running,
    ensures
        start_outcome(slots).1 == Err::<(), state_machine::Error>(
            state_machine::Error::FailedToStart,
        ),
{
}

} // verus!
