//! One state machine of a PIO block and its lifecycle:
//! uninitialized, then stopped with a program bound to it, then running.

use crate::critical::with_interrupts_masked;
use crate::program::InstalledProgram;
use crate::rx::{Rx, RxFifo};
use crate::tx::{Tx, TxFifo};
use vstd::prelude::*;

verus! {

/// An attempt at a transition that the state machine's state does not allow.
#[derive(Debug, Clone, Copy, PartialEq, Eq, Structural)]
pub enum Error {
    ProgrammingFailed,
    FailedToStart,
    FailedToStop,
    NoProgramToUninstall,
}

/// Where a state machine is in its lifecycle.
#[derive(Debug, Clone, Copy, PartialEq, Eq, Structural)]
pub enum State {
    Uninitialized,
    Stopped,
    Running,
}

/// What a state machine is bound to once it is programmed.
pub struct Binding {
    /// The shared program image.
    pub program: ::pio::Program<32>,
    /// Pin window: base pin and number of pins.
    pub pins: (u8, u8),
    /// Fixed-point clock divisor: integer and fractional part.
    pub clock_divisor: (u16, u8),
}

/// The state of a state machine, as contracts see it.
pub enum SlotView {
    Uninitialized,
    Stopped(Binding),
    Running(Binding),
}

impl SlotView {
    /// Where the state machine is in its lifecycle.
    pub open spec fn state(self) -> State {
        match self {
            SlotView::Uninitialized => State::Uninitialized,
            SlotView::Stopped(_) => State::Stopped,
            SlotView::Running(_) => State::Running,
        }
    }

    /// The binding of a programmed state machine.
    pub open spec fn binding(self) -> Option<Binding> {
        match self {
            SlotView::Uninitialized => None,
            SlotView::Stopped(binding) => Some(binding),
            SlotView::Running(binding) => Some(binding),
        }
    }
}

#[derive(Debug)]
struct Configuration {
    program: InstalledProgram,
    pins: (u8, u8),
    clock_divisor: (u16, u8),
}

impl Configuration {
    spec fn view(&self) -> Binding {
        Binding { program: self.program@, pins: self.pins, clock_divisor: self.clock_divisor }
    }
}

#[derive(Debug)]
enum StateMachineKind {
    Running(Configuration),
    Stopped(Configuration),
    Uninitialized,
}

/// State machine `SLOT` of PIO block `BLOCK`.
#[derive(Debug)]
pub struct StateMachine<const BLOCK: u8, const SLOT: u8> {
    sm: StateMachineKind,
}

impl<const BLOCK: u8, const SLOT: u8> StateMachine<BLOCK, SLOT> {
    #[verifier::type_invariant]
    spec fn on_the_chip(self) -> bool {
        BLOCK < 2 && SLOT < 4
    }

    /// The state of this state machine.
    pub closed spec fn view(&self) -> SlotView {
        match self.sm {
            StateMachineKind::Running(configuration) => SlotView::Running(configuration@),
            StateMachineKind::Stopped(configuration) => SlotView::Stopped(configuration@),
            StateMachineKind::Uninitialized => SlotView::Uninitialized,
        }
    }

    /// A state machine with no program.
    pub fn new() -> (state_machine: StateMachine<BLOCK, SLOT>)
        requires
            BLOCK < 2,
            SLOT < 4,
        ensures
            state_machine@ is Uninitialized,
    {
        StateMachine { sm: StateMachineKind::Uninitialized }
    }

    /// Where this state machine is in its lifecycle.
    pub fn state(&self) -> (state: State)
        ensures
            state == self@.state(),
    {
        match &self.sm {
            StateMachineKind::Running(_) => State::Running,
            StateMachineKind::Stopped(_) => State::Stopped,
            StateMachineKind::Uninitialized => State::Uninitialized,
        }
    }

    /// Whether a program is bound to this state machine.
    pub fn is_initialized(&self) -> (initialized: bool)
        ensures
            initialized == !(self@ is Uninitialized),
    {
        match &self.sm {
            StateMachineKind::Uninitialized => false,
            _ => true,
        }
    }

    /// Whether this state machine is running.
    pub fn is_running(&self) -> (running: bool)
        ensures
            running == (self@ is Running),
    {
        match &self.sm {
            StateMachineKind::Running(_) => true,
            _ => false,
        }
    }

    /// The program this state machine is bound to, if it is programmed.
    pub fn installed(&self) -> (installed: Option<&InstalledProgram>)
        ensures
            match self@.binding() {
                Some(binding) => installed matches Some(program) && program@ == binding.program,
                None => installed is None,
            },
    {
        match &self.sm {
            StateMachineKind::Running(configuration) => Some(&configuration.program),
            StateMachineKind::Stopped(configuration) => Some(&configuration.program),
            StateMachineKind::Uninitialized => None,
        }
    }

    /// The pin window this state machine is programmed with, if it is.
    pub fn pins(&self) -> (pins: Option<(u8, u8)>)
        ensures
            pins == match self@.binding() {
                Some(binding) => Some(binding.pins),
                None => None,
            },
    {
        match &self.sm {
            StateMachineKind::Running(configuration) => Some(configuration.pins),
            StateMachineKind::Stopped(configuration) => Some(configuration.pins),
            StateMachineKind::Uninitialized => None,
        }
    }

    /// The clock divisor this state machine is programmed with, if it is.
    pub fn clock_divisor(&self) -> (clock_divisor: Option<(u16, u8)>)
        ensures
            clock_divisor == match self@.binding() {
                Some(binding) => Some(binding.clock_divisor),
                None => None,
            },
    {
        match &self.sm {
            StateMachineKind::Running(configuration) => Some(configuration.clock_divisor),
            StateMachineKind::Stopped(configuration) => Some(configuration.clock_divisor),
            StateMachineKind::Uninitialized => None,
        }
    }

    /// Binds this state machine to `installed`, with pin window `pins` and
    /// clock divisor `clock_divisor`, and hands out its channels.
    ///
    /// Legal only while the state machine is uninitialized; it is stopped
    /// afterwards. Otherwise `ProgrammingFailed` comes back and nothing
    /// changes.
    pub fn program(
        &mut self,
        installed: &InstalledProgram,
        pins: (u8, u8),
        clock_divisor: (u16, u8),
    ) -> (r: Result<(Rx, Tx), Error>)
        ensures
            r is Ok <==> old(self)@ is Uninitialized,
            r matches Ok((rx, tx)) ==> {
                &&& final(self)@ == SlotView::Stopped(
                    (Binding { program: installed@, pins, clock_divisor }),
                )
                &&& rx.block() == BLOCK && rx.slot() == SLOT
                &&& tx.block() == BLOCK && tx.slot() == SLOT
            },
            r matches Err(e) ==> e == Error::ProgrammingFailed && final(self)@ == old(self)@,
    {
        with_interrupts_masked(self, (installed, pins, clock_divisor), Self::program_masked)
    }

    fn program_masked(
        &mut self,
        request: (&InstalledProgram, (u8, u8), (u16, u8)),
    ) -> (r: Result<(Rx, Tx), Error>)
        ensures
            r is Ok <==> old(self)@ is Uninitialized,
            r matches Ok((rx, tx)) ==> {
                &&& final(self)@ == SlotView::Stopped(
                    (Binding { program: request.0@, pins: request.1, clock_divisor: request.2 }),
                )
                &&& rx.block() == BLOCK && rx.slot() == SLOT
                &&& tx.block() == BLOCK && tx.slot() == SLOT
            },
            r matches Err(e) ==> e == Error::ProgrammingFailed && final(self)@ == old(self)@,
    {
        proof {
            use_type_invariant(&*self);
        }
        let (installed, pins, clock_divisor) = request;
        // Make sure the machine is uninitialized before trying to program it
        match &self.sm {
            StateMachineKind::Uninitialized => {},
            _ => {
                return Err(Error::ProgrammingFailed);
            },
        }
        let rx = Rx::from(RxFifo::<BLOCK, SLOT>::new());
        let tx = Tx::from(TxFifo::<BLOCK, SLOT>::new());
        self.sm = StateMachineKind::Stopped(
            Configuration { program: installed.share(), pins, clock_divisor },
        );
        Ok((rx, tx))
    }

    /// Takes the program off this state machine and takes its channels back.
    ///
    /// Legal while the state machine is stopped or running, with the channels
    /// that `program` handed out for it; a running state machine is stopped
    /// first. The state machine is uninitialized afterwards. Otherwise
    /// `NoProgramToUninstall` comes back and nothing changes.
    pub fn uninstall(&mut self, rx: Rx, tx: Tx) -> (r: Result<(), Error>)
        ensures
            r is Ok <==> {
                &&& !(old(self)@ is Uninitialized)
                &&& rx.block() == BLOCK && rx.slot() == SLOT
                &&& tx.block() == BLOCK && tx.slot() == SLOT
            },
            r is Ok ==> final(self)@ is Uninitialized,
            r matches Err(e) ==> e == Error::NoProgramToUninstall && final(self)@ == old(self)@,
    {
        with_interrupts_masked(self, (rx, tx), Self::uninstall_masked)
    }

    fn uninstall_masked(&mut self, channels: (Rx, Tx)) -> (r: Result<(), Error>)
        ensures
            r is Ok <==> {
                &&& !(old(self)@ is Uninitialized)
                &&& channels.0.block() == BLOCK && channels.0.slot() == SLOT
                &&& channels.1.block() == BLOCK && channels.1.slot() == SLOT
            },
            r is Ok ==> final(self)@ is Uninitialized,
            r matches Err(e) ==> e == Error::NoProgramToUninstall && final(self)@ == old(self)@,
    {
        let (rx, tx) = channels;
        let Ok(_rx) = rx.try_into::<BLOCK, SLOT>() else {
            return Err(Error::NoProgramToUninstall);
        };
        let Ok(_tx) = tx.try_into::<BLOCK, SLOT>() else {
            return Err(Error::NoProgramToUninstall);
        };
        // Stop the machine if it's still running
        if self.is_running() {
            self.stop()?;
        }
        match &self.sm {
            StateMachineKind::Stopped(_) => {},
            _ => {
                return Err(Error::NoProgramToUninstall);
            },
        }
        self.sm = StateMachineKind::Uninitialized;
        Ok(())
    }

    /// Starts a stopped state machine.
    ///
    /// Otherwise `FailedToStart` comes back and nothing changes.
    pub fn start(&mut self) -> (r: Result<(), Error>)
        ensures
            r is Ok <==> old(self)@ is Stopped,
            r is Ok ==> final(self)@ == SlotView::Running(old(self)@->Stopped_0),
            r matches Err(e) ==> e == Error::FailedToStart && final(self)@ == old(self)@,
    {
        with_interrupts_masked(self, (), Self::start_masked)
    }

    fn start_masked(&mut self, _nothing: ()) -> (r: Result<(), Error>)
        ensures
            r is Ok <==> old(self)@ is Stopped,
            r is Ok ==> final(self)@ == SlotView::Running(old(self)@->Stopped_0),
            r matches Err(e) ==> e == Error::FailedToStart && final(self)@ == old(self)@,
    {
        proof {
            use_type_invariant(&*self);
        }
        let mut sm = StateMachineKind::Uninitialized;
        core::mem::swap(&mut self.sm, &mut sm);
        match sm {
            StateMachineKind::Stopped(configuration) => {
                self.sm = StateMachineKind::Running(configuration);
                Ok(())
            },
            other => {
                self.sm = other;
                Err(Error::FailedToStart)
            },
        }
    }

    /// Stops a running state machine.
    ///
    /// Otherwise `FailedToStop` comes back and nothing changes.
    pub fn stop(&mut self) -> (r: Result<(), Error>)
        ensures
            r is Ok <==> old(self)@ is Running,
            r is Ok ==> final(self)@ == SlotView::Stopped(old(self)@->Running_0),
            r matches Err(e) ==> e == Error::FailedToStop && final(self)@ == old(self)@,
    {
        with_interrupts_masked(self, (), Self::stop_masked)
    }

    fn stop_masked(&mut self, _nothing: ()) -> (r: Result<(), Error>)
        ensures
            r is Ok <==> old(self)@ is Running,
            r is Ok ==> final(self)@ == SlotView::Stopped(old(self)@->Running_0),
            r matches Err(e) ==> e == Error::FailedToStop && final(self)@ == old(self)@,
    {
        proof {
            use_type_invariant(&*self);
        }
        let mut sm = StateMachineKind::Uninitialized;
        core::mem::swap(&mut self.sm, &mut sm);
        match sm {
            StateMachineKind::Running(configuration) => {
                self.sm = StateMachineKind::Stopped(configuration);
                Ok(())
            },
            other => {
                self.sm = other;
                Err(Error::FailedToStop)
            },
        }
    }
}

} // verus!
