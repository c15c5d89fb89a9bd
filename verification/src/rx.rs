//! Receive side of a state machine's word queue.

use vstd::prelude::*;

verus! {

/// The hardware receive queue of state machine `SM` of PIO block `PIO`.
///
/// A value of this type stands for the queue itself: it is made when the
/// state machine is programmed and given up when the program is uninstalled.
#[derive(Debug)]
pub struct RxFifo<const PIO: u8, const SM: u8> {
    queue: (),
}

impl<const PIO: u8, const SM: u8> RxFifo<PIO, SM> {
    #[verifier::type_invariant]
    spec fn on_the_chip(self) -> bool {
        PIO < 2 && SM < 4
    }

    pub(crate) fn new() -> RxFifo<PIO, SM>
        requires
            PIO < 2,
            SM < 4,
    {
        RxFifo { queue: () }
    }
}

/// Returned when a channel is asked to be the queue of a state machine that
/// does not back it.
#[derive(Debug, Clone, Copy, PartialEq, Eq)]
pub struct WrongDeviceError;

/// Receive channel of a running or stopped state machine, the same type
/// whichever block and state machine back it.
#[derive(Debug)]
pub enum Rx {
    PIO0SM0(RxFifo<0, 0>),
    PIO0SM1(RxFifo<0, 1>),
    PIO0SM2(RxFifo<0, 2>),
    PIO0SM3(RxFifo<0, 3>),
    PIO1SM0(RxFifo<1, 0>),
    PIO1SM1(RxFifo<1, 1>),
    PIO1SM2(RxFifo<1, 2>),
    PIO1SM3(RxFifo<1, 3>),
}

impl Rx {
    /// Number of the PIO block that backs this channel: 0 or 1.
    pub open spec fn spec_block(&self) -> u8 {
        match self {
            Rx::PIO0SM0(_) | Rx::PIO0SM1(_) | Rx::PIO0SM2(_) | Rx::PIO0SM3(_) => 0,
            Rx::PIO1SM0(_) | Rx::PIO1SM1(_) | Rx::PIO1SM2(_) | Rx::PIO1SM3(_) => 1,
        }
    }

    /// Number of the state machine that backs this channel: 0 to 3.
    pub open spec fn spec_slot(&self) -> u8 {
        match self {
            Rx::PIO0SM0(_) | Rx::PIO1SM0(_) => 0,
            Rx::PIO0SM1(_) | Rx::PIO1SM1(_) => 1,
            Rx::PIO0SM2(_) | Rx::PIO1SM2(_) => 2,
            Rx::PIO0SM3(_) | Rx::PIO1SM3(_) => 3,
        }
    }

    /// Number of the PIO block that backs this channel.
    #[verifier::when_used_as_spec(spec_block)]
    pub fn block(&self) -> (block: u8)
        ensures
            block == self.spec_block(),
            block < 2,
    {
        match self {
            Rx::PIO0SM0(_) | Rx::PIO0SM1(_) | Rx::PIO0SM2(_) | Rx::PIO0SM3(_) => 0,
            Rx::PIO1SM0(_) | Rx::PIO1SM1(_) | Rx::PIO1SM2(_) | Rx::PIO1SM3(_) => 1,
        }
    }

    /// Number of the state machine that backs this channel.
    #[verifier::when_used_as_spec(spec_slot)]
    pub fn slot(&self) -> (slot: u8)
        ensures
            slot == self.spec_slot(),
            slot < 4,
    {
        match self {
            Rx::PIO0SM0(_) | Rx::PIO1SM0(_) => 0,
            Rx::PIO0SM1(_) | Rx::PIO1SM1(_) => 1,
            Rx::PIO0SM2(_) | Rx::PIO1SM2(_) => 2,
            Rx::PIO0SM3(_) | Rx::PIO1SM3(_) => 3,
        }
    }

    /// Wraps the receive queue of state machine `SM` of block `PIO` into the
    /// uniform channel type.
    pub fn from<const PIO: u8, const SM: u8>(value: RxFifo<PIO, SM>) -> (rx: Rx)
        ensures
            rx.block() == PIO,
            rx.slot() == SM,
    {
        proof {
            use_type_invariant(&value);
        }
        if PIO == 0 && SM == 0 {
            Rx::PIO0SM0(RxFifo::new())
        } else if PIO == 0 && SM == 1 {
            Rx::PIO0SM1(RxFifo::new())
        } else if PIO == 0 && SM == 2 {
            Rx::PIO0SM2(RxFifo::new())
        } else if PIO == 0 && SM == 3 {
            Rx::PIO0SM3(RxFifo::new())
        } else if PIO == 1 && SM == 0 {
            Rx::PIO1SM0(RxFifo::new())
        } else if PIO == 1 && SM == 1 {
            Rx::PIO1SM1(RxFifo::new())
        } else if PIO == 1 && SM == 2 {
            Rx::PIO1SM2(RxFifo::new())
        } else {
            Rx::PIO1SM3(RxFifo::new())
        }
    }

    /// Gives the queue back as that of state machine `SM` of block `PIO`.
    ///
    /// Succeeds exactly when that state machine backs this channel; otherwise
    /// the channel is used up and `WrongDeviceError` comes back.
    pub fn try_into<const PIO: u8, const SM: u8>(self) -> (r: Result<
        RxFifo<PIO, SM>,
        WrongDeviceError,
    >)
        ensures
            r is Ok <==> self.block() == PIO && self.slot() == SM,
    {
        match self {
            Rx::PIO0SM0(_) if PIO == 0 && SM == 0 => Ok(RxFifo::new()),
            Rx::PIO0SM1(_) if PIO == 0 && SM == 1 => Ok(RxFifo::new()),
            Rx::PIO0SM2(_) if PIO == 0 && SM == 2 => Ok(RxFifo::new()),
            Rx::PIO0SM3(_) if PIO == 0 && SM == 3 => Ok(RxFifo::new()),
            Rx::PIO1SM0(_) if PIO == 1 && SM == 0 => Ok(RxFifo::new()),
            Rx::PIO1SM1(_) if PIO == 1 && SM == 1 => Ok(RxFifo::new()),
            Rx::PIO1SM2(_) if PIO == 1 && SM == 2 => Ok(RxFifo::new()),
            Rx::PIO1SM3(_) if PIO == 1 && SM == 3 => Ok(RxFifo::new()),
            _ => Err(WrongDeviceError),
        }
    }
}

} // verus!
