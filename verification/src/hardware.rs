//! The broker of the board's physical resources: the timer, thirty GPIO
//! lines, two PIO blocks and the USB engine.
//!
//! Each resource is handed to one caller at a time. A caller checks a
//! resource out with `take_..` and gives it back with `return_..`.

use crate::pio::Pio;
use crate::resource::ResourceSlot;
use crate::state_machine::SlotView;
use crate::usb_manager::UsbManager;
use vstd::prelude::*;

verus! {

/// A checkout or check-in that the state of the resource does not allow.
#[derive(Debug, Clone, Copy, PartialEq, Eq, Structural)]
pub enum Error {
    /// The resource is out and has not been returned.
    AlreadyCheckedOut,
    /// The resource is present: nothing is out that could be returned.
    AlreadyPresent,
}

/// The system timer.
#[derive(Debug)]
pub struct Delay {
    timer: (),
}

/// GPIO line `N`.
#[derive(Debug)]
pub struct Pin<const N: u8> {
    line: (),
}

/// Names a resource of the board.
pub enum Resource {
    Delay,
    /// A GPIO line, 0 to 29.
    Pin(u8),
    Pio0,
    Pio1,
    Usb,
}

/// What the broker holds, as contracts see it.
#[verifier::ext_equal]
pub struct HardwareView {
    /// Whether the timer is available.
    pub delay: bool,
    /// For each of the thirty GPIO lines, whether it is available.
    pub pins: Seq<bool>,
    /// The state machines of block 0, while the block is available.
    pub pio0: Option<Seq<SlotView>>,
    /// The state machines of block 1, while the block is available.
    pub pio1: Option<Seq<SlotView>>,
    /// The bytes the USB manager has yet to send, while it is available.
    pub usb: Option<Seq<u8>>,
    /// Frequency of the crystal that the clocks were set up from, in Hz.
    pub crystal_frequency: u32,
}

impl HardwareView {
    /// Whether `resource` is available.
    pub open spec fn available(self, resource: Resource) -> bool {
        match resource {
            Resource::Delay => self.delay,
            Resource::Pin(n) => n < 30 && self.pins[n as int],
            Resource::Pio0 => self.pio0 is Some,
            Resource::Pio1 => self.pio1 is Some,
            Resource::Usb => self.usb is Some,
        }
    }

    /// The broker once `resource` is out.
    pub open spec fn checked_out(self, resource: Resource) -> HardwareView {
        match resource {
            Resource::Delay => HardwareView { delay: false, ..self },
            Resource::Pin(n) => if n < 30 {
                HardwareView { pins: self.pins.update(n as int, false), ..self }
            } else {
                self
            },
            Resource::Pio0 => HardwareView { pio0: None, ..self },
            Resource::Pio1 => HardwareView { pio1: None, ..self },
            Resource::Usb => HardwareView { usb: None, ..self },
        }
    }
}

/// The broker: every resource of the board, each in its slot.
#[derive(Debug)]
pub struct Hardware {
    delay: ResourceSlot<Delay>,
    pin0: ResourceSlot<Pin<0>>,
    pin1: ResourceSlot<Pin<1>>,
    pin2: ResourceSlot<Pin<2>>,
    pin3: ResourceSlot<Pin<3>>,
    pin4: ResourceSlot<Pin<4>>,
    pin5: ResourceSlot<Pin<5>>,
    pin6: ResourceSlot<Pin<6>>,
    pin7: ResourceSlot<Pin<7>>,
    pin8: ResourceSlot<Pin<8>>,
    pin9: ResourceSlot<Pin<9>>,
    pin10: ResourceSlot<Pin<10>>,
    pin11: ResourceSlot<Pin<11>>,
    pin12: ResourceSlot<Pin<12>>,
    pin13: ResourceSlot<Pin<13>>,
    pin14: ResourceSlot<Pin<14>>,
    pin15: ResourceSlot<Pin<15>>,
    pin16: ResourceSlot<Pin<16>>,
    pin17: ResourceSlot<Pin<17>>,
    pin18: ResourceSlot<Pin<18>>,
    pin19: ResourceSlot<Pin<19>>,
    pin20: ResourceSlot<Pin<20>>,
    pin21: ResourceSlot<Pin<21>>,
    pin22: ResourceSlot<Pin<22>>,
    pin23: ResourceSlot<Pin<23>>,
    pin24: ResourceSlot<Pin<24>>,
    pin25: ResourceSlot<Pin<25>>,
    pin26: ResourceSlot<Pin<26>>,
    pin27: ResourceSlot<Pin<27>>,
    pin28: ResourceSlot<Pin<28>>,
    pin29: ResourceSlot<Pin<29>>,
    pio0: ResourceSlot<Pio<0>>,
    pio1: ResourceSlot<Pio<1>>,
    usb: ResourceSlot<UsbManager>,
    crystal_frequency: u32,
}

impl Hardware {
    /// Whether GPIO line `n` is available.
    spec fn pin_available(&self, n: int) -> bool {
        if n == 0 {
            self.pin0@ is Some
        } else if n == 1 {
            self.pin1@ is Some
        } else if n == 2 {
            self.pin2@ is Some
        } else if n == 3 {
            self.pin3@ is Some
        } else if n == 4 {
            self.pin4@ is Some
        } else if n == 5 {
            self.pin5@ is Some
        } else if n == 6 {
            self.pin6@ is Some
        } else if n == 7 {
            self.pin7@ is Some
        } else if n == 8 {
            self.pin8@ is Some
        } else if n == 9 {
            self.pin9@ is Some
        } else if n == 10 {
            self.pin10@ is Some
        } else if n == 11 {
            self.pin11@ is Some
        } else if n == 12 {
            self.pin12@ is Some
        } else if n == 13 {
            self.pin13@ is Some
        } else if n == 14 {
            self.pin14@ is Some
        } else if n == 15 {
            self.pin15@ is Some
        } else if n == 16 {
            self.pin16@ is Some
        } else if n == 17 {
            self.pin17@ is Some
        } else if n == 18 {
            self.pin18@ is Some
        } else if n == 19 {
            self.pin19@ is Some
        } else if n == 20 {
            self.pin20@ is Some
        } else if n == 21 {
            self.pin21@ is Some
        } else if n == 22 {
            self.pin22@ is Some
        } else if n == 23 {
            self.pin23@ is Some
        } else if n == 24 {
            self.pin24@ is Some
        } else if n == 25 {
            self.pin25@ is Some
        } else if n == 26 {
            self.pin26@ is Some
        } else if n == 27 {
            self.pin27@ is Some
        } else if n == 28 {
            self.pin28@ is Some
        } else {
            self.pin29@ is Some
        }
    }

    /// What the broker holds.
    pub closed spec fn view(&self) -> HardwareView {
        HardwareView {
            delay: self.delay@ is Some,
            pins: Seq::new(30, |n: int| self.pin_available(n)),
            pio0: match self.pio0@ {
                Some(pio) => Some(pio@),
                None => None,
            },
            pio1: match self.pio1@ {
                Some(pio) => Some(pio@),
                None => None,
            },
            usb: match self.usb@ {
                Some(usb) => Some(usb@),
                None => None,
            },
            crystal_frequency: self.crystal_frequency,
        }
    }

    /// The board has thirty GPIO lines.
    pub proof fn lemma_thirty_lines(&self)
        ensures
            self@.pins.len() == 30,
    {
    }

    /// Sets the broker up with every resource available: both PIO blocks
    /// without a program, the USB manager with nothing to send.
    pub fn init(crystal_frequency: u32) -> (hardware: Hardware)
        ensures
            hardware@ =~= (HardwareView {
                delay: true,
                pins: Seq::new(30, |n: int| true),
                pio0: Some(Seq::new(4, |slot: int| SlotView::Uninitialized)),
                pio1: Some(Seq::new(4, |slot: int| SlotView::Uninitialized)),
                usb: Some(Seq::<u8>::empty()),
                crystal_frequency,
            }),
    {
        Hardware {
            delay: ResourceSlot::new(Delay { timer: () }),
            pin0: ResourceSlot::new(Pin { line: () }),
            pin1: ResourceSlot::new(Pin { line: () }),
            pin2: ResourceSlot::new(Pin { line: () }),
            pin3: ResourceSlot::new(Pin { line: () }),
            pin4: ResourceSlot::new(Pin { line: () }),
            pin5: ResourceSlot::new(Pin { line: () }),
            pin6: ResourceSlot::new(Pin { line: () }),
            pin7: ResourceSlot::new(Pin { line: () }),
            pin8: ResourceSlot::new(Pin { line: () }),
            pin9: ResourceSlot::new(Pin { line: () }),
            pin10: ResourceSlot::new(Pin { line: () }),
            pin11: ResourceSlot::new(Pin { line: () }),
            pin12: ResourceSlot::new(Pin { line: () }),
            pin13: ResourceSlot::new(Pin { line: () }),
            pin14: ResourceSlot::new(Pin { line: () }),
            pin15: ResourceSlot::new(Pin { line: () }),
            pin16: ResourceSlot::new(Pin { line: () }),
            pin17: ResourceSlot::new(Pin { line: () }),
            pin18: ResourceSlot::new(Pin { line: () }),
            pin19: ResourceSlot::new(Pin { line: () }),
            pin20: ResourceSlot::new(Pin { line: () }),
            pin21: ResourceSlot::new(Pin { line: () }),
            pin22: ResourceSlot::new(Pin { line: () }),
            pin23: ResourceSlot::new(Pin { line: () }),
            pin24: ResourceSlot::new(Pin { line: () }),
            pin25: ResourceSlot::new(Pin { line: () }),
            pin26: ResourceSlot::new(Pin { line: () }),
            pin27: ResourceSlot::new(Pin { line: () }),
            pin28: ResourceSlot::new(Pin { line: () }),
            pin29: ResourceSlot::new(Pin { line: () }),
            pio0: ResourceSlot::new(Pio::new()),
            pio1: ResourceSlot::new(Pio::new()),
            usb: ResourceSlot::new(UsbManager::new()),
            crystal_frequency,
        }
    }

    /// Frequency of the crystal that the clocks were set up from, in Hz.
    pub fn crystal_frequency(&self) -> (frequency: u32)
        ensures
            frequency == self@.crystal_frequency,
    {
        self.crystal_frequency
    }

    ////////////////////////////////////////////////////////////////////////////
    // Getters and setters
    ////////////////////////////////////////////////////////////////////////////

    /// The timer in place, while it is available.
    pub fn get_delay_mut(&mut self) -> (delay: Option<&mut Delay>)
        ensures
            delay is Some <==> old(self)@.available(Resource::Delay),
            final(self)@ =~= old(self)@,
    {
        self.delay.get_mut()
    }

    /// Checks the timer out.
    pub fn take_delay(&mut self) -> (r: Result<Delay, Error>)
        ensures
            r is Ok <==> old(self)@.available(Resource::Delay),
            r matches Err(e) ==> e == Error::AlreadyCheckedOut,
            final(self)@ =~= old(self)@.checked_out(Resource::Delay),
    {
        self.delay.checkout()
    }

    /// Takes the timer back.
    pub fn return_delay(&mut self, delay: Delay) -> (r: Result<(), Error>)
        ensures
            r is Ok <==> !old(self)@.available(Resource::Delay),
            r is Ok ==> final(self)@ =~= (HardwareView { delay: true, ..old(self)@ }),
            r matches Err(e) ==> e == Error::AlreadyPresent && final(self)@ =~= old(self)@,
    {
        self.delay.checkin(delay)
    }

    /// Checks GPIO line 0 out.
    pub fn take_pin0(&mut self) -> (r: Result<Pin<0>, Error>)
        ensures
            r is Ok <==> old(self)@.available(Resource::Pin(0)),
            r matches Err(e) ==> e == Error::AlreadyCheckedOut,
            final(self)@ =~= old(self)@.checked_out(Resource::Pin(0)),
    {
        self.pin0.checkout()
    }

    /// Takes GPIO line 0 back.
    pub fn return_pin0(&mut self, pin0: Pin<0>) -> (r: Result<(), Error>)
        ensures
            r is Ok <==> !old(self)@.available(Resource::Pin(0)),
            r is Ok ==> final(self)@ =~= (HardwareView {
                pins: old(self)@.pins.update(0, true),
                ..old(self)@
            }),
            r matches Err(e) ==> e == Error::AlreadyPresent && final(self)@ =~= old(self)@,
    {
        self.pin0.checkin(pin0)
    }

    /// Checks GPIO line 1 out.
    pub fn take_pin1(&mut self) -> (r: Result<Pin<1>, Error>)
        ensures
            r is Ok <==> old(self)@.available(Resource::Pin(1)),
            r matches Err(e) ==> e == Error::AlreadyCheckedOut,
            final(self)@ =~= old(self)@.checked_out(Resource::Pin(1)),
    {
        self.pin1.checkout()
    }

    /// Takes GPIO line 1 back.
    pub fn return_pin1(&mut self, pin1: Pin<1>) -> (r: Result<(), Error>)
        ensures
            r is Ok <==> !old(self)@.available(Resource::Pin(1)),
            r is Ok ==> final(self)@ =~= (HardwareView {
                pins: old(self)@.pins.update(1, true),
                ..old(self)@
            }),
            r matches Err(e) ==> e == Error::AlreadyPresent && final(self)@ =~= old(self)@,
    {
        self.pin1.checkin(pin1)
    }

    /// Checks GPIO line 2 out.
    pub fn take_pin2(&mut self) -> (r: Result<Pin<2>, Error>)
        ensures
            r is Ok <==> old(self)@.available(Resource::Pin(2)),
            r matches Err(e) ==> e == Error::AlreadyCheckedOut,
            final(self)@ =~= old(self)@.checked_out(Resource::Pin(2)),
    {
        self.pin2.checkout()
    }

    /// Takes GPIO line 2 back.
    pub fn return_pin2(&mut self, pin2: Pin<2>) -> (r: Result<(), Error>)
        ensures
            r is Ok <==> !old(self)@.available(Resource::Pin(2)),
            r is Ok ==> final(self)@ =~= (HardwareView {
                pins: old(self)@.pins.update(2, true),
                ..old(self)@
            }),
            r matches Err(e) ==> e == Error::AlreadyPresent && final(self)@ =~= old(self)@,
    {
        self.pin2.checkin(pin2)
    }

    /// Checks GPIO line 3 out.
    pub fn take_pin3(&mut self) -> (r: Result<Pin<3>, Error>)
        ensures
            r is Ok <==> old(self)@.available(Resource::Pin(3)),
            r matches Err(e) ==> e == Error::AlreadyCheckedOut,
            final(self)@ =~= old(self)@.checked_out(Resource::Pin(3)),
    {
        self.pin3.checkout()
    }

    /// Takes GPIO line 3 back.
    pub fn return_pin3(&mut self, pin3: Pin<3>) -> (r: Result<(), Error>)
        ensures
            r is Ok <==> !old(self)@.available(Resource::Pin(3)),
            r is Ok ==> final(self)@ =~= (HardwareView {
                pins: old(self)@.pins.update(3, true),
                ..old(self)@
            }),
            r matches Err(e) ==> e == Error::AlreadyPresent && final(self)@ =~= old(self)@,
    {
        self.pin3.checkin(pin3)
    }

    /// Checks GPIO line 4 out.
    pub fn take_pin4(&mut self) -> (r: Result<Pin<4>, Error>)
        ensures
            r is Ok <==> old(self)@.available(Resource::Pin(4)),
            r matches Err(e) ==> e == Error::AlreadyCheckedOut,
            final(self)@ =~= old(self)@.checked_out(Resource::Pin(4)),
    {
        self.pin4.checkout()
    }

    /// Takes GPIO line 4 back.
    pub fn return_pin4(&mut self, pin4: Pin<4>) -> (r: Result<(), Error>)
        ensures
            r is Ok <==> !old(self)@.available(Resource::Pin(4)),
            r is Ok ==> final(self)@ =~= (HardwareView {
                pins: old(self)@.pins.update(4, true),
                ..old(self)@
            }),
            r matches Err(e) ==> e == Error::AlreadyPresent && final(self)@ =~= old(self)@,
    {
        self.pin4.checkin(pin4)
    }

    /// Checks GPIO line 5 out.
    pub fn take_pin5(&mut self) -> (r: Result<Pin<5>, Error>)
        ensures
            r is Ok <==> old(self)@.available(Resource::Pin(5)),
            r matches Err(e) ==> e == Error::AlreadyCheckedOut,
            final(self)@ =~= old(self)@.checked_out(Resource::Pin(5)),
    {
        self.pin5.checkout()
    }

    /// Takes GPIO line 5 back.
    pub fn return_pin5(&mut self, pin5: Pin<5>) -> (r: Result<(), Error>)
        ensures
            r is Ok <==> !old(self)@.available(Resource::Pin(5)),
            r is Ok ==> final(self)@ =~= (HardwareView {
                pins: old(self)@.pins.update(5, true),
                ..old(self)@
            }),
            r matches Err(e) ==> e == Error::AlreadyPresent && final(self)@ =~= old(self)@,
    {
        self.pin5.checkin(pin5)
    }

    /// Checks GPIO line 6 out.
    pub fn take_pin6(&mut self) -> (r: Result<Pin<6>, Error>)
        ensures
            r is Ok <==> old(self)@.available(Resource::Pin(6)),
            r matches Err(e) ==> e == Error::AlreadyCheckedOut,
            final(self)@ =~= old(self)@.checked_out(Resource::Pin(6)),
    {
        self.pin6.checkout()
    }

    /// Takes GPIO line 6 back.
    pub fn return_pin6(&mut self, pin6: Pin<6>) -> (r: Result<(), Error>)
        ensures
            r is Ok <==> !old(self)@.available(Resource::Pin(6)),
            r is Ok ==> final(self)@ =~= (HardwareView {
                pins: old(self)@.pins.update(6, true),
                ..old(self)@
            }),
            r matches Err(e) ==> e == Error::AlreadyPresent && final(self)@ =~= old(self)@,
    {
        self.pin6.checkin(pin6)
    }

    /// Checks GPIO line 7 out.
    pub fn take_pin7(&mut self) -> (r: Result<Pin<7>, Error>)
        ensures
            r is Ok <==> old(self)@.available(Resource::Pin(7)),
            r matches Err(e) ==> e == Error::AlreadyCheckedOut,
            final(self)@ =~= old(self)@.checked_out(Resource::Pin(7)),
    {
        self.pin7.checkout()
    }

    /// Takes GPIO line 7 back.
    pub fn return_pin7(&mut self, pin7: Pin<7>) -> (r: Result<(), Error>)
        ensures
            r is Ok <==> !old(self)@.available(Resource::Pin(7)),
            r is Ok ==> final(self)@ =~= (HardwareView {
                pins: old(self)@.pins.update(7, true),
                ..old(self)@
            }),
            r matches Err(e) ==> e == Error::AlreadyPresent && final(self)@ =~= old(self)@,
    {
        self.pin7.checkin(pin7)
    }

    /// Checks GPIO line 8 out.
    pub fn take_pin8(&mut self) -> (r: Result<Pin<8>, Error>)
        ensures
            r is Ok <==> old(self)@.available(Resource::Pin(8)),
            r matches Err(e) ==> e == Error::AlreadyCheckedOut,
            final(self)@ =~= old(self)@.checked_out(Resource::Pin(8)),
    {
        self.pin8.checkout()
    }

    /// Takes GPIO line 8 back.
    pub fn return_pin8(&mut self, pin8: Pin<8>) -> (r: Result<(), Error>)
        ensures
            r is Ok <==> !old(self)@.available(Resource::Pin(8)),
            r is Ok ==> final(self)@ =~= (HardwareView {
                pins: old(self)@.pins.update(8, true),
                ..old(self)@
            }),
            r matches Err(e) ==> e == Error::AlreadyPresent && final(self)@ =~= old(self)@,
    {
        self.pin8.checkin(pin8)
    }

    /// Checks GPIO line 9 out.
    pub fn take_pin9(&mut self) -> (r: Result<Pin<9>, Error>)
        ensures
            r is Ok <==> old(self)@.available(Resource::Pin(9)),
            r matches Err(e) ==> e == Error::AlreadyCheckedOut,
            final(self)@ =~= old(self)@.checked_out(Resource::Pin(9)),
    {
        self.pin9.checkout()
    }

    /// Takes GPIO line 9 back.
    pub fn return_pin9(&mut self, pin9: Pin<9>) -> (r: Result<(), Error>)
        ensures
            r is Ok <==> !old(self)@.available(Resource::Pin(9)),
            r is Ok ==> final(self)@ =~= (HardwareView {
                pins: old(self)@.pins.update(9, true),
                ..old(self)@
            }),
            r matches Err(e) ==> e == Error::AlreadyPresent && final(self)@ =~= old(self)@,
    {
        self.pin9.checkin(pin9)
    }

    /// Checks GPIO line 10 out.
    pub fn take_pin10(&mut self) -> (r: Result<Pin<10>, Error>)
        ensures
            r is Ok <==> old(self)@.available(Resource::Pin(10)),
            r matches Err(e) ==> e == Error::AlreadyCheckedOut,
            final(self)@ =~= old(self)@.checked_out(Resource::Pin(10)),
    {
        self.pin10.checkout()
    }

    /// Takes GPIO line 10 back.
    pub fn return_pin10(&mut self, pin10: Pin<10>) -> (r: Result<(), Error>)
        ensures
            r is Ok <==> !old(self)@.available(Resource::Pin(10)),
            r is Ok ==> final(self)@ =~= (HardwareView {
                pins: old(self)@.pins.update(10, true),
                ..old(self)@
            }),
            r matches Err(e) ==> e == Error::AlreadyPresent && final(self)@ =~= old(self)@,
    {
        self.pin10.checkin(pin10)
    }

    /// Checks GPIO line 11 out.
    pub fn take_pin11(&mut self) -> (r: Result<Pin<11>, Error>)
        ensures
            r is Ok <==> old(self)@.available(Resource::Pin(11)),
            r matches Err(e) ==> e == Error::AlreadyCheckedOut,
            final(self)@ =~= old(self)@.checked_out(Resource::Pin(11)),
    {
        self.pin11.checkout()
    }

    /// Takes GPIO line 11 back.
    pub fn return_pin11(&mut self, pin11: Pin<11>) -> (r: Result<(), Error>)
        ensures
            r is Ok <==> !old(self)@.available(Resource::Pin(11)),
            r is Ok ==> final(self)@ =~= (HardwareView {
                pins: old(self)@.pins.update(11, true),
                ..old(self)@
            }),
            r matches Err(e) ==> e == Error::AlreadyPresent && final(self)@ =~= old(self)@,
    {
        self.pin11.checkin(pin11)
    }

    /// Checks GPIO line 12 out.
    pub fn take_pin12(&mut self) -> (r: Result<Pin<12>, Error>)
        ensures
            r is Ok <==> old(self)@.available(Resource::Pin(12)),
            r matches Err(e) ==> e == Error::AlreadyCheckedOut,
            final(self)@ =~= old(self)@.checked_out(Resource::Pin(12)),
    {
        self.pin12.checkout()
    }

    /// Takes GPIO line 12 back.
    pub fn return_pin12(&mut self, pin12: Pin<12>) -> (r: Result<(), Error>)
        ensures
            r is Ok <==> !old(self)@.available(Resource::Pin(12)),
            r is Ok ==> final(self)@ =~= (HardwareView {
                pins: old(self)@.pins.update(12, true),
                ..old(self)@
            }),
            r matches Err(e) ==> e == Error::AlreadyPresent && final(self)@ =~= old(self)@,
    {
        self.pin12.checkin(pin12)
    }

    /// Checks GPIO line 13 out.
    pub fn take_pin13(&mut self) -> (r: Result<Pin<13>, Error>)
        ensures
            r is Ok <==> old(self)@.available(Resource::Pin(13)),
            r matches Err(e) ==> e == Error::AlreadyCheckedOut,
            final(self)@ =~= old(self)@.checked_out(Resource::Pin(13)),
    {
        self.pin13.checkout()
    }

    /// Takes GPIO line 13 back.
    pub fn return_pin13(&mut self, pin13: Pin<13>) -> (r: Result<(), Error>)
        ensures
            r is Ok <==> !old(self)@.available(Resource::Pin(13)),
            r is Ok ==> final(self)@ =~= (HardwareView {
                pins: old(self)@.pins.update(13, true),
                ..old(self)@
            }),
            r matches Err(e) ==> e == Error::AlreadyPresent && final(self)@ =~= old(self)@,
    {
        self.pin13.checkin(pin13)
    }

    /// Checks GPIO line 14 out.
    pub fn take_pin14(&mut self) -> (r: Result<Pin<14>, Error>)
        ensures
            r is Ok <==> old(self)@.available(Resource::Pin(14)),
            r matches Err(e) ==> e == Error::AlreadyCheckedOut,
            final(self)@ =~= old(self)@.checked_out(Resource::Pin(14)),
    {
        self.pin14.checkout()
    }

    /// Takes GPIO line 14 back.
    pub fn return_pin14(&mut self, pin14: Pin<14>) -> (r: Result<(), Error>)
        ensures
            r is Ok <==> !old(self)@.available(Resource::Pin(14)),
            r is Ok ==> final(self)@ =~= (HardwareView {
                pins: old(self)@.pins.update(14, true),
                ..old(self)@
            }),
            r matches Err(e) ==> e == Error::AlreadyPresent && final(self)@ =~= old(self)@,
    {
        self.pin14.checkin(pin14)
    }

    /// Checks GPIO line 15 out.
    pub fn take_pin15(&mut self) -> (r: Result<Pin<15>, Error>)
        ensures
            r is Ok <==> old(self)@.available(Resource::Pin(15)),
            r matches Err(e) ==> e == Error::AlreadyCheckedOut,
            final(self)@ =~= old(self)@.checked_out(Resource::Pin(15)),
    {
        self.pin15.checkout()
    }

    /// Takes GPIO line 15 back.
    pub fn return_pin15(&mut self, pin15: Pin<15>) -> (r: Result<(), Error>)
        ensures
            r is Ok <==> !old(self)@.available(Resource::Pin(15)),
            r is Ok ==> final(self)@ =~= (HardwareView {
                pins: old(self)@.pins.update(15, true),
                ..old(self)@
            }),
            r matches Err(e) ==> e == Error::AlreadyPresent && final(self)@ =~= old(self)@,
    {
        self.pin15.checkin(pin15)
    }

    /// Checks GPIO line 16 out.
    pub fn take_pin16(&mut self) -> (r: Result<Pin<16>, Error>)
        ensures
            r is Ok <==> old(self)@.available(Resource::Pin(16)),
            r matches Err(e) ==> e == Error::AlreadyCheckedOut,
            final(self)@ =~= old(self)@.checked_out(Resource::Pin(16)),
    {
        self.pin16.checkout()
    }

    /// Takes GPIO line 16 back.
    pub fn return_pin16(&mut self, pin16: Pin<16>) -> (r: Result<(), Error>)
        ensures
            r is Ok <==> !old(self)@.available(Resource::Pin(16)),
            r is Ok ==> final(self)@ =~= (HardwareView {
                pins: old(self)@.pins.update(16, true),
                ..old(self)@
            }),
            r matches Err(e) ==> e == Error::AlreadyPresent && final(self)@ =~= old(self)@,
    {
        self.pin16.checkin(pin16)
    }

    /// Checks GPIO line 17 out.
    pub fn take_pin17(&mut self) -> (r: Result<Pin<17>, Error>)
        ensures
            r is Ok <==> old(self)@.available(Resource::Pin(17)),
            r matches Err(e) ==> e == Error::AlreadyCheckedOut,
            final(self)@ =~= old(self)@.checked_out(Resource::Pin(17)),
    {
        self.pin17.checkout()
    }

    /// Takes GPIO line 17 back.
    pub fn return_pin17(&mut self, pin17: Pin<17>) -> (r: Result<(), Error>)
        ensures
            r is Ok <==> !old(self)@.available(Resource::Pin(17)),
            r is Ok ==> final(self)@ =~= (HardwareView {
                pins: old(self)@.pins.update(17, true),
                ..old(self)@
            }),
            r matches Err(e) ==> e == Error::AlreadyPresent && final(self)@ =~= old(self)@,
    {
        self.pin17.checkin(pin17)
    }

    /// Checks GPIO line 18 out.
    pub fn take_pin18(&mut self) -> (r: Result<Pin<18>, Error>)
        ensures
            r is Ok <==> old(self)@.available(Resource::Pin(18)),
            r matches Err(e) ==> e == Error::AlreadyCheckedOut,
            final(self)@ =~= old(self)@.checked_out(Resource::Pin(18)),
    {
        self.pin18.checkout()
    }

    /// Takes GPIO line 18 back.
    pub fn return_pin18(&mut self, pin18: Pin<18>) -> (r: Result<(), Error>)
        ensures
            r is Ok <==> !old(self)@.available(Resource::Pin(18)),
            r is Ok ==> final(self)@ =~= (HardwareView {
                pins: old(self)@.pins.update(18, true),
                ..old(self)@
            }),
            r matches Err(e) ==> e == Error::AlreadyPresent && final(self)@ =~= old(self)@,
    {
        self.pin18.checkin(pin18)
    }

    /// Checks GPIO line 19 out.
    pub fn take_pin19(&mut self) -> (r: Result<Pin<19>, Error>)
        ensures
            r is Ok <==> old(self)@.available(Resource::Pin(19)),
            r matches Err(e) ==> e == Error::AlreadyCheckedOut,
            final(self)@ =~= old(self)@.checked_out(Resource::Pin(19)),
    {
        self.pin19.checkout()
    }

    /// Takes GPIO line 19 back.
    pub fn return_pin19(&mut self, pin19: Pin<19>) -> (r: Result<(), Error>)
        ensures
            r is Ok <==> !old(self)@.available(Resource::Pin(19)),
            r is Ok ==> final(self)@ =~= (HardwareView {
                pins: old(self)@.pins.update(19, true),
                ..old(self)@
            }),
            r matches Err(e) ==> e == Error::AlreadyPresent && final(self)@ =~= old(self)@,
    {
        self.pin19.checkin(pin19)
    }

    /// Checks GPIO line 20 out.
    pub fn take_pin20(&mut self) -> (r: Result<Pin<20>, Error>)
        ensures
            r is Ok <==> old(self)@.available(Resource::Pin(20)),
            r matches Err(e) ==> e == Error::AlreadyCheckedOut,
            final(self)@ =~= old(self)@.checked_out(Resource::Pin(20)),
    {
        self.pin20.checkout()
    }

    /// Takes GPIO line 20 back.
    pub fn return_pin20(&mut self, pin20: Pin<20>) -> (r: Result<(), Error>)
        ensures
            r is Ok <==> !old(self)@.available(Resource::Pin(20)),
            r is Ok ==> final(self)@ =~= (HardwareView {
                pins: old(self)@.pins.update(20, true),
                ..old(self)@
            }),
            r matches Err(e) ==> e == Error::AlreadyPresent && final(self)@ =~= old(self)@,
    {
        self.pin20.checkin(pin20)
    }

    /// Checks GPIO line 21 out.
    pub fn take_pin21(&mut self) -> (r: Result<Pin<21>, Error>)
        ensures
            r is Ok <==> old(self)@.available(Resource::Pin(21)),
            r matches Err(e) ==> e == Error::AlreadyCheckedOut,
            final(self)@ =~= old(self)@.checked_out(Resource::Pin(21)),
    {
        self.pin21.checkout()
    }

    /// Takes GPIO line 21 back.
    pub fn return_pin21(&mut self, pin21: Pin<21>) -> (r: Result<(), Error>)
        ensures
            r is Ok <==> !old(self)@.available(Resource::Pin(21)),
            r is Ok ==> final(self)@ =~= (HardwareView {
                pins: old(self)@.pins.update(21, true),
                ..old(self)@
            }),
            r matches Err(e) ==> e == Error::AlreadyPresent && final(self)@ =~= old(self)@,
    {
        self.pin21.checkin(pin21)
    }

    /// Checks GPIO line 22 out.
    pub fn take_pin22(&mut self) -> (r: Result<Pin<22>, Error>)
        ensures
            r is Ok <==> old(self)@.available(Resource::Pin(22)),
            r matches Err(e) ==> e == Error::AlreadyCheckedOut,
            final(self)@ =~= old(self)@.checked_out(Resource::Pin(22)),
    {
        self.pin22.checkout()
    }

    /// Takes GPIO line 22 back.
    pub fn return_pin22(&mut self, pin22: Pin<22>) -> (r: Result<(), Error>)
        ensures
            r is Ok <==> !old(self)@.available(Resource::Pin(22)),
            r is Ok ==> final(self)@ =~= (HardwareView {
                pins: old(self)@.pins.update(22, true),
                ..old(self)@
            }),
            r matches Err(e) ==> e == Error::AlreadyPresent && final(self)@ =~= old(self)@,
    {
        self.pin22.checkin(pin22)
    }

    /// Checks GPIO line 23 out.
    pub fn take_pin23(&mut self) -> (r: Result<Pin<23>, Error>)
        ensures
            r is Ok <==> old(self)@.available(Resource::Pin(23)),
            r matches Err(e) ==> e == Error::AlreadyCheckedOut,
            final(self)@ =~= old(self)@.checked_out(Resource::Pin(23)),
    {
        self.pin23.checkout()
    }

    /// Takes GPIO line 23 back.
    pub fn return_pin23(&mut self, pin23: Pin<23>) -> (r: Result<(), Error>)
        ensures
            r is Ok <==> !old(self)@.available(Resource::Pin(23)),
            r is Ok ==> final(self)@ =~= (HardwareView {
                pins: old(self)@.pins.update(23, true),
                ..old(self)@
            }),
            r matches Err(e) ==> e == Error::AlreadyPresent && final(self)@ =~= old(self)@,
    {
        self.pin23.checkin(pin23)
    }

    /// Checks GPIO line 24 out.
    pub fn take_pin24(&mut self) -> (r: Result<Pin<24>, Error>)
        ensures
            r is Ok <==> old(self)@.available(Resource::Pin(24)),
            r matches Err(e) ==> e == Error::AlreadyCheckedOut,
            final(self)@ =~= old(self)@.checked_out(Resource::Pin(24)),
    {
        self.pin24.checkout()
    }

    /// Takes GPIO line 24 back.
    pub fn return_pin24(&mut self, pin24: Pin<24>) -> (r: Result<(), Error>)
        ensures
            r is Ok <==> !old(self)@.available(Resource::Pin(24)),
            r is Ok ==> final(self)@ =~= (HardwareView {
                pins: old(self)@.pins.update(24, true),
                ..old(self)@
            }),
            r matches Err(e) ==> e == Error::AlreadyPresent && final(self)@ =~= old(self)@,
    {
        self.pin24.checkin(pin24)
    }

    /// Checks GPIO line 25 out.
    pub fn take_pin25(&mut self) -> (r: Result<Pin<25>, Error>)
        ensures
            r is Ok <==> old(self)@.available(Resource::Pin(25)),
            r matches Err(e) ==> e == Error::AlreadyCheckedOut,
            final(self)@ =~= old(self)@.checked_out(Resource::Pin(25)),
    {
        self.pin25.checkout()
    }

    /// Takes GPIO line 25 back.
    pub fn return_pin25(&mut self, pin25: Pin<25>) -> (r: Result<(), Error>)
        ensures
            r is Ok <==> !old(self)@.available(Resource::Pin(25)),
            r is Ok ==> final(self)@ =~= (HardwareView {
                pins: old(self)@.pins.update(25, true),
                ..old(self)@
            }),
            r matches Err(e) ==> e == Error::AlreadyPresent && final(self)@ =~= old(self)@,
    {
        self.pin25.checkin(pin25)
    }

    /// Checks GPIO line 26 out.
    pub fn take_pin26(&mut self) -> (r: Result<Pin<26>, Error>)
        ensures
            r is Ok <==> old(self)@.available(Resource::Pin(26)),
            r matches Err(e) ==> e == Error::AlreadyCheckedOut,
            final(self)@ =~= old(self)@.checked_out(Resource::Pin(26)),
    {
        self.pin26.checkout()
    }

    /// Takes GPIO line 26 back.
    pub fn return_pin26(&mut self, pin26: Pin<26>) -> (r: Result<(), Error>)
        ensures
            r is Ok <==> !old(self)@.available(Resource::Pin(26)),
            r is Ok ==> final(self)@ =~= (HardwareView {
                pins: old(self)@.pins.update(26, true),
                ..old(self)@
            }),
            r matches Err(e) ==> e == Error::AlreadyPresent && final(self)@ =~= old(self)@,
    {
        self.pin26.checkin(pin26)
    }

    /// Checks GPIO line 27 out.
    pub fn take_pin27(&mut self) -> (r: Result<Pin<27>, Error>)
        ensures
            r is Ok <==> old(self)@.available(Resource::Pin(27)),
            r matches Err(e) ==> e == Error::AlreadyCheckedOut,
            final(self)@ =~= old(self)@.checked_out(Resource::Pin(27)),
    {
        self.pin27.checkout()
    }

    /// Takes GPIO line 27 back.
    pub fn return_pin27(&mut self, pin27: Pin<27>) -> (r: Result<(), Error>)
        ensures
            r is Ok <==> !old(self)@.available(Resource::Pin(27)),
            r is Ok ==> final(self)@ =~= (HardwareView {
                pins: old(self)@.pins.update(27, true),
                ..old(self)@
            }),
            r matches Err(e) ==> e == Error::AlreadyPresent && final(self)@ =~= old(self)@,
    {
        self.pin27.checkin(pin27)
    }

    /// Checks GPIO line 28 out.
    pub fn take_pin28(&mut self) -> (r: Result<Pin<28>, Error>)
        ensures
            r is Ok <==> old(self)@.available(Resource::Pin(28)),
            r matches Err(e) ==> e == Error::AlreadyCheckedOut,
            final(self)@ =~= old(self)@.checked_out(Resource::Pin(28)),
    {
        self.pin28.checkout()
    }

    /// Takes GPIO line 28 back.
    pub fn return_pin28(&mut self, pin28: Pin<28>) -> (r: Result<(), Error>)
        ensures
            r is Ok <==> !old(self)@.available(Resource::Pin(28)),
            r is Ok ==> final(self)@ =~= (HardwareView {
                pins: old(self)@.pins.update(28, true),
                ..old(self)@
            }),
            r matches Err(e) ==> e == Error::AlreadyPresent && final(self)@ =~= old(self)@,
    {
        self.pin28.checkin(pin28)
    }

    /// Checks GPIO line 29 out.
    pub fn take_pin29(&mut self) -> (r: Result<Pin<29>, Error>)
        ensures
            r is Ok <==> old(self)@.available(Resource::Pin(29)),
            r matches Err(e) ==> e == Error::AlreadyCheckedOut,
            final(self)@ =~= old(self)@.checked_out(Resource::Pin(29)),
    {
        self.pin29.checkout()
    }

    /// Takes GPIO line 29 back.
    pub fn return_pin29(&mut self, pin29: Pin<29>) -> (r: Result<(), Error>)
        ensures
            r is Ok <==> !old(self)@.available(Resource::Pin(29)),
            r is Ok ==> final(self)@ =~= (HardwareView {
                pins: old(self)@.pins.update(29, true),
                ..old(self)@
            }),
            r matches Err(e) ==> e == Error::AlreadyPresent && final(self)@ =~= old(self)@,
    {
        self.pin29.checkin(pin29)
    }

    /// PIO block 0 in place, while it is available.
    pub fn get_pio0_mut(&mut self) -> (pio0: Option<&mut Pio<0>>)
        ensures
            match old(self)@.pio0 {
                Some(slots) => pio0 matches Some(pio) && pio@ == slots && final(self)@
                    =~= (HardwareView { pio0: Some(final(pio)@), ..old(self)@ }),
                None => pio0 is None && final(self)@ =~= old(self)@,
            },
    {
        self.pio0.get_mut()
    }

    /// Checks PIO block 0 out, in the state it is in.
    pub fn take_pio0(&mut self) -> (r: Result<Pio<0>, Error>)
        ensures
            r is Ok <==> old(self)@.available(Resource::Pio0),
            r matches Ok(pio) ==> old(self)@.pio0 == Some(pio@),
            r matches Err(e) ==> e == Error::AlreadyCheckedOut,
            final(self)@ =~= old(self)@.checked_out(Resource::Pio0),
    {
        self.pio0.checkout()
    }

    /// Takes PIO block 0 back, in the state it is in.
    pub fn return_pio0(&mut self, pio0: Pio<0>) -> (r: Result<(), Error>)
        ensures
            r is Ok <==> !old(self)@.available(Resource::Pio0),
            r is Ok ==> final(self)@ =~= (HardwareView { pio0: Some(pio0@), ..old(self)@ }),
            r matches Err(e) ==> e == Error::AlreadyPresent && final(self)@ =~= old(self)@,
    {
        self.pio0.checkin(pio0)
    }

    /// PIO block 1 in place, while it is available.
    pub fn get_pio1_mut(&mut self) -> (pio1: Option<&mut Pio<1>>)
        ensures
            match old(self)@.pio1 {
                Some(slots) => pio1 matches Some(pio) && pio@ == slots && final(self)@
                    =~= (HardwareView { pio1: Some(final(pio)@), ..old(self)@ }),
                None => pio1 is None && final(self)@ =~= old(self)@,
            },
    {
        self.pio1.get_mut()
    }

    /// Checks PIO block 1 out, in the state it is in.
    pub fn take_pio1(&mut self) -> (r: Result<Pio<1>, Error>)
        ensures
            r is Ok <==> old(self)@.available(Resource::Pio1),
            r matches Ok(pio) ==> old(self)@.pio1 == Some(pio@),
            r matches Err(e) ==> e == Error::AlreadyCheckedOut,
            final(self)@ =~= old(self)@.checked_out(Resource::Pio1),
    {
        self.pio1.checkout()
    }

    /// Takes PIO block 1 back, in the state it is in.
    pub fn return_pio1(&mut self, pio1: Pio<1>) -> (r: Result<(), Error>)
        ensures
            r is Ok <==> !old(self)@.available(Resource::Pio1),
            r is Ok ==> final(self)@ =~= (HardwareView { pio1: Some(pio1@), ..old(self)@ }),
            r matches Err(e) ==> e == Error::AlreadyPresent && final(self)@ =~= old(self)@,
    {
        self.pio1.checkin(pio1)
    }

    /// The USB manager in place, while it is available.
    pub fn get_usb_mut(&mut self) -> (usb: Option<&mut UsbManager>)
        ensures
            match old(self)@.usb {
                Some(outgoing) => usb matches Some(manager) && manager@ == outgoing && final(self)@
                    =~= (HardwareView { usb: Some(final(manager)@), ..old(self)@ }),
                None => usb is None && final(self)@ =~= old(self)@,
            },
    {
        self.usb.get_mut()
    }

    /// Checks the USB manager out, with what it has yet to send.
    pub fn take_usb(&mut self) -> (r: Result<UsbManager, Error>)
        ensures
            r is Ok <==> old(self)@.available(Resource::Usb),
            r matches Ok(usb) ==> old(self)@.usb == Some(usb@),
            r matches Err(e) ==> e == Error::AlreadyCheckedOut,
            final(self)@ =~= old(self)@.checked_out(Resource::Usb),
    {
        self.usb.checkout()
    }

    /// Takes the USB manager back, with what it has yet to send.
    pub fn return_usb(&mut self, usb: UsbManager) -> (r: Result<(), Error>)
        ensures
            r is Ok <==> !old(self)@.available(Resource::Usb),
            r is Ok ==> final(self)@ =~= (HardwareView { usb: Some(usb@), ..old(self)@ }),
            r matches Err(e) ==> e == Error::AlreadyPresent && final(self)@ =~= old(self)@,
    {
        self.usb.checkin(usb)
    }
}

/// A resource that is out stays out, whatever else is checked out.
///
/// Once `resource` is checked out it is no longer available, so that a second
/// checkout of it fails; and checking out `resource` leaves every other
/// resource as available as it was.
pub proof fn lemma_checked_out_is_unavailable(
    hardware: HardwareView,
    resource: Resource,
    other: Resource,
)
    requires
        hardware.pins.len() == 30,
    ensures
        !hardware.checked_out(resource).available(resource),
        other != resource ==> hardware.checked_out(resource).available(other)
            == hardware.available(other),
{
}

} // verus!
