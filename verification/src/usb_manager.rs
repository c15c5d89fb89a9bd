//! The USB serial line, as far as the broker and the logger deal with it.

use crate::hardware::{Hardware, HardwareView};
use vstd::prelude::*;
use vstd::string::StringSliceAdditionalSpecFns;

verus! {

/// The USB engine with its serial line.
///
/// Text written to the line is kept here until the transport sends it.
#[derive(Debug)]
pub struct UsbManager {
    outgoing: Vec<u8>,
}

impl UsbManager {
    /// The bytes written and not yet sent, oldest first.
    pub closed spec fn view(&self) -> Seq<u8> {
        self.outgoing@
    }

    /// A manager with nothing to send.
    pub fn new() -> (usb: UsbManager)
        ensures
            usb@ == Seq::<u8>::empty(),
    {
        UsbManager { outgoing: Vec::new() }
    }

    /// Queues the bytes of `s` for sending.
    pub fn write_str(&mut self, s: &str)
        ensures
            final(self)@ == old(self)@ + s.spec_bytes(),
    {
        let bytes = s.as_bytes();
        let mut i: usize = 0;
        while i < bytes.len()
            invariant
                i <= bytes.len(),
                bytes@ == s.spec_bytes(),
                self.outgoing@ == old(self).outgoing@ + bytes@.subrange(0, i as int),
            decreases bytes.len() - i,
        {
            self.outgoing.push(bytes[i]);
            i += 1;
        }
    }

    /// Hands over the bytes to send and leaves none behind.
    pub fn take_outgoing(&mut self) -> (bytes: Vec<u8>)
        ensures
            bytes@ == old(self)@,
            final(self)@ == Seq::<u8>::empty(),
    {
        let mut bytes = Vec::new();
        core::mem::swap(&mut self.outgoing, &mut bytes);
        bytes
    }
}

/// Finds the USB manager that a USB interrupt is for.
///
/// If usb isn't enabled by the time an interrupt is attempted, there is
/// nothing to serve: that is so where the hardware is not set up yet, and
/// where the USB manager is checked out.
pub fn usbctrl_irq(hardware: Option<&mut Hardware>) -> (usb_manager: Option<&mut UsbManager>)
    ensures
        hardware is None ==> usb_manager is None,
        hardware matches Some(board) ==> match board@.usb {
            Some(outgoing) => {
                &&& usb_manager matches Some(usb)
                &&& usb@ == outgoing
                &&& final(board)@ =~= (HardwareView { usb: Some(final(usb)@), ..board@ })
            },
            None => usb_manager is None && final(board)@ =~= board@,
        },
{
    let Some(hardware) = hardware else {
        return None;
    };
    hardware.get_usb_mut()
}

} // verus!
