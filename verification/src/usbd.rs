//! USB device mode: descriptors shared with the controller and the bus state.

pub mod bus;
pub mod dqh;
pub mod dtd;
pub mod token;
pub mod util;

use vstd::prelude::*;

verus! {

/// USBCMD: controller reset.
pub const USB_OTG_USBCMD_RST: u32 = 1 << 1;

/// USBCMD: run/stop.
pub const USBCMD_RS: u32 = 1;

/// USBCMD: setup tripwire.
pub const CMD_SUTW: u32 = 1 << 13;

/// USBMODE: device-only controller.
pub const USB_OTG_USBMODE_CM_DEVICE: u32 = 0b10;

/// USBMODE: mask of the controller mode.
pub const USB_OTG_USBMODE_CM_MASK: u32 = 0b11;

/// USBMODE: setup lockouts off.
pub const USB_OTG_USBMODE_SLOM: u32 = 1 << 3;

/// USBMODE: stream disable.
pub const USB_OTG_USBMODE_SDIS: u32 = 1 << 4;

/// OTGSC: OTG termination, required in device mode.
pub const USB_OTG_OTGSC_OT: u32 = 1 << 3;

/// USBINTR: the interrupts the driver enables: USB interrupt, port change,
/// system error, USB reset and start of frame.
pub const USB_OTG_USBINTR_ENABLED: u32 = 1 | (1 << 2) | (1 << 4) | (1 << 5) | (1 << 7);

/// USBPHY PWD: the power-down bits of the receiver and transmitter blocks.
pub const USBPHY_PWD_ALL: u32 = (1 << 20) | (1 << 19) | (1 << 18) | (1 << 17) | (1 << 12) | (1 << 11)
    | (1 << 10);

/// CPSR: IRQs masked.
pub const CPSR_IRQ_MASK: u32 = 1 << 7;

/// The USBMODE value that selects device mode with setup lockouts off and
/// streaming enabled.
pub fn device_usbmode(usbmode: u32) -> (r: u32)
    ensures
        r == ((((usbmode & !USB_OTG_USBMODE_CM_MASK) | USB_OTG_USBMODE_CM_DEVICE)
            | USB_OTG_USBMODE_SLOM) & !USB_OTG_USBMODE_SDIS),
{
    let mut r = (usbmode & !USB_OTG_USBMODE_CM_MASK) | USB_OTG_USBMODE_CM_DEVICE;
    r = r | USB_OTG_USBMODE_SLOM;
    r & !USB_OTG_USBMODE_SDIS
}

/// Whether USBMODE reports the device-only mode.
pub fn in_device_mode(usbmode: u32) -> (r: bool)
    ensures
        r == (usbmode & USB_OTG_USBMODE_CM_MASK == USB_OTG_USBMODE_CM_DEVICE),
{
    usbmode & USB_OTG_USBMODE_CM_MASK == USB_OTG_USBMODE_CM_DEVICE
}

/// Whether USBSTS reports a pending interrupt.
pub fn interrupts_pending(usbsts: u32) -> (r: bool)
    ensures
        r == (usbsts & 1 != 0),
{
    usbsts & 1 != 0
}

/// Whether CPSR says IRQs are masked, in which case a critical section needs
/// no further masking.
pub fn irqs_masked(cpsr: u32) -> (r: bool)
    ensures
        r == (cpsr & CPSR_IRQ_MASK != 0),
{
    cpsr & CPSR_IRQ_MASK != 0
}

/// The bit of IN endpoint `index` in the 16-bit masks of a poll result: the
/// upper half of its ENDPTCOMPLETE bit.
pub fn in_endpoint_bit(index: usize) -> (r: u16)
    requires
        index < 16,
    ensures
        r == (((1u32 << ((16 + index) as u32)) >> 16) as u16),
{
    ((1u32 << ((16 + index) as u32)) >> 16u32) as u16
}

} // verus!
