//! Flash memory: the access control register and its wait states.

use vstd::prelude::*;

verus! {

/// Extension trait to constraint the FLASH peripheral
pub trait FlashExt {
    /// Constraints the FLASH peripheral to play nicely with the other abstractions
    fn constraint(self) -> Parts;
}

/// The FLASH peripheral as it leaves reset, not yet constrained.
///
/// The device hands it out, once: see [`Peripherals`](crate::device::Peripherals).
pub struct RawFlash {
    _0: (),
}

impl RawFlash {
    /// The peripheral in its reset state.
    pub(crate) fn new() -> Self {
        RawFlash { _0: () }
    }
}

impl FlashExt for RawFlash {
    fn constraint(self) -> (parts: Parts)
        ensures
            parts.acr@ == 0,
    {
        Parts { acr: ACR { latency: 0 } }
    }
}

/// Constraint FLASH peripheral
pub struct Parts {
    /// The access control register
    pub acr: ACR,
}

/// The access control register: the one handle through which the flash wait states
/// are set. Its view is the number of wait states that it holds.
pub struct ACR {
    latency: u8,
}

impl View for ACR {
    type V = u8;

    closed spec fn view(&self) -> u8 {
        self.latency
    }
}

impl ACR {
    /// The wait states that the register holds.
    pub fn latency(&self) -> (bits: u8)
        ensures
            bits == self@,
    {
        self.latency
    }

    /// Sets the wait states.
    pub(crate) fn set_latency(&mut self, bits: u8)
        ensures
            final(self)@ == bits,
    {
        self.latency = bits;
    }
}

} // verus!
