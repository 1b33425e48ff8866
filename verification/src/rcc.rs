//! Reset and clock control: the clock request, its solver and the frozen clocks.

use vstd::prelude::*;

use crate::flash::ACR;
use crate::sequencer::{Phase, Plan, Sequencer};
use crate::solver::{
    flash_wait_states, solve, ClockError, Frequencies, Oscillator, Request, Solution,
};
use crate::time::Hertz;

verus! {

/// Extension trait that constrains the `RCC` peripheral
pub trait RccExt {
    /// Constrains the `RCC` peripheral so it plays nicely with the other abstractions
    fn constrain(self) -> Rcc;
}

/// The RCC peripheral as it leaves reset, not yet constrained.
///
/// The device hands it out, once: see [`Peripherals`](crate::device::Peripherals).
pub struct RawRcc {
    _0: (),
}

impl RawRcc {
    /// The peripheral in its reset state.
    pub(crate) fn new() -> Self {
        RawRcc { _0: () }
    }
}

impl RccExt for RawRcc {
    fn constrain(self) -> (rcc: Rcc)
        ensures
            rcc.cfgr@ == Request::empty(),
            forall|port: u8| !rcc.ahb.gpio_clock(port),
    {
        Rcc {
            ahb: AHB {
                iopa: false,
                iopb: false,
                iopc: false,
                iopd: false,
                iope: false,
                iopf: false,
            },
            apb1: APB1 { _0: () },
            apb2: APB2 { _0: () },
            cfgr: CFGR::new(),
        }
    }
}

/// Constrained RCC peripheral
pub struct Rcc {
    /// AMBA High-performance Bus (AHB) registers
    pub ahb: AHB,
    /// Advanced Peripheral Bus 1 (APB1) registers
    pub apb1: APB1,
    /// Advanced Peripheral Bus 2 (APB2) registers
    pub apb2: APB2,
    /// Clock configuration
    pub cfgr: CFGR,
}

/// AMBA High-performance Bus (AHB) registers.
///
/// The handle keeps which GPIO ports have their clock switched on; the ports are
/// numbered 0 to 5, for A to F.
pub struct AHB {
    iopa: bool,
    iopb: bool,
    iopc: bool,
    iopd: bool,
    iope: bool,
    iopf: bool,
}

impl AHB {
    /// Whether the clock of GPIO port `port` is on.
    pub closed spec fn gpio_clock(&self, port: u8) -> bool {
        match port {
            0 => self.iopa,
            1 => self.iopb,
            2 => self.iopc,
            3 => self.iopd,
            4 => self.iope,
            5 => self.iopf,
            _ => false,
        }
    }

    /// Whether the clock of GPIO port `port` is on.
    pub fn gpio_enabled(&self, port: u8) -> (on: bool)
        ensures
            on == self.gpio_clock(port),
    {
        match port {
            0 => self.iopa,
            1 => self.iopb,
            2 => self.iopc,
            3 => self.iopd,
            4 => self.iope,
            5 => self.iopf,
            _ => false,
        }
    }

    /// Switches the clock of GPIO port `port` on.
    pub(crate) fn enable_gpio(&mut self, port: u8)
        requires
            port < 6,
        ensures
            forall|other: u8|
                final(self).gpio_clock(other) == (other == port || old(self).gpio_clock(other)),
    {
        match port {
            0 => self.iopa = true,
            1 => self.iopb = true,
            2 => self.iopc = true,
            3 => self.iopd = true,
            4 => self.iope = true,
            _ => self.iopf = true,
        }
    }
}

/// Advanced Peripheral Bus 1 (APB1) registers
pub struct APB1 {
    _0: (),
}

/// Advanced Peripheral Bus 2 (APB2) registers
pub struct APB2 {
    _0: (),
}

/// HSE bypass selector
pub enum HseBypass {
    /// The clock driving circuitry is bypassed: an oscillator feeds the pin
    Enable,
    /// The clock driving circuitry is in use: a crystal or resonator is connected
    Disable,
}

/// HSE divide selector
pub enum HseDivider {
    /// Do not divide HSE clock
    NoDivision,
    /// Divide HSE clock by 2
    DivideBy2,
    /// Divide HSE clock by 3
    DivideBy3,
    /// Divide HSE clock by 4
    DivideBy4,
    /// Divide HSE clock by 5
    DivideBy5,
    /// Divide HSE clock by 6
    DivideBy6,
    /// Divide HSE clock by 7
    DivideBy7,
    /// Divide HSE clock by 8
    DivideBy8,
    /// Divide HSE clock by 9
    DivideBy9,
    /// Divide HSE clock by 10
    DivideBy10,
    /// Divide HSE clock by 11
    DivideBy11,
    /// Divide HSE clock by 12
    DivideBy12,
    /// Divide HSE clock by 13
    DivideBy13,
    /// Divide HSE clock by 14
    DivideBy14,
    /// Divide HSE clock by 15
    DivideBy15,
    /// Divide HSE clock by 16
    DivideBy16,
}

impl HseDivider {
    /// The number that the selector divides by.
    pub open spec fn ratio(self) -> u32 {
        match self {
            HseDivider::NoDivision => 1,
            HseDivider::DivideBy2 => 2,
            HseDivider::DivideBy3 => 3,
            HseDivider::DivideBy4 => 4,
            HseDivider::DivideBy5 => 5,
            HseDivider::DivideBy6 => 6,
            HseDivider::DivideBy7 => 7,
            HseDivider::DivideBy8 => 8,
            HseDivider::DivideBy9 => 9,
            HseDivider::DivideBy10 => 10,
            HseDivider::DivideBy11 => 11,
            HseDivider::DivideBy12 => 12,
            HseDivider::DivideBy13 => 13,
            HseDivider::DivideBy14 => 14,
            HseDivider::DivideBy15 => 15,
            HseDivider::DivideBy16 => 16,
        }
    }
}

/// Clock configuration
pub struct CFGR {
    request: Request,
}

impl View for CFGR {
    type V = Request;

    closed spec fn view(&self) -> Request {
        self.request
    }
}

impl CFGR {
    #[verifier::type_invariant]
    spec fn inv(self) -> bool {
        self.request.wf()
    }

    /// A configuration that asks for nothing yet.
    pub(crate) fn new() -> (r: Self)
        ensures
            r@ == Request::empty(),
    {
        CFGR {
            request: Request { hse: None, hclk: None, pclk1: None, pclk2: None, sysclk: None },
        }
    }

    /// Uses the external oscillator of frequency `freq`, through the input divider
    /// `divider`, with or without bypass of the clock driving circuitry
    pub fn hse(self, freq: Hertz, divider: HseDivider, bypass: HseBypass) -> (r: Self)
        ensures
            r@ == (Request {
                hse: Some(
                    Oscillator {
                        speed: freq.0,
                        divider: divider.ratio(),
                        bypass: bypass is Enable,
                    },
                ),
                ..self@
            }),
    {
        proof {
            use_type_invariant(&self);
        }
        let mut cfg = self;
        cfg.request.hse = Some(
            Oscillator {
                speed: freq.0,
                divider: match divider {
                    HseDivider::NoDivision => 1,
                    HseDivider::DivideBy2 => 2,
                    HseDivider::DivideBy3 => 3,
                    HseDivider::DivideBy4 => 4,
                    HseDivider::DivideBy5 => 5,
                    HseDivider::DivideBy6 => 6,
                    HseDivider::DivideBy7 => 7,
                    HseDivider::DivideBy8 => 8,
                    HseDivider::DivideBy9 => 9,
                    HseDivider::DivideBy10 => 10,
                    HseDivider::DivideBy11 => 11,
                    HseDivider::DivideBy12 => 12,
                    HseDivider::DivideBy13 => 13,
                    HseDivider::DivideBy14 => 14,
                    HseDivider::DivideBy15 => 15,
                    HseDivider::DivideBy16 => 16,
                },
                bypass: match bypass {
                    HseBypass::Disable => false,
                    HseBypass::Enable => true,
                },
            },
        );
        cfg
    }

    /// Sets a frequency for the AHB bus
    pub fn hclk(self, freq: Hertz) -> (r: Self)
        ensures
            r@ == (Request { hclk: Some(freq.0), ..self@ }),
    {
        proof {
            use_type_invariant(&self);
        }
        let mut cfg = self;
        cfg.request.hclk = Some(freq.0);
        cfg
    }

    /// Sets a frequency for the APB1 bus
    pub fn pclk1(self, freq: Hertz) -> (r: Self)
        ensures
            r@ == (Request { pclk1: Some(freq.0), ..self@ }),
    {
        proof {
            use_type_invariant(&self);
        }
        let mut cfg = self;
        cfg.request.pclk1 = Some(freq.0);
        cfg
    }

    /// Sets a frequency for the APB2 bus
    pub fn pclk2(self, freq: Hertz) -> (r: Self)
        ensures
            r@ == (Request { pclk2: Some(freq.0), ..self@ }),
    {
        proof {
            use_type_invariant(&self);
        }
        let mut cfg = self;
        cfg.request.pclk2 = Some(freq.0);
        cfg
    }

    /// Sets the system (core) frequency
    pub fn sysclk(self, freq: Hertz) -> (r: Self)
        ensures
            r@ == (Request { sysclk: Some(freq.0), ..self@ }),
    {
        proof {
            use_type_invariant(&self);
        }
        let mut cfg = self;
        cfg.request.sysclk = Some(freq.0);
        cfg
    }

    /// Solves the request: the divider codes and the frequencies that they give, or
    /// the first rule that the request breaks. Nothing is written anywhere.
    pub fn solve(&self) -> (r: Result<Solution, ClockError>)
        ensures
            self@.wf(),
            r == self@.solve(),
    {
        proof {
            use_type_invariant(self);
        }
        solve(&self.request)
    }

    /// Freezes the clock configuration: raises the flash wait states to what the
    /// generated system clock needs and hands out the sequencer that makes the
    /// configuration effective, step by step. A request that breaks a rule is no input:
    /// `solve` tells beforehand.
    pub fn freeze(self, acr: &mut ACR) -> (sequencer: Sequencer)
        requires
            self@.violation() is None,
        ensures
            sequencer.plan() == self@.plan(),
            sequencer.phase() == Phase::Idle,
            final(acr)@ == flash_wait_states(self@.sysclk_out()),
    {
        proof {
            use_type_invariant(&self);
        }
        match self.solve() {
            Ok(solution) => {
                acr.set_latency(solution.latency);
                Sequencer::new(Plan { hse: self.request.hse, solution })
            },
            Err(_) => unreached(),
        }
    }
}

/// Frozen clock frequencies
///
/// The existence of this value indicates that the clock configuration can no longer be changed
#[derive(Clone, Copy)]
pub struct Clocks {
    hclk: Hertz,
    pclk1: Hertz,
    pclk2: Hertz,
    ppre1: u8,
    ppre2: u8,
    sysclk: Hertz,
}

impl View for Clocks {
    type V = Frequencies;

    closed spec fn view(&self) -> Frequencies {
        Frequencies {
            sysclk: self.sysclk.0,
            hclk: self.hclk.0,
            pclk1: self.pclk1.0,
            pclk2: self.pclk2.0,
            ppre1: self.ppre1,
            ppre2: self.ppre2,
        }
    }
}

impl Clocks {
    /// The clocks that an activated solution leaves.
    pub(crate) fn frozen(solution: &Solution) -> (clocks: Self)
        ensures
            clocks@ == solution.frequencies(),
    {
        Clocks {
            hclk: Hertz(solution.hclk),
            pclk1: Hertz(solution.pclk1),
            pclk2: Hertz(solution.pclk2),
            ppre1: solution.ppre1,
            ppre2: solution.ppre2,
            sysclk: Hertz(solution.sysclk),
        }
    }

    /// Returns the frequency of the AHB
    pub fn hclk(&self) -> (freq: Hertz)
        ensures
            freq.0 == self@.hclk,
    {
        self.hclk
    }

    /// Returns the frequency of the APB1
    pub fn pclk1(&self) -> (freq: Hertz)
        ensures
            freq.0 == self@.pclk1,
    {
        self.pclk1
    }

    /// Returns the frequency of the APB2
    pub fn pclk2(&self) -> (freq: Hertz)
        ensures
            freq.0 == self@.pclk2,
    {
        self.pclk2
    }

    /// Returns what the APB1 prescaler divides by
    pub fn ppre1(&self) -> (divisor: u8)
        ensures
            divisor == self@.ppre1,
    {
        self.ppre1
    }

    /// Returns what the APB2 prescaler divides by
    pub fn ppre2(&self) -> (divisor: u8)
        ensures
            divisor == self@.ppre2,
    {
        self.ppre2
    }

    /// Returns the system (core) frequency
    pub fn sysclk(&self) -> (freq: Hertz)
        ensures
            freq.0 == self@.sysclk,
    {
        self.sysclk
    }
}

} // verus!
