//! The clock tree solver: from a request to divider codes and frequencies.

use vstd::arithmetic::div_mod::{
    lemma_div_multiples_vanish, lemma_fundamental_div_mod, lemma_mod_bound,
};
use vstd::prelude::*;

verus! {

/// Frequency of the internal oscillator, in hertz.
pub const HSI: u32 = 8_000_000;

/// Highest frequency of the system clock, of the AHB bus and of the APB2 bus, in hertz.
pub const SYSCLK_MAX: u32 = 72_000_000;

/// Highest frequency of the APB1 bus, in hertz.
pub const PCLK1_MAX: u32 = 36_000_000;

/// An external oscillator as a clock request describes it.
#[derive(Clone, Copy, Debug, PartialEq, Eq, Structural)]
pub struct Oscillator {
    /// Frequency of the oscillator, in hertz
    pub speed: u32,
    /// What the input divider divides by: 1 to 16
    pub divider: u32,
    /// Whether the clock driving circuitry is bypassed
    pub bypass: bool,
}

/// What a clock configuration asks for: the view of [`CFGR`](crate::rcc::CFGR).
#[derive(Clone, Copy, Debug, PartialEq, Eq, Structural)]
pub struct Request {
    /// The external oscillator, if one is to be used
    pub hse: Option<Oscillator>,
    /// Wanted frequency of the AHB bus
    pub hclk: Option<u32>,
    /// Wanted frequency of the APB1 bus
    pub pclk1: Option<u32>,
    /// Wanted frequency of the APB2 bus
    pub pclk2: Option<u32>,
    /// Wanted frequency of the system clock
    pub sysclk: Option<u32>,
}

/// Why a clock request cannot be met.
#[derive(Clone, Copy, Debug, PartialEq, Eq, Structural)]
pub enum ClockError {
    /// The external oscillator is slower than its divider: no clock is left
    DeadOscillator,
    /// The system clock would run above 72 MHz
    SysclkTooHigh,
    /// A bus was asked to run at 0 Hz
    ZeroFrequency,
    /// The AHB bus was asked to run faster than the system clock
    HclkAboveSysclk,
    /// The APB1 bus was asked to run faster than the AHB bus
    Pclk1AboveHclk,
    /// The APB1 bus would run above 36 MHz
    Pclk1TooHigh,
    /// The APB2 bus was asked to run faster than the AHB bus
    Pclk2AboveHclk,
}

/// The divider codes that meet a request, and the frequencies that they give.
#[derive(Clone, Copy, Debug, PartialEq, Eq, Structural)]
pub struct Solution {
    /// Code of the PLL multiplier (the multiplier less 2), or `None` where the PLL stays off
    pub pllmul_bits: Option<u8>,
    /// Code of the AHB prescaler
    pub hpre_bits: u8,
    /// Code of the APB1 prescaler
    pub ppre1_bits: u8,
    /// Code of the APB2 prescaler
    pub ppre2_bits: u8,
    /// Flash wait states
    pub latency: u8,
    /// System clock, in hertz
    pub sysclk: u32,
    /// AHB clock, in hertz
    pub hclk: u32,
    /// APB1 clock, in hertz
    pub pclk1: u32,
    /// APB2 clock, in hertz
    pub pclk2: u32,
    /// What the APB1 prescaler divides by
    pub ppre1: u8,
    /// What the APB2 prescaler divides by
    pub ppre2: u8,
}

/// The frequencies of the buses, and what the two APB prescalers divide by.
pub struct Frequencies {
    /// System clock, in hertz
    pub sysclk: u32,
    /// AHB clock, in hertz
    pub hclk: u32,
    /// APB1 clock, in hertz
    pub pclk1: u32,
    /// APB2 clock, in hertz
    pub pclk2: u32,
    /// What the APB1 prescaler divides by
    pub ppre1: u8,
    /// What the APB2 prescaler divides by
    pub ppre2: u8,
}

impl Solution {
    /// The frequencies that the solution gives.
    pub open spec fn frequencies(self) -> Frequencies {
        Frequencies {
            sysclk: self.sysclk,
            hclk: self.hclk,
            pclk1: self.pclk1,
            pclk2: self.pclk2,
            ppre1: self.ppre1,
            ppre2: self.ppre2,
        }
    }
}

/// What the AHB prescaler divides by when the system clock is `ratio` times the wanted
/// AHB clock. The hardware has no division by 32.
pub open spec fn ahb_divisor(ratio: int) -> int {
    if ratio <= 1 {
        1
    } else if ratio == 2 {
        2
    } else if ratio <= 5 {
        4
    } else if ratio <= 11 {
        8
    } else if ratio <= 39 {
        16
    } else if ratio <= 95 {
        64
    } else if ratio <= 191 {
        128
    } else if ratio <= 383 {
        256
    } else {
        512
    }
}

/// The register code of an AHB prescaler that divides by `divisor`.
pub open spec fn ahb_code(divisor: int) -> u8 {
    if divisor == 1 {
        0b0111
    } else if divisor == 2 {
        0b1000
    } else if divisor == 4 {
        0b1001
    } else if divisor == 8 {
        0b1010
    } else if divisor == 16 {
        0b1011
    } else if divisor == 64 {
        0b1100
    } else if divisor == 128 {
        0b1101
    } else if divisor == 256 {
        0b1110
    } else {
        0b1111
    }
}

/// What an APB prescaler divides by when the AHB clock is `ratio` times the wanted
/// APB clock.
pub open spec fn apb_divisor(ratio: int) -> int {
    if ratio <= 1 {
        1
    } else if ratio == 2 {
        2
    } else if ratio <= 5 {
        4
    } else if ratio <= 11 {
        8
    } else {
        16
    }
}

/// The register code of an APB prescaler that divides by `divisor`.
pub open spec fn apb_code(divisor: int) -> u8 {
    if divisor == 1 {
        0b011
    } else if divisor == 2 {
        0b100
    } else if divisor == 4 {
        0b101
    } else if divisor == 8 {
        0b110
    } else {
        0b111
    }
}

/// The flash wait states that a system clock of `sysclk` hertz needs.
pub open spec fn flash_wait_states(sysclk: int) -> u8 {
    if sysclk <= 24_000_000 {
        0
    } else if sysclk <= 48_000_000 {
        1
    } else {
        2
    }
}

impl Request {
    /// A request that a configuration can hold: the oscillator's divider is 1 to 16.
    pub open spec fn wf(self) -> bool {
        self.hse matches Some(osc) ==> 1 <= osc.divider <= 16
    }

    /// The request that asks for nothing.
    pub open spec fn empty() -> Request {
        Request { hse: None, hclk: None, pclk1: None, pclk2: None, sysclk: None }
    }

    /// Frequency that feeds the multiplier: the divided external oscillator, or the
    /// internal one.
    pub open spec fn source(self) -> int {
        match self.hse {
            Some(osc) => osc.speed as int / osc.divider as int,
            None => HSI as int,
        }
    }

    /// The multiplier, kept within 2 to 16. The internal oscillator reaches the
    /// multiplier halved, so there twice the wanted frequency is divided.
    pub open spec fn multiplier(self) -> int {
        let wanted = match self.hse {
            Some(_) => (match self.sysclk {
                Some(f) => f as int,
                None => self.source(),
            }) / self.source(),
            None => 2 * (match self.sysclk {
                Some(f) => f as int,
                None => HSI as int,
            }) / (HSI as int),
        };
        if wanted < 2 {
            2
        } else if wanted > 16 {
            16
        } else {
            wanted
        }
    }

    /// The system clock that the multiplier gives.
    pub open spec fn sysclk_out(self) -> int {
        match self.hse {
            Some(_) => self.multiplier() * self.source(),
            None => self.multiplier() * (HSI as int) / 2,
        }
    }

    /// The AHB clock that the request has in mind: the one it names, or the system
    /// clock where it names none.
    pub open spec fn wanted_hclk(self) -> int {
        match self.hclk {
            Some(f) => f as int,
            None => self.sysclk_out(),
        }
    }

    /// What the AHB prescaler divides by.
    pub open spec fn hpre(self) -> int {
        match self.hclk {
            Some(f) => ahb_divisor(self.sysclk_out() / (f as int)),
            None => 1,
        }
    }

    /// The AHB clock.
    pub open spec fn hclk_out(self) -> int {
        self.sysclk_out() / self.hpre()
    }

    /// What the APB1 prescaler divides by.
    pub open spec fn ppre1(self) -> int {
        match self.pclk1 {
            Some(f) => apb_divisor(self.hclk_out() / (f as int)),
            None => 1,
        }
    }

    /// The APB1 clock.
    pub open spec fn pclk1_out(self) -> int {
        self.hclk_out() / self.ppre1()
    }

    /// What the APB2 prescaler divides by.
    pub open spec fn ppre2(self) -> int {
        match self.pclk2 {
            Some(f) => apb_divisor(self.hclk_out() / (f as int)),
            None => 1,
        }
    }

    /// The APB2 clock.
    pub open spec fn pclk2_out(self) -> int {
        self.hclk_out() / self.ppre2()
    }

    /// The first rule that the request breaks, if it breaks one.
    pub open spec fn violation(self) -> Option<ClockError> {
        if self.source() == 0 {
            Some(ClockError::DeadOscillator)
        } else if self.sysclk_out() > SYSCLK_MAX {
            Some(ClockError::SysclkTooHigh)
        } else if self.hclk == Some(0u32) {
            Some(ClockError::ZeroFrequency)
        } else if self.hclk matches Some(f) && self.sysclk_out() < f {
            Some(ClockError::HclkAboveSysclk)
        } else if self.pclk1 == Some(0u32) {
            Some(ClockError::ZeroFrequency)
        } else if self.pclk1 matches Some(f) && self.hclk_out() < f {
            Some(ClockError::Pclk1AboveHclk)
        } else if self.pclk1_out() > PCLK1_MAX {
            Some(ClockError::Pclk1TooHigh)
        } else if self.pclk2 == Some(0u32) {
            Some(ClockError::ZeroFrequency)
        } else if self.pclk2 matches Some(f) && self.hclk_out() < f {
            Some(ClockError::Pclk2AboveHclk)
        } else {
            None
        }
    }

    /// The dividers and frequencies of a request that breaks no rule.
    pub open spec fn solution(self) -> Solution {
        Solution {
            pllmul_bits: if self.multiplier() == 2 {
                None
            } else {
                Some((self.multiplier() - 2) as u8)
            },
            hpre_bits: ahb_code(self.hpre()),
            ppre1_bits: apb_code(self.ppre1()),
            ppre2_bits: apb_code(self.ppre2()),
            latency: flash_wait_states(self.sysclk_out()),
            sysclk: self.sysclk_out() as u32,
            hclk: self.hclk_out() as u32,
            pclk1: self.pclk1_out() as u32,
            pclk2: self.pclk2_out() as u32,
            ppre1: self.ppre1() as u8,
            ppre2: self.ppre2() as u8,
        }
    }

    /// What solving the request gives.
    pub open spec fn solve(self) -> Result<Solution, ClockError> {
        match self.violation() {
            Some(e) => Err(e),
            None => Ok(self.solution()),
        }
    }
}

/// Whether the AHB prescaler can divide by `divisor`.
pub open spec fn is_ahb_divisor(divisor: int) -> bool {
    divisor == 1 || divisor == 2 || divisor == 4 || divisor == 8 || divisor == 16 || divisor == 64
        || divisor == 128 || divisor == 256 || divisor == 512
}

/// Whether an APB prescaler can divide by `divisor`.
pub open spec fn is_apb_divisor(divisor: int) -> bool {
    divisor == 1 || divisor == 2 || divisor == 4 || divisor == 8 || divisor == 16
}

/// Dividing `clock` by what was left of it after the division by `divisor` gives a
/// ratio between `divisor` and one and a half times `divisor`, as long as 2 at least
/// was left, or the division was exact.
proof fn lemma_ratio_bounds(clock: int, divisor: int)
    requires
        0 <= clock,
        1 <= divisor,
        clock / divisor >= 2 || (clock / divisor >= 1 && clock % divisor == 0),
    ensures
        divisor <= clock / (clock / divisor),
        2 * (clock / (clock / divisor)) < 3 * divisor,
{
    let left = clock / divisor;
    let ratio = clock / left;
    lemma_fundamental_div_mod(clock, divisor);
    lemma_mod_bound(clock, divisor);
    lemma_fundamental_div_mod(clock, left);
    lemma_mod_bound(clock, left);
    let lost = clock % divisor;
    let rest = clock % left;
    assert(divisor <= ratio && 2 * ratio < 3 * divisor) by (nonlinear_arith)
        requires
            1 <= divisor,
            left >= 2 || (left >= 1 && lost == 0),
            clock == divisor * left + lost,
            0 <= lost < divisor,
            clock == left * ratio + rest,
            0 <= rest < left,
    ;
}

/// The AHB prescaler finds a divisor again from the clock that the divisor leaves.
pub proof fn lemma_ahb_divisor_found(clock: int, divisor: int)
    requires
        0 <= clock,
        is_ahb_divisor(divisor),
        clock / divisor >= 2 || (clock / divisor >= 1 && clock % divisor == 0),
    ensures
        ahb_divisor(clock / (clock / divisor)) == divisor,
{
    lemma_ratio_bounds(clock, divisor);
}

/// An APB prescaler finds a divisor again from the clock that the divisor leaves.
pub proof fn lemma_apb_divisor_found(clock: int, divisor: int)
    requires
        0 <= clock,
        is_apb_divisor(divisor),
        clock / divisor >= 2 || (clock / divisor >= 1 && clock % divisor == 0),
    ensures
        apb_divisor(clock / (clock / divisor)) == divisor,
{
    lemma_ratio_bounds(clock, divisor);
}

/// A prescaler never divides by less than the divisor that left the wanted clock:
/// what comes out is the wanted clock at most.
proof fn lemma_ratio_at_least(clock: int, divisor: int)
    requires
        0 <= clock,
        1 <= divisor,
        clock / divisor >= 1,
    ensures
        divisor <= clock / (clock / divisor),
{
    let left = clock / divisor;
    let ratio = clock / left;
    lemma_fundamental_div_mod(clock, divisor);
    lemma_mod_bound(clock, divisor);
    lemma_fundamental_div_mod(clock, left);
    lemma_mod_bound(clock, left);
    let lost = clock % divisor;
    let rest = clock % left;
    assert(divisor <= ratio) by (nonlinear_arith)
        requires
            1 <= divisor,
            left >= 1,
            clock == divisor * left + lost,
            0 <= lost < divisor,
            clock == left * ratio + rest,
            0 <= rest < left,
    ;
}

/// The AHB clock that is asked for as `clock / divisor` comes out as that, or 1 Hz
/// below it where 1 Hz was asked for after a division with remainder.
proof fn lemma_ahb_clock_met(clock: int, divisor: int)
    requires
        0 <= clock,
        is_ahb_divisor(divisor),
        clock / divisor >= 1,
    ensures
        clock / divisor - 1 <= clock / ahb_divisor(clock / (clock / divisor)) <= clock / divisor,
        clock / divisor >= 2 || clock % divisor == 0 ==> clock / ahb_divisor(
            clock / (clock / divisor),
        ) == clock / divisor,
{
    lemma_ratio_at_least(clock, divisor);
    if clock / divisor >= 2 || clock % divisor == 0 {
        lemma_ahb_divisor_found(clock, divisor);
    }
}

/// The APB clock that is asked for as `clock / divisor` comes out as that, or 1 Hz
/// below it where 1 Hz was asked for after a division with remainder.
proof fn lemma_apb_clock_met(clock: int, divisor: int)
    requires
        0 <= clock,
        is_apb_divisor(divisor),
        clock / divisor >= 1,
    ensures
        clock / divisor - 1 <= clock / apb_divisor(clock / (clock / divisor)) <= clock / divisor,
        clock / divisor >= 2 || clock % divisor == 0 ==> clock / apb_divisor(
            clock / (clock / divisor),
        ) == clock / divisor,
{
    lemma_ratio_at_least(clock, divisor);
    if clock / divisor >= 2 || clock % divisor == 0 {
        lemma_apb_divisor_found(clock, divisor);
    }
}

/// A request that breaks no rule is solved within the limits of the hardware: the
/// multiplier is 2 to 16, the system clock and the AHB and APB2 clocks are at most
/// 72 MHz, the APB1 clock is at most 36 MHz, each bus is as fast as the clock that
/// feeds it at most, and the solution holds these very numbers.
pub proof fn lemma_solution_within_limits(request: Request)
    requires
        request.wf(),
        request.violation() is None,
    ensures
        2 <= request.multiplier() <= 16,
        0 < request.sysclk_out() <= SYSCLK_MAX,
        is_ahb_divisor(request.hpre()),
        is_apb_divisor(request.ppre1()),
        is_apb_divisor(request.ppre2()),
        0 <= request.hclk_out() <= request.sysclk_out(),
        0 <= request.pclk1_out() <= request.hclk_out(),
        request.pclk1_out() <= PCLK1_MAX,
        0 <= request.pclk2_out() <= request.hclk_out(),
        request.solution().sysclk == request.sysclk_out(),
        request.solution().hclk == request.hclk_out(),
        request.solution().pclk1 == request.pclk1_out(),
        request.solution().pclk2 == request.pclk2_out(),
        request.solution().ppre1 == request.ppre1(),
        request.solution().ppre2 == request.ppre2(),
        request.solution().pllmul_bits matches Some(bits) ==> bits == request.multiplier() - 2,
        request.solution().pllmul_bits is None <==> request.multiplier() == 2,
{
    let source = request.source();
    let multiplier = request.multiplier();
    assert(source > 0) by {
        if let Some(osc) = request.hse {
            lemma_fundamental_div_mod(osc.speed as int, osc.divider as int);
            lemma_mod_bound(osc.speed as int, osc.divider as int);
            assert(0 <= osc.speed as int / osc.divider as int) by (nonlinear_arith)
                requires
                    0 <= osc.speed,
                    1 <= osc.divider,
            ;
        }
    }
    assert(0 < multiplier * source) by (nonlinear_arith)
        requires
            2 <= multiplier,
            0 < source,
    ;
}

/// A combination of frequencies that the multiplier and the prescalers can produce is
/// produced when it is asked for.
///
/// Let the wanted system clock be the source multiplied by `multiplier`, a number from
/// 2 to 16 (the internal oscillator counts with half its frequency), the wanted AHB
/// clock the system clock divided by `hpre`, and the wanted APB clocks the wanted AHB
/// clock divided by `ppre1` and by `ppre2`, each divisor one that its prescaler has.
/// Then the system clock of the solution is the wanted one, and each bus clock is the
/// wanted one wherever that is 2 Hz at least or its division left no remainder; a bus
/// asked to run at 1 Hz after a division with remainder may stand still instead.
pub proof fn lemma_reachable_request_is_met(
    request: Request,
    multiplier: int,
    hpre: int,
    ppre1: int,
    ppre2: int,
)
    requires
        request.wf(),
        request.violation() is None,
        2 <= multiplier <= 16,
        is_ahb_divisor(hpre),
        is_apb_divisor(ppre1),
        is_apb_divisor(ppre2),
        request.sysclk matches Some(f) ==> f == (if request.hse is Some {
            multiplier * request.source()
        } else {
            multiplier * (HSI as int) / 2
        }),
        request.hclk matches Some(f) ==> f == request.sysclk_out() / hpre,
        request.pclk1 matches Some(f) ==> f == request.wanted_hclk() / ppre1,
        request.pclk2 matches Some(f) ==> f == request.wanted_hclk() / ppre2,
    ensures
        request.sysclk matches Some(f) ==> request.sysclk_out() == f,
        request.hclk matches Some(f) ==> {
            &&& f - 1 <= request.hclk_out() <= f
            &&& f >= 2 || request.sysclk_out() % hpre == 0 ==> request.hclk_out() == f
        },
        request.pclk1 matches Some(f) ==> {
            &&& f - 1 <= request.pclk1_out() <= f
            &&& f >= 2 || request.wanted_hclk() % ppre1 == 0 ==> request.pclk1_out() == f
        },
        request.pclk2 matches Some(f) ==> {
            &&& f - 1 <= request.pclk2_out() <= f
            &&& f >= 2 || request.wanted_hclk() % ppre2 == 0 ==> request.pclk2_out() == f
        },
{
    lemma_solution_within_limits(request);
    let source = request.source();
    if let Some(f) = request.sysclk {
        if request.hse is Some {
            lemma_div_multiples_vanish(multiplier, source);
            assert(multiplier * source == source * multiplier) by (nonlinear_arith);
        }
        assert(request.multiplier() == multiplier);
    }
    let sysclk = request.sysclk_out();
    if let Some(f) = request.hclk {
        lemma_ahb_clock_met(sysclk, hpre);
    }
    let hclk = request.hclk_out();
    if let Some(f) = request.pclk1 {
        assert(hclk == request.wanted_hclk());
        lemma_apb_clock_met(hclk, ppre1);
    }
    if let Some(f) = request.pclk2 {
        assert(hclk == request.wanted_hclk());
        lemma_apb_clock_met(hclk, ppre2);
    }
}

/// Widens a prescaler's divisor with `cast::u32`, which for a `u8` is the plain
/// promotion: the result is the same number.
#[verifier::external_body]
fn widen(divisor: u8) -> (wide: u32)
    ensures
        wide == divisor,
{
    cast::u32(divisor)
}

/// Code and divisor of the AHB prescaler for a ratio of system clock to wanted clock.
fn ahb_prescaler(ratio: u32) -> (r: (u8, u32))
    ensures
        r.1 == ahb_divisor(ratio as int),
        r.0 == ahb_code(r.1 as int),
{
    if ratio <= 1 {
        (0b0111, 1)
    } else if ratio == 2 {
        (0b1000, 2)
    } else if ratio <= 5 {
        (0b1001, 4)
    } else if ratio <= 11 {
        (0b1010, 8)
    } else if ratio <= 39 {
        (0b1011, 16)
    } else if ratio <= 95 {
        (0b1100, 64)
    } else if ratio <= 191 {
        (0b1101, 128)
    } else if ratio <= 383 {
        (0b1110, 256)
    } else {
        (0b1111, 512)
    }
}

/// Code and divisor of an APB prescaler for a ratio of AHB clock to wanted clock.
fn apb_prescaler(ratio: u32) -> (r: (u8, u8))
    ensures
        r.1 == apb_divisor(ratio as int),
        r.0 == apb_code(r.1 as int),
{
    if ratio <= 1 {
        (0b011, 1)
    } else if ratio == 2 {
        (0b100, 2)
    } else if ratio <= 5 {
        (0b101, 4)
    } else if ratio <= 11 {
        (0b110, 8)
    } else {
        (0b111, 16)
    }
}

/// Flash wait states for a system clock.
fn wait_states(sysclk: u32) -> (r: u8)
    ensures
        r == flash_wait_states(sysclk as int),
{
    if sysclk <= 24_000_000 {
        0b000
    } else if sysclk <= 48_000_000 {
        0b001
    } else {
        0b010
    }
}

/// Solves a request: the divider codes and the frequencies that they give, or the
/// first rule that the request breaks.
pub fn solve(request: &Request) -> (r: Result<Solution, ClockError>)
    requires
        request.wf(),
    ensures
        r == request.solve(),
{
    let source: u32 = match &request.hse {
        Some(cfg) => cfg.speed / cfg.divider,
        None => HSI,
    };
    if source == 0 {
        return Err(ClockError::DeadOscillator);
    }
    let wanted: u64 = match &request.hse {
        // HSE has settable divider
        Some(_) => (request.sysclk.unwrap_or(source) / source) as u64,
        // HSI is always divided by 2
        None => (2 * (request.sysclk.unwrap_or(HSI) as u64)) / (HSI as u64),
    };
    let pllmul: u64 = if wanted < 2 {
        2
    } else if wanted > 16 {
        16
    } else {
        wanted
    };
    let pllmul_bits: Option<u8> = if pllmul == 2 {
        None
    } else {
        Some((pllmul - 2) as u8)
    };
    assert(pllmul * (source as u64) <= 16 * 0xffff_ffff) by (nonlinear_arith)
        requires
            pllmul <= 16,
            source <= 0xffff_ffff,
    ;
    let generated: u64 = match &request.hse {
        Some(_) => pllmul * (source as u64),
        None => pllmul * (HSI as u64) / 2,
    };
    if generated > SYSCLK_MAX as u64 {
        return Err(ClockError::SysclkTooHigh);
    }
    let sysclk: u32 = generated as u32;

    let (hpre_bits, hpre): (u8, u32) = match request.hclk {
        Some(hclk) => {
            if hclk == 0 {
                return Err(ClockError::ZeroFrequency);
            }
            if sysclk < hclk {
                return Err(ClockError::HclkAboveSysclk);
            }
            ahb_prescaler(sysclk / hclk)
        },
        None => (0b0111, 1),
    };
    let hclk: u32 = sysclk / hpre;

    let (ppre1_bits, ppre1): (u8, u8) = match request.pclk1 {
        Some(pclk1) => {
            if pclk1 == 0 {
                return Err(ClockError::ZeroFrequency);
            }
            if hclk < pclk1 {
                return Err(ClockError::Pclk1AboveHclk);
            }
            apb_prescaler(hclk / pclk1)
        },
        None => (0b011, 1),
    };
    let pclk1: u32 = hclk / widen(ppre1);
    if pclk1 > PCLK1_MAX {
        return Err(ClockError::Pclk1TooHigh);
    }

    let (ppre2_bits, ppre2): (u8, u8) = match request.pclk2 {
        Some(pclk2) => {
            if pclk2 == 0 {
                return Err(ClockError::ZeroFrequency);
            }
            if hclk < pclk2 {
                return Err(ClockError::Pclk2AboveHclk);
            }
            apb_prescaler(hclk / pclk2)
        },
        None => (0b011, 1),
    };
    let pclk2: u32 = hclk / widen(ppre2);

    Ok(
        Solution {
            pllmul_bits,
            hpre_bits,
            ppre1_bits,
            ppre2_bits,
            latency: wait_states(sysclk),
            sysclk,
            hclk,
            pclk1,
            pclk2,
            ppre1,
            ppre2,
        },
    )
}

} // verus!
