//! General Purpose Input / Output

use core::marker::PhantomData;
use vstd::prelude::*;

use crate::rcc::AHB;

verus! {

/// Extension trait to split a GPIO peripheral in independent pins and registers
pub trait GpioExt {
    /// The parts to split the GPIO into
    type Parts;

    /// Splits the GPIO block into independent pins and registers
    fn split(self, ahb: &mut AHB) -> Self::Parts;
}

/// Input mode (type state)
pub struct Input<MODE> {
    _mode: PhantomData<MODE>,
}

/// Floating input (type state)
pub struct Floating;

/// Pulled down input (type state)
pub struct PullDown;

/// Pulled up input (type state)
pub struct PullUp;

/// Output mode (type state)
pub struct Output<MODE> {
    _mode: PhantomData<MODE>,
}

/// Push pull output (type state)
pub struct PushPull;

/// Open drain output (type state)
pub struct OpenDrain;

/// Alternate function 0 (type state)
pub struct AF0;

/// Alternate function 1 (type state)
pub struct AF1;

/// Alternate function 2 (type state)
pub struct AF2;

/// Alternate function 3 (type state)
pub struct AF3;

/// Alternate function 4 (type state)
pub struct AF4;

/// Alternate function 5 (type state)
pub struct AF5;

/// Alternate function 6 (type state)
pub struct AF6;

/// Alternate function 7 (type state)
pub struct AF7;

/// Alternate function 8 (type state)
pub struct AF8;

/// Alternate function 9 (type state)
pub struct AF9;

/// Alternate function 10 (type state)
pub struct AF10;

/// Alternate function 11 (type state)
pub struct AF11;

/// Alternate function 12 (type state)
pub struct AF12;

/// Alternate function 13 (type state)
pub struct AF13;

/// Alternate function 14 (type state)
pub struct AF14;

/// Alternate function 15 (type state)
pub struct AF15;

/// Code of the input mode in the mode register.
pub const MODE_INPUT: u32 = 0b00;

/// Code of the general purpose output mode in the mode register.
pub const MODE_OUTPUT: u32 = 0b01;

/// Code of the alternate function mode in the mode register.
pub const MODE_ALTERNATE: u32 = 0b10;

/// Code of neither pull-up nor pull-down in the pull register.
pub const PULL_NONE: u32 = 0b00;

/// Code of the pull-up in the pull register.
pub const PULL_UP: u32 = 0b01;

/// Code of the pull-down in the pull register.
pub const PULL_DOWN: u32 = 0b10;

/// The two bits that a mode or pull register holds for pin `pin`, at offset `2 * pin`.
pub open spec fn field2(word: u32, pin: u8) -> u32 {
    (word >> (2 * pin as u32) as u32) & 0b11
}

/// The register word `word` with the two bits of pin `pin` replaced by `value`.
pub open spec fn with_field2(word: u32, pin: u8, value: u32) -> u32 {
    (word & !(0b11u32 << (2 * pin as u32) as u32)) | (value << (2 * pin as u32) as u32)
}

/// The bit that the output type register holds for pin `pin`: set for open drain.
pub open spec fn field1(word: u32, pin: u8) -> bool {
    (word >> (pin as u32)) & 0b1 == 0b1
}

/// The register word `word` with the bit of pin `pin` set, if `on`, or cleared.
pub open spec fn with_field1(word: u32, pin: u8, on: bool) -> u32 {
    if on {
        word | (0b1u32 << (pin as u32))
    } else {
        word & !(0b1u32 << (pin as u32))
    }
}

/// The four bits that an alternate function register holds for pin `pin`, at offset
/// `4 * (pin % 8)`: pins 0 to 7 lie in the low register, pins 8 to 15 in the high one.
pub open spec fn field4(word: u32, pin: u8) -> u32 {
    (word >> (4 * (pin as u32 % 8)) as u32) & 0b1111
}

/// The register word `word` with the four bits of pin `pin` replaced by `value`.
pub open spec fn with_field4(word: u32, pin: u8, value: u32) -> u32 {
    (word & !(0b1111u32 << (4 * (pin as u32 % 8)) as u32)) | (value << (4 * (pin as u32
        % 8)) as u32)
}

/// Writing the two bits of a pin makes them read as written and leaves the bits of
/// every other pin as they were.
pub proof fn lemma_field2_written(word: u32, pin: u8, value: u32, other: u8)
    by (bit_vector)
    requires
        pin < 16,
        other < 16,
        value < 4,
    ensures
        field2(with_field2(word, pin, value), other) == if other == pin {
            value
        } else {
            field2(word, other)
        },
{
}

/// Writing the bit of a pin makes it read as written and leaves the bit of every other
/// pin as it was.
pub proof fn lemma_field1_written(word: u32, pin: u8, on: bool, other: u8)
    by (bit_vector)
    requires
        pin < 16,
        other < 16,
    ensures
        field1(with_field1(word, pin, on), other) == if other == pin {
            on
        } else {
            field1(word, other)
        },
{
}

/// Writing the four bits of a pin makes them read as written and leaves the bits of
/// every other pin of the same register as they were.
pub proof fn lemma_field4_written(word: u32, pin: u8, value: u32, other: u8)
    by (bit_vector)
    requires
        pin < 16,
        other < 16,
        value < 16,
    ensures
        field4(with_field4(word, pin, value), other) == if other % 8 == pin % 8 {
            value
        } else {
            field4(word, other)
        },
{
}

/// The word that, written to the bit set/reset register, drives pin `pin` high.
pub open spec fn set_word(pin: u8) -> u32 {
    1u32 << (pin as u32)
}

/// The word that, written to the bit set/reset register, drives pin `pin` low.
pub open spec fn reset_word(pin: u8) -> u32 {
    1u32 << (16 + pin as u32) as u32
}

/// Whether pin `pin` reads low in the word `idr` of the input data register.
pub open spec fn reads_low(idr: u32, pin: u8) -> bool {
    idr & (1u32 << (pin as u32)) == 0
}

/// A GPIO port of the device.
pub trait Port {
    /// The number of the port: 0 for port A up to 5 for port F.
    spec fn index() -> u8;

    /// The number of the port.
    fn id() -> (id: u8)
        ensures
            id == Self::index(),
            id < 6,
    ;
}

/// Port A
pub struct PortA;

/// Port B
pub struct PortB;

/// Port C
pub struct PortC;

/// Port D
pub struct PortD;

/// Port E
pub struct PortE;

/// Port F
pub struct PortF;

impl Port for PortA {
    open spec fn index() -> u8 {
        0
    }

    fn id() -> (id: u8) {
        0
    }
}

impl Port for PortB {
    open spec fn index() -> u8 {
        1
    }

    fn id() -> (id: u8) {
        1
    }
}

impl Port for PortC {
    open spec fn index() -> u8 {
        2
    }

    fn id() -> (id: u8) {
        2
    }
}

impl Port for PortD {
    open spec fn index() -> u8 {
        3
    }

    fn id() -> (id: u8) {
        3
    }
}

impl Port for PortE {
    open spec fn index() -> u8 {
        4
    }

    fn id() -> (id: u8) {
        4
    }
}

impl Port for PortF {
    open spec fn index() -> u8 {
        5
    }

    fn id() -> (id: u8) {
        5
    }
}

/// What the mode register of port `port` holds after reset. On ports A and B the
/// debug pins come up in alternate function mode.
pub open spec fn moder_reset(port: u8) -> u32 {
    if port == 0 {
        0xA800_0000
    } else if port == 1 {
        0x0000_0280
    } else {
        0
    }
}

/// What the pull register of port `port` holds after reset. On ports A and B the
/// debug pins come up pulled.
pub open spec fn pupdr_reset(port: u8) -> u32 {
    if port == 0 {
        0x6400_0000
    } else if port == 1 {
        0x0000_0100
    } else {
        0
    }
}

/// Whether splitting port `port` hands out pin `pin`: the debug pins of ports A and B
/// are held back, and port F has few pins.
pub open spec fn has_pin(port: u8, pin: u8) -> bool {
    if port == 0 {
        pin <= 12
    } else if port == 1 {
        pin < 16 && pin != 3 && pin != 4
    } else if port == 5 {
        pin == 0 || pin == 1 || pin == 2 || pin == 4 || pin == 6 || pin == 9 || pin == 10
    } else {
        port < 5 && pin < 16
    }
}

/// Every pin that a split hands out is a floating input after reset: its mode is
/// input and it is not pulled.
pub proof fn lemma_pins_start_floating(port: u8, pin: u8)
    by (bit_vector)
    requires
        has_pin(port, pin),
    ensures
        field2(moder_reset(port), pin) == MODE_INPUT,
        field2(pupdr_reset(port), pin) == PULL_NONE,
{
}

/// A pin that goes from floating input to push-pull output and back to floating
/// input leaves the mode register and the pull register as they were, the bits of
/// every other pin included.
pub proof fn lemma_output_round_trip(moder: u32, pupdr: u32, pin: u8)
    by (bit_vector)
    requires
        pin < 16,
        field2(moder, pin) == MODE_INPUT,
        field2(pupdr, pin) == PULL_NONE,
    ensures
        with_field2(with_field2(moder, pin, MODE_OUTPUT), pin, MODE_INPUT) == moder,
        with_field2(pupdr, pin, PULL_NONE) == pupdr,
{
}

/// The alternate function low register of a port: the one handle through which it
/// is written. Its view is the word that the register holds.
pub struct AFRL<PORT> {
    bits: u32,
    _port: PhantomData<PORT>,
}

impl<PORT> View for AFRL<PORT> {
    type V = u32;

    closed spec fn view(&self) -> u32 {
        self.bits
    }
}

impl<PORT> AFRL<PORT> {
    /// The word that the register holds.
    pub fn bits(&self) -> (bits: u32)
        ensures
            bits == self@,
    {
        self.bits
    }
}

/// The alternate function high register of a port: the one handle through which it
/// is written. Its view is the word that the register holds.
pub struct AFRH<PORT> {
    bits: u32,
    _port: PhantomData<PORT>,
}

impl<PORT> View for AFRH<PORT> {
    type V = u32;

    closed spec fn view(&self) -> u32 {
        self.bits
    }
}

impl<PORT> AFRH<PORT> {
    /// The word that the register holds.
    pub fn bits(&self) -> (bits: u32)
        ensures
            bits == self@,
    {
        self.bits
    }
}

/// The mode register of a port: the one handle through which it is written. Its view
/// is the word that the register holds.
pub struct MODER<PORT> {
    bits: u32,
    _port: PhantomData<PORT>,
}

impl<PORT> View for MODER<PORT> {
    type V = u32;

    closed spec fn view(&self) -> u32 {
        self.bits
    }
}

impl<PORT> MODER<PORT> {
    /// The word that the register holds.
    pub fn bits(&self) -> (bits: u32)
        ensures
            bits == self@,
    {
        self.bits
    }
}

/// The output type register of a port: the one handle through which it is written.
/// Its view is the word that the register holds.
pub struct OTYPER<PORT> {
    bits: u32,
    _port: PhantomData<PORT>,
}

impl<PORT> View for OTYPER<PORT> {
    type V = u32;

    closed spec fn view(&self) -> u32 {
        self.bits
    }
}

impl<PORT> OTYPER<PORT> {
    /// The word that the register holds.
    pub fn bits(&self) -> (bits: u32)
        ensures
            bits == self@,
    {
        self.bits
    }
}

/// The pull-up/pull-down register of a port: the one handle through which it is
/// written. Its view is the word that the register holds.
pub struct PUPDR<PORT> {
    bits: u32,
    _port: PhantomData<PORT>,
}

impl<PORT> View for PUPDR<PORT> {
    type V = u32;

    closed spec fn view(&self) -> u32 {
        self.bits
    }
}

impl<PORT> PUPDR<PORT> {
    /// The word that the register holds.
    pub fn bits(&self) -> (bits: u32)
        ensures
            bits == self@,
    {
        self.bits
    }
}

/// The word `word` with the two bits of pin `pin` replaced by `value`.
fn write_field2(word: u32, pin: u8, value: u32) -> (written: u32)
    requires
        pin < 16,
    ensures
        written == with_field2(word, pin, value),
{
    let offset: u32 = 2 * (pin as u32);
    (word & !(0b11u32 << offset)) | (value << offset)
}

/// The word `word` with the bit of pin `pin` set, if `on`, or cleared.
fn write_field1(word: u32, pin: u8, on: bool) -> (written: u32)
    requires
        pin < 16,
    ensures
        written == with_field1(word, pin, on),
{
    if on {
        word | (0b1u32 << (pin as u32))
    } else {
        word & !(0b1u32 << (pin as u32))
    }
}

/// The word `word` with the four bits of pin `pin` replaced by `value`.
fn write_field4(word: u32, pin: u8, value: u32) -> (written: u32)
    requires
        pin < 16,
    ensures
        written == with_field4(word, pin, value),
{
    let offset: u32 = 4 * (pin as u32 % 8);
    (word & !(0b1111u32 << offset)) | (value << offset)
}

/// Pin `N` of port `PORT`, in the mode `MODE`
pub struct Pin<PORT, const N: u8, MODE> {
    _port: PhantomData<PORT>,
    _mode: PhantomData<MODE>,
}

/// Partially erased pin: a pin of port `PORT` that keeps its number as a value
pub struct ErasedPin<PORT, MODE> {
    i: u8,
    _port: PhantomData<PORT>,
    _mode: PhantomData<MODE>,
}

impl<PORT, const N: u8, MODE> Pin<PORT, N, MODE> {
    #[verifier::type_invariant]
    spec fn inv(self) -> bool {
        N < 16
    }
}

impl<PORT, MODE> ErasedPin<PORT, MODE> {
    #[verifier::type_invariant]
    spec fn inv(self) -> bool {
        self.i < 16
    }

    /// The number of the pin within its port.
    pub closed spec fn index(&self) -> u8 {
        self.i
    }

    /// The number of the pin within its port: 0 to 15.
    pub fn number(&self) -> (number: u8)
        ensures
            number == self.index(),
            number < 16,
    {
        proof {
            use_type_invariant(self);
        }
        self.i
    }
}

impl<PORT, const N: u8, MODE> Pin<PORT, N, MODE> {
    /// The pin in another mode.
    fn retyped<TO>(self) -> Pin<PORT, N, TO> {
        proof {
            use_type_invariant(&self);
        }
        Pin { _port: PhantomData, _mode: PhantomData }
    }

    /// Puts the pin into alternate function mode and selects function `af`.
    fn select_function(
        &self,
        moder: &mut MODER<PORT>,
        afrl: &mut AFRL<PORT>,
        afrh: &mut AFRH<PORT>,
        af: u32,
    )
        ensures
            final(moder)@ == with_field2(old(moder)@, N, MODE_ALTERNATE),
            final(afrl)@ == if N < 8 {
                with_field4(old(afrl)@, N, af)
            } else {
                old(afrl)@
            },
            final(afrh)@ == if N < 8 {
                old(afrh)@
            } else {
                with_field4(old(afrh)@, N, af)
            },
    {
        proof {
            use_type_invariant(self);
        }
        // alternate function mode
        moder.bits = write_field2(moder.bits, N, MODE_ALTERNATE);
        if N < 8 {
            afrl.bits = write_field4(afrl.bits, N, af);
        } else {
            afrh.bits = write_field4(afrh.bits, N, af);
        }
    }

    /// Configures the pin to serve as alternate function 4 (AF4)
    pub fn into_af4(
        self,
        moder: &mut MODER<PORT>,
        afrl: &mut AFRL<PORT>,
        afrh: &mut AFRH<PORT>,
    ) -> (pin: Pin<PORT, N, AF4>)
        ensures
            final(moder)@ == with_field2(old(moder)@, N, MODE_ALTERNATE),
            final(afrl)@ == if N < 8 {
                with_field4(old(afrl)@, N, 4)
            } else {
                old(afrl)@
            },
            final(afrh)@ == if N < 8 {
                old(afrh)@
            } else {
                with_field4(old(afrh)@, N, 4)
            },
    {
        self.select_function(moder, afrl, afrh, 4);
        self.retyped()
    }

    /// Configures the pin to serve as alternate function 5 (AF5)
    pub fn into_af5(
        self,
        moder: &mut MODER<PORT>,
        afrl: &mut AFRL<PORT>,
        afrh: &mut AFRH<PORT>,
    ) -> (pin: Pin<PORT, N, AF5>)
        ensures
            final(moder)@ == with_field2(old(moder)@, N, MODE_ALTERNATE),
            final(afrl)@ == if N < 8 {
                with_field4(old(afrl)@, N, 5)
            } else {
                old(afrl)@
            },
            final(afrh)@ == if N < 8 {
                old(afrh)@
            } else {
                with_field4(old(afrh)@, N, 5)
            },
    {
        self.select_function(moder, afrl, afrh, 5);
        self.retyped()
    }

    /// Configures the pin to serve as alternate function 6 (AF6)
    pub fn into_af6(
        self,
        moder: &mut MODER<PORT>,
        afrl: &mut AFRL<PORT>,
        afrh: &mut AFRH<PORT>,
    ) -> (pin: Pin<PORT, N, AF6>)
        ensures
            final(moder)@ == with_field2(old(moder)@, N, MODE_ALTERNATE),
            final(afrl)@ == if N < 8 {
                with_field4(old(afrl)@, N, 6)
            } else {
                old(afrl)@
            },
            final(afrh)@ == if N < 8 {
                old(afrh)@
            } else {
                with_field4(old(afrh)@, N, 6)
            },
    {
        self.select_function(moder, afrl, afrh, 6);
        self.retyped()
    }

    /// Configures the pin to serve as alternate function 7 (AF7)
    pub fn into_af7(
        self,
        moder: &mut MODER<PORT>,
        afrl: &mut AFRL<PORT>,
        afrh: &mut AFRH<PORT>,
    ) -> (pin: Pin<PORT, N, AF7>)
        ensures
            final(moder)@ == with_field2(old(moder)@, N, MODE_ALTERNATE),
            final(afrl)@ == if N < 8 {
                with_field4(old(afrl)@, N, 7)
            } else {
                old(afrl)@
            },
            final(afrh)@ == if N < 8 {
                old(afrh)@
            } else {
                with_field4(old(afrh)@, N, 7)
            },
    {
        self.select_function(moder, afrl, afrh, 7);
        self.retyped()
    }

    /// Configures the pin to operate as a floating input pin
    pub fn into_floating_input(
        self,
        moder: &mut MODER<PORT>,
        pupdr: &mut PUPDR<PORT>,
    ) -> (pin: Pin<PORT, N, Input<Floating>>)
        ensures
            final(moder)@ == with_field2(old(moder)@, N, MODE_INPUT),
            final(pupdr)@ == with_field2(old(pupdr)@, N, PULL_NONE),
    {
        proof {
            use_type_invariant(&self);
        }
        // input mode
        moder.bits = write_field2(moder.bits, N, MODE_INPUT);
        // no pull-up or pull-down
        pupdr.bits = write_field2(pupdr.bits, N, PULL_NONE);
        self.retyped()
    }

    /// Configures the pin to operate as a pulled down input pin
    pub fn into_pull_down_input(
        self,
        moder: &mut MODER<PORT>,
        pupdr: &mut PUPDR<PORT>,
    ) -> (pin: Pin<PORT, N, Input<PullDown>>)
        ensures
            final(moder)@ == with_field2(old(moder)@, N, MODE_INPUT),
            final(pupdr)@ == with_field2(old(pupdr)@, N, PULL_DOWN),
    {
        proof {
            use_type_invariant(&self);
        }
        // input mode
        moder.bits = write_field2(moder.bits, N, MODE_INPUT);
        // pull-down
        pupdr.bits = write_field2(pupdr.bits, N, PULL_DOWN);
        self.retyped()
    }

    /// Configures the pin to operate as a pulled up input pin
    pub fn into_pull_up_input(
        self,
        moder: &mut MODER<PORT>,
        pupdr: &mut PUPDR<PORT>,
    ) -> (pin: Pin<PORT, N, Input<PullUp>>)
        ensures
            final(moder)@ == with_field2(old(moder)@, N, MODE_INPUT),
            final(pupdr)@ == with_field2(old(pupdr)@, N, PULL_UP),
    {
        proof {
            use_type_invariant(&self);
        }
        // input mode
        moder.bits = write_field2(moder.bits, N, MODE_INPUT);
        // pull-up
        pupdr.bits = write_field2(pupdr.bits, N, PULL_UP);
        self.retyped()
    }

    /// Configures the pin to operate as an open drain output pin
    pub fn into_open_drain_output(
        self,
        moder: &mut MODER<PORT>,
        otyper: &mut OTYPER<PORT>,
    ) -> (pin: Pin<PORT, N, Output<OpenDrain>>)
        ensures
            final(moder)@ == with_field2(old(moder)@, N, MODE_OUTPUT),
            final(otyper)@ == with_field1(old(otyper)@, N, true),
    {
        proof {
            use_type_invariant(&self);
        }
        // general purpose output mode
        moder.bits = write_field2(moder.bits, N, MODE_OUTPUT);
        // open drain output
        otyper.bits = write_field1(otyper.bits, N, true);
        self.retyped()
    }

    /// Configures the pin to operate as an push pull output pin
    pub fn into_push_pull_output(
        self,
        moder: &mut MODER<PORT>,
        otyper: &mut OTYPER<PORT>,
    ) -> (pin: Pin<PORT, N, Output<PushPull>>)
        ensures
            final(moder)@ == with_field2(old(moder)@, N, MODE_OUTPUT),
            final(otyper)@ == with_field1(old(otyper)@, N, false),
    {
        proof {
            use_type_invariant(&self);
        }
        // general purpose output mode
        moder.bits = write_field2(moder.bits, N, MODE_OUTPUT);
        // push pull output
        otyper.bits = write_field1(otyper.bits, N, false);
        self.retyped()
    }
}

impl<PORT, const N: u8> Pin<PORT, N, Output<OpenDrain>> {
    /// Enables / disables the internal pull up
    pub fn internal_pull_up(&mut self, pupdr: &mut PUPDR<PORT>, on: bool)
        ensures
            final(pupdr)@ == with_field2(
                old(pupdr)@,
                N,
                if on {
                    PULL_UP
                } else {
                    PULL_NONE
                },
            ),
    {
        proof {
            use_type_invariant(&*self);
        }
        pupdr.bits = write_field2(
            pupdr.bits,
            N,
            if on {
                PULL_UP
            } else {
                PULL_NONE
            },
        );
    }
}

impl<PORT, const N: u8, MODE> Pin<PORT, N, Output<MODE>> {
    /// Erases the pin number from the type
    ///
    /// This is useful when you want to collect the pins into an array where you
    /// need all the elements to have the same type
    pub fn downgrade(self) -> (pin: ErasedPin<PORT, Output<MODE>>)
        ensures
            pin.index() == N,
    {
        proof {
            use_type_invariant(&self);
        }
        ErasedPin { i: N, _port: PhantomData, _mode: self._mode }
    }

    /// The word to write to the bit set/reset register of the port so that the pin
    /// is driven high.
    pub fn set_high(&self) -> (word: u32)
        ensures
            word == set_word(N),
    {
        proof {
            use_type_invariant(self);
        }
        1u32 << (N as u32)
    }

    /// The word to write to the bit set/reset register of the port so that the pin
    /// is driven low.
    pub fn set_low(&self) -> (word: u32)
        ensures
            word == reset_word(N),
    {
        proof {
            use_type_invariant(self);
        }
        1u32 << (16 + (N as u32))
    }
}

impl<PORT, const N: u8, MODE> Pin<PORT, N, Input<MODE>> {
    /// Erases the pin number from the type
    ///
    /// This is useful when you want to collect the pins into an array where you
    /// need all the elements to have the same type
    pub fn downgrade(self) -> (pin: ErasedPin<PORT, Input<MODE>>)
        ensures
            pin.index() == N,
    {
        proof {
            use_type_invariant(&self);
        }
        ErasedPin { i: N, _port: PhantomData, _mode: self._mode }
    }

    /// Whether the pin is high in the word `idr` read from the input data register of
    /// the port.
    pub fn is_high(&self, idr: u32) -> (high: bool)
        ensures
            high == !reads_low(idr, N),
    {
        !self.is_low(idr)
    }

    /// Whether the pin is low in the word `idr` read from the input data register of
    /// the port.
    pub fn is_low(&self, idr: u32) -> (low: bool)
        ensures
            low == reads_low(idr, N),
    {
        proof {
            use_type_invariant(self);
        }
        idr & (1u32 << (N as u32)) == 0
    }
}

impl<PORT, MODE> ErasedPin<PORT, Output<MODE>> {
    /// The word to write to the bit set/reset register of the port so that the pin
    /// is driven high.
    pub fn set_high(&self) -> (word: u32)
        ensures
            word == set_word(self.index()),
    {
        proof {
            use_type_invariant(self);
        }
        1u32 << (self.i as u32)
    }

    /// The word to write to the bit set/reset register of the port so that the pin
    /// is driven low.
    pub fn set_low(&self) -> (word: u32)
        ensures
            word == reset_word(self.index()),
    {
        proof {
            use_type_invariant(self);
        }
        1u32 << (16 + (self.i as u32))
    }
}

impl<PORT, MODE> ErasedPin<PORT, Input<MODE>> {
    /// Whether the pin is high in the word `idr` read from the input data register of
    /// the port.
    pub fn is_high(&self, idr: u32) -> (high: bool)
        ensures
            high == !reads_low(idr, self.index()),
    {
        !self.is_low(idr)
    }

    /// Whether the pin is low in the word `idr` read from the input data register of
    /// the port.
    pub fn is_low(&self, idr: u32) -> (low: bool)
        ensures
            low == reads_low(idr, self.index()),
    {
        proof {
            use_type_invariant(self);
        }
        idr & (1u32 << (self.i as u32)) == 0
    }
}

/// A GPIO port as it leaves reset, not yet split.
///
/// The device hands out one for each port, once: see
/// [`Peripherals`](crate::device::Peripherals).
pub struct RawGpio<PORT> {
    _port: PhantomData<PORT>,
}

impl<PORT> RawGpio<PORT> {
    /// The port in its reset state.
    pub(crate) fn new() -> Self {
        RawGpio { _port: PhantomData }
    }
}

/// GPIO parts
pub struct Parts<PORT> {
    /// Alternate function high register
    pub afrh: AFRH<PORT>,
    /// Alternate function low register
    pub afrl: AFRL<PORT>,
    /// Mode register
    pub moder: MODER<PORT>,
    /// Output type register
    pub otyper: OTYPER<PORT>,
    /// Pull-up/pull-down register
    pub pupdr: PUPDR<PORT>,
    /// Pin 0, where the port hands it out
    pub pin0: Option<Pin<PORT, 0, Input<Floating>>>,
    /// Pin 1, where the port hands it out
    pub pin1: Option<Pin<PORT, 1, Input<Floating>>>,
    /// Pin 2, where the port hands it out
    pub pin2: Option<Pin<PORT, 2, Input<Floating>>>,
    /// Pin 3, where the port hands it out
    pub pin3: Option<Pin<PORT, 3, Input<Floating>>>,
    /// Pin 4, where the port hands it out
    pub pin4: Option<Pin<PORT, 4, Input<Floating>>>,
    /// Pin 5, where the port hands it out
    pub pin5: Option<Pin<PORT, 5, Input<Floating>>>,
    /// Pin 6, where the port hands it out
    pub pin6: Option<Pin<PORT, 6, Input<Floating>>>,
    /// Pin 7, where the port hands it out
    pub pin7: Option<Pin<PORT, 7, Input<Floating>>>,
    /// Pin 8, where the port hands it out
    pub pin8: Option<Pin<PORT, 8, Input<Floating>>>,
    /// Pin 9, where the port hands it out
    pub pin9: Option<Pin<PORT, 9, Input<Floating>>>,
    /// Pin 10, where the port hands it out
    pub pin10: Option<Pin<PORT, 10, Input<Floating>>>,
    /// Pin 11, where the port hands it out
    pub pin11: Option<Pin<PORT, 11, Input<Floating>>>,
    /// Pin 12, where the port hands it out
    pub pin12: Option<Pin<PORT, 12, Input<Floating>>>,
    /// Pin 13, where the port hands it out
    pub pin13: Option<Pin<PORT, 13, Input<Floating>>>,
    /// Pin 14, where the port hands it out
    pub pin14: Option<Pin<PORT, 14, Input<Floating>>>,
    /// Pin 15, where the port hands it out
    pub pin15: Option<Pin<PORT, 15, Input<Floating>>>,
}

impl<PORT> Parts<PORT> {
    /// Whether the parts hold pin `pin`.
    pub open spec fn holds(&self, pin: u8) -> bool {
        match pin {
            0 => self.pin0 is Some,
            1 => self.pin1 is Some,
            2 => self.pin2 is Some,
            3 => self.pin3 is Some,
            4 => self.pin4 is Some,
            5 => self.pin5 is Some,
            6 => self.pin6 is Some,
            7 => self.pin7 is Some,
            8 => self.pin8 is Some,
            9 => self.pin9 is Some,
            10 => self.pin10 is Some,
            11 => self.pin11 is Some,
            12 => self.pin12 is Some,
            13 => self.pin13 is Some,
            14 => self.pin14 is Some,
            15 => self.pin15 is Some,
            _ => false,
        }
    }
}

/// Whether splitting port `port` hands out pin `pin`.
fn pin_present(port: u8, pin: u8) -> (present: bool)
    ensures
        present == has_pin(port, pin),
{
    if port == 0 {
        // the pins above 12 are configured as JTAG pins
        pin <= 12
    } else if port == 1 {
        // pins 3 and 4 are configured as JTAG pins
        pin < 16 && pin != 3 && pin != 4
    } else if port == 5 {
        pin == 0 || pin == 1 || pin == 2 || pin == 4 || pin == 6 || pin == 9 || pin == 10
    } else {
        port < 5 && pin < 16
    }
}

/// Pin `N` as a floating input, if it is handed out.
fn floating_pin<PORT, const N: u8>(present: bool) -> (pin: Option<Pin<PORT, N, Input<Floating>>>)
    requires
        present ==> N < 16,
    ensures
        pin is Some <==> present,
{
    if present {
        Some(Pin { _port: PhantomData, _mode: PhantomData })
    } else {
        None
    }
}

impl<PORT: Port> GpioExt for RawGpio<PORT> {
    type Parts = Parts<PORT>;

    /// Switches the clock of the port on and hands out its registers, holding what
    /// they hold after reset, and each of its pins as a floating input.
    fn split(self, ahb: &mut AHB) -> (parts: Parts<PORT>)
        ensures
            forall|port: u8|
                final(ahb).gpio_clock(port) == (port == PORT::index() || old(ahb).gpio_clock(port)),
            parts.afrh@ == 0,
            parts.afrl@ == 0,
            parts.moder@ == moder_reset(PORT::index()),
            parts.otyper@ == 0,
            parts.pupdr@ == pupdr_reset(PORT::index()),
            forall|pin: u8| parts.holds(pin) == has_pin(PORT::index(), pin),
    {
        let port = PORT::id();
        ahb.enable_gpio(port);
        Parts {
            afrh: AFRH { bits: 0, _port: PhantomData },
            afrl: AFRL { bits: 0, _port: PhantomData },
            moder: MODER {
                bits: if port == 0 {
                    0xA800_0000
                } else if port == 1 {
                    0x0000_0280
                } else {
                    0
                },
                _port: PhantomData,
            },
            otyper: OTYPER { bits: 0, _port: PhantomData },
            pupdr: PUPDR {
                bits: if port == 0 {
                    0x6400_0000
                } else if port == 1 {
                    0x0000_0100
                } else {
                    0
                },
                _port: PhantomData,
            },
            pin0: floating_pin(pin_present(port, 0)),
            pin1: floating_pin(pin_present(port, 1)),
            pin2: floating_pin(pin_present(port, 2)),
            pin3: floating_pin(pin_present(port, 3)),
            pin4: floating_pin(pin_present(port, 4)),
            pin5: floating_pin(pin_present(port, 5)),
            pin6: floating_pin(pin_present(port, 6)),
            pin7: floating_pin(pin_present(port, 7)),
            pin8: floating_pin(pin_present(port, 8)),
            pin9: floating_pin(pin_present(port, 9)),
            pin10: floating_pin(pin_present(port, 10)),
            pin11: floating_pin(pin_present(port, 11)),
            pin12: floating_pin(pin_present(port, 12)),
            pin13: floating_pin(pin_present(port, 13)),
            pin14: floating_pin(pin_present(port, 14)),
            pin15: floating_pin(pin_present(port, 15)),
        }
    }
}

} // verus!
