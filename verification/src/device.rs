//! The peripherals of one device, each handed out once.

use vstd::prelude::*;

use crate::flash::RawFlash;
use crate::gpio::{Port, RawGpio};
use crate::rcc::RawRcc;

verus! {

/// A peripheral block of the device.
#[derive(Clone, Copy, Debug, PartialEq, Eq, Structural)]
pub enum Block {
    /// The flash interface
    Flash,
    /// Reset and clock control
    Rcc,
    /// The GPIO port of this number: 0 for port A up to 5 for port F
    Gpio(u8),
}

impl Block {
    /// A block that the device has.
    pub open spec fn on_device(self) -> bool {
        self matches Block::Gpio(port) ==> port < 6
    }
}

/// The peripheral blocks of one device. It hands out each block once and keeps which
/// ones have left: its view is the set of these.
pub struct Peripherals {
    flash: bool,
    rcc: bool,
    gpioa: bool,
    gpiob: bool,
    gpioc: bool,
    gpiod: bool,
    gpioe: bool,
    gpiof: bool,
}

impl View for Peripherals {
    type V = Set<Block>;

    closed spec fn view(&self) -> Set<Block> {
        Set::new(
            |block: Block|
                match block {
                    Block::Flash => self.flash,
                    Block::Rcc => self.rcc,
                    Block::Gpio(port) => match port {
                        0 => self.gpioa,
                        1 => self.gpiob,
                        2 => self.gpioc,
                        3 => self.gpiod,
                        4 => self.gpioe,
                        5 => self.gpiof,
                        _ => false,
                    },
                },
        )
    }
}

/// What is taken once `block` has been asked for: the block is, if the device has it.
pub open spec fn taken_after(taken: Set<Block>, block: Block) -> Set<Block> {
    if block.on_device() {
        taken.insert(block)
    } else {
        taken
    }
}

/// Whether asking for `block` hands it out: the device has it and it has not left.
pub open spec fn grants(taken: Set<Block>, block: Block) -> bool {
    block.on_device() && !taken.contains(block)
}

/// Which of the `asked` blocks are handed out, one answer for each, when the blocks
/// in `taken` have left already.
pub open spec fn answers(taken: Set<Block>, asked: Seq<Block>) -> Seq<bool>
    decreases asked.len(),
{
    if asked.len() == 0 {
        Seq::empty()
    } else {
        seq![grants(taken, asked.first())] + answers(
            taken_after(taken, asked.first()),
            asked.drop_first(),
        )
    }
}

/// There is one answer for each block asked for.
pub proof fn lemma_answers_len(taken: Set<Block>, asked: Seq<Block>)
    ensures
        answers(taken, asked).len() == asked.len(),
    decreases asked.len(),
{
    if asked.len() > 0 {
        lemma_answers_len(taken_after(taken, asked.first()), asked.drop_first());
    }
}

/// A block that has left is never handed out.
proof fn lemma_taken_stays(taken: Set<Block>, asked: Seq<Block>, block: Block, i: int)
    requires
        taken.contains(block),
        0 <= i < asked.len(),
        asked[i] == block,
    ensures
        !answers(taken, asked)[i],
    decreases asked.len(),
{
    lemma_answers_len(taken_after(taken, asked.first()), asked.drop_first());
    if i > 0 {
        lemma_taken_stays(taken_after(taken, asked.first()), asked.drop_first(), block, i - 1);
    }
}

/// No block is handed out twice: whatever is asked for and in whatever order, of two
/// requests for one block the second is turned down wherever the first was granted.
pub proof fn lemma_handed_out_once(taken: Set<Block>, asked: Seq<Block>, i: int, j: int)
    requires
        0 <= i < j < asked.len(),
        asked[i] == asked[j],
        answers(taken, asked)[i],
    ensures
        !answers(taken, asked)[j],
    decreases asked.len(),
{
    let after = taken_after(taken, asked.first());
    let rest = asked.drop_first();
    lemma_answers_len(after, rest);
    if i > 0 {
        lemma_handed_out_once(after, rest, i - 1, j - 1);
    } else {
        lemma_taken_stays(after, rest, asked[0], j - 1);
    }
}

impl Peripherals {
    /// The device after reset: no block has left.
    pub fn new() -> (device: Self)
        ensures
            device@ == Set::<Block>::empty(),
    {
        let device = Peripherals {
            flash: false,
            rcc: false,
            gpioa: false,
            gpiob: false,
            gpioc: false,
            gpiod: false,
            gpioe: false,
            gpiof: false,
        };
        assert(device@ =~= Set::<Block>::empty());
        device
    }

    /// Hands out the flash interface, unless it has left.
    pub fn flash(&mut self) -> (block: Option<RawFlash>)
        ensures
            block is Some <==> grants(old(self)@, Block::Flash),
            final(self)@ == taken_after(old(self)@, Block::Flash),
    {
        let free = !self.flash;
        self.flash = true;
        assert(self@ =~= taken_after(old(self)@, Block::Flash));
        if free {
            Some(RawFlash::new())
        } else {
            None
        }
    }

    /// Hands out reset and clock control, unless it has left.
    pub fn rcc(&mut self) -> (block: Option<RawRcc>)
        ensures
            block is Some <==> grants(old(self)@, Block::Rcc),
            final(self)@ == taken_after(old(self)@, Block::Rcc),
    {
        let free = !self.rcc;
        self.rcc = true;
        assert(self@ =~= taken_after(old(self)@, Block::Rcc));
        if free {
            Some(RawRcc::new())
        } else {
            None
        }
    }

    /// Hands out the GPIO port `PORT`, unless it has left.
    pub fn gpio<PORT: Port>(&mut self) -> (block: Option<RawGpio<PORT>>)
        ensures
            block is Some <==> grants(old(self)@, Block::Gpio(PORT::index())),
            final(self)@ == taken_after(old(self)@, Block::Gpio(PORT::index())),
    {
        let port = PORT::id();
        let free = match port {
            0 => !self.gpioa,
            1 => !self.gpiob,
            2 => !self.gpioc,
            3 => !self.gpiod,
            4 => !self.gpioe,
            _ => !self.gpiof,
        };
        match port {
            0 => self.gpioa = true,
            1 => self.gpiob = true,
            2 => self.gpioc = true,
            3 => self.gpiod = true,
            4 => self.gpioe = true,
            _ => self.gpiof = true,
        }
        assert(self@ =~= taken_after(old(self)@, Block::Gpio(port)));
        if free {
            Some(RawGpio::new())
        } else {
            None
        }
    }
}

} // verus!
