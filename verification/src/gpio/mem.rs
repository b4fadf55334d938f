//! The GPIO register map: a word-for-word model of the memory-mapped GPIO
//! register block, with verified bit-field arithmetic for function-select,
//! output-set, output-clear and level-read operations.
//!
//! The real peripheral is reached through `/dev/gpiomem`, mapped into process
//! memory and accessed with volatile word reads and writes; that mapping and
//! those accesses cannot be reasoned about here, so an embedding program
//! performs them, using the word indices, bit shifts and mode encodings that
//! this module computes and proves correct. [`GpioMem`] itself holds an
//! in-memory register block obeying the hardware's documented semantics: the
//! set and clear banks are write-1-to-act command registers that drive the
//! level bank, and the level bank itself is read-only.

use vstd::prelude::*;
use vstd::arithmetic::div_mod::{lemma_fundamental_div_mod, lemma_mod_multiples_basic};
use crate::gpio::{Error, Level, Mode, mode_bits, mode_of_bits, encode_mode, decode_mode};
use crate::gpio::pin::MAX;
use crate::system::SoC;

verus! {

/// Number of 32-bit registers in the GPIO register block. The BCM2835 has 41;
/// the BCM2711 has 58. The block is always sized to cover the highest-indexed
/// register of every supported variant, so that no supported register falls
/// outside the window.
pub const GPIO_MEM_REGISTERS: usize = 58;

/// First function-select word; words 0 through 5 hold ten 3-bit fields each.
pub const GPFSEL0: usize = 0;

/// First output-set word; words 7 and 8 cover 32 pins each.
pub const GPSET0: usize = 7;

/// First output-clear word; words 10 and 11 cover 32 pins each.
pub const GPCLR0: usize = 10;

/// First level word; words 13 and 14 cover 32 pins each.
pub const GPLEV0: usize = 13;

/// Pull-up/down enable word of the BCM2835 bank.
pub const GPPUD: usize = 37;

/// First pull-up/down clock word of the BCM2835 bank.
pub const GPPUDCLK0: usize = 38;

/// First pull-up/down control word; only present on the BCM2711.
pub const GPPUD_CNTRL_REG0: usize = 57;

/// Index of the function-select word that holds `pin`'s 3-bit mode field.
pub open spec fn fsel_index(pin: u8) -> int {
    pin as int / 10
}

/// Bit offset of `pin`'s 3-bit mode field within its function-select word.
pub open spec fn fsel_shift(pin: u8) -> u32 {
    (3 * (pin as int % 10)) as u32
}

/// The 3-bit function-select field of `pin` within word `w`.
pub open spec fn fsel_field(w: u32, pin: u8) -> u8 {
    ((w >> fsel_shift(pin)) & 7) as u8
}

/// Word `w` with `pin`'s 3-bit function-select field replaced by `bits`.
pub open spec fn fsel_store(w: u32, pin: u8, bits: u8) -> u32 {
    (w & !(7u32 << fsel_shift(pin))) | ((bits as u32) << fsel_shift(pin))
}

/// Index of the output-set word that covers `pin`.
pub open spec fn set_index(pin: u8) -> int {
    GPSET0 + pin as int / 32
}

/// Index of the output-clear word that covers `pin`.
pub open spec fn clr_index(pin: u8) -> int {
    GPCLR0 + pin as int / 32
}

/// Index of the level word that covers `pin`.
pub open spec fn level_index(pin: u8) -> int {
    GPLEV0 + pin as int / 32
}

/// Bit position of `pin` within its set, clear or level word.
pub open spec fn pin_bit(pin: u8) -> u32 {
    (pin as int % 32) as u32
}

/// Whether bit `b` of word `w` is set.
pub open spec fn bit_of(w: u32, b: u32) -> bool {
    (w >> b) & 1 == 1
}

/// The register block after a word write at `offset`, following the
/// hardware's semantics: a write to the set bank turns the written 1-bits on
/// in the corresponding level word, a write to the clear bank turns them off,
/// a write to the read-only level bank has no effect, and a write anywhere
/// else stores the value in place.
pub open spec fn spec_store(regs: Seq<u32>, offset: int, value: u32) -> Seq<u32> {
    if GPSET0 <= offset < GPSET0 + 2 {
        let lev = GPLEV0 + (offset - GPSET0);
        regs.update(lev, regs[lev] | value)
    } else if GPCLR0 <= offset < GPCLR0 + 2 {
        let lev = GPLEV0 + (offset - GPCLR0);
        regs.update(lev, regs[lev] & !value)
    } else if GPLEV0 <= offset < GPLEV0 + 2 {
        regs
    } else {
        regs.update(offset, value)
    }
}

/// Index of the function-select word that holds `pin`'s mode field.
pub fn fsel_word_index(pin: u8) -> (w: usize)
    requires
        (pin as usize) < MAX,
    ensures
        w == fsel_index(pin),
        w <= 5,
{
    (pin / 10) as usize
}

/// Bit offset of `pin`'s mode field within its function-select word.
pub fn fsel_bit_shift(pin: u8) -> (s: u32)
    ensures
        s == fsel_shift(pin),
        s <= 27,
        s % 3 == 0,
{
    let m = pin % 10;
    proof {
        lemma_mod_multiples_basic(pin as int % 10, 3);
    }
    (m * 3) as u32
}

/// Index of the output-set word that covers `pin`.
pub fn set_word_index(pin: u8) -> (w: usize)
    requires
        (pin as usize) < MAX,
    ensures
        w == set_index(pin),
        GPSET0 <= w < GPSET0 + 2,
{
    GPSET0 + (pin / 32) as usize
}

/// Index of the output-clear word that covers `pin`.
pub fn clr_word_index(pin: u8) -> (w: usize)
    requires
        (pin as usize) < MAX,
    ensures
        w == clr_index(pin),
        GPCLR0 <= w < GPCLR0 + 2,
{
    GPCLR0 + (pin / 32) as usize
}

/// Index of the level word that covers `pin`.
pub fn level_word_index(pin: u8) -> (w: usize)
    requires
        (pin as usize) < MAX,
    ensures
        w == level_index(pin),
        GPLEV0 <= w < GPLEV0 + 2,
{
    GPLEV0 + (pin / 32) as usize
}

/// Bit position of `pin` within its set, clear or level word.
pub fn pin_bit_shift(pin: u8) -> (s: u32)
    ensures
        s == pin_bit(pin),
        s < 32,
{
    (pin % 32) as u32
}

/// Two distinct pins sharing a function-select word sit at distinct field
/// positions within it.
proof fn lemma_distinct_fsel_position(p: u8, q: u8)
    requires
        p != q,
        fsel_index(p) == fsel_index(q),
    ensures
        p as int % 10 != q as int % 10,
        fsel_shift(p) != fsel_shift(q),
{
    if p as int % 10 == q as int % 10 {
        lemma_fundamental_div_mod(p as int, 10);
        lemma_fundamental_div_mod(q as int, 10);
    }
}

/// Two distinct pins sharing a set, clear or level word sit at distinct bit
/// positions within it.
proof fn lemma_distinct_bit_position(p: u8, q: u8)
    requires
        p != q,
        p as int / 32 == q as int / 32,
    ensures
        pin_bit(p) != pin_bit(q),
{
    if p as int % 32 == q as int % 32 {
        lemma_fundamental_div_mod(p as int, 32);
        lemma_fundamental_div_mod(q as int, 32);
    }
}

/// Storing a 3-bit field leaves exactly that field in place.
proof fn lemma_fsel_store_same(w: u32, s: u32, b: u32)
    by (bit_vector)
    requires
        s <= 27,
        b < 8,
    ensures
        (((w & !(7u32 << s)) | (b << s)) >> s) & 7 == b,
{
}

/// Storing a 3-bit field at one position leaves every 3-bit field at any
/// other position unchanged.
proof fn lemma_fsel_store_other(w: u32, s1: u32, s2: u32, b: u32)
    by (bit_vector)
    requires
        s1 <= 27,
        s2 <= 27,
        s1 % 3 == 0,
        s2 % 3 == 0,
        s1 != s2,
        b < 8,
    ensures
        (((w & !(7u32 << s1)) | (b << s1)) >> s2) & 7 == (w >> s2) & 7,
{
}

/// Or-ing a single bit in sets that bit and no other.
proof fn lemma_bit_or(w: u32, b1: u32, b2: u32)
    by (bit_vector)
    requires
        b1 < 32,
        b2 < 32,
    ensures
        ((w | (1u32 << b1)) >> b1) & 1 == 1,
        b1 != b2 ==> ((w | (1u32 << b1)) >> b2) & 1 == (w >> b2) & 1,
{
}

/// Masking a single bit out clears that bit and no other.
proof fn lemma_bit_andnot(w: u32, b1: u32, b2: u32)
    by (bit_vector)
    requires
        b1 < 32,
        b2 < 32,
    ensures
        ((w & !(1u32 << b1)) >> b1) & 1 == 0,
        b1 != b2 ==> ((w & !(1u32 << b1)) >> b2) & 1 == (w >> b2) & 1,
{
}

/// Every field of the all-zero word is zero.
proof fn lemma_zero_word(s: u32)
    by (bit_vector)
    ensures
        (0u32 >> s) & 7 == 0,
        (0u32 >> s) & 1 == 0,
{
}

/// A 3-bit field never exceeds 7.
proof fn lemma_field_small(w: u32, s: u32)
    by (bit_vector)
    ensures
        (w >> s) & 7 < 8,
{
}

/// The function-select word `reg` with `pin`'s 3-bit field replaced by the
/// encoding of `mode`.
pub fn fsel_stored_word(reg: u32, pin: u8, mode: Mode) -> (r: u32)
    ensures
        r == fsel_store(reg, pin, mode_bits(mode)),
{
    let shift = fsel_bit_shift(pin);
    let bits = encode_mode(mode);
    (reg & !(7u32 << shift)) | ((bits as u32) << shift)
}

/// The mode encoded in `pin`'s function-select field of word `reg`.
pub fn fsel_field_mode(reg: u32, pin: u8) -> (m: Mode)
    ensures
        m == mode_of_bits(fsel_field(reg, pin)),
{
    let shift = fsel_bit_shift(pin);
    let bits = ((reg >> shift) & 7) as u8;
    proof {
        lemma_field_small(reg, shift);
    }
    decode_mode(bits)
}

/// The word that addresses `pin` alone in the set or clear bank: a single 1
/// at the pin's bit position.
pub fn pin_bit_word(pin: u8) -> (w: u32)
    ensures
        w == 1u32 << pin_bit(pin),
{
    1u32 << pin_bit_shift(pin)
}

/// The GPIO register block.
///
/// Holds one 32-bit word per register and the SoC variant tag that decides
/// which optional registers exist. All pin operations are single-word reads
/// or read-modify-writes with exact bit-level contracts.
#[derive(Debug)]
pub struct GpioMem {
    regs: Vec<u32>,
    soc: SoC,
}

impl GpioMem {
    /// The register words, word-indexed.
    pub closed spec fn spec_words(self) -> Seq<u32> {
        self.regs@
    }

    /// The SoC variant this register block belongs to.
    pub closed spec fn spec_soc(self) -> SoC {
        self.soc
    }

    /// The register block always spans the full window.
    pub open spec fn wf(self) -> bool {
        self.spec_words().len() == GPIO_MEM_REGISTERS
    }

    /// The mode of `pin`, as encoded in its function-select field.
    pub open spec fn spec_mode(self, pin: u8) -> Mode {
        mode_of_bits(fsel_field(self.spec_words()[fsel_index(pin)], pin))
    }

    /// The level of `pin`, as encoded in its level-bank bit.
    pub open spec fn spec_level(self, pin: u8) -> Level {
        if bit_of(self.spec_words()[level_index(pin)], pin_bit(pin)) {
            Level::High
        } else {
            Level::Low
        }
    }

    /// Creates the register block of a BCM2711 in its power-on reset state:
    /// every register word zero, so every pin is an input driven low.
    ///
    /// The embedding program that talks to the real device performs the
    /// device open and memory mapping itself and surfaces `Error::Io` or
    /// `Error::PermissionDenied` when that fails; this constructor cannot
    /// fail.
    pub fn open() -> (r: Result<GpioMem, Error>)
        ensures
            r matches Ok(m) && m.wf() && m.spec_soc() == SoC::Bcm2711
                && m.spec_words() == Seq::new(GPIO_MEM_REGISTERS as nat, |i: int| 0u32)
                && (forall|p: u8| (p as usize) < MAX ==> #[trigger] m.spec_mode(p) == Mode::Input)
                && (forall|p: u8| (p as usize) < MAX ==> #[trigger] m.spec_level(p) == Level::Low),
    {
        let mut regs: Vec<u32> = Vec::new();
        let mut i: usize = 0;
        while i < GPIO_MEM_REGISTERS
            invariant
                i <= GPIO_MEM_REGISTERS,
                regs@ == Seq::new(i as nat, |j: int| 0u32),
            decreases GPIO_MEM_REGISTERS - i,
        {
            regs.push(0);
            i = i + 1;
            proof {
                assert(regs@ =~= Seq::new(i as nat, |j: int| 0u32));
            }
        }
        let m = GpioMem { regs, soc: SoC::Bcm2711 };
        proof {
            assert forall|p: u8| (p as usize) < MAX implies #[trigger] m.spec_mode(p)
                == Mode::Input by {
                lemma_zero_word(fsel_shift(p));
            }
            assert forall|p: u8| (p as usize) < MAX implies #[trigger] m.spec_level(p)
                == Level::Low by {
                lemma_zero_word(pin_bit(p));
            }
        }
        Ok(m)
    }

    /// Returns the current value of the register word at `offset`
    /// (word-indexed, not byte-indexed).
    pub fn read_word(&self, offset: usize) -> (r: u32)
        requires
            self.wf(),
            offset < GPIO_MEM_REGISTERS,
        ensures
            r == self.spec_words()[offset as int],
    {
        self.regs[offset]
    }

    /// Writes `value` to the register word at `offset`, with the hardware's
    /// bank semantics: see [`spec_store`].
    pub fn write_word(&mut self, offset: usize, value: u32)
        requires
            old(self).wf(),
            offset < GPIO_MEM_REGISTERS,
        ensures
            final(self).wf(),
            final(self).spec_soc() == old(self).spec_soc(),
            final(self).spec_words() == spec_store(old(self).spec_words(), offset as int, value),
    {
        if GPSET0 <= offset && offset < GPSET0 + 2 {
            let lev = GPLEV0 + (offset - GPSET0);
            let cur = self.regs[lev];
            self.regs[lev] = cur | value;
        } else if GPCLR0 <= offset && offset < GPCLR0 + 2 {
            let lev = GPLEV0 + (offset - GPCLR0);
            let cur = self.regs[lev];
            self.regs[lev] = cur & !value;
        } else if GPLEV0 <= offset && offset < GPLEV0 + 2 {
            // The level bank is read-only; a stray write has no effect.
        } else {
            self.regs[offset] = value;
        }
    }

    /// Reads the mode of `pin` from its function-select field.
    pub fn mode(&self, pin: u8) -> (m: Mode)
        requires
            self.wf(),
            (pin as usize) < MAX,
        ensures
            m == self.spec_mode(pin),
    {
        let w = fsel_word_index(pin);
        let reg = self.read_word(w);
        fsel_field_mode(reg, pin)
    }

    /// Sets the mode of `pin` with a single read-modify-write of its
    /// function-select word: the pin's 3-bit field is cleared, then the new
    /// mode's encoding is or-ed in at the same offset. Every other pin's mode
    /// and every pin's level are unchanged.
    pub fn set_mode(&mut self, pin: u8, mode: Mode)
        requires
            old(self).wf(),
            (pin as usize) < MAX,
        ensures
            final(self).wf(),
            final(self).spec_soc() == old(self).spec_soc(),
            final(self).spec_words() == old(self).spec_words().update(
                fsel_index(pin),
                fsel_store(old(self).spec_words()[fsel_index(pin)], pin, mode_bits(mode)),
            ),
            final(self).spec_mode(pin) == mode,
            forall|q: u8|
                (q as usize) < MAX && q != pin ==> #[trigger] final(self).spec_mode(q) == old(self).spec_mode(q),
            forall|q: u8|
                (q as usize) < MAX ==> #[trigger] final(self).spec_level(q) == old(self).spec_level(q),
    {
        let w = fsel_word_index(pin);
        let shift = fsel_bit_shift(pin);
        let reg = self.read_word(w);
        let bits = encode_mode(mode);
        let value = (reg & !(7u32 << shift)) | ((bits as u32) << shift);
        self.write_word(w, value);
        proof {
            lemma_fsel_store_same(reg, shift, bits as u32);
            crate::gpio::lemma_mode_round_trip(mode);
            assert forall|q: u8| (q as usize) < MAX && q != pin implies #[trigger] final(self).spec_mode(q) == old(self).spec_mode(q) by {
                if fsel_index(q) == fsel_index(pin) {
                    lemma_distinct_fsel_position(pin, q);
                    lemma_mod_multiples_basic(q as int % 10, 3);
                    lemma_fsel_store_other(reg, shift, fsel_shift(q), bits as u32);
                }
            }
        }
    }

    /// Drives `pin` low by writing its single bit to the output-clear bank.
    ///
    /// The clear bank is not a read-modify-write register: writing a word
    /// with only the target bit set clears exactly that pin, and the zero
    /// bits have no effect by hardware design, so no prior read is needed
    /// (and or-ing against a stale read would be incorrect).
    pub fn set_low(&mut self, pin: u8)
        requires
            old(self).wf(),
            (pin as usize) < MAX,
        ensures
            final(self).wf(),
            final(self).spec_soc() == old(self).spec_soc(),
            final(self).spec_words() == old(self).spec_words().update(
                level_index(pin),
                old(self).spec_words()[level_index(pin)] & !(1u32 << pin_bit(pin)),
            ),
            final(self).spec_level(pin) == Level::Low,
            forall|q: u8|
                (q as usize) < MAX && q != pin ==> #[trigger] final(self).spec_level(q) == old(self).spec_level(q),
            forall|q: u8|
                (q as usize) < MAX ==> #[trigger] final(self).spec_mode(q) == old(self).spec_mode(q),
    {
        let w = clr_word_index(pin);
        let shift = pin_bit_shift(pin);
        self.write_word(w, 1u32 << shift);
        proof {
            let lev = level_index(pin);
            let oldw = old(self).spec_words()[lev];
            lemma_bit_andnot(oldw, shift, shift);
            assert forall|q: u8| (q as usize) < MAX && q != pin implies #[trigger] final(self).spec_level(q) == old(self).spec_level(q) by {
                if level_index(q) == lev {
                    lemma_distinct_bit_position(pin, q);
                    lemma_bit_andnot(oldw, shift, pin_bit(q));
                }
            }
        }
    }

    /// Drives `pin` high by writing its single bit to the output-set bank;
    /// the set bank acts exactly as the clear bank does, see [`Self::set_low`].
    pub fn set_high(&mut self, pin: u8)
        requires
            old(self).wf(),
            (pin as usize) < MAX,
        ensures
            final(self).wf(),
            final(self).spec_soc() == old(self).spec_soc(),
            final(self).spec_words() == old(self).spec_words().update(
                level_index(pin),
                old(self).spec_words()[level_index(pin)] | (1u32 << pin_bit(pin)),
            ),
            final(self).spec_level(pin) == Level::High,
            forall|q: u8|
                (q as usize) < MAX && q != pin ==> #[trigger] final(self).spec_level(q) == old(self).spec_level(q),
            forall|q: u8|
                (q as usize) < MAX ==> #[trigger] final(self).spec_mode(q) == old(self).spec_mode(q),
    {
        let w = set_word_index(pin);
        let shift = pin_bit_shift(pin);
        self.write_word(w, 1u32 << shift);
        proof {
            let lev = level_index(pin);
            let oldw = old(self).spec_words()[lev];
            lemma_bit_or(oldw, shift, shift);
            assert forall|q: u8| (q as usize) < MAX && q != pin implies #[trigger] final(self).spec_level(q) == old(self).spec_level(q) by {
                if level_index(q) == lev {
                    lemma_distinct_bit_position(pin, q);
                    lemma_bit_or(oldw, shift, pin_bit(q));
                }
            }
        }
    }

    /// Reads the level of `pin` from the level bank.
    pub fn level(&self, pin: u8) -> (l: Level)
        requires
            self.wf(),
            (pin as usize) < MAX,
        ensures
            l == self.spec_level(pin),
    {
        let w = level_word_index(pin);
        let shift = pin_bit_shift(pin);
        let reg = self.read_word(w);
        if (reg >> shift) & 1 == 1 {
            Level::High
        } else {
            Level::Low
        }
    }

    /// The SoC variant this register block belongs to.
    pub fn soc(&self) -> (s: SoC)
        ensures
            s == self.spec_soc(),
    {
        self.soc
    }
}

} // verus!
