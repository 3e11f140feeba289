//! A register bank with the hardware layout of the GPIO controller's page:
//! 4096 bytes of 32-bit words, with the function-select, set, clear and
//! level registers of the pin at their fixed word offsets.
//!
//! The bank simulates the hardware's semantics: a value written to the set
//! register drives the written bits high in the level register, a value
//! written to the clear register drives them low. On top of it stand the
//! verified pin operations: configure as output, toggle, restore as input.

use crate::bits::{apply_field, extract_bit, spec_apply_field, spec_extract_bit};
use vstd::prelude::*;

verus! {

/// Number of 32-bit words in the mapped page (4096 bytes).
pub const PAGE_WORDS: usize = 1024;

/// Size of the mapped register page in bytes.
pub const PAGE_BYTES: usize = 4096;

/// Word offset of the function-select register holding the pin's mode field.
pub const GPFSEL2_WORD: usize = 2;

/// Word offset of the set register (write 1 to drive a pin high).
pub const GPSET0_WORD: usize = 7;

/// Word offset of the clear register (write 1 to drive a pin low).
pub const GPCLR0_WORD: usize = 10;

/// Word offset of the level register (read-only pin state).
pub const GPLEV0_WORD: usize = 13;

/// Bit offset of the pin's 3-bit mode field inside its function-select register.
pub const FSEL27_SHIFT: u32 = 21;

/// Keep-mask for the function-select register: ones everywhere but in the
/// pin's 3-bit mode field (bits 21 to 23).
pub const FSEL27_MASK: u32 = 0xFF1F_FFFF;

/// Bit position of the pin inside the set, clear and level registers.
pub const PIN27_SHIFT: u32 = 27;

/// Mode code selecting input.
pub const FSEL_INPUT: u32 = 0;

/// Mode code selecting output.
pub const FSEL_OUTPUT: u32 = 1;

/// A simulated register page: one word per hardware register.
pub struct RegisterBank {
    words: Vec<u32>,
}

/// What a write does to the page: the addressed word stores the value, and
/// a write to the set or clear register additionally drives the written
/// bits high or low in the level register.
pub open spec fn write_word_model(s: Seq<u32>, off: int, v: u32) -> Seq<u32> {
    if off == GPSET0_WORD {
        s.update(off, v).update(GPLEV0_WORD as int, s[GPLEV0_WORD as int] | v)
    } else if off == GPCLR0_WORD {
        s.update(off, v).update(GPLEV0_WORD as int, s[GPLEV0_WORD as int] & !v)
    } else {
        s.update(off, v)
    }
}

/// What a toggle does to the page: if the pin's level bit is high, OR the
/// pin's bit into the clear register (driving it low); otherwise OR it into
/// the set register (driving it high).
pub open spec fn toggle_model(s: Seq<u32>) -> Seq<u32> {
    if spec_extract_bit(s[GPLEV0_WORD as int], PIN27_SHIFT) == 1 {
        write_word_model(s, GPCLR0_WORD as int, s[GPCLR0_WORD as int] | (1u32 << PIN27_SHIFT))
    } else {
        write_word_model(s, GPSET0_WORD as int, s[GPSET0_WORD as int] | (1u32 << PIN27_SHIFT))
    }
}

impl RegisterBank {
    /// The page as a sequence of words.
    pub closed spec fn view(&self) -> Seq<u32> {
        self.words@
    }

    /// A well-formed bank holds exactly one page of words.
    pub open spec fn wf(&self) -> bool {
        self.view().len() == PAGE_WORDS
    }

    /// A fresh page with every register zero.
    pub fn new() -> (bank: RegisterBank)
        ensures
            bank.wf(),
            forall|i: int| 0 <= i < PAGE_WORDS ==> bank.view()[i] == 0u32,
    {
        let mut words: Vec<u32> = Vec::new();
        let mut i: usize = 0;
        while i < PAGE_WORDS
            invariant
                i <= PAGE_WORDS,
                words@.len() == i,
                forall|j: int| 0 <= j < i ==> words@[j] == 0u32,
            decreases PAGE_WORDS - i,
        {
            words.push(0u32);
            i = i + 1;
        }
        RegisterBank { words }
    }

    /// Read the word at `off`.
    pub fn read_word(&self, off: usize) -> (r: u32)
        requires
            self.wf(),
            off < PAGE_WORDS,
        ensures
            r == self.view()[off as int],
    {
        self.words[off]
    }

    /// Write `v` to the word at `off`, with the hardware's set/clear
    /// semantics applied to the level register.
    pub fn write_word(&mut self, off: usize, v: u32)
        requires
            old(self).wf(),
            off < PAGE_WORDS,
        ensures
            final(self).wf(),
            final(self).view() == write_word_model(old(self).view(), off as int, v),
    {
        if off == GPSET0_WORD {
            let lev = self.words[GPLEV0_WORD];
            self.words[off] = v;
            self.words[GPLEV0_WORD] = lev | v;
        } else if off == GPCLR0_WORD {
            let lev = self.words[GPLEV0_WORD];
            self.words[off] = v;
            self.words[GPLEV0_WORD] = lev & !v;
        } else {
            self.words[off] = v;
        }
    }

    /// Configure the pin as output: read the function-select register,
    /// clear exactly the pin's 3-bit mode field, OR in the output code,
    /// and write the result back. Every other word is untouched.
    pub fn configure_pin_as_output(&mut self)
        requires
            old(self).wf(),
        ensures
            final(self).wf(),
            final(self).view()[GPFSEL2_WORD as int] == spec_apply_field(
                old(self).view()[GPFSEL2_WORD as int],
                FSEL27_MASK,
                FSEL_OUTPUT,
                FSEL27_SHIFT,
            ),
            forall|i: int|
                0 <= i < PAGE_WORDS && i != GPFSEL2_WORD ==> final(self).view()[i] == old(
                    self,
                ).view()[i],
    {
        let cur = self.read_word(GPFSEL2_WORD);
        let next = apply_field(cur, FSEL27_MASK, FSEL_OUTPUT, FSEL27_SHIFT);
        self.write_word(GPFSEL2_WORD, next);
    }

    /// Toggle the pin and return the level that was observed before the
    /// write. A high level targets the clear register (the set register is
    /// untouched); a low level targets the set register (the clear register
    /// is untouched). Either write ORs the pin's bit into whatever the
    /// targeted register last held, as the hardware tolerates.
    pub fn toggle_pin(&mut self) -> (level: u32)
        requires
            old(self).wf(),
        ensures
            final(self).wf(),
            level == spec_extract_bit(old(self).view()[GPLEV0_WORD as int], PIN27_SHIFT),
            level == 0 || level == 1,
            final(self).view() == toggle_model(old(self).view()),
            level == 1 ==> final(self).view()[GPSET0_WORD as int] == old(
                self,
            ).view()[GPSET0_WORD as int],
            level == 0 ==> final(self).view()[GPCLR0_WORD as int] == old(
                self,
            ).view()[GPCLR0_WORD as int],
            spec_extract_bit(final(self).view()[GPLEV0_WORD as int], PIN27_SHIFT) == (
            if level == 1 {
                0u32
            } else {
                1u32
            }),
    {
        let lev = self.read_word(GPLEV0_WORD);
        let level = extract_bit(lev, PIN27_SHIFT);
        if level == 1 {
            let clr = self.read_word(GPCLR0_WORD);
            self.write_word(GPCLR0_WORD, clr | (1u32 << PIN27_SHIFT));
            proof {
                let l = old(self).view()[GPLEV0_WORD as int];
                let c = old(self).view()[GPCLR0_WORD as int];
                assert((((l & !(c | (1u32 << 27))) >> 27) & 1) == 0) by (bit_vector);
            }
        } else {
            let set = self.read_word(GPSET0_WORD);
            self.write_word(GPSET0_WORD, set | (1u32 << PIN27_SHIFT));
            proof {
                let l = old(self).view()[GPLEV0_WORD as int];
                let s = old(self).view()[GPSET0_WORD as int];
                assert((((l | (s | (1u32 << 27))) >> 27) & 1) == 1) by (bit_vector);
            }
        }
        level
    }

    /// Restore the pin as input: drive it low through the clear register,
    /// then reset its mode field to the input code. Only the clear, level
    /// and function-select words change.
    pub fn restore_pin_as_input(&mut self)
        requires
            old(self).wf(),
        ensures
            final(self).wf(),
            final(self).view()[GPCLR0_WORD as int] == (old(self).view()[GPCLR0_WORD as int] | (
            1u32 << PIN27_SHIFT)),
            final(self).view()[GPLEV0_WORD as int] == (old(self).view()[GPLEV0_WORD as int] & !(old(
                self,
            ).view()[GPCLR0_WORD as int] | (1u32 << PIN27_SHIFT))),
            spec_extract_bit(final(self).view()[GPLEV0_WORD as int], PIN27_SHIFT) == 0,
            final(self).view()[GPFSEL2_WORD as int] == spec_apply_field(
                old(self).view()[GPFSEL2_WORD as int],
                FSEL27_MASK,
                FSEL_INPUT,
                FSEL27_SHIFT,
            ),
            forall|i: int|
                0 <= i < PAGE_WORDS && i != GPFSEL2_WORD && i != GPCLR0_WORD && i != GPLEV0_WORD
                    ==> final(self).view()[i] == old(self).view()[i],
    {
        let clr = self.read_word(GPCLR0_WORD);
        self.write_word(GPCLR0_WORD, clr | (1u32 << PIN27_SHIFT));
        proof {
            let l = old(self).view()[GPLEV0_WORD as int];
            let c = old(self).view()[GPCLR0_WORD as int];
            assert((((l & !(c | (1u32 << 27))) >> 27) & 1) == 0) by (bit_vector);
        }
        let cur = self.read_word(GPFSEL2_WORD);
        let next = apply_field(cur, FSEL27_MASK, FSEL_INPUT, FSEL27_SHIFT);
        self.write_word(GPFSEL2_WORD, next);
    }
}

/// Toggling is a strict alternator. A high level targets the clear path
/// and leaves the set register alone; a low level targets the set path and
/// leaves the clear register alone; one toggle inverts the pin's level bit;
/// two toggles return it to its starting value.
pub proof fn lemma_toggle_round_trip(s: Seq<u32>)
    requires
        s.len() == PAGE_WORDS,
    ensures
        spec_extract_bit(s[GPLEV0_WORD as int], PIN27_SHIFT) == 1 ==> toggle_model(
            s,
        )[GPSET0_WORD as int] == s[GPSET0_WORD as int],
        spec_extract_bit(s[GPLEV0_WORD as int], PIN27_SHIFT) == 0 ==> toggle_model(
            s,
        )[GPCLR0_WORD as int] == s[GPCLR0_WORD as int],
        spec_extract_bit(toggle_model(s)[GPLEV0_WORD as int], PIN27_SHIFT) == (
        if spec_extract_bit(s[GPLEV0_WORD as int], PIN27_SHIFT) == 1 {
            0u32
        } else {
            1u32
        }),
        spec_extract_bit(toggle_model(toggle_model(s))[GPLEV0_WORD as int], PIN27_SHIFT)
            == spec_extract_bit(s[GPLEV0_WORD as int], PIN27_SHIFT),
{
    let l = s[GPLEV0_WORD as int];
    assert((((l >> 27) & 1) == 0) || (((l >> 27) & 1) == 1)) by (bit_vector);
    let c = s[GPCLR0_WORD as int];
    let st = s[GPSET0_WORD as int];
    assert((((l & !(c | (1u32 << 27))) >> 27) & 1) == 0) by (bit_vector);
    assert((((l | (st | (1u32 << 27))) >> 27) & 1) == 1) by (bit_vector);
    let s1 = toggle_model(s);
    let l1 = s1[GPLEV0_WORD as int];
    let c1 = s1[GPCLR0_WORD as int];
    let st1 = s1[GPSET0_WORD as int];
    assert((((l1 & !(c1 | (1u32 << 27))) >> 27) & 1) == 0) by (bit_vector);
    assert((((l1 | (st1 | (1u32 << 27))) >> 27) & 1) == 1) by (bit_vector);
}

/// The page after `n` consecutive toggles of the pin.
pub open spec fn toggle_iter(s: Seq<u32>, n: nat) -> Seq<u32>
    decreases n,
{
    if n == 0 {
        s
    } else {
        toggle_model(toggle_iter(s, (n - 1) as nat))
    }
}

/// A toggle never changes the number of words in the page.
pub proof fn lemma_toggle_iter_len(s: Seq<u32>, n: nat)
    requires
        s.len() == PAGE_WORDS,
    ensures
        toggle_iter(s, n).len() == s.len(),
    decreases n,
{
    if n > 0 {
        lemma_toggle_iter_len(s, (n - 1) as nat);
    }
}

/// Repeated toggling alternates the pin's level bit: after an even number
/// of toggles it equals the starting bit, after an odd number it is the
/// starting bit's opposite.
pub proof fn lemma_toggle_parity(s: Seq<u32>, n: nat)
    requires
        s.len() == PAGE_WORDS,
    ensures
        spec_extract_bit(toggle_iter(s, n)[GPLEV0_WORD as int], PIN27_SHIFT) == (
        if n % 2 == 0 {
            spec_extract_bit(s[GPLEV0_WORD as int], PIN27_SHIFT)
        } else if spec_extract_bit(s[GPLEV0_WORD as int], PIN27_SHIFT) == 1 {
            0u32
        } else {
            1u32
        }),
    decreases n,
{
    let l = s[GPLEV0_WORD as int];
    assert((((l >> 27) & 1) == 0) || (((l >> 27) & 1) == 1)) by (bit_vector);
    if n > 0 {
        lemma_toggle_parity(s, (n - 1) as nat);
        lemma_toggle_iter_len(s, (n - 1) as nat);
        lemma_toggle_round_trip(toggle_iter(s, (n - 1) as nat));
    }
}

} // verus!
