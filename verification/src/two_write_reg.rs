//! A two-write latch register: a 16-bit value written one byte at a time
//! through an 8-bit port. A latch selects whether the next write lands in the
//! high or the low byte and toggles after every write.

use vstd::prelude::*;

verus! {

/// The 16-bit value held by a high/low byte pair.
pub open spec fn word_of(hi: u8, lo: u8) -> u16 {
    (((hi as u16) << 8) | (lo as u16)) as u16
}

pub struct TwoWriteReg {
    /// (high byte, low byte)
    pub val: (u8, u8),
    hi_ptr: bool,
}

impl TwoWriteReg {
    /// True when the next `update` lands in the high byte.
    pub closed spec fn latch(&self) -> bool {
        self.hi_ptr
    }

    /// The high byte.
    pub closed spec fn hi(&self) -> u8 {
        self.val.0
    }

    /// The low byte.
    pub closed spec fn lo(&self) -> u8 {
        self.val.1
    }

    /// The register's full 16-bit contents.
    pub open spec fn word(&self) -> u16 {
        word_of(self.hi(), self.lo())
    }

    pub fn new(latch: bool) -> (r: Self)
        ensures
            r.hi() == 0,
            r.lo() == 0,
            r.latch() == latch,
    {
        TwoWriteReg { val: (0, 0), hi_ptr: latch }
    }

    fn set(&mut self, data: u16)
        ensures
            final(self).hi() == data >> 8,
            final(self).lo() == data & 0x00FF,
            final(self).latch() == old(self).latch(),
    {
        proof {
            lemma_split_bounds(data);
        }
        self.val.0 = (data >> 8) as u8;
        self.val.1 = (data & 0x00FF) as u8;
    }

    /// Writes one byte: into the high byte when the latch is set, else into
    /// the low byte; the latch toggles either way.
    pub fn update(&mut self, data: u8)
        ensures
            final(self).hi() == if old(self).latch() { data } else { old(self).hi() },
            final(self).lo() == if old(self).latch() { old(self).lo() } else { data },
            final(self).latch() == !old(self).latch(),
    {
        if self.hi_ptr {
            self.val.0 = data;
        } else {
            self.val.1 = data;
        }
        self.hi_ptr = !self.hi_ptr;
    }

    /// Adds `data` to the 16-bit contents, wrapping modulo 65536.
    pub fn inc(&mut self, data: u8)
        ensures
            final(self).word() == (old(self).word() + data) % 0x10000,
            final(self).latch() == old(self).latch(),
    {
        let w = self.get();
        let sum = w.wrapping_add(data as u16);
        proof {
            lemma_word_split(sum);
        }
        self.set(sum);
    }

    pub fn set_latch(&mut self)
        ensures
            final(self).hi() == old(self).hi(),
            final(self).lo() == old(self).lo(),
            final(self).latch(),
    {
        self.hi_ptr = true;
    }

    pub fn reset_latch(&mut self)
        ensures
            final(self).hi() == old(self).hi(),
            final(self).lo() == old(self).lo(),
            !final(self).latch(),
    {
        self.hi_ptr = false;
    }

    pub fn get(&self) -> (r: u16)
        ensures
            r == self.word(),
    {
        ((self.val.0 as u16) << 8) | (self.val.1 as u16)
    }
}

proof fn lemma_split_bounds(d: u16)
    by (bit_vector)
    ensures
        d >> 8 < 256,
        d & 0x00FF < 256,
{
}

/// Splitting a 16-bit word into its bytes and joining them again is the
/// identity.
pub proof fn lemma_word_split(w: u16)
    by (bit_vector)
    ensures
        word_of((w >> 8) as u8, (w & 0x00FF) as u8) == w,
{
}

} // verus!
