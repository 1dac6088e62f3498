//! The register file as the host sees it: thirty-two words, the first of
//! which is always zero.

use vstd::prelude::*;

verus! {

/// A snapshot of the general-purpose registers.
///
/// Register 0 is hard-wired: whatever the slot behind it holds is never
/// read, so no sequence of writes can make it anything but zero.
#[derive(Clone, Copy)]
pub struct RegisterFile {
    slots: [u32; 32],
}

/// The registers after writing `value` to register `index`: a write to
/// register 0 is dropped.
pub open spec fn written(regs: Seq<u32>, index: int, value: u32) -> Seq<u32> {
    if index == 0 {
        regs
    } else {
        regs.update(index, value)
    }
}

/// The registers after a sequence of writes, each a register index and a
/// value, applied in order.
pub open spec fn written_all(regs: Seq<u32>, writes: Seq<(int, u32)>) -> Seq<u32>
    decreases writes.len(),
{
    if writes.len() == 0 {
        regs
    } else {
        written(written_all(regs, writes.drop_last()), writes.last().0, writes.last().1)
    }
}

impl View for RegisterFile {
    type V = Seq<u32>;

    /// The thirty-two values that reads of the registers give.
    closed spec fn view(&self) -> Seq<u32> {
        Seq::new(
            32,
            |i: int|
                if i == 0 {
                    0u32
                } else {
                    self.slots[i]
                },
        )
    }
}

impl RegisterFile {
    /// All registers zero.
    pub fn new() -> (regs: RegisterFile)
        ensures
            regs@ == Seq::new(32, |i: int| 0u32),
    {
        let regs = RegisterFile { slots: [0u32;32] };
        assert(regs@ =~= Seq::new(32, |i: int| 0u32));
        regs
    }

    /// Takes over a dump of thirty-two words. Whatever the dump holds for
    /// register 0, it reads as zero afterwards.
    pub fn from_snapshot(words: [u32; 32]) -> (regs: RegisterFile)
        ensures
            regs@ == words@.update(0, 0u32),
    {
        let regs = RegisterFile { slots: words };
        assert(regs@ =~= words@.update(0, 0u32));
        regs
    }

    /// Reads a register.
    pub fn read(&self, index: usize) -> (value: u32)
        requires
            index < 32,
        ensures
            value == self@[index as int],
            index == 0 ==> value == 0,
    {
        if index == 0 {
            0
        } else {
            self.slots[index]
        }
    }

    /// Writes a register. A write to register 0 changes nothing.
    pub fn write(&mut self, index: usize, value: u32)
        requires
            index < 32,
        ensures
            final(self)@ == written(old(self)@, index as int, value),
    {
        if index != 0 {
            self.slots[index] = value;
        }
        assert(self@ =~= written(old(self)@, index as int, value));
    }

    /// The thirty-two values, register 0 first.
    pub fn dump(&self) -> (words: [u32; 32])
        ensures
            words@ == self@,
    {
        let mut words: [u32; 32] = self.slots;
        words[0] = 0;
        assert(words@ =~= self@);
        words
    }

    /// There are thirty-two registers, and register 0 reads as zero.
    pub proof fn lemma_shape(self)
        ensures
            self@.len() == 32,
            self@[0] == 0,
    {
    }
}

/// Whatever is written, and in whatever order, there are still thirty-two
/// registers afterwards and register 0 reads as zero.
pub proof fn lemma_register_zero_stays_zero(regs: RegisterFile, writes: Seq<(int, u32)>)
    requires
        forall|i: int| 0 <= i < writes.len() ==> 0 <= (#[trigger] writes[i]).0 < 32,
    ensures
        written_all(regs@, writes).len() == 32,
        written_all(regs@, writes)[0] == 0,
    decreases writes.len(),
{
    regs.lemma_shape();
    if writes.len() > 0 {
        lemma_register_zero_stays_zero(regs, writes.drop_last());
    }
}

} // verus!
