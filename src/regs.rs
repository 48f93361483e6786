use vstd::prelude::*;

verus! {

/// Sixteen byte registers; register 0 always reads as 0.
pub struct RegisterFile {
    slots: [u8; 16],
}

/// The value `read(i)` returns, given the stored slots.
pub open spec fn read_spec(slots: Seq<u8>, i: int) -> u8 {
    if i == 0 {
        0
    } else {
        slots[i]
    }
}

impl View for RegisterFile {
    type V = Seq<u8>;

    /// The stored slots, slot 0 included.
    closed spec fn view(&self) -> Seq<u8> {
        self.slots@
    }
}

impl RegisterFile {
    pub open spec fn wf(&self) -> bool {
        self@.len() == 16
    }

    /// All slots zero.
    pub fn new() -> (r: RegisterFile)
        ensures
            r.wf(),
            r@ == Seq::new(16, |i: int| 0u8),
    {
        let r = RegisterFile { slots: [0u8; 16] };
        assert(r@ =~= Seq::new(16, |i: int| 0u8));
        r
    }

    /// The stored value of register `i`, or 0 for register 0.
    pub fn read(&self, i: u8) -> (r: u8)
        requires
            self.wf(),
            i < 16,
        ensures
            r == read_spec(self@, i as int),
    {
        if i == 0 {
            0
        } else {
            self.slots[i as usize]
        }
    }

    /// Stores `v` in slot `i`, slot 0 included.
    pub fn write(&mut self, i: u8, v: u8)
        requires
            old(self).wf(),
            i < 16,
        ensures
            final(self).wf(),
            final(self)@ == old(self)@.update(i as int, v),
    {
        self.slots[i as usize] = v;
    }
}

/// Register 0 reads as 0 whatever was written to it.
pub proof fn read_zero_after_write(slots: Seq<u8>, v: u8)
    requires
        slots.len() == 16,
    ensures
        read_spec(slots.update(0, v), 0) == 0,
        read_spec(slots, 0) == 0,
{
}

/// A write to register `i` is what a later read of `i` returns, unless `i` is 0.
pub proof fn read_after_write(slots: Seq<u8>, i: int, j: int, v: u8)
    requires
        slots.len() == 16,
        0 <= i < 16,
        0 <= j < 16,
    ensures
        read_spec(slots.update(i, v), j) == if j == 0 {
            0
        } else if i == j {
            v
        } else {
            read_spec(slots, j)
        },
{
}

} // verus!
