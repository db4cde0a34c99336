//! Co-indexed (value, direction) bit sequences.
//!
//! An [`IoSequence`] holds one bit-banged SWD transaction: for every clock
//! cycle one `io` bit (the value driven on SWDIO) and one `dir` bit
//! (`true` = probe drives the line, `false` = the target drives it).

use vstd::prelude::*;

verus! {

/// A pair of equal-length bit sequences: line values and line directions.
pub struct IoSequence {
    pub io: Vec<bool>,
    pub direction: Vec<bool>,
}

impl IoSequence {
    /// Both sequences always advance together.
    pub open spec fn wf(self) -> bool {
        self.io@.len() == self.direction@.len()
    }

    pub fn new() -> (r: IoSequence)
        ensures
            r.wf(),
            r.io@ == Seq::<bool>::empty(),
            r.direction@ == Seq::<bool>::empty(),
    {
        IoSequence { io: Vec::new(), direction: Vec::new() }
    }

    /// Drive `bit` on the line for one cycle.
    pub fn add_output(&mut self, bit: bool)
        requires
            old(self).wf(),
        ensures
            final(self).wf(),
            final(self).io@ == old(self).io@.push(bit),
            final(self).direction@ == old(self).direction@.push(true),
    {
        self.io.push(bit);
        self.direction.push(true);
    }

    /// Drive every bit of `bits` on the line, in order.
    pub fn add_output_sequence(&mut self, bits: &[bool])
        requires
            old(self).wf(),
        ensures
            final(self).wf(),
            final(self).io@ == old(self).io@ + bits@,
            final(self).direction@ == old(self).direction@ + Seq::new(bits@.len(), |i: int| true),
    {
        let n = bits.len();
        let mut i: usize = 0;
        while i < n
            invariant
                n == bits@.len(),
                i <= n,
                self.wf(),
                self.io@ == old(self).io@ + bits@.subrange(0, i as int),
                self.direction@ == old(self).direction@ + Seq::new(i as nat, |j: int| true),
            decreases n - i,
        {
            self.io.push(bits[i]);
            self.direction.push(true);
            proof {
                assert(self.io@ =~= old(self).io@ + bits@.subrange(0, i + 1));
                assert(self.direction@ =~= old(self).direction@
                    + Seq::new((i + 1) as nat, |j: int| true));
            }
            i = i + 1;
        }
        proof {
            assert(bits@.subrange(0, n as int) =~= bits@);
        }
    }

    /// Release the line for one cycle so the target can drive it.
    pub fn add_input(&mut self)
        requires
            old(self).wf(),
        ensures
            final(self).wf(),
            final(self).io@ == old(self).io@.push(false),
            final(self).direction@ == old(self).direction@.push(false),
    {
        self.io.push(false);
        self.direction.push(false);
    }

    /// Release the line for `length` cycles.
    pub fn add_input_sequence(&mut self, length: usize)
        requires
            old(self).wf(),
        ensures
            final(self).wf(),
            final(self).io@ == old(self).io@ + Seq::new(length as nat, |i: int| false),
            final(self).direction@ == old(self).direction@ + Seq::new(length as nat, |i: int| false),
    {
        let mut i: usize = 0;
        while i < length
            invariant
                i <= length,
                self.wf(),
                self.io@ == old(self).io@ + Seq::new(i as nat, |j: int| false),
                self.direction@ == old(self).direction@ + Seq::new(i as nat, |j: int| false),
            decreases length - i,
        {
            self.io.push(false);
            self.direction.push(false);
            proof {
                assert(self.io@ =~= old(self).io@ + Seq::new((i + 1) as nat, |j: int| false));
                assert(self.direction@ =~= old(self).direction@
                    + Seq::new((i + 1) as nat, |j: int| false));
            }
            i = i + 1;
        }
    }

    pub fn io_bits(&self) -> (r: &Vec<bool>)
        ensures
            r@ == self.io@,
    {
        &self.io
    }

    pub fn direction_bits(&self) -> (r: &Vec<bool>)
        ensures
            r@ == self.direction@,
    {
        &self.direction
    }

    /// Append every cycle of `other` after the cycles of `self`.
    pub fn extend(&mut self, other: &IoSequence)
        requires
            old(self).wf(),
            other.wf(),
        ensures
            final(self).wf(),
            final(self).io@ == old(self).io@ + other.io@,
            final(self).direction@ == old(self).direction@ + other.direction@,
    {
        let n = other.io.len();
        let mut i: usize = 0;
        while i < n
            invariant
                n == other.io@.len(),
                other.wf(),
                i <= n,
                self.wf(),
                self.io@ == old(self).io@ + other.io@.subrange(0, i as int),
                self.direction@ == old(self).direction@ + other.direction@.subrange(0, i as int),
            decreases n - i,
        {
            self.io.push(other.io[i]);
            self.direction.push(other.direction[i]);
            proof {
                assert(self.io@ =~= old(self).io@ + other.io@.subrange(0, i + 1));
                assert(self.direction@ =~= old(self).direction@
                    + other.direction@.subrange(0, i + 1));
            }
            i = i + 1;
        }
        proof {
            assert(other.io@.subrange(0, n as int) =~= other.io@);
            assert(other.direction@.subrange(0, n as int) =~= other.direction@);
        }
    }
}

} // verus!
