//! The binding table: two precomputed binding sets wiring the uniform and the
//! two grid buffers in opposite read/write order, so toggling one index swaps
//! the simulation direction without touching any binding.

use vstd::prelude::*;

verus! {

/// One pre-linked binding set: which buffer each slot of the pipelines sees.
/// Buffers are named by the small ids the store assigned them.
#[derive(Clone, Copy, PartialEq, Eq, Structural, Debug)]
pub struct BindingSet {
    pub uniform: usize,
    pub read: usize,
    pub write: usize,
}

/// The two binding sets, mirror images of each other.
#[derive(Clone, Copy, PartialEq, Eq, Structural, Debug)]
pub struct BindingTable {
    pub set0: BindingSet,
    pub set1: BindingSet,
}

impl BindingTable {
    /// The set selected by an index of 0 or 1.
    pub open spec fn spec_select(self, index: int) -> BindingSet {
        if index == 0 {
            self.set0
        } else {
            self.set1
        }
    }

    /// The central shape invariant: within each set the read and write
    /// buffers differ, and the second set swaps the first's pair.
    pub open spec fn wf(self) -> bool {
        &&& self.set0.read != self.set0.write
        &&& self.set1.read == self.set0.write
        &&& self.set1.write == self.set0.read
        &&& self.set1.uniform == self.set0.uniform
    }

    /// Build the two sets once: set 0 reads buffer `buffer_a` and writes
    /// `buffer_b`; set 1 is its mirror image. Both share the uniform.
    pub fn build(uniform: usize, buffer_a: usize, buffer_b: usize) -> (r: BindingTable)
        requires
            buffer_a != buffer_b,
        ensures
            r.wf(),
            r.spec_select(0) == (BindingSet { uniform, read: buffer_a, write: buffer_b }),
            r.spec_select(1) == (BindingSet { uniform, read: buffer_b, write: buffer_a }),
    {
        BindingTable {
            set0: BindingSet { uniform, read: buffer_a, write: buffer_b },
            set1: BindingSet { uniform, read: buffer_b, write: buffer_a },
        }
    }

    /// Pure lookup of one of the two sets.
    pub fn select(&self, index: usize) -> (r: BindingSet)
        requires
            index < 2,
        ensures
            r == self.spec_select(index as int),
    {
        if index == 0 {
            self.set0
        } else {
            self.set1
        }
    }
}

/// The two binding sets never alias read and write: each set separates its
/// buffers, and the selected-away set reads exactly what the other writes and
/// vice versa, so a step never reads the buffer it is overwriting.
pub proof fn lemma_no_read_write_aliasing(t: BindingTable)
    requires
        t.wf(),
    ensures
        t.spec_select(0).read != t.spec_select(0).write,
        t.spec_select(1).read != t.spec_select(1).write,
        t.spec_select(1).read == t.spec_select(0).write,
        t.spec_select(1).write == t.spec_select(0).read,
{
}

} // verus!
