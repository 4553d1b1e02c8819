//! Operand references: where a scalar field element lies in memory and how
//! the accelerator may touch it.

use vstd::prelude::*;

verus! {

/// Number of 32-bit words in one scalar field element.
pub const FR_WORDS: usize = 8;

/// Number of bytes in one word.
pub const WORD_BYTES: usize = 4;

/// Number of bytes in one scalar field element.
pub const FR_BYTES: usize = 32;

/// How a buffer may be touched during one call.
#[derive(Clone, Copy, Debug, PartialEq, Eq)]
pub enum Access {
    /// The buffer is only read.
    Read,
    /// The buffer is only written.
    Write,
    /// The buffer is read and then written in place.
    ReadWrite,
}

impl Access {
    /// Whether this mode lets the buffer be read.
    pub open spec fn reads(self) -> bool {
        self != Access::Write
    }

    /// Whether this mode lets the buffer be written.
    pub open spec fn writes(self) -> bool {
        self != Access::Read
    }

    /// Whether this mode lets the buffer be read.
    pub fn can_read(self) -> (r: bool)
        ensures
            r == self.reads(),
    {
        match self {
            Access::Read => true,
            Access::Write => false,
            Access::ReadWrite => true,
        }
    }

    /// Whether this mode lets the buffer be written.
    pub fn can_write(self) -> (r: bool)
        ensures
            r == self.writes(),
    {
        match self {
            Access::Read => false,
            Access::Write => true,
            Access::ReadWrite => true,
        }
    }
}

/// An address is word-aligned when it is a multiple of the word size.
pub open spec fn aligned(addr: int) -> bool {
    addr % (WORD_BYTES as int) == 0
}

/// A field element that starts at `addr` ends inside the address space.
pub open spec fn in_range(addr: int) -> bool {
    0 <= addr && addr + FR_BYTES <= usize::MAX + 1
}

/// Whether `byte` is one of the bytes of the field element that starts at
/// `addr`.
pub open spec fn element_contains(addr: int, byte: int) -> bool {
    addr <= byte < addr + FR_BYTES
}

/// Why an address cannot stand for a field element.
#[derive(Clone, Copy, Debug, PartialEq, Eq)]
pub enum OperandError {
    /// The address is not a multiple of four.
    Misaligned,
    /// The element would run past the end of the address space.
    OutOfRange,
}

/// A reference to one field element in memory: its address and the access
/// granted to it. The element covers `FR_BYTES` bytes from the address on.
///
/// Every value is word-aligned and lies inside the address space.
#[derive(Clone, Copy, Debug, PartialEq, Eq)]
pub struct Operand {
    addr: usize,
    access: Access,
}

impl Operand {
    /// The address of the element's first byte.
    pub closed spec fn spec_addr(&self) -> usize {
        self.addr
    }

    /// The access granted to the element.
    pub closed spec fn spec_access(&self) -> Access {
        self.access
    }

    /// What holds of every operand.
    #[verifier::type_invariant]
    pub open spec fn wf(self) -> bool {
        aligned(self.spec_addr() as int) && in_range(self.spec_addr() as int)
    }

    /// Whether the byte at `byte` belongs to the element.
    pub open spec fn contains(self, byte: int) -> bool {
        element_contains(self.spec_addr() as int, byte)
    }

    /// Two operands overlap when some byte belongs to both.
    pub open spec fn spec_overlaps(&self, other: &Operand) -> bool {
        exists|byte: int| self.contains(byte) && other.contains(byte)
    }

    /// Validates an address as a reference to one field element.
    ///
    /// Alignment is tested first: an address that is both misaligned and too
    /// close to the end of the address space is `Misaligned`.
    pub fn new(addr: usize, access: Access) -> (r: Result<Operand, OperandError>)
        ensures
            match r {
                Ok(op) => aligned(addr as int) && in_range(addr as int) && op.spec_addr() == addr
                    && op.spec_access() == access && op.wf(),
                Err(OperandError::Misaligned) => !aligned(addr as int),
                Err(OperandError::OutOfRange) => aligned(addr as int) && !in_range(addr as int),
            },
    {
        if addr % WORD_BYTES != 0 {
            Err(OperandError::Misaligned)
        } else if addr > usize::MAX - (FR_BYTES - 1) {
            Err(OperandError::OutOfRange)
        } else {
            Ok(Operand { addr, access })
        }
    }

    /// The address of the element's first byte.
    #[verifier::when_used_as_spec(spec_addr)]
    pub fn addr(&self) -> (a: usize)
        ensures
            a == self.spec_addr(),
            self.wf(),
    {
        proof {
            use_type_invariant(self);
        }
        self.addr
    }

    /// The access granted to the element.
    #[verifier::when_used_as_spec(spec_access)]
    pub fn access(&self) -> (m: Access)
        ensures
            m == self.spec_access(),
    {
        self.access
    }

    /// Whether the two elements share a byte.
    #[verifier::when_used_as_spec(spec_overlaps)]
    pub fn overlaps(&self, other: &Operand) -> (r: bool)
        ensures
            r == self.spec_overlaps(other),
    {
        proof {
            use_type_invariant(self);
            use_type_invariant(other);
            lemma_overlap_by_distance(*self, *other);
        }
        if self.addr <= other.addr {
            other.addr - self.addr < FR_BYTES
        } else {
            self.addr - other.addr < FR_BYTES
        }
    }
}

/// Two elements overlap exactly when their addresses are less than one
/// element apart.
pub proof fn lemma_overlap_by_distance(a: Operand, b: Operand)
    ensures
        a.spec_overlaps(&b) <==> -FR_BYTES < a.spec_addr() - b.spec_addr() < FR_BYTES,
{
    if -FR_BYTES < a.spec_addr() - b.spec_addr() < FR_BYTES {
        let byte: int = if a.spec_addr() <= b.spec_addr() {
            b.spec_addr() as int
        } else {
            a.spec_addr() as int
        };
        assert(a.contains(byte) && b.contains(byte));
    }
}

/// Overlap does not depend on the order of the two operands.
pub proof fn lemma_overlap_symmetric(a: Operand, b: Operand)
    ensures
        a.spec_overlaps(&b) == b.spec_overlaps(&a),
{
    lemma_overlap_by_distance(a, b);
    lemma_overlap_by_distance(b, a);
}

/// Every operand overlaps itself: no buffer can be passed twice as two
/// distinct operands.
pub proof fn lemma_overlap_reflexive(a: Operand)
    ensures
        a.spec_overlaps(&a),
{
    lemma_overlap_by_distance(a, a);
}

/// No two of the operands overlap.
pub open spec fn pairwise_disjoint(ops: Seq<Operand>) -> bool {
    forall|i: int, j: int| 0 <= i < j < ops.len() ==> !ops[i].spec_overlaps(&ops[j])
}

/// Tests that no two of the operands overlap.
pub fn all_disjoint(ops: &[Operand]) -> (ok: bool)
    ensures
        ok == pairwise_disjoint(ops@),
{
    let n = ops.len();
    let mut j: usize = 0;
    while j < n
        invariant
            j <= n,
            n == ops@.len(),
            forall|a: int, b: int| 0 <= a < b < j ==> !ops@[a].spec_overlaps(&ops@[b]),
        decreases n - j,
    {
        let mut i: usize = 0;
        while i < j
            invariant
                i <= j < n,
                n == ops@.len(),
                forall|a: int| 0 <= a < i ==> !ops@[a].spec_overlaps(&ops@[j as int]),
            decreases j - i,
        {
            if ops[i].overlaps(&ops[j]) {
                return false;
            }
            i += 1;
        }
        j += 1;
    }
    true
}

} // verus!
