//! The invocation record: an operation code and the ordered list of
//! arguments handed to the accelerator.

use vstd::prelude::*;
use crate::bn254::{BN254_SCALAR_MAC, BN254_SCALAR_MUL, BN254_SCALAR_MULADD};
use crate::operand::{element_contains, Access};

verus! {

/// The operations of the accelerator. No other code can be dispatched.
#[derive(Clone, Copy, Debug, PartialEq, Eq)]
pub enum Op {
    /// In-place multiplication.
    Mul,
    /// In-place multiply-accumulate.
    Mac,
    /// Multiply-add.
    MulAdd,
}

impl Op {
    /// The numeric identifier of the operation.
    pub open spec fn spec_code(self) -> u32 {
        match self {
            Op::Mul => BN254_SCALAR_MUL,
            Op::Mac => BN254_SCALAR_MAC,
            Op::MulAdd => BN254_SCALAR_MULADD,
        }
    }

    /// The operation that a numeric identifier names, if any.
    pub open spec fn spec_from_code(code: u32) -> Option<Op> {
        if code == BN254_SCALAR_MUL {
            Some(Op::Mul)
        } else if code == BN254_SCALAR_MAC {
            Some(Op::Mac)
        } else if code == BN254_SCALAR_MULADD {
            Some(Op::MulAdd)
        } else {
            None
        }
    }

    /// The numeric identifier of the operation.
    #[verifier::when_used_as_spec(spec_code)]
    pub fn code(self) -> (c: u32)
        ensures
            c == self.spec_code(),
    {
        match self {
            Op::Mul => BN254_SCALAR_MUL,
            Op::Mac => BN254_SCALAR_MAC,
            Op::MulAdd => BN254_SCALAR_MULADD,
        }
    }

    /// The operation that a numeric identifier names, if any.
    #[verifier::when_used_as_spec(spec_from_code)]
    pub fn from_code(code: u32) -> (r: Option<Op>)
        ensures
            r == Op::spec_from_code(code),
    {
        if code == BN254_SCALAR_MUL {
            Some(Op::Mul)
        } else if code == BN254_SCALAR_MAC {
            Some(Op::Mac)
        } else if code == BN254_SCALAR_MULADD {
            Some(Op::MulAdd)
        } else {
            None
        }
    }
}

/// Decoding an operation's identifier gives the operation back, and a code
/// decodes to an operation only if it is that operation's identifier. So the
/// three identifiers are distinct.
pub proof fn lemma_code_round_trip(op: Op, code: u32)
    ensures
        Op::spec_from_code(op.spec_code()) == Some(op),
        Op::spec_from_code(code) == Some(op) <==> code == op.spec_code(),
{
}

/// One argument of an invocation. Each stands for one address in the
/// dispatched list.
#[derive(Clone, Copy, Debug, PartialEq, Eq)]
pub enum Arg {
    /// The address of one of the caller's field elements, with the access
    /// that the operation makes to it.
    Direct { addr: usize, access: Access },
    /// The address of a transient pair of addresses, each of a field element
    /// of the caller that the operation reads.
    Pair { first: usize, second: usize },
    /// The address of a transient region that holds these sixteen words and
    /// lives for the one call.
    Scratch { words: [u32; 16] },
}

/// An argument as a mathematical value.
pub enum ArgView {
    Direct { addr: int, access: Access },
    Pair { first: int, second: int },
    Scratch { words: Seq<u32> },
}

impl ArgView {
    /// Whether the argument lets the accelerator read the caller's byte at
    /// `byte`. A scratch region is no memory of the caller.
    pub open spec fn may_read(self, byte: int) -> bool {
        match self {
            ArgView::Direct { addr, access } => access.reads() && element_contains(addr, byte),
            ArgView::Pair { first, second } => element_contains(first, byte) || element_contains(
                second,
                byte,
            ),
            ArgView::Scratch { words } => false,
        }
    }

    /// Whether the argument lets the accelerator write the caller's byte at
    /// `byte`.
    pub open spec fn may_write(self, byte: int) -> bool {
        match self {
            ArgView::Direct { addr, access } => access.writes() && element_contains(addr, byte),
            ArgView::Pair { first, second } => false,
            ArgView::Scratch { words } => false,
        }
    }
}

impl View for Arg {
    type V = ArgView;

    open spec fn view(&self) -> ArgView {
        match *self {
            Arg::Direct { addr, access } => ArgView::Direct { addr: addr as int, access },
            Arg::Pair { first, second } => ArgView::Pair {
                first: first as int,
                second: second as int,
            },
            Arg::Scratch { words } => ArgView::Scratch { words: words@ },
        }
    }
}

/// What crosses the boundary in one call: the operation and its arguments in
/// order.
#[derive(Debug, PartialEq, Eq)]
pub struct Invocation {
    pub op: Op,
    pub args: Vec<Arg>,
}

/// An invocation as a mathematical value.
pub struct InvocationView {
    pub op: Op,
    pub args: Seq<ArgView>,
}

impl InvocationView {
    /// Whether the invocation lets the accelerator read the caller's byte at
    /// `byte`.
    pub open spec fn may_read(self, byte: int) -> bool {
        exists|i: int| 0 <= i < self.args.len() && (#[trigger] self.args[i]).may_read(byte)
    }

    /// Whether the invocation lets the accelerator write the caller's byte
    /// at `byte`.
    pub open spec fn may_write(self, byte: int) -> bool {
        exists|i: int| 0 <= i < self.args.len() && (#[trigger] self.args[i]).may_write(byte)
    }
}

impl View for Invocation {
    type V = InvocationView;

    open spec fn view(&self) -> InvocationView {
        InvocationView { op: self.op, args: self.args@.map_values(|a: Arg| a@) }
    }
}

} // verus!
