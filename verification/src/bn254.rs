//! bn254 scalar operations: what is handed to the accelerator for each.

use vstd::prelude::*;
use crate::invocation::{Arg, ArgView, Invocation, InvocationView, Op};
use crate::operand::{element_contains, pairwise_disjoint, Access, Operand};
use crate::pack::{concat_words, copy_words};

verus! {

/// `BN254_SCALAR_MUL` syscall ID.
pub const BN254_SCALAR_MUL: u32 = 0x00_01_01_80;

/// `BN254_SCALAR_MAC` syscall ID.
pub const BN254_SCALAR_MAC: u32 = 0x00_01_01_81;

/// `BN254_SCALAR_MULADD` syscall ID.
pub const BN254_SCALAR_MULADD: u32 = 0x00_01_01_1F;

/// A field element in memory: where it lies and the eight words it holds.
#[derive(Clone, Copy, Debug, PartialEq, Eq)]
pub struct Buffer {
    pub at: Operand,
    pub words: [u32; 8],
}

/// The invocation for `p *= q`: the addresses of `p` and `q`, in this order.
pub open spec fn mul_record(p: int, q: int) -> InvocationView {
    InvocationView {
        op: Op::Mul,
        args: seq![
            ArgView::Direct { addr: p, access: Access::ReadWrite },
            ArgView::Direct { addr: q, access: Access::Read },
        ],
    }
}

/// The invocation for multiply-accumulate onto `ret`: the address of `ret`,
/// then the address of the pair `[a, b]`.
pub open spec fn mac_record(ret: int, a: int, b: int) -> InvocationView {
    InvocationView {
        op: Op::Mac,
        args: seq![
            ArgView::Direct { addr: ret, access: Access::ReadWrite },
            ArgView::Pair { first: a, second: b },
        ],
    }
}

/// The invocation for multiply-add in the packing convention: the address of
/// `result`, then the address of a scratch region that holds `packed`.
pub open spec fn muladd_record(result: int, packed: Seq<u32>) -> InvocationView {
    InvocationView {
        op: Op::MulAdd,
        args: seq![
            ArgView::Direct { addr: result, access: Access::ReadWrite },
            ArgView::Scratch { words: packed },
        ],
    }
}

/// The invocation for `ret = a * b + c` in the flat convention: the
/// addresses of `ret`, `a`, `b` and `c`, in this order.
pub open spec fn muladd_flat_record(ret: int, a: int, b: int, c: int) -> InvocationView {
    InvocationView {
        op: Op::MulAdd,
        args: seq![
            ArgView::Direct { addr: ret, access: Access::Write },
            ArgView::Direct { addr: a, access: Access::Read },
            ArgView::Direct { addr: b, access: Access::Read },
            ArgView::Direct { addr: c, access: Access::Read },
        ],
    }
}

/// Prepares in-place scalar multiplication `p *= q`.
///
/// `p` must be granted for reading and writing, since the accelerator reads
/// it before it overwrites it; `q` must be granted for reading; the two must
/// not overlap. Nothing is tested at run time.
pub fn syscall_bn254_scalar_mul(p: &Operand, q: &Operand) -> (call: Invocation)
    requires
        p.spec_access() == Access::ReadWrite,
        q.spec_access().reads(),
        !p.spec_overlaps(q),
    ensures
        call@ == mul_record(p.spec_addr() as int, q.spec_addr() as int),
{
    let mut args: Vec<Arg> = Vec::new();
    args.push(Arg::Direct { addr: p.addr(), access: Access::ReadWrite });
    args.push(Arg::Direct { addr: q.addr(), access: Access::Read });
    let call = Invocation { op: Op::Mul, args };
    assert(call@.args =~= mul_record(p.spec_addr() as int, q.spec_addr() as int).args);
    call
}

/// Prepares in-place multiply-accumulate onto `ret` with `a` and `b`.
///
/// The accelerator takes `a` and `b` as one indirect argument: the address
/// of a pair that holds their two addresses.
///
/// `ret` must be granted for reading and writing; `a` and `b` must be
/// granted for reading; no two of the three may overlap. Nothing is tested
/// at run time.
pub fn syscall_bn254_scalar_mac(ret: &Operand, a: &Operand, b: &Operand) -> (call: Invocation)
    requires
        ret.spec_access() == Access::ReadWrite,
        a.spec_access().reads(),
        b.spec_access().reads(),
        pairwise_disjoint(seq![*ret, *a, *b]),
    ensures
        call@ == mac_record(ret.spec_addr() as int, a.spec_addr() as int, b.spec_addr() as int),
{
    let mut args: Vec<Arg> = Vec::new();
    args.push(Arg::Direct { addr: ret.addr(), access: Access::ReadWrite });
    args.push(Arg::Pair { first: a.addr(), second: b.addr() });
    let call = Invocation { op: Op::Mac, args };
    assert(call@.args =~= mac_record(
        ret.spec_addr() as int,
        a.spec_addr() as int,
        b.spec_addr() as int,
    ).args);
    call
}

/// Prepares multiply-add over `x`, `y` and `z` into `result`, in the packing
/// convention.
///
/// `x` and `y` are laid out one behind the other in a scratch region of
/// sixteen words, made for this call and owned by the invocation; `z` is
/// copied into `result`, which the accelerator then updates in place. The
/// accelerator is handed the address of `result` and that of the scratch
/// region.
///
/// `result` must be granted for reading and writing; `x`, `y` and `z` must
/// be granted for reading; no two of the four may overlap. Nothing is tested
/// at run time.
pub fn syscall_bn254_scalar_muladd(result: &mut Buffer, x: &Buffer, y: &Buffer, z: &Buffer) -> (call:
    Invocation)
    requires
        old(result).at.spec_access() == Access::ReadWrite,
        x.at.spec_access().reads(),
        y.at.spec_access().reads(),
        z.at.spec_access().reads(),
        pairwise_disjoint(seq![old(result).at, x.at, y.at, z.at]),
    ensures
        final(result).at == old(result).at,
        final(result).words@ == z.words@,
        call@ == muladd_record(old(result).at.spec_addr() as int, x.words@ + y.words@),
{
    let scratch = concat_words(&x.words, &y.words);
    copy_words(&mut result.words, 0, &z.words);
    assert(result.words@ =~= z.words@);
    let mut args: Vec<Arg> = Vec::new();
    args.push(Arg::Direct { addr: result.at.addr(), access: Access::ReadWrite });
    args.push(Arg::Scratch { words: scratch });
    let call = Invocation { op: Op::MulAdd, args };
    assert(call@.args =~= muladd_record(
        old(result).at.spec_addr() as int,
        x.words@ + y.words@,
    ).args);
    call
}

/// Prepares multiply-add `ret = a * b + c` in the flat convention: four
/// addresses, nothing copied.
///
/// This and the packing convention are two readings of one operation code.
/// An accelerator understands one of them: dispatch only the invocations of
/// the convention that it documents.
///
/// `ret` must be granted for writing; `a`, `b` and `c` must be granted for
/// reading; no two of the four may overlap. Nothing is tested at run time.
pub fn syscall_bn254_scalar_muladd_flat(ret: &Operand, a: &Operand, b: &Operand, c: &Operand) -> (call:
    Invocation)
    requires
        ret.spec_access().writes(),
        a.spec_access().reads(),
        b.spec_access().reads(),
        c.spec_access().reads(),
        pairwise_disjoint(seq![*ret, *a, *b, *c]),
    ensures
        call@ == muladd_flat_record(
            ret.spec_addr() as int,
            a.spec_addr() as int,
            b.spec_addr() as int,
            c.spec_addr() as int,
        ),
{
    let mut args: Vec<Arg> = Vec::new();
    args.push(Arg::Direct { addr: ret.addr(), access: Access::Write });
    args.push(Arg::Direct { addr: a.addr(), access: Access::Read });
    args.push(Arg::Direct { addr: b.addr(), access: Access::Read });
    args.push(Arg::Direct { addr: c.addr(), access: Access::Read });
    let call = Invocation { op: Op::MulAdd, args };
    assert(call@.args =~= muladd_flat_record(
        ret.spec_addr() as int,
        a.spec_addr() as int,
        b.spec_addr() as int,
        c.spec_addr() as int,
    ).args);
    call
}

/// Multiplication lets the accelerator write the bytes of `p` and no other,
/// and read those of `p` and `q` and no other.
pub proof fn lemma_mul_footprint(p: int, q: int, byte: int)
    ensures
        mul_record(p, q).may_write(byte) <==> element_contains(p, byte),
        mul_record(p, q).may_read(byte) <==> element_contains(p, byte) || element_contains(
            q,
            byte,
        ),
{
    let r = mul_record(p, q);
    if element_contains(p, byte) {
        assert(r.args[0].may_write(byte) && r.args[0].may_read(byte));
    }
    if element_contains(q, byte) {
        assert(r.args[1].may_read(byte));
    }
}

/// Multiply-accumulate lets the accelerator write the bytes of `ret` and no
/// other, and read those of `ret`, `a` and `b` and no other.
pub proof fn lemma_mac_footprint(ret: int, a: int, b: int, byte: int)
    ensures
        mac_record(ret, a, b).may_write(byte) <==> element_contains(ret, byte),
        mac_record(ret, a, b).may_read(byte) <==> element_contains(ret, byte) || element_contains(
            a,
            byte,
        ) || element_contains(b, byte),
{
    let r = mac_record(ret, a, b);
    if element_contains(ret, byte) {
        assert(r.args[0].may_write(byte) && r.args[0].may_read(byte));
    }
    if element_contains(a, byte) || element_contains(b, byte) {
        assert(r.args[1].may_read(byte));
    }
}

/// Multiply-add in the packing convention lets the accelerator read and
/// write the bytes of `result` and no other memory of the caller, whatever
/// the scratch region holds.
pub proof fn lemma_muladd_footprint(result: int, packed: Seq<u32>, byte: int)
    ensures
        muladd_record(result, packed).may_write(byte) <==> element_contains(result, byte),
        muladd_record(result, packed).may_read(byte) <==> element_contains(result, byte),
{
    let r = muladd_record(result, packed);
    if element_contains(result, byte) {
        assert(r.args[0].may_write(byte) && r.args[0].may_read(byte));
    }
}

/// Multiply-add in the flat convention lets the accelerator write the bytes
/// of `ret` and no other, and read those of `a`, `b` and `c` and no other.
pub proof fn lemma_muladd_flat_footprint(ret: int, a: int, b: int, c: int, byte: int)
    ensures
        muladd_flat_record(ret, a, b, c).may_write(byte) <==> element_contains(ret, byte),
        muladd_flat_record(ret, a, b, c).may_read(byte) <==> element_contains(a, byte)
            || element_contains(b, byte) || element_contains(c, byte),
{
    let r = muladd_flat_record(ret, a, b, c);
    if element_contains(ret, byte) {
        assert(r.args[0].may_write(byte));
    }
    if element_contains(a, byte) {
        assert(r.args[1].may_read(byte));
    }
    if element_contains(b, byte) {
        assert(r.args[2].may_read(byte));
    }
    if element_contains(c, byte) {
        assert(r.args[3].may_read(byte));
    }
}

/// Multiplication leaves `q` alone: where `p` and `q` do not overlap, the
/// invocation lets the accelerator write no byte of `q`.
pub proof fn lemma_mul_keeps_q(p: Operand, q: Operand, byte: int)
    requires
        !p.spec_overlaps(&q),
        q.contains(byte),
    ensures
        !mul_record(p.spec_addr() as int, q.spec_addr() as int).may_write(byte),
{
    lemma_mul_footprint(p.spec_addr() as int, q.spec_addr() as int, byte);
}

/// Multiply-accumulate leaves `a` and `b` alone: where neither overlaps
/// `ret`, the invocation lets the accelerator write no byte of them.
pub proof fn lemma_mac_keeps_inputs(ret: Operand, a: Operand, b: Operand, byte: int)
    requires
        pairwise_disjoint(seq![ret, a, b]),
        a.contains(byte) || b.contains(byte),
    ensures
        !mac_record(ret.spec_addr() as int, a.spec_addr() as int, b.spec_addr() as int).may_write(
            byte,
        ),
{
    let ops = seq![ret, a, b];
    assert(!ops[0].spec_overlaps(&ops[1]) && !ops[0].spec_overlaps(&ops[2]));
    lemma_mac_footprint(ret.spec_addr() as int, a.spec_addr() as int, b.spec_addr() as int, byte);
}

/// Multiply-add in the packing convention leaves `x`, `y` and `z` alone:
/// where none overlaps `result`, the invocation lets the accelerator write
/// no byte of them.
pub proof fn lemma_muladd_keeps_inputs(
    result: Operand,
    x: Buffer,
    y: Buffer,
    z: Buffer,
    byte: int,
)
    requires
        pairwise_disjoint(seq![result, x.at, y.at, z.at]),
        x.at.contains(byte) || y.at.contains(byte) || z.at.contains(byte),
    ensures
        !muladd_record(result.spec_addr() as int, x.words@ + y.words@).may_write(byte),
{
    let ops = seq![result, x.at, y.at, z.at];
    assert(!ops[0].spec_overlaps(&ops[1]) && !ops[0].spec_overlaps(&ops[2]) && !ops[0].spec_overlaps(
        &ops[3],
    ));
    lemma_muladd_footprint(result.spec_addr() as int, x.words@ + y.words@, byte);
}

/// Multiply-add in the flat convention leaves `a`, `b` and `c` alone: where
/// none overlaps `ret`, the invocation lets the accelerator write no byte of
/// them.
pub proof fn lemma_muladd_flat_keeps_inputs(
    ret: Operand,
    a: Operand,
    b: Operand,
    c: Operand,
    byte: int,
)
    requires
        pairwise_disjoint(seq![ret, a, b, c]),
        a.contains(byte) || b.contains(byte) || c.contains(byte),
    ensures
        !muladd_flat_record(
            ret.spec_addr() as int,
            a.spec_addr() as int,
            b.spec_addr() as int,
            c.spec_addr() as int,
        ).may_write(byte),
{
    let ops = seq![ret, a, b, c];
    assert(!ops[0].spec_overlaps(&ops[1]) && !ops[0].spec_overlaps(&ops[2]) && !ops[0].spec_overlaps(
        &ops[3],
    ));
    lemma_muladd_flat_footprint(
        ret.spec_addr() as int,
        a.spec_addr() as int,
        b.spec_addr() as int,
        c.spec_addr() as int,
        byte,
    );
}

} // verus!
