//! The handle derivation engine: a pure, total function from (domain tag,
//! namespace, operation, ordered operands) to a 32-byte result handle.
//!
//! The hash input is the concatenation `tag || namespace || op byte ||
//! operand_1 || operand_2 || ...`. Every field has a fixed length, so the
//! concatenation is unambiguous without delimiters, and each arity carries its
//! own ASCII domain tag, so revisions of the scheme and derivations of
//! different arities can never share a hash input. Collision resistance over
//! distinct hash inputs is delegated entirely to SHA-256; what this module
//! proves is that distinct derivation requests produce distinct hash inputs.

use vstd::prelude::*;

use crate::types::{Fhe16BinaryOp, Fhe16TernaryOp, Fhe16UnaryOp, Handle, Pubkey};

verus! {

/// The SHA-256 digest of a byte string. The digest is a function of the bytes
/// alone; nothing further is assumed of it.
pub uninterp spec fn sha256_of(data: Seq<u8>) -> Seq<u8>;

/// Relies on solana_sha256_hasher::hashv: the returned value is the SHA-256
/// digest of the input bytes, 32 bytes long and depending on those bytes
/// alone. With the hasher's `sha2` feature enabled, as this library requires,
/// the call computes the digest inline and cannot panic.
#[verifier::external_body]
fn sha256(data: &Vec<u8>) -> (digest: Handle)
    ensures
        digest@ == sha256_of(data@),
{
    solana_sha256_hasher::hashv(&[data.as_slice()]).to_bytes()
}

/// The ASCII domain tag `FHE16_UNARY_V1` prefixed to every unary derivation.
pub open spec fn domain_tag_unary() -> Seq<u8> {
    seq![70u8, 72u8, 69u8, 49u8, 54u8, 95u8, 85u8, 78u8, 65u8, 82u8, 89u8, 95u8, 86u8, 49u8]
}

/// The ASCII domain tag `FHE16_BINARY_V1` prefixed to every binary derivation.
pub open spec fn domain_tag_binary() -> Seq<u8> {
    seq![
        70u8, 72u8, 69u8, 49u8, 54u8, 95u8, 66u8, 73u8, 78u8, 65u8, 82u8, 89u8, 95u8, 86u8,
        49u8,
    ]
}

/// The ASCII domain tag `FHE16_TERNARY_V1` prefixed to every ternary
/// derivation.
pub open spec fn domain_tag_ternary() -> Seq<u8> {
    seq![
        70u8, 72u8, 69u8, 49u8, 54u8, 95u8, 84u8, 69u8, 82u8, 78u8, 65u8, 82u8, 89u8, 95u8,
        86u8, 49u8,
    ]
}

/// The unambiguous hash input of a unary derivation.
pub open spec fn unary_preimage(program_id: Seq<u8>, op_byte: u8, input: Seq<u8>) -> Seq<u8> {
    domain_tag_unary() + program_id + seq![op_byte] + input
}

/// The unambiguous hash input of a binary derivation.
pub open spec fn binary_preimage(
    program_id: Seq<u8>,
    op_byte: u8,
    lhs: Seq<u8>,
    rhs: Seq<u8>,
) -> Seq<u8> {
    domain_tag_binary() + program_id + seq![op_byte] + lhs + rhs
}

/// The unambiguous hash input of a ternary derivation.
pub open spec fn ternary_preimage(
    program_id: Seq<u8>,
    op_byte: u8,
    a: Seq<u8>,
    b: Seq<u8>,
    c: Seq<u8>,
) -> Seq<u8> {
    domain_tag_ternary() + program_id + seq![op_byte] + a + b + c
}

/// The handle derived for a unary operation, as a byte sequence.
pub open spec fn spec_derive_unary(
    program_id: Seq<u8>,
    op: Fhe16UnaryOp,
    input: Seq<u8>,
) -> Seq<u8> {
    sha256_of(unary_preimage(program_id, op.spec_discriminant(), input))
}

/// The handle derived for a binary operation, as a byte sequence.
pub open spec fn spec_derive_binary(
    program_id: Seq<u8>,
    op: Fhe16BinaryOp,
    lhs: Seq<u8>,
    rhs: Seq<u8>,
) -> Seq<u8> {
    sha256_of(binary_preimage(program_id, op.spec_discriminant(), lhs, rhs))
}

/// The handle derived for a ternary operation, as a byte sequence.
pub open spec fn spec_derive_ternary(
    program_id: Seq<u8>,
    op: Fhe16TernaryOp,
    a: Seq<u8>,
    b: Seq<u8>,
    c: Seq<u8>,
) -> Seq<u8> {
    sha256_of(ternary_preimage(program_id, op.spec_discriminant(), a, b, c))
}

/// Determinism: deriving a handle is a pure function of the namespace, the
/// operation and the ordered operands. Two derivations of any arity from
/// equal arguments yield equal handles.
pub proof fn lemma_derive_deterministic(
    program_id: Seq<u8>,
    unary_op: Fhe16UnaryOp,
    binary_op: Fhe16BinaryOp,
    ternary_op: Fhe16TernaryOp,
    a: Seq<u8>,
    b: Seq<u8>,
    c: Seq<u8>,
    r1: Seq<u8>,
    r2: Seq<u8>,
)
    ensures
        r1 == spec_derive_unary(program_id, unary_op, a) && r2 == spec_derive_unary(
            program_id,
            unary_op,
            a,
        ) ==> r1 == r2,
        r1 == spec_derive_binary(program_id, binary_op, a, b) && r2 == spec_derive_binary(
            program_id,
            binary_op,
            a,
            b,
        ) ==> r1 == r2,
        r1 == spec_derive_ternary(program_id, ternary_op, a, b, c) && r2 == spec_derive_ternary(
            program_id,
            ternary_op,
            a,
            b,
            c,
        ) ==> r1 == r2,
{
}

/// Sensitivity, stated of the hash input: two unary derivation requests build
/// the same hash input only if they agree on the namespace, the operation
/// byte and the operand. Equivalently, changing any byte of any field changes
/// the hash input; only a collision of SHA-256 itself could then make the
/// derived handles coincide.
pub proof fn lemma_unary_preimage_injective(
    pid1: Seq<u8>,
    op1: u8,
    in1: Seq<u8>,
    pid2: Seq<u8>,
    op2: u8,
    in2: Seq<u8>,
)
    requires
        pid1.len() == 32,
        in1.len() == 32,
        pid2.len() == 32,
        in2.len() == 32,
        unary_preimage(pid1, op1, in1) == unary_preimage(pid2, op2, in2),
    ensures
        pid1 == pid2,
        op1 == op2,
        in1 == in2,
{
    let p1 = unary_preimage(pid1, op1, in1);
    let p2 = unary_preimage(pid2, op2, in2);
    assert forall|i: int| 0 <= i < 32 implies pid1[i] == pid2[i] by {
        assert(p1[14 + i] == pid1[i]);
        assert(p2[14 + i] == pid2[i]);
    }
    assert(pid1 =~= pid2);
    assert(p1[46] == op1);
    assert(p2[46] == op2);
    assert forall|i: int| 0 <= i < 32 implies in1[i] == in2[i] by {
        assert(p1[47 + i] == in1[i]);
        assert(p2[47 + i] == in2[i]);
    }
    assert(in1 =~= in2);
}

/// Sensitivity for binary derivations: the hash input determines the
/// namespace, the operation byte and both operands, in order. Swapped
/// operands of a commutative operation therefore also give a different hash
/// input: operand order is deliberately never canonicalized.
pub proof fn lemma_binary_preimage_injective(
    pid1: Seq<u8>,
    op1: u8,
    lhs1: Seq<u8>,
    rhs1: Seq<u8>,
    pid2: Seq<u8>,
    op2: u8,
    lhs2: Seq<u8>,
    rhs2: Seq<u8>,
)
    requires
        pid1.len() == 32,
        lhs1.len() == 32,
        rhs1.len() == 32,
        pid2.len() == 32,
        lhs2.len() == 32,
        rhs2.len() == 32,
        binary_preimage(pid1, op1, lhs1, rhs1) == binary_preimage(pid2, op2, lhs2, rhs2),
    ensures
        pid1 == pid2,
        op1 == op2,
        lhs1 == lhs2,
        rhs1 == rhs2,
{
    let p1 = binary_preimage(pid1, op1, lhs1, rhs1);
    let p2 = binary_preimage(pid2, op2, lhs2, rhs2);
    assert forall|i: int| 0 <= i < 32 implies pid1[i] == pid2[i] by {
        assert(p1[15 + i] == pid1[i]);
        assert(p2[15 + i] == pid2[i]);
    }
    assert(pid1 =~= pid2);
    assert(p1[47] == op1);
    assert(p2[47] == op2);
    assert forall|i: int| 0 <= i < 32 implies lhs1[i] == lhs2[i] by {
        assert(p1[48 + i] == lhs1[i]);
        assert(p2[48 + i] == lhs2[i]);
    }
    assert(lhs1 =~= lhs2);
    assert forall|i: int| 0 <= i < 32 implies rhs1[i] == rhs2[i] by {
        assert(p1[80 + i] == rhs1[i]);
        assert(p2[80 + i] == rhs2[i]);
    }
    assert(rhs1 =~= rhs2);
}

/// Sensitivity for ternary derivations: the hash input determines the
/// namespace, the operation byte and all three operands, in order.
pub proof fn lemma_ternary_preimage_injective(
    pid1: Seq<u8>,
    op1: u8,
    a1: Seq<u8>,
    b1: Seq<u8>,
    c1: Seq<u8>,
    pid2: Seq<u8>,
    op2: u8,
    a2: Seq<u8>,
    b2: Seq<u8>,
    c2: Seq<u8>,
)
    requires
        pid1.len() == 32,
        a1.len() == 32,
        b1.len() == 32,
        c1.len() == 32,
        pid2.len() == 32,
        a2.len() == 32,
        b2.len() == 32,
        c2.len() == 32,
        ternary_preimage(pid1, op1, a1, b1, c1) == ternary_preimage(pid2, op2, a2, b2, c2),
    ensures
        pid1 == pid2,
        op1 == op2,
        a1 == a2,
        b1 == b2,
        c1 == c2,
{
    let p1 = ternary_preimage(pid1, op1, a1, b1, c1);
    let p2 = ternary_preimage(pid2, op2, a2, b2, c2);
    assert forall|i: int| 0 <= i < 32 implies pid1[i] == pid2[i] by {
        assert(p1[16 + i] == pid1[i]);
        assert(p2[16 + i] == pid2[i]);
    }
    assert(pid1 =~= pid2);
    assert(p1[48] == op1);
    assert(p2[48] == op2);
    assert forall|i: int| 0 <= i < 32 implies a1[i] == a2[i] by {
        assert(p1[49 + i] == a1[i]);
        assert(p2[49 + i] == a2[i]);
    }
    assert(a1 =~= a2);
    assert forall|i: int| 0 <= i < 32 implies b1[i] == b2[i] by {
        assert(p1[81 + i] == b1[i]);
        assert(p2[81 + i] == b2[i]);
    }
    assert(b1 =~= b2);
    assert forall|i: int| 0 <= i < 32 implies c1[i] == c2[i] by {
        assert(p1[113 + i] == c1[i]);
        assert(p2[113 + i] == c2[i]);
    }
    assert(c1 =~= c2);
}

/// Sensitivity at the level of the unary catalog: two unary derivation
/// requests build the same hash input only if they agree on the namespace,
/// the catalog member and the operand. Flipping any byte of any field, or
/// switching to a different member, changes the hash input; the derived
/// handles could then coincide only through a collision of SHA-256 itself.
pub proof fn lemma_unary_derivation_sensitivity(
    pid1: Seq<u8>,
    op1: Fhe16UnaryOp,
    in1: Seq<u8>,
    pid2: Seq<u8>,
    op2: Fhe16UnaryOp,
    in2: Seq<u8>,
)
    requires
        pid1.len() == 32,
        in1.len() == 32,
        pid2.len() == 32,
        in2.len() == 32,
        unary_preimage(pid1, op1.spec_discriminant(), in1) == unary_preimage(
            pid2,
            op2.spec_discriminant(),
            in2,
        ),
    ensures
        pid1 == pid2,
        op1 == op2,
        in1 == in2,
{
    lemma_unary_preimage_injective(
        pid1,
        op1.spec_discriminant(),
        in1,
        pid2,
        op2.spec_discriminant(),
        in2,
    );
    Fhe16UnaryOp::lemma_discriminant_round_trip(op1);
    Fhe16UnaryOp::lemma_discriminant_round_trip(op2);
}

/// Sensitivity at the level of the binary catalog: the hash input determines
/// namespace, catalog member and both operands in order.
pub proof fn lemma_binary_derivation_sensitivity(
    pid1: Seq<u8>,
    op1: Fhe16BinaryOp,
    lhs1: Seq<u8>,
    rhs1: Seq<u8>,
    pid2: Seq<u8>,
    op2: Fhe16BinaryOp,
    lhs2: Seq<u8>,
    rhs2: Seq<u8>,
)
    requires
        pid1.len() == 32,
        lhs1.len() == 32,
        rhs1.len() == 32,
        pid2.len() == 32,
        lhs2.len() == 32,
        rhs2.len() == 32,
        binary_preimage(pid1, op1.spec_discriminant(), lhs1, rhs1) == binary_preimage(
            pid2,
            op2.spec_discriminant(),
            lhs2,
            rhs2,
        ),
    ensures
        pid1 == pid2,
        op1 == op2,
        lhs1 == lhs2,
        rhs1 == rhs2,
{
    lemma_binary_preimage_injective(
        pid1,
        op1.spec_discriminant(),
        lhs1,
        rhs1,
        pid2,
        op2.spec_discriminant(),
        lhs2,
        rhs2,
    );
    Fhe16BinaryOp::lemma_discriminant_round_trip(op1);
    Fhe16BinaryOp::lemma_discriminant_round_trip(op2);
}

/// Sensitivity at the level of the ternary catalog: the hash input determines
/// namespace, catalog member and all three operands in order.
pub proof fn lemma_ternary_derivation_sensitivity(
    pid1: Seq<u8>,
    op1: Fhe16TernaryOp,
    a1: Seq<u8>,
    b1: Seq<u8>,
    c1: Seq<u8>,
    pid2: Seq<u8>,
    op2: Fhe16TernaryOp,
    a2: Seq<u8>,
    b2: Seq<u8>,
    c2: Seq<u8>,
)
    requires
        pid1.len() == 32,
        a1.len() == 32,
        b1.len() == 32,
        c1.len() == 32,
        pid2.len() == 32,
        a2.len() == 32,
        b2.len() == 32,
        c2.len() == 32,
        ternary_preimage(pid1, op1.spec_discriminant(), a1, b1, c1) == ternary_preimage(
            pid2,
            op2.spec_discriminant(),
            a2,
            b2,
            c2,
        ),
    ensures
        pid1 == pid2,
        op1 == op2,
        a1 == a2,
        b1 == b2,
        c1 == c2,
{
    lemma_ternary_preimage_injective(
        pid1,
        op1.spec_discriminant(),
        a1,
        b1,
        c1,
        pid2,
        op2.spec_discriminant(),
        a2,
        b2,
        c2,
    );
    Fhe16TernaryOp::lemma_discriminant_round_trip(op1);
    Fhe16TernaryOp::lemma_discriminant_round_trip(op2);
}

/// Arity isolation: no hash input of one arity is ever the hash input of
/// another, whatever the operand byte patterns, because the three domain tags
/// already differ at their seventh byte. Derivations of different arities can
/// therefore collide only through a collision of SHA-256 itself.
pub proof fn lemma_arity_isolation(
    upid: Seq<u8>,
    uop: u8,
    uin: Seq<u8>,
    bpid: Seq<u8>,
    bop: u8,
    blhs: Seq<u8>,
    brhs: Seq<u8>,
    tpid: Seq<u8>,
    top: u8,
    ta: Seq<u8>,
    tb: Seq<u8>,
    tc: Seq<u8>,
)
    ensures
        unary_preimage(upid, uop, uin) != binary_preimage(bpid, bop, blhs, brhs),
        unary_preimage(upid, uop, uin) != ternary_preimage(tpid, top, ta, tb, tc),
        binary_preimage(bpid, bop, blhs, brhs) != ternary_preimage(tpid, top, ta, tb, tc),
{
    assert(unary_preimage(upid, uop, uin)[6] == 85);
    assert(binary_preimage(bpid, bop, blhs, brhs)[6] == 66);
    assert(ternary_preimage(tpid, top, ta, tb, tc)[6] == 84);
}

/// Appends all 32 bytes of a fixed-size field to the hash input buffer.
fn push_bytes32(buf: &mut Vec<u8>, bytes: &[u8; 32])
    ensures
        final(buf)@ == old(buf)@ + bytes@,
{
    let mut i: usize = 0;
    while i < 32
        invariant
            i <= 32,
            buf@ == old(buf)@ + bytes@.subrange(0, i as int),
        decreases 32 - i,
    {
        buf.push(bytes[i]);
        i += 1;
    }
    proof {
        assert(bytes@.subrange(0, 32) =~= bytes@);
    }
}

/// Appends the unary domain tag to the hash input buffer.
fn push_domain_tag_unary(buf: &mut Vec<u8>)
    ensures
        final(buf)@ == old(buf)@ + domain_tag_unary(),
{
    buf.push(70);
    buf.push(72);
    buf.push(69);
    buf.push(49);
    buf.push(54);
    buf.push(95);
    buf.push(85);
    buf.push(78);
    buf.push(65);
    buf.push(82);
    buf.push(89);
    buf.push(95);
    buf.push(86);
    buf.push(49);
    proof {
        assert(buf@ =~= old(buf)@ + domain_tag_unary());
    }
}

/// Appends the binary domain tag to the hash input buffer.
fn push_domain_tag_binary(buf: &mut Vec<u8>)
    ensures
        final(buf)@ == old(buf)@ + domain_tag_binary(),
{
    buf.push(70);
    buf.push(72);
    buf.push(69);
    buf.push(49);
    buf.push(54);
    buf.push(95);
    buf.push(66);
    buf.push(73);
    buf.push(78);
    buf.push(65);
    buf.push(82);
    buf.push(89);
    buf.push(95);
    buf.push(86);
    buf.push(49);
    proof {
        assert(buf@ =~= old(buf)@ + domain_tag_binary());
    }
}

/// Appends the ternary domain tag to the hash input buffer.
fn push_domain_tag_ternary(buf: &mut Vec<u8>)
    ensures
        final(buf)@ == old(buf)@ + domain_tag_ternary(),
{
    buf.push(70);
    buf.push(72);
    buf.push(69);
    buf.push(49);
    buf.push(54);
    buf.push(95);
    buf.push(84);
    buf.push(69);
    buf.push(82);
    buf.push(78);
    buf.push(65);
    buf.push(82);
    buf.push(89);
    buf.push(95);
    buf.push(86);
    buf.push(49);
    proof {
        assert(buf@ =~= old(buf)@ + domain_tag_ternary());
    }
}

/// Derives the result handle of a unary operation over one operand handle,
/// on behalf of the authority `program_id`.
pub fn derive_unary_handle(op: Fhe16UnaryOp, input: &Handle, program_id: &Pubkey) -> (r: Handle)
    ensures
        r@ == spec_derive_unary(program_id@, op, input@),
{
    let mut buf: Vec<u8> = Vec::new();
    push_domain_tag_unary(&mut buf);
    push_bytes32(&mut buf, program_id);
    buf.push(op.discriminant());
    push_bytes32(&mut buf, input);
    proof {
        assert(buf@ =~= unary_preimage(program_id@, op.spec_discriminant(), input@));
    }
    sha256(&buf)
}

/// Derives the result handle of a binary operation over two ordered operand
/// handles, on behalf of the authority `program_id`. Operand order is
/// significant even for commutative operations: no canonicalization is
/// performed.
pub fn derive_binary_handle(
    op: Fhe16BinaryOp,
    lhs: &Handle,
    rhs: &Handle,
    program_id: &Pubkey,
) -> (r: Handle)
    ensures
        r@ == spec_derive_binary(program_id@, op, lhs@, rhs@),
{
    let mut buf: Vec<u8> = Vec::new();
    push_domain_tag_binary(&mut buf);
    push_bytes32(&mut buf, program_id);
    buf.push(op.discriminant());
    push_bytes32(&mut buf, lhs);
    push_bytes32(&mut buf, rhs);
    proof {
        assert(buf@ =~= binary_preimage(program_id@, op.spec_discriminant(), lhs@, rhs@));
    }
    sha256(&buf)
}

/// Derives the result handle of a ternary operation over three ordered
/// operand handles, on behalf of the authority `program_id`.
pub fn derive_ternary_handle(
    op: Fhe16TernaryOp,
    a: &Handle,
    b: &Handle,
    c: &Handle,
    program_id: &Pubkey,
) -> (r: Handle)
    ensures
        r@ == spec_derive_ternary(program_id@, op, a@, b@, c@),
{
    let mut buf: Vec<u8> = Vec::new();
    push_domain_tag_ternary(&mut buf);
    push_bytes32(&mut buf, program_id);
    buf.push(op.discriminant());
    push_bytes32(&mut buf, a);
    push_bytes32(&mut buf, b);
    push_bytes32(&mut buf, c);
    proof {
        assert(buf@ =~= ternary_preimage(program_id@, op.spec_discriminant(), a@, b@, c@));
    }
    sha256(&buf)
}

} // verus!
