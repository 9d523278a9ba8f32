use vstd::prelude::*;

verus! {

/// A fixed 32-byte content-addressed identifier standing in for an encrypted
/// value. A handle is never a pointer into storage: it is a derived (or, for
/// registered inputs, externally asserted) name for a value that only the
/// off-chain executor can materialize.
pub type Handle = [u8; 32];

/// The 32-byte identity of an issuing authority. It is mixed into every
/// derivation so that two authorities requesting the same operation over the
/// same operands never obtain colliding handles.
pub type Pubkey = [u8; 32];

/// Unary operations over encrypted 16-bit values.
///
/// The catalogs below are closed, and each member carries a pinned one-byte
/// discriminant (see `spec_discriminant`). The discriminant is part of the
/// wire contract with the off-chain executor: it is both the serialized form
/// of the operation and a hash input of every derived handle, so it must
/// never be reassigned or reused.
#[derive(Clone, Copy, PartialEq, Eq, Structural, Debug)]
pub enum Fhe16UnaryOp {
    Not,
    Abs,
    Neg,
}

/// Binary operations over encrypted 16-bit values.
#[derive(Clone, Copy, PartialEq, Eq, Structural, Debug)]
pub enum Fhe16BinaryOp {
    And,
    Or,
    Xor,
    Add,
    Sub,
    SDiv,
    Eq,
    Neq,
    Gt,
    Ge,
    Lt,
    Le,
    Max,
    Min,
    MaxOrMin,
    Compare,
    OrVec,
    AndVec,
    XorVec,
    LShiftL,
    SMulL,
    AddPowTwo,
    SubPowTwo,
    GateTemplate,
    PrefixTemplate,
    AddPowTwoTemplate,
    OrXor,
    AndXor,
}

/// Ternary operations over encrypted 16-bit values.
#[derive(Clone, Copy, PartialEq, Eq, Structural, Debug)]
pub enum Fhe16TernaryOp {
    Add3,
    Eq3,
    Maj3,
    Xor3,
    Select,
}

impl Fhe16UnaryOp {
    /// The pinned wire discriminant of each unary operation.
    pub open spec fn spec_discriminant(self) -> u8 {
        match self {
            Fhe16UnaryOp::Not => 0,
            Fhe16UnaryOp::Abs => 1,
            Fhe16UnaryOp::Neg => 2,
        }
    }

    /// Serializes the operation as its pinned one-byte discriminant.
    pub fn discriminant(self) -> (b: u8)
        ensures
            b == self.spec_discriminant(),
    {
        match self {
            Fhe16UnaryOp::Not => 0,
            Fhe16UnaryOp::Abs => 1,
            Fhe16UnaryOp::Neg => 2,
        }
    }

    /// The operation a wire byte decodes to, if any.
    pub open spec fn spec_from_discriminant(b: u8) -> Option<Fhe16UnaryOp> {
        match b {
            0u8 => Some(Fhe16UnaryOp::Not),
            1u8 => Some(Fhe16UnaryOp::Abs),
            2u8 => Some(Fhe16UnaryOp::Neg),
            _ => None,
        }
    }

    /// Decodes a wire byte back into a unary operation; bytes outside the
    /// closed catalog are rejected.
    pub fn from_discriminant(b: u8) -> (r: Option<Fhe16UnaryOp>)
        ensures
            r == Fhe16UnaryOp::spec_from_discriminant(b),
    {
        match b {
            0u8 => Some(Fhe16UnaryOp::Not),
            1u8 => Some(Fhe16UnaryOp::Abs),
            2u8 => Some(Fhe16UnaryOp::Neg),
            _ => None,
        }
    }

    /// Discriminant stability: every unary operation's serialized byte decodes
    /// back to the very same operation, so the wire mapping is lossless and no
    /// two members share a discriminant.
    pub proof fn lemma_discriminant_round_trip(op: Fhe16UnaryOp)
        ensures
            Fhe16UnaryOp::spec_from_discriminant(op.spec_discriminant()) == Some(op),
    {
    }
}

impl Fhe16BinaryOp {
    /// The pinned wire discriminant of each binary operation.
    pub open spec fn spec_discriminant(self) -> u8 {
        match self {
            Fhe16BinaryOp::And => 0,
            Fhe16BinaryOp::Or => 1,
            Fhe16BinaryOp::Xor => 2,
            Fhe16BinaryOp::Add => 3,
            Fhe16BinaryOp::Sub => 4,
            Fhe16BinaryOp::SDiv => 5,
            Fhe16BinaryOp::Eq => 6,
            Fhe16BinaryOp::Neq => 7,
            Fhe16BinaryOp::Gt => 8,
            Fhe16BinaryOp::Ge => 9,
            Fhe16BinaryOp::Lt => 10,
            Fhe16BinaryOp::Le => 11,
            Fhe16BinaryOp::Max => 12,
            Fhe16BinaryOp::Min => 13,
            Fhe16BinaryOp::MaxOrMin => 14,
            Fhe16BinaryOp::Compare => 15,
            Fhe16BinaryOp::OrVec => 16,
            Fhe16BinaryOp::AndVec => 17,
            Fhe16BinaryOp::XorVec => 18,
            Fhe16BinaryOp::LShiftL => 19,
            Fhe16BinaryOp::SMulL => 20,
            Fhe16BinaryOp::AddPowTwo => 21,
            Fhe16BinaryOp::SubPowTwo => 22,
            Fhe16BinaryOp::GateTemplate => 23,
            Fhe16BinaryOp::PrefixTemplate => 24,
            Fhe16BinaryOp::AddPowTwoTemplate => 25,
            Fhe16BinaryOp::OrXor => 26,
            Fhe16BinaryOp::AndXor => 27,
        }
    }

    /// Serializes the operation as its pinned one-byte discriminant.
    pub fn discriminant(self) -> (b: u8)
        ensures
            b == self.spec_discriminant(),
    {
        match self {
            Fhe16BinaryOp::And => 0,
            Fhe16BinaryOp::Or => 1,
            Fhe16BinaryOp::Xor => 2,
            Fhe16BinaryOp::Add => 3,
            Fhe16BinaryOp::Sub => 4,
            Fhe16BinaryOp::SDiv => 5,
            Fhe16BinaryOp::Eq => 6,
            Fhe16BinaryOp::Neq => 7,
            Fhe16BinaryOp::Gt => 8,
            Fhe16BinaryOp::Ge => 9,
            Fhe16BinaryOp::Lt => 10,
            Fhe16BinaryOp::Le => 11,
            Fhe16BinaryOp::Max => 12,
            Fhe16BinaryOp::Min => 13,
            Fhe16BinaryOp::MaxOrMin => 14,
            Fhe16BinaryOp::Compare => 15,
            Fhe16BinaryOp::OrVec => 16,
            Fhe16BinaryOp::AndVec => 17,
            Fhe16BinaryOp::XorVec => 18,
            Fhe16BinaryOp::LShiftL => 19,
            Fhe16BinaryOp::SMulL => 20,
            Fhe16BinaryOp::AddPowTwo => 21,
            Fhe16BinaryOp::SubPowTwo => 22,
            Fhe16BinaryOp::GateTemplate => 23,
            Fhe16BinaryOp::PrefixTemplate => 24,
            Fhe16BinaryOp::AddPowTwoTemplate => 25,
            Fhe16BinaryOp::OrXor => 26,
            Fhe16BinaryOp::AndXor => 27,
        }
    }

    /// The operation a wire byte decodes to, if any.
    pub open spec fn spec_from_discriminant(b: u8) -> Option<Fhe16BinaryOp> {
        match b {
            0u8 => Some(Fhe16BinaryOp::And),
            1u8 => Some(Fhe16BinaryOp::Or),
            2u8 => Some(Fhe16BinaryOp::Xor),
            3u8 => Some(Fhe16BinaryOp::Add),
            4u8 => Some(Fhe16BinaryOp::Sub),
            5u8 => Some(Fhe16BinaryOp::SDiv),
            6u8 => Some(Fhe16BinaryOp::Eq),
            7u8 => Some(Fhe16BinaryOp::Neq),
            8u8 => Some(Fhe16BinaryOp::Gt),
            9u8 => Some(Fhe16BinaryOp::Ge),
            10u8 => Some(Fhe16BinaryOp::Lt),
            11u8 => Some(Fhe16BinaryOp::Le),
            12u8 => Some(Fhe16BinaryOp::Max),
            13u8 => Some(Fhe16BinaryOp::Min),
            14u8 => Some(Fhe16BinaryOp::MaxOrMin),
            15u8 => Some(Fhe16BinaryOp::Compare),
            16u8 => Some(Fhe16BinaryOp::OrVec),
            17u8 => Some(Fhe16BinaryOp::AndVec),
            18u8 => Some(Fhe16BinaryOp::XorVec),
            19u8 => Some(Fhe16BinaryOp::LShiftL),
            20u8 => Some(Fhe16BinaryOp::SMulL),
            21u8 => Some(Fhe16BinaryOp::AddPowTwo),
            22u8 => Some(Fhe16BinaryOp::SubPowTwo),
            23u8 => Some(Fhe16BinaryOp::GateTemplate),
            24u8 => Some(Fhe16BinaryOp::PrefixTemplate),
            25u8 => Some(Fhe16BinaryOp::AddPowTwoTemplate),
            26u8 => Some(Fhe16BinaryOp::OrXor),
            27u8 => Some(Fhe16BinaryOp::AndXor),
            _ => None,
        }
    }

    /// Decodes a wire byte back into a binary operation; bytes outside the
    /// closed catalog are rejected.
    pub fn from_discriminant(b: u8) -> (r: Option<Fhe16BinaryOp>)
        ensures
            r == Fhe16BinaryOp::spec_from_discriminant(b),
    {
        match b {
            0u8 => Some(Fhe16BinaryOp::And),
            1u8 => Some(Fhe16BinaryOp::Or),
            2u8 => Some(Fhe16BinaryOp::Xor),
            3u8 => Some(Fhe16BinaryOp::Add),
            4u8 => Some(Fhe16BinaryOp::Sub),
            5u8 => Some(Fhe16BinaryOp::SDiv),
            6u8 => Some(Fhe16BinaryOp::Eq),
            7u8 => Some(Fhe16BinaryOp::Neq),
            8u8 => Some(Fhe16BinaryOp::Gt),
            9u8 => Some(Fhe16BinaryOp::Ge),
            10u8 => Some(Fhe16BinaryOp::Lt),
            11u8 => Some(Fhe16BinaryOp::Le),
            12u8 => Some(Fhe16BinaryOp::Max),
            13u8 => Some(Fhe16BinaryOp::Min),
            14u8 => Some(Fhe16BinaryOp::MaxOrMin),
            15u8 => Some(Fhe16BinaryOp::Compare),
            16u8 => Some(Fhe16BinaryOp::OrVec),
            17u8 => Some(Fhe16BinaryOp::AndVec),
            18u8 => Some(Fhe16BinaryOp::XorVec),
            19u8 => Some(Fhe16BinaryOp::LShiftL),
            20u8 => Some(Fhe16BinaryOp::SMulL),
            21u8 => Some(Fhe16BinaryOp::AddPowTwo),
            22u8 => Some(Fhe16BinaryOp::SubPowTwo),
            23u8 => Some(Fhe16BinaryOp::GateTemplate),
            24u8 => Some(Fhe16BinaryOp::PrefixTemplate),
            25u8 => Some(Fhe16BinaryOp::AddPowTwoTemplate),
            26u8 => Some(Fhe16BinaryOp::OrXor),
            27u8 => Some(Fhe16BinaryOp::AndXor),
            _ => None,
        }
    }

    /// Discriminant stability: every binary operation's serialized byte
    /// decodes back to the very same operation, so the wire mapping is
    /// lossless and no two members share a discriminant.
    pub proof fn lemma_discriminant_round_trip(op: Fhe16BinaryOp)
        ensures
            Fhe16BinaryOp::spec_from_discriminant(op.spec_discriminant()) == Some(op),
    {
    }
}

impl Fhe16TernaryOp {
    /// The pinned wire discriminant of each ternary operation.
    pub open spec fn spec_discriminant(self) -> u8 {
        match self {
            Fhe16TernaryOp::Add3 => 0,
            Fhe16TernaryOp::Eq3 => 1,
            Fhe16TernaryOp::Maj3 => 2,
            Fhe16TernaryOp::Xor3 => 3,
            Fhe16TernaryOp::Select => 4,
        }
    }

    /// Serializes the operation as its pinned one-byte discriminant.
    pub fn discriminant(self) -> (b: u8)
        ensures
            b == self.spec_discriminant(),
    {
        match self {
            Fhe16TernaryOp::Add3 => 0,
            Fhe16TernaryOp::Eq3 => 1,
            Fhe16TernaryOp::Maj3 => 2,
            Fhe16TernaryOp::Xor3 => 3,
            Fhe16TernaryOp::Select => 4,
        }
    }

    /// The operation a wire byte decodes to, if any.
    pub open spec fn spec_from_discriminant(b: u8) -> Option<Fhe16TernaryOp> {
        match b {
            0u8 => Some(Fhe16TernaryOp::Add3),
            1u8 => Some(Fhe16TernaryOp::Eq3),
            2u8 => Some(Fhe16TernaryOp::Maj3),
            3u8 => Some(Fhe16TernaryOp::Xor3),
            4u8 => Some(Fhe16TernaryOp::Select),
            _ => None,
        }
    }

    /// Decodes a wire byte back into a ternary operation; bytes outside the
    /// closed catalog are rejected.
    pub fn from_discriminant(b: u8) -> (r: Option<Fhe16TernaryOp>)
        ensures
            r == Fhe16TernaryOp::spec_from_discriminant(b),
    {
        match b {
            0u8 => Some(Fhe16TernaryOp::Add3),
            1u8 => Some(Fhe16TernaryOp::Eq3),
            2u8 => Some(Fhe16TernaryOp::Maj3),
            3u8 => Some(Fhe16TernaryOp::Xor3),
            4u8 => Some(Fhe16TernaryOp::Select),
            _ => None,
        }
    }

    /// Discriminant stability: every ternary operation's serialized byte
    /// decodes back to the very same operation, so the wire mapping is
    /// lossless and no two members share a discriminant.
    pub proof fn lemma_discriminant_round_trip(op: Fhe16TernaryOp)
        ensures
            Fhe16TernaryOp::spec_from_discriminant(op.spec_discriminant()) == Some(op),
    {
    }
}

} // verus!
