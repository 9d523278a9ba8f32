use host_programs::types::{Fhe16BinaryOp, Fhe16TernaryOp, Fhe16UnaryOp};

const UNARY_REGISTRY: [(Fhe16UnaryOp, u8); 3] = [
    (Fhe16UnaryOp::Not, 0),
    (Fhe16UnaryOp::Abs, 1),
    (Fhe16UnaryOp::Neg, 2),
];

const BINARY_REGISTRY: [(Fhe16BinaryOp, u8); 28] = [
    (Fhe16BinaryOp::And, 0),
    (Fhe16BinaryOp::Or, 1),
    (Fhe16BinaryOp::Xor, 2),
    (Fhe16BinaryOp::Add, 3),
    (Fhe16BinaryOp::Sub, 4),
    (Fhe16BinaryOp::SDiv, 5),
    (Fhe16BinaryOp::Eq, 6),
    (Fhe16BinaryOp::Neq, 7),
    (Fhe16BinaryOp::Gt, 8),
    (Fhe16BinaryOp::Ge, 9),
    (Fhe16BinaryOp::Lt, 10),
    (Fhe16BinaryOp::Le, 11),
    (Fhe16BinaryOp::Max, 12),
    (Fhe16BinaryOp::Min, 13),
    (Fhe16BinaryOp::MaxOrMin, 14),
    (Fhe16BinaryOp::Compare, 15),
    (Fhe16BinaryOp::OrVec, 16),
    (Fhe16BinaryOp::AndVec, 17),
    (Fhe16BinaryOp::XorVec, 18),
    (Fhe16BinaryOp::LShiftL, 19),
    (Fhe16BinaryOp::SMulL, 20),
    (Fhe16BinaryOp::AddPowTwo, 21),
    (Fhe16BinaryOp::SubPowTwo, 22),
    (Fhe16BinaryOp::GateTemplate, 23),
    (Fhe16BinaryOp::PrefixTemplate, 24),
    (Fhe16BinaryOp::AddPowTwoTemplate, 25),
    (Fhe16BinaryOp::OrXor, 26),
    (Fhe16BinaryOp::AndXor, 27),
];

const TERNARY_REGISTRY: [(Fhe16TernaryOp, u8); 5] = [
    (Fhe16TernaryOp::Add3, 0),
    (Fhe16TernaryOp::Eq3, 1),
    (Fhe16TernaryOp::Maj3, 2),
    (Fhe16TernaryOp::Xor3, 3),
    (Fhe16TernaryOp::Select, 4),
];

#[test]
fn unary_discriminants_are_pinned_and_round_trip() {
    for (op, byte) in UNARY_REGISTRY {
        assert_eq!(op.discriminant(), byte);
        assert_eq!(Fhe16UnaryOp::from_discriminant(byte), Some(op));
    }
}

#[test]
fn binary_discriminants_are_pinned_and_round_trip() {
    for (op, byte) in BINARY_REGISTRY {
        assert_eq!(op.discriminant(), byte);
        assert_eq!(Fhe16BinaryOp::from_discriminant(byte), Some(op));
    }
}

#[test]
fn ternary_discriminants_are_pinned_and_round_trip() {
    for (op, byte) in TERNARY_REGISTRY {
        assert_eq!(op.discriminant(), byte);
        assert_eq!(Fhe16TernaryOp::from_discriminant(byte), Some(op));
    }
}

#[test]
fn bytes_outside_the_catalogs_are_rejected() {
    for b in 3..=255u8 {
        assert_eq!(Fhe16UnaryOp::from_discriminant(b), None);
    }
    for b in 28..=255u8 {
        assert_eq!(Fhe16BinaryOp::from_discriminant(b), None);
    }
    for b in 5..=255u8 {
        assert_eq!(Fhe16TernaryOp::from_discriminant(b), None);
    }
}
