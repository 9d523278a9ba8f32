//! The request layer: four stateless entry points, each deriving a result
//! handle (where one exists) and emitting exactly one immutable record.
//!
//! No entry point checks ownership or provenance of the handles it is given:
//! the layer is permissionless by design, and it holds no registry, cache or
//! other state beyond the records it appends.

use vstd::prelude::*;

use crate::events::{
    EventLog, Fhe16BinaryOpRequested, Fhe16TernaryOpRequested, Fhe16UnaryOpRequested,
    InputHandleRegistered, Record,
};
use crate::handle::{
    derive_binary_handle, derive_ternary_handle, derive_unary_handle, spec_derive_binary,
    spec_derive_ternary, spec_derive_unary,
};
use crate::types::{Fhe16BinaryOp, Fhe16TernaryOp, Fhe16UnaryOp, Handle, Pubkey};

verus! {

/// Sets the program up with an empty log: no handle is ever stored, so an
/// empty record sequence is the whole initial state.
pub fn initialize() -> (log: EventLog)
    ensures
        log@ == Seq::<Record>::empty(),
{
    EventLog::new()
}

/// Registers an externally supplied input handle under a caller-chosen opaque
/// tag, emitting exactly one record. Nothing is validated about the handle:
/// whether it denotes well-formed ciphertext is the executor's concern.
pub fn register_input_handle(
    log: &mut EventLog,
    caller: Pubkey,
    handle: Handle,
    client_tag: [u8; 32],
)
    ensures
        final(log)@ == old(log)@.push(
            Record::InputRegistered((InputHandleRegistered { caller, handle, client_tag })),
        ),
{
    log.emit(Record::InputRegistered(InputHandleRegistered { caller, handle, client_tag }));
}

/// Derives the result handle of a unary operation under the authority
/// `program_id`, emits exactly one record carrying the caller, the operation,
/// the operand and the derived handle, and returns that handle.
pub fn request_unary_op(
    log: &mut EventLog,
    caller: Pubkey,
    program_id: Pubkey,
    op: Fhe16UnaryOp,
    input_handle: Handle,
) -> (result_handle: Handle)
    ensures
        result_handle@ == spec_derive_unary(program_id@, op, input_handle@),
        final(log)@ == old(log)@.push(
            Record::UnaryRequested(
                (Fhe16UnaryOpRequested { caller, op, input_handle, result_handle }),
            ),
        ),
{
    let result_handle = derive_unary_handle(op, &input_handle, &program_id);
    log.emit(
        Record::UnaryRequested(Fhe16UnaryOpRequested { caller, op, input_handle, result_handle }),
    );
    result_handle
}

/// Derives the result handle of a binary operation under the authority
/// `program_id`, emits exactly one record carrying the caller, the operation,
/// both operands in order and the derived handle, and returns that handle.
pub fn request_binary_op(
    log: &mut EventLog,
    caller: Pubkey,
    program_id: Pubkey,
    op: Fhe16BinaryOp,
    lhs_handle: Handle,
    rhs_handle: Handle,
) -> (result_handle: Handle)
    ensures
        result_handle@ == spec_derive_binary(program_id@, op, lhs_handle@, rhs_handle@),
        final(log)@ == old(log)@.push(
            Record::BinaryRequested(
                (Fhe16BinaryOpRequested { caller, op, lhs_handle, rhs_handle, result_handle }),
            ),
        ),
{
    let result_handle = derive_binary_handle(op, &lhs_handle, &rhs_handle, &program_id);
    log.emit(
        Record::BinaryRequested(
            Fhe16BinaryOpRequested { caller, op, lhs_handle, rhs_handle, result_handle },
        ),
    );
    result_handle
}

/// Derives the result handle of a ternary operation under the authority
/// `program_id`, emits exactly one record carrying the caller, the operation,
/// all three operands in order and the derived handle, and returns that
/// handle.
pub fn request_ternary_op(
    log: &mut EventLog,
    caller: Pubkey,
    program_id: Pubkey,
    op: Fhe16TernaryOp,
    a_handle: Handle,
    b_handle: Handle,
    c_handle: Handle,
) -> (result_handle: Handle)
    ensures
        result_handle@ == spec_derive_ternary(program_id@, op, a_handle@, b_handle@, c_handle@),
        final(log)@ == old(log)@.push(
            Record::TernaryRequested(
                (Fhe16TernaryOpRequested {
                    caller,
                    op,
                    a_handle,
                    b_handle,
                    c_handle,
                    result_handle,
                }),
            ),
        ),
{
    let result_handle = derive_ternary_handle(op, &a_handle, &b_handle, &c_handle, &program_id);
    log.emit(
        Record::TernaryRequested(
            Fhe16TernaryOpRequested { caller, op, a_handle, b_handle, c_handle, result_handle },
        ),
    );
    result_handle
}

} // verus!
