//! The composition layer: multi-step computation graphs built inside one
//! atomic unit, chaining result handles of earlier steps as operands of later
//! steps.
//!
//! Each step invokes the request layer as a same-process call; the records of
//! one workflow invocation therefore appear in a fixed order, contiguously,
//! inside the unit, and the host platform persists or discards the unit whole
//! (see [`EventLog::resolve_unit`]). The dependency subgraph of an invocation
//! is reconstructable from record contents and order alone.

use vstd::prelude::*;

use crate::events::{EventLog, Record};
use crate::handle::{spec_derive_binary, spec_derive_ternary};
use crate::requests::{request_binary_op, request_ternary_op};
use crate::types::{Fhe16BinaryOp, Fhe16TernaryOp, Handle, Pubkey};

verus! {

/// A completed conditional withdrawal: carries the original operands and
/// every intermediate and final handle, so the whole three-node dependency
/// graph can be audited from this one record without replaying the three
/// constituent operation records.
#[derive(Clone, Copy, PartialEq, Eq, Debug)]
pub struct WithdrawCompleted {
    pub caller: Pubkey,
    pub usdc_balance: Handle,
    pub withdraw_amount: Handle,
    pub ge_result_handle: Handle,
    pub sub_result_handle: Handle,
    pub final_handle: Handle,
}

/// A completed deposit: carries the original operands and the final handle.
#[derive(Clone, Copy, PartialEq, Eq, Debug)]
pub struct DepositCompleted {
    pub caller: Pubkey,
    pub sol_balance: Handle,
    pub deposit_amount: Handle,
    pub final_handle: Handle,
}

/// The record is a binary request by `caller` under `program_id` for `op`
/// over exactly the given ordered operands, with the correctly derived
/// result handle.
pub open spec fn is_binary_request(
    rec: Record,
    caller: Pubkey,
    program_id: Seq<u8>,
    op: Fhe16BinaryOp,
    lhs: Seq<u8>,
    rhs: Seq<u8>,
) -> bool {
    &&& rec matches Record::BinaryRequested(r)
    &&& r.caller == caller
    &&& r.op == op
    &&& r.lhs_handle@ == lhs
    &&& r.rhs_handle@ == rhs
    &&& r.result_handle@ == spec_derive_binary(program_id, op, lhs, rhs)
}

/// The record is a ternary request by `caller` under `program_id` for `op`
/// over exactly the given ordered operands, with the correctly derived
/// result handle.
pub open spec fn is_ternary_request(
    rec: Record,
    caller: Pubkey,
    program_id: Seq<u8>,
    op: Fhe16TernaryOp,
    a: Seq<u8>,
    b: Seq<u8>,
    c: Seq<u8>,
) -> bool {
    &&& rec matches Record::TernaryRequested(r)
    &&& r.caller == caller
    &&& r.op == op
    &&& r.a_handle@ == a
    &&& r.b_handle@ == b
    &&& r.c_handle@ == c
    &&& r.result_handle@ == spec_derive_ternary(program_id, op, a, b, c)
}

/// The record is the completion record of a withdrawal of `amount` from
/// `balance` by `caller` under `program_id`: every handle it embeds equals
/// the handle derived for the corresponding step of the workflow.
pub open spec fn is_withdraw_completion(
    rec: Record,
    caller: Pubkey,
    program_id: Seq<u8>,
    balance: Seq<u8>,
    amount: Seq<u8>,
) -> bool {
    &&& rec matches Record::WithdrawDone(w)
    &&& w.caller == caller
    &&& w.usdc_balance@ == balance
    &&& w.withdraw_amount@ == amount
    &&& w.ge_result_handle@ == spec_derive_binary(program_id, Fhe16BinaryOp::Ge, balance, amount)
    &&& w.sub_result_handle@ == spec_derive_binary(program_id, Fhe16BinaryOp::Sub, balance, amount)
    &&& w.final_handle@ == spec_derive_ternary(
        program_id,
        Fhe16TernaryOp::Select,
        spec_derive_binary(program_id, Fhe16BinaryOp::Ge, balance, amount),
        spec_derive_binary(program_id, Fhe16BinaryOp::Sub, balance, amount),
        balance,
    )
}

/// The record is the completion record of a deposit of `amount` onto
/// `balance` by `caller` under `program_id`.
pub open spec fn is_deposit_completion(
    rec: Record,
    caller: Pubkey,
    program_id: Seq<u8>,
    balance: Seq<u8>,
    amount: Seq<u8>,
) -> bool {
    &&& rec matches Record::DepositDone(d)
    &&& d.caller == caller
    &&& d.sol_balance@ == balance
    &&& d.deposit_amount@ == amount
    &&& d.final_handle@ == spec_derive_binary(program_id, Fhe16BinaryOp::Add, balance, amount)
}

/// Conditional balance update in one atomic unit: requests
/// `Ge(balance, amount)` and `Sub(balance, amount)` independently, then a
/// `Select` whose operands are the two result handles and the original
/// balance, and closes the unit with a completion record carrying every
/// handle. The final handle names "balance - amount if the comparison holds,
/// else balance unchanged".
///
/// Exactly four records are emitted, in this fixed order, after everything
/// the unit already held; no record already in the unit is touched.
pub fn withdraw(
    log: &mut EventLog,
    caller: Pubkey,
    host_program_id: Pubkey,
    usdc_balance: Handle,
    withdraw_amount: Handle,
) -> (final_handle: Handle)
    ensures
        final(log)@.len() == old(log)@.len() + 4,
        final(log)@.subrange(0, old(log)@.len() as int) == old(log)@,
        is_binary_request(
            final(log)@[old(log)@.len() as int],
            caller,
            host_program_id@,
            Fhe16BinaryOp::Ge,
            usdc_balance@,
            withdraw_amount@,
        ),
        is_binary_request(
            final(log)@[old(log)@.len() as int + 1],
            caller,
            host_program_id@,
            Fhe16BinaryOp::Sub,
            usdc_balance@,
            withdraw_amount@,
        ),
        is_ternary_request(
            final(log)@[old(log)@.len() as int + 2],
            caller,
            host_program_id@,
            Fhe16TernaryOp::Select,
            spec_derive_binary(host_program_id@, Fhe16BinaryOp::Ge, usdc_balance@, withdraw_amount@),
            spec_derive_binary(host_program_id@, Fhe16BinaryOp::Sub, usdc_balance@, withdraw_amount@),
            usdc_balance@,
        ),
        is_withdraw_completion(
            final(log)@[old(log)@.len() as int + 3],
            caller,
            host_program_id@,
            usdc_balance@,
            withdraw_amount@,
        ),
        final_handle@ == spec_derive_ternary(
            host_program_id@,
            Fhe16TernaryOp::Select,
            spec_derive_binary(host_program_id@, Fhe16BinaryOp::Ge, usdc_balance@, withdraw_amount@),
            spec_derive_binary(host_program_id@, Fhe16BinaryOp::Sub, usdc_balance@, withdraw_amount@),
            usdc_balance@,
        ),
{
    let ge_handle = request_binary_op(
        log,
        caller,
        host_program_id,
        Fhe16BinaryOp::Ge,
        usdc_balance,
        withdraw_amount,
    );
    let sub_handle = request_binary_op(
        log,
        caller,
        host_program_id,
        Fhe16BinaryOp::Sub,
        usdc_balance,
        withdraw_amount,
    );
    let final_handle = request_ternary_op(
        log,
        caller,
        host_program_id,
        Fhe16TernaryOp::Select,
        ge_handle,
        sub_handle,
        usdc_balance,
    );
    log.emit(
        Record::WithdrawDone(
            WithdrawCompleted {
                caller,
                usdc_balance,
                withdraw_amount,
                ge_result_handle: ge_handle,
                sub_result_handle: sub_handle,
                final_handle,
            },
        ),
    );
    proof {
        assert(log@.subrange(0, old(log)@.len() as int) =~= old(log)@);
    }
    final_handle
}

/// Balance addition in one atomic unit: requests `Add(balance, amount)` and
/// closes the unit with a completion record. Exactly two records are emitted,
/// in this fixed order, after everything the unit already held.
pub fn deposit(
    log: &mut EventLog,
    caller: Pubkey,
    host_program_id: Pubkey,
    sol_balance: Handle,
    deposit_amount: Handle,
) -> (final_handle: Handle)
    ensures
        final(log)@.len() == old(log)@.len() + 2,
        final(log)@.subrange(0, old(log)@.len() as int) == old(log)@,
        is_binary_request(
            final(log)@[old(log)@.len() as int],
            caller,
            host_program_id@,
            Fhe16BinaryOp::Add,
            sol_balance@,
            deposit_amount@,
        ),
        is_deposit_completion(
            final(log)@[old(log)@.len() as int + 1],
            caller,
            host_program_id@,
            sol_balance@,
            deposit_amount@,
        ),
        final_handle@ == spec_derive_binary(
            host_program_id@,
            Fhe16BinaryOp::Add,
            sol_balance@,
            deposit_amount@,
        ),
{
    let final_handle = request_binary_op(
        log,
        caller,
        host_program_id,
        Fhe16BinaryOp::Add,
        sol_balance,
        deposit_amount,
    );
    log.emit(
        Record::DepositDone(
            DepositCompleted { caller, sol_balance, deposit_amount, final_handle },
        ),
    );
    proof {
        assert(log@.subrange(0, old(log)@.len() as int) =~= old(log)@);
    }
    final_handle
}

/// Graph reconstruction: a withdrawal's dependency graph can be rebuilt from
/// its completion record alone. Re-deriving the comparison handle, the
/// subtraction handle and the final select handle from the operands the
/// record carries yields exactly the handles the record embeds.
pub proof fn lemma_withdraw_graph_reconstruction(
    rec: Record,
    caller: Pubkey,
    program_id: Seq<u8>,
    balance: Seq<u8>,
    amount: Seq<u8>,
)
    requires
        is_withdraw_completion(rec, caller, program_id, balance, amount),
    ensures
        rec matches Record::WithdrawDone(w) ==> {
            &&& w.ge_result_handle@ == spec_derive_binary(
                program_id,
                Fhe16BinaryOp::Ge,
                w.usdc_balance@,
                w.withdraw_amount@,
            )
            &&& w.sub_result_handle@ == spec_derive_binary(
                program_id,
                Fhe16BinaryOp::Sub,
                w.usdc_balance@,
                w.withdraw_amount@,
            )
            &&& w.final_handle@ == spec_derive_ternary(
                program_id,
                Fhe16TernaryOp::Select,
                w.ge_result_handle@,
                w.sub_result_handle@,
                w.usdc_balance@,
            )
        },
{
}

} // verus!
