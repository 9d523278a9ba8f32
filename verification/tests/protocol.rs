use host_programs::events::{EventLog, Record};
use host_programs::handle::{derive_binary_handle, derive_ternary_handle, derive_unary_handle};
use host_programs::requests::{
    initialize, register_input_handle, request_binary_op, request_ternary_op, request_unary_op,
};
use host_programs::types::{Fhe16BinaryOp, Fhe16TernaryOp, Fhe16UnaryOp, Handle, Pubkey};
use host_programs::workflow::{deposit, withdraw};

const CALLER: Pubkey = [0xC1; 32];
const HOST_PID: Pubkey = [0x1D; 32];

#[test]
fn initialize_starts_with_an_empty_log() {
    let log = initialize();
    assert_eq!(log.len(), 0);
}

#[test]
fn register_input_handle_emits_one_record() {
    let mut log = initialize();
    let handle: Handle = [0x42; 32];
    let client_tag: [u8; 32] = [0x99; 32];
    register_input_handle(&mut log, CALLER, handle, client_tag);
    assert_eq!(log.len(), 1);
    match log.record_at(0) {
        Record::InputRegistered(r) => {
            assert_eq!(r.caller, CALLER);
            assert_eq!(r.handle, handle);
            assert_eq!(r.client_tag, client_tag);
        }
        other => panic!("unexpected record: {:?}", other),
    }
}

#[test]
fn request_unary_op_emits_the_derived_handle() {
    let mut log = initialize();
    let input: Handle = [0x42; 32];
    let result = request_unary_op(&mut log, CALLER, HOST_PID, Fhe16UnaryOp::Abs, input);
    assert_eq!(result, derive_unary_handle(Fhe16UnaryOp::Abs, &input, &HOST_PID));
    assert_eq!(log.len(), 1);
    match log.record_at(0) {
        Record::UnaryRequested(r) => {
            assert_eq!(r.caller, CALLER);
            assert_eq!(r.op, Fhe16UnaryOp::Abs);
            assert_eq!(r.input_handle, input);
            assert_eq!(r.result_handle, result);
        }
        other => panic!("unexpected record: {:?}", other),
    }
}

#[test]
fn request_binary_op_emits_the_derived_handle() {
    let mut log = initialize();
    let lhs: Handle = [0x42; 32];
    let rhs: Handle = [0x43; 32];
    let result = request_binary_op(&mut log, CALLER, HOST_PID, Fhe16BinaryOp::Xor, lhs, rhs);
    assert_eq!(result, derive_binary_handle(Fhe16BinaryOp::Xor, &lhs, &rhs, &HOST_PID));
    assert_eq!(log.len(), 1);
    match log.record_at(0) {
        Record::BinaryRequested(r) => {
            assert_eq!(r.caller, CALLER);
            assert_eq!(r.op, Fhe16BinaryOp::Xor);
            assert_eq!(r.lhs_handle, lhs);
            assert_eq!(r.rhs_handle, rhs);
            assert_eq!(r.result_handle, result);
        }
        other => panic!("unexpected record: {:?}", other),
    }
}

#[test]
fn request_ternary_op_emits_the_derived_handle() {
    let mut log = initialize();
    let a: Handle = [0x42; 32];
    let b: Handle = [0x43; 32];
    let c: Handle = [0x44; 32];
    let result = request_ternary_op(&mut log, CALLER, HOST_PID, Fhe16TernaryOp::Maj3, a, b, c);
    assert_eq!(result, derive_ternary_handle(Fhe16TernaryOp::Maj3, &a, &b, &c, &HOST_PID));
    assert_eq!(log.len(), 1);
    match log.record_at(0) {
        Record::TernaryRequested(r) => {
            assert_eq!(r.caller, CALLER);
            assert_eq!(r.op, Fhe16TernaryOp::Maj3);
            assert_eq!(r.a_handle, a);
            assert_eq!(r.b_handle, b);
            assert_eq!(r.c_handle, c);
            assert_eq!(r.result_handle, result);
        }
        other => panic!("unexpected record: {:?}", other),
    }
}

#[test]
fn withdraw_graph_is_reconstructable_from_the_completion_record() {
    // Balance and amount stand for plaintexts with amount <= balance; the
    // derivation itself never looks inside either handle.
    let balance: Handle = [0xB0; 32];
    let amount: Handle = [0x0A; 32];
    let mut unit = EventLog::new();
    let final_handle = withdraw(&mut unit, CALLER, HOST_PID, balance, amount);
    assert_eq!(unit.len(), 4);

    // Recompute the three-node dependency graph independently.
    let ge = derive_binary_handle(Fhe16BinaryOp::Ge, &balance, &amount, &HOST_PID);
    let sub = derive_binary_handle(Fhe16BinaryOp::Sub, &balance, &amount, &HOST_PID);
    let fin = derive_ternary_handle(Fhe16TernaryOp::Select, &ge, &sub, &balance, &HOST_PID);

    assert_eq!(final_handle, fin);
    match log_completion(&unit) {
        Some((w_ge, w_sub, w_fin, w_balance, w_amount)) => {
            assert_eq!(w_balance, balance);
            assert_eq!(w_amount, amount);
            assert_eq!(w_ge, ge);
            assert_eq!(w_sub, sub);
            assert_eq!(w_fin, fin);
        }
        None => panic!("no completion record emitted"),
    }
}

fn log_completion(unit: &EventLog) -> Option<(Handle, Handle, Handle, Handle, Handle)> {
    match unit.record_at(3) {
        Record::WithdrawDone(w) => Some((
            w.ge_result_handle,
            w.sub_result_handle,
            w.final_handle,
            w.usdc_balance,
            w.withdraw_amount,
        )),
        _ => None,
    }
}

#[test]
fn withdraw_emits_its_steps_in_fixed_order() {
    let balance: Handle = [0xB0; 32];
    let amount: Handle = [0x0A; 32];
    let mut unit = EventLog::new();
    withdraw(&mut unit, CALLER, HOST_PID, balance, amount);
    assert_eq!(unit.len(), 4);

    let ge = derive_binary_handle(Fhe16BinaryOp::Ge, &balance, &amount, &HOST_PID);
    let sub = derive_binary_handle(Fhe16BinaryOp::Sub, &balance, &amount, &HOST_PID);

    match unit.record_at(0) {
        Record::BinaryRequested(r) => {
            assert_eq!(r.op, Fhe16BinaryOp::Ge);
            assert_eq!(r.lhs_handle, balance);
            assert_eq!(r.rhs_handle, amount);
            assert_eq!(r.result_handle, ge);
        }
        other => panic!("step 1: unexpected record {:?}", other),
    }
    match unit.record_at(1) {
        Record::BinaryRequested(r) => {
            assert_eq!(r.op, Fhe16BinaryOp::Sub);
            assert_eq!(r.result_handle, sub);
        }
        other => panic!("step 2: unexpected record {:?}", other),
    }
    match unit.record_at(2) {
        Record::TernaryRequested(r) => {
            assert_eq!(r.op, Fhe16TernaryOp::Select);
            // Later steps chain the result handles of earlier steps.
            assert_eq!(r.a_handle, ge);
            assert_eq!(r.b_handle, sub);
            assert_eq!(r.c_handle, balance);
        }
        other => panic!("step 3: unexpected record {:?}", other),
    }
}

#[test]
fn deposit_emits_request_then_completion() {
    let balance: Handle = [0xB0; 32];
    let amount: Handle = [0x0A; 32];
    let mut unit = EventLog::new();
    let final_handle = deposit(&mut unit, CALLER, HOST_PID, balance, amount);
    assert_eq!(unit.len(), 2);
    assert_eq!(
        final_handle,
        derive_binary_handle(Fhe16BinaryOp::Add, &balance, &amount, &HOST_PID)
    );
    match unit.record_at(0) {
        Record::BinaryRequested(r) => {
            assert_eq!(r.op, Fhe16BinaryOp::Add);
            assert_eq!(r.result_handle, final_handle);
        }
        other => panic!("unexpected record: {:?}", other),
    }
    match unit.record_at(1) {
        Record::DepositDone(d) => {
            assert_eq!(d.caller, CALLER);
            assert_eq!(d.sol_balance, balance);
            assert_eq!(d.deposit_amount, amount);
            assert_eq!(d.final_handle, final_handle);
        }
        other => panic!("unexpected record: {:?}", other),
    }
}

#[test]
fn failed_unit_leaves_zero_records_in_the_log() {
    let mut log = initialize();
    register_input_handle(&mut log, CALLER, [0x42; 32], [0x99; 32]);
    assert_eq!(log.len(), 1);

    // Run a whole withdrawal in its own atomic unit, then let its final
    // select step fail: the platform discards the unit, and no record of any
    // step of that invocation persists.
    let mut unit = EventLog::new();
    withdraw(&mut unit, CALLER, HOST_PID, [0xB0; 32], [0x0A; 32]);
    assert_eq!(unit.len(), 4);
    log.resolve_unit(unit, false);
    assert_eq!(log.len(), 1);
    match log.record_at(0) {
        Record::InputRegistered(_) => {}
        other => panic!("prior record was disturbed: {:?}", other),
    }
}

#[test]
fn successful_unit_is_appended_whole_and_in_order() {
    let mut log = initialize();
    register_input_handle(&mut log, CALLER, [0x42; 32], [0x99; 32]);

    let mut unit = EventLog::new();
    withdraw(&mut unit, CALLER, HOST_PID, [0xB0; 32], [0x0A; 32]);
    log.resolve_unit(unit, true);
    assert_eq!(log.len(), 5);
    match log.record_at(1) {
        Record::BinaryRequested(r) => assert_eq!(r.op, Fhe16BinaryOp::Ge),
        other => panic!("unexpected record: {:?}", other),
    }
    match log.record_at(4) {
        Record::WithdrawDone(_) => {}
        other => panic!("unexpected record: {:?}", other),
    }
}
