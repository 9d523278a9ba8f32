//! The immutable records the request layer emits, and the append-only log
//! they persist in.
//!
//! A record is never mutated or removed once emitted; a result handle in one
//! record becomes an operand handle in a later one, so the whole computation
//! graph is reconstructable from record contents and emission order alone.
//! The host platform persists records per atomic unit, all-or-nothing:
//! [`EventLog::resolve_unit`] states that boundary.

use vstd::prelude::*;

use crate::types::{Fhe16BinaryOp, Fhe16TernaryOp, Fhe16UnaryOp, Handle, Pubkey};
use crate::workflow::{DepositCompleted, WithdrawCompleted};

verus! {

/// A caller registered an externally supplied input handle under a
/// client-chosen opaque tag. No well-formedness of the handle is checked:
/// registration is permissionless by design.
#[derive(Clone, Copy, PartialEq, Eq, Debug)]
pub struct InputHandleRegistered {
    pub caller: Pubkey,
    pub handle: Handle,
    pub client_tag: [u8; 32],
}

/// A caller requested a unary operation over one operand handle.
#[derive(Clone, Copy, PartialEq, Eq, Debug)]
pub struct Fhe16UnaryOpRequested {
    pub caller: Pubkey,
    pub op: Fhe16UnaryOp,
    pub input_handle: Handle,
    pub result_handle: Handle,
}

/// A caller requested a binary operation over two ordered operand handles.
#[derive(Clone, Copy, PartialEq, Eq, Debug)]
pub struct Fhe16BinaryOpRequested {
    pub caller: Pubkey,
    pub op: Fhe16BinaryOp,
    pub lhs_handle: Handle,
    pub rhs_handle: Handle,
    pub result_handle: Handle,
}

/// A caller requested a ternary operation over three ordered operand handles.
#[derive(Clone, Copy, PartialEq, Eq, Debug)]
pub struct Fhe16TernaryOpRequested {
    pub caller: Pubkey,
    pub op: Fhe16TernaryOp,
    pub a_handle: Handle,
    pub b_handle: Handle,
    pub c_handle: Handle,
    pub result_handle: Handle,
}

/// One immutable entry of the append-only log.
#[derive(Clone, Copy, PartialEq, Eq, Debug)]
pub enum Record {
    InputRegistered(InputHandleRegistered),
    UnaryRequested(Fhe16UnaryOpRequested),
    BinaryRequested(Fhe16BinaryOpRequested),
    TernaryRequested(Fhe16TernaryOpRequested),
    WithdrawDone(WithdrawCompleted),
    DepositDone(DepositCompleted),
}

/// An append-only log of emitted records. The same type serves both as the
/// persistent log and as the staging area of one atomic unit: records of a
/// unit are gathered in a fresh log and reach the persistent one only through
/// [`EventLog::resolve_unit`].
pub struct EventLog {
    records: Vec<Record>,
}

impl View for EventLog {
    type V = Seq<Record>;

    closed spec fn view(&self) -> Seq<Record> {
        self.records@
    }
}

impl EventLog {
    /// An empty log.
    pub fn new() -> (log: EventLog)
        ensures
            log@ == Seq::<Record>::empty(),
    {
        EventLog { records: Vec::new() }
    }

    /// Appends one record. Emission is the only way the log ever changes
    /// within a unit: records already present are never touched.
    pub fn emit(&mut self, rec: Record)
        ensures
            final(self)@ == old(self)@.push(rec),
    {
        self.records.push(rec);
    }

    /// The number of records emitted so far.
    pub fn len(&self) -> (n: usize)
        ensures
            n == self@.len(),
    {
        self.records.len()
    }

    /// The record at position `i` in emission order.
    pub fn record_at(&self, i: usize) -> (rec: Record)
        requires
            i < self@.len(),
        ensures
            rec == self@[i as int],
    {
        self.records[i]
    }

    /// Applies the host platform's all-or-nothing rule to one atomic unit:
    /// a unit that succeeded is appended whole, in emission order and
    /// contiguously; a unit any of whose steps failed leaves the log exactly
    /// as it was, so no record of that unit ever persists.
    pub fn resolve_unit(&mut self, unit: EventLog, succeeded: bool)
        ensures
            succeeded ==> final(self)@ == old(self)@ + unit@,
            !succeeded ==> final(self)@ == old(self)@,
    {
        if succeeded {
            let mut staged = unit.records;
            self.records.append(&mut staged);
        }
    }
}

} // verus!
