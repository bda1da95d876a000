//! The check of a message against the state of its sender, before the
//! message enters the mempool.

use crate::message::{FvmMessage, FvmMessageView};
use vstd::prelude::*;

verus! {

/// The exit code of a check that passed.
pub const OK: u32 = 0;

/// The exit code for a sender that does not exist.
pub const SYS_SENDER_INVALID: u32 = 1;

/// The exit code for a sender whose balance or sequence does not fit.
pub const SYS_SENDER_STATE_INVALID: u32 = 2;

/// The exit code for a message that is malformed.
pub const SYS_ASSERTION_FAILED: u32 = 10;

/// The largest gas limit that a message may carry.
pub const MAX_GAS_LIMIT: u64 = 0x7fff_ffff_ffff_ffff;

/// What is wrong with the form of a message.
#[derive(Clone, Copy, Debug, PartialEq, Eq, Structural)]
pub enum MessageFormError {
    /// The message has no gas limit set.
    NoGasLimit,
    /// The gas limit of the message is above the largest one.
    GasLimitTooLarge,
}

/// Whether a gas limit makes a message well formed: it is set, and not
/// above the largest one.
pub open spec fn spec_message_check(gas_limit: u64) -> Result<(), MessageFormError> {
    if gas_limit == 0 {
        Err(MessageFormError::NoGasLimit)
    } else if gas_limit > MAX_GAS_LIMIT {
        Err(MessageFormError::GasLimitTooLarge)
    } else {
        Ok(())
    }
}

/// Checks the form of a message: its gas limit has to be set, and may not
/// be above the largest one.
pub fn message_check(msg: &FvmMessage) -> (r: Result<(), MessageFormError>)
    ensures
        r == spec_message_check(msg.gas_limit),
{
    if msg.gas_limit == 0 {
        return Err(MessageFormError::NoGasLimit);
    }
    if msg.gas_limit > MAX_GAS_LIMIT {
        return Err(MessageFormError::GasLimitTooLarge);
    }
    Ok(())
}

/// What the check reads of the sender's actor.
#[derive(Clone, Copy, Debug, PartialEq, Eq, Structural)]
pub struct ActorState {
    pub balance: u128,
    pub sequence: u64,
}

/// The result of a check, as the exit code that the execution would give.
#[derive(Clone, Debug, PartialEq, Eq)]
pub struct FvmCheckRet {
    pub sender: Vec<u8>,
    pub gas_limit: u64,
    pub exit_code: u32,
    pub return_data: Option<Vec<u8>>,
    pub info: Option<String>,
    pub message: FvmMessage,
}

/// What the check decides.
#[derive(Clone, Copy, Debug, PartialEq, Eq, Structural)]
pub enum CheckVerdict {
    /// The message is refused with this exit code.
    Rejected(u32),
    /// The message is to be executed for its result.
    Execute,
    /// The message is accepted; the sender's actor becomes this.
    Accepted(ActorState),
}

/// The most that the message may cost: its fee cap for each unit of gas.
pub open spec fn balance_needed(msg: FvmMessageView) -> int {
    msg.gas_fee_cap * msg.gas_limit
}

/// The sequence after `sequence`; after the last one, zero.
pub open spec fn next_sequence(sequence: u64) -> u64 {
    if sequence == u64::MAX {
        0
    } else {
        (sequence + 1) as u64
    }
}

/// The verdict on `msg`, given the sender's actor if there is one, and
/// whether checks execute.
pub open spec fn verdict(
    msg: FvmMessageView,
    sender: Option<ActorState>,
    exec_in_check: bool,
) -> CheckVerdict {
    if spec_message_check(msg.gas_limit) is Err {
        CheckVerdict::Rejected(SYS_ASSERTION_FAILED)
    } else {
        match sender {
            None => CheckVerdict::Rejected(SYS_SENDER_INVALID),
            Some(actor) => if actor.balance < balance_needed(msg) {
                CheckVerdict::Rejected(SYS_SENDER_STATE_INVALID)
            } else if actor.sequence != msg.sequence {
                CheckVerdict::Rejected(SYS_SENDER_STATE_INVALID)
            } else if exec_in_check {
                CheckVerdict::Execute
            } else {
                CheckVerdict::Accepted(
                    ActorState {
                        balance: (actor.balance - balance_needed(msg)) as u128,
                        sequence: next_sequence(actor.sequence),
                    },
                )
            },
        }
    }
}

/// Checks `msg` against its sender: the message has to be well formed, the
/// sender has to exist, its balance has to cover the gas limit at the fee
/// cap, and its sequence has to be that of the message. An accepted message
/// takes the fee from the balance and moves the sequence on.
pub fn check_sender(msg: &FvmMessage, sender: Option<ActorState>, exec_in_check: bool) -> (v:
    CheckVerdict)
    ensures
        v == verdict(msg@, sender, exec_in_check),
{
    if message_check(msg).is_err() {
        return CheckVerdict::Rejected(SYS_ASSERTION_FAILED);
    }
    let actor = match sender {
        Some(a) => a,
        None => {
            return CheckVerdict::Rejected(SYS_SENDER_INVALID);
        },
    };
    let gas_limit: u128 = msg.gas_limit as u128;
    let most: u128 = actor.balance / gas_limit;
    assert(msg.gas_fee_cap <= most <==> msg.gas_fee_cap * gas_limit <= actor.balance)
        by (nonlinear_arith)
        requires
            gas_limit > 0,
            most == actor.balance / gas_limit,
    ;
    if msg.gas_fee_cap > most {
        return CheckVerdict::Rejected(SYS_SENDER_STATE_INVALID);
    }
    if actor.sequence != msg.sequence {
        return CheckVerdict::Rejected(SYS_SENDER_STATE_INVALID);
    }
    if exec_in_check {
        return CheckVerdict::Execute;
    }
    let needed: u128 = msg.gas_fee_cap * gas_limit;
    let sequence: u64 = if actor.sequence == u64::MAX {
        0
    } else {
        actor.sequence + 1
    };
    CheckVerdict::Accepted(ActorState { balance: actor.balance - needed, sequence })
}

/// The result of a check of `msg` that ended with `exit_code`.
pub fn checked(
    msg: &FvmMessage,
    exit_code: u32,
    return_data: Option<Vec<u8>>,
    info: Option<String>,
) -> (ret: FvmCheckRet)
    ensures
        ret.sender@ == msg.from@,
        ret.gas_limit == msg.gas_limit,
        ret.exit_code == exit_code,
        ret.return_data == return_data,
        ret.info == info,
        ret.message@ == msg@,
{
    FvmCheckRet {
        sender: crate::bytes::clone_bytes(&msg.from),
        gas_limit: msg.gas_limit,
        exit_code,
        return_data,
        info,
        message: msg.duplicate(),
    }
}

} // verus!
