//! The rules of the swap state machine, over the mathematical model.
//!
//! Each operation is a function from the registry, the operation's arguments
//! and the host's report to a result and the registry afterwards. A refused
//! step leaves the registry as it was.

use crate::error::HtlcError;
use crate::host::{Action, ActionView, Direction, EventView, HostReport, LedgerReply, TransferView};
use crate::swap::{SwapStatus, SwapView};
use vstd::prelude::*;

verus! {

/// The outcome of one step: what the caller gets, and the registry after it.
pub struct Step {
    pub result: Result<ActionView, HtlcError>,
    pub swaps: Map<Seq<u8>, SwapView>,
}

impl Step {
    /// The step asks the host to carry out a transfer.
    pub open spec fn asks_transfer(self) -> bool {
        self.result matches Ok(ActionView::Transfer(_))
    }

    /// The step completed the operation and answers its event.
    pub open spec fn commits(self) -> bool {
        self.result matches Ok(ActionView::Emit(_))
    }
}

/// Every record in the registry is valid.
pub open spec fn all_valid(swaps: Map<Seq<u8>, SwapView>) -> bool {
    forall|id: Seq<u8>| swaps.contains_key(id) ==> (#[trigger] swaps[id]).valid()
}

/// An executable outcome agrees with a step of the model.
pub open spec fn follows(
    outcome: Result<Action, HtlcError>,
    swaps: Map<Seq<u8>, SwapView>,
    step: Step,
) -> bool {
    &&& swaps == step.swaps
    &&& match outcome {
        Ok(action) => step.result == Ok::<ActionView, HtlcError>(action@),
        Err(error) => step.result == Err::<ActionView, HtlcError>(error),
    }
}

/// Once every precondition holds, the ledger's reply decides: ask for the
/// transfer, give up, or commit the change and announce it.
pub open spec fn settle(
    swaps: Map<Seq<u8>, SwapView>,
    ledger: LedgerReply,
    transfer: TransferView,
    swap_id: Seq<u8>,
    updated: SwapView,
    event: EventView,
) -> Step {
    match ledger {
        LedgerReply::NotAsked => Step { result: Ok(ActionView::Transfer(transfer)), swaps },
        LedgerReply::Refused => Step { result: Err(HtlcError::AssetTransferFailed), swaps },
        LedgerReply::Moved => Step {
            result: Ok(ActionView::Emit(event)),
            swaps: swaps.insert(swap_id, updated),
        },
    }
}

/// The first precondition of `create_swap` that fails, if any, in the order:
/// authorization, amount, hashlock length, timelock, identifier.
pub open spec fn create_refusal(
    swaps: Map<Seq<u8>, SwapView>,
    swap_id: Seq<u8>,
    amount: int,
    hashlock: Seq<u8>,
    timelock: int,
    host: HostReport,
) -> Option<HtlcError> {
    if !host.authorized {
        Some(HtlcError::AuthorizationFailed)
    } else if amount <= 0 {
        Some(HtlcError::InvalidAmount)
    } else if hashlock.len() != 32 {
        Some(HtlcError::InvalidHashlockLength)
    } else if timelock <= host.timestamp {
        Some(HtlcError::InvalidTimelock)
    } else if swaps.contains_key(swap_id) {
        Some(HtlcError::DuplicateSwapId)
    } else {
        None
    }
}

/// One step of `create_swap`.
pub open spec fn create_step(
    swaps: Map<Seq<u8>, SwapView>,
    swap_id: Seq<u8>,
    sender: Seq<u8>,
    recipient: Seq<u8>,
    token: Seq<u8>,
    amount: int,
    hashlock: Seq<u8>,
    timelock: int,
    host: HostReport,
) -> Step {
    match create_refusal(swaps, swap_id, amount, hashlock, timelock, host) {
        Some(error) => Step { result: Err(error), swaps },
        None => settle(
            swaps,
            host.ledger,
            TransferView { token, party: sender, amount, direction: Direction::IntoEscrow },
            swap_id,
            SwapView::opened(sender, recipient, token, amount, hashlock, timelock),
            EventView::Created { swap_id, sender, recipient, token, amount, hashlock, timelock },
        ),
    }
}

/// The refusal that a swap's status calls for, if it is no longer open.
pub open spec fn terminal_refusal(status: SwapStatus) -> Option<HtlcError> {
    match status {
        SwapStatus::Open => None,
        SwapStatus::Withdrawn => Some(HtlcError::AlreadyWithdrawn),
        SwapStatus::Refunded => Some(HtlcError::AlreadyRefunded),
    }
}

/// The first precondition of `withdraw` that fails, if any, in the order:
/// authorization, existence, status, recipient, preimage, deadline.
/// `digest` is the digest of the preimage that the caller disclosed.
pub open spec fn withdraw_refusal(
    swaps: Map<Seq<u8>, SwapView>,
    swap_id: Seq<u8>,
    recipient: Seq<u8>,
    digest: Seq<u8>,
    host: HostReport,
) -> Option<HtlcError> {
    if !host.authorized {
        Some(HtlcError::AuthorizationFailed)
    } else if !swaps.contains_key(swap_id) {
        Some(HtlcError::SwapNotFound)
    } else if swaps[swap_id].status != SwapStatus::Open {
        terminal_refusal(swaps[swap_id].status)
    } else if swaps[swap_id].recipient != recipient {
        Some(HtlcError::UnauthorizedRecipient)
    } else if digest != swaps[swap_id].hashlock {
        Some(HtlcError::InvalidPreimage)
    } else if host.timestamp >= swaps[swap_id].timelock {
        Some(HtlcError::TimelockExpired)
    } else {
        None
    }
}

/// One step of `withdraw`.
pub open spec fn withdraw_step(
    swaps: Map<Seq<u8>, SwapView>,
    swap_id: Seq<u8>,
    recipient: Seq<u8>,
    preimage: Seq<u8>,
    digest: Seq<u8>,
    host: HostReport,
) -> Step {
    match withdraw_refusal(swaps, swap_id, recipient, digest, host) {
        Some(error) => Step { result: Err(error), swaps },
        None => {
            let swap = swaps[swap_id];
            settle(
                swaps,
                host.ledger,
                TransferView {
                    token: swap.token,
                    party: recipient,
                    amount: swap.amount,
                    direction: Direction::OutOfEscrow,
                },
                swap_id,
                swap.withdrawn(preimage),
                EventView::Withdrawn {
                    swap_id,
                    sender: swap.sender,
                    recipient,
                    token: swap.token,
                    amount: swap.amount,
                    preimage,
                },
            )
        },
    }
}

/// The first precondition of `refund` that fails, if any, in the order:
/// authorization, existence, status, sender, deadline.
pub open spec fn refund_refusal(
    swaps: Map<Seq<u8>, SwapView>,
    swap_id: Seq<u8>,
    sender: Seq<u8>,
    host: HostReport,
) -> Option<HtlcError> {
    if !host.authorized {
        Some(HtlcError::AuthorizationFailed)
    } else if !swaps.contains_key(swap_id) {
        Some(HtlcError::SwapNotFound)
    } else if swaps[swap_id].status != SwapStatus::Open {
        terminal_refusal(swaps[swap_id].status)
    } else if swaps[swap_id].sender != sender {
        Some(HtlcError::UnauthorizedSender)
    } else if host.timestamp < swaps[swap_id].timelock {
        Some(HtlcError::TimelockNotExpired)
    } else {
        None
    }
}

/// One step of `refund`.
pub open spec fn refund_step(
    swaps: Map<Seq<u8>, SwapView>,
    swap_id: Seq<u8>,
    sender: Seq<u8>,
    host: HostReport,
) -> Step {
    match refund_refusal(swaps, swap_id, sender, host) {
        Some(error) => Step { result: Err(error), swaps },
        None => {
            let swap = swaps[swap_id];
            settle(
                swaps,
                host.ledger,
                TransferView {
                    token: swap.token,
                    party: sender,
                    amount: swap.amount,
                    direction: Direction::OutOfEscrow,
                },
                swap_id,
                swap.refunded(),
                EventView::Refunded {
                    swap_id,
                    sender,
                    recipient: swap.recipient,
                    token: swap.token,
                    amount: swap.amount,
                },
            )
        },
    }
}

/// An operation on the registry, with its arguments.
pub enum Operation {
    Create {
        swap_id: Seq<u8>,
        sender: Seq<u8>,
        recipient: Seq<u8>,
        token: Seq<u8>,
        amount: int,
        hashlock: Seq<u8>,
        timelock: int,
    },
    /// `digest` is the digest of `preimage`.
    Withdraw { swap_id: Seq<u8>, recipient: Seq<u8>, preimage: Seq<u8>, digest: Seq<u8> },
    Refund { swap_id: Seq<u8>, sender: Seq<u8> },
}

impl Operation {
    /// The swap that the operation is about.
    pub open spec fn swap_id(self) -> Seq<u8> {
        match self {
            Operation::Create { swap_id, .. } => swap_id,
            Operation::Withdraw { swap_id, .. } => swap_id,
            Operation::Refund { swap_id, .. } => swap_id,
        }
    }

    /// One step of the operation.
    pub open spec fn step(self, swaps: Map<Seq<u8>, SwapView>, host: HostReport) -> Step {
        match self {
            Operation::Create { swap_id, sender, recipient, token, amount, hashlock, timelock } => {
                create_step(
                    swaps,
                    swap_id,
                    sender,
                    recipient,
                    token,
                    amount,
                    hashlock,
                    timelock,
                    host,
                )
            },
            Operation::Withdraw { swap_id, recipient, preimage, digest } => withdraw_step(
                swaps,
                swap_id,
                recipient,
                preimage,
                digest,
                host,
            ),
            Operation::Refund { swap_id, sender } => refund_step(swaps, swap_id, sender, host),
        }
    }
}

/// What `verify_preimage` answers: whether `digest` is the hashlock of the
/// swap, or that there is no such swap.
pub open spec fn preimage_verdict(
    swaps: Map<Seq<u8>, SwapView>,
    swap_id: Seq<u8>,
    digest: Seq<u8>,
) -> Result<bool, HtlcError> {
    if swaps.contains_key(swap_id) {
        Ok(digest == swaps[swap_id].hashlock)
    } else {
        Err(HtlcError::SwapNotFound)
    }
}

} // verus!
