//! What passes between the contract and its host.
//!
//! The host owns the authorization check, the clock, the asset ledger and the
//! event transport. Before a step it reports what it has established; after
//! the step it carries out the action that the step answered.

use vstd::prelude::*;

verus! {

/// What became of the asset transfer that an operation asked for.
#[derive(Clone, Copy, Debug, PartialEq, Eq, Structural)]
pub enum LedgerReply {
    /// No transfer has been attempted yet.
    NotAsked,
    /// The ledger moved the funds.
    Moved,
    /// The ledger refused to move the funds.
    Refused,
}

/// The host's report to one step of an operation.
#[derive(Clone, Copy, Debug)]
pub struct HostReport {
    /// Whether the caller proved control of the identity that the operation
    /// claims: the sender for create and refund, the recipient for withdraw.
    pub authorized: bool,
    /// The current time.
    pub timestamp: u64,
    /// What became of the transfer that the operation asked for.
    pub ledger: LedgerReply,
}

/// Which way funds move between a party and the escrow.
#[derive(Clone, Copy, Debug, PartialEq, Eq, Structural)]
pub enum Direction {
    IntoEscrow,
    OutOfEscrow,
}

/// An instruction to the asset ledger.
#[derive(Debug, PartialEq, Eq)]
pub struct Transfer {
    pub token: Vec<u8>,
    /// The party on the other side of the escrow.
    pub party: Vec<u8>,
    pub amount: i128,
    pub direction: Direction,
}

/// A transfer as the rules see it.
pub struct TransferView {
    pub token: Seq<u8>,
    pub party: Seq<u8>,
    pub amount: int,
    pub direction: Direction,
}

impl View for Transfer {
    type V = TransferView;

    open spec fn view(&self) -> TransferView {
        TransferView {
            token: self.token@,
            party: self.party@,
            amount: self.amount as int,
            direction: self.direction,
        }
    }
}

/// A notification of a change that was made to a swap.
#[derive(Debug, PartialEq, Eq)]
pub enum SwapEvent {
    Created {
        swap_id: Vec<u8>,
        sender: Vec<u8>,
        recipient: Vec<u8>,
        token: Vec<u8>,
        amount: i128,
        hashlock: Vec<u8>,
        timelock: u64,
    },
    Withdrawn {
        swap_id: Vec<u8>,
        sender: Vec<u8>,
        recipient: Vec<u8>,
        token: Vec<u8>,
        amount: i128,
        preimage: Vec<u8>,
    },
    Refunded {
        swap_id: Vec<u8>,
        sender: Vec<u8>,
        recipient: Vec<u8>,
        token: Vec<u8>,
        amount: i128,
    },
}

/// An event as the rules see it.
pub enum EventView {
    Created {
        swap_id: Seq<u8>,
        sender: Seq<u8>,
        recipient: Seq<u8>,
        token: Seq<u8>,
        amount: int,
        hashlock: Seq<u8>,
        timelock: int,
    },
    Withdrawn {
        swap_id: Seq<u8>,
        sender: Seq<u8>,
        recipient: Seq<u8>,
        token: Seq<u8>,
        amount: int,
        preimage: Seq<u8>,
    },
    Refunded {
        swap_id: Seq<u8>,
        sender: Seq<u8>,
        recipient: Seq<u8>,
        token: Seq<u8>,
        amount: int,
    },
}

impl EventView {
    /// The name under which the event is published.
    pub open spec fn name(self) -> Seq<char> {
        match self {
            EventView::Created { .. } => "SWAP_CREATED"@,
            EventView::Withdrawn { .. } => "SWAP_WITHDRAWN"@,
            EventView::Refunded { .. } => "SWAP_REFUNDED"@,
        }
    }
}

impl SwapEvent {
    /// The name under which the event is published.
    pub fn name(&self) -> (name: String)
        ensures
            name@ == self@.name(),
    {
        let literal: &str = match self {
            SwapEvent::Created { .. } => "SWAP_CREATED",
            SwapEvent::Withdrawn { .. } => "SWAP_WITHDRAWN",
            SwapEvent::Refunded { .. } => "SWAP_REFUNDED",
        };
        literal.to_owned()
    }
}

impl View for SwapEvent {
    type V = EventView;

    open spec fn view(&self) -> EventView {
        match self {
            SwapEvent::Created { swap_id, sender, recipient, token, amount, hashlock, timelock } => {
                EventView::Created {
                    swap_id: swap_id@,
                    sender: sender@,
                    recipient: recipient@,
                    token: token@,
                    amount: *amount as int,
                    hashlock: hashlock@,
                    timelock: *timelock as int,
                }
            },
            SwapEvent::Withdrawn { swap_id, sender, recipient, token, amount, preimage } => {
                EventView::Withdrawn {
                    swap_id: swap_id@,
                    sender: sender@,
                    recipient: recipient@,
                    token: token@,
                    amount: *amount as int,
                    preimage: preimage@,
                }
            },
            SwapEvent::Refunded { swap_id, sender, recipient, token, amount } => {
                EventView::Refunded {
                    swap_id: swap_id@,
                    sender: sender@,
                    recipient: recipient@,
                    token: token@,
                    amount: *amount as int,
                }
            },
        }
    }
}

/// What a step asks of the host.
#[derive(Debug, PartialEq, Eq)]
pub enum Action {
    /// Carry out the transfer, then run the step again with the ledger's
    /// reply.
    Transfer(Transfer),
    /// The operation is complete and the registry updated: publish the event.
    Emit(SwapEvent),
}

/// An action as the rules see it.
pub enum ActionView {
    Transfer(TransferView),
    Emit(EventView),
}

impl View for Action {
    type V = ActionView;

    open spec fn view(&self) -> ActionView {
        match self {
            Action::Transfer(transfer) => ActionView::Transfer(transfer@),
            Action::Emit(event) => ActionView::Emit(event@),
        }
    }
}

} // verus!
