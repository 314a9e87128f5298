//! The swap record, its registry key, and their mathematical views.

use vstd::prelude::*;
use vstd::slice::slice_to_vec;

verus! {

/// Where a swap stands in its life. `Open` is the only state that can still
/// change; the other two are final.
#[derive(Clone, Copy, Debug, PartialEq, Eq, Structural)]
pub enum SwapStatus {
    Open,
    Withdrawn,
    Refunded,
}

/// The key under which the registry files a swap: its identifier, qualified
/// by the kind of entry.
#[derive(Debug, PartialEq, Eq)]
pub enum DataKey {
    Swap(Vec<u8>),
}

impl View for DataKey {
    type V = Seq<u8>;

    /// The swap identifier that the key names.
    open spec fn view(&self) -> Seq<u8> {
        match self {
            DataKey::Swap(id) => id@,
        }
    }
}

impl DataKey {
    /// The key of the swap called `swap_id`.
    pub fn for_swap(swap_id: &[u8]) -> (key: DataKey)
        ensures
            key@ == swap_id@,
    {
        DataKey::Swap(slice_to_vec(swap_id))
    }

    /// The identifier inside the key.
    pub fn swap_id(&self) -> (id: &[u8])
        ensures
            id@ == self@,
    {
        match self {
            DataKey::Swap(id) => id.as_slice(),
        }
    }
}

impl Clone for DataKey {
    fn clone(&self) -> (copy: DataKey)
        ensures
            copy@ == self@,
    {
        DataKey::for_swap(self.swap_id())
    }
}

/// A swap as the rules see it: byte strings as sequences, numbers unbounded.
pub struct SwapView {
    pub sender: Seq<u8>,
    pub recipient: Seq<u8>,
    pub token: Seq<u8>,
    pub amount: int,
    pub hashlock: Seq<u8>,
    pub timelock: int,
    pub preimage: Option<Seq<u8>>,
    pub status: SwapStatus,
}

impl SwapView {
    /// What holds of every stored swap: a positive amount, a hashlock of
    /// digest length, and a disclosed preimage exactly when withdrawn.
    pub open spec fn valid(self) -> bool {
        &&& self.amount > 0
        &&& self.hashlock.len() == 32
        &&& (self.preimage is Some <==> self.status == SwapStatus::Withdrawn)
    }

    /// A freshly created swap.
    pub open spec fn opened(
        sender: Seq<u8>,
        recipient: Seq<u8>,
        token: Seq<u8>,
        amount: int,
        hashlock: Seq<u8>,
        timelock: int,
    ) -> SwapView {
        SwapView {
            sender,
            recipient,
            token,
            amount,
            hashlock,
            timelock,
            preimage: None,
            status: SwapStatus::Open,
        }
    }

    /// This swap after the recipient claimed it with `preimage`.
    pub open spec fn withdrawn(self, preimage: Seq<u8>) -> SwapView {
        SwapView { preimage: Some(preimage), status: SwapStatus::Withdrawn, ..self }
    }

    /// This swap after the sender took the funds back.
    pub open spec fn refunded(self) -> SwapView {
        SwapView { status: SwapStatus::Refunded, ..self }
    }
}

/// One escrowed swap.
#[derive(Debug, PartialEq, Eq)]
pub struct HTLCSwap {
    /// Who funded the swap and may reclaim it after the deadline.
    pub sender: Vec<u8>,
    /// Who may claim it with the preimage before the deadline.
    pub recipient: Vec<u8>,
    /// The asset held in escrow.
    pub token: Vec<u8>,
    pub amount: i128,
    /// SHA-256 digest of the secret preimage.
    pub hashlock: Vec<u8>,
    /// From this time on the swap can be refunded and no longer withdrawn.
    pub timelock: u64,
    /// The preimage that a withdrawal disclosed.
    pub preimage: Option<Vec<u8>>,
    pub status: SwapStatus,
}

impl View for HTLCSwap {
    type V = SwapView;

    open spec fn view(&self) -> SwapView {
        SwapView {
            sender: self.sender@,
            recipient: self.recipient@,
            token: self.token@,
            amount: self.amount as int,
            hashlock: self.hashlock@,
            timelock: self.timelock as int,
            preimage: match self.preimage {
                Some(p) => Some(p@),
                None => None,
            },
            status: self.status,
        }
    }
}

impl Clone for HTLCSwap {
    fn clone(&self) -> (copy: HTLCSwap)
        ensures
            copy@ == self@,
    {
        let preimage = match &self.preimage {
            Some(p) => Some(slice_to_vec(p.as_slice())),
            None => None,
        };
        HTLCSwap {
            sender: slice_to_vec(self.sender.as_slice()),
            recipient: slice_to_vec(self.recipient.as_slice()),
            token: slice_to_vec(self.token.as_slice()),
            amount: self.amount,
            hashlock: slice_to_vec(self.hashlock.as_slice()),
            timelock: self.timelock,
            preimage,
            status: self.status,
        }
    }
}

impl HTLCSwap {
    /// Whether the record could have come out of the state machine: see
    /// `SwapView::valid`.
    pub fn is_valid(&self) -> (valid: bool)
        ensures
            valid == self@.valid(),
    {
        let disclosed = self.preimage.is_some();
        self.amount > 0 && self.hashlock.len() == 32 && disclosed == self.is_withdrawn()
    }

    /// Whether the swap can still be withdrawn or refunded.
    pub fn is_open(&self) -> (open: bool)
        ensures
            open == (self@.status == SwapStatus::Open),
    {
        match self.status {
            SwapStatus::Open => true,
            _ => false,
        }
    }

    /// Whether the recipient has claimed the funds.
    pub fn is_withdrawn(&self) -> (withdrawn: bool)
        ensures
            withdrawn == (self@.status == SwapStatus::Withdrawn),
    {
        match self.status {
            SwapStatus::Withdrawn => true,
            _ => false,
        }
    }

    /// Whether the sender has taken the funds back.
    pub fn is_refunded(&self) -> (refunded: bool)
        ensures
            refunded == (self@.status == SwapStatus::Refunded),
    {
        match self.status {
            SwapStatus::Refunded => true,
            _ => false,
        }
    }
}

} // verus!
