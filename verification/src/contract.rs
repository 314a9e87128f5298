//! The swap state machine.
//!
//! `create_swap`, `withdraw` and `refund` each make one step. A step checks
//! every precondition first and changes nothing when one fails. When all
//! hold, the host's ledger reply decides: with `NotAsked` the step answers
//! the transfer to carry out and changes nothing; the host runs the step
//! again with `Moved`, upon which the registry is updated and the event
//! answered, or with `Refused`, upon which the operation fails.

use crate::bytes::same_bytes;
use crate::error::HtlcError;
use crate::host::{Action, Direction, HostReport, LedgerReply, SwapEvent, Transfer};
use crate::preimage::{digest_matches, host_sha256, sha256, HASHLOCK_LEN};
use crate::registry::SwapRegistry;
use crate::rules::{
    all_valid, create_step, follows, preimage_verdict, refund_step, withdraw_step,
};
use crate::swap::{DataKey, HTLCSwap, SwapStatus, SwapView};
use soroban_sdk::Env;
use vstd::prelude::*;
use vstd::slice::slice_to_vec;

verus! {

/// The escrow contract: every swap ever created, by identifier.
pub struct HTLCContract {
    registry: SwapRegistry,
}

impl View for HTLCContract {
    type V = Map<Seq<u8>, SwapView>;

    /// The swaps on record, by identifier.
    closed spec fn view(&self) -> Map<Seq<u8>, SwapView> {
        self.registry@
    }
}

impl HTLCContract {
    /// Every record on file is valid.
    #[verifier::type_invariant]
    spec fn records_valid(self) -> bool {
        all_valid(self.registry@)
    }

    /// Files a valid record under a new key.
    fn file(&mut self, key: DataKey, swap: HTLCSwap) -> (outcome: Result<(), HtlcError>)
        requires
            swap@.valid(),
        ensures
            old(self)@.contains_key(key@) ==> outcome == Err::<(), HtlcError>(
                HtlcError::DuplicateSwapId,
            ) && final(self)@ == old(self)@,
            !old(self)@.contains_key(key@) ==> outcome == Ok::<(), HtlcError>(()) && final(self)@
                == old(self)@.insert(key@, swap@),
    {
        proof {
            use_type_invariant(&*self);
        }
        let mut registry = SwapRegistry::new();
        std::mem::swap(&mut registry, &mut self.registry);
        let outcome = registry.put(key, swap);
        self.registry = registry;
        outcome
    }

    /// Replaces the record on file under `key` by a valid one.
    fn refile(&mut self, key: DataKey, swap: HTLCSwap) -> (outcome: Result<(), HtlcError>)
        requires
            swap@.valid(),
        ensures
            !old(self)@.contains_key(key@) ==> outcome == Err::<(), HtlcError>(
                HtlcError::SwapNotFound,
            ) && final(self)@ == old(self)@,
            old(self)@.contains_key(key@) ==> outcome == Ok::<(), HtlcError>(()) && final(self)@
                == old(self)@.insert(key@, swap@),
    {
        proof {
            use_type_invariant(&*self);
        }
        let mut registry = SwapRegistry::new();
        std::mem::swap(&mut registry, &mut self.registry);
        let outcome = registry.replace(key, swap);
        self.registry = registry;
        outcome
    }

    /// A contract with no swaps.
    pub fn new() -> (contract: HTLCContract)
        ensures
            contract@ == Map::<Seq<u8>, SwapView>::empty(),
    {
        HTLCContract { registry: SwapRegistry::new() }
    }

    /// Puts a record back that the host had stored away. The record is taken
    /// exactly when it is valid and its identifier is free; otherwise nothing
    /// changes.
    pub fn restore(&mut self, swap_id: &[u8], swap: HTLCSwap) -> (accepted: bool)
        ensures
            all_valid(final(self)@),
            accepted == (swap@.valid() && !old(self)@.contains_key(swap_id@)),
            accepted ==> final(self)@ == old(self)@.insert(swap_id@, swap@),
            !accepted ==> final(self)@ == old(self)@,
    {
        proof {
            use_type_invariant(&*self);
        }
        if !swap.is_valid() {
            return false;
        }
        self.file(DataKey::for_swap(swap_id), swap).is_ok()
    }

    /// Locks `amount` of `token` from `sender` for `recipient` under
    /// `hashlock`, until `timelock`.
    pub fn create_swap(
        &mut self,
        swap_id: &[u8],
        sender: &[u8],
        recipient: &[u8],
        token: &[u8],
        amount: i128,
        hashlock: &[u8],
        timelock: u64,
        host: HostReport,
    ) -> (outcome: Result<Action, HtlcError>)
        ensures
            all_valid(final(self)@),
            follows(
                outcome,
                final(self)@,
                create_step(
                    old(self)@,
                    swap_id@,
                    sender@,
                    recipient@,
                    token@,
                    amount as int,
                    hashlock@,
                    timelock as int,
                    host,
                ),
            ),
    {
        proof {
            use_type_invariant(&*self);
        }
        if !host.authorized {
            return Err(HtlcError::AuthorizationFailed);
        }
        if amount <= 0 {
            return Err(HtlcError::InvalidAmount);
        }
        if hashlock.len() != HASHLOCK_LEN {
            return Err(HtlcError::InvalidHashlockLength);
        }
        if timelock <= host.timestamp {
            return Err(HtlcError::InvalidTimelock);
        }
        let key = DataKey::for_swap(swap_id);
        if self.registry.has(&key) {
            return Err(HtlcError::DuplicateSwapId);
        }
        match host.ledger {
            LedgerReply::NotAsked => Ok(
                Action::Transfer(
                    Transfer {
                        token: slice_to_vec(token),
                        party: slice_to_vec(sender),
                        amount,
                        direction: Direction::IntoEscrow,
                    },
                ),
            ),
            LedgerReply::Refused => Err(HtlcError::AssetTransferFailed),
            LedgerReply::Moved => {
                let swap = HTLCSwap {
                    sender: slice_to_vec(sender),
                    recipient: slice_to_vec(recipient),
                    token: slice_to_vec(token),
                    amount,
                    hashlock: slice_to_vec(hashlock),
                    timelock,
                    preimage: None,
                    status: SwapStatus::Open,
                };
                let event = SwapEvent::Created {
                    swap_id: slice_to_vec(swap_id),
                    sender: slice_to_vec(sender),
                    recipient: slice_to_vec(recipient),
                    token: slice_to_vec(token),
                    amount,
                    hashlock: slice_to_vec(hashlock),
                    timelock,
                };
                match self.file(key, swap) {
                    Ok(()) => Ok(Action::Emit(event)),
                    Err(error) => Err(error),
                }
            },
        }
    }

    /// Releases the funds of a swap to `recipient`, who discloses `preimage`.
    /// The host hashes the preimage.
    pub fn withdraw(
        &mut self,
        env: &Env,
        swap_id: &[u8],
        recipient: &[u8],
        preimage: &[u8],
        host: HostReport,
    ) -> (outcome: Result<Action, HtlcError>)
        ensures
            all_valid(final(self)@),
            follows(
                outcome,
                final(self)@,
                withdraw_step(
                    old(self)@,
                    swap_id@,
                    recipient@,
                    preimage@,
                    sha256(preimage@),
                    host,
                ),
            ),
    {
        let computed = host_sha256(env, preimage);
        self.withdraw_with_digest(swap_id, recipient, preimage, computed.as_slice(), host)
    }

    /// The withdrawal step for a preimage whose digest has been computed
    /// already. `digest` is taken for the SHA-256 digest of `preimage` and is
    /// compared with the hashlock as it is: a caller that passes anything
    /// else gives up the hashlock's protection.
    pub fn withdraw_with_digest(
        &mut self,
        swap_id: &[u8],
        recipient: &[u8],
        preimage: &[u8],
        digest: &[u8],
        host: HostReport,
    ) -> (outcome: Result<Action, HtlcError>)
        ensures
            all_valid(final(self)@),
            follows(
                outcome,
                final(self)@,
                withdraw_step(old(self)@, swap_id@, recipient@, preimage@, digest@, host),
            ),
    {
        proof {
            use_type_invariant(&*self);
        }
        if !host.authorized {
            return Err(HtlcError::AuthorizationFailed);
        }
        let key = DataKey::for_swap(swap_id);
        let swap = match self.registry.get(&key) {
            Some(swap) => swap,
            None => {
                return Err(HtlcError::SwapNotFound);
            },
        };
        match swap.status {
            SwapStatus::Open => {},
            SwapStatus::Withdrawn => {
                return Err(HtlcError::AlreadyWithdrawn);
            },
            SwapStatus::Refunded => {
                return Err(HtlcError::AlreadyRefunded);
            },
        }
        if !same_bytes(swap.recipient.as_slice(), recipient) {
            return Err(HtlcError::UnauthorizedRecipient);
        }
        if !digest_matches(digest, swap.hashlock.as_slice()) {
            return Err(HtlcError::InvalidPreimage);
        }
        if host.timestamp >= swap.timelock {
            return Err(HtlcError::TimelockExpired);
        }
        match host.ledger {
            LedgerReply::NotAsked => Ok(
                Action::Transfer(
                    Transfer {
                        token: slice_to_vec(swap.token.as_slice()),
                        party: slice_to_vec(recipient),
                        amount: swap.amount,
                        direction: Direction::OutOfEscrow,
                    },
                ),
            ),
            LedgerReply::Refused => Err(HtlcError::AssetTransferFailed),
            LedgerReply::Moved => {
                let mut updated = swap.clone();
                updated.status = SwapStatus::Withdrawn;
                updated.preimage = Some(slice_to_vec(preimage));
                let event = SwapEvent::Withdrawn {
                    swap_id: slice_to_vec(swap_id),
                    sender: slice_to_vec(updated.sender.as_slice()),
                    recipient: slice_to_vec(recipient),
                    token: slice_to_vec(updated.token.as_slice()),
                    amount: updated.amount,
                    preimage: slice_to_vec(preimage),
                };
                match self.refile(key, updated) {
                    Ok(()) => Ok(Action::Emit(event)),
                    Err(error) => Err(error),
                }
            },
        }
    }

    /// Returns the funds of a swap to `sender` once the deadline has passed.
    pub fn refund(&mut self, swap_id: &[u8], sender: &[u8], host: HostReport) -> (outcome: Result<
        Action,
        HtlcError,
    >)
        ensures
            all_valid(final(self)@),
            follows(outcome, final(self)@, refund_step(old(self)@, swap_id@, sender@, host)),
    {
        proof {
            use_type_invariant(&*self);
        }
        if !host.authorized {
            return Err(HtlcError::AuthorizationFailed);
        }
        let key = DataKey::for_swap(swap_id);
        let swap = match self.registry.get(&key) {
            Some(swap) => swap,
            None => {
                return Err(HtlcError::SwapNotFound);
            },
        };
        match swap.status {
            SwapStatus::Open => {},
            SwapStatus::Withdrawn => {
                return Err(HtlcError::AlreadyWithdrawn);
            },
            SwapStatus::Refunded => {
                return Err(HtlcError::AlreadyRefunded);
            },
        }
        if !same_bytes(swap.sender.as_slice(), sender) {
            return Err(HtlcError::UnauthorizedSender);
        }
        if host.timestamp < swap.timelock {
            return Err(HtlcError::TimelockNotExpired);
        }
        match host.ledger {
            LedgerReply::NotAsked => Ok(
                Action::Transfer(
                    Transfer {
                        token: slice_to_vec(swap.token.as_slice()),
                        party: slice_to_vec(sender),
                        amount: swap.amount,
                        direction: Direction::OutOfEscrow,
                    },
                ),
            ),
            LedgerReply::Refused => Err(HtlcError::AssetTransferFailed),
            LedgerReply::Moved => {
                let mut updated = swap.clone();
                updated.status = SwapStatus::Refunded;
                let event = SwapEvent::Refunded {
                    swap_id: slice_to_vec(swap_id),
                    sender: slice_to_vec(sender),
                    recipient: slice_to_vec(updated.recipient.as_slice()),
                    token: slice_to_vec(updated.token.as_slice()),
                    amount: updated.amount,
                };
                match self.refile(key, updated) {
                    Ok(()) => Ok(Action::Emit(event)),
                    Err(error) => Err(error),
                }
            },
        }
    }

    /// The record of a swap, if it exists.
    pub fn get_swap(&self, swap_id: &[u8]) -> (record: Option<HTLCSwap>)
        ensures
            match record {
                Some(swap) => self@.contains_key(swap_id@) && swap@ == self@[swap_id@]
                    && swap@.valid(),
                None => !self@.contains_key(swap_id@),
            },
    {
        proof {
            use_type_invariant(&*self);
        }
        let key = DataKey::for_swap(swap_id);
        match self.registry.get(&key) {
            Some(swap) => Some(swap.clone()),
            None => None,
        }
    }

    /// Whether a swap was ever created under this identifier.
    pub fn swap_exists(&self, swap_id: &[u8]) -> (present: bool)
        ensures
            present == self@.contains_key(swap_id@),
    {
        let key = DataKey::for_swap(swap_id);
        self.registry.has(&key)
    }

    /// Whether `preimage` hashes to the hashlock of a swap. The host hashes
    /// the preimage.
    pub fn verify_preimage(&self, env: &Env, swap_id: &[u8], preimage: &[u8]) -> (verdict: Result<
        bool,
        HtlcError,
    >)
        ensures
            verdict == preimage_verdict(self@, swap_id@, sha256(preimage@)),
    {
        let computed = host_sha256(env, preimage);
        self.digest_unlocks(swap_id, computed.as_slice())
    }

    /// Whether `digest` equals the hashlock of a swap.
    pub fn digest_unlocks(&self, swap_id: &[u8], digest: &[u8]) -> (verdict: Result<
        bool,
        HtlcError,
    >)
        ensures
            verdict == preimage_verdict(self@, swap_id@, digest@),
    {
        let key = DataKey::for_swap(swap_id);
        match self.registry.get(&key) {
            Some(swap) => Ok(digest_matches(digest, swap.hashlock.as_slice())),
            None => Err(HtlcError::SwapNotFound),
        }
    }
}

} // verus!
