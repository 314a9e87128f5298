//! What holds of the swap rules, for all inputs.

use crate::error::HtlcError;
use crate::host::{ActionView, HostReport, LedgerReply};
use crate::rules::{all_valid, create_step, refund_step, withdraw_step, Operation};
use crate::swap::{SwapStatus, SwapView};
use vstd::prelude::*;

verus! {

/// A creation with a non-positive amount, a hashlock that is not 32 bytes
/// long, or a timelock that is not in the future is refused and leaves the
/// registry unchanged, whatever else is passed. For an authorized caller the
/// refusal names the first of these that applies: the amount, then the
/// hashlock length, then the timelock.
pub proof fn law_create_validates(
    swaps: Map<Seq<u8>, SwapView>,
    swap_id: Seq<u8>,
    sender: Seq<u8>,
    recipient: Seq<u8>,
    token: Seq<u8>,
    amount: int,
    hashlock: Seq<u8>,
    timelock: int,
    host: HostReport,
)
    ensures
        ({
            let step = create_step(
                swaps,
                swap_id,
                sender,
                recipient,
                token,
                amount,
                hashlock,
                timelock,
                host,
            );
            &&& (amount <= 0 || hashlock.len() != 32 || timelock <= host.timestamp) ==> step.result
                is Err && step.swaps == swaps
            &&& host.authorized && amount <= 0 ==> step.result == Err::<ActionView, HtlcError>(
                HtlcError::InvalidAmount,
            )
            &&& host.authorized && amount > 0 && hashlock.len() != 32 ==> step.result == Err::<
                ActionView,
                HtlcError,
            >(HtlcError::InvalidHashlockLength)
            &&& host.authorized && amount > 0 && hashlock.len() == 32 && timelock
                <= host.timestamp ==> step.result == Err::<ActionView, HtlcError>(
                HtlcError::InvalidTimelock,
            )
        }),
{
}

/// A creation under an identifier that is already on record is refused and
/// leaves the registry unchanged, whatever the other arguments are. When
/// nothing else is wrong with the call, the refusal is `DuplicateSwapId`.
pub proof fn law_create_refuses_known_id(
    swaps: Map<Seq<u8>, SwapView>,
    swap_id: Seq<u8>,
    sender: Seq<u8>,
    recipient: Seq<u8>,
    token: Seq<u8>,
    amount: int,
    hashlock: Seq<u8>,
    timelock: int,
    host: HostReport,
)
    requires
        swaps.contains_key(swap_id),
    ensures
        ({
            let step = create_step(
                swaps,
                swap_id,
                sender,
                recipient,
                token,
                amount,
                hashlock,
                timelock,
                host,
            );
            &&& step.result is Err
            &&& step.swaps == swaps
            &&& host.authorized && amount > 0 && hashlock.len() == 32 && timelock
                > host.timestamp ==> step.result == Err::<ActionView, HtlcError>(
                HtlcError::DuplicateSwapId,
            )
        }),
{
}

/// After any step of any operation, a creation under the identifier of a
/// swap that was on record before the step is still refused: identifiers are
/// never freed. In particular a swap that was just created cannot be
/// created again.
pub proof fn law_ids_are_never_reused(
    swaps: Map<Seq<u8>, SwapView>,
    operation: Operation,
    host: HostReport,
    again: Operation,
    later: HostReport,
)
    requires
        again is Create,
        swaps.contains_key(again.swap_id()) || (operation.swap_id() == again.swap_id()
            && operation.step(swaps, host).result is Ok && host.ledger == LedgerReply::Moved),
    ensures
        again.step(operation.step(swaps, host).swaps, later).result is Err,
        again.step(operation.step(swaps, host).swaps, later).swaps == operation.step(
            swaps,
            host,
        ).swaps,
{
}

/// A withdrawal whose preimage does not hash to the hashlock is refused and
/// changes nothing, at any time. When the caller is the authorized recipient
/// of an open swap, the refusal is `InvalidPreimage`, before the deadline
/// and after it.
pub proof fn law_wrong_preimage_is_refused(
    swaps: Map<Seq<u8>, SwapView>,
    swap_id: Seq<u8>,
    recipient: Seq<u8>,
    preimage: Seq<u8>,
    digest: Seq<u8>,
    host: HostReport,
)
    requires
        swaps.contains_key(swap_id),
        digest != swaps[swap_id].hashlock,
    ensures
        ({
            let step = withdraw_step(swaps, swap_id, recipient, preimage, digest, host);
            &&& step.result is Err
            &&& step.swaps == swaps
            &&& host.authorized && swaps[swap_id].status == SwapStatus::Open
                && swaps[swap_id].recipient == recipient ==> step.result == Err::<
                ActionView,
                HtlcError,
            >(HtlcError::InvalidPreimage)
        }),
{
}

/// A withdrawal at or after the deadline is refused and changes nothing.
/// When nothing else is wrong with the call, the refusal is
/// `TimelockExpired`.
pub proof fn law_withdraw_expires(
    swaps: Map<Seq<u8>, SwapView>,
    swap_id: Seq<u8>,
    recipient: Seq<u8>,
    preimage: Seq<u8>,
    digest: Seq<u8>,
    host: HostReport,
)
    requires
        swaps.contains_key(swap_id),
        host.timestamp >= swaps[swap_id].timelock,
    ensures
        ({
            let step = withdraw_step(swaps, swap_id, recipient, preimage, digest, host);
            &&& step.result is Err
            &&& step.swaps == swaps
            &&& host.authorized && swaps[swap_id].status == SwapStatus::Open
                && swaps[swap_id].recipient == recipient && digest == swaps[swap_id].hashlock
                ==> step.result == Err::<ActionView, HtlcError>(HtlcError::TimelockExpired)
        }),
{
}

/// A refund strictly before the deadline is refused and changes nothing.
/// When nothing else is wrong with the call, the refusal is
/// `TimelockNotExpired`.
pub proof fn law_refund_waits(
    swaps: Map<Seq<u8>, SwapView>,
    swap_id: Seq<u8>,
    sender: Seq<u8>,
    host: HostReport,
)
    requires
        swaps.contains_key(swap_id),
        host.timestamp < swaps[swap_id].timelock,
    ensures
        ({
            let step = refund_step(swaps, swap_id, sender, host);
            &&& step.result is Err
            &&& step.swaps == swaps
            &&& host.authorized && swaps[swap_id].status == SwapStatus::Open
                && swaps[swap_id].sender == sender ==> step.result == Err::<
                ActionView,
                HtlcError,
            >(HtlcError::TimelockNotExpired)
        }),
{
}

/// At no time can an open swap be both withdrawn and refunded: of a
/// withdrawal and a refund that meet the same clock, at most one gets past
/// its preconditions.
pub proof fn law_withdraw_and_refund_exclude(
    swaps: Map<Seq<u8>, SwapView>,
    swap_id: Seq<u8>,
    recipient: Seq<u8>,
    preimage: Seq<u8>,
    digest: Seq<u8>,
    sender: Seq<u8>,
    claim: HostReport,
    reclaim: HostReport,
)
    requires
        claim.timestamp == reclaim.timestamp,
    ensures
        withdraw_step(swaps, swap_id, recipient, preimage, digest, claim).result is Err
            || refund_step(swaps, swap_id, sender, reclaim).result is Err,
{
}

/// Once a swap is withdrawn or refunded, every further withdrawal and refund
/// of it is refused and changes nothing. An authorized caller is told
/// `AlreadyWithdrawn` or `AlreadyRefunded`, as the swap ended.
pub proof fn law_terminal_swaps_are_closed(
    swaps: Map<Seq<u8>, SwapView>,
    swap_id: Seq<u8>,
    recipient: Seq<u8>,
    preimage: Seq<u8>,
    digest: Seq<u8>,
    sender: Seq<u8>,
    host: HostReport,
)
    requires
        swaps.contains_key(swap_id),
        swaps[swap_id].status != SwapStatus::Open,
    ensures
        ({
            let claim = withdraw_step(swaps, swap_id, recipient, preimage, digest, host);
            let reclaim = refund_step(swaps, swap_id, sender, host);
            let told = if swaps[swap_id].status == SwapStatus::Withdrawn {
                HtlcError::AlreadyWithdrawn
            } else {
                HtlcError::AlreadyRefunded
            };
            &&& claim.result is Err
            &&& reclaim.result is Err
            &&& claim.swaps == swaps
            &&& reclaim.swaps == swaps
            &&& host.authorized ==> claim.result == Err::<ActionView, HtlcError>(told)
            &&& host.authorized ==> reclaim.result == Err::<ActionView, HtlcError>(told)
        }),
{
}

/// A withdrawal that commits leaves the swap withdrawn with the disclosed
/// preimage on record, and only happens for an open swap, claimed by its
/// recipient before the deadline with a preimage whose digest is the
/// hashlock. After it, withdrawals and refunds of the swap are refused.
pub proof fn law_withdraw_commits_once(
    swaps: Map<Seq<u8>, SwapView>,
    swap_id: Seq<u8>,
    recipient: Seq<u8>,
    preimage: Seq<u8>,
    digest: Seq<u8>,
    host: HostReport,
    next: Operation,
    later: HostReport,
)
    requires
        withdraw_step(swaps, swap_id, recipient, preimage, digest, host).result is Ok,
        host.ledger == LedgerReply::Moved,
        next.swap_id() == swap_id,
        next is Withdraw || next is Refund,
    ensures
        ({
            let step = withdraw_step(swaps, swap_id, recipient, preimage, digest, host);
            &&& swaps.contains_key(swap_id)
            &&& swaps[swap_id].status == SwapStatus::Open
            &&& swaps[swap_id].recipient == recipient
            &&& swaps[swap_id].hashlock == digest
            &&& host.timestamp < swaps[swap_id].timelock
            &&& step.swaps[swap_id] == swaps[swap_id].withdrawn(preimage)
            &&& next.step(step.swaps, later).result is Err
            &&& next.step(step.swaps, later).swaps == step.swaps
            &&& later.authorized ==> next.step(step.swaps, later).result == Err::<
                ActionView,
                HtlcError,
            >(HtlcError::AlreadyWithdrawn)
        }),
{
}

/// A refund that commits leaves the swap refunded, and only happens for an
/// open swap, reclaimed by its sender at or after the deadline. After it,
/// withdrawals and refunds of the swap are refused.
pub proof fn law_refund_commits_once(
    swaps: Map<Seq<u8>, SwapView>,
    swap_id: Seq<u8>,
    sender: Seq<u8>,
    host: HostReport,
    next: Operation,
    later: HostReport,
)
    requires
        refund_step(swaps, swap_id, sender, host).result is Ok,
        host.ledger == LedgerReply::Moved,
        next.swap_id() == swap_id,
        next is Withdraw || next is Refund,
    ensures
        ({
            let step = refund_step(swaps, swap_id, sender, host);
            &&& swaps.contains_key(swap_id)
            &&& swaps[swap_id].status == SwapStatus::Open
            &&& swaps[swap_id].sender == sender
            &&& host.timestamp >= swaps[swap_id].timelock
            &&& step.swaps[swap_id] == swaps[swap_id].refunded()
            &&& next.step(step.swaps, later).result is Err
            &&& next.step(step.swaps, later).swaps == step.swaps
            &&& later.authorized ==> next.step(step.swaps, later).result == Err::<
                ActionView,
                HtlcError,
            >(HtlcError::AlreadyRefunded)
        }),
{
}

/// A withdrawal by anyone but the recorded recipient of an open swap is
/// refused with `UnauthorizedRecipient`, and a refund by anyone but its
/// recorded sender with `UnauthorizedSender`, even when the caller is
/// authorized as who they claim to be, the preimage is right and the time
/// allows the operation. Nothing changes.
pub proof fn law_only_the_parties_may_settle(
    swaps: Map<Seq<u8>, SwapView>,
    swap_id: Seq<u8>,
    caller: Seq<u8>,
    preimage: Seq<u8>,
    digest: Seq<u8>,
    host: HostReport,
)
    requires
        host.authorized,
        swaps.contains_key(swap_id),
        swaps[swap_id].status == SwapStatus::Open,
    ensures
        ({
            let claim = withdraw_step(swaps, swap_id, caller, preimage, digest, host);
            let reclaim = refund_step(swaps, swap_id, caller, host);
            &&& caller != swaps[swap_id].recipient ==> claim.result == Err::<
                ActionView,
                HtlcError,
            >(HtlcError::UnauthorizedRecipient) && claim.swaps == swaps
            &&& caller != swaps[swap_id].sender ==> reclaim.result == Err::<
                ActionView,
                HtlcError,
            >(HtlcError::UnauthorizedSender) && reclaim.swaps == swaps
        }),
{
}

/// Swaps are independent: a step on one swap leaves every other identifier
/// as it was, on record or not, with the same record.
pub proof fn law_swaps_are_independent(
    swaps: Map<Seq<u8>, SwapView>,
    operation: Operation,
    host: HostReport,
    other: Seq<u8>,
)
    requires
        other != operation.swap_id(),
    ensures
        operation.step(swaps, host).swaps.contains_key(other) == swaps.contains_key(other),
        operation.step(swaps, host).swaps[other] == swaps[other],
{
}

/// What happens to a swap does not depend on the other swaps on record: two
/// registries that agree on one identifier answer every step on it alike,
/// and agree on it afterwards.
pub proof fn law_steps_read_one_swap(
    left: Map<Seq<u8>, SwapView>,
    right: Map<Seq<u8>, SwapView>,
    operation: Operation,
    host: HostReport,
)
    requires
        left.contains_key(operation.swap_id()) == right.contains_key(operation.swap_id()),
        left[operation.swap_id()] == right[operation.swap_id()],
    ensures
        operation.step(left, host).result == operation.step(right, host).result,
        operation.step(left, host).swaps.contains_key(operation.swap_id()) == operation.step(
            right,
            host,
        ).swaps.contains_key(operation.swap_id()),
        operation.step(left, host).swaps[operation.swap_id()] == operation.step(
            right,
            host,
        ).swaps[operation.swap_id()],
{
}

/// Steps are all-or-nothing: a refused step and a step that asks for a
/// transfer leave the registry unchanged. Only a step that answers an event
/// changes it, and only with the ledger's word that the funds moved.
pub proof fn law_steps_are_atomic(
    swaps: Map<Seq<u8>, SwapView>,
    operation: Operation,
    host: HostReport,
)
    ensures
        ({
            let step = operation.step(swaps, host);
            &&& step.result is Err ==> step.swaps == swaps
            &&& step.result is Ok ==> step.asks_transfer() || step.commits()
            &&& step.asks_transfer() ==> step.swaps == swaps && host.ledger
                == LedgerReply::NotAsked
            &&& step.commits() ==> host.ledger == LedgerReply::Moved
            &&& host.ledger == LedgerReply::Refused ==> step.result is Err
        }),
{
}

/// Whether a step gets past its preconditions does not depend on the
/// ledger: the step that asks for a transfer is followed, for the same
/// arguments, registry, authorization and time, by a step that commits when
/// the ledger moved the funds and by a step that fails with
/// `AssetTransferFailed` when it refused.
pub proof fn law_ledger_reply_settles(
    swaps: Map<Seq<u8>, SwapView>,
    operation: Operation,
    host: HostReport,
)
    requires
        host.ledger == LedgerReply::NotAsked,
        operation.step(swaps, host).result is Ok,
    ensures
        operation.step(swaps, HostReport { ledger: LedgerReply::Moved, ..host }).commits(),
        operation.step(swaps, HostReport { ledger: LedgerReply::Refused, ..host }).result == Err::<
            ActionView,
            HtlcError,
        >(HtlcError::AssetTransferFailed),
{
}

/// Records are never deleted, and a swap changes at most once: a record that
/// is withdrawn or refunded stays exactly as it is under every step, and an
/// open record either stays or becomes withdrawn or refunded, with every
/// other field but the preimage kept.
pub proof fn law_status_only_advances(
    swaps: Map<Seq<u8>, SwapView>,
    operation: Operation,
    host: HostReport,
    swap_id: Seq<u8>,
)
    requires
        swaps.contains_key(swap_id),
    ensures
        ({
            let before = swaps[swap_id];
            let after = operation.step(swaps, host).swaps[swap_id];
            &&& operation.step(swaps, host).swaps.contains_key(swap_id)
            &&& before.status != SwapStatus::Open ==> after == before
            &&& after == before || (before.status == SwapStatus::Open && after.status
                != SwapStatus::Open && after == SwapView {
                status: after.status,
                preimage: after.preimage,
                ..before
            })
        }),
{
}

/// Steps keep every record valid: amounts positive, hashlocks 32 bytes long,
/// and a preimage on record exactly for the withdrawn swaps. A swap is on
/// record after a creation commits, with a timelock that was in the future.
pub proof fn law_steps_keep_records_valid(
    swaps: Map<Seq<u8>, SwapView>,
    operation: Operation,
    host: HostReport,
)
    requires
        all_valid(swaps),
    ensures
        all_valid(operation.step(swaps, host).swaps),
        operation is Create && operation.step(swaps, host).commits() ==> {
            let created = operation.step(swaps, host).swaps[operation.swap_id()];
            &&& !swaps.contains_key(operation.swap_id())
            &&& operation.step(swaps, host).swaps.contains_key(operation.swap_id())
            &&& created.status == SwapStatus::Open
            &&& created.preimage is None
            &&& created.timelock > host.timestamp
        },
{
}

} // verus!
