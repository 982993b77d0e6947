//! Laws of the bridge engine, stated over the transition relations of its
//! operations.

use vstd::prelude::*;
use crate::money::fee_of;
use crate::privacy_bridge::{
    accepts_unlock, add_relayer_outcome, lock_assets_error, lock_assets_outcome, net_amount,
    relay_transaction_error, relay_transaction_outcome, relayer_in_good_standing, slash_outcome,
    unlock_assets_error, unlock_assets_outcome, update_fee_outcome, AddRelayer, AssetLocked,
    AssetUnlocked, Bridge, BridgeTransaction, ErrorCode, LockAssets, RelayTransaction, Relayer,
    RelayerAdded, SlashRelayer, TransactionRelayed, TransactionState, UnlockAssets, UpdateBridge,
    MAX_BRIDGE_FEE,
};

verus! {

/// Whether an unlock gets as far as looking at the nullifier: the bridge
/// runs, and the transaction is locked with enough confirmations.
pub open spec fn reaches_nullifier_check(pre: UnlockAssets) -> bool {
    &&& !pre.bridge.paused
    &&& accepts_unlock(pre.bridge_tx.state)
    &&& pre.bridge_tx.confirmations >= pre.bridge.min_confirmations
}

/// A nullifier that is recorded as used unlocks nothing, whatever the
/// verdict on the proof: the unlock fails, with `NullifierUsed` whenever it
/// gets as far as looking at the nullifier.
pub proof fn lemma_used_nullifier_is_rejected(pre: UnlockAssets, proof_valid: bool)
    requires
        pre.nullifier_account.used,
    ensures
        unlock_assets_error(pre, proof_valid) is Some,
        reaches_nullifier_check(pre) ==> unlock_assets_error(pre, proof_valid) == Some(
            ErrorCode::NullifierUsed,
        ),
{
}

/// A nullifier is consumed at most once. A successful unlock records its
/// nullifier as used; every later unlock that finds that record, on
/// whatever transaction and with whatever proof, fails and leaves its
/// records as they were.
pub proof fn lemma_nullifier_consumed_at_most_once(
    first: UnlockAssets,
    after_first: UnlockAssets,
    first_proof_valid: bool,
    first_now: i64,
    first_result: Result<AssetUnlocked, ErrorCode>,
    second: UnlockAssets,
    after_second: UnlockAssets,
    second_proof_valid: bool,
    second_now: i64,
    second_result: Result<AssetUnlocked, ErrorCode>,
    nullifier: [u8; 32],
)
    requires
        unlock_assets_outcome(
            first,
            after_first,
            first_proof_valid,
            nullifier,
            first_now,
            first_result,
        ),
        first_result is Ok,
        second.nullifier_account == after_first.nullifier_account,
        unlock_assets_outcome(
            second,
            after_second,
            second_proof_valid,
            nullifier,
            second_now,
            second_result,
        ),
    ensures
        after_first.nullifier_account.used,
        after_first.nullifier_account.nullifier == nullifier,
        second_result is Err,
        after_second == second,
        reaches_nullifier_check(second) ==> second_result == Err::<AssetUnlocked, ErrorCode>(
            ErrorCode::NullifierUsed,
        ),
{
    lemma_used_nullifier_is_rejected(second, second_proof_valid);
}

/// A relayer that is inactive or slashed confirms nothing: the relay
/// fails, with `NotActiveRelayer` on a running bridge, and the records, the
/// confirmation count among them, stay as they were.
pub proof fn lemma_relayer_out_of_standing_is_rejected(
    pre: RelayTransaction,
    post: RelayTransaction,
    result: Result<TransactionRelayed, ErrorCode>,
)
    requires
        !pre.relayer.active || pre.relayer.slashed,
        relay_transaction_outcome(pre, post, result),
    ensures
        result is Err,
        post == pre,
        post.bridge_tx.confirmations == pre.bridge_tx.confirmations,
        !pre.bridge.paused ==> result == Err::<TransactionRelayed, ErrorCode>(
            ErrorCode::NotActiveRelayer,
        ),
{
}

/// Once slashed, a relayer confirms nothing: every later relay that names
/// the slashed record fails, with `NotActiveRelayer` on a running bridge,
/// and leaves its records as they were.
pub proof fn lemma_slashed_relayer_cannot_relay(
    slashing: SlashRelayer,
    after_slashing: SlashRelayer,
    slash_result: Result<(), ErrorCode>,
    relay: RelayTransaction,
    after_relay: RelayTransaction,
    relay_result: Result<TransactionRelayed, ErrorCode>,
)
    requires
        slash_outcome(slashing, after_slashing, slash_result),
        slash_result is Ok,
        relay.relayer == after_slashing.relayer,
        relay_transaction_outcome(relay, after_relay, relay_result),
    ensures
        !after_slashing.relayer.active,
        after_slashing.relayer.slashed,
        relay_result is Err,
        after_relay == relay,
        !relay.bridge.paused ==> relay_result == Err::<TransactionRelayed, ErrorCode>(
            ErrorCode::NotActiveRelayer,
        ),
{
}

/// The confirmation count never falls, and it rises only by one, only on a
/// locked transaction and only through a relayer that is active and not
/// slashed.
pub proof fn lemma_confirmations_only_grow(
    pre: RelayTransaction,
    post: RelayTransaction,
    result: Result<TransactionRelayed, ErrorCode>,
)
    requires
        relay_transaction_outcome(pre, post, result),
    ensures
        post.bridge_tx.confirmations >= pre.bridge_tx.confirmations,
        post.bridge_tx.confirmations != pre.bridge_tx.confirmations ==> {
            &&& result is Ok
            &&& post.bridge_tx.confirmations == pre.bridge_tx.confirmations + 1
            &&& pre.bridge_tx.state == TransactionState::Locked
            &&& relayer_in_good_standing(pre.relayer)
        },
{
}

/// A relay moves a transaction along `Locked -> Relayed` and nowhere else:
/// afterwards it is `Relayed` exactly when its confirmations reach the
/// bridge's minimum, and `Locked` otherwise.
pub proof fn lemma_relay_follows_state_machine(
    pre: RelayTransaction,
    post: RelayTransaction,
    result: Result<TransactionRelayed, ErrorCode>,
)
    requires
        relay_transaction_outcome(pre, post, result),
        result is Ok,
    ensures
        pre.bridge_tx.state == TransactionState::Locked,
        post.bridge_tx.confirmations >= pre.bridge.min_confirmations ==> post.bridge_tx.state
            == TransactionState::Relayed,
        post.bridge_tx.confirmations < pre.bridge.min_confirmations ==> post.bridge_tx.state
            == TransactionState::Locked,
{
}

/// An unlock moves a transaction from `Locked` or `Relayed` to
/// `Completed`, keeps its amount and its confirmations, and adds the
/// amount to the bridge's unlocked total.
pub proof fn lemma_unlock_follows_state_machine(
    pre: UnlockAssets,
    post: UnlockAssets,
    proof_valid: bool,
    nullifier: [u8; 32],
    now: i64,
    result: Result<AssetUnlocked, ErrorCode>,
)
    requires
        unlock_assets_outcome(pre, post, proof_valid, nullifier, now, result),
        result is Ok,
    ensures
        proof_valid,
        accepts_unlock(pre.bridge_tx.state),
        pre.bridge_tx.confirmations >= pre.bridge.min_confirmations,
        post.bridge_tx.state == TransactionState::Completed,
        post.bridge_tx.amount == pre.bridge_tx.amount,
        post.bridge_tx.confirmations == pre.bridge_tx.confirmations,
        post.bridge.total_unlocked == pre.bridge.total_unlocked + pre.bridge_tx.amount,
{
}

/// `Completed`, `Refunded` and `Failed` are final, and nothing leaves
/// `Pending`: a transaction in one of these states takes neither a
/// confirmation nor an unlock.
pub proof fn lemma_final_states_admit_nothing(
    relay: RelayTransaction,
    unlock: UnlockAssets,
    proof_valid: bool,
)
    requires
        relay.bridge_tx.state != TransactionState::Locked,
        !accepts_unlock(unlock.bridge_tx.state),
    ensures
        relay_transaction_error(relay) is Some,
        unlock_assets_error(unlock, proof_valid) is Some,
        !relay.bridge.paused && relayer_in_good_standing(relay.relayer)
            ==> relay_transaction_error(relay) == Some(ErrorCode::InvalidState),
        !unlock.bridge.paused ==> unlock_assets_error(unlock, proof_valid) == Some(
            ErrorCode::InvalidState,
        ),
{
}

/// A fee of at most 10 000 basis points never exceeds the amount it is
/// taken from.
pub proof fn lemma_fee_within_amount(amount: u64, fee_bps: u16)
    requires
        fee_bps <= 10000,
    ensures
        0 <= fee_of(amount as int, fee_bps as int) <= amount,
        0 <= net_amount(amount, fee_bps) <= amount,
{
    assert(0 <= amount * fee_bps <= amount * 10000) by (nonlinear_arith)
        requires
            0 <= amount,
            0 <= fee_bps <= 10000,
    ;
}

/// A fee that `update_fee` accepted is at most 10%, so a lock under it
/// fails only on a paused bridge or when the locked total would overflow.
pub proof fn lemma_accepted_fee_admits_every_amount(
    pre: UpdateBridge,
    post: UpdateBridge,
    new_fee: u16,
    result: Result<(), ErrorCode>,
    lock: LockAssets,
    amount: u64,
)
    requires
        update_fee_outcome(pre, post, new_fee, result),
        result is Ok,
        lock.bridge == post.bridge,
    ensures
        post.bridge.bridge_fee == new_fee,
        new_fee <= MAX_BRIDGE_FEE,
        0 <= net_amount(amount, new_fee) <= amount,
        lock.bridge.total_locked + net_amount(amount, new_fee) <= u64::MAX ==> lock_assets_error(
            lock,
            amount,
        ) is None,
{
    lemma_fee_within_amount(amount, new_fee);
}

/// A freshly locked transaction is `Locked` with no confirmations: on a
/// bridge that asks for at least one confirmation it cannot be unlocked
/// until relayers have confirmed it.
pub proof fn lemma_fresh_lock_awaits_quorum(
    lock: LockAssets,
    after_lock: LockAssets,
    amount: u64,
    target_chain: u64,
    recipient_commitment: [u8; 32],
    now: i64,
    tx_id: Seq<u8>,
    commitment: Seq<u8>,
    lock_result: Result<AssetLocked, ErrorCode>,
    unlock: UnlockAssets,
    proof_valid: bool,
)
    requires
        lock_assets_outcome(
            lock,
            after_lock,
            amount,
            target_chain,
            recipient_commitment,
            now,
            tx_id,
            commitment,
            lock_result,
        ),
        lock_result is Ok,
        unlock.bridge_tx == after_lock.bridge_tx,
        unlock.bridge == after_lock.bridge,
        after_lock.bridge.min_confirmations > 0,
    ensures
        after_lock.bridge_tx.state == TransactionState::Locked,
        after_lock.bridge_tx.confirmations == 0,
        after_lock.bridge_tx.amount <= amount,
        after_lock.bridge.total_locked == lock.bridge.total_locked + after_lock.bridge_tx.amount,
        unlock_assets_error(unlock, proof_valid) == Some(ErrorCode::InsufficientConfirmations),
{
    let fee = fee_of(amount as int, lock.bridge.bridge_fee as int);
    assert(0 <= amount * lock.bridge.bridge_fee) by (nonlinear_arith)
        requires
            0 <= amount,
            0 <= lock.bridge.bridge_fee,
    ;
    assert(fee >= 0);
}

/// Whether the flags of a relayer agree: a slashed relayer is inactive.
pub open spec fn standing_agrees(relayer: Relayer) -> bool {
    relayer.slashed ==> !relayer.active
}

/// Admitting and slashing keep a relayer's flags in agreement: an admitted
/// relayer is active and not slashed, a slashed one is inactive, and
/// slashing changes nothing else of the record.
pub proof fn lemma_relayer_lifecycle(
    admission: AddRelayer,
    after_admission: AddRelayer,
    admission_result: Result<RelayerAdded, ErrorCode>,
    slashing: SlashRelayer,
    after_slashing: SlashRelayer,
    slash_result: Result<(), ErrorCode>,
)
    requires
        add_relayer_outcome(admission, after_admission, admission_result),
        slash_outcome(slashing, after_slashing, slash_result),
    ensures
        admission_result is Ok ==> relayer_in_good_standing(after_admission.relayer)
            && standing_agrees(after_admission.relayer),
        slash_result is Ok ==> !relayer_in_good_standing(after_slashing.relayer)
            && standing_agrees(after_slashing.relayer) && after_slashing.relayer.authority
            == slashing.relayer.authority && after_slashing.relayer.total_relayed
            == slashing.relayer.total_relayed,
        admission_result is Err ==> after_admission == admission,
        slash_result is Err ==> after_slashing == slashing,
{
}

/// Whether a transaction's state agrees with its confirmations: a relayed
/// transaction has the confirmations its bridge asks for.
pub open spec fn quorum_agrees(tx: BridgeTransaction, bridge: Bridge) -> bool {
    tx.state == TransactionState::Relayed ==> tx.confirmations >= bridge.min_confirmations
}

/// A relay keeps a transaction's state in agreement with its
/// confirmations.
pub proof fn lemma_relay_keeps_quorum_agreement(
    pre: RelayTransaction,
    post: RelayTransaction,
    result: Result<TransactionRelayed, ErrorCode>,
)
    requires
        relay_transaction_outcome(pre, post, result),
        quorum_agrees(pre.bridge_tx, pre.bridge),
    ensures
        quorum_agrees(post.bridge_tx, post.bridge),
        post.bridge == pre.bridge,
{
}

} // verus!
