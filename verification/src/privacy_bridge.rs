//! The privacy bridge engine: the lock, relay and unlock state machine of
//! cross-chain transfers, with relayer quorum and nullifier-based replay
//! protection.
//!
//! Each operation takes the records it names in a context value, checks its
//! preconditions in a fixed order and either returns an error and leaves the
//! context as it was, or updates the context and returns the event that
//! describes the outcome. Token transfers are the host's: it moves the
//! amounts an operation was given or reports in its event, and commits the
//! updated records only when the transfers went through.

use vstd::prelude::*;
use crate::money::{fee_of, split_fee};
use crate::digest::{keccak256, keccak_hash};
use crate::encoding::{
    append_bytes32, append_i64_le, append_u64_le, i64_le_bytes, lemma_le_bytes_len,
    twos_complement, u64_le_bytes,
};
use crate::keys::Pubkey;

verus! {

/// Identifier of the chain this bridge locks assets on.
pub const SOURCE_CHAIN: u64 = 1;

/// The highest bridge fee that `update_fee` accepts: 10%, in basis points.
pub const MAX_BRIDGE_FEE: u16 = 1000;

/// Why a bridge operation was rejected.
#[derive(Clone, Copy, Debug, PartialEq, Eq, Structural)]
pub enum ErrorCode {
    /// The bridge is paused.
    BridgePaused,
    /// The transaction is not in a state that admits the operation.
    InvalidState,
    /// The transaction has fewer confirmations than the bridge asks for.
    InsufficientConfirmations,
    /// The nullifier was consumed by an earlier unlock.
    NullifierUsed,
    /// The relation proof was rejected.
    InvalidProof,
    /// The relayer is inactive or slashed.
    NotActiveRelayer,
    /// A monetary computation left the representable range.
    ArithmeticOverflow,
    /// The requested fee exceeds 10%.
    FeeTooHigh,
    /// The caller is not the bridge's authority.
    Unauthorized,
}

/// Where a bridge transaction stands.
///
/// `Locked` leads to `Relayed` and either leads to `Completed`, which is
/// final. No operation reaches `Pending`, `Refunded` or `Failed`.
#[derive(Clone, Copy, Debug, PartialEq, Eq, Structural)]
pub enum TransactionState {
    Pending,
    Locked,
    Relayed,
    Completed,
    Refunded,
    Failed,
}

/// The bridge's configuration and counters, created once.
#[derive(Clone, Copy, Debug, PartialEq, Eq)]
pub struct Bridge {
    pub authority: Pubkey,
    pub min_confirmations: u8,
    /// Fee on locked amounts, in basis points.
    pub bridge_fee: u16,
    pub total_locked: u64,
    pub total_unlocked: u64,
    pub paused: bool,
}

/// A cross-chain transfer.
#[derive(Clone, Copy, Debug, PartialEq, Eq)]
pub struct BridgeTransaction {
    pub id: [u8; 32],
    pub source_chain: u64,
    pub target_chain: u64,
    pub sender: Pubkey,
    pub recipient_commitment: [u8; 32],
    /// The locked amount after the bridge fee.
    pub amount: u64,
    pub commitment: [u8; 32],
    pub nullifier: [u8; 32],
    pub timestamp: i64,
    pub state: TransactionState,
    pub confirmations: u8,
}

/// The record kept under a nullifier. A nullifier that was never consumed
/// has a record that is not `used`.
#[derive(Clone, Copy, Debug, PartialEq, Eq)]
pub struct NullifierAccount {
    pub nullifier: [u8; 32],
    pub used: bool,
    pub timestamp: i64,
}

/// A party that attests to locked transactions.
#[derive(Clone, Copy, Debug, PartialEq, Eq)]
pub struct Relayer {
    pub authority: Pubkey,
    pub active: bool,
    pub total_relayed: u64,
    pub slashed: bool,
}

/// A relation proof in the Groth16 layout.
#[derive(Clone, Copy, Debug, PartialEq, Eq)]
pub struct ZkProof {
    pub a: [u8; 64],
    pub b: [u8; 128],
    pub c: [u8; 64],
}

/// Assets were locked for a transfer.
#[derive(Clone, Copy, Debug, PartialEq, Eq)]
pub struct AssetLocked {
    pub tx_id: [u8; 32],
    pub sender: Pubkey,
    pub source_chain: u64,
    pub target_chain: u64,
    pub amount: u64,
    pub commitment: [u8; 32],
}

/// Assets were released to a recipient.
#[derive(Clone, Copy, Debug, PartialEq, Eq)]
pub struct AssetUnlocked {
    pub tx_id: [u8; 32],
    pub recipient_commitment: [u8; 32],
    pub amount: u64,
    pub nullifier: [u8; 32],
}

/// A relayer confirmed a transaction.
#[derive(Clone, Copy, Debug, PartialEq, Eq)]
pub struct TransactionRelayed {
    pub tx_id: [u8; 32],
    pub relayer: Pubkey,
    pub confirmations: u8,
}

/// A relayer was admitted.
#[derive(Clone, Copy, Debug, PartialEq, Eq)]
pub struct RelayerAdded {
    pub relayer: Pubkey,
}

// ---------------------------------------------------------------------
// Digests
// ---------------------------------------------------------------------

/// The bytes whose digest identifies a transaction: the sender, the target
/// chain, the recipient commitment and the time of the lock.
pub open spec fn tx_id_preimage(
    sender: Pubkey,
    target_chain: u64,
    recipient: Seq<u8>,
    timestamp: i64,
) -> Seq<u8> {
    sender.bytes@ + u64_le_bytes(target_chain) + recipient + i64_le_bytes(timestamp)
}

/// The bytes whose digest commits to a locked amount: the recipient
/// commitment and the amount.
pub open spec fn commitment_preimage(recipient: Seq<u8>, amount: u64) -> Seq<u8> {
    recipient + u64_le_bytes(amount)
}

/// Lays out the bytes whose digest identifies a transaction.
pub fn encode_tx_id_preimage(
    sender: &Pubkey,
    target_chain: u64,
    recipient: &[u8; 32],
    timestamp: i64,
) -> (data: Vec<u8>)
    ensures
        data@ == tx_id_preimage(*sender, target_chain, recipient@, timestamp),
        data@.len() == 80,
{
    let mut data: Vec<u8> = Vec::new();
    append_bytes32(&mut data, &sender.bytes);
    append_u64_le(&mut data, target_chain);
    append_bytes32(&mut data, recipient);
    append_i64_le(&mut data, timestamp);
    assert(data@ =~= tx_id_preimage(*sender, target_chain, recipient@, timestamp));
    proof {
        lemma_le_bytes_len(target_chain as nat, 8);
        lemma_le_bytes_len(twos_complement(timestamp), 8);
    }
    data
}

/// Lays out the bytes whose digest commits to a locked amount.
pub fn encode_commitment_preimage(recipient: &[u8; 32], amount: u64) -> (data: Vec<u8>)
    ensures
        data@ == commitment_preimage(recipient@, amount),
        data@.len() == 40,
{
    let mut data: Vec<u8> = Vec::new();
    append_bytes32(&mut data, recipient);
    append_u64_le(&mut data, amount);
    assert(data@ =~= commitment_preimage(recipient@, amount));
    proof {
        lemma_le_bytes_len(amount as nat, 8);
    }
    data
}

/// Derives the identifier of a transaction.
pub fn generate_tx_id(sender: &Pubkey, target_chain: u64, recipient: &[u8; 32], timestamp: i64) -> (id:
    [u8; 32])
    ensures
        id@ == keccak256(tx_id_preimage(*sender, target_chain, recipient@, timestamp)),
{
    let data = encode_tx_id_preimage(sender, target_chain, recipient, timestamp);
    keccak_hash(data.as_slice())
}

/// Derives the commitment to a locked amount for a recipient.
pub fn generate_commitment(recipient: &[u8; 32], amount: u64) -> (commitment: [u8; 32])
    ensures
        commitment@ == keccak256(commitment_preimage(recipient@, amount)),
{
    let data = encode_commitment_preimage(recipient, amount);
    keccak_hash(data.as_slice())
}

// ---------------------------------------------------------------------
// Relation proofs
// ---------------------------------------------------------------------

/// Whether a relation proof has the shape of a proof: its three group
/// elements are 64, 128 and 64 bytes.
pub open spec fn relation_proof_well_formed(proof: &ZkProof) -> bool {
    &&& proof.a@.len() == 64
    &&& proof.b@.len() == 128
    &&& proof.c@.len() == 64
}

/// The public inputs of an unlock: the transaction's commitment, the
/// nullifier and the amount.
pub open spec fn relation_public_inputs(commitment: Seq<u8>, nullifier: Seq<u8>, amount: u64) -> Seq<
    u8,
> {
    commitment + nullifier + u64_le_bytes(amount)
}

/// The verdict of `verify_relation`.
///
/// The verdict rests on the proof's structure alone. It depends on nothing
/// but the arguments, so the same arguments always get the same verdict.
pub open spec fn relation_proof_accepted(proof: &ZkProof, public_inputs: Seq<u8>) -> bool {
    relation_proof_well_formed(proof)
}

/// Lays out the public inputs of an unlock.
pub fn encode_public_inputs(commitment: &[u8; 32], nullifier: &[u8; 32], amount: u64) -> (data: Vec<
    u8,
>)
    ensures
        data@ == relation_public_inputs(commitment@, nullifier@, amount),
        data@.len() == 72,
{
    let mut data: Vec<u8> = Vec::new();
    append_bytes32(&mut data, commitment);
    append_bytes32(&mut data, nullifier);
    append_u64_le(&mut data, amount);
    assert(data@ =~= relation_public_inputs(commitment@, nullifier@, amount));
    proof {
        lemma_le_bytes_len(amount as nat, 8);
    }
    data
}

/// The structural verdict on a relation proof for `public_inputs`.
///
/// The type fixes the length of every group element, so every proof passes
/// and the verdict is `true`; no cryptographic check is made. A host that
/// has a cryptographic verifier uses `unlock_assets_with_verdict`.
pub fn verify_relation(proof: &ZkProof, public_inputs: &[u8]) -> (valid: bool)
    ensures
        valid == relation_proof_accepted(proof, public_inputs@),
{
    proof.a.len() == 64 && proof.b.len() == 128 && proof.c.len() == 64
}

/// The structural verdict on the proof of an unlock, whose public inputs
/// are the transaction's commitment, the nullifier and the amount.
pub fn verify_proof(proof: &ZkProof, commitment: &[u8; 32], nullifier: &[u8; 32], amount: u64) -> (valid:
    bool)
    ensures
        valid == relation_proof_accepted(
            proof,
            relation_public_inputs(commitment@, nullifier@, amount),
        ),
{
    let public_inputs = encode_public_inputs(commitment, nullifier, amount);
    verify_relation(proof, public_inputs.as_slice())
}

// ---------------------------------------------------------------------
// initialize
// ---------------------------------------------------------------------

/// The records that `initialize` names.
#[derive(Clone, Copy, Debug, PartialEq, Eq)]
pub struct Initialize {
    /// The bridge record to fill.
    pub bridge: Bridge,
    /// The party that creates the bridge.
    pub authority: Pubkey,
}

/// Creates the bridge: owned by the caller, not paused, with nothing
/// locked or unlocked.
pub fn initialize(ctx: &mut Initialize, min_confirmations: u8, bridge_fee: u16)
    ensures
        final(ctx).authority == old(ctx).authority,
        final(ctx).bridge == (Bridge {
            authority: old(ctx).authority,
            min_confirmations,
            bridge_fee,
            total_locked: 0,
            total_unlocked: 0,
            paused: false,
        }),
{
    ctx.bridge.authority = ctx.authority;
    ctx.bridge.min_confirmations = min_confirmations;
    ctx.bridge.bridge_fee = bridge_fee;
    ctx.bridge.total_locked = 0;
    ctx.bridge.total_unlocked = 0;
    ctx.bridge.paused = false;
}

// ---------------------------------------------------------------------
// lock_assets
// ---------------------------------------------------------------------

/// The records that `lock_assets` names.
#[derive(Clone, Copy, Debug, PartialEq, Eq)]
pub struct LockAssets {
    pub bridge: Bridge,
    /// The transaction record to fill.
    pub bridge_tx: BridgeTransaction,
    /// The sending party.
    pub user: Pubkey,
}

/// What is locked of `amount` once the bridge fee is taken.
pub open spec fn net_amount(amount: u64, fee_bps: u16) -> int {
    amount - fee_of(amount as int, fee_bps as int)
}

/// The error that `lock_assets` returns, if any.
pub open spec fn lock_assets_error(pre: LockAssets, amount: u64) -> Option<ErrorCode> {
    if pre.bridge.paused {
        Some(ErrorCode::BridgePaused)
    } else if net_amount(amount, pre.bridge.bridge_fee) < 0 {
        Some(ErrorCode::ArithmeticOverflow)
    } else if pre.bridge.total_locked + net_amount(amount, pre.bridge.bridge_fee) > u64::MAX {
        Some(ErrorCode::ArithmeticOverflow)
    } else {
        None
    }
}

/// How the result of a lock and the records it leaves relate to the
/// records it was given and the two digests.
pub open spec fn lock_assets_outcome(
    pre: LockAssets,
    post: LockAssets,
    amount: u64,
    target_chain: u64,
    recipient_commitment: [u8; 32],
    now: i64,
    tx_id: Seq<u8>,
    commitment: Seq<u8>,
    result: Result<AssetLocked, ErrorCode>,
) -> bool {
    match result {
        Ok(event) => {
            &&& lock_assets_error(pre, amount) is None
            &&& event.amount == net_amount(amount, pre.bridge.bridge_fee)
            &&& event.tx_id@ == tx_id
            &&& event.commitment@ == commitment
            &&& event.sender == pre.user
            &&& event.source_chain == SOURCE_CHAIN
            &&& event.target_chain == target_chain
            &&& post.user == pre.user
            &&& post.bridge == (Bridge {
                total_locked: (pre.bridge.total_locked + event.amount) as u64,
                ..pre.bridge
            })
            &&& post.bridge_tx.id == event.tx_id
            &&& post.bridge_tx.source_chain == SOURCE_CHAIN
            &&& post.bridge_tx.target_chain == target_chain
            &&& post.bridge_tx.sender == pre.user
            &&& post.bridge_tx.recipient_commitment == recipient_commitment
            &&& post.bridge_tx.amount == event.amount
            &&& post.bridge_tx.commitment == event.commitment
            &&& post.bridge_tx.nullifier@ == Seq::new(32, |i: int| 0u8)
            &&& post.bridge_tx.timestamp == now
            &&& post.bridge_tx.state == TransactionState::Locked
            &&& post.bridge_tx.confirmations == 0
        },
        Err(e) => lock_assets_error(pre, amount) == Some(e) && post == pre,
    }
}

/// Locks assets under a given transaction identifier and a given value
/// commitment for the net amount.
///
/// On success the host moves `amount` from the sender to the bridge.
pub fn record_lock(
    ctx: &mut LockAssets,
    amount: u64,
    target_chain: u64,
    recipient_commitment: [u8; 32],
    now: i64,
    tx_id: [u8; 32],
    commitment: [u8; 32],
) -> (result: Result<AssetLocked, ErrorCode>)
    ensures
        lock_assets_outcome(
            *old(ctx),
            *final(ctx),
            amount,
            target_chain,
            recipient_commitment,
            now,
            tx_id@,
            commitment@,
            result,
        ),
{
    if ctx.bridge.paused {
        return Err(ErrorCode::BridgePaused);
    }
    let net = match split_fee(amount, ctx.bridge.bridge_fee) {
        Some((_, net)) => net,
        None => {
            return Err(ErrorCode::ArithmeticOverflow);
        },
    };
    let total_locked = match ctx.bridge.total_locked.checked_add(net) {
        Some(total) => total,
        None => {
            return Err(ErrorCode::ArithmeticOverflow);
        },
    };
    let nullifier = [0u8; 32];
    assert(nullifier@ =~= Seq::new(32, |i: int| 0u8));
    let bridge_tx = BridgeTransaction {
        id: tx_id,
        source_chain: SOURCE_CHAIN,
        target_chain,
        sender: ctx.user,
        recipient_commitment,
        amount: net,
        commitment,
        nullifier,
        timestamp: now,
        state: TransactionState::Locked,
        confirmations: 0,
    };
    ctx.bridge_tx = bridge_tx;
    ctx.bridge.total_locked = total_locked;
    Ok(
        AssetLocked {
            tx_id,
            sender: ctx.user,
            source_chain: SOURCE_CHAIN,
            target_chain,
            amount: net,
            commitment,
        },
    )
}

/// Locks assets for a transfer to `target_chain`.
///
/// The bridge fee is taken from `amount`. The transaction is identified by
/// the digest of the sender, the target chain, the recipient commitment and
/// `now`, and it carries the digest of the recipient commitment and the net
/// amount as its value commitment. It starts `Locked` with no
/// confirmations.
///
/// On success the host moves `amount` from the sender to the bridge.
pub fn lock_assets(
    ctx: &mut LockAssets,
    amount: u64,
    target_chain: u64,
    recipient_commitment: [u8; 32],
    now: i64,
) -> (result: Result<AssetLocked, ErrorCode>)
    ensures
        lock_assets_outcome(
            *old(ctx),
            *final(ctx),
            amount,
            target_chain,
            recipient_commitment,
            now,
            keccak256(tx_id_preimage(old(ctx).user, target_chain, recipient_commitment@, now)),
            keccak256(
                commitment_preimage(
                    recipient_commitment@,
                    net_amount(amount, old(ctx).bridge.bridge_fee) as u64,
                ),
            ),
            result,
        ),
{
    if ctx.bridge.paused {
        return Err(ErrorCode::BridgePaused);
    }
    let net = match split_fee(amount, ctx.bridge.bridge_fee) {
        Some((_, net)) => net,
        None => {
            return Err(ErrorCode::ArithmeticOverflow);
        },
    };
    let commitment = generate_commitment(&recipient_commitment, net);
    let tx_id = generate_tx_id(&ctx.user, target_chain, &recipient_commitment, now);
    record_lock(ctx, amount, target_chain, recipient_commitment, now, tx_id, commitment)
}

// ---------------------------------------------------------------------
// relay_transaction
// ---------------------------------------------------------------------

/// The records that `relay_transaction` names.
#[derive(Clone, Copy, Debug, PartialEq, Eq)]
pub struct RelayTransaction {
    pub bridge: Bridge,
    pub bridge_tx: BridgeTransaction,
    /// The record of the confirming relayer.
    pub relayer: Relayer,
    /// The calling party.
    pub relayer_authority: Pubkey,
}

/// Whether a relayer may confirm transactions: it is active and was not
/// slashed.
pub open spec fn relayer_in_good_standing(relayer: Relayer) -> bool {
    relayer.active && !relayer.slashed
}

/// The error that `relay_transaction` returns, if any.
pub open spec fn relay_transaction_error(pre: RelayTransaction) -> Option<ErrorCode> {
    if pre.bridge.paused {
        Some(ErrorCode::BridgePaused)
    } else if !relayer_in_good_standing(pre.relayer) {
        Some(ErrorCode::NotActiveRelayer)
    } else if pre.bridge_tx.state != TransactionState::Locked {
        Some(ErrorCode::InvalidState)
    } else if pre.bridge_tx.confirmations + 1 > u8::MAX {
        Some(ErrorCode::ArithmeticOverflow)
    } else {
        None
    }
}

/// The state of a locked transaction that has `confirmations`
/// confirmations on a bridge that asks for `min_confirmations`.
pub open spec fn state_after_relay(confirmations: u8, min_confirmations: u8) -> TransactionState {
    if confirmations >= min_confirmations {
        TransactionState::Relayed
    } else {
        TransactionState::Locked
    }
}

/// How the result of `relay_transaction` and the records it leaves relate
/// to the records it was given.
pub open spec fn relay_transaction_outcome(
    pre: RelayTransaction,
    post: RelayTransaction,
    result: Result<TransactionRelayed, ErrorCode>,
) -> bool {
    match result {
        Ok(event) => {
            &&& relay_transaction_error(pre) is None
            &&& event == (TransactionRelayed {
                tx_id: pre.bridge_tx.id,
                relayer: pre.relayer_authority,
                confirmations: (pre.bridge_tx.confirmations + 1) as u8,
            })
            &&& post == (RelayTransaction {
                bridge_tx: BridgeTransaction {
                    confirmations: event.confirmations,
                    state: state_after_relay(event.confirmations, pre.bridge.min_confirmations),
                    ..pre.bridge_tx
                },
                ..pre
            })
        },
        Err(e) => relay_transaction_error(pre) == Some(e) && post == pre,
    }
}

/// Adds a relayer's confirmation to a locked transaction, which becomes
/// `Relayed` when the count reaches the bridge's minimum.
///
/// Only a `Locked` transaction takes confirmations: once the quorum is
/// complete the count stands.
pub fn relay_transaction(ctx: &mut RelayTransaction) -> (result: Result<
    TransactionRelayed,
    ErrorCode,
>)
    ensures
        relay_transaction_outcome(*old(ctx), *final(ctx), result),
{
    if ctx.bridge.paused {
        return Err(ErrorCode::BridgePaused);
    }
    if !ctx.relayer.active || ctx.relayer.slashed {
        return Err(ErrorCode::NotActiveRelayer);
    }
    match ctx.bridge_tx.state {
        TransactionState::Locked => {},
        _ => {
            return Err(ErrorCode::InvalidState);
        },
    }
    let confirmations = match ctx.bridge_tx.confirmations.checked_add(1) {
        Some(count) => count,
        None => {
            return Err(ErrorCode::ArithmeticOverflow);
        },
    };
    ctx.bridge_tx.confirmations = confirmations;
    if confirmations >= ctx.bridge.min_confirmations {
        ctx.bridge_tx.state = TransactionState::Relayed;
    }
    Ok(
        TransactionRelayed {
            tx_id: ctx.bridge_tx.id,
            relayer: ctx.relayer_authority,
            confirmations,
        },
    )
}

// ---------------------------------------------------------------------
// unlock_assets
// ---------------------------------------------------------------------

/// The records that `unlock_assets` names.
#[derive(Clone, Copy, Debug, PartialEq, Eq)]
pub struct UnlockAssets {
    pub bridge: Bridge,
    pub bridge_tx: BridgeTransaction,
    /// The record kept under the nullifier that the caller presents.
    pub nullifier_account: NullifierAccount,
}

/// Whether a transaction in `state` can be unlocked: it is locked, with
/// its quorum still open (`Locked`) or complete (`Relayed`). Whether the
/// confirmations suffice is checked separately.
pub open spec fn accepts_unlock(state: TransactionState) -> bool {
    state == TransactionState::Locked || state == TransactionState::Relayed
}

/// The error that `unlock_assets` returns, if any, given the verdict on
/// the relation proof.
pub open spec fn unlock_assets_error(pre: UnlockAssets, proof_valid: bool) -> Option<ErrorCode> {
    if pre.bridge.paused {
        Some(ErrorCode::BridgePaused)
    } else if !accepts_unlock(pre.bridge_tx.state) {
        Some(ErrorCode::InvalidState)
    } else if pre.bridge_tx.confirmations < pre.bridge.min_confirmations {
        Some(ErrorCode::InsufficientConfirmations)
    } else if pre.nullifier_account.used {
        Some(ErrorCode::NullifierUsed)
    } else if !proof_valid {
        Some(ErrorCode::InvalidProof)
    } else if pre.bridge.total_unlocked + pre.bridge_tx.amount > u64::MAX {
        Some(ErrorCode::ArithmeticOverflow)
    } else {
        None
    }
}

/// How the result of `unlock_assets` and the records it leaves relate to
/// the records it was given and the verdict on the relation proof.
pub open spec fn unlock_assets_outcome(
    pre: UnlockAssets,
    post: UnlockAssets,
    proof_valid: bool,
    nullifier: [u8; 32],
    now: i64,
    result: Result<AssetUnlocked, ErrorCode>,
) -> bool {
    match result {
        Ok(event) => {
            &&& unlock_assets_error(pre, proof_valid) is None
            &&& event == (AssetUnlocked {
                tx_id: pre.bridge_tx.id,
                recipient_commitment: pre.bridge_tx.recipient_commitment,
                amount: pre.bridge_tx.amount,
                nullifier,
            })
            &&& post == (UnlockAssets {
                bridge: Bridge {
                    total_unlocked: (pre.bridge.total_unlocked + pre.bridge_tx.amount) as u64,
                    ..pre.bridge
                },
                bridge_tx: BridgeTransaction {
                    nullifier,
                    state: TransactionState::Completed,
                    ..pre.bridge_tx
                },
                nullifier_account: NullifierAccount { nullifier, used: true, timestamp: now },
            })
        },
        Err(e) => unlock_assets_error(pre, proof_valid) == Some(e) && post == pre,
    }
}

/// Releases a locked transfer, given the verdict of a relation-proof
/// verifier on the transaction's commitment, the nullifier and the amount.
///
/// The nullifier is recorded as used and the transaction completed in one
/// step: either both happen or neither.
///
/// On success the host moves the event's `amount` from the bridge to the
/// recipient.
pub fn unlock_assets_with_verdict(
    ctx: &mut UnlockAssets,
    proof_valid: bool,
    nullifier: [u8; 32],
    now: i64,
) -> (result: Result<AssetUnlocked, ErrorCode>)
    ensures
        unlock_assets_outcome(*old(ctx), *final(ctx), proof_valid, nullifier, now, result),
{
    if ctx.bridge.paused {
        return Err(ErrorCode::BridgePaused);
    }
    match ctx.bridge_tx.state {
        TransactionState::Locked => {},
        TransactionState::Relayed => {},
        _ => {
            return Err(ErrorCode::InvalidState);
        },
    }
    if ctx.bridge_tx.confirmations < ctx.bridge.min_confirmations {
        return Err(ErrorCode::InsufficientConfirmations);
    }
    if ctx.nullifier_account.used {
        return Err(ErrorCode::NullifierUsed);
    }
    if !proof_valid {
        return Err(ErrorCode::InvalidProof);
    }
    let total_unlocked = match ctx.bridge.total_unlocked.checked_add(ctx.bridge_tx.amount) {
        Some(total) => total,
        None => {
            return Err(ErrorCode::ArithmeticOverflow);
        },
    };
    ctx.nullifier_account = NullifierAccount { nullifier, used: true, timestamp: now };
    ctx.bridge_tx.nullifier = nullifier;
    ctx.bridge_tx.state = TransactionState::Completed;
    ctx.bridge.total_unlocked = total_unlocked;
    Ok(
        AssetUnlocked {
            tx_id: ctx.bridge_tx.id,
            recipient_commitment: ctx.bridge_tx.recipient_commitment,
            amount: ctx.bridge_tx.amount,
            nullifier,
        },
    )
}

/// Releases a locked transfer. The proof must be one that `verify_proof`
/// accepts for the transaction's commitment, the nullifier and the amount.
///
/// On success the host moves the event's `amount` from the bridge to the
/// recipient.
pub fn unlock_assets(ctx: &mut UnlockAssets, proof: &ZkProof, nullifier: [u8; 32], now: i64) -> (result:
    Result<AssetUnlocked, ErrorCode>)
    ensures
        unlock_assets_outcome(
            *old(ctx),
            *final(ctx),
            relation_proof_accepted(
                proof,
                relation_public_inputs(
                    old(ctx).bridge_tx.commitment@,
                    nullifier@,
                    old(ctx).bridge_tx.amount,
                ),
            ),
            nullifier,
            now,
            result,
        ),
{
    let proof_valid = verify_proof(proof, &ctx.bridge_tx.commitment, &nullifier, ctx.bridge_tx.amount);
    unlock_assets_with_verdict(ctx, proof_valid, nullifier, now)
}

// ---------------------------------------------------------------------
// add_relayer and slash
// ---------------------------------------------------------------------

/// The records that `add_relayer` names.
#[derive(Clone, Copy, Debug, PartialEq, Eq)]
pub struct AddRelayer {
    pub bridge: Bridge,
    /// The relayer record to fill.
    pub relayer: Relayer,
    /// The party to admit as relayer.
    pub relayer_authority: Pubkey,
    /// The calling party.
    pub authority: Pubkey,
}

/// The error of an operation that a running bridge reserves to its
/// authority, if any.
pub open spec fn authority_error(bridge: Bridge, caller: Pubkey) -> Option<ErrorCode> {
    if bridge.paused {
        Some(ErrorCode::BridgePaused)
    } else if caller != bridge.authority {
        Some(ErrorCode::Unauthorized)
    } else {
        None
    }
}

/// How the result of `add_relayer` and the records it leaves relate to the
/// records it was given.
pub open spec fn add_relayer_outcome(
    pre: AddRelayer,
    post: AddRelayer,
    result: Result<RelayerAdded, ErrorCode>,
) -> bool {
    match result {
        Ok(event) => {
            &&& authority_error(pre.bridge, pre.authority) is None
            &&& event == (RelayerAdded { relayer: pre.relayer_authority })
            &&& post == (AddRelayer {
                relayer: Relayer {
                    authority: pre.relayer_authority,
                    active: true,
                    total_relayed: 0,
                    slashed: false,
                },
                ..pre
            })
        },
        Err(e) => authority_error(pre.bridge, pre.authority) == Some(e) && post == pre,
    }
}

/// Admits a relayer: active, not slashed, with nothing relayed. Only the
/// bridge's authority may do so.
pub fn add_relayer(ctx: &mut AddRelayer) -> (result: Result<RelayerAdded, ErrorCode>)
    ensures
        add_relayer_outcome(*old(ctx), *final(ctx), result),
{
    if ctx.bridge.paused {
        return Err(ErrorCode::BridgePaused);
    }
    if !ctx.authority.same(&ctx.bridge.authority) {
        return Err(ErrorCode::Unauthorized);
    }
    let relayer = Relayer {
        authority: ctx.relayer_authority,
        active: true,
        total_relayed: 0,
        slashed: false,
    };
    ctx.relayer = relayer;
    Ok(RelayerAdded { relayer: ctx.relayer_authority })
}

/// The records that `slash` names.
#[derive(Clone, Copy, Debug, PartialEq, Eq)]
pub struct SlashRelayer {
    pub bridge: Bridge,
    /// The record of the relayer to slash.
    pub relayer: Relayer,
    /// The calling party.
    pub authority: Pubkey,
}

/// How the result of `slash` and the records it leaves relate to the
/// records it was given.
pub open spec fn slash_outcome(
    pre: SlashRelayer,
    post: SlashRelayer,
    result: Result<(), ErrorCode>,
) -> bool {
    match result {
        Ok(_) => {
            &&& authority_error(pre.bridge, pre.authority) is None
            &&& post == (SlashRelayer {
                relayer: Relayer { active: false, slashed: true, ..pre.relayer },
                ..pre
            })
        },
        Err(e) => authority_error(pre.bridge, pre.authority) == Some(e) && post == pre,
    }
}

/// Slashes a relayer: it becomes inactive and slashed, and can confirm no
/// transaction from then on. Only the bridge's authority may do so.
pub fn slash(ctx: &mut SlashRelayer) -> (result: Result<(), ErrorCode>)
    ensures
        slash_outcome(*old(ctx), *final(ctx), result),
{
    if ctx.bridge.paused {
        return Err(ErrorCode::BridgePaused);
    }
    if !ctx.authority.same(&ctx.bridge.authority) {
        return Err(ErrorCode::Unauthorized);
    }
    ctx.relayer.active = false;
    ctx.relayer.slashed = true;
    Ok(())
}

// ---------------------------------------------------------------------
// update_fee, pause and unpause
// ---------------------------------------------------------------------

/// The records that `update_fee`, `pause` and `unpause` name.
#[derive(Clone, Copy, Debug, PartialEq, Eq)]
pub struct UpdateBridge {
    pub bridge: Bridge,
    /// The calling party.
    pub authority: Pubkey,
}

/// The error that `update_fee` returns, if any.
pub open spec fn update_fee_error(pre: UpdateBridge, new_fee: u16) -> Option<ErrorCode> {
    if authority_error(pre.bridge, pre.authority) is Some {
        authority_error(pre.bridge, pre.authority)
    } else if new_fee > MAX_BRIDGE_FEE {
        Some(ErrorCode::FeeTooHigh)
    } else {
        None
    }
}

/// How the result of `update_fee` and the records it leaves relate to the
/// records it was given.
pub open spec fn update_fee_outcome(
    pre: UpdateBridge,
    post: UpdateBridge,
    new_fee: u16,
    result: Result<(), ErrorCode>,
) -> bool {
    match result {
        Ok(_) => {
            &&& update_fee_error(pre, new_fee) is None
            &&& post == (UpdateBridge { bridge: Bridge { bridge_fee: new_fee, ..pre.bridge }, ..pre })
        },
        Err(e) => update_fee_error(pre, new_fee) == Some(e) && post == pre,
    }
}

/// Sets the bridge fee, which may not exceed `MAX_BRIDGE_FEE`. Only the
/// bridge's authority may do so.
pub fn update_fee(ctx: &mut UpdateBridge, new_fee: u16) -> (result: Result<(), ErrorCode>)
    ensures
        update_fee_outcome(*old(ctx), *final(ctx), new_fee, result),
{
    if ctx.bridge.paused {
        return Err(ErrorCode::BridgePaused);
    }
    if !ctx.authority.same(&ctx.bridge.authority) {
        return Err(ErrorCode::Unauthorized);
    }
    if new_fee > MAX_BRIDGE_FEE {
        return Err(ErrorCode::FeeTooHigh);
    }
    ctx.bridge.bridge_fee = new_fee;
    Ok(())
}

/// How the result of `pause` or `unpause` and the records it leaves relate
/// to the records it was given; `paused` is the flag's new value.
pub open spec fn set_paused_outcome(
    pre: UpdateBridge,
    post: UpdateBridge,
    paused: bool,
    result: Result<(), ErrorCode>,
) -> bool {
    match result {
        Ok(_) => {
            &&& pre.authority == pre.bridge.authority
            &&& post == (UpdateBridge { bridge: Bridge { paused, ..pre.bridge }, ..pre })
        },
        Err(e) => {
            &&& pre.authority != pre.bridge.authority
            &&& e == ErrorCode::Unauthorized
            &&& post == pre
        },
    }
}

/// Pauses the bridge. Only the bridge's authority may do so.
pub fn pause(ctx: &mut UpdateBridge) -> (result: Result<(), ErrorCode>)
    ensures
        set_paused_outcome(*old(ctx), *final(ctx), true, result),
{
    if !ctx.authority.same(&ctx.bridge.authority) {
        return Err(ErrorCode::Unauthorized);
    }
    ctx.bridge.paused = true;
    Ok(())
}

/// Resumes the bridge. Only the bridge's authority may do so.
pub fn unpause(ctx: &mut UpdateBridge) -> (result: Result<(), ErrorCode>)
    ensures
        set_paused_outcome(*old(ctx), *final(ctx), false, result),
{
    if !ctx.authority.same(&ctx.bridge.authority) {
        return Err(ErrorCode::Unauthorized);
    }
    ctx.bridge.paused = false;
    Ok(())
}

} // verus!
