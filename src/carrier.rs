//! The carrier transaction: the relayer's own transaction, which pays for and
//! carries the user's delegated action.

use crate::envelope::DelegatedAction;
use vstd::prelude::*;

verus! {

/// Settings fixed for the life of the process.
pub struct RelayConfig {
    /// The relayer's account: the signer of every carrier transaction.
    pub relayer_account_id: String,
    /// An upper bound on submissions of one transaction, or `None` to retry
    /// while the classifier calls the fault transient.
    pub max_attempts: Option<u64>,
}

/// The transaction that the relayer signs around a delegated action.
pub struct CarrierTransaction {
    pub signer_id: String,
    pub public_key: near_crypto::PublicKey,
    pub nonce: u64,
    pub receiver_id: String,
    /// The latest finalized block, which bounds the transaction's validity.
    pub block_hash: [u8; 32],
    pub actions: Vec<near_primitives::transaction::Action>,
}

/// Builds the carrier transaction for `d`: the relayer signs, the delegated
/// action's sender receives, and the user's key and sub-actions are carried over
/// unchanged.
pub fn assemble(d: DelegatedAction, relayer_account_id: &String, nonce: u64, block_hash: [u8; 32]) -> (r:
    CarrierTransaction)
    ensures
        r.signer_id@ == relayer_account_id@,
        r.receiver_id@ == d.sender_id@,
        r.public_key == d.public_key,
        r.nonce == nonce,
        r.block_hash == block_hash,
        r.actions == d.actions,
{
    CarrierTransaction {
        signer_id: relayer_account_id.clone(),
        public_key: d.public_key,
        nonce,
        receiver_id: d.sender_id,
        block_hash,
        actions: d.actions,
    }
}

} // verus!
