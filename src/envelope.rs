//! The inbound envelope: a user's signed delegate action, in the ledger's
//! binary encoding, decoded all or nothing.

use near_primitives::borsh::BorshDeserialize;
use near_primitives::delegate_action::SignedDelegateAction;
use near_primitives::transaction::Action;
use vstd::prelude::*;

verus! {

#[verifier::external_type_specification]
#[verifier::external_body]
pub struct ExPublicKey(near_crypto::PublicKey);

#[verifier::external_type_specification]
#[verifier::external_body]
pub struct ExSignature(near_crypto::Signature);

#[verifier::external_type_specification]
#[verifier::external_body]
pub struct ExAction(near_primitives::transaction::Action);

/// A user-authorized action with its authorization context. The sub-actions
/// are already in the ledger's own action form.
pub struct DelegatedAction {
    pub sender_id: String,
    pub receiver_id: String,
    pub actions: Vec<near_primitives::transaction::Action>,
    pub nonce: u64,
    pub max_block_height: u64,
    /// The user's key, which signed the delegated action.
    pub public_key: near_crypto::PublicKey,
}

/// A delegated action with the user's signature over it.
pub struct SignedDelegatedAction {
    pub delegate_action: DelegatedAction,
    pub signature: near_crypto::Signature,
}

/// The plain fields of a decoded envelope: sender, receiver, nonce, maximal
/// block height and the number of sub-actions.
pub type EnvelopeFields = (Seq<char>, Seq<char>, u64, u64, nat);

/// What the ledger's decoder makes of these bytes: the envelope's plain fields,
/// or the text of the error.
pub uninterp spec fn envelope_of(b: Seq<u8>) -> Result<EnvelopeFields, Seq<char>>;

impl SignedDelegatedAction {
    pub open spec fn fields(&self) -> EnvelopeFields {
        let d = self.delegate_action;
        (d.sender_id@, d.receiver_id@, d.nonce, d.max_block_height, d.actions@.len())
    }
}

/// Relies on borsh's `try_from_slice` for near_primitives' `SignedDelegateAction`,
/// which takes all of the bytes or fails; the account ids become strings and each
/// sub-action its `Action`.
#[verifier::external_body]
pub(crate) fn decode_envelope(b: &[u8]) -> (r: Result<SignedDelegatedAction, String>)
    ensures
        match r {
            Ok(s) => envelope_of(b@) == Ok::<EnvelopeFields, Seq<char>>(s.fields()),
            Err(e) => envelope_of(b@) == Err::<EnvelopeFields, Seq<char>>(e@),
        },
{
    match SignedDelegateAction::try_from_slice(b) {
        Ok(s) => {
            let d = s.delegate_action;
            let actions = d.actions.into_iter().map(Action::from).collect();
            let (sender_id, receiver_id) = (String::from(d.sender_id), String::from(d.receiver_id));
            let (nonce, max_block_height, public_key) = (d.nonce, d.max_block_height, d.public_key);
            let delegate_action = DelegatedAction { sender_id, receiver_id, actions, nonce, max_block_height, public_key };
            Ok(SignedDelegatedAction { delegate_action, signature: s.signature })
        },
        Err(e) => Err(format!("{:?}", e.to_string())),
    }
}

} // verus!
