//! The stages of one relay request that need no network: decoding the body and
//! building the carrier transaction. Each is total: it gives the next stage's
//! input, or the response that ends the request.

use crate::carrier::{assemble, CarrierTransaction, RelayConfig};
use crate::envelope::{decode_envelope, envelope_of, EnvelopeFields, SignedDelegatedAction};
use crate::nonce::NonceAllocator;
use crate::response::{decode_prefix, respond, signing_prefix, Response, Terminal};
use vstd::prelude::*;

verus! {

/// The reason given when the relayer has no nonce left to assign.
pub open spec fn nonces_exhausted_reason() -> Seq<char> {
    "no nonce left for the relayer key"@
}

/// Decodes a request body. A body that is not a valid envelope ends the request
/// with a client error, before any network call.
pub fn decode_request(body: &[u8]) -> (r: Result<SignedDelegatedAction, Response>)
    ensures
        envelope_of(body@) is Ok <==> r is Ok,
        r matches Ok(s) ==> envelope_of(body@) == Ok::<EnvelopeFields, Seq<char>>(s.fields()),
        envelope_of(body@) matches Err(e) ==> (r matches Err(Response::ClientError { message })
            && message@ == decode_prefix() + e),
{
    match decode_envelope(body) {
        Ok(s) => Ok(s),
        Err(e) => Err(respond(Terminal::DecodeFailed(e))),
    }
}

/// Assigns the next relayer nonce and builds the carrier transaction around the
/// delegated action, on the given finalized block. When no nonce is left the
/// request ends with a server error and the allocator is unchanged.
pub fn prepare_carrier(
    s: SignedDelegatedAction,
    config: &RelayConfig,
    nonces: &mut NonceAllocator,
    block_hash: [u8; 32],
) -> (r: Result<CarrierTransaction, Response>)
    requires
        old(nonces).wf(),
    ensures
        final(nonces).wf(),
        old(nonces).last < u64::MAX <==> r is Ok,
        r matches Ok(c) ==> {
            &&& c.signer_id@ == config.relayer_account_id@
            &&& c.receiver_id@ == s.delegate_action.sender_id@
            &&& c.public_key == s.delegate_action.public_key
            &&& c.nonce == old(nonces).last + 1
            &&& c.block_hash == block_hash
            &&& c.actions == s.delegate_action.actions
            &&& final(nonces).last == c.nonce
            &&& final(nonces).issued@ == old(nonces).issued@.push(c.nonce)
        },
        r matches Err(resp) ==> {
            &&& *final(nonces) == *old(nonces)
            &&& resp matches Response::ServerError { message }
            &&& message@ == signing_prefix() + nonces_exhausted_reason()
        },
{
    match nonces.assign() {
        Some(n) => Ok(assemble(s.delegate_action, &config.relayer_account_id, n, block_hash)),
        None => Err(respond(Terminal::SigningFailed("no nonce left for the relayer key".to_owned()))),
    }
}

} // verus!
