use near_crypto::{KeyType, PublicKey, Signature};
use near_primitives::borsh::BorshSerialize;
use near_primitives::delegate_action::{DelegateAction, NonDelegateAction, SignedDelegateAction};
use near_primitives::transaction::{Action, CreateAccountAction, TransferAction};
use relayer::broadcast::{classify, Attempt, BroadcastEngine, BroadcastOutcome, Classification, Step};
use relayer::carrier::{assemble, RelayConfig};
use relayer::envelope::SignedDelegatedAction;
use relayer::nonce::NonceAllocator;
use relayer::relay::{decode_request, prepare_carrier};
use relayer::response::{respond, Response, Terminal};
use relayer::text::{join_lines, labelled};

fn create_signed_delegate_action(
    sender_id: &str,
    receiver_id: &str,
    actions: Vec<Action>,
    nonce: u64,
    max_block_height: u64,
) -> SignedDelegateAction {
    SignedDelegateAction {
        delegate_action: DelegateAction {
            sender_id: sender_id.parse().unwrap(),
            receiver_id: receiver_id.parse().unwrap(),
            actions: actions
                .iter()
                .map(|a| NonDelegateAction::try_from(a.clone()).unwrap())
                .collect(),
            nonce,
            max_block_height,
            public_key: PublicKey::empty(KeyType::ED25519),
        },
        signature: Signature::empty(KeyType::ED25519),
    }
}

fn sample_actions() -> Vec<Action> {
    vec![
        Action::CreateAccount(CreateAccountAction {}),
        Action::Transfer(TransferAction { deposit: 1 }),
    ]
}

fn sample_bytes() -> Vec<u8> {
    create_signed_delegate_action(
        "nomnomnom.testnet",
        "nomnomnom.testnet",
        sample_actions(),
        1,
        2000000000,
    )
    .try_to_vec()
    .unwrap()
}

fn config() -> RelayConfig {
    RelayConfig { relayer_account_id: "relayer.testnet".to_string(), max_attempts: None }
}

fn decoded(bytes: &[u8]) -> SignedDelegatedAction {
    match decode_request(bytes) {
        Ok(s) => s,
        Err(_) => panic!("a valid envelope was refused"),
    }
}

#[test]
fn decode_round_trip_keeps_every_field() {
    let sent = create_signed_delegate_action(
        "alice.testnet",
        "bob.testnet",
        sample_actions(),
        17,
        2000000000,
    );
    let bytes = sent.try_to_vec().unwrap();
    let s = decoded(&bytes);
    let d = &s.delegate_action;
    assert_eq!(d.sender_id, "alice.testnet");
    assert_eq!(d.receiver_id, "bob.testnet");
    assert_eq!(d.nonce, 17);
    assert_eq!(d.max_block_height, 2000000000);
    assert_eq!(d.public_key, sent.delegate_action.public_key);
    assert_eq!(d.actions, sample_actions());
    assert_eq!(s.signature, sent.signature);
}

#[test]
fn malformed_body_is_a_client_error() {
    let bad = serde_json::to_string("arrrgh").unwrap();
    match decode_request(bad.as_bytes()) {
        Ok(_) => panic!("a malformed body was accepted"),
        Err(resp) => {
            assert_eq!(resp.status_code(), 400);
            match resp {
                Response::ClientError { message } => {
                    assert!(message.starts_with("Error deserializing payload data object: "));
                    assert!(message.len() > "Error deserializing payload data object: ".len());
                }
                _ => panic!("not a client error"),
            }
        }
    }
}

#[test]
fn trailing_bytes_are_refused() {
    let mut bytes = sample_bytes();
    bytes.push(0);
    assert!(decode_request(&bytes).is_err());
}

#[test]
fn truncated_body_is_refused() {
    let bytes = sample_bytes();
    assert!(decode_request(&bytes[..bytes.len() - 1]).is_err());
    assert!(decode_request(&[]).is_err());
}

#[test]
fn carrier_is_signed_by_relayer_and_received_by_sender() {
    let s = decoded(&sample_bytes());
    let key = s.delegate_action.public_key.clone();
    let mut nonces = NonceAllocator::new(41);
    let c = match prepare_carrier(s, &config(), &mut nonces, [9u8; 32]) {
        Ok(c) => c,
        Err(_) => panic!("no carrier transaction"),
    };
    assert_eq!(c.signer_id, "relayer.testnet");
    assert_eq!(c.receiver_id, "nomnomnom.testnet");
    assert_eq!(c.public_key, key);
    assert_eq!(c.nonce, 42);
    assert_eq!(c.block_hash, [9u8; 32]);
    assert_eq!(c.actions, sample_actions());
    assert_eq!(nonces.last, 42);
}

#[test]
fn assemble_swaps_nothing() {
    let sent = create_signed_delegate_action("carol.testnet", "dave.testnet", sample_actions(), 3, 10);
    let s = decoded(&sent.try_to_vec().unwrap());
    let c = assemble(s.delegate_action, &"relayer.testnet".to_string(), 5, [1u8; 32]);
    assert_eq!(c.signer_id, "relayer.testnet");
    assert_eq!(c.receiver_id, "carol.testnet");
    assert_eq!(c.nonce, 5);
}

#[test]
fn nonces_are_distinct_and_increasing() {
    let mut nonces = NonceAllocator::new(100);
    let mut seen = Vec::new();
    for _ in 0..5 {
        let s = decoded(&sample_bytes());
        match prepare_carrier(s, &config(), &mut nonces, [0u8; 32]) {
            Ok(c) => seen.push(c.nonce),
            Err(_) => panic!("nonce refused"),
        }
    }
    assert_eq!(seen, vec![101, 102, 103, 104, 105]);
}

#[test]
fn exhausted_nonces_give_a_server_error() {
    let mut nonces = NonceAllocator::new(u64::MAX);
    assert_eq!(nonces.assign(), None);
    let s = decoded(&sample_bytes());
    match prepare_carrier(s, &config(), &mut nonces, [0u8; 32]) {
        Ok(_) => panic!("a nonce past the largest was assigned"),
        Err(resp) => {
            assert_eq!(resp.status_code(), 500);
            match resp {
                Response::ServerError { message } => assert_eq!(
                    message,
                    "Error signing transaction: no nonce left for the relayer key"
                ),
                _ => panic!("not a server error"),
            }
        }
    }
    assert_eq!(nonces.last, u64::MAX);
}

fn committed(status: &str, logs: &[&str]) -> Attempt {
    Attempt::Committed {
        status: status.to_string(),
        logs: logs.iter().map(|l| l.to_string()).collect(),
    }
}

fn submitted_bytes(step: &Step) -> Option<Vec<u8>> {
    match step {
        Step::Submit(p) => Some(p.clone()),
        Step::SubmitAfterBackoff(p) => Some(p.clone()),
        Step::Finish(_) => None,
    }
}

#[test]
fn transient_errors_then_commit_resubmit_the_same_bytes() {
    let payload = vec![1u8, 2, 3, 4];
    let mut engine = BroadcastEngine::new(payload.clone(), None);
    let mut sent = vec![submitted_bytes(&engine.start()).unwrap()];
    for _ in 0..3 {
        let step = engine.on_result(Attempt::Failed(Classification::Retry));
        assert!(matches!(step, Step::SubmitAfterBackoff(_)));
        sent.push(submitted_bytes(&step).unwrap());
    }
    let last = engine.on_result(committed("{\"SuccessValue\":\"\"}", &["one", "two"]));
    assert_eq!(engine.submissions, 4);
    assert_eq!(sent, vec![payload.clone(); 4]);
    assert!(engine.finished);
    match last {
        Step::Finish(outcome) => {
            let resp = respond(Terminal::Broadcast(outcome));
            assert_eq!(resp.status_code(), 200);
            match resp {
                Response::Success { status, logs } => {
                    assert_eq!(status, "{\"SuccessValue\":\"\"}");
                    assert_eq!(logs, "one\ntwo");
                }
                _ => panic!("not a success"),
            }
        }
        _ => panic!("broadcast did not finish"),
    }
}

#[test]
fn fatal_first_attempt_fails_after_one_submission() {
    let mut engine = BroadcastEngine::new(vec![5u8; 8], None);
    assert!(matches!(engine.start(), Step::Submit(_)));
    let step = engine.on_result(Attempt::Failed(Classification::Fatal("InvalidNonce".to_string())));
    assert_eq!(engine.submissions, 1);
    assert!(engine.finished);
    match step {
        Step::Finish(outcome) => {
            let resp = respond(Terminal::Broadcast(outcome));
            assert_eq!(resp.status_code(), 500);
            match resp {
                Response::ServerError { message } => {
                    assert_eq!(message, "Error sending transaction to RPC: InvalidNonce")
                }
                _ => panic!("not a server error"),
            }
        }
        _ => panic!("broadcast did not finish"),
    }
}

#[test]
fn attempt_bound_ends_retries() {
    let mut engine = BroadcastEngine::new(vec![7u8], Some(2));
    assert!(matches!(engine.start(), Step::Submit(_)));
    assert!(matches!(
        engine.on_result(Attempt::Failed(Classification::Retry)),
        Step::SubmitAfterBackoff(_)
    ));
    match engine.on_result(Attempt::Failed(Classification::Retry)) {
        Step::Finish(BroadcastOutcome::Failed { reason }) => assert_eq!(reason, "retry limit reached"),
        _ => panic!("retries went past the bound"),
    }
    assert_eq!(engine.submissions, 2);
}

#[test]
fn zero_attempt_bound_submits_nothing() {
    let mut engine = BroadcastEngine::new(vec![7u8], Some(0));
    assert!(matches!(engine.start(), Step::Finish(BroadcastOutcome::Failed { .. })));
    assert_eq!(engine.submissions, 0);
}

#[test]
fn committed_request_is_a_success() {
    let s = decoded(&sample_bytes());
    let mut nonces = NonceAllocator::new(0);
    let c = match prepare_carrier(s, &config(), &mut nonces, [3u8; 32]) {
        Ok(c) => c,
        Err(_) => panic!("no carrier transaction"),
    };
    assert_eq!(c.actions.len(), 2);
    let mut engine = BroadcastEngine::new(vec![c.nonce as u8], None);
    assert!(matches!(engine.start(), Step::Submit(_)));
    match engine.on_result(committed("{}", &[])) {
        Step::Finish(outcome) => {
            let resp = respond(Terminal::Broadcast(outcome));
            assert_eq!(resp.status_code(), 200);
        }
        _ => panic!("broadcast did not finish"),
    }
}

#[test]
fn each_terminal_has_its_response() {
    let a = respond(Terminal::AssemblyFailed("no block".to_string()));
    assert_eq!(a.status_code(), 500);
    assert!(matches!(a, Response::ServerError { message } if message == "Error assembling transaction: no block"));
    let s = respond(Terminal::SigningFailed("no key".to_string()));
    assert!(matches!(s, Response::ServerError { message } if message == "Error signing transaction: no key"));
    let d = respond(Terminal::DecodeFailed("\"bad\"".to_string()));
    assert_eq!(d.status_code(), 400);
    assert!(matches!(d, Response::ClientError { message } if message == "Error deserializing payload data object: \"bad\""));
}

#[test]
fn text_helpers() {
    assert_eq!(join_lines(&vec![]), "");
    assert_eq!(join_lines(&vec!["a".to_string()]), "a");
    assert_eq!(join_lines(&vec!["a".to_string(), "".to_string(), "c".to_string()]), "a\n\nc");
    assert_eq!(labelled("x: ", "y"), "x: y");
}

#[test]
fn timeouts_are_retried_and_other_errors_are_final() {
    assert!(matches!(classify(true, "Timeout".to_string()), Classification::Retry));
    assert!(matches!(
        classify(false, "InvalidNonce".to_string()),
        Classification::Fatal(reason) if reason == "InvalidNonce"
    ));
}
