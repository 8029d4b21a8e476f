use ed25519_dalek::{Signer, SigningKey};
use sanctum_ai::auth::{AuthAction, AuthFlow, AuthPhase};
use sanctum_ai::client::{handle_response, is_unix_socket_address, RequestIds, RpcMethod};
use sanctum_ai::error::{ErrorCode, SanctumError, VaultError};
use sanctum_ai::types::{AuthChallenge, AuthResult, RpcResponse};
use serde_json::Value;

fn vault_locked() -> VaultError {
    VaultError {
        code: ErrorCode::VaultLocked,
        message: "Vault is locked".to_string(),
        detail: None,
        suggestion: Some("unseal it".to_string()),
        docs_url: None,
        context: None,
    }
}

#[test]
fn request_ids_count_up_from_one() {
    let mut ids = RequestIds::new();
    assert_eq!(ids.next_id(), 1);
    assert_eq!(ids.next_id(), 2);
    let req = ids.request("credential.list", Value::Null);
    assert_eq!(req.id, 3);
    assert_eq!(req.method, "credential.list");
    assert_eq!(req.params, Value::Null);
    assert_eq!(ids.next_id(), 4);
}

#[test]
fn method_names() {
    assert_eq!(RpcMethod::AuthChallenge.name(), "auth.challenge");
    assert_eq!(RpcMethod::AuthVerify.name(), "auth.verify");
    assert_eq!(RpcMethod::CredentialRetrieve.name(), "credential.retrieve");
    assert_eq!(RpcMethod::CredentialList.name(), "credential.list");
    assert_eq!(RpcMethod::LeaseRelease.name(), "lease.release");
    assert_eq!(RpcMethod::CredentialUse.name(), "credential.use");
}

#[test]
fn response_with_result_gives_it() {
    let resp = RpcResponse { id: 1, result: Some(Value::from(5)), error: None };
    assert_eq!(handle_response(resp, None).unwrap(), Value::from(5));
}

#[test]
fn response_with_error_gives_vault_error() {
    let resp = RpcResponse { id: 2, result: Some(Value::from(5)), error: Some(Value::from("x")) };
    match handle_response(resp, Some(vault_locked())) {
        Err(SanctumError::Vault(e)) => {
            assert_eq!(e.code, ErrorCode::VaultLocked);
            assert_eq!(e.message, "Vault is locked");
            assert_eq!(e.suggestion.as_deref(), Some("unseal it"));
        }
        other => panic!("unexpected {:?}", other),
    }
}

#[test]
fn unreadable_error_body_becomes_unknown() {
    let resp = RpcResponse { id: 3, result: None, error: Some(Value::from(17)) };
    match handle_response(resp, None) {
        Err(SanctumError::Vault(e)) => {
            assert_eq!(e.code, ErrorCode::Unknown);
            assert_eq!(e.message, "Unknown error");
            assert!(e.detail.is_none() && e.suggestion.is_none());
            assert!(e.docs_url.is_none() && e.context.is_none());
        }
        other => panic!("unexpected {:?}", other),
    }
}

#[test]
fn response_with_neither_is_a_protocol_error() {
    let resp = RpcResponse { id: 4, result: None, error: None };
    match handle_response(resp, None) {
        Err(SanctumError::Protocol(m)) => assert_eq!(m, "response missing both result and error"),
        other => panic!("unexpected {:?}", other),
    }
}

#[test]
fn socket_addresses() {
    assert!(is_unix_socket_address("/run/sanctum.sock"));
    assert!(is_unix_socket_address("./sanctum.sock"));
    assert!(!is_unix_socket_address("sanctum.sock"));
    assert!(!is_unix_socket_address("127.0.0.1:7600"));
    assert!(!is_unix_socket_address(""));
}

#[test]
fn error_code_names() {
    assert_eq!(ErrorCode::AuthFailed.as_str(), "AUTH_FAILED");
    assert_eq!(ErrorCode::AccessDenied.to_string(), "ACCESS_DENIED");
    assert_eq!(ErrorCode::CredentialNotFound.to_string(), "CREDENTIAL_NOT_FOUND");
    assert_eq!(ErrorCode::VaultLocked.to_string(), "VAULT_LOCKED");
    assert_eq!(ErrorCode::LeaseExpired.to_string(), "LEASE_EXPIRED");
    assert_eq!(ErrorCode::RateLimited.to_string(), "RATE_LIMITED");
    assert_eq!(ErrorCode::SessionExpired.to_string(), "SESSION_EXPIRED");
    assert_eq!(ErrorCode::Unknown.to_string(), "UNKNOWN");
}

#[test]
fn error_code_reading() {
    assert_eq!(ErrorCode::from_code("VAULT_LOCKED"), ErrorCode::VaultLocked);
    assert_eq!(ErrorCode::from_code("RATE_LIMITED"), ErrorCode::RateLimited);
    assert_eq!(ErrorCode::from_code("vault_locked"), ErrorCode::Unknown);
    assert_eq!(ErrorCode::from_code("SOMETHING_NEW"), ErrorCode::Unknown);
    let all = [
        ErrorCode::AuthFailed,
        ErrorCode::AccessDenied,
        ErrorCode::CredentialNotFound,
        ErrorCode::VaultLocked,
        ErrorCode::LeaseExpired,
        ErrorCode::RateLimited,
        ErrorCode::SessionExpired,
        ErrorCode::Unknown,
    ];
    for code in all {
        assert_eq!(ErrorCode::from_code(code.as_str()), code);
    }
}

#[test]
fn vault_error_display() {
    let mut e = vault_locked();
    assert_eq!(e.to_string(), "[VAULT_LOCKED] Vault is locked");
    e.detail = Some("sealed at boot".to_string());
    assert_eq!(e.to_string(), "[VAULT_LOCKED] Vault is locked — sealed at boot");
    assert_eq!(VaultError::unknown().to_string(), "[UNKNOWN] Unknown error");
}

// RFC 8032, section 7.1, test 1 (empty message) and test 2 (one byte 0x72).
const SECRET_1: &str = "9d61b19deffd5a60ba844af492ec2cc44449c5697b326919703bac031cae7f60";
const SIGNATURE_1: &str = "e5564300c360ac729086e2cc806e828a84877f1eb8e5d974d873e065224901555fb8821590a33bacc61e39701cf9b46bd25bf5f0595bbe24655141438e7a100b";
const SECRET_2: &str = "4ccd089b28ff96da9db6c346ec114e0f5b8a319f35aba624da8cf6ed4fb8a6fb";
const SIGNATURE_2: &str = "92a009a9f0d4cab8720e820b5f642540a2b27b5416503f8fb3762223ebdb69da085ac1e43e15996e458f3613d0f11d8c387b2eaeb4302aeeb00d291612bb0c00";

fn key(hex_text: &str) -> [u8; 32] {
    let bytes = hex::decode(hex_text).unwrap();
    let mut key = [0u8; 32];
    key.copy_from_slice(&bytes);
    key
}

fn challenged(secret: &str, challenge: &str) -> (AuthFlow, AuthAction) {
    let mut flow = AuthFlow::new("my-agent", key(secret));
    assert_eq!(flow.phase(), AuthPhase::Ready);
    match flow.start() {
        AuthAction::RequestChallenge { agent } => assert_eq!(agent, "my-agent"),
        other => panic!("unexpected {:?}", other),
    }
    assert_eq!(flow.phase(), AuthPhase::AwaitingChallenge);
    let action = flow.on_challenge(&AuthChallenge { challenge: challenge.to_string() });
    (flow, action)
}

#[test]
fn challenge_is_answered_with_the_signature_in_hex() {
    let (flow, action) = challenged(SECRET_1, "");
    assert_eq!(flow.phase(), AuthPhase::AwaitingResult);
    match action {
        AuthAction::SubmitSignature { agent, signature } => {
            assert_eq!(agent, "my-agent");
            assert_eq!(signature, SIGNATURE_1);
        }
        other => panic!("unexpected {:?}", other),
    }
    let (_, action) = challenged(SECRET_2, "72");
    match action {
        AuthAction::SubmitSignature { signature, .. } => assert_eq!(signature, SIGNATURE_2),
        other => panic!("unexpected {:?}", other),
    }
    // Upper-case hex digits read the same.
    let (_, action) = challenged(SECRET_2, "ab");
    let (_, upper) = challenged(SECRET_2, "AB");
    match (action, upper) {
        (AuthAction::SubmitSignature { signature: a, .. }, AuthAction::SubmitSignature { signature: b, .. }) => assert_eq!(a, b),
        other => panic!("unexpected {:?}", other),
    }
}

fn failure_message(action: AuthAction) -> String {
    match action {
        AuthAction::Fail(SanctumError::Protocol(m)) => m,
        other => panic!("unexpected {:?}", other),
    }
}

#[test]
fn challenge_that_is_not_hex_fails() {
    let (flow, action) = challenged(SECRET_1, "abc");
    assert_eq!(flow.phase(), AuthPhase::Finished);
    assert_eq!(failure_message(action), "invalid challenge hex: Odd number of digits");
    let (_, action) = challenged(SECRET_1, "00zz");
    assert_eq!(failure_message(action), "invalid challenge hex: Invalid character 'z' at position 2");
}

#[test]
fn result_completes_or_fails_the_exchange() {
    let (mut flow, _) = challenged(SECRET_1, "");
    match flow.on_result(AuthResult { authenticated: true, session_id: Some("s-1".to_string()) }) {
        AuthAction::Complete(r) => {
            assert!(r.authenticated);
            assert_eq!(r.session_id.as_deref(), Some("s-1"));
        }
        other => panic!("unexpected {:?}", other),
    }
    assert_eq!(flow.phase(), AuthPhase::Finished);

    let (mut flow, _) = challenged(SECRET_1, "");
    match flow.on_result(AuthResult { authenticated: false, session_id: None }) {
        AuthAction::Fail(SanctumError::Auth(m)) => assert_eq!(m, "server rejected authentication"),
        other => panic!("unexpected {:?}", other),
    }
}

#[test]
fn submitted_signature_is_hex_of_the_key_signature() {
    let secret = key(SECRET_2);
    let challenge_bytes = [0xde, 0xad, 0xbe, 0xef];
    let (_, action) = challenged(SECRET_2, "deadbeef");
    let expected = SigningKey::from_bytes(&secret).sign(&challenge_bytes).to_bytes();
    match action {
        AuthAction::SubmitSignature { signature, .. } => {
            assert_eq!(signature.len(), 128);
            assert_eq!(hex::decode(&signature).unwrap(), expected.to_vec());
        }
        other => panic!("unexpected {:?}", other),
    }
}

#[test]
fn successive_ids_are_one_two_three_and_so_on() {
    let mut ids = RequestIds::new();
    for expected in 1..=1000u64 {
        assert_eq!(ids.next_id(), expected);
    }
}
