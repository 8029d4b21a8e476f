//! The messages exchanged with the vault.

use vstd::prelude::*;

verus! {

/// A JSON-RPC request.
#[derive(Debug)]
pub struct RpcRequest {
    pub id: u64,
    pub method: String,
    pub params: serde_json::Value,
}

/// A JSON-RPC response.
#[derive(Debug)]
pub struct RpcResponse {
    pub id: u64,
    pub result: Option<serde_json::Value>,
    pub error: Option<serde_json::Value>,
}

/// A retrieved credential with lease information.
#[derive(Debug)]
pub struct Credential {
    pub path: String,
    pub value: serde_json::Value,
    pub lease_id: String,
    pub ttl: u64,
}

/// Summary info for a credential (returned by list).
#[derive(Debug, Clone)]
pub struct CredentialInfo {
    pub path: String,
    pub credential_type: Option<String>,
    pub description: Option<String>,
}

/// Result of a use-not-retrieve operation.
#[derive(Debug)]
pub struct UseResult {
    pub success: bool,
    pub output: Option<serde_json::Value>,
}

/// Authentication challenge from the server.
#[derive(Debug)]
pub struct AuthChallenge {
    pub challenge: String,
}

/// Authentication result.
#[derive(Debug)]
pub struct AuthResult {
    pub authenticated: bool,
    pub session_id: Option<String>,
}

} // verus!
