//! The error vocabulary of the vault and of this library.

use vstd::prelude::*;

verus! {

/// Error codes returned by the SanctumAI vault. On the wire each is its
/// name in SCREAMING_SNAKE_CASE; any code this library does not know reads
/// as `Unknown`.
#[derive(Debug, Clone, Copy, PartialEq, Eq, Structural)]
pub enum ErrorCode {
    AuthFailed,
    AccessDenied,
    CredentialNotFound,
    VaultLocked,
    LeaseExpired,
    RateLimited,
    SessionExpired,
    Unknown,
}

/// The wire name of a code, which is also how it is displayed.
pub open spec fn code_text(code: ErrorCode) -> Seq<char> {
    match code {
        ErrorCode::AuthFailed => "AUTH_FAILED"@,
        ErrorCode::AccessDenied => "ACCESS_DENIED"@,
        ErrorCode::CredentialNotFound => "CREDENTIAL_NOT_FOUND"@,
        ErrorCode::VaultLocked => "VAULT_LOCKED"@,
        ErrorCode::LeaseExpired => "LEASE_EXPIRED"@,
        ErrorCode::RateLimited => "RATE_LIMITED"@,
        ErrorCode::SessionExpired => "SESSION_EXPIRED"@,
        ErrorCode::Unknown => "UNKNOWN"@,
    }
}

/// The code that a wire name reads as: the code of that name, or `Unknown`
/// for any other text.
pub open spec fn code_from_text(text: Seq<char>) -> ErrorCode {
    if text == "AUTH_FAILED"@ {
        ErrorCode::AuthFailed
    } else if text == "ACCESS_DENIED"@ {
        ErrorCode::AccessDenied
    } else if text == "CREDENTIAL_NOT_FOUND"@ {
        ErrorCode::CredentialNotFound
    } else if text == "VAULT_LOCKED"@ {
        ErrorCode::VaultLocked
    } else if text == "LEASE_EXPIRED"@ {
        ErrorCode::LeaseExpired
    } else if text == "RATE_LIMITED"@ {
        ErrorCode::RateLimited
    } else if text == "SESSION_EXPIRED"@ {
        ErrorCode::SessionExpired
    } else {
        ErrorCode::Unknown
    }
}

fn str_equal(a: &str, b: &str) -> (equal: bool)
    ensures
        equal == (a@ == b@),
{
    let a_owned = String::from_str(a);
    let b_owned = String::from_str(b);
    a_owned == b_owned
}

impl ErrorCode {
    /// The wire name of this code, e.g. `VAULT_LOCKED`.
    pub fn as_str(&self) -> (text: &'static str)
        ensures
            text@ == code_text(*self),
    {
        match self {
            ErrorCode::AuthFailed => "AUTH_FAILED",
            ErrorCode::AccessDenied => "ACCESS_DENIED",
            ErrorCode::CredentialNotFound => "CREDENTIAL_NOT_FOUND",
            ErrorCode::VaultLocked => "VAULT_LOCKED",
            ErrorCode::LeaseExpired => "LEASE_EXPIRED",
            ErrorCode::RateLimited => "RATE_LIMITED",
            ErrorCode::SessionExpired => "SESSION_EXPIRED",
            ErrorCode::Unknown => "UNKNOWN",
        }
    }

    /// The displayed form of this code: its wire name.
    pub fn to_string(&self) -> (text: String)
        ensures
            text@ == code_text(*self),
    {
        String::from_str(self.as_str())
    }

    /// Reads a wire name; a name this library does not know gives `Unknown`.
    pub fn from_code(text: &str) -> (code: ErrorCode)
        ensures
            code == code_from_text(text@),
            code != ErrorCode::Unknown ==> text@ == code_text(code),
    {
        proof {
            lemma_known_code_only_from_its_name(text@);
        }
        if str_equal(text, "AUTH_FAILED") {
            ErrorCode::AuthFailed
        } else if str_equal(text, "ACCESS_DENIED") {
            ErrorCode::AccessDenied
        } else if str_equal(text, "CREDENTIAL_NOT_FOUND") {
            ErrorCode::CredentialNotFound
        } else if str_equal(text, "VAULT_LOCKED") {
            ErrorCode::VaultLocked
        } else if str_equal(text, "LEASE_EXPIRED") {
            ErrorCode::LeaseExpired
        } else if str_equal(text, "RATE_LIMITED") {
            ErrorCode::RateLimited
        } else if str_equal(text, "SESSION_EXPIRED") {
            ErrorCode::SessionExpired
        } else {
            ErrorCode::Unknown
        }
    }
}

/// Reading the wire name of any code gives that code back.
pub proof fn lemma_code_text_roundtrip(code: ErrorCode)
    ensures
        code_from_text(code_text(code)) == code,
{
    reveal_strlit("AUTH_FAILED");
    reveal_strlit("ACCESS_DENIED");
    reveal_strlit("CREDENTIAL_NOT_FOUND");
    reveal_strlit("VAULT_LOCKED");
    reveal_strlit("LEASE_EXPIRED");
    reveal_strlit("RATE_LIMITED");
    reveal_strlit("SESSION_EXPIRED");
    reveal_strlit("UNKNOWN");
    // Each name differs from every name tested before it in its first or
    // second character, so the reading stops at the right branch.
    match code {
        ErrorCode::AuthFailed => {},
        ErrorCode::AccessDenied => {
            assert("ACCESS_DENIED"@[1] != "AUTH_FAILED"@[1]);
        },
        ErrorCode::CredentialNotFound => {
            assert("CREDENTIAL_NOT_FOUND"@[0] != "AUTH_FAILED"@[0]);
            assert("CREDENTIAL_NOT_FOUND"@[0] != "ACCESS_DENIED"@[0]);
        },
        ErrorCode::VaultLocked => {
            assert("VAULT_LOCKED"@[0] != "AUTH_FAILED"@[0]);
            assert("VAULT_LOCKED"@[0] != "ACCESS_DENIED"@[0]);
            assert("VAULT_LOCKED"@[0] != "CREDENTIAL_NOT_FOUND"@[0]);
        },
        ErrorCode::LeaseExpired => {
            assert("LEASE_EXPIRED"@[0] != "AUTH_FAILED"@[0]);
            assert("LEASE_EXPIRED"@[0] != "ACCESS_DENIED"@[0]);
            assert("LEASE_EXPIRED"@[0] != "CREDENTIAL_NOT_FOUND"@[0]);
            assert("LEASE_EXPIRED"@[0] != "VAULT_LOCKED"@[0]);
        },
        ErrorCode::RateLimited => {
            assert("RATE_LIMITED"@[0] != "AUTH_FAILED"@[0]);
            assert("RATE_LIMITED"@[0] != "ACCESS_DENIED"@[0]);
            assert("RATE_LIMITED"@[0] != "CREDENTIAL_NOT_FOUND"@[0]);
            assert("RATE_LIMITED"@[0] != "VAULT_LOCKED"@[0]);
            assert("RATE_LIMITED"@[0] != "LEASE_EXPIRED"@[0]);
        },
        ErrorCode::SessionExpired => {
            assert("SESSION_EXPIRED"@[0] != "AUTH_FAILED"@[0]);
            assert("SESSION_EXPIRED"@[0] != "ACCESS_DENIED"@[0]);
            assert("SESSION_EXPIRED"@[0] != "CREDENTIAL_NOT_FOUND"@[0]);
            assert("SESSION_EXPIRED"@[0] != "VAULT_LOCKED"@[0]);
            assert("SESSION_EXPIRED"@[0] != "LEASE_EXPIRED"@[0]);
            assert("SESSION_EXPIRED"@[0] != "RATE_LIMITED"@[0]);
        },
        ErrorCode::Unknown => {
            assert("UNKNOWN"@[0] != "AUTH_FAILED"@[0]);
            assert("UNKNOWN"@[0] != "ACCESS_DENIED"@[0]);
            assert("UNKNOWN"@[0] != "CREDENTIAL_NOT_FOUND"@[0]);
            assert("UNKNOWN"@[0] != "VAULT_LOCKED"@[0]);
            assert("UNKNOWN"@[0] != "LEASE_EXPIRED"@[0]);
            assert("UNKNOWN"@[0] != "RATE_LIMITED"@[0]);
            assert("UNKNOWN"@[0] != "SESSION_EXPIRED"@[0]);
        },
    }
}

/// A text reads as a known code only when it is exactly that code's wire
/// name; every other text reads as `Unknown`.
pub proof fn lemma_known_code_only_from_its_name(text: Seq<char>)
    ensures
        code_from_text(text) != ErrorCode::Unknown ==> text == code_text(code_from_text(text)),
        code_from_text(text) == ErrorCode::AuthFailed ==> text == "AUTH_FAILED"@,
        code_from_text(text) == ErrorCode::AccessDenied ==> text == "ACCESS_DENIED"@,
        code_from_text(text) == ErrorCode::CredentialNotFound ==> text == "CREDENTIAL_NOT_FOUND"@,
        code_from_text(text) == ErrorCode::VaultLocked ==> text == "VAULT_LOCKED"@,
        code_from_text(text) == ErrorCode::LeaseExpired ==> text == "LEASE_EXPIRED"@,
        code_from_text(text) == ErrorCode::RateLimited ==> text == "RATE_LIMITED"@,
        code_from_text(text) == ErrorCode::SessionExpired ==> text == "SESSION_EXPIRED"@,
        (forall|c: ErrorCode| c != ErrorCode::Unknown ==> text != #[trigger] code_text(c))
            ==> code_from_text(text) == ErrorCode::Unknown,
{
    let code = code_from_text(text);
    assert(code != ErrorCode::Unknown ==> text == code_text(code));
}

/// Structured error from the vault.
#[derive(Debug)]
pub struct VaultError {
    pub code: ErrorCode,
    pub message: String,
    pub detail: Option<String>,
    pub suggestion: Option<String>,
    pub docs_url: Option<String>,
    pub context: Option<serde_json::Value>,
}

/// The displayed form of a vault error: `[CODE] message`, followed by
/// ` — detail` when there is a detail.
pub open spec fn vault_error_text(e: VaultError) -> Seq<char> {
    "["@ + code_text(e.code) + "] "@ + e.message@ + match e.detail {
        Some(d) => " — "@ + d@,
        None => Seq::empty(),
    }
}

/// The error that stands for a vault error whose body could not be read.
pub open spec fn is_unknown_vault_error(e: VaultError) -> bool {
    &&& e.code == ErrorCode::Unknown
    &&& e.message@ == "Unknown error"@
    &&& e.detail is None
    &&& e.suggestion is None
    &&& e.docs_url is None
    &&& e.context is None
}

impl VaultError {
    /// The error used when the vault's error body cannot be read.
    pub fn unknown() -> (e: VaultError)
        ensures
            is_unknown_vault_error(e),
    {
        VaultError {
            code: ErrorCode::Unknown,
            message: String::from_str("Unknown error"),
            detail: None,
            suggestion: None,
            docs_url: None,
            context: None,
        }
    }

    /// The displayed form: `[CODE] message`, then ` — detail` if present.
    pub fn to_string(&self) -> (text: String)
        ensures
            text@ == vault_error_text(*self),
    {
        let mut text = String::from_str("[");
        text.append(self.code.as_str());
        text.append("] ");
        text.append(self.message.as_str());
        match &self.detail {
            Some(d) => {
                text.append(" — ");
                text.append(d.as_str());
            },
            None => {},
        }
        text
    }
}

/// Top-level error of the library.
#[derive(Debug)]
pub enum SanctumError {
    /// The transport failed.
    Io(std::io::Error),
    /// A message could not be read or written as JSON.
    Json(serde_json::Error),
    /// The vault answered with a structured error.
    Vault(Box<VaultError>),
    /// The peer broke the wire protocol.
    Protocol(String),
    /// The vault refused the agent's authentication.
    Auth(String),
    /// A signature could not be produced or checked.
    Signature(ed25519_dalek::SignatureError),
}

} // verus!
