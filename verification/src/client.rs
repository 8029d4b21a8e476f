//! The decisions of the vault client that do not depend on the transport:
//! which methods exist, how requests are numbered, how a response is
//! turned into a result, and which addresses name a Unix socket.

use vstd::prelude::*;
use crate::error::{SanctumError, VaultError, is_unknown_vault_error};
use crate::types::{RpcRequest, RpcResponse};

verus! {

/// The remote methods of the vault.
#[derive(Debug, Clone, Copy, PartialEq, Eq, Structural)]
pub enum RpcMethod {
    /// Ask for an authentication challenge.
    AuthChallenge,
    /// Submit the signed challenge.
    AuthVerify,
    /// Retrieve a credential's value under a lease.
    CredentialRetrieve,
    /// List the credentials the agent may use.
    CredentialList,
    /// Release a lease early.
    LeaseRelease,
    /// Use a credential without retrieving it.
    CredentialUse,
}

/// The wire name of a method.
pub open spec fn method_text(method: RpcMethod) -> Seq<char> {
    match method {
        RpcMethod::AuthChallenge => "auth.challenge"@,
        RpcMethod::AuthVerify => "auth.verify"@,
        RpcMethod::CredentialRetrieve => "credential.retrieve"@,
        RpcMethod::CredentialList => "credential.list"@,
        RpcMethod::LeaseRelease => "lease.release"@,
        RpcMethod::CredentialUse => "credential.use"@,
    }
}

impl RpcMethod {
    /// The wire name of this method, e.g. `credential.list`.
    pub fn name(&self) -> (text: &'static str)
        ensures
            text@ == method_text(*self),
    {
        match self {
            RpcMethod::AuthChallenge => "auth.challenge",
            RpcMethod::AuthVerify => "auth.verify",
            RpcMethod::CredentialRetrieve => "credential.retrieve",
            RpcMethod::CredentialList => "credential.list",
            RpcMethod::LeaseRelease => "lease.release",
            RpcMethod::CredentialUse => "credential.use",
        }
    }
}

/// The id that follows `id`: one more, wrapping from `u64::MAX` to 0 as an
/// atomic `fetch_add` does.
pub open spec fn id_after(id: u64) -> u64 {
    ((id + 1) % 0x1_0000_0000_0000_0000) as u64
}

/// The id handed out `k` requests after the one numbered `start`.
pub open spec fn id_at(start: u64, k: nat) -> u64 {
    ((start + k) % 0x1_0000_0000_0000_0000) as u64
}

/// Numbers the requests of one client, starting from 1.
pub struct RequestIds {
    next: u64,
}

impl View for RequestIds {
    type V = u64;

    /// The id the next request gets.
    closed spec fn view(&self) -> u64 {
        self.next
    }
}

impl RequestIds {
    /// A fresh numbering; the first request gets id 1.
    pub fn new() -> (ids: RequestIds)
        ensures
            ids@ == 1,
    {
        RequestIds { next: 1 }
    }

    /// Hands out the next id.
    pub fn next_id(&mut self) -> (id: u64)
        ensures
            id == old(self)@,
            final(self)@ == id_after(old(self)@),
    {
        let id = self.next;
        self.next = self.next.wrapping_add(1);
        id
    }

    /// Builds the request for a call of `method` with `params`, numbered
    /// with the next id.
    pub fn request(&mut self, method: &str, params: serde_json::Value) -> (req: RpcRequest)
        ensures
            req.id == old(self)@,
            req.method@ == method@,
            req.params == params,
            final(self)@ == id_after(old(self)@),
    {
        let id = self.next_id();
        RpcRequest { id, method: String::from_str(method), params }
    }
}

/// Handing out ids one after the other walks through `id_at`.
pub proof fn lemma_id_after_steps(start: u64, k: nat)
    ensures
        id_after(id_at(start, k)) == id_at(start, k + 1),
{
    let m: int = 0x1_0000_0000_0000_0000;
    let a: int = start + k;
    vstd::arithmetic::div_mod::lemma_add_mod_noop(a, 1, m);
    vstd::arithmetic::div_mod::lemma_small_mod(1, m as nat);
}

/// Within any 2^64 consecutive requests no two get the same id.
pub proof fn lemma_ids_unique(start: u64, i: nat, j: nat)
    requires
        i < j < 0x1_0000_0000_0000_0000,
    ensures
        id_at(start, i) != id_at(start, j),
{
    let m: int = 0x1_0000_0000_0000_0000;
    let a: int = start + i;
    let b: int = start + j;
    vstd::arithmetic::div_mod::lemma_sub_mod_noop(b, a, m);
    vstd::arithmetic::div_mod::lemma_small_mod((b - a) as nat, m as nat);
    assert(0int % m == 0) by {
        vstd::arithmetic::div_mod::lemma_small_mod(0, m as nat);
    }
}

/// The ids that successive `next_id` calls return on a numbering fresh
/// from `RequestIds::new()` (the first is 1, each next one is `id_after`
/// of the one before) are 1, 2, 3, ... in that order, so, as long as fewer
/// than 2^64 - 1 have been handed out, they strictly increase and no two
/// are equal.
pub proof fn lemma_ids_from_new(ids: Seq<u64>)
    requires
        ids.len() > 0,
        ids[0] == 1,
        forall|k: int| 0 <= k < ids.len() - 1 ==> #[trigger] ids[k + 1] == id_after(ids[k]),
    ensures
        forall|k: int| 0 <= k < ids.len() ==> #[trigger] ids[k] == id_at(1, k as nat),
        ids.len() < 0xffff_ffff_ffff_ffff ==> forall|k: int|
            0 <= k < ids.len() ==> #[trigger] ids[k] == k + 1,
        ids.len() < 0xffff_ffff_ffff_ffff ==> forall|i: int, j: int|
            0 <= i < j < ids.len() ==> #[trigger] ids[i] < #[trigger] ids[j],
    decreases ids.len(),
{
    if ids.len() > 1 {
        let prefix = ids.drop_last();
        assert forall|k: int| 0 <= k < prefix.len() - 1 implies #[trigger] prefix[k + 1] == id_after(
            prefix[k],
        ) by {
            assert(ids[k + 1] == id_after(ids[k]));
        }
        lemma_ids_from_new(prefix);
        let last = ids.len() - 1;
        assert(prefix[last - 1] == id_at(1, (last - 1) as nat));
        assert(ids[(last - 1) + 1] == id_after(ids[last - 1]));
        lemma_id_after_steps(1, (last - 1) as nat);
        assert(ids[last] == id_at(1, last as nat));
        assert forall|k: int| 0 <= k < ids.len() implies #[trigger] ids[k] == id_at(1, k as nat) by {
            if k < last {
                assert(ids[k] == prefix[k]);
            }
        }
    } else {
        assert(1u64 == id_at(1, 0)) by {
            vstd::arithmetic::div_mod::lemma_small_mod(1, 0x1_0000_0000_0000_0000);
        }
    }
    if ids.len() < 0xffff_ffff_ffff_ffff {
        assert forall|k: int| 0 <= k < ids.len() implies #[trigger] ids[k] == k + 1 by {
            assert(ids[k] == id_at(1, k as nat));
            vstd::arithmetic::div_mod::lemma_small_mod((1 + k) as nat, 0x1_0000_0000_0000_0000);
        }
    }
}

/// Turns a response into the call's result.
///
/// A response that carries an error fails with that vault error;
/// `error_body` is that error read as a `VaultError`, or `None` when it
/// could not be read, and then the error is `VaultError::unknown()`. A
/// response without error gives its result, and one with neither fails with
/// a protocol error.
pub fn handle_response(resp: RpcResponse, error_body: Option<VaultError>) -> (result: Result<
    serde_json::Value,
    SanctumError,
>)
    ensures
        match resp.error {
            Some(_) => result matches Err(SanctumError::Vault(e)) && match error_body {
                Some(body) => *e == body,
                None => is_unknown_vault_error(*e),
            },
            None => match resp.result {
                Some(value) => result == Ok::<serde_json::Value, SanctumError>(value),
                None => result matches Err(SanctumError::Protocol(m)) && m@
                    == "response missing both result and error"@,
            },
        },
{
    if resp.error.is_some() {
        let vault_err = match error_body {
            Some(body) => body,
            None => VaultError::unknown(),
        };
        return Err(SanctumError::Vault(Box::new(vault_err)));
    }
    match resp.result {
        Some(value) => Ok(value),
        None => Err(
            SanctumError::Protocol(String::from_str("response missing both result and error")),
        ),
    }
}

/// Whether `text` begins with the character `c`.
pub open spec fn starts_with_char(text: Seq<char>, c: char) -> bool {
    text.len() > 0 && text[0] == c
}

/// Whether a connection address names a Unix socket: it does when it
/// starts with `/` or `.`; every other address is a TCP address.
pub fn is_unix_socket_address(addr: &str) -> (unix: bool)
    ensures
        unix == (starts_with_char(addr@, '/') || starts_with_char(addr@, '.')),
        unix == (addr@.len() > 0 && (addr@[0] == '/' || addr@[0] == '.')),
{
    if addr.unicode_len() > 0 {
        let first = addr.get_char(0);
        first == '/' || first == '.'
    } else {
        false
    }
}

/// A text starts with `c` exactly when its first character is `c`,
/// whatever follows.
pub proof fn lemma_starts_with_first_char(text: Seq<char>, c: char, rest: Seq<char>)
    ensures
        starts_with_char(text, c) <==> (text.len() > 0 && text[0] == c),
        text.len() > 0 ==> (starts_with_char(text + rest, c) <==> starts_with_char(text, c)),
        starts_with_char(seq![c] + rest, c),
{
    if text.len() > 0 {
        assert((text + rest)[0] == text[0]);
    }
    assert((seq![c] + rest)[0] == c);
}

} // verus!
