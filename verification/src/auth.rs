//! The Ed25519 challenge-response authentication, as a state machine.
//!
//! The client asks the vault for a challenge, signs the bytes the challenge
//! spells in hex with the agent's secret key, sends the signature in hex,
//! and reads whether the vault accepted it. The transport makes the calls; this
//! machine decides what to send next and when the exchange is over.

use vstd::prelude::*;
use vstd::utf8::encode_utf8;
use crate::error::SanctumError;
use crate::outside::{
    HexError,
    ed25519_sign,
    ed25519_signature,
    hex_decode,
    hex_decode_spec,
    hex_encode,
    hex_error_message,
    hex_error_text,
    hex_lower,
};
use crate::types::{AuthChallenge, AuthResult};

verus! {

/// Where an authentication exchange stands.
#[derive(Debug, Clone, Copy, PartialEq, Eq, Structural)]
pub enum AuthPhase {
    /// Nothing has been sent yet.
    Ready,
    /// A challenge has been requested.
    AwaitingChallenge,
    /// The signed challenge has been submitted.
    AwaitingResult,
    /// The exchange is over, one way or the other.
    Finished,
}

/// What the client is to do next.
#[derive(Debug)]
pub enum AuthAction {
    /// Call `auth.challenge` with `{"agent": agent}`.
    RequestChallenge { agent: String },
    /// Call `auth.verify` with `{"agent": agent, "signature": signature}`.
    SubmitSignature { agent: String, signature: String },
    /// The vault accepted the agent.
    Complete(AuthResult),
    /// The exchange failed.
    Fail(SanctumError),
}

/// The answer to a challenge: the lower-case hex of the Ed25519 signature,
/// under `secret_key`, of the bytes that the challenge text spells in hex;
/// or why the challenge text is not hex.
pub open spec fn challenge_answer(secret_key: Seq<u8>, challenge: Seq<char>) -> Result<
    Seq<char>,
    HexError,
> {
    match hex_decode_spec(encode_utf8(challenge)) {
        Ok(bytes) => Ok(hex_lower(ed25519_signature(secret_key, bytes))),
        Err(e) => Err(e),
    }
}

/// The answer to a challenge signs exactly the whole byte string that the
/// challenge spells in hex, whatever its length, and a challenge that is not
/// hex gets no answer but the reason it is not.
pub proof fn lemma_answer_signs_whole_challenge(secret_key: Seq<u8>, challenge: Seq<char>)
    ensures
        hex_decode_spec(encode_utf8(challenge)) matches Ok(bytes) ==> challenge_answer(
            secret_key,
            challenge,
        ) == Ok::<Seq<char>, HexError>(hex_lower(ed25519_signature(secret_key, bytes))),
        hex_decode_spec(encode_utf8(challenge)) matches Err(e) ==> challenge_answer(
            secret_key,
            challenge,
        ) == Err::<Seq<char>, HexError>(e),
{
}

/// The message of the error for a challenge that is not hex.
pub open spec fn invalid_challenge_text(e: HexError) -> Seq<char> {
    "invalid challenge hex: "@ + hex_error_message(e)
}

/// One authentication exchange of an agent.
pub struct AuthFlow {
    agent: String,
    secret_key: [u8; 32],
    phase: AuthPhase,
}

impl AuthFlow {
    /// The agent's name.
    pub closed spec fn spec_agent(&self) -> Seq<char> {
        self.agent@
    }

    /// The agent's 32-byte Ed25519 secret key.
    pub closed spec fn spec_secret_key(&self) -> Seq<u8> {
        self.secret_key@
    }

    /// Where the exchange stands.
    pub closed spec fn spec_phase(&self) -> AuthPhase {
        self.phase
    }

    /// A new exchange for the agent `agent_name` with its secret key.
    pub fn new(agent_name: &str, secret_key: [u8; 32]) -> (flow: AuthFlow)
        ensures
            flow.spec_agent() == agent_name@,
            flow.spec_secret_key() == secret_key@,
            flow.spec_phase() == AuthPhase::Ready,
    {
        AuthFlow { agent: String::from_str(agent_name), secret_key, phase: AuthPhase::Ready }
    }

    /// Where the exchange stands.
    pub fn phase(&self) -> (phase: AuthPhase)
        ensures
            phase == self.spec_phase(),
    {
        self.phase
    }

    /// Opens the exchange: ask the vault for a challenge for this agent.
    pub fn start(&mut self) -> (action: AuthAction)
        requires
            old(self).spec_phase() == AuthPhase::Ready,
        ensures
            final(self).spec_phase() == AuthPhase::AwaitingChallenge,
            final(self).spec_agent() == old(self).spec_agent(),
            final(self).spec_secret_key() == old(self).spec_secret_key(),
            action matches AuthAction::RequestChallenge { agent } && agent@ == old(
                self,
            ).spec_agent(),
    {
        self.phase = AuthPhase::AwaitingChallenge;
        AuthAction::RequestChallenge { agent: self.agent.clone() }
    }

    /// Answers the vault's challenge: submit the hex of the signature over
    /// the bytes the challenge spells in hex, or fail with a protocol error
    /// when the challenge is not hex.
    pub fn on_challenge(&mut self, challenge: &AuthChallenge) -> (action: AuthAction)
        requires
            old(self).spec_phase() == AuthPhase::AwaitingChallenge,
        ensures
            final(self).spec_agent() == old(self).spec_agent(),
            final(self).spec_secret_key() == old(self).spec_secret_key(),
            match challenge_answer(old(self).spec_secret_key(), challenge.challenge@) {
                Ok(answer) => {
                    &&& final(self).spec_phase() == AuthPhase::AwaitingResult
                    &&& action matches AuthAction::SubmitSignature { agent, signature }
                    &&& agent@ == old(self).spec_agent()
                    &&& signature@ == answer
                },
                Err(e) => {
                    &&& final(self).spec_phase() == AuthPhase::Finished
                    &&& action matches AuthAction::Fail(SanctumError::Protocol(m))
                    &&& m@ == invalid_challenge_text(e)
                },
            },
            hex_decode_spec(encode_utf8(challenge.challenge@)) matches Ok(bytes) ==> (
            action matches AuthAction::SubmitSignature { signature, .. } && signature@ == hex_lower(
                ed25519_signature(old(self).spec_secret_key(), bytes),
            )),
            hex_decode_spec(encode_utf8(challenge.challenge@)) is Err ==> action is Fail,
    {
        let challenge_bytes = challenge.challenge.as_str().as_bytes();
        match hex_decode(challenge_bytes) {
            Err(e) => {
                let mut m = String::from_str("invalid challenge hex: ");
                let detail = hex_error_text(&e);
                m.append(detail.as_str());
                self.phase = AuthPhase::Finished;
                AuthAction::Fail(SanctumError::Protocol(m))
            },
            Ok(message) => {
                let signature = ed25519_sign(&self.secret_key, message.as_slice());
                let text = hex_encode(signature.as_slice());
                self.phase = AuthPhase::AwaitingResult;
                AuthAction::SubmitSignature { agent: self.agent.clone(), signature: text }
            },
        }
    }

    /// Closes the exchange on the vault's answer: it completes when the
    /// vault reports the agent authenticated, and fails with an
    /// authentication error when not.
    pub fn on_result(&mut self, result: AuthResult) -> (action: AuthAction)
        requires
            old(self).spec_phase() == AuthPhase::AwaitingResult,
        ensures
            final(self).spec_phase() == AuthPhase::Finished,
            final(self).spec_agent() == old(self).spec_agent(),
            final(self).spec_secret_key() == old(self).spec_secret_key(),
            if result.authenticated {
                action == AuthAction::Complete(result)
            } else {
                action matches AuthAction::Fail(SanctumError::Auth(m)) && m@
                    == "server rejected authentication"@
            },
    {
        self.phase = AuthPhase::Finished;
        if result.authenticated {
            AuthAction::Complete(result)
        } else {
            AuthAction::Fail(SanctumError::Auth(String::from_str("server rejected authentication")))
        }
    }
}

} // verus!
