//! The authentication protocol handler: token issuance and token
//! validation, orchestrating credential lookup, password verification,
//! token generation and the session cache.
//!
//! `AuthService` runs the protocol over the in-process store models and
//! is verified end to end. The step functions beside it —
//! `issue_decision` and `issue_write_outcome` — carry the same
//! decisions for a deployment whose stores are remote: the caller does
//! the store calls and hands their plain outcomes in, and every
//! decision between those calls is made, verified, here.

use vstd::prelude::*;
use vstd::pervasive::unreached;

use crate::credential_store::{CredentialStore, find_credential};
use crate::password::{HashCheck, check_password, password_verdict};
use crate::protocol::{
    AuthResponse, CacheFailure, ServiceError, StatusCode, TTL_SECONDS, TokenResponse,
    authenticate_outcome, fail_token_response, is_fail_token_response,
};
use crate::records::{CredentialLookup, CredentialView};
use crate::session_cache::{Session, SessionCache, live_user, stored};
use crate::token::{TOKEN_LENGTH, fresh_token};

verus! {

/// What an issuance request comes to once the credentials are known:
/// reply at once with a rejection, refuse with the opaque error, or
/// store a freshly generated token for the user and then reply with it.
pub enum IssueDecision {
    Reply(TokenResponse),
    Refuse(ServiceError),
    Store { token: String, user_id: u64 },
}

/// Decides an issuance request from the credential lookup's outcome.
/// An unknown username and a wrong password produce the same rejection
/// shape; corrupt stored data — an unusable record or a malformed
/// hash — is refused as unavailable; a verified password yields a
/// fresh token to be stored for the account's identity.
pub fn issue_decision(password: &String, lookup: &CredentialLookup) -> (r: IssueDecision)
    ensures
        match lookup@ {
            CredentialView::NoUser => r matches IssueDecision::Reply(resp)
                && is_fail_token_response(resp),
            CredentialView::Corrupt => r matches IssueDecision::Refuse(e) && e
                == ServiceError::Unavailable,
            CredentialView::Found { user_id, password_hash } => match password_verdict(
                password@,
                password_hash,
            ) {
                HashCheck::Match => r matches IssueDecision::Store { token, user_id: uid }
                    && uid == user_id && token@.len() == TOKEN_LENGTH,
                HashCheck::Mismatch => r matches IssueDecision::Reply(resp)
                    && is_fail_token_response(resp),
                HashCheck::Malformed => r matches IssueDecision::Refuse(e) && e
                    == ServiceError::Unavailable,
            },
        },
{
    match lookup {
        CredentialLookup::NoUser => IssueDecision::Reply(fail_token_response()),
        CredentialLookup::Corrupt => IssueDecision::Refuse(ServiceError::Unavailable),
        CredentialLookup::Found { user_id, password_hash } => {
            match check_password(password.as_str(), password_hash.as_str()) {
                HashCheck::Match => IssueDecision::Store {
                    token: fresh_token(),
                    user_id: *user_id,
                },
                HashCheck::Mismatch => IssueDecision::Reply(fail_token_response()),
                HashCheck::Malformed => IssueDecision::Refuse(ServiceError::Unavailable),
            }
        },
    }
}

/// Turns the cache's answer to storing a decided token into the reply
/// of the issuance operation: a stored token is returned with success,
/// a cache failure is surfaced as the opaque service error.
pub fn issue_write_outcome(token: String, user_id: u64, write: Result<(), CacheFailure>) -> (r:
    Result<TokenResponse, ServiceError>)
    ensures
        match write {
            Ok(_) => r matches Ok(resp) && resp.status_code == StatusCode::Success && resp.token
                == token && resp.user_id == user_id,
            Err(_) => r == Err::<TokenResponse, ServiceError>(ServiceError::Unavailable),
        },
{
    match write {
        Ok(_) => Ok(TokenResponse { status_code: StatusCode::Success, token, user_id }),
        Err(_) => Err(ServiceError::Unavailable),
    }
}

/// The protocol handler over its two stores.
pub struct AuthService {
    pub credential_store: CredentialStore,
    pub session_cache: SessionCache,
}

impl AuthService {
    pub open spec fn wf(&self) -> bool {
        self.session_cache.wf()
    }

    /// A handler over the given accounts, with no session issued yet.
    pub fn new(credential_store: CredentialStore) -> (r: Self)
        ensures
            r.wf(),
            r.credential_store == credential_store,
            r.session_cache@ == Map::<Seq<char>, Session>::empty(),
    {
        AuthService { credential_store, session_cache: SessionCache::new() }
    }

    /// Token issuance. An unknown username or a wrong password is
    /// answered with the rejection shape — `Fail`, empty token, zero
    /// id — and leaves no session behind; a malformed stored hash is
    /// refused as unavailable; a verified password stores a fresh
    /// token with expiry `now + TTL_SECONDS` and returns it with the
    /// account's identity.
    pub fn retrive_token(&mut self, username: &String, password: &String, now: u64) -> (r: Result<
        TokenResponse,
        ServiceError,
    >)
        requires
            old(self).wf(),
            now + TTL_SECONDS <= u64::MAX,
        ensures
            final(self).wf(),
            final(self).credential_store == old(self).credential_store,
            match find_credential(old(self).credential_store@, username@) {
                None => r matches Ok(resp) && is_fail_token_response(resp)
                    && final(self).session_cache@ == old(self).session_cache@,
                Some(cred) => match password_verdict(password@, cred.password_hash) {
                    HashCheck::Match => r matches Ok(resp)
                        && resp.status_code == StatusCode::Success
                        && resp.user_id == cred.user_id
                        && resp.token@.len() == TOKEN_LENGTH
                        && final(self).session_cache@ == stored(
                            old(self).session_cache@, resp.token@, cred.user_id, now),
                    HashCheck::Mismatch => r matches Ok(resp) && is_fail_token_response(resp)
                        && final(self).session_cache@ == old(self).session_cache@,
                    HashCheck::Malformed => (r matches Err(e) && e == ServiceError::Unavailable)
                        && final(self).session_cache@ == old(self).session_cache@,
                },
            },
    {
        let lookup = match self.credential_store.find_user(username) {
            Some(found) => CredentialLookup::Found { user_id: found.0, password_hash: found.1 },
            None => CredentialLookup::NoUser,
        };
        match issue_decision(password, &lookup) {
            IssueDecision::Reply(resp) => Ok(resp),
            IssueDecision::Refuse(e) => Err(e),
            IssueDecision::Store { token, user_id } => {
                let returned = token.clone();
                self.session_cache.set(token, user_id, now);
                Ok(TokenResponse { status_code: StatusCode::Success, token: returned, user_id })
            },
        }
    }

    /// Token validation. The session cache is the sole identity
    /// authority: a token mapped to a live session succeeds with the
    /// stored identity and has its expiry pushed out to
    /// `now + TTL_SECONDS` in the same atomic step; an unknown or
    /// expired token fails with identity zero and changes nothing.
    pub fn auth(&mut self, token: &String, now: u64) -> (r: AuthResponse)
        requires
            old(self).wf(),
            now + TTL_SECONDS <= u64::MAX,
        ensures
            final(self).wf(),
            final(self).credential_store == old(self).credential_store,
            match live_user(old(self).session_cache@, token@, now) {
                Some(uid) => r == (AuthResponse { status_code: StatusCode::Success, user_id: uid })
                    && final(self).session_cache@ == stored(
                        old(self).session_cache@, token@, uid, now),
                None => r == (AuthResponse { status_code: StatusCode::Fail, user_id: 0 })
                    && final(self).session_cache@ == old(self).session_cache@,
            },
    {
        let looked_up = self.session_cache.get_and_refresh(token, now);
        match authenticate_outcome(Ok(looked_up)) {
            Ok(resp) => resp,
            Err(_) => unreached(),
        }
    }
}

/// An issued token authenticates: once a token is stored for a user at
/// time `t0`, validation at any time before its expiry resolves the
/// token to that user.
pub proof fn lemma_issued_token_authenticates(
    m: Map<Seq<char>, Session>,
    token: Seq<char>,
    user_id: u64,
    t0: u64,
    t1: u64,
)
    requires
        t0 + TTL_SECONDS <= u64::MAX,
        t1 < t0 + TTL_SECONDS,
    ensures
        live_user(stored(m, token, user_id, t0), token, t1) == Some(user_id),
{
}

/// A token that was never stored never validates. In particular a
/// rejected issuance, which leaves the cache untouched, leaves every
/// guessed token as dead as before.
pub proof fn lemma_unissued_token_fails(m: Map<Seq<char>, Session>, token: Seq<char>, now: u64)
    requires
        !m.contains_key(token),
    ensures
        live_user(m, token, now) is None,
{
}

/// Rejected issuances are indistinguishable: any two rejection replies
/// — for an unknown username, for a wrong password — agree in every
/// field, so the reply carries no username-enumeration signal.
pub proof fn lemma_rejections_indistinguishable(r1: TokenResponse, r2: TokenResponse)
    requires
        is_fail_token_response(r1),
        is_fail_token_response(r2),
    ensures
        r1.status_code == r2.status_code,
        r1.token@ == r2.token@,
        r1.user_id == r2.user_id,
{
}

/// Sliding renewal: a token live at `t0` and refreshed then stays live
/// up to `t0 + TTL_SECONDS`; a second validation anywhere in that
/// window resolves it to the same user, and its refresh never moves
/// the expiry backwards — time has advanced, so the new expiry is at
/// or past the one it replaces.
pub proof fn lemma_sliding_renewal(
    m: Map<Seq<char>, Session>,
    token: Seq<char>,
    user_id: u64,
    t0: u64,
    t1: u64,
)
    requires
        live_user(m, token, t0) == Some(user_id),
        t0 <= t1,
        t1 < t0 + TTL_SECONDS,
        t1 + TTL_SECONDS <= u64::MAX,
    ensures
        live_user(stored(m, token, user_id, t0), token, t1) == Some(user_id),
        stored(stored(m, token, user_id, t0), token, user_id, t1)[token].expires_at >= stored(
            m,
            token,
            user_id,
            t0,
        )[token].expires_at,
{
}

/// Expiry: when a full TTL passes after the last store or refresh of a
/// token with no intervening call, validation fails from then on.
pub proof fn lemma_lapsed_token_fails(
    m: Map<Seq<char>, Session>,
    token: Seq<char>,
    user_id: u64,
    t0: u64,
    t1: u64,
)
    requires
        t0 + TTL_SECONDS <= u64::MAX,
        t1 >= t0 + TTL_SECONDS,
    ensures
        live_user(stored(m, token, user_id, t0), token, t1) is None,
{
}

/// Two issuances for one user: when the two stored tokens are distinct
/// — guaranteed only probabilistically, by the generator's entropy —
/// each validates independently to that same user while live.
pub proof fn lemma_two_tokens_one_user(
    m: Map<Seq<char>, Session>,
    token_a: Seq<char>,
    token_b: Seq<char>,
    user_id: u64,
    t0: u64,
    t1: u64,
    now: u64,
)
    requires
        token_a != token_b,
        t0 + TTL_SECONDS <= u64::MAX,
        t1 + TTL_SECONDS <= u64::MAX,
        now < t0 + TTL_SECONDS,
        now < t1 + TTL_SECONDS,
    ensures
        live_user(stored(stored(m, token_a, user_id, t0), token_b, user_id, t1), token_a, now)
            == Some(user_id),
        live_user(stored(stored(m, token_a, user_id, t0), token_b, user_id, t1), token_b, now)
            == Some(user_id),
{
}

} // verus!
