//! Credential lifecycle: handing out an access token valid at the moment of
//! use, refreshing and persisting as needed.
//!
//! The refresh-token exchange itself is outside work; here the provider is a
//! value that answers one exchange after another, so every decision around
//! it is verified for every possible answer.

use vstd::prelude::*;

use crate::clock::unix_now_seconds;
use crate::store::{has_user, lookup, user_index, CredentialModel, TokenStore, UserCredential};

verus! {

/// What a successful refresh-token exchange hands back.
pub struct RefreshGrant {
    /// The new short-lived access token.
    pub access_token: String,
    /// Seconds until the new token expires; a silent provider means the
    /// token is immediately due for refresh again.
    pub expires_in: Option<u64>,
    /// A rotated refresh token, when the provider chose to rotate.
    pub refresh_token: Option<String>,
}

/// Mathematical model of a grant.
pub struct GrantModel {
    pub access_token: Seq<char>,
    pub expires_in: Option<u64>,
    pub refresh_token: Option<Seq<char>>,
}

impl View for RefreshGrant {
    type V = GrantModel;

    open spec fn view(&self) -> GrantModel {
        GrantModel {
            access_token: self.access_token@,
            expires_in: self.expires_in,
            refresh_token: match self.refresh_token {
                Some(t) => Some(t@),
                None => None,
            },
        }
    }
}

impl Clone for RefreshGrant {
    fn clone(&self) -> (r: Self)
        ensures
            r@ == self@,
    {
        RefreshGrant {
            access_token: self.access_token.clone(),
            expires_in: self.expires_in,
            refresh_token: match &self.refresh_token {
                Some(t) => Some(t.clone()),
                None => None,
            },
        }
    }
}

/// One answer of the provider's token endpoint to a refresh-token exchange.
pub enum RefreshOutcome {
    /// The exchange succeeded.
    Granted(RefreshGrant),
    /// Transport or provider error; nothing came back.
    Denied,
}

/// Mathematical model of one answer.
pub enum RefreshOutcomeModel {
    Granted(GrantModel),
    Denied,
}

impl View for RefreshOutcome {
    type V = RefreshOutcomeModel;

    open spec fn view(&self) -> RefreshOutcomeModel {
        match self {
            RefreshOutcome::Granted(g) => RefreshOutcomeModel::Granted(g@),
            RefreshOutcome::Denied => RefreshOutcomeModel::Denied,
        }
    }
}

impl Clone for RefreshOutcome {
    fn clone(&self) -> (r: Self)
        ensures
            r@ == self@,
    {
        match self {
            RefreshOutcome::Granted(g) => RefreshOutcome::Granted(g.clone()),
            RefreshOutcome::Denied => RefreshOutcome::Denied,
        }
    }
}

/// A provider's token endpoint as a value: a fixed script of answers,
/// served in order, together with the count of exchanges served. An
/// exchange past the end of the script is denied.
pub struct ScriptedProvider {
    script: Vec<RefreshOutcome>,
    served: usize,
    presented: Vec<String>,
}

/// Mathematical model of a scripted provider.
pub struct ProviderModel {
    pub script: Seq<RefreshOutcomeModel>,
    /// How many exchanges have been requested so far.
    pub served: int,
    /// The refresh tokens presented to the endpoint, one per exchange, in
    /// order.
    pub presented: Seq<Seq<char>>,
}

impl View for ScriptedProvider {
    type V = ProviderModel;

    closed spec fn view(&self) -> ProviderModel {
        ProviderModel {
            script: self.script@.map(|i: int, o: RefreshOutcome| o@),
            served: self.served as int,
            presented: self.presented@.map(|i: int, t: String| t@),
        }
    }
}

/// The answer the provider gives to its `i`-th exchange.
pub open spec fn outcome_at(m: ProviderModel, i: int) -> RefreshOutcomeModel {
    if 0 <= i < m.script.len() {
        m.script[i]
    } else {
        RefreshOutcomeModel::Denied
    }
}

impl ScriptedProvider {
    pub fn new(script: Vec<RefreshOutcome>) -> (p: Self)
        ensures
            p@.script =~= script@.map(|i: int, o: RefreshOutcome| o@),
            p@.served == 0,
            p@.presented =~= Seq::<Seq<char>>::empty(),
    {
        ScriptedProvider { script, served: 0, presented: Vec::new() }
    }

    /// How many exchanges have been requested so far.
    pub fn calls_served(&self) -> (r: usize)
        ensures
            r == self@.served,
    {
        self.served
    }

    /// The refresh tokens presented so far, one per exchange, in order.
    pub fn presented_tokens(&self) -> (r: &Vec<String>)
        ensures
            r@.map(|i: int, t: String| t@) == self@.presented,
    {
        &self.presented
    }

    /// Performs one refresh-token exchange: records the presented refresh
    /// token, serves the next scripted answer and counts the call. Which
    /// token is presented does not change the scripted answer.
    pub fn exchange_refresh_token(&mut self, refresh_token: &String) -> (r: RefreshOutcome)
        requires
            old(self)@.served < usize::MAX,
        ensures
            final(self)@.script == old(self)@.script,
            final(self)@.served == old(self)@.served + 1,
            final(self)@.presented =~= old(self)@.presented.push(refresh_token@),
            r@ == outcome_at(old(self)@, old(self)@.served),
    {
        self.presented.push(refresh_token.clone());
        let r = if self.served < self.script.len() {
            self.script[self.served].clone()
        } else {
            RefreshOutcome::Denied
        };
        self.served = self.served + 1;
        r
    }
}

/// Errors of the credential lifecycle: the record is missing, or the
/// refresh-token exchange failed and nothing was persisted.
#[derive(Clone, Copy, PartialEq, Eq, Structural, Debug)]
pub enum CredentialError {
    UserNotFound,
    RefreshFailed,
}

/// Whether the stored token is stale at instant `now`: the comparison is
/// exact, with no clock-skew margin.
pub open spec fn spec_needs_refresh(c: CredentialModel, now: int) -> bool {
    now > c.expiry
}

/// Decides whether `cred`'s access token must be refreshed before use at
/// instant `now`.
pub fn needs_refresh(cred: &UserCredential, now: i64) -> (r: bool)
    ensures
        r == spec_needs_refresh(cred@, now as int),
{
    now > cred.expiry
}

/// Samples the clock and judges the stored token against it. Returns the
/// sampled instant alongside the judgement, so callers can hand the same
/// instant on.
pub fn needs_refresh_now(cred: &UserCredential) -> (r: (i64, bool))
    ensures
        r.1 == spec_needs_refresh(cred@, r.0 as int),
{
    let now = unix_now_seconds();
    (now, now > cred.expiry)
}

/// The seconds of validity a grant carries; provider silence counts as
/// zero.
pub open spec fn grant_expires_in(g: GrantModel) -> int {
    match g.expires_in {
        Some(e) => e as int,
        None => 0,
    }
}

/// Whether the grant's new expiry, `now + expires_in`, fits the stored
/// timestamp width.
pub open spec fn grant_expiry_fits(g: GrantModel, now: int) -> bool {
    now + grant_expires_in(g) <= i64::MAX
}

/// `c` after a successful refresh at instant `now`: new access token and
/// expiry unconditionally, the refresh token only when the provider
/// rotated it.
pub open spec fn renewed_model(c: CredentialModel, g: GrantModel, now: int) -> CredentialModel {
    CredentialModel {
        access_token: g.access_token,
        expiry: now + grant_expires_in(g),
        refresh_token: match g.refresh_token {
            Some(t) => t,
            None => c.refresh_token,
        },
        ..c
    }
}

/// Returns an access token for `user_id` valid at instant `now`.
///
/// When the stored token is current it is returned unchanged and nothing
/// else happens. When it is stale, exactly one refresh-token exchange is
/// issued, presenting the stored refresh token; on success the new access
/// token and expiry are persisted (and a rotated refresh token, when one
/// came back) and the new token returned. On a denied exchange, or a
/// grant whose expiry does not fit, nothing is persisted and the stored
/// record is left exactly as it was.
pub fn get_valid_token(
    store: &mut TokenStore,
    provider: &mut ScriptedProvider,
    user_id: &String,
    now: i64,
) -> (r: Result<String, CredentialError>)
    requires
        old(store).wf(),
        old(provider)@.served < usize::MAX,
    ensures
        final(store).wf(),
        final(provider)@.script == old(provider)@.script,
        !has_user(old(store)@, user_id@) ==> {
            &&& r == Err::<String, CredentialError>(CredentialError::UserNotFound)
            &&& final(store)@ == old(store)@
            &&& final(provider)@.served == old(provider)@.served
            &&& final(provider)@.presented == old(provider)@.presented
        },
        has_user(old(store)@, user_id@) && !spec_needs_refresh(
            lookup(old(store)@, user_id@)->0,
            now as int,
        ) ==> {
            &&& r matches Ok(t) && t@ == lookup(old(store)@, user_id@)->0.access_token
            &&& final(store)@ == old(store)@
            &&& final(provider)@.served == old(provider)@.served
            &&& final(provider)@.presented == old(provider)@.presented
        },
        has_user(old(store)@, user_id@) && spec_needs_refresh(
            lookup(old(store)@, user_id@)->0,
            now as int,
        ) ==> {
            &&& final(provider)@.served == old(provider)@.served + 1
            &&& final(provider)@.presented =~= old(provider)@.presented.push(
                lookup(old(store)@, user_id@)->0.refresh_token,
            )
            &&& match outcome_at(old(provider)@, old(provider)@.served) {
                RefreshOutcomeModel::Granted(g) => if grant_expiry_fits(g, now as int) {
                    &&& r matches Ok(t) && t@ == g.access_token
                    &&& final(store)@ =~= old(store)@.update(
                        user_index(old(store)@, user_id@),
                        renewed_model(lookup(old(store)@, user_id@)->0, g, now as int),
                    )
                } else {
                    &&& r == Err::<String, CredentialError>(CredentialError::RefreshFailed)
                    &&& final(store)@ == old(store)@
                },
                RefreshOutcomeModel::Denied => {
                    &&& r == Err::<String, CredentialError>(CredentialError::RefreshFailed)
                    &&& final(store)@ == old(store)@
                },
            }
        },
{
    let cred = match store.get_credential(user_id) {
        Some(c) => c,
        None => {
            return Err(CredentialError::UserNotFound);
        },
    };
    if !needs_refresh(&cred, now) {
        return Ok(cred.access_token);
    }
    match provider.exchange_refresh_token(&cred.refresh_token) {
        RefreshOutcome::Denied => Err(CredentialError::RefreshFailed),
        RefreshOutcome::Granted(g) => {
            let extra: u64 = match g.expires_in {
                Some(e) => e,
                None => 0,
            };
            let wide: i128 = now as i128 + extra as i128;
            if wide > i64::MAX as i128 {
                return Err(CredentialError::RefreshFailed);
            }
            let new_expiry: i64 = wide as i64;
            let ghost s0 = old(store)@;
            let ghost idx = user_index(s0, user_id@);
            let ghost gm = g@;
            store.update_access(user_id, g.access_token.clone(), new_expiry);
            match g.refresh_token {
                Some(rt) => {
                    proof {
                        crate::store::lemma_user_index_is(store@, user_id@, idx);
                    }
                    store.update_refresh(user_id, rt);
                    proof {
                        assert(store@ =~= s0.update(idx, renewed_model(s0[idx], gm, now as int)));
                    }
                },
                None => {
                    proof {
                        assert(store@ =~= s0.update(idx, renewed_model(s0[idx], gm, now as int)));
                    }
                },
            }
            Ok(g.access_token)
        },
    }
}

} // verus!
