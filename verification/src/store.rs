//! Persisted per-user credential records and the store that owns them.
//!
//! The store keeps at most one record per user id; every operation
//! preserves that invariant and touches only the row it names.

use vstd::prelude::*;

verus! {

/// One user's connection to the remote service.
pub struct UserCredential {
    /// Opaque external account identifier; unique within a store.
    pub user_id: String,
    /// Only active users are included in batch generation.
    pub active: bool,
    /// Short-lived secret used as the bearer token for outbound calls.
    pub access_token: String,
    /// Long-lived secret exchanged for new access tokens; the provider may
    /// rotate it on refresh.
    pub refresh_token: String,
    /// Unix timestamp (UTC seconds) after which `access_token` must not be
    /// used without a prior successful refresh.
    pub expiry: i64,
}

/// Mathematical model of one credential record.
pub struct CredentialModel {
    pub user_id: Seq<char>,
    pub active: bool,
    pub access_token: Seq<char>,
    pub refresh_token: Seq<char>,
    pub expiry: int,
}

impl View for UserCredential {
    type V = CredentialModel;

    open spec fn view(&self) -> CredentialModel {
        CredentialModel {
            user_id: self.user_id@,
            active: self.active,
            access_token: self.access_token@,
            refresh_token: self.refresh_token@,
            expiry: self.expiry as int,
        }
    }
}

impl Clone for UserCredential {
    fn clone(&self) -> (r: Self)
        ensures
            r@ == self@,
    {
        UserCredential {
            user_id: self.user_id.clone(),
            active: self.active,
            access_token: self.access_token.clone(),
            refresh_token: self.refresh_token.clone(),
            expiry: self.expiry,
        }
    }
}

/// Whether some record in `s` belongs to `id`.
pub open spec fn has_user(s: Seq<CredentialModel>, id: Seq<char>) -> bool {
    exists|i: int| 0 <= i < s.len() && s[i].user_id == id
}

/// The position of `id`'s record in `s`; meaningful when `has_user` holds
/// and the ids of `s` are distinct.
pub open spec fn user_index(s: Seq<CredentialModel>, id: Seq<char>) -> int {
    choose|i: int| 0 <= i < s.len() && s[i].user_id == id
}

/// The record of `id` in `s`, when it has one.
pub open spec fn lookup(s: Seq<CredentialModel>, id: Seq<char>) -> Option<CredentialModel> {
    if has_user(s, id) {
        Some(s[user_index(s, id)])
    } else {
        None
    }
}

/// Records hold pairwise distinct user ids.
pub open spec fn distinct_ids(s: Seq<CredentialModel>) -> bool {
    forall|i: int, j: int| 0 <= i < j < s.len() ==> s[i].user_id != s[j].user_id
}

/// With distinct ids, any position holding `id` is the one `user_index`
/// names.
pub proof fn lemma_user_index_is(s: Seq<CredentialModel>, id: Seq<char>, i: int)
    requires
        distinct_ids(s),
        0 <= i < s.len(),
        s[i].user_id == id,
    ensures
        has_user(s, id),
        user_index(s, id) == i,
        lookup(s, id) == Some(s[i]),
{
    assert(has_user(s, id));
    let j = user_index(s, id);
    assert(0 <= j < s.len() && s[j].user_id == id);
    if i != j {
        assert(s[i].user_id != s[j].user_id);
    }
}

/// The active records of `s`, optionally narrowed to a single user id.
pub open spec fn spec_active(s: Seq<CredentialModel>, filter: Option<Seq<char>>) -> Seq<
    CredentialModel,
>
    decreases s.len(),
{
    if s.len() == 0 {
        Seq::empty()
    } else {
        let rest = spec_active(s.drop_last(), filter);
        if s.last().active && (filter matches Some(id) ==> s.last().user_id == id) {
            rest.push(s.last())
        } else {
            rest
        }
    }
}

/// Owns read and write access to the persisted credential records.
pub struct TokenStore {
    records: Vec<UserCredential>,
}

impl View for TokenStore {
    type V = Seq<CredentialModel>;

    closed spec fn view(&self) -> Seq<CredentialModel> {
        self.records@.map(|i: int, c: UserCredential| c@)
    }
}

impl TokenStore {
    /// The store's invariant: one record per user id.
    pub open spec fn wf(self) -> bool {
        distinct_ids(self@)
    }

    pub fn new() -> (s: Self)
        ensures
            s@ =~= Seq::<CredentialModel>::empty(),
            s.wf(),
    {
        TokenStore { records: Vec::new() }
    }

    /// The position of `user_id`'s record, scanning from the front.
    fn find(&self, user_id: &String) -> (r: Option<usize>)
        requires
            self.wf(),
        ensures
            match r {
                Some(i) => {
                    &&& i < self@.len()
                    &&& self@[i as int].user_id == user_id@
                    &&& has_user(self@, user_id@)
                    &&& user_index(self@, user_id@) == i
                },
                None => !has_user(self@, user_id@),
            },
    {
        let n = self.records.len();
        let mut i: usize = 0;
        while i < n
            invariant
                n == self.records@.len(),
                i <= n,
                self.wf(),
                self@.len() == n,
                forall|j: int| 0 <= j < i ==> self@[j].user_id != user_id@,
            decreases n - i,
        {
            assert(self@[i as int] == self.records@[i as int]@);
            if self.records[i].user_id == *user_id {
                proof {
                    lemma_user_index_is(self@, user_id@, i as int);
                }
                return Some(i);
            }
            i += 1;
        }
        assert(forall|j: int| 0 <= j < self@.len() ==> self@[j].user_id != user_id@);
        None
    }

    /// Reads `user_id`'s record; `None` when no such row exists.
    pub fn get_credential(&self, user_id: &String) -> (r: Option<UserCredential>)
        requires
            self.wf(),
        ensures
            match r {
                Some(c) => lookup(self@, user_id@) == Some(c@),
                None => lookup(self@, user_id@) is None,
            },
    {
        match self.find(user_id) {
            Some(i) => Some(self.records[i].clone()),
            None => None,
        }
    }

    /// Writes a new access token and expiry into `user_id`'s record, as one
    /// combined update; every other row is untouched. Returns whether the
    /// row was found.
    pub fn update_access(&mut self, user_id: &String, access_token: String, expiry: i64) -> (found:
        bool)
        requires
            old(self).wf(),
        ensures
            final(self).wf(),
            found == has_user(old(self)@, user_id@),
            !found ==> final(self)@ =~= old(self)@,
            found ==> final(self)@ =~= old(self)@.update(
                user_index(old(self)@, user_id@),
                (CredentialModel {
                    access_token: access_token@,
                    expiry: expiry as int,
                    ..old(self)@[user_index(old(self)@, user_id@)]
                }),
            ),
    {
        match self.find(user_id) {
            Some(i) => {
                let row = &mut self.records[i];
                row.access_token = access_token;
                row.expiry = expiry;
                proof {
                    assert(final(self)@ =~= old(self)@.update(
                        i as int,
                        (CredentialModel {
                            access_token: access_token@,
                            expiry: expiry as int,
                            ..old(self)@[i as int]
                        }),
                    ));
                }
                true
            },
            None => false,
        }
    }

    /// Writes a rotated refresh token into `user_id`'s record; every other
    /// row is untouched. Returns whether the row was found.
    pub fn update_refresh(&mut self, user_id: &String, refresh_token: String) -> (found: bool)
        requires
            old(self).wf(),
        ensures
            final(self).wf(),
            found == has_user(old(self)@, user_id@),
            !found ==> final(self)@ =~= old(self)@,
            found ==> final(self)@ =~= old(self)@.update(
                user_index(old(self)@, user_id@),
                (CredentialModel {
                    refresh_token: refresh_token@,
                    ..old(self)@[user_index(old(self)@, user_id@)]
                }),
            ),
    {
        match self.find(user_id) {
            Some(i) => {
                let row = &mut self.records[i];
                row.refresh_token = refresh_token;
                proof {
                    assert(final(self)@ =~= old(self)@.update(
                        i as int,
                        (CredentialModel {
                            refresh_token: refresh_token@,
                            ..old(self)@[i as int]
                        }),
                    ));
                }
                true
            },
            None => false,
        }
    }

    /// Stores a first successful authorization: inserts the full record when
    /// the user is new, and otherwise only replaces the stored refresh
    /// token, leaving access token, expiry and active flag as they were.
    pub fn upsert_connection(&mut self, cred: UserCredential) -> (existed: bool)
        requires
            old(self).wf(),
        ensures
            final(self).wf(),
            existed == has_user(old(self)@, cred.user_id@),
            !existed ==> final(self)@ =~= old(self)@.push(cred@),
            existed ==> final(self)@ =~= old(self)@.update(
                user_index(old(self)@, cred.user_id@),
                (CredentialModel {
                    refresh_token: cred.refresh_token@,
                    ..old(self)@[user_index(old(self)@, cred.user_id@)]
                }),
            ),
    {
        match self.find(&cred.user_id) {
            Some(i) => {
                let row = &mut self.records[i];
                row.refresh_token = cred.refresh_token;
                proof {
                    assert(final(self)@ =~= old(self)@.update(
                        i as int,
                        (CredentialModel {
                            refresh_token: cred@.refresh_token,
                            ..old(self)@[i as int]
                        }),
                    ));
                }
                true
            },
            None => {
                self.records.push(cred);
                proof {
                    assert(final(self)@ =~= old(self)@.push(cred@));
                }
                false
            },
        }
    }

    /// Removes `user_id`'s record (disconnect). Returns whether a row was
    /// removed.
    pub fn remove_user(&mut self, user_id: &String) -> (found: bool)
        requires
            old(self).wf(),
        ensures
            final(self).wf(),
            found == has_user(old(self)@, user_id@),
            !found ==> final(self)@ =~= old(self)@,
            found ==> final(self)@ =~= old(self)@.remove(user_index(old(self)@, user_id@)),
    {
        match self.find(user_id) {
            Some(i) => {
                self.records.remove(i);
                proof {
                    assert(final(self)@ =~= old(self)@.remove(i as int));
                }
                true
            },
            None => false,
        }
    }

    /// Lists the active records, optionally narrowed to one user id, in
    /// store order.
    pub fn list_active(&self, filter: Option<&String>) -> (r: Vec<UserCredential>)
        requires
            self.wf(),
        ensures
            r@.map(|i: int, c: UserCredential| c@) =~= spec_active(
                self@,
                match filter {
                    Some(id) => Some(id@),
                    None => None,
                },
            ),
    {
        let ghost gfilter: Option<Seq<char>> = match filter {
            Some(id) => Some(id@),
            None => None,
        };
        let mut r: Vec<UserCredential> = Vec::new();
        let n = self.records.len();
        let mut i: usize = 0;
        while i < n
            invariant
                n == self.records@.len(),
                i <= n,
                self@.len() == n,
                self@ == self.records@.map(|k: int, c: UserCredential| c@),
                gfilter == (match filter {
                    Some(id) => Some(id@),
                    None => None,
                }),
                r@.map(|k: int, c: UserCredential| c@) =~= spec_active(
                    self@.take(i as int),
                    gfilter,
                ),
            decreases n - i,
        {
            assert(self@[i as int] == self.records@[i as int]@);
            let keep = self.records[i].active && (match filter {
                Some(id) => self.records[i].user_id == *id,
                None => true,
            });
            if keep {
                r.push(self.records[i].clone());
            }
            proof {
                assert(self@.take(i + 1 as int).drop_last() =~= self@.take(i as int));
                assert(self@.take(i + 1 as int).last() == self@[i as int]);
                assert(r@.map(|k: int, c: UserCredential| c@) =~= spec_active(
                    self@.take(i + 1 as int),
                    gfilter,
                ));
            }
            i += 1;
        }
        proof {
            assert(self@.take(n as int) =~= self@);
        }
        r
    }
}

} // verus!
