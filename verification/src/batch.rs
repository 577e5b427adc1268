//! The monthly batch run: one playlist per active user, per-user failures
//! isolated and reported, never aborting the run.
//!
//! The remote music API's answers are outside work; here they are values
//! handed in per user, so the orchestration is verified for every possible
//! combination of answers.

use vstd::prelude::*;

use crate::manager::{
    get_valid_token, grant_expiry_fits, renewed_model, spec_needs_refresh, CredentialError,
    RefreshOutcome, RefreshOutcomeModel, ScriptedProvider,
};
use crate::naming::PlaylistTarget;
use crate::store::{
    has_user, lookup, user_index, spec_active, CredentialModel, TokenStore,
};

verus! {

/// Selects the batch run's candidates: one user, or every active user.
pub struct GenerateParams {
    pub spotify_id: Option<String>,
}

/// What the top-tracks fetch came back with.
pub enum TracksOutcome {
    /// The ranked track URIs, in provider order; an empty list is a valid
    /// outcome.
    Fetched(Vec<String>),
    /// Transport error or non-success status.
    RequestFailed,
    /// The response could not be deserialized.
    Malformed,
}

pub enum TracksOutcomeModel {
    Fetched(Seq<Seq<char>>),
    RequestFailed,
    Malformed,
}

impl View for TracksOutcome {
    type V = TracksOutcomeModel;

    open spec fn view(&self) -> TracksOutcomeModel {
        match self {
            TracksOutcome::Fetched(uris) => TracksOutcomeModel::Fetched(
                uris@.map(|i: int, s: String| s@),
            ),
            TracksOutcome::RequestFailed => TracksOutcomeModel::RequestFailed,
            TracksOutcome::Malformed => TracksOutcomeModel::Malformed,
        }
    }
}

/// What the create-playlist call came back with.
pub enum PlaylistOutcome {
    /// The new playlist's id.
    Created(String),
    RequestFailed,
    Malformed,
}

pub enum PlaylistOutcomeModel {
    Created(Seq<char>),
    RequestFailed,
    Malformed,
}

impl View for PlaylistOutcome {
    type V = PlaylistOutcomeModel;

    open spec fn view(&self) -> PlaylistOutcomeModel {
        match self {
            PlaylistOutcome::Created(id) => PlaylistOutcomeModel::Created(id@),
            PlaylistOutcome::RequestFailed => PlaylistOutcomeModel::RequestFailed,
            PlaylistOutcome::Malformed => PlaylistOutcomeModel::Malformed,
        }
    }
}

/// What the add-tracks call came back with; its response body is never
/// read, only its status.
#[derive(Clone, Copy, PartialEq, Eq, Structural, Debug)]
pub enum AddTracksOutcome {
    Added,
    RequestFailed,
}

/// Every answer the outside world gives while one user is processed.
pub struct UserWorld {
    /// The token endpoint's answer, consulted only when the stored token
    /// is stale.
    pub refresh: RefreshOutcome,
    pub tracks: TracksOutcome,
    pub create: PlaylistOutcome,
    pub add: AddTracksOutcome,
}

pub struct UserWorldModel {
    pub refresh: RefreshOutcomeModel,
    pub tracks: TracksOutcomeModel,
    pub create: PlaylistOutcomeModel,
    pub add: AddTracksOutcome,
}

impl View for UserWorld {
    type V = UserWorldModel;

    open spec fn view(&self) -> UserWorldModel {
        UserWorldModel {
            refresh: self.refresh@,
            tracks: self.tracks@,
            create: self.create@,
            add: self.add,
        }
    }
}

/// Why one user's generation attempt failed.
#[derive(Clone, Copy, PartialEq, Eq, Structural, Debug)]
pub enum FailureCause {
    /// No credential record exists for the user.
    UserNotFound,
    /// The refresh-token exchange failed; nothing was persisted.
    RefreshFailed,
    /// A top-tracks, create-playlist or add-tracks call failed.
    ProviderRequestFailed,
    /// A provider response could not be deserialized.
    DeserializationFailed,
}

/// Per-user result of one batch run.
pub struct GenerationOutcome {
    pub user_id: String,
    pub succeeded: bool,
    pub failure: Option<FailureCause>,
}

/// A playlist the run created; it stays created even when adding tracks
/// fails afterwards — nothing is rolled back.
pub struct CreatedPlaylist {
    pub user_id: String,
    pub playlist_id: String,
    pub name: String,
    pub description: String,
}

/// Aggregate result of one batch run.
pub struct BatchReport {
    /// How many candidate users were attempted.
    pub attempted: usize,
    /// The user ids whose attempt failed, in candidate order. Empty means
    /// full success; non-empty means partial success, not a hard error.
    pub failed: Vec<String>,
}

/// How obtaining a token for a user with record `cred` ends at instant
/// `now`, when the token endpoint would answer `refresh`.
pub open spec fn spec_token_failure(
    cred: Option<CredentialModel>,
    refresh: RefreshOutcomeModel,
    now: int,
) -> Option<FailureCause> {
    match cred {
        None => Some(FailureCause::UserNotFound),
        Some(c) => if !spec_needs_refresh(c, now) {
            None
        } else {
            match refresh {
                RefreshOutcomeModel::Granted(g) => if grant_expiry_fits(g, now) {
                    None
                } else {
                    Some(FailureCause::RefreshFailed)
                },
                RefreshOutcomeModel::Denied => Some(FailureCause::RefreshFailed),
            }
        },
    }
}

/// How the remote-API part of one user's workflow ends, once a token is in
/// hand: top tracks, then create playlist, then add tracks, stopping at
/// the first failing call.
pub open spec fn spec_api_failure(w: UserWorldModel) -> Option<FailureCause> {
    match w.tracks {
        TracksOutcomeModel::RequestFailed => Some(FailureCause::ProviderRequestFailed),
        TracksOutcomeModel::Malformed => Some(FailureCause::DeserializationFailed),
        TracksOutcomeModel::Fetched(_) => match w.create {
            PlaylistOutcomeModel::RequestFailed => Some(FailureCause::ProviderRequestFailed),
            PlaylistOutcomeModel::Malformed => Some(FailureCause::DeserializationFailed),
            PlaylistOutcomeModel::Created(_) => match w.add {
                AddTracksOutcome::RequestFailed => Some(FailureCause::ProviderRequestFailed),
                AddTracksOutcome::Added => None,
            },
        },
    }
}

/// How one user's whole workflow ends.
pub open spec fn spec_user_failure(
    cred: Option<CredentialModel>,
    now: int,
    w: UserWorldModel,
) -> Option<FailureCause> {
    match spec_token_failure(cred, w.refresh, now) {
        Some(f) => Some(f),
        None => spec_api_failure(w),
    }
}

/// Whether one user's workflow reaches a successful create-playlist call
/// — also when adding tracks fails afterwards.
pub open spec fn spec_playlist_created(
    cred: Option<CredentialModel>,
    now: int,
    w: UserWorldModel,
) -> bool {
    &&& spec_token_failure(cred, w.refresh, now) is None
    &&& w.tracks is Fetched
    &&& w.create is Created
}

/// The user's stored record after their workflow: mutated only by a
/// successful refresh, and otherwise exactly as it was.
pub open spec fn spec_row_after(
    c: CredentialModel,
    now: int,
    refresh: RefreshOutcomeModel,
) -> CredentialModel {
    if !spec_needs_refresh(c, now) {
        c
    } else {
        match refresh {
            RefreshOutcomeModel::Granted(g) => if grant_expiry_fits(g, now) {
                renewed_model(c, g, now)
            } else {
                c
            },
            RefreshOutcomeModel::Denied => c,
        }
    }
}

fn failed_outcome(user_id: &String, cause: FailureCause) -> (r: GenerationOutcome)
    ensures
        r.user_id@ == user_id@,
        r.succeeded == false,
        r.failure == Some(cause),
{
    GenerationOutcome { user_id: user_id.clone(), succeeded: false, failure: Some(cause) }
}

/// Runs the whole workflow for one user against the answers in `world`:
/// obtain a valid token (refreshing and persisting as needed), fetch top
/// tracks, create the playlist named by `target`, add the tracks. The
/// first failing step decides the outcome; a failure after the create
/// call leaves the playlist created.
pub fn generate_for(
    store: &mut TokenStore,
    user_id: &String,
    now: i64,
    target: &PlaylistTarget,
    world: UserWorld,
) -> (r: (GenerationOutcome, Option<CreatedPlaylist>))
    requires
        old(store).wf(),
    ensures
        final(store).wf(),
        final(store)@.len() == old(store)@.len(),
        r.0.user_id@ == user_id@,
        r.0.succeeded == (r.0.failure is None),
        r.0.failure == spec_user_failure(lookup(old(store)@, user_id@), now as int, world@),
        has_user(old(store)@, user_id@) ==> final(store)@ =~= old(store)@.update(
            user_index(old(store)@, user_id@),
            spec_row_after(lookup(old(store)@, user_id@)->0, now as int, world@.refresh),
        ),
        !has_user(old(store)@, user_id@) ==> final(store)@ == old(store)@,
        (r.1 is Some) == spec_playlist_created(lookup(old(store)@, user_id@), now as int, world@),
        r.1 matches Some(p) ==> {
            &&& p.user_id@ == user_id@
            &&& p.name@ == target.name@
            &&& p.description@ == target.description@
            &&& world@.create matches PlaylistOutcomeModel::Created(pid) && p.playlist_id@ == pid
        },
{
    let ghost w = world@;
    let UserWorld { refresh, tracks, create, add } = world;
    let mut script: Vec<RefreshOutcome> = Vec::new();
    script.push(refresh);
    let mut provider = ScriptedProvider::new(script);
    proof {
        assert(provider@.script =~= seq![w.refresh]);
    }
    match get_valid_token(store, &mut provider, user_id, now) {
        Ok(_) => {},
        Err(CredentialError::UserNotFound) => {
            return (failed_outcome(user_id, FailureCause::UserNotFound), None);
        },
        Err(CredentialError::RefreshFailed) => {
            return (failed_outcome(user_id, FailureCause::RefreshFailed), None);
        },
    }
    match tracks {
        TracksOutcome::RequestFailed => (
            failed_outcome(user_id, FailureCause::ProviderRequestFailed),
            None,
        ),
        TracksOutcome::Malformed => (
            failed_outcome(user_id, FailureCause::DeserializationFailed),
            None,
        ),
        TracksOutcome::Fetched(_uris) => match create {
            PlaylistOutcome::RequestFailed => (
                failed_outcome(user_id, FailureCause::ProviderRequestFailed),
                None,
            ),
            PlaylistOutcome::Malformed => (
                failed_outcome(user_id, FailureCause::DeserializationFailed),
                None,
            ),
            PlaylistOutcome::Created(playlist_id) => {
                let created = CreatedPlaylist {
                    user_id: user_id.clone(),
                    playlist_id,
                    name: target.name.clone(),
                    description: target.description.clone(),
                };
                match add {
                    AddTracksOutcome::RequestFailed => (
                        failed_outcome(user_id, FailureCause::ProviderRequestFailed),
                        Some(created),
                    ),
                    AddTracksOutcome::Added => (
                        GenerationOutcome {
                            user_id: user_id.clone(),
                            succeeded: true,
                            failure: None,
                        },
                        Some(created),
                    ),
                }
            },
        },
    }
}

/// Pairwise distinct user ids.
pub open spec fn distinct_names(ids: Seq<Seq<char>>) -> bool {
    forall|i: int, j: int| 0 <= i < j < ids.len() ==> ids[i] != ids[j]
}

/// Whether `id` occurs among the first `n` of `ids`.
pub open spec fn named_before(ids: Seq<Seq<char>>, id: Seq<char>, n: int) -> bool {
    exists|j: int| 0 <= j < n && j < ids.len() && ids[j] == id
}

/// The position of `id` in `ids`; meaningful when it occurs and the ids
/// are distinct.
pub open spec fn name_pos(ids: Seq<Seq<char>>, id: Seq<char>) -> int {
    choose|j: int| 0 <= j < ids.len() && ids[j] == id
}

/// With distinct ids, any position holding `id` is the one `name_pos`
/// names.
pub proof fn lemma_name_pos_is(ids: Seq<Seq<char>>, id: Seq<char>, i: int)
    requires
        distinct_names(ids),
        0 <= i < ids.len(),
        ids[i] == id,
    ensures
        name_pos(ids, id) == i,
{
    let j = name_pos(ids, id);
    assert(0 <= j < ids.len() && ids[j] == id);
    if i != j {
        assert(ids[i] != ids[j]);
    }
}

/// The failed user ids among the first `n` candidates, in candidate
/// order, judged against the store as it stood before the run.
pub open spec fn spec_failed_before(
    s0: Seq<CredentialModel>,
    ids: Seq<Seq<char>>,
    worlds: Seq<UserWorldModel>,
    now: int,
    n: int,
) -> Seq<Seq<char>>
    decreases n,
{
    if n <= 0 {
        Seq::empty()
    } else {
        let prev = spec_failed_before(s0, ids, worlds, now, n - 1);
        if spec_user_failure(lookup(s0, ids[n - 1]), now, worlds[n - 1]) is Some {
            prev.push(ids[n - 1])
        } else {
            prev
        }
    }
}

/// The user ids among the first `n` candidates whose playlist got
/// created, in candidate order.
pub open spec fn spec_created_before(
    s0: Seq<CredentialModel>,
    ids: Seq<Seq<char>>,
    worlds: Seq<UserWorldModel>,
    now: int,
    n: int,
) -> Seq<Seq<char>>
    decreases n,
{
    if n <= 0 {
        Seq::empty()
    } else {
        let prev = spec_created_before(s0, ids, worlds, now, n - 1);
        if spec_playlist_created(lookup(s0, ids[n - 1]), now, worlds[n - 1]) {
            prev.push(ids[n - 1])
        } else {
            prev
        }
    }
}

/// Runs the per-user workflow for each candidate in order, against the
/// per-candidate answers in `worlds`. Every candidate is attempted; a
/// failing user is reported and never aborts the rest. Each user's
/// outcome is judged against the store as it stood before the run: one
/// user's refresh touches only their own row.
pub fn run_candidates(
    store: &mut TokenStore,
    candidates: &Vec<String>,
    now: i64,
    target: &PlaylistTarget,
    worlds: Vec<UserWorld>,
) -> (r: (BatchReport, Vec<CreatedPlaylist>))
    requires
        old(store).wf(),
        worlds@.len() == candidates@.len(),
        distinct_names(candidates@.map(|i: int, s: String| s@)),
    ensures
        final(store).wf(),
        r.0.attempted == candidates@.len(),
        ({
            let s0 = old(store)@;
            let ids = candidates@.map(|i: int, s: String| s@);
            let wms = worlds@.map(|i: int, w: UserWorld| w@);
            let n = candidates@.len() as int;
            &&& r.0.failed@.map(|i: int, s: String| s@) =~= spec_failed_before(
                s0,
                ids,
                wms,
                now as int,
                n,
            )
            &&& r.1@.map(|i: int, p: CreatedPlaylist| p.user_id@) =~= spec_created_before(
                s0,
                ids,
                wms,
                now as int,
                n,
            )
            &&& forall|k: int|
                0 <= k < r.1@.len() ==> r.1@[k].name@ == target.name@ && r.1@[k].description@
                    == target.description@
            &&& final(store)@.len() == s0.len()
            &&& forall|p: int| 0 <= p < s0.len() ==> final(store)@[p].user_id == s0[p].user_id
            &&& forall|p: int|
                0 <= p < s0.len() && !named_before(ids, s0[p].user_id, n) ==> final(store)@[p]
                    == s0[p]
            &&& forall|p: int|
                0 <= p < s0.len() && named_before(ids, s0[p].user_id, n) ==> final(store)@[p]
                    == spec_row_after(
                    s0[p],
                    now as int,
                    wms[name_pos(ids, s0[p].user_id)].refresh,
                )
        }),
{
    let ghost s0 = old(store)@;
    let ghost ids = candidates@.map(|i: int, s: String| s@);
    let ghost w0 = worlds@;
    let ghost wms = worlds@.map(|i: int, w: UserWorld| w@);
    let mut worlds = worlds;
    let mut failed: Vec<String> = Vec::new();
    let mut created: Vec<CreatedPlaylist> = Vec::new();
    let n = candidates.len();
    let mut i: usize = 0;
    while i < n
        invariant
            store.wf(),
            n == candidates@.len(),
            ids == candidates@.map(|k: int, s: String| s@),
            distinct_names(ids),
            ids.len() == n,
            wms == w0.map(|k: int, w: UserWorld| w@),
            wms.len() == n,
            i <= n,
            worlds@ =~= w0.skip(i as int),
            store@.len() == s0.len(),
            forall|p: int| 0 <= p < s0.len() ==> store@[p].user_id == s0[p].user_id,
            forall|p: int|
                0 <= p < s0.len() && !named_before(ids, s0[p].user_id, i as int) ==> store@[p]
                    == s0[p],
            forall|p: int|
                0 <= p < s0.len() && named_before(ids, s0[p].user_id, i as int) ==> store@[p]
                    == spec_row_after(
                    s0[p],
                    now as int,
                    wms[name_pos(ids, s0[p].user_id)].refresh,
                ),
            failed@.map(|k: int, s: String| s@) =~= spec_failed_before(
                s0,
                ids,
                wms,
                now as int,
                i as int,
            ),
            created@.map(|k: int, p: CreatedPlaylist| p.user_id@) =~= spec_created_before(
                s0,
                ids,
                wms,
                now as int,
                i as int,
            ),
            forall|k: int|
                0 <= k < created@.len() ==> created@[k].name@ == target.name@
                    && created@[k].description@ == target.description@,
        decreases n - i,
    {
        let ghost id_i = ids[i as int];
        let user_id: &String = &candidates[i];
        assert(user_id@ == id_i);
        let world = worlds.remove(0);
        proof {
            assert(world@ == wms[i as int]);
            assert(worlds@ =~= w0.skip(i + 1 as int));
            // This candidate's row has not been touched yet, so its lookup
            // still answers as it did before the run.
            assert(!named_before(ids, id_i, i as int)) by {
                if named_before(ids, id_i, i as int) {
                    let j = choose|j: int|
                        0 <= j < i as int && j < ids.len() && ids[j] == id_i;
                    assert(ids[j] == ids[i as int]);
                }
            }
            if has_user(s0, id_i) {
                let p = user_index(s0, id_i);
                assert(0 <= p < s0.len() && s0[p].user_id == id_i);
                assert(store@[p] == s0[p]);
                crate::store::lemma_user_index_is(store@, id_i, p);
                assert(lookup(store@, id_i) == lookup(s0, id_i));
            } else {
                if has_user(store@, id_i) {
                    let p = user_index(store@, id_i);
                    assert(s0[p].user_id == id_i);
                }
                assert(lookup(store@, id_i) == lookup(s0, id_i));
            }
        }
        let ghost store_pre = store@;
        let (outcome, maybe_created) = generate_for(store, user_id, now, target, world);
        proof {
            if has_user(s0, id_i) {
                let p = user_index(s0, id_i);
                crate::store::lemma_user_index_is(store_pre, id_i, p);
                lemma_name_pos_is(ids, id_i, i as int);
                assert(store@ =~= store_pre.update(
                    p,
                    spec_row_after(s0[p], now as int, wms[i as int].refresh),
                ));
                // Every row keeps its user id, and only row `p` changed.
                assert forall|q: int|
                    0 <= q < s0.len() && !named_before(ids, s0[q].user_id, i + 1 as int)
                        implies store@[q] == s0[q] by {
                    assert(!named_before(ids, s0[q].user_id, i as int));
                    assert(s0[q].user_id != id_i);
                    assert(q != p);
                }
                assert forall|q: int|
                    0 <= q < s0.len() && named_before(ids, s0[q].user_id, i + 1 as int)
                        implies store@[q] == spec_row_after(
                        s0[q],
                        now as int,
                        wms[name_pos(ids, s0[q].user_id)].refresh,
                    ) by {
                    if q == p {
                        assert(store@[q] == spec_row_after(
                            s0[p],
                            now as int,
                            wms[i as int].refresh,
                        ));
                    } else {
                        assert(s0[q].user_id != id_i);
                        assert(named_before(ids, s0[q].user_id, i as int));
                    }
                }
            } else {
                assert(store@ == store_pre);
                assert forall|q: int|
                    0 <= q < s0.len() && named_before(ids, s0[q].user_id, i + 1 as int)
                        implies named_before(ids, s0[q].user_id, i as int) by {
                    if s0[q].user_id == id_i {
                        assert(has_user(s0, id_i));
                    }
                }
            }
        }
        let GenerationOutcome { user_id: outcome_id, succeeded: _, failure } = outcome;
        match failure {
            Some(_) => {
                failed.push(outcome_id);
                proof {
                    assert(failed@.map(|k: int, s: String| s@) =~= spec_failed_before(
                        s0,
                        ids,
                        wms,
                        now as int,
                        i + 1 as int,
                    ));
                }
            },
            None => {
                proof {
                    assert(failed@.map(|k: int, s: String| s@) =~= spec_failed_before(
                        s0,
                        ids,
                        wms,
                        now as int,
                        i + 1 as int,
                    ));
                }
            },
        }
        match maybe_created {
            Some(p) => {
                created.push(p);
                proof {
                    assert(created@.map(|k: int, p: CreatedPlaylist| p.user_id@)
                        =~= spec_created_before(s0, ids, wms, now as int, i + 1 as int));
                }
            },
            None => {
                proof {
                    assert(created@.map(|k: int, p: CreatedPlaylist| p.user_id@)
                        =~= spec_created_before(s0, ids, wms, now as int, i + 1 as int));
                }
            },
        }
        i += 1;
    }
    (BatchReport { attempted: n, failed }, created)
}

/// One user's workflow as the application drives it, one remote call at a
/// time. The state names the next call to make; `workflow_step` consumes
/// that call's answer. The states follow the run's machine: `Start →
/// TokenObtained → TracksFetched → PlaylistCreated → TracksAdded`, with
/// any edge able to fall to `Failed`; no retries, no backward edges.
pub enum WorkflowState {
    /// Next: obtain a valid access token.
    Start,
    /// Next: fetch the user's top tracks with this token.
    TokenObtained { access_token: String },
    /// Next: create the run's playlist, named by the shared target.
    TracksFetched { access_token: String, uris: Vec<String> },
    /// Next: add the fetched URIs, in order, as one insert at position
    /// zero.
    PlaylistCreated { access_token: String, playlist_id: String, uris: Vec<String> },
    /// The workflow succeeded.
    TracksAdded,
    /// The workflow failed; when `playlist_created` holds, the playlist
    /// exists anyway — nothing is rolled back.
    Failed { cause: FailureCause, playlist_created: bool },
}

/// The answer to the call a workflow state asked for.
pub enum WorkflowEvent {
    Token(Result<String, CredentialError>),
    Tracks(TracksOutcome),
    Playlist(PlaylistOutcome),
    Add(AddTracksOutcome),
}

/// Whether `event` answers the call that `state` asks for. Terminal
/// states expect no event.
pub open spec fn workflow_expects(state: WorkflowState, event: WorkflowEvent) -> bool {
    match state {
        WorkflowState::Start => event is Token,
        WorkflowState::TokenObtained { .. } => event is Tracks,
        WorkflowState::TracksFetched { .. } => event is Playlist,
        WorkflowState::PlaylistCreated { .. } => event is Add,
        WorkflowState::TracksAdded => false,
        WorkflowState::Failed { .. } => false,
    }
}

/// Advances one user's workflow by the answer to the call its state
/// asked for: a failing answer ends it with that step's cause, keeping
/// note of a playlist already created.
pub fn workflow_step(state: WorkflowState, event: WorkflowEvent) -> (r: WorkflowState)
    requires
        workflow_expects(state, event),
    ensures
        ({
            match (state, event) {
                (WorkflowState::Start, WorkflowEvent::Token(res)) => match res {
                    Ok(t) => r == (WorkflowState::TokenObtained { access_token: t }),
                    Err(CredentialError::UserNotFound) => r == (WorkflowState::Failed {
                        cause: FailureCause::UserNotFound,
                        playlist_created: false,
                    }),
                    Err(CredentialError::RefreshFailed) => r == (WorkflowState::Failed {
                        cause: FailureCause::RefreshFailed,
                        playlist_created: false,
                    }),
                },
                (
                    WorkflowState::TokenObtained { access_token },
                    WorkflowEvent::Tracks(tracks),
                ) => match tracks {
                    TracksOutcome::Fetched(uris) => r == (WorkflowState::TracksFetched {
                        access_token,
                        uris,
                    }),
                    TracksOutcome::RequestFailed => r == (WorkflowState::Failed {
                        cause: FailureCause::ProviderRequestFailed,
                        playlist_created: false,
                    }),
                    TracksOutcome::Malformed => r == (WorkflowState::Failed {
                        cause: FailureCause::DeserializationFailed,
                        playlist_created: false,
                    }),
                },
                (
                    WorkflowState::TracksFetched { access_token, uris },
                    WorkflowEvent::Playlist(playlist),
                ) => match playlist {
                    PlaylistOutcome::Created(playlist_id) => r == (WorkflowState::PlaylistCreated {
                        access_token,
                        playlist_id,
                        uris,
                    }),
                    PlaylistOutcome::RequestFailed => r == (WorkflowState::Failed {
                        cause: FailureCause::ProviderRequestFailed,
                        playlist_created: false,
                    }),
                    PlaylistOutcome::Malformed => r == (WorkflowState::Failed {
                        cause: FailureCause::DeserializationFailed,
                        playlist_created: false,
                    }),
                },
                (WorkflowState::PlaylistCreated { .. }, WorkflowEvent::Add(add)) => match add {
                    AddTracksOutcome::Added => r is TracksAdded,
                    AddTracksOutcome::RequestFailed => r == (WorkflowState::Failed {
                        cause: FailureCause::ProviderRequestFailed,
                        playlist_created: true,
                    }),
                },
                _ => true,
            }
        }),
{
    match (state, event) {
        (WorkflowState::Start, WorkflowEvent::Token(res)) => match res {
            Ok(access_token) => WorkflowState::TokenObtained { access_token },
            Err(CredentialError::UserNotFound) => WorkflowState::Failed {
                cause: FailureCause::UserNotFound,
                playlist_created: false,
            },
            Err(CredentialError::RefreshFailed) => WorkflowState::Failed {
                cause: FailureCause::RefreshFailed,
                playlist_created: false,
            },
        },
        (WorkflowState::TokenObtained { access_token }, WorkflowEvent::Tracks(tracks)) => {
            match tracks {
                TracksOutcome::Fetched(uris) => WorkflowState::TracksFetched {
                    access_token,
                    uris,
                },
                TracksOutcome::RequestFailed => WorkflowState::Failed {
                    cause: FailureCause::ProviderRequestFailed,
                    playlist_created: false,
                },
                TracksOutcome::Malformed => WorkflowState::Failed {
                    cause: FailureCause::DeserializationFailed,
                    playlist_created: false,
                },
            }
        },
        (WorkflowState::TracksFetched { access_token, uris }, WorkflowEvent::Playlist(playlist)) => {
            match playlist {
                PlaylistOutcome::Created(playlist_id) => WorkflowState::PlaylistCreated {
                    access_token,
                    playlist_id,
                    uris,
                },
                PlaylistOutcome::RequestFailed => WorkflowState::Failed {
                    cause: FailureCause::ProviderRequestFailed,
                    playlist_created: false,
                },
                PlaylistOutcome::Malformed => WorkflowState::Failed {
                    cause: FailureCause::DeserializationFailed,
                    playlist_created: false,
                },
            }
        },
        (WorkflowState::PlaylistCreated { .. }, WorkflowEvent::Add(add)) => match add {
            AddTracksOutcome::Added => WorkflowState::TracksAdded,
            AddTracksOutcome::RequestFailed => WorkflowState::Failed {
                cause: FailureCause::ProviderRequestFailed,
                playlist_created: true,
            },
        },
        (s, _) => s,
    }
}

/// Folds a finished workflow into the per-user outcome, and whether a
/// playlist was created along the way.
pub fn workflow_outcome(user_id: &String, state: WorkflowState) -> (r: (
    GenerationOutcome,
    bool,
))
    requires
        state is TracksAdded || state is Failed,
    ensures
        r.0.user_id@ == user_id@,
        r.0.succeeded == (r.0.failure is None),
        state is TracksAdded ==> r.0.failure is None && r.1,
        state matches WorkflowState::Failed { cause, playlist_created } ==> r.0.failure == Some(
            cause,
        ) && r.1 == playlist_created,
{
    match state {
        WorkflowState::TracksAdded => (
            GenerationOutcome { user_id: user_id.clone(), succeeded: true, failure: None },
            true,
        ),
        WorkflowState::Failed { cause, playlist_created } => (
            failed_outcome(user_id, cause),
            playlist_created,
        ),
        _ => {
            proof {
                assert(false);
            }
            (failed_outcome(user_id, FailureCause::UserNotFound), false)
        },
    }
}

/// One entry of a top-tracks response: only the track URI is read.
pub struct TrackItem {
    pub uri: String,
}

/// The URIs of the fetched tracks, in the order the fetch returned them.
pub fn track_uris(items: &Vec<TrackItem>) -> (r: Vec<String>)
    ensures
        r@.map(|i: int, s: String| s@) =~= items@.map(|i: int, t: TrackItem| t.uri@),
{
    let mut r: Vec<String> = Vec::new();
    let n = items.len();
    let mut i: usize = 0;
    while i < n
        invariant
            n == items@.len(),
            i <= n,
            r@.len() == i,
            forall|k: int| 0 <= k < i ==> r@[k]@ == items@[k].uri@,
        decreases n - i,
    {
        r.push(items[i].uri.clone());
        i += 1;
    }
    r
}

/// The body of the add-tracks call: all fetched URIs, in fetch order, as
/// one batch insert starting at position zero.
pub struct AddTracksRequest {
    pub uris: Vec<String>,
    pub position: u32,
}

pub fn add_tracks_request(uris: Vec<String>) -> (r: AddTracksRequest)
    ensures
        r.uris@ == uris@,
        r.position == 0,
{
    AddTracksRequest { uris, position: 0 }
}

/// Every record listed as active occurs in the store.
proof fn lemma_active_from(s: Seq<CredentialModel>, f: Option<Seq<char>>)
    ensures
        forall|k: int|
            0 <= k < spec_active(s, f).len() ==> exists|p: int|
                0 <= p < s.len() && #[trigger] spec_active(s, f)[k] == s[p],
    decreases s.len(),
{
    if s.len() > 0 {
        lemma_active_from(s.drop_last(), f);
        let a = spec_active(s, f);
        let rest = spec_active(s.drop_last(), f);
        assert forall|k: int| 0 <= k < a.len() implies exists|p: int|
            0 <= p < s.len() && #[trigger] a[k] == s[p] by {
            if k < rest.len() {
                assert(a[k] == rest[k]);
                assert(exists|p: int|
                    0 <= p < s.drop_last().len() && rest[k] == s.drop_last()[p]);
                let p = choose|p: int|
                    0 <= p < s.drop_last().len() && rest[k] == s.drop_last()[p];
                assert(s.drop_last()[p] == s[p]);
            } else {
                assert(a[k] == s[s.len() - 1]);
            }
        }
    }
}

/// A store with distinct user ids lists its active records with distinct
/// user ids.
proof fn lemma_active_ids_distinct(s: Seq<CredentialModel>, f: Option<Seq<char>>)
    requires
        crate::store::distinct_ids(s),
    ensures
        forall|i: int, j: int|
            0 <= i < j < spec_active(s, f).len() ==> spec_active(s, f)[i].user_id != spec_active(
                s,
                f,
            )[j].user_id,
    decreases s.len(),
{
    if s.len() > 0 {
        assert forall|i: int, j: int|
            0 <= i < j < s.drop_last().len() implies s.drop_last()[i].user_id
            != s.drop_last()[j].user_id by {
            assert(s.drop_last()[i] == s[i]);
            assert(s.drop_last()[j] == s[j]);
        }
        lemma_active_ids_distinct(s.drop_last(), f);
        lemma_active_from(s.drop_last(), f);
        let a = spec_active(s, f);
        let rest = spec_active(s.drop_last(), f);
        assert forall|i: int, j: int| 0 <= i < j < a.len() implies a[i].user_id
            != a[j].user_id by {
            if j < rest.len() {
                assert(a[i] == rest[i]);
                assert(a[j] == rest[j]);
            } else {
                assert(a[j] == s[s.len() - 1]);
                assert(a[i] == rest[i]);
                assert(exists|p: int|
                    0 <= p < s.drop_last().len() && rest[i] == s.drop_last()[p]);
                let p = choose|p: int|
                    0 <= p < s.drop_last().len() && rest[i] == s.drop_last()[p];
                assert(s.drop_last()[p] == s[p]);
                assert(s[p].user_id != s[s.len() - 1].user_id);
            }
        }
    }
}

/// The user ids of the active records, in store order.
pub open spec fn active_ids(s: Seq<CredentialModel>, f: Option<Seq<char>>) -> Seq<Seq<char>> {
    spec_active(s, f).map(|i: int, c: CredentialModel| c.user_id)
}

/// The candidate filter a request names.
pub open spec fn filter_of(params: GenerateParams) -> Option<Seq<char>> {
    match params.spotify_id {
        Some(s) => Some(s@),
        None => None,
    }
}

/// The batch entry point: resolves the candidate set — one named user, or
/// every active user — and runs the per-user workflow for each, against
/// the per-candidate answers in `worlds`. Once the candidates are
/// resolved a report is always produced; failures are reported in it,
/// never thrown.
pub fn run_batch(
    store: &mut TokenStore,
    params: &GenerateParams,
    now: i64,
    target: &PlaylistTarget,
    worlds: Vec<UserWorld>,
) -> (r: BatchReport)
    requires
        old(store).wf(),
        worlds@.len() == spec_active(old(store)@, filter_of(*params)).len(),
    ensures
        final(store).wf(),
        r.attempted == spec_active(old(store)@, filter_of(*params)).len(),
        ({
            let s0 = old(store)@;
            let ids = active_ids(s0, filter_of(*params));
            let wms = worlds@.map(|i: int, w: UserWorld| w@);
            let n = ids.len() as int;
            &&& r.failed@.map(|i: int, s: String| s@) =~= spec_failed_before(
                s0,
                ids,
                wms,
                now as int,
                n,
            )
            &&& final(store)@.len() == s0.len()
            &&& forall|p: int| 0 <= p < s0.len() ==> final(store)@[p].user_id == s0[p].user_id
            &&& forall|p: int|
                0 <= p < s0.len() && !named_before(ids, s0[p].user_id, n) ==> final(store)@[p]
                    == s0[p]
            &&& forall|p: int|
                0 <= p < s0.len() && named_before(ids, s0[p].user_id, n) ==> final(store)@[p]
                    == spec_row_after(
                    s0[p],
                    now as int,
                    wms[name_pos(ids, s0[p].user_id)].refresh,
                )
        }),
{
    let ghost s0 = old(store)@;
    let ghost f = filter_of(*params);
    let active = store.list_active(
        match &params.spotify_id {
            Some(s) => Some(s),
            None => None,
        },
    );
    proof {
        assert(active@.map(|i: int, c: crate::store::UserCredential| c@) =~= spec_active(s0, f));
    }
    let mut ids: Vec<String> = Vec::new();
    let n = active.len();
    let mut i: usize = 0;
    while i < n
        invariant
            n == active@.len(),
            i <= n,
            active@.map(|k: int, c: crate::store::UserCredential| c@) =~= spec_active(s0, f),
            ids@.len() == i,
            forall|k: int| 0 <= k < i ==> ids@[k]@ == spec_active(s0, f)[k].user_id,
        decreases n - i,
    {
        proof {
            assert(active@.map(|k: int, c: crate::store::UserCredential| c@)[i as int]
                == active@[i as int]@);
        }
        ids.push(active[i].user_id.clone());
        i += 1;
    }
    proof {
        lemma_active_ids_distinct(s0, f);
        assert(ids@.map(|k: int, s: String| s@) =~= active_ids(s0, f));
        assert(distinct_names(ids@.map(|k: int, s: String| s@)));
    }
    let (report, _created) = run_candidates(store, &ids, now, target, worlds);
    report
}

/// A user with no credential record always fails with `UserNotFound`,
/// whatever the outside world would have answered.
pub proof fn lemma_missing_user_fails(
    s: Seq<CredentialModel>,
    id: Seq<char>,
    now: int,
    w: UserWorldModel,
)
    requires
        !has_user(s, id),
    ensures
        spec_user_failure(lookup(s, id), now, w) == Some(FailureCause::UserNotFound),
{
}

proof fn lemma_isolated_failure_prefix(
    s0: Seq<CredentialModel>,
    ids: Seq<Seq<char>>,
    worlds: Seq<UserWorldModel>,
    now: int,
    k: int,
    n: int,
)
    requires
        ids.len() == worlds.len(),
        0 <= k < ids.len(),
        0 <= n <= ids.len(),
        forall|i: int|
            0 <= i < ids.len() && i != k ==> spec_user_failure(lookup(s0, ids[i]), now, worlds[i])
                is None,
        spec_user_failure(lookup(s0, ids[k]), now, worlds[k]) is Some,
        !spec_playlist_created(lookup(s0, ids[k]), now, worlds[k]),
    ensures
        spec_failed_before(s0, ids, worlds, now, n) =~= if n <= k {
            Seq::<Seq<char>>::empty()
        } else {
            seq![ids[k]]
        },
        spec_created_before(s0, ids, worlds, now, n) =~= if n <= k {
            ids.take(n)
        } else {
            ids.take(k) + ids.subrange(k + 1, n)
        },
    decreases n,
{
    if n > 0 {
        lemma_isolated_failure_prefix(s0, ids, worlds, now, k, n - 1);
    }
}

/// When exactly one candidate's workflow fails — for instance because
/// their top-tracks fetch fails — the report blames exactly that user,
/// and every other candidate still gets a created playlist.
pub proof fn lemma_isolated_failure(
    s0: Seq<CredentialModel>,
    ids: Seq<Seq<char>>,
    worlds: Seq<UserWorldModel>,
    now: int,
    k: int,
)
    requires
        ids.len() == worlds.len(),
        0 <= k < ids.len(),
        forall|i: int|
            0 <= i < ids.len() && i != k ==> spec_user_failure(lookup(s0, ids[i]), now, worlds[i])
                is None,
        spec_user_failure(lookup(s0, ids[k]), now, worlds[k]) is Some,
        !spec_playlist_created(lookup(s0, ids[k]), now, worlds[k]),
    ensures
        spec_failed_before(s0, ids, worlds, now, ids.len() as int) =~= seq![ids[k]],
        spec_created_before(s0, ids, worlds, now, ids.len() as int) =~= ids.take(k) + ids.subrange(
            k + 1,
            ids.len() as int,
        ),
{
    lemma_isolated_failure_prefix(s0, ids, worlds, now, k, ids.len() as int);
}

} // verus!
