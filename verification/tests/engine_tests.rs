use botm::batch::{
    add_tracks_request, generate_for, run_batch, run_candidates, track_uris, workflow_outcome,
    workflow_step, AddTracksOutcome, FailureCause, GenerateParams, PlaylistOutcome, TrackItem,
    TracksOutcome, UserWorld, WorkflowEvent, WorkflowState,
};
use botm::date::Date;
use botm::manager::{
    get_valid_token, needs_refresh, CredentialError, RefreshGrant, RefreshOutcome,
    ScriptedProvider,
};
use botm::naming::playlist_target;
use botm::profile::{primary_image_url, Image, UserInfo};
use botm::store::{TokenStore, UserCredential};

fn cred(user_id: &str, active: bool, access: &str, refresh: &str, expiry: i64) -> UserCredential {
    UserCredential {
        user_id: String::from(user_id),
        active,
        access_token: String::from(access),
        refresh_token: String::from(refresh),
        expiry,
    }
}

fn ok_world() -> UserWorld {
    UserWorld {
        refresh: RefreshOutcome::Granted(RefreshGrant {
            access_token: String::from("fresh-token"),
            expires_in: Some(3600),
            refresh_token: None,
        }),
        tracks: TracksOutcome::Fetched(vec![
            String::from("spotify:track:a"),
            String::from("spotify:track:b"),
        ]),
        create: PlaylistOutcome::Created(String::from("pl-1")),
        add: AddTracksOutcome::Added,
    }
}

fn target() -> botm::naming::PlaylistTarget {
    playlist_target(&Date { year: 2024, month: 3, day: 20 })
}

#[test]
fn store_lookup_and_update() {
    let mut store = TokenStore::new();
    store.upsert_connection(cred("u1", true, "a1", "r1", 100));
    store.upsert_connection(cred("u2", true, "a2", "r2", 200));
    let c = store.get_credential(&String::from("u1")).unwrap();
    assert_eq!(c.access_token, "a1");
    assert!(store.get_credential(&String::from("u3")).is_none());

    assert!(store.update_access(&String::from("u2"), String::from("a2x"), 250));
    let c = store.get_credential(&String::from("u2")).unwrap();
    assert_eq!(c.access_token, "a2x");
    assert_eq!(c.expiry, 250);
    assert_eq!(c.refresh_token, "r2");
    // the other row is untouched
    let c = store.get_credential(&String::from("u1")).unwrap();
    assert_eq!(c.access_token, "a1");
    assert_eq!(c.expiry, 100);

    assert!(!store.update_access(&String::from("u3"), String::from("x"), 0));
}

#[test]
fn upsert_of_known_user_replaces_only_refresh_token() {
    let mut store = TokenStore::new();
    store.upsert_connection(cred("u1", true, "a1", "r1", 100));
    let existed = store.upsert_connection(cred("u1", false, "other", "r1-new", 999));
    assert!(existed);
    let c = store.get_credential(&String::from("u1")).unwrap();
    assert_eq!(c.refresh_token, "r1-new");
    assert_eq!(c.access_token, "a1");
    assert_eq!(c.expiry, 100);
    assert!(c.active);
}

#[test]
fn remove_user_disconnects() {
    let mut store = TokenStore::new();
    store.upsert_connection(cred("u1", true, "a1", "r1", 100));
    assert!(store.remove_user(&String::from("u1")));
    assert!(store.get_credential(&String::from("u1")).is_none());
    assert!(!store.remove_user(&String::from("u1")));
}

#[test]
fn list_active_filters_and_keeps_order() {
    let mut store = TokenStore::new();
    store.upsert_connection(cred("u1", true, "a1", "r1", 100));
    store.upsert_connection(cred("u2", false, "a2", "r2", 200));
    store.upsert_connection(cred("u3", true, "a3", "r3", 300));
    let all: Vec<String> = store.list_active(None).into_iter().map(|c| c.user_id).collect();
    assert_eq!(all, vec![String::from("u1"), String::from("u3")]);
    let one = store.list_active(Some(&String::from("u3")));
    assert_eq!(one.len(), 1);
    assert_eq!(one[0].user_id, "u3");
    // an inactive user is filtered out even when named
    assert!(store.list_active(Some(&String::from("u2"))).is_empty());
}

#[test]
fn fresh_token_is_returned_without_any_exchange() {
    let mut store = TokenStore::new();
    store.upsert_connection(cred("u1", true, "stored", "r1", 100));
    let mut provider = ScriptedProvider::new(vec![RefreshOutcome::Granted(RefreshGrant {
        access_token: String::from("unused"),
        expires_in: Some(60),
        refresh_token: None,
    })]);
    let t = get_valid_token(&mut store, &mut provider, &String::from("u1"), 100).unwrap();
    assert_eq!(t, "stored");
    assert_eq!(provider.calls_served(), 0);
    assert!(provider.presented_tokens().is_empty());
    let c = store.get_credential(&String::from("u1")).unwrap();
    assert_eq!(c.access_token, "stored");
    assert_eq!(c.expiry, 100);
}

#[test]
fn stale_token_issues_exactly_one_exchange() {
    let mut store = TokenStore::new();
    store.upsert_connection(cred("u1", true, "stored", "r1", 100));
    let mut provider = ScriptedProvider::new(vec![RefreshOutcome::Granted(RefreshGrant {
        access_token: String::from("renewed"),
        expires_in: Some(3600),
        refresh_token: None,
    })]);
    let t = get_valid_token(&mut store, &mut provider, &String::from("u1"), 101).unwrap();
    assert_eq!(t, "renewed");
    assert_eq!(provider.calls_served(), 1);
    // the stored refresh token is the one presented to the endpoint
    assert_eq!(provider.presented_tokens(), &vec![String::from("r1")]);
    let c = store.get_credential(&String::from("u1")).unwrap();
    assert_eq!(c.access_token, "renewed");
    assert_eq!(c.expiry, 101 + 3600);
    // the provider kept the old refresh token valid
    assert_eq!(c.refresh_token, "r1");
}

#[test]
fn rotated_refresh_token_is_persisted() {
    let mut store = TokenStore::new();
    store.upsert_connection(cred("u1", true, "stored", "r1", 100));
    let mut provider = ScriptedProvider::new(vec![RefreshOutcome::Granted(RefreshGrant {
        access_token: String::from("renewed"),
        expires_in: None,
        refresh_token: Some(String::from("r1-rotated")),
    })]);
    let t = get_valid_token(&mut store, &mut provider, &String::from("u1"), 500).unwrap();
    assert_eq!(t, "renewed");
    let c = store.get_credential(&String::from("u1")).unwrap();
    assert_eq!(c.refresh_token, "r1-rotated");
    // provider silence on expiry means the token is immediately due again
    assert_eq!(c.expiry, 500);
    assert!(needs_refresh(&c, 501));
    assert!(!needs_refresh(&c, 500));
}

#[test]
fn failed_refresh_leaves_the_record_unchanged() {
    let mut store = TokenStore::new();
    store.upsert_connection(cred("u1", true, "stored", "r1", 100));
    let mut provider = ScriptedProvider::new(vec![RefreshOutcome::Denied]);
    let r = get_valid_token(&mut store, &mut provider, &String::from("u1"), 101);
    assert_eq!(r, Err(CredentialError::RefreshFailed));
    assert_eq!(provider.calls_served(), 1);
    let c = store.get_credential(&String::from("u1")).unwrap();
    assert_eq!(c.access_token, "stored");
    assert_eq!(c.expiry, 100);
    assert_eq!(c.refresh_token, "r1");
}

#[test]
fn grant_with_overflowing_expiry_counts_as_failed_refresh() {
    let mut store = TokenStore::new();
    store.upsert_connection(cred("u1", true, "stored", "r1", 100));
    let mut provider = ScriptedProvider::new(vec![RefreshOutcome::Granted(RefreshGrant {
        access_token: String::from("renewed"),
        expires_in: Some(u64::MAX),
        refresh_token: None,
    })]);
    let r = get_valid_token(&mut store, &mut provider, &String::from("u1"), 101);
    assert_eq!(r, Err(CredentialError::RefreshFailed));
    let c = store.get_credential(&String::from("u1")).unwrap();
    assert_eq!(c.access_token, "stored");
    assert_eq!(c.expiry, 100);
}

#[test]
fn unknown_user_reports_user_not_found() {
    let mut store = TokenStore::new();
    let mut provider = ScriptedProvider::new(Vec::new());
    let r = get_valid_token(&mut store, &mut provider, &String::from("nobody"), 0);
    assert_eq!(r, Err(CredentialError::UserNotFound));
    assert_eq!(provider.calls_served(), 0);
}

#[test]
fn generate_for_success_creates_named_playlist() {
    let mut store = TokenStore::new();
    store.upsert_connection(cred("u1", true, "stored", "r1", 100));
    let t = target();
    let (outcome, created) =
        generate_for(&mut store, &String::from("u1"), 50, &t, ok_world());
    assert!(outcome.succeeded);
    assert_eq!(outcome.failure, None);
    assert_eq!(outcome.user_id, "u1");
    let p = created.unwrap();
    assert_eq!(p.user_id, "u1");
    assert_eq!(p.playlist_id, "pl-1");
    assert_eq!(p.name, "2024-03 (Mar) BOTM");
    assert_eq!(
        p.description,
        "Bangers of the month for March 2024, (generated on 2024-03-20)"
    );
}

#[test]
fn empty_top_tracks_list_is_not_a_failure() {
    let mut store = TokenStore::new();
    store.upsert_connection(cred("u1", true, "stored", "r1", 100));
    let mut world = ok_world();
    world.tracks = TracksOutcome::Fetched(Vec::new());
    let (outcome, created) = generate_for(&mut store, &String::from("u1"), 50, &target(), world);
    assert!(outcome.succeeded);
    assert!(created.is_some());
}

#[test]
fn each_failing_step_reports_its_cause() {
    let t = target();
    let mut store = TokenStore::new();
    store.upsert_connection(cred("u1", true, "stored", "r1", 100));

    let (outcome, created) =
        generate_for(&mut store, &String::from("missing"), 50, &t, ok_world());
    assert_eq!(outcome.failure, Some(FailureCause::UserNotFound));
    assert!(!outcome.succeeded);
    assert!(created.is_none());

    let mut world = ok_world();
    world.refresh = RefreshOutcome::Denied;
    let (outcome, created) = generate_for(&mut store, &String::from("u1"), 101, &t, world);
    assert_eq!(outcome.failure, Some(FailureCause::RefreshFailed));
    assert!(created.is_none());

    let mut world = ok_world();
    world.tracks = TracksOutcome::RequestFailed;
    let (outcome, created) = generate_for(&mut store, &String::from("u1"), 50, &t, world);
    assert_eq!(outcome.failure, Some(FailureCause::ProviderRequestFailed));
    assert!(created.is_none());

    let mut world = ok_world();
    world.tracks = TracksOutcome::Malformed;
    let (outcome, _) = generate_for(&mut store, &String::from("u1"), 50, &t, world);
    assert_eq!(outcome.failure, Some(FailureCause::DeserializationFailed));

    let mut world = ok_world();
    world.create = PlaylistOutcome::RequestFailed;
    let (outcome, created) = generate_for(&mut store, &String::from("u1"), 50, &t, world);
    assert_eq!(outcome.failure, Some(FailureCause::ProviderRequestFailed));
    assert!(created.is_none());

    let mut world = ok_world();
    world.create = PlaylistOutcome::Malformed;
    let (outcome, _) = generate_for(&mut store, &String::from("u1"), 50, &t, world);
    assert_eq!(outcome.failure, Some(FailureCause::DeserializationFailed));
}

#[test]
fn failed_add_still_leaves_the_playlist_created() {
    let mut store = TokenStore::new();
    store.upsert_connection(cred("u1", true, "stored", "r1", 100));
    let mut world = ok_world();
    world.add = AddTracksOutcome::RequestFailed;
    let (outcome, created) = generate_for(&mut store, &String::from("u1"), 50, &target(), world);
    assert_eq!(outcome.failure, Some(FailureCause::ProviderRequestFailed));
    assert!(!outcome.succeeded);
    // no rollback: the playlist exists although its tracks are missing
    assert!(created.is_some());
}

#[test]
fn missing_candidate_fails_without_throwing() {
    let mut store = TokenStore::new();
    let candidates = vec![String::from("ghost")];
    let (report, created) = run_candidates(
        &mut store,
        &candidates,
        50,
        &target(),
        vec![ok_world()],
    );
    assert_eq!(report.attempted, 1);
    assert_eq!(report.failed, vec![String::from("ghost")]);
    assert!(created.is_empty());
}

#[test]
fn one_tracks_failure_spares_the_other_users() {
    let mut store = TokenStore::new();
    store.upsert_connection(cred("u1", true, "a1", "r1", 100));
    store.upsert_connection(cred("u2", true, "a2", "r2", 100));
    store.upsert_connection(cred("u3", true, "a3", "r3", 100));
    let t = target();
    let mut bad = ok_world();
    bad.tracks = TracksOutcome::RequestFailed;
    let params = GenerateParams { spotify_id: None };
    let report = run_batch(
        &mut store,
        &params,
        50,
        &t,
        vec![ok_world(), bad, ok_world()],
    );
    assert_eq!(report.attempted, 3);
    assert_eq!(report.failed, vec![String::from("u2")]);
}

#[test]
fn batch_for_one_named_user_attempts_only_that_user() {
    let mut store = TokenStore::new();
    store.upsert_connection(cred("u1", true, "a1", "r1", 100));
    store.upsert_connection(cred("u2", true, "a2", "r2", 100));
    let params = GenerateParams { spotify_id: Some(String::from("u2")) };
    let report = run_batch(&mut store, &params, 50, &target(), vec![ok_world()]);
    assert_eq!(report.attempted, 1);
    assert!(report.failed.is_empty());
}

#[test]
fn batch_refreshes_persist_per_user() {
    let mut store = TokenStore::new();
    store.upsert_connection(cred("u1", true, "a1", "r1", 100));
    store.upsert_connection(cred("u2", true, "a2", "r2", 9_999));
    let params = GenerateParams { spotify_id: None };
    let report = run_batch(
        &mut store,
        &params,
        500,
        &target(),
        vec![ok_world(), ok_world()],
    );
    assert!(report.failed.is_empty());
    // u1 was stale and got the scripted grant persisted
    let c = store.get_credential(&String::from("u1")).unwrap();
    assert_eq!(c.access_token, "fresh-token");
    assert_eq!(c.expiry, 500 + 3600);
    // u2 was still fresh and kept its record word for word
    let c = store.get_credential(&String::from("u2")).unwrap();
    assert_eq!(c.access_token, "a2");
    assert_eq!(c.expiry, 9_999);
}

#[test]
fn workflow_steps_through_all_four_calls() {
    let state = workflow_step(
        WorkflowState::Start,
        WorkflowEvent::Token(Ok(String::from("tok"))),
    );
    assert!(matches!(&state, WorkflowState::TokenObtained { access_token } if access_token == "tok"));
    let state = workflow_step(
        state,
        WorkflowEvent::Tracks(TracksOutcome::Fetched(vec![String::from("spotify:track:a")])),
    );
    assert!(matches!(&state, WorkflowState::TracksFetched { .. }));
    let state = workflow_step(
        state,
        WorkflowEvent::Playlist(PlaylistOutcome::Created(String::from("pl-9"))),
    );
    assert!(
        matches!(&state, WorkflowState::PlaylistCreated { playlist_id, .. } if playlist_id == "pl-9")
    );
    let state = workflow_step(state, WorkflowEvent::Add(AddTracksOutcome::Added));
    assert!(matches!(&state, WorkflowState::TracksAdded));
    let (outcome, playlist_created) = workflow_outcome(&String::from("u1"), state);
    assert!(outcome.succeeded);
    assert!(playlist_created);
}

#[test]
fn workflow_failed_add_keeps_the_created_playlist() {
    let state = workflow_step(
        WorkflowState::Start,
        WorkflowEvent::Token(Ok(String::from("tok"))),
    );
    let state = workflow_step(state, WorkflowEvent::Tracks(TracksOutcome::Fetched(Vec::new())));
    let state = workflow_step(
        state,
        WorkflowEvent::Playlist(PlaylistOutcome::Created(String::from("pl-9"))),
    );
    let state = workflow_step(state, WorkflowEvent::Add(AddTracksOutcome::RequestFailed));
    let (outcome, playlist_created) = workflow_outcome(&String::from("u1"), state);
    assert_eq!(outcome.failure, Some(FailureCause::ProviderRequestFailed));
    assert!(playlist_created);
}

#[test]
fn workflow_token_failure_ends_the_run_at_once() {
    let state = workflow_step(
        WorkflowState::Start,
        WorkflowEvent::Token(Err(CredentialError::UserNotFound)),
    );
    let (outcome, playlist_created) = workflow_outcome(&String::from("u1"), state);
    assert_eq!(outcome.failure, Some(FailureCause::UserNotFound));
    assert!(!playlist_created);
}

#[test]
fn track_uris_keep_fetch_order() {
    let items = vec![
        TrackItem { uri: String::from("spotify:track:x") },
        TrackItem { uri: String::from("spotify:track:y") },
        TrackItem { uri: String::from("spotify:track:z") },
    ];
    let uris = track_uris(&items);
    assert_eq!(
        uris,
        vec![
            String::from("spotify:track:x"),
            String::from("spotify:track:y"),
            String::from("spotify:track:z"),
        ]
    );
    let req = add_tracks_request(uris);
    assert_eq!(req.position, 0);
    assert_eq!(req.uris.len(), 3);
    assert_eq!(req.uris[0], "spotify:track:x");
}

#[test]
fn profile_image_falls_back_to_empty() {
    let with = UserInfo {
        display_name: String::from("Someone"),
        images: vec![Image { url: String::from("https://img.example/1.png") }],
    };
    assert_eq!(primary_image_url(&with), "https://img.example/1.png");
    let without = UserInfo { display_name: String::from("Someone"), images: Vec::new() };
    assert_eq!(primary_image_url(&without), "");
}
