use beatmap_watcher::api::{AuthError, FetchOutcome};
use beatmap_watcher::channel::UpdateQueue;
use beatmap_watcher::client::{Client, LoginState, PollAction, RunState, Update};
use beatmap_watcher::types::{Beatmap, Beatmapset, RankStatus};

fn beatmap(id: u32, ranked: RankStatus) -> Beatmap {
    Beatmap {
        id,
        ranked,
        beatmapset: Beatmapset {
            title: "Title".to_string(),
            artist: "Artist".to_string(),
            creator: "Creator".to_string(),
        },
    }
}

fn logged_in() -> Client {
    let mut c = Client::new();
    c.finish_log_in(Ok("token".to_string()));
    c.poll_updates();
    c
}

/// Runs a polling job whose fetches give `outcomes` in turn; returns how many
/// fetches it made.
fn run_job(c: &mut Client, outcomes: &[FetchOutcome]) -> usize {
    let mut fetches = 0;
    let mut action = c.poll_check();
    loop {
        match action {
            PollAction::Fetch => {
                let (_, token) = c.fetch_target();
                assert_eq!(token, "token");
                let outcome = outcomes[fetches].clone();
                fetches += 1;
                action = c.poll_fetched(outcome);
            }
            PollAction::Sleep => action = c.poll_check(),
            PollAction::Finish => return fetches,
        }
    }
}

#[test]
fn pending_then_ranked_polls_four_times() {
    let mut c = logged_in();
    assert!(c.start_polling(100));
    assert_eq!(c.fetch_target().0, 100);
    let outcomes = vec![
        FetchOutcome::Found(beatmap(100, RankStatus::Pending)),
        FetchOutcome::Found(beatmap(100, RankStatus::Pending)),
        FetchOutcome::Found(beatmap(100, RankStatus::Pending)),
        FetchOutcome::Found(beatmap(100, RankStatus::Ranked)),
    ];
    assert_eq!(run_job(&mut c, &outcomes), 4);
    let updates = c.poll_updates();
    let resources: Vec<&Update> =
        updates.iter().filter(|u| matches!(u, Update::Beatmap(_))).collect();
    assert_eq!(resources.len(), 4);
    let runs: Vec<&Update> =
        updates.iter().filter(|u| matches!(u, Update::RunState(_))).collect();
    assert_eq!(
        runs,
        vec![&Update::RunState(RunState::Running), &Update::RunState(RunState::Stopped)]
    );
    assert_eq!(updates.last(), Some(&Update::RunState(RunState::Stopped)));
    assert_eq!(c.run_state, RunState::Stopped);
}

#[test]
fn not_found_stops_at_once() {
    let mut c = logged_in();
    assert!(c.start_polling(999));
    assert_eq!(run_job(&mut c, &[FetchOutcome::NotFound]), 1);
    assert_eq!(
        c.poll_updates(),
        vec![
            Update::RunState(RunState::Running),
            Update::Beatmap(None),
            Update::RunState(RunState::Stopped),
        ]
    );
}

#[test]
fn network_failure_stops_at_once() {
    let mut c = logged_in();
    assert!(c.start_polling(5));
    assert_eq!(run_job(&mut c, &[FetchOutcome::Failed]), 1);
    assert_eq!(
        c.poll_updates(),
        vec![
            Update::RunState(RunState::Running),
            Update::Beatmap(None),
            Update::RunState(RunState::Stopped),
        ]
    );
}

#[test]
fn every_terminal_status_ends_after_one_fetch() {
    for s in [RankStatus::Graveyard, RankStatus::Wip, RankStatus::Ranked, RankStatus::Loved] {
        let mut c = logged_in();
        assert!(c.start_polling(1));
        assert_eq!(c.poll_check(), PollAction::Fetch);
        assert_eq!(c.poll_fetched(FetchOutcome::Found(beatmap(1, s))), PollAction::Finish);
        assert_eq!(c.run_state, RunState::Stopped);
    }
}

#[test]
fn open_statuses_keep_polling() {
    for s in [RankStatus::Pending, RankStatus::Approved, RankStatus::Qualified] {
        let mut c = logged_in();
        assert!(c.start_polling(1));
        for _ in 0..3 {
            assert_eq!(c.poll_check(), PollAction::Fetch);
            assert_eq!(c.poll_fetched(FetchOutcome::Found(beatmap(1, s))), PollAction::Sleep);
            assert_eq!(c.run_state, RunState::Running);
        }
    }
}

#[test]
fn stop_before_check_ends_without_fetch() {
    let mut c = logged_in();
    assert!(c.start_polling(1));
    c.stop_polling();
    assert_eq!(c.run_state, RunState::Stopping);
    assert_eq!(c.poll_check(), PollAction::Finish);
    assert_eq!(c.run_state, RunState::Stopped);
    assert_eq!(
        c.poll_updates(),
        vec![
            Update::RunState(RunState::Running),
            Update::RunState(RunState::Stopping),
            Update::RunState(RunState::Stopped),
        ]
    );
}

#[test]
fn stop_during_fetch_ends_at_next_check() {
    let mut c = logged_in();
    assert!(c.start_polling(1));
    assert_eq!(c.poll_check(), PollAction::Fetch);
    c.stop_polling();
    assert_eq!(
        c.poll_fetched(FetchOutcome::Found(beatmap(1, RankStatus::Pending))),
        PollAction::Sleep
    );
    assert_eq!(c.poll_check(), PollAction::Finish);
    assert_eq!(c.run_state, RunState::Stopped);
}

#[test]
fn stop_when_stopped_does_nothing() {
    let mut c = logged_in();
    c.stop_polling();
    assert_eq!(c.run_state, RunState::Stopped);
    assert!(c.poll_updates().is_empty());
}

#[test]
fn start_rejected_unless_stopped() {
    let mut c = logged_in();
    assert!(c.start_polling(1));
    c.poll_updates();
    assert!(!c.start_polling(2));
    assert_eq!(c.fetch_target().0, 1);
    assert_eq!(c.run_state, RunState::Running);
    c.stop_polling();
    c.poll_updates();
    assert!(!c.start_polling(3));
    assert_eq!(c.run_state, RunState::Stopping);
    assert!(c.poll_updates().is_empty());
    assert_eq!(c.poll_check(), PollAction::Finish);
    assert!(c.start_polling(4));
    assert_eq!(c.fetch_target().0, 4);
}

#[test]
fn login_with_invalid_credentials() {
    let mut c = Client::new();
    let request = c.log_in("bad".to_string(), "worse".to_string());
    assert_eq!(request.client_id, "bad");
    assert_eq!(request.client_secret, "worse");
    c.finish_log_in(Err(AuthError::Status(401)));
    let updates = c.poll_updates();
    assert_eq!(updates.len(), 2);
    assert_eq!(updates[0], Update::LoginState(LoginState::LoggingIn));
    match &updates[1] {
        Update::LoginState(LoginState::LoginError(m)) => {
            assert!(!m.is_empty());
            assert_eq!(m, "401 Unauthorized");
        }
        other => panic!("unexpected update {other:?}"),
    }
    assert!(!c.session.is_set());
}

#[test]
fn failed_login_clears_an_earlier_token() {
    let mut c = logged_in();
    assert!(c.session.is_set());
    c.finish_log_in(Err(AuthError::Network));
    assert!(!c.session.is_set());
    assert_eq!(c.session.access_token(), "");
    assert_eq!(
        c.poll_updates(),
        vec![Update::LoginState(LoginState::LoginError("Network error".to_string()))]
    );
}

#[test]
fn successful_login_replaces_the_token() {
    let mut c = logged_in();
    c.finish_log_in(Ok("second".to_string()));
    assert_eq!(c.session.access_token(), "second");
    assert_eq!(
        c.poll_updates(),
        vec![Update::LoginState(LoginState::LoggedIn { access_token: "second".to_string() })]
    );
}

#[test]
fn log_out_drops_the_token() {
    let mut c = logged_in();
    c.log_out();
    assert!(!c.session.is_set());
    assert_eq!(
        c.poll_updates(),
        vec![
            Update::LoginState(LoginState::LoggingIn),
            Update::LoginState(LoginState::LoggedOut),
        ]
    );
}

#[test]
fn cover_and_ip_updates_are_queued() {
    let mut c = Client::new();
    c.get_beatmap_cover(7, None);
    c.ip_found("1.2.3.4".to_string());
    assert_eq!(
        c.poll_updates(),
        vec![
            Update::BeatmapCover { beatmap_id: 7, cover: None },
            Update::Ip("1.2.3.4".to_string()),
        ]
    );
}

#[test]
fn drain_twice_is_empty() {
    let mut q = UpdateQueue::new();
    q.push(Update::RunState(RunState::Running));
    q.push(Update::Beatmap(None));
    assert_eq!(q.len(), 2);
    assert_eq!(
        q.drain(),
        vec![Update::RunState(RunState::Running), Update::Beatmap(None)]
    );
    assert!(q.is_empty());
    assert!(q.drain().is_empty());
    assert!(q.drain().is_empty());
    assert!(q.is_empty());
}
