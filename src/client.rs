//! The task runner's decisions: the session, the polling job's run-state
//! machine, and the updates that each step sends to the window.
use vstd::prelude::*;

use crate::api::{AuthError, FetchOutcome};
use crate::channel::UpdateQueue;
use crate::cover::Bitmap;
use crate::types::{Beatmap, RankStatus, TokenGrantRequest};

verus! {

/// Where the user stands with the API.
#[derive(Clone, Debug, PartialEq, Eq)]
pub enum LoginState {
    LoggedOut,
    LoggedIn { access_token: String },
    LoggingIn,
    LoginError(String),
}

/// The lifecycle of the polling job.
#[derive(Clone, Copy, Debug, PartialEq, Eq, Structural)]
pub enum RunState {
    Running,
    Stopping,
    Stopped,
}

/// A change that a background job reports to the window.
#[derive(Debug, PartialEq, Eq)]
pub enum Update {
    LoginState(LoginState),
    RunState(RunState),
    Beatmap(Option<Beatmap>),
    /// The cover fetched for `beatmap_id`; absent where it could not be had.
    BeatmapCover { beatmap_id: u32, cover: Option<Bitmap> },
    /// The public address of this machine.
    Ip(String),
}

/// What the polling job does next.
#[derive(Clone, Copy, Debug, PartialEq, Eq, Structural)]
pub enum PollAction {
    /// Fetch the beatmap's record now.
    Fetch,
    /// Wait the poll delay, then check the run-state again.
    Sleep,
    /// Leave the loop: the job is over.
    Finish,
}

/// The run-state after a start: only a stopped job can be started.
pub open spec fn start_step(run: RunState) -> RunState {
    if run == RunState::Stopped {
        RunState::Running
    } else {
        run
    }
}

/// The run-state after a stop: only a running job is asked to stop.
pub open spec fn stop_step(run: RunState) -> RunState {
    if run == RunState::Running {
        RunState::Stopping
    } else {
        run
    }
}

/// The check at the top of each iteration: fetch while running, else end the job.
pub open spec fn check_step(run: RunState) -> (RunState, PollAction) {
    if run == RunState::Running {
        (RunState::Running, PollAction::Fetch)
    } else {
        (RunState::Stopped, PollAction::Finish)
    }
}

/// The step after a fetch, given the status it found (none where it found no
/// record): wait and go on for a status that may still change, else end the job.
pub open spec fn fetch_step(run: RunState, found: Option<RankStatus>) -> (RunState, PollAction) {
    match found {
        Some(s) => if s.spec_is_terminal() {
            (RunState::Stopped, PollAction::Finish)
        } else {
            (run, PollAction::Sleep)
        },
        None => (RunState::Stopped, PollAction::Finish),
    }
}

/// The status that a fetch found, if it found a record.
pub open spec fn found_status(outcome: FetchOutcome) -> Option<RankStatus> {
    match outcome {
        FetchOutcome::Found(b) => Some(b.ranked),
        _ => None,
    }
}

/// The record that a fetch reports to the window.
pub open spec fn found_beatmap(outcome: FetchOutcome) -> Option<Beatmap> {
    match outcome {
        FetchOutcome::Found(b) => Some(b),
        _ => None,
    }
}

/// The updates sent when a job ends with `action`: a `Stopped` for a finish.
pub open spec fn finish_updates(action: PollAction) -> Seq<Update> {
    if action == PollAction::Finish {
        seq![Update::RunState(RunState::Stopped)]
    } else {
        Seq::empty()
    }
}

/// The bearer token of a logged-in session.
pub struct Session {
    token: Option<String>,
}

impl View for Session {
    type V = Option<Seq<char>>;

    closed spec fn view(&self) -> Option<Seq<char>> {
        match self.token {
            Some(t) => Some(t@),
            None => None,
        }
    }
}

impl Session {
    pub fn new() -> (r: Session)
        ensures
            r@ is None,
    {
        Session { token: None }
    }

    pub fn set(&mut self, token: String)
        ensures
            final(self)@ == Some(token@),
    {
        self.token = Some(token);
    }

    pub fn clear(&mut self)
        ensures
            final(self)@ is None,
    {
        self.token = None;
    }

    pub fn is_set(&self) -> (r: bool)
        ensures
            r <==> self@ is Some,
    {
        self.token.is_some()
    }

    /// The token to send, empty where there is none.
    pub fn access_token(&self) -> (r: String)
        ensures
            r@ == match self@ {
                Some(t) => t,
                None => Seq::empty(),
            },
    {
        match &self.token {
            Some(t) => t.clone(),
            None => String::new(),
        }
    }
}

/// The state that the background jobs share: the session, the beatmap being
/// polled with its run-state, and the queue of updates for the window.
pub struct Client {
    pub session: Session,
    pub beatmap_id: u32,
    pub run_state: RunState,
    pub updates: UpdateQueue,
}

impl Client {
    /// Logged out, nothing polled, no update waiting.
    pub fn new() -> (r: Client)
        ensures
            r.session@ is None,
            r.run_state == RunState::Stopped,
            r.updates@ == Seq::<Update>::empty(),
    {
        Client {
            session: Session::new(),
            beatmap_id: 0,
            run_state: RunState::Stopped,
            updates: UpdateQueue::new(),
        }
    }

    /// Starts a log-in: reports that it is under way, and gives the request to send.
    pub fn log_in(&mut self, client_id: String, client_secret: String) -> (r: TokenGrantRequest)
        ensures
            final(self).updates@ == old(self).updates@.push(
                Update::LoginState(LoginState::LoggingIn),
            ),
            final(self).session@ == old(self).session@,
            final(self).run_state == old(self).run_state,
            final(self).beatmap_id == old(self).beatmap_id,
            r.client_id@ == client_id@,
            r.client_secret@ == client_secret@,
            r.grant_type == crate::types::GrantType::ClientCredentials,
            r.scope == crate::types::GrantScope::Public,
    {
        self.updates.push(Update::LoginState(LoginState::LoggingIn));
        TokenGrantRequest::with_credentials(client_id, client_secret)
    }

    /// Ends a log-in with what the token exchange gave: a token replaces any
    /// earlier one, a failure leaves no token.
    pub fn finish_log_in(&mut self, result: Result<String, AuthError>)
        requires
            result matches Err(e) ==> e.wf(),
        ensures
            final(self).session@ == match result {
                Ok(t) => Some(t@),
                Err(_) => None::<Seq<char>>,
            },
            final(self).updates@.len() == old(self).updates@.len() + 1,
            final(self).updates@.drop_last() == old(self).updates@,
            match result {
                Ok(t) => final(self).updates@.last() matches Update::LoginState(
                    LoginState::LoggedIn { access_token },
                ) && access_token@ == t@,
                Err(e) => final(self).updates@.last() matches Update::LoginState(
                    LoginState::LoginError(m),
                ) && m@ == e.spec_message() && m@.len() > 0,
            },
            final(self).run_state == old(self).run_state,
            final(self).beatmap_id == old(self).beatmap_id,
    {
        let ghost before = self.updates@;
        match result {
            Ok(token) => {
                let shown = token.clone();
                self.session.set(token);
                self.updates.push(Update::LoginState(LoginState::LoggedIn { access_token: shown }));
            },
            Err(e) => {
                self.session.clear();
                let message = e.message();
                self.updates.push(Update::LoginState(LoginState::LoginError(message)));
            },
        }
        assert(self.updates@.drop_last() =~= before);
    }

    /// Logs out: the token is dropped.
    pub fn log_out(&mut self)
        ensures
            final(self).session@ is None,
            final(self).updates@ == old(self).updates@ + seq![
                Update::LoginState(LoginState::LoggingIn),
                Update::LoginState(LoginState::LoggedOut),
            ],
            final(self).run_state == old(self).run_state,
            final(self).beatmap_id == old(self).beatmap_id,
    {
        self.updates.push(Update::LoginState(LoginState::LoggingIn));
        self.session.clear();
        self.updates.push(Update::LoginState(LoginState::LoggedOut));
        assert(self.updates@ =~= old(self).updates@ + seq![
            Update::LoginState(LoginState::LoggingIn),
            Update::LoginState(LoginState::LoggedOut),
        ]);
    }

    /// Starts polling `beatmap_id`, where no job is under way; else changes nothing.
    /// The caller runs the job only where this returns true.
    pub fn start_polling(&mut self, beatmap_id: u32) -> (r: bool)
        ensures
            r <==> old(self).run_state == RunState::Stopped,
            final(self).run_state == start_step(old(self).run_state),
            r ==> final(self).beatmap_id == beatmap_id,
            r ==> final(self).updates@ == old(self).updates@.push(
                Update::RunState(RunState::Running),
            ),
            !r ==> final(self).beatmap_id == old(self).beatmap_id,
            !r ==> final(self).updates@ == old(self).updates@,
            final(self).session@ == old(self).session@,
    {
        if self.run_state != RunState::Stopped {
            return false;
        }
        self.beatmap_id = beatmap_id;
        self.run_state = RunState::Running;
        self.updates.push(Update::RunState(RunState::Running));
        true
    }

    /// Asks a running job to stop before its next fetch; changes nothing otherwise.
    pub fn stop_polling(&mut self)
        ensures
            final(self).run_state == stop_step(old(self).run_state),
            old(self).run_state == RunState::Running ==> final(self).updates@ == old(
                self,
            ).updates@.push(Update::RunState(RunState::Stopping)),
            old(self).run_state != RunState::Running ==> final(self).updates@ == old(
                self,
            ).updates@,
            final(self).session@ == old(self).session@,
            final(self).beatmap_id == old(self).beatmap_id,
    {
        if self.run_state == RunState::Running {
            self.run_state = RunState::Stopping;
            self.updates.push(Update::RunState(RunState::Stopping));
        }
    }

    /// The check at the top of each iteration of the polling job.
    pub fn poll_check(&mut self) -> (r: PollAction)
        ensures
            (final(self).run_state, r) == check_step(old(self).run_state),
            final(self).updates@ == old(self).updates@ + finish_updates(r),
            final(self).session@ == old(self).session@,
            final(self).beatmap_id == old(self).beatmap_id,
    {
        if self.run_state == RunState::Running {
            assert(self.updates@ =~= old(self).updates@ + finish_updates(PollAction::Fetch));
            PollAction::Fetch
        } else {
            self.run_state = RunState::Stopped;
            self.updates.push(Update::RunState(RunState::Stopped));
            assert(self.updates@ =~= old(self).updates@ + finish_updates(PollAction::Finish));
            PollAction::Finish
        }
    }

    /// The beatmap to fetch and the token to fetch it with.
    pub fn fetch_target(&self) -> (r: (u32, String))
        ensures
            r.0 == self.beatmap_id,
            r.1@ == match self.session@ {
                Some(t) => t,
                None => Seq::empty(),
            },
    {
        (self.beatmap_id, self.session.access_token())
    }

    /// Takes what a fetch came to: reports the record (or its absence), then
    /// decides whether the job goes on.
    pub fn poll_fetched(&mut self, outcome: FetchOutcome) -> (r: PollAction)
        ensures
            (final(self).run_state, r) == fetch_step(old(self).run_state, found_status(outcome)),
            final(self).updates@ == old(self).updates@ + seq![
                Update::Beatmap(found_beatmap(outcome)),
            ] + finish_updates(r),
            final(self).session@ == old(self).session@,
            final(self).beatmap_id == old(self).beatmap_id,
    {
        let ghost before = self.updates@;
        let ghost o = outcome;
        let action = match outcome {
            FetchOutcome::Found(b) => {
                let terminal = b.ranked.is_terminal();
                self.updates.push(Update::Beatmap(Some(b)));
                if terminal {
                    PollAction::Finish
                } else {
                    PollAction::Sleep
                }
            },
            _ => {
                self.updates.push(Update::Beatmap(None));
                PollAction::Finish
            },
        };
        if action == PollAction::Finish {
            self.run_state = RunState::Stopped;
            self.updates.push(Update::RunState(RunState::Stopped));
        }
        assert(self.updates@ =~= before + seq![Update::Beatmap(found_beatmap(o))] + finish_updates(
            action,
        ));
        action
    }

    /// Reports the cover fetched for `beatmap_id`.
    pub fn get_beatmap_cover(&mut self, beatmap_id: u32, cover: Option<Bitmap>)
        ensures
            final(self).updates@ == old(self).updates@.push(
                Update::BeatmapCover { beatmap_id, cover },
            ),
            final(self).session@ == old(self).session@,
            final(self).run_state == old(self).run_state,
            final(self).beatmap_id == old(self).beatmap_id,
    {
        self.updates.push(Update::BeatmapCover { beatmap_id, cover });
    }

    /// Reports the public address of this machine.
    pub fn ip_found(&mut self, ip: String)
        ensures
            final(self).updates@ == old(self).updates@.push(Update::Ip(ip)),
            final(self).session@ == old(self).session@,
            final(self).run_state == old(self).run_state,
            final(self).beatmap_id == old(self).beatmap_id,
    {
        self.updates.push(Update::Ip(ip));
    }

    /// Takes every update waiting for the window, oldest first.
    pub fn poll_updates(&mut self) -> (r: Vec<Update>)
        ensures
            r@ == old(self).updates@,
            final(self).updates@ == Seq::<Update>::empty(),
            final(self).session@ == old(self).session@,
            final(self).run_state == old(self).run_state,
            final(self).beatmap_id == old(self).beatmap_id,
    {
        self.updates.drain()
    }
}

/// A status that cannot change again ends the job at the fetch that saw it,
/// whatever the run-state.
pub proof fn lemma_terminal_status_ends_polling(run: RunState, status: RankStatus)
    requires
        status.spec_is_terminal(),
    ensures
        fetch_step(run, Some(status)) == (RunState::Stopped, PollAction::Finish),
{
}

/// A status that may still change keeps a running job going: it waits, and its
/// next check fetches again.
pub proof fn lemma_open_status_keeps_polling(status: RankStatus)
    requires
        !status.spec_is_terminal(),
    ensures
        fetch_step(RunState::Running, Some(status)) == (RunState::Running, PollAction::Sleep),
        check_step(fetch_step(RunState::Running, Some(status)).0) == (
            RunState::Running,
            PollAction::Fetch,
        ),
{
}

/// A stop asked of a running job ends it without another fetch: at once where
/// it is about to check, else when the fetch in flight (`in_flight`, the
/// status it found, if any) completes or at the check after its wait.
pub proof fn lemma_stop_ends_polling(in_flight: Option<RankStatus>)
    ensures
        stop_step(RunState::Running) == RunState::Stopping,
        check_step(stop_step(RunState::Running)) == (RunState::Stopped, PollAction::Finish),
        ({
            let (next, action) = fetch_step(stop_step(RunState::Running), in_flight);
            &&& action != PollAction::Fetch
            &&& action == PollAction::Finish ==> next == RunState::Stopped
            &&& action == PollAction::Sleep ==> check_step(next) == (
                RunState::Stopped,
                PollAction::Finish,
            )
        }),
{
}

/// Only a stopped job can be started: a start in any other run-state changes nothing.
pub proof fn lemma_start_needs_stopped(run: RunState)
    requires
        run != RunState::Stopped,
    ensures
        start_step(run) == run,
{
}

} // verus!
