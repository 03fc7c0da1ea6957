//! What the window keeps between frames, and its fold over the updates that
//! the background jobs send.
use vstd::prelude::*;

use crate::client::{LoginState, RunState, Update};
use crate::cover::Bitmap;
use crate::text::{dotted, dotted_string, hex_of, hex_string, parsed_u32, parse_u32};
use crate::types::Beatmap;

verus! {

/// Relies on `rand::random`, which draws a value from the thread's generator;
/// nothing is promised of the value.
pub assume_specification<T>[ rand::random::<T> ]() -> (r: T)
    where
        rand::distributions::Standard: rand::distributions::Distribution<T>,
;

/// The made-up address and wallet that the hamster's joke screen shows.
#[derive(Clone, Debug, PartialEq, Eq)]
pub struct HamsterHackData {
    pub ip: String,
    pub address: String,
}

impl HamsterHackData {
    /// A dotted address from `ip` and a hexadecimal wallet from `address`.
    pub fn from_bytes(ip: &[u8], address: &[u8]) -> (r: HamsterHackData)
        ensures
            r.ip@ == dotted(ip@),
            r.address@ == hex_of(address@),
    {
        HamsterHackData { ip: dotted_string(ip), address: hex_string(address) }
    }

    /// Four random bytes as the address, sixteen as the wallet.
    pub fn random() -> (r: HamsterHackData)
        ensures
            exists|b: Seq<u8>| b.len() == 4 && r.ip@ == dotted(b),
            exists|b: Seq<u8>| b.len() == 16 && r.address@ == hex_of(b),
    {
        let ip: [u8; 4] = rand::random();
        let address: [u8; 16] = rand::random();
        let r = HamsterHackData::from_bytes(&ip, &address);
        assert(ip@.len() == 4 && r.ip@ == dotted(ip@));
        assert(address@.len() == 16 && r.address@ == hex_of(address@));
        r
    }

}

/// The joke screen for one set of hamster data.
pub struct HamsterHackWidget<'a> {
    pub hamster_hack: &'a HamsterHackData,
}

impl<'a> HamsterHackWidget<'a> {
    pub open spec fn spec_payment_line(&self) -> Seq<char> {
        "musisz przesłać 500 żappsów na adres 0x"@ + self.hamster_hack.address@
    }

    /// The line that asks for payment to the wallet.
    pub fn payment_line(&self) -> (r: String)
        ensures
            r@ == self.spec_payment_line(),
    {
        let mut s = String::from_str("musisz przesłać 500 żappsów na adres 0x");
        s.append(self.hamster_hack.address.as_str());
        s
    }
}

/// The bottom corner of the window where the hamster sits.
#[derive(Clone, Copy, Debug, PartialEq, Eq, Structural)]
pub enum Corner {
    LeftBottom,
    RightBottom,
}

/// The settings kept from one run to the next.
#[derive(Clone, Debug, PartialEq, Eq)]
pub struct Config {
    pub client_id: String,
    pub client_secret: String,
    pub beatmap_id: String,
    pub dark_mode: bool,
    pub hamster_position: Corner,
}

impl Default for Config {
    /// No credentials, no beatmap, dark theme, hamster on the right.
    fn default() -> (r: Config)
        ensures
            r.client_id@.len() == 0,
            r.client_secret@.len() == 0,
            r.beatmap_id@.len() == 0,
            r.dark_mode,
            r.hamster_position == Corner::RightBottom,
    {
        Config {
            client_id: String::new(),
            client_secret: String::new(),
            beatmap_id: String::new(),
            dark_mode: true,
            hamster_position: Corner::RightBottom,
        }
    }
}

impl Config {
    /// Both credentials are filled in, so a log-in can start without asking.
    pub fn has_credentials(&self) -> (r: bool)
        ensures
            r <==> (self.client_id@.len() > 0 && self.client_secret@.len() > 0),
    {
        self.client_id.as_str().unicode_len() > 0 && self.client_secret.as_str().unicode_len() > 0
    }
}

/// What the window shows, as the updates have left it.
pub struct State {
    pub login_state: LoginState,
    pub run_state: RunState,
    pub config_open: bool,
    pub beatmap: Option<Beatmap>,
    /// The cover of `beatmap`; absent while it loads or where it could not be had.
    pub beatmap_cover: Option<Bitmap>,
    pub hamster_hack: Option<HamsterHackData>,
}

/// The beatmap whose cover must be fetched when `new` replaces `old`: one
/// whose id was not shown before.
pub open spec fn cover_request(old: Option<Beatmap>, new: Option<Beatmap>) -> Option<u32> {
    match new {
        Some(n) => match old {
            Some(o) => if o.id == n.id {
                None
            } else {
                Some(n.id)
            },
            None => Some(n.id),
        },
        None => None,
    }
}

/// The window's state after one update, and the cover it asks for, if any.
pub open spec fn fold_step(s: State, u: Update) -> (State, Option<u32>) {
    match u {
        Update::LoginState(l) => (
            State {
                config_open: s.config_open || l is LoginError,
                login_state: l,
                ..s
            },
            None,
        ),
        Update::RunState(r) => (
            if r == RunState::Running {
                State { run_state: r, beatmap: None, beatmap_cover: None, ..s }
            } else {
                State { run_state: r, ..s }
            },
            None,
        ),
        Update::Beatmap(b) => {
            let req = cover_request(s.beatmap, b);
            (
                if req is Some || b is None {
                    State { beatmap: b, beatmap_cover: None, ..s }
                } else {
                    State { beatmap: b, ..s }
                },
                req,
            )
        },
        Update::BeatmapCover { beatmap_id, cover } => (
            if s.beatmap matches Some(cur) && cur.id == beatmap_id {
                State { beatmap_cover: cover, ..s }
            } else {
                s
            },
            None,
        ),
        Update::Ip(ip) => (
            match s.hamster_hack {
                Some(h) => State {
                    hamster_hack: Some(HamsterHackData { ip, address: h.address }),
                    ..s
                },
                None => s,
            },
            None,
        ),
    }
}

/// The window's state after the updates in order, and the covers they ask for.
pub open spec fn fold_all(s: State, us: Seq<Update>) -> (State, Seq<u32>)
    decreases us.len(),
{
    if us.len() == 0 {
        (s, Seq::empty())
    } else {
        let (s1, req) = fold_step(s, us[0]);
        let (s2, reqs) = fold_all(s1, us.drop_first());
        (
            s2,
            match req {
                Some(id) => seq![id] + reqs,
                None => reqs,
            },
        )
    }
}

impl State {
    /// Logged out, stopped, nothing shown.
    pub fn new() -> (r: State)
        ensures
            r.login_state == LoginState::LoggedOut,
            r.run_state == RunState::Stopped,
            !r.config_open,
            r.beatmap is None,
            r.beatmap_cover is None,
            r.hamster_hack is None,
    {
        State {
            login_state: LoginState::LoggedOut,
            run_state: RunState::Stopped,
            config_open: false,
            beatmap: None,
            beatmap_cover: None,
            hamster_hack: None,
        }
    }

    /// Folds one update into the state; gives the beatmap whose cover is to be
    /// fetched, where the update shows a new one.
    pub fn apply(&mut self, update: Update) -> (r: Option<u32>)
        ensures
            (*final(self), r) == fold_step(*old(self), update),
    {
        match update {
            Update::LoginState(l) => {
                if let LoginState::LoginError(_) = &l {
                    self.config_open = true;
                }
                self.login_state = l;
                None
            },
            Update::RunState(r) => {
                if r == RunState::Running {
                    self.beatmap = None;
                    self.beatmap_cover = None;
                }
                self.run_state = r;
                None
            },
            Update::Beatmap(b) => {
                let req = match (&self.beatmap, &b) {
                    (Some(o), Some(n)) => if o.id == n.id {
                        None
                    } else {
                        Some(n.id)
                    },
                    (None, Some(n)) => Some(n.id),
                    (_, None) => None,
                };
                if req.is_some() || b.is_none() {
                    self.beatmap_cover = None;
                }
                self.beatmap = b;
                req
            },
            Update::BeatmapCover { beatmap_id, cover } => {
                let current = match &self.beatmap {
                    Some(cur) => cur.id == beatmap_id,
                    None => false,
                };
                if current {
                    self.beatmap_cover = cover;
                }
                None
            },
            Update::Ip(ip) => {
                match &mut self.hamster_hack {
                    Some(h) => h.ip = ip,
                    None => {},
                }
                None
            },
        }
    }

    /// Folds the updates into the state in the order they came; gives, in
    /// order, the beatmaps whose covers are to be fetched.
    pub fn apply_updates(&mut self, updates: Vec<Update>) -> (r: Vec<u32>)
        ensures
            (*final(self), r@) == fold_all(*old(self), updates@),
    {
        let mut rest = updates;
        let mut requests: Vec<u32> = Vec::new();
        while rest.len() > 0
            invariant
                fold_all(*old(self), updates@) == (
                    fold_all(*self, rest@).0,
                    requests@ + fold_all(*self, rest@).1,
                ),
            decreases rest@.len(),
        {
            let ghost before = *self;
            let ghost pending = rest@;
            let u = rest.remove(0);
            assert(rest@ =~= pending.drop_first());
            match self.apply(u) {
                Some(id) => {
                    requests.push(id);
                    assert(requests@ + fold_all(*self, rest@).1 =~= requests@.drop_last() + (
                        seq![id] + fold_all(*self, rest@).1));
                },
                None => {},
            }
        }
        assert(requests@ + Seq::<u32>::empty() =~= requests@);
        requests
    }

    /// The settings window shows while asked for, and until a log-in succeeds.
    pub fn should_show_settings(&self) -> (r: bool)
        ensures
            r <==> (self.config_open || !(self.login_state is LoggedIn)),
    {
        self.config_open || !matches!(self.login_state, LoginState::LoggedIn { .. })
    }

    /// Credentials can be edited and sent while no log-in is under way or done.
    pub fn login_inputs_enabled(&self) -> (r: bool)
        ensures
            r <==> (self.login_state is LoggedOut || self.login_state is LoginError),
    {
        matches!(self.login_state, LoginState::LoggedOut | LoginState::LoginError(_))
    }

    /// A polling job is under way (running or stopping).
    pub fn worker_running(&self) -> (r: bool)
        ensures
            r <==> self.run_state != RunState::Stopped,
    {
        self.run_state != RunState::Stopped
    }

    /// The beatmap to start polling from the text the user typed: offered only
    /// while logged in, with no job under way, and for text that reads as an id.
    pub fn start_request(&self, beatmap_id: &str) -> (r: Option<u32>)
        ensures
            r == (if self.login_state is LoggedIn && self.run_state == RunState::Stopped {
                parsed_u32(beatmap_id@)
            } else {
                None
            }),
    {
        if matches!(self.login_state, LoginState::LoggedIn { .. }) && self.run_state
            == RunState::Stopped {
            parse_u32(beatmap_id)
        } else {
            None
        }
    }
}

} // verus!
