use vstd::prelude::*;
use crate::actions::{Action, Actions, Key};
use crate::dispatch::{DispatchError, Dispatcher, IoEvent};
use crate::player::Player;
use crate::selection::DisplayedTracks;
use crate::session::AppState;
use crate::track::{clone_tracks, Track};

verus! {

/// What the interactive loop should do after handling an event.
#[derive(Debug, PartialEq, Eq, Structural)]
pub enum AppReturn {
    Exit,
    Continue,
}

/// Capacity of the bounded request queue between the interactive role and
/// the worker role.
pub const REQUEST_QUEUE_CAPACITY: usize = 100;

/// The actions available once the session is initialized.
pub open spec fn full_actions() -> Seq<Action> {
    seq![
        Action::Quit,
        Action::PlaySound,
        Action::PauseSound,
        Action::SelectNextTrack,
        Action::SelectPreviousTrack,
    ]
}

/// Top-level owner of the session: the available actions, the "now playing"
/// snapshot, the player, the playlist and its selection, and the request
/// queue to the worker role. The surrounding process shares one `App` between
/// the interactive role and the worker role under mutual exclusion; every
/// entry point here completes one consistent update, so a render pass never
/// observes a partial one.
pub struct App {
    pub actions: Actions,
    pub state: AppState,
    pub player: Player,
    pub current_playlist: Vec<Track>,
    pub displayed_tracks: DisplayedTracks,
    pub cur_track_idx: usize,
    pub dispatcher: Dispatcher,
}

impl App {
    /// The cross-component invariant: selection and player are well formed,
    /// the displayed list mirrors the playlist, the queue respects its
    /// bound, and once initialized the current track index lies inside the
    /// playlist.
    pub open spec fn wf(&self) -> bool {
        &&& self.displayed_tracks.wf()
        &&& self.player.wf()
        &&& self.dispatcher.wf()
        &&& self.displayed_tracks.tracks@ == self.current_playlist@
        &&& self.state is Initialized ==> self.cur_track_idx < self.current_playlist.len()
    }

    /// The clock value `now` is usable with the player's status.
    pub open spec fn valid_at(&self, now: u64) -> bool {
        self.player.valid_at(now)
    }

    /// A fresh session: only quitting is possible, nothing is loaded,
    /// nothing is loading.
    pub fn new() -> (a: App)
        ensures
            a.actions.items@ == seq![Action::Quit],
            a.state is Init,
            a.player == Player::spec_stopped(),
            a.current_playlist@.len() == 0,
            a.displayed_tracks.tracks@.len() == 0,
            a.displayed_tracks.selected is None,
            a.cur_track_idx == 0,
            a.dispatcher@.queue.len() == 0,
            a.dispatcher@.capacity == REQUEST_QUEUE_CAPACITY,
            !a.dispatcher@.closed,
            a.dispatcher@.outstanding == 0,
            a.wf(),
    {
        let actions: Vec<Action> = vec![Action::Quit];
        assert(actions@ =~= seq![Action::Quit]);
        let a = App {
            actions: Actions::new(actions),
            state: AppState::Init,
            player: Player::new(),
            current_playlist: Vec::new(),
            displayed_tracks: DisplayedTracks::new(),
            cur_track_idx: 0,
            dispatcher: Dispatcher::new(REQUEST_QUEUE_CAPACITY),
        };
        assert(a.displayed_tracks.tracks@ =~= a.current_playlist@);
        a
    }

    /// Commit of a completed playlist fetch, performed by the worker role in
    /// one critical section: make the full action set available, show the
    /// playlist, select and load its first track paused at zero elapsed
    /// time. An empty playlist leaves nothing playable: the player stops and
    /// the snapshot returns to uninitialized.
    pub fn initialized(&mut self, playlist: Vec<Track>)
        requires
            old(self).wf(),
        ensures
            final(self).wf(),
            final(self).actions.items@ == full_actions(),
            final(self).current_playlist@ == playlist@,
            final(self).displayed_tracks.tracks@ == playlist@,
            final(self).dispatcher == old(self).dispatcher,
            playlist@.len() == 0 ==> final(self).displayed_tracks.selected is None && final(self).player == Player::spec_stopped() && final(self).state is Init && final(self).cur_track_idx == 0,
            playlist@.len() > 0 ==> final(self).displayed_tracks.selected == Some(0usize) && final(self).cur_track_idx == 0 && final(self).player == Player::spec_loaded(playlist@[0]) && final(self).state == (AppState::Initialized {
                duration: 0u64,
                total_duration: playlist@[0].total_duration_ms,
            }),
    {
        let full: Vec<Action> = vec![
            Action::Quit,
            Action::PlaySound,
            Action::PauseSound,
            Action::SelectNextTrack,
            Action::SelectPreviousTrack,
        ];
        assert(full@ =~= full_actions());
        self.actions = Actions::new(full);
        let shown = clone_tracks(&playlist);
        self.displayed_tracks.set_tracks(shown);
        self.cur_track_idx = 0;
        if playlist.len() == 0 {
            self.player.stop();
            self.state = AppState::Init;
            self.current_playlist = playlist;
        } else {
            self.displayed_tracks.next();
            let track = playlist[0].clone();
            let total = track.total_duration_ms;
            self.player.load(track);
            self.state = AppState::initialized(total);
            self.current_playlist = playlist;
        }
    }

    /// Tick role: refresh the "now playing" snapshot from the player's
    /// current elapsed time, reconciling a drained sink first. Never
    /// suspends, never fails.
    pub fn update_on_tick(&mut self, now_ms: u64) -> (r: AppReturn)
        requires
            old(self).wf(),
            old(self).valid_at(now_ms),
        ensures
            final(self).wf(),
            r == AppReturn::Continue,
            final(self).player == old(self).player.spec_reconciled(),
            final(self).state == old(self).state.spec_refreshed(
                old(self).player.spec_reconciled().status.spec_elapsed(now_ms) as u64,
            ),
            final(self).actions == old(self).actions,
            final(self).current_playlist == old(self).current_playlist,
            final(self).displayed_tracks == old(self).displayed_tracks,
            final(self).cur_track_idx == old(self).cur_track_idx,
            final(self).dispatcher == old(self).dispatcher,
    {
        let status = self.player.status();
        let elapsed = status.elapsed(now_ms);
        self.state.update_duration(elapsed);
        AppReturn::Continue
    }

    /// Interactive role, one keystroke: map the key to an available action
    /// and run it. Transport and selection commands act locally; switching
    /// to a different track needs a download, so it is submitted to the
    /// worker role instead of blocking here. Illegal transport calls and a
    /// missing selection are rejected as no-ops; a refused submission leaves
    /// the session exactly as it was.
    pub fn do_action(&mut self, key: Key, now_ms: u64) -> (r: AppReturn)
        requires
            old(self).wf(),
            old(self).valid_at(now_ms),
        ensures
            final(self).wf(),
            r == (if old(self).actions.spec_find(key) == Some(Action::Quit) {
                AppReturn::Exit
            } else {
                AppReturn::Continue
            }),
            match old(self).actions.spec_find(key) {
                None => *final(self) == *old(self),
                Some(Action::Quit) => *final(self) == *old(self),
                Some(Action::SelectNextTrack) => *final(self) == (App {
                    displayed_tracks: old(self).displayed_tracks.spec_next(),
                    ..*old(self)
                }),
                Some(Action::SelectPreviousTrack) => *final(self) == (App {
                    displayed_tracks: old(self).displayed_tracks.spec_previous(),
                    ..*old(self)
                }),
                Some(Action::PauseSound) => *final(self) == (if old(self).player.status is Empty {
                    *old(self)
                } else {
                    App { player: old(self).player.spec_pause(now_ms), ..*old(self) }
                }),
                Some(Action::PlaySound) => match old(self).displayed_tracks.selected {
                    None => *final(self) == *old(self),
                    Some(i) => if i == old(self).cur_track_idx {
                        *final(self) == (if old(self).player.status is Empty {
                            *old(self)
                        } else {
                            App { player: old(self).player.spec_play(now_ms), ..*old(self) }
                        })
                    } else {
                        &&& final(self).dispatcher@ == (if old(self).dispatcher@.accepts() {
                            old(self).dispatcher@.submitted(IoEvent::SwitchTrack(i))
                        } else {
                            old(self).dispatcher@
                        })
                        &&& final(self).actions == old(self).actions
                        &&& final(self).state == old(self).state
                        &&& final(self).player == old(self).player
                        &&& final(self).current_playlist == old(self).current_playlist
                        &&& final(self).displayed_tracks == old(self).displayed_tracks
                        &&& final(self).cur_track_idx == old(self).cur_track_idx
                    },
                },
            },
    {
        let action = self.actions.find(key);
        match action {
            None => AppReturn::Continue,
            Some(Action::Quit) => AppReturn::Exit,
            Some(Action::PlaySound) => {
                match self.displayed_tracks.selected() {
                    None => AppReturn::Continue,
                    Some(i) => {
                        if i != self.cur_track_idx {
                            let _ = self.dispatcher.submit(IoEvent::SwitchTrack(i));
                            AppReturn::Continue
                        } else {
                            let _ = self.player.play(now_ms);
                            AppReturn::Continue
                        }
                    },
                }
            },
            Some(Action::PauseSound) => {
                let _ = self.player.pause(now_ms);
                AppReturn::Continue
            },
            Some(Action::SelectNextTrack) => {
                self.displayed_tracks.next();
                AppReturn::Continue
            },
            Some(Action::SelectPreviousTrack) => {
                self.displayed_tracks.previous();
                AppReturn::Continue
            },
        }
    }

    /// Interactive role: submit a work item for the worker role. On refusal
    /// the session is unchanged — in particular the loading indicator never
    /// sticks — and the caller reports the failure to the operator log.
    pub fn dispatch(&mut self, event: IoEvent) -> (r: Result<(), DispatchError>)
        requires
            old(self).wf(),
        ensures
            final(self).wf(),
            r is Ok <==> old(self).dispatcher@.accepts(),
            old(self).dispatcher@.accepts() ==> final(self).dispatcher@ == old(self).dispatcher@.submitted(event),
            !old(self).dispatcher@.accepts() ==> *final(self) == *old(self),
            final(self).actions == old(self).actions,
            final(self).state == old(self).state,
            final(self).player == old(self).player,
            final(self).current_playlist == old(self).current_playlist,
            final(self).displayed_tracks == old(self).displayed_tracks,
            final(self).cur_track_idx == old(self).cur_track_idx,
    {
        self.dispatcher.submit(event)
    }

    /// Worker role: take the next work item, in submission order.
    pub fn next_io_event(&mut self) -> (r: Option<IoEvent>)
        requires
            old(self).wf(),
        ensures
            final(self).wf(),
            old(self).dispatcher@.queue.len() == 0 ==> r is None && *final(self) == *old(self),
            old(self).dispatcher@.queue.len() > 0 ==> r == Some(old(self).dispatcher@.queue[0])
                && final(self).dispatcher@ == old(self).dispatcher@.taken(),
            final(self).actions == old(self).actions,
            final(self).state == old(self).state,
            final(self).player == old(self).player,
            final(self).current_playlist == old(self).current_playlist,
            final(self).displayed_tracks == old(self).displayed_tracks,
            final(self).cur_track_idx == old(self).cur_track_idx,
    {
        self.dispatcher.take()
    }

    /// Worker role: one work item has been committed; the loading indicator
    /// falls only when none is outstanding any more.
    pub fn loaded(&mut self)
        requires
            old(self).wf(),
        ensures
            final(self).wf(),
            final(self).dispatcher@ == old(self).dispatcher@.completed(),
            final(self).actions == old(self).actions,
            final(self).state == old(self).state,
            final(self).player == old(self).player,
            final(self).current_playlist == old(self).current_playlist,
            final(self).displayed_tracks == old(self).displayed_tracks,
            final(self).cur_track_idx == old(self).cur_track_idx,
    {
        self.dispatcher.completed();
    }

    /// Commit of a completed track download requested by `SwitchTrack`: load
    /// and start the track at this playlist index. A stale index (the
    /// playlist changed since the request) is a defined no-op.
    pub fn track_switched(&mut self, idx: usize, now_ms: u64) -> (r: AppReturn)
        requires
            old(self).wf(),
            old(self).valid_at(now_ms),
        ensures
            final(self).wf(),
            r == AppReturn::Continue,
            idx >= old(self).current_playlist@.len() ==> *final(self) == *old(self),
            idx < old(self).current_playlist@.len() ==> *final(self) == (App {
                player: Player::spec_loaded(old(self).current_playlist@[idx as int]).spec_play(
                    now_ms,
                ),
                cur_track_idx: idx,
                state: AppState::Initialized {
                    duration: 0u64,
                    total_duration: old(self).current_playlist@[idx as int].total_duration_ms,
                },
                ..*old(self)
            }),
    {
        if idx >= self.current_playlist.len() {
            return AppReturn::Continue;
        }
        let track = self.current_playlist[idx].clone();
        let total = track.total_duration_ms;
        self.player.load(track);
        let _ = self.player.play(now_ms);
        self.cur_track_idx = idx;
        self.state = AppState::initialized(total);
        AppReturn::Continue
    }

    /// Commit of `SongIsOver`: advance the selection to the next track
    /// cyclically and start it. With an empty playlist nothing happens.
    pub fn song_switched(&mut self, now_ms: u64)
        requires
            old(self).wf(),
            old(self).valid_at(now_ms),
        ensures
            final(self).wf(),
            old(self).current_playlist@.len() == 0 ==> *final(self) == *old(self),
            old(self).current_playlist@.len() > 0 ==> {
                let j = old(self).displayed_tracks.spec_next_index()->0;
                *final(self) == (App {
                    displayed_tracks: old(self).displayed_tracks.spec_next(),
                    player: Player::spec_loaded(old(self).current_playlist@[j as int]).spec_play(
                        now_ms,
                    ),
                    cur_track_idx: j,
                    state: AppState::Initialized {
                        duration: 0u64,
                        total_duration: old(self).current_playlist@[j as int].total_duration_ms,
                    },
                    ..*old(self)
                })
            },
    {
        if self.current_playlist.len() == 0 {
            return ;
        }
        self.displayed_tracks.next();
        let j = self.displayed_tracks.selected().unwrap();
        let track = self.current_playlist[j].clone();
        let total = track.total_duration_ms;
        self.player.load(track);
        let _ = self.player.play(now_ms);
        self.cur_track_idx = j;
        self.state = AppState::initialized(total);
    }

    /// Where `SongIsOver` would move the selection, for the worker role to
    /// read (and download) the coming track before committing.
    pub fn peek_next_index(&self) -> (r: Option<usize>)
        requires
            self.wf(),
        ensures
            r == self.displayed_tracks.spec_next_index(),
    {
        if self.displayed_tracks.tracks.len() == 0 {
            self.displayed_tracks.selected()
        } else {
            match self.displayed_tracks.selected() {
                Some(i) => if i >= self.displayed_tracks.tracks.len() - 1 {
                    Some(0)
                } else {
                    Some(i + 1)
                },
                None => Some(0),
            }
        }
    }

    /// Whether the clock value is usable with the current player state; the
    /// surrounding process checks this before handing an instant in.
    pub fn clock_ok(&self, now_ms: u64) -> (r: bool)
        ensures
            r == self.valid_at(now_ms),
    {
        match self.player.status {
            crate::status::Status::Playing(start, acc) => start <= now_ms && acc <= u64::MAX - (
            now_ms - start),
            _ => true,
        }
    }

    /// The actions currently available, for the help pane.
    pub fn actions(&self) -> (r: &Actions)
        ensures
            *r == self.actions,
    {
        &self.actions
    }

    /// The "now playing" snapshot, for the render layer.
    pub fn state(&self) -> (r: &AppState)
        ensures
            *r == self.state,
    {
        &self.state
    }

    /// Whether any submitted work item is still uncommitted.
    pub fn is_loading(&self) -> (r: bool)
        ensures
            r == (self.dispatcher@.outstanding > 0),
    {
        self.dispatcher.is_busy()
    }

    /// The playlist of the session, in catalog order.
    pub fn current_playlist(&self) -> (r: &Vec<Track>)
        ensures
            *r == self.current_playlist,
    {
        &self.current_playlist
    }
}

} // verus!
