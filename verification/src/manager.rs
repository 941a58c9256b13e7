//! The session manager: a state machine that reacts to [`serialCtrl`] commands.
//!
//! The manager owns the two handles of a running session, the channel used to
//! stop the reader (`S`) and the reader's thread (`H`), without looking into
//! them.  Each command is turned into a new manager state and one
//! [`CtrlAction`] that the caller carries out (send on a channel, spawn the
//! reader, publish the state, ...).
use vstd::prelude::*;
use crate::types::{serialCtrl, serialSettings, serialState};

verus! {

/// What the caller has to do after the manager handled a command.
#[derive(Debug)]
pub enum CtrlAction<S> {
    /// The command has no effect in the current state.
    Ignored,
    /// Post `NEW(settings)` to the manager's own queue.
    Resubmit(serialSettings),
    /// A restart was asked for, but no settings are known.
    MissingSettings,
    /// Send the stop signal on this channel (a failure is fatal), then publish the state.
    Pause(S),
    /// Send the stop signal on this channel (a failure is only reported), then publish the state.
    Exit(S),
    /// Start a reader with these settings and this session id, then hand its
    /// handles to [`sManager::attach_serial`] and publish the state.
    Start { settings: serialSettings, id: u8 },
    /// The settings were refused; tell the front end.
    Rejected,
    /// The reader is gone; publish the state.
    Released,
    /// Leave the manager's loop.
    Shutdown,
}

/// The session manager.
#[derive(Debug)]
pub struct sManager<S, H> {
    /// Channel that stops the running reader.
    pub send_target: Option<S>,
    /// Thread of the running reader.
    pub thread_handle: Option<H>,
    /// Settings of the current or last session.
    pub serial_settings: Option<serialSettings>,
    pub sState: serialState,
}

/// Whether the manager accepts settings for a new session (it accepts all).
pub open spec fn settings_accepted(cfg: serialSettings) -> bool {
    true
}

/// The manager's reaction to `cmd`; `id` is the id a new session gets.
pub open spec fn ctrl_step<S, H>(m: sManager<S, H>, cmd: serialCtrl, id: u8) -> (sManager<S, H>, CtrlAction<S>) {
    match cmd {
        serialCtrl::PLAY => {
            if m.sState == serialState::IDLE {
                match m.serial_settings {
                    Some(cfg) => (m, CtrlAction::Resubmit(cfg)),
                    None => (m, CtrlAction::MissingSettings),
                }
            } else {
                (m, CtrlAction::Ignored)
            }
        },
        serialCtrl::PAUSE => {
            if m.sState == serialState::RUNNING && m.send_target is Some {
                (
                    sManager { send_target: None, thread_handle: None, sState: serialState::IDLE, ..m },
                    CtrlAction::Pause(m.send_target->0),
                )
            } else {
                (m, CtrlAction::Ignored)
            }
        },
        serialCtrl::EXIT => {
            if m.sState == serialState::RUNNING && m.send_target is Some {
                (
                    sManager {
                        send_target: None,
                        thread_handle: None,
                        serial_settings: None,
                        sState: serialState::IDLE,
                    },
                    CtrlAction::Exit(m.send_target->0),
                )
            } else {
                (m, CtrlAction::Ignored)
            }
        },
        serialCtrl::NEW(cfg) => {
            if m.sState == serialState::IDLE {
                if settings_accepted(cfg) {
                    (
                        sManager { serial_settings: Some(cfg), ..m },
                        CtrlAction::Start { settings: cfg, id },
                    )
                } else {
                    (m, CtrlAction::Rejected)
                }
            } else {
                (m, CtrlAction::Ignored)
            }
        },
        serialCtrl::EXIT_THREAD => (m, CtrlAction::Shutdown),
        serialCtrl::SERIAL_EXIT => (
            sManager { send_target: None, thread_handle: None, sState: serialState::IDLE, ..m },
            CtrlAction::Released,
        ),
    }
}

/// The manager after the handles of a started reader were handed to it.
pub open spec fn attach_step<S, H>(m: sManager<S, H>, target: S, thread: H) -> sManager<S, H> {
    if m.sState == serialState::IDLE && m.send_target is None && m.serial_settings is Some {
        sManager { send_target: Some(target), thread_handle: Some(thread), sState: serialState::RUNNING, ..m }
    } else {
        m
    }
}

/// Draws a session id with `rand::Rng::gen_range(0..255)` on the thread-local
/// generator of `rand::thread_rng`.  The contract claims only what the range
/// gives: the id is below 255; which id comes is left open.
#[verifier::external_body]
fn random_session_id() -> (id: u8)
    ensures
        id < 255,
{
    rand::Rng::gen_range(&mut rand::thread_rng(), 0u8..255u8)
}

impl<S, H> sManager<S, H> {
    /// A session runs exactly when the manager holds the reader's channel and
    /// thread, and a running session has settings.
    pub open spec fn wf(self) -> bool {
        &&& (self.sState == serialState::RUNNING) == (self.send_target is Some)
        &&& (self.send_target is Some) == (self.thread_handle is Some)
        &&& self.sState == serialState::RUNNING ==> self.serial_settings is Some
    }

    /// An idle manager without settings.
    pub fn new() -> (m: Self)
        ensures
            m.wf(),
            m.sState == serialState::IDLE,
            m.send_target is None,
            m.thread_handle is None,
            m.serial_settings is None,
    {
        sManager { send_target: None, thread_handle: None, serial_settings: None, sState: serialState::IDLE }
    }

    /// Whether `settings` may start a session.
    pub fn validate_settings(&self, settings: &serialSettings) -> (ok: bool)
        ensures
            ok == settings_accepted(*settings),
    {
        true
    }

    /// Whether settings of a session are known.
    pub fn get_current_settings(&self) -> (known: bool)
        ensures
            known == self.serial_settings is Some,
    {
        self.serial_settings.is_some()
    }

    /// Handles `cmd`; a session started by it gets the id `id`.
    pub fn handle_cmd_with_id(&mut self, cmd: serialCtrl, id: u8) -> (action: CtrlAction<S>)
        requires
            old(self).wf(),
        ensures
            (*final(self), action) == ctrl_step(*old(self), cmd, id),
            final(self).wf(),
    {
        match cmd {
            serialCtrl::PLAY => {
                if self.sState == serialState::IDLE {
                    match &self.serial_settings {
                        Some(cfg) => CtrlAction::Resubmit(cfg.clone()),
                        None => CtrlAction::MissingSettings,
                    }
                } else {
                    CtrlAction::Ignored
                }
            },
            serialCtrl::PAUSE => {
                if self.sState == serialState::RUNNING && self.send_target.is_some() {
                    let target = self.send_target.take().unwrap();
                    self.thread_handle = None;
                    self.sState = serialState::IDLE;
                    CtrlAction::Pause(target)
                } else {
                    CtrlAction::Ignored
                }
            },
            serialCtrl::EXIT => {
                if self.sState == serialState::RUNNING && self.send_target.is_some() {
                    let target = self.send_target.take().unwrap();
                    self.thread_handle = None;
                    self.serial_settings = None;
                    self.sState = serialState::IDLE;
                    CtrlAction::Exit(target)
                } else {
                    CtrlAction::Ignored
                }
            },
            serialCtrl::NEW(cfg) => {
                if self.sState == serialState::IDLE {
                    if self.validate_settings(&cfg) {
                        self.serial_settings = Some(cfg.clone());
                        CtrlAction::Start { settings: cfg, id }
                    } else {
                        CtrlAction::Rejected
                    }
                } else {
                    CtrlAction::Ignored
                }
            },
            serialCtrl::EXIT_THREAD => CtrlAction::Shutdown,
            serialCtrl::SERIAL_EXIT => {
                self.send_target = None;
                self.thread_handle = None;
                self.sState = serialState::IDLE;
                CtrlAction::Released
            },
        }
    }

    /// Handles `cmd`; a session started by it gets a random id below 255.
    pub fn handle_cmd(&mut self, cmd: serialCtrl) -> (action: CtrlAction<S>)
        requires
            old(self).wf(),
        ensures
            exists|id: u8| id < 255 && (*final(self), action) == #[trigger] ctrl_step(*old(self), cmd, id),
            final(self).wf(),
    {
        // An id is drawn only for a session that is about to start.
        let id = match &cmd {
            serialCtrl::NEW(cfg) => {
                if self.sState == serialState::IDLE && self.validate_settings(cfg) {
                    random_session_id()
                } else {
                    0
                }
            },
            _ => 0,
        };
        self.handle_cmd_with_id(cmd, id)
    }

    /// Takes the handles of the reader started for a [`CtrlAction::Start`].
    /// They are handed back, and nothing changes, unless the manager is idle,
    /// holds no reader and knows the settings.
    pub fn attach_serial(&mut self, target: S, thread: H) -> (refused: Option<(S, H)>)
        requires
            old(self).wf(),
        ensures
            *final(self) == attach_step(*old(self), target, thread),
            final(self).wf(),
            refused is None <==> (old(self).sState == serialState::IDLE && old(self).send_target is None
                && old(self).serial_settings is Some),
            refused matches Some(back) ==> back == (target, thread),
    {
        if self.sState == serialState::IDLE && self.send_target.is_none() && self.serial_settings.is_some() {
            self.send_target = Some(target);
            self.thread_handle = Some(thread);
            self.sState = serialState::RUNNING;
            None
        } else {
            Some((target, thread))
        }
    }
}

/// Every command keeps the manager well formed: a session runs exactly when
/// the reader's channel and thread are held, and a running session has settings.
pub proof fn lemma_step_keeps_wf<S, H>(m: sManager<S, H>, cmd: serialCtrl, id: u8)
    requires
        m.wf(),
    ensures
        ctrl_step(m, cmd, id).0.wf(),
{
}

/// Attaching a reader keeps the manager well formed.
pub proof fn lemma_attach_keeps_wf<S, H>(m: sManager<S, H>, target: S, thread: H)
    requires
        m.wf(),
    ensures
        attach_step(m, target, thread).wf(),
{
}

/// A new session is refused while one runs: `NEW` changes nothing then.
pub proof fn lemma_new_ignored_while_running<S, H>(m: sManager<S, H>, cfg: serialSettings, id: u8)
    requires
        m.sState == serialState::RUNNING,
    ensures
        ctrl_step(m, serialCtrl::NEW(cfg), id) == (m, CtrlAction::<S>::Ignored),
{
}

/// `PLAY` and `EXIT_THREAD` never change the manager.
pub proof fn lemma_play_and_exit_thread_keep_state<S, H>(m: sManager<S, H>, id: u8)
    ensures
        ctrl_step(m, serialCtrl::PLAY, id).0 == m,
        ctrl_step(m, serialCtrl::EXIT_THREAD, id) == (m, CtrlAction::<S>::Shutdown),
{
}

/// A session started from the idle state with `cfg` runs with `cfg` once its
/// reader is attached.
pub proof fn lemma_start_then_attach_runs<S, H>(
    m: sManager<S, H>,
    cfg: serialSettings,
    id: u8,
    target: S,
    thread: H,
)
    requires
        m.wf(),
        m.sState == serialState::IDLE,
    ensures
        ctrl_step(m, serialCtrl::NEW(cfg), id).1 == (CtrlAction::<S>::Start { settings: cfg, id }),
        attach_step(ctrl_step(m, serialCtrl::NEW(cfg), id).0, target, thread) == (sManager {
            send_target: Some(target),
            thread_handle: Some(thread),
            serial_settings: Some(cfg),
            sState: serialState::RUNNING,
        }),
{
}

/// `PAUSE`, `EXIT` and `SERIAL_EXIT` each leave the manager idle with no reader.
pub proof fn lemma_stops_leave_idle<S, H>(m: sManager<S, H>, id: u8)
    requires
        m.wf(),
    ensures
        ctrl_step(m, serialCtrl::PAUSE, id).0.sState == serialState::IDLE,
        (ctrl_step(m, serialCtrl::PAUSE, id).0.send_target is None),
        ctrl_step(m, serialCtrl::EXIT, id).0.sState == serialState::IDLE,
        (ctrl_step(m, serialCtrl::EXIT, id).0.send_target is None),
        ctrl_step(m, serialCtrl::SERIAL_EXIT, id).0.sState == serialState::IDLE,
        (ctrl_step(m, serialCtrl::SERIAL_EXIT, id).0.send_target is None),
{
}

/// A running session that is paused and then played again asks to restart with
/// the settings it ran with; one that is exited has forgotten them.
pub proof fn lemma_pause_keeps_settings_exit_forgets<S, H>(m: sManager<S, H>, id1: u8, id2: u8)
    requires
        m.wf(),
        m.sState == serialState::RUNNING,
    ensures
        ctrl_step(m, serialCtrl::PAUSE, id1).1 == CtrlAction::<S>::Pause(m.send_target->0),
        ctrl_step(ctrl_step(m, serialCtrl::PAUSE, id1).0, serialCtrl::PLAY, id2).1
            == CtrlAction::<S>::Resubmit(m.serial_settings->0),
        ctrl_step(m, serialCtrl::EXIT, id1).1 == CtrlAction::<S>::Exit(m.send_target->0),
        ctrl_step(ctrl_step(m, serialCtrl::EXIT, id1).0, serialCtrl::PLAY, id2).1
            == CtrlAction::<S>::MissingSettings,
{
}

/// An idle manager ignores every command but `PLAY` and `NEW`: `PAUSE`,
/// `EXIT`, `SERIAL_EXIT` and `EXIT_THREAD` leave it exactly as it was (its
/// settings included), and only `PLAY` asks for a restart, with the settings
/// it keeps, or reports that there are none.
pub proof fn lemma_idle_manager_commands<S, H>(m: sManager<S, H>, id: u8)
    requires
        m.wf(),
        m.sState == serialState::IDLE,
    ensures
        ctrl_step(m, serialCtrl::PAUSE, id) == (m, CtrlAction::<S>::Ignored),
        ctrl_step(m, serialCtrl::EXIT, id) == (m, CtrlAction::<S>::Ignored),
        ctrl_step(m, serialCtrl::SERIAL_EXIT, id) == (m, CtrlAction::<S>::Released),
        ctrl_step(m, serialCtrl::EXIT_THREAD, id) == (m, CtrlAction::<S>::Shutdown),
        ctrl_step(m, serialCtrl::PLAY, id).0 == m,
        m.serial_settings matches Some(cfg) ==> ctrl_step(m, serialCtrl::PLAY, id).1 == CtrlAction::<
            S,
        >::Resubmit(cfg),
        m.serial_settings is None ==> ctrl_step(m, serialCtrl::PLAY, id).1 == CtrlAction::<
            S,
        >::MissingSettings,
{
}

/// A running manager ignores `PLAY` and `NEW`, and every command keeps or
/// drops its settings but never replaces them: only `EXIT` drops them.
pub proof fn lemma_running_manager_commands<S, H>(m: sManager<S, H>, cfg: serialSettings, id: u8)
    requires
        m.wf(),
        m.sState == serialState::RUNNING,
    ensures
        ctrl_step(m, serialCtrl::PLAY, id) == (m, CtrlAction::<S>::Ignored),
        ctrl_step(m, serialCtrl::NEW(cfg), id) == (m, CtrlAction::<S>::Ignored),
        ctrl_step(m, serialCtrl::PAUSE, id).0.serial_settings == m.serial_settings,
        ctrl_step(m, serialCtrl::SERIAL_EXIT, id).0.serial_settings == m.serial_settings,
        (ctrl_step(m, serialCtrl::EXIT, id).0.serial_settings is None),
{
}

/// A paused session can be resumed even though its reader, once stopped,
/// reports `EXIT` to the idle manager: pause, then the reader's `EXIT`, then
/// `PLAY` asks to restart with the settings the session ran with.
pub proof fn lemma_pause_reader_exit_then_play_resumes<S, H>(m: sManager<S, H>, id1: u8, id2: u8, id3: u8)
    requires
        m.wf(),
        m.sState == serialState::RUNNING,
    ensures
        ({
            let paused = ctrl_step(m, serialCtrl::PAUSE, id1).0;
            let after_exit = ctrl_step(paused, serialCtrl::EXIT, id2);
            &&& after_exit == (paused, CtrlAction::<S>::Ignored)
            &&& ctrl_step(after_exit.0, serialCtrl::PLAY, id3).1 == CtrlAction::<S>::Resubmit(
                m.serial_settings->0,
            )
        }),
{
    lemma_idle_manager_commands(ctrl_step(m, serialCtrl::PAUSE, id1).0, id2);
}

/// Only `NEW` followed by attaching a reader makes an idle manager run.
pub proof fn lemma_only_new_starts<S, H>(m: sManager<S, H>, cmd: serialCtrl, id: u8)
    requires
        m.wf(),
        m.sState == serialState::IDLE,
    ensures
        ctrl_step(m, cmd, id).0.sState == serialState::IDLE,
{
}

} // verus!
