//! The life cycle of the tray, from creating its hidden window to removing
//! the icon again, as a state machine.
//!
//! [`TrayDriver::start`] gives the first action. Whoever runs the machine
//! performs each action against the system and hands its outcome to
//! [`TrayDriver::step`], which gives the next action, until the action is
//! [`TrayAction::Exit`].
use vstd::prelude::*;

use crate::tray::TrayError;

verus! {

/// Where the tray is in its life cycle; each stage but the last waits for
/// the outcome of the action of the same name.
#[derive(Debug, Clone, Copy, PartialEq, Eq)]
pub enum TrayStage {
    CreatingWindow,
    InstallingWindowProc,
    LoadingIcon,
    AddingIcon,
    RegisteringHotkey,
    StartingTimer,
    HidingTarget,
    WaitingForMessage,
    DispatchingMessage,
    UnregisteringHotkey,
    RemovingIcon,
    StoppingTimer,
    /// The life cycle is over, with this result.
    Finished(Result<(), TrayError>),
}

/// What to do next.
#[derive(Debug, Clone, Copy, PartialEq, Eq)]
pub enum TrayAction {
    /// Create the hidden window that receives the tray messages.
    CreateHiddenWindow,
    /// Make the tray window procedure the procedure of that window.
    InstallWindowProc,
    /// Load the tray icon image.
    LoadIcon,
    /// Add the icon to the notification area.
    AddTrayIcon,
    /// Register the Win + Y hot key.
    RegisterHotkey,
    /// Start the timer that polls the media sessions.
    StartTimer,
    /// Find the YouTube Music window and hide it, so that it leaves the
    /// screen and the taskbar; nothing is hidden when there is none.
    HideTarget,
    /// Wait for the next message of the thread.
    WaitForMessage,
    /// Translate and dispatch the message just received.
    DispatchMessage,
    /// Unregister the hot key.
    UnregisterHotkey,
    /// Remove the icon from the notification area.
    RemoveTrayIcon,
    /// Stop the polling timer.
    StopTimer,
    /// Stop, with this result.
    Exit(Result<(), TrayError>),
}

/// The outcome of an action.
#[derive(Debug, Clone, Copy, PartialEq, Eq, Structural)]
pub enum TrayEvent {
    /// The call succeeded; for the wait, a message arrived.
    Succeeded,
    /// The call failed with this `HRESULT`.
    Failed(i32),
    /// The call answered false or zero; for the wait, the quit message
    /// arrived.
    Refused,
    /// A message arrived after the exit item was chosen.
    QuitRequested,
}

/// The state of the life cycle.
#[derive(Debug, Clone, Copy, PartialEq, Eq)]
pub struct TrayDriver {
    pub stage: TrayStage,
    /// Whether the hot key was registered (and so must be unregistered).
    pub hotkey_registered: bool,
}

/// The action that a stage waits for.
pub open spec fn action_of(stage: TrayStage) -> TrayAction {
    match stage {
        TrayStage::CreatingWindow => TrayAction::CreateHiddenWindow,
        TrayStage::InstallingWindowProc => TrayAction::InstallWindowProc,
        TrayStage::LoadingIcon => TrayAction::LoadIcon,
        TrayStage::AddingIcon => TrayAction::AddTrayIcon,
        TrayStage::RegisteringHotkey => TrayAction::RegisterHotkey,
        TrayStage::StartingTimer => TrayAction::StartTimer,
        TrayStage::HidingTarget => TrayAction::HideTarget,
        TrayStage::WaitingForMessage => TrayAction::WaitForMessage,
        TrayStage::DispatchingMessage => TrayAction::DispatchMessage,
        TrayStage::UnregisteringHotkey => TrayAction::UnregisterHotkey,
        TrayStage::RemovingIcon => TrayAction::RemoveTrayIcon,
        TrayStage::StoppingTimer => TrayAction::StopTimer,
        TrayStage::Finished(r) => TrayAction::Exit(r),
    }
}

/// The state at the start of the life cycle.
pub open spec fn initial_driver() -> TrayDriver {
    TrayDriver { stage: TrayStage::CreatingWindow, hotkey_registered: false }
}

/// Whether an outcome is a failure of a call that answers true or false.
pub open spec fn is_failure(e: TrayEvent) -> bool {
    e is Failed || e is Refused
}

/// The stage that follows a call reporting errors as `HRESULT`s: a failure
/// ends the life cycle with that error, anything else leads to `next`.
pub open spec fn after_fallible(e: TrayEvent, next: TrayStage) -> TrayStage {
    match e {
        TrayEvent::Failed(code) => TrayStage::Finished(Err(TrayError::Windows(code))),
        _ => next,
    }
}

/// The first stage of the shutdown: the hot key is unregistered first when
/// it was registered, otherwise the icon is removed at once.
pub open spec fn shutdown_stage(hotkey_registered: bool) -> TrayStage {
    if hotkey_registered {
        TrayStage::UnregisteringHotkey
    } else {
        TrayStage::RemovingIcon
    }
}

/// The state after the outcome `e` of the action that `d` waits for.
///
/// Creating the window, loading the icon, unregistering the hot key and
/// stopping the timer end the life cycle with the system's error when they
/// fail. A refused icon ends it with [`TrayError::NotifyIconAdd`], a refused
/// timer with [`TrayError::SetTimer`]. A failed hot key registration is no
/// error: the tray runs without the hot key. Once the timer runs, the
/// YouTube Music window is hidden, whether or not it is found, and only then
/// are messages waited for. Messages are waited for and
/// dispatched in turn until the quit message arrives or the exit item has
/// been chosen; the shutdown then unregisters the hot key if it was
/// registered, removes the icon whatever the outcome, and stops the timer.
/// Once finished, the state no longer changes.
pub open spec fn next_driver(d: TrayDriver, e: TrayEvent) -> TrayDriver {
    let h = d.hotkey_registered;
    match d.stage {
        TrayStage::CreatingWindow => TrayDriver {
            stage: after_fallible(e, TrayStage::InstallingWindowProc),
            hotkey_registered: h,
        },
        TrayStage::InstallingWindowProc => TrayDriver {
            stage: TrayStage::LoadingIcon,
            hotkey_registered: h,
        },
        TrayStage::LoadingIcon => TrayDriver {
            stage: after_fallible(e, TrayStage::AddingIcon),
            hotkey_registered: h,
        },
        TrayStage::AddingIcon => TrayDriver {
            stage: if is_failure(e) {
                TrayStage::Finished(Err(TrayError::NotifyIconAdd))
            } else {
                TrayStage::RegisteringHotkey
            },
            hotkey_registered: h,
        },
        TrayStage::RegisteringHotkey => TrayDriver {
            stage: TrayStage::StartingTimer,
            hotkey_registered: !is_failure(e),
        },
        TrayStage::StartingTimer => TrayDriver {
            stage: if is_failure(e) {
                TrayStage::Finished(Err(TrayError::SetTimer))
            } else {
                TrayStage::HidingTarget
            },
            hotkey_registered: h,
        },
        TrayStage::HidingTarget => TrayDriver {
            stage: TrayStage::WaitingForMessage,
            hotkey_registered: h,
        },
        TrayStage::WaitingForMessage => TrayDriver {
            stage: if e is Refused || e is QuitRequested {
                shutdown_stage(h)
            } else {
                TrayStage::DispatchingMessage
            },
            hotkey_registered: h,
        },
        TrayStage::DispatchingMessage => TrayDriver {
            stage: TrayStage::WaitingForMessage,
            hotkey_registered: h,
        },
        TrayStage::UnregisteringHotkey => TrayDriver {
            stage: after_fallible(e, TrayStage::RemovingIcon),
            hotkey_registered: h,
        },
        TrayStage::RemovingIcon => TrayDriver {
            stage: TrayStage::StoppingTimer,
            hotkey_registered: h,
        },
        TrayStage::StoppingTimer => TrayDriver {
            stage: after_fallible(e, TrayStage::Finished(Ok(()))),
            hotkey_registered: h,
        },
        TrayStage::Finished(r) => d,
    }
}

/// The state after the outcomes `events`, in order, starting from `d`.
pub open spec fn run_driver(d: TrayDriver, events: Seq<TrayEvent>) -> TrayDriver
    decreases events.len(),
{
    if events.len() == 0 {
        d
    } else {
        run_driver(next_driver(d, events[0]), events.drop_first())
    }
}

/// `k` messages, each received and then dispatched.
pub open spec fn message_rounds(k: nat) -> Seq<TrayEvent>
    decreases k,
{
    if k == 0 {
        Seq::empty()
    } else {
        message_rounds((k - 1) as nat) + seq![TrayEvent::Succeeded, TrayEvent::Succeeded]
    }
}

/// Whether the state is one the life cycle can be in: the hot key counts as
/// registered only once its registration has been tried, and the shutdown
/// unregisters it only when it is registered.
pub open spec fn driver_wf(d: TrayDriver) -> bool {
    &&& (d.stage is CreatingWindow || d.stage is InstallingWindowProc || d.stage is LoadingIcon
        || d.stage is AddingIcon || d.stage is RegisteringHotkey) ==> !d.hotkey_registered
    &&& d.stage is UnregisteringHotkey ==> d.hotkey_registered
}

/// Running over two lists of outcomes in turn is running over the one list
/// that joins them.
pub proof fn lemma_run_concat(d: TrayDriver, a: Seq<TrayEvent>, b: Seq<TrayEvent>)
    ensures
        run_driver(d, a + b) == run_driver(run_driver(d, a), b),
    decreases a.len(),
{
    if a.len() == 0 {
        assert(a + b == b);
    } else {
        assert((a + b).drop_first() == a.drop_first() + b);
        assert((a + b)[0] == a[0]);
        lemma_run_concat(next_driver(d, a[0]), a.drop_first(), b);
    }
}

/// Once finished, the life cycle stays finished with the same result, and
/// its action is to exit with that result, whatever is reported.
pub proof fn lemma_finished_is_final(d: TrayDriver, e: TrayEvent)
    requires
        d.stage is Finished,
    ensures
        next_driver(d, e) == d,
        action_of(next_driver(d, e).stage) == TrayAction::Exit(d.stage->Finished_0),
{
}

/// After the quit message, or a message that follows the choice of the exit
/// item, no message is dispatched any more: the shutdown begins.
pub proof fn lemma_no_dispatch_after_quit(d: TrayDriver, e: TrayEvent)
    requires
        d.stage is WaitingForMessage,
        e is Refused || e is QuitRequested,
    ensures
        next_driver(d, e).stage == shutdown_stage(d.hotkey_registered),
        action_of(next_driver(d, e).stage) != TrayAction::DispatchMessage,
{
}

/// The life cycle starts in a well-formed state, and every step keeps it
/// well formed.
pub proof fn lemma_driver_wf_preserved(d: TrayDriver, e: TrayEvent)
    ensures
        driver_wf(initial_driver()),
        driver_wf(d) ==> driver_wf(next_driver(d, e)),
{
}

/// The hot key counts as registered exactly as its registration turned out:
/// the flag changes only on the outcome of the registration, and then says
/// whether it succeeded. So the hot key is unregistered only when it was
/// registered.
pub proof fn lemma_hotkey_flag_tracks_registration(d: TrayDriver, e: TrayEvent)
    ensures
        d.stage is RegisteringHotkey ==> next_driver(d, e).hotkey_registered == !is_failure(e),
        !(d.stage is RegisteringHotkey) ==> next_driver(d, e).hotkey_registered == d.hotkey_registered,
        driver_wf(d) && action_of(next_driver(d, e).stage) == TrayAction::UnregisterHotkey
            ==> next_driver(d, e).hotkey_registered,
{
}

/// The life cycle ends without error only after the timer was stopped, and
/// the timer is stopped only after the icon was removed.
pub proof fn lemma_clean_exit_only_after_cleanup(d: TrayDriver, e: TrayEvent)
    ensures
        !(d.stage is Finished) && next_driver(d, e).stage == TrayStage::Finished(Ok(()))
            ==> d.stage is StoppingTimer,
        next_driver(d, e).stage is StoppingTimer ==> d.stage is RemovingIcon,
{
}

/// The YouTube Music window is hidden before any message is waited for: the
/// wait follows only the hiding at start-up or the dispatch of a message.
/// The hiding itself follows only a started timer, and never ends the life
/// cycle.
pub proof fn lemma_target_hidden_before_first_wait(d: TrayDriver, e: TrayEvent)
    ensures
        !(d.stage is WaitingForMessage) && next_driver(d, e).stage is WaitingForMessage
            ==> d.stage is HidingTarget || d.stage is DispatchingMessage,
        next_driver(d, e).stage is HidingTarget ==> d.stage is StartingTimer && !is_failure(e),
        d.stage is HidingTarget ==> next_driver(d, e).stage is WaitingForMessage,
{
}

/// Every message that arrives is dispatched, whether or not the hot key was
/// registered; the hot key flag changes nothing but where the shutdown
/// begins: from any state, flipping the flag gives the same next stage,
/// except when a wait ends the message loop.
pub proof fn lemma_messages_dispatched_whatever_hotkey(d: TrayDriver, e: TrayEvent)
    ensures
        d.stage is WaitingForMessage && e is Succeeded ==> next_driver(d, e).stage
            == TrayStage::DispatchingMessage,
        !(d.stage is WaitingForMessage && (e is Refused || e is QuitRequested)) ==> next_driver(
            TrayDriver { stage: d.stage, hotkey_registered: !d.hotkey_registered },
            e,
        ).stage == next_driver(d, e).stage,
{
}

/// While messages arrive, the tray only receives and dispatches them.
pub proof fn lemma_message_rounds_keep_waiting(d: TrayDriver, k: nat)
    requires
        d.stage is WaitingForMessage,
    ensures
        run_driver(d, message_rounds(k)) == d,
    decreases k,
{
    if k > 0 {
        let pair = seq![TrayEvent::Succeeded, TrayEvent::Succeeded];
        lemma_message_rounds_keep_waiting(d, (k - 1) as nat);
        lemma_run_concat(d, message_rounds((k - 1) as nat), pair);
        assert(pair.drop_first().drop_first() =~= Seq::<TrayEvent>::empty());
        reveal_with_fuel(run_driver, 3);
        let mid = next_driver(d, TrayEvent::Succeeded);
        assert(mid.stage is DispatchingMessage);
        assert(run_driver(d, pair) == run_driver(mid, pair.drop_first()));
        assert(run_driver(d, pair) == d);
    } else {
        assert(message_rounds(0) =~= Seq::<TrayEvent>::empty());
    }
}

/// When every call succeeds, except perhaps the registration of the hot key,
/// the tray ends without error after any number of messages once the quit
/// message arrives or the exit item is chosen; the shutdown takes three
/// steps with a registered hot key and two without.
pub proof fn lemma_successful_run_ends_cleanly(registration: TrayEvent, k: nat, quit: TrayEvent)
    requires
        quit is Refused || quit is QuitRequested,
    ensures
        ({
            let startup = seq![
                TrayEvent::Succeeded,
                TrayEvent::Succeeded,
                TrayEvent::Succeeded,
                TrayEvent::Succeeded,
                registration,
                TrayEvent::Succeeded,
                TrayEvent::Succeeded,
            ];
            let shutdown = if is_failure(registration) {
                seq![TrayEvent::Succeeded, TrayEvent::Succeeded]
            } else {
                seq![TrayEvent::Succeeded, TrayEvent::Succeeded, TrayEvent::Succeeded]
            };
            run_driver(initial_driver(), startup + message_rounds(k) + seq![quit] + shutdown).stage
                == TrayStage::Finished(Ok(()))
        }),
{
    let startup = seq![
        TrayEvent::Succeeded,
        TrayEvent::Succeeded,
        TrayEvent::Succeeded,
        TrayEvent::Succeeded,
        registration,
        TrayEvent::Succeeded,
        TrayEvent::Succeeded,
    ];
    let shutdown = if is_failure(registration) {
        seq![TrayEvent::Succeeded, TrayEvent::Succeeded]
    } else {
        seq![TrayEvent::Succeeded, TrayEvent::Succeeded, TrayEvent::Succeeded]
    };
    let d0 = initial_driver();
    reveal_with_fuel(run_driver, 8);
    let waiting = run_driver(d0, startup);
    assert(waiting.stage is WaitingForMessage);
    lemma_message_rounds_keep_waiting(waiting, k);
    lemma_run_concat(d0, startup, message_rounds(k));
    lemma_run_concat(d0, startup + message_rounds(k), seq![quit]);
    lemma_run_concat(d0, startup + message_rounds(k) + seq![quit], shutdown);
    let quitting = run_driver(waiting, seq![quit]);
    assert(run_driver(quitting, shutdown).stage == TrayStage::Finished(Ok(())));
}

impl TrayDriver {
    /// A new life cycle and its first action, creating the hidden window.
    pub fn start() -> (r: (TrayDriver, TrayAction))
        ensures
            r.0 == initial_driver(),
            r.1 == action_of(r.0.stage),
    {
        (
            TrayDriver { stage: TrayStage::CreatingWindow, hotkey_registered: false },
            TrayAction::CreateHiddenWindow,
        )
    }

    /// Takes the outcome `e` of the last action and gives the next action.
    pub fn step(&mut self, e: TrayEvent) -> (a: TrayAction)
        ensures
            *final(self) == next_driver(*old(self), e),
            a == action_of(final(self).stage),
            old(self).stage is WaitingForMessage && e is Succeeded ==> a == TrayAction::DispatchMessage,
    {
        let h: bool = self.hotkey_registered;
        let failed: bool = match e {
            TrayEvent::Failed(_) | TrayEvent::Refused => true,
            _ => false,
        };
        let stage: TrayStage = match self.stage {
            TrayStage::CreatingWindow => match e {
                TrayEvent::Failed(code) => TrayStage::Finished(Err(TrayError::Windows(code))),
                _ => TrayStage::InstallingWindowProc,
            },
            TrayStage::InstallingWindowProc => TrayStage::LoadingIcon,
            TrayStage::LoadingIcon => match e {
                TrayEvent::Failed(code) => TrayStage::Finished(Err(TrayError::Windows(code))),
                _ => TrayStage::AddingIcon,
            },
            TrayStage::AddingIcon => if failed {
                TrayStage::Finished(Err(TrayError::NotifyIconAdd))
            } else {
                TrayStage::RegisteringHotkey
            },
            TrayStage::RegisteringHotkey => {
                self.hotkey_registered = !failed;
                TrayStage::StartingTimer
            },
            TrayStage::StartingTimer => if failed {
                TrayStage::Finished(Err(TrayError::SetTimer))
            } else {
                TrayStage::HidingTarget
            },
            TrayStage::HidingTarget => TrayStage::WaitingForMessage,
            TrayStage::WaitingForMessage => match e {
                TrayEvent::Refused | TrayEvent::QuitRequested => if h {
                    TrayStage::UnregisteringHotkey
                } else {
                    TrayStage::RemovingIcon
                },
                _ => TrayStage::DispatchingMessage,
            },
            TrayStage::DispatchingMessage => TrayStage::WaitingForMessage,
            TrayStage::UnregisteringHotkey => match e {
                TrayEvent::Failed(code) => TrayStage::Finished(Err(TrayError::Windows(code))),
                _ => TrayStage::RemovingIcon,
            },
            TrayStage::RemovingIcon => TrayStage::StoppingTimer,
            TrayStage::StoppingTimer => match e {
                TrayEvent::Failed(code) => TrayStage::Finished(Err(TrayError::Windows(code))),
                _ => TrayStage::Finished(Ok(())),
            },
            TrayStage::Finished(r) => TrayStage::Finished(r),
        };
        self.stage = stage;
        match stage {
            TrayStage::CreatingWindow => TrayAction::CreateHiddenWindow,
            TrayStage::InstallingWindowProc => TrayAction::InstallWindowProc,
            TrayStage::LoadingIcon => TrayAction::LoadIcon,
            TrayStage::AddingIcon => TrayAction::AddTrayIcon,
            TrayStage::RegisteringHotkey => TrayAction::RegisterHotkey,
            TrayStage::StartingTimer => TrayAction::StartTimer,
            TrayStage::HidingTarget => TrayAction::HideTarget,
            TrayStage::WaitingForMessage => TrayAction::WaitForMessage,
            TrayStage::DispatchingMessage => TrayAction::DispatchMessage,
            TrayStage::UnregisteringHotkey => TrayAction::UnregisterHotkey,
            TrayStage::RemovingIcon => TrayAction::RemoveTrayIcon,
            TrayStage::StoppingTimer => TrayAction::StopTimer,
            TrayStage::Finished(r) => TrayAction::Exit(r),
        }
    }

    /// Whether the life cycle is over.
    pub fn is_finished(&self) -> (r: bool)
        ensures
            r == (self.stage is Finished),
    {
        match self.stage {
            TrayStage::Finished(_) => true,
            _ => false,
        }
    }
}

} // verus!
