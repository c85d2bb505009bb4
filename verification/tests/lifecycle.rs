use minimize_ytm::lifecycle::{TrayAction, TrayDriver, TrayEvent, TrayStage};
use minimize_ytm::tray::TrayError;

fn run(events: &[TrayEvent]) -> (TrayDriver, Vec<TrayAction>) {
    let (mut d, first) = TrayDriver::start();
    let mut actions = vec![first];
    for e in events {
        actions.push(d.step(*e));
    }
    (d, actions)
}

use TrayEvent::{Failed, QuitRequested, Refused, Succeeded};

#[test]
fn startup_order() {
    let (d, actions) = run(&[Succeeded; 7]);
    assert_eq!(
        actions,
        vec![
            TrayAction::CreateHiddenWindow,
            TrayAction::InstallWindowProc,
            TrayAction::LoadIcon,
            TrayAction::AddTrayIcon,
            TrayAction::RegisterHotkey,
            TrayAction::StartTimer,
            TrayAction::HideTarget,
            TrayAction::WaitForMessage,
        ]
    );
    assert!(d.hotkey_registered);
    assert_eq!(d.stage, TrayStage::WaitingForMessage);
}

#[test]
fn messages_are_dispatched_until_quit() {
    let (d, actions) = run(&[
        Succeeded, Succeeded, Succeeded, Succeeded, Succeeded, Succeeded, Succeeded,
        Succeeded, Succeeded, Succeeded, Succeeded,
        QuitRequested, Succeeded, Succeeded, Succeeded,
    ]);
    assert_eq!(
        actions[7..].to_vec(),
        vec![
            TrayAction::WaitForMessage,
            TrayAction::DispatchMessage,
            TrayAction::WaitForMessage,
            TrayAction::DispatchMessage,
            TrayAction::WaitForMessage,
            TrayAction::UnregisterHotkey,
            TrayAction::RemoveTrayIcon,
            TrayAction::StopTimer,
            TrayAction::Exit(Ok(())),
        ]
    );
    assert!(d.is_finished());
}

#[test]
fn quit_message_ends_loop() {
    let (_, actions) = run(&[Succeeded, Succeeded, Succeeded, Succeeded, Succeeded, Succeeded, Succeeded, Refused]);
    assert_eq!(actions.last(), Some(&TrayAction::UnregisterHotkey));
}

#[test]
fn failed_hotkey_is_not_fatal_and_not_unregistered() {
    let (d, actions) = run(&[
        Succeeded, Succeeded, Succeeded, Succeeded, Failed(-2147467259), Succeeded, Succeeded,
        Refused, Succeeded, Succeeded,
    ]);
    assert!(!d.hotkey_registered);
    assert!(!actions.contains(&TrayAction::UnregisterHotkey));
    assert_eq!(
        actions[8..].to_vec(),
        vec![TrayAction::RemoveTrayIcon, TrayAction::StopTimer, TrayAction::Exit(Ok(()))]
    );
}

#[test]
fn window_creation_failure_is_windows_error() {
    let (d, actions) = run(&[Failed(-5)]);
    assert_eq!(actions, vec![TrayAction::CreateHiddenWindow, TrayAction::Exit(Err(TrayError::Windows(-5)))]);
    assert!(d.is_finished());
}

#[test]
fn icon_load_failure_is_windows_error() {
    let (_, actions) = run(&[Succeeded, Succeeded, Failed(7)]);
    assert_eq!(actions.last(), Some(&TrayAction::Exit(Err(TrayError::Windows(7)))));
}

#[test]
fn refused_icon_is_notify_icon_add_error() {
    let (_, actions) = run(&[Succeeded, Succeeded, Succeeded, Refused]);
    assert_eq!(actions.last(), Some(&TrayAction::Exit(Err(TrayError::NotifyIconAdd))));
}

#[test]
fn refused_timer_is_set_timer_error() {
    let (_, actions) = run(&[Succeeded, Succeeded, Succeeded, Succeeded, Succeeded, Refused]);
    assert_eq!(actions.last(), Some(&TrayAction::Exit(Err(TrayError::SetTimer))));
}

#[test]
fn unregister_failure_stops_shutdown() {
    let (_, actions) = run(&[
        Succeeded, Succeeded, Succeeded, Succeeded, Succeeded, Succeeded, Succeeded,
        QuitRequested, Failed(3),
    ]);
    assert_eq!(actions.last(), Some(&TrayAction::Exit(Err(TrayError::Windows(3)))));
}

#[test]
fn icon_removal_outcome_is_ignored() {
    let (_, actions) = run(&[
        Succeeded, Succeeded, Succeeded, Succeeded, Succeeded, Succeeded, Succeeded,
        QuitRequested, Succeeded, Refused, Succeeded,
    ]);
    assert_eq!(actions.last(), Some(&TrayAction::Exit(Ok(()))));
}

#[test]
fn kill_timer_failure_is_windows_error() {
    let (_, actions) = run(&[
        Succeeded, Succeeded, Succeeded, Succeeded, Succeeded, Succeeded, Succeeded,
        Refused, Succeeded, Succeeded, Failed(9),
    ]);
    assert_eq!(actions.last(), Some(&TrayAction::Exit(Err(TrayError::Windows(9)))));
}

#[test]
fn finished_stays_finished() {
    let (mut d, _) = run(&[Failed(1)]);
    assert_eq!(d.step(Succeeded), TrayAction::Exit(Err(TrayError::Windows(1))));
    assert_eq!(d.step(QuitRequested), TrayAction::Exit(Err(TrayError::Windows(1))));
    assert_eq!(d.stage, TrayStage::Finished(Err(TrayError::Windows(1))));
}

#[test]
fn target_hidden_even_when_hide_reports_failure() {
    let (_, actions) = run(&[Succeeded, Succeeded, Succeeded, Succeeded, Succeeded, Succeeded, Failed(5)]);
    assert_eq!(actions[6], TrayAction::HideTarget);
    assert_eq!(actions.last(), Some(&TrayAction::WaitForMessage));
}
