use mihomo_tui::key::{Key, KeyInput, MOD_CONTROL};
use mihomo_tui::terminate::{
    BatchPhase, ConnectionBatchTerminateComponent, ConnectionTerminateComponent, TerminateCommand, TerminatePhase,
};

fn key(code: Key) -> KeyInput {
    KeyInput::plain(code)
}

#[test]
fn single_termination_flow() {
    let mut d = ConnectionTerminateComponent::new();
    d.show("abc".to_string());
    assert_eq!(d.phase, TerminatePhase::Confirm);
    assert_eq!(d.handle_key_event(key(Key::Char('y'))), TerminateCommand::Terminate("abc".to_string()));
    assert_eq!(d.phase, TerminatePhase::Terminating);
    assert_eq!(d.status().as_deref(), Some("Connection terminating..."));
    assert_eq!(d.handle_key_event(key(Key::Esc)), TerminateCommand::Nothing);
    assert_eq!(d.handle_key_event(key(Key::Enter)), TerminateCommand::Nothing);
    d.finish(Ok(()));
    assert_eq!(d.status().as_deref(), Some("Connection terminated successfully."));
    assert_eq!(d.handle_key_event(key(Key::Enter)), TerminateCommand::Nothing);
    assert_eq!(d.handle_key_event(key(Key::Char('n'))), TerminateCommand::Close);
}

#[test]
fn failed_termination_can_be_retried() {
    let mut d = ConnectionTerminateComponent::new();
    d.show("abc".to_string());
    d.handle_key_event(key(Key::Enter));
    d.finish(Err("boom".to_string()));
    assert_eq!(d.status().as_deref(), Some("boom"));
    assert_eq!(d.handle_key_event(key(Key::Enter)), TerminateCommand::Terminate("abc".to_string()));
    assert_eq!(
        d.handle_key_event(KeyInput::with_mods(Key::Char('c'), MOD_CONTROL)),
        TerminateCommand::Quit
    );
}

#[test]
fn batch_termination_flow() {
    let mut d = ConnectionBatchTerminateComponent::new();
    assert_eq!(d.handle_key_event(key(Key::Enter)), TerminateCommand::Nothing);
    d.show(vec!["a".to_string(), "b".to_string(), "c".to_string()]);
    assert_eq!(
        d.handle_key_event(key(Key::Char('y'))),
        TerminateCommand::TerminateAll(vec!["a".to_string(), "b".to_string(), "c".to_string()])
    );
    assert_eq!(d.phase, BatchPhase::Terminating);
    assert_eq!(d.handle_key_event(key(Key::Char('q'))), TerminateCommand::Nothing);
    d.finish(&vec![true, false, true]);
    assert_eq!(d.phase, BatchPhase::Done { ok: 2, err: 1 });
    assert_eq!(d.status().as_deref(), Some("Terminated 2 connections, 1 failed."));
    assert_eq!(d.handle_key_event(key(Key::Esc)), TerminateCommand::Close);
    assert_eq!(d.phase, BatchPhase::Hidden);
    assert!(d.targets.is_empty());
    assert_eq!(d.status(), None);
}
