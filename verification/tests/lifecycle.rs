use service_supervisor::lifecycle::{step, Action, Event, Phase, TermStep};

fn exit_sequence_actions(pid: u32, audit_ok: bool, remove_ok: bool) -> Vec<Action> {
    let mut actions: Vec<Action> = Vec::new();
    let (phase, action) = step(Phase::Running, Event::ExitRequested);
    actions.push(action.unwrap());
    let (phase, action) = step(phase, Event::HandshakeReadOk { pid });
    actions.push(action.unwrap());
    let (phase, action) = step(phase, Event::TerminateDone { started: true });
    actions.push(action.unwrap());
    let (phase, action) = step(phase, Event::AuditDone { ok: audit_ok });
    actions.push(action.unwrap());
    let (phase, action) = step(phase, Event::RemoveDone { ok: remove_ok });
    actions.push(action.unwrap());
    assert_eq!(phase, Phase::Terminated);
    actions
}

#[test]
fn termination_sequence_for_4242() {
    let actions = exit_sequence_actions(4242, true, true);
    assert_eq!(
        actions,
        vec![
            Action::ReadHandshake,
            Action::Terminate { pid: 4242 },
            Action::AppendAudit { pid: 4242 },
            Action::RemoveHandshake,
            Action::ExitProcess,
        ]
    );
}

#[test]
fn termination_order_invariant_under_audit_failure() {
    assert_eq!(exit_sequence_actions(4242, false, true), exit_sequence_actions(4242, true, true));
}

#[test]
fn remove_failure_tolerated() {
    assert_eq!(exit_sequence_actions(4242, true, false), exit_sequence_actions(4242, true, true));
}

#[test]
fn missing_handshake_exits_without_kill_or_audit() {
    let (phase, action) = step(Phase::Running, Event::ExitRequested);
    assert_eq!(action, Some(Action::ReadHandshake));
    let (phase, action) = step(phase, Event::HandshakeReadFailed);
    assert_eq!(phase, Phase::Terminated);
    assert_eq!(action, Some(Action::ExitProcess));
}

#[test]
fn terminate_command_failure_skips_audit_and_removal() {
    let phase = Phase::Terminating { step: TermStep::Signaling { pid: 5 } };
    let (phase, action) = step(phase, Event::TerminateDone { started: false });
    assert_eq!(phase, Phase::Terminated);
    assert_eq!(action, Some(Action::ExitProcess));
}

#[test]
fn ready_launches_once() {
    let (phase, action) = step(Phase::Idle, Event::Ready);
    assert_eq!(phase, Phase::Launching);
    assert_eq!(action, Some(Action::Launch));
}

#[test]
fn launch_failure_is_swallowed() {
    let (phase, action) = step(Phase::Launching, Event::LaunchDone { ok: false });
    assert_eq!(phase, Phase::Running);
    assert_eq!(action, None);
}

#[test]
fn second_instance_focuses_existing_window_once() {
    let (phase, action) = step(Phase::Running, Event::SecondInstance { window_found: true });
    assert_eq!(phase, Phase::Running);
    assert_eq!(action, Some(Action::FocusExistingWindow));
}

#[test]
fn second_instance_never_launches() {
    for phase in [Phase::Idle, Phase::Launching, Phase::Running, Phase::Terminated] {
        for window_found in [false, true] {
            let (next, action) = step(phase, Event::SecondInstance { window_found });
            assert_eq!(next, phase);
            assert_ne!(action, Some(Action::Launch));
        }
    }
}

#[test]
fn second_instance_without_window_is_nonfatal() {
    let (phase, action) = step(Phase::Running, Event::SecondInstance { window_found: false });
    assert_eq!(phase, Phase::Running);
    assert_eq!(action, None);
}

#[test]
fn terminated_is_terminal() {
    let (phase, action) = step(Phase::Terminated, Event::Ready);
    assert_eq!(phase, Phase::Terminated);
    assert_eq!(action, None);
    let (phase, action) = step(Phase::Terminated, Event::ExitRequested);
    assert_eq!(phase, Phase::Terminated);
    assert_eq!(action, None);
}

#[test]
fn stray_events_are_ignored() {
    let (phase, action) = step(Phase::Running, Event::RemoveDone { ok: true });
    assert_eq!(phase, Phase::Running);
    assert_eq!(action, None);
    let (phase, action) = step(Phase::Idle, Event::AuditDone { ok: true });
    assert_eq!(phase, Phase::Idle);
    assert_eq!(action, None);
}

#[test]
fn exit_before_launch_still_cleans_up() {
    let (phase, action) = step(Phase::Idle, Event::ExitRequested);
    assert_eq!(phase, Phase::Terminating { step: TermStep::ReadingHandshake });
    assert_eq!(action, Some(Action::ReadHandshake));
}
