use ace::supervisor::{supervise, Action, ChildStatus, Event, Fault, Phase, Termination};

#[test]
fn parent_waits_then_reports_exit() {
    let (phase, action) = supervise(Phase::Ready, Event::ForkedParent { child: 42 });
    assert_eq!(phase, Phase::Supervising { child: 42 });
    assert_eq!(action, Action::Wait { child: 42 });
    let (phase, action) = supervise(phase, Event::Waited { status: ChildStatus::Exited { code: 0 } });
    let end = Termination::Exited { code: 0 };
    assert_eq!(phase, Phase::Finished { end });
    assert_eq!(action, Action::Report { end });
}

#[test]
fn parent_reports_signal_and_unexpected() {
    let waiting = Phase::Supervising { child: 7 };
    let (_, action) = supervise(waiting, Event::Waited { status: ChildStatus::Signaled { signal: 9 } });
    assert_eq!(action, Action::Report { end: Termination::Signaled { signal: 9 } });
    let (phase, action) = supervise(waiting, Event::Waited { status: ChildStatus::Stopped { signal: 19 } });
    assert_eq!(phase, Phase::Finished { end: Termination::Unexpected });
    assert_eq!(action, Action::Report { end: Termination::Unexpected });
}

#[test]
fn child_sets_up_then_execs() {
    let (phase, action) = supervise(Phase::Ready, Event::ForkedChild);
    assert_eq!((phase, action), (Phase::MakingProcDir, Action::MakeProcDir));
    let (phase, action) = supervise(phase, Event::ProcDirMade);
    assert_eq!((phase, action), (Phase::MountingProc, Action::MountProc));
    let (phase, action) = supervise(phase, Event::ProcMounted);
    assert_eq!((phase, action), (Phase::Executing, Action::Exec));
}

#[test]
fn proc_dir_failure_is_tolerated() {
    let (phase, action) = supervise(Phase::MakingProcDir, Event::ProcDirFailed);
    assert_eq!((phase, action), (Phase::MountingProc, Action::MountProc));
}

#[test]
fn fatal_failures_abort() {
    let cases = [
        (Phase::Ready, Event::ForkFailed, Fault::ForkFailed),
        (Phase::Supervising { child: 1 }, Event::WaitFailed, Fault::WaitFailed),
        (Phase::MountingProc, Event::MountFailed, Fault::MountFailed),
        (Phase::Executing, Event::ExecFailed, Fault::ExecFailed),
        (Phase::Ready, Event::ProcMounted, Fault::OutOfOrder),
        (Phase::Finished { end: Termination::Unexpected }, Event::ForkedChild, Fault::OutOfOrder),
    ];
    for (phase, event, fault) in cases {
        assert_eq!(supervise(phase, event), (Phase::Failed { fault }, Action::Abort { fault }));
    }
}
