use hudhook::c_string::{path_buffer, read_c_string};
use hudhook::injection::{inject, InjectAction, InjectEvent, Injection};

fn answered(injection: Injection, event: InjectEvent) -> Injection {
    injection.advance(event)
}

#[test]
fn injection_makes_its_calls_in_order() {
    let job = inject(1234, "C:\\hud.dll");
    assert!(matches!(
        job.next(),
        InjectAction::OpenProcess { access: 0x001f_ffff, inherit: false, pid: 1234 }
    ));
    let job = answered(job, InjectEvent::ProcessOpened { process: 11 });
    assert!(matches!(
        job.next(),
        InjectAction::Allocate { process: 11, size: 260, kind: 0x3000, protection: 4 }
    ));
    let job = answered(job, InjectEvent::Allocated { memory: 0x7000 });
    match job.next() {
        InjectAction::Write { process, address, contents, size } => {
            assert_eq!((process, address, size), (11, 0x7000, 260));
            assert_eq!(*contents, path_buffer("C:\\hud.dll"));
            assert_eq!(read_c_string(contents), b"C:\\hud.dll".to_vec());
        },
        other => panic!("{:?}", other),
    }
    let job = answered(job, InjectEvent::Written);
    assert!(matches!(
        job.next(),
        InjectAction::Resolve { module: "Kernel32", symbol: "LoadLibraryA" }
    ));
    let job = answered(job, InjectEvent::Resolved { entry: 0x9000 });
    assert!(matches!(
        job.next(),
        InjectAction::StartThread {
            process: 11,
            stack: 0,
            entry: 0x9000,
            argument: 0x7000,
            flags: 0
        }
    ));
    let job = answered(job, InjectEvent::ThreadStarted { thread: 22 });
    assert!(matches!(job.next(), InjectAction::Report { thread: 22 }));
    let job = answered(job, InjectEvent::Reported);
    assert!(matches!(job.next(), InjectAction::Wait { thread: 22, timeout: 0xffff_ffff }));
    let job = answered(job, InjectEvent::Waited);
    assert!(matches!(job.next(), InjectAction::ReadExitCode { thread: 22 }));
    let job = answered(job, InjectEvent::ExitCodeRead { code: 1 });
    assert!(matches!(job.next(), InjectAction::CloseHandle { handle: 22 }));
    let job = answered(job, InjectEvent::HandleClosed);
    assert!(matches!(
        job.next(),
        InjectAction::Free { process: 11, address: 0x7000, size: 0, kind: 0x8000 }
    ));
    let job = answered(job, InjectEvent::Freed);
    assert!(matches!(job.next(), InjectAction::CloseHandle { handle: 11 }));
    let job = answered(job, InjectEvent::HandleClosed);
    assert!(matches!(job.next(), InjectAction::Stop));
}

#[test]
fn null_handles_are_handed_on() {
    let job = inject(1, "a.dll").advance(InjectEvent::ProcessOpened { process: 0 });
    assert!(matches!(job.next(), InjectAction::Allocate { process: 0, .. }));
    let job = job.advance(InjectEvent::Allocated { memory: 0 });
    assert!(matches!(job.next(), InjectAction::Write { process: 0, address: 0, .. }));
}

#[test]
fn unasked_answers_do_not_move_an_injection() {
    let job = inject(1, "a.dll").advance(InjectEvent::Freed);
    assert!(matches!(job.next(), InjectAction::OpenProcess { pid: 1, .. }));
    let job = Injection::Finished.advance(InjectEvent::HandleClosed);
    assert!(matches!(job.next(), InjectAction::Stop));
}
