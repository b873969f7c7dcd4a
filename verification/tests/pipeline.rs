use pxexec::bundle::SourceBundle;
use pxexec::pipeline::assemble_main;
use pxexec::pipeline::conclude_termination;
use pxexec::pipeline::entry_point_file;
use pxexec::pipeline::finish_submission;
use pxexec::pipeline::prepare_submission;
use pxexec::pipeline::terminate_current;
use pxexec::CompileError;
use pxexec::ProcessHandle;
use pxexec::ProcessSlot;
use pxexec::TerminationError;

#[test]
fn entry_point_is_main_ts() {
    assert_eq!(entry_point_file(), "main.ts");
}

#[test]
fn assemble_passes_the_text_on() {
    let unit = assemble_main(&String::from("console.log(1);"));
    assert_eq!(unit, "console.log(1);");
}

#[test]
fn bundle_lookup_finds_a_file() {
    let mut bundle = SourceBundle::new();
    bundle.add_file(String::from("main.ts"), String::from("let a = 1;"));
    bundle.add_file(String::from("util.ts"), String::from("let b = 2;"));
    assert_eq!(
        bundle.lookup(&String::from("util.ts")),
        Some(&String::from("let b = 2;"))
    );
}

#[test]
fn bundle_lookup_misses_an_absent_name() {
    let mut bundle = SourceBundle::new();
    bundle.add_file(String::from("main.ts"), String::from("let a = 1;"));
    assert_eq!(bundle.lookup(&String::from("util.ts")), None);
}

#[test]
fn bundle_later_file_of_same_name_wins() {
    let mut bundle = SourceBundle::new();
    bundle.add_file(String::from("main.ts"), String::from("old"));
    bundle.add_file(String::from("main.ts"), String::from("new"));
    assert_eq!(
        bundle.lookup(&String::from("main.ts")),
        Some(&String::from("new"))
    );
}

#[test]
fn prepare_accepts_a_bundle_with_the_entry_point() {
    let mut bundle = SourceBundle::new();
    bundle.add_file(String::from("main.ts"), String::from("console.log(1);"));
    assert_eq!(
        prepare_submission(&bundle),
        Ok(String::from("console.log(1);"))
    );
}

#[test]
fn prepare_rejects_a_bundle_without_the_entry_point() {
    // A bundle carrying only "other.ts" is a client fault: MissingEntryPoint,
    // and no slot is touched at all.
    let mut bundle = SourceBundle::new();
    bundle.add_file(String::from("other.ts"), String::from("console.log(1);"));
    assert_eq!(
        prepare_submission(&bundle),
        Err(CompileError::MissingEntryPoint)
    );
}

#[test]
fn prepare_rejects_an_empty_bundle() {
    let bundle = SourceBundle::new();
    assert_eq!(
        prepare_submission(&bundle),
        Err(CompileError::MissingEntryPoint)
    );
}

#[test]
fn successful_spawn_installs_and_hands_out_the_old_handle() {
    let mut slot = ProcessSlot::new();
    let old_handle = ProcessHandle { pid: 5 };
    slot.install(old_handle);
    let outcome = finish_submission(&mut slot, Ok(ProcessHandle { pid: 6 }));
    assert_eq!(outcome, Ok(Some(old_handle)));
    assert_eq!(slot.take(), Some(ProcessHandle { pid: 6 }));
}

#[test]
fn failed_compile_reports_the_diagnostic() {
    let mut slot = ProcessSlot::new();
    let outcome = finish_submission(&mut slot, Err(String::from("TS2304: cannot find name")));
    assert_eq!(
        outcome,
        Err(CompileError::CompileFailed(String::from(
            "TS2304: cannot find name"
        )))
    );
}

#[test]
fn failed_compile_leaves_the_prior_process_running() {
    // With H installed, a failing submission returns CompileFailed and a
    // subsequent kill still finds H: H was never replaced.
    let mut slot = ProcessSlot::new();
    let h = ProcessHandle { pid: 5 };
    slot.install(h);
    let outcome = finish_submission(&mut slot, Err(String::from("syntax error")));
    assert_eq!(
        outcome,
        Err(CompileError::CompileFailed(String::from("syntax error")))
    );
    assert_eq!(terminate_current(&mut slot), Some(h));
}

#[test]
fn terminate_empties_the_slot_and_names_the_victim() {
    let mut slot = ProcessSlot::new();
    let h = ProcessHandle { pid: 9 };
    slot.install(h);
    assert_eq!(terminate_current(&mut slot), Some(h));
    assert_eq!(terminate_current(&mut slot), None);
}

#[test]
fn kill_with_nothing_running_succeeds_any_number_of_times() {
    let mut slot = ProcessSlot::new();
    for _ in 0..5 {
        let victim = terminate_current(&mut slot);
        assert_eq!(victim, None);
        assert_eq!(conclude_termination(victim, true), Ok(()));
    }
}

#[test]
fn failed_kill_of_a_tracked_process_is_an_error() {
    let h = ProcessHandle { pid: 9 };
    assert_eq!(conclude_termination(Some(h), false), Err(TerminationError));
    assert_eq!(conclude_termination(Some(h), true), Ok(()));
}

#[test]
fn spawn_is_observable_before_the_old_process_is_killed() {
    // The victim only comes out of the very step that installs the new
    // handle: when the caller learns whom to kill, the new handle already
    // stands in the slot.
    let mut slot = ProcessSlot::new();
    let old_handle = ProcessHandle { pid: 1 };
    let new_handle = ProcessHandle { pid: 2 };
    slot.install(old_handle);
    let victim = finish_submission(&mut slot, Ok(new_handle)).unwrap();
    assert_eq!(slot.take(), Some(new_handle));
    assert_eq!(victim, Some(old_handle));
}
