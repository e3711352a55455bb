use file_manager::delete::{
    batch_script, delete_error_message, direct_elevated_command, elevated_batch_command,
    elevated_remove_command, escape_quotes, DeleteAction, DeleteMachine, DeleteOutcome,
};

#[test]
fn escaping_doubles_single_quotes() {
    assert_eq!(escape_quotes("it's"), "it''s");
    assert_eq!(escape_quotes("plain"), "plain");
    assert_eq!(escape_quotes(""), "");
    assert_eq!(escape_quotes("''"), "''''");
}

#[test]
fn elevated_remove_command_quotes_the_path() {
    let cmd = elevated_remove_command("C:\\locked dir", true);
    assert_eq!(
        cmd,
        "Start-Process powershell -ArgumentList '-Command', \
         'Remove-Item -LiteralPath ''C:\\locked dir'' -Recurse -Force -ErrorAction Stop' \
         -Verb RunAs -WindowStyle Hidden -Wait"
    );
    let file_cmd = elevated_remove_command("C:\\f.txt", false);
    assert!(file_cmd.contains("-Force -ErrorAction Stop"));
    assert!(!file_cmd.contains("-Recurse"));
}

#[test]
fn quote_in_path_cannot_break_out() {
    let cmd = elevated_remove_command("C:\\a'b", false);
    assert_eq!(
        cmd,
        "Start-Process powershell -ArgumentList '-Command', \
         'Remove-Item -LiteralPath ''C:\\a''''b'' -Force -ErrorAction Stop' \
         -Verb RunAs -WindowStyle Hidden -Wait"
    );
}

#[test]
fn batch_script_for_directory() {
    assert_eq!(
        batch_script("C:\\prot", true),
        "@echo off\ntakeown /f \"C:\\prot\" /r /d y >nul 2>&1\n\
         icacls \"C:\\prot\" /grant administrators:F /t >nul 2>&1\n\
         rmdir /s /q \"C:\\prot\""
    );
}

#[test]
fn batch_script_for_file() {
    assert_eq!(
        batch_script("C:\\prot.txt", false),
        "@echo off\ntakeown /f \"C:\\prot.txt\" >nul 2>&1\n\
         icacls \"C:\\prot.txt\" /grant administrators:F >nul 2>&1\n\
         del /f /q \"C:\\prot.txt\""
    );
}

#[test]
fn batch_command_wraps_the_written_file() {
    assert_eq!(
        elevated_batch_command("C:\\Temp\\delete_temp.bat"),
        "Start-Process cmd -ArgumentList '/c', '\"C:\\Temp\\delete_temp.bat\"' \
         -Verb RunAs -WindowStyle Hidden -Wait"
    );
}

#[test]
fn direct_elevated_command_bypasses_policy() {
    let cmd = direct_elevated_command("C:\\d", true);
    assert_eq!(
        cmd,
        "Start-Process powershell -ArgumentList '-ExecutionPolicy', 'Bypass', '-Command', \
         'Remove-Item -Path ''C:\\d'' -Recurse -Force' -Verb RunAs -WindowStyle Hidden -Wait"
    );
}

#[test]
fn error_message_names_file_or_folder() {
    assert_eq!(
        delete_error_message(true, "access denied"),
        "Error deleting folder: access denied"
    );
    assert_eq!(delete_error_message(false, "busy"), "Error deleting file: busy");
}

#[test]
fn scenario_plain_delete_succeeds_without_elevation() {
    let (mut machine, first) = DeleteMachine::start(String::from("/tmp/own.txt"), false);
    match first {
        DeleteAction::RunPlainDelete { path, is_dir } => {
            assert_eq!(path, "/tmp/own.txt");
            assert!(!is_dir);
        }
        _ => panic!("expected the plain delete first"),
    }
    let next = machine.on_plain_delete(true);
    match next {
        DeleteAction::Finish { outcome: DeleteOutcome::Success } => {}
        _ => panic!("a successful plain delete must finish the ladder"),
    }
    assert!(machine.is_done());
}

#[test]
fn scenario_elevation_succeeds_when_path_is_gone() {
    let (mut machine, _) = DeleteMachine::start(String::from("C:\\protected"), true);
    let next = machine.on_plain_delete(false);
    match next {
        DeleteAction::SpawnShell { command } => {
            assert_eq!(command, elevated_remove_command("C:\\protected", true));
        }
        _ => panic!("a failed plain delete must spawn the elevated shell"),
    }
    let next = machine.on_process_finished();
    match next {
        DeleteAction::CheckExists { path } => assert_eq!(path, "C:\\protected"),
        _ => panic!("after the process returns, the disk is asked"),
    }
    // The path is gone: success, with no regard to what the child
    // process reported (its exit status is never even handed in).
    let next = machine.on_exists_checked(false);
    match next {
        DeleteAction::Finish { outcome: DeleteOutcome::Success } => {}
        _ => panic!("a vanished target is a success"),
    }
    assert!(machine.is_done());
}

#[test]
fn scenario_every_stage_fails_and_the_reason_says_so() {
    let path = String::from("C:\\held");
    let (mut machine, _) = DeleteMachine::start(path.clone(), false);

    let next = machine.on_plain_delete(false);
    assert!(matches!(next, DeleteAction::SpawnShell { .. }));

    let next = machine.on_process_finished();
    assert!(matches!(next, DeleteAction::CheckExists { .. }));
    let next = machine.on_exists_checked(true);
    match next {
        DeleteAction::WriteAndRunBatch { script } => {
            assert_eq!(script, batch_script("C:\\held", false));
        }
        _ => panic!("after the shell stage the batch stage runs"),
    }

    let next = machine.on_process_finished();
    assert!(matches!(next, DeleteAction::CheckExists { .. }));
    let next = machine.on_exists_checked(true);
    match next {
        DeleteAction::SpawnShell { command } => {
            assert_eq!(command, direct_elevated_command("C:\\held", false));
        }
        _ => panic!("after the batch stage the direct stage runs"),
    }

    let next = machine.on_process_finished();
    assert!(matches!(next, DeleteAction::CheckExists { .. }));
    let next = machine.on_exists_checked(true);
    assert!(matches!(next, DeleteAction::CheckExists { .. }));

    let next = machine.on_exists_checked(true);
    match next {
        DeleteAction::Finish { outcome: DeleteOutcome::Failure(reason) } => {
            assert_eq!(reason, "File/folder still exists after all deletion attempts");
        }
        _ => panic!("a target that survives every stage is a failure"),
    }
    assert!(machine.is_done());
}

#[test]
fn a_late_existence_check_can_still_succeed() {
    let (mut machine, _) = DeleteMachine::start(String::from("C:\\slow"), true);
    machine.on_plain_delete(false);
    machine.on_process_finished();
    machine.on_exists_checked(true);
    machine.on_process_finished();
    // Gone after the batch stage: success right there.
    let next = machine.on_exists_checked(false);
    assert!(matches!(
        next,
        DeleteAction::Finish { outcome: DeleteOutcome::Success }
    ));
    assert!(machine.is_done());
}
