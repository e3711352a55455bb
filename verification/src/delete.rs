//! Elevation-aware deletion. Removing a protected entry is a ladder of
//! stages: a plain removal, then an elevated shell removal, then an
//! ownership-and-permissions batch script, then a second direct elevated
//! removal, and finally one last look at the disk. Existence on disk is
//! the sole success oracle — a child process's exit status is never
//! trusted, because an elevation prompt can misreport it.
//!
//! The decisions live here, in [`DeleteMachine`]: each step consumes the
//! outcome of the previous outside action and names the next one as a
//! [`DeleteAction`]. The caller performs the actions (filesystem calls,
//! spawning the elevated processes, writing the temporary script) and
//! feeds the results back in.

use vstd::prelude::*;

verus! {

/// What a whole deletion attempt came to.
pub enum DeleteOutcome {
    Success,
    Failure(String),
}

/// The escalation stages that follow the plain removal, in order.
pub enum DeleteStage {
    /// An elevated `Remove-Item` through a spawned shell.
    ElevatedShell,
    /// Take ownership, grant the administrators group full control,
    /// then force-remove — one elevated batch script.
    OwnershipBatch,
    /// A second direct elevated `Remove-Item`, without ownership changes.
    DirectElevated,
    /// No stage left: one last existence check decides the outcome.
    FinalCheck,
}

/// What the machine is waiting for.
pub enum DeletePhase {
    /// The plain (unprivileged) removal is running.
    AwaitPlain,
    /// The elevated process of the given stage is running.
    AwaitProcess(DeleteStage),
    /// The existence re-check after the given stage is running.
    AwaitExists(DeleteStage),
    /// Finished; `true` means the target is gone.
    Done(bool),
}

/// The next outside action the caller must perform.
pub enum DeleteAction {
    /// Remove the target directly: recursively for a directory, plainly
    /// for a file.
    RunPlainDelete { path: String, is_dir: bool },
    /// Spawn a shell, handing it `command`, and wait for it to return.
    SpawnShell { command: String },
    /// Write `script` to a temporary batch file, run it elevated (see
    /// [`elevated_batch_command`]), delete the file, and wait.
    WriteAndRunBatch { script: String },
    /// Test whether the target still exists on disk.
    CheckExists { path: String },
    /// Nothing more to do; report the outcome.
    Finish { outcome: DeleteOutcome },
}

/// `s` with every single-quote doubled, so that embedding it between
/// single quotes in a shell command cannot break out of them.
pub open spec fn spec_escape_quotes(s: Seq<char>) -> Seq<char>
    decreases s.len(),
{
    if s.len() == 0 {
        Seq::empty()
    } else if s.last() == '\'' {
        spec_escape_quotes(s.drop_last()) + seq!['\'', '\'']
    } else {
        spec_escape_quotes(s.drop_last()) + seq![s.last()]
    }
}

/// The `Remove-Item` invocation of the first escalation stage, over the
/// quoted literal path.
pub open spec fn spec_remove_item_script(p: Seq<char>, is_dir: bool) -> Seq<char> {
    if is_dir {
        "Remove-Item -LiteralPath '"@ + spec_escape_quotes(p)
            + "' -Recurse -Force -ErrorAction Stop"@
    } else {
        "Remove-Item -LiteralPath '"@ + spec_escape_quotes(p) + "' -Force -ErrorAction Stop"@
    }
}

/// The elevated wrapper handed to the shell for the first escalation
/// stage: it relaunches the shell with administrator rights, hidden,
/// and waits.
pub open spec fn spec_elevated_remove_command(p: Seq<char>, is_dir: bool) -> Seq<char> {
    "Start-Process powershell -ArgumentList '-Command', '"@ + spec_escape_quotes(
        spec_remove_item_script(p, is_dir),
    ) + "' -Verb RunAs -WindowStyle Hidden -Wait"@
}

/// The batch script of the ownership stage: take ownership, grant the
/// administrators group full control, force-remove — recursively for a
/// directory.
pub open spec fn spec_batch_script(p: Seq<char>, is_dir: bool) -> Seq<char> {
    if is_dir {
        "@echo off\ntakeown /f \""@ + p + "\" /r /d y >nul 2>&1\nicacls \""@ + p
            + "\" /grant administrators:F /t >nul 2>&1\nrmdir /s /q \""@ + p + "\""@
    } else {
        "@echo off\ntakeown /f \""@ + p + "\" >nul 2>&1\nicacls \""@ + p
            + "\" /grant administrators:F >nul 2>&1\ndel /f /q \""@ + p + "\""@
    }
}

/// The elevated wrapper that runs a written batch file through `cmd`.
pub open spec fn spec_elevated_batch_command(batch_path: Seq<char>) -> Seq<char> {
    "Start-Process cmd -ArgumentList '/c', '\""@ + batch_path
        + "\"' -Verb RunAs -WindowStyle Hidden -Wait"@
}

/// The `Remove-Item` invocation of the direct stage, without ownership
/// changes.
pub open spec fn spec_direct_remove_script(p: Seq<char>, is_dir: bool) -> Seq<char> {
    if is_dir {
        "Remove-Item -Path '"@ + spec_escape_quotes(p) + "' -Recurse -Force"@
    } else {
        "Remove-Item -Path '"@ + spec_escape_quotes(p) + "' -Force"@
    }
}

/// The elevated wrapper of the direct stage, bypassing the execution
/// policy.
pub open spec fn spec_direct_elevated_command(p: Seq<char>, is_dir: bool) -> Seq<char> {
    "Start-Process powershell -ArgumentList '-ExecutionPolicy', 'Bypass', '-Command', '"@
        + spec_escape_quotes(spec_direct_remove_script(p, is_dir))
        + "' -Verb RunAs -WindowStyle Hidden -Wait"@
}

/// The reason reported when every stage has run and the target is still
/// on disk.
pub open spec fn spec_failure_message() -> Seq<char> {
    "File/folder still exists after all deletion attempts"@
}

/// Doubles every single-quote in `s`.
pub fn escape_quotes(s: &str) -> (r: String)
    ensures
        r@ == spec_escape_quotes(s@),
{
    let len = s.unicode_len();
    let mut r = String::new();
    let mut i: usize = 0;
    while i < len
        invariant
            i <= len,
            len == s@.len(),
            r@ == spec_escape_quotes(s@.take(i as int)),
        decreases len - i,
    {
        let c = s.get_char(i);
        proof {
            assert(s@.take(i + 1).drop_last() =~= s@.take(i as int));
            assert(s@.take(i + 1).last() == s@[i as int]);
        }
        if c == '\'' {
            proof {
                reveal_strlit("''");
                assert("''"@ =~= seq!['\'', '\'']);
            }
            r.append("''");
        } else {
            r.append(s.substring_char(i, i + 1));
            proof {
                assert(s@.subrange(i as int, i + 1) =~= seq![s@[i as int]]);
            }
        }
        proof {
            assert(r@ =~= spec_escape_quotes(s@.take(i + 1)));
        }
        i = i + 1;
    }
    proof {
        assert(s@.take(len as int) =~= s@);
    }
    r
}

/// Builds the quoted `Remove-Item` invocation of the first escalation
/// stage.
pub fn remove_item_script(path: &str, is_dir: bool) -> (r: String)
    ensures
        r@ == spec_remove_item_script(path@, is_dir),
{
    let mut r = String::from_str("Remove-Item -LiteralPath '");
    let escaped = escape_quotes(path);
    r.append(escaped.as_str());
    if is_dir {
        r.append("' -Recurse -Force -ErrorAction Stop");
    } else {
        r.append("' -Force -ErrorAction Stop");
    }
    proof {
        assert(r@ =~= spec_remove_item_script(path@, is_dir));
    }
    r
}

/// Builds the elevated wrapper command of the first escalation stage.
pub fn elevated_remove_command(path: &str, is_dir: bool) -> (r: String)
    ensures
        r@ == spec_elevated_remove_command(path@, is_dir),
{
    let script = remove_item_script(path, is_dir);
    let mut r = String::from_str("Start-Process powershell -ArgumentList '-Command', '");
    let escaped = escape_quotes(script.as_str());
    r.append(escaped.as_str());
    r.append("' -Verb RunAs -WindowStyle Hidden -Wait");
    proof {
        assert(r@ =~= spec_elevated_remove_command(path@, is_dir));
    }
    r
}

/// Builds the ownership-and-removal batch script of the batch stage.
pub fn batch_script(path: &str, is_dir: bool) -> (r: String)
    ensures
        r@ == spec_batch_script(path@, is_dir),
{
    let mut r = String::from_str("@echo off\ntakeown /f \"");
    r.append(path);
    if is_dir {
        r.append("\" /r /d y >nul 2>&1\nicacls \"");
        r.append(path);
        r.append("\" /grant administrators:F /t >nul 2>&1\nrmdir /s /q \"");
    } else {
        r.append("\" >nul 2>&1\nicacls \"");
        r.append(path);
        r.append("\" /grant administrators:F >nul 2>&1\ndel /f /q \"");
    }
    r.append(path);
    r.append("\"");
    proof {
        assert(r@ =~= spec_batch_script(path@, is_dir));
    }
    r
}

/// Builds the elevated wrapper that runs a written batch file; the
/// caller supplies the temporary file's path.
pub fn elevated_batch_command(batch_path: &str) -> (r: String)
    ensures
        r@ == spec_elevated_batch_command(batch_path@),
{
    let mut r = String::from_str("Start-Process cmd -ArgumentList '/c', '\"");
    r.append(batch_path);
    r.append("\"' -Verb RunAs -WindowStyle Hidden -Wait");
    proof {
        assert(r@ =~= spec_elevated_batch_command(batch_path@));
    }
    r
}

/// Builds the `Remove-Item` invocation of the direct stage.
pub fn direct_remove_script(path: &str, is_dir: bool) -> (r: String)
    ensures
        r@ == spec_direct_remove_script(path@, is_dir),
{
    let mut r = String::from_str("Remove-Item -Path '");
    let escaped = escape_quotes(path);
    r.append(escaped.as_str());
    if is_dir {
        r.append("' -Recurse -Force");
    } else {
        r.append("' -Force");
    }
    proof {
        assert(r@ =~= spec_direct_remove_script(path@, is_dir));
    }
    r
}

/// Builds the elevated wrapper command of the direct stage.
pub fn direct_elevated_command(path: &str, is_dir: bool) -> (r: String)
    ensures
        r@ == spec_direct_elevated_command(path@, is_dir),
{
    let script = direct_remove_script(path, is_dir);
    let mut r = String::from_str(
        "Start-Process powershell -ArgumentList '-ExecutionPolicy', 'Bypass', '-Command', '",
    );
    let escaped = escape_quotes(script.as_str());
    r.append(escaped.as_str());
    r.append("' -Verb RunAs -WindowStyle Hidden -Wait");
    proof {
        assert(r@ =~= spec_direct_elevated_command(path@, is_dir));
    }
    r
}

/// The user-visible message built when a deletion fails: names whether
/// a file or a folder was being removed, and the reason.
pub fn delete_error_message(is_dir: bool, reason: &str) -> (r: String)
    ensures
        r@ == "Error deleting "@ + (if is_dir {
            "folder"@
        } else {
            "file"@
        }) + ": "@ + reason@,
{
    let mut r = String::from_str("Error deleting ");
    if is_dir {
        r.append("folder");
    } else {
        r.append("file");
    }
    r.append(": ");
    r.append(reason);
    proof {
        assert(r@ =~= "Error deleting "@ + (if is_dir {
            "folder"@
        } else {
            "file"@
        }) + ": "@ + reason@);
    }
    r
}

/// The deletion ladder as a step machine: the target, and what the
/// machine currently waits for.
pub struct DeleteMachine {
    pub path: String,
    pub is_dir: bool,
    pub phase: DeletePhase,
}

impl DeleteMachine {
    /// Begin deleting `path`. The first action is always the plain,
    /// unprivileged removal.
    pub fn start(path: String, is_dir: bool) -> (r: (DeleteMachine, DeleteAction))
        ensures
            r.0.path@ == path@,
            r.0.is_dir == is_dir,
            r.0.phase == DeletePhase::AwaitPlain,
            r.1 matches DeleteAction::RunPlainDelete { path: p, is_dir: d } && p@ == path@ && d
                == is_dir,
    {
        let action = DeleteAction::RunPlainDelete { path: path.clone(), is_dir };
        (DeleteMachine { path, is_dir, phase: DeletePhase::AwaitPlain }, action)
    }

    /// Consume the plain removal's result. Success is terminal; failure
    /// starts the elevated-shell stage.
    pub fn on_plain_delete(&mut self, ok: bool) -> (r: DeleteAction)
        requires
            old(self).phase == DeletePhase::AwaitPlain,
        ensures
            final(self).path@ == old(self).path@,
            final(self).is_dir == old(self).is_dir,
            ok ==> final(self).phase == DeletePhase::Done(true) && (r
                matches DeleteAction::Finish { outcome } && outcome is Success),
            !ok ==> final(self).phase == DeletePhase::AwaitProcess(DeleteStage::ElevatedShell)
                && (r matches DeleteAction::SpawnShell { command } && command@
                == spec_elevated_remove_command(old(self).path@, old(self).is_dir)),
    {
        if ok {
            self.phase = DeletePhase::Done(true);
            DeleteAction::Finish { outcome: DeleteOutcome::Success }
        } else {
            self.phase = DeletePhase::AwaitProcess(DeleteStage::ElevatedShell);
            DeleteAction::SpawnShell {
                command: elevated_remove_command(self.path.as_str(), self.is_dir),
            }
        }
    }

    /// The elevated process of the current stage has returned (or could
    /// not be spawned — treated the same). Whatever it reported, the
    /// disk is asked next.
    pub fn on_process_finished(&mut self) -> (r: DeleteAction)
        requires
            old(self).phase is AwaitProcess,
        ensures
            final(self).path@ == old(self).path@,
            final(self).is_dir == old(self).is_dir,
            final(self).phase == DeletePhase::AwaitExists(old(self).phase->AwaitProcess_0),
            r matches DeleteAction::CheckExists { path } && path@ == old(self).path@,
    {
        let stage = match &self.phase {
            DeletePhase::AwaitProcess(DeleteStage::ElevatedShell) => DeleteStage::ElevatedShell,
            DeletePhase::AwaitProcess(DeleteStage::OwnershipBatch) => DeleteStage::OwnershipBatch,
            DeletePhase::AwaitProcess(DeleteStage::DirectElevated) => DeleteStage::DirectElevated,
            _ => DeleteStage::FinalCheck,
        };
        self.phase = DeletePhase::AwaitExists(stage);
        DeleteAction::CheckExists { path: self.path.clone() }
    }

    /// Consume an existence check. A target that is gone is a success,
    /// whatever the processes reported; one still present moves the
    /// ladder to its next stage, or to the failure verdict after the
    /// final check.
    pub fn on_exists_checked(&mut self, exists: bool) -> (r: DeleteAction)
        requires
            old(self).phase is AwaitExists,
        ensures
            final(self).path@ == old(self).path@,
            final(self).is_dir == old(self).is_dir,
            !exists ==> final(self).phase == DeletePhase::Done(true) && (r
                matches DeleteAction::Finish { outcome } && outcome is Success),
            exists && old(self).phase->AwaitExists_0 is ElevatedShell ==> final(self).phase
                == DeletePhase::AwaitProcess(DeleteStage::OwnershipBatch) && (r
                matches DeleteAction::WriteAndRunBatch { script } && script@ == spec_batch_script(
                old(self).path@,
                old(self).is_dir,
            )),
            exists && old(self).phase->AwaitExists_0 is OwnershipBatch ==> final(self).phase
                == DeletePhase::AwaitProcess(DeleteStage::DirectElevated) && (r
                matches DeleteAction::SpawnShell { command } && command@
                == spec_direct_elevated_command(old(self).path@, old(self).is_dir)),
            exists && old(self).phase->AwaitExists_0 is DirectElevated ==> final(self).phase
                == DeletePhase::AwaitExists(DeleteStage::FinalCheck) && (r
                matches DeleteAction::CheckExists { path } && path@ == old(self).path@),
            exists && old(self).phase->AwaitExists_0 is FinalCheck ==> final(self).phase
                == DeletePhase::Done(false) && (r matches DeleteAction::Finish { outcome }
                && outcome matches DeleteOutcome::Failure(m) && m@ == spec_failure_message()),
    {
        if !exists {
            self.phase = DeletePhase::Done(true);
            return DeleteAction::Finish { outcome: DeleteOutcome::Success };
        }
        let stage = match &self.phase {
            DeletePhase::AwaitExists(DeleteStage::ElevatedShell) => DeleteStage::ElevatedShell,
            DeletePhase::AwaitExists(DeleteStage::OwnershipBatch) => DeleteStage::OwnershipBatch,
            DeletePhase::AwaitExists(DeleteStage::DirectElevated) => DeleteStage::DirectElevated,
            _ => DeleteStage::FinalCheck,
        };
        match stage {
            DeleteStage::ElevatedShell => {
                self.phase = DeletePhase::AwaitProcess(DeleteStage::OwnershipBatch);
                DeleteAction::WriteAndRunBatch {
                    script: batch_script(self.path.as_str(), self.is_dir),
                }
            },
            DeleteStage::OwnershipBatch => {
                self.phase = DeletePhase::AwaitProcess(DeleteStage::DirectElevated);
                DeleteAction::SpawnShell {
                    command: direct_elevated_command(self.path.as_str(), self.is_dir),
                }
            },
            DeleteStage::DirectElevated => {
                self.phase = DeletePhase::AwaitExists(DeleteStage::FinalCheck);
                DeleteAction::CheckExists { path: self.path.clone() }
            },
            DeleteStage::FinalCheck => {
                self.phase = DeletePhase::Done(false);
                DeleteAction::Finish {
                    outcome: DeleteOutcome::Failure(
                        String::from_str("File/folder still exists after all deletion attempts"),
                    ),
                }
            },
        }
    }

    /// Whether the ladder has finished.
    pub fn is_done(&self) -> (r: bool)
        ensures
            r == (self.phase is Done),
    {
        match &self.phase {
            DeletePhase::Done(_) => true,
            _ => false,
        }
    }
}

} // verus!
