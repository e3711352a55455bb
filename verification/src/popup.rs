//! The context-popup's rename editor. The popup shows actions for one
//! entry; renaming is the one with logic of its own: the typed name is
//! trimmed and validated, a file keeps its old extension unless the
//! new name already carries it, and the result is a rename request for
//! the caller to carry out against the filesystem. The caller reports
//! the attempt back (`rename_succeeded`, `rename_conflict`,
//! `rename_failed`) and the editor's state follows.

use vstd::prelude::*;

use crate::paths::{file_name, spec_extension, spec_file_name, spec_join, spec_parent, parent,
    join, extension_raw};
use crate::text::{ends_with, spec_ends_with, spec_trim, trim};

verus! {

/// Everything the popup can be asked to do.
#[derive(Clone, Debug)]
pub enum PopupMessage {
    CopyToClipboard(String),
    ClosePopup,
    StartRename,
    RenameInputChanged(String),
    ConfirmRename,
    CancelRename,
    CopyFile,
    CutFile,
    PasteFile,
}

/// A rename the caller should attempt on the filesystem.
pub struct RenameRequest {
    pub old_path: String,
    pub new_path: String,
}

/// The popup for one entry, with its rename editor.
pub struct Popup {
    pub file_path: String,
    pub is_directory: bool,
    pub renaming: bool,
    pub rename_input: String,
    pub rename_error: Option<String>,
}

/// The path a confirmed rename moves the entry to: the trimmed input,
/// joined onto the old path's parent; a file whose old name carries an
/// extension keeps it unless the new name already ends in it.
pub open spec fn spec_rename_target(old_path: Seq<char>, is_dir: bool, input: Seq<char>) -> Seq<
    char,
>
    recommends
        spec_parent(old_path) is Some,
{
    let name = spec_trim(input);
    let dir = spec_parent(old_path)->0;
    if is_dir {
        spec_join(dir, name)
    } else {
        let ext = spec_extension(old_path);
        if ext.len() == 0 {
            spec_join(dir, name)
        } else if spec_ends_with(name, seq!['.'] + ext) {
            spec_join(dir, name)
        } else {
            spec_join(dir, name + seq!['.'] + ext)
        }
    }
}

/// Computes the target path of a rename, or the message shown when the
/// trimmed name is empty.
pub fn rename_target(old_path: &str, is_dir: bool, input: &str) -> (r: Result<String, String>)
    requires
        spec_parent(old_path@) is Some,
    ensures
        spec_trim(input@).len() == 0 ==> (r matches Err(m) && m@ == "Name cannot be empty"@),
        spec_trim(input@).len() > 0 ==> (r matches Ok(p) && p@ == spec_rename_target(
            old_path@,
            is_dir,
            input@,
        )),
{
    let name = trim(input);
    if name.as_str().unicode_len() == 0 {
        return Result::Err(String::from_str("Name cannot be empty"));
    }
    let dir = match parent(old_path) {
        Option::Some(d) => d,
        Option::None => {
            proof {
                assert(false);
            }
            String::new()
        },
    };
    if is_dir {
        Result::Ok(join(dir.as_str(), name.as_str()))
    } else {
        let ext = extension_raw(old_path);
        if ext.as_str().unicode_len() == 0 {
            Result::Ok(join(dir.as_str(), name.as_str()))
        } else {
            let mut dotted = String::from_str(".");
            dotted.append(ext.as_str());
            proof {
                reveal_strlit(".");
                assert(dotted@ =~= seq!['.'] + spec_extension(old_path@));
            }
            if ends_with(name.as_str(), dotted.as_str()) {
                Result::Ok(join(dir.as_str(), name.as_str()))
            } else {
                let mut full = name;
                full.append(dotted.as_str());
                Result::Ok(join(dir.as_str(), full.as_str()))
            }
        }
    }
}

impl Popup {
    /// A fresh popup for `file_path`, not yet renaming; the caller says
    /// whether the entry is a directory, which decides how a rename
    /// treats extensions.
    pub fn new(file_path: String, is_directory: bool) -> (r: Popup)
        ensures
            r.file_path@ == file_path@,
            r.is_directory == is_directory,
            !r.renaming,
            r.rename_input@ == Seq::<char>::empty(),
            r.rename_error is None,
    {
        Popup {
            file_path,
            is_directory,
            renaming: false,
            rename_input: String::new(),
            rename_error: Option::None,
        }
    }

    /// React to a message. Only the rename editor changes state here;
    /// a confirmed, valid rename is returned as a request for the
    /// caller to attempt. Clipboard and close actions belong to the
    /// caller and leave the popup unchanged.
    pub fn update(&mut self, message: PopupMessage) -> (r: Option<RenameRequest>)
        requires
            message is ConfirmRename ==> spec_parent(old(self).file_path@) is Some,
        ensures
            final(self).file_path@ == old(self).file_path@,
            final(self).is_directory == old(self).is_directory,
            match message {
                PopupMessage::StartRename => {
                    &&& final(self).renaming
                    &&& final(self).rename_input@ == spec_file_name(old(self).file_path@)
                    &&& final(self).rename_error == old(self).rename_error
                    &&& r is None
                },
                PopupMessage::RenameInputChanged(input) => {
                    &&& final(self).renaming == old(self).renaming
                    &&& final(self).rename_input@ == input@
                    &&& final(self).rename_error == old(self).rename_error
                    &&& r is None
                },
                PopupMessage::ConfirmRename => {
                    if spec_trim(old(self).rename_input@).len() == 0 {
                        &&& final(self).renaming == old(self).renaming
                        &&& final(self).rename_input == old(self).rename_input
                        &&& final(self).rename_error matches Some(m) && m@
                            == "Name cannot be empty"@
                        &&& r is None
                    } else {
                        &&& *final(self) == *old(self)
                        &&& r matches Some(req) && req.old_path@ == old(self).file_path@
                            && req.new_path@ == spec_rename_target(
                            old(self).file_path@,
                            old(self).is_directory,
                            old(self).rename_input@,
                        )
                    }
                },
                PopupMessage::CancelRename => {
                    &&& !final(self).renaming
                    &&& final(self).rename_input@ == Seq::<char>::empty()
                    &&& final(self).rename_error is None
                    &&& r is None
                },
                _ => { *final(self) == *old(self) && r is None },
            },
    {
        match message {
            PopupMessage::StartRename => {
                self.renaming = true;
                self.rename_input = file_name(self.file_path.as_str());
                Option::None
            },
            PopupMessage::RenameInputChanged(input) => {
                self.rename_input = input;
                Option::None
            },
            PopupMessage::ConfirmRename => {
                match rename_target(
                    self.file_path.as_str(),
                    self.is_directory,
                    self.rename_input.as_str(),
                ) {
                    Result::Ok(new_path) => Option::Some(
                        RenameRequest { old_path: self.file_path.clone(), new_path },
                    ),
                    Result::Err(m) => {
                        self.rename_error = Option::Some(m);
                        Option::None
                    },
                }
            },
            PopupMessage::CancelRename => {
                self.renaming = false;
                self.rename_input = String::new();
                self.rename_error = Option::None;
                Option::None
            },
            _ => Option::None,
        }
    }

    /// The caller found the rename target already taken.
    pub fn rename_conflict(&mut self)
        ensures
            final(self).file_path@ == old(self).file_path@,
            final(self).renaming == old(self).renaming,
            final(self).rename_input == old(self).rename_input,
            final(self).rename_error matches Some(m) && m@
                == "A file/folder with that name already exists"@,
    {
        self.rename_error = Option::Some(
            String::from_str("A file/folder with that name already exists"),
        );
    }

    /// The filesystem refused the rename for the given reason.
    pub fn rename_failed(&mut self, reason: &str)
        ensures
            final(self).file_path@ == old(self).file_path@,
            final(self).renaming == old(self).renaming,
            final(self).rename_input == old(self).rename_input,
            final(self).rename_error matches Some(m) && m@ == "Error renaming: "@ + reason@,
    {
        let mut m = String::from_str("Error renaming: ");
        m.append(reason);
        self.rename_error = Option::Some(m);
    }

    /// The rename went through: the editor closes and clears.
    pub fn rename_succeeded(&mut self)
        ensures
            final(self).file_path@ == old(self).file_path@,
            !final(self).renaming,
            final(self).rename_input@ == Seq::<char>::empty(),
            final(self).rename_error is None,
    {
        self.renaming = false;
        self.rename_input = String::new();
        self.rename_error = Option::None;
    }
}

} // verus!
