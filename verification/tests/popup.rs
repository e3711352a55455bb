use file_manager::popup::{rename_target, Popup, PopupMessage};
use file_manager::text::trim;

#[test]
fn trimming_strips_ascii_whitespace() {
    assert_eq!(trim("  name \t"), "name");
    assert_eq!(trim("name"), "name");
    assert_eq!(trim(" \r\n "), "");
}

#[test]
fn rename_keeps_a_file_extension() {
    assert_eq!(
        rename_target("/docs/old.txt", false, "new"),
        Ok(String::from("/docs/new.txt"))
    );
    assert_eq!(
        rename_target("/docs/old.txt", false, "new.txt"),
        Ok(String::from("/docs/new.txt"))
    );
    assert_eq!(
        rename_target("/docs/old.txt", false, " spaced "),
        Ok(String::from("/docs/spaced.txt"))
    );
}

#[test]
fn rename_of_a_directory_takes_the_name_as_is() {
    assert_eq!(
        rename_target("/docs/old.dir", true, "new"),
        Ok(String::from("/docs/new"))
    );
}

#[test]
fn rename_without_extension_appends_nothing() {
    assert_eq!(
        rename_target("/docs/Makefile", false, "Build"),
        Ok(String::from("/docs/Build"))
    );
}

#[test]
fn empty_rename_is_refused() {
    assert_eq!(
        rename_target("/docs/old.txt", false, "   "),
        Err(String::from("Name cannot be empty"))
    );
}

#[test]
fn popup_walks_through_a_rename() {
    let mut popup = Popup::new(String::from("/docs/old.txt"), false);
    assert!(!popup.renaming);

    assert!(popup.update(PopupMessage::StartRename).is_none());
    assert!(popup.renaming);
    assert_eq!(popup.rename_input, "old.txt");

    assert!(popup.update(PopupMessage::RenameInputChanged(String::from("new"))).is_none());
    let req = popup.update(PopupMessage::ConfirmRename).expect("a valid rename");
    assert_eq!(req.old_path, "/docs/old.txt");
    assert_eq!(req.new_path, "/docs/new.txt");

    popup.rename_succeeded();
    assert!(!popup.renaming);
    assert_eq!(popup.rename_input, "");
    assert!(popup.rename_error.is_none());
}

#[test]
fn empty_input_sets_the_error_and_keeps_editing() {
    let mut popup = Popup::new(String::from("/docs/old.txt"), false);
    popup.update(PopupMessage::StartRename);
    popup.update(PopupMessage::RenameInputChanged(String::from("  ")));
    assert!(popup.update(PopupMessage::ConfirmRename).is_none());
    assert_eq!(popup.rename_error, Some(String::from("Name cannot be empty")));
    assert!(popup.renaming);
}

#[test]
fn conflict_and_failure_set_their_messages() {
    let mut popup = Popup::new(String::from("/docs/old.txt"), false);
    popup.rename_conflict();
    assert_eq!(
        popup.rename_error,
        Some(String::from("A file/folder with that name already exists"))
    );
    popup.rename_failed("permission denied");
    assert_eq!(
        popup.rename_error,
        Some(String::from("Error renaming: permission denied"))
    );
}

#[test]
fn cancel_clears_the_editor() {
    let mut popup = Popup::new(String::from("/docs/old.txt"), false);
    popup.update(PopupMessage::StartRename);
    popup.update(PopupMessage::RenameInputChanged(String::from("x")));
    popup.update(PopupMessage::CancelRename);
    assert!(!popup.renaming);
    assert_eq!(popup.rename_input, "");
    assert!(popup.rename_error.is_none());
}

#[test]
fn unrelated_messages_leave_the_popup_alone() {
    let mut popup = Popup::new(String::from("/docs/old.txt"), false);
    assert!(popup.update(PopupMessage::ClosePopup).is_none());
    assert!(popup.update(PopupMessage::CopyFile).is_none());
    assert!(popup.update(PopupMessage::CutFile).is_none());
    assert!(popup.update(PopupMessage::PasteFile).is_none());
    assert!(popup
        .update(PopupMessage::CopyToClipboard(String::from("/docs/old.txt")))
        .is_none());
    assert!(!popup.renaming);
    assert!(popup.rename_error.is_none());
}
