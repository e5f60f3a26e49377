use code_share::editor::{
    match_navigation, title_line, FileRequest, FrameAction, MenuCommand, NotSavedChoice, Popup,
};
use code_share::CodeShare;

fn editor_with_text(text: &str) -> CodeShare {
    let mut editor = CodeShare::default();
    editor.text_buf = text.to_string();
    editor
}

#[test]
fn default_state() {
    let editor = CodeShare::default();
    assert_eq!(editor.text_buf, "");
    assert_eq!(editor.active_popup, Popup::Closed);
    assert_eq!(editor.err_msg, None);
    assert_eq!(editor.status_msg.as_deref(), Some("code_share loaded"));
    assert!(!editor.switch_to_editor);
}

#[test]
fn setup_resets_to_the_initial_state() {
    let mut editor = editor_with_text("some text");
    editor.active_popup = Popup::Error;
    editor.err_msg = Some("boom".to_string());
    editor.status_msg = Some("Save Failed".to_string());
    editor.setup();
    assert_eq!(editor.text_buf, "");
    assert_eq!(editor.active_popup, Popup::Closed);
    assert_eq!(editor.err_msg, None);
    assert_eq!(editor.status_msg.as_deref(), Some("code_share loaded"));
}

#[test]
fn new_with_unsaved_changes_asks_first() {
    let mut editor = editor_with_text("draft");
    let action = editor.menu_command(MenuCommand::New, true);
    assert_eq!(action, FrameAction::Nothing);
    assert_eq!(editor.text_buf, "draft");
    assert_eq!(editor.active_popup, Popup::FileNotSavedNew);
}

#[test]
fn new_without_unsaved_changes_clears_the_text() {
    let mut editor = editor_with_text("draft");
    let action = editor.menu_command(MenuCommand::New, false);
    assert_eq!(action, FrameAction::ResetFileStatus);
    assert_eq!(editor.text_buf, "");
    assert_eq!(editor.status_msg.as_deref(), Some("New File Opened"));
    assert_eq!(editor.active_popup, Popup::Closed);
}

#[test]
fn open_command_depends_on_unsaved_changes() {
    let mut editor = editor_with_text("draft");
    assert_eq!(editor.menu_command(MenuCommand::Open, true), FrameAction::Nothing);
    assert_eq!(editor.active_popup, Popup::FileNotSavedOpen);
    let mut editor = editor_with_text("draft");
    editor.menu_command(MenuCommand::Open, false);
    assert_eq!(editor.active_popup, Popup::OpenFile);
    assert_eq!(editor.file_request(false), Some(FileRequest::Open));
}

#[test]
fn other_menu_commands() {
    let mut editor = CodeShare::default();
    editor.menu_command(MenuCommand::SaveAs, false);
    assert_eq!(editor.active_popup, Popup::SaveAs);
    editor.menu_command(MenuCommand::Find, false);
    assert_eq!(editor.active_popup, Popup::Find);
    editor.menu_command(MenuCommand::FindAndReplace, false);
    assert_eq!(editor.active_popup, Popup::FindAndReplace);
    assert_eq!(editor.menu_command(MenuCommand::Quit, true), FrameAction::Quit);
    assert_eq!(editor.active_popup, Popup::FindAndReplace);
}

#[test]
fn saving_a_new_file_becomes_save_as() {
    let mut editor = editor_with_text("draft");
    editor.menu_command(MenuCommand::Save, true);
    assert_eq!(editor.active_popup, Popup::SaveFile);
    assert_eq!(editor.file_request(true), Some(FileRequest::SaveAs));
    assert_eq!(editor.active_popup, Popup::SaveAs);
}

#[test]
fn saving_a_named_file_saves_in_place() {
    let mut editor = editor_with_text("draft");
    editor.menu_command(MenuCommand::Save, true);
    assert_eq!(editor.file_request(false), Some(FileRequest::Save));
    assert_eq!(editor.active_popup, Popup::SaveFile);
    editor.save_finished(Ok(()));
    assert_eq!(editor.active_popup, Popup::Closed);
    assert_eq!(editor.status_msg.as_deref(), Some("Save Successful"));
    assert_eq!(editor.file_request(false), None);
}

#[test]
fn failed_save_shows_the_error_until_closed() {
    let mut editor = editor_with_text("draft");
    editor.active_popup = Popup::SaveFile;
    editor.save_finished(Err("disk full".to_string()));
    assert_eq!(editor.active_popup, Popup::Error);
    assert_eq!(editor.err_msg.as_deref(), Some("Save failed: disk full"));
    assert_eq!(editor.status_msg.as_deref(), Some("Save Failed"));
    assert_eq!(editor.error_text(), "Save failed: disk full");
    editor.close_error();
    assert_eq!(editor.active_popup, Popup::Closed);
    assert_eq!(editor.err_msg, None);
    assert_eq!(editor.text_buf, "draft");
    assert_eq!(editor.error_text(), "Unknown Error");
}

#[test]
fn open_outcomes() {
    let mut editor = editor_with_text("old");
    editor.active_popup = Popup::OpenFile;
    editor.open_finished(Ok(Some("new contents".to_string())));
    assert_eq!(editor.text_buf, "new contents");
    assert_eq!(editor.active_popup, Popup::Closed);
    assert_eq!(editor.status_msg.as_deref(), Some("Open Successful"));

    editor.active_popup = Popup::OpenFile;
    editor.open_finished(Ok(None));
    assert_eq!(editor.text_buf, "new contents");
    assert_eq!(editor.status_msg.as_deref(), Some("Open Cancelled"));

    editor.active_popup = Popup::OpenFile;
    editor.open_finished(Err("permission denied".to_string()));
    assert_eq!(editor.active_popup, Popup::Error);
    assert_eq!(editor.err_msg.as_deref(), Some("permission denied"));
    assert_eq!(editor.status_msg.as_deref(), Some("Open Cancelled"));
}

#[test]
fn save_as_outcomes() {
    let mut editor = editor_with_text("x");
    editor.active_popup = Popup::SaveAs;
    editor.save_as_finished(Ok(true));
    assert_eq!(editor.status_msg.as_deref(), Some("Save Successful"));
    assert_eq!(editor.active_popup, Popup::Closed);
    editor.active_popup = Popup::SaveAs;
    editor.save_as_finished(Ok(false));
    assert_eq!(editor.status_msg.as_deref(), Some("Save Cancelled"));
    editor.active_popup = Popup::SaveAs;
    editor.save_as_finished(Err("bad path".to_string()));
    assert_eq!(editor.active_popup, Popup::Error);
    assert_eq!(editor.err_msg.as_deref(), Some("bad path"));
}

#[test]
fn not_saved_dialog_for_new() {
    let mut editor = editor_with_text("draft");
    editor.menu_command(MenuCommand::New, true);
    assert_eq!(editor.not_saved_choice(NotSavedChoice::Save), FrameAction::Nothing);
    assert_eq!(editor.active_popup, Popup::SaveFile);

    editor.active_popup = Popup::FileNotSavedNew;
    editor.not_saved_choice(NotSavedChoice::SaveAs);
    assert_eq!(editor.active_popup, Popup::SaveAs);

    editor.active_popup = Popup::FileNotSavedNew;
    let action = editor.not_saved_choice(NotSavedChoice::ContinueWithoutSaving);
    assert_eq!(action, FrameAction::ResetFileStatus);
    assert_eq!(editor.text_buf, "");
    assert_eq!(editor.active_popup, Popup::Closed);
    assert_eq!(editor.status_msg.as_deref(), Some("Cont. w/o saving"));
}

#[test]
fn not_saved_dialog_for_open() {
    let mut editor = editor_with_text("draft");
    editor.menu_command(MenuCommand::Open, true);
    let action = editor.not_saved_choice(NotSavedChoice::ContinueWithoutSaving);
    assert_eq!(action, FrameAction::Nothing);
    assert_eq!(editor.text_buf, "draft");
    assert_eq!(editor.active_popup, Popup::OpenFile);
    assert_eq!(editor.status_msg.as_deref(), Some("Cont. w/o saving"));
    assert_eq!(editor.file_request(true), Some(FileRequest::Open));
}

#[test]
fn not_saved_choice_outside_the_dialog_changes_nothing() {
    let mut editor = editor_with_text("draft");
    editor.active_popup = Popup::Find;
    let action = editor.not_saved_choice(NotSavedChoice::ContinueWithoutSaving);
    assert_eq!(action, FrameAction::Nothing);
    assert_eq!(editor.text_buf, "draft");
    assert_eq!(editor.active_popup, Popup::Find);
}

#[test]
fn find_dialog_closes() {
    let mut editor = CodeShare::default();
    editor.menu_command(MenuCommand::Find, false);
    editor.close_find();
    assert_eq!(editor.active_popup, Popup::Closed);
}

#[test]
fn highlight_and_focus() {
    let mut editor = CodeShare::default();
    assert_eq!(editor.highlight_match(Some((4, 3)), false), (Some((4, 7)), true));
    assert!(!editor.switch_to_editor);
    assert_eq!(editor.highlight_match(None, true), (None, false));
    assert_eq!(editor.highlight_match(None, false), (None, false));
    assert!(!editor.switch_to_editor);
    assert_eq!(editor.highlight_match(Some((0, 2)), true), (Some((0, 2)), false));
    assert!(editor.switch_to_editor);
    assert!(editor.take_focus_request());
    assert!(!editor.take_focus_request());
}

#[test]
fn both_highlight_variants_select_the_same_range() {
    let mut with_focus = CodeShare::default();
    let mut without_focus = CodeShare::default();
    let a = with_focus.highlight_match(Some((10, 5)), true);
    let b = without_focus.highlight_match(Some((10, 5)), false);
    assert_eq!(a.0, b.0);
    assert_eq!(a.0, Some((10, 15)));
    assert!(with_focus.switch_to_editor);
    assert!(!without_focus.switch_to_editor);
}

#[test]
fn previous_next_navigation() {
    assert_eq!(match_navigation(false, 3, true), (false, false));
    assert_eq!(match_navigation(true, 0, true), (false, false));
    assert_eq!(match_navigation(true, 3, false), (false, true));
    assert_eq!(match_navigation(true, 3, true), (true, true));
}

#[test]
fn file_outcomes_outside_their_dialog_are_ignored() {
    let mut editor = editor_with_text("draft");
    editor.active_popup = Popup::Find;
    editor.open_finished(Ok(Some("other".to_string())));
    editor.save_finished(Err("x".to_string()));
    editor.save_as_finished(Ok(true));
    assert_eq!(editor.text_buf, "draft");
    assert_eq!(editor.active_popup, Popup::Find);
    assert_eq!(editor.err_msg, None);
    assert_eq!(editor.status_msg.as_deref(), Some("code_share loaded"));
}

#[test]
fn unsaved_text_survives_a_frame_of_commands() {
    // One frame, handled in the window's order, while the file stays unsaved.
    let mut editor = editor_with_text("precious");
    for command in [MenuCommand::New, MenuCommand::Open, MenuCommand::Find] {
        assert_ne!(editor.menu_command(command, true), FrameAction::ResetFileStatus);
    }
    assert_eq!(editor.file_request(false), None);
    editor.open_finished(Ok(Some("other".to_string())));
    assert_eq!(editor.not_saved_choice(NotSavedChoice::ContinueWithoutSaving), FrameAction::Nothing);
    editor.menu_command(MenuCommand::New, true);
    assert_eq!(editor.text_buf, "precious");
    assert_eq!(editor.active_popup, Popup::FileNotSavedNew);
    assert!(!editor.take_focus_request());
    assert!(!editor.switch_to_editor);
}

#[test]
fn info_bar_texts() {
    assert_eq!(title_line("/tmp/a.rs", true), "/tmp/a.rs*");
    assert_eq!(title_line("/tmp/a.rs", false), "/tmp/a.rs");
    let mut editor = CodeShare::default();
    assert_eq!(editor.status_text(), "code_share loaded");
    editor.status_msg = None;
    assert_eq!(editor.status_text(), "");
}

#[test]
fn line_numbers_of_the_text() {
    let editor = editor_with_text("fn main() {\n}\n");
    assert_eq!(editor.line_numbers(), "1\n2\n~");
    let editor = CodeShare::default();
    assert_eq!(editor.line_numbers(), "~");
}

#[test]
fn refresh_matches_decisions() {
    let editor = editor_with_text("let a = a + a;");
    assert_eq!(editor.refresh_matches("a", true), Some(vec![4, 8, 12]));
    assert_eq!(editor.refresh_matches("a", false), None);
    assert_eq!(editor.refresh_matches("", false), Some(vec![]));
    assert_eq!(editor.refresh_matches("", true), Some(vec![]));
}

#[test]
fn open_and_save_shortcuts_after_a_save_keep_the_text() {
    let mut editor = editor_with_text("kept");
    editor.menu_command(MenuCommand::Save, true);
    assert_eq!(editor.file_request(false), Some(FileRequest::Save));
    editor.save_finished(Ok(()));
    // The file is saved now; the shortcuts of the same frame see that.
    assert_eq!(editor.menu_command(MenuCommand::Save, false), FrameAction::Nothing);
    assert_eq!(editor.menu_command(MenuCommand::Open, false), FrameAction::Nothing);
    assert_eq!(editor.text_buf, "kept");
    assert_eq!(editor.active_popup, Popup::OpenFile);
}
