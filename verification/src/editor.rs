use vstd::prelude::*;
use crate::lines::{get_line_num_str, line_count, line_count_of, line_number_column};
use crate::search::{match_positions, search_matches};
use crate::text::push_char;
use vstd::utf8::encode_utf8;

verus! {

/// The dialog (or pending file operation) the editor window shows.
#[derive(Clone, Copy, Debug, PartialEq, Eq, Structural)]
pub enum Popup {
    OpenFile,
    SaveFile,
    SaveAs,
    FileNotSavedNew,
    FileNotSavedOpen,
    Error,
    Find,
    FindAndReplace,
    Closed,
}

/// A command from the menu bar or a keyboard shortcut.
#[derive(Clone, Copy, Debug, PartialEq, Eq, Structural)]
pub enum MenuCommand {
    New,
    Open,
    Save,
    SaveAs,
    Quit,
    Find,
    FindAndReplace,
}

/// What the surrounding application must do after a transition, besides
/// redrawing.
#[derive(Clone, Copy, Debug, PartialEq, Eq, Structural)]
pub enum FrameAction {
    Nothing,
    /// Forget the current file: it becomes a new, saved, unnamed file.
    ResetFileStatus,
    /// Close the application window.
    Quit,
}

/// A file operation the application must run now (it needs a dialog or
/// the disk).
#[derive(Clone, Copy, Debug, PartialEq, Eq, Structural)]
pub enum FileRequest {
    Save,
    Open,
    SaveAs,
}

/// The buttons of the "File Not Saved" dialog.
#[derive(Clone, Copy, Debug, PartialEq, Eq, Structural)]
pub enum NotSavedChoice {
    Save,
    SaveAs,
    ContinueWithoutSaving,
}

/// The editor's state, as mathematical values.
pub struct EditorState {
    pub text: Seq<char>,
    pub popup: Popup,
    pub err_msg: Option<Seq<char>>,
    pub status_msg: Option<Seq<char>>,
    pub switch_to_editor: bool,
}

/// The state of the editor window: the text being edited, the dialog on
/// screen, the error and status messages, and whether the text area should
/// take the keyboard focus on the next frame.
pub struct CodeShare {
    pub text_buf: String,
    pub active_popup: Popup,
    pub err_msg: Option<String>,
    pub status_msg: Option<String>,
    pub switch_to_editor: bool,
}

pub open spec fn opt_string_view(o: Option<String>) -> Option<Seq<char>> {
    match o {
        Some(s) => Some(s@),
        None => None,
    }
}

impl View for CodeShare {
    type V = EditorState;

    open spec fn view(&self) -> EditorState {
        EditorState {
            text: self.text_buf@,
            popup: self.active_popup,
            err_msg: opt_string_view(self.err_msg),
            status_msg: opt_string_view(self.status_msg),
            switch_to_editor: self.switch_to_editor,
        }
    }
}

pub open spec fn loaded_msg() -> Seq<char> {
    "code_share loaded"@
}

pub open spec fn new_file_msg() -> Seq<char> {
    "New File Opened"@
}

pub open spec fn save_ok_msg() -> Seq<char> {
    "Save Successful"@
}

pub open spec fn save_failed_msg() -> Seq<char> {
    "Save Failed"@
}

pub open spec fn save_failed_prefix() -> Seq<char> {
    "Save failed: "@
}

pub open spec fn save_cancelled_msg() -> Seq<char> {
    "Save Cancelled"@
}

pub open spec fn open_ok_msg() -> Seq<char> {
    "Open Successful"@
}

pub open spec fn open_cancelled_msg() -> Seq<char> {
    "Open Cancelled"@
}

pub open spec fn continue_msg() -> Seq<char> {
    "Cont. w/o saving"@
}

pub open spec fn unknown_error_msg() -> Seq<char> {
    "Unknown Error"@
}

/// The state of a freshly started editor.
pub open spec fn initial_state() -> EditorState {
    EditorState {
        text: Seq::empty(),
        popup: Popup::Closed,
        err_msg: None,
        status_msg: Some(loaded_msg()),
        switch_to_editor: false,
    }
}

/// The state after the window has been set up: empty text, no dialog, no
/// error, the "loaded" status; the focus request is kept.
pub open spec fn setup_state(s: EditorState) -> EditorState {
    EditorState {
        text: Seq::empty(),
        popup: Popup::Closed,
        err_msg: None,
        status_msg: Some(loaded_msg()),
        ..s
    }
}

/// A menu command or shortcut; `unsaved` tells whether the current file
/// has unsaved changes.
pub open spec fn menu_step(s: EditorState, command: MenuCommand, unsaved: bool) -> (
    EditorState,
    FrameAction,
) {
    match command {
        MenuCommand::New => if unsaved {
            (EditorState { popup: Popup::FileNotSavedNew, ..s }, FrameAction::Nothing)
        } else {
            (
                EditorState { text: Seq::empty(), status_msg: Some(new_file_msg()), ..s },
                FrameAction::ResetFileStatus,
            )
        },
        MenuCommand::Open => if unsaved {
            (EditorState { popup: Popup::FileNotSavedOpen, ..s }, FrameAction::Nothing)
        } else {
            (EditorState { popup: Popup::OpenFile, ..s }, FrameAction::Nothing)
        },
        MenuCommand::Save => (EditorState { popup: Popup::SaveFile, ..s }, FrameAction::Nothing),
        MenuCommand::SaveAs => (EditorState { popup: Popup::SaveAs, ..s }, FrameAction::Nothing),
        MenuCommand::Quit => (s, FrameAction::Quit),
        MenuCommand::Find => (EditorState { popup: Popup::Find, ..s }, FrameAction::Nothing),
        MenuCommand::FindAndReplace => (
            EditorState { popup: Popup::FindAndReplace, ..s },
            FrameAction::Nothing,
        ),
    }
}

/// The file operation the current dialog asks for; `is_new` tells whether
/// the current file has never been saved (has no path). Saving a new file
/// becomes "Save As".
pub open spec fn file_request_step(s: EditorState, is_new: bool) -> (EditorState, Option<
    FileRequest,
>) {
    match s.popup {
        Popup::SaveFile => if is_new {
            (EditorState { popup: Popup::SaveAs, ..s }, Some(FileRequest::SaveAs))
        } else {
            (s, Some(FileRequest::Save))
        },
        Popup::OpenFile => (s, Some(FileRequest::Open)),
        Popup::SaveAs => (s, Some(FileRequest::SaveAs)),
        _ => (s, None),
    }
}

/// The state after saving to the current path ended with `result` (the
/// error's text on failure). The outcome belongs to the save dialog: with
/// any other popup it changes nothing.
pub open spec fn save_done(s: EditorState, result: Result<(), Seq<char>>) -> EditorState {
    if s.popup != Popup::SaveFile {
        s
    } else {
    match result {
        Ok(_) => EditorState { popup: Popup::Closed, status_msg: Some(save_ok_msg()), ..s },
        Err(e) => EditorState {
            popup: Popup::Error,
            err_msg: Some(save_failed_prefix() + e),
            status_msg: Some(save_failed_msg()),
            ..s
        },
    }
    }
}

/// The state after the open dialog ended with `result`: the contents of the
/// chosen file, `None` when the user cancelled, or the error's text. The
/// outcome belongs to the open dialog: with any other popup it changes
/// nothing.
pub open spec fn open_done(s: EditorState, result: Result<Option<Seq<char>>, Seq<char>>) -> EditorState {
    if s.popup != Popup::OpenFile {
        s
    } else {
    match result {
        Ok(Some(contents)) => EditorState {
            text: contents,
            popup: Popup::Closed,
            status_msg: Some(open_ok_msg()),
            ..s
        },
        Ok(None) => EditorState { popup: Popup::Closed, status_msg: Some(open_cancelled_msg()), ..s },
        Err(e) => EditorState { popup: Popup::Error, err_msg: Some(e), ..s },
    }
    }
}

/// The state after the "Save As" dialog ended with `result`: `true` when
/// the file was written, `false` when the user cancelled, or the error's text.
/// The outcome belongs to the "Save As" dialog: with any other popup it
/// changes nothing.
pub open spec fn save_as_done(s: EditorState, result: Result<bool, Seq<char>>) -> EditorState {
    if s.popup != Popup::SaveAs {
        s
    } else {
    match result {
        Ok(true) => EditorState { popup: Popup::Closed, status_msg: Some(save_ok_msg()), ..s },
        Ok(false) => EditorState {
            popup: Popup::Closed,
            status_msg: Some(save_cancelled_msg()),
            ..s
        },
        Err(e) => EditorState { popup: Popup::Error, err_msg: Some(e), ..s },
    }
    }
}

/// A button of the "File Not Saved" dialog. The dialog is the one shown
/// for "New" or the one shown for "Open"; with any other popup the click
/// changes nothing.
pub open spec fn not_saved_step(s: EditorState, choice: NotSavedChoice) -> (EditorState, FrameAction) {
    if s.popup == Popup::FileNotSavedNew || s.popup == Popup::FileNotSavedOpen {
        match choice {
            NotSavedChoice::Save => (EditorState { popup: Popup::SaveFile, ..s }, FrameAction::Nothing),
            NotSavedChoice::SaveAs => (EditorState { popup: Popup::SaveAs, ..s }, FrameAction::Nothing),
            NotSavedChoice::ContinueWithoutSaving => if s.popup == Popup::FileNotSavedNew {
                (
                    EditorState {
                        text: Seq::empty(),
                        popup: Popup::Closed,
                        status_msg: Some(continue_msg()),
                        ..s
                    },
                    FrameAction::ResetFileStatus,
                )
            } else {
                (
                    EditorState { popup: Popup::OpenFile, status_msg: Some(continue_msg()), ..s },
                    FrameAction::Nothing,
                )
            },
        }
    } else {
        (s, FrameAction::Nothing)
    }
}

/// Closing the error dialog: no dialog, and the error is forgotten.
pub open spec fn close_error_step(s: EditorState) -> EditorState {
    EditorState { popup: Popup::Closed, err_msg: None, ..s }
}

/// The text the error dialog shows.
pub open spec fn error_text_of(s: EditorState) -> Seq<char> {
    match s.err_msg {
        Some(e) => e,
        None => unknown_error_msg(),
    }
}

/// The editor selection that highlights a match starting at `start` and
/// `len` characters long.
pub open spec fn selection_of(m: Option<(usize, usize)>) -> Option<(usize, usize)> {
    match m {
        Some((start, len)) => Some((start, (start + len) as usize)),
        None => None,
    }
}

/// Selecting the current search match `current` in the text area. With
/// `take_focus` the text area will also take the focus on the next frame.
/// Yields the new state, the selection, and whether the find dialog must
/// forget that a match was already stepped to (a selection made without
/// taking the focus).
pub open spec fn highlight_step(s: EditorState, current: Option<(usize, usize)>, take_focus: bool) -> (
    EditorState,
    Option<(usize, usize)>,
    bool,
) {
    (
        EditorState {
            switch_to_editor: s.switch_to_editor || (take_focus && current is Some),
            ..s
        },
        selection_of(current),
        !take_focus && current is Some,
    )
}

/// The information bar's title: the file's path, with `*` behind it while
/// the file has unsaved changes.
pub open spec fn title_of(path: Seq<char>, unsaved: bool) -> Seq<char> {
    if unsaved {
        path.push('*')
    } else {
        path
    }
}

/// With unsaved changes, no menu command or shortcut discards the text or
/// forgets the file: "New" and "Open" only bring up the "File Not Saved"
/// dialog.
pub proof fn lemma_unsaved_text_kept(s: EditorState, command: MenuCommand)
    ensures
        menu_step(s, command, true).0.text == s.text,
        menu_step(s, command, true).1 != FrameAction::ResetFileStatus,
        command == MenuCommand::New ==> menu_step(s, command, true).0.popup == Popup::FileNotSavedNew,
        command == MenuCommand::Open ==> menu_step(s, command, true).0.popup == Popup::FileNotSavedOpen,
{
}

/// In the "File Not Saved" dialog the text is dropped only by "Continue
/// without saving" in the dialog raised for "New", and then it is emptied
/// and the file forgotten; every other click keeps the text.
pub proof fn lemma_text_dropped_only_when_confirmed(s: EditorState, choice: NotSavedChoice)
    ensures
        not_saved_step(s, choice).0.text != s.text ==> {
            &&& s.popup == Popup::FileNotSavedNew
            &&& choice == NotSavedChoice::ContinueWithoutSaving
            &&& not_saved_step(s, choice).0.text == Seq::<char>::empty()
            &&& not_saved_step(s, choice).1 == FrameAction::ResetFileStatus
        },
        not_saved_step(s, choice).1 == FrameAction::ResetFileStatus ==> (
            s.popup == Popup::FileNotSavedNew && choice == NotSavedChoice::ContinueWithoutSaving),
{
}

/// "Save" on a file that was never saved asks for "Save As"; on a file
/// that has a path it saves there.
pub proof fn lemma_save_command_request(s: EditorState, unsaved: bool, is_new: bool)
    ensures
        file_request_step(menu_step(s, MenuCommand::Save, unsaved).0, is_new).1 == Some(
            if is_new { FileRequest::SaveAs } else { FileRequest::Save },
        ),
{
}

/// Continuing without saving out of the dialog raised for "Open" leads to
/// the open dialog, whatever the file's state.
pub proof fn lemma_continue_then_open(s: EditorState, is_new: bool)
    requires
        s.popup == Popup::FileNotSavedOpen,
    ensures
        file_request_step(
            not_saved_step(s, NotSavedChoice::ContinueWithoutSaving).0,
            is_new,
        ).1 == Some(FileRequest::Open),
{
}

/// Every finished file operation closes its dialog: the error dialog comes
/// up exactly when the operation failed, and then holds the error; the
/// text changes only when a file was opened, and then holds its contents.
/// An outcome reported while another popup is up changes nothing.
pub proof fn lemma_file_operation_outcome(
    s: EditorState,
    saved: Result<(), Seq<char>>,
    opened: Result<Option<Seq<char>>, Seq<char>>,
    saved_as: Result<bool, Seq<char>>,
)
    ensures
        s.popup == Popup::SaveFile ==> {
            &&& save_done(s, saved).popup == (if saved is Err { Popup::Error } else { Popup::Closed })
            &&& saved matches Err(e) ==> save_done(s, saved).err_msg == Some(save_failed_prefix() + e)
            &&& saved is Ok ==> save_done(s, saved).err_msg == s.err_msg
        },
        s.popup == Popup::OpenFile ==> {
            &&& open_done(s, opened).popup == (if opened is Err { Popup::Error } else { Popup::Closed })
            &&& opened matches Err(e) ==> open_done(s, opened).err_msg == Some(e)
            &&& opened is Ok ==> open_done(s, opened).err_msg == s.err_msg
            &&& open_done(s, opened).text == (match opened {
                Ok(Some(contents)) => contents,
                _ => s.text,
            })
        },
        s.popup == Popup::SaveAs ==> {
            &&& save_as_done(s, saved_as).popup == (if saved_as is Err { Popup::Error } else { Popup::Closed })
            &&& saved_as matches Err(e) ==> save_as_done(s, saved_as).err_msg == Some(e)
            &&& saved_as is Ok ==> save_as_done(s, saved_as).err_msg == s.err_msg
        },
        s.popup != Popup::SaveFile ==> save_done(s, saved) == s,
        s.popup != Popup::OpenFile ==> open_done(s, opened) == s,
        s.popup != Popup::SaveAs ==> save_as_done(s, saved_as) == s,
        save_done(s, saved).text == s.text,
        save_as_done(s, saved_as).text == s.text,
        open_done(s, opened).text != s.text ==> s.popup == Popup::OpenFile,
{
}

/// A failed save shows its error until the error dialog is closed; closing
/// it leaves no dialog and no error, and the text untouched.
pub proof fn lemma_failed_save_then_close(s: EditorState, e: Seq<char>)
    requires
        s.popup == Popup::SaveFile,
    ensures
        error_text_of(save_done(s, Err(e))) == save_failed_prefix() + e,
        ({
            let closed = close_error_step(save_done(s, Err(e)));
            &&& closed.popup == Popup::Closed
            &&& closed.err_msg is None
            &&& closed.text == s.text
            &&& closed.status_msg == Some(save_failed_msg())
        }),
{
}

/// Selecting a match with or without taking the focus selects the same
/// range and leaves the same state, except for the focus request; only the
/// variant without focus makes the find dialog forget its step.
pub proof fn lemma_highlight_variants_agree(s: EditorState, current: Option<(usize, usize)>)
    ensures
        highlight_step(s, current, true).1 == highlight_step(s, current, false).1,
        highlight_step(s, current, false).0 == s,
        highlight_step(s, current, true).0 == (EditorState {
            switch_to_editor: s.switch_to_editor || current is Some,
            ..s
        }),
        !highlight_step(s, current, true).2,
        highlight_step(s, current, false).2 == current is Some,
{
}

/// "Quit" closes the window whatever the state and whether or not the file
/// has unsaved changes, and changes nothing in the editor.
pub proof fn lemma_quit_always_quits(s: EditorState, unsaved: bool)
    ensures
        menu_step(s, MenuCommand::Quit, unsaved).1 == FrameAction::Quit,
        menu_step(s, MenuCommand::Quit, unsaved).0 == s,
{
}

/// Only "New" and "Open" look at unsaved changes: every other command does
/// the same with or without them.
pub proof fn lemma_only_new_and_open_depend_on_unsaved(s: EditorState, command: MenuCommand)
    requires
        command != MenuCommand::New,
        command != MenuCommand::Open,
    ensures
        menu_step(s, command, true) == menu_step(s, command, false),
{
}

/// "Save", "Save As", "Find" and "Find and Replace" only bring up their own
/// dialog: the text, messages and focus request are untouched and the
/// application has nothing to do.
pub proof fn lemma_dialog_commands_open_their_dialog(s: EditorState, unsaved: bool)
    ensures
        menu_step(s, MenuCommand::Save, unsaved) == (EditorState { popup: Popup::SaveFile, ..s }, FrameAction::Nothing),
        menu_step(s, MenuCommand::SaveAs, unsaved) == (EditorState { popup: Popup::SaveAs, ..s }, FrameAction::Nothing),
        menu_step(s, MenuCommand::Find, unsaved) == (EditorState { popup: Popup::Find, ..s }, FrameAction::Nothing),
        menu_step(s, MenuCommand::FindAndReplace, unsaved) == (EditorState { popup: Popup::FindAndReplace, ..s }, FrameAction::Nothing),
{
}

/// Without unsaved changes, "New" empties the text, reports the new file
/// and makes the application forget the file, leaving the dialog alone;
/// "Open" brings up the open dialog and touches nothing else.
pub proof fn lemma_new_and_open_when_saved(s: EditorState)
    ensures
        menu_step(s, MenuCommand::New, false).0.text.len() == 0,
        menu_step(s, MenuCommand::New, false).0.status_msg == Some(new_file_msg()),
        menu_step(s, MenuCommand::New, false).0.popup == s.popup,
        menu_step(s, MenuCommand::New, false).0.err_msg == s.err_msg,
        menu_step(s, MenuCommand::New, false).1 == FrameAction::ResetFileStatus,
        menu_step(s, MenuCommand::Open, false) == (EditorState { popup: Popup::OpenFile, ..s }, FrameAction::Nothing),
{
}

/// The file operation requested is exactly the one of the dialog that is up
/// (saving a never-saved file turns into "Save As"); with any other popup
/// nothing is requested. Requesting never changes the text or messages.
pub proof fn lemma_file_request_matches_dialog(s: EditorState, is_new: bool)
    ensures
        s.popup == Popup::SaveAs ==> file_request_step(s, is_new) == (s, Some(FileRequest::SaveAs)),
        s.popup == Popup::OpenFile ==> file_request_step(s, is_new) == (s, Some(FileRequest::Open)),
        s.popup == Popup::SaveFile && !is_new ==> file_request_step(s, is_new) == (s, Some(FileRequest::Save)),
        s.popup == Popup::SaveFile && is_new ==> file_request_step(s, is_new) == (
            EditorState { popup: Popup::SaveAs, ..s },
            Some(FileRequest::SaveAs),
        ),
        (file_request_step(s, is_new).1 is Some) == (s.popup == Popup::SaveAs || s.popup
            == Popup::OpenFile || s.popup == Popup::SaveFile),
        file_request_step(s, is_new).1 is None ==> file_request_step(s, is_new).0 == s,
        file_request_step(s, is_new).0.text == s.text,
        file_request_step(s, is_new).0.err_msg == s.err_msg,
        file_request_step(s, is_new).0.status_msg == s.status_msg,
{
}

/// In either "File Not Saved" dialog, "Save" leads to the save dialog and
/// "Save As" to the "Save As" dialog, changing nothing else; "Continue
/// without saving" from the dialog raised for "Open" brings up the open
/// dialog and keeps the text.
pub proof fn lemma_not_saved_buttons(s: EditorState)
    requires
        s.popup == Popup::FileNotSavedNew || s.popup == Popup::FileNotSavedOpen,
    ensures
        not_saved_step(s, NotSavedChoice::Save) == (EditorState { popup: Popup::SaveFile, ..s }, FrameAction::Nothing),
        not_saved_step(s, NotSavedChoice::SaveAs) == (EditorState { popup: Popup::SaveAs, ..s }, FrameAction::Nothing),
        s.popup == Popup::FileNotSavedOpen ==> {
            let (after, action) = not_saved_step(s, NotSavedChoice::ContinueWithoutSaving);
            &&& after.popup == Popup::OpenFile
            &&& after.text == s.text
            &&& after.status_msg == Some(continue_msg())
            &&& action == FrameAction::Nothing
        },
        s.popup == Popup::FileNotSavedNew ==> {
            let (after, action) = not_saved_step(s, NotSavedChoice::ContinueWithoutSaving);
            &&& after.popup == Popup::Closed
            &&& after.text.len() == 0
            &&& after.status_msg == Some(continue_msg())
            &&& action == FrameAction::ResetFileStatus
        },
{
}

/// Selecting a match selects exactly its range: from its start, as many
/// characters as the match is long; without a match nothing is selected.
pub proof fn lemma_selection_covers_match(s: EditorState, start: usize, len: usize, take_focus: bool)
    requires
        start + len <= usize::MAX,
    ensures
        highlight_step(s, Some((start, len)), take_focus).1 matches Some((from, to)) && from == start
            && to - from == len,
        highlight_step(s, None, take_focus).1 is None,
        highlight_step(s, None, take_focus).0 == s,
{
}

/// The status line after a file operation: "Save Successful" after a save
/// or a "Save As" that wrote the file, "Save Failed" after a failed save,
/// "Save Cancelled" and "Open Cancelled" after a cancelled dialog, "Open
/// Successful" after an open; a failed open or "Save As" keeps the status.
/// No outcome touches the focus request.
pub proof fn lemma_file_operation_status(
    s: EditorState,
    saved: Result<(), Seq<char>>,
    opened: Result<Option<Seq<char>>, Seq<char>>,
    saved_as: Result<bool, Seq<char>>,
)
    ensures
        s.popup == Popup::SaveFile ==> save_done(s, saved).status_msg == Some(
            if saved is Ok { save_ok_msg() } else { save_failed_msg() },
        ),
        s.popup == Popup::OpenFile ==> open_done(s, opened).status_msg == (match opened {
            Ok(Some(_)) => Some(open_ok_msg()),
            Ok(None) => Some(open_cancelled_msg()),
            Err(_) => s.status_msg,
        }),
        s.popup == Popup::SaveAs ==> save_as_done(s, saved_as).status_msg == (match saved_as {
            Ok(true) => Some(save_ok_msg()),
            Ok(false) => Some(save_cancelled_msg()),
            Err(_) => s.status_msg,
        }),
        save_done(s, saved).switch_to_editor == s.switch_to_editor,
        open_done(s, opened).switch_to_editor == s.switch_to_editor,
        save_as_done(s, saved_as).switch_to_editor == s.switch_to_editor,
{
}

/// The error dialog shows the recorded error, or "Unknown Error" when there
/// is none; closing it clears the error and the dialog and nothing else.
pub proof fn lemma_error_dialog(s: EditorState)
    ensures
        s.err_msg matches Some(e) ==> error_text_of(s) == e,
        s.err_msg is None ==> error_text_of(s) == unknown_error_msg(),
        close_error_step(s).popup == Popup::Closed,
        close_error_step(s).err_msg is None,
        close_error_step(s).text == s.text,
        close_error_step(s).status_msg == s.status_msg,
        close_error_step(s).switch_to_editor == s.switch_to_editor,
{
}

/// The title is the path, followed by a single `*` exactly when the file has
/// unsaved changes.
pub proof fn lemma_title_marks_unsaved(path: Seq<char>, unsaved: bool)
    ensures
        title_of(path, unsaved).len() == path.len() + (if unsaved { 1int } else { 0int }),
        title_of(path, unsaved).subrange(0, path.len() as int) == path,
        unsaved ==> title_of(path, unsaved).last() == '*',
{
    assert(title_of(path, unsaved).subrange(0, path.len() as int) =~= path);
}

/// Setting the window up empties the text, closes any dialog, forgets any
/// error and reports "code_share loaded", keeping the focus request; a
/// fresh editor is in that state with no focus request.
pub proof fn lemma_setup_fields(s: EditorState)
    ensures
        setup_state(s).text.len() == 0,
        setup_state(s).popup == Popup::Closed,
        setup_state(s).err_msg is None,
        setup_state(s).status_msg == Some(loaded_msg()),
        setup_state(s).switch_to_editor == s.switch_to_editor,
        initial_state().text.len() == 0,
        initial_state().popup == Popup::Closed,
        initial_state().err_msg is None,
        initial_state().status_msg == Some(loaded_msg()),
        !initial_state().switch_to_editor,
{
}

/// Setting the window up brings back the state of a fresh editor (apart
/// from a pending focus request), and doing it twice changes nothing more.
pub proof fn lemma_setup_restores_initial(s: EditorState)
    ensures
        setup_state(s) == (EditorState { switch_to_editor: s.switch_to_editor, ..initial_state() }),
        setup_state(setup_state(s)) == setup_state(s),
{
}

pub open spec fn unit_result_view(r: Result<(), String>) -> Result<(), Seq<char>> {
    match r {
        Ok(_) => Ok(()),
        Err(e) => Err(e@),
    }
}

pub open spec fn open_result_view(r: Result<Option<String>, String>) -> Result<
    Option<Seq<char>>,
    Seq<char>,
> {
    match r {
        Ok(Some(c)) => Ok(Some(c@)),
        Ok(None) => Ok(None),
        Err(e) => Err(e@),
    }
}

pub open spec fn bool_result_view(r: Result<bool, String>) -> Result<bool, Seq<char>> {
    match r {
        Ok(b) => Ok(b),
        Err(e) => Err(e@),
    }
}

impl Default for CodeShare {
    fn default() -> (editor: Self)
        ensures
            editor@ == initial_state(),
    {
        CodeShare {
            text_buf: String::new(),
            active_popup: Popup::Closed,
            err_msg: None,
            status_msg: Some("code_share loaded".to_owned()),
            switch_to_editor: false,
        }
    }
}

impl CodeShare {
    /// Resets the editor when its window is set up: empty text, no dialog,
    /// no error, and the "loaded" status message.
    pub fn setup(&mut self)
        ensures
            final(self)@ == setup_state(old(self)@),
    {
        self.text_buf = String::new();
        self.status_msg = Some("code_share loaded".to_owned());
        self.err_msg = None;
        self.active_popup = Popup::Closed;
    }

    /// Applies a menu command or keyboard shortcut. `unsaved` tells whether
    /// the current file has unsaved changes: then "New" and "Open" ask for
    /// confirmation instead of discarding them.
    pub fn menu_command(&mut self, command: MenuCommand, unsaved: bool) -> (action: FrameAction)
        ensures
            (final(self)@, action) == menu_step(old(self)@, command, unsaved),
    {
        match command {
            MenuCommand::New => {
                if unsaved {
                    self.active_popup = Popup::FileNotSavedNew;
                    FrameAction::Nothing
                } else {
                    self.text_buf = String::new();
                    self.status_msg = Some("New File Opened".to_owned());
                    FrameAction::ResetFileStatus
                }
            },
            MenuCommand::Open => {
                if unsaved {
                    self.active_popup = Popup::FileNotSavedOpen;
                } else {
                    self.active_popup = Popup::OpenFile;
                }
                FrameAction::Nothing
            },
            MenuCommand::Save => {
                self.active_popup = Popup::SaveFile;
                FrameAction::Nothing
            },
            MenuCommand::SaveAs => {
                self.active_popup = Popup::SaveAs;
                FrameAction::Nothing
            },
            MenuCommand::Quit => FrameAction::Quit,
            MenuCommand::Find => {
                self.active_popup = Popup::Find;
                FrameAction::Nothing
            },
            MenuCommand::FindAndReplace => {
                self.active_popup = Popup::FindAndReplace;
                FrameAction::Nothing
            },
        }
    }

    /// The file operation the current dialog asks for, if any. `is_new`
    /// tells whether the file has never been saved; saving such a file turns
    /// into "Save As".
    pub fn file_request(&mut self, is_new: bool) -> (request: Option<FileRequest>)
        ensures
            (final(self)@, request) == file_request_step(old(self)@, is_new),
    {
        match self.active_popup {
            Popup::SaveFile => {
                if is_new {
                    self.active_popup = Popup::SaveAs;
                    Some(FileRequest::SaveAs)
                } else {
                    Some(FileRequest::Save)
                }
            },
            Popup::OpenFile => Some(FileRequest::Open),
            Popup::SaveAs => Some(FileRequest::SaveAs),
            _ => None,
        }
    }

    /// Records how saving to the current path ended (only while the save
    /// dialog is up).
    pub fn save_finished(&mut self, result: Result<(), String>)
        ensures
            final(self)@ == save_done(old(self)@, unit_result_view(result)),
    {
        if self.active_popup != Popup::SaveFile {
            return;
        }
        match result {
            Ok(_) => {
                self.active_popup = Popup::Closed;
                self.status_msg = Some("Save Successful".to_owned());
            },
            Err(e) => {
                let mut error = "Save failed: ".to_owned();
                error.append(e.as_str());
                self.err_msg = Some(error);
                self.active_popup = Popup::Error;
                self.status_msg = Some("Save Failed".to_owned());
            },
        }
    }

    /// Records how the open dialog ended: the chosen file's contents replace
    /// the text, a cancel leaves it alone, an error is shown (only while the
    /// open dialog is up).
    pub fn open_finished(&mut self, result: Result<Option<String>, String>)
        ensures
            final(self)@ == open_done(old(self)@, open_result_view(result)),
    {
        if self.active_popup != Popup::OpenFile {
            return;
        }
        match result {
            Ok(Some(contents)) => {
                self.text_buf = contents;
                self.active_popup = Popup::Closed;
                self.status_msg = Some("Open Successful".to_owned());
            },
            Ok(None) => {
                self.active_popup = Popup::Closed;
                self.status_msg = Some("Open Cancelled".to_owned());
            },
            Err(e) => {
                self.err_msg = Some(e);
                self.active_popup = Popup::Error;
            },
        }
    }

    /// Records how the "Save As" dialog ended (`Ok(true)`: written,
    /// `Ok(false)`: cancelled; only while that dialog is up).
    pub fn save_as_finished(&mut self, result: Result<bool, String>)
        ensures
            final(self)@ == save_as_done(old(self)@, bool_result_view(result)),
    {
        if self.active_popup != Popup::SaveAs {
            return;
        }
        match result {
            Ok(saved) => {
                self.active_popup = Popup::Closed;
                if saved {
                    self.status_msg = Some("Save Successful".to_owned());
                } else {
                    self.status_msg = Some("Save Cancelled".to_owned());
                }
            },
            Err(e) => {
                self.err_msg = Some(e);
                self.active_popup = Popup::Error;
            },
        }
    }

    /// A click in the "File Not Saved" dialog.
    pub fn not_saved_choice(&mut self, choice: NotSavedChoice) -> (action: FrameAction)
        ensures
            (final(self)@, action) == not_saved_step(old(self)@, choice),
    {
        let for_new = self.active_popup == Popup::FileNotSavedNew;
        let for_open = self.active_popup == Popup::FileNotSavedOpen;
        if !for_new && !for_open {
            return FrameAction::Nothing;
        }
        match choice {
            NotSavedChoice::Save => {
                self.active_popup = Popup::SaveFile;
                FrameAction::Nothing
            },
            NotSavedChoice::SaveAs => {
                self.active_popup = Popup::SaveAs;
                FrameAction::Nothing
            },
            NotSavedChoice::ContinueWithoutSaving => {
                self.status_msg = Some("Cont. w/o saving".to_owned());
                if for_new {
                    self.text_buf = String::new();
                    self.active_popup = Popup::Closed;
                    FrameAction::ResetFileStatus
                } else {
                    self.active_popup = Popup::OpenFile;
                    FrameAction::Nothing
                }
            },
        }
    }

    /// Closes the find dialog (the application also clears its matches).
    pub fn close_find(&mut self)
        ensures
            final(self)@ == (EditorState { popup: Popup::Closed, ..old(self)@ }),
    {
        self.active_popup = Popup::Closed;
    }

    /// Closes the error dialog and forgets the error.
    pub fn close_error(&mut self)
        ensures
            final(self)@ == close_error_step(old(self)@),
    {
        self.active_popup = Popup::Closed;
        self.err_msg = None;
    }

    /// The text the error dialog shows.
    pub fn error_text(&self) -> (text: String)
        ensures
            text@ == error_text_of(self@),
    {
        match &self.err_msg {
            Some(msg) => msg.clone(),
            None => "Unknown Error".to_owned(),
        }
    }

    /// The status message of the information bar (empty when there is none).
    pub fn status_text(&self) -> (text: String)
        ensures
            text@ == (match self@.status_msg {
                Some(m) => m,
                None => Seq::empty(),
            }),
    {
        match &self.status_msg {
            Some(msg) => msg.clone(),
            None => String::new(),
        }
    }

    /// Selects the current search match `current` (its start and length)
    /// in the text area; with `take_focus` the text area also takes the
    /// keyboard focus on the next frame. Returns the selection and whether
    /// the find dialog must forget that a match was already stepped to.
    /// Without a current match nothing changes.
    pub fn highlight_match(&mut self, current: Option<(usize, usize)>, take_focus: bool) -> (result: (Option<(usize, usize)>, bool))
        requires
            current matches Some((start, len)) ==> start + len <= usize::MAX,
        ensures
            (final(self)@, result.0, result.1) == highlight_step(old(self)@, current, take_focus),
    {
        match current {
            Some((start, len)) => {
                if take_focus {
                    self.switch_to_editor = true;
                }
                (Some((start, start + len)), !take_focus)
            },
            None => (None, false),
        }
    }

    /// Whether the text area should grab the keyboard focus now; the
    /// request is consumed.
    pub fn take_focus_request(&mut self) -> (focus: bool)
        ensures
            focus == old(self)@.switch_to_editor,
            final(self)@ == (EditorState { switch_to_editor: false, ..old(self)@ }),
    {
        let focus = self.switch_to_editor;
        self.switch_to_editor = false;
        focus
    }

    /// The line-number column shown beside the text.
    pub fn line_numbers(&self) -> (column: String)
        ensures
            column@ == line_number_column(line_count_of(self@.text)),
    {
        get_line_num_str(line_count(self.text_buf.as_str()))
    }

    /// The matches the find dialog keeps after its query box was edited
    /// (`changed`) or holds `query`: a changed, non-empty query is searched
    /// afresh in the text; an empty query clears the matches; otherwise the
    /// matches stay as they are (`None`).
    pub fn refresh_matches(&self, query: &str, changed: bool) -> (matches: Option<Vec<usize>>)
        ensures
            query@.len() == 0 ==> (matches matches Some(v) && v@.len() == 0),
            query@.len() > 0 && changed ==> (matches matches Some(v) && v@ == match_positions(
                encode_utf8(self@.text),
                encode_utf8(query@),
                0,
            )),
            query@.len() > 0 && !changed ==> matches is None,
    {
        if query.is_empty() {
            Some(Vec::new())
        } else if changed {
            Some(search_matches(self.text_buf.as_str(), query))
        } else {
            None
        }
    }
}

/// A click on "Previous" or "Next" in the find dialog, given how many
/// matches there are and whether a match was already stepped to. Returns
/// whether to move the selection one match along, and whether to select
/// the current match.
pub fn match_navigation(clicked: bool, match_count: usize, initial_click_made: bool) -> (nav: (bool, bool))
    ensures
        nav.1 == (clicked && match_count != 0),
        nav.0 == (nav.1 && initial_click_made),
{
    let highlight = clicked && match_count != 0;
    (highlight && initial_click_made, highlight)
}

/// The information bar's title for the file at `path`.
pub fn title_line(path: &str, unsaved: bool) -> (title: String)
    ensures
        title@ == title_of(path@, unsaved),
{
    let mut title = path.to_owned();
    if unsaved {
        push_char(&mut title, '*');
    }
    title
}

} // verus!
