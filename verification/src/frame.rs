use vstd::prelude::*;
use crate::editor::{
    close_error_step, file_request_step, highlight_step, menu_step, not_saved_step, open_done,
    save_as_done, save_done, EditorState, FileRequest, FrameAction, MenuCommand, NotSavedChoice,
    Popup,
};

verus! {

/// What happens during one frame of the editor window, in the order the
/// window handles it.
pub struct FrameInput {
    /// Menu clicks, each with whether the file had unsaved changes when it
    /// was handled.
    pub menu: Seq<(MenuCommand, bool)>,
    /// Whether the file had never been saved when the file dialogs ran.
    pub is_new: bool,
    /// How a save to the current path would end.
    pub saved: Result<(), Seq<char>>,
    /// How the open dialog would end.
    pub opened: Result<Option<Seq<char>>, Seq<char>>,
    /// How the "Save As" dialog would end.
    pub saved_as: Result<bool, Seq<char>>,
    /// The button clicked in the "File Not Saved" dialog, if any.
    pub dialog_choice: Option<NotSavedChoice>,
    /// Match selections requested in the find dialog: the finder's current
    /// match and whether the text area should take the focus.
    pub highlights: Seq<(Option<(usize, usize)>, bool)>,
    /// Whether "Close" was clicked in the find dialog.
    pub find_closed: bool,
    /// Whether "Close" was clicked in the error dialog.
    pub error_closed: bool,
    /// Keyboard shortcuts, each with whether the file had unsaved changes
    /// when it was handled.
    pub shortcuts: Seq<(MenuCommand, bool)>,
    /// The text after the user's own edits in the text area, if any.
    pub edited_text: Option<Seq<char>>,
}

/// The result of a frame: the new state, the actions for the application
/// in order, and whether the text area takes the keyboard focus.
pub struct FrameOutcome {
    pub state: EditorState,
    pub actions: Seq<FrameAction>,
    pub focus: bool,
}

/// A run of menu commands or shortcuts, each with its unsaved flag.
pub open spec fn menu_steps(s: EditorState, commands: Seq<(MenuCommand, bool)>) -> (
    EditorState,
    Seq<FrameAction>,
)
    decreases commands.len(),
{
    if commands.len() == 0 {
        (s, Seq::empty())
    } else {
        let (before, actions) = menu_steps(s, commands.drop_last());
        let (after, action) = menu_step(before, commands.last().0, commands.last().1);
        (after, actions.push(action))
    }
}

/// The file dialogs: run the operation the current popup asks for and take
/// its outcome.
pub open spec fn file_phase(
    s: EditorState,
    is_new: bool,
    saved: Result<(), Seq<char>>,
    opened: Result<Option<Seq<char>>, Seq<char>>,
    saved_as: Result<bool, Seq<char>>,
) -> EditorState {
    let (requested, request) = file_request_step(s, is_new);
    match request {
        Some(FileRequest::Save) => save_done(requested, saved),
        Some(FileRequest::Open) => open_done(requested, opened),
        Some(FileRequest::SaveAs) => save_as_done(requested, saved_as),
        None => requested,
    }
}

/// A run of match selections.
pub open spec fn highlight_steps(s: EditorState, highlights: Seq<(Option<(usize, usize)>, bool)>) -> EditorState
    decreases highlights.len(),
{
    if highlights.len() == 0 {
        s
    } else {
        highlight_step(
            highlight_steps(s, highlights.drop_last()),
            highlights.last().0,
            highlights.last().1,
        ).0
    }
}

/// The find dialog, shown only while its popup is up.
pub open spec fn find_phase(
    s: EditorState,
    highlights: Seq<(Option<(usize, usize)>, bool)>,
    closed: bool,
) -> EditorState {
    if s.popup == Popup::Find {
        let selected = highlight_steps(s, highlights);
        if closed {
            EditorState { popup: Popup::Closed, ..selected }
        } else {
            selected
        }
    } else {
        s
    }
}

pub open spec fn after_menu(s: EditorState, input: FrameInput) -> EditorState {
    menu_steps(s, input.menu).0
}

pub open spec fn after_files(s: EditorState, input: FrameInput) -> EditorState {
    file_phase(after_menu(s, input), input.is_new, input.saved, input.opened, input.saved_as)
}

pub open spec fn after_dialog(s: EditorState, input: FrameInput) -> EditorState {
    match input.dialog_choice {
        Some(choice) => not_saved_step(after_files(s, input), choice).0,
        None => after_files(s, input),
    }
}

pub open spec fn after_find(s: EditorState, input: FrameInput) -> EditorState {
    find_phase(after_dialog(s, input), input.highlights, input.find_closed)
}

pub open spec fn after_error(s: EditorState, input: FrameInput) -> EditorState {
    let before = after_find(s, input);
    if before.popup == Popup::Error && input.error_closed {
        close_error_step(before)
    } else {
        before
    }
}

pub open spec fn after_shortcuts(s: EditorState, input: FrameInput) -> EditorState {
    menu_steps(after_error(s, input), input.shortcuts).0
}

pub open spec fn after_edit(s: EditorState, input: FrameInput) -> EditorState {
    match input.edited_text {
        Some(text) => EditorState { text, ..after_shortcuts(s, input) },
        None => after_shortcuts(s, input),
    }
}

/// A model of one frame, in the order the window handles it: menu, file
/// dialogs, "File Not Saved" dialog, find dialog, error dialog, shortcuts,
/// the user's edits, and finally the pending focus request, which the text
/// area consumes.
pub open spec fn frame(s: EditorState, input: FrameInput) -> FrameOutcome {
    let dialog_actions = match input.dialog_choice {
        Some(choice) => seq![not_saved_step(after_files(s, input), choice).1],
        None => Seq::empty(),
    };
    FrameOutcome {
        state: EditorState { switch_to_editor: false, ..after_edit(s, input) },
        actions: menu_steps(s, input.menu).1 + dialog_actions + menu_steps(
            after_error(s, input),
            input.shortcuts,
        ).1,
        focus: after_edit(s, input).switch_to_editor,
    }
}

/// Every "New" of the run was handled while the file had unsaved changes.
pub open spec fn new_confirmed(commands: Seq<(MenuCommand, bool)>) -> bool {
    forall|i: int| 0 <= i < commands.len() && (#[trigger] commands[i]).0 == MenuCommand::New
        ==> commands[i].1
}

/// Every "New" and every "Open" of the run was handled while the file had
/// unsaved changes.
pub open spec fn new_and_open_confirmed(commands: Seq<(MenuCommand, bool)>) -> bool {
    forall|i: int|
        0 <= i < commands.len() && ((#[trigger] commands[i]).0 == MenuCommand::New
            || commands[i].0 == MenuCommand::Open) ==> commands[i].1
}

/// A run of commands in which no "New" meets a file without unsaved
/// changes keeps the text and the focus request and never forgets the
/// file; if moreover no "Open" meets such a file, it never brings up the
/// open dialog.
pub proof fn lemma_menu_steps_keep_text(s: EditorState, commands: Seq<(MenuCommand, bool)>)
    requires
        new_confirmed(commands),
    ensures
        menu_steps(s, commands).0.text == s.text,
        menu_steps(s, commands).0.switch_to_editor == s.switch_to_editor,
        new_and_open_confirmed(commands) ==> (menu_steps(s, commands).0.popup == Popup::OpenFile
            ==> s.popup == Popup::OpenFile),
        !menu_steps(s, commands).1.contains(FrameAction::ResetFileStatus),
    decreases commands.len(),
{
    if commands.len() > 0 {
        let rest = commands.drop_last();
        let last = commands.last();
        assert(last == commands[commands.len() - 1]);
        assert(new_confirmed(rest)) by {
            assert forall|i: int|
                0 <= i < rest.len() && (#[trigger] rest[i]).0 == MenuCommand::New implies rest[i].1 by {
                assert(rest[i] == commands[i]);
            }
        }
        if new_and_open_confirmed(commands) {
            assert(new_and_open_confirmed(rest)) by {
                assert forall|i: int|
                    0 <= i < rest.len() && ((#[trigger] rest[i]).0 == MenuCommand::New || rest[i].0
                        == MenuCommand::Open) implies rest[i].1 by {
                    assert(rest[i] == commands[i]);
                }
            }
        }
        lemma_menu_steps_keep_text(s, rest);
        let (before, actions) = menu_steps(s, rest);
        let (after, action) = menu_step(before, last.0, last.1);
        assert(menu_steps(s, commands).1 == actions.push(action));
        assert(action != FrameAction::ResetFileStatus);
        assert(!actions.push(action).contains(FrameAction::ResetFileStatus)) by {
            if actions.push(action).contains(FrameAction::ResetFileStatus) {
                let k = choose|k: int|
                    0 <= k < actions.push(action).len() && actions.push(action)[k]
                        == FrameAction::ResetFileStatus;
                if k < actions.len() {
                    assert(actions[k] == FrameAction::ResetFileStatus);
                }
            }
        }
    }
}

/// Any run of commands keeps the focus request.
pub proof fn lemma_menu_steps_keep_focus(s: EditorState, commands: Seq<(MenuCommand, bool)>)
    ensures
        menu_steps(s, commands).0.switch_to_editor == s.switch_to_editor,
    decreases commands.len(),
{
    if commands.len() > 0 {
        lemma_menu_steps_keep_focus(s, commands.drop_last());
    }
}

/// Match selections change nothing but the focus request, which they raise
/// exactly when one of them selects a match and takes the focus.
pub proof fn lemma_highlight_steps(s: EditorState, highlights: Seq<(Option<(usize, usize)>, bool)>)
    ensures
        highlight_steps(s, highlights) == (EditorState {
            switch_to_editor: highlight_steps(s, highlights).switch_to_editor,
            ..s
        }),
        highlight_steps(s, highlights).switch_to_editor == (s.switch_to_editor || exists|i: int|
            0 <= i < highlights.len() && (#[trigger] highlights[i]).1 && highlights[i].0 is Some),
    decreases highlights.len(),
{
    if highlights.len() > 0 {
        let rest = highlights.drop_last();
        lemma_highlight_steps(s, rest);
        let last = highlights.last();
        if last.1 && last.0 is Some {
            assert(highlights[highlights.len() - 1] == last);
        }
        if exists|i: int| 0 <= i < rest.len() && (#[trigger] rest[i]).1 && rest[i].0 is Some {
            let i = choose|i: int| 0 <= i < rest.len() && (#[trigger] rest[i]).1 && rest[i].0 is Some;
            assert(highlights[i] == rest[i]);
        }
        if exists|i: int|
            0 <= i < highlights.len() && (#[trigger] highlights[i]).1 && highlights[i].0 is Some {
            let i = choose|i: int|
                0 <= i < highlights.len() && (#[trigger] highlights[i]).1 && highlights[i].0 is Some;
            if i < rest.len() {
                assert(rest[i] == highlights[i]);
            }
        }
    }
}

/// While the file has unsaved changes when the frame's menu clicks are
/// handled (every "New" and "Open" click meets unsaved changes), and no
/// "New" shortcut later in the frame meets a file without them (as it may
/// after a save in the same frame), the text is replaced only by the user's
/// own edits, by "Continue without saving" in the dialog raised for "New"
/// (which empties it), or by the contents of a file opened from the open
/// dialog that was already up when the frame began.
pub proof fn lemma_frame_keeps_unsaved_text(s: EditorState, input: FrameInput)
    requires
        new_and_open_confirmed(input.menu),
        new_confirmed(input.shortcuts),
    ensures
        input.edited_text matches Some(t) ==> frame(s, input).state.text == t,
        input.edited_text is None ==> {
            ||| frame(s, input).state.text == s.text
            ||| (s.popup == Popup::OpenFile && (input.opened matches Ok(Some(contents))
                && frame(s, input).state.text == contents))
            ||| (after_files(s, input).popup == Popup::FileNotSavedNew && input.dialog_choice
                == Some(NotSavedChoice::ContinueWithoutSaving) && frame(s, input).state.text
                == Seq::<char>::empty())
        },
        !frame(s, input).actions.contains(FrameAction::ResetFileStatus) || (after_files(s, input).popup
            == Popup::FileNotSavedNew && input.dialog_choice
            == Some(NotSavedChoice::ContinueWithoutSaving)),
{
    assert(new_confirmed(input.menu));
    lemma_menu_steps_keep_text(s, input.menu);
    let f = after_files(s, input);
    let d = after_dialog(s, input);
    lemma_highlight_steps(d, input.highlights);
    let e = after_error(s, input);
    lemma_menu_steps_keep_text(e, input.shortcuts);
    assert(e.text == d.text);
    let dialog_actions = match input.dialog_choice {
        Some(choice) => seq![not_saved_step(f, choice).1],
        None => Seq::<FrameAction>::empty(),
    };
    let a1 = menu_steps(s, input.menu).1;
    let a6 = menu_steps(e, input.shortcuts).1;
    if frame(s, input).actions.contains(FrameAction::ResetFileStatus) {
        let all = a1 + dialog_actions + a6;
        let k = choose|k: int| 0 <= k < all.len() && all[k] == FrameAction::ResetFileStatus;
        if k < a1.len() {
            assert(a1[k] == FrameAction::ResetFileStatus);
            assert(a1.contains(FrameAction::ResetFileStatus));
        } else if k >= a1.len() + dialog_actions.len() {
            assert(a6[k - a1.len() - dialog_actions.len()] == FrameAction::ResetFileStatus);
            assert(a6.contains(FrameAction::ResetFileStatus));
        } else {
            assert(dialog_actions[k - a1.len()] == FrameAction::ResetFileStatus);
        }
    }
}

/// Every frame ends with no pending focus request; the text area takes the
/// focus exactly when a request was pending at the start of the frame or a
/// match was selected with the focus in the find dialog during the frame.
pub proof fn lemma_frame_consumes_focus(s: EditorState, input: FrameInput)
    ensures
        !frame(s, input).state.switch_to_editor,
        frame(s, input).focus == (s.switch_to_editor || (after_dialog(s, input).popup == Popup::Find
            && exists|i: int|
            0 <= i < input.highlights.len() && (#[trigger] input.highlights[i]).1
                && input.highlights[i].0 is Some)),
{
    lemma_menu_steps_keep_focus(s, input.menu);
    let d = after_dialog(s, input);
    assert(d.switch_to_editor == s.switch_to_editor);
    lemma_highlight_steps(d, input.highlights);
    let e = after_error(s, input);
    lemma_menu_steps_keep_focus(e, input.shortcuts);
}

} // verus!
