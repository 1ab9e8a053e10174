//! What holds of the editor whatever keys it is given.

use crate::editor::dispatch::{
    after_quits,
    command_of,
    lemma_only_plain_q_quits,
    lemma_unsaved_quit_takes_every_press,
    Action,
    Command,
    EditorState,
};
use crate::editor::EditorModel;
use crate::error::EditorError;
use crate::reader::{InputEvent, KeyCode, KeyEvent, Modifier, Modifiers};
use vstd::prelude::*;

verus! {

/// The key that quits.
pub open spec fn quit_key() -> KeyEvent {
    KeyEvent::Char('q', Modifier::Plain)
}

/// The editor after the quit key was pressed `presses` times in a row.
pub open spec fn press_quit(m: EditorModel, presses: nat, now: int) -> EditorModel
    decreases presses,
{
    if presses == 0 {
        m
    } else {
        press_quit(m, (presses - 1) as nat, now).step(quit_key(), now)
    }
}

/// After any key the cursor is in range and the window shows it.
pub proof fn lemma_step_keeps_cursor_visible(m: EditorModel, key: KeyEvent, now: int)
    requires
        m.config.wf(),
    ensures
        m.step(key, now).config.wf(),
{
}

/// Pressing the quit key touches neither the document nor the settings,
/// and moves the state as the quit command does.
proof fn lemma_press_quit(m: EditorModel, presses: nat, now: int)
    requires
        m.state != EditorState::Terminated,
    ensures
        press_quit(m, presses, now).config.buffer == m.config.buffer,
        press_quit(m, presses, now).config.quit_times == m.config.quit_times,
        press_quit(m, presses, now).state == after_quits(
            m.state,
            m.config.buffer.dirty > 0,
            m.config.quit_times,
            presses,
        ),
    decreases presses,
{
    if presses > 0 {
        lemma_press_quit(m, (presses - 1) as nat, now);
    }
}

/// A running editor with unsaved changes quits at the press of the quit key
/// that follows `quit_times` presses, and not before; the presses leave the
/// document as it is.
pub proof fn lemma_quit_over_unsaved_changes(m: EditorModel, presses: nat, now: int)
    requires
        m.state == EditorState::Running,
        m.config.buffer.dirty > 0,
        presses <= m.config.quit_times + 1,
    ensures
        press_quit(m, presses, now).config.buffer == m.config.buffer,
        presses <= m.config.quit_times ==> press_quit(m, presses, now).state
            != EditorState::Terminated,
        presses == m.config.quit_times + 1 ==> press_quit(m, presses, now).state
            == EditorState::Terminated,
{
    lemma_press_quit(m, presses, now);
    lemma_unsaved_quit_takes_every_press(m.config.quit_times, presses);
}

/// Any other key between two presses of the quit key takes the editor back
/// to running: the presses before it no longer count.
pub proof fn lemma_other_key_resets_quit(m: EditorModel, key: KeyEvent, now: int)
    requires
        m.state != EditorState::Terminated,
        command_of(key) != Command::Quit,
    ensures
        m.step(key, now).state == EditorState::Running,
{
}

/// A running editor without unsaved changes quits at the first press.
pub proof fn lemma_quit_without_changes(m: EditorModel, now: int)
    requires
        m.state == EditorState::Running,
        m.config.buffer.dirty == 0,
    ensures
        m.step(quit_key(), now).state == EditorState::Terminated,
{
}

/// A running editor without unsaved changes is told to quit by one input
/// only: the key `q` with no modifier key held. Every other key press, with
/// whatever modifiers, leaves it running.
pub proof fn lemma_run_quits_only_on_plain_q(
    m: EditorModel,
    code: KeyCode,
    modifiers: Modifiers,
    now: int,
)
    requires
        m.state == EditorState::Running,
        m.config.buffer.dirty == 0,
    ensures
        ({
            let input = Ok::<Option<InputEvent>, EditorError>(
                Some(InputEvent::Key { code, modifiers }),
            );
            let plain_q = code == KeyCode::Char('q') && modifiers.none();
            &&& m.outcome(input) == Ok::<Action, EditorError>(Action::Quit) <==> plain_q
            &&& m.feed(input, now).state == EditorState::Terminated <==> plain_q
            &&& !plain_q ==> m.feed(input, now).state == EditorState::Running
            &&& m.feed(input, now).mode == m.mode
        }),
{
    lemma_only_plain_q_quits(code, modifiers);
}

/// An editor that has quit stays as it is, whatever key comes.
pub proof fn lemma_terminated_is_final(m: EditorModel, key: KeyEvent, now: int)
    requires
        m.state == EditorState::Terminated,
    ensures
        m.step(key, now) == m,
{
}

} // verus!
