//! The interactive panels: two selection lists and the command line, each
//! turning a key press into an `Action`.
use vstd::prelude::*;
use vstd::string::*;
use crate::action::{Action, Mode};
use crate::command::{parse_command, parse_outcome, Command};
use crate::key::Key;
use crate::receive_text::ReceiveTextState;
use crate::selectable_list::{next_selection, prev_selection, SelectableListState};
use crate::text_input::TextInputState;

verus! {

/// What a list's items are: the action its confirm key produces depends on it.
#[derive(Debug, Clone, Copy, PartialEq, Eq, Structural)]
pub enum ListKind {
    PortSelection,
    RateSelection,
}

/// The action that confirming `label` in a list of `kind` produces.
pub open spec fn is_selection_action(kind: ListKind, r: Action, label: Seq<char>) -> bool {
    match kind {
        ListKind::PortSelection => match r {
            Action::SelectPort(p) => p@ == label,
            _ => false,
        },
        ListKind::RateSelection => match r {
            Action::SelectRate(v) => v@ == label,
            _ => false,
        },
    }
}

/// The action a command stands for.
pub open spec fn command_action(c: Command) -> Action {
    match c {
        Command::ModeToUartChoice => Action::SwitchMode(Mode::UartChoice),
        Command::ModeToRateChoice => Action::SwitchMode(Mode::RateChoice),
        Command::Open => Action::Open,
        Command::Quit => Action::Quit,
    }
}

/// The action for a command line confirmed with Enter: the command's
/// action, or the parse error (an empty line is an empty command).
pub open spec fn is_line_action(line: Seq<char>, r: Action) -> bool {
    match parse_outcome(line) {
        Ok(c) => r == command_action(c),
        Err(m) => match r {
            Action::Error(e) => e@ == m,
            _ => false,
        },
    }
}

/// The command text that `key` hands out of the editor `pre`: its text on
/// Enter, nothing otherwise.
pub open spec fn submitted_line(pre: &TextInputState, key: Key) -> Seq<char> {
    if key is Enter {
        pre.text()
    } else {
        seq![]
    }
}

/// A titled selection list panel.
#[derive(Debug)]
pub struct ListComponent {
    state: SelectableListState,
    title: String,
    kind: ListKind,
}

impl ListComponent {
    pub closed spec fn list(&self) -> SelectableListState {
        self.state
    }

    pub closed spec fn list_kind(&self) -> ListKind {
        self.kind
    }

    pub closed spec fn title_text(&self) -> Seq<char> {
        self.title@
    }

    pub fn new(title: String, items: Vec<String>, kind: ListKind) -> (r: Self)
        ensures
            r.title_text() == title@,
            r.list_kind() == kind,
            r.list().entries() == items@,
            r.list().selection() == (if items@.len() > 0 {
                Some(0usize)
            } else {
                None
            }),
            !r.list().focused(),
    {
        ListComponent { state: SelectableListState::new(items), title, kind }
    }

    pub fn state(&self) -> (r: &SelectableListState)
        ensures
            *r == self.list(),
    {
        &self.state
    }

    /// Replaces the items; the selection stays as it was.
    pub fn update_items(&mut self, items: Vec<String>)
        ensures
            final(self).list_kind() == old(self).list_kind(),
            final(self).title_text() == old(self).title_text(),
            final(self).list().entries() == items@,
            final(self).list().selection() == old(self).list().selection(),
            final(self).list().focused() == old(self).list().focused(),
    {
        self.state.update_items(items);
    }

    pub fn set_focus(&mut self, focus: bool)
        ensures
            final(self).list_kind() == old(self).list_kind(),
            final(self).title_text() == old(self).title_text(),
            final(self).list().entries() == old(self).list().entries(),
            final(self).list().selection() == old(self).list().selection(),
            final(self).list().focused() == focus,
    {
        self.state.set_focus(focus);
    }

    pub fn title(&self) -> (r: &str)
        ensures
            r@ == self.title_text(),
    {
        self.title.as_str()
    }

    pub fn kind(&self) -> (r: ListKind)
        ensures
            r == self.list_kind(),
    {
        self.kind
    }

    /// What one key does to a list panel: `post` is the panel after `key`
    /// was pressed in `pre`, and `r` the action it produced.
    pub open spec fn key_step(pre: &Self, key: Key, post: &Self, r: Action) -> bool {
        &&& post.list_kind() == pre.list_kind()
        &&& post.title_text() == pre.title_text()
        &&& post.list().entries() == pre.list().entries()
        &&& post.list().focused() == pre.list().focused()
        &&& post.list().selection() == match key {
            Key::Down => next_selection(pre.list().selection(), pre.list().entries().len()),
            Key::Up => prev_selection(pre.list().selection(), pre.list().entries().len()),
            _ => pre.list().selection(),
        }
        &&& if key == Key::Enter && pre.list().selected_entry() is Some {
            is_selection_action(pre.list_kind(), r, pre.list().selected_entry()->0@)
        } else {
            r is Nothing
        }
    }

    /// Down and Up move the selection; Enter on a selected item produces the
    /// list's selection action; every other key does nothing.
    pub fn handle_key_events(&mut self, key: Key) -> (r: Action)
        ensures
            Self::key_step(old(self), key, final(self), r),
    {
        match key {
            Key::Down => self.state.next(),
            Key::Up => self.state.previous(),
            Key::Enter => {
                if let Some(item) = self.state.selected_item() {
                    let label = String::from_str(item);
                    return match self.kind {
                        ListKind::PortSelection => Action::SelectPort(label),
                        ListKind::RateSelection => Action::SelectRate(label),
                    };
                }
            },
            _ => {},
        }
        Action::Nothing
    }
}

/// The command line panel.
#[derive(Debug)]
pub struct CommandInputComponent {
    state: TextInputState,
}

impl CommandInputComponent {
    pub closed spec fn editor(&self) -> TextInputState {
        self.state
    }

    pub open spec fn wf(&self) -> bool {
        self.editor().wf()
    }

    pub fn new() -> (r: Self)
        ensures
            r.wf(),
            r.editor().text().len() == 0,
            r.editor().cursor_pos() == 0,
            !r.editor().focused(),
    {
        CommandInputComponent { state: TextInputState::new() }
    }

    pub fn state(&self) -> (r: &TextInputState)
        ensures
            *r == self.editor(),
    {
        &self.state
    }

    pub fn set_focus(&mut self, focus: bool)
        ensures
            final(self).editor().text() == old(self).editor().text(),
            final(self).editor().cursor_pos() == old(self).editor().cursor_pos(),
            final(self).editor().focused() == focus,
    {
        self.state.set_focus(focus);
    }

    /// What one key does to the command line panel: the editor takes the
    /// key, and the line it hands out becomes the action `r`.
    pub open spec fn key_step(pre: &Self, key: Key, post: &Self, r: Action) -> bool {
        &&& TextInputState::key_step(
            &pre.editor(),
            key,
            &post.editor(),
            submitted_line(&pre.editor(), key),
        )
        &&& if key is Enter {
            is_line_action(pre.editor().text(), r)
        } else {
            r is Nothing
        }
    }

    /// Edits the line; on Enter, the submitted line, empty or not, is parsed
    /// into the action of its command or an error action.
    pub fn handle_key_events(&mut self, key: Key) -> (r: Action)
        requires
            old(self).wf(),
            key is Char ==> old(self).editor().text().len() < usize::MAX,
        ensures
            final(self).wf(),
            Self::key_step(old(self), key, final(self), r),
    {
        let line = self.state.handle_key(key);
        if key == Key::Enter {
            match parse_command(line.as_str()) {
                Ok(Command::ModeToUartChoice) => Action::SwitchMode(Mode::UartChoice),
                Ok(Command::ModeToRateChoice) => Action::SwitchMode(Mode::RateChoice),
                Ok(Command::Open) => Action::Open,
                Ok(Command::Quit) => Action::Quit,
                Err(e) => Action::Error(e),
            }
        } else {
            Action::Nothing
        }
    }
}

/// The receive pane: it takes no keys.
#[derive(Debug)]
pub struct ReceiveComponent {
    state: ReceiveTextState,
}

impl ReceiveComponent {
    pub closed spec fn pane(&self) -> ReceiveTextState {
        self.state
    }

    pub fn state(&self) -> (r: &ReceiveTextState)
        ensures
            *r == self.pane(),
    {
        &self.state
    }

    pub fn new() -> (r: Self)
        ensures
            r.pane().text().len() == 0,
            r.pane().scroll_offset() == 0,
    {
        ReceiveComponent { state: ReceiveTextState::new() }
    }

    pub fn handle_key_events(&mut self, key: Key) -> (r: Action)
        ensures
            r is Nothing,
            final(self).pane() == old(self).pane(),
    {
        Action::Nothing
    }
}

} // verus!
