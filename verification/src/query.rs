//! The query screen's state machine: which tab is edited, which mode the
//! screen is in, and what each key does. The terminal drawing and the text
//! editing widgets live outside; they only apply the decisions made here.

use vstd::prelude::*;

verus! {

/// The two command buffers a user can edit before a run.
#[allow(non_camel_case_types)]
#[derive(Clone, Copy, PartialEq, Eq, Structural, Debug)]
pub enum QueryEditTab {
    /// The optional setup commands.
    SETUP,
    /// The main watched commands.
    MAIN,
}

impl QueryEditTab {
    /// The previous tab; the first tab stays where it is.
    pub fn previous(self) -> (r: Self)
        ensures
            r == (match self {
                QueryEditTab::SETUP => QueryEditTab::SETUP,
                QueryEditTab::MAIN => QueryEditTab::SETUP,
            }),
    {
        match self {
            QueryEditTab::SETUP => QueryEditTab::SETUP,
            QueryEditTab::MAIN => QueryEditTab::SETUP,
        }
    }

    /// The next tab; the last tab stays where it is.
    pub fn next(self) -> (r: Self)
        ensures
            r == (match self {
                QueryEditTab::SETUP => QueryEditTab::MAIN,
                QueryEditTab::MAIN => QueryEditTab::MAIN,
            }),
    {
        match self {
            QueryEditTab::SETUP => QueryEditTab::MAIN,
            QueryEditTab::MAIN => QueryEditTab::MAIN,
        }
    }
}

/// The query screen's running mode.
#[allow(non_camel_case_types)]
#[derive(Clone, Copy, PartialEq, Eq, Structural, Debug)]
pub enum QueryMode {
    /// Browsing: tabs can be switched, a first enter arms submission.
    NORMAL,
    /// Editing: keys go to the text widget of the current tab.
    EDITOR,
    /// Armed: the next enter submits the buffers.
    SUBMIT,
}

/// The keys the query screen reacts to, reduced to what the decisions need.
#[derive(Clone, Copy, PartialEq, Eq, Structural, Debug)]
pub enum QueryKey {
    /// Control-C.
    CtrlC,
    /// Enter with no modifiers.
    Enter,
    /// The letter `i` with no modifiers.
    Insert,
    /// Escape with no modifiers.
    Esc,
    /// The left arrow with no modifiers.
    Left,
    /// The right arrow with no modifiers.
    Right,
    /// Any other key.
    Other,
}

/// What the surrounding screen must do after a key is handled.
#[derive(Clone, Copy, PartialEq, Eq, Structural, Debug)]
pub enum QueryAction {
    /// Leave the screen without submitting.
    Quit,
    /// Collect the edited buffers and start the run.
    Submit,
    /// Hand the key to the text widget of the current tab.
    ForwardToEditor,
    /// Nothing beyond the state change already made.
    Ignore,
}

/// The two command buffers as submitted.
pub struct QueryState {
    /// Commands run once before the loop; empty for none.
    pub setup_commands: String,
    /// Commands run on every loop pass.
    pub main_commands: String,
}

/// The running mode after `key` is pressed in `mode`.
pub open spec fn mode_after(mode: QueryMode, key: QueryKey) -> QueryMode {
    match key {
        QueryKey::CtrlC => mode,
        QueryKey::Enter => if mode is NORMAL {
            QueryMode::SUBMIT
        } else {
            mode
        },
        QueryKey::Insert => if !(mode is EDITOR) {
            QueryMode::EDITOR
        } else {
            mode
        },
        QueryKey::Esc => if mode is EDITOR {
            QueryMode::NORMAL
        } else {
            mode
        },
        QueryKey::Left => mode,
        QueryKey::Right => mode,
        QueryKey::Other => mode,
    }
}

/// The edited tab after `key` is pressed in `mode` on `tab`.
pub open spec fn tab_after(mode: QueryMode, tab: QueryEditTab, key: QueryKey) -> QueryEditTab {
    if mode is NORMAL && key is Left {
        match tab {
            QueryEditTab::SETUP => QueryEditTab::SETUP,
            QueryEditTab::MAIN => QueryEditTab::SETUP,
        }
    } else if mode is NORMAL && key is Right {
        match tab {
            QueryEditTab::SETUP => QueryEditTab::MAIN,
            QueryEditTab::MAIN => QueryEditTab::MAIN,
        }
    } else {
        tab
    }
}

/// What the screen must do when `key` is pressed in `mode`.
pub open spec fn action_for(mode: QueryMode, key: QueryKey) -> QueryAction {
    match key {
        QueryKey::CtrlC => QueryAction::Quit,
        QueryKey::Enter => if mode is SUBMIT {
            QueryAction::Submit
        } else if mode is EDITOR {
            QueryAction::ForwardToEditor
        } else {
            QueryAction::Ignore
        },
        QueryKey::Insert => if mode is EDITOR {
            QueryAction::ForwardToEditor
        } else {
            QueryAction::Ignore
        },
        QueryKey::Esc => QueryAction::Ignore,
        QueryKey::Left => if mode is EDITOR {
            QueryAction::ForwardToEditor
        } else {
            QueryAction::Ignore
        },
        QueryKey::Right => if mode is EDITOR {
            QueryAction::ForwardToEditor
        } else {
            QueryAction::Ignore
        },
        QueryKey::Other => if mode is EDITOR {
            QueryAction::ForwardToEditor
        } else {
            QueryAction::Ignore
        },
    }
}

/// The query screen: the buffers last submitted or preloaded, the tab under
/// edit, and the running mode.
pub struct QueryTui {
    /// The command buffers.
    pub state: QueryState,
    /// The tab under edit.
    pub editing_tab: QueryEditTab,
    /// The running mode.
    pub running_mode: QueryMode,
}

impl QueryTui {
    /// A fresh query screen, optionally preloaded with main commands, on the
    /// main tab, in browsing mode.
    pub fn new(commands: Option<String>) -> (r: Self)
        ensures
            r.state.setup_commands@ == Seq::<char>::empty(),
            match commands {
                Some(c) => r.state.main_commands == c,
                None => r.state.main_commands@ == Seq::<char>::empty(),
            },
            r.editing_tab is MAIN,
            r.running_mode is NORMAL,
    {
        let main_commands = match commands {
            Some(c) => c,
            None => String::new(),
        };
        QueryTui {
            state: QueryState { setup_commands: String::new(), main_commands },
            editing_tab: QueryEditTab::MAIN,
            running_mode: QueryMode::NORMAL,
        }
    }

    /// Applies one key press: updates the mode and the tab as the transition
    /// table says and returns what the screen must do. Never touches the
    /// buffers — on `Submit` the screen writes the widgets' text into them.
    pub fn handle_key(&mut self, key: QueryKey) -> (r: QueryAction)
        ensures
            final(self).state == old(self).state,
            final(self).running_mode == mode_after(old(self).running_mode, key),
            final(self).editing_tab == tab_after(
                old(self).running_mode,
                old(self).editing_tab,
                key,
            ),
            r == action_for(old(self).running_mode, key),
    {
        match key {
            QueryKey::CtrlC => QueryAction::Quit,
            QueryKey::Enter => {
                if self.running_mode == QueryMode::SUBMIT {
                    QueryAction::Submit
                } else if self.running_mode == QueryMode::NORMAL {
                    self.running_mode = QueryMode::SUBMIT;
                    QueryAction::Ignore
                } else {
                    QueryAction::ForwardToEditor
                }
            },
            QueryKey::Insert => {
                if self.running_mode != QueryMode::EDITOR {
                    self.running_mode = QueryMode::EDITOR;
                    QueryAction::Ignore
                } else {
                    QueryAction::ForwardToEditor
                }
            },
            QueryKey::Esc => {
                if self.running_mode == QueryMode::EDITOR {
                    self.running_mode = QueryMode::NORMAL;
                }
                QueryAction::Ignore
            },
            QueryKey::Left => {
                if self.running_mode == QueryMode::NORMAL {
                    self.editing_tab = self.editing_tab.previous();
                    QueryAction::Ignore
                } else if self.running_mode == QueryMode::EDITOR {
                    QueryAction::ForwardToEditor
                } else {
                    QueryAction::Ignore
                }
            },
            QueryKey::Right => {
                if self.running_mode == QueryMode::NORMAL {
                    self.editing_tab = self.editing_tab.next();
                    QueryAction::Ignore
                } else if self.running_mode == QueryMode::EDITOR {
                    QueryAction::ForwardToEditor
                } else {
                    QueryAction::Ignore
                }
            },
            QueryKey::Other => {
                if self.running_mode == QueryMode::EDITOR {
                    QueryAction::ForwardToEditor
                } else {
                    QueryAction::Ignore
                }
            },
        }
    }
}

} // verus!
