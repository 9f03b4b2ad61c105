//! Plain data types of the interactive console: tabs, modes, actions, and
//! the count-prefix arithmetic of the key-input layer.

use vstd::prelude::*;

verus! {

/// The tabs of the console, in display order.
#[derive(Debug, Clone, Copy, PartialEq, Eq, Structural)]
pub enum TabId {
    Console,
    Summary,
    Performance,
    Warnings,
    History,
}

/// The display position of each tab.
pub open spec fn spec_tab_index(t: TabId) -> int {
    match t {
        TabId::Console => 0,
        TabId::Summary => 1,
        TabId::Performance => 2,
        TabId::Warnings => 3,
        TabId::History => 4,
    }
}

/// The tab at a display position.
pub open spec fn spec_tab_of_index(i: int) -> TabId {
    if i == 0 {
        TabId::Console
    } else if i == 1 {
        TabId::Summary
    } else if i == 2 {
        TabId::Performance
    } else if i == 3 {
        TabId::Warnings
    } else {
        TabId::History
    }
}

impl TabId {
    /// The tab at a display position, when the position is in range.
    pub fn from_index(index: usize) -> (r: Option<TabId>)
        ensures
            match r {
                Some(t) => index < 5 && t == spec_tab_of_index(index as int),
                None => index >= 5,
            },
    {
        match index {
            0 => Some(TabId::Console),
            1 => Some(TabId::Summary),
            2 => Some(TabId::Performance),
            3 => Some(TabId::Warnings),
            4 => Some(TabId::History),
            _ => None,
        }
    }

    /// The display position of the tab.
    pub fn index(&self) -> (r: usize)
        ensures
            r == spec_tab_index(*self),
    {
        match self {
            TabId::Console => 0,
            TabId::Summary => 1,
            TabId::Performance => 2,
            TabId::Warnings => 3,
            TabId::History => 4,
        }
    }

    /// The next tab, wrapping past the last.
    pub fn next(&self) -> (r: TabId)
        ensures
            spec_tab_index(r) == (spec_tab_index(*self) + 1) % 5,
    {
        let next_index = (self.index() + 1) % 5;
        match TabId::from_index(next_index) {
            Some(t) => t,
            None => unreached(),
        }
    }

    /// The previous tab, wrapping before the first.
    pub fn prev(&self) -> (r: TabId)
        ensures
            spec_tab_index(r) == if spec_tab_index(*self) == 0 {
                4int
            } else {
                spec_tab_index(*self) - 1
            },
    {
        let prev_index = if self.index() == 0 {
            4
        } else {
            self.index() - 1
        };
        match TabId::from_index(prev_index) {
            Some(t) => t,
            None => unreached(),
        }
    }
}

/// Whether the console is observing a build or a launched program.
#[derive(Debug, Clone, Copy, PartialEq, Eq, Structural)]
pub enum AppMode {
    Build,
    Exec,
}

/// What the user asked the build console to do next.
#[derive(Debug, Clone, Copy, PartialEq, Eq, Structural)]
pub enum BuildAction {
    Quit,
    Rebuild,
    Clean,
}

/// What the user asked the program console to do next.
#[derive(Debug, Clone, Copy, PartialEq, Eq, Structural)]
pub enum ExecAction {
    QuitToBuild,
    Restart,
    Kill,
}

/// The vim-style input modes.
#[derive(Debug, Clone, Copy, PartialEq, Eq, Structural)]
pub enum InputMode {
    Normal,
    Command,
    Search,
}

/// What a key press resolved to.
#[derive(Debug, Clone, Copy, PartialEq, Eq, Structural)]
pub enum InputAction {
    Quit,
    SwitchTab(usize),
    NextTab,
    PrevTab,
    EnterCommand,
    EnterSearch,
    ExecuteCommand,
    ExecuteSearch,
    CancelInput,
    InsertChar(char),
    Backspace,
    NextSearch,
    PrevSearch,
    OpenFile,
    YankLine,
    OpenBuildMenu,
    OpenExecMenu,
    ScrollUp,
    ScrollDown,
    ScrollPageUp,
    ScrollPageDown,
    ScrollHalfPageUp,
    ScrollHalfPageDown,
    ScrollToTop,
    ScrollToBottom,
    ScrollToMiddle,
    ScrollToViewportTop,
    ScrollToViewportMiddle,
    ScrollToViewportBottom,
    ScrollUpCount(usize),
    ScrollDownCount(usize),
    ScrollPageUpCount(usize),
    ScrollPageDownCount(usize),
    ScrollHalfPageUpCount(usize),
    ScrollHalfPageDownCount(usize),
    WriteLogs,
    CleanBuild,
    Rebuild,
    ShowHelp,
    RestartExec,
    KillExec,
    NoOp,
}

/// How far a key sequence got against the binding tables.
#[derive(Debug, Clone, Copy, PartialEq, Eq, Structural)]
pub enum SequenceMatch {
    Complete(InputAction),
    Partial,
    NoMatch,
}

/// How a composite log filter combines its parts.
#[derive(Debug, Clone, Copy, PartialEq, Eq, Structural)]
pub enum FilterMode {
    And,
    Or,
}

/// A parsed source location of a warning line.
#[derive(Debug, Clone)]
pub struct WarningLocation {
    pub file_path: String,
    pub line: usize,
    pub column: Option<usize>,
}

/// The action a count prefix turns a scroll action into.
pub open spec fn spec_apply_count(action: InputAction, count: usize) -> InputAction {
    match action {
        InputAction::ScrollUp => InputAction::ScrollUpCount(count),
        InputAction::ScrollDown => InputAction::ScrollDownCount(count),
        InputAction::ScrollPageUp => InputAction::ScrollPageUpCount(count),
        InputAction::ScrollPageDown => InputAction::ScrollPageDownCount(count),
        InputAction::ScrollHalfPageUp => InputAction::ScrollHalfPageUpCount(count),
        InputAction::ScrollHalfPageDown => InputAction::ScrollHalfPageDownCount(count),
        _ => action,
    }
}

/// Applies a vim-style count prefix to a scroll action; any other action
/// ignores the count.
pub fn apply_count_to_action(action: InputAction, count: usize) -> (r: InputAction)
    ensures
        r == spec_apply_count(action, count),
{
    match action {
        InputAction::ScrollUp => InputAction::ScrollUpCount(count),
        InputAction::ScrollDown => InputAction::ScrollDownCount(count),
        InputAction::ScrollPageUp => InputAction::ScrollPageUpCount(count),
        InputAction::ScrollPageDown => InputAction::ScrollPageDownCount(count),
        InputAction::ScrollHalfPageUp => InputAction::ScrollHalfPageUpCount(count),
        InputAction::ScrollHalfPageDown => InputAction::ScrollHalfPageDownCount(count),
        _ => action,
    }
}

} // verus!
