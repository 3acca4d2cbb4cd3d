//! The windows of the shell, the operations that events ask of them, and a
//! model of what those operations do to visibility and focus.

use vstd::prelude::*;
use crate::geometry::PhysicalPoint;

verus! {

/// The windows that the shell drives, by the label under which the window
/// system knows them.
#[derive(Clone, Copy, Debug, PartialEq, Eq, Structural)]
pub enum WindowLabel {
    /// The application's main window.
    Main,
    /// The popup that hangs below the tray icon.
    Dropzone,
}

impl WindowLabel {
    pub open spec fn spec_name(self) -> Seq<char> {
        match self {
            WindowLabel::Main => "main"@,
            WindowLabel::Dropzone => "dropzone"@,
        }
    }

    /// The label to look the window up by.
    pub fn name(&self) -> (s: &'static str)
        ensures
            s@ == self.spec_name(),
    {
        match self {
            WindowLabel::Main => "main",
            WindowLabel::Dropzone => "dropzone",
        }
    }
}

/// A one-way notification to a window's content.
#[derive(Clone, Copy, Debug, PartialEq, Eq, Structural)]
pub enum Signal {
    /// Asks the content to open its file chooser at once.
    OpenFilePicker,
}

impl Signal {
    pub open spec fn spec_name(self) -> Seq<char> {
        match self {
            Signal::OpenFilePicker => "open-file-picker"@,
        }
    }

    /// The event name under which the signal is emitted. It carries no payload.
    pub fn name(&self) -> (s: &'static str)
        ensures
            s@ == self.spec_name(),
    {
        match self {
            Signal::OpenFilePicker => "open-file-picker",
        }
    }
}

/// Whether a window is on screen.
#[derive(Clone, Copy, Debug, PartialEq, Eq, Structural)]
pub enum Visibility {
    Hidden,
    Visible,
}

impl Visibility {
    pub open spec fn spec_toggled(self) -> Visibility {
        match self {
            Visibility::Hidden => Visibility::Visible,
            Visibility::Visible => Visibility::Hidden,
        }
    }

    /// The other state.
    pub fn toggled(self) -> (v: Visibility)
        ensures
            v == self.spec_toggled(),
    {
        match self {
            Visibility::Hidden => Visibility::Visible,
            Visibility::Visible => Visibility::Hidden,
        }
    }
}

/// One operation asked of the window system. Whoever performs it ignores a
/// failure and skips an operation on a window that does not exist.
#[derive(Clone, Copy, Debug, PartialEq, Eq, Structural)]
pub enum Action {
    /// Put the window on screen.
    Show(WindowLabel),
    /// Take the window off screen.
    Hide(WindowLabel),
    /// Give the window the input focus.
    Focus(WindowLabel),
    /// Move the window's top-left corner to the point.
    MoveTo(WindowLabel, PhysicalPoint),
    /// Send the signal to the window's content.
    Emit(WindowLabel, Signal),
    /// End the process with the exit code.
    Exit(i32),
}

/// What the shell's events can change: the visibility of the two windows, who
/// has the focus, and whether the process still runs.
#[derive(Clone, Copy, Debug, PartialEq, Eq)]
pub struct Shell {
    pub main: Visibility,
    pub dropzone: Visibility,
    pub focused: Option<WindowLabel>,
    pub running: bool,
}

impl Shell {
    /// Visibility of the window `label`.
    pub open spec fn spec_visibility(self, label: WindowLabel) -> Visibility {
        match label {
            WindowLabel::Main => self.main,
            WindowLabel::Dropzone => self.dropzone,
        }
    }

    /// The shell with window `label` set to `to`.
    pub open spec fn with_visibility(self, label: WindowLabel, to: Visibility) -> Shell {
        match label {
            WindowLabel::Main => Shell { main: to, ..self },
            WindowLabel::Dropzone => Shell { dropzone: to, ..self },
        }
    }

    /// The shell after one operation that succeeded. A window that is hidden
    /// gives up the focus; moving a window or signalling its content changes
    /// nothing that is modelled here; once the process has ended nothing
    /// changes any more.
    pub open spec fn spec_after(self, action: Action) -> Shell {
        if !self.running {
            self
        } else {
            match action {
                Action::Show(label) => self.with_visibility(label, Visibility::Visible),
                Action::Hide(label) => Shell {
                    focused: if self.focused == Some(label) {
                        None
                    } else {
                        self.focused
                    },
                    ..self.with_visibility(label, Visibility::Hidden)
                },
                Action::Focus(label) => Shell { focused: Some(label), ..self },
                Action::MoveTo(_, _) => self,
                Action::Emit(_, _) => self,
                Action::Exit(_) => Shell { running: false, ..self },
            }
        }
    }

    /// The shell after the operations `actions`, performed in order.
    pub open spec fn spec_after_all(self, actions: Seq<Action>) -> Shell
        decreases actions.len(),
    {
        if actions.len() == 0 {
            self
        } else {
            self.spec_after_all(actions.drop_last()).spec_after(actions.last())
        }
    }

    /// A running shell with both windows hidden and no focus.
    pub fn new() -> (s: Shell)
        ensures
            s == (Shell {
                main: Visibility::Hidden,
                dropzone: Visibility::Hidden,
                focused: None,
                running: true,
            }),
    {
        Shell {
            main: Visibility::Hidden,
            dropzone: Visibility::Hidden,
            focused: None,
            running: true,
        }
    }

    /// Visibility of the window `label`.
    pub fn visibility(&self, label: WindowLabel) -> (v: Visibility)
        ensures
            v == self.spec_visibility(label),
    {
        match label {
            WindowLabel::Main => self.main,
            WindowLabel::Dropzone => self.dropzone,
        }
    }

    /// Performs one operation on the model.
    pub fn after(self, action: &Action) -> (s: Shell)
        ensures
            s == self.spec_after(*action),
    {
        if !self.running {
            return self;
        }
        let mut s = self;
        match *action {
            Action::Show(label) => match label {
                WindowLabel::Main => {
                    s.main = Visibility::Visible;
                },
                WindowLabel::Dropzone => {
                    s.dropzone = Visibility::Visible;
                },
            },
            Action::Hide(label) => {
                match label {
                    WindowLabel::Main => {
                        s.main = Visibility::Hidden;
                    },
                    WindowLabel::Dropzone => {
                        s.dropzone = Visibility::Hidden;
                    },
                }
                let had_focus = match s.focused {
                    Some(f) => f == label,
                    None => false,
                };
                if had_focus {
                    s.focused = None;
                }
            },
            Action::Focus(label) => {
                s.focused = Some(label);
            },
            Action::MoveTo(_, _) => {},
            Action::Emit(_, _) => {},
            Action::Exit(_) => {
                s.running = false;
            },
        }
        s
    }

    /// Performs the operations on the model, in order.
    pub fn after_all(self, actions: &Vec<Action>) -> (s: Shell)
        ensures
            s == self.spec_after_all(actions@),
    {
        let mut s = self;
        let mut i: usize = 0;
        while i < actions.len()
            invariant
                i <= actions.len(),
                s == self.spec_after_all(actions@.take(i as int)),
            decreases actions.len() - i,
        {
            assert(actions@.take(i + 1).drop_last() == actions@.take(i as int));
            s = s.after(&actions[i]);
            i = i + 1;
        }
        assert(actions@.take(i as int) == actions@);
        s
    }

    /// Unfolds `spec_after_all` for the short lists that events produce.
    pub proof fn after_each(shell: Shell, actions: Seq<Action>)
        requires
            actions.len() <= 3,
        ensures
            actions.len() == 0 ==> shell.spec_after_all(actions) == shell,
            actions.len() == 1 ==> shell.spec_after_all(actions) == shell.spec_after(actions[0]),
            actions.len() == 2 ==> shell.spec_after_all(actions) == shell.spec_after(
                actions[0],
            ).spec_after(actions[1]),
            actions.len() == 3 ==> shell.spec_after_all(actions) == shell.spec_after(
                actions[0],
            ).spec_after(actions[1]).spec_after(actions[2]),
        decreases actions.len(),
    {
        if actions.len() > 0 {
            Shell::after_each(shell, actions.drop_last());
        }
    }
}

} // verus!
