//! Clicks on the tray icon: a left click toggles the popup window.
//!
//! Handling a click takes up to two answers from the window system: whether
//! the popup is on screen, and, before it is shown, where the icon, the
//! window and the monitor are. [`tray_step`] decides what to ask and what to
//! do; the caller asks, performs, and hands each answer back.

use vstd::prelude::*;
use crate::geometry::{
    compute_position,
    position_x,
    position_y,
    saturated,
    MonitorBounds,
    PhysicalPoint,
    ScreenRect,
    WindowSize,
};
use crate::windows::{Action, Shell, Visibility, WindowLabel};

verus! {

/// The mouse button of a click on the tray icon.
#[derive(Clone, Copy, Debug, PartialEq, Eq, Structural)]
pub enum MouseButton {
    Left,
    Right,
    Middle,
}

/// What placing the popup needs to know, all in physical pixels.
#[derive(Clone, Copy, Debug, PartialEq, Eq)]
pub struct PopupGeometry {
    /// The tray icon's rectangle as the click reported it.
    pub icon: ScreenRect,
    /// The popup's outer size; `None` where it could not be read.
    pub window: Option<WindowSize>,
    /// The monitor that the popup is on.
    pub monitor: MonitorBounds,
}

impl PopupGeometry {
    /// The size to place the window with: a size that could not be read
    /// counts as empty.
    pub open spec fn spec_window_size(self) -> WindowSize {
        match self.window {
            Some(size) => size,
            None => WindowSize { width: 0, height: 0 },
        }
    }

    /// Where the popup goes, as the window system takes it.
    pub open spec fn spec_point(self) -> PhysicalPoint {
        PhysicalPoint {
            x: saturated(position_x(self.icon, self.spec_window_size(), self.monitor)) as i32,
            y: saturated(position_y(self.icon)) as i32,
        }
    }

    /// Where the popup goes, as the window system takes it.
    pub fn point(&self) -> (p: PhysicalPoint)
        ensures
            p == self.spec_point(),
    {
        let size = match self.window {
            Some(size) => size,
            None => WindowSize { width: 0, height: 0 },
        };
        compute_position(&self.icon, &size, &self.monitor).to_physical()
    }
}

/// What reaches the tray handler: an event of the tray icon, or the answer to
/// the question that the handler asked last.
#[derive(Clone, Copy, Debug, PartialEq, Eq)]
pub enum TrayInput {
    /// The tray icon was clicked.
    Click(MouseButton),
    /// Any other event of the tray icon.
    Other,
    /// The window asked about does not exist.
    NoWindow,
    /// Whether the window is on screen; `None` where that could not be read.
    Visibility(Option<bool>),
    /// Where everything is; `None` where no monitor could be made out.
    Geometry(Option<PopupGeometry>),
}

/// A question to the window system.
#[derive(Clone, Copy, Debug, PartialEq, Eq, Structural)]
pub enum Query {
    /// Is the window on screen? Answered by `TrayInput::Visibility`.
    Visibility(WindowLabel),
    /// Where are the icon, the window and its monitor? Answered by
    /// `TrayInput::Geometry`.
    Geometry(WindowLabel),
}

/// How far the handling of a click has come.
#[derive(Clone, Copy, Debug, PartialEq, Eq, Structural)]
pub enum TrayFlow {
    /// No click is being handled.
    Idle,
    /// A left click waits to learn whether the popup is on screen.
    AwaitingVisibility,
    /// The popup is to be shown and waits to learn where.
    AwaitingGeometry,
}

/// The handler's answer to one input.
#[derive(Debug)]
pub struct TrayStep {
    /// The state to hand in with the next input.
    pub next: TrayFlow,
    /// The question to answer next; `None` ends the handling of the click.
    pub ask: Option<Query>,
    /// The operations to perform now, in order.
    pub actions: Vec<Action>,
}

/// The operations that bring the popup up: it is moved first, where its place
/// is known, so that it never shows at the old place; then shown; then
/// focused.
pub open spec fn reveal_actions(geometry: Option<PopupGeometry>) -> Seq<Action> {
    match geometry {
        Some(g) => seq![
            Action::MoveTo(WindowLabel::Dropzone, g.spec_point()),
            Action::Show(WindowLabel::Dropzone),
            Action::Focus(WindowLabel::Dropzone),
        ],
        None => seq![Action::Show(WindowLabel::Dropzone), Action::Focus(WindowLabel::Dropzone)],
    }
}

/// The handler as a function: next state, next question, operations.
///
/// Only a left click starts anything. A popup that is on screen is hidden; one
/// that is hidden, or whose state could not be read, is placed and shown. An
/// input that does not answer the pending question ends the handling.
pub open spec fn spec_tray_step(flow: TrayFlow, input: TrayInput) -> (
    TrayFlow,
    Option<Query>,
    Seq<Action>,
) {
    match (flow, input) {
        (TrayFlow::Idle, TrayInput::Click(MouseButton::Left)) => (
            TrayFlow::AwaitingVisibility,
            Some(Query::Visibility(WindowLabel::Dropzone)),
            Seq::empty(),
        ),
        (TrayFlow::AwaitingVisibility, TrayInput::Visibility(Some(true))) => (
            TrayFlow::Idle,
            None,
            seq![Action::Hide(WindowLabel::Dropzone)],
        ),
        (TrayFlow::AwaitingVisibility, TrayInput::Visibility(_)) => (
            TrayFlow::AwaitingGeometry,
            Some(Query::Geometry(WindowLabel::Dropzone)),
            Seq::empty(),
        ),
        (TrayFlow::AwaitingGeometry, TrayInput::Geometry(geometry)) => (
            TrayFlow::Idle,
            None,
            reveal_actions(geometry),
        ),
        _ => (TrayFlow::Idle, None, Seq::empty()),
    }
}

/// Takes the handling of a tray click one step further.
pub fn tray_step(flow: TrayFlow, input: &TrayInput) -> (step: TrayStep)
    ensures
        (step.next, step.ask, step.actions@) == spec_tray_step(flow, *input),
{
    let mut actions: Vec<Action> = Vec::new();
    match (flow, *input) {
        (TrayFlow::Idle, TrayInput::Click(MouseButton::Left)) => TrayStep {
            next: TrayFlow::AwaitingVisibility,
            ask: Some(Query::Visibility(WindowLabel::Dropzone)),
            actions,
        },
        (TrayFlow::AwaitingVisibility, TrayInput::Visibility(Some(true))) => {
            actions.push(Action::Hide(WindowLabel::Dropzone));
            assert(actions@ =~= seq![Action::Hide(WindowLabel::Dropzone)]);
            TrayStep { next: TrayFlow::Idle, ask: None, actions }
        },
        (TrayFlow::AwaitingVisibility, TrayInput::Visibility(_)) => TrayStep {
            next: TrayFlow::AwaitingGeometry,
            ask: Some(Query::Geometry(WindowLabel::Dropzone)),
            actions,
        },
        (TrayFlow::AwaitingGeometry, TrayInput::Geometry(geometry)) => {
            match geometry {
                Some(g) => {
                    actions.push(Action::MoveTo(WindowLabel::Dropzone, g.point()));
                },
                None => {},
            }
            actions.push(Action::Show(WindowLabel::Dropzone));
            actions.push(Action::Focus(WindowLabel::Dropzone));
            assert(actions@ =~= reveal_actions(geometry));
            TrayStep { next: TrayFlow::Idle, ask: None, actions }
        },
        _ => TrayStep { next: TrayFlow::Idle, ask: None, actions },
    }
}

/// The operations that a left click leads to, all told: the popup is hidden
/// where it was reported on screen, and brought up otherwise.
pub open spec fn click_outcome(visible: Option<bool>, geometry: Option<PopupGeometry>) -> Seq<
    Action,
> {
    if visible == Some(true) {
        seq![Action::Hide(WindowLabel::Dropzone)]
    } else {
        reveal_actions(geometry)
    }
}

/// What the window system reports of a popup in state `visibility`.
pub open spec fn reported(visibility: Visibility) -> Option<bool> {
    Some(visibility == Visibility::Visible)
}

/// A left click runs through the handler as follows: it asks whether the
/// popup is on screen; on screen, the popup is hidden with no further
/// question; otherwise the handler asks for the geometry and then brings the
/// popup up. Nothing is performed before the last step, and the handler ends
/// idle.
pub proof fn click_runs_to_outcome(visible: Option<bool>, geometry: Option<PopupGeometry>)
    ensures
        spec_tray_step(TrayFlow::Idle, TrayInput::Click(MouseButton::Left)) == (
            TrayFlow::AwaitingVisibility,
            Some(Query::Visibility(WindowLabel::Dropzone)),
            Seq::<Action>::empty(),
        ),
        visible == Some(true) ==> spec_tray_step(
            TrayFlow::AwaitingVisibility,
            TrayInput::Visibility(visible),
        ) == (TrayFlow::Idle, None::<Query>, click_outcome(visible, geometry)),
        visible != Some(true) ==> spec_tray_step(
            TrayFlow::AwaitingVisibility,
            TrayInput::Visibility(visible),
        ) == (
            TrayFlow::AwaitingGeometry,
            Some(Query::Geometry(WindowLabel::Dropzone)),
            Seq::<Action>::empty(),
        ),
        visible != Some(true) ==> spec_tray_step(
            TrayFlow::AwaitingGeometry,
            TrayInput::Geometry(geometry),
        ) == (TrayFlow::Idle, None::<Query>, click_outcome(visible, geometry)),
{
}

/// Only a left click on the icon starts anything: every other button and
/// every other tray event asks nothing and performs nothing.
pub proof fn other_events_do_nothing(input: TrayInput)
    requires
        input != TrayInput::Click(MouseButton::Left),
    ensures
        spec_tray_step(TrayFlow::Idle, input) == (
            TrayFlow::Idle,
            None::<Query>,
            Seq::<Action>::empty(),
        ),
{
}

/// A left click toggles the popup and touches nothing else that is visible:
/// the popup changes state, the main window keeps its own, and the process
/// goes on.
pub proof fn click_toggles_popup(shell: Shell, geometry: Option<PopupGeometry>)
    requires
        shell.running,
    ensures
        ({
            let after = shell.spec_after_all(click_outcome(reported(shell.dropzone), geometry));
            &&& after.dropzone == shell.dropzone.spec_toggled()
            &&& after.main == shell.main
            &&& after.running
        }),
{
    Shell::after_each(shell, click_outcome(reported(shell.dropzone), geometry));
}

/// Toggling twice is the identity on visibility: after two left clicks in a
/// row the popup is in the state in which the first click found it, whatever
/// the geometry was at either click.
pub proof fn two_clicks_restore_visibility(
    shell: Shell,
    first: Option<PopupGeometry>,
    second: Option<PopupGeometry>,
)
    requires
        shell.running,
    ensures
        ({
            let once = shell.spec_after_all(click_outcome(reported(shell.dropzone), first));
            let twice = once.spec_after_all(click_outcome(reported(once.dropzone), second));
            &&& once.dropzone == shell.dropzone.spec_toggled()
            &&& twice.dropzone == shell.dropzone
            &&& twice.main == shell.main
        }),
{
    click_toggles_popup(shell, first);
    let once = shell.spec_after_all(click_outcome(reported(shell.dropzone), first));
    click_toggles_popup(once, second);
}

} // verus!
