//! Snapshots of the desktop and the choice of a compositor backend.

use vstd::prelude::*;
use vstd::string::StringExecFns;
use crate::text::optional_text;

pub mod niri;
pub mod sway;

verus! {

/// Window information captured from the compositor.
#[derive(Debug, Clone, PartialEq, Eq)]
pub struct WindowInfo {
    pub title: String,
    pub program: String,
    pub active: bool,
}

/// What a `WindowInfo` stands for.
pub ghost struct WindowInfoView {
    pub title: Seq<char>,
    pub program: Seq<char>,
    pub active: bool,
}

impl View for WindowInfo {
    type V = WindowInfoView;

    open spec fn view(&self) -> WindowInfoView {
        WindowInfoView { title: self.title@, program: self.program@, active: self.active }
    }
}

/// The windows and the focused desktop at one instant.
#[derive(Debug, Clone, PartialEq, Eq)]
pub struct CaptureState {
    pub windows: Vec<WindowInfo>,
    pub desktop: String,
}

/// What a `CaptureState` stands for.
pub ghost struct CaptureStateView {
    pub windows: Seq<WindowInfoView>,
    pub desktop: Seq<char>,
}

/// The views of a run of windows, in order.
pub open spec fn window_views(windows: Seq<WindowInfo>) -> Seq<WindowInfoView> {
    Seq::new(windows.len(), |i: int| windows[i]@)
}

impl View for CaptureState {
    type V = CaptureStateView;

    open spec fn view(&self) -> CaptureStateView {
        CaptureStateView { windows: window_views(self.windows@), desktop: self.desktop@ }
    }
}

/// How many windows of a snapshot hold the focus.
pub open spec fn active_count(windows: Seq<WindowInfoView>) -> nat
    decreases windows.len(),
{
    if windows.len() == 0 {
        0
    } else {
        active_count(windows.drop_last()) + if windows.last().active {
            1nat
        } else {
            0nat
        }
    }
}

/// What went wrong in choosing a backend or in a capture.
#[derive(Debug, Clone, Copy, PartialEq, Eq, Structural)]
pub enum ErrorKind {
    /// No compositor marker was found.
    NoCompositor,
    /// The tree-query compositor's socket could not be reached.
    Connect,
    /// The window tree could not be retrieved.
    Tree,
    /// The workspace list could not be retrieved.
    Workspaces,
    /// A request to the request/reply compositor could not be exchanged.
    Send(niri::NiriRequest),
    /// The compositor answered a request with another kind of response.
    Unexpected(niri::NiriRequest),
    /// The compositor answered a request with an error.
    Refused(niri::NiriRequest),
    /// The driver reported something that no request was waiting for.
    OutOfTurn,
}

/// A failed backend selection or capture: its kind, and the text that came
/// with it from outside (empty where there is none).
#[derive(Debug, Clone, PartialEq, Eq)]
pub struct BackendError {
    pub kind: ErrorKind,
    pub detail: String,
}

/// What a `BackendError` stands for.
pub ghost struct BackendErrorView {
    pub kind: ErrorKind,
    pub detail: Seq<char>,
}

impl View for BackendError {
    type V = BackendErrorView;

    open spec fn view(&self) -> BackendErrorView {
        BackendErrorView { kind: self.kind, detail: self.detail@ }
    }
}

/// The compositors that a backend exists for.
#[derive(Debug, Clone, Copy, PartialEq, Eq, Structural)]
pub enum BackendKind {
    Sway,
    Niri,
}

/// The name of the environment variable that marks a compositor.
pub open spec fn marker_name(kind: BackendKind) -> Seq<char> {
    match kind {
        BackendKind::Sway => "SWAYSOCK"@,
        BackendKind::Niri => "NIRI_SOCKET"@,
    }
}

/// The name of the environment variable that marks a compositor.
pub fn marker(kind: BackendKind) -> (name: &'static str)
    ensures
        name@ == marker_name(kind),
{
    match kind {
        BackendKind::Sway => "SWAYSOCK",
        BackendKind::Niri => "NIRI_SOCKET",
    }
}

/// The backend that the markers found select: sway's marker goes before
/// niri's, and with neither there is none.
pub open spec fn selected(sway_marker: bool, niri_marker: bool) -> Option<BackendKind> {
    if sway_marker {
        Some(BackendKind::Sway)
    } else if niri_marker {
        Some(BackendKind::Niri)
    } else {
        None
    }
}

/// Chooses the backend from the markers that were found in the environment.
pub fn detect_backend(sway_marker: bool, niri_marker: bool) -> (choice: Result<
    BackendKind,
    BackendError,
>)
    ensures
        match selected(sway_marker, niri_marker) {
            Some(kind) => choice == Ok::<BackendKind, BackendError>(kind),
            None => choice is Err && choice->Err_0@ == (BackendErrorView {
                kind: ErrorKind::NoCompositor,
                detail: Seq::empty(),
            }),
        },
{
    if sway_marker {
        Ok(BackendKind::Sway)
    } else if niri_marker {
        Ok(BackendKind::Niri)
    } else {
        Err(BackendError { kind: ErrorKind::NoCompositor, detail: String::new() })
    }
}

/// The headline of an error.
pub open spec fn message_text(error: BackendErrorView) -> Seq<char> {
    match error.kind {
        ErrorKind::NoCompositor => "No supported compositor detected (checked: "@ + marker_name(
            BackendKind::Sway,
        ) + ", "@ + marker_name(BackendKind::Niri) + ")"@,
        ErrorKind::Connect => "failed to connect to sway socket"@,
        ErrorKind::Tree => "failed to get window tree"@,
        ErrorKind::Workspaces => "failed to get workspaces"@,
        ErrorKind::Send(request) => "failed to send "@ + niri::request_name(request)
            + " request"@,
        ErrorKind::Unexpected(request) => "unexpected response to "@ + niri::request_name(request)
            + " request: "@ + error.detail,
        ErrorKind::Refused(request) => "niri error on "@ + niri::request_name(request)
            + " request: "@ + error.detail,
        ErrorKind::OutOfTurn => "reply without a request"@,
    }
}

/// What lies behind an error, where its headline does not say so itself.
pub open spec fn cause_text(error: BackendErrorView) -> Option<Seq<char>> {
    match error.kind {
        ErrorKind::Connect => Some(error.detail),
        ErrorKind::Tree => Some(error.detail),
        ErrorKind::Workspaces => Some(error.detail),
        ErrorKind::Send(_) => Some(error.detail),
        _ => None,
    }
}

impl BackendError {
    /// What lies behind the error, where the headline does not say so itself.
    pub fn cause(&self) -> (cause: Option<String>)
        ensures
            optional_text(cause) == cause_text(self@),
    {
        match self.kind {
            ErrorKind::Connect => Some(self.detail.clone()),
            ErrorKind::Tree => Some(self.detail.clone()),
            ErrorKind::Workspaces => Some(self.detail.clone()),
            ErrorKind::Send(_) => Some(self.detail.clone()),
            _ => None,
        }
    }

    /// The headline of the error, as it is shown to the operator.
    pub fn message(&self) -> (text: String)
        ensures
            text@ == message_text(self@),
    {
        match self.kind {
            ErrorKind::NoCompositor => {
                let mut text = String::from_str("No supported compositor detected (checked: ");
                text.append(marker(BackendKind::Sway));
                text.append(", ");
                text.append(marker(BackendKind::Niri));
                text.append(")");
                text
            },
            ErrorKind::Connect => String::from_str("failed to connect to sway socket"),
            ErrorKind::Tree => String::from_str("failed to get window tree"),
            ErrorKind::Workspaces => String::from_str("failed to get workspaces"),
            ErrorKind::Send(request) => {
                let mut text = String::from_str("failed to send ");
                text.append(niri::name_of(request));
                text.append(" request");
                text
            },
            ErrorKind::Unexpected(request) => {
                let mut text = String::from_str("unexpected response to ");
                text.append(niri::name_of(request));
                text.append(" request: ");
                text.append(self.detail.as_str());
                text
            },
            ErrorKind::Refused(request) => {
                let mut text = String::from_str("niri error on ");
                text.append(niri::name_of(request));
                text.append(" request: ");
                text.append(self.detail.as_str());
                text
            },
            ErrorKind::OutOfTurn => String::from_str("reply without a request"),
        }
    }
}

/// A source of snapshots. Each call reads the compositor's present state; a
/// failure of the transport or of the protocol is returned to the caller.
pub trait Backend {
    fn capture(&mut self) -> Result<CaptureState, BackendError>;
}

/// The active windows of two runs of windows add up.
pub proof fn lemma_active_count_concat(first: Seq<WindowInfoView>, second: Seq<WindowInfoView>)
    ensures
        active_count(first + second) == active_count(first) + active_count(second),
    decreases second.len(),
{
    if second.len() == 0 {
        assert(first + second =~= first);
    } else {
        assert((first + second).drop_last() =~= first + second.drop_last());
        assert((first + second).last() == second.last());
        lemma_active_count_concat(first, second.drop_last());
    }
}

/// Where no two windows are active, at most one is.
pub proof fn lemma_active_count_at_most_one(windows: Seq<WindowInfoView>)
    requires
        forall|i: int, j: int|
            0 <= i < j < windows.len() ==> !(windows[i].active && windows[j].active),
    ensures
        active_count(windows) <= 1,
        (forall|i: int| 0 <= i < windows.len() ==> !windows[i].active) ==> active_count(windows)
            == 0,
    decreases windows.len(),
{
    if windows.len() > 0 {
        let rest = windows.drop_last();
        assert forall|i: int, j: int| 0 <= i < j < rest.len() implies !(rest[i].active
            && rest[j].active) by {
            assert(rest[i] == windows[i] && rest[j] == windows[j]);
        }
        lemma_active_count_at_most_one(rest);
        if windows.last().active {
            assert forall|i: int| 0 <= i < rest.len() implies !rest[i].active by {
                assert(rest[i] == windows[i]);
                assert(windows.last() == windows[windows.len() - 1]);
            }
        } else if forall|i: int| 0 <= i < windows.len() ==> !windows[i].active {
            assert forall|i: int| 0 <= i < rest.len() implies !rest[i].active by {
                assert(rest[i] == windows[i]);
            }
        }
    }
}

} // verus!
