//! Backend for the niri compositor, which answers one request at a time.
//!
//! A capture is three exchanges: the window list, the focused window, the
//! workspace list. `NiriBackend` says which request to send next and what to
//! make of each reply; the caller owns the socket.

use vstd::prelude::*;
use vstd::string::StringExecFns;
use crate::backend::{BackendError, BackendErrorView, CaptureState, CaptureStateView, ErrorKind,
    WindowInfo, WindowInfoView, active_count, lemma_active_count_at_most_one, window_views};
use crate::text::{decimal_string, decimal_text, owned_or_empty, text_or_empty};

verus! {

/// The requests that a capture sends.
#[derive(Debug, Clone, Copy, PartialEq, Eq, Structural)]
pub enum NiriRequest {
    Windows,
    FocusedWindow,
    Workspaces,
}

/// What a capture reads of one window.
#[derive(Debug, Clone, PartialEq, Eq)]
pub struct NiriWindow {
    pub id: u64,
    pub title: Option<String>,
    pub app_id: Option<String>,
}

/// What a capture reads of one workspace.
#[derive(Debug, Clone, PartialEq, Eq)]
pub struct NiriWorkspace {
    pub idx: u8,
    pub name: Option<String>,
    pub is_focused: bool,
}

/// A response of the compositor, as far as a capture tells responses apart.
#[derive(Debug, Clone, PartialEq, Eq)]
pub enum NiriResponse {
    Windows(Vec<NiriWindow>),
    /// The identifier of the focused window, if one is focused.
    FocusedWindow(Option<u64>),
    Workspaces(Vec<NiriWorkspace>),
    /// Any other response, by its description.
    Other(String),
}

/// How one exchange ended.
#[derive(Debug, Clone, PartialEq, Eq)]
pub enum NiriReply {
    /// The request could not be sent, or no reply could be read.
    SendFailed(String),
    /// The compositor answered with an error message.
    Refused(String),
    Answered(NiriResponse),
}

/// What the caller does next.
#[derive(Debug, PartialEq, Eq)]
pub enum NiriStep {
    /// Send this request and report the reply to `accept`.
    Send(NiriRequest),
    /// The capture is over.
    Done(Result<CaptureState, BackendError>),
}

/// What a `NiriStep` stands for.
pub ghost enum NiriStepView {
    Send(NiriRequest),
    Captured(CaptureStateView),
    Failed(BackendErrorView),
}

impl View for NiriStep {
    type V = NiriStepView;

    open spec fn view(&self) -> NiriStepView {
        match *self {
            NiriStep::Send(request) => NiriStepView::Send(request),
            NiriStep::Done(Ok(state)) => NiriStepView::Captured(state@),
            NiriStep::Done(Err(error)) => NiriStepView::Failed(error@),
        }
    }
}

/// The snapshot entry of one window: active iff it is the focused one.
pub open spec fn niri_window_info(window: NiriWindow, focused: Option<u64>) -> WindowInfoView {
    WindowInfoView {
        title: text_or_empty(window.title),
        program: text_or_empty(window.app_id),
        active: focused == Some(window.id),
    }
}

/// The snapshot entries of the listed windows, in the order of the list.
pub open spec fn niri_windows(windows: Seq<NiriWindow>, focused: Option<u64>) -> Seq<
    WindowInfoView,
> {
    Seq::new(windows.len(), |i: int| niri_window_info(windows[i], focused))
}

/// The name of a workspace, or a label made of its index where it has none.
pub open spec fn workspace_label(workspace: NiriWorkspace) -> Seq<char> {
    match workspace.name {
        Some(name) => name@,
        None => "workspace-"@ + decimal_text(workspace.idx as nat),
    }
}

/// The label of the first focused workspace, `"unknown"` where none is focused.
pub open spec fn niri_desktop(workspaces: Seq<NiriWorkspace>) -> Seq<char>
    decreases workspaces.len(),
{
    if workspaces.len() == 0 {
        "unknown"@
    } else if workspaces[0].is_focused {
        workspace_label(workspaces[0])
    } else {
        niri_desktop(workspaces.drop_first())
    }
}

/// The snapshot that three matching responses make.
pub open spec fn niri_snapshot(
    windows: Seq<NiriWindow>,
    focused: Option<u64>,
    workspaces: Seq<NiriWorkspace>,
) -> CaptureStateView {
    CaptureStateView { windows: niri_windows(windows, focused), desktop: niri_desktop(workspaces) }
}

/// The name of a request.
pub open spec fn request_name(request: NiriRequest) -> Seq<char> {
    match request {
        NiriRequest::Windows => "Windows"@,
        NiriRequest::FocusedWindow => "FocusedWindow"@,
        NiriRequest::Workspaces => "Workspaces"@,
    }
}

/// How a response is described where it was not the one asked for.
pub open spec fn response_label(response: NiriResponse) -> Seq<char> {
    match response {
        NiriResponse::Windows(_) => "Windows"@,
        NiriResponse::FocusedWindow(_) => "FocusedWindow"@,
        NiriResponse::Workspaces(_) => "Workspaces"@,
        NiriResponse::Other(description) => description@,
    }
}

/// Whether a response is of the kind that a request asks for.
pub open spec fn answers(request: NiriRequest, response: NiriResponse) -> bool {
    match (request, response) {
        (NiriRequest::Windows, NiriResponse::Windows(_)) => true,
        (NiriRequest::FocusedWindow, NiriResponse::FocusedWindow(_)) => true,
        (NiriRequest::Workspaces, NiriResponse::Workspaces(_)) => true,
        _ => false,
    }
}

/// Whether a reply is a response of the kind that a request asks for.
pub open spec fn reply_answers(request: NiriRequest, reply: NiriReply) -> bool {
    match reply {
        NiriReply::Answered(response) => answers(request, response),
        _ => false,
    }
}

/// The error that a reply to `request` amounts to where it does not answer
/// it: the exchange failed, the compositor refused, or it sent something
/// else.
pub open spec fn reply_failure(request: NiriRequest, reply: NiriReply) -> BackendErrorView {
    match reply {
        NiriReply::SendFailed(cause) => BackendErrorView {
            kind: ErrorKind::Send(request),
            detail: cause@,
        },
        NiriReply::Refused(message) => BackendErrorView {
            kind: ErrorKind::Refused(request),
            detail: message@,
        },
        NiriReply::Answered(response) => BackendErrorView {
            kind: ErrorKind::Unexpected(request),
            detail: response_label(response),
        },
    }
}

/// The error that a reply to `request` amounts to, if it is one.
pub open spec fn reply_error(request: NiriRequest, reply: NiriReply) -> Option<BackendErrorView> {
    if reply_answers(request, reply) {
        None
    } else {
        Some(reply_failure(request, reply))
    }
}

/// The progress of a capture: the request whose reply is awaited, and what
/// the replies so far have brought.
pub ghost struct NiriProgress {
    pub awaiting: Option<NiriRequest>,
    pub windows: Seq<NiriWindow>,
    pub focused: Option<u64>,
}

/// The progress after a reply.
pub open spec fn niri_next(before: NiriProgress, reply: NiriReply) -> NiriProgress {
    match (before.awaiting, reply) {
        (None, _) => before,
        (
            Some(NiriRequest::Windows),
            NiriReply::Answered(NiriResponse::Windows(windows)),
        ) => NiriProgress {
            awaiting: Some(NiriRequest::FocusedWindow),
            windows: windows@,
            focused: before.focused,
        },
        (
            Some(NiriRequest::FocusedWindow),
            NiriReply::Answered(NiriResponse::FocusedWindow(focused)),
        ) => NiriProgress {
            awaiting: Some(NiriRequest::Workspaces),
            windows: before.windows,
            focused: focused,
        },
        (Some(_), _) => NiriProgress { awaiting: None, ..before },
    }
}

/// What the caller is told after a reply.
pub open spec fn niri_output(before: NiriProgress, reply: NiriReply) -> NiriStepView {
    match (before.awaiting, reply) {
        (None, _) => NiriStepView::Failed(
            BackendErrorView { kind: ErrorKind::OutOfTurn, detail: Seq::empty() },
        ),
        (Some(NiriRequest::Windows), NiriReply::Answered(NiriResponse::Windows(_))) => {
            NiriStepView::Send(NiriRequest::FocusedWindow)
        },
        (
            Some(NiriRequest::FocusedWindow),
            NiriReply::Answered(NiriResponse::FocusedWindow(_)),
        ) => NiriStepView::Send(NiriRequest::Workspaces),
        (
            Some(NiriRequest::Workspaces),
            NiriReply::Answered(NiriResponse::Workspaces(workspaces)),
        ) => NiriStepView::Captured(niri_snapshot(before.windows, before.focused, workspaces@)),
        (Some(request), _) => NiriStepView::Failed(reply_failure(request, reply)),
    }
}

/// Backend for the niri compositor.
#[derive(Debug)]
pub struct NiriBackend {
    awaiting: Option<NiriRequest>,
    windows: Vec<NiriWindow>,
    focused: Option<u64>,
}

impl View for NiriBackend {
    type V = NiriProgress;

    closed spec fn view(&self) -> NiriProgress {
        NiriProgress { awaiting: self.awaiting, windows: self.windows@, focused: self.focused }
    }
}

/// The snapshot entries of the listed windows.
pub fn convert_windows(windows: &Vec<NiriWindow>, focused: Option<u64>) -> (infos: Vec<WindowInfo>)
    ensures
        window_views(infos@) == niri_windows(windows@, focused),
{
    let mut infos: Vec<WindowInfo> = Vec::new();
    let mut i: usize = 0;
    while i < windows.len()
        invariant
            i <= windows.len(),
            infos@.len() == i,
            forall|j: int|
                0 <= j < i ==> (#[trigger] infos@[j])@ == niri_window_info(windows@[j], focused),
        decreases windows.len() - i,
    {
        let window = &windows[i];
        let active = match focused {
            Some(id) => id == window.id,
            None => false,
        };
        infos.push(
            WindowInfo {
                title: owned_or_empty(&window.title),
                program: owned_or_empty(&window.app_id),
                active,
            },
        );
        i += 1;
    }
    assert(window_views(infos@) =~= niri_windows(windows@, focused));
    infos
}

/// The name of a workspace, or `workspace-` and its index where it has none.
pub fn label_of(workspace: &NiriWorkspace) -> (label: String)
    ensures
        label@ == workspace_label(*workspace),
{
    match &workspace.name {
        Some(name) => name.clone(),
        None => {
            let mut label = String::from_str("workspace-");
            let index = decimal_string(workspace.idx as u64);
            label.append(index.as_str());
            label
        },
    }
}

/// The label of the first focused workspace, `"unknown"` where none is focused.
pub fn focused_desktop(workspaces: &Vec<NiriWorkspace>) -> (desktop: String)
    ensures
        desktop@ == niri_desktop(workspaces@),
{
    let mut i: usize = 0;
    assert(workspaces@.skip(0) =~= workspaces@);
    while i < workspaces.len()
        invariant
            i <= workspaces.len(),
            niri_desktop(workspaces@) == niri_desktop(workspaces@.skip(i as int)),
        decreases workspaces.len() - i,
    {
        proof {
            let rest = workspaces@.skip(i as int);
            assert(rest[0] == workspaces@[i as int]);
            assert(rest.drop_first() =~= workspaces@.skip(i + 1));
        }
        if workspaces[i].is_focused {
            return label_of(&workspaces[i]);
        }
        i += 1;
    }
    String::from_str("unknown")
}

/// The name of a request, as error messages spell it.
pub fn name_of(request: NiriRequest) -> (name: &'static str)
    ensures
        name@ == request_name(request),
{
    match request {
        NiriRequest::Windows => "Windows",
        NiriRequest::FocusedWindow => "FocusedWindow",
        NiriRequest::Workspaces => "Workspaces",
    }
}

impl NiriBackend {
    /// A backend with no capture under way.
    pub fn new() -> (backend: NiriBackend)
        ensures
            backend@.awaiting.is_none(),
            backend@.windows.len() == 0,
            backend@.focused.is_none(),
    {
        NiriBackend { awaiting: None, windows: Vec::new(), focused: None }
    }

    /// The request whose reply is awaited, if a capture is under way.
    pub fn awaiting(&self) -> (request: Option<NiriRequest>)
        ensures
            request == self@.awaiting,
    {
        self.awaiting
    }

    /// Begins a capture, giving up one that was under way: the window list is
    /// asked for first.
    pub fn capture(&mut self) -> (step: NiriStep)
        ensures
            step == NiriStep::Send(NiriRequest::Windows),
            final(self)@ == (NiriProgress {
                awaiting: Some(NiriRequest::Windows),
                windows: Seq::empty(),
                focused: None,
            }),
    {
        self.awaiting = Some(NiriRequest::Windows);
        self.windows = Vec::new();
        self.focused = None;
        assert(self.windows@ =~= Seq::empty());
        NiriStep::Send(NiriRequest::Windows)
    }

    /// Takes the reply to the request last handed out. A reply that is an
    /// error, or of another kind than was asked for, ends the capture with
    /// that error; the third matching reply ends it with the snapshot.
    pub fn accept(&mut self, reply: NiriReply) -> (step: NiriStep)
        ensures
            final(self)@ == niri_next(old(self)@, reply),
            step@ == niri_output(old(self)@, reply),
    {
        let request = match self.awaiting {
            Some(request) => request,
            None => {
                return NiriStep::Done(
                    Err(BackendError { kind: ErrorKind::OutOfTurn, detail: String::new() }),
                );
            },
        };
        match reply {
            NiriReply::SendFailed(cause) => {
                self.awaiting = None;
                NiriStep::Done(Err(BackendError { kind: ErrorKind::Send(request), detail: cause }))
            },
            NiriReply::Refused(message) => {
                self.awaiting = None;
                NiriStep::Done(
                    Err(BackendError { kind: ErrorKind::Refused(request), detail: message }),
                )
            },
            NiriReply::Answered(response) => {
                match (request, response) {
                    (NiriRequest::Windows, NiriResponse::Windows(windows)) => {
                        self.awaiting = Some(NiriRequest::FocusedWindow);
                        self.windows = windows;
                        NiriStep::Send(NiriRequest::FocusedWindow)
                    },
                    (NiriRequest::FocusedWindow, NiriResponse::FocusedWindow(focused)) => {
                        self.awaiting = Some(NiriRequest::Workspaces);
                        self.focused = focused;
                        NiriStep::Send(NiriRequest::Workspaces)
                    },
                    (NiriRequest::Workspaces, NiriResponse::Workspaces(workspaces)) => {
                        self.awaiting = None;
                        let windows = convert_windows(&self.windows, self.focused);
                        let desktop = focused_desktop(&workspaces);
                        NiriStep::Done(Ok(CaptureState { windows, desktop }))
                    },
                    (_, other) => {
                        self.awaiting = None;
                        let detail = match other {
                            NiriResponse::Windows(_) => String::from_str("Windows"),
                            NiriResponse::FocusedWindow(_) => String::from_str("FocusedWindow"),
                            NiriResponse::Workspaces(_) => String::from_str("Workspaces"),
                            NiriResponse::Other(description) => description,
                        };
                        NiriStep::Done(
                            Err(BackendError { kind: ErrorKind::Unexpected(request), detail }),
                        )
                    },
                }
            },
        }
    }
}

/// A capture that is answered as asked: the window list, the focused window
/// and the workspace list, in this order, end in the snapshot made of the
/// three, and two more requests are sent on the way.
pub proof fn law_capture_in_three_exchanges(
    before: NiriProgress,
    windows: Vec<NiriWindow>,
    focused: Option<u64>,
    workspaces: Vec<NiriWorkspace>,
)
    requires
        before.awaiting == Some(NiriRequest::Windows),
    ensures
        ({
            let first = NiriReply::Answered(NiriResponse::Windows(windows));
            let second = NiriReply::Answered(NiriResponse::FocusedWindow(focused));
            let third = NiriReply::Answered(NiriResponse::Workspaces(workspaces));
            let after_first = niri_next(before, first);
            let after_second = niri_next(after_first, second);
            &&& niri_output(before, first) == NiriStepView::Send(NiriRequest::FocusedWindow)
            &&& niri_output(after_first, second) == NiriStepView::Send(NiriRequest::Workspaces)
            &&& niri_output(after_second, third) == NiriStepView::Captured(
                niri_snapshot(windows@, focused, workspaces@),
            )
            &&& niri_next(after_second, third).awaiting.is_none()
        }),
{
}

/// A reply that is an error, or not of the kind asked for, ends the capture
/// with that error whatever the replies before it were; nothing more is sent.
pub proof fn law_error_aborts_capture(before: NiriProgress, reply: NiriReply)
    requires
        before.awaiting is Some,
        reply_error(before.awaiting->Some_0, reply) is Some,
    ensures
        niri_output(before, reply) == NiriStepView::Failed(
            reply_error(before.awaiting->Some_0, reply)->Some_0,
        ),
        niri_next(before, reply).awaiting.is_none(),
{
}

/// Whether no two windows of a list share an identifier.
pub open spec fn distinct_ids(windows: Seq<NiriWindow>) -> bool {
    forall|i: int, j: int| 0 <= i < j < windows.len() ==> windows[i].id != windows[j].id
}

/// Of windows with identifiers of their own, at most one is active in a
/// snapshot: the focused one. None is active where no window is focused.
pub proof fn law_at_most_one_active(windows: Seq<NiriWindow>, focused: Option<u64>)
    requires
        distinct_ids(windows),
    ensures
        active_count(niri_windows(windows, focused)) <= 1,
        focused is None ==> active_count(niri_windows(windows, focused)) == 0,
        forall|i: int|
            0 <= i < windows.len() ==> (#[trigger] niri_windows(windows, focused)[i]).active == (
            focused == Some(windows[i].id)),
{
    let infos = niri_windows(windows, focused);
    assert forall|i: int, j: int| 0 <= i < j < infos.len() implies !(infos[i].active
        && infos[j].active) by {
        assert(windows[i].id != windows[j].id);
    }
    lemma_active_count_at_most_one(infos);
}

} // verus!
