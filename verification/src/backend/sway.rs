//! Backend for the sway compositor, which hands out its whole window tree.
//!
//! A capture asks for the tree and for the workspace list over a connection
//! that is opened on first use and kept. `SwayBackend` says what to ask next,
//! reads the windows out of the tree and remembers whether the connection is
//! still good; the caller owns the connection.

use vstd::prelude::*;
use vstd::string::StringExecFns;
use crate::backend::{BackendError, BackendErrorView, CaptureState, CaptureStateView, ErrorKind,
    WindowInfo, WindowInfoView, active_count, lemma_active_count_concat, window_views};
use crate::text::{owned_or_empty, text_or_empty};

verus! {

/// The kinds of node in the window tree.
#[derive(Debug, Clone, Copy, PartialEq, Eq, Structural)]
pub enum NodeKind {
    Root,
    Output,
    Workspace,
    Con,
    FloatingCon,
    Dockarea,
    /// A kind that this library does not know.
    Other,
}

/// What a capture reads of one node of the window tree.
#[derive(Debug, PartialEq, Eq)]
pub struct TreeNode {
    pub kind: NodeKind,
    /// The node's name; for a window, its title.
    pub name: Option<String>,
    /// The application identifier.
    pub app_id: Option<String>,
    /// The window-manager class hint.
    pub class: Option<String>,
    /// The process that owns the window.
    pub pid: Option<i32>,
    pub focused: bool,
    /// The tiling children.
    pub nodes: Vec<TreeNode>,
    /// The floating children.
    pub floating_nodes: Vec<TreeNode>,
}

/// What a capture reads of one workspace.
#[derive(Debug, Clone, PartialEq, Eq)]
pub struct SwayWorkspace {
    pub name: String,
    pub focused: bool,
}

/// Whether a node is a container, tiling or floating.
pub open spec fn is_container(kind: NodeKind) -> bool {
    kind == NodeKind::Con || kind == NodeKind::FloatingCon
}

/// Whether a node stands for a window: a container that carries an
/// application identifier, a class hint or a name, and has a process.
pub open spec fn shows_window(node: TreeNode) -> bool {
    &&& is_container(node.kind)
    &&& (node.app_id.is_some() || node.class.is_some() || node.name.is_some())
    &&& node.pid.is_some()
}

/// The program of a node: its application identifier, else its class hint,
/// else nothing.
pub open spec fn program_of(node: TreeNode) -> Seq<char> {
    match node.app_id {
        Some(app_id) => app_id@,
        None => text_or_empty(node.class),
    }
}

/// The snapshot entry of a node that stands for a window.
pub open spec fn tree_window(node: TreeNode) -> WindowInfoView {
    WindowInfoView {
        title: text_or_empty(node.name),
        program: program_of(node),
        active: node.focused,
    }
}

/// What a node contributes by itself: its entry, if it stands for a window.
pub open spec fn own_windows(node: TreeNode) -> Seq<WindowInfoView> {
    if shows_window(node) {
        seq![tree_window(node)]
    } else {
        Seq::empty()
    }
}

/// The windows of a tree, depth first: the node itself, then what is under
/// its tiling children, then what is under its floating children.
pub open spec fn tree_windows(node: TreeNode) -> Seq<WindowInfoView>
    decreases node, 0nat,
{
    own_windows(node) + forest_windows(node.nodes@, node.nodes@.len()) + forest_windows(
        node.floating_nodes@,
        node.floating_nodes@.len(),
    )
}

/// The windows of the first `count` trees of a list, in the order of the list.
pub open spec fn forest_windows(nodes: Seq<TreeNode>, count: nat) -> Seq<WindowInfoView>
    decreases nodes, count,
{
    if count == 0 || count > nodes.len() {
        Seq::empty()
    } else {
        forest_windows(nodes, (count - 1) as nat) + tree_windows(nodes[count - 1])
    }
}

/// The name of the first focused workspace, `"unknown"` where none is focused.
pub open spec fn sway_desktop(workspaces: Seq<SwayWorkspace>) -> Seq<char>
    decreases workspaces.len(),
{
    if workspaces.len() == 0 {
        "unknown"@
    } else if workspaces[0].focused {
        workspaces[0].name@
    } else {
        sway_desktop(workspaces.drop_first())
    }
}

/// Appends to `windows` the windows of the tree under `node`, depth first.
pub fn collect_windows(node: &TreeNode, windows: &mut Vec<WindowInfo>)
    ensures
        window_views(final(windows)@) == window_views(old(windows)@) + tree_windows(*node),
    decreases node,
{
    let ghost before = window_views(windows@);
    let container = match node.kind {
        NodeKind::Con => true,
        NodeKind::FloatingCon => true,
        _ => false,
    };
    if container {
        let has_window_info = node.app_id.is_some() || node.class.is_some()
            || node.name.is_some();
        if has_window_info && node.pid.is_some() {
            let program = match &node.app_id {
                Some(app_id) => app_id.clone(),
                None => owned_or_empty(&node.class),
            };
            let title = owned_or_empty(&node.name);
            windows.push(WindowInfo { title, program, active: node.focused });
        }
    }
    assert(window_views(windows@) =~= before + own_windows(*node));
    let mut i: usize = 0;
    while i < node.nodes.len()
        invariant
            i <= node.nodes.len(),
            window_views(windows@) == before + own_windows(*node) + forest_windows(
                node.nodes@,
                i as nat,
            ),
        decreases node.nodes.len() - i,
    {
        collect_windows(&node.nodes[i], windows);
        i += 1;
    }
    let ghost tiled = window_views(windows@);
    let mut j: usize = 0;
    while j < node.floating_nodes.len()
        invariant
            j <= node.floating_nodes.len(),
            window_views(windows@) == tiled + forest_windows(node.floating_nodes@, j as nat),
        decreases node.floating_nodes.len() - j,
    {
        collect_windows(&node.floating_nodes[j], windows);
        j += 1;
    }
}

/// The name of the first focused workspace, `"unknown"` where none is focused.
pub fn focused_workspace(workspaces: &Vec<SwayWorkspace>) -> (desktop: String)
    ensures
        desktop@ == sway_desktop(workspaces@),
{
    let mut i: usize = 0;
    assert(workspaces@.skip(0) =~= workspaces@);
    while i < workspaces.len()
        invariant
            i <= workspaces.len(),
            sway_desktop(workspaces@) == sway_desktop(workspaces@.skip(i as int)),
        decreases workspaces.len() - i,
    {
        proof {
            let rest = workspaces@.skip(i as int);
            assert(rest[0] == workspaces@[i as int]);
            assert(rest.drop_first() =~= workspaces@.skip(i + 1));
        }
        if workspaces[i].focused {
            return workspaces[i].name.clone();
        }
        i += 1;
    }
    String::from_str("unknown")
}

/// What a capture asks of the connection.
#[derive(Debug, Clone, Copy, PartialEq, Eq, Structural)]
pub enum SwayRequest {
    /// Open the connection.
    Connect,
    /// Ask for the window tree.
    GetTree,
    /// Ask for the workspace list.
    GetWorkspaces,
}

/// How one request ended.
#[derive(Debug, PartialEq, Eq)]
pub enum SwayReply {
    /// The connection is open.
    Connected,
    Tree(TreeNode),
    Workspaces(Vec<SwayWorkspace>),
    /// The request failed, with the reason.
    Failed(String),
}

/// What the caller does next.
#[derive(Debug, PartialEq, Eq)]
pub enum SwayStep {
    /// Perform this request and report how it ended to `accept`.
    Perform(SwayRequest),
    /// The capture is over. After an error the caller drops its connection.
    Done(Result<CaptureState, BackendError>),
}

/// What a `SwayStep` stands for.
pub ghost enum SwayStepView {
    Perform(SwayRequest),
    Captured(CaptureStateView),
    Failed(BackendErrorView),
}

impl View for SwayStep {
    type V = SwayStepView;

    open spec fn view(&self) -> SwayStepView {
        match *self {
            SwayStep::Perform(request) => SwayStepView::Perform(request),
            SwayStep::Done(Ok(state)) => SwayStepView::Captured(state@),
            SwayStep::Done(Err(error)) => SwayStepView::Failed(error@),
        }
    }
}

/// The progress of a capture: whether a connection is held, the request whose
/// outcome is awaited, and the windows read so far.
pub ghost struct SwayProgress {
    pub connected: bool,
    pub awaiting: Option<SwayRequest>,
    pub windows: Seq<WindowInfoView>,
}

/// The first request of a capture: the connection is opened only where none
/// is held.
pub open spec fn first_request(connected: bool) -> SwayRequest {
    if connected {
        SwayRequest::GetTree
    } else {
        SwayRequest::Connect
    }
}

/// The kind of error that the failure of a request is.
pub open spec fn failure_kind(request: SwayRequest) -> ErrorKind {
    match request {
        SwayRequest::Connect => ErrorKind::Connect,
        SwayRequest::GetTree => ErrorKind::Tree,
        SwayRequest::GetWorkspaces => ErrorKind::Workspaces,
    }
}

/// The error that a reply to `request` amounts to, if it is one: a failure,
/// or a reply that the request does not ask for.
pub open spec fn sway_error(awaiting: Option<SwayRequest>, reply: SwayReply) -> Option<
    BackendErrorView,
> {
    match (awaiting, reply) {
        (Some(SwayRequest::Connect), SwayReply::Connected) => None,
        (Some(SwayRequest::GetTree), SwayReply::Tree(_)) => None,
        (Some(SwayRequest::GetWorkspaces), SwayReply::Workspaces(_)) => None,
        (Some(request), SwayReply::Failed(cause)) => Some(
            BackendErrorView { kind: failure_kind(request), detail: cause@ },
        ),
        _ => Some(BackendErrorView { kind: ErrorKind::OutOfTurn, detail: Seq::empty() }),
    }
}

/// The progress after a reply. Any error gives the connection up, so that the
/// next capture opens a fresh one.
pub open spec fn sway_next(before: SwayProgress, reply: SwayReply) -> SwayProgress {
    match (before.awaiting, reply) {
        (Some(SwayRequest::Connect), SwayReply::Connected) => SwayProgress {
            connected: true,
            awaiting: Some(SwayRequest::GetTree),
            windows: before.windows,
        },
        (Some(SwayRequest::GetTree), SwayReply::Tree(tree)) => SwayProgress {
            connected: before.connected,
            awaiting: Some(SwayRequest::GetWorkspaces),
            windows: tree_windows(tree),
        },
        (Some(SwayRequest::GetWorkspaces), SwayReply::Workspaces(_)) => SwayProgress {
            connected: before.connected,
            awaiting: None,
            windows: Seq::empty(),
        },
        _ => SwayProgress { connected: false, awaiting: None, windows: before.windows },
    }
}

/// What the caller is told after a reply.
pub open spec fn sway_output(before: SwayProgress, reply: SwayReply) -> SwayStepView {
    match (before.awaiting, reply) {
        (Some(SwayRequest::Connect), SwayReply::Connected) => SwayStepView::Perform(
            SwayRequest::GetTree,
        ),
        (Some(SwayRequest::GetTree), SwayReply::Tree(_)) => SwayStepView::Perform(
            SwayRequest::GetWorkspaces,
        ),
        (Some(SwayRequest::GetWorkspaces), SwayReply::Workspaces(workspaces)) => {
            SwayStepView::Captured(
                CaptureStateView { windows: before.windows, desktop: sway_desktop(workspaces@) },
            )
        },
        (Some(request), SwayReply::Failed(cause)) => SwayStepView::Failed(
            BackendErrorView { kind: failure_kind(request), detail: cause@ },
        ),
        _ => SwayStepView::Failed(
            BackendErrorView { kind: ErrorKind::OutOfTurn, detail: Seq::empty() },
        ),
    }
}

/// Backend for the sway compositor.
#[derive(Debug)]
pub struct SwayBackend {
    connected: bool,
    awaiting: Option<SwayRequest>,
    windows: Vec<WindowInfo>,
}

impl View for SwayBackend {
    type V = SwayProgress;

    closed spec fn view(&self) -> SwayProgress {
        SwayProgress {
            connected: self.connected,
            awaiting: self.awaiting,
            windows: window_views(self.windows@),
        }
    }
}

impl SwayBackend {
    /// A backend that holds no connection yet: the first capture opens one.
    pub fn new() -> (backend: SwayBackend)
        ensures
            !backend@.connected,
            backend@.awaiting.is_none(),
            backend@.windows.len() == 0,
    {
        SwayBackend { connected: false, awaiting: None, windows: Vec::new() }
    }

    /// Whether a connection is held.
    pub fn is_connected(&self) -> (connected: bool)
        ensures
            connected == self@.connected,
    {
        self.connected
    }

    /// The request whose outcome is awaited, if a capture is under way.
    pub fn awaiting(&self) -> (request: Option<SwayRequest>)
        ensures
            request == self@.awaiting,
    {
        self.awaiting
    }

    /// Begins a capture, giving up one that was under way. Where a connection
    /// is held it is used again; else it is opened first.
    pub fn capture(&mut self) -> (step: SwayStep)
        ensures
            step == SwayStep::Perform(first_request(old(self)@.connected)),
            final(self)@ == (SwayProgress {
                connected: old(self)@.connected,
                awaiting: Some(first_request(old(self)@.connected)),
                windows: Seq::empty(),
            }),
    {
        let request = if self.connected {
            SwayRequest::GetTree
        } else {
            SwayRequest::Connect
        };
        self.awaiting = Some(request);
        self.windows = Vec::new();
        assert(window_views(self.windows@) =~= Seq::empty());
        SwayStep::Perform(request)
    }

    /// Takes the outcome of the request last handed out. A failure ends the
    /// capture with its error and gives the connection up; the workspace list
    /// ends it with the snapshot.
    pub fn accept(&mut self, reply: SwayReply) -> (step: SwayStep)
        ensures
            final(self)@ == sway_next(old(self)@, reply),
            step@ == sway_output(old(self)@, reply),
    {
        let awaiting = self.awaiting;
        match (awaiting, reply) {
            (Some(SwayRequest::Connect), SwayReply::Connected) => {
                self.connected = true;
                self.awaiting = Some(SwayRequest::GetTree);
                SwayStep::Perform(SwayRequest::GetTree)
            },
            (Some(SwayRequest::GetTree), SwayReply::Tree(tree)) => {
                let mut windows: Vec<WindowInfo> = Vec::new();
                assert(window_views(windows@) =~= Seq::empty());
                collect_windows(&tree, &mut windows);
                assert(window_views(windows@) =~= tree_windows(tree));
                self.windows = windows;
                self.awaiting = Some(SwayRequest::GetWorkspaces);
                SwayStep::Perform(SwayRequest::GetWorkspaces)
            },
            (Some(SwayRequest::GetWorkspaces), SwayReply::Workspaces(workspaces)) => {
                self.awaiting = None;
                let desktop = focused_workspace(&workspaces);
                let mut windows: Vec<WindowInfo> = Vec::new();
                std::mem::swap(&mut windows, &mut self.windows);
                assert(window_views(self.windows@) =~= Seq::empty());
                SwayStep::Done(Ok(CaptureState { windows, desktop }))
            },
            (Some(request), SwayReply::Failed(cause)) => {
                self.connected = false;
                self.awaiting = None;
                let kind = match request {
                    SwayRequest::Connect => ErrorKind::Connect,
                    SwayRequest::GetTree => ErrorKind::Tree,
                    SwayRequest::GetWorkspaces => ErrorKind::Workspaces,
                };
                SwayStep::Done(Err(BackendError { kind, detail: cause }))
            },
            (_, _) => {
                self.connected = false;
                self.awaiting = None;
                SwayStep::Done(
                    Err(BackendError { kind: ErrorKind::OutOfTurn, detail: String::new() }),
                )
            },
        }
    }
}

/// The nodes of a tree, depth first: the node itself, then what is under its
/// tiling children, then what is under its floating children.
pub open spec fn tree_nodes(node: TreeNode) -> Seq<TreeNode>
    decreases node, 0nat,
{
    seq![node] + forest_nodes(node.nodes@, node.nodes@.len()) + forest_nodes(
        node.floating_nodes@,
        node.floating_nodes@.len(),
    )
}

/// The nodes of the first `count` trees of a list, in the order of the list.
pub open spec fn forest_nodes(nodes: Seq<TreeNode>, count: nat) -> Seq<TreeNode>
    decreases nodes, count,
{
    if count == 0 || count > nodes.len() {
        Seq::empty()
    } else {
        forest_nodes(nodes, (count - 1) as nat) + tree_nodes(nodes[count - 1])
    }
}

/// The entries of those nodes of a list that stand for a window, in the order
/// of the list.
pub open spec fn windows_among(nodes: Seq<TreeNode>) -> Seq<WindowInfoView>
    decreases nodes.len(),
{
    if nodes.len() == 0 {
        Seq::empty()
    } else {
        windows_among(nodes.drop_last()) + own_windows(nodes.last())
    }
}

/// How many nodes of a list stand for a window and hold the focus.
pub open spec fn focused_windows(nodes: Seq<TreeNode>) -> nat
    decreases nodes.len(),
{
    if nodes.len() == 0 {
        0
    } else {
        focused_windows(nodes.drop_last()) + if shows_window(nodes.last())
            && nodes.last().focused {
            1nat
        } else {
            0nat
        }
    }
}

/// The windows among two lists of nodes are those among the first, then
/// those among the second.
pub proof fn lemma_windows_among_concat(first: Seq<TreeNode>, second: Seq<TreeNode>)
    ensures
        windows_among(first + second) == windows_among(first) + windows_among(second),
    decreases second.len(),
{
    if second.len() == 0 {
        assert(first + second =~= first);
        assert(windows_among(first) + windows_among(second) =~= windows_among(first));
    } else {
        assert((first + second).drop_last() =~= first + second.drop_last());
        assert((first + second).last() == second.last());
        lemma_windows_among_concat(first, second.drop_last());
        assert(windows_among(first + second) =~= windows_among(first) + windows_among(second));
    }
}

/// The focused windows among two lists of nodes add up.
pub proof fn lemma_focused_windows_concat(first: Seq<TreeNode>, second: Seq<TreeNode>)
    ensures
        focused_windows(first + second) == focused_windows(first) + focused_windows(second),
    decreases second.len(),
{
    if second.len() == 0 {
        assert(first + second =~= first);
    } else {
        assert((first + second).drop_last() =~= first + second.drop_last());
        assert((first + second).last() == second.last());
        lemma_focused_windows_concat(first, second.drop_last());
    }
}

/// A snapshot holds, in depth-first order, one entry for each node of the
/// tree that stands for a window, and nothing else: a node is in it if and
/// only if it is a container with an application identifier, a class hint or
/// a name, and with a process.
pub proof fn law_windows_are_window_nodes(node: TreeNode)
    ensures
        tree_windows(node) == windows_among(tree_nodes(node)),
    decreases node, 0nat,
{
    let tiled = forest_nodes(node.nodes@, node.nodes@.len());
    let floating = forest_nodes(node.floating_nodes@, node.floating_nodes@.len());
    law_forest_windows_are_window_nodes(node.nodes@, node.nodes@.len());
    law_forest_windows_are_window_nodes(node.floating_nodes@, node.floating_nodes@.len());
    lemma_windows_among_concat(seq![node] + tiled, floating);
    lemma_windows_among_concat(seq![node], tiled);
    let single = seq![node];
    assert(single.drop_last() =~= Seq::<TreeNode>::empty());
    assert(windows_among(single.drop_last()) =~= Seq::<WindowInfoView>::empty());
    assert(single.last() == node);
    assert(windows_among(single) =~= own_windows(node));
}

/// The same of the first `count` trees of a list.
pub proof fn law_forest_windows_are_window_nodes(nodes: Seq<TreeNode>, count: nat)
    ensures
        forest_windows(nodes, count) == windows_among(forest_nodes(nodes, count)),
    decreases nodes, count,
{
    if count == 0 || count > nodes.len() {
    } else {
        law_forest_windows_are_window_nodes(nodes, (count - 1) as nat);
        law_windows_are_window_nodes(nodes[count - 1]);
        lemma_windows_among_concat(
            forest_nodes(nodes, (count - 1) as nat),
            tree_nodes(nodes[count - 1]),
        );
    }
}

/// The entry of a node that stands for a window: the program is the
/// application identifier, else the class hint, else empty; the title is
/// the name, else empty; and it is active iff the node is focused.
pub proof fn law_window_entry(node: TreeNode)
    ensures
        own_windows(node).len() == (if shows_window(node) {
            1nat
        } else {
            0nat
        }),
        shows_window(node) ==> own_windows(node)[0] == tree_window(node),
        node.app_id is Some ==> tree_window(node).program == node.app_id->Some_0@,
        node.app_id is None && node.class is Some ==> tree_window(node).program
            == node.class->Some_0@,
        node.app_id is None && node.class is None ==> tree_window(node).program
            == Seq::<char>::empty(),
        node.name is Some ==> tree_window(node).title == node.name->Some_0@,
        node.name is None ==> tree_window(node).title == Seq::<char>::empty(),
        tree_window(node).active == node.focused,
{
}

/// As many windows of a list of nodes are active as there are focused
/// window nodes in it.
pub proof fn lemma_active_among(nodes: Seq<TreeNode>)
    ensures
        active_count(windows_among(nodes)) == focused_windows(nodes),
    decreases nodes.len(),
{
    if nodes.len() > 0 {
        lemma_active_among(nodes.drop_last());
        lemma_active_count_concat(windows_among(nodes.drop_last()), own_windows(nodes.last()));
        let own = own_windows(nodes.last());
        if shows_window(nodes.last()) {
            assert(own.drop_last() =~= Seq::<WindowInfoView>::empty());
            assert(active_count(own.drop_last()) == 0);
        }
    }
}

/// As many windows of a snapshot are active as the tree has focused window
/// nodes: one where the compositor reports one focused window, none where
/// it reports none.
pub proof fn law_active_windows_are_focused_nodes(node: TreeNode)
    ensures
        active_count(tree_windows(node)) == focused_windows(tree_nodes(node)),
{
    law_windows_are_window_nodes(node);
    lemma_active_among(tree_nodes(node));
}

/// After a failure, whatever it was, no connection is held and the next
/// capture opens one first; the failed capture still ends in its error.
pub proof fn law_failure_drops_connection(before: SwayProgress, reply: SwayReply)
    requires
        sway_error(before.awaiting, reply) is Some,
    ensures
        sway_output(before, reply) == SwayStepView::Failed(
            sway_error(before.awaiting, reply)->Some_0,
        ),
        !sway_next(before, reply).connected,
        sway_next(before, reply).awaiting.is_none(),
        first_request(sway_next(before, reply).connected) == SwayRequest::Connect,
{
}

/// A capture without a connection opens one, asks for the tree and for the
/// workspaces, and ends in the snapshot of the two; the connection is then
/// held, and the next capture asks for the tree at once.
pub proof fn law_capture_connects_once(
    before: SwayProgress,
    tree: TreeNode,
    workspaces: Vec<SwayWorkspace>,
)
    requires
        before.awaiting == Some(SwayRequest::Connect),
    ensures
        ({
            let after_connect = sway_next(before, SwayReply::Connected);
            let after_tree = sway_next(after_connect, SwayReply::Tree(tree));
            let end = sway_next(after_tree, SwayReply::Workspaces(workspaces));
            &&& sway_output(before, SwayReply::Connected) == SwayStepView::Perform(
                SwayRequest::GetTree,
            )
            &&& sway_output(after_connect, SwayReply::Tree(tree)) == SwayStepView::Perform(
                SwayRequest::GetWorkspaces,
            )
            &&& sway_output(after_tree, SwayReply::Workspaces(workspaces))
                == SwayStepView::Captured(
                CaptureStateView {
                    windows: tree_windows(tree),
                    desktop: sway_desktop(workspaces@),
                },
            )
            &&& end.connected
            &&& end.awaiting.is_none()
            &&& first_request(end.connected) == SwayRequest::GetTree
        }),
{
}

} // verus!
