use arbtt_wayland::backend::niri::{
    convert_windows, focused_desktop, label_of, name_of, NiriBackend, NiriReply, NiriRequest,
    NiriResponse, NiriStep, NiriWindow, NiriWorkspace,
};
use arbtt_wayland::backend::sway::{
    collect_windows, focused_workspace, NodeKind, SwayBackend, SwayReply, SwayRequest, SwayStep,
    SwayWorkspace, TreeNode,
};
use arbtt_wayland::backend::{
    detect_backend, marker, BackendError, BackendKind, CaptureState, ErrorKind, WindowInfo,
};
use arbtt_wayland::text::owned_or_empty;

fn info(title: &str, program: &str, active: bool) -> WindowInfo {
    WindowInfo { title: title.to_string(), program: program.to_string(), active }
}

fn text(value: &str) -> Option<String> {
    Some(value.to_string())
}

fn node(kind: NodeKind) -> TreeNode {
    TreeNode {
        kind,
        name: None,
        app_id: None,
        class: None,
        pid: None,
        focused: false,
        nodes: vec![],
        floating_nodes: vec![],
    }
}

fn view(app_id: &str, title: &str, focused: bool) -> TreeNode {
    TreeNode {
        name: text(title),
        app_id: text(app_id),
        pid: Some(100),
        focused,
        ..node(NodeKind::Con)
    }
}

fn windows_of(tree: &TreeNode) -> Vec<WindowInfo> {
    let mut windows = Vec::new();
    collect_windows(tree, &mut windows);
    windows
}

fn niri_window(id: u64, title: Option<&str>, app_id: Option<&str>) -> NiriWindow {
    NiriWindow { id, title: title.map(String::from), app_id: app_id.map(String::from) }
}

fn workspace(idx: u8, name: Option<&str>, is_focused: bool) -> NiriWorkspace {
    NiriWorkspace { idx, name: name.map(String::from), is_focused }
}

fn failed(kind: ErrorKind, detail: &str) -> BackendError {
    BackendError { kind, detail: detail.to_string() }
}

#[test]
fn sway_marker_selects_sway() {
    assert_eq!(detect_backend(true, false), Ok(BackendKind::Sway));
}

#[test]
fn niri_marker_selects_niri() {
    assert_eq!(detect_backend(false, true), Ok(BackendKind::Niri));
}

#[test]
fn sway_marker_goes_before_niri_marker() {
    assert_eq!(detect_backend(true, true), Ok(BackendKind::Sway));
}

#[test]
fn no_marker_is_an_error_that_names_both() {
    let error = detect_backend(false, false).unwrap_err();
    assert_eq!(error.kind, ErrorKind::NoCompositor);
    assert_eq!(error.detail, "");
    let message = error.message();
    assert_eq!(message, "No supported compositor detected (checked: SWAYSOCK, NIRI_SOCKET)");
    assert!(message.contains(marker(BackendKind::Sway)));
    assert!(message.contains(marker(BackendKind::Niri)));
}

#[test]
fn markers_are_the_socket_variables() {
    assert_eq!(marker(BackendKind::Sway), "SWAYSOCK");
    assert_eq!(marker(BackendKind::Niri), "NIRI_SOCKET");
}

#[test]
fn messages_of_sway_errors() {
    assert_eq!(failed(ErrorKind::Connect, "refused").message(), "failed to connect to sway socket");
    assert_eq!(failed(ErrorKind::Tree, "x").message(), "failed to get window tree");
    assert_eq!(failed(ErrorKind::Workspaces, "x").message(), "failed to get workspaces");
    assert_eq!(failed(ErrorKind::OutOfTurn, "").message(), "reply without a request");
}

#[test]
fn messages_of_niri_errors() {
    assert_eq!(
        failed(ErrorKind::Send(NiriRequest::Windows), "broken pipe").message(),
        "failed to send Windows request"
    );
    assert_eq!(
        failed(ErrorKind::Unexpected(NiriRequest::FocusedWindow), "Handled").message(),
        "unexpected response to FocusedWindow request: Handled"
    );
    assert_eq!(
        failed(ErrorKind::Refused(NiriRequest::Workspaces), "no such thing").message(),
        "niri error on Workspaces request: no such thing"
    );
}

#[test]
fn request_names() {
    assert_eq!(name_of(NiriRequest::Windows), "Windows");
    assert_eq!(name_of(NiriRequest::FocusedWindow), "FocusedWindow");
    assert_eq!(name_of(NiriRequest::Workspaces), "Workspaces");
}

#[test]
fn owned_or_empty_copies_or_defaults() {
    assert_eq!(owned_or_empty(&text("abc")), "abc");
    assert_eq!(owned_or_empty(&None), "");
}

#[test]
fn niri_windows_are_active_by_identifier() {
    let windows = vec![
        niri_window(1, Some("One"), Some("one")),
        niri_window(2, None, Some("two")),
        niri_window(3, Some("Three"), None),
    ];
    assert_eq!(
        convert_windows(&windows, Some(2)),
        vec![info("One", "one", false), info("", "two", true), info("Three", "", false)]
    );
}

#[test]
fn niri_windows_without_focus_are_all_inactive() {
    let windows = vec![niri_window(1, Some("One"), Some("one")), niri_window(2, None, None)];
    let infos = convert_windows(&windows, None);
    assert_eq!(infos, vec![info("One", "one", false), info("", "", false)]);
    assert_eq!(infos.iter().filter(|w| w.active).count(), 0);
}

#[test]
fn niri_focus_on_an_unlisted_window_activates_none() {
    let windows = vec![niri_window(1, None, None), niri_window(2, None, None)];
    let infos = convert_windows(&windows, Some(9));
    assert_eq!(infos.iter().filter(|w| w.active).count(), 0);
}

#[test]
fn niri_one_focused_window_gives_one_active() {
    let windows: Vec<NiriWindow> = (0..20).map(|id| niri_window(id, None, None)).collect();
    for focused in 0..20 {
        let infos = convert_windows(&windows, Some(focused));
        assert_eq!(infos.iter().filter(|w| w.active).count(), 1);
        assert!(infos[focused as usize].active);
    }
}

#[test]
fn niri_no_windows() {
    assert_eq!(convert_windows(&vec![], Some(1)), vec![]);
}

#[test]
fn workspace_label_is_name_or_index() {
    assert_eq!(label_of(&workspace(3, Some("web"), true)), "web");
    assert_eq!(label_of(&workspace(3, None, true)), "workspace-3");
    assert_eq!(label_of(&workspace(0, None, false)), "workspace-0");
    assert_eq!(label_of(&workspace(255, None, false)), "workspace-255");
    assert_eq!(label_of(&workspace(1, Some(""), false)), "");
}

#[test]
fn niri_desktop_is_the_first_focused_workspace() {
    let workspaces =
        vec![workspace(1, Some("a"), false), workspace(2, None, true), workspace(3, Some("c"), true)];
    assert_eq!(focused_desktop(&workspaces), "workspace-2");
}

#[test]
fn niri_desktop_is_unknown_without_focus() {
    assert_eq!(focused_desktop(&vec![]), "unknown");
    assert_eq!(focused_desktop(&vec![workspace(1, Some("a"), false)]), "unknown");
}

#[test]
fn niri_capture_in_three_exchanges() {
    let mut backend = NiriBackend::new();
    assert_eq!(backend.awaiting(), None);
    assert_eq!(backend.capture(), NiriStep::Send(NiriRequest::Windows));
    assert_eq!(backend.awaiting(), Some(NiriRequest::Windows));
    let windows = vec![niri_window(7, Some("Editor"), Some("editor")), niri_window(8, None, None)];
    assert_eq!(
        backend.accept(NiriReply::Answered(NiriResponse::Windows(windows))),
        NiriStep::Send(NiriRequest::FocusedWindow)
    );
    assert_eq!(
        backend.accept(NiriReply::Answered(NiriResponse::FocusedWindow(Some(7)))),
        NiriStep::Send(NiriRequest::Workspaces)
    );
    let workspaces = vec![workspace(1, Some("main"), true)];
    assert_eq!(
        backend.accept(NiriReply::Answered(NiriResponse::Workspaces(workspaces))),
        NiriStep::Done(Ok(CaptureState {
            windows: vec![info("Editor", "editor", true), info("", "", false)],
            desktop: "main".to_string(),
        }))
    );
    assert_eq!(backend.awaiting(), None);
}

#[test]
fn niri_captures_do_not_leak_into_each_other() {
    let mut backend = NiriBackend::new();
    backend.capture();
    backend.accept(NiriReply::Answered(NiriResponse::Windows(vec![niri_window(1, None, None)])));
    backend.accept(NiriReply::Answered(NiriResponse::FocusedWindow(Some(1))));
    backend.accept(NiriReply::Answered(NiriResponse::Workspaces(vec![])));
    backend.capture();
    backend.accept(NiriReply::Answered(NiriResponse::Windows(vec![niri_window(1, None, None)])));
    backend.accept(NiriReply::Answered(NiriResponse::FocusedWindow(None)));
    assert_eq!(
        backend.accept(NiriReply::Answered(NiriResponse::Workspaces(vec![]))),
        NiriStep::Done(Ok(CaptureState {
            windows: vec![info("", "", false)],
            desktop: "unknown".to_string(),
        }))
    );
}

#[test]
fn niri_send_failure_aborts() {
    let mut backend = NiriBackend::new();
    backend.capture();
    assert_eq!(
        backend.accept(NiriReply::SendFailed("broken pipe".to_string())),
        NiriStep::Done(Err(failed(ErrorKind::Send(NiriRequest::Windows), "broken pipe")))
    );
    assert_eq!(backend.awaiting(), None);
}

#[test]
fn niri_error_reply_aborts_at_each_request() {
    let mut backend = NiriBackend::new();
    backend.capture();
    backend.accept(NiriReply::Answered(NiriResponse::Windows(vec![])));
    assert_eq!(
        backend.accept(NiriReply::Refused("busy".to_string())),
        NiriStep::Done(Err(failed(ErrorKind::Refused(NiriRequest::FocusedWindow), "busy")))
    );
    assert_eq!(backend.awaiting(), None);
    backend.capture();
    backend.accept(NiriReply::Answered(NiriResponse::Windows(vec![])));
    backend.accept(NiriReply::Answered(NiriResponse::FocusedWindow(None)));
    assert_eq!(
        backend.accept(NiriReply::Refused("busy".to_string())),
        NiriStep::Done(Err(failed(ErrorKind::Refused(NiriRequest::Workspaces), "busy")))
    );
}

#[test]
fn niri_unexpected_response_aborts() {
    let mut backend = NiriBackend::new();
    backend.capture();
    assert_eq!(
        backend.accept(NiriReply::Answered(NiriResponse::Other("Handled".to_string()))),
        NiriStep::Done(Err(failed(ErrorKind::Unexpected(NiriRequest::Windows), "Handled")))
    );
    backend.capture();
    assert_eq!(
        backend.accept(NiriReply::Answered(NiriResponse::Workspaces(vec![]))),
        NiriStep::Done(Err(failed(ErrorKind::Unexpected(NiriRequest::Windows), "Workspaces")))
    );
    backend.capture();
    backend.accept(NiriReply::Answered(NiriResponse::Windows(vec![])));
    assert_eq!(
        backend.accept(NiriReply::Answered(NiriResponse::Windows(vec![]))),
        NiriStep::Done(Err(failed(ErrorKind::Unexpected(NiriRequest::FocusedWindow), "Windows")))
    );
    backend.capture();
    backend.accept(NiriReply::Answered(NiriResponse::Windows(vec![])));
    backend.accept(NiriReply::Answered(NiriResponse::FocusedWindow(None)));
    assert_eq!(
        backend.accept(NiriReply::Answered(NiriResponse::FocusedWindow(None))),
        NiriStep::Done(Err(failed(
            ErrorKind::Unexpected(NiriRequest::Workspaces),
            "FocusedWindow"
        )))
    );
}

#[test]
fn niri_reply_without_capture_is_out_of_turn() {
    let mut backend = NiriBackend::new();
    assert_eq!(
        backend.accept(NiriReply::Answered(NiriResponse::Windows(vec![]))),
        NiriStep::Done(Err(failed(ErrorKind::OutOfTurn, "")))
    );
    assert_eq!(backend.awaiting(), None);
}

#[test]
fn tree_node_needs_container_kind() {
    for kind in [
        NodeKind::Root,
        NodeKind::Output,
        NodeKind::Workspace,
        NodeKind::Dockarea,
        NodeKind::Other,
    ] {
        let tree = TreeNode { kind, ..view("app", "Title", true) };
        assert_eq!(windows_of(&tree), vec![]);
    }
    for kind in [NodeKind::Con, NodeKind::FloatingCon] {
        let tree = TreeNode { kind, ..view("app", "Title", true) };
        assert_eq!(windows_of(&tree), vec![info("Title", "app", true)]);
    }
}

#[test]
fn tree_node_needs_a_process() {
    let tree = TreeNode { pid: None, ..view("app", "Title", false) };
    assert_eq!(windows_of(&tree), vec![]);
}

#[test]
fn tree_node_needs_identifier_class_or_name() {
    let bare = TreeNode { pid: Some(1), ..node(NodeKind::Con) };
    assert_eq!(windows_of(&bare), vec![]);
    let named = TreeNode { name: text("Title"), pid: Some(1), ..node(NodeKind::Con) };
    assert_eq!(windows_of(&named), vec![info("Title", "", false)]);
    let classed = TreeNode { class: text("XTerm"), pid: Some(1), ..node(NodeKind::Con) };
    assert_eq!(windows_of(&classed), vec![info("", "XTerm", false)]);
    let identified = TreeNode { app_id: text("foot"), pid: Some(1), ..node(NodeKind::Con) };
    assert_eq!(windows_of(&identified), vec![info("", "foot", false)]);
}

#[test]
fn program_prefers_identifier_over_class() {
    let both = TreeNode { class: text("XTerm"), ..view("foot", "t", false) };
    assert_eq!(windows_of(&both), vec![info("t", "foot", false)]);
    let class_only = TreeNode { app_id: None, class: text("XTerm"), ..view("", "t", false) };
    assert_eq!(windows_of(&class_only), vec![info("t", "XTerm", false)]);
}

#[test]
fn tree_is_walked_depth_first_tiling_before_floating() {
    let tree = TreeNode {
        nodes: vec![
            TreeNode {
                nodes: vec![
                    TreeNode {
                        nodes: vec![view("a", "A", false)],
                        floating_nodes: vec![view("b", "B", false)],
                        ..view("split", "Split", false)
                    },
                    view("c", "C", true),
                ],
                floating_nodes: vec![TreeNode { kind: NodeKind::FloatingCon, ..view("d", "D", false) }],
                ..node(NodeKind::Workspace)
            },
            TreeNode { nodes: vec![view("e", "E", false)], ..node(NodeKind::Output) },
        ],
        floating_nodes: vec![view("f", "F", false)],
        ..node(NodeKind::Root)
    };
    assert_eq!(
        windows_of(&tree),
        vec![
            info("Split", "split", false),
            info("A", "a", false),
            info("B", "b", false),
            info("C", "c", true),
            info("D", "d", false),
            info("E", "e", false),
            info("F", "f", false),
        ]
    );
}

#[test]
fn collect_appends_to_what_is_there() {
    let mut windows = vec![info("kept", "kept", false)];
    collect_windows(&view("a", "A", true), &mut windows);
    assert_eq!(windows, vec![info("kept", "kept", false), info("A", "a", true)]);
}

#[test]
fn active_follows_the_focus_flag_of_each_node() {
    let tree = TreeNode {
        nodes: vec![view("a", "A", false), view("b", "B", true), view("c", "C", false)],
        ..node(NodeKind::Workspace)
    };
    let windows = windows_of(&tree);
    assert_eq!(windows.iter().filter(|w| w.active).count(), 1);
    assert!(windows[1].active);
    let unfocused = TreeNode {
        focused: true,
        nodes: vec![view("a", "A", false), view("b", "B", false)],
        ..node(NodeKind::Workspace)
    };
    assert_eq!(windows_of(&unfocused).iter().filter(|w| w.active).count(), 0);
}

#[test]
fn sway_desktop_is_the_first_focused_workspace() {
    let workspaces = vec![
        SwayWorkspace { name: "1".to_string(), focused: false },
        SwayWorkspace { name: "2:web".to_string(), focused: true },
        SwayWorkspace { name: "3".to_string(), focused: true },
    ];
    assert_eq!(focused_workspace(&workspaces), "2:web");
}

#[test]
fn sway_desktop_is_unknown_without_focus() {
    assert_eq!(focused_workspace(&vec![]), "unknown");
    let workspaces = vec![SwayWorkspace { name: "1".to_string(), focused: false }];
    assert_eq!(focused_workspace(&workspaces), "unknown");
}

#[test]
fn sway_connects_lazily_and_once() {
    let mut backend = SwayBackend::new();
    assert!(!backend.is_connected());
    assert_eq!(backend.awaiting(), None);
    assert_eq!(backend.capture(), SwayStep::Perform(SwayRequest::Connect));
    assert_eq!(backend.accept(SwayReply::Connected), SwayStep::Perform(SwayRequest::GetTree));
    assert!(backend.is_connected());
    let tree = TreeNode { nodes: vec![view("editor", "Editor", true)], ..node(NodeKind::Root) };
    assert_eq!(backend.accept(SwayReply::Tree(tree)), SwayStep::Perform(SwayRequest::GetWorkspaces));
    let workspaces = vec![SwayWorkspace { name: "main".to_string(), focused: true }];
    assert_eq!(
        backend.accept(SwayReply::Workspaces(workspaces)),
        SwayStep::Done(Ok(CaptureState {
            windows: vec![info("Editor", "editor", true)],
            desktop: "main".to_string(),
        }))
    );
    assert!(backend.is_connected());
    assert_eq!(backend.awaiting(), None);
    assert_eq!(backend.capture(), SwayStep::Perform(SwayRequest::GetTree));
}

#[test]
fn sway_connect_failure() {
    let mut backend = SwayBackend::new();
    backend.capture();
    assert_eq!(
        backend.accept(SwayReply::Failed("no socket".to_string())),
        SwayStep::Done(Err(failed(ErrorKind::Connect, "no socket")))
    );
    assert!(!backend.is_connected());
    assert_eq!(backend.capture(), SwayStep::Perform(SwayRequest::Connect));
}

#[test]
fn sway_tree_failure_drops_the_connection() {
    let mut backend = SwayBackend::new();
    backend.capture();
    backend.accept(SwayReply::Connected);
    assert_eq!(
        backend.accept(SwayReply::Failed("eof".to_string())),
        SwayStep::Done(Err(failed(ErrorKind::Tree, "eof")))
    );
    assert!(!backend.is_connected());
    assert_eq!(backend.awaiting(), None);
    assert_eq!(backend.capture(), SwayStep::Perform(SwayRequest::Connect));
}

#[test]
fn sway_workspaces_failure_drops_the_connection() {
    let mut backend = SwayBackend::new();
    backend.capture();
    backend.accept(SwayReply::Connected);
    backend.accept(SwayReply::Tree(node(NodeKind::Root)));
    assert_eq!(
        backend.accept(SwayReply::Failed("eof".to_string())),
        SwayStep::Done(Err(failed(ErrorKind::Workspaces, "eof")))
    );
    assert!(!backend.is_connected());
    assert_eq!(backend.capture(), SwayStep::Perform(SwayRequest::Connect));
}

#[test]
fn sway_recovers_after_a_failure() {
    let mut backend = SwayBackend::new();
    backend.capture();
    backend.accept(SwayReply::Connected);
    backend.accept(SwayReply::Failed("eof".to_string()));
    backend.capture();
    backend.accept(SwayReply::Connected);
    backend.accept(SwayReply::Tree(view("a", "A", false)));
    assert_eq!(
        backend.accept(SwayReply::Workspaces(vec![])),
        SwayStep::Done(Ok(CaptureState {
            windows: vec![info("A", "a", false)],
            desktop: "unknown".to_string(),
        }))
    );
    assert!(backend.is_connected());
}

#[test]
fn sway_reply_out_of_turn() {
    let mut backend = SwayBackend::new();
    assert_eq!(
        backend.accept(SwayReply::Connected),
        SwayStep::Done(Err(failed(ErrorKind::OutOfTurn, "")))
    );
    backend.capture();
    backend.accept(SwayReply::Connected);
    assert_eq!(
        backend.accept(SwayReply::Workspaces(vec![])),
        SwayStep::Done(Err(failed(ErrorKind::OutOfTurn, "")))
    );
    assert!(!backend.is_connected());
    assert_eq!(backend.awaiting(), None);
}

#[test]
fn sway_windows_do_not_leak_into_the_next_capture() {
    let mut backend = SwayBackend::new();
    backend.capture();
    backend.accept(SwayReply::Connected);
    backend.accept(SwayReply::Tree(view("a", "A", false)));
    backend.accept(SwayReply::Workspaces(vec![]));
    backend.capture();
    backend.accept(SwayReply::Tree(view("b", "B", false)));
    assert_eq!(
        backend.accept(SwayReply::Workspaces(vec![])),
        SwayStep::Done(Ok(CaptureState {
            windows: vec![info("B", "b", false)],
            desktop: "unknown".to_string(),
        }))
    );
}

#[test]
fn cause_of_backend_errors() {
    assert_eq!(failed(ErrorKind::Connect, "refused").cause(), text("refused"));
    assert_eq!(failed(ErrorKind::Tree, "eof").cause(), text("eof"));
    assert_eq!(failed(ErrorKind::Workspaces, "eof").cause(), text("eof"));
    assert_eq!(failed(ErrorKind::Send(NiriRequest::Windows), "pipe").cause(), text("pipe"));
    assert_eq!(failed(ErrorKind::Refused(NiriRequest::Windows), "busy").cause(), None);
    assert_eq!(failed(ErrorKind::Unexpected(NiriRequest::Windows), "Handled").cause(), None);
    assert_eq!(failed(ErrorKind::NoCompositor, "").cause(), None);
    assert_eq!(failed(ErrorKind::OutOfTurn, "").cause(), None);
}
