use mobailmux::terminal::{panel_html, visible_stdout, RUN_ROUTE};

#[test]
fn strips_private_protocol_markers_from_output() {
    let marker = "__TEST__";
    let parsed = visible_stdout("hello\n__TEST__STATUS:0\n__TEST__PWD:/tmp\n", marker, "/");
    assert_eq!(parsed, ("hello\n".into(), Some(0), "/tmp".into()));
}

#[test]
fn panel_exposes_terminal_without_file_or_folder_controls() {
    let panel = panel_html(7, "/runtime/project");
    assert!(panel.contains("data-terminal-form"));
    assert!(panel.contains("name=\"command\""));
    assert!(!panel.contains("type=\"file\""));
    assert!(!panel.contains("Create folder"));
    assert_eq!(RUN_ROUTE, "/agents/terminal/run");
}
