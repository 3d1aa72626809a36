use hterm_h2::pane::{
    CursorVisibility, H2Pane, H2PaneKind, Line, MetadataValue, PaneIds, RenderableDimensions,
    TerminalSize,
};
use std::io::Write;

fn size(rows: usize, cols: usize) -> TerminalSize {
    TerminalSize {
        rows,
        cols,
        pixel_width: 240,
        pixel_height: 80,
        dpi: 96,
    }
}

fn strings(lines: &[&str]) -> Vec<String> {
    lines.iter().map(|line| line.to_string()).collect()
}

fn shown(lines: &[Line]) -> Vec<String> {
    lines.iter().map(|line| line.as_str().to_string()).collect()
}

#[test]
fn h2_pane_renders_text_lines() {
    let mut pane = H2Pane::new(
        1,
        H2PaneKind::Kanban,
        TerminalSize {
            rows: 4,
            cols: 24,
            pixel_width: 240,
            pixel_height: 80,
            dpi: 96,
        },
    );

    pane.set_lines(vec!["H2 Kanban".into(), "events: 3".into()]);

    let (_first, lines) = pane.get_lines(0..4);
    let text: Vec<_> = lines.iter().map(|line| line.as_str().to_string()).collect();

    assert_eq!(text, vec!["H2 Kanban", "events: 3", "", ""]);
    assert_eq!(pane.get_title(), "H2 Kanban");
    assert_eq!(pane.get_dimensions().viewport_rows, 4);
}

#[test]
fn new_panes_show_their_title() {
    let graph = H2Pane::new(7, H2PaneKind::Graph, size(2, 24));
    assert_eq!(graph.pane_id(), 7);
    assert_eq!(graph.kind(), H2PaneKind::Graph);
    assert_eq!(graph.kind().title(), "H2 Graph");
    assert_eq!(graph.get_title(), "H2 Graph");
    assert_eq!(graph.get_current_seqno(), 2);
    assert_eq!(shown(&graph.get_lines(0..2).1), vec!["H2 Graph", ""]);
    let kanban = H2Pane::new(8, H2PaneKind::Kanban, size(1, 4));
    assert_eq!(kanban.kind().title(), "H2 Kanban");
    assert_eq!(shown(&kanban.get_lines(0..1).1), vec!["H2 K"]);
}

#[test]
fn lines_are_cut_by_characters() {
    let mut pane = H2Pane::new(1, H2PaneKind::Graph, size(2, 3));
    pane.set_lines(strings(&["äöüß", "日本", "below"]));
    let (first, lines) = pane.get_lines(0..2);
    assert_eq!(first, 0);
    assert_eq!(shown(&lines), vec!["äöü", "日本"]);
    assert!(lines.iter().all(|line| line.seqno == 1));
}

#[test]
fn empty_terminals_draw_one_cell() {
    let mut pane = H2Pane::new(1, H2PaneKind::Graph, size(0, 0));
    pane.set_lines(strings(&["abc", "def"]));
    assert_eq!(shown(&pane.get_lines(0..2).1), vec!["a", ""]);
    let dimensions = pane.get_dimensions();
    assert_eq!((dimensions.viewport_rows, dimensions.cols), (0, 0));
}

#[test]
fn rows_outside_are_repeated_or_blank() {
    let mut pane = H2Pane::new(1, H2PaneKind::Graph, size(2, 10));
    pane.set_lines(strings(&["one", "two"]));
    let (first, lines) = pane.get_lines(-2..4);
    assert_eq!(first, 0);
    assert_eq!(shown(&lines), vec!["one", "one", "one", "two", "", ""]);
    let seqnos: Vec<usize> = lines.iter().map(|line| line.seqno).collect();
    assert_eq!(seqnos, vec![1, 1, 1, 1, 0, 0]);
    let (first, lines) = pane.lines_to_edit(-2..4);
    assert_eq!(first, 0);
    assert_eq!(shown(&lines), vec!["one", "two", "", ""]);
    assert_eq!(pane.lines_to_edit(1..3), pane.get_lines(1..3));
    assert_eq!(pane.lines_to_edit(1..3).0, 1);
    assert!(pane.get_lines(3..1).1.is_empty());
    assert_eq!(pane.get_lines(3..1).0, 3);
    assert!(pane.lines_to_edit(-5..-1).1.is_empty());
}

#[test]
fn resizing_keeps_the_source() {
    let mut pane = H2Pane::new(1, H2PaneKind::Graph, size(2, 10));
    pane.set_lines(strings(&["one hundred", "two"]));
    let before = pane.get_lines(0..2);
    pane.resize(size(1, 3));
    assert_eq!(shown(&pane.get_lines(0..2).1), vec!["one", ""]);
    pane.resize(size(2, 10));
    assert_eq!(pane.get_lines(0..2), before);
    assert_eq!(pane.get_current_seqno(), 5);
}

#[test]
fn changes_are_noticed() {
    let mut pane = H2Pane::new(1, H2PaneKind::Graph, size(2, 10));
    let seqno = pane.get_current_seqno();
    assert_eq!(pane.get_changed_since(0..5, seqno), None);
    pane.set_lines(strings(&["x"]));
    assert_eq!(pane.get_changed_since(0..5, seqno), Some(0..5));
    let seqno = pane.get_current_seqno();
    pane.set_graph_node_count(3);
    assert_eq!(pane.get_changed_since(-1..1, seqno), Some(-1..1));
    let seqno = pane.get_current_seqno();
    pane.resize(size(2, 10));
    assert_eq!(pane.get_changed_since(0..1, seqno), Some(0..1));
    let seqno = pane.get_current_seqno();
    pane.kill();
    assert_eq!(pane.get_changed_since(0..1, seqno), None);
    assert_eq!(pane.get_changed_since(2..2, seqno - 1), None);
    assert_eq!(pane.get_changed_since(0..1, seqno - 1), Some(0..1));
}

#[test]
fn sequence_numbers_count_the_changes() {
    let mut pane = H2Pane::new(1, H2PaneKind::Graph, size(2, 10));
    let seqno = pane.get_current_seqno();
    for n in 0..5 {
        pane.set_graph_node_count(n);
        pane.set_lines(strings(&["x"]));
        pane.kill();
        pane.writer().push(0);
        pane.resize(size(n, n));
    }
    assert_eq!(pane.get_current_seqno(), seqno + 15);
}

#[test]
fn panes_have_ids_of_their_own() {
    let mut ids = PaneIds::new();
    let first = H2Pane::new(ids.alloc_pane_id(), H2PaneKind::Graph, size(2, 10));
    let mut second = H2Pane::new(ids.alloc_pane_id(), H2PaneKind::Graph, size(2, 10));
    second.kill();
    assert_eq!((first.pane_id(), second.pane_id()), (0, 1));
    assert_eq!(ids.alloc_pane_id(), 2);
}

#[test]
fn metadata_tells_kind_and_nodes() {
    let mut pane = H2Pane::new(1, H2PaneKind::Graph, size(2, 10));
    pane.set_graph_node_count(12);
    assert_eq!(
        pane.get_metadata(),
        vec![
            ("h2_graph_node_count".to_string(), MetadataValue::U64(12)),
            (
                "h2_pane_kind".to_string(),
                MetadataValue::String("graph".to_string())
            ),
        ]
    );
    let pane = H2Pane::new(1, H2PaneKind::Kanban, size(2, 10));
    assert_eq!(
        pane.get_metadata()[1].1,
        MetadataValue::String("kanban".to_string())
    );
}

#[test]
fn dimensions_are_those_of_the_terminal() {
    let pane = H2Pane::new(1, H2PaneKind::Kanban, size(4, 24));
    assert_eq!(
        pane.get_dimensions(),
        RenderableDimensions {
            cols: 24,
            viewport_rows: 4,
            scrollback_rows: 4,
            physical_top: 0,
            scrollback_top: 0,
            dpi: 96,
            pixel_width: 240,
            pixel_height: 80,
            reverse_video: false,
        }
    );
}

#[test]
fn killed_panes_stay_dead() {
    let mut pane = H2Pane::new(1, H2PaneKind::Graph, size(2, 10));
    assert!(!pane.is_dead());
    pane.kill();
    pane.set_lines(strings(&["x"]));
    pane.resize(size(3, 3));
    pane.set_graph_node_count(1);
    assert!(pane.is_dead());
    assert_eq!((pane.pane_id(), pane.kind()), (1, H2PaneKind::Graph));
}

#[test]
fn writes_go_to_the_sink() {
    let mut pane = H2Pane::new(1, H2PaneKind::Graph, size(2, 10));
    let lines = pane.get_lines(0..2);
    pane.writer().write_all(b"ls\n").unwrap();
    pane.writer().write_all(b"x").unwrap();
    assert_eq!(pane.writer().as_slice(), b"ls\nx");
    assert_eq!(pane.get_lines(0..2), lines);
    assert_eq!(pane.get_current_seqno(), 2);
}

#[test]
fn panes_are_inert() {
    let pane = H2Pane::new(1, H2PaneKind::Graph, size(2, 10));
    let cursor = pane.get_cursor_position();
    assert_eq!((cursor.x, cursor.y), (0, 0));
    assert_eq!(cursor.visibility, CursorVisibility::Hidden);
    assert_eq!(pane.domain_id(), 0);
    assert!(!pane.has_unseen_output());
    assert!(pane.can_close_without_prompting());
    assert!(!pane.is_mouse_grabbed());
    assert!(!pane.is_alt_screen_active());
}

#[test]
fn lines_are_copied_whole() {
    let line = Line::from_text("abc", 4);
    assert_eq!(line.clone(), line);
    assert_eq!(Line::new(2).as_str(), "");
    assert_eq!(Line::new(2).seqno, 2);
}
