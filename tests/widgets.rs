use neoman::focus::Selected;
use neoman::select_menu::{MenuEvent, MenuOption, SelectMenu};
use neoman::tabs::TabBar;
use neoman::text_field::{chars_of, InputMode, TextField};
use neoman::tree::{NavigableTree, TreeNode};

fn node(label: &str, depth: usize) -> TreeNode {
    TreeNode::new(String::from(label), depth)
}

// a; b { c; d { e; f }; g }; h
fn sample_tree() -> NavigableTree {
    let nodes = vec![
        node("a", 0),
        node("b", 0),
        node("c", 1),
        node("d", 1),
        node("e", 2),
        node("f", 2),
        node("g", 1),
        node("h", 0),
    ];
    assert!(NavigableTree::is_well_shaped(&nodes));
    NavigableTree::with_items(nodes)
}

fn visible_rows(t: &NavigableTree) -> Vec<usize> {
    (0..t.nodes.len()).filter(|&i| t.is_visible_at(i)).collect()
}

#[test]
fn tree_shape_check() {
    assert!(!NavigableTree::is_well_shaped(&vec![node("a", 1)]));
    assert!(!NavigableTree::is_well_shaped(&vec![node("a", 0), node("b", 2)]));
    assert!(NavigableTree::is_well_shaped(&vec![]));
}

#[test]
fn tree_collapsed_moves_skip_hidden_nodes() {
    let mut t = sample_tree();
    assert_eq!(visible_rows(&t), vec![0, 1, 7]);
    assert_eq!(t.selected(), Some(0));
    t.down();
    assert_eq!(t.selected(), Some(1));
    t.down();
    assert_eq!(t.selected(), Some(7));
    t.down();
    assert_eq!(t.selected(), Some(7));
    t.up();
    t.up();
    t.up();
    assert_eq!(t.selected(), Some(0));
}

#[test]
fn tree_cursor_stays_in_view_for_any_moves() {
    let mut t = sample_tree();
    t.down();
    t.right();
    let moves = [true, true, false, true, true, true, true, true, false, false, false, false, false, false];
    for down in moves {
        if down {
            t.down();
        } else {
            t.up();
        }
        let c = t.selected().unwrap();
        let rows = visible_rows(&t);
        let row = rows.iter().position(|&r| r == c).unwrap();
        assert!(row < rows.len());
    }
}

#[test]
fn tree_empty_is_noop() {
    let mut t = NavigableTree::with_items(vec![]);
    t.down();
    t.up();
    t.left();
    t.right();
    t.toggle();
    t.first();
    t.last();
    assert_eq!(t.selected(), None);
}

#[test]
fn tree_right_expands_then_enters() {
    let mut t = sample_tree();
    t.down();
    t.right();
    assert!(t.expanded[1]);
    assert_eq!(t.selected(), Some(1));
    assert_eq!(visible_rows(&t), vec![0, 1, 2, 3, 6, 7]);
    t.right();
    assert_eq!(t.selected(), Some(2));
    // a leaf: nothing happens
    t.right();
    assert_eq!(t.selected(), Some(2));
    t.last();
    assert_eq!(t.selected(), Some(7));
}

#[test]
fn tree_left_collapses_then_goes_to_parent() {
    let mut t = sample_tree();
    t.down();
    t.right();
    t.down();
    t.down();
    assert_eq!(t.selected(), Some(3));
    t.right();
    t.right();
    assert_eq!(t.selected(), Some(4));
    t.left();
    assert_eq!(t.selected(), Some(3));
    t.left();
    assert!(!t.expanded[3]);
    assert_eq!(t.selected(), Some(3));
    t.left();
    assert_eq!(t.selected(), Some(1));
    t.left();
    assert!(!t.expanded[1]);
    t.left();
    assert_eq!(t.selected(), Some(1));
}

#[test]
fn tree_toggle_twice_restores() {
    let mut t = sample_tree();
    t.down();
    let before = t.expanded.clone();
    t.toggle();
    assert_ne!(t.expanded, before);
    t.toggle();
    assert_eq!(t.expanded, before);
    // on a leaf toggling does nothing
    t.first();
    t.toggle();
    assert_eq!(t.expanded, before);
}

fn names(b: &TabBar) -> Vec<String> {
    b.tabs.iter().map(|t| t.name.clone()).collect()
}

#[test]
fn tabs_add_same_name_twice_gives_one_tab() {
    let mut b = TabBar::new();
    b.add(&String::from("a"));
    b.add(&String::from("x"));
    b.add(&String::from("x"));
    assert_eq!(names(&b), vec!["a", "x"]);
    assert_eq!(b.selected, 1);
    b.add(&String::from("x"));
    assert_eq!(names(&b), vec!["a", "x"]);
    assert_eq!(b.selected, 1);
    b.add(&String::from("a"));
    assert_eq!(b.selected, 0);
    assert_eq!(b.tabs.len(), 2);
}

#[test]
fn tabs_moves_stop_at_ends() {
    let mut b = TabBar::new();
    b.left();
    b.right();
    b.last();
    assert_eq!(b.selected, 0);
    for n in ["a", "b", "c"] {
        b.add(&String::from(n));
    }
    assert_eq!(b.selected, 2);
    b.right();
    assert_eq!(b.selected, 2);
    b.first();
    b.left();
    assert_eq!(b.selected, 0);
    b.right();
    assert_eq!(b.selected, 1);
    b.last();
    assert_eq!(b.selected, 2);
}

#[test]
fn tabs_hold_copies() {
    let mut b = TabBar::new();
    let mut source = String::from("saved");
    b.add(&source);
    source.push_str(" later");
    assert_eq!(b.tabs[0].name, "saved");
}

fn field(s: &str) -> TextField {
    TextField::new(chars_of(s))
}

fn text(f: &TextField) -> String {
    f.text_string()
}

#[test]
fn text_insert_then_backspace_is_identity() {
    let mut f = field("abc");
    f.move_right();
    let (before, cursor) = (text(&f), f.cursor);
    f.insert_char('X');
    assert_eq!(text(&f), "aXbc");
    assert_eq!(f.cursor, 2);
    f.backspace();
    assert_eq!(text(&f), before);
    assert_eq!(f.cursor, cursor);
}

#[test]
fn text_edits_at_the_edges() {
    let mut f = field("ab");
    f.backspace();
    assert_eq!(text(&f), "ab");
    assert_eq!(f.cursor, 0);
    f.delete();
    assert_eq!(text(&f), "b");
    assert_eq!(f.cursor, 0);
    f.move_end();
    assert_eq!(f.cursor, 1);
    f.delete();
    assert_eq!(text(&f), "b");
    f.move_right();
    assert_eq!(f.cursor, 1);
    f.move_home();
    f.move_left();
    assert_eq!(f.cursor, 0);
}

#[test]
fn text_cursor_within_buffer_after_any_ops() {
    let mut f = field("");
    for step in 0..40u32 {
        match step % 7 {
            0 | 1 => f.insert_char('z'),
            2 => f.backspace(),
            3 => f.move_right(),
            4 => f.move_left(),
            5 => f.delete(),
            _ => f.move_end(),
        }
        assert!(f.cursor <= f.text.len());
    }
}

#[test]
fn text_modes_keep_buffer() {
    let mut f = field("hi");
    assert_eq!(f.mode, InputMode::Normal);
    f.move_end();
    f.enter_edit();
    assert_eq!(f.mode, InputMode::Insert);
    f.leave_edit();
    assert_eq!(text(&f), "hi");
    assert_eq!(f.cursor, 2);
}

fn menu() -> SelectMenu<u32> {
    SelectMenu::new(vec![
        MenuOption { label: String::from("one"), value: 1 },
        MenuOption { label: String::from("two"), value: 2 },
        MenuOption { label: String::from("three"), value: 3 },
    ])
}

#[test]
fn menu_select_queues_one_event_and_closes() {
    let mut m = menu();
    m.open();
    m.down();
    m.right();
    assert_eq!(m.highlighted, 2);
    m.select();
    assert!(!m.is_open());
    assert_eq!(m.pending, vec![MenuEvent::Selected(3)]);
    assert_eq!(m.drain_events(), vec![MenuEvent::Selected(3)]);
    assert!(m.pending.is_empty());
    assert_eq!(m.committed_value(), 3);
}

#[test]
fn menu_reset_returns_to_committed() {
    let mut m = menu();
    m.down();
    m.select();
    m.drain_events();
    m.toggle();
    assert!(m.is_open());
    m.up();
    m.left();
    m.left();
    assert_eq!(m.highlighted, 0);
    m.reset();
    assert!(!m.is_open());
    assert_eq!(m.highlighted, 1);
    assert!(m.pending.is_empty());
    m.down();
    m.down();
    m.down();
    assert_eq!(m.highlighted, 2);
    m.close();
    assert!(!m.is_open());
}

#[test]
fn focus_cycle_wraps() {
    assert_eq!(Selected::Responsebar.advance(), Selected::Sidebar);
    assert_eq!(Selected::Sidebar.retreat(), Selected::Responsebar);
    let mut s = Selected::Urlbar;
    for _ in 0..7 {
        s = s.advance();
    }
    assert_eq!(s, Selected::Urlbar);
    assert_eq!(Selected::Tabs.advance().retreat(), Selected::Tabs);
}
