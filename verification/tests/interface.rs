use etymon::config::{CursorControls, FnKeymap, FnScript, KeymapError, ScriptAction};
use etymon::display::{CursorDirection, TabError, TuiCursor, TuiDisplay, TuiNavbar, TuiTab};
use etymon::tui::{TuiElement, TuiNode, TuiNodeData};
use etymon::ui::{char_hold, char_press, cursor_direction, CharAction, UIMode};

#[test]
fn cursor_starts_at_fixed_position() {
    let c = TuiCursor::new();
    assert_eq!(c.position, (1, 1));
    assert_eq!(c.max, (1, 1));
}

#[test]
fn cursor_travel_clamps_at_both_ends() {
    // from (5, 5) with max (10, 10): +20 on x clamps to 10, then -20 to 0
    let mut c = TuiCursor::new();
    c.resize(10, 10);
    c.move_to(5, 5);
    assert_eq!(c.position, (5, 5));
    c.travel(20, 0);
    assert_eq!(c.position, (10, 5));
    c.travel(-20, 0);
    assert_eq!(c.position, (0, 5));
}

#[test]
fn cursor_axes_clamp_independently() {
    let mut c = TuiCursor::new();
    c.resize(10, 3);
    c.move_to(5, 1);
    c.travel(20, 1);
    assert_eq!(c.position, (10, 2));
    c.travel(0, 0);
    assert_eq!(c.position, (10, 2));
    c.travel(-1, 20);
    assert_eq!(c.position, (9, 3));
}

#[test]
fn cursor_forward_travel_is_monotone_until_max() {
    let mut c = TuiCursor::new();
    c.resize(7, 7);
    c.move_to(0, 0);
    let mut last = 0;
    for _ in 0..10 {
        c.travel(3, 0);
        assert!(c.position.0 >= last);
        assert!(c.position.0 <= 7);
        last = c.position.0;
    }
    assert_eq!(c.position.0, 7);
    c.travel(3, 0);
    assert_eq!(c.position.0, 7);
}

#[test]
fn cursor_move_to_clamps_from_above() {
    let mut c = TuiCursor::new();
    c.resize(4, 6);
    c.move_to(9, 2);
    assert_eq!(c.position, (4, 2));
    assert!(c.check_x(4));
    assert!(!c.check_x(5));
    assert!(c.check_y(6));
    assert!(!c.check_y(7));
}

#[test]
fn cursor_resize_clamps_position() {
    let mut c = TuiCursor::new();
    c.resize(10, 10);
    c.move_to(8, 9);
    c.resize(5, 20);
    assert_eq!(c.max, (5, 20));
    assert_eq!(c.position, (5, 9));
}

#[test]
fn display_moves_cursor_by_direction() {
    let mut d = TuiDisplay::new();
    d.cursor.resize(10, 10);
    d.cursor.move_to(5, 5);
    d.move_cursor(CursorDirection::Right);
    assert_eq!(d.cursor.position, (6, 5));
    d.move_cursor(CursorDirection::Up);
    assert_eq!(d.cursor.position, (6, 6));
    d.move_cursor(CursorDirection::Down);
    d.move_cursor(CursorDirection::Down);
    assert_eq!(d.cursor.position, (6, 4));
    d.move_cursor(CursorDirection::Left);
    assert_eq!(d.cursor.position, (5, 4));
}

#[test]
fn display_fast_cursor_clamps() {
    let mut d = TuiDisplay::new();
    d.cursor.resize(10, 10);
    d.cursor.move_to(5, 5);
    d.fast_cursor(CursorDirection::Right, 20);
    assert_eq!(d.cursor.position, (10, 5));
    d.fast_cursor(CursorDirection::Down, 3);
    assert_eq!(d.cursor.position, (10, 2));
}

#[test]
fn navbar_shows_tabs_at_start() {
    let n = TuiNavbar::new();
    assert!(n.show_tabs);
}

#[test]
fn new_tabs_are_listed_in_order() {
    let mut d = TuiDisplay::new();
    assert_eq!(d.tab_titles().len(), 0);
    d.new_tab("t-1", "first");
    d.new_tab("t-2", "second");
    let titles = d.tab_titles();
    assert_eq!(titles, vec!["first".to_owned(), "second".to_owned()]);
    assert_eq!(d.tab_names(), titles);
}

#[test]
fn update_tab_with_unknown_id_is_an_error() {
    let mut d = TuiDisplay::new();
    d.new_tab("t-1", "first");
    let dom = TuiNode { data: TuiNodeData::Phantom, children: Vec::new() };
    let r = d.update_tab("t-9", dom, "gone");
    assert_eq!(r, Err(TabError::NoSuchTab));
    assert_eq!(d.tab_titles(), vec!["first".to_owned()]);
}

#[test]
fn update_tab_collapses_and_isolates() {
    let mut d = TuiDisplay::new();
    d.new_tab("t-1", "first");
    d.new_tab("t-2", "second");
    // a phantom root around a nav element and a paragraph
    let dom = TuiNode {
        data: TuiNodeData::Phantom,
        children: vec![
            TuiNode {
                data: TuiNodeData::Element(TuiElement {
                    qual_name: "body".to_owned(),
                    attributes: Vec::new(),
                    contents: Vec::new(),
                }),
                children: vec![
                    TuiNode {
                        data: TuiNodeData::Element(TuiElement {
                            qual_name: "nav".to_owned(),
                            attributes: Vec::new(),
                            contents: Vec::new(),
                        }),
                        children: Vec::new(),
                    },
                    TuiNode { data: TuiNodeData::Text("story".to_owned()), children: Vec::new() },
                ],
            },
        ],
    };
    let r = d.update_tab("t-2", dom, "loaded");
    assert_eq!(r, Ok(()));
    assert_eq!(d.tab_titles(), vec!["first".to_owned(), "loaded".to_owned()]);
    let tab = &d.tabs[1];
    // the phantom root dissolved; body remains as content with the nav gone
    assert_eq!(tab.dom.len(), 1);
    match &tab.dom[0].data {
        TuiNodeData::Element(e) => assert_eq!(e.qual_name, "body"),
        _ => panic!("expected the body element"),
    }
    assert_eq!(tab.dom[0].children.len(), 1);
    assert!(matches!(&tab.dom[0].children[0].data, TuiNodeData::Text(t) if t == "story"));
    assert_eq!(tab.nav.len(), 1);
    match &tab.nav[0].data {
        TuiNodeData::Element(e) => assert_eq!(e.qual_name, "nav"),
        _ => panic!("expected the nav element"),
    }
}

#[test]
fn tab_update_name_keeps_title_when_none() {
    let mut tab = TuiTab::new("t-1", "first");
    tab.update_name(None);
    assert_eq!(tab.title, "first");
    tab.update_name(Some("renamed"));
    assert_eq!(tab.title, "renamed");
}

#[test]
fn serve_fn_with_nothing_bound_is_an_error() {
    let keymap = FnKeymap::new();
    assert_eq!(keymap.serve_fn(1), Err(KeymapError::UnboundKey));
}

#[test]
fn serve_fn_decides_bound_script() {
    let mut keymap = FnKeymap::new();
    keymap.scripts.insert(2, FnScript::Perl("hooks/fix.pl".to_owned()));
    keymap.scripts.insert(3, FnScript::NoScript);
    assert_eq!(
        keymap.serve_fn(2),
        Ok(ScriptAction::Perl("hooks/fix.pl".to_owned()))
    );
    assert_eq!(keymap.serve_fn(3), Ok(ScriptAction::Skip));
    assert_eq!(keymap.serve_fn(4), Err(KeymapError::UnboundKey));
}

#[test]
fn execute_maps_each_script_kind() {
    assert_eq!(FnScript::NoScript.execute(), ScriptAction::Skip);
    assert_eq!(FnScript::Rust(()).execute(), ScriptAction::Rust);
    assert_eq!(
        FnScript::Perl("a.pl".to_owned()).execute(),
        ScriptAction::Perl("a.pl".to_owned())
    );
    assert_eq!(
        FnScript::Lua("b.lua".to_owned()).execute(),
        ScriptAction::Lua("b.lua".to_owned())
    );
    assert_eq!(FnScript::execute_rust(()), ScriptAction::Rust);
    assert_eq!(
        FnScript::execute_perl("x.pl"),
        ScriptAction::Perl("x.pl".to_owned())
    );
    assert_eq!(
        FnScript::execute_lua("y.lua"),
        ScriptAction::Lua("y.lua".to_owned())
    );
    assert_eq!(FnScript::default().execute(), ScriptAction::Skip);
}

#[test]
fn char_press_steers_cursor_by_scheme() {
    assert_eq!(
        char_press(CursorControls::WASD, 'w'),
        CharAction::MoveCursor(CursorDirection::Up)
    );
    assert_eq!(
        char_press(CursorControls::WASD, 'a'),
        CharAction::MoveCursor(CursorDirection::Left)
    );
    assert_eq!(
        char_press(CursorControls::HJKL, 'j'),
        CharAction::MoveCursor(CursorDirection::Down)
    );
    assert_eq!(
        char_press(CursorControls::HJKL, 'l'),
        CharAction::MoveCursor(CursorDirection::Right)
    );
    // a cursor key of the inactive scheme goes to the keymap
    assert_eq!(char_press(CursorControls::WASD, 'h'), CharAction::Keymap('h'));
    assert_eq!(char_press(CursorControls::HJKL, 's'), CharAction::Keymap('s'));
}

#[test]
fn char_press_reserved_keys() {
    assert_eq!(char_press(CursorControls::WASD, 'q'), CharAction::Quit);
    assert_eq!(char_press(CursorControls::HJKL, 'q'), CharAction::Quit);
    assert_eq!(char_press(CursorControls::WASD, 'p'), CharAction::Crash);
    assert_eq!(char_press(CursorControls::WASD, 'z'), CharAction::Keymap('z'));
}

#[test]
fn char_hold_repeats_only_cursor_keys() {
    assert_eq!(
        char_hold(CursorControls::WASD, 's'),
        CharAction::MoveCursor(CursorDirection::Down)
    );
    assert_eq!(char_hold(CursorControls::WASD, 'q'), CharAction::Idle);
    assert_eq!(char_hold(CursorControls::HJKL, 'w'), CharAction::Idle);
    assert_eq!(cursor_direction(CursorControls::HJKL, 'k'), Some(CursorDirection::Up));
    assert_eq!(cursor_direction(CursorControls::WASD, 'k'), None);
}

#[test]
fn ui_modes_are_distinct() {
    assert_ne!(UIMode::View, UIMode::Insert);
    let mode = UIMode::View;
    assert!(matches!(mode, UIMode::View));
}
