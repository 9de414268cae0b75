use watch_rs::query::{QueryAction, QueryEditTab, QueryKey, QueryMode, QueryTui};

#[test]
fn tab_previous_and_next_saturate() {
    assert_eq!(QueryEditTab::SETUP.previous(), QueryEditTab::SETUP);
    assert_eq!(QueryEditTab::MAIN.previous(), QueryEditTab::SETUP);
    assert_eq!(QueryEditTab::SETUP.next(), QueryEditTab::MAIN);
    assert_eq!(QueryEditTab::MAIN.next(), QueryEditTab::MAIN);
}

#[test]
fn new_screen_starts_on_main_tab_in_normal_mode() {
    let q = QueryTui::new(Some("tree -L 2".to_string()));
    assert_eq!(q.state.main_commands, "tree -L 2");
    assert_eq!(q.state.setup_commands, "");
    assert_eq!(q.editing_tab, QueryEditTab::MAIN);
    assert_eq!(q.running_mode, QueryMode::NORMAL);

    let empty = QueryTui::new(None);
    assert_eq!(empty.state.main_commands, "");
}

#[test]
fn ctrl_c_quits_in_every_mode() {
    for seed in [QueryKey::Insert, QueryKey::Enter, QueryKey::Other] {
        let mut q = QueryTui::new(None);
        q.handle_key(seed);
        assert_eq!(q.handle_key(QueryKey::CtrlC), QueryAction::Quit);
    }
}

#[test]
fn enter_arms_then_submits() {
    let mut q = QueryTui::new(None);
    assert_eq!(q.handle_key(QueryKey::Enter), QueryAction::Ignore);
    assert_eq!(q.running_mode, QueryMode::SUBMIT);
    assert_eq!(q.handle_key(QueryKey::Enter), QueryAction::Submit);
}

#[test]
fn insert_enters_editor_and_escape_leaves_it() {
    let mut q = QueryTui::new(None);
    assert_eq!(q.handle_key(QueryKey::Insert), QueryAction::Ignore);
    assert_eq!(q.running_mode, QueryMode::EDITOR);
    // a second `i` goes to the text widget, the mode stays
    assert_eq!(q.handle_key(QueryKey::Insert), QueryAction::ForwardToEditor);
    assert_eq!(q.running_mode, QueryMode::EDITOR);
    assert_eq!(q.handle_key(QueryKey::Esc), QueryAction::Ignore);
    assert_eq!(q.running_mode, QueryMode::NORMAL);
}

#[test]
fn arrows_switch_tabs_only_in_normal_mode() {
    let mut q = QueryTui::new(None);
    assert_eq!(q.editing_tab, QueryEditTab::MAIN);
    q.handle_key(QueryKey::Left);
    assert_eq!(q.editing_tab, QueryEditTab::SETUP);
    q.handle_key(QueryKey::Right);
    assert_eq!(q.editing_tab, QueryEditTab::MAIN);

    q.handle_key(QueryKey::Insert);
    assert_eq!(q.handle_key(QueryKey::Left), QueryAction::ForwardToEditor);
    assert_eq!(q.editing_tab, QueryEditTab::MAIN);
}

#[test]
fn editing_keys_are_forwarded_and_others_ignored() {
    let mut q = QueryTui::new(None);
    assert_eq!(q.handle_key(QueryKey::Other), QueryAction::Ignore);
    q.handle_key(QueryKey::Insert);
    assert_eq!(q.handle_key(QueryKey::Other), QueryAction::ForwardToEditor);
    assert_eq!(q.handle_key(QueryKey::Enter), QueryAction::ForwardToEditor);
}
