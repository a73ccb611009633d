use duplicate_file_finder::jobs::CleanReport;
use duplicate_file_finder::ui::{Action, CleanState, MenuState, ResultStatus, Row, SortOptions};

#[test]
fn the_menu_wraps_both_ways() {
    let mut m = MenuState::new();
    assert_eq!(m.selected(), Some(0));
    m.next();
    assert_eq!(m.selected(), Some(1));
    m.next();
    assert_eq!(m.selected(), Some(0));
    m.prev();
    assert_eq!(m.selected(), Some(1));
    m.prev();
    assert_eq!(m.selected(), Some(0));
    let mut none = MenuState { selected: None };
    none.prev();
    assert_eq!(none.selected(), Some(0));
}

#[test]
fn rows_have_names_hints_and_positions() {
    assert_eq!(Row::from_index(2), Some(Row::Path));
    assert_eq!(Row::from_index(4), None);
    assert_eq!(Row::Run.index(), 3);
    assert_eq!(Row::RealRun.name(), "Real run (Will delete items)");
    assert_eq!(Row::RemoveEmpty.hint(), "space: toggle- also delete zero-byte files");
    assert!(Row::RemoveEmpty.is_toggle());
    assert!(!Row::Path.is_toggle());
}

#[test]
fn clean_focus_wraps_and_labels_show_the_boxes() {
    let mut c = CleanState::new(String::new());
    assert_eq!(c.error.as_deref(), Some("Invalid Path"));
    c.prev();
    assert_eq!(c.focus, Row::Run);
    c.next();
    assert_eq!(c.focus, Row::RealRun);
    assert_eq!(c.label(Row::RealRun), "[ ] Real run (Will delete items)");
    assert_eq!(c.activate(), Action::Noop);
    assert!(c.real_run);
    assert_eq!(c.error, None);
    assert_eq!(c.label(Row::RealRun), "[x] Real run (Will delete items)");
    assert_eq!(c.label(Row::Run), "");
    c.activate();
    assert!(!c.real_run);
}

#[test]
fn running_with_an_empty_path_is_refused() {
    let mut c = CleanState::new("   ".to_string());
    c.focus = Row::Run;
    assert_eq!(c.activate(), Action::Noop);
    assert_eq!(c.error.as_deref(), Some("Path does not exist"));
}

#[test]
fn running_asks_about_the_trimmed_path_then_starts() {
    let mut c = CleanState::new("  /data \t".to_string());
    c.focus = Row::RemoveEmpty;
    c.activate();
    c.focus = Row::Run;
    let action = c.activate();
    assert_eq!(action, Action::CheckDir { path: "/data".to_string() });
    assert_eq!(
        c.finish_run("/data".to_string(), true),
        Action::Run { path: "/data".to_string(), remove_empty: true, real_run: false }
    );
    assert_eq!(c.finish_run("/data".to_string(), false), Action::Noop);
    assert_eq!(c.error.as_deref(), Some("Provided path is not a valid directory"));
}

#[test]
fn editing_the_clean_path() {
    let mut c = CleanState::new(String::new());
    assert_eq!(c.push_char(' '), None);
    assert_eq!(c.error.as_deref(), Some("Provided path is not a valid directory"));
    assert_eq!(c.push_char('/'), Some("/".to_string()));
    c.path_checked(true);
    assert_eq!(c.error, None);
    assert_eq!(c.path, " /");
    assert_eq!(c.backspace(), None);
    assert_eq!(c.path, " ");
    assert_eq!(c.path_to_check(), None);
    assert!(!c.is_valid_path(true));
    c.path = "/x ".to_string();
    assert!(c.is_valid_path(true));
    assert!(!c.is_valid_path(false));
}

#[test]
fn sort_options_check_the_number_and_the_path() {
    let mut s = SortOptions::new(String::new());
    assert_eq!(s.num_show, "20");
    assert_eq!(s.path_error.as_deref(), Some("Invalid path"));
    assert_eq!(s.push_char('/'), Some("/".to_string()));
    s.path_checked(false);
    assert_eq!(s.path_error.as_deref(), Some("Invalid Path"));
    s.change();
    assert_eq!(s.focus, Some(1));
    assert_eq!(s.push_char('x'), None);
    assert_eq!(s.num_show, "20x");
    assert_eq!(s.num_error.as_deref(), Some("Invalid Number invalid digit found in string"));
    assert_eq!(s.pop(), None);
    assert_eq!(s.num_error, None);
    s.pop();
    s.pop();
    assert_eq!(s.num_error.as_deref(), Some("Invalid Number cannot parse integer from empty string"));
    s.change();
    assert_eq!(s.focus, Some(0));
    assert_eq!(s.pop(), None);
    assert_eq!(s.path, "");
    assert_eq!(s.path_error.as_deref(), Some("Invalid Path"));
    assert_eq!(s.valid_path(true), None);
    s.path = " /home ".to_string();
    assert_eq!(s.valid_path(true), Some("/home".to_string()));
    assert_eq!(s.valid_path(false), None);
    assert!(s.is_valid_path(true));
}

fn report(success: usize, errors: usize) -> CleanReport {
    CleanReport {
        success: (0..success).map(|i| format!("s{}", i)).collect(),
        errors: (0..errors).map(|i| format!("e{}", i)).collect(),
    }
}

#[test]
fn result_panes_wrap_and_jump() {
    let mut r = ResultStatus::new();
    r.next();
    assert_eq!(r.pos_succ, None);
    r.output = Some(report(3, 0));
    r.pos_succ = Some(0);
    r.prev();
    assert_eq!(r.pos_succ, Some(2));
    r.next();
    assert_eq!(r.pos_succ, Some(0));
    r.move_to_end();
    assert_eq!(r.pos_succ, Some(2));
    r.reset_to_zero();
    assert_eq!(r.pos_succ, Some(0));
    r.fail_focus = true;
    r.next();
    assert_eq!(r.pos_fail, None);
    assert_eq!(r.pos_succ, Some(0));
}

#[test]
fn the_number_box_is_valid_only_for_a_number() {
    let mut o = SortOptions::new(String::new());
    assert!(o.is_valid_num());
    o.num_show = "2x".to_string();
    assert!(!o.is_valid_num());
    o.num_show = String::new();
    assert!(!o.is_valid_num());
}
