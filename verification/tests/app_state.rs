use duplicate_file_finder::app_state::{
    AppState, DirCheck, Effect, Incoming, Key, KeyCode, Receive, Screen, Status, SHIFT,
};
use duplicate_file_finder::jobs::CleanReport;
use duplicate_file_finder::ui::Row;

fn press(code: KeyCode) -> Key {
    Key { code, modifiers: 0, press: true }
}

fn typed(state: &mut AppState, text: &str, is_dir: bool) {
    for c in text.chars() {
        let eff = state.handle_key(press(KeyCode::Char(c)));
        if let Effect::CheckDir { .. } = eff {
            assert_eq!(state.dir_checked(is_dir), Effect::Nothing);
        }
    }
}

#[test]
fn the_main_menu_opens_screens_and_quits() {
    let mut s = AppState::new();
    assert_eq!(s.handle_key(press(KeyCode::Char('j'))), Effect::Nothing);
    assert_eq!(s.menu.selected, Some(1));
    s.handle_key(press(KeyCode::Enter));
    assert_eq!(s.screen, Screen::SortOptions);
    s.handle_key(press(KeyCode::Esc));
    assert_eq!(s.screen, Screen::Main);
    s.handle_key(press(KeyCode::Up));
    s.handle_key(press(KeyCode::Enter));
    assert_eq!(s.screen, Screen::CleanOptions);
    s.handle_key(press(KeyCode::Esc));
    s.handle_key(Key { code: KeyCode::Char('q'), modifiers: 0, press: false });
    assert!(!s.exit);
    s.handle_key(press(KeyCode::Char('q')));
    assert!(s.exit);
}

#[test]
fn starting_a_clean_asks_about_the_path() {
    let mut s = AppState::new();
    s.handle_key(press(KeyCode::Enter));
    assert_eq!(s.screen, Screen::CleanOptions);
    // toggle "remove empty files" with j then space
    s.handle_key(press(KeyCode::Char('j')));
    s.handle_key(press(KeyCode::Char(' ')));
    assert!(s.clean.remove_empty);
    s.handle_key(press(KeyCode::Tab));
    assert_eq!(s.clean.focus, Row::Path);
    typed(&mut s, " /data", true);
    assert_eq!(s.clean.path, " /data");
    assert_eq!(s.clean.error, None);
    // Enter on the path moves to Run; Enter on Run asks about the trimmed path
    s.handle_key(press(KeyCode::Enter));
    assert_eq!(s.clean.focus, Row::Run);
    let eff = s.handle_key(press(KeyCode::Enter));
    assert_eq!(eff, Effect::CheckDir { path: "/data".to_string() });
    assert_eq!(s.check, Some(DirCheck::CleanRun("/data".to_string())));
    let eff = s.dir_checked(true);
    assert_eq!(eff, Effect::StartClean { path: "/data".to_string(), remove_empty: true, real_run: false });
    assert_eq!(s.screen, Screen::RunningClean);
    assert_eq!(s.run.status, Status::Running);
    assert_eq!(s.run.path, "/data");
    assert_eq!(s.check, None);
}

#[test]
fn a_path_that_is_not_a_directory_does_not_start() {
    let mut s = AppState::new();
    s.handle_key(press(KeyCode::Enter));
    s.handle_key(press(KeyCode::BackTab));
    assert_eq!(s.clean.focus, Row::Run);
    s.clean.path = "/missing".to_string();
    assert_eq!(s.handle_key(press(KeyCode::Enter)), Effect::CheckDir { path: "/missing".to_string() });
    assert_eq!(s.dir_checked(false), Effect::Nothing);
    assert_eq!(s.clean.error.as_deref(), Some("Provided path is not a valid directory"));
    assert_eq!(s.screen, Screen::CleanOptions);
    // an answer with nothing pending does nothing
    assert_eq!(s.dir_checked(true), Effect::Nothing);
}

#[test]
fn control_characters_are_not_typed_into_the_path() {
    let mut s = AppState::new();
    s.handle_key(press(KeyCode::Enter));
    s.handle_key(press(KeyCode::Down));
    s.handle_key(press(KeyCode::Down));
    assert_eq!(s.clean.focus, Row::Path);
    s.handle_key(Key { code: KeyCode::Char('a'), modifiers: 2, press: true });
    assert_eq!(s.clean.path, "");
    s.handle_key(Key { code: KeyCode::Char('A'), modifiers: SHIFT, press: true });
    assert_eq!(s.clean.path, "A");
    // j and k are typed on the path row
    s.handle_key(press(KeyCode::Char('j')));
    assert_eq!(s.clean.path, "Aj");
    assert_eq!(s.clean.focus, Row::Path);
    s.handle_key(press(KeyCode::Backspace));
    assert_eq!(s.clean.path, "A");
}

#[test]
fn starting_a_listing_needs_a_number_and_a_directory() {
    let mut s = AppState::new();
    s.handle_key(press(KeyCode::Down));
    s.handle_key(press(KeyCode::Enter));
    assert_eq!(s.screen, Screen::SortOptions);
    typed(&mut s, "/home", true);
    assert_eq!(s.sort.path_error, None);
    s.handle_key(press(KeyCode::Tab));
    s.handle_key(press(KeyCode::Backspace));
    s.handle_key(press(KeyCode::Backspace));
    typed(&mut s, "5", true);
    assert_eq!(s.sort.num_show, "5");
    let eff = s.handle_key(press(KeyCode::Enter));
    assert_eq!(eff, Effect::CheckDir { path: "/home".to_string() });
    assert_eq!(s.dir_checked(true), Effect::StartSort { path: "/home".to_string(), num: 5 });
    assert_eq!(s.screen, Screen::RunningSort);
    assert!(!s.run.real_run);
    s.handle_key(press(KeyCode::Char('x')));
    assert!(!s.exit);
    s.handle_key(press(KeyCode::Char('q')));
    assert!(s.exit);
}

#[test]
fn a_bad_number_does_not_start_a_listing() {
    let mut s = AppState::new();
    s.screen = Screen::SortOptions;
    s.sort.path = "/home".to_string();
    s.sort.num_show = "ten".to_string();
    assert_eq!(s.handle_key(press(KeyCode::Enter)), Effect::Nothing);
    assert_eq!(s.check, None);
    assert_eq!(s.screen, Screen::SortOptions);
}

#[test]
fn messages_fill_the_log_and_open_the_results() {
    let mut s = AppState::new();
    s.screen = Screen::RunningClean;
    s.next_tick();
    assert_eq!(s.run.tick, 1);
    assert_eq!(s.on_message(Incoming::Log("Starting".to_string())), Receive::Continue);
    assert_eq!(s.on_message(Incoming::Empty), Receive::Keep);
    assert_eq!(s.run.log_lines, vec!["Starting".to_string()]);
    let report = CleanReport { success: vec!["removed".to_string()], errors: vec![] };
    assert_eq!(s.on_message(Incoming::Done(Ok(report))), Receive::Close);
    assert_eq!(s.screen, Screen::CleanResults);
    assert_eq!(s.run.status, Status::Finished);
    assert_eq!(s.results.pos_succ, Some(0));
    assert_eq!(s.results.pos_fail, None);
    s.handle_key(press(KeyCode::Tab));
    assert!(s.results.fail_focus);
    s.handle_key(press(KeyCode::Char('q')));
    assert!(s.exit);
}

#[test]
fn failures_of_the_job_open_the_results() {
    let mut s = AppState::new();
    assert_eq!(s.on_message(Incoming::Done(Err("boom".to_string()))), Receive::Close);
    assert_eq!(s.run.status, Status::Failed("boom".to_string()));
    assert_eq!(s.screen, Screen::CleanResults);
    let mut t = AppState::new();
    assert_eq!(t.on_message(Incoming::Disconnected), Receive::Close);
    assert_eq!(t.run.status, Status::Failed("Worker crashed".to_string()));
}

#[test]
fn the_tick_wraps_around() {
    let mut s = AppState::new();
    s.run.tick = u64::MAX;
    s.next_tick();
    assert_eq!(s.run.tick, 0);
}
