use smmdb_client::app::{
    keyboard_message, App, AppErrorState, AppState, Command, EmuSave, MainPage, Message, Page,
    PickResult, Progress, SaveOp, Settings, Subscription, WindowSize,
};
use smmdb_client::catalog::{QueryParams, SortOptions};
use smmdb_client::panel::{Course2Response, Difficulty, SmmdbCoursePanel};

fn course(id: &str, own_vote: i32) -> Course2Response {
    Course2Response {
        id: id.to_string(),
        title: format!("title {}", id),
        description: String::new(),
        votes: 5,
        own_vote,
        difficulty: Some(Difficulty::Normal),
    }
}

fn with_key() -> Settings {
    Settings { apikey: Some("key".to_string()) }
}

fn app_with(settings: Settings) -> App {
    App::new(settings).0
}

/// An app on the save page of a save with `slots` slots, the first `filled` full.
fn app_with_save(settings: Settings, slots: usize, filled: usize) -> App {
    let mut app = app_with(settings);
    let occupied: Vec<bool> = (0..slots).map(|i| i < filled).collect();
    app.update(Message::LoadSave("save".to_string(), occupied));
    app
}

fn banner(app: &App) -> Option<String> {
    match &app.error_state {
        AppErrorState::Shown(s) => Some(s.clone()),
        AppErrorState::Hidden => None,
    }
}

fn is_default(app: &App) -> bool {
    matches!(app.state, AppState::Default)
}

#[test]
fn new_app_fetches_first_page() {
    let (app, cmds) = App::new(with_key());
    assert!(is_default(&app));
    assert!(matches!(app.current_page, Page::Init));
    assert_eq!(app.window_size, WindowSize::M);
    assert_eq!(cmds.len(), 1);
    match &cmds[0] {
        Command::FetchCourses { params, apikey } => {
            assert_eq!(params.page, 0);
            assert_eq!(params.title, "");
            assert_eq!(apikey.as_deref(), Some("key"));
        }
        other => panic!("unexpected {:?}", other),
    }
    assert_eq!(app.title(), "SMMDB");
}

#[test]
fn cancel_after_initiations_returns_to_rest() {
    let mut app = app_with_save(Settings { apikey: None }, 3, 2);
    for m in [
        Message::InitSwapCourse(1),
        Message::InitDownloadCourse(2),
        Message::InitDeleteCourse(0),
    ] {
        assert!(app.update(m).is_empty());
    }
    assert!(matches!(app.state, AppState::DeleteSelect(0)));
    assert!(app.update(Message::CancelSelection).is_empty());
    assert!(is_default(&app));
    assert_eq!(app.save.as_ref().unwrap().occupied, vec![true, true, false]);
}

#[test]
fn cancel_outside_selection_does_nothing() {
    let mut app = app_with_save(Settings { apikey: None }, 2, 1);
    app.update(Message::ApplyFilters);
    assert!(matches!(app.state, AppState::Loading));
    app.update(Message::CancelSelection);
    assert!(matches!(app.state, AppState::Loading));
}

#[test]
fn swap_only_from_swap_selection() {
    let mut app = app_with_save(Settings { apikey: None }, 3, 1);
    assert!(app.update(Message::SwapCourse(0, 2)).is_empty());
    assert!(is_default(&app));
    app.update(Message::InitDeleteCourse(0));
    assert!(app.update(Message::SwapCourse(0, 2)).is_empty());
    assert!(matches!(app.state, AppState::DeleteSelect(0)));

    app.update(Message::InitSwapCourse(0));
    let cmds = app.update(Message::SwapCourse(0, 2));
    assert!(matches!(app.state, AppState::Loading));
    assert!(matches!(cmds.as_slice(), [Command::ModifySave(SaveOp::Swap(0, 2))]));
    app.update(Message::SaveModified(SaveOp::Swap(0, 2)));
    assert!(is_default(&app));
    assert_eq!(app.save.as_ref().unwrap().occupied, vec![false, false, true]);
}

#[test]
fn fetched_catalog_replaces_and_thumbnail_hits_one_course() {
    let mut app = app_with(Settings { apikey: None });
    app.update(Message::SetSmmdbCourses(vec![course("old", 1)]));
    let cmds = app.update(Message::SetSmmdbCourses(vec![
        course("c1", 0),
        course("c2", 0),
        course("c3", -1),
    ]));
    let ids: Vec<&str> = app.smmdb.course_panels.iter().map(|p| p.get_id().as_str()).collect();
    assert_eq!(ids, vec!["c1", "c2", "c3"]);
    assert_eq!(app.smmdb.course_panels[0].course.own_vote, 0);
    assert_eq!(app.smmdb.course_panels[2].course.own_vote, -1);
    assert!(app.smmdb.course_panels.iter().all(|p| p.thumbnail.is_none()));
    let thumbs: Vec<String> = cmds
        .iter()
        .map(|c| match c {
            Command::FetchThumbnail(id) => id.clone(),
            other => panic!("unexpected {:?}", other),
        })
        .collect();
    assert_eq!(thumbs, vec!["c1", "c2", "c3"]);

    app.update(Message::SetSmmdbCourseThumbnail(vec![7, 8], "c2".to_string()));
    assert_eq!(app.smmdb.course_panels[1].thumbnail, Some(vec![7, 8]));
    assert!(app.smmdb.course_panels[0].thumbnail.is_none());
    assert!(app.smmdb.course_panels[2].thumbnail.is_none());
}

#[test]
fn stale_thumbnail_is_ignored() {
    let mut app = app_with(Settings { apikey: None });
    app.update(Message::SetSmmdbCourses(vec![course("c1", 0)]));
    app.update(Message::SetSmmdbCourseThumbnail(vec![1], "gone".to_string()));
    assert!(app.smmdb.course_panels[0].thumbnail.is_none());
}

#[test]
fn filter_change_resets_page() {
    let mut app = app_with(with_key());
    app.update(Message::PaginateForward);
    app.update(Message::PaginateForward);
    app.update(Message::PaginateForward);
    assert_eq!(app.smmdb.query_params.page, 3);
    let cmds = app.update(Message::TitleChanged("mario".to_string()));
    assert_eq!(app.smmdb.query_params.page, 0);
    match cmds.as_slice() {
        [Command::FetchCourses { params, apikey }] => {
            assert_eq!(params.page, 0);
            assert_eq!(params.title, "mario");
            assert_eq!(apikey.as_deref(), Some("key"));
        }
        other => panic!("unexpected {:?}", other),
    }
}

#[test]
fn other_filters_reset_page_and_fetch() {
    let mut app = app_with(Settings { apikey: None });
    app.update(Message::PaginateForward);
    app.update(Message::UploaderChanged("u".to_string()));
    assert_eq!(app.smmdb.query_params.page, 0);
    assert_eq!(app.smmdb.query_params.uploader, "u");
    app.update(Message::PaginateForward);
    app.update(Message::DifficultyChanged(Some(Difficulty::Expert)));
    assert_eq!(app.smmdb.query_params.page, 0);
    app.update(Message::PaginateForward);
    let cmds = app.update(Message::SortChanged(SortOptions::Votes));
    assert_eq!(app.smmdb.query_params.page, 0);
    assert_eq!(app.smmdb.query_params.sort, SortOptions::Votes);
    assert_eq!(cmds.len(), 1);
}

#[test]
fn paginate_backward_stops_at_first_page() {
    let mut app = app_with(Settings { apikey: None });
    app.update(Message::PaginateBackward);
    assert_eq!(app.smmdb.query_params.page, 0);
    app.update(Message::PaginateForward);
    app.update(Message::PaginateBackward);
    assert_eq!(app.smmdb.query_params.page, 0);
}

#[test]
fn download_progress_then_finish() {
    let mut app = app_with_save(Settings { apikey: None }, 4, 0);
    app.update(Message::InitDownloadCourse(2));
    assert!(matches!(app.subscription(), Subscription::Keyboard));
    app.update(Message::DownloadCourse(2, "abc".to_string()));
    match app.subscription() {
        Subscription::Download(id) => assert_eq!(id, "abc"),
        other => panic!("unexpected {:?}", other),
    }
    let mut seen = Vec::new();
    for p in [Progress::Started, Progress::Advanced(300), Progress::Advanced(700)] {
        app.update(Message::DownloadProgressed(p));
        match &app.state {
            AppState::Downloading { progress, save_index, .. } => {
                assert_eq!(*save_index, 2);
                seen.push(*progress);
            }
            other => panic!("unexpected {:?}", other),
        }
    }
    assert_eq!(seen, vec![0, 300, 700]);
    let cmds = app.update(Message::DownloadProgressed(Progress::Finished(vec![1, 2, 3])));
    assert!(matches!(app.state, AppState::Loading));
    match cmds.as_slice() {
        [Command::ModifySave(SaveOp::Add(2, data))] => assert_eq!(data, &vec![1, 2, 3]),
        other => panic!("unexpected {:?}", other),
    }
    app.update(Message::SaveModified(SaveOp::Add(2, vec![1, 2, 3])));
    assert!(is_default(&app));
    assert!(banner(&app).is_none());
    assert_eq!(app.save.as_ref().unwrap().occupied, vec![false, false, true, false]);
    assert!(matches!(app.subscription(), Subscription::Quiet));
}

#[test]
fn download_error_returns_to_rest_with_banner() {
    let mut app = app_with_save(Settings { apikey: None }, 2, 0);
    app.update(Message::InitDownloadCourse(0));
    app.update(Message::DownloadCourse(0, "abc".to_string()));
    app.update(Message::DownloadProgressed(Progress::Errored));
    assert!(is_default(&app));
    assert_eq!(banner(&app).as_deref(), Some("The course could not be downloaded."));
}

#[test]
fn stale_progress_is_ignored() {
    let mut app = app_with_save(Settings { apikey: None }, 2, 0);
    let cmds = app.update(Message::DownloadProgressed(Progress::Finished(vec![1])));
    assert!(cmds.is_empty());
    assert!(is_default(&app));
}

#[test]
fn vote_round_trip() {
    let mut app = app_with(with_key());
    app.update(Message::SetSmmdbCourses(vec![course("abc", 0), course("def", 0)]));
    let cmds = app.update(Message::UpvoteCourse("abc".to_string()));
    assert_eq!(app.smmdb.course_panels[0].course.own_vote, 0);
    match cmds.as_slice() {
        [Command::Vote { course_id, value, apikey }] => {
            assert_eq!(course_id, "abc");
            assert_eq!(*value, 1);
            assert_eq!(apikey, "key");
        }
        other => panic!("unexpected {:?}", other),
    }
    app.update(Message::SetVoteCourse("abc".to_string(), 1));
    assert_eq!(app.smmdb.course_panels[0].course.own_vote, 1);
    assert_eq!(app.smmdb.course_panels[1].course.own_vote, 0);
    match app.smmdb.course_panels[0].upvote_message() {
        Message::ResetCourseVote(id) => assert_eq!(id, "abc"),
        other => panic!("unexpected {:?}", other),
    }
    match app.smmdb.course_panels[1].upvote_message() {
        Message::UpvoteCourse(id) => assert_eq!(id, "def"),
        other => panic!("unexpected {:?}", other),
    }
}

#[test]
fn down_and_reset_votes_carry_their_values() {
    let mut app = app_with(with_key());
    match app.update(Message::DownvoteCourse("a".to_string())).as_slice() {
        [Command::Vote { value, .. }] => assert_eq!(*value, -1),
        other => panic!("unexpected {:?}", other),
    }
    match app.update(Message::ResetCourseVote("a".to_string())).as_slice() {
        [Command::Vote { value, .. }] => assert_eq!(*value, 0),
        other => panic!("unexpected {:?}", other),
    }
    let mut panel = SmmdbCoursePanel::new(course("a", 0));
    panel.set_own_vote(-1);
    assert!(matches!(panel.downvote_message(), Message::ResetCourseVote(_)));
    assert!(matches!(panel.upvote_message(), Message::UpvoteCourse(_)));
}

#[test]
fn vote_without_credential_is_silent() {
    let mut app = app_with(Settings { apikey: None });
    assert!(app.update(Message::UpvoteCourse("abc".to_string())).is_empty());
    assert!(banner(&app).is_none());
}

#[test]
fn open_fetch_delete_scenario() {
    let (mut app, _) = App::new(Settings { apikey: None });
    let cmds = app.update(Message::OpenSave(EmuSave {
        location: "/save1".to_string(),
        display_name: "Save 1".to_string(),
    }));
    assert!(matches!(app.state, AppState::Loading));
    match cmds.as_slice() {
        [Command::OpenSave { location, .. }] => assert_eq!(location, "/save1"),
        other => panic!("unexpected {:?}", other),
    }
    app.update(Message::LoadSave("Save 1".to_string(), vec![true, true]));
    assert!(is_default(&app));
    assert!(matches!(app.current_page, Page::Save));
    let cmds = app.update(Message::FetchCourses(QueryParams::new()));
    assert_eq!(cmds.len(), 1);
    app.update(Message::SetSmmdbCourses(vec![course("c1", 0), course("c2", 0)]));
    assert_eq!(app.smmdb.course_panels.len(), 2);
    app.update(Message::InitDeleteCourse(0));
    assert!(matches!(app.subscription(), Subscription::Keyboard));
    let cmds = app.update(Message::DeleteCourse(0));
    assert!(matches!(cmds.as_slice(), [Command::ModifySave(SaveOp::Delete(0))]));
    assert!(matches!(app.state, AppState::Loading));
    app.update(Message::SaveModified(SaveOp::Delete(0)));
    assert_eq!(app.save.as_ref().unwrap().occupied, vec![false, true]);
    assert!(is_default(&app));
    assert!(banner(&app).is_none());
}

#[test]
fn failed_vote_sets_banner_only() {
    let mut app = app_with(with_key());
    app.update(Message::SetSmmdbCourses(vec![course("abc", 0)]));
    app.update(Message::UpvoteCourse("abc".to_string()));
    app.update(Message::FetchError("network error".to_string()));
    assert!(is_default(&app));
    assert_eq!(banner(&app).as_deref(), Some("network error"));
    assert_eq!(app.smmdb.course_panels[0].course.own_vote, 0);
}

#[test]
fn fetch_completion_keeps_save_operation_blocking() {
    let mut app = app_with_save(Settings { apikey: None }, 2, 1);
    app.update(Message::InitSwapCourse(0));
    app.update(Message::SwapCourse(0, 1));
    app.update(Message::SetSmmdbCourses(vec![]));
    assert!(matches!(app.state, AppState::Loading));
    app.update(Message::FetchError("late".to_string()));
    assert!(matches!(app.state, AppState::Loading));
    app.update(Message::SaveModifyError("disk full".to_string()));
    assert!(is_default(&app));
    assert_eq!(banner(&app).as_deref(), Some("disk full"));
    assert_eq!(app.save.as_ref().unwrap().occupied, vec![true, false]);
}

#[test]
fn blocking_fetch_ends_with_result() {
    let mut app = app_with(Settings { apikey: None });
    app.update(Message::ApplyFilters);
    assert!(matches!(app.state, AppState::Loading));
    app.update(Message::SetSmmdbCourses(vec![course("a", 0)]));
    assert!(is_default(&app));
}

#[test]
fn load_error_is_reported() {
    let mut app = app_with(Settings { apikey: None });
    app.update(Message::OpenSave(EmuSave {
        location: "/bad".to_string(),
        display_name: "bad".to_string(),
    }));
    app.update(Message::LoadSaveError("corrupt".to_string()));
    assert!(is_default(&app));
    assert!(app.save.is_none());
    assert_eq!(
        banner(&app).as_deref(),
        Some("Could not load save file. Full error:\ncorrupt")
    );
}

#[test]
fn folder_picker_outcomes() {
    let mut app = app_with(Settings { apikey: None });
    let cmds = app.update(Message::OpenCustomSave);
    assert!(matches!(cmds.as_slice(), [Command::PickSaveFolder]));
    app.update(Message::FolderPicked(PickResult::Cancel));
    assert!(is_default(&app));

    app.update(Message::OpenCustomSave);
    app.update(Message::FolderPicked(PickResult::OkayMultiple));
    assert!(is_default(&app));

    app.update(Message::OpenCustomSave);
    app.update(Message::FolderPicked(PickResult::Error("no dialog".to_string())));
    assert!(is_default(&app));
    assert_eq!(
        banner(&app).as_deref(),
        Some("Could not load save file. Full error:\nno dialog")
    );

    app.update(Message::OpenCustomSave);
    let cmds = app.update(Message::FolderPicked(PickResult::Okay("/dir".to_string())));
    match cmds.as_slice() {
        [Command::OpenSave { location, display_name }] => {
            assert_eq!(location, "/dir");
            assert_eq!(display_name, "/dir");
        }
        other => panic!("unexpected {:?}", other),
    }
    assert!(matches!(app.state, AppState::Loading));
}

#[test]
fn busy_ignores_second_open() {
    let mut app = app_with(Settings { apikey: None });
    app.update(Message::OpenCustomSave);
    assert!(app.update(Message::OpenCustomSave).is_empty());
    assert!(app.update(Message::InitSwapCourse(0)).is_empty());
    assert!(matches!(app.state, AppState::Loading));
}

#[test]
fn settings_with_key_are_validated() {
    let mut app = app_with(Settings { apikey: None });
    app.update(Message::OpenSettings);
    app.update(Message::ChangeApiKey("new".to_string()));
    match &app.current_page {
        Page::Settings(sp) => {
            assert_eq!(sp.draft.apikey.as_deref(), Some("new"));
            assert_eq!(sp.prev, MainPage::Init);
        }
        other => panic!("unexpected {:?}", other),
    }
    let cmds = app.update(Message::TrySaveSettings(with_key()));
    assert_eq!(cmds.len(), 2);
    assert!(matches!(&cmds[0], Command::PersistSettings(s) if s.apikey.as_deref() == Some("key")));
    assert!(matches!(&cmds[1], Command::ValidateApiKey { apikey, .. } if apikey == "key"));
    assert!(app.settings.apikey.is_none());

    app.update(Message::RejectSettings("bad key".to_string()));
    assert_eq!(banner(&app).as_deref(), Some("bad key"));
    assert!(app.settings.apikey.is_none());

    let cmds = app.update(Message::SaveSettings(with_key()));
    assert!(matches!(cmds.as_slice(), [Command::PersistSettings(_)]));
    assert_eq!(app.settings.apikey.as_deref(), Some("key"));
    assert!(matches!(app.current_page, Page::Init));
    assert!(banner(&app).is_none());
}

#[test]
fn settings_without_key_are_accepted_at_once() {
    let mut app = app_with_save(with_key(), 1, 0);
    app.update(Message::OpenSettings);
    let cmds = app.update(Message::TrySaveSettings(Settings { apikey: None }));
    assert!(matches!(cmds.as_slice(), [Command::PersistSettings(_)]));
    assert!(app.settings.apikey.is_none());
    assert!(matches!(app.current_page, Page::Save));
}

#[test]
fn close_settings_and_errors() {
    let mut app = app_with_save(Settings { apikey: None }, 1, 0);
    app.update(Message::OpenSettings);
    app.update(Message::OpenSettings);
    app.update(Message::ChangeApiKey(String::new()));
    match &app.current_page {
        Page::Settings(sp) => assert!(sp.draft.apikey.is_none()),
        other => panic!("unexpected {:?}", other),
    }
    app.update(Message::PersistSettingsError("read-only".to_string()));
    assert_eq!(banner(&app).as_deref(), Some("read-only"));
    app.update(Message::CloseSettings);
    assert!(matches!(app.current_page, Page::Save));
    assert!(banner(&app).is_none());
    app.update(Message::FetchError("x".to_string()));
    app.update(Message::DismissError);
    assert!(banner(&app).is_none());
    app.update(Message::SetWindowSize(WindowSize::S));
    assert_eq!(app.window_size, WindowSize::S);
    app.update(Message::InitSwapCourse(0));
    app.update(Message::ResetState);
    assert!(is_default(&app));
}

#[test]
fn escape_cancels_and_panel_click_picks_course() {
    assert!(matches!(keyboard_message(true), Message::CancelSelection));
    assert!(matches!(keyboard_message(false), Message::Empty));
    let mut panel = SmmdbCoursePanel::new(course("xyz", 0));
    assert_eq!(panel.get_id(), "xyz");
    panel.set_thumbnail(vec![9]);
    assert_eq!(panel.thumbnail, Some(vec![9]));
    match panel.select_message(&AppState::DownloadSelect(4)) {
        Some(Message::DownloadCourse(4, id)) => assert_eq!(id, "xyz"),
        other => panic!("unexpected {:?}", other),
    }
    assert!(panel.select_message(&AppState::Default).is_none());
}

#[test]
fn swap_acts_on_the_selected_anchor() {
    let mut app = app_with_save(Settings { apikey: None }, 3, 2);
    app.update(Message::InitSwapCourse(1));
    let cmds = app.update(Message::SwapCourse(0, 2));
    assert!(matches!(cmds.as_slice(), [Command::ModifySave(SaveOp::Swap(1, 2))]));
    app.update(Message::SaveModified(SaveOp::Swap(1, 2)));
    assert_eq!(app.save.as_ref().unwrap().occupied, vec![true, false, true]);
}

#[test]
fn fetch_answer_ends_a_pending_selection() {
    let mut app = app_with_save(Settings { apikey: None }, 2, 1);
    app.update(Message::InitSwapCourse(0));
    app.update(Message::SetSmmdbCourses(vec![course("a", 0)]));
    assert!(is_default(&app));
    app.update(Message::InitDeleteCourse(1));
    app.update(Message::FetchError("offline".to_string()));
    assert!(is_default(&app));
    assert_eq!(banner(&app).as_deref(), Some("offline"));
}

#[test]
fn fetch_answer_keeps_a_download() {
    let mut app = app_with_save(Settings { apikey: None }, 2, 0);
    app.update(Message::InitDownloadCourse(1));
    app.update(Message::DownloadCourse(1, "abc".to_string()));
    app.update(Message::SetSmmdbCourses(vec![]));
    assert!(matches!(app.state, AppState::Downloading { .. }));
}

#[test]
fn rejected_settings_are_written_back() {
    let mut app = app_with(Settings { apikey: None });
    app.update(Message::OpenSettings);
    app.update(Message::TrySaveSettings(with_key()));
    let cmds = app.update(Message::RejectSettings("bad key".to_string()));
    match cmds.as_slice() {
        [Command::PersistSettings(s)] => assert!(s.apikey.is_none()),
        other => panic!("unexpected {:?}", other),
    }
    assert!(app.settings.apikey.is_none());
}
