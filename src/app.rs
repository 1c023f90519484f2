use vstd::prelude::*;
use vstd::string::StringExecFns;

use crate::catalog::{
    ids_of, next_page, panels_of, prev_page, with_own_vote, with_thumbnail, QueryParams,
    SortOptions, Smmdb,
};
use crate::panel::{Course2Response, Difficulty, SmmdbCoursePanel};

verus! {

/// What the controller is doing; exactly one variant holds at a time.
#[derive(Clone, Debug)]
pub enum AppState {
    /// Nothing pending.
    Default,
    /// A blocking operation (open, fetch, save change) is in flight.
    Loading,
    SwapSelect(usize),
    DownloadSelect(usize),
    DeleteSelect(usize),
    /// A course streams in; `progress` counts thousandths of the whole.
    Downloading { save_index: usize, smmdb_id: String, progress: u32 },
}

/// The error banner.
#[derive(Clone, Debug)]
pub enum AppErrorState {
    Shown(String),
    Hidden,
}

#[derive(Clone, Copy, Debug, PartialEq, Eq, Structural)]
pub enum WindowSize {
    S,
    M,
}

/// A save found in a known emulator directory.
#[derive(Clone, Debug)]
pub struct EmuSave {
    pub location: String,
    pub display_name: String,
}

/// The user's settings; `apikey` is the credential of the archive.
#[derive(Clone, Debug)]
pub struct Settings {
    pub apikey: Option<String>,
}

impl Settings {
    pub fn duplicate(&self) -> (r: Settings)
        ensures
            r == *self,
    {
        match &self.apikey {
            Some(k) => Settings { apikey: Some(k.clone()) },
            None => Settings { apikey: None },
        }
    }
}

/// A page that is not the settings page.
#[derive(Clone, Copy, Debug, PartialEq, Eq, Structural)]
pub enum MainPage {
    Init,
    Save,
}

/// The settings page: the draft being edited and the page to go back to.
#[derive(Clone, Debug)]
pub struct SettingsPage {
    pub draft: Settings,
    pub prev: MainPage,
}

#[derive(Clone, Debug)]
pub enum Page {
    Init,
    Save,
    Settings(SettingsPage),
}

/// What the controller knows of the opened save: its label and which
/// course slots hold a course.
#[derive(Clone, Debug)]
pub struct SaveModel {
    pub display_name: String,
    pub occupied: Vec<bool>,
}

/// A change to the opened save.
#[derive(Clone, Debug)]
pub enum SaveOp {
    Swap(usize, usize),
    /// Adds the encoded course to the slot.
    Add(usize, Vec<u8>),
    Delete(usize),
}

/// Outcome of the folder picker.
#[derive(Clone, Debug)]
pub enum PickResult {
    Okay(String),
    OkayMultiple,
    Cancel,
    Error(String),
}

/// Events of a course download; `Advanced` carries thousandths of the whole.
#[derive(Clone, Debug)]
pub enum Progress {
    Started,
    Advanced(u32),
    Finished(Vec<u8>),
    Errored,
}

/// Every event the controller reacts to.
#[derive(Clone, Debug)]
pub enum Message {
    Empty,
    SetWindowSize(WindowSize),
    OpenSave(EmuSave),
    OpenCustomSave,
    FolderPicked(PickResult),
    /// A save was opened: its label and the occupancy of its slots.
    LoadSave(String, Vec<bool>),
    LoadSaveError(String),
    FetchCourses(QueryParams),
    FetchError(String),
    SetSmmdbCourses(Vec<Course2Response>),
    SetSmmdbCourseThumbnail(Vec<u8>, String),
    InitSwapCourse(usize),
    /// Confirms a swap: the first slot is the one shown as selected, the
    /// second the target; the swap acts on the selection's own anchor.
    SwapCourse(usize, usize),
    InitDownloadCourse(usize),
    DownloadCourse(usize, String),
    DownloadProgressed(Progress),
    InitDeleteCourse(usize),
    DeleteCourse(usize),
    SaveModified(SaveOp),
    SaveModifyError(String),
    CancelSelection,
    TitleChanged(String),
    UploaderChanged(String),
    DifficultyChanged(Option<Difficulty>),
    SortChanged(SortOptions),
    ApplyFilters,
    PaginateForward,
    PaginateBackward,
    UpvoteCourse(String),
    DownvoteCourse(String),
    ResetCourseVote(String),
    SetVoteCourse(String, i32),
    OpenSettings,
    TrySaveSettings(Settings),
    SaveSettings(Settings),
    RejectSettings(String),
    PersistSettingsError(String),
    CloseSettings,
    ChangeApiKey(String),
    DismissError,
    ResetState,
}

/// Asynchronous work for the runtime; each completes with a `Message`.
#[derive(Clone, Debug)]
pub enum Command {
    /// Open the save at `location`: `LoadSave` or `LoadSaveError`.
    OpenSave { location: String, display_name: String },
    /// Show the folder picker: `FolderPicked`.
    PickSaveFolder,
    /// Fetch a page of courses: `SetSmmdbCourses` or `FetchError`.
    FetchCourses { params: QueryParams, apikey: Option<String> },
    /// Fetch a thumbnail: `SetSmmdbCourseThumbnail`, or nothing on failure.
    FetchThumbnail(String),
    /// Change the opened save and write it: `SaveModified` or `SaveModifyError`.
    ModifySave(SaveOp),
    /// Cast a vote: `SetVoteCourse` or `FetchError`.
    Vote { course_id: String, value: i32, apikey: String },
    /// Write the settings: nothing, or `PersistSettingsError`.
    PersistSettings(Settings),
    /// Check a credential: `SaveSettings`, or `RejectSettings`, which writes
    /// the settings in force back over the rejected draft.
    ValidateApiKey { apikey: String, settings: Settings },
}

/// The passive event source that the state asks for.
#[derive(Clone, Debug)]
pub enum Subscription {
    Quiet,
    /// Key presses, to cancel a selection.
    Keyboard,
    /// The download stream of that course.
    Download(String),
}

/// The controller: workflow state, error banner, settings, page, catalog
/// and opened save.
#[derive(Debug)]
pub struct App {
    pub state: AppState,
    pub error_state: AppErrorState,
    pub settings: Settings,
    pub current_page: Page,
    pub smmdb: Smmdb,
    pub window_size: WindowSize,
    pub save: Option<SaveModel>,
    /// An open or a change of the save is outstanding.
    pub save_in_flight: bool,
}

pub struct SaveView {
    pub display_name: String,
    pub occupied: Seq<bool>,
}

pub struct AppView {
    pub state: AppState,
    pub error: Option<Seq<char>>,
    pub settings: Settings,
    pub page: Page,
    pub query: QueryParams,
    pub panels: Seq<SmmdbCoursePanel>,
    pub window_size: WindowSize,
    pub save: Option<SaveView>,
    pub save_in_flight: bool,
}

impl View for App {
    type V = AppView;

    open spec fn view(&self) -> AppView {
        AppView {
            state: self.state,
            error: match self.error_state {
                AppErrorState::Shown(s) => Some(s@),
                AppErrorState::Hidden => None,
            },
            settings: self.settings,
            page: self.current_page,
            query: self.smmdb.query_params,
            panels: self.smmdb.course_panels@,
            window_size: self.window_size,
            save: match self.save {
                Some(s) => Some(SaveView { display_name: s.display_name, occupied: s.occupied@ }),
                None => None,
            },
            save_in_flight: self.save_in_flight,
        }
    }
}

pub open spec fn is_selecting(s: AppState) -> bool {
    s is SwapSelect || s is DownloadSelect || s is DeleteSelect
}

/// A new selection may start from rest or replace another selection.
pub open spec fn may_select(s: AppState) -> bool {
    s is Default || is_selecting(s)
}

pub open spec fn load_error_text(err: Seq<char>) -> Seq<char> {
    "Could not load save file. Full error:\n"@ + err
}

pub open spec fn download_error_text() -> Seq<char> {
    "The course could not be downloaded."@
}

/// The command that fetches the catalog for the query with the credential.
pub open spec fn fetch_cmd(q: QueryParams, s: Settings) -> Command {
    Command::FetchCourses { params: q, apikey: s.apikey }
}

/// One thumbnail fetch per course, in catalog order.
pub open spec fn thumbnail_cmds(ps: Seq<SmmdbCoursePanel>) -> Seq<Command> {
    ids_of(ps).map_values(|id: String| Command::FetchThumbnail(id))
}

/// The state once a catalog fetch (or a vote) has answered: a pending
/// selection and the fetch's own blocking state end; a save operation and a
/// download keep theirs.
pub open spec fn after_fetch(v: AppView) -> AppState {
    if (v.state is Loading && !v.save_in_flight) || is_selecting(v.state) {
        AppState::Default
    } else {
        v.state
    }
}

/// The state once a blocking fetch starts: it blocks only from rest.
pub open spec fn begin_fetch(s: AppState) -> AppState {
    if s is Default {
        AppState::Loading
    } else {
        s
    }
}

pub open spec fn page_of(m: MainPage) -> Page {
    match m {
        MainPage::Init => Page::Init,
        MainPage::Save => Page::Save,
    }
}

/// The page shown once the settings page closes.
pub open spec fn leave_settings(p: Page) -> Page {
    match p {
        Page::Settings(sp) => page_of(sp.prev),
        _ => p,
    }
}

/// The occupancy of the slots after a change to the save.
pub open spec fn apply_op(occ: Seq<bool>, op: SaveOp) -> Seq<bool> {
    match op {
        SaveOp::Swap(a, b) => if a < occ.len() && b < occ.len() {
            occ.update(a as int, occ[b as int]).update(b as int, occ[a as int])
        } else {
            occ
        },
        SaveOp::Add(i, _) => if i < occ.len() {
            occ.update(i as int, true)
        } else {
            occ
        },
        SaveOp::Delete(i) => if i < occ.len() {
            occ.update(i as int, false)
        } else {
            occ
        },
    }
}

/// A query changed by a filter or sort, sent back to the first page.
pub open spec fn refetch(v: AppView, q: QueryParams) -> (AppView, Seq<Command>) {
    let q2 = QueryParams { page: 0, ..q };
    (AppView { query: q2, ..v }, seq![fetch_cmd(q2, v.settings)])
}

/// A query changed by a user request to load: blocking from rest.
pub open spec fn blocking_fetch(v: AppView, q: QueryParams) -> (AppView, Seq<Command>) {
    (AppView { query: q, state: begin_fetch(v.state), ..v }, seq![fetch_cmd(q, v.settings)])
}

pub open spec fn vote(v: AppView, id: String, value: i32) -> (AppView, Seq<Command>) {
    match v.settings.apikey {
        Some(k) => (v, seq![Command::Vote { course_id: id, value, apikey: k }]),
        None => (v, seq![]),
    }
}

/// Settings accepted: kept, and the settings page left.
pub open spec fn accept_settings(v: AppView, s: Settings) -> AppView {
    AppView { settings: s, page: leave_settings(v.page), error: None, ..v }
}

pub open spec fn step_download(v: AppView, p: Progress) -> (AppView, Seq<Command>) {
    match v.state {
        AppState::Downloading { save_index, smmdb_id, progress } => match p {
            Progress::Started => (
                AppView { state: AppState::Downloading { save_index, smmdb_id, progress: 0 }, ..v },
                seq![],
            ),
            Progress::Advanced(x) => (
                AppView { state: AppState::Downloading { save_index, smmdb_id, progress: x }, ..v },
                seq![],
            ),
            Progress::Finished(data) => if v.save is Some {
                (
                    AppView { state: AppState::Loading, save_in_flight: true, ..v },
                    seq![Command::ModifySave(SaveOp::Add(save_index, data))],
                )
            } else {
                (
                    AppView { state: AppState::Default, error: Some(download_error_text()), ..v },
                    seq![],
                )
            },
            Progress::Errored => (
                AppView { state: AppState::Default, error: Some(download_error_text()), ..v },
                seq![],
            ),
        },
        _ => (v, seq![]),
    }
}

/// The reducer: the next view and the commands to run, for each event.
pub open spec fn step(v: AppView, m: Message) -> (AppView, Seq<Command>) {
    match m {
        Message::Empty => (v, seq![]),
        Message::SetWindowSize(w) => (AppView { window_size: w, ..v }, seq![]),
        Message::OpenSave(save) => if v.state is Default {
            (
                AppView { state: AppState::Loading, save_in_flight: true, ..v },
                seq![
                    Command::OpenSave {
                        location: save.location,
                        display_name: save.display_name,
                    },
                ],
            )
        } else {
            (v, seq![])
        },
        Message::OpenCustomSave => if v.state is Default {
            (
                AppView { state: AppState::Loading, save_in_flight: true, ..v },
                seq![Command::PickSaveFolder],
            )
        } else {
            (v, seq![])
        },
        Message::FolderPicked(r) => if v.state is Loading && v.save_in_flight {
            match r {
                PickResult::Okay(path) => (
                    v,
                    seq![Command::OpenSave { location: path, display_name: path }],
                ),
                PickResult::Error(e) => (
                    AppView {
                        state: AppState::Default,
                        save_in_flight: false,
                        error: Some(load_error_text(e@)),
                        ..v
                    },
                    seq![],
                ),
                _ => (AppView { state: AppState::Default, save_in_flight: false, ..v }, seq![]),
            }
        } else {
            (v, seq![])
        },
        Message::LoadSave(name, occ) => (
            AppView {
                state: AppState::Default,
                error: None,
                page: Page::Save,
                save: Some(SaveView { display_name: name, occupied: occ@ }),
                save_in_flight: false,
                ..v
            },
            seq![],
        ),
        Message::LoadSaveError(e) => (
            AppView {
                state: if v.state is Loading {
                    AppState::Default
                } else {
                    v.state
                },
                save_in_flight: false,
                error: Some(load_error_text(e@)),
                ..v
            },
            seq![],
        ),
        Message::FetchCourses(q) => (v, seq![fetch_cmd(q, v.settings)]),
        Message::FetchError(e) => (AppView { state: after_fetch(v), error: Some(e@), ..v }, seq![]),
        Message::SetSmmdbCourses(cs) => (
            AppView { state: after_fetch(v), error: None, panels: panels_of(cs@), ..v },
            thumbnail_cmds(panels_of(cs@)),
        ),
        Message::SetSmmdbCourseThumbnail(t, id) => (
            AppView { panels: with_thumbnail(v.panels, id@, t), ..v },
            seq![],
        ),
        Message::InitSwapCourse(i) => if may_select(v.state) {
            (AppView { state: AppState::SwapSelect(i), ..v }, seq![])
        } else {
            (v, seq![])
        },
        Message::InitDownloadCourse(i) => if may_select(v.state) {
            (AppView { state: AppState::DownloadSelect(i), ..v }, seq![])
        } else {
            (v, seq![])
        },
        Message::InitDeleteCourse(i) => if may_select(v.state) {
            (AppView { state: AppState::DeleteSelect(i), ..v }, seq![])
        } else {
            (v, seq![])
        },
        Message::SwapCourse(_, target) => match v.state {
            AppState::SwapSelect(anchor) => if v.save is Some {
                (
                    AppView { state: AppState::Loading, save_in_flight: true, ..v },
                    seq![Command::ModifySave(SaveOp::Swap(anchor, target))],
                )
            } else {
                (v, seq![])
            },
            _ => (v, seq![]),
        },
        Message::DeleteCourse(i) => if v.state is DeleteSelect && v.save is Some {
            (
                AppView { state: AppState::Loading, save_in_flight: true, ..v },
                seq![Command::ModifySave(SaveOp::Delete(i))],
            )
        } else {
            (v, seq![])
        },
        Message::DownloadCourse(i, id) => if v.state is DownloadSelect && v.save is Some {
            (
                AppView {
                    state: AppState::Downloading { save_index: i, smmdb_id: id, progress: 0 },
                    ..v
                },
                seq![],
            )
        } else {
            (v, seq![])
        },
        Message::DownloadProgressed(p) => step_download(v, p),
        Message::SaveModified(op) => if v.save_in_flight && v.save is Some {
            (
                AppView {
                    state: AppState::Default,
                    error: None,
                    save_in_flight: false,
                    save: Some(
                        SaveView {
                            display_name: v.save->Some_0.display_name,
                            occupied: apply_op(v.save->Some_0.occupied, op),
                        },
                    ),
                    ..v
                },
                seq![],
            )
        } else {
            (v, seq![])
        },
        Message::SaveModifyError(e) => if v.save_in_flight {
            (
                AppView {
                    state: AppState::Default,
                    error: Some(e@),
                    save_in_flight: false,
                    ..v
                },
                seq![],
            )
        } else {
            (AppView { error: Some(e@), ..v }, seq![])
        },
        Message::CancelSelection => if is_selecting(v.state) {
            (AppView { state: AppState::Default, ..v }, seq![])
        } else {
            (v, seq![])
        },
        Message::TitleChanged(t) => refetch(v, QueryParams { title: t, ..v.query }),
        Message::UploaderChanged(u) => refetch(v, QueryParams { uploader: u, ..v.query }),
        Message::DifficultyChanged(d) => refetch(v, QueryParams { difficulty: d, ..v.query }),
        Message::SortChanged(s) => refetch(v, QueryParams { sort: s, ..v.query }),
        Message::ApplyFilters => blocking_fetch(v, QueryParams { page: 0, ..v.query }),
        Message::PaginateForward => blocking_fetch(v, next_page(v.query)),
        Message::PaginateBackward => blocking_fetch(v, prev_page(v.query)),
        Message::UpvoteCourse(id) => vote(v, id, 1),
        Message::DownvoteCourse(id) => vote(v, id, -1i32),
        Message::ResetCourseVote(id) => vote(v, id, 0),
        Message::SetVoteCourse(id, value) => (
            AppView { panels: with_own_vote(v.panels, id@, value), ..v },
            seq![],
        ),
        Message::OpenSettings => match v.page {
            Page::Settings(_) => (v, seq![]),
            Page::Init => (
                AppView {
                    page: Page::Settings(SettingsPage { draft: v.settings, prev: MainPage::Init }),
                    ..v
                },
                seq![],
            ),
            Page::Save => (
                AppView {
                    page: Page::Settings(SettingsPage { draft: v.settings, prev: MainPage::Save }),
                    ..v
                },
                seq![],
            ),
        },
        Message::TrySaveSettings(s) => match s.apikey {
            Some(k) => (
                v,
                seq![
                    Command::PersistSettings(s),
                    Command::ValidateApiKey { apikey: k, settings: s },
                ],
            ),
            None => (accept_settings(v, s), seq![Command::PersistSettings(s)]),
        },
        Message::SaveSettings(s) => (accept_settings(v, s), seq![Command::PersistSettings(s)]),
        Message::RejectSettings(e) => (
            AppView { error: Some(e@), ..v },
            seq![Command::PersistSettings(v.settings)],
        ),
        Message::PersistSettingsError(e) => (AppView { error: Some(e@), ..v }, seq![]),
        Message::CloseSettings => (
            AppView { page: leave_settings(v.page), error: None, ..v },
            seq![],
        ),
        Message::ChangeApiKey(k) => match v.page {
            Page::Settings(sp) => (
                AppView {
                    page: Page::Settings(
                        SettingsPage {
                            draft: Settings {
                                apikey: if k@.len() == 0 {
                                    None
                                } else {
                                    Some(k)
                                },
                            },
                            prev: sp.prev,
                        },
                    ),
                    ..v
                },
                seq![],
            ),
            _ => (v, seq![]),
        },
        Message::DismissError => (AppView { error: None, ..v }, seq![]),
        Message::ResetState => if v.save_in_flight {
            (AppView { error: None, ..v }, seq![])
        } else {
            (AppView { state: AppState::Default, error: None, ..v }, seq![])
        },
    }
}

/// The listener that the state asks for.
pub open spec fn subscription_of(s: AppState) -> Subscription {
    match s {
        AppState::Downloading { smmdb_id, .. } => Subscription::Download(smmdb_id),
        _ => if is_selecting(s) {
            Subscription::Keyboard
        } else {
            Subscription::Quiet
        },
    }
}

/// While a selection is pending a released escape key cancels it; any other
/// key event means nothing.
pub fn keyboard_message(escape_released: bool) -> (r: Message)
    ensures
        escape_released ==> r is CancelSelection,
        !escape_released ==> r is Empty,
{
    if escape_released {
        Message::CancelSelection
    } else {
        Message::Empty
    }
}

} // verus!
