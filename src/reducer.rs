use vstd::prelude::*;
use vstd::string::StringExecFns;

use crate::app::{
    accept_settings, after_fetch, blocking_fetch, download_error_text, fetch_cmd, leave_settings,
    load_error_text, refetch, step, step_download, subscription_of, thumbnail_cmds, vote, App,
    AppErrorState, AppState, AppView, Command, MainPage, Message, Page, PickResult, Progress,
    SaveModel, SaveOp, Settings, SettingsPage, Subscription, WindowSize,
};
use crate::catalog::Smmdb;
use crate::panel::Course2Response;

verus! {

fn one(c: Command) -> (r: Vec<Command>)
    ensures
        r@ == seq![c],
{
    let mut v: Vec<Command> = Vec::new();
    v.push(c);
    assert(v@ =~= seq![c]);
    v
}

fn none() -> (r: Vec<Command>)
    ensures
        r@ == Seq::<Command>::empty(),
{
    Vec::new()
}

fn load_error(err: String) -> (r: AppErrorState)
    ensures
        r matches AppErrorState::Shown(s) && s@ == load_error_text(err@),
{
    let mut s = String::from_str("Could not load save file. Full error:\n");
    s.append(err.as_str());
    AppErrorState::Shown(s)
}

fn download_error() -> (r: AppErrorState)
    ensures
        r matches AppErrorState::Shown(s) && s@ == download_error_text(),
{
    AppErrorState::Shown(String::from_str("The course could not be downloaded."))
}

impl App {
    /// A controller at rest on the start page, with the command that loads
    /// the first page of the catalog.
    pub fn new(settings: Settings) -> (r: (App, Vec<Command>))
        ensures
            r.0@.state is Default,
            r.0@.error is None,
            r.0@.settings == settings,
            r.0@.page is Init,
            r.0@.panels.len() == 0,
            r.0@.query.title@.len() == 0,
            r.0@.query.uploader@.len() == 0,
            r.0@.query.difficulty is None,
            r.0@.query.page == 0,
            r.0@.window_size == WindowSize::M,
            r.0@.save is None,
            !r.0@.save_in_flight,
            r.1@ == seq![fetch_cmd(r.0@.query, settings)],
            crate::laws::wf(r.0@),
    {
        let app = App {
            state: AppState::Default,
            error_state: AppErrorState::Hidden,
            settings,
            current_page: Page::Init,
            smmdb: Smmdb::new(),
            window_size: WindowSize::M,
            save: None,
            save_in_flight: false,
        };
        let cmd = app.fetch_command();
        (app, one(cmd))
    }

    pub fn title(&self) -> (r: String)
        ensures
            r@ == "SMMDB"@,
    {
        String::from_str("SMMDB")
    }

    /// The command that fetches the catalog for the current query.
    fn fetch_command(&self) -> (r: Command)
        ensures
            r == fetch_cmd(self.smmdb.query_params, self.settings),
    {
        Command::FetchCourses {
            params: self.smmdb.query_params.duplicate(),
            apikey: self.settings.duplicate().apikey,
        }
    }

    /// The listener that the current state asks for.
    pub fn subscription(&self) -> (r: Subscription)
        ensures
            r == subscription_of(self.state),
    {
        match &self.state {
            AppState::SwapSelect(_) | AppState::DownloadSelect(_) | AppState::DeleteSelect(_) => {
                Subscription::Keyboard
            },
            AppState::Downloading { smmdb_id, .. } => Subscription::Download(smmdb_id.clone()),
            AppState::Default | AppState::Loading => Subscription::Quiet,
        }
    }

    fn main_page(&self) -> (r: Option<MainPage>)
        ensures
            match self.current_page {
                Page::Init => r == Some(MainPage::Init),
                Page::Save => r == Some(MainPage::Save),
                Page::Settings(_) => r is None,
            },
    {
        match &self.current_page {
            Page::Init => Some(MainPage::Init),
            Page::Save => Some(MainPage::Save),
            Page::Settings(_) => None,
        }
    }

    fn leave_settings(&mut self)
        ensures
            final(self)@ == (AppView { page: leave_settings(old(self)@.page), ..old(self)@ }),
    {
        let prev = match &self.current_page {
            Page::Settings(sp) => Some(sp.prev),
            _ => None,
        };
        match prev {
            Some(MainPage::Init) => self.current_page = Page::Init,
            Some(MainPage::Save) => self.current_page = Page::Save,
            None => {},
        }
    }

    /// Starts a save operation: blocking until its completion arrives.
    fn begin_save_work(&mut self, cmd: Command) -> (r: Vec<Command>)
        ensures
            final(self)@ == (AppView {
                state: AppState::Loading,
                save_in_flight: true,
                ..old(self)@
            }),
            r@ == seq![cmd],
    {
        self.state = AppState::Loading;
        self.save_in_flight = true;
        one(cmd)
    }

    fn after_fetch(&mut self)
        ensures
            final(self)@ == (AppView { state: after_fetch(old(self)@), ..old(self)@ }),
    {
        if (matches!(self.state, AppState::Loading) && !self.save_in_flight) || matches!(
            self.state,
            AppState::SwapSelect(_) | AppState::DownloadSelect(_) | AppState::DeleteSelect(_)
        ) {
            self.state = AppState::Default;
        }
    }

    fn refetch(&mut self) -> (r: Vec<Command>)
        ensures
            (final(self)@, r@) == refetch(old(self)@, old(self)@.query),
    {
        self.smmdb.reset_pagination();
        one(self.fetch_command())
    }

    fn blocking_fetch(&mut self) -> (r: Vec<Command>)
        ensures
            (final(self)@, r@) == blocking_fetch(old(self)@, old(self)@.query),
    {
        if matches!(self.state, AppState::Default) {
            self.state = AppState::Loading;
        }
        one(self.fetch_command())
    }

    fn vote(&self, id: String, value: i32) -> (r: Vec<Command>)
        ensures
            (self@, r@) == vote(self@, id, value),
    {
        match &self.settings.apikey {
            Some(k) => one(Command::Vote { course_id: id, value, apikey: k.clone() }),
            None => none(),
        }
    }

    fn accept_settings(&mut self, s: Settings)
        ensures
            final(self)@ == accept_settings(old(self)@, s),
    {
        self.settings = s;
        self.leave_settings();
        self.error_state = AppErrorState::Hidden;
    }

    fn set_courses(&mut self, courses: Vec<Course2Response>) -> (r: Vec<Command>)
        ensures
            (final(self)@, r@) == step(old(self)@, Message::SetSmmdbCourses(courses)),
    {
        self.after_fetch();
        self.error_state = AppErrorState::Hidden;
        self.smmdb.set_courses(courses);
        let ids = self.smmdb.course_ids();
        let mut cmds: Vec<Command> = Vec::new();
        let mut i: usize = 0;
        while i < ids.len()
            invariant
                i <= ids@.len(),
                cmds@ == ids@.subrange(0, i as int).map_values(
                    |id: String| Command::FetchThumbnail(id),
                ),
            decreases ids@.len() - i,
        {
            cmds.push(Command::FetchThumbnail(ids[i].clone()));
            i = i + 1;
            assert(cmds@ =~= ids@.subrange(0, i as int).map_values(
                |id: String| Command::FetchThumbnail(id),
            ));
        }
        assert(ids@.subrange(0, i as int) =~= ids@);
        assert(cmds@ =~= thumbnail_cmds(self.smmdb.course_panels@));
        cmds
    }

    fn download_progressed(&mut self, p: Progress) -> (r: Vec<Command>)
        ensures
            (final(self)@, r@) == step_download(old(self)@, p),
    {
        match &mut self.state {
            AppState::Downloading { save_index, progress, .. } => match p {
                Progress::Started => {
                    *progress = 0;
                    none()
                },
                Progress::Advanced(x) => {
                    *progress = x;
                    none()
                },
                Progress::Finished(data) => {
                    let slot = *save_index;
                    if self.save.is_some() {
                        self.begin_save_work(Command::ModifySave(SaveOp::Add(slot, data)))
                    } else {
                        self.state = AppState::Default;
                        self.error_state = download_error();
                        none()
                    }
                },
                Progress::Errored => {
                    self.state = AppState::Default;
                    self.error_state = download_error();
                    none()
                },
            },
            _ => none(),
        }
    }

    fn save_modified(&mut self, op: SaveOp) -> (r: Vec<Command>)
        ensures
            (final(self)@, r@) == step(old(self)@, Message::SaveModified(op)),
    {
        if !self.save_in_flight {
            return none();
        }
        match &mut self.save {
            Some(save) => {
                let len = save.occupied.len();
                match &op {
                    SaveOp::Swap(a, b) => {
                        if *a < len && *b < len {
                            let x = save.occupied[*a];
                            let y = save.occupied[*b];
                            save.occupied.set(*a, y);
                            save.occupied.set(*b, x);
                        }
                    },
                    SaveOp::Add(i, _) => {
                        if *i < len {
                            save.occupied.set(*i, true);
                        }
                    },
                    SaveOp::Delete(i) => {
                        if *i < len {
                            save.occupied.set(*i, false);
                        }
                    },
                }
            },
            None => {
                return none();
            },
        }
        self.state = AppState::Default;
        self.error_state = AppErrorState::Hidden;
        self.save_in_flight = false;
        none()
    }

    /// Handles one event: the state changes as `step` says and the commands
    /// returned are those it lists, in order.
    pub fn update(&mut self, message: Message) -> (cmds: Vec<Command>)
        ensures
            (final(self)@, cmds@) == step(old(self)@, message),
    {
        match message {
            Message::Empty => none(),
            Message::SetWindowSize(w) => {
                self.window_size = w;
                none()
            },
            Message::OpenSave(save) => {
                if matches!(self.state, AppState::Default) {
                    self.begin_save_work(
                        Command::OpenSave {
                            location: save.location,
                            display_name: save.display_name,
                        },
                    )
                } else {
                    none()
                }
            },
            Message::OpenCustomSave => {
                if matches!(self.state, AppState::Default) {
                    self.begin_save_work(Command::PickSaveFolder)
                } else {
                    none()
                }
            },
            Message::FolderPicked(r) => {
                if matches!(self.state, AppState::Loading) && self.save_in_flight {
                    match r {
                        PickResult::Okay(path) => {
                            let name = path.clone();
                            one(Command::OpenSave { location: path, display_name: name })
                        },
                        PickResult::Error(e) => {
                            self.state = AppState::Default;
                            self.save_in_flight = false;
                            self.error_state = load_error(e);
                            none()
                        },
                        _ => {
                            self.state = AppState::Default;
                            self.save_in_flight = false;
                            none()
                        },
                    }
                } else {
                    none()
                }
            },
            Message::LoadSave(name, occupied) => {
                self.state = AppState::Default;
                self.error_state = AppErrorState::Hidden;
                self.current_page = Page::Save;
                self.save = Some(SaveModel { display_name: name, occupied });
                self.save_in_flight = false;
                none()
            },
            Message::LoadSaveError(e) => {
                if matches!(self.state, AppState::Loading) {
                    self.state = AppState::Default;
                }
                self.save_in_flight = false;
                self.error_state = load_error(e);
                none()
            },
            Message::FetchCourses(q) => {
                one(Command::FetchCourses { params: q, apikey: self.settings.duplicate().apikey })
            },
            Message::FetchError(e) => {
                self.after_fetch();
                self.error_state = AppErrorState::Shown(e);
                none()
            },
            Message::SetSmmdbCourses(courses) => self.set_courses(courses),
            Message::SetSmmdbCourseThumbnail(t, id) => {
                self.smmdb.set_course_panel_thumbnail(&id, t);
                none()
            },
            Message::InitSwapCourse(i) => {
                if !matches!(self.state, AppState::Loading | AppState::Downloading { .. }) {
                    self.state = AppState::SwapSelect(i);
                }
                none()
            },
            Message::InitDownloadCourse(i) => {
                if !matches!(self.state, AppState::Loading | AppState::Downloading { .. }) {
                    self.state = AppState::DownloadSelect(i);
                }
                none()
            },
            Message::InitDeleteCourse(i) => {
                if !matches!(self.state, AppState::Loading | AppState::Downloading { .. }) {
                    self.state = AppState::DeleteSelect(i);
                }
                none()
            },
            Message::SwapCourse(_, target) => {
                match self.state {
                    AppState::SwapSelect(anchor) => {
                        if self.save.is_some() {
                            self.begin_save_work(Command::ModifySave(SaveOp::Swap(anchor, target)))
                        } else {
                            none()
                        }
                    },
                    _ => none(),
                }
            },
            Message::DeleteCourse(i) => {
                if matches!(self.state, AppState::DeleteSelect(_)) && self.save.is_some() {
                    self.begin_save_work(Command::ModifySave(SaveOp::Delete(i)))
                } else {
                    none()
                }
            },
            Message::DownloadCourse(i, id) => {
                if matches!(self.state, AppState::DownloadSelect(_)) && self.save.is_some() {
                    self.state = AppState::Downloading { save_index: i, smmdb_id: id, progress: 0 };
                }
                none()
            },
            Message::DownloadProgressed(p) => self.download_progressed(p),
            Message::SaveModified(op) => self.save_modified(op),
            Message::SaveModifyError(e) => {
                if self.save_in_flight {
                    self.state = AppState::Default;
                    self.save_in_flight = false;
                }
                self.error_state = AppErrorState::Shown(e);
                none()
            },
            Message::CancelSelection => {
                if matches!(
                    self.state,
                    AppState::SwapSelect(_) | AppState::DownloadSelect(_) | AppState::DeleteSelect(_)
                ) {
                    self.state = AppState::Default;
                }
                none()
            },
            Message::TitleChanged(t) => {
                self.smmdb.set_title(t);
                self.refetch()
            },
            Message::UploaderChanged(u) => {
                self.smmdb.set_uploader(u);
                self.refetch()
            },
            Message::DifficultyChanged(d) => {
                self.smmdb.set_difficulty(d);
                self.refetch()
            },
            Message::SortChanged(s) => {
                self.smmdb.set_sort(s);
                self.refetch()
            },
            Message::ApplyFilters => {
                self.smmdb.reset_pagination();
                self.blocking_fetch()
            },
            Message::PaginateForward => {
                self.smmdb.paginate_forward();
                self.blocking_fetch()
            },
            Message::PaginateBackward => {
                self.smmdb.paginate_backward();
                self.blocking_fetch()
            },
            Message::UpvoteCourse(id) => self.vote(id, 1),
            Message::DownvoteCourse(id) => self.vote(id, -1),
            Message::ResetCourseVote(id) => self.vote(id, 0),
            Message::SetVoteCourse(id, value) => {
                self.smmdb.set_own_vote(&id, value);
                none()
            },
            Message::OpenSettings => {
                match self.main_page() {
                    Some(prev) => {
                        self.current_page = Page::Settings(
                            SettingsPage { draft: self.settings.duplicate(), prev },
                        );
                    },
                    None => {},
                }
                none()
            },
            Message::TrySaveSettings(s) => {
                let persisted = Command::PersistSettings(s.duplicate());
                match &s.apikey {
                    Some(k) => {
                        let k = k.clone();
                        let mut cmds = one(persisted);
                        cmds.push(Command::ValidateApiKey { apikey: k, settings: s });
                        cmds
                    },
                    None => {
                        self.accept_settings(s);
                        one(persisted)
                    },
                }
            },
            Message::SaveSettings(s) => {
                let persisted = Command::PersistSettings(s.duplicate());
                self.accept_settings(s);
                one(persisted)
            },
            Message::RejectSettings(e) => {
                self.error_state = AppErrorState::Shown(e);
                one(Command::PersistSettings(self.settings.duplicate()))
            },
            Message::PersistSettingsError(e) => {
                self.error_state = AppErrorState::Shown(e);
                none()
            },
            Message::CloseSettings => {
                self.leave_settings();
                self.error_state = AppErrorState::Hidden;
                none()
            },
            Message::ChangeApiKey(k) => {
                match &mut self.current_page {
                    Page::Settings(sp) => {
                        sp.draft = Settings {
                            apikey: if k.as_str().is_empty() {
                                None
                            } else {
                                Some(k)
                            },
                        };
                    },
                    _ => {},
                }
                none()
            },
            Message::DismissError => {
                self.error_state = AppErrorState::Hidden;
                none()
            },
            Message::ResetState => {
                if !self.save_in_flight {
                    self.state = AppState::Default;
                }
                self.error_state = AppErrorState::Hidden;
                none()
            },
        }
    }
}

} // verus!
