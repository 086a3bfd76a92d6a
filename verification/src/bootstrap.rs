//! Bringing the database up at startup.
//!
//! The work on the disk and on the database is done by the caller; what
//! to do next is decided here. The caller starts with [`Bootstrap::begin`],
//! carries out each action it is handed and reports the result as an
//! event, until the action is `Finish` or `Fail`.
//!
//! A database whose recorded migration history does not fit the current
//! migrations is not upgraded: its file is removed and the database is
//! made anew. Every other failure ends the startup.

use vstd::prelude::*;
use vstd::string::*;
use crate::errors::{AppError, ErrorView};

verus! {

/// The directory of the application inside the user's data directory.
pub const APP_DIRECTORY: &'static str = "distribbuidora-pdv";

/// The file of the database inside the directory of the application.
pub const DATABASE_FILE: &'static str = "distribbuidora.db";

/// How far the startup has come.
#[derive(Clone, Copy, Debug, PartialEq, Eq, Structural)]
pub enum BootState {
    Locating,
    CreatingDirectory,
    CheckingDirectory,
    Connecting,
    Migrating,
    RemovingDatabase,
    RecreatingDirectory,
    Reconnecting,
    MigratingAgain,
    Ready,
    Failed,
}

/// What the caller reports after an action.
#[derive(Debug, PartialEq, Eq)]
pub enum BootEvent {
    /// The data directory was looked for. `directory` is the directory of
    /// the application in it, if the platform has a data directory;
    /// `database` is the path of the database file, if it can be written as text.
    Located { directory: Option<String>, database: Option<String> },
    /// The action was carried out.
    Succeeded,
    /// The directory was looked at: it is a directory, or something else.
    Checked { is_directory: bool },
    /// The action failed, with the system's message.
    Failed(String),
    /// The migrations could not be applied because the recorded history
    /// does not fit them.
    VersionMismatch,
}

/// What the caller is to do next.
#[derive(Debug, PartialEq, Eq)]
pub enum BootAction {
    /// Find the user's data directory.
    LocateDataDirectory,
    /// Create the directory of the application and all its parents.
    CreateDirectory,
    /// Look at the directory of the application.
    CheckDirectory,
    /// Open the database at this address, with a single connection.
    Connect(String),
    /// Apply the migrations.
    RunMigrations,
    /// Close the database and remove its file, if it exists.
    RemoveDatabaseFile,
    /// The database is ready.
    Finish,
    /// The startup has failed.
    Fail(AppError),
}

/// The content of a [`BootEvent`].
pub enum EventView {
    Located { directory: Option<Seq<char>>, database: Option<Seq<char>> },
    Succeeded,
    Checked { is_directory: bool },
    Failed(Seq<char>),
    VersionMismatch,
}

/// The content of a [`BootAction`].
pub enum ActionView {
    LocateDataDirectory,
    CreateDirectory,
    CheckDirectory,
    Connect(Seq<char>),
    RunMigrations,
    RemoveDatabaseFile,
    Finish,
    Fail(ErrorView),
}

/// The content of an optional text.
pub open spec fn text_view(text: Option<String>) -> Option<Seq<char>> {
    match text {
        Some(s) => Some(s@),
        None => None,
    }
}

impl View for BootEvent {
    type V = EventView;

    open spec fn view(&self) -> EventView {
        match *self {
            BootEvent::Located { directory, database } => EventView::Located {
                directory: text_view(directory),
                database: text_view(database),
            },
            BootEvent::Succeeded => EventView::Succeeded,
            BootEvent::Checked { is_directory } => EventView::Checked { is_directory },
            BootEvent::Failed(m) => EventView::Failed(m@),
            BootEvent::VersionMismatch => EventView::VersionMismatch,
        }
    }
}

impl View for BootAction {
    type V = ActionView;

    open spec fn view(&self) -> ActionView {
        match *self {
            BootAction::LocateDataDirectory => ActionView::LocateDataDirectory,
            BootAction::CreateDirectory => ActionView::CreateDirectory,
            BootAction::CheckDirectory => ActionView::CheckDirectory,
            BootAction::Connect(url) => ActionView::Connect(url@),
            BootAction::RunMigrations => ActionView::RunMigrations,
            BootAction::RemoveDatabaseFile => ActionView::RemoveDatabaseFile,
            BootAction::Finish => ActionView::Finish,
            BootAction::Fail(e) => ActionView::Fail(e@),
        }
    }
}

/// The startup as far as it has come, with the paths it works on.
#[derive(Debug)]
pub struct Bootstrap {
    pub state: BootState,
    pub directory: String,
    pub database: Option<String>,
}

/// The content of a [`Bootstrap`].
pub struct BootstrapView {
    pub state: BootState,
    pub directory: Seq<char>,
    pub database: Option<Seq<char>>,
}

impl View for Bootstrap {
    type V = BootstrapView;

    open spec fn view(&self) -> BootstrapView {
        BootstrapView {
            state: self.state,
            directory: self.directory@,
            database: text_view(self.database),
        }
    }
}

/// The startup before anything has been done: the data directory is still
/// to be found, and neither the directory nor the database file is known.
pub open spec fn initial() -> BootstrapView {
    BootstrapView { state: BootState::Locating, directory: Seq::empty(), database: None }
}

/// A path with every backslash written as a slash.
pub open spec fn with_slashes(path: Seq<char>) -> Seq<char> {
    path.map_values(
        |c: char|
            if c == '\\' {
                '/'
            } else {
                c
            },
    )
}

/// The address under which the database at `path` is opened.
pub open spec fn database_url(path: Seq<char>) -> Seq<char> {
    "sqlite:"@ + with_slashes(path)
}

/// A failure of the file system at some step, with the directory it concerns.
pub open spec fn directory_failure(what: Seq<char>, message: Seq<char>, directory: Seq<char>)
    -> ErrorView {
    ErrorView::Io(what + ": "@ + message + " (path: "@ + directory + ")"@)
}

/// The startup ends in failure.
pub open spec fn fails(b: BootstrapView, e: ErrorView) -> (BootstrapView, ActionView) {
    (BootstrapView { state: BootState::Failed, ..b }, ActionView::Fail(e))
}

/// The startup goes on in `state` with `action`.
pub open spec fn goes_on(b: BootstrapView, state: BootState, action: ActionView) -> (
    BootstrapView,
    ActionView,
) {
    (BootstrapView { state, ..b }, action)
}

/// The failure for an event that does not answer the action that was handed out.
pub open spec fn unexpected_event() -> ErrorView {
    ErrorView::Io("Unexpected event during startup"@)
}

/// What follows an event: the next step of the startup and the action
/// that the caller is to carry out.
pub open spec fn next(b: BootstrapView, event: EventView) -> (BootstrapView, ActionView) {
    match (b.state, event) {
        (BootState::Locating, EventView::Located { directory: Some(directory), database }) => (
            BootstrapView { state: BootState::CreatingDirectory, directory, database },
            ActionView::CreateDirectory,
        ),
        (BootState::Locating, EventView::Located { directory: None, database }) => fails(
            b,
            ErrorView::Io("Failed to get app data directory"@),
        ),
        (BootState::CreatingDirectory, EventView::Succeeded) => goes_on(
            b,
            BootState::CheckingDirectory,
            ActionView::CheckDirectory,
        ),
        (BootState::CreatingDirectory, EventView::Failed(m)) => fails(
            b,
            directory_failure("Failed to create app data directory"@, m, b.directory),
        ),
        (
            BootState::CheckingDirectory,
            EventView::Checked { is_directory: true },
        ) => match b.database {
            Some(path) => goes_on(
                b,
                BootState::Connecting,
                ActionView::Connect(database_url(path)),
            ),
            None => fails(b, ErrorView::Io("Invalid database path"@)),
        },
        (BootState::CheckingDirectory, EventView::Checked { is_directory: false }) => fails(
            b,
            ErrorView::Io("App data path exists but is not a directory: "@ + b.directory),
        ),
        (BootState::CheckingDirectory, EventView::Failed(m)) => fails(
            b,
            directory_failure("Failed to check app data directory permissions"@, m, b.directory),
        ),
        (BootState::Connecting, EventView::Succeeded) => goes_on(
            b,
            BootState::Migrating,
            ActionView::RunMigrations,
        ),
        (BootState::Connecting, EventView::Failed(m)) => fails(
            b,
            ErrorView::Database("Failed to connect to database: "@ + m),
        ),
        (BootState::Migrating, EventView::Succeeded) => goes_on(
            b,
            BootState::Ready,
            ActionView::Finish,
        ),
        (BootState::Migrating, EventView::VersionMismatch) => goes_on(
            b,
            BootState::RemovingDatabase,
            ActionView::RemoveDatabaseFile,
        ),
        (BootState::Migrating, EventView::Failed(m)) => fails(b, ErrorView::Database(m)),
        (BootState::RemovingDatabase, EventView::Succeeded) => goes_on(
            b,
            BootState::RecreatingDirectory,
            ActionView::CreateDirectory,
        ),
        (BootState::RemovingDatabase, EventView::Failed(m)) => fails(
            b,
            ErrorView::Io("Failed to remove old database: "@ + m),
        ),
        (BootState::RecreatingDirectory, EventView::Succeeded) => match b.database {
            Some(path) => goes_on(
                b,
                BootState::Reconnecting,
                ActionView::Connect(database_url(path)),
            ),
            None => fails(b, ErrorView::Io("Invalid database path"@)),
        },
        (BootState::RecreatingDirectory, EventView::Failed(m)) => fails(
            b,
            directory_failure("Failed to recreate app data directory"@, m, b.directory),
        ),
        (BootState::Reconnecting, EventView::Succeeded) => goes_on(
            b,
            BootState::MigratingAgain,
            ActionView::RunMigrations,
        ),
        (BootState::Reconnecting, EventView::Failed(m)) => fails(
            b,
            ErrorView::Database("Failed to reconnect to database: "@ + m),
        ),
        (BootState::MigratingAgain, EventView::Succeeded) => goes_on(
            b,
            BootState::Ready,
            ActionView::Finish,
        ),
        (BootState::MigratingAgain, EventView::VersionMismatch) => fails(
            b,
            ErrorView::Database("Migration history does not fit a new database"@),
        ),
        (BootState::MigratingAgain, EventView::Failed(m)) => fails(b, ErrorView::Database(m)),
        (BootState::Ready, _) => (b, ActionView::Finish),
        _ => fails(b, unexpected_event()),
    }
}

/// Writes the address under which the database at `path` is opened.
pub fn make_database_url(path: &str) -> (url: String)
    ensures
        url@ == database_url(path@),
{
    let mut url: String = String::from_str("sqlite:");
    let count: usize = path.unicode_len();
    let mut i: usize = 0;
    assert(with_slashes(path@).take(0) =~= Seq::empty());
    assert(url@ =~= "sqlite:"@ + with_slashes(path@).take(0));
    while i < count
        invariant
            i <= count == path@.len(),
            url@ == "sqlite:"@ + with_slashes(path@).take(i as int),
        decreases count - i,
    {
        let c: char = path.get_char(i);
        proof {
            reveal_strlit("/");
        }
        if c == '\\' {
            url.append("/");
        } else {
            url.append(path.substring_char(i, i + 1));
        }
        assert(url@ =~= "sqlite:"@ + with_slashes(path@).take(i + 1));
        i = i + 1;
    }
    assert(with_slashes(path@).take(count as int) =~= with_slashes(path@));
    url
}

fn directory_error(what: &str, message: &String, directory: &String) -> (e: AppError)
    ensures
        e@ == directory_failure(what@, message@, directory@),
{
    let text: String = String::from_str(what).concat(": ").concat(message.as_str()).concat(
        " (path: ",
    ).concat(directory.as_str()).concat(")");
    assert(text@ =~= what@ + ": "@ + message@ + " (path: "@ + directory@ + ")"@);
    AppError::Io(text)
}

fn io_error(what: &str, detail: &str) -> (e: AppError)
    ensures
        e@ == ErrorView::Io(what@ + detail@),
{
    AppError::Io(String::from_str(what).concat(detail))
}

fn database_error(what: &str, detail: &str) -> (e: AppError)
    ensures
        e@ == ErrorView::Database(what@ + detail@),
{
    AppError::Database(String::from_str(what).concat(detail))
}

impl Bootstrap {
    /// The startup before anything has been done, and its first action:
    /// no path is known yet, and the data directory is to be found.
    pub fn begin() -> (r: (Bootstrap, BootAction))
        ensures
            r.0@ == initial(),
            r.1@ == ActionView::LocateDataDirectory,
    {
        (
            Bootstrap { state: BootState::Locating, directory: String::new(), database: None },
            BootAction::LocateDataDirectory,
        )
    }

    /// Whether the startup has ended, in success or in failure.
    pub fn is_over(&self) -> (b: bool)
        ensures
            b == (self.state == BootState::Ready || self.state == BootState::Failed),
    {
        self.state == BootState::Ready || self.state == BootState::Failed
    }

    fn fail(&mut self, e: AppError) -> (action: BootAction)
        ensures
            (final(self)@, action@) == fails(old(self)@, e@),
    {
        self.state = BootState::Failed;
        BootAction::Fail(e)
    }

    fn go_on(&mut self, state: BootState, action: BootAction) -> (handed: BootAction)
        ensures
            (final(self)@, handed@) == goes_on(old(self)@, state, action@),
    {
        self.state = state;
        action
    }

    fn connect(&mut self, state: BootState) -> (action: BootAction)
        ensures
            (final(self)@, action@) == (match old(self)@.database {
                Some(path) => goes_on(old(self)@, state, ActionView::Connect(database_url(path))),
                None => fails(old(self)@, ErrorView::Io("Invalid database path"@)),
            }),
    {
        let url: Option<String> = match &self.database {
            Some(path) => Some(make_database_url(path.as_str())),
            None => None,
        };
        match url {
            Some(url) => self.go_on(state, BootAction::Connect(url)),
            None => {
                proof {
                    reveal_strlit("");
                    assert("Invalid database path"@ + ""@ =~= "Invalid database path"@);
                }
                self.fail(io_error("Invalid database path", ""))
            },
        }
    }

    /// Takes the result of the last action and hands out the next one.
    pub fn step(&mut self, event: BootEvent) -> (action: BootAction)
        ensures
            (final(self)@, action@) == next(old(self)@, event@),
    {
        proof {
            reveal_strlit("");
        }
        match self.state {
            BootState::Locating => match event {
                BootEvent::Located { directory: Some(directory), database } => {
                    self.directory = directory;
                    self.database = database;
                    self.state = BootState::CreatingDirectory;
                    BootAction::CreateDirectory
                },
                BootEvent::Located { directory: None, database } => {
                    assert("Failed to get app data directory"@ + ""@
                        =~= "Failed to get app data directory"@);
                    self.fail(io_error("Failed to get app data directory", ""))
                },
                _ => self.unexpected(),
            },
            BootState::CreatingDirectory => match event {
                BootEvent::Succeeded => self.go_on(
                    BootState::CheckingDirectory,
                    BootAction::CheckDirectory,
                ),
                BootEvent::Failed(m) => {
                    let e = directory_error(
                        "Failed to create app data directory",
                        &m,
                        &self.directory,
                    );
                    self.fail(e)
                },
                _ => self.unexpected(),
            },
            BootState::CheckingDirectory => match event {
                BootEvent::Checked { is_directory: true } => self.connect(BootState::Connecting),
                BootEvent::Checked { is_directory: false } => {
                    let e = io_error(
                        "App data path exists but is not a directory: ",
                        self.directory.as_str(),
                    );
                    self.fail(e)
                },
                BootEvent::Failed(m) => {
                    let e = directory_error(
                        "Failed to check app data directory permissions",
                        &m,
                        &self.directory,
                    );
                    self.fail(e)
                },
                _ => self.unexpected(),
            },
            BootState::Connecting => match event {
                BootEvent::Succeeded => self.go_on(
                    BootState::Migrating,
                    BootAction::RunMigrations,
                ),
                BootEvent::Failed(m) => self.fail(
                    database_error("Failed to connect to database: ", m.as_str()),
                ),
                _ => self.unexpected(),
            },
            BootState::Migrating => match event {
                BootEvent::Succeeded => self.go_on(BootState::Ready, BootAction::Finish),
                BootEvent::VersionMismatch => self.go_on(
                    BootState::RemovingDatabase,
                    BootAction::RemoveDatabaseFile,
                ),
                BootEvent::Failed(m) => self.fail(AppError::Database(m)),
                _ => self.unexpected(),
            },
            BootState::RemovingDatabase => match event {
                BootEvent::Succeeded => self.go_on(
                    BootState::RecreatingDirectory,
                    BootAction::CreateDirectory,
                ),
                BootEvent::Failed(m) => self.fail(
                    io_error("Failed to remove old database: ", m.as_str()),
                ),
                _ => self.unexpected(),
            },
            BootState::RecreatingDirectory => match event {
                BootEvent::Succeeded => self.connect(BootState::Reconnecting),
                BootEvent::Failed(m) => {
                    let e = directory_error(
                        "Failed to recreate app data directory",
                        &m,
                        &self.directory,
                    );
                    self.fail(e)
                },
                _ => self.unexpected(),
            },
            BootState::Reconnecting => match event {
                BootEvent::Succeeded => self.go_on(
                    BootState::MigratingAgain,
                    BootAction::RunMigrations,
                ),
                BootEvent::Failed(m) => self.fail(
                    database_error("Failed to reconnect to database: ", m.as_str()),
                ),
                _ => self.unexpected(),
            },
            BootState::MigratingAgain => match event {
                BootEvent::Succeeded => self.go_on(BootState::Ready, BootAction::Finish),
                BootEvent::VersionMismatch => {
                    assert("Migration history does not fit a new database"@ + ""@
                        =~= "Migration history does not fit a new database"@);
                    self.fail(
                        database_error("Migration history does not fit a new database", ""),
                    )
                },
                BootEvent::Failed(m) => self.fail(AppError::Database(m)),
                _ => self.unexpected(),
            },
            BootState::Ready => BootAction::Finish,
            BootState::Failed => self.unexpected(),
        }
    }

    fn unexpected(&mut self) -> (action: BootAction)
        ensures
            (final(self)@, action@) == fails(old(self)@, unexpected_event()),
    {
        proof {
            reveal_strlit("");
            assert("Unexpected event during startup"@ + ""@ =~= "Unexpected event during startup"@);
        }
        self.fail(io_error("Unexpected event during startup", ""))
    }
}

} // verus!
