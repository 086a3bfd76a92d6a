use distribbuidora_pdv::bootstrap::{
    make_database_url, BootAction, BootEvent, BootState, Bootstrap, APP_DIRECTORY, DATABASE_FILE,
};
use distribbuidora_pdv::errors::AppError;

fn located() -> BootEvent {
    BootEvent::Located {
        directory: Some("/home/ana/.local/share/distribbuidora-pdv".to_string()),
        database: Some("/home/ana/.local/share/distribbuidora-pdv/distribbuidora.db".to_string()),
    }
}

fn url() -> String {
    "sqlite:/home/ana/.local/share/distribbuidora-pdv/distribbuidora.db".to_string()
}

fn up_to_first_migration() -> Bootstrap {
    let (mut boot, first) = Bootstrap::begin();
    assert_eq!(first, BootAction::LocateDataDirectory);
    assert_eq!(boot.state, BootState::Locating);
    assert_eq!(boot.step(located()), BootAction::CreateDirectory);
    assert_eq!(boot.step(BootEvent::Succeeded), BootAction::CheckDirectory);
    assert_eq!(boot.step(BootEvent::Checked { is_directory: true }), BootAction::Connect(url()));
    assert_eq!(boot.step(BootEvent::Succeeded), BootAction::RunMigrations);
    assert_eq!(boot.state, BootState::Migrating);
    assert!(!boot.is_over());
    boot
}

#[test]
fn startup_begins_without_paths() {
    let (boot, first) = Bootstrap::begin();
    assert_eq!(first, BootAction::LocateDataDirectory);
    assert_eq!(boot.state, BootState::Locating);
    assert_eq!(boot.directory, "");
    assert_eq!(boot.database, None);
    assert!(!boot.is_over());
}

#[test]
fn names_of_directory_and_file_are_fixed() {
    assert_eq!(APP_DIRECTORY, "distribbuidora-pdv");
    assert_eq!(DATABASE_FILE, "distribbuidora.db");
}

#[test]
fn database_address_writes_backslashes_as_slashes() {
    assert_eq!(make_database_url("/tmp/x.db"), "sqlite:/tmp/x.db");
    assert_eq!(
        make_database_url("C:\\Users\\Ana\\AppData\\Roaming\\distribbuidora-pdv\\distribbuidora.db"),
        "sqlite:C:/Users/Ana/AppData/Roaming/distribbuidora-pdv/distribbuidora.db"
    );
    assert_eq!(make_database_url(""), "sqlite:");
    assert_eq!(make_database_url("á\\é"), "sqlite:á/é");
}

#[test]
fn startup_runs_straight_through() {
    let mut boot = up_to_first_migration();
    assert_eq!(boot.step(BootEvent::Succeeded), BootAction::Finish);
    assert_eq!(boot.state, BootState::Ready);
    assert!(boot.is_over());
    assert_eq!(boot.step(BootEvent::Succeeded), BootAction::Finish);
    assert_eq!(boot.step(BootEvent::VersionMismatch), BootAction::Finish);
    assert_eq!(boot.state, BootState::Ready);
}

#[test]
fn incompatible_history_resets_the_database() {
    let mut boot = up_to_first_migration();
    assert_eq!(boot.step(BootEvent::VersionMismatch), BootAction::RemoveDatabaseFile);
    assert_eq!(boot.step(BootEvent::Succeeded), BootAction::CreateDirectory);
    assert_eq!(boot.step(BootEvent::Succeeded), BootAction::Connect(url()));
    assert_eq!(boot.step(BootEvent::Succeeded), BootAction::RunMigrations);
    assert_eq!(boot.state, BootState::MigratingAgain);
    assert_eq!(boot.step(BootEvent::Succeeded), BootAction::Finish);
    assert_eq!(boot.state, BootState::Ready);
}

#[test]
fn a_second_mismatch_is_fatal() {
    let mut boot = up_to_first_migration();
    boot.step(BootEvent::VersionMismatch);
    boot.step(BootEvent::Succeeded);
    boot.step(BootEvent::Succeeded);
    boot.step(BootEvent::Succeeded);
    assert_eq!(
        boot.step(BootEvent::VersionMismatch),
        BootAction::Fail(AppError::Database(
            "Migration history does not fit a new database".to_string()
        ))
    );
    assert_eq!(boot.state, BootState::Failed);
    assert!(boot.is_over());
}

#[test]
fn every_other_failure_ends_the_startup() {
    let fail = |events: Vec<BootEvent>, expected: AppError| {
        let (mut boot, _) = Bootstrap::begin();
        let mut last = BootAction::LocateDataDirectory;
        for event in events {
            last = boot.step(event);
        }
        assert_eq!(last, BootAction::Fail(expected));
        assert_eq!(boot.state, BootState::Failed);
    };
    let failed = |m: &str| BootEvent::Failed(m.to_string());
    let dir = "/home/ana/.local/share/distribbuidora-pdv";
    fail(
        vec![BootEvent::Located { directory: None, database: None }],
        AppError::Io("Failed to get app data directory".to_string()),
    );
    fail(
        vec![located(), failed("denied")],
        AppError::Io(format!("Failed to create app data directory: denied (path: {})", dir)),
    );
    fail(
        vec![located(), BootEvent::Succeeded, failed("gone")],
        AppError::Io(format!(
            "Failed to check app data directory permissions: gone (path: {})",
            dir
        )),
    );
    fail(
        vec![located(), BootEvent::Succeeded, BootEvent::Checked { is_directory: false }],
        AppError::Io(format!("App data path exists but is not a directory: {}", dir)),
    );
    fail(
        vec![
            BootEvent::Located { directory: Some(dir.to_string()), database: None },
            BootEvent::Succeeded,
            BootEvent::Checked { is_directory: true },
        ],
        AppError::Io("Invalid database path".to_string()),
    );
    fail(
        vec![located(), BootEvent::Succeeded, BootEvent::Checked { is_directory: true }, failed("locked")],
        AppError::Database("Failed to connect to database: locked".to_string()),
    );
    fail(
        vec![
            located(),
            BootEvent::Succeeded,
            BootEvent::Checked { is_directory: true },
            BootEvent::Succeeded,
            failed("syntax error"),
        ],
        AppError::Database("syntax error".to_string()),
    );
    let reset = || {
        vec![
            located(),
            BootEvent::Succeeded,
            BootEvent::Checked { is_directory: true },
            BootEvent::Succeeded,
            BootEvent::VersionMismatch,
        ]
    };
    let mut events = reset();
    events.push(failed("busy"));
    fail(events, AppError::Io("Failed to remove old database: busy".to_string()));
    let mut events = reset();
    events.extend([BootEvent::Succeeded, failed("denied")]);
    fail(
        events,
        AppError::Io(format!("Failed to recreate app data directory: denied (path: {})", dir)),
    );
    let mut events = reset();
    events.extend([BootEvent::Succeeded, BootEvent::Succeeded, failed("locked")]);
    fail(events, AppError::Database("Failed to reconnect to database: locked".to_string()));
    let mut events = reset();
    events.extend([BootEvent::Succeeded, BootEvent::Succeeded, BootEvent::Succeeded, failed("x")]);
    fail(events, AppError::Database("x".to_string()));
}

#[test]
fn an_event_that_answers_nothing_ends_the_startup() {
    let unexpected = BootAction::Fail(AppError::Io("Unexpected event during startup".to_string()));
    let (mut boot, _) = Bootstrap::begin();
    assert_eq!(boot.step(BootEvent::Succeeded), unexpected);
    assert_eq!(boot.state, BootState::Failed);
    assert_eq!(boot.step(located()), unexpected);

    let (mut boot, _) = Bootstrap::begin();
    boot.step(located());
    assert_eq!(boot.step(BootEvent::VersionMismatch), unexpected);

    let mut boot = up_to_first_migration();
    assert_eq!(boot.step(BootEvent::Checked { is_directory: true }), unexpected);
}
