//! Runs of the engine against a ledger kept in memory.

use migrant_lib::migration::Migratable;
use migrant_lib::{
    discover, list, Action, Config, DbKind, Direction, EmbeddedMigration, Error, ErrorKind, Event,
    FileMigration, Migrator, Note, Script, ScriptFile, Settings,
};

/// A database and a disk, kept in memory.
struct World {
    ledger: Vec<String>,
    table: bool,
    files: Vec<ScriptFile>,
    contents: Vec<(String, String)>,
    failing: Vec<String>,
    executed: Vec<String>,
    notes: Vec<String>,
    discoveries: usize,
    reloads: usize,
    records: usize,
}

fn world() -> World {
    World {
        ledger: vec![],
        table: true,
        files: vec![],
        contents: vec![],
        failing: vec![],
        executed: vec![],
        notes: vec![],
        discoveries: 0,
        reloads: 0,
        records: 0,
    }
}

fn script_file(folder: &str, stem: &str, content: &str, world: &mut World) {
    let path = format!("/migrations/{}/{}.sql", folder, stem);
    world.files.push(ScriptFile {
        path: path.clone(),
        folder: format!("/migrations/{}", folder),
        folder_name: Some(folder.to_string()),
        stem: Some(stem.to_string()),
    });
    world.contents.push((path, content.to_string()));
}

fn text_of(script: &Script, world: &World) -> String {
    match script {
        Script::Empty => String::new(),
        Script::Statement(text) => text.clone(),
        Script::Callback => String::from("<callback>"),
        Script::File(path) => {
            for (name, content) in &world.contents {
                if name == path {
                    return content.clone();
                }
            }
            panic!("no such script: {}", path)
        }
    }
}

/// Does what the engine asks until the run is over.
fn drive(world: &mut World, migrator: Migrator) -> (Migrator, Result<(), Error>) {
    let (mut migrator, mut action) = migrator.apply();
    loop {
        let event = match action {
            Action::Finish(outcome) => return (migrator, outcome),
            Action::Discover(root) => {
                assert_eq!(root, "/migrations");
                world.discoveries += 1;
                Event::Discovered(discover(&world.files))
            }
            Action::Execute(step) => {
                let text = text_of(&step.script, world);
                world.executed.push(text);
                if world.failing.contains(&step.tag) {
                    Event::Executed(Err(String::from("boom")))
                } else {
                    Event::Executed(Ok(()))
                }
            }
            Action::Record(step, note) => {
                world.records += 1;
                world.notes.push(match note {
                    Note::Ran => String::from("ran"),
                    Note::Faked => String::from("faked"),
                    Note::Empty => String::from("empty"),
                    Note::Forced(message) => format!("forced: {}", message),
                });
                match step.direction {
                    Direction::Up => world.ledger.push(step.tag.clone()),
                    Direction::Down => world.ledger.retain(|tag| *tag != step.tag),
                }
                Event::Recorded(Ok(()))
            }
            Action::Reload => {
                world.reloads += 1;
                Event::Reloaded(migrator.config().reload(None, world.table, &world.ledger))
            }
        };
        let next = migrator.resume(event);
        migrator = next.0;
        action = next.1;
    }
}

fn settings() -> Settings {
    let mut settings = Settings::with_db_type(DbKind::Sqlite);
    settings.migration_location("/migrations").expect("a location is always taken");
    settings
}

fn discovered_config(world: &World) -> Config {
    Config::with_settings(&settings())
        .reload(None, world.table, &world.ledger)
        .expect("the ledger loads")
}

fn two_on_disk() -> World {
    let mut world = world();
    // The later one is found first: discovery has to bring them into order.
    script_file("20230102000000_second", "up", "alter table t", &mut world);
    script_file("20230102000000_second", "down", "alter table t back", &mut world);
    script_file("20230101000000_init", "up", "create table t", &mut world);
    script_file("20230101000000_init", "down", "drop table t", &mut world);
    world
}

fn embedded(tag: &str, up: &'static str, down: &'static str) -> Box<migrant_lib::Migration> {
    let mut unit = EmbeddedMigration::with_tag(tag).expect("the tag is a name");
    unit.up(up).down(down);
    unit.boxed()
}

fn registered(tags: &[&str]) -> Config {
    let mut config = Config::with_settings(&settings());
    let mut units = vec![];
    for tag in tags {
        units.push(embedded(tag, "up", "down"));
    }
    config.use_migrations(units).expect("the tags differ");
    config
}

fn kind_of(outcome: &Result<(), Error>) -> Option<ErrorKind> {
    match outcome {
        Ok(()) => None,
        Err(e) => Some(e.kind()),
    }
}

#[test]
fn all_up_applies_both_in_stamp_order_then_is_complete() {
    let mut world = two_on_disk();
    let config = discovered_config(&world);
    let (migrator, outcome) = drive(&mut world, Migrator::with_config(&config).all(true));
    assert!(outcome.is_ok());
    assert_eq!(world.ledger, vec!["20230101000000_init", "20230102000000_second"]);
    assert_eq!(world.executed, vec!["create table t", "alter table t"]);
    assert_eq!(
        migrator.config().applied(),
        &vec![String::from("20230101000000_init"), String::from("20230102000000_second")]
    );

    // A second run finds nothing to do, and changes nothing.
    let before = world.records;
    let config = migrator.config().clone();
    let (_, outcome) = drive(&mut world, Migrator::with_config(&config).all(true));
    assert_eq!(kind_of(&outcome), Some(ErrorKind::MigrationComplete));
    assert_eq!(world.records, before);
    assert_eq!(world.ledger, vec!["20230101000000_init", "20230102000000_second"]);
    assert_eq!(world.executed.len(), 2);
}

#[test]
fn complete_message_names_the_direction() {
    let mut world = two_on_disk();
    let config = discovered_config(&world);
    let run = Migrator::with_config(&config).direction(Direction::Down).all(true);
    let (_, outcome) = drive(&mut world, run);
    let error = outcome.expect_err("nothing is applied");
    assert!(error.is_migration_complete());
    assert_eq!(
        error.to_string(),
        "MigrationComplete: No un-applied `Down` migrations found"
    );
}

#[test]
fn one_step_up_applies_the_earliest_only() {
    let mut world = two_on_disk();
    let config = discovered_config(&world);
    let (migrator, outcome) = drive(&mut world, Migrator::with_config(&config));
    assert!(outcome.is_ok());
    assert_eq!(world.ledger, vec!["20230101000000_init"]);
    assert_eq!(world.reloads, 1);

    let config = migrator.config().clone();
    let (_, outcome) = drive(&mut world, Migrator::with_config(&config));
    assert!(outcome.is_ok());
    assert_eq!(world.ledger, vec!["20230101000000_init", "20230102000000_second"]);
}

#[test]
fn units_are_visited_in_increasing_stamp_order() {
    let mut world = world();
    let stamps = ["20240301120000", "20230101000000", "20231231235959", "20230101000001"];
    for (i, stamp) in stamps.iter().enumerate() {
        let folder = format!("{}_m{}", stamp, i);
        script_file(&folder, "up", &folder, &mut world);
        script_file(&folder, "down", "", &mut world);
    }
    let mut config = discovered_config(&world);
    let mut visited = vec![];
    for _ in 0..stamps.len() {
        let (migrator, outcome) = drive(&mut world, Migrator::with_config(&config));
        assert!(outcome.is_ok());
        visited.push(world.ledger.last().expect("a tag was recorded").clone());
        config = migrator.config().clone();
    }
    assert_eq!(
        visited,
        vec![
            "20230101000000_m1",
            "20230101000001_m3",
            "20231231235959_m2",
            "20240301120000_m0"
        ]
    );
    let (_, outcome) = drive(&mut world, Migrator::with_config(&config));
    assert_eq!(kind_of(&outcome), Some(ErrorKind::MigrationComplete));
}

#[test]
fn completion_is_idempotent() {
    let mut world = world();
    world.ledger = vec![String::from("a"), String::from("b")];
    let config = registered(&["a", "b"])
        .reload(None, true, &world.ledger)
        .expect("the ledger loads");
    for _ in 0..3 {
        let (migrator, outcome) = drive(&mut world, Migrator::with_config(&config));
        assert_eq!(kind_of(&outcome), Some(ErrorKind::MigrationComplete));
        assert_eq!(migrator.config().applied(), &vec![String::from("a"), String::from("b")]);
    }
    assert_eq!(world.records, 0);
    assert_eq!(world.reloads, 0);
    assert!(world.executed.is_empty());
    assert_eq!(world.ledger, vec!["a", "b"]);
}

#[test]
fn up_then_down_leaves_the_ledger_empty() {
    let mut world = world();
    let config = registered(&["a", "b"]);
    let (migrator, outcome) = drive(&mut world, Migrator::with_config(&config).all(true));
    assert!(outcome.is_ok());
    assert_eq!(world.ledger, vec!["a", "b"]);

    let config = migrator.config().clone();
    let down = Migrator::with_config(&config).direction(Direction::Down).all(true);
    let (migrator, outcome) = drive(&mut world, down);
    assert!(outcome.is_ok());
    assert!(world.ledger.is_empty());
    assert!(migrator.config().applied().is_empty());
    assert_eq!(world.executed, vec!["up", "up", "down", "down"]);
}

#[test]
fn down_reverts_the_last_applied_first() {
    let mut world = world();
    world.ledger = vec![String::from("a"), String::from("b"), String::from("c")];
    let config = registered(&["a", "b", "c"])
        .reload(None, true, &world.ledger)
        .expect("the ledger loads");
    let (_, outcome) = drive(&mut world, Migrator::with_config(&config).direction(Direction::Down));
    assert!(outcome.is_ok());
    assert_eq!(world.ledger, vec!["a", "b"]);
}

#[test]
fn without_force_a_failure_leaves_the_ledger_untouched() {
    let mut world = world();
    world.failing = vec![String::from("a")];
    let config = registered(&["a", "b"]);
    let (_, outcome) = drive(&mut world, Migrator::with_config(&config));
    let error = outcome.expect_err("the script fails");
    assert_eq!(error.kind(), ErrorKind::Migration);
    assert_eq!(error.to_string(), "MigrationError: Migration was unsucessful...\nboom");
    assert!(world.ledger.is_empty());
    assert_eq!(world.records, 0);
    assert_eq!(world.executed.len(), 1);
}

#[test]
fn with_force_a_failure_is_recorded_all_the_same() {
    let mut world = world();
    world.failing = vec![String::from("a")];
    let config = registered(&["a", "b"]);
    let (_, outcome) = drive(&mut world, Migrator::with_config(&config).force(true));
    assert!(outcome.is_ok());
    assert_eq!(world.ledger, vec!["a"]);
    assert_eq!(world.notes, vec!["forced: boom"]);
}

#[test]
fn a_forced_run_of_all_goes_on_past_the_failure() {
    let mut world = world();
    world.failing = vec![String::from("a")];
    let config = registered(&["a", "b"]);
    let (_, outcome) = drive(&mut world, Migrator::with_config(&config).force(true).all(true));
    assert!(outcome.is_ok());
    assert_eq!(world.ledger, vec!["a", "b"]);
    assert_eq!(world.notes, vec!["forced: boom", "ran"]);
}

#[test]
fn an_unforced_run_of_all_stops_at_the_failure() {
    let mut world = world();
    world.failing = vec![String::from("b")];
    let config = registered(&["a", "b", "c"]);
    let (_, outcome) = drive(&mut world, Migrator::with_config(&config).all(true));
    assert_eq!(kind_of(&outcome), Some(ErrorKind::Migration));
    assert_eq!(world.ledger, vec!["a"]);
}

#[test]
fn a_faked_run_records_without_executing() {
    let mut world = world();
    world.failing = vec![String::from("a")];
    let config = registered(&["a", "b"]);
    let (_, outcome) = drive(&mut world, Migrator::with_config(&config).fake(true).all(true));
    assert!(outcome.is_ok());
    assert!(world.executed.is_empty());
    assert_eq!(world.ledger, vec!["a", "b"]);
    assert_eq!(world.notes, vec!["faked", "faked"]);
}

#[test]
fn a_unit_with_nothing_to_run_counts_as_success() {
    let mut world = world();
    let mut config = Config::with_settings(&settings());
    let unit = EmbeddedMigration::with_tag("bare").expect("the tag is a name");
    config.use_migrations(vec![unit.boxed()]).expect("one tag");
    let (_, outcome) = drive(&mut world, Migrator::with_config(&config));
    assert!(outcome.is_ok());
    assert!(world.executed.is_empty());
    assert_eq!(world.ledger, vec!["bare"]);
    assert_eq!(world.notes, vec!["empty"]);
}

#[test]
fn down_fails_where_the_ledger_names_no_unit() {
    let mut world = world();
    world.ledger = vec![String::from("gone")];
    let config = registered(&["a"])
        .reload(None, true, &world.ledger)
        .expect("the ledger loads");
    let (_, outcome) = drive(&mut world, Migrator::with_config(&config).direction(Direction::Down));
    let error = outcome.expect_err("the unit is missing");
    assert_eq!(error.kind(), ErrorKind::MigrationNotFound);
    assert_eq!(error.to_string(), "MigrationNotFound: Tag not found: gone");
    assert_eq!(world.ledger, vec!["gone"]);
}

#[test]
fn an_empty_source_is_complete_going_up_and_missing_going_down() {
    let mut world = world();
    let config = registered(&[]);
    let (_, outcome) = drive(&mut world, Migrator::with_config(&config));
    assert_eq!(kind_of(&outcome), Some(ErrorKind::MigrationComplete));

    world.ledger = vec![String::from("a")];
    let config = config.reload(None, true, &world.ledger).expect("the ledger loads");
    let (_, outcome) = drive(&mut world, Migrator::with_config(&config).direction(Direction::Down));
    assert_eq!(kind_of(&outcome), Some(ErrorKind::MigrationNotFound));
}

#[test]
fn a_run_needs_the_migration_directory() {
    let mut world = world();
    let mut config = Config::with_settings(&Settings::with_db_type(DbKind::Sqlite));
    config.use_migrations(vec![embedded("a", "up", "down")]).expect("one tag");
    let (_, outcome) = drive(&mut world, Migrator::with_config(&config));
    assert_eq!(kind_of(&outcome), Some(ErrorKind::Config));
    assert!(world.ledger.is_empty());
}

#[test]
fn a_failed_reload_ends_the_run() {
    let mut world = world();
    let config = registered(&["a", "b"]);
    world.table = false;
    let (_, outcome) = drive(&mut world, Migrator::with_config(&config).all(true));
    assert_eq!(kind_of(&outcome), Some(ErrorKind::Migration));
    assert_eq!(world.ledger, vec!["a"]);
}

#[test]
fn a_failed_record_ends_the_run() {
    let config = registered(&["a"]);
    let (migrator, action) = Migrator::with_config(&config).apply();
    assert!(matches!(action, Action::Execute(_)));
    let (migrator, action) = migrator.resume(Event::Executed(Ok(())));
    assert!(matches!(action, Action::Record(_, Note::Ran)));
    let failure = Error::Sqlite(String::from("disk full"));
    let (_, action) = migrator.resume(Event::Recorded(Err(failure)));
    match action {
        Action::Finish(Err(e)) => {
            assert_eq!(e.kind(), ErrorKind::Migration);
            assert_eq!(
                e.to_string(),
                "MigrationError: The ledger could not be changed: disk full"
            );
        }
        _ => panic!("the run should be over"),
    }
}

#[test]
fn an_event_out_of_turn_ends_the_run() {
    let config = registered(&["a"]);
    let (migrator, _) = Migrator::with_config(&config).apply();
    let (migrator, action) = migrator.resume(Event::Recorded(Ok(())));
    match action {
        Action::Finish(Err(e)) => assert_eq!(e.kind(), ErrorKind::Migration),
        _ => panic!("the run should be over"),
    }
    let (_, action) = migrator.resume(Event::Executed(Ok(())));
    assert!(matches!(action, Action::Finish(Err(_))));
}

#[test]
fn a_failed_discovery_ends_the_run() {
    let mut world = world();
    script_file("20230101000000_init", "up", "create table t", &mut world);
    let config = discovered_config(&world);
    let (_, outcome) = drive(&mut world, Migrator::with_config(&config));
    assert_eq!(kind_of(&outcome), Some(ErrorKind::MigrationNotFound));
    assert_eq!(world.discoveries, 1);
}

#[test]
fn the_step_describes_the_unit() {
    let mut world = two_on_disk();
    let config = discovered_config(&world);
    let (migrator, action) = Migrator::with_config(&config).apply();
    assert!(matches!(action, Action::Discover(_)));
    let (_, action) = migrator.resume(Event::Discovered(discover(&world.files)));
    match action {
        Action::Execute(step) => {
            assert_eq!(step.tag, "20230101000000_init");
            assert_eq!(step.description, "\"/migrations/20230101000000_init/up.sql\"");
            assert_eq!(step.direction, Direction::Up);
            assert!(matches!(step.script, Script::File(_)));
            assert_eq!(text_of(&step.script, &world), "create table t");
        }
        _ => panic!("a script should be executed"),
    }
    world.executed.clear();
}

#[test]
fn kitchen_sink() {
    let mut world = world();
    script_file("20170812145327_initial", "up", "create table t", &mut world);
    script_file("20170812145327_initial", "down", "drop table t", &mut world);
    script_file("20171126194042_second", "up", "alter table t", &mut world);
    script_file("20171126194042_second", "down", "alter table t back", &mut world);
    let found: Vec<FileMigration> = discover(&world.files).expect("the folders are sound");
    let config = discovered_config(&world);

    // apply -ad on a fresh ledger finds nothing to revert
    let down_all = Migrator::with_config(&config).direction(Direction::Down).all(true);
    let (migrator, outcome) = drive(&mut world, down_all);
    assert_eq!(
        outcome.expect_err("nothing is applied").to_string(),
        "MigrationComplete: No un-applied `Down` migrations found"
    );
    assert_eq!(
        list(migrator.config(), &found),
        vec![
            (String::from("20170812145327_initial"), false),
            (String::from("20171126194042_second"), false)
        ]
    );

    // apply -a
    let config = migrator.config().clone();
    let (migrator, outcome) = drive(&mut world, Migrator::with_config(&config).all(true));
    assert!(outcome.is_ok());
    assert_eq!(
        list(migrator.config(), &found),
        vec![
            (String::from("20170812145327_initial"), true),
            (String::from("20171126194042_second"), true)
        ]
    );

    // redo: one down, one up
    let config = migrator.config().clone();
    let (migrator, outcome) =
        drive(&mut world, Migrator::with_config(&config).direction(Direction::Down));
    assert!(outcome.is_ok());
    assert_eq!(
        list(migrator.config(), &found),
        vec![
            (String::from("20170812145327_initial"), true),
            (String::from("20171126194042_second"), false)
        ]
    );
    let config = migrator.config().clone();
    let (migrator, outcome) = drive(&mut world, Migrator::with_config(&config));
    assert!(outcome.is_ok());
    assert_eq!(world.ledger, vec!["20170812145327_initial", "20171126194042_second"]);

    // redo --all
    let config = migrator.config().clone();
    let down_all = Migrator::with_config(&config).direction(Direction::Down).all(true);
    let (migrator, outcome) = drive(&mut world, down_all);
    assert!(outcome.is_ok());
    assert!(world.ledger.is_empty());
    let config = migrator.config().clone();
    let (migrator, outcome) = drive(&mut world, Migrator::with_config(&config).all(true));
    assert!(outcome.is_ok());
    assert_eq!(
        list(migrator.config(), &found),
        vec![
            (String::from("20170812145327_initial"), true),
            (String::from("20171126194042_second"), true)
        ]
    );
    assert_eq!(
        world.executed,
        vec![
            "create table t",
            "alter table t",
            "alter table t back",
            "alter table t",
            "alter table t back",
            "drop table t",
            "create table t",
            "alter table t"
        ]
    );
}

#[test]
fn tags_of_units_are_their_own() {
    let unit = EmbeddedMigration::with_tag("initial").expect("the tag is a name");
    assert_eq!(unit.tag(), "initial");
    assert_eq!(unit.description(&Direction::Up), "initial");
}
