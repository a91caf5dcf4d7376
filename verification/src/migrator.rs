//! The apply engine: resolve, execute, record, reload, and again.
//!
//! The engine decides and the caller acts. [`Migrator::apply`] begins a run and
//! says what is to be done first. The caller does it, by whatever means reach the
//! database, and hands the outcome to [`Migrator::resume`], which says what is to
//! be done next, until the action is [`Action::Finish`].
//!
//! One step of a run resolves the next unit, has its script executed unless the
//! run is faked or there is nothing to execute, has the tag recorded in the
//! ledger, and has the ledger loaded anew. A failed execution ends the run with
//! a `Migration` error and nothing recorded, unless the run is forced: then the
//! tag is recorded as if the script had succeeded. A ledger that cannot be
//! changed ends the run with a `Migration` error too, forced or not. A run of
//! all units repeats the step until nothing is left.

use vstd::prelude::*;
use crate::config::{located, Config, ConfigView};
use crate::direction::Direction;
use crate::errors::{Error, ErrorKind};
use crate::migration::{FileMigration, Migratable, Migration, Script, ScriptView};
use crate::resolve::{
    is_next, lemma_next_unique, lemma_outcomes_exclusive, next_position, nothing_left, tags_of,
};

verus! {

/// What there is to do for one unit in one direction.
#[derive(Clone, Debug)]
pub struct Step {
    /// The tag of the unit.
    pub tag: String,
    /// The description of the unit for the direction.
    pub description: String,
    /// What the unit has to run in the direction.
    pub script: Script,
    /// The direction.
    pub direction: Direction,
}

/// The mathematical value of a [`Step`].
pub struct StepView {
    pub tag: Seq<char>,
    pub description: Seq<char>,
    pub script: ScriptView,
    pub direction: Direction,
}

impl View for Step {
    type V = StepView;

    open spec fn view(&self) -> StepView {
        StepView {
            tag: self.tag@,
            description: self.description@,
            script: self.script@,
            direction: self.direction,
        }
    }
}

/// Why a tag is recorded.
#[derive(Clone, Debug)]
pub enum Note {
    /// The script ran and succeeded.
    Ran,
    /// The run is faked: the script was not run.
    Faked,
    /// The unit has nothing to run in the direction.
    Empty,
    /// The script failed with this message, and the run is forced.
    Forced(String),
}

/// The mathematical value of a [`Note`].
pub enum NoteView {
    Ran,
    Faked,
    Empty,
    Forced(Seq<char>),
}

impl View for Note {
    type V = NoteView;

    open spec fn view(&self) -> NoteView {
        match self {
            Note::Ran => NoteView::Ran,
            Note::Faked => NoteView::Faked,
            Note::Empty => NoteView::Empty,
            Note::Forced(message) => NoteView::Forced(message@),
        }
    }
}

/// What the caller is to do next.
#[derive(Debug)]
pub enum Action {
    /// Find the units under the directory at this path, and resume with
    /// [`Event::Discovered`].
    Discover(String),
    /// Run the script of the step, and resume with [`Event::Executed`].
    Execute(Step),
    /// Add the tag of the step to the ledger where the step goes up, remove it
    /// where the step goes down, and resume with [`Event::Recorded`].
    Record(Step, Note),
    /// Load the ledger anew, and resume with [`Event::Reloaded`].
    Reload,
    /// Nothing: the run is over, with this outcome.
    Finish(Result<(), Error>),
}

/// The mathematical value of an [`Action`].
pub enum ActionView {
    Discover(Seq<char>),
    Execute(StepView),
    Record(StepView, NoteView),
    Reload,
    Finish(Result<(), ErrorKind>),
}

impl View for Action {
    type V = ActionView;

    open spec fn view(&self) -> ActionView {
        match self {
            Action::Discover(root) => ActionView::Discover(root@),
            Action::Execute(step) => ActionView::Execute(step@),
            Action::Record(step, note) => ActionView::Record(step@, note@),
            Action::Reload => ActionView::Reload,
            Action::Finish(Ok(_)) => ActionView::Finish(Ok(())),
            Action::Finish(Err(e)) => ActionView::Finish(Err(e.kind_of())),
        }
    }
}

/// What the caller found when it did what it was asked.
#[derive(Debug)]
pub enum Event {
    /// The units found on disk, or why they could not be found.
    Discovered(Result<Vec<FileMigration>, Error>),
    /// The script ran, or failed with this message.
    Executed(Result<(), String>),
    /// The ledger was changed, or why it could not be.
    Recorded(Result<(), Error>),
    /// The configuration with the ledger loaded anew, or why it could not be loaded.
    Reloaded(Result<Config, Error>),
}

/// The mathematical value of an [`Event`].
pub enum EventView {
    Discovered(Result<Seq<Migration>, ErrorKind>),
    Executed(Result<(), Seq<char>>),
    Recorded(Result<(), ErrorKind>),
    Reloaded(Result<ConfigView, ErrorKind>),
}

/// File-backed units as units.
pub open spec fn file_units(files: Seq<FileMigration>) -> Seq<Migration> {
    Seq::new(files.len(), |i: int| Migration::File(files[i]))
}

impl View for Event {
    type V = EventView;

    open spec fn view(&self) -> EventView {
        match self {
            Event::Discovered(Ok(files)) => EventView::Discovered(Ok(file_units(files@))),
            Event::Discovered(Err(e)) => EventView::Discovered(Err(e.kind_of())),
            Event::Executed(Ok(_)) => EventView::Executed(Ok(())),
            Event::Executed(Err(message)) => EventView::Executed(Err(message@)),
            Event::Recorded(Ok(_)) => EventView::Recorded(Ok(())),
            Event::Recorded(Err(e)) => EventView::Recorded(Err(e.kind_of())),
            Event::Reloaded(Ok(config)) => EventView::Reloaded(Ok(config@)),
            Event::Reloaded(Err(e)) => EventView::Reloaded(Err(e.kind_of())),
        }
    }
}

/// Where a run stands: what it waits for.
pub enum PhaseView {
    /// Not begun.
    Ready,
    /// Waiting for the units found on disk.
    Discovering,
    /// Waiting for the outcome of the script of this step.
    Executing(StepView),
    /// Waiting for the ledger to be changed.
    Recording,
    /// Waiting for the ledger to be loaded anew.
    Reloading,
    /// Over.
    Finished,
}

#[derive(Debug)]
enum Phase {
    Ready,
    Discovering,
    Executing(Step),
    Recording,
    Reloading,
    Finished,
}

impl View for Phase {
    type V = PhaseView;

    closed spec fn view(&self) -> PhaseView {
        match self {
            Phase::Ready => PhaseView::Ready,
            Phase::Discovering => PhaseView::Discovering,
            Phase::Executing(step) => PhaseView::Executing(step@),
            Phase::Recording => PhaseView::Recording,
            Phase::Reloading => PhaseView::Reloading,
            Phase::Finished => PhaseView::Finished,
        }
    }
}

/// The mathematical value of a [`Migrator`].
pub struct Model {
    /// The configuration, with the ledger as it was last loaded.
    pub config: ConfigView,
    /// The direction of the run.
    pub direction: Direction,
    /// Whether a failed execution is passed over.
    pub force: bool,
    /// Whether tags are recorded without anything being executed.
    pub fake: bool,
    /// Whether the run goes on until nothing is left.
    pub all: bool,
    /// Whether the run has recorded a tag.
    pub stepped: bool,
    /// What the run waits for.
    pub phase: PhaseView,
}

/// What a resolution finds.
pub enum Resolution {
    /// The unit at this position is the next.
    Next(int),
    /// Nothing is left in the direction.
    Complete,
    /// The ledger refers to a unit that the source does not have.
    Unmatched,
}

/// What the resolution of a direction finds, given the tags of the units and the ledger.
pub open spec fn resolution(
    direction: Direction,
    tags: Seq<Seq<char>>,
    applied: Seq<Seq<char>>,
) -> Resolution {
    if exists|i: int| is_next(direction, tags, applied, i) {
        Resolution::Next(choose|i: int| is_next(direction, tags, applied, i))
    } else if nothing_left(direction, tags, applied) {
        Resolution::Complete
    } else {
        Resolution::Unmatched
    }
}

/// What there is to do for a unit in a direction.
pub open spec fn step_of(unit: Migration, direction: Direction) -> StepView {
    StepView {
        tag: unit.tag_text(),
        description: unit.description_text(direction),
        script: unit.script_view(direction),
        direction,
    }
}

/// The end of a run with the given outcome.
pub open spec fn finished(m: Model, outcome: Result<(), ErrorKind>) -> (Model, ActionView) {
    (Model { phase: PhaseView::Finished, ..m }, ActionView::Finish(outcome))
}

/// The run after the next unit was resolved among `units`.
///
/// Where there is a next unit, its tag is to be recorded at once if the run is
/// faked or the unit has nothing to run, and its script is to be executed
/// otherwise. Where nothing is left, the run is over: well if it has recorded a
/// tag, and with `MigrationComplete` if it has not. Where the ledger refers to
/// a unit that the source does not have, the run fails with `MigrationNotFound`.
pub open spec fn resolved(m: Model, units: Seq<Migration>) -> (Model, ActionView) {
    match resolution(m.direction, tags_of(units), m.config.applied) {
        Resolution::Next(i) => {
            let step = step_of(units[i], m.direction);
            if m.fake {
                (
                    Model { phase: PhaseView::Recording, ..m },
                    ActionView::Record(step, NoteView::Faked),
                )
            } else if step.script is Empty {
                (
                    Model { phase: PhaseView::Recording, ..m },
                    ActionView::Record(step, NoteView::Empty),
                )
            } else {
                (Model { phase: PhaseView::Executing(step), ..m }, ActionView::Execute(step))
            }
        },
        Resolution::Complete => finished(
            m,
            if m.stepped {
                Ok(())
            } else {
                Err(ErrorKind::MigrationComplete)
            },
        ),
        Resolution::Unmatched => finished(m, Err(ErrorKind::MigrationNotFound)),
    }
}

/// The run as it enters a step.
///
/// The migration directory must be known, whatever the source. With registered
/// migrations the next unit is resolved at once. Without, the units are to be
/// found on disk first.
pub open spec fn entered(m: Model) -> (Model, ActionView) {
    match located(m.config.settings.migration_location, m.config.settings_path) {
        Err(kind) => finished(m, Err(kind)),
        Ok(root) => match m.config.migrations {
            Some(units) => resolved(m, units),
            None => (Model { phase: PhaseView::Discovering, ..m }, ActionView::Discover(root)),
        },
    }
}

/// The run as it begins.
pub open spec fn started(m: Model) -> (Model, ActionView) {
    entered(Model { stepped: false, phase: PhaseView::Ready, ..m })
}

/// The run after the caller handed in what it found.
///
/// An event that the run does not wait for ends it with a `Migration` error.
pub open spec fn resumed(m: Model, event: EventView) -> (Model, ActionView) {
    match (m.phase, event) {
        (PhaseView::Discovering, EventView::Discovered(Ok(units))) => resolved(m, units),
        (PhaseView::Discovering, EventView::Discovered(Err(kind))) => finished(m, Err(kind)),
        (PhaseView::Executing(step), EventView::Executed(Ok(_))) => (
            Model { phase: PhaseView::Recording, ..m },
            ActionView::Record(step, NoteView::Ran),
        ),
        (PhaseView::Executing(step), EventView::Executed(Err(message))) => if m.force {
            (
                Model { phase: PhaseView::Recording, ..m },
                ActionView::Record(step, NoteView::Forced(message)),
            )
        } else {
            finished(m, Err(ErrorKind::Migration))
        },
        (PhaseView::Recording, EventView::Recorded(Ok(_))) => (
            Model { phase: PhaseView::Reloading, ..m },
            ActionView::Reload,
        ),
        (PhaseView::Recording, EventView::Recorded(Err(_))) => finished(
            m,
            Err(ErrorKind::Migration),
        ),
        (PhaseView::Reloading, EventView::Reloaded(Ok(config))) => {
            let loaded = Model { config, stepped: true, ..m };
            if m.all {
                entered(loaded)
            } else {
                finished(loaded, Ok(()))
            }
        },
        (PhaseView::Reloading, EventView::Reloaded(Err(kind))) => finished(m, Err(kind)),
        _ => finished(m, Err(ErrorKind::Migration)),
    }
}

/// The message of the error that says that nothing is left in a direction.
pub open spec fn complete_message(direction: Direction) -> Seq<char> {
    "No un-applied `"@ + direction.name() + "` migrations found"@
}

/// Whether an action that ends a run for want of anything left to do says so
/// in the words of [`complete_message`].
pub open spec fn says_complete(action: Action, direction: Direction) -> bool {
    action matches Action::Finish(Err(e)) ==> (e.kind_of() == ErrorKind::MigrationComplete
        ==> e.message_of() == complete_message(direction))
}

/// Applies migrations, one step at a time.
#[derive(Debug)]
pub struct Migrator {
    config: Config,
    direction: Direction,
    force: bool,
    fake: bool,
    all: bool,
    stepped: bool,
    phase: Phase,
}

fn boxed_files(files: Vec<FileMigration>) -> (units: Vec<Migration>)
    ensures
        units@ == file_units(files@),
{
    let ghost given = files@;
    let mut rest = files;
    let mut units: Vec<Migration> = Vec::new();
    let n = rest.len();
    let mut k: usize = 0;
    while k < n
        invariant
            k <= n,
            n == given.len(),
            rest@.len() == n - k,
            forall|i: int| 0 <= i < n - k ==> #[trigger] rest@[i] == given[k + i],
            units@ == file_units(given.subrange(0, k as int)),
        decreases n - k,
    {
        let file = rest.remove(0);
        assert(file == given[k as int]);
        units.push(Migration::File(file));
        assert(units@ =~= file_units(given.subrange(0, k + 1)));
        k += 1;
    }
    assert(given.subrange(0, k as int) =~= given);
    units
}

impl Migrator {
    /// The mathematical value of the migrator.
    pub closed spec fn model(&self) -> Model {
        Model {
            config: self.config@,
            direction: self.direction,
            force: self.force,
            fake: self.fake,
            all: self.all,
            stepped: self.stepped,
            phase: self.phase@,
        }
    }

    /// A migrator for the given configuration, set to apply one unit upwards,
    /// neither forced nor faked.
    pub fn with_config(config: &Config) -> (migrator: Migrator)
        ensures
            migrator.model() == (Model {
                config: config@,
                direction: Direction::Up,
                force: false,
                fake: false,
                all: false,
                stepped: false,
                phase: PhaseView::Ready,
            }),
    {
        Migrator {
            config: config.clone(),
            direction: Direction::Up,
            force: false,
            fake: false,
            all: false,
            stepped: false,
            phase: Phase::Ready,
        }
    }

    /// Sets the direction of the run.
    pub fn direction(self, dir: Direction) -> (migrator: Migrator)
        ensures
            migrator.model() == (Model { direction: dir, ..self.model() }),
    {
        let mut migrator = self;
        migrator.direction = dir;
        migrator
    }

    /// Sets whether a failed execution is passed over, and the tag recorded all the same.
    pub fn force(self, force: bool) -> (migrator: Migrator)
        ensures
            migrator.model() == (Model { force, ..self.model() }),
    {
        let mut migrator = self;
        migrator.force = force;
        migrator
    }

    /// Sets whether tags are recorded without anything being executed.
    pub fn fake(self, fake: bool) -> (migrator: Migrator)
        ensures
            migrator.model() == (Model { fake, ..self.model() }),
    {
        let mut migrator = self;
        migrator.fake = fake;
        migrator
    }

    /// Sets whether the run goes on until nothing is left in its direction.
    pub fn all(self, all: bool) -> (migrator: Migrator)
        ensures
            migrator.model() == (Model { all, ..self.model() }),
    {
        let mut migrator = self;
        migrator.all = all;
        migrator
    }

    /// The configuration, with the ledger as it was last loaded.
    pub fn config(&self) -> (config: &Config)
        ensures
            config@ == self.model().config,
    {
        &self.config
    }

    fn finish(self, outcome: Result<(), Error>) -> (next: (Migrator, Action))
        ensures
            (next.0.model(), next.1@) == finished(
                self.model(),
                match outcome {
                    Ok(_) => Ok(()),
                    Err(e) => Err(e.kind_of()),
                },
            ),
            next.1 == Action::Finish(outcome),
    {
        let mut migrator = self;
        migrator.phase = Phase::Finished;
        (migrator, Action::Finish(outcome))
    }

    fn resolve(self, units: &[Migration]) -> (next: (Migrator, Action))
        ensures
            (next.0.model(), next.1@) == resolved(self.model(), units@),
            says_complete(next.1, self.model().direction),
    {
        let ghost tags = tags_of(units@);
        let ghost applied = self.config@.applied;
        let found = next_position(&self.direction, units, self.config.applied().as_slice());
        match found {
            Ok(Some(i)) => {
                proof {
                    let chosen = choose|j: int| is_next(self.direction, tags, applied, j);
                    lemma_next_unique(self.direction, tags, applied, i as int, chosen);
                }
                let unit = &units[i];
                let step = Step {
                    tag: unit.tag(),
                    description: unit.description(&self.direction),
                    script: unit.script(&self.direction),
                    direction: self.direction,
                };
                let mut migrator = self;
                if migrator.fake {
                    migrator.phase = Phase::Recording;
                    (migrator, Action::Record(step, Note::Faked))
                } else if step.script.is_empty() {
                    migrator.phase = Phase::Recording;
                    (migrator, Action::Record(step, Note::Empty))
                } else {
                    migrator.phase = Phase::Executing(copy_step(&step));
                    (migrator, Action::Execute(step))
                }
            },
            Ok(None) => {
                proof {
                    assert forall|j: int| !is_next(self.direction, tags, applied, j) by {
                        if is_next(self.direction, tags, applied, j) {
                            lemma_outcomes_exclusive(self.direction, tags, applied, j);
                        }
                    }
                }
                let outcome = if self.stepped {
                    Ok(())
                } else {
                    Err(
                        Error::MigrationComplete(
                            String::from_str("No un-applied `").concat(
                                self.direction.to_string().as_str(),
                            ).concat("` migrations found"),
                        ),
                    )
                };
                self.finish(outcome)
            },
            Err(e) => {
                proof {
                    assert forall|j: int| !is_next(self.direction, tags, applied, j) by {
                        if is_next(self.direction, tags, applied, j) {
                            lemma_outcomes_exclusive(self.direction, tags, applied, j);
                        }
                    }
                }
                self.finish(Err(e))
            },
        }
    }

    fn enter(self) -> (next: (Migrator, Action))
        ensures
            (next.0.model(), next.1@) == entered(self.model()),
            says_complete(next.1, self.model().direction),
    {
        let root = match self.config.migration_dir() {
            Err(e) => {
                return self.finish(Err(e));
            },
            Ok(root) => root,
        };
        let explicit = self.config.is_explicit();
        if explicit {
            let units = match self.config.migrations() {
                Some(units) => crate::migrator::copies(units),
                None => Vec::new(),
            };
            self.resolve(units.as_slice())
        } else {
            let mut migrator = self;
            migrator.phase = Phase::Discovering;
            (migrator, Action::Discover(root))
        }
    }

    /// Begins a run, and says what is to be done first.
    ///
    /// A run that ends at once for want of anything left to do says in its
    /// error in which direction nothing is left.
    pub fn apply(self) -> (next: (Migrator, Action))
        ensures
            (next.0.model(), next.1@) == started(self.model()),
            says_complete(next.1, self.model().direction),
    {
        let mut migrator = self;
        migrator.stepped = false;
        migrator.phase = Phase::Ready;
        migrator.enter()
    }

    /// Takes what the caller found when it did what it was asked, and says what
    /// is to be done next.
    ///
    /// The error of a failed discovery or a failed load is handed on as it is.
    /// Every other error is made here, and says what went wrong.
    pub fn resume(self, event: Event) -> (next: (Migrator, Action))
        ensures
            (next.0.model(), next.1@) == resumed(self.model(), event@),
            !(event matches Event::Discovered(Err(_))) && !(event matches Event::Reloaded(Err(_)))
                ==> says_complete(next.1, self.model().direction),
    {
        let Migrator { config, direction, force, fake, all, stepped, phase } = self;
        match (phase, event) {
            (Phase::Discovering, Event::Discovered(Ok(files))) => {
                let units = boxed_files(files);
                let migrator = Migrator {
                    config,
                    direction,
                    force,
                    fake,
                    all,
                    stepped,
                    phase: Phase::Discovering,
                };
                migrator.resolve(units.as_slice())
            },
            (Phase::Discovering, Event::Discovered(Err(e))) => {
                let migrator = Migrator {
                    config,
                    direction,
                    force,
                    fake,
                    all,
                    stepped,
                    phase: Phase::Discovering,
                };
                migrator.finish(Err(e))
            },
            (Phase::Executing(step), Event::Executed(Ok(_))) => {
                let migrator = Migrator {
                    config,
                    direction,
                    force,
                    fake,
                    all,
                    stepped,
                    phase: Phase::Recording,
                };
                (migrator, Action::Record(step, Note::Ran))
            },
            (Phase::Executing(step), Event::Executed(Err(message))) => {
                if force {
                    let migrator = Migrator {
                        config,
                        direction,
                        force,
                        fake,
                        all,
                        stepped,
                        phase: Phase::Recording,
                    };
                    (migrator, Action::Record(step, Note::Forced(message)))
                } else {
                    let migrator = Migrator {
                        config,
                        direction,
                        force,
                        fake,
                        all,
                        stepped,
                        phase: Phase::Executing(step),
                    };
                    migrator.finish(
                        Err(
                            Error::Migration(
                                String::from_str("Migration was unsucessful...\n").concat(
                                    message.as_str(),
                                ),
                            ),
                        ),
                    )
                }
            },
            (Phase::Recording, Event::Recorded(Ok(_))) => {
                let migrator = Migrator {
                    config,
                    direction,
                    force,
                    fake,
                    all,
                    stepped,
                    phase: Phase::Reloading,
                };
                (migrator, Action::Reload)
            },
            (Phase::Recording, Event::Recorded(Err(e))) => {
                let migrator = Migrator {
                    config,
                    direction,
                    force,
                    fake,
                    all,
                    stepped,
                    phase: Phase::Recording,
                };
                migrator.finish(
                    Err(
                        Error::Migration(
                            String::from_str("The ledger could not be changed: ").concat(
                                e.to_string().as_str(),
                            ),
                        ),
                    ),
                )
            },
            (Phase::Reloading, Event::Reloaded(Ok(loaded))) => {
                let migrator = Migrator {
                    config: loaded,
                    direction,
                    force,
                    fake,
                    all,
                    stepped: true,
                    phase: Phase::Reloading,
                };
                if all {
                    migrator.enter()
                } else {
                    migrator.finish(Ok(()))
                }
            },
            (Phase::Reloading, Event::Reloaded(Err(e))) => {
                let migrator = Migrator {
                    config,
                    direction,
                    force,
                    fake,
                    all,
                    stepped,
                    phase: Phase::Reloading,
                };
                migrator.finish(Err(e))
            },
            (phase, _) => {
                let migrator = Migrator { config, direction, force, fake, all, stepped, phase };
                migrator.finish(
                    Err(Error::Migration(String::from_str("The run did not wait for this"))),
                )
            },
        }
    }
}

fn copy_step(step: &Step) -> (copy: Step)
    ensures
        copy@ == step@,
{
    let script = match &step.script {
        Script::Empty => Script::Empty,
        Script::File(path) => Script::File(path.clone()),
        Script::Statement(text) => Script::Statement(text.clone()),
        Script::Callback => Script::Callback,
    };
    Step {
        tag: step.tag.clone(),
        description: step.description.clone(),
        script,
        direction: step.direction,
    }
}

fn copies(units: &Vec<Migration>) -> (copy: Vec<Migration>)
    ensures
        copy@ == units@,
{
    let mut copy: Vec<Migration> = Vec::new();
    let mut k: usize = 0;
    while k < units.len()
        invariant
            k <= units@.len(),
            copy@ == units@.subrange(0, k as int),
        decreases units@.len() - k,
    {
        copy.push(units[k].clone());
        assert(copy@ =~= units@.subrange(0, k + 1));
        k += 1;
    }
    assert(units@.subrange(0, k as int) =~= units@);
    copy
}

} // verus!
