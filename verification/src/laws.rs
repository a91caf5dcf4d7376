//! What holds of the engine, proved once and for all.
//!
//! The laws speak of the transitions of a [`Migrator`](crate::migrator::Migrator)
//! as [`started`] and [`resumed`] define them, which is what the executable
//! functions are proved to follow. Where a law speaks of a whole run, the run is
//! taken against a database that does as it is told: a tag that is added goes
//! behind the others, a tag that is removed leaves, and a load returns what is
//! there.

use vstd::prelude::*;
use crate::config::{located, ConfigView};
use crate::direction::Direction;
use crate::errors::ErrorKind;
use crate::migration::{FileMigration, Migratable, Migration};
use crate::migrator::{
    entered, file_units, finished, resolution, resolved, resumed, started, step_of, ActionView,
    EventView, Model, NoteView, PhaseView, Resolution, StepView,
};
use crate::resolve::{
    all_applied, is_next, lemma_next_unique, lemma_outcomes_exclusive, tags_of,
};
use crate::ledger::{distinct_stamps, is_ledger_of, lemma_ledger_determined, sorted_tags, tag_number};
use crate::source::{lemma_numbers_tell_tags_apart, number_of, sorted_by_stamp};
use crate::tag::STAMP_LEN;

verus! {

/// The tags without every occurrence of one of them.
pub open spec fn without(tags: Seq<Seq<char>>, tag: Seq<char>) -> Seq<Seq<char>>
    decreases tags.len(),
{
    if tags.len() == 0 {
        tags
    } else if tags.last() == tag {
        without(tags.drop_last(), tag)
    } else {
        without(tags.drop_last(), tag).push(tags.last())
    }
}

/// What a database that does as it is told holds after a step was recorded:
/// going up, the tag is added behind the others; going down, it is removed.
pub open spec fn recorded(held: Seq<Seq<char>>, step: StepView) -> Seq<Seq<char>> {
    match step.direction {
        Direction::Up => held.push(step.tag),
        Direction::Down => without(held, step.tag),
    }
}

/// How the caller answers an action, where every script succeeds, the database
/// does as it is told, and `found` are the units on disk: the event that it
/// hands in, and what the database holds then.
pub open spec fn answered(
    m: Model,
    action: ActionView,
    held: Seq<Seq<char>>,
    found: Seq<Migration>,
) -> (EventView, Seq<Seq<char>>) {
    match action {
        ActionView::Discover(_) => (EventView::Discovered(Ok(found)), held),
        ActionView::Execute(_) => (EventView::Executed(Ok(())), held),
        ActionView::Record(step, _) => (EventView::Recorded(Ok(())), recorded(held, step)),
        ActionView::Reload => (
            EventView::Reloaded(Ok(ConfigView { applied: held, ..m.config })),
            held,
        ),
        ActionView::Finish(_) => (EventView::Executed(Ok(())), held),
    }
}

/// The outcome of a run that goes on from an action, and what the database
/// holds when it ends. A run that is not over after `fuel` answers has no
/// outcome.
pub open spec fn run(
    m: Model,
    action: ActionView,
    held: Seq<Seq<char>>,
    found: Seq<Migration>,
    fuel: nat,
) -> Option<(Result<(), ErrorKind>, Seq<Seq<char>>)>
    decreases fuel,
{
    match action {
        ActionView::Finish(outcome) => Some((outcome, held)),
        _ => if fuel == 0 {
            None
        } else {
            let (event, kept) = answered(m, action, held, found);
            let (next, then) = resumed(m, event);
            run(next, then, kept, found, (fuel - 1) as nat)
        },
    }
}

/// The outcome of a run from its beginning, and what the database holds when
/// it ends.
pub open spec fn whole_run(m: Model, held: Seq<Seq<char>>, found: Seq<Migration>, fuel: nat) -> Option<
    (Result<(), ErrorKind>, Seq<Seq<char>>),
> {
    run(started(m).0, started(m).1, held, found, fuel)
}

/// The units that a run resolves among: those that the program registered, or
/// else those on disk.
pub open spec fn source_of(m: Model, found: Seq<Migration>) -> Seq<Migration> {
    match m.config.migrations {
        Some(units) => units,
        None => found,
    }
}

/// Tags that do not hold a tag stay as they are when it is removed.
pub proof fn lemma_without_absent(tags: Seq<Seq<char>>, tag: Seq<char>)
    requires
        !tags.contains(tag),
    ensures
        without(tags, tag) == tags,
    decreases tags.len(),
{
    if tags.len() > 0 {
        let front = tags.drop_last();
        assert(tags[tags.len() - 1] != tag);
        assert forall|i: int| 0 <= i < front.len() implies front[i] != tag by {
            assert(front[i] == tags[i]);
        }
        lemma_without_absent(front, tag);
        assert(front.push(tags.last()) =~= tags);
    }
}

/// Among distinct tags, with the first `k` in the ledger, the unit at `k` is
/// the next to apply, and where `k` is the number of units nothing is left.
pub proof fn lemma_up_resolution(tags: Seq<Seq<char>>, k: int)
    requires
        tags.no_duplicates(),
        0 <= k <= tags.len(),
    ensures
        k < tags.len() ==> resolution(Direction::Up, tags, tags.subrange(0, k))
            == Resolution::Next(k),
        k == tags.len() ==> resolution(Direction::Up, tags, tags.subrange(0, k))
            == Resolution::Complete,
{
    let applied = tags.subrange(0, k);
    if k < tags.len() {
        assert forall|j: int| 0 <= j < applied.len() implies applied[j] != tags[k] by {
            assert(applied[j] == tags[j]);
        }
        assert forall|j: int| 0 <= j < k implies applied.contains(#[trigger] tags.subrange(0, k)[j]) by {
            assert(applied[j] == tags.subrange(0, k)[j]);
        }
        assert(is_next(Direction::Up, tags, applied, k));
        let chosen = choose|i: int| is_next(Direction::Up, tags, applied, i);
        lemma_next_unique(Direction::Up, tags, applied, k, chosen);
    } else {
        assert(applied =~= tags);
        assert forall|j: int| 0 <= j < tags.len() implies applied.contains(#[trigger] tags[j]) by {
            assert(applied[j] == tags[j]);
        }
        assert forall|i: int| !is_next(Direction::Up, tags, applied, i) by {
            if is_next(Direction::Up, tags, applied, i) {
                lemma_outcomes_exclusive(Direction::Up, tags, applied, i);
            }
        }
    }
}

/// Among distinct tags, with the first `k` in the ledger, the unit at `k - 1`
/// is the next to revert, and where `k` is zero nothing is left.
pub proof fn lemma_down_resolution(tags: Seq<Seq<char>>, k: int)
    requires
        tags.no_duplicates(),
        0 <= k <= tags.len(),
    ensures
        k > 0 ==> resolution(Direction::Down, tags, tags.subrange(0, k)) == Resolution::Next(
            k - 1,
        ),
        k == 0 ==> resolution(Direction::Down, tags, tags.subrange(0, k))
            == Resolution::Complete,
{
    let applied = tags.subrange(0, k);
    if k > 0 {
        assert(applied.last() == tags[k - 1]);
        let after = tags.subrange(k, tags.len() as int);
        assert forall|j: int| 0 <= j < after.len() implies #[trigger] after[j]
            != applied.last() by {
            assert(after[j] == tags[k + j]);
        }
        assert(is_next(Direction::Down, tags, applied, k - 1));
        let chosen = choose|i: int| is_next(Direction::Down, tags, applied, i);
        lemma_next_unique(Direction::Down, tags, applied, k - 1, chosen);
    } else {
        assert forall|i: int| !is_next(Direction::Down, tags, applied, i) by {}
    }
}

/// Whether a run can go on among the units of its source: the migration
/// directory is known, and no two units share a tag.
pub open spec fn can_run(m: Model, found: Seq<Migration>) -> bool {
    &&& located(m.config.settings.migration_location, m.config.settings_path) is Ok
    &&& tags_of(source_of(m, found)).no_duplicates()
}

/// The run from the step that the model enters.
pub open spec fn run_on(m: Model, held: Seq<Seq<char>>, found: Seq<Migration>, fuel: nat) -> Option<
    (Result<(), ErrorKind>, Seq<Seq<char>>),
> {
    run(entered(m).0, entered(m).1, held, found, fuel)
}

/// The model as it resolves: as it is with registered migrations, and waiting
/// for the units on disk otherwise.
pub open spec fn resolving(m: Model) -> Model {
    if m.config.migrations is Some {
        m
    } else {
        Model { phase: PhaseView::Discovering, ..m }
    }
}

/// The model after the ledger was loaded anew and holds `kept`.
pub open spec fn reloaded(m: Model, kept: Seq<Seq<char>>) -> Model {
    Model {
        config: ConfigView { applied: kept, ..m.config },
        stepped: true,
        phase: PhaseView::Reloading,
        ..m
    }
}

/// The outcome of a run of all units: well where a tag was recorded, and
/// `MigrationComplete` where none was.
pub open spec fn outcome_of(recorded_any: bool) -> Result<(), ErrorKind> {
    if recorded_any {
        Ok(())
    } else {
        Err(ErrorKind::MigrationComplete)
    }
}

/// A run that is not over goes on with the answer to its action.
pub proof fn lemma_one_answer(
    m: Model,
    action: ActionView,
    held: Seq<Seq<char>>,
    found: Seq<Migration>,
    fuel: nat,
)
    requires
        !(action is Finish),
        fuel > 0,
    ensures
        run(m, action, held, found, fuel) == run(
            resumed(m, answered(m, action, held, found).0).0,
            resumed(m, answered(m, action, held, found).0).1,
            answered(m, action, held, found).1,
            found,
            (fuel - 1) as nat,
        ),
{
}

/// A run that enters a step goes on with the resolution among the units of
/// its source, after one answer where the units are on disk.
pub proof fn lemma_enter(m: Model, held: Seq<Seq<char>>, found: Seq<Migration>, fuel: nat) -> (spent:
    nat)
    requires
        located(m.config.settings.migration_location, m.config.settings_path) is Ok,
        fuel >= 1,
    ensures
        spent <= 1,
        run_on(m, held, found, fuel) == run(
            resolved(resolving(m), source_of(m, found)).0,
            resolved(resolving(m), source_of(m, found)).1,
            held,
            found,
            (fuel - spent) as nat,
        ),
{
    if m.config.migrations is Some {
        0
    } else {
        lemma_one_answer(entered(m).0, entered(m).1, held, found, fuel);
        1
    }
}

/// A run that resolved a next unit goes on with the record of its tag, after
/// one answer where its script is executed.
pub proof fn lemma_resolve_to_record(
    m: Model,
    units: Seq<Migration>,
    i: int,
    held: Seq<Seq<char>>,
    found: Seq<Migration>,
    fuel: nat,
) -> (then: (NoteView, nat))
    requires
        resolution(m.direction, tags_of(units), m.config.applied) == Resolution::Next(i),
        fuel >= 1,
    ensures
        then.1 <= 1,
        run(resolved(m, units).0, resolved(m, units).1, held, found, fuel) == run(
            Model { phase: PhaseView::Recording, ..m },
            ActionView::Record(step_of(units[i], m.direction), then.0),
            held,
            found,
            (fuel - then.1) as nat,
        ),
{
    let step = step_of(units[i], m.direction);
    if m.fake {
        (NoteView::Faked, 0)
    } else if step.script is Empty {
        (NoteView::Empty, 0)
    } else {
        lemma_one_answer(resolved(m, units).0, resolved(m, units).1, held, found, fuel);
        (NoteView::Ran, 1)
    }
}

/// A run of all units that records a tag goes on, after two answers, with the
/// next step, entered with the ledger as the database holds it then.
pub proof fn lemma_record_and_reload(
    m: Model,
    step: StepView,
    note: NoteView,
    held: Seq<Seq<char>>,
    found: Seq<Migration>,
    fuel: nat,
)
    requires
        m.phase == PhaseView::Recording,
        m.all,
        fuel >= 2,
    ensures
        run(m, ActionView::Record(step, note), held, found, fuel) == run_on(
            reloaded(m, recorded(held, step)),
            recorded(held, step),
            found,
            (fuel - 2) as nat,
        ),
{
    let kept = recorded(held, step);
    lemma_one_answer(m, ActionView::Record(step, note), held, found, fuel);
    let waiting = Model { phase: PhaseView::Reloading, ..m };
    lemma_one_answer(waiting, ActionView::Reload, kept, found, (fuel - 1) as nat);
}

/// A run of all units upwards, entered with the first `k` tags in the ledger
/// and in the database, ends with every tag in the database, in the order of
/// the source. It ends well where it recorded a tag.
pub proof fn lemma_run_up(m: Model, found: Seq<Migration>, k: int, fuel: nat)
    requires
        can_run(m, found),
        m.direction == Direction::Up,
        m.all,
        0 <= k <= source_of(m, found).len(),
        m.config.applied == tags_of(source_of(m, found)).subrange(0, k),
        fuel >= 4 * (source_of(m, found).len() - k) + 1,
    ensures
        run_on(m, m.config.applied, found, fuel) == Some(
            (
                outcome_of(m.stepped || k < source_of(m, found).len()),
                tags_of(source_of(m, found)),
            ),
        ),
    decreases source_of(m, found).len() - k,
{
    let units = source_of(m, found);
    let tags = tags_of(units);
    let held = m.config.applied;
    lemma_up_resolution(tags, k);
    let spent = lemma_enter(m, held, found, fuel);
    let at = resolving(m);
    if k == units.len() {
        assert(tags.subrange(0, k) =~= tags);
        assert(resolved(at, units).1 == ActionView::Finish(outcome_of(m.stepped)));
    } else {
        let left = (fuel - spent) as nat;
        let then = lemma_resolve_to_record(at, units, k, held, found, left);
        let step = step_of(units[k], Direction::Up);
        assert(step.tag == tags[k]);
        let waiting = Model { phase: PhaseView::Recording, ..at };
        let rest = (left - then.1) as nat;
        lemma_record_and_reload(waiting, step, then.0, held, found, rest);
        let kept = recorded(held, step);
        assert(kept =~= tags.subrange(0, k + 1));
        let next = reloaded(waiting, kept);
        assert(source_of(next, found) == units);
        lemma_run_up(next, found, k + 1, (rest - 2) as nat);
    }
}

/// A run of all units downwards, entered with the first `k` tags in the ledger
/// and in the database, ends with nothing in the database. It ends well where
/// it recorded a tag.
pub proof fn lemma_run_down(m: Model, found: Seq<Migration>, k: int, fuel: nat)
    requires
        can_run(m, found),
        m.direction == Direction::Down,
        m.all,
        0 <= k <= source_of(m, found).len(),
        m.config.applied == tags_of(source_of(m, found)).subrange(0, k),
        fuel >= 4 * k + 1,
    ensures
        run_on(m, m.config.applied, found, fuel) == Some(
            (outcome_of(m.stepped || k > 0), Seq::<Seq<char>>::empty()),
        ),
    decreases k,
{
    let units = source_of(m, found);
    let tags = tags_of(units);
    let held = m.config.applied;
    lemma_down_resolution(tags, k);
    let spent = lemma_enter(m, held, found, fuel);
    let at = resolving(m);
    if k == 0 {
        assert(held =~= Seq::<Seq<char>>::empty());
        assert(resolved(at, units).1 == ActionView::Finish(outcome_of(m.stepped)));
    } else {
        let left = (fuel - spent) as nat;
        let then = lemma_resolve_to_record(at, units, k - 1, held, found, left);
        let step = step_of(units[k - 1], Direction::Down);
        assert(step.tag == tags[k - 1]);
        let waiting = Model { phase: PhaseView::Recording, ..at };
        let rest = (left - then.1) as nat;
        lemma_record_and_reload(waiting, step, then.0, held, found, rest);
        let kept = tags.subrange(0, k - 1);
        assert(held.drop_last() =~= kept);
        assert(held.last() == tags[k - 1]);
        assert forall|j: int| 0 <= j < kept.len() implies kept[j] != tags[k - 1] by {
            assert(kept[j] == tags[j]);
        }
        lemma_without_absent(kept, tags[k - 1]);
        assert(recorded(held, step) == kept);
        let next = reloaded(waiting, kept);
        assert(source_of(next, found) == units);
        lemma_run_down(next, found, k - 1, (rest - 2) as nat);
    }
}

/// Up and down are inverse.
///
/// Take a source of at least one unit in which no two units share a tag, and a
/// database that holds nothing. A run of all units upwards ends well, with the
/// tag of every unit in the database, in the order of the source. A run of all
/// units downwards from there ends well, with nothing in the database.
pub proof fn law_up_then_down_leaves_nothing(m: Model, found: Seq<Migration>, fuel: nat)
    requires
        can_run(m, found),
        m.all,
        source_of(m, found).len() > 0,
        fuel >= 4 * source_of(m, found).len() + 1,
    ensures
        whole_run(
            Model {
                direction: Direction::Up,
                config: ConfigView { applied: Seq::empty(), ..m.config },
                ..m
            },
            Seq::empty(),
            found,
            fuel,
        ) == Some((Ok::<(), ErrorKind>(()), tags_of(source_of(m, found)))),
        whole_run(
            Model {
                direction: Direction::Down,
                config: ConfigView { applied: tags_of(source_of(m, found)), ..m.config },
                ..m
            },
            tags_of(source_of(m, found)),
            found,
            fuel,
        ) == Some((Ok::<(), ErrorKind>(()), Seq::<Seq<char>>::empty())),
{
    let units = source_of(m, found);
    let tags = tags_of(units);
    let nothing = Seq::<Seq<char>>::empty();
    let up = Model {
        direction: Direction::Up,
        stepped: false,
        phase: PhaseView::Ready,
        config: ConfigView { applied: nothing, ..m.config },
        ..m
    };
    assert(tags.subrange(0, 0) =~= nothing);
    assert(source_of(up, found) == units);
    lemma_run_up(up, found, 0, fuel);
    let down = Model {
        direction: Direction::Down,
        stepped: false,
        phase: PhaseView::Ready,
        config: ConfigView { applied: tags, ..m.config },
        ..m
    };
    assert(tags.subrange(0, tags.len() as int) =~= tags);
    assert(source_of(down, found) == units);
    lemma_run_down(down, found, tags.len() as int, fuel);
}

/// Completion is idempotent.
///
/// Where the ledger holds the tag of every unit, resolving upwards ends a run
/// that has recorded nothing with `MigrationComplete`. Nothing is asked of the
/// database, and the configuration stays as it is, so that the same holds of
/// every further run.
pub proof fn law_complete_stays_complete(m: Model, units: Seq<Migration>)
    requires
        m.direction == Direction::Up,
        !m.stepped,
        all_applied(tags_of(units), m.config.applied),
    ensures
        resolved(m, units) == finished(m, Err(ErrorKind::MigrationComplete)),
        resolved(m, units).0.config == m.config,
        resolved(resolved(m, units).0, units) == resolved(m, units),
{
    let tags = tags_of(units);
    assert forall|i: int| !is_next(Direction::Up, tags, m.config.applied, i) by {
        if is_next(Direction::Up, tags, m.config.applied, i) {
            lemma_outcomes_exclusive(Direction::Up, tags, m.config.applied, i);
        }
    }
}

/// Completion is idempotent, for a run from its beginning among registered
/// migrations: it ends at once with `MigrationComplete`, and so does the next.
pub proof fn law_complete_run_is_repeatable(m: Model, units: Seq<Migration>)
    requires
        m.direction == Direction::Up,
        m.config.migrations == Some(units),
        located(m.config.settings.migration_location, m.config.settings_path) is Ok,
        all_applied(tags_of(units), m.config.applied),
    ensures
        started(m).1 == ActionView::Finish(Err(ErrorKind::MigrationComplete)),
        started(m).0.config == m.config,
        started(started(m).0) == started(m),
{
    let fresh = Model { stepped: false, phase: PhaseView::Ready, ..m };
    law_complete_stays_complete(fresh, units);
}

/// Without force a failed execution ends the run, and with force it does not.
///
/// Take a run that waits for the outcome of a script, and let the script fail.
/// Without force the run is over with a `Migration` error: no tag is to be
/// recorded. With force the tag of the step is to be recorded, with a note of
/// the failure.
pub proof fn law_force_records_despite_failure(m: Model, step: StepView, message: Seq<char>)
    requires
        m.phase == PhaseView::Executing(step),
    ensures
        !m.force ==> resumed(m, EventView::Executed(Err(message))) == finished(
            m,
            Err(ErrorKind::Migration),
        ),
        m.force ==> resumed(m, EventView::Executed(Err(message))).1 == ActionView::Record(
            step,
            NoteView::Forced(message),
        ),
{
}

/// Whether a faked run is where a faked run can be: it does not wait for the
/// outcome of a script.
pub open spec fn faking(m: Model) -> bool {
    m.fake && !(m.phase is Executing)
}

/// A faked run executes nothing and records all the same.
///
/// Where a faked run finds a next unit, the tag of that unit is to be recorded
/// at once.
pub proof fn law_fake_records_without_executing(m: Model, units: Seq<Migration>, i: int)
    requires
        m.fake,
        is_next(m.direction, tags_of(units), m.config.applied, i),
    ensures
        resolved(m, units).1 == ActionView::Record(
            step_of(units[i], m.direction),
            NoteView::Faked,
        ),
{
    let chosen = choose|j: int| is_next(m.direction, tags_of(units), m.config.applied, j);
    lemma_next_unique(m.direction, tags_of(units), m.config.applied, i, chosen);
}

/// A faked run never asks for a script to be executed: not when it begins, and
/// not after any event.
pub proof fn law_fake_never_executes(m: Model, event: EventView)
    requires
        m.fake,
    ensures
        !(started(m).1 is Execute),
        faking(started(m).0),
        faking(m) ==> !(resumed(m, event).1 is Execute) && faking(resumed(m, event).0),
{
}

/// A tag is recorded only after its script was dealt with.
///
/// A run that waits for the outcome of a script asks for the tag to be
/// recorded only where the script succeeded or the run is forced. A run that
/// does not wait for one asks for a tag to be recorded only where it is faked
/// or the unit has nothing to run, and says so in its note.
pub proof fn law_record_follows_execution(m: Model, units: Seq<Migration>, event: EventView)
    ensures
        resolved(m, units).1 matches ActionView::Record(step, note) ==> ((m.fake && note
            == NoteView::Faked) || (step.script is Empty && note == NoteView::Empty)),
        m.phase is Executing && resumed(m, event).1 is Record ==> (event is Executed && (
        event->Executed_0 is Ok || m.force)),
        !(m.phase is Executing) ==> (resumed(m, event).1 matches ActionView::Record(step, note)
            ==> ((m.fake && note == NoteView::Faked) || (step.script is Empty && note
            == NoteView::Empty))),
{
}

/// Discovered units are visited in the order of their stamps.
///
/// Take units in the order of their stamps, no two with the same stamp, and a
/// ledger that holds the tags of the first `k` of them and no others. Then the
/// next unit to apply is the one at `k`, its stamp is later than that of every
/// unit before it, and the stamp of the first unit is the earliest of all.
pub proof fn law_discovered_units_in_stamp_order(
    units: Seq<FileMigration>,
    applied: Seq<Seq<char>>,
    k: int,
)
    requires
        sorted_by_stamp(units),
        forall|i: int| 0 <= i < units.len() ==> (#[trigger] units[i]).wf(),
        forall|i: int, j: int|
            0 <= i < j < units.len() ==> number_of(#[trigger] units[i]) != number_of(
                #[trigger] units[j],
            ),
        0 <= k < units.len(),
        forall|tag: Seq<char>|
            applied.contains(tag) <==> tags_of(file_units(units)).subrange(0, k).contains(tag),
    ensures
        resolution(Direction::Up, tags_of(file_units(units)), applied) == Resolution::Next(k),
        forall|j: int| 0 <= j < k ==> number_of(#[trigger] units[j]) < number_of(units[k]),
        forall|j: int| 0 <= j < units.len() ==> number_of(units[0]) <= number_of(#[trigger] units[j]),
{
    let tags = tags_of(file_units(units));
    let first = tags.subrange(0, k);
    assert forall|j: int| 0 <= j < k implies #[trigger] tags[j] != tags[k] by {
        lemma_numbers_tell_tags_apart(units[j], units[k]);
    }
    assert(!first.contains(tags[k])) by {
        if first.contains(tags[k]) {
            let j = choose|j: int| 0 <= j < first.len() && first[j] == tags[k];
            assert(first[j] == tags[j]);
        }
    }
    assert forall|j: int| 0 <= j < k implies applied.contains(#[trigger] first[j]) by {
        assert(first.contains(first[j]));
    }
    assert(is_next(Direction::Up, tags, applied, k));
    let chosen = choose|i: int| is_next(Direction::Up, tags, applied, i);
    lemma_next_unique(Direction::Up, tags, applied, k, chosen);
}

/// The stamp of the tag of a unit found on disk is the stamp of the unit.
pub proof fn lemma_tag_number_of_unit(unit: FileMigration)
    requires
        unit.wf(),
        unit.stamp_of() is Some,
    ensures
        tag_number(unit.tag_text()) == number_of(unit),
{
    unit.lemma_wf();
    let stamp = unit.stamp_of().unwrap();
    stamp.lemma_wf();
    assert(unit.tag_text().subrange(0, STAMP_LEN as int) =~= stamp.text());
}

/// A load brings back what the database holds.
///
/// Take units found on disk in the order of their stamps, no two with the same
/// stamp, and a database that holds the tags of the first `k` of them, in
/// their order. Then the ledger that a load makes of it holds these tags in
/// the same order. So the whole runs of the other laws, in which a load
/// returns what is there, are runs of units found on disk too.
pub proof fn law_load_returns_what_is_there(
    units: Seq<FileMigration>,
    ledger: Seq<Seq<char>>,
    k: int,
)
    requires
        sorted_by_stamp(units),
        forall|i: int| 0 <= i < units.len() ==> (#[trigger] units[i]).wf(),
        forall|i: int, j: int|
            0 <= i < j < units.len() ==> number_of(#[trigger] units[i]) != number_of(
                #[trigger] units[j],
            ),
        0 <= k <= units.len(),
        is_ledger_of(ledger, tags_of(file_units(units)).subrange(0, k), false),
    ensures
        ledger == tags_of(file_units(units)).subrange(0, k),
{
    let tags = tags_of(file_units(units));
    let held = tags.subrange(0, k);
    assert forall|i: int| 0 <= i < k implies tag_number(#[trigger] held[i]) == number_of(
        units[i],
    ) by {
        lemma_tag_number_of_unit(units[i]);
    }
    assert(sorted_tags(held)) by {
        assert forall|i: int, j: int| 0 <= i < j < held.len() implies tag_number(
            #[trigger] held[i],
        ) <= tag_number(#[trigger] held[j]) by {
            assert(number_of(units[i]) <= number_of(units[j]));
        }
    }
    assert(distinct_stamps(held)) by {
        assert forall|i: int, j: int| 0 <= i < j < held.len() implies tag_number(
            #[trigger] held[i],
        ) != tag_number(#[trigger] held[j]) by {
            assert(number_of(units[i]) != number_of(units[j]));
        }
    }
    lemma_ledger_determined(ledger, held);
}

} // verus!
