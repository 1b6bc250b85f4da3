//! Properties that relate the store and the commands, proved over their models.
use vstd::prelude::*;
use crate::command::{
    MAX_DESCRIPTION_LEN, add_accepts, add_error_fits, added, description_ok, is_blank, status_named,
};
use crate::store::{Error, TaskModel, removed};

verus! {

/// An accepted `add` puts the new task at the next index, with the given
/// description and the named status, and keeps every earlier task in place.
/// A description of one to `MAX_DESCRIPTION_LEN` characters whose trimmed
/// form is neither empty nor a pair of quotes, with a status token naming a
/// status, is accepted.
pub proof fn lemma_add_then_list(
    before: Seq<TaskModel>,
    description: Seq<char>,
    trimmed: Seq<char>,
    lowered: Seq<char>,
)
    requires
        1 <= description.len() <= MAX_DESCRIPTION_LEN,
        trimmed.len() > 0,
        trimmed != seq!['"', '"'],
        trimmed != seq!['\'', '\''],
        status_named(lowered) is Some,
    ensures
        add_accepts(description, trimmed, lowered),
        ({
            let after = added(before, description, trimmed, lowered);
            &&& after.len() == before.len() + 1
            &&& after[before.len() as int] == (description, status_named(lowered)->0)
            &&& forall|j: int| 0 <= j < before.len() ==> after[j] == before[j]
        }),
{
}

/// Removing a task at a valid position shortens the list by one, keeps the
/// tasks before it, and moves every later task down by one position.
pub proof fn lemma_remove_shifts_later_tasks(before: Seq<TaskModel>, index: int)
    requires
        0 <= index < before.len(),
    ensures
        removed(before, index).len() == before.len() - 1,
        forall|j: int| 0 <= j < index ==> removed(before, index)[j] == before[j],
        forall|j: int| index <= j < before.len() - 1 ==> removed(before, index)[j] == before[j + 1],
{
}

/// Removing at a position past the end leaves the list as it was.
pub proof fn lemma_remove_past_end_keeps_list(before: Seq<TaskModel>, index: int)
    requires
        index >= before.len(),
    ensures
        removed(before, index) == before,
{
}

/// An `add` whose trimmed description is empty or a pair of quotes is
/// refused as an invalid description and leaves the list as it was.
pub proof fn lemma_blank_description_rejected(
    before: Seq<TaskModel>,
    description: Seq<char>,
    trimmed: Seq<char>,
    lowered: Seq<char>,
    e: Error,
)
    requires
        is_blank(trimmed),
    ensures
        !add_accepts(description, trimmed, lowered),
        added(before, description, trimmed, lowered) == before,
        add_error_fits(description, trimmed, lowered, e) <==> e is InvalidDescription,
{
}

/// An `add` whose description is longer than `MAX_DESCRIPTION_LEN`
/// characters is refused as an invalid description and leaves the list as
/// it was.
pub proof fn lemma_overlong_description_rejected(
    before: Seq<TaskModel>,
    description: Seq<char>,
    trimmed: Seq<char>,
    lowered: Seq<char>,
    e: Error,
)
    requires
        description.len() > MAX_DESCRIPTION_LEN,
    ensures
        !add_accepts(description, trimmed, lowered),
        added(before, description, trimmed, lowered) == before,
        add_error_fits(description, trimmed, lowered, e) <==> e is InvalidDescription,
{
}

/// A description of exactly `MAX_DESCRIPTION_LEN` characters is not too
/// long: with a non-blank trimmed form and a valid status it is accepted.
pub proof fn lemma_description_at_limit_accepted(
    description: Seq<char>,
    trimmed: Seq<char>,
    lowered: Seq<char>,
)
    requires
        description.len() == MAX_DESCRIPTION_LEN,
        !is_blank(trimmed),
        status_named(lowered) is Some,
    ensures
        add_accepts(description, trimmed, lowered),
{
}

/// An `add` with a valid description and a status token that names no
/// status is refused as an invalid status and leaves the list as it was.
pub proof fn lemma_unknown_status_rejected(
    before: Seq<TaskModel>,
    description: Seq<char>,
    trimmed: Seq<char>,
    lowered: Seq<char>,
    e: Error,
)
    requires
        description_ok(description, trimmed),
        status_named(lowered) is None,
    ensures
        !add_accepts(description, trimmed, lowered),
        added(before, description, trimmed, lowered) == before,
        add_error_fits(description, trimmed, lowered, e) <==> e is InvalidStatus,
{
}

} // verus!
