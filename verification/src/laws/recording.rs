//! What the records say of the stored rows.

pub mod approvals;
pub mod checkpoints;
pub mod evals;
pub mod knowledge;
pub mod messages;
pub mod policies;
pub mod providers;
pub mod runs;
pub mod sessions;
pub mod tasks;
pub mod tenants;
pub mod tools;
pub mod triggers;

use crate::error::ErrorView;
use crate::model::{Datum, Row};
use crate::read::evals::{
    EntryView, EvalDataset, EvalDatasetEntryRow, EvalDatasetRow, EvalSubjectKind,
};
use crate::read::sessions::SessionRow;
use crate::schema::Column;
use vstd::prelude::*;

verus! {

/// Whether a number is what a column holds, or zero in place of a negative one.
pub open spec fn is_at_least_zero(value: Datum, number: int) -> bool {
    match value {
        Datum::Int(n) => number == if n < 0 {
            0
        } else {
            n
        },
        _ => false,
    }
}

/// Whether a number is what a column holds, or the nearest one from zero to a
/// bound.
pub open spec fn is_between(value: Datum, number: int, bound: int) -> bool {
    match value {
        Datum::Int(n) => number == if n < 0 {
            0
        } else if n > bound {
            bound
        } else {
            n
        },
        _ => false,
    }
}

/// How a name that is not known is refused: with the name and those that are
/// known, each in backquotes.
pub proof fn how_an_unknown_name_is_refused(
    raw: Seq<char>,
    a: Seq<char>,
    b: Seq<char>,
    names: Seq<Seq<char>>,
)
    ensures
        ErrorView::unknown_name(raw, Seq::empty()) == ErrorView::Serialization(
            "unknown variant `"@ + raw + "`, there are no variants"@,
        ),
        ErrorView::unknown_name(raw, seq![a]) == ErrorView::Serialization(
            "unknown variant `"@ + raw + "`, expected "@ + ("`"@ + a + "`"@),
        ),
        ErrorView::unknown_name(raw, seq![a, b]) == ErrorView::Serialization(
            "unknown variant `"@ + raw + "`, expected "@ + ("`"@ + a + "` or `"@ + b + "`"@),
        ),
        names.len() > 2 ==> ErrorView::unknown_name(raw, names) == ErrorView::Serialization(
            "unknown variant `"@ + raw + "`, expected "@ + (ErrorView::ticked(
                "one of "@,
                names,
                (names.len() - 1) as nat,
            ) + ", `"@ + names.last() + "`"@),
        ),
        names.len() > 0 ==> ErrorView::ticked("one of "@, names, 1) == "one of "@ + "`"@ + names[0]
            + "`"@,
{
}

/// How far the numbers of a row are changed when it is read.
pub proof fn how_numbers_are_read(n: i64, small: i32)
    ensures
        crate::read::floor8(n) == if n < 0 {
            0
        } else {
            n as int
        },
        crate::read::floor4(small) == if small < 0 {
            0
        } else {
            small as int
        },
        0 <= n <= u32::MAX ==> crate::read::low4(n) == n,
        crate::read::clamp4(n) == if n < 0 {
            0
        } else if n > u32::MAX {
            u32::MAX as int
        } else {
            n as int
        },
        crate::read::clamp1(small) == if small < 0 {
            0
        } else if small > 255 {
            255
        } else {
            small as int
        },
{
}

/// The strategy of a run belongs to no project, which is said by a name of its own
/// for each part of the project.
pub proof fn the_project_of_a_strategy()
    ensures
        crate::read::checkpoints::sentinel_project().tenant_id == "_strategy"@,
        crate::read::checkpoints::sentinel_project().workspace_id == "_strategy"@,
        crate::read::checkpoints::sentinel_project().project_id == "_strategy"@,
{
}

/// A stored role is the one that it names, if that is known, and else the role with
/// the fewest rights.
pub proof fn a_role_that_is_not_known_has_the_fewest_rights(
    raw: Seq<char>,
    roles: Seq<Seq<char>>,
)
    ensures
        ({
            let name = crate::json::json_as_text("\""@ + raw + "\""@);
            let role = crate::read::tenants::role_of(raw, roles);
            &&& name is Some && roles.contains(name->Some_0) ==> role == name->Some_0
            &&& !(name is Some && roles.contains(name->Some_0)) ==> role == "read_only"@
        }),
{
}

/// A session has a budget where it has a cap on its time, its tokens or its cost,
/// and the budget holds each cap that is set: the time in whole seconds.
pub proof fn the_budget_of_a_session(row: SessionRow, stored: Row)
    requires
        row.is_of(stored),
    ensures
        ({
            let time = crate::model::value(stored, Column::WallClockMsCap);
            let tokens = crate::model::value(stored, Column::TokenCap);
            let cost = crate::model::value(stored, Column::CostUsdCap);
            let budget = row.budget()->Some_0;
            &&& row.budget() is None <==> time == Datum::Null && tokens == Datum::Null && cost
                == Datum::Null
            &&& row.budget() is Some ==> {
                &&& budget.max_wall_seconds is None <==> time == Datum::Null
                &&& budget.max_tokens is None <==> tokens == Datum::Null
                &&& budget.max_cost_micros is None <==> cost == Datum::Null
                &&& time is Int && time->Int_0 >= 0 ==> budget.max_wall_seconds->Some_0
                    == time->Int_0 / 1000
                &&& tokens is Int ==> is_at_least_zero(tokens, budget.max_tokens->Some_0 as int)
                &&& budget.max_cost_micros == row.cost_cap_micros
            }
        }),
{
}

/// The entries of a dataset are those that were read for it, in order: each is its
/// id, as the input and as the tag.
pub proof fn the_entries_of_a_dataset(
    rows: Seq<EvalDatasetEntryRow>,
    row: EvalDatasetEntryRow,
    dataset_id: Seq<char>,
)
    ensures
        crate::read::evals::entries_of(Seq::empty(), dataset_id).len() == 0,
        row.dataset_id@ != dataset_id ==> crate::read::evals::entries_of(rows.push(row), dataset_id)
            == crate::read::evals::entries_of(rows, dataset_id),
        row.dataset_id@ == dataset_id ==> {
            let before = crate::read::evals::entries_of(rows, dataset_id);
            let after = crate::read::evals::entries_of(rows.push(row), dataset_id);
            &&& after.len() == before.len() + 1
            &&& after.drop_last() =~= before
            &&& after.last().tags.len() == 1
            &&& after.last().tags[0] == row.entry_id@
            &&& after.last().expected_output is None
            &&& after.last().input == crate::json::object_as_json(
                seq![("entry_id"@, Some(row.entry_id@))],
                Seq::<(Seq<char>, u64)>::empty(),
            )
        },
{
    assert(rows.push(row).drop_last() =~= rows);
}

/// What a dataset says of the stored row and of its entries.
pub proof fn the_dataset_of_a_row(
    row: EvalDatasetRow,
    stored: Row,
    entries: Seq<EntryView>,
    dataset: EvalDataset,
)
    requires
        row.is_of(stored),
        row.makes(entries, dataset),
    ensures
        crate::model::value(stored, Column::DatasetId) == Datum::Text(dataset.dataset_id@),
        crate::model::value(stored, Column::TenantId) == Datum::Text(dataset.tenant_id@),
        crate::model::value(stored, Column::Name) == Datum::Text(dataset.name@),
        dataset.subject_kind == EvalSubjectKind::PromptRelease,
        dataset.entries@.len() == entries.len(),
        forall|i: int| 0 <= i < entries.len() ==> (#[trigger] dataset.entries@[i])@ == entries[i],
        is_at_least_zero(
            crate::model::value(stored, Column::CreatedAtMs),
            dataset.created_at_ms as int,
        ),
{
    let views = crate::read::evals::entry_views(dataset.entries@);
    assert(views.len() == dataset.entries@.len());
    assert forall|i: int| 0 <= i < entries.len() implies (#[trigger] dataset.entries@[i])@
        == entries[i] by {
        assert(views[i] == dataset.entries@[i]@);
    }
}

} // verus!
