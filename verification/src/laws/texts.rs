//! What holds of numerals and messages.

use crate::error::ErrorView;
use crate::projection_registry::{Backend, RegistryError, StatusView};
use vstd::prelude::*;

verus! {

/// The number that decimal digits stand for.
pub open spec fn number_of(digits: Seq<char>) -> int
    decreases digits.len(),
{
    if digits.len() == 0 {
        0
    } else {
        10 * number_of(digits.drop_last()) + (digits.last() as int - '0' as int)
    }
}

/// A decimal numeral stands for its number, holds digits only, and starts with a
/// zero only where it is zero.
pub proof fn a_numeral_stands_for_its_number(n: nat)
    ensures
        number_of(crate::text::decimal(n)) == n,
        crate::text::decimal(n).len() > 0,
        forall|i: int|
            0 <= i < crate::text::decimal(n).len() ==> '0' <= #[trigger] crate::text::decimal(n)[i]
                <= '9',
        crate::text::decimal(n)[0] == '0' <==> n == 0,
    decreases n,
{
    let numeral = crate::text::decimal(n);
    if n < 10 {
        assert(numeral.drop_last() =~= Seq::empty());
        assert(number_of(numeral.drop_last()) == 0);
    } else {
        a_numeral_stands_for_its_number(n / 10);
        assert(numeral.drop_last() =~= crate::text::decimal(n / 10));
        assert(numeral[0] == crate::text::decimal(n / 10)[0]);
        assert forall|i: int| 0 <= i < numeral.len() implies '0' <= #[trigger] numeral[i]
            <= '9' by {
            if i < numeral.len() - 1 {
                assert(numeral[i] == crate::text::decimal(n / 10)[i]);
            }
        }
    }
}

/// A negative number is written as a hyphen and the numeral of its amount.
pub proof fn a_sign_stands_before_the_numeral(n: nat)
    ensures
        crate::text::signed_decimal(n as int) == crate::text::decimal(n),
        n > 0 ==> crate::text::signed_decimal(-n) == seq!['-'] + crate::text::decimal(n),
{
    reveal_strlit("-");
    assert("-"@ =~= seq!['-']);
}

/// How a number that does not fit its column is refused.
pub proof fn how_a_great_number_is_refused(label: Seq<char>, number: nat, bound: Seq<char>)
    ensures
        ErrorView::exceeds(label, number, bound) == ErrorView::Internal(
            label + " "@ + crate::text::decimal(number) + " exceeds "@ + bound,
        ),
        ErrorView::exceeds_integer_column(label, number) == ErrorView::Internal(
            label + " = "@ + crate::text::decimal(number)
                + " exceeds i32::MAX; projection column is INTEGER"@,
        ),
        crate::projections::costs::cost_exceeds(label, number) == ErrorView::Internal(
            "session cost "@ + label + " value "@ + crate::text::decimal(number)
                + " exceeds i64::MAX"@,
        ),
        crate::read::runs::exceeded(label, number) == ErrorView::Internal(
            "list_stalled: "@ + label + crate::text::decimal(number) + " exceeds i64::MAX"@,
        ),
{
}

/// How a persistent backend is refused while events are not projected: with their
/// number, the backend's name and the names of the events, separated by commas.
pub proof fn how_a_backend_is_refused(backend: Backend, stubbed: Vec<&'static str>, n: nat)
    requires
        1 <= n < stubbed@.len(),
    ensures
        (RegistryError::StubbedVariantsPresent { backend, stubbed }).spec_message()
            == "projection registry: "@ + crate::text::decimal(stubbed@.len())
            + " RuntimeEvent variant(s) are still stubbed for backend "@ + (match backend {
            Backend::InMemory => "InMemory"@,
            Backend::Postgres => "Postgres"@,
            Backend::Sqlite => "Sqlite"@,
        })
            + " (every variant on a persistent backend must be either Projected or Ephemeral per RFC-025; Stubbed is not a supported steady state): "@
            + crate::projection_registry::listed(
            crate::projection_registry::names(stubbed@),
            stubbed@.len(),
        ),
        crate::projection_registry::listed(crate::projection_registry::names(stubbed@), 1)
            == stubbed@[0]@,
        crate::projection_registry::listed(crate::projection_registry::names(stubbed@), n + 1)
            == crate::projection_registry::listed(crate::projection_registry::names(stubbed@), n)
            + ", "@ + stubbed@[n as int]@,
{
}

/// The bounds and the sizes that the store works with.
pub proof fn the_limits_of_the_store()
    ensures
        crate::event_log::BATCH_INSERT_CHUNK == 100,
        crate::event_log::EVENT_VALUES == 8,
        crate::rebuild::REPLAY_BATCH == 500,
        crate::projections::providers::DEFAULT_BUDGET_ALERT_THRESHOLD_PERCENT == 80,
        crate::projections::checkpoints::CHECKPOINT_STRATEGY_DEFAULT_MAX_CHECKPOINTS == 10,
        crate::read::sessions::MAX_DEPTH == 1024,
        crate::read::policies::LIST_BY_RESOURCE_MAX_ROWS == 10_000,
        crate::read::runs::RECONCILE_LIMIT == 10_000,
        crate::read::evals::ENTRIES_CHUNK == 900,
{
}

/// A window of time reaches from its lower bound to before its upper one, and one
/// that its column cannot hold is refused, the lower one first.
pub proof fn how_a_window_is_bounded(since: Option<u64>, before: Option<u64>)
    ensures
        crate::read::policies::bound(None, i64::MIN) == i64::MIN,
        crate::read::policies::bound(None, i64::MAX) == i64::MAX,
        since is Some && since->Some_0 <= i64::MAX ==> crate::read::policies::bound(
            since,
            i64::MIN,
        ) == since->Some_0,
        since is Some && since->Some_0 > i64::MAX ==> crate::read::policies::window_fault(
            since,
            before,
        ) == Some(ErrorView::Internal("since_ms exceeds i64::MAX"@)),
        !(since is Some && since->Some_0 > i64::MAX) && before is Some && before->Some_0
            > i64::MAX ==> crate::read::policies::window_fault(since, before) == Some(
            ErrorView::Internal("before_ms exceeds i64::MAX"@),
        ),
        !(since is Some && since->Some_0 > i64::MAX) && !(before is Some && before->Some_0
            > i64::MAX) ==> crate::read::policies::window_fault(since, before) is None,
{
}

/// The characters that count as white space, by their numbers.
pub proof fn the_white_space_characters(c: char)
    ensures
        crate::script::is_white(c) <==> {
            let n = c as int;
            ||| 9 <= n <= 13
            ||| n == 32
            ||| n == 133
            ||| n == 160
            ||| n == 5760
            ||| 8192 <= n <= 8202
            ||| n == 8232
            ||| n == 8233
            ||| n == 8239
            ||| n == 8287
            ||| n == 12288
        },
{
}

/// The events that count as not projected are those that are registered so.
pub proof fn the_events_that_are_not_projected(
    entries: Seq<(Seq<char>, StatusView)>,
    name: Seq<char>,
)
    ensures
        crate::projection_registry::stubbed_in(entries).contains(name) <==> exists|i: int|
            0 <= i < entries.len() && (#[trigger] entries[i]).0 == name && entries[i].1 is Stubbed,
    decreases entries.len(),
{
    if entries.len() > 0 {
        let front = entries.drop_last();
        let last = entries.last();
        let before = crate::projection_registry::stubbed_in(front);
        let all = crate::projection_registry::stubbed_in(entries);
        the_events_that_are_not_projected(front, name);
        if last.1 is Stubbed {
            assert(all == before.push(last.0));
            assert(all[before.len() as int] == last.0);
            assert(entries[entries.len() - 1] == last);
            if before.contains(name) {
                let k = choose|k: int| 0 <= k < before.len() && before[k] == name;
                assert(all[k] == name);
            }
        }
        if exists|i: int|
            0 <= i < front.len() && (#[trigger] front[i]).0 == name && front[i].1 is Stubbed {
            let i = choose|i: int|
                0 <= i < front.len() && (#[trigger] front[i]).0 == name && front[i].1 is Stubbed;
            assert(entries[i] == front[i]);
        }
        if exists|i: int|
            0 <= i < entries.len() && (#[trigger] entries[i]).0 == name
                && entries[i].1 is Stubbed {
            let i = choose|i: int|
                0 <= i < entries.len() && (#[trigger] entries[i]).0 == name
                    && entries[i].1 is Stubbed;
            if i < front.len() {
                assert(front[i] == entries[i]);
            }
        }
    }
}

} // verus!
