//! What holds of every configuration pass.

use vstd::prelude::*;
use crate::configure::{
    configured, first_failure, first_repeat, pins_after, refused_at, untouched, pass_error,
};
use crate::group::GroupKind;
use crate::mode::Mode;
use crate::pin::PinView;
use crate::pinout::{ids, BindingView, Item, PinId};

verus! {

/// A kind that drives no level takes any pin, whatever its mode, to the
/// mode the kind designates, changes nothing else of it, and cannot fail.
pub proof fn law_plain_kind_reaches_target(kind: GroupKind, pin: PinView)
    requires
        !kind.drives_level(),
    ensures
        kind.outcome(pin) == pin.with_mode(kind.target()),
        !kind.fails_on(pin),
{
}

/// A kind that drives a level takes a pin to the driven mode where the
/// drive is accepted, and to `Invalid`, with a failure, where it is refused.
pub proof fn law_driving_kind_checks_the_drive(kind: GroupKind, pin: PinView)
    requires
        kind.drives_level(),
    ensures
        !pin.faulty ==> kind.outcome(pin).mode == kind.target() && !kind.fails_on(pin),
        pin.faulty ==> kind.outcome(pin).mode == Mode::Invalid && kind.fails_on(pin),
        kind.outcome(pin).faulty == pin.faulty,
{
}

/// No identifier is reported as reused exactly where all identifiers differ.
pub proof fn law_no_repeat_means_distinct(ids: Seq<PinId>)
    ensures
        first_repeat(ids) is None <==> ids.no_duplicates(),
    decreases ids.len(),
{
    if ids.len() > 0 {
        let front = ids.drop_last();
        law_no_repeat_means_distinct(front);
        if first_repeat(ids) is None {
            assert forall|i: int, j: int| 0 <= i < ids.len() && 0 <= j < ids.len() && i != j implies ids[i]
                != ids[j] by {
                if i < front.len() && j < front.len() {
                    assert(front[i] != front[j]);
                } else if i < front.len() {
                    assert(front[i] != ids.last());
                } else {
                    assert(front[j] != ids.last());
                }
            }
        }
        if ids.no_duplicates() {
            assert forall|i: int, j: int| 0 <= i < front.len() && 0 <= j < front.len() && i != j implies front[i]
                != front[j] by {
                assert(ids[i] != ids[j]);
            }
            if front.contains(ids.last()) {
                let i = choose|i: int| 0 <= i < front.len() && front[i] == ids.last();
                assert(ids[i] == ids[ids.len() - 1]);
            }
        }
    }
}

/// The identifier reported as reused stands at the earliest position that
/// repeats an earlier one.
pub proof fn law_first_repeat_is_earliest(ids: Seq<PinId>) -> (at: int)
    requires
        first_repeat(ids) is Some,
    ensures
        0 < at < ids.len(),
        first_repeat(ids) == Some(ids[at]),
        ids.take(at).contains(ids[at]),
        ids.take(at).no_duplicates(),
    decreases ids.len(),
{
    let front = ids.drop_last();
    if first_repeat(front) is Some {
        let at = law_first_repeat_is_earliest(front);
        assert(front.take(at) == ids.take(at));
        at
    } else {
        let at = ids.len() - 1;
        assert(ids.take(at) == front);
        law_no_repeat_means_distinct(front);
        at
    }
}

/// The pin reported as failed is the first, in declaration order, on which
/// a drive is refused.
pub proof fn law_first_failure_is_earliest(items: Seq<Item>) -> (at: int)
    requires
        first_failure(items) is Some,
    ensures
        0 <= at < items.len(),
        first_failure(items) == Some(items[at].id),
        refused_at(items, at),
        forall|i: int| 0 <= i < at ==> !refused_at(items, i),
    decreases items.len(),
{
    let front = items.drop_last();
    if first_failure(front) is Some {
        let at = law_first_failure_is_earliest(front);
        assert forall|i: int| 0 <= i < at implies !refused_at(items, i) by {
            assert(!refused_at(front, i));
        }
        at
    } else {
        law_no_failure_means_all_accepted(front);
        let at = items.len() - 1;
        assert forall|i: int| 0 <= i < at implies !refused_at(items, i) by {
            assert(!refused_at(front, i));
        }
        at
    }
}

/// No failure is reported exactly where no drive is refused.
pub proof fn law_no_failure_means_all_accepted(items: Seq<Item>)
    ensures
        first_failure(items) is None <==> forall|i: int|
            0 <= i < items.len() ==> !refused_at(items, i),
    decreases items.len(),
{
    if items.len() > 0 {
        let front = items.drop_last();
        law_no_failure_means_all_accepted(front);
        if first_failure(items) is None {
            assert forall|i: int| 0 <= i < items.len() implies !refused_at(items, i) by {
                if i < front.len() {
                    assert(!refused_at(front, i));
                }
            }
        } else if first_failure(front) is Some {
            let i = choose|i: int| 0 <= i < front.len() && refused_at(front, i);
            assert(refused_at(items, i));
        } else {
            assert(refused_at(items, items.len() - 1));
        }
    }
}

/// In a pass that finds no reused identifier, every pin handed back is the
/// pin declared at the same position, configured under the kind of its own
/// group: no entry bears on another.
pub proof fn law_each_pin_on_its_own(items: Seq<Item>, at: int)
    requires
        ids(items).no_duplicates(),
        0 <= at < items.len(),
    ensures
        pins_after(items).len() == items.len(),
        pins_after(items)[at] == (BindingView {
            id: items[at].id,
            pin: items[at].kind.outcome(items[at].pin),
        }),
{
    law_no_repeat_means_distinct(ids(items));
}

/// After a pass without error every pin is in the mode that its group
/// designates; none is left `Unconfigured` or `Invalid`.
pub proof fn law_clean_pass_configures_every_pin(items: Seq<Item>)
    requires
        pass_error(items) is None,
    ensures
        forall|at: int|
            0 <= at < items.len() ==> {
                let mode = (#[trigger] pins_after(items)[at]).pin.mode;
                mode == items[at].kind.target() && mode.is_configured()
            },
{
    law_no_failure_means_all_accepted(items);
    assert forall|at: int| 0 <= at < items.len() implies {
        let mode = (#[trigger] pins_after(items)[at]).pin.mode;
        mode == items[at].kind.target() && mode.is_configured()
    } by {
        assert(!refused_at(items, at));
    }
}

/// A refused drive is never passed over: the pass fails with a drive
/// failure, and the refused pin is `Invalid`.
pub proof fn law_refused_drive_is_reported(items: Seq<Item>, at: int)
    requires
        ids(items).no_duplicates(),
        0 <= at < items.len(),
        refused_at(items, at),
    ensures
        pass_error(items) is Some,
        pass_error(items)->0 is DriveFailure,
        pins_after(items)[at].pin.mode == Mode::Invalid,
{
    law_no_repeat_means_distinct(ids(items));
    law_no_failure_means_all_accepted(items);
}

/// A pinout that uses one identifier at two positions fails at once: the
/// error names a reused identifier, and every pin is handed back as it was
/// declared.
pub proof fn law_reuse_fails_before_any_pin(items: Seq<Item>, first: int, second: int)
    requires
        0 <= first < second < items.len(),
        items[first].id == items[second].id,
    ensures
        pass_error(items) is Some,
        pass_error(items)->0 is DuplicateIdentifier,
        pins_after(items) == untouched(items),
{
    law_no_repeat_means_distinct(ids(items));
    assert(ids(items)[first] == ids(items)[second]);
}

/// The first refused drive of two batches in a row is that of the first
/// batch, or else that of the second.
pub proof fn law_first_failure_of_batches(first: Seq<Item>, second: Seq<Item>)
    ensures
        first_failure(first + second) == match first_failure(first) {
            Some(id) => Some(id),
            None => first_failure(second),
        },
    decreases second.len(),
{
    if second.len() == 0 {
        assert(first + second == first);
    } else {
        let whole = first + second;
        assert(whole.drop_last() == first + second.drop_last());
        assert(refused_at(whole, whole.len() - 1) == refused_at(second, second.len() - 1));
        law_first_failure_of_batches(first, second.drop_last());
    }
}

/// Two batches whose identifiers all differ give the same pins and the same
/// error whether they are configured in one pass or in two passes, one
/// after the other.
pub proof fn law_batches_agree(first: Seq<Item>, second: Seq<Item>)
    requires
        ids(first + second).no_duplicates(),
    ensures
        pins_after(first + second) == pins_after(first) + pins_after(second),
        pass_error(first + second) == match pass_error(first) {
            Some(error) => Some(error),
            None => pass_error(second),
        },
{
    let whole = first + second;
    law_no_repeat_means_distinct(ids(whole));
    law_no_repeat_means_distinct(ids(first));
    law_no_repeat_means_distinct(ids(second));
    assert(ids(whole) == ids(first) + ids(second));
    assert(ids(first).no_duplicates()) by {
        assert forall|i: int, j: int|
            0 <= i < first.len() && 0 <= j < first.len() && i != j implies ids(first)[i] != ids(
            first,
        )[j] by {
            assert(ids(whole)[i] != ids(whole)[j]);
        }
    }
    assert(ids(second).no_duplicates()) by {
        assert forall|i: int, j: int|
            0 <= i < second.len() && 0 <= j < second.len() && i != j implies ids(second)[i] != ids(
            second,
        )[j] by {
            assert(ids(whole)[first.len() + i] != ids(whole)[first.len() + j]);
        }
    }
    law_first_failure_of_batches(first, second);
    assert(configured(whole) == configured(first) + configured(second));
}

} // verus!
