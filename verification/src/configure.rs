//! The configuration pass over a pinout.

use vstd::prelude::*;
use crate::group::{configure_pin, GroupKind};
use crate::laws::law_no_repeat_means_distinct;
use crate::pinout::{
    ids, items_of, items_under, views, Binding, BindingView, Item, PinId, PinoutSpec,
};

verus! {

/// Why a configuration pass did not end well.
#[derive(Clone, Copy, Debug, PartialEq, Eq, Structural)]
pub enum ConfigError {
    /// The driver refused to set the level of the pin with this identifier.
    DriveFailure(PinId),
    /// The pinout uses this identifier more than once.
    DuplicateIdentifier(PinId),
}

impl ConfigError {
    /// The identifier of the pin that the error is about.
    pub open spec fn subject(self) -> PinId {
        match self {
            ConfigError::DriveFailure(id) => id,
            ConfigError::DuplicateIdentifier(id) => id,
        }
    }

    /// The words that go with each kind of error.
    pub open spec fn wording(self) -> Seq<char> {
        match self {
            ConfigError::DriveFailure(_) => "drive level refused"@,
            ConfigError::DuplicateIdentifier(_) => "handle already configured"@,
        }
    }

    /// The identifier of the pin that the error is about.
    pub fn pin_id(&self) -> (id: PinId)
        ensures
            id == self.subject(),
    {
        match self {
            ConfigError::DriveFailure(id) => *id,
            ConfigError::DuplicateIdentifier(id) => *id,
        }
    }

    /// A short description of the error.
    pub fn describe(&self) -> (text: &'static str)
        ensures
            text@ == self.wording(),
    {
        match self {
            ConfigError::DriveFailure(_) => "drive level refused",
            ConfigError::DuplicateIdentifier(_) => "handle already configured",
        }
    }
}

/// A failed pass: the reason, and every pin of the pinout handed back in
/// declaration order.
#[derive(Debug)]
pub struct Failure {
    pub error: ConfigError,
    pub pins: Vec<Binding>,
}

/// The identifier at the first position whose identifier was already used
/// at an earlier one.
pub open spec fn first_repeat(ids: Seq<PinId>) -> Option<PinId>
    decreases ids.len(),
{
    if ids.len() == 0 {
        None
    } else {
        match first_repeat(ids.drop_last()) {
            Some(id) => Some(id),
            None => if ids.drop_last().contains(ids.last()) {
                Some(ids.last())
            } else {
                None
            },
        }
    }
}

/// Whether the drive of the entry at position `at` is refused.
pub open spec fn refused_at(items: Seq<Item>, at: int) -> bool {
    items[at].kind.fails_on(items[at].pin)
}

/// The identifier of the first entry on which a drive is refused.
pub open spec fn first_failure(items: Seq<Item>) -> Option<PinId>
    decreases items.len(),
{
    if items.len() == 0 {
        None
    } else {
        match first_failure(items.drop_last()) {
            Some(id) => Some(id),
            None => if refused_at(items, items.len() - 1) {
                Some(items.last().id)
            } else {
                None
            },
        }
    }
}

/// The pins as they were declared.
pub open spec fn untouched(items: Seq<Item>) -> Seq<BindingView> {
    items.map_values(|item: Item| BindingView { id: item.id, pin: item.pin })
}

/// Every pin after it was configured under the kind of its group.
pub open spec fn configured(items: Seq<Item>) -> Seq<BindingView> {
    items.map_values(|item: Item| BindingView { id: item.id, pin: item.kind.outcome(item.pin) })
}

/// The error of a pass over `items`, if it has one. A reused identifier is
/// found before any pin is touched, so it comes before a refused drive.
pub open spec fn pass_error(items: Seq<Item>) -> Option<ConfigError> {
    match first_repeat(ids(items)) {
        Some(id) => Some(ConfigError::DuplicateIdentifier(id)),
        None => match first_failure(items) {
            Some(id) => Some(ConfigError::DriveFailure(id)),
            None => None,
        },
    }
}

/// The pins that a pass over `items` hands back: untouched where an
/// identifier is reused, and each one configured otherwise.
pub open spec fn pins_after(items: Seq<Item>) -> Seq<BindingView> {
    if first_repeat(ids(items)) is Some {
        untouched(items)
    } else {
        configured(items)
    }
}

/// The entry that `kind` and `binding` stand for.
pub open spec fn item_of(kind: GroupKind, binding: Binding) -> Item {
    Item { kind, id: binding.id, pin: binding.pin@ }
}

/// The entries that pins stand for when each is paired with the kind at
/// its position.
pub open spec fn paired(kinds: Seq<GroupKind>, pins: Seq<Binding>) -> Seq<Item> {
    Seq::new(pins.len(), |i: int| item_of(kinds[i], pins[i]))
}

/// Takes a pinout apart into its pins and, beside each, the kind it was
/// declared under.
fn flatten(spec: PinoutSpec) -> (r: (Vec<GroupKind>, Vec<Binding>))
    ensures
        r.0@.len() == r.1@.len(),
        paired(r.0@, r.1@) == spec.items(),
{
    let mut kinds: Vec<GroupKind> = Vec::new();
    let mut pins: Vec<Binding> = Vec::new();
    let ghost all = spec.groups@;
    for group in groups: spec.groups
        invariant
            groups.seq() == all,
            kinds@.len() == pins@.len(),
            paired(kinds@, pins@) == items_of(all.take(groups.index() as int)),
    {
        let ghost done = paired(kinds@, pins@);
        let ghost declared = group.entries@;
        let kind = group.kind;
        for binding in entries: group.entries
            invariant
                entries.seq() == declared,
                kinds@.len() == pins@.len(),
                paired(kinds@, pins@) == done + items_under(
                    kind,
                    declared.take(entries.index() as int),
                ),
        {
            let ghost so_far = paired(kinds@, pins@);
            kinds.push(kind);
            pins.push(binding);
            proof {
                let n = entries.index() as int;
                assert(declared.take(n + 1) == declared.take(n).push(binding));
                assert(paired(kinds@, pins@) == so_far.push(item_of(kind, binding)));
                assert(items_under(kind, declared.take(n + 1)) == items_under(
                    kind,
                    declared.take(n),
                ).push(item_of(kind, binding)));
            }
        }
        proof {
            let n = groups.index() as int;
            assert(declared.take(declared.len() as int) == declared);
            assert(all.take(n + 1).drop_last() == all.take(n));
            assert(all.take(n + 1).last() == group);
        }
    }
    proof {
        assert(all.take(all.len() as int) == all);
    }
    (kinds, pins)
}

/// The identifiers that the bindings carry, in order.
pub open spec fn bound_ids(pins: Seq<Binding>) -> Seq<PinId> {
    pins.map_values(|b: Binding| b.id)
}

/// A repeat found in a prefix is the first repeat of the whole.
proof fn lemma_first_repeat_of_prefix(ids: Seq<PinId>, n: int)
    requires
        0 <= n <= ids.len(),
        first_repeat(ids.take(n)) is Some,
    ensures
        first_repeat(ids) == first_repeat(ids.take(n)),
    decreases ids.len() - n,
{
    if n == ids.len() {
        assert(ids.take(n) == ids);
    } else {
        assert(ids.drop_last().take(n) == ids.take(n));
        lemma_first_repeat_of_prefix(ids.drop_last(), n);
    }
}

/// Looks for an identifier that the bindings use twice, and returns the one
/// at the first position that repeats an earlier one.
pub fn first_reused_id(pins: &Vec<Binding>) -> (r: Option<PinId>)
    ensures
        r == first_repeat(bound_ids(pins@)),
{
    let ghost all = bound_ids(pins@);
    let mut j: usize = 0;
    while j < pins.len()
        invariant
            j <= pins.len(),
            all == bound_ids(pins@),
            first_repeat(all.take(j as int)) is None,
        decreases pins.len() - j,
    {
        let id = pins[j].id;
        let mut i: usize = 0;
        while i < j
            invariant
                i <= j < pins.len(),
                all == bound_ids(pins@),
                id == all[j as int],
                first_repeat(all.take(j as int)) is None,
                !all.take(i as int).contains(id),
            decreases j - i,
        {
            if pins[i].id == id {
                proof {
                    assert(all.take(j as int)[i as int] == id);
                    assert(all.take(j + 1).drop_last() == all.take(j as int));
                    lemma_first_repeat_of_prefix(all, j + 1);
                }
                return Some(id);
            }
            proof {
                assert(all.take(i + 1) == all.take(i as int).push(all[i as int]));
            }
            i += 1;
        }
        proof {
            assert(all.take(j + 1).drop_last() == all.take(j as int));
        }
        j += 1;
    }
    proof {
        assert(all.take(j as int) == all);
    }
    None
}

/// Runs one configuration pass over `spec`.
///
/// Where an identifier is used twice, no pin is touched and the pass fails
/// with the identifier at the first position that repeats an earlier one.
/// Otherwise every pin is configured under the kind of its group, in
/// declaration order, each one on its own; `Ok` holds them all. Where a
/// drive was refused, the pass fails with the identifier of the first such
/// pin, and the failure still holds every pin: the refused ones `Invalid`,
/// the others as configured.
pub fn configure_all(spec: PinoutSpec) -> (r: Result<Vec<Binding>, Failure>)
    ensures
        r is Ok <==> pass_error(spec.items()) is None,
        (r matches Err(failure) && failure.error is DuplicateIdentifier) <==> !spec.well_formed(),
        match r {
            Ok(pins) => views(pins@) == pins_after(spec.items()),
            Err(failure) => pass_error(spec.items()) == Some(failure.error) && views(failure.pins@)
                == pins_after(spec.items()),
        },
{
    let ghost items = spec.items();
    let (kinds, pins) = flatten(spec);
    let ghost declared = pins@;
    proof {
        assert(bound_ids(declared) == ids(items));
        assert(views(declared) == untouched(items));
        law_no_repeat_means_distinct(ids(items));
    }
    match first_reused_id(&pins) {
        Some(id) => Err(Failure { error: ConfigError::DuplicateIdentifier(id), pins }),
        None => {
            let mut done: Vec<Binding> = Vec::new();
            let mut failed: Option<PinId> = None;
            let mut i: usize = 0;
            for binding in rest: pins
                invariant
                    rest.seq() == declared,
                    i == rest.index(),
                    kinds.len() == declared.len(),
                    paired(kinds@, declared) == items,
                    views(done@) == configured(items.take(i as int)),
                    failed == first_failure(items.take(i as int)),
            {
                let ghost before = views(done@);
                let Binding { id, pin } = binding;
                let (pin, driven) = configure_pin(kinds[i], pin);
                if failed.is_none() && driven.is_err() {
                    failed = Some(id);
                }
                done.push(Binding { id, pin });
                proof {
                    let item = items[i as int];
                    assert(item == item_of(kinds@[i as int], binding));
                    assert(items.take(i + 1).drop_last() == items.take(i as int));
                    assert(items.take(i + 1).last() == item);
                    assert(views(done@) == before.push(
                        BindingView { id: item.id, pin: item.kind.outcome(item.pin) },
                    ));
                    assert(configured(items.take(i + 1)) == configured(items.take(i as int)).push(
                        BindingView { id: item.id, pin: item.kind.outcome(item.pin) },
                    ));
                }
                i += 1;
            }
            proof {
                assert(items.take(i as int) == items);
            }
            match failed {
                Some(id) => Err(Failure { error: ConfigError::DriveFailure(id), pins: done }),
                None => Ok(done),
            }
        },
    }
}

} // verus!
