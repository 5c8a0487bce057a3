//! The pinout: groups of identified pins in declaration order.

use vstd::prelude::*;
use crate::group::GroupKind;
use crate::pin::{Pin, PinView};

verus! {

/// The name under which a pinout refers to one pin.
pub type PinId = u32;

/// A pin together with the identifier it is bound to.
#[derive(Debug)]
pub struct Binding {
    pub id: PinId,
    pub pin: Pin,
}

pub ghost struct BindingView {
    pub id: PinId,
    pub pin: PinView,
}

impl View for Binding {
    type V = BindingView;

    open spec fn view(&self) -> BindingView {
        BindingView { id: self.id, pin: self.pin@ }
    }
}

/// One entry of a pinout as the configuration pass sees it: a pin, its
/// identifier, and the kind of the group it was declared in.
pub ghost struct Item {
    pub kind: GroupKind,
    pub id: PinId,
    pub pin: PinView,
}

/// The identifiers of the entries, in order.
pub open spec fn ids(items: Seq<Item>) -> Seq<PinId> {
    items.map_values(|item: Item| item.id)
}

/// The views of a run of bindings, in order.
pub open spec fn views(bindings: Seq<Binding>) -> Seq<BindingView> {
    bindings.map_values(|b: Binding| b@)
}

/// The entries that bindings declared under `kind` stand for.
pub open spec fn items_under(kind: GroupKind, bindings: Seq<Binding>) -> Seq<Item> {
    bindings.map_values(|b: Binding| Item { kind, id: b.id, pin: b.pin@ })
}

/// A group: one kind and the pins declared under it, in order.
#[derive(Debug)]
pub struct Group {
    pub kind: GroupKind,
    pub entries: Vec<Binding>,
}

impl Group {
    /// The entries of the group, in declaration order.
    pub open spec fn items(self) -> Seq<Item> {
        items_under(self.kind, self.entries@)
    }

    /// A group of `kind` without pins.
    pub fn new(kind: GroupKind) -> (group: Group)
        ensures
            group.kind == kind,
            group.entries@ == Seq::<Binding>::empty(),
            group.items() == Seq::<Item>::empty(),
    {
        Group { kind, entries: Vec::new() }
    }

    /// Declares `pin` under `id` behind the pins already in the group.
    pub fn pin(self, id: PinId, pin: Pin) -> (group: Group)
        ensures
            group.kind == self.kind,
            group.entries@ == self.entries@.push(Binding { id, pin }),
            group.items() == self.items().push(Item { kind: self.kind, id, pin: pin@ }),
    {
        let Group { kind, entries } = self;
        let mut entries = entries;
        entries.push(Binding { id, pin });
        Group { kind, entries }
    }
}

/// The entries of a run of groups, in declaration order.
pub open spec fn items_of(groups: Seq<Group>) -> Seq<Item>
    decreases groups.len(),
{
    if groups.len() == 0 {
        Seq::empty()
    } else {
        items_of(groups.drop_last()) + groups.last().items()
    }
}

/// A pinout specification: groups in declaration order.
#[derive(Debug)]
pub struct PinoutSpec {
    pub groups: Vec<Group>,
}

impl PinoutSpec {
    /// Every entry of the pinout, in declaration order.
    pub open spec fn items(self) -> Seq<Item> {
        items_of(self.groups@)
    }

    /// A pinout is well formed where no identifier is used twice. The
    /// builders do not ask for it; the configuration pass tests it.
    pub open spec fn well_formed(self) -> bool {
        ids(self.items()).no_duplicates()
    }

    /// The pinout without groups.
    pub fn new() -> (spec: PinoutSpec)
        ensures
            spec.groups@ == Seq::<Group>::empty(),
            spec.items() == Seq::<Item>::empty(),
    {
        PinoutSpec { groups: Vec::new() }
    }

    /// Declares `group` behind the groups already in the pinout.
    pub fn group(self, group: Group) -> (spec: PinoutSpec)
        ensures
            spec.groups@ == self.groups@.push(group),
            spec.items() == self.items() + group.items(),
    {
        let mut groups = self.groups;
        groups.push(group);
        proof {
            assert(groups@.drop_last() == self.groups@);
            assert(groups@.last() == group);
        }
        PinoutSpec { groups }
    }
}

} // verus!
