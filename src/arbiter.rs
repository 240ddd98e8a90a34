use vstd::prelude::*;

use crate::interface::InterfaceKind;
use crate::registry::{
    ids, lemma_record_wf, lemma_set_active_wf, lemma_with_id, lemma_without_id, Registry,
    RegistryModel,
};

verus! {

/// One interface as the startup enumeration reports it.
#[derive(Clone, Debug, PartialEq, Eq)]
pub struct SnapshotEntry {
    pub id: String,
    pub kind: InterfaceKind,
    pub display_name: String,
    pub active: bool,
}

/// What the arbiter reacts to.
#[derive(Clone, Debug, PartialEq, Eq)]
pub enum Event {
    /// The interfaces present at startup, in enumeration order.
    Snapshot(Vec<SnapshotEntry>),
    /// The link of an interface went up (`true`) or down (`false`).
    LinkChanged(String, bool),
    /// The interface no longer exists.
    LinkRemoved(String),
}

/// A command for the wireless-power sink.
#[derive(Clone, Debug, PartialEq, Eq)]
pub enum Action {
    /// Turn the radio of the WiFi interface on (`true`) or off (`false`).
    PowerWifi(String, bool),
}

impl Action {
    pub open spec fn model(&self) -> (Seq<char>, bool) {
        match self {
            Action::PowerWifi(id, on) => (id@, *on),
        }
    }
}

pub open spec fn actions_model(v: &Vec<Action>) -> Seq<(Seq<char>, bool)> {
    v@.map_values(|a: Action| a.model())
}

/// One power command per identifier of `s`, in the order of `s`.
pub open spec fn power_all(s: Seq<Seq<char>>, on: bool) -> Seq<(Seq<char>, bool)> {
    s.map_values(|w: Seq<char>| (w, on))
}

/// The registry after recording each entry in turn.
pub open spec fn record_all(m: RegistryModel, entries: Seq<SnapshotEntry>) -> RegistryModel
    decreases entries.len(),
{
    if entries.len() == 0 {
        m
    } else {
        let e = entries.last();
        record_all(m, entries.drop_last()).record(e.id@, e.kind, e.active)
    }
}

/// A snapshot records every entry; then, if an Ethernet and a WiFi link are
/// both active, every active WiFi radio is powered off.
pub open spec fn snapshot_step(m: RegistryModel, entries: Seq<SnapshotEntry>) -> (
    RegistryModel,
    Seq<(Seq<char>, bool)>,
) {
    let next = record_all(m, entries);
    if next.active_ethernets.len() > 0 && next.active_wifis.len() > 0 {
        (next, power_all(next.active_wifis, false))
    } else {
        (next, Seq::empty())
    }
}

/// A WiFi link that comes up while an Ethernet link is active is powered off
/// and taken as inactive. Otherwise the link state is recorded, an unknown
/// identifier being taken for an Ethernet interface; if that made an Ethernet
/// link newly active, every active WiFi radio is powered off and taken as
/// inactive.
pub open spec fn link_changed_step(m: RegistryModel, id: Seq<char>, active: bool) -> (
    RegistryModel,
    Seq<(Seq<char>, bool)>,
) {
    if m.wifis.contains(id) && active && m.active_ethernets.len() > 0 {
        (m.set_active(id, false), seq![(id, false)])
    } else {
        let next = if !m.knows(id) {
            m.record(id, InterfaceKind::Ethernet, active)
        } else {
            m.set_active(id, active)
        };
        if next.active_ethernets.contains(id) && !m.active_ethernets.contains(id) {
            (next.drain_wifis(), power_all(next.active_wifis, false))
        } else {
            (next, Seq::empty())
        }
    }
}

/// A removed interface is taken as inactive, its kind remembered; when no
/// Ethernet link is then active, every known WiFi radio is powered on.
pub open spec fn link_removed_step(m: RegistryModel, id: Seq<char>) -> (
    RegistryModel,
    Seq<(Seq<char>, bool)>,
) {
    let next = m.set_active(id, false);
    if next.active_ethernets.len() == 0 {
        (next, power_all(next.wifis, true))
    } else {
        (next, Seq::empty())
    }
}

pub open spec fn step(m: RegistryModel, e: Event) -> (RegistryModel, Seq<(Seq<char>, bool)>) {
    match e {
        Event::Snapshot(entries) => snapshot_step(m, entries@),
        Event::LinkChanged(id, active) => link_changed_step(m, id@, active),
        Event::LinkRemoved(id) => link_removed_step(m, id@),
    }
}

/// The registry after handling `events` in order, starting from an empty one.
pub open spec fn replay(events: Seq<Event>) -> RegistryModel
    decreases events.len(),
{
    if events.len() == 0 {
        RegistryModel::empty()
    } else {
        step(replay(events.drop_last()), events.last()).0
    }
}

/// One power command per identifier in the list, in its order.
fn power_each(v: &Vec<String>, on: bool) -> (r: Vec<Action>)
    ensures
        actions_model(&r) == power_all(ids(v), on),
{
    let mut r: Vec<Action> = Vec::new();
    let mut i: usize = 0;
    while i < v.len()
        invariant
            i <= v.len(),
            actions_model(&r) == power_all(ids(v).take(i as int), on),
        decreases v.len() - i,
    {
        let s = v[i].clone();
        assert(s@ == ids(v)[i as int]);
        let ghost before = actions_model(&r);
        let a = Action::PowerWifi(s, on);
        assert(a.model() == (ids(v)[i as int], on));
        r.push(a);
        assert(actions_model(&r).len() == before.len() + 1);
        assert(actions_model(&r)[i as int] == (ids(v)[i as int], on));
        assert forall|j: int| 0 <= j < i + 1 implies actions_model(&r)[j] == power_all(
            ids(v).take(i + 1),
            on,
        )[j] by {
            if j < i {
                assert(actions_model(&r)[j] == before[j]);
                assert(before[j] == power_all(ids(v).take(i as int), on)[j]);
            }
        }
        assert(actions_model(&r) =~= power_all(ids(v).take(i + 1), on));
        i = i + 1;
    }
    assert(ids(v).take(v.len() as int) =~= ids(v));
    r
}

/// Records the startup snapshot and powers off the active WiFi radios if an
/// Ethernet link is active too.
pub fn process_snapshot(registry: &mut Registry, entries: &Vec<SnapshotEntry>) -> (r: Vec<Action>)
    requires
        old(registry)@.wf(),
    ensures
        (final(registry)@, actions_model(&r)) == snapshot_step(old(registry)@, entries@),
        final(registry)@.wf(),
{
    let mut i: usize = 0;
    while i < entries.len()
        invariant
            i <= entries.len(),
            registry@.wf(),
            registry@ == record_all(old(registry)@, entries@.take(i as int)),
        decreases entries.len() - i,
    {
        let e = &entries[i];
        registry.classify_and_record(&e.id, e.kind, e.active);
        assert(entries@.take(i + 1).drop_last() =~= entries@.take(i as int));
        i = i + 1;
    }
    assert(entries@.take(entries.len() as int) =~= entries@);
    if registry.has_any_active_ethernet() && registry.has_any_active_wifi() {
        power_each(&registry.active_wifi_ids(), false)
    } else {
        let r: Vec<Action> = Vec::new();
        assert(actions_model(&r) =~= Seq::empty());
        r
    }
}

/// Handles a change of the link state of `id`.
pub fn link_changed(registry: &mut Registry, id: &String, active: bool) -> (r: Vec<Action>)
    requires
        old(registry)@.wf(),
    ensures
        (final(registry)@, actions_model(&r)) == link_changed_step(old(registry)@, id@, active),
        final(registry)@.wf(),
{
    let was_active = registry.is_active_ethernet(id);
    if active && registry.is_wifi(id) && registry.has_any_active_ethernet() {
        registry.mark_inactive(id);
        let mut r: Vec<Action> = Vec::new();
        r.push(Action::PowerWifi(id.clone(), false));
        assert(actions_model(&r) =~= seq![(id@, false)]);
        r
    } else {
        if !registry.is_wifi(id) && !registry.is_ethernet(id) {
            registry.classify_and_record(id, InterfaceKind::Ethernet, active);
        } else if active {
            registry.mark_active(id);
        } else {
            registry.mark_inactive(id);
        }
        if registry.is_active_ethernet(id) && !was_active {
            let r = power_each(&registry.active_wifi_ids(), false);
            registry.drain_wifis();
            r
        } else {
            let r: Vec<Action> = Vec::new();
            assert(actions_model(&r) =~= Seq::empty());
            r
        }
    }
}

/// Handles the disappearance of `id`.
pub fn link_removed(registry: &mut Registry, id: &String) -> (r: Vec<Action>)
    requires
        old(registry)@.wf(),
    ensures
        (final(registry)@, actions_model(&r)) == link_removed_step(old(registry)@, id@),
        final(registry)@.wf(),
{
    registry.mark_inactive(id);
    if !registry.has_any_active_ethernet() {
        power_each(&registry.wifi_ids(), true)
    } else {
        let r: Vec<Action> = Vec::new();
        assert(actions_model(&r) =~= Seq::empty());
        r
    }
}

/// Updates the registry for `event` and returns the power commands it calls
/// for, to be carried out in order.
pub fn handle_event(registry: &mut Registry, event: &Event) -> (r: Vec<Action>)
    requires
        old(registry)@.wf(),
    ensures
        (final(registry)@, actions_model(&r)) == step(old(registry)@, *event),
        final(registry)@.wf(),
{
    match event {
        Event::Snapshot(entries) => process_snapshot(registry, entries),
        Event::LinkChanged(id, active) => link_changed(registry, id, *active),
        Event::LinkRemoved(id) => link_removed(registry, id),
    }
}

} // verus!
