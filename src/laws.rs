use vstd::prelude::*;

use crate::arbiter::{
    link_changed_step, link_removed_step, power_all, record_all, replay, snapshot_step, step,
    Event, SnapshotEntry,
};
use crate::interface::InterfaceKind;
use crate::registry::{
    lemma_record_wf, lemma_set_active_wf, lemma_with_id, lemma_without_id, with_id, without_id,
    RegistryModel,
};

verus! {

/// Each identifier of `s` gets its command, and the commands name nothing else.
pub proof fn lemma_power_all(s: Seq<Seq<char>>, on: bool)
    ensures
        power_all(s, on).len() == s.len(),
        forall|i: int| 0 <= i < s.len() ==> #[trigger] power_all(s, on)[i] == (s[i], on),
        forall|w: Seq<char>| #[trigger] s.contains(w) ==> power_all(s, on).contains((w, on)),
{
    assert forall|w: Seq<char>| #[trigger] s.contains(w) implies power_all(s, on).contains(
        (w, on),
    ) by {
        let j = choose|j: int| 0 <= j < s.len() && s[j] == w;
        assert(power_all(s, on)[j] == (w, on));
    }
}

proof fn lemma_record_all_wf(m: RegistryModel, entries: Seq<SnapshotEntry>)
    requires
        m.wf(),
    ensures
        record_all(m, entries).wf(),
    decreases entries.len(),
{
    if entries.len() > 0 {
        let e = entries.last();
        lemma_record_all_wf(m, entries.drop_last());
        lemma_record_wf(record_all(m, entries.drop_last()), e.id@, e.kind, e.active);
    }
}

proof fn lemma_link_changed_wf(m: RegistryModel, id: Seq<char>, active: bool)
    requires
        m.wf(),
    ensures
        m.set_active(id, false).wf(),
        m.set_active(id, active).wf(),
        m.record(id, InterfaceKind::Ethernet, active).wf(),
        link_changed_step(m, id, active).0.wf(),
{
    lemma_set_active_wf(m, id, false);
    lemma_set_active_wf(m, id, active);
    lemma_record_wf(m, id, InterfaceKind::Ethernet, active);
}

/// Every event keeps the registry well formed.
pub proof fn lemma_step_wf(m: RegistryModel, e: Event)
    requires
        m.wf(),
    ensures
        step(m, e).0.wf(),
{
    match e {
        Event::Snapshot(entries) => lemma_record_all_wf(m, entries@),
        Event::LinkChanged(id, active) => lemma_link_changed_wf(m, id@, active),
        Event::LinkRemoved(id) => lemma_set_active_wf(m, id@, false),
    }
}

/// In every state reached from an empty registry by any sequence of events,
/// active Ethernet links are known Ethernet interfaces, active WiFi links are
/// known WiFi interfaces, and no interface is both Ethernet and WiFi.
pub proof fn lemma_reachable_invariant(events: Seq<Event>)
    ensures
        replay(events).wf(),
        forall|x: Seq<char>| #[trigger]
            replay(events).active_ethernets.contains(x) ==> replay(events).ethernets.contains(x),
        forall|x: Seq<char>| #[trigger]
            replay(events).active_wifis.contains(x) ==> replay(events).wifis.contains(x),
        forall|x: Seq<char>| #[trigger]
            replay(events).ethernets.contains(x) ==> !replay(events).wifis.contains(x),
    decreases events.len(),
{
    if events.len() > 0 {
        lemma_reachable_invariant(events.drop_last());
        lemma_step_wf(replay(events.drop_last()), events.last());
    }
}

/// Handling the same link change twice in a row leaves the registry as the
/// first time did, and the second time only repeats commands of the first.
pub proof fn lemma_link_changed_idempotent(m: RegistryModel, id: Seq<char>, active: bool)
    requires
        m.wf(),
    ensures
        ({
            let (m1, first) = link_changed_step(m, id, active);
            let (m2, second) = link_changed_step(m1, id, active);
            &&& m2 == m1
            &&& forall|i: int| 0 <= i < second.len() ==> first.contains(#[trigger] second[i])
        }),
{
    let m1 = link_changed_step(m, id, active).0;
    lemma_with_id(m.ethernets, id);
    lemma_with_id(m.active_ethernets, id);
    lemma_with_id(m.active_wifis, id);
    lemma_without_id(m.active_ethernets, id);
    lemma_without_id(m.active_wifis, id);
    lemma_without_id(without_id(m.active_ethernets, id), id);
    lemma_without_id(without_id(m.active_wifis, id), id);
    lemma_with_id(with_id(m.active_ethernets, id), id);
    lemma_with_id(with_id(m.active_wifis, id), id);
    lemma_link_changed_wf(m, id, active);
    if m.wifis.contains(id) && active && m.active_ethernets.len() > 0 {
        assert(m1.active_ethernets == m.active_ethernets);
        assert(link_changed_step(m, id, active).1[0] == (id, false));
    } else {
        assert(m1.ethernets.contains(id) || m1.wifis.contains(id));
    }
}

/// After a snapshot that leaves both an Ethernet and a WiFi link active, the
/// commands are exactly one power-off for each active WiFi interface and
/// nothing else.
pub proof fn lemma_snapshot_powers_off_each_active_wifi(
    m: RegistryModel,
    entries: Seq<SnapshotEntry>,
)
    requires
        m.wf(),
    ensures
        ({
            let (next, acts) = snapshot_step(m, entries);
            next.active_ethernets.len() > 0 && next.active_wifis.len() > 0 ==> {
                &&& acts.no_duplicates()
                &&& forall|i: int|
                    0 <= i < acts.len() ==> !(#[trigger] acts[i]).1 && next.active_wifis.contains(
                        acts[i].0,
                    )
                &&& forall|w: Seq<char>| #[trigger]
                    next.active_wifis.contains(w) ==> acts.contains((w, false))
            }
        }),
{
    let (next, acts) = snapshot_step(m, entries);
    lemma_record_all_wf(m, entries);
    lemma_power_all(next.active_wifis, false);
    if next.active_ethernets.len() > 0 && next.active_wifis.len() > 0 {
        assert forall|i: int| 0 <= i < acts.len() implies !(#[trigger] acts[i]).1
            && next.active_wifis.contains(acts[i].0) by {
            assert(acts[i] == (next.active_wifis[i], false));
        }
        assert forall|a: int, b: int| 0 <= a < b < acts.len() implies acts[a] != acts[b] by {
            assert(acts[a].0 == next.active_wifis[a]);
            assert(acts[b].0 == next.active_wifis[b]);
        }
    }
}

/// When a link change makes an Ethernet link newly active, every WiFi
/// interface that was active is sent a power-off, and none stays active.
pub proof fn lemma_ethernet_activation_powers_off_wifis(m: RegistryModel, id: Seq<char>)
    requires
        m.wf(),
        !m.wifis.contains(id),
        !m.active_ethernets.contains(id),
    ensures
        link_changed_step(m, id, true).0.active_ethernets.contains(id),
        link_changed_step(m, id, true).0.active_wifis.len() == 0,
        forall|w: Seq<char>| #[trigger]
            m.active_wifis.contains(w) ==> link_changed_step(m, id, true).1.contains((w, false)),
{
    lemma_with_id(m.ethernets, id);
    lemma_with_id(m.active_ethernets, id);
    lemma_power_all(m.active_wifis, false);
}

/// When the last active Ethernet interface is removed, every known WiFi
/// interface is sent a power-on.
pub proof fn lemma_last_ethernet_removal_powers_on_wifis(m: RegistryModel, id: Seq<char>)
    requires
        m.wf(),
        m.active_ethernets == seq![id],
    ensures
        link_removed_step(m, id).0.active_ethernets.len() == 0,
        forall|w: Seq<char>| #[trigger]
            m.wifis.contains(w) ==> link_removed_step(m, id).1.contains((w, true)),
{
    assert(m.active_ethernets[0] == id);
    assert(m.active_ethernets.contains(id));
    lemma_without_id(m.active_ethernets, id);
    let rest = without_id(m.active_ethernets, id);
    if rest.len() > 0 {
        assert(rest.contains(rest[0]));
    }
    lemma_power_all(m.wifis, true);
}

} // verus!
