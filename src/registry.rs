use vstd::prelude::*;

use crate::interface::InterfaceKind;

verus! {

/// The identifiers held by a list of interface names.
pub open spec fn ids(v: &Vec<String>) -> Seq<Seq<char>> {
    v@.map_values(|s: String| s@)
}

/// `s` with `id` appended, unless it is already there.
pub open spec fn with_id(s: Seq<Seq<char>>, id: Seq<char>) -> Seq<Seq<char>> {
    if s.contains(id) {
        s
    } else {
        s.push(id)
    }
}

/// Holds of every identifier but `id`.
pub open spec fn other_than(id: Seq<char>) -> spec_fn(Seq<char>) -> bool {
    |x: Seq<char>| x != id
}

/// `s` with every occurrence of `id` taken out, the rest in order.
pub open spec fn without_id(s: Seq<Seq<char>>, id: Seq<char>) -> Seq<Seq<char>> {
    s.filter(other_than(id))
}

/// The abstract state of a registry: four lists of identifiers, each without
/// repetition, kept in the order in which the identifiers were added.
pub ghost struct RegistryModel {
    pub ethernets: Seq<Seq<char>>,
    pub wifis: Seq<Seq<char>>,
    pub active_ethernets: Seq<Seq<char>>,
    pub active_wifis: Seq<Seq<char>>,
}

impl RegistryModel {
    pub open spec fn empty() -> RegistryModel {
        RegistryModel {
            ethernets: Seq::empty(),
            wifis: Seq::empty(),
            active_ethernets: Seq::empty(),
            active_wifis: Seq::empty(),
        }
    }

    /// Active links are known links of their kind, and no identifier has two kinds.
    pub open spec fn wf(self) -> bool {
        &&& self.ethernets.no_duplicates()
        &&& self.wifis.no_duplicates()
        &&& self.active_ethernets.no_duplicates()
        &&& self.active_wifis.no_duplicates()
        &&& forall|x: Seq<char>| #[trigger]
            self.active_ethernets.contains(x) ==> self.ethernets.contains(x)
        &&& forall|x: Seq<char>| #[trigger]
            self.active_wifis.contains(x) ==> self.wifis.contains(x)
        &&& forall|x: Seq<char>| #[trigger]
            self.ethernets.contains(x) ==> !self.wifis.contains(x)
    }

    pub open spec fn knows(self, id: Seq<char>) -> bool {
        self.ethernets.contains(id) || self.wifis.contains(id)
    }

    /// Records `id` under `kind`, and as active if `active`. An `Other` interface
    /// is not recorded, and an identifier already known under the other kind
    /// keeps its first classification.
    pub open spec fn record(self, id: Seq<char>, kind: InterfaceKind, active: bool) -> RegistryModel {
        match kind {
            InterfaceKind::Ethernet => if self.wifis.contains(id) {
                self
            } else {
                RegistryModel {
                    ethernets: with_id(self.ethernets, id),
                    active_ethernets: if active {
                        with_id(self.active_ethernets, id)
                    } else {
                        self.active_ethernets
                    },
                    ..self
                }
            },
            InterfaceKind::Wifi => if self.ethernets.contains(id) {
                self
            } else {
                RegistryModel {
                    wifis: with_id(self.wifis, id),
                    active_wifis: if active {
                        with_id(self.active_wifis, id)
                    } else {
                        self.active_wifis
                    },
                    ..self
                }
            },
            InterfaceKind::Other => self,
        }
    }

    /// Puts `id` into, or takes it out of, the active list of its kind; an
    /// unknown `id` changes nothing.
    pub open spec fn set_active(self, id: Seq<char>, active: bool) -> RegistryModel {
        if self.ethernets.contains(id) {
            RegistryModel {
                active_ethernets: if active {
                    with_id(self.active_ethernets, id)
                } else {
                    without_id(self.active_ethernets, id)
                },
                ..self
            }
        } else if self.wifis.contains(id) {
            RegistryModel {
                active_wifis: if active {
                    with_id(self.active_wifis, id)
                } else {
                    without_id(self.active_wifis, id)
                },
                ..self
            }
        } else {
            self
        }
    }

    /// Takes `id` out of all four lists.
    pub open spec fn forget(self, id: Seq<char>) -> RegistryModel {
        RegistryModel {
            ethernets: without_id(self.ethernets, id),
            wifis: without_id(self.wifis, id),
            active_ethernets: without_id(self.active_ethernets, id),
            active_wifis: without_id(self.active_wifis, id),
        }
    }

    /// No WiFi link is active any more.
    pub open spec fn drain_wifis(self) -> RegistryModel {
        RegistryModel { active_wifis: Seq::empty(), ..self }
    }
}

/// Filtering keeps what passes, drops what does not, and adds no repetition.
pub proof fn lemma_without_id(s: Seq<Seq<char>>, id: Seq<char>)
    ensures
        forall|x: Seq<char>| #[trigger]
            without_id(s, id).contains(x) <==> (s.contains(x) && x != id),
        s.no_duplicates() ==> without_id(s, id).no_duplicates(),
        !s.contains(id) ==> without_id(s, id) == s,
    decreases s.len(),
{
    let p = other_than(id);
    reveal(Seq::filter);
    if s.len() == 0 {
        assert(without_id(s, id) =~= s);
    } else {
        let t = s.drop_last();
        lemma_without_id(t, id);
        assert(s =~= t.push(s.last()));
        t.lemma_filter_push(s.last(), p);
        assert forall|x: Seq<char>| #[trigger]
            without_id(s, id).contains(x) <==> (s.contains(x) && x != id) by {
            if s.contains(x) && x != id {
                let j = choose|j: int| 0 <= j < s.len() && s[j] == x;
                if j < t.len() {
                    assert(t[j] == x);
                } else {
                    assert(without_id(s, id).last() == x);
                }
            }
            if without_id(s, id).contains(x) && x != s.last() {
                assert(without_id(t, id).contains(x));
            }
        }
        if s.no_duplicates() {
            assert(t.no_duplicates());
            assert(!t.contains(s.last())) by {
                if t.contains(s.last()) {
                    let j = choose|j: int| 0 <= j < t.len() && t[j] == s.last();
                    assert(s[j] == s[s.len() - 1]);
                }
            }
            assert(!without_id(t, id).contains(s.last()));
            if p(s.last()) {
                assert(without_id(s, id) == without_id(t, id).push(s.last()));
                assert forall|a: int, b: int|
                    0 <= a < b < without_id(s, id).len() implies without_id(s, id)[a]
                        != without_id(s, id)[b] by {
                    if b == without_id(t, id).len() {
                        assert(without_id(t, id).contains(without_id(s, id)[a]));
                    }
                }
            }
        }
        if !s.contains(id) {
            assert(!t.contains(id)) by {
                if t.contains(id) {
                    let j = choose|j: int| 0 <= j < t.len() && t[j] == id;
                    assert(s[j] == id);
                }
            }
        }
    }
}

pub proof fn lemma_with_id(s: Seq<Seq<char>>, id: Seq<char>)
    ensures
        forall|x: Seq<char>| #[trigger] with_id(s, id).contains(x) <==> (s.contains(x) || x == id),
        s.no_duplicates() ==> with_id(s, id).no_duplicates(),
{
    if !s.contains(id) {
        assert forall|x: Seq<char>| #[trigger]
            with_id(s, id).contains(x) <==> (s.contains(x) || x == id) by {
            if with_id(s, id).contains(x) && x != id {
                let j = choose|j: int| 0 <= j < s.len() + 1 && with_id(s, id)[j] == x;
                assert(s[j] == x);
            }
            if s.contains(x) {
                let j = choose|j: int| 0 <= j < s.len() && s[j] == x;
                assert(with_id(s, id)[j] == x);
            }
            if x == id {
                assert(with_id(s, id)[s.len() as int] == x);
            }
        }
    }
}

/// Recording an interface keeps the registry well formed.
pub proof fn lemma_record_wf(m: RegistryModel, id: Seq<char>, kind: InterfaceKind, active: bool)
    requires
        m.wf(),
    ensures
        m.record(id, kind, active).wf(),
{
    lemma_with_id(m.ethernets, id);
    lemma_with_id(m.wifis, id);
    lemma_with_id(m.active_ethernets, id);
    lemma_with_id(m.active_wifis, id);
}

/// Marking a link active or inactive keeps the registry well formed.
pub proof fn lemma_set_active_wf(m: RegistryModel, id: Seq<char>, active: bool)
    requires
        m.wf(),
    ensures
        m.set_active(id, active).wf(),
{
    lemma_with_id(m.active_ethernets, id);
    lemma_with_id(m.active_wifis, id);
    lemma_without_id(m.active_ethernets, id);
    lemma_without_id(m.active_wifis, id);
}

/// The classified interfaces and which of them have an active link.
pub struct Registry {
    ethernets: Vec<String>,
    wifis: Vec<String>,
    active_ethernets: Vec<String>,
    active_wifis: Vec<String>,
}

impl View for Registry {
    type V = RegistryModel;

    closed spec fn view(&self) -> RegistryModel {
        RegistryModel {
            ethernets: ids(&self.ethernets),
            wifis: ids(&self.wifis),
            active_ethernets: ids(&self.active_ethernets),
            active_wifis: ids(&self.active_wifis),
        }
    }
}

/// Whether `id` is in the list.
fn contains_id(v: &Vec<String>, id: &String) -> (r: bool)
    ensures
        r == ids(v).contains(id@),
{
    let mut i: usize = 0;
    while i < v.len()
        invariant
            i <= v.len(),
            forall|j: int| 0 <= j < i ==> ids(v)[j] != id@,
        decreases v.len() - i,
    {
        if v[i] == *id {
            assert(ids(v)[i as int] == id@);
            return true;
        }
        i = i + 1;
    }
    false
}

/// Appends `id` unless it is already in the list.
fn add_id(v: &mut Vec<String>, id: &String)
    ensures
        ids(final(v)) == with_id(ids(old(v)), id@),
{
    if !contains_id(v, id) {
        v.push(id.clone());
        assert(ids(v) =~= ids(old(v)).push(id@));
    }
}

/// Takes every occurrence of `id` out of the list.
fn remove_id(v: &mut Vec<String>, id: &String)
    ensures
        ids(final(v)) == without_id(ids(old(v)), id@),
{
    let mut kept: Vec<String> = Vec::new();
    let mut i: usize = 0;
    while i < v.len()
        invariant
            i <= v.len(),
            ids(&kept) == without_id(ids(v).take(i as int), id@),
        decreases v.len() - i,
    {
        proof {
            assert(ids(v).take(i + 1) =~= ids(v).take(i as int).push(ids(v)[i as int]));
            ids(v).take(i as int).lemma_filter_push(ids(v)[i as int], other_than(id@));
        }
        let same: bool = v[i] == *id;
        if !same {
            let s = v[i].clone();
            assert(s@ == ids(v)[i as int]);
            kept.push(s);
            assert(ids(&kept) =~= without_id(ids(v).take(i as int), id@).push(ids(v)[i as int]));
        } else {
            assert(ids(v)[i as int] == id@);
            assert(!other_than(id@)(ids(v)[i as int]));
        }
        i = i + 1;
    }
    assert(ids(v).take(v.len() as int) =~= ids(v));
    *v = kept;
}

/// A copy of the list.
fn copy_ids(v: &Vec<String>) -> (r: Vec<String>)
    ensures
        ids(&r) == ids(v),
{
    let mut r: Vec<String> = Vec::new();
    let mut i: usize = 0;
    while i < v.len()
        invariant
            i <= v.len(),
            ids(&r) == ids(v).take(i as int),
        decreases v.len() - i,
    {
        let s = v[i].clone();
        assert(s@ == ids(v)[i as int]);
        let ghost before = ids(&r);
        r.push(s);
        assert(ids(&r).len() == before.len() + 1);
        assert(ids(&r)[i as int] == s@);
        assert(ids(&r) =~= ids(v).take(i + 1));
        i = i + 1;
    }
    assert(ids(v).take(v.len() as int) =~= ids(v));
    r
}

impl Registry {
    /// A registry that knows no interface.
    pub fn new() -> (r: Registry)
        ensures
            r@ == RegistryModel::empty(),
            r@.wf(),
    {
        let r = Registry {
            ethernets: Vec::new(),
            wifis: Vec::new(),
            active_ethernets: Vec::new(),
            active_wifis: Vec::new(),
        };
        assert(ids(&r.ethernets) =~= Seq::empty());
        assert(ids(&r.wifis) =~= Seq::empty());
        assert(ids(&r.active_ethernets) =~= Seq::empty());
        assert(ids(&r.active_wifis) =~= Seq::empty());
        r
    }

    /// Records `id` under `kind`, and as active if `active`; doing it twice
    /// changes nothing more.
    pub fn classify_and_record(&mut self, id: &String, kind: InterfaceKind, active: bool)
        requires
            old(self)@.wf(),
        ensures
            final(self)@ == old(self)@.record(id@, kind, active),
            final(self)@.wf(),
    {
        proof {
            lemma_record_wf(self@, id@, kind, active);
        }
        match kind {
            InterfaceKind::Ethernet => {
                if !contains_id(&self.wifis, id) {
                    add_id(&mut self.ethernets, id);
                    if active {
                        add_id(&mut self.active_ethernets, id);
                    }
                }
            },
            InterfaceKind::Wifi => {
                if !contains_id(&self.ethernets, id) {
                    add_id(&mut self.wifis, id);
                    if active {
                        add_id(&mut self.active_wifis, id);
                    }
                }
            },
            InterfaceKind::Other => {},
        }
    }

    fn set_active(&mut self, id: &String, active: bool)
        requires
            old(self)@.wf(),
        ensures
            final(self)@ == old(self)@.set_active(id@, active),
            final(self)@.wf(),
    {
        proof {
            lemma_set_active_wf(self@, id@, active);
        }
        if contains_id(&self.ethernets, id) {
            if active {
                add_id(&mut self.active_ethernets, id);
            } else {
                remove_id(&mut self.active_ethernets, id);
            }
        } else if contains_id(&self.wifis, id) {
            if active {
                add_id(&mut self.active_wifis, id);
            } else {
                remove_id(&mut self.active_wifis, id);
            }
        }
    }

    /// Marks the link of `id` active; an unknown `id` changes nothing.
    pub fn mark_active(&mut self, id: &String)
        requires
            old(self)@.wf(),
        ensures
            final(self)@ == old(self)@.set_active(id@, true),
            final(self)@.wf(),
    {
        self.set_active(id, true)
    }

    /// Marks the link of `id` inactive; an unknown `id` changes nothing.
    pub fn mark_inactive(&mut self, id: &String)
        requires
            old(self)@.wf(),
        ensures
            final(self)@ == old(self)@.set_active(id@, false),
            final(self)@.wf(),
    {
        self.set_active(id, false)
    }

    /// Removes `id` from the registry altogether.
    pub fn forget(&mut self, id: &String)
        requires
            old(self)@.wf(),
        ensures
            final(self)@ == old(self)@.forget(id@),
            final(self)@.wf(),
    {
        proof {
            lemma_without_id(self@.ethernets, id@);
            lemma_without_id(self@.wifis, id@);
            lemma_without_id(self@.active_ethernets, id@);
            lemma_without_id(self@.active_wifis, id@);
        }
        remove_id(&mut self.ethernets, id);
        remove_id(&mut self.wifis, id);
        remove_id(&mut self.active_ethernets, id);
        remove_id(&mut self.active_wifis, id);
    }

    /// Marks every WiFi link inactive.
    pub fn drain_wifis(&mut self)
        requires
            old(self)@.wf(),
        ensures
            final(self)@ == old(self)@.drain_wifis(),
            final(self)@.wf(),
    {
        self.active_wifis = Vec::new();
        assert(ids(&self.active_wifis) =~= Seq::empty());
    }

    pub fn has_any_active_ethernet(&self) -> (r: bool)
        ensures
            r == (self@.active_ethernets.len() > 0),
    {
        self.active_ethernets.len() > 0
    }

    pub fn has_any_active_wifi(&self) -> (r: bool)
        ensures
            r == (self@.active_wifis.len() > 0),
    {
        self.active_wifis.len() > 0
    }

    pub fn is_ethernet(&self, id: &String) -> (r: bool)
        ensures
            r == self@.ethernets.contains(id@),
    {
        contains_id(&self.ethernets, id)
    }

    pub fn is_wifi(&self, id: &String) -> (r: bool)
        ensures
            r == self@.wifis.contains(id@),
    {
        contains_id(&self.wifis, id)
    }

    pub fn is_active_ethernet(&self, id: &String) -> (r: bool)
        ensures
            r == self@.active_ethernets.contains(id@),
    {
        contains_id(&self.active_ethernets, id)
    }

    pub fn ethernet_ids(&self) -> (r: Vec<String>)
        ensures
            ids(&r) == self@.ethernets,
    {
        copy_ids(&self.ethernets)
    }

    pub fn wifi_ids(&self) -> (r: Vec<String>)
        ensures
            ids(&r) == self@.wifis,
    {
        copy_ids(&self.wifis)
    }

    pub fn active_ethernet_ids(&self) -> (r: Vec<String>)
        ensures
            ids(&r) == self@.active_ethernets,
    {
        copy_ids(&self.active_ethernets)
    }

    pub fn active_wifi_ids(&self) -> (r: Vec<String>)
        ensures
            ids(&r) == self@.active_wifis,
    {
        copy_ids(&self.active_wifis)
    }
}

} // verus!
