use vstd::prelude::*;

use crate::arbiter::Event;

verus! {

/// How an interface was classified when it was first seen.
#[derive(Clone, Copy, Debug, PartialEq, Eq, Structural)]
pub enum InterfaceKind {
    Ethernet,
    Wifi,
    Other,
}

/// The kind that an enumeration type tag stands for.
pub open spec fn kind_of_tag(tag: Seq<char>) -> InterfaceKind {
    if tag == "Ethernet"@ {
        InterfaceKind::Ethernet
    } else if tag == "IEEE80211"@ {
        InterfaceKind::Wifi
    } else {
        InterfaceKind::Other
    }
}

pub open spec fn key_prefix() -> Seq<char> {
    "State:/Network/Interface/"@
}

pub open spec fn key_suffix() -> Seq<char> {
    "/Link"@
}

/// The dynamic-store key under which the link state of `id` is published.
pub open spec fn key_of(id: Seq<char>) -> Seq<char> {
    key_prefix() + id + key_suffix()
}

/// Whether `pat` occurs in `s` starting at character `at`.
fn matches_at(s: &str, pat: &str, at: usize) -> (r: bool)
    requires
        at <= s@.len(),
    ensures
        r == (at + pat@.len() <= s@.len() && s@.subrange(at as int, at + pat@.len()) == pat@),
{
    let n = s.unicode_len();
    let m = pat.unicode_len();
    if m > n - at {
        return false;
    }
    let mut i: usize = 0;
    while i < m
        invariant
            i <= m,
            m == pat@.len(),
            n == s@.len(),
            at + m <= n,
            forall|j: int| 0 <= j < i ==> s@[at + j] == pat@[j],
        decreases m - i,
    {
        if s.get_char(at + i) != pat.get_char(i) {
            assert(s@.subrange(at as int, at + m)[i as int] != pat@[i as int]);
            return false;
        }
        i = i + 1;
    }
    assert(s@.subrange(at as int, at + m) =~= pat@);
    true
}

/// Whether the two strings hold the same characters.
fn same_text(a: &str, b: &str) -> (r: bool)
    ensures
        r == (a@ == b@),
{
    if a.unicode_len() != b.unicode_len() {
        return false;
    }
    let r = matches_at(a, b, 0);
    assert(a@.subrange(0, a@.len() as int) =~= a@);
    r
}

impl InterfaceKind {
    /// Classifies an enumeration type tag: "Ethernet" is Ethernet, "IEEE80211"
    /// is WiFi, anything else is Other.
    pub fn from_tag(tag: &str) -> (r: InterfaceKind)
        ensures
            r == kind_of_tag(tag@),
    {
        if same_text(tag, "Ethernet") {
            InterfaceKind::Ethernet
        } else if same_text(tag, "IEEE80211") {
            InterfaceKind::Wifi
        } else {
            InterfaceKind::Other
        }
    }
}

/// The key under which the link state of `id` is published.
pub fn link_state_key(id: &str) -> (r: String)
    ensures
        r@ == key_of(id@),
{
    let r = String::from_str("State:/Network/Interface/").concat(id).concat("/Link");
    assert(r@ =~= key_of(id@));
    r
}

/// The interface that a link-state key names, if it is such a key.
pub fn id_from_key(key: &str) -> (r: Option<String>)
    ensures
        match r {
            Some(id) => key@ == key_of(id@),
            None => forall|id: Seq<char>| key@ != #[trigger] key_of(id),
        },
{
    let n = key.unicode_len();
    let p = "State:/Network/Interface/".unicode_len();
    let s = "/Link".unicode_len();
    if n < p || n - p < s || !matches_at(key, "State:/Network/Interface/", 0) || !matches_at(
        key,
        "/Link",
        n - s,
    ) {
        assert forall|id: Seq<char>| key@ != #[trigger] key_of(id) by {
            if key@ == key_of(id) {
                assert(key_of(id).subrange(0, p as int) =~= key_prefix());
                assert(key_of(id).subrange(n - s, n as int) =~= key_suffix());
            }
        }
        return None;
    }
    let middle = key.substring_char(p, n - s);
    let id = String::from_str(middle);
    assert(key@ =~= key_of(id@)) by {
        assert(key@.subrange(0, p as int) == key_prefix());
        assert(key@.subrange(n - s, n as int) == key_suffix());
    }
    Some(id)
}

/// The event that a link-state query answers for `id`: the link state if the
/// interface still has one, else its removal.
pub fn event_for_link_state(id: String, state: Option<bool>) -> (r: Event)
    ensures
        r == (match state {
            Some(active) => Event::LinkChanged(id, active),
            None => Event::LinkRemoved(id),
        }),
{
    match state {
        Some(active) => Event::LinkChanged(id, active),
        None => Event::LinkRemoved(id),
    }
}

} // verus!
