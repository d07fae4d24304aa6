//! Registry of fullscreen spaces.
//!
//! Authoritative in-memory record of which window owns which dedicated
//! desktop. A record maps a window to the desktop it lived on before its
//! promotion and to the desktop that was synthesized to host it. All
//! operations are pure data-structure mutations plus the index-renumbering
//! arithmetic applied when a desktop disappears.

use vstd::prelude::*;
use vstd::string::*;

verus! {

/// An opaque, stable handle to an OS-level top-level window. It serves only
/// as an equality key; the library never dereferences or computes with it.
#[derive(Clone, Copy, PartialEq, Eq, Structural, Hash, Debug)]
pub struct WindowId {
    pub raw: usize,
}

/// One window currently occupying a dedicated fullscreen space.
#[derive(Clone, Copy, PartialEq, Eq, Structural, Debug)]
pub struct SpaceInfo {
    /// The promoted window.
    pub hwnd: WindowId,
    /// Desktop the window lived on before promotion; the exit transition
    /// returns the window there.
    pub original_desktop: u32,
    /// Desktop synthesized to host this window; the exit transition removes
    /// it.
    pub created_desktop: u32,
}

/// Desktop index `v` after the desktop at `deleted` has been removed from the
/// desktop list: indices above `deleted` shift down by one, the rest keep
/// their value. The result never goes below zero.
pub open spec fn shift_index(v: u32, deleted: u32) -> u32 {
    if v > deleted {
        (v - 1) as u32
    } else {
        v
    }
}

/// A whole record after the desktop at `deleted` has been removed: both of
/// its indices are shifted independently, the window handle is untouched.
pub open spec fn shifted_info(r: SpaceInfo, deleted: u32) -> SpaceInfo {
    SpaceInfo {
        hwnd: r.hwnd,
        original_desktop: shift_index(r.original_desktop, deleted),
        created_desktop: shift_index(r.created_desktop, deleted),
    }
}

/// No two records share a window handle.
spec fn unique_hwnds(s: Seq<SpaceInfo>) -> bool {
    forall|i: int, j: int| 0 <= i < j < s.len() ==> s[i].hwnd != s[j].hwnd
}

/// The mapping that a sequence of records stands for: later records win,
/// which matches last-write-wins registration.
spec fn registry_map(s: Seq<SpaceInfo>) -> Map<WindowId, SpaceInfo>
    decreases s.len(),
{
    if s.len() == 0 {
        Map::empty()
    } else {
        registry_map(s.drop_last()).insert(s.last().hwnd, s.last())
    }
}

/// A key is in the mapping exactly when some record carries it.
proof fn lemma_registry_map_contains(s: Seq<SpaceInfo>, w: WindowId)
    ensures
        registry_map(s).contains_key(w) <==> exists|i: int| 0 <= i < s.len() && s[i].hwnd == w,
    decreases s.len(),
{
    if s.len() > 0 {
        lemma_registry_map_contains(s.drop_last(), w);
        if s.last().hwnd == w {
            assert(s[s.len() - 1].hwnd == w);
        } else if registry_map(s).contains_key(w) {
            let i = choose|i: int| 0 <= i < s.drop_last().len() && s.drop_last()[i].hwnd == w;
            assert(s[i].hwnd == w);
        } else if exists|i: int| 0 <= i < s.len() && s[i].hwnd == w {
            let i = choose|i: int| 0 <= i < s.len() && s[i].hwnd == w;
            assert(s.drop_last()[i].hwnd == w);
        }
    }
}

/// With unique handles, the mapping returns exactly the record that carries
/// the key.
proof fn lemma_registry_map_get(s: Seq<SpaceInfo>, i: int)
    requires
        unique_hwnds(s),
        0 <= i < s.len(),
    ensures
        registry_map(s).contains_key(s[i].hwnd),
        registry_map(s)[s[i].hwnd] == s[i],
    decreases s.len(),
{
    if i == s.len() - 1 {
    } else {
        assert(unique_hwnds(s.drop_last())) by {
            assert(forall|a: int, b: int|
                0 <= a < b < s.drop_last().len() ==> s.drop_last()[a].hwnd != s.drop_last()[b].hwnd);
        }
        lemma_registry_map_get(s.drop_last(), i);
        assert(s.drop_last()[i] == s[i]);
        assert(s[i].hwnd != s.last().hwnd);
    }
}

/// With unique handles, the mapping has exactly one entry per record.
proof fn lemma_registry_map_len(s: Seq<SpaceInfo>)
    requires
        unique_hwnds(s),
    ensures
        registry_map(s).dom().finite(),
        registry_map(s).dom().len() == s.len(),
    decreases s.len(),
{
    if s.len() > 0 {
        assert(unique_hwnds(s.drop_last()));
        lemma_registry_map_len(s.drop_last());
        lemma_registry_map_contains(s.drop_last(), s.last().hwnd);
        assert(forall|i: int| 0 <= i < s.drop_last().len() ==> s.drop_last()[i] == s[i]);
        assert(!registry_map(s.drop_last()).contains_key(s.last().hwnd));
    }
}

/// Overwriting the record at `i` with one that carries the same handle keeps
/// the handles unique and updates the mapping in place.
proof fn lemma_registry_map_update(s: Seq<SpaceInfo>, i: int, r: SpaceInfo)
    requires
        unique_hwnds(s),
        0 <= i < s.len(),
        s[i].hwnd == r.hwnd,
    ensures
        unique_hwnds(s.update(i, r)),
        registry_map(s.update(i, r)) == registry_map(s).insert(r.hwnd, r),
{
    let t = s.update(i, r);
    assert(forall|a: int| 0 <= a < t.len() ==> t[a].hwnd == s[a].hwnd);
    assert(unique_hwnds(t));
    assert forall|w: WindowId|
        registry_map(t).contains_key(w) == registry_map(s).insert(r.hwnd, r).contains_key(w) by {
        lemma_registry_map_contains(t, w);
        lemma_registry_map_contains(s, w);
        if registry_map(t).contains_key(w) {
            let a = choose|a: int| 0 <= a < t.len() && t[a].hwnd == w;
            assert(s[a].hwnd == w);
        }
        if registry_map(s).contains_key(w) {
            let a = choose|a: int| 0 <= a < s.len() && s[a].hwnd == w;
            assert(t[a].hwnd == w);
        }
    }
    assert forall|w: WindowId| #[trigger] registry_map(t).contains_key(w)
        implies registry_map(t)[w] == registry_map(s).insert(r.hwnd, r)[w] by {
        lemma_registry_map_contains(t, w);
        let a = choose|a: int| 0 <= a < t.len() && t[a].hwnd == w;
        lemma_registry_map_get(t, a);
        if w == r.hwnd {
            assert(a == i);
        } else {
            assert(a != i);
            lemma_registry_map_get(s, a);
        }
    }
    assert(registry_map(t) =~= registry_map(s).insert(r.hwnd, r));
}

/// Appending a record with a fresh handle keeps the handles unique and adds
/// one entry to the mapping.
proof fn lemma_registry_map_push(s: Seq<SpaceInfo>, r: SpaceInfo)
    requires
        unique_hwnds(s),
        forall|i: int| 0 <= i < s.len() ==> s[i].hwnd != r.hwnd,
    ensures
        unique_hwnds(s.push(r)),
        registry_map(s.push(r)) == registry_map(s).insert(r.hwnd, r),
{
    let t = s.push(r);
    assert(forall|a: int| 0 <= a < s.len() ==> t[a] == s[a]);
    assert(unique_hwnds(t));
    assert(t.drop_last() =~= s);
    assert(t.last() == r);
}

/// Deleting the record at `i` keeps the handles unique and drops exactly its
/// entry from the mapping.
proof fn lemma_registry_map_delete(s: Seq<SpaceInfo>, i: int)
    requires
        unique_hwnds(s),
        0 <= i < s.len(),
    ensures
        unique_hwnds(s.remove(i)),
        registry_map(s.remove(i)) == registry_map(s).remove(s[i].hwnd),
{
    let t = s.remove(i);
    assert(forall|a: int| 0 <= a < i ==> t[a] == s[a]);
    assert(forall|a: int| i <= a < t.len() ==> t[a] == s[a + 1]);
    assert(unique_hwnds(t));
    assert forall|w: WindowId|
        registry_map(t).contains_key(w) == registry_map(s).remove(s[i].hwnd).contains_key(w) by {
        lemma_registry_map_contains(t, w);
        lemma_registry_map_contains(s, w);
        if registry_map(t).contains_key(w) {
            let a = choose|a: int| 0 <= a < t.len() && t[a].hwnd == w;
            if a < i {
                assert(s[a].hwnd == w);
            } else {
                assert(s[a + 1].hwnd == w);
            }
            assert(w != s[i].hwnd);
        }
        if registry_map(s).contains_key(w) && w != s[i].hwnd {
            let a = choose|a: int| 0 <= a < s.len() && s[a].hwnd == w;
            assert(a != i);
            if a < i {
                assert(t[a].hwnd == w);
            } else {
                assert(t[a - 1].hwnd == w);
            }
        }
    }
    assert forall|w: WindowId| #[trigger] registry_map(t).contains_key(w)
        implies registry_map(t)[w] == registry_map(s).remove(s[i].hwnd)[w] by {
        lemma_registry_map_contains(t, w);
        let a = choose|a: int| 0 <= a < t.len() && t[a].hwnd == w;
        lemma_registry_map_get(t, a);
        if a < i {
            lemma_registry_map_get(s, a);
        } else {
            lemma_registry_map_get(s, a + 1);
        }
    }
    assert(registry_map(t) =~= registry_map(s).remove(s[i].hwnd));
}

/// Shifting every record's indices keeps the handles unique and maps every
/// entry of the mapping through `shifted_info`.
proof fn lemma_registry_map_shift(s: Seq<SpaceInfo>, t: Seq<SpaceInfo>, deleted: u32)
    requires
        unique_hwnds(s),
        t.len() == s.len(),
        forall|a: int| 0 <= a < s.len() ==> t[a] == shifted_info(s[a], deleted),
    ensures
        unique_hwnds(t),
        registry_map(t) == registry_map(s).map_values(|r: SpaceInfo| shifted_info(r, deleted)),
{
    assert(forall|a: int| 0 <= a < t.len() ==> t[a].hwnd == s[a].hwnd);
    assert(unique_hwnds(t));
    let m = registry_map(s).map_values(|r: SpaceInfo| shifted_info(r, deleted));
    assert forall|w: WindowId| registry_map(t).contains_key(w) == m.contains_key(w) by {
        lemma_registry_map_contains(t, w);
        lemma_registry_map_contains(s, w);
        if registry_map(t).contains_key(w) {
            let a = choose|a: int| 0 <= a < t.len() && t[a].hwnd == w;
            assert(s[a].hwnd == w);
        }
        if registry_map(s).contains_key(w) {
            let a = choose|a: int| 0 <= a < s.len() && s[a].hwnd == w;
            assert(t[a].hwnd == w);
        }
    }
    assert forall|w: WindowId| #[trigger] registry_map(t).contains_key(w)
        implies registry_map(t)[w] == m[w] by {
        lemma_registry_map_contains(t, w);
        let a = choose|a: int| 0 <= a < t.len() && t[a].hwnd == w;
        lemma_registry_map_get(t, a);
        lemma_registry_map_get(s, a);
    }
    assert(registry_map(t) =~= m);
}

/// Authoritative map of window to fullscreen-space record: keys unique,
/// insertion order irrelevant.
pub struct SpaceRegistry {
    spaces: Vec<SpaceInfo>,
}

impl View for SpaceRegistry {
    type V = Map<WindowId, SpaceInfo>;

    closed spec fn view(&self) -> Map<WindowId, SpaceInfo> {
        registry_map(self.spaces@)
    }
}

impl SpaceRegistry {
    /// Each stored record carries its own key, and no key repeats.
    pub closed spec fn wf(&self) -> bool {
        unique_hwnds(self.spaces@)
    }

    /// Creates an empty registry.
    pub fn new() -> (r: SpaceRegistry)
        ensures
            r.wf(),
            r@ == Map::<WindowId, SpaceInfo>::empty(),
    {
        SpaceRegistry { spaces: Vec::new() }
    }

    /// Index of the record that carries `hwnd`, if any.
    fn find_index(&self, hwnd: WindowId) -> (r: Option<usize>)
        ensures
            match r {
                Some(i) => i < self.spaces@.len() && self.spaces@[i as int].hwnd == hwnd,
                None => forall|i: int| 0 <= i < self.spaces@.len() ==> self.spaces@[i].hwnd != hwnd,
            },
    {
        let mut i: usize = 0;
        while i < self.spaces.len()
            invariant
                i <= self.spaces@.len(),
                forall|j: int| 0 <= j < i ==> self.spaces@[j].hwnd != hwnd,
            decreases self.spaces@.len() - i,
        {
            if self.spaces[i].hwnd == hwnd {
                return Some(i);
            }
            i = i + 1;
        }
        None
    }

    /// Whether the window is in the registry.
    pub fn contains(&self, hwnd: WindowId) -> (r: bool)
        requires
            self.wf(),
        ensures
            r == self@.contains_key(hwnd),
    {
        proof {
            lemma_registry_map_contains(self.spaces@, hwnd);
        }
        self.find_index(hwnd).is_some()
    }

    /// Whether the window currently owns a fullscreen space; a pure lookup.
    pub fn is_fullscreen_space(&self, hwnd: WindowId) -> (r: bool)
        requires
            self.wf(),
        ensures
            r == self@.contains_key(hwnd),
    {
        self.contains(hwnd)
    }

    /// The record for the window, by value, or `None` if it is absent.
    pub fn get(&self, hwnd: WindowId) -> (r: Option<SpaceInfo>)
        requires
            self.wf(),
        ensures
            self@.contains_key(hwnd) ==> r == Some(self@[hwnd]) && self@[hwnd].hwnd == hwnd,
            !self@.contains_key(hwnd) ==> r is None,
    {
        proof {
            lemma_registry_map_contains(self.spaces@, hwnd);
        }
        match self.find_index(hwnd) {
            Some(i) => {
                proof {
                    lemma_registry_map_get(self.spaces@, i as int);
                }
                Some(self.spaces[i])
            },
            None => None,
        }
    }

    /// Registers a fullscreen space for the window, last write wins: a
    /// record already held for the window is silently overwritten.
    pub fn register(&mut self, hwnd: WindowId, original_desktop: u32, created_desktop: u32)
        requires
            old(self).wf(),
        ensures
            final(self).wf(),
            final(self)@ == old(self)@.insert(
                hwnd,
                SpaceInfo { hwnd, original_desktop, created_desktop },
            ),
    {
        let info = SpaceInfo { hwnd, original_desktop, created_desktop };
        match self.find_index(hwnd) {
            Some(i) => {
                proof {
                    lemma_registry_map_update(self.spaces@, i as int, info);
                }
                self.spaces.set(i, info);
            },
            None => {
                proof {
                    lemma_registry_map_push(self.spaces@, info);
                }
                self.spaces.push(info);
            },
        }
    }

    /// Deletes and returns the record for the window; `None`, and no change,
    /// if it was absent. Never an error.
    pub fn remove(&mut self, hwnd: WindowId) -> (r: Option<SpaceInfo>)
        requires
            old(self).wf(),
        ensures
            final(self).wf(),
            old(self)@.contains_key(hwnd) ==> r == Some(old(self)@[hwnd]),
            !old(self)@.contains_key(hwnd) ==> r is None,
            final(self)@ == old(self)@.remove(hwnd),
    {
        proof {
            lemma_registry_map_contains(self.spaces@, hwnd);
        }
        match self.find_index(hwnd) {
            Some(i) => {
                proof {
                    lemma_registry_map_get(self.spaces@, i as int);
                    lemma_registry_map_delete(self.spaces@, i as int);
                }
                Some(self.spaces.remove(i))
            },
            None => {
                proof {
                    assert(self@ =~= self@.remove(hwnd));
                }
                None
            },
        }
    }

    /// Renumbers every record after the desktop at `deleted_index` has been
    /// removed from the underlying desktop list: each stored index greater
    /// than `deleted_index` drops by one, the rest keep their value. Must run
    /// once per desktop removal, before any later lookup.
    pub fn update_indices_after_delete(&mut self, deleted_index: u32)
        requires
            old(self).wf(),
        ensures
            final(self).wf(),
            final(self)@ == old(self)@.map_values(
                |r: SpaceInfo| shifted_info(r, deleted_index),
            ),
    {
        let ghost s = self.spaces@;
        let mut i: usize = 0;
        while i < self.spaces.len()
            invariant
                i <= self.spaces@.len(),
                self.spaces@.len() == s.len(),
                forall|j: int| 0 <= j < i ==> self.spaces@[j] == shifted_info(s[j], deleted_index),
                forall|j: int| i <= j < s.len() ==> self.spaces@[j] == s[j],
            decreases self.spaces@.len() - i,
        {
            let r = self.spaces[i];
            let original_desktop = if r.original_desktop > deleted_index {
                r.original_desktop - 1
            } else {
                r.original_desktop
            };
            let created_desktop = if r.created_desktop > deleted_index {
                r.created_desktop - 1
            } else {
                r.created_desktop
            };
            self.spaces.set(i, SpaceInfo { hwnd: r.hwnd, original_desktop, created_desktop });
            i = i + 1;
        }
        proof {
            lemma_registry_map_shift(s, self.spaces@, deleted_index);
        }
    }

    /// Handles of all registered windows, each exactly once, in no promised
    /// order.
    pub fn all_hwnds(&self) -> (r: Vec<WindowId>)
        requires
            self.wf(),
        ensures
            forall|w: WindowId| r@.contains(w) <==> self@.contains_key(w),
            forall|i: int, j: int| 0 <= i < j < r@.len() ==> r@[i] != r@[j],
            r@.len() == self@.dom().len(),
    {
        let mut r: Vec<WindowId> = Vec::new();
        let mut i: usize = 0;
        while i < self.spaces.len()
            invariant
                i <= self.spaces@.len(),
                r@.len() == i,
                forall|j: int| 0 <= j < i ==> r@[j] == self.spaces@[j].hwnd,
            decreases self.spaces@.len() - i,
        {
            r.push(self.spaces[i].hwnd);
            i = i + 1;
        }
        proof {
            lemma_registry_map_len(self.spaces@);
            assert forall|w: WindowId| r@.contains(w) == self@.contains_key(w) by {
                lemma_registry_map_contains(self.spaces@, w);
                if r@.contains(w) {
                    let a = choose|a: int| 0 <= a < r@.len() && r@[a] == w;
                    assert(self.spaces@[a].hwnd == w);
                }
                if self@.contains_key(w) {
                    let a = choose|a: int| 0 <= a < self.spaces@.len() && self.spaces@[a].hwnd == w;
                    assert(r@[a] == w);
                }
            }
        }
        r
    }

    /// Number of registered spaces.
    pub fn len(&self) -> (r: usize)
        requires
            self.wf(),
        ensures
            r == self@.dom().len(),
    {
        proof {
            lemma_registry_map_len(self.spaces@);
        }
        self.spaces.len()
    }

    /// Whether no space is registered.
    pub fn is_empty(&self) -> (r: bool)
        requires
            self.wf(),
        ensures
            r <==> self@ == Map::<WindowId, SpaceInfo>::empty(),
            r <==> self@.dom().len() == 0,
    {
        proof {
            lemma_registry_map_len(self.spaces@);
            if self.spaces@.len() == 0 {
                assert(self@ =~= Map::<WindowId, SpaceInfo>::empty());
            } else {
                lemma_registry_map_get(self.spaces@, 0);
            }
        }
        self.spaces.len() == 0
    }

    /// Human-readable dump of the registry's contents: a read-only
    /// diagnostic that reflects the current state, with no promise beyond
    /// that.
    pub fn debug_info(&self) -> (r: String)
        requires
            self.wf(),
    {
        if self.spaces.len() == 0 {
            return String::from_str("no fullscreen space registered");
        }
        let mut r = String::from_str("registered ");
        r.append(decimal_string(self.spaces.len() as u64).as_str());
        r.append(" fullscreen space(s):\n");
        let mut i: usize = 0;
        while i < self.spaces.len()
            invariant
                self.wf(),
            decreases self.spaces@.len() - i,
        {
            let info = self.spaces[i];
            r.append("  - hwnd=");
            r.append(decimal_string(info.hwnd.raw as u64).as_str());
            r.append(", original desktop=");
            r.append(decimal_string(info.original_desktop as u64).as_str());
            r.append(", created desktop=");
            r.append(decimal_string(info.created_desktop as u64).as_str());
            r.append("\n");
            i = i + 1;
        }
        r
    }
}

/// The character for one decimal digit.
pub open spec fn spec_digit(d: int) -> char {
    if d == 0 {
        '0'
    } else if d == 1 {
        '1'
    } else if d == 2 {
        '2'
    } else if d == 3 {
        '3'
    } else if d == 4 {
        '4'
    } else if d == 5 {
        '5'
    } else if d == 6 {
        '6'
    } else if d == 7 {
        '7'
    } else if d == 8 {
        '8'
    } else {
        '9'
    }
}

/// The decimal digits of `n`, most significant first, with no leading zero
/// except for `n == 0` itself.
pub open spec fn spec_decimal(n: int) -> Seq<char>
    decreases n,
{
    if n < 10 {
        seq![spec_digit(n)]
    } else {
        spec_decimal(n / 10).push(spec_digit(n % 10))
    }
}

/// The one-character string for a decimal digit.
fn digit_str(d: u64) -> (s: &'static str)
    requires
        d < 10,
    ensures
        s@ == seq![spec_digit(d as int)],
{
    proof {
        reveal_strlit("0");
        reveal_strlit("1");
        reveal_strlit("2");
        reveal_strlit("3");
        reveal_strlit("4");
        reveal_strlit("5");
        reveal_strlit("6");
        reveal_strlit("7");
        reveal_strlit("8");
        reveal_strlit("9");
    }
    if d == 0 {
        "0"
    } else if d == 1 {
        "1"
    } else if d == 2 {
        "2"
    } else if d == 3 {
        "3"
    } else if d == 4 {
        "4"
    } else if d == 5 {
        "5"
    } else if d == 6 {
        "6"
    } else if d == 7 {
        "7"
    } else if d == 8 {
        "8"
    } else {
        "9"
    }
}

/// Renders `n` in decimal.
pub fn decimal_string(n: u64) -> (s: String)
    ensures
        s@ == spec_decimal(n as int),
    decreases n,
{
    let d = digit_str(n % 10);
    if n < 10 {
        String::from_str(d)
    } else {
        let mut s = decimal_string(n / 10);
        s.append(d);
        proof {
            assert(s@ =~= spec_decimal(n as int));
        }
        s
    }
}

/// Index renumbering invariant: after the renumbering for a removed desktop,
/// every stored index that was above the removed one is exactly one less,
/// every index below it is unchanged, the window handle is untouched, and no
/// index ever becomes negative.
pub proof fn lemma_renumbering_invariant(m: Map<WindowId, SpaceInfo>, deleted: u32, w: WindowId)
    requires
        m.contains_key(w),
    ensures
        m.map_values(|r: SpaceInfo| shifted_info(r, deleted)).dom() == m.dom(),
        m.map_values(|r: SpaceInfo| shifted_info(r, deleted))[w].hwnd == m[w].hwnd,
        m[w].original_desktop > deleted ==> m.map_values(
            |r: SpaceInfo| shifted_info(r, deleted),
        )[w].original_desktop == m[w].original_desktop - 1,
        m[w].original_desktop <= deleted ==> m.map_values(
            |r: SpaceInfo| shifted_info(r, deleted),
        )[w].original_desktop == m[w].original_desktop,
        m[w].created_desktop > deleted ==> m.map_values(
            |r: SpaceInfo| shifted_info(r, deleted),
        )[w].created_desktop == m[w].created_desktop - 1,
        m[w].created_desktop <= deleted ==> m.map_values(
            |r: SpaceInfo| shifted_info(r, deleted),
        )[w].created_desktop == m[w].created_desktop,
        m.map_values(|r: SpaceInfo| shifted_info(r, deleted))[w].original_desktop >= 0,
        m.map_values(|r: SpaceInfo| shifted_info(r, deleted))[w].created_desktop >= 0,
{
}

/// Idempotent absence: a window that was just removed is as absent as one
/// that was never registered, so `remove`, `get` and `contains` answer the
/// same on both registries (their contracts branch only on key membership,
/// which is false in either state).
pub proof fn lemma_absence_idempotent(m: Map<WindowId, SpaceInfo>, w: WindowId)
    ensures
        !m.remove(w).contains_key(w),
        !Map::<WindowId, SpaceInfo>::empty().contains_key(w),
        m.remove(w).remove(w) == m.remove(w),
{
    assert(m.remove(w).remove(w) =~= m.remove(w));
}

impl Default for SpaceRegistry {
    /// An empty registry.
    fn default() -> (r: SpaceRegistry)
        ensures
            r.wf(),
            r@ == Map::<WindowId, SpaceInfo>::empty(),
    {
        SpaceRegistry::new()
    }
}

} // verus!
