use vstd::prelude::*;

use crate::game_info::{resolution_family, Platform, ResolutionFamily, Size, UI};
use crate::text::str_equal;

verus! {

broadcast use vstd::string::group_string_axioms;

/// The layout that a recorded value was measured on.
#[derive(Clone, Copy, Debug, Hash, PartialEq, Eq, Structural)]
pub struct ProfileKey {
    pub size: Size,
    pub ui: UI,
    pub platform: Platform,
}

/// One recorded value: its name, the layout it was measured on, and the value.
pub struct WindowInfoEntry<T> {
    pub name: String,
    pub key: ProfileKey,
    pub value: T,
}

/// Window-layout values, recorded by name and by the layout they were
/// measured on. Each (name, layout) pair holds at most one value.
pub struct WindowInfoRepository<T> {
    entries: Vec<WindowInfoEntry<T>>,
}

/// A value found for a window, with the size of the layout it was measured
/// on; the caller scales it by `window width / source_size.width`.
pub struct ProfileMatch<T> {
    pub value: T,
    pub source_size: Size,
}

pub open spec fn entry_key<T>(e: WindowInfoEntry<T>) -> (Seq<char>, ProfileKey) {
    (e.name@, e.key)
}

pub open spec fn distinct_keys<T>(s: Seq<WindowInfoEntry<T>>) -> bool {
    forall|i: int, j: int|
        0 <= i < s.len() && 0 <= j < s.len() && i != j ==> entry_key(#[trigger] s[i]) != entry_key(
            #[trigger] s[j],
        )
}

/// The map that a list of entries with distinct keys stands for.
pub closed spec fn entries_map<T>(s: Seq<WindowInfoEntry<T>>) -> Map<(Seq<char>, ProfileKey), T> {
    Map::new(
        |k: (Seq<char>, ProfileKey)| exists|i: int| 0 <= i < s.len() && entry_key(s[i]) == k,
        |k: (Seq<char>, ProfileKey)| s[choose|i: int| 0 <= i < s.len() && entry_key(s[i]) == k].value,
    )
}

proof fn lemma_entries_map<T>(s: Seq<WindowInfoEntry<T>>)
    requires
        distinct_keys(s),
    ensures
        forall|i: int|
            0 <= i < s.len() ==> #[trigger] entries_map(s).contains_key(entry_key(s[i]))
                && entries_map(s)[entry_key(s[i])] == s[i].value,
        forall|k: (Seq<char>, ProfileKey)|
            #[trigger] entries_map(s).contains_key(k) ==> exists|i: int|
                0 <= i < s.len() && entry_key(s[i]) == k,
{
    assert forall|i: int| 0 <= i < s.len() implies #[trigger] entries_map(s).contains_key(
        entry_key(s[i]),
    ) && entries_map(s)[entry_key(s[i])] == s[i].value by {
        let k = entry_key(s[i]);
        assert(exists|j: int| 0 <= j < s.len() && entry_key(s[j]) == k);
        let j = choose|j: int| 0 <= j < s.len() && entry_key(s[j]) == k;
        assert(i == j);
    }
}

proof fn lemma_entries_map_push<T>(s: Seq<WindowInfoEntry<T>>, e: WindowInfoEntry<T>)
    requires
        distinct_keys(s),
        !entries_map(s).contains_key(entry_key(e)),
    ensures
        distinct_keys(s.push(e)),
        entries_map(s.push(e)) == entries_map(s).insert(entry_key(e), e.value),
{
    let t = s.push(e);
    lemma_entries_map(s);
    assert forall|i: int, j: int|
        0 <= i < t.len() && 0 <= j < t.len() && i != j implies entry_key(#[trigger] t[i])
        != entry_key(#[trigger] t[j]) by {
        if i < s.len() && j < s.len() {
            assert(t[i] == s[i] && t[j] == s[j]);
        } else if i < s.len() {
            assert(entries_map(s).contains_key(entry_key(s[i])));
        } else {
            assert(entries_map(s).contains_key(entry_key(s[j])));
        }
    }
    lemma_entries_map(t);
    assert forall|k: (Seq<char>, ProfileKey)| #[trigger]
        entries_map(t).contains_key(k) implies entries_map(s).insert(entry_key(e), e.value).contains_key(k)
        && entries_map(t)[k] == entries_map(s).insert(entry_key(e), e.value)[k] by {
        let i = choose|i: int| 0 <= i < t.len() && entry_key(t[i]) == k;
        if i < s.len() {
            assert(t[i] == s[i]);
        }
    }
    assert forall|k: (Seq<char>, ProfileKey)| #[trigger]
        entries_map(s).insert(entry_key(e), e.value).contains_key(k) implies entries_map(t).contains_key(k) by {
        if k != entry_key(e) {
            let i = choose|i: int| 0 <= i < s.len() && entry_key(s[i]) == k;
            assert(t[i] == s[i]);
        } else {
            assert(t[s.len() as int] == e);
        }
    }
    assert(entries_map(t) =~= entries_map(s).insert(entry_key(e), e.value));
}

proof fn lemma_entries_map_update<T>(s: Seq<WindowInfoEntry<T>>, i: int, e: WindowInfoEntry<T>)
    requires
        distinct_keys(s),
        0 <= i < s.len(),
        entry_key(s[i]) == entry_key(e),
    ensures
        distinct_keys(s.update(i, e)),
        entries_map(s.update(i, e)) == entries_map(s).insert(entry_key(e), e.value),
{
    let t = s.update(i, e);
    assert forall|a: int, b: int|
        0 <= a < t.len() && 0 <= b < t.len() && a != b implies entry_key(#[trigger] t[a])
        != entry_key(#[trigger] t[b]) by {
        assert(entry_key(t[a]) == entry_key(s[a]));
        assert(entry_key(t[b]) == entry_key(s[b]));
    }
    lemma_entries_map(s);
    lemma_entries_map(t);
    assert forall|k: (Seq<char>, ProfileKey)| #[trigger]
        entries_map(t).contains_key(k) implies entries_map(s).insert(entry_key(e), e.value).contains_key(k)
        && entries_map(t)[k] == entries_map(s).insert(entry_key(e), e.value)[k] by {
        let j = choose|j: int| 0 <= j < t.len() && entry_key(t[j]) == k;
        assert(entry_key(s[j]) == k);
    }
    assert forall|k: (Seq<char>, ProfileKey)| #[trigger]
        entries_map(s).insert(entry_key(e), e.value).contains_key(k) implies entries_map(t).contains_key(k) by {
        if k != entry_key(e) {
            let j = choose|j: int| 0 <= j < s.len() && entry_key(s[j]) == k;
            assert(entry_key(t[j]) == k);
        } else {
            assert(entry_key(t[i]) == k);
        }
    }
    assert(entries_map(t) =~= entries_map(s).insert(entry_key(e), e.value));
}

impl<T> View for WindowInfoRepository<T> {
    type V = Map<(Seq<char>, ProfileKey), T>;

    closed spec fn view(&self) -> Map<(Seq<char>, ProfileKey), T> {
        entries_map(self.entries@)
    }
}

pub open spec fn larger(a: nat, b: nat) -> nat {
    if a >= b {
        a
    } else {
        b
    }
}

pub open spec fn smaller(a: nat, b: nat) -> nat {
    if a <= b {
        a
    } else {
        b
    }
}

/// Whether a profile of size `a` is preferred to one of size `b` for a
/// window of width `window`: its scale factor `window / a.width` is nearer
/// to one (`|ln(window / width)|` smaller, compared exactly as
/// `max/min` ratios); on a tie the narrower, then the lower profile.
pub open spec fn scale_precedes(window: nat, a: Size, b: Size) -> bool {
    let da = larger(window, a.width as nat) * smaller(window, b.width as nat);
    let db = larger(window, b.width as nat) * smaller(window, a.width as nat);
    ||| da < db
    ||| da == db && a.width < b.width
    ||| da == db && a.width == b.width && a.height < b.height
}

/// Whether a recorded layout may stand in for a window of the given family.
pub open spec fn scale_candidate(key: ProfileKey, ui: UI, platform: Platform, family: ResolutionFamily) -> bool {
    key.ui == ui && key.platform == platform && resolution_family(key.size) == Some(family)
}

/// What an exact lookup answers: the value recorded for `name` on exactly
/// this layout, if any.
pub open spec fn exact_lookup<T>(
    map: Map<(Seq<char>, ProfileKey), T>,
    name: Seq<char>,
    window: Size,
    ui: UI,
    platform: Platform,
) -> Option<T> {
    let k = (name, ProfileKey { size: window, ui, platform });
    if map.contains_key(k) {
        Some(map[k])
    } else {
        None
    }
}

/// What a lookup with scaling answers: the exact layout if recorded; else,
/// among the recorded layouts of the same interface, platform and
/// resolution family as the window, the preferred one (`scale_precedes`);
/// else nothing.
pub open spec fn auto_scale_outcome<T>(
    map: Map<(Seq<char>, ProfileKey), T>,
    name: Seq<char>,
    window: Size,
    ui: UI,
    platform: Platform,
    r: Option<ProfileMatch<T>>,
) -> bool {
    let exact = (name, ProfileKey { size: window, ui, platform });
    if map.contains_key(exact) {
        r == Some(ProfileMatch { value: map[exact], source_size: window })
    } else {
        match resolution_family(window) {
            None => r is None,
            Some(family) => match r {
                None => forall|k: ProfileKey| #[trigger]
                    map.contains_key((name, k)) ==> !scale_candidate(k, ui, platform, family),
                Some(m) => {
                    let mk = ProfileKey { size: m.source_size, ui, platform };
                    &&& map.contains_key((name, mk))
                    &&& m.value == map[(name, mk)]
                    &&& resolution_family(m.source_size) == Some(family)
                    &&& forall|k: ProfileKey| #[trigger]
                        map.contains_key((name, k)) && scale_candidate(k, ui, platform, family)
                            && k.size != m.source_size ==> scale_precedes(
                            window.width as nat,
                            m.source_size,
                            k.size,
                        )
                },
            },
        }
    }
}

proof fn lemma_ratio_transitive(ma: int, na: int, mb: int, nb: int, mc: int, nc: int)
    requires
        na > 0,
        nb > 0,
        nc > 0,
        ma >= 0,
        mb >= 0,
        mc >= 0,
        ma * nb <= mb * na,
        mb * nc <= mc * nb,
    ensures
        ma * nc <= mc * na,
        (ma * nb < mb * na || mb * nc < mc * nb) ==> ma * nc < mc * na,
{
    assert(ma * nb * nc <= mb * na * nc) by (nonlinear_arith)
        requires
            ma * nb <= mb * na,
            nc > 0,
    ;
    assert(mb * nc * na <= mc * nb * na) by (nonlinear_arith)
        requires
            mb * nc <= mc * nb,
            na > 0,
    ;
    assert(ma * nc * nb <= mc * na * nb) by (nonlinear_arith)
        requires
            ma * nb * nc <= mb * na * nc,
            mb * nc * na <= mc * nb * na,
    ;
    assert(ma * nc <= mc * na) by (nonlinear_arith)
        requires
            ma * nc * nb <= mc * na * nb,
            nb > 0,
    ;
    if ma * nb < mb * na || mb * nc < mc * nb {
        assert(ma * nc * nb < mc * na * nb) by (nonlinear_arith)
            requires
                ma * nb <= mb * na,
                mb * nc <= mc * nb,
                ma * nb < mb * na || mb * nc < mc * nb,
                na > 0,
                nb > 0,
                nc > 0,
        ;
        assert(ma * nc < mc * na) by (nonlinear_arith)
            requires
                ma * nc * nb < mc * na * nb,
                nb > 0,
        ;
    }
}

proof fn lemma_scale_precedes_transitive(w: nat, a: Size, b: Size, c: Size)
    requires
        w > 0,
        a.width > 0,
        b.width > 0,
        c.width > 0,
        scale_precedes(w, a, b),
        scale_precedes(w, b, c),
    ensures
        scale_precedes(w, a, c),
{
    lemma_ratio_transitive(
        larger(w, a.width as nat) as int,
        smaller(w, a.width as nat) as int,
        larger(w, b.width as nat) as int,
        smaller(w, b.width as nat) as int,
        larger(w, c.width as nat) as int,
        smaller(w, c.width as nat) as int,
    );
}

fn precedes(w: usize, a: Size, b: Size) -> (r: bool)
    ensures
        r == scale_precedes(w as nat, a, b),
{
    let wa = if w >= a.width { w } else { a.width };
    let na = if w <= a.width { w } else { a.width };
    let wb = if w >= b.width { w } else { b.width };
    let nb = if w <= b.width { w } else { b.width };
    assert((wa as u128) * (nb as u128) <= (usize::MAX as u128) * (usize::MAX as u128)) by (nonlinear_arith)
        requires
            wa <= usize::MAX,
            nb <= usize::MAX,
    ;
    assert((wb as u128) * (na as u128) <= (usize::MAX as u128) * (usize::MAX as u128)) by (nonlinear_arith)
        requires
            wb <= usize::MAX,
            na <= usize::MAX,
    ;
    assert((usize::MAX as u128) * (usize::MAX as u128) <= u128::MAX) by (nonlinear_arith)
        requires
            usize::MAX <= u64::MAX,
    ;
    let da = (wa as u128) * (nb as u128);
    let db = (wb as u128) * (na as u128);
    da < db || (da == db && a.width < b.width) || (da == db && a.width == b.width && a.height
        < b.height)
}

impl<T: Copy> WindowInfoRepository<T> {
    /// Whether each (name, layout) pair is recorded at most once.
    pub closed spec fn wf(&self) -> bool {
        distinct_keys(self.entries@)
    }

    /// An empty repository.
    pub fn new() -> (r: Self)
        ensures
            r.wf(),
            r@ == Map::<(Seq<char>, ProfileKey), T>::empty(),
    {
        let r = WindowInfoRepository { entries: Vec::new() };
        assert(r@ =~= Map::<(Seq<char>, ProfileKey), T>::empty());
        r
    }

    fn find(&self, name: &str, key: ProfileKey) -> (r: Option<usize>)
        requires
            self.wf(),
        ensures
            match r {
                Some(i) => i < self.entries@.len() && entry_key(self.entries@[i as int]) == (
                    name@,
                    key,
                ),
                None => !self@.contains_key((name@, key)),
            },
    {
        let mut i: usize = 0;
        while i < self.entries.len()
            invariant
                i <= self.entries@.len(),
                forall|j: int| 0 <= j < i ==> entry_key(#[trigger] self.entries@[j]) != (name@, key),
            decreases self.entries@.len() - i,
        {
            let e = &self.entries[i];
            if e.key == key && str_equal(e.name.as_str(), name) {
                return Some(i);
            }
            i = i + 1;
        }
        proof {
            lemma_entries_map(self.entries@);
            if self@.contains_key((name@, key)) {
                let j = choose|j: int|
                    0 <= j < self.entries@.len() && entry_key(self.entries@[j]) == (name@, key);
                assert(entry_key(self.entries@[j]) != (name@, key));
            }
        }
        None
    }

    /// Records `value` for `name` on the given layout, replacing what was
    /// recorded there.
    pub fn add(&mut self, name: &str, size: Size, ui: UI, platform: Platform, value: T)
        requires
            old(self).wf(),
        ensures
            final(self).wf(),
            final(self)@ == old(self)@.insert(
                (name@, ProfileKey { size, ui, platform }),
                value,
            ),
    {
        let key = ProfileKey { size, ui, platform };
        let entry = WindowInfoEntry { name: name.to_owned(), key, value };
        match self.find(name, key) {
            Some(i) => {
                proof {
                    lemma_entries_map_update(self.entries@, i as int, entry);
                }
                self.entries.set(i, entry);
            },
            None => {
                proof {
                    lemma_entries_map_push(self.entries@, entry);
                }
                self.entries.push(entry);
            },
        }
    }

    /// Adds every value of `other`, which wins where both record one.
    pub fn merge_inplace(&mut self, other: &WindowInfoRepository<T>)
        requires
            old(self).wf(),
            other.wf(),
        ensures
            final(self).wf(),
            final(self)@ == old(self)@.union_prefer_right(other@),
    {
        let ghost start = self@;
        let mut i: usize = 0;
        while i < other.entries.len()
            invariant
                i <= other.entries@.len(),
                other.wf(),
                self.wf(),
                distinct_keys(other.entries@.take(i as int)),
                self@ == start.union_prefer_right(entries_map(other.entries@.take(i as int))),
            decreases other.entries@.len() - i,
        {
            let e = &other.entries[i];
            let ghost before = self@;
            self.add(e.name.as_str(), e.key.size, e.key.ui, e.key.platform, e.value);
            proof {
                let s = other.entries@;
                let p = s.take(i as int);
                assert(s.take(i + 1) =~= p.push(s[i as int]));
                lemma_entries_map(p);
                if entries_map(p).contains_key(entry_key(s[i as int])) {
                    let j = choose|j: int| 0 <= j < p.len() && entry_key(p[j]) == entry_key(s[i as int]);
                    assert(p[j] == s[j]);
                }
                lemma_entries_map_push(p, s[i as int]);
                assert(self@ =~= start.union_prefer_right(
                    entries_map(p).insert(entry_key(s[i as int]), s[i as int].value),
                ));
            }
            i = i + 1;
        }
        assert(other.entries@.take(i as int) =~= other.entries@);
    }

    /// A copy of this repository with every value of `other` added (see
    /// `merge_inplace`).
    pub fn merge(&self, other: &WindowInfoRepository<T>) -> (r: WindowInfoRepository<T>)
        requires
            self.wf(),
            other.wf(),
        ensures
            r.wf(),
            r@ == self@.union_prefer_right(other@),
    {
        let mut entries: Vec<WindowInfoEntry<T>> = Vec::new();
        let mut i: usize = 0;
        while i < self.entries.len()
            invariant
                i <= self.entries@.len(),
                entries@.len() == i,
                forall|j: int| 0 <= j < i ==> entry_key(#[trigger] entries@[j]) == entry_key(self.entries@[j])
                    && entries@[j].value == self.entries@[j].value,
            decreases self.entries@.len() - i,
        {
            let e = &self.entries[i];
            entries.push(WindowInfoEntry { name: e.name.clone(), key: e.key, value: e.value });
            i = i + 1;
        }
        let mut result = WindowInfoRepository { entries };
        proof {
            assert forall|a: int, b: int|
                0 <= a < result.entries@.len() && 0 <= b < result.entries@.len() && a != b implies entry_key(
                #[trigger] result.entries@[a],
            ) != entry_key(#[trigger] result.entries@[b]) by {
                assert(entry_key(result.entries@[a]) == entry_key(self.entries@[a]));
                assert(entry_key(result.entries@[b]) == entry_key(self.entries@[b]));
            }
            lemma_entries_map(self.entries@);
            lemma_entries_map(result.entries@);
            assert forall|k: (Seq<char>, ProfileKey)| #[trigger]
                result@.contains_key(k) implies self@.contains_key(k) && result@[k] == self@[k] by {
                let j = choose|j: int|
                    0 <= j < result.entries@.len() && entry_key(result.entries@[j]) == k;
                assert(entry_key(self.entries@[j]) == k);
            }
            assert forall|k: (Seq<char>, ProfileKey)| #[trigger]
                self@.contains_key(k) implies result@.contains_key(k) by {
                let j = choose|j: int| 0 <= j < self.entries@.len() && entry_key(self.entries@[j]) == k;
                assert(entry_key(result.entries@[j]) == k);
            }
            assert(result@ =~= self@);
        }
        result.merge_inplace(other);
        result
    }

    /// The value recorded for `name` on exactly this layout.
    pub fn get_exact(&self, name: &str, window_size: Size, ui: UI, platform: Platform) -> (r: Option<T>)
        requires
            self.wf(),
        ensures
            r == exact_lookup(self@, name@, window_size, ui, platform),
    {
        let key = ProfileKey { size: window_size, ui, platform };
        match self.find(name, key) {
            Some(i) => {
                proof {
                    lemma_entries_map(self.entries@);
                }
                Some(self.entries[i].value)
            },
            None => None,
        }
    }

    /// The value recorded for `name` on this layout or, failing that, on
    /// the preferred layout of the same resolution family, with the size
    /// of the layout it was measured on (see `auto_scale_outcome`).
    pub fn get_auto_scale(&self, name: &str, window_size: Size, ui: UI, platform: Platform) -> (r:
        Option<ProfileMatch<T>>)
        requires
            self.wf(),
        ensures
            auto_scale_outcome(self@, name@, window_size, ui, platform, r),
    {
        let key = ProfileKey { size: window_size, ui, platform };
        if let Some(i) = self.find(name, key) {
            proof {
                lemma_entries_map(self.entries@);
            }
            return Some(ProfileMatch { value: self.entries[i].value, source_size: window_size });
        }
        let family = match ResolutionFamily::new(window_size) {
            Some(f) => f,
            None => return None,
        };
        let w = window_size.width;
        let mut best: Option<usize> = None;
        let mut i: usize = 0;
        while i < self.entries.len()
            invariant
                i <= self.entries@.len(),
                self.wf(),
                w == window_size.width,
                w > 0,
                match best {
                    None => forall|j: int|
                        0 <= j < i ==> !(#[trigger] self.entries@[j].name@ == name@
                            && scale_candidate(self.entries@[j].key, ui, platform, family)),
                    Some(b) => {
                        &&& b < i
                        &&& self.entries@[b as int].name@ == name@
                        &&& scale_candidate(self.entries@[b as int].key, ui, platform, family)
                        &&& forall|j: int|
                            0 <= j < i && #[trigger] self.entries@[j].name@ == name@
                                && scale_candidate(self.entries@[j].key, ui, platform, family)
                                && self.entries@[j].key.size != self.entries@[b as int].key.size
                                ==> scale_precedes(
                                w as nat,
                                self.entries@[b as int].key.size,
                                self.entries@[j].key.size,
                            )
                    },
                },
            decreases self.entries@.len() - i,
        {
            let e = &self.entries[i];
            let matches_family = match ResolutionFamily::new(e.key.size) {
                Some(f) => f == family,
                None => false,
            };
            if e.key.ui == ui && e.key.platform == platform && matches_family && str_equal(
                e.name.as_str(),
                name,
            ) {
                match best {
                    None => {
                        best = Some(i);
                    },
                    Some(b) => {
                        let bs = self.entries[b].key.size;
                        if precedes(w, e.key.size, bs) {
                            proof {
                                assert forall|j: int|
                                    0 <= j < i + 1 && #[trigger] self.entries@[j].name@ == name@
                                        && scale_candidate(self.entries@[j].key, ui, platform, family)
                                        && self.entries@[j].key.size != self.entries@[i as int].key.size
                                        implies scale_precedes(
                                    w as nat,
                                    self.entries@[i as int].key.size,
                                    self.entries@[j].key.size,
                                ) by {
                                    if j != b && self.entries@[j].key.size != bs {
                                        lemma_scale_precedes_transitive(
                                            w as nat,
                                            self.entries@[i as int].key.size,
                                            bs,
                                            self.entries@[j].key.size,
                                        );
                                    }
                                }
                            }
                            best = Some(i);
                        } else {
                            proof {
                                if bs == e.key.size {
                                    assert(entry_key(self.entries@[b as int]) == entry_key(
                                        self.entries@[i as int],
                                    ));
                                }
                            }
                        }
                    },
                }
            }
            i = i + 1;
        }
        proof {
            lemma_entries_map(self.entries@);
        }
        match best {
            None => {
                proof {
                    assert forall|k: ProfileKey| #[trigger]
                        self@.contains_key((name@, k)) implies !scale_candidate(k, ui, platform, family) by {
                        let j = choose|j: int|
                            0 <= j < self.entries@.len() && entry_key(self.entries@[j]) == (name@, k);
                        assert(self.entries@[j].name@ == name@);
                    }
                }
                None
            },
            Some(b) => {
                let source = self.entries[b].key.size;
                proof {
                    let mk = ProfileKey { size: source, ui, platform };
                    assert(entry_key(self.entries@[b as int]) == (name@, mk));
                    assert forall|k: ProfileKey| #[trigger]
                        self@.contains_key((name@, k)) && scale_candidate(k, ui, platform, family)
                            && k.size != source implies scale_precedes(
                        window_size.width as nat,
                        source,
                        k.size,
                    ) by {
                        let j = choose|j: int|
                            0 <= j < self.entries@.len() && entry_key(self.entries@[j]) == (name@, k);
                        assert(self.entries@[j].name@ == name@);
                    }
                }
                Some(ProfileMatch { value: self.entries[b].value, source_size: source })
            },
        }
    }
}

} // verus!
