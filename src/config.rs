use vstd::prelude::*;

use crate::style::Mode;
use crate::text::text_is;

verus! {

/// The colour theme the user chose.
#[derive(Debug, Clone, Copy, PartialEq, Eq, Structural)]
pub enum Theme {
    /// Follow the system's light or dark mode.
    System,
    Dark,
    Light,
}

pub open spec fn theme_label(t: Theme) -> Seq<char> {
    match t {
        Theme::System => "System Default"@,
        Theme::Dark => "Dark"@,
        Theme::Light => "Light"@,
    }
}

impl Theme {
    /// The mode to draw in, given the system's current mode.
    pub fn mode(&self, system: Mode) -> (r: Mode)
        ensures
            *self == Theme::Dark ==> r == Mode::Dark,
            *self == Theme::Light ==> r == Mode::Light,
            *self == Theme::System ==> r == system,
    {
        match self {
            Theme::System => system,
            Theme::Dark => Mode::Dark,
            Theme::Light => Mode::Light,
        }
    }

    /// The text of the choice in the settings page.
    pub fn label(&self) -> (r: &'static str)
        ensures
            r@ == theme_label(*self),
    {
        match self {
            Theme::System => "System Default",
            Theme::Dark => "Dark",
            Theme::Light => "Light",
        }
    }
}

/// Visibility entries as names and flags.
pub open spec fn entries_view(es: Seq<(String, bool)>) -> Seq<(Seq<char>, bool)> {
    es.map_values(|e: (String, bool)| (e.0@, e.1))
}

/// The flag of the first entry for `key`, if there is one.
pub open spec fn lookup(es: Seq<(Seq<char>, bool)>, key: Seq<char>) -> Option<bool>
    decreases es.len(),
{
    if es.len() == 0 {
        None
    } else {
        match lookup(es.drop_last(), key) {
            Some(b) => Some(b),
            None => if es.last().0 == key {
                Some(es.last().1)
            } else {
                None
            },
        }
    }
}

/// Finds the flag stored for `key`.
pub fn find_entry(es: &Vec<(String, bool)>, key: &str) -> (r: Option<bool>)
    ensures
        r == lookup(entries_view(es@), key@),
{
    let n = es.len();
    let mut i: usize = 0;
    while i < n
        invariant
            n == es@.len(),
            i <= n,
            lookup(entries_view(es@).subrange(0, i as int), key@) is None,
        decreases n - i,
    {
        let ghost prefix = entries_view(es@).subrange(0, i as int);
        assert(entries_view(es@).subrange(0, i + 1).drop_last() =~= prefix);
        if text_is(es[i].0.as_str(), key) {
            proof {
                lemma_lookup_extends(entries_view(es@), i as int + 1, key@);
            }
            return Some(es[i].1);
        }
        i = i + 1;
    }
    assert(entries_view(es@).subrange(0, n as int) =~= entries_view(es@));
    None
}

proof fn lemma_lookup_extends(es: Seq<(Seq<char>, bool)>, k: int, key: Seq<char>)
    requires
        0 <= k <= es.len(),
        lookup(es.subrange(0, k), key) is Some,
    ensures
        lookup(es, key) == lookup(es.subrange(0, k), key),
    decreases es.len() - k,
{
    if k < es.len() {
        assert(es.subrange(0, k + 1).drop_last() =~= es.subrange(0, k));
        lemma_lookup_extends(es, k + 1, key);
    } else {
        assert(es.subrange(0, k) =~= es);
    }
}

/// The user's settings: theme, temperature unit, and which devices are shown,
/// by display name.
#[derive(Debug, Clone)]
pub struct Config {
    pub theme: Theme,
    pub celsius: bool,
    pub visibility: Vec<(String, bool)>,
}

impl Config {
    /// The settings before the user changed anything.
    pub fn new() -> (r: Config)
        ensures
            r.theme == Theme::System,
            r.celsius,
            r.visibility@.len() == 0,
    {
        Config { theme: Theme::System, celsius: true, visibility: Vec::new() }
    }

    /// Whether the device of this display name is shown: as stored, and shown
    /// when nothing is stored for it.
    pub fn is_visible(&self, name: &str) -> (r: bool)
        ensures
            r == match lookup(entries_view(self.visibility@), name@) {
                Some(b) => b,
                None => true,
            },
    {
        match find_entry(&self.visibility, name) {
            Some(b) => b,
            None => true,
        }
    }
}

/// The merge of two visibility maps: an entry of the first wins; a name only
/// in the second takes the second's flag.
pub open spec fn merged(
    m1: Seq<(Seq<char>, bool)>,
    m2: Seq<(Seq<char>, bool)>,
    key: Seq<char>,
) -> Option<bool> {
    match lookup(m1, key) {
        Some(b) => Some(b),
        None => lookup(m2, key),
    }
}

/// Adds to `map1` each name of `map2` that `map1` lacks, with its flag from
/// `map2`; what `map1` holds is never overwritten.
pub fn merge_maps(map1: &mut Vec<(String, bool)>, map2: &Vec<(String, bool)>)
    ensures
        forall|key: Seq<char>|
            #[trigger] lookup(entries_view(final(map1)@), key) == merged(
                entries_view(old(map1)@),
                entries_view(map2@),
                key,
            ),
{
    let n = map2.len();
    let mut j: usize = 0;
    while j < n
        invariant
            n == map2@.len(),
            j <= n,
            forall|key: Seq<char>|
                #[trigger] lookup(entries_view(map1@), key) == merged(
                    entries_view(old(map1)@),
                    entries_view(map2@).subrange(0, j as int),
                    key,
                ),
        decreases n - j,
    {
        let ghost m2j = entries_view(map2@).subrange(0, j as int);
        let ghost m2n = entries_view(map2@).subrange(0, j + 1);
        assert(m2n.drop_last() =~= m2j);
        let ghost cur = entries_view(map1@);
        let key = map2[j].0.as_str();
        let flag = map2[j].1;
        let present = find_entry(map1, key);
        assert(m2n.last() == (key@, flag));
        if present.is_none() {
            let entry = (map2[j].0.clone(), flag);
            map1.push(entry);
            assert(entries_view(map1@) =~= cur.push((key@, flag)));
            assert forall|k: Seq<char>|
                #[trigger] lookup(entries_view(map1@), k) == merged(
                    entries_view(old(map1)@),
                    m2n,
                    k,
                ) by {
                assert(cur.push((key@, flag)).drop_last() =~= cur);
                assert(lookup(cur, k) == merged(entries_view(old(map1)@), m2j, k));
                assert(lookup(cur.push((key@, flag)), k) == match lookup(cur, k) {
                    Some(b) => Some(b),
                    None => if key@ == k {
                        Some(flag)
                    } else {
                        None
                    },
                });
                assert(lookup(m2n, k) == match lookup(m2j, k) {
                    Some(b) => Some(b),
                    None => if key@ == k {
                        Some(flag)
                    } else {
                        None
                    },
                });
            }
        } else {
            assert forall|k: Seq<char>|
                #[trigger] lookup(entries_view(map1@), k) == merged(
                    entries_view(old(map1)@),
                    m2n,
                    k,
                ) by {
                assert(lookup(cur, k) == merged(entries_view(old(map1)@), m2j, k));
                assert(lookup(m2n, k) == match lookup(m2j, k) {
                    Some(b) => Some(b),
                    None => if key@ == k {
                        Some(flag)
                    } else {
                        None
                    },
                });
            }
        }
        j = j + 1;
    }
    assert(entries_view(map2@).subrange(0, n as int) =~= entries_view(map2@));
}

} // verus!
