//! Parsing of level-marker names. The scene loader hands the core named
//! sub-meshes (`collide*`, `path*`, `kart_spawner*`, `waypoint*`,
//! `place_sensor*`); the core classifies each name and parses its trailing
//! digits (the part after the last dot in well-formed names) as a path or
//! sensor index. A malformed name, with no parseable digits at all, falls
//! back to index 0 rather than failing the load.

use vstd::prelude::*;
use vstd::std_specs::iter::IteratorSpec;

use crate::math::Vec3i;
use crate::path::PathManager;
use crate::race::WayPoints;

verus! {

pub open spec fn is_digit_char(c: char) -> bool {
    '0' <= c && c <= '9'
}

/// How many digits end the name.
pub open spec fn digit_suffix_len(s: Seq<char>) -> nat
    decreases s.len(),
{
    if s.len() == 0 || !is_digit_char(s.last()) {
        0
    } else {
        digit_suffix_len(s.drop_last()) + 1
    }
}

/// The numeric value of a digit string, most significant digit first.
pub open spec fn digits_value(s: Seq<char>) -> int
    decreases s.len(),
{
    if s.len() == 0 {
        0
    } else {
        digits_value(s.drop_last()) * 10 + (s.last() as int - 48)
    }
}

/// The maximal digit suffix of the name.
pub open spec fn digit_suffix(s: Seq<char>) -> Seq<char> {
    s.subrange(s.len() - digit_suffix_len(s), s.len() as int)
}

/// The index a marker name denotes: the value of its trailing digits, or
/// the fallback 0 when the name is malformed (no digits at its end, or
/// digits past the machine's integer range).
pub open spec fn marker_index_spec(s: Seq<char>) -> usize {
    if digit_suffix_len(s) == 0 || digits_value(digit_suffix(s)) > usize::MAX {
        0
    } else {
        digits_value(digit_suffix(s)) as usize
    }
}

/// `pat` occurs contiguously somewhere in `s`.
pub open spec fn is_substring(pat: Seq<char>, s: Seq<char>) -> bool {
    exists|i: int| 0 <= i && i + pat.len() <= s.len() && #[trigger] s.subrange(i, i + pat.len()) == pat
}

/// The characters of `name`, in order.
fn str_chars(name: &str) -> (v: Vec<char>)
    ensures
        v@ == name@,
{
    broadcast use vstd::string::axiom_spec_iter;
    broadcast use vstd::string::next_postcondition;

    let mut it = name.chars();
    let mut v: Vec<char> = Vec::new();
    loop
        invariant
            it.obeys_prophetic_iter_laws(),
            it.decrease() is Some,
            v@ + it.remaining() =~= name@,
        ensures
            v@ =~= name@,
        decreases it.decrease()->0,
    {
        match it.next() {
            Some(c) => {
                v.push(c);
            },
            None => {
                proof {
                    assert(it.remaining().len() == 0);
                    assert(v@ =~= name@);
                }
                break;
            },
        }
    }
    v
}

/// The digit suffix starts exactly where the scan from the end stopped.
proof fn lemma_digit_suffix_from(s: Seq<char>, start: int)
    requires
        0 <= start <= s.len(),
        forall|k: int| start <= k < s.len() ==> is_digit_char(#[trigger] s[k]),
        start == 0 || !is_digit_char(s[start - 1]),
    ensures
        digit_suffix_len(s) == s.len() - start,
    decreases s.len(),
{
    if s.len() > 0 && start < s.len() {
        assert(forall|k: int|
            start <= k < s.drop_last().len() ==> is_digit_char(#[trigger] s.drop_last()[k]));
        lemma_digit_suffix_from(s.drop_last(), start);
    }
}

/// Appending digits to a digit string never shrinks its value.
proof fn lemma_digits_value_grows(s: Seq<char>, a: int, b1: int, b2: int)
    requires
        0 <= a <= b1 <= b2 <= s.len(),
        forall|k: int| a <= k < s.len() ==> is_digit_char(#[trigger] s[k]),
    ensures
        digits_value(s.subrange(a, b1)) <= digits_value(s.subrange(a, b2)),
        digits_value(s.subrange(a, b1)) >= 0,
    decreases b2 - b1,
{
    if b1 == b2 {
        lemma_digits_value_nonneg(s.subrange(a, b1));
    } else {
        lemma_digits_value_grows(s, a, b1, b2 - 1);
        assert(s.subrange(a, b2).drop_last() =~= s.subrange(a, b2 - 1));
        lemma_digits_value_nonneg(s.subrange(a, b2 - 1));
        assert(is_digit_char(s[b2 - 1]));
    }
}

proof fn lemma_digits_value_nonneg(s: Seq<char>)
    requires
        forall|k: int| 0 <= k < s.len() ==> is_digit_char(#[trigger] s[k]),
    ensures
        digits_value(s) >= 0,
    decreases s.len(),
{
    if s.len() > 0 {
        assert(forall|k: int|
            0 <= k < s.drop_last().len() ==> is_digit_char(#[trigger] s.drop_last()[k]));
        lemma_digits_value_nonneg(s.drop_last());
    }
}

/// Parse the index out of a marker name: the trailing digits' value,
/// falling back to 0 when there are no digits or they overflow the
/// machine's integer range.
pub fn marker_index(name: &str) -> (r: usize)
    ensures
        r == marker_index_spec(name@),
{
    let chars = str_chars(name);
    let n = chars.len();

    let mut start: usize = n;
    while start > 0 && chars[start - 1] >= '0' && chars[start - 1] <= '9'
        invariant
            n == chars@.len(),
            chars@ == name@,
            start <= n,
            forall|k: int| start <= k < n ==> is_digit_char(#[trigger] name@[k]),
        decreases start,
    {
        start = start - 1;
    }
    proof {
        lemma_digit_suffix_from(name@, start as int);
    }

    if start == n {
        // no digits at the end of the name
        return 0;
    }

    let mut acc: usize = 0;
    let mut k: usize = start;
    while k < n
        invariant
            n == chars@.len(),
            chars@ == name@,
            start <= k <= n,
            forall|j: int| start <= j < n ==> is_digit_char(#[trigger] name@[j]),
            acc == digits_value(name@.subrange(start as int, k as int)),
            digit_suffix_len(name@) == n - start,
        decreases n - k,
    {
        let c = chars[k];
        let d: usize = (c as u32 as usize) - 48;
        let step = match acc.checked_mul(10) {
            Some(t) => t.checked_add(d),
            None => None,
        };
        proof {
            assert(name@.subrange(start as int, k + 1int).drop_last() =~= name@.subrange(
                start as int,
                k as int,
            ));
        }
        match step {
            Some(next_acc) => {
                acc = next_acc;
            },
            None => {
                // the digits overflow the machine's integer range: fall back
                proof {
                    assert(digits_value(name@.subrange(start as int, k + 1int)) > usize::MAX);
                    lemma_digits_value_grows(name@, start as int, k + 1, n as int);
                    assert(digit_suffix(name@) =~= name@.subrange(start as int, n as int));
                }
                return 0;
            },
        }
        k = k + 1;
    }
    proof {
        assert(name@.subrange(start as int, n as int) =~= digit_suffix(name@));
    }
    acc
}

/// Whether `pat` occurs in `name`.
pub fn contains_pattern(name: &str, pat: &str) -> (r: bool)
    ensures
        r == is_substring(pat@, name@),
{
    let s = str_chars(name);
    let p = str_chars(pat);
    let n = s.len();
    let m = p.len();
    if m > n {
        return false;
    }
    if m == 0 {
        proof {
            assert(name@.subrange(0, 0 + pat@.len() as int) =~= pat@);
        }
        return true;
    }
    let mut i: usize = 0;
    while i <= n - m
        invariant
            n == s@.len(),
            m == p@.len(),
            1 <= m <= n,
            s@ == name@,
            p@ == pat@,
            i <= n - m + 1,
            forall|i2: int|
                0 <= i2 < i ==> #[trigger] name@.subrange(i2, i2 + pat@.len()) != pat@,
        decreases n - m - i + 1,
    {
        let mut j: usize = 0;
        let mut mismatch = false;
        while j < m
            invariant
                n == s@.len(),
                m == p@.len(),
                s@ == name@,
                p@ == pat@,
                i + m <= n,
                j <= m,
                !mismatch ==> forall|j2: int| 0 <= j2 < j ==> name@[i + j2] == pat@[j2],
                mismatch ==> name@.subrange(i as int, i + pat@.len()) != pat@,
            decreases m - j,
        {
            if s[i + j] != p[j] {
                proof {
                    assert(name@.subrange(i as int, i + pat@.len())[j as int] == name@[i + j]);
                }
                mismatch = true;
            }
            j = j + 1;
        }
        if !mismatch {
            proof {
                assert(name@.subrange(i as int, i + pat@.len()) =~= pat@);
            }
            return true;
        }
        i = i + 1;
    }
    proof {
        assert forall|i2: int|
            0 <= i2 && i2 + pat@.len() <= name@.len() implies #[trigger] name@.subrange(
            i2,
            i2 + pat@.len(),
        ) != pat@ by {
            assert(i2 < i);
        }
    }
    false
}

/// How the scene loader reacts to a named sub-mesh: each role the name
/// carries, independently.
#[derive(Clone, Copy, Debug, PartialEq, Eq, Structural)]
pub struct MarkerRoles {
    pub collider: bool,
    pub delete: bool,
    pub path: bool,
    pub kart_spawner: bool,
    pub waypoint: bool,
    pub place_sensor: bool,
}

pub open spec fn pat_collide() -> Seq<char> {
    seq!['c', 'o', 'l', 'l', 'i', 'd', 'e']
}

pub open spec fn pat_delete() -> Seq<char> {
    seq!['d', 'e', 'l', 'e', 't', 'e']
}

pub open spec fn pat_path() -> Seq<char> {
    seq!['p', 'a', 't', 'h']
}

pub open spec fn pat_kart_spawner() -> Seq<char> {
    seq!['k', 'a', 'r', 't', '_', 's', 'p', 'a', 'w', 'n', 'e', 'r']
}

pub open spec fn pat_waypoint() -> Seq<char> {
    seq!['w', 'a', 'y', 'p', 'o', 'i', 'n', 't']
}

pub open spec fn pat_place_sensor() -> Seq<char> {
    seq!['p', 'l', 'a', 'c', 'e', '_', 's', 'e', 'n', 's', 'o', 'r']
}

pub open spec fn pat_start() -> Seq<char> {
    seq!['s', 't', 'a', 'r', 't']
}

pub open spec fn pat_finish() -> Seq<char> {
    seq!['f', 'i', 'n', 'i', 's', 'h']
}

pub open spec fn pat_quarter() -> Seq<char> {
    seq!['q', 'u', 'a', 'r', 't', 'e', 'r']
}

pub open spec fn pat_half() -> Seq<char> {
    seq!['h', 'a', 'l', 'f']
}

/// Classify a sub-mesh name into the roles the loader reacts to. The roles
/// are independent: one name can carry several.
pub fn classify_marker(name: &str) -> (r: MarkerRoles)
    ensures
        r.collider == is_substring(pat_collide(), name@),
        r.delete == is_substring(pat_delete(), name@),
        r.path == is_substring(pat_path(), name@),
        r.kart_spawner == is_substring(pat_kart_spawner(), name@),
        r.waypoint == is_substring(pat_waypoint(), name@),
        r.place_sensor == is_substring(pat_place_sensor(), name@),
{
    proof {
        reveal_strlit("collide");
        reveal_strlit("delete");
        reveal_strlit("path");
        reveal_strlit("kart_spawner");
        reveal_strlit("waypoint");
        reveal_strlit("place_sensor");
        assert("collide"@ =~= pat_collide());
        assert("delete"@ =~= pat_delete());
        assert("path"@ =~= pat_path());
        assert("kart_spawner"@ =~= pat_kart_spawner());
        assert("waypoint"@ =~= pat_waypoint());
        assert("place_sensor"@ =~= pat_place_sensor());
    }
    MarkerRoles {
        collider: contains_pattern(name, "collide"),
        delete: contains_pattern(name, "delete"),
        path: contains_pattern(name, "path"),
        kart_spawner: contains_pattern(name, "kart_spawner"),
        waypoint: contains_pattern(name, "waypoint"),
        place_sensor: contains_pattern(name, "place_sensor"),
    }
}

/// The tier a waypoint sub-mesh name denotes, by the first matching tier
/// word; a name with none is no waypoint.
pub open spec fn waypoint_tier_spec(s: Seq<char>) -> Option<WayPoints> {
    if is_substring(pat_start(), s) {
        Some(WayPoints::Start)
    } else if is_substring(pat_finish(), s) {
        Some(WayPoints::Finish)
    } else if is_substring(pat_quarter(), s) {
        Some(WayPoints::Quarter)
    } else if is_substring(pat_half(), s) {
        Some(WayPoints::Half)
    } else {
        None
    }
}

/// Which waypoint tier a sub-mesh name denotes, if any.
pub fn waypoint_tier(name: &str) -> (r: Option<WayPoints>)
    ensures
        r == waypoint_tier_spec(name@),
{
    proof {
        reveal_strlit("start");
        reveal_strlit("finish");
        reveal_strlit("quarter");
        reveal_strlit("half");
        assert("start"@ =~= pat_start());
        assert("finish"@ =~= pat_finish());
        assert("quarter"@ =~= pat_quarter());
        assert("half"@ =~= pat_half());
    }
    if contains_pattern(name, "start") {
        Some(WayPoints::Start)
    } else if contains_pattern(name, "finish") {
        Some(WayPoints::Finish)
    } else if contains_pattern(name, "quarter") {
        Some(WayPoints::Quarter)
    } else if contains_pattern(name, "half") {
        Some(WayPoints::Half)
    } else {
        None
    }
}

/// A path sub-mesh feeds the path manager: the sample is stored under the
/// name's parsed index (a malformed name lands on index 0, never aborting
/// the load), and the polyline is rebuilt.
pub fn add_path_sample(manager: &mut PathManager, name: &str, point: Vec3i)
    requires
        old(manager).wf(),
        point.wf(),
    ensures
        final(manager).wf(),
        final(manager).map() == old(manager).map().insert(marker_index_spec(name@), point),
{
    let idx = marker_index(name);
    manager.insert(idx, point);
    manager.build();
}

/// A downward-facing placement sensor with its monotone track index.
#[derive(Clone, Copy, Debug, PartialEq, Eq, Structural)]
pub struct PlaceSensor {
    pub index: usize,
}

impl PlaceSensor {
    /// Parse the sensor's track index from its sub-mesh name; a malformed
    /// name falls back to index 0 like any other marker.
    pub fn new(name: &str) -> (r: PlaceSensor)
        ensures
            r.index == marker_index_spec(name@),
    {
        PlaceSensor { index: marker_index(name) }
    }
}

} // verus!
