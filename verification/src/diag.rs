//! The change gate behind the diagnostic channel.
//!
//! A trace slot names one question the shell answers on `PDFCE_DIAG` (where
//! the pointer is, where the canvas is). A line is worth writing only when it
//! says something the previous line under the same slot did not, so each slot
//! remembers the last line it let through. [`record_if_changed`] is that
//! decision; [`reset_change_gates`] forgets every slot at once, so that the
//! first frame of a newly opened document always speaks.

use vstd::prelude::*;
use vstd::string::StringSliceAdditionalSpecFns;
use vstd::utf8::encode_utf8;

verus! {

/// The last line written under each slot.
///
/// Held as a list of `(slot, line)` pairs in which no slot occurs twice; its
/// meaning is the map from slot to line that [`ChangeGates::view`] gives.
pub struct ChangeGates {
    entries: Vec<(String, String)>,
}

/// Whether `line` tells a reader of `slot` anything: it does unless it is the
/// line that slot last wrote.
pub open spec fn is_news(gates: Map<Seq<char>, Seq<char>>, slot: Seq<char>, line: Seq<char>) -> bool {
    !(gates.contains_key(slot) && gates[slot] == line)
}

/// The map a list of `(slot, line)` pairs stands for.
pub open spec fn gates_map(entries: Seq<(String, String)>) -> Map<Seq<char>, Seq<char>>
    decreases entries.len(),
{
    if entries.len() == 0 {
        Map::empty()
    } else {
        let last = entries.last();
        gates_map(entries.drop_last()).insert(last.0@, last.1@)
    }
}

/// No slot occurs twice in the list.
pub open spec fn slots_distinct(entries: Seq<(String, String)>) -> bool {
    forall|i: int, j: int|
        0 <= i < entries.len() && 0 <= j < entries.len() && i != j ==> #[trigger] entries[i].0@
            != #[trigger] entries[j].0@
}

impl View for ChangeGates {
    type V = Map<Seq<char>, Seq<char>>;

    closed spec fn view(&self) -> Map<Seq<char>, Seq<char>> {
        gates_map(self.entries@)
    }
}

/// What the map of a list with distinct slots holds: each listed slot maps to
/// its line, and nothing else is in it.
proof fn lemma_gates_map(entries: Seq<(String, String)>)
    requires
        slots_distinct(entries),
    ensures
        forall|i: int|
            0 <= i < entries.len() ==> #[trigger] gates_map(entries).contains_key(entries[i].0@)
                && gates_map(entries)[entries[i].0@] == entries[i].1@,
        forall|k: Seq<char>|
            #[trigger] gates_map(entries).contains_key(k) ==> exists|i: int|
                0 <= i < entries.len() && entries[i].0@ == k,
    decreases entries.len(),
{
    if entries.len() > 0 {
        let rest = entries.drop_last();
        assert(slots_distinct(rest)) by {
            assert forall|i: int, j: int|
                0 <= i < rest.len() && 0 <= j < rest.len() && i != j implies #[trigger] rest[i].0@
                != #[trigger] rest[j].0@ by {
                assert(rest[i] == entries[i]);
                assert(rest[j] == entries[j]);
            }
        }
        lemma_gates_map(rest);
        let n = entries.len() - 1;
        assert forall|i: int| 0 <= i < entries.len() implies #[trigger] gates_map(
            entries,
        ).contains_key(entries[i].0@) && gates_map(entries)[entries[i].0@] == entries[i].1@ by {
            if i < n {
                assert(rest[i] == entries[i]);
                assert(gates_map(rest).contains_key(rest[i].0@));
                assert(entries[i].0@ != entries[n].0@);
            }
        }
        assert forall|k: Seq<char>| #[trigger] gates_map(entries).contains_key(k) implies exists|
            i: int,
        |
            0 <= i < entries.len() && entries[i].0@ == k by {
            if k != entries[n].0@ {
                assert(gates_map(rest).contains_key(k));
                let i = choose|i: int| 0 <= i < rest.len() && rest[i].0@ == k;
                assert(entries[i] == rest[i]);
            }
        }
    }
}

impl ChangeGates {
    /// The list holds no slot twice.
    pub closed spec fn wf(&self) -> bool {
        slots_distinct(self.entries@)
    }

    /// No slot has written anything yet.
    pub fn new() -> (g: Self)
        ensures
            g.wf(),
            g@ == Map::<Seq<char>, Seq<char>>::empty(),
    {
        ChangeGates { entries: Vec::new() }
    }

    /// The last line written under `slot`, if any was.
    pub fn last_line(&self, slot: &str) -> (r: Option<&str>)
        requires
            self.wf(),
        ensures
            r is Some <==> self@.contains_key(slot@),
            r matches Some(line) ==> line@ == self@[slot@],
    {
        proof {
            lemma_gates_map(self.entries@);
        }
        match self.position(slot) {
            Some(i) => {
                assert(gates_map(self.entries@).contains_key(self.entries@[i as int].0@));
                Some(self.entries[i].1.as_str())
            },
            None => {
                proof {
                    if self@.contains_key(slot@) {
                        let j = choose|j: int|
                            0 <= j < self.entries@.len() && self.entries@[j].0@ == slot@;
                        assert(self.entries@[j].0@ != slot@);
                    }
                }
                None
            },
        }
    }

    /// Where `slot` sits in the list, if it is there.
    fn position(&self, slot: &str) -> (r: Option<usize>)
        requires
            self.wf(),
        ensures
            r matches Some(i) ==> i < self.entries@.len() && self.entries@[i as int].0@ == slot@,
            r is None ==> forall|i: int|
                0 <= i < self.entries@.len() ==> #[trigger] self.entries@[i].0@ != slot@,
    {
        let wanted = slot.to_owned();
        let mut i: usize = 0;
        while i < self.entries.len()
            invariant
                0 <= i <= self.entries@.len(),
                wanted@ == slot@,
                forall|j: int| 0 <= j < i ==> #[trigger] self.entries@[j].0@ != slot@,
            decreases self.entries@.len() - i,
        {
            if self.entries[i].0 == wanted {
                return Some(i);
            }
            i += 1;
        }
        None
    }
}

/// Whether `line` is news under `slot`, recording it either way.
///
/// It is news unless it is exactly the line that slot last wrote; a value
/// that returns after a change is news again, and slots do not silence one
/// another. After the call the slot remembers `line`.
pub fn record_if_changed(map: &mut ChangeGates, slot: &str, line: &str) -> (changed: bool)
    requires
        old(map).wf(),
    ensures
        final(map).wf(),
        final(map)@ == old(map)@.insert(slot@, line@),
        changed == is_news(old(map)@, slot@, line@),
{
    proof {
        lemma_gates_map(map.entries@);
    }
    let ghost before = map.entries@;
    let fresh = line.to_owned();
    match map.position(slot) {
        Some(i) => {
            if map.entries[i].1 == fresh {
                return false;
            }
            map.entries.set(i, (slot.to_owned(), fresh));
            proof {
                let after = map.entries@;
                assert(slots_distinct(after)) by {
                    assert forall|a: int, b: int|
                        0 <= a < after.len() && 0 <= b < after.len() && a != b implies #[trigger] after[a].0@
                        != #[trigger] after[b].0@ by {
                        assert(after[a].0@ == before[a].0@);
                        assert(after[b].0@ == before[b].0@);
                    }
                }
                lemma_gates_map(after);
                assert(gates_map(after) =~= gates_map(before).insert(slot@, line@)) by {
                    assert forall|k: Seq<char>| #[trigger] gates_map(after).contains_key(k)
                        <==> gates_map(before).insert(slot@, line@).contains_key(k) by {
                        if gates_map(after).contains_key(k) {
                            let j = choose|j: int| 0 <= j < after.len() && after[j].0@ == k;
                            assert(before[j].0@ == k);
                        }
                        if gates_map(before).contains_key(k) {
                            let j = choose|j: int| 0 <= j < before.len() && before[j].0@ == k;
                            assert(after[j].0@ == k);
                        }
                    }
                    assert forall|k: Seq<char>| #[trigger] gates_map(after).contains_key(k)
                        implies gates_map(after)[k] == gates_map(before).insert(
                        slot@,
                        line@,
                    )[k] by {
                        let j = choose|j: int| 0 <= j < after.len() && after[j].0@ == k;
                        assert(before[j].0@ == k);
                    }
                }
            }
            true
        },
        None => {
            map.entries.push((slot.to_owned(), fresh));
            proof {
                let after = map.entries@;
                assert(after.drop_last() =~= before);
                assert(slots_distinct(after)) by {
                    assert forall|a: int, b: int|
                        0 <= a < after.len() && 0 <= b < after.len() && a != b implies #[trigger] after[a].0@
                        != #[trigger] after[b].0@ by {
                        if a < before.len() && b < before.len() {
                            assert(after[a] == before[a]);
                            assert(after[b] == before[b]);
                        } else if a < before.len() {
                            assert(after[a] == before[a]);
                        } else {
                            assert(after[b] == before[b]);
                        }
                    }
                }
                assert(!gates_map(before).contains_key(slot@)) by {
                    if gates_map(before).contains_key(slot@) {
                        let j = choose|j: int| 0 <= j < before.len() && before[j].0@ == slot@;
                    }
                }
            }
            true
        },
    }
}

/// No name occurs twice in a list of names.
pub open spec fn names_distinct(names: Seq<String>) -> bool {
    forall|i: int, j: int|
        0 <= i < names.len() && 0 <= j < names.len() && i != j ==> #[trigger] names[i]@
            != #[trigger] names[j]@
}

/// The names a list holds, as a set.
pub open spec fn name_set(names: Seq<String>) -> Set<Seq<char>> {
    Set::new(|n: Seq<char>| exists|i: int| 0 <= i < names.len() && names[i]@ == n)
}

/// No region occurs twice in a list of `(name, rectangle)` pairs.
pub open spec fn regions_distinct<R>(entries: Seq<(String, R)>) -> bool {
    forall|i: int, j: int|
        0 <= i < entries.len() && 0 <= j < entries.len() && i != j ==> #[trigger] entries[i].0@
            != #[trigger] entries[j].0@
}

/// The map a list of `(name, rectangle)` pairs stands for.
pub open spec fn region_map<R>(entries: Seq<(String, R)>) -> Map<Seq<char>, R> {
    Map::new(
        |n: Seq<char>| exists|i: int| 0 <= i < entries.len() && entries[i].0@ == n,
        |n: Seq<char>| entries[choose|i: int| 0 <= i < entries.len() && entries[i].0@ == n].1,
    )
}

/// In a list with distinct names, the map holds each listed name with its
/// own rectangle.
proof fn lemma_region_at<R>(entries: Seq<(String, R)>, i: int)
    requires
        regions_distinct(entries),
        0 <= i < entries.len(),
    ensures
        region_map(entries).contains_key(entries[i].0@),
        region_map(entries)[entries[i].0@] == entries[i].1,
{
    let n = entries[i].0@;
    assert(region_map(entries).dom().contains(n));
    let j = choose|j: int| 0 <= j < entries.len() && entries[j].0@ == n;
    if j != i {
        assert(entries[j].0@ != entries[i].0@);
    }
}

/// A part of a list with distinct names has distinct names.
proof fn lemma_regions_distinct_sub<R>(entries: Seq<(String, R)>, lo: int, hi: int)
    requires
        regions_distinct(entries),
        0 <= lo <= hi <= entries.len(),
    ensures
        regions_distinct(entries.subrange(lo, hi)),
{
    let sub = entries.subrange(lo, hi);
    assert forall|i: int, j: int|
        0 <= i < sub.len() && 0 <= j < sub.len() && i != j implies #[trigger] sub[i].0@
        != #[trigger] sub[j].0@ by {
        assert(sub[i] == entries[lo + i] && sub[j] == entries[lo + j]);
    }
}

/// The map of a part of a list that starts one entry earlier holds that
/// entry too, which the shorter part did not hold.
proof fn lemma_region_sub_front<R>(entries: Seq<(String, R)>, k: int, n: int)
    requires
        regions_distinct(entries),
        0 <= k < n,
        n == entries.len(),
    ensures
        !region_map(entries.subrange(k + 1, n)).contains_key(entries[k].0@),
        region_map(entries.subrange(k, n)) == region_map(entries.subrange(k + 1, n)).insert(
            entries[k].0@,
            entries[k].1,
        ),
{
    let long = entries.subrange(k, n);
    let short = entries.subrange(k + 1, n);
    lemma_regions_distinct_sub(entries, k, n);
    lemma_regions_distinct_sub(entries, k + 1, n);
    if region_map(short).contains_key(entries[k].0@) {
        let j = choose|j: int| 0 <= j < short.len() && short[j].0@ == entries[k].0@;
        assert(short[j] == entries[k + 1 + j]);
    }
    let want = region_map(short).insert(entries[k].0@, entries[k].1);
    assert forall|m: Seq<char>| #[trigger] region_map(long).contains_key(m) <==> want.contains_key(m) by {
        if region_map(long).contains_key(m) {
            let j = choose|j: int| 0 <= j < long.len() && long[j].0@ == m;
            if j > 0 {
                assert(long[j] == short[j - 1]);
            }
        }
        if region_map(short).contains_key(m) {
            let j = choose|j: int| 0 <= j < short.len() && short[j].0@ == m;
            assert(long[j + 1] == short[j]);
        }
        if m == entries[k].0@ {
            assert(long[0] == entries[k]);
        }
    }
    assert forall|m: Seq<char>| #[trigger] region_map(long).contains_key(m) implies region_map(long)[m]
        == want[m] by {
        let j = choose|j: int| 0 <= j < long.len() && long[j].0@ == m;
        lemma_region_at(long, j);
        if j > 0 {
            assert(long[j] == short[j - 1]);
            lemma_region_at(short, j - 1);
        } else {
            assert(long[0] == entries[k]);
        }
    }
    assert(region_map(long) =~= want);
}

/// Appending an entry whose name is new adds it to the map and keeps the
/// names distinct.
proof fn lemma_region_push<R>(entries: Seq<(String, R)>, x: (String, R))
    requires
        regions_distinct(entries),
        !region_map(entries).contains_key(x.0@),
    ensures
        regions_distinct(entries.push(x)),
        region_map(entries.push(x)) == region_map(entries).insert(x.0@, x.1),
{
    let after = entries.push(x);
    assert forall|i: int, j: int|
        0 <= i < after.len() && 0 <= j < after.len() && i != j implies #[trigger] after[i].0@
        != #[trigger] after[j].0@ by {
        if i < entries.len() {
            assert(after[i] == entries[i]);
            assert(region_map(entries).contains_key(entries[i].0@));
        }
        if j < entries.len() {
            assert(after[j] == entries[j]);
            assert(region_map(entries).contains_key(entries[j].0@));
        }
    }
    let want = region_map(entries).insert(x.0@, x.1);
    assert forall|m: Seq<char>| #[trigger] region_map(after).contains_key(m) <==> want.contains_key(m) by {
        if region_map(after).contains_key(m) {
            let j = choose|j: int| 0 <= j < after.len() && after[j].0@ == m;
            if j < entries.len() {
                assert(after[j] == entries[j]);
            }
        }
        if region_map(entries).contains_key(m) {
            let j = choose|j: int| 0 <= j < entries.len() && entries[j].0@ == m;
            assert(after[j] == entries[j]);
        }
        if m == x.0@ {
            assert(after[entries.len() as int] == x);
        }
    }
    assert forall|m: Seq<char>| #[trigger] region_map(after).contains_key(m) implies region_map(after)[m]
        == want[m] by {
        let j = choose|j: int| 0 <= j < after.len() && after[j].0@ == m;
        lemma_region_at(after, j);
        if j < entries.len() {
            assert(after[j] == entries[j]);
            lemma_region_at(entries, j);
        }
    }
    assert(region_map(after) =~= want);
}

/// Removing a set of keys after an insertion: the inserted key survives
/// exactly when it is not removed.
proof fn lemma_remove_keys_insert<R>(m: Map<Seq<char>, R>, k: Seq<char>, v: R, g: Set<Seq<char>>)
    ensures
        !g.contains(k) ==> m.insert(k, v).remove_keys(g) == m.remove_keys(g).insert(k, v),
        g.contains(k) ==> m.insert(k, v).remove_keys(g) == m.remove_keys(g),
{
    if !g.contains(k) {
        assert(m.insert(k, v).remove_keys(g) =~= m.remove_keys(g).insert(k, v));
    } else {
        assert(m.insert(k, v).remove_keys(g) =~= m.remove_keys(g));
    }
}

/// Whether byte string `a` comes strictly before `b`: at the first byte in
/// which they differ `a`'s is smaller, or `a` is a proper prefix of `b`. This
/// is the order `str`'s `Ord` gives.
pub open spec fn bytes_before(a: Seq<u8>, b: Seq<u8>) -> bool
    decreases a.len(),
{
    if a.len() == 0 {
        b.len() > 0
    } else if b.len() == 0 {
        false
    } else if a[0] != b[0] {
        a[0] < b[0]
    } else {
        bytes_before(a.drop_first(), b.drop_first())
    }
}

/// Whether name `a` sorts strictly before name `b`, comparing their UTF-8
/// bytes.
pub open spec fn name_before(a: String, b: String) -> bool {
    bytes_before(encode_utf8(a@), encode_utf8(b@))
}

/// The names are in strictly ascending order.
pub open spec fn names_ascending(names: Seq<String>) -> bool {
    forall|i: int, j: int| 0 <= i < j < names.len() ==> name_before(#[trigger] names[i], #[trigger] names[j])
}

/// Nothing comes before itself.
proof fn lemma_before_irreflexive(a: Seq<u8>)
    ensures
        !bytes_before(a, a),
    decreases a.len(),
{
    if a.len() > 0 {
        lemma_before_irreflexive(a.drop_first());
    }
}

/// The order is transitive.
proof fn lemma_before_transitive(a: Seq<u8>, b: Seq<u8>, c: Seq<u8>)
    requires
        bytes_before(a, b),
        bytes_before(b, c),
    ensures
        bytes_before(a, c),
    decreases a.len(),
{
    if a.len() > 0 && b.len() > 0 && c.len() > 0 && a[0] == b[0] && b[0] == c[0] {
        lemma_before_transitive(a.drop_first(), b.drop_first(), c.drop_first());
    }
}

/// Of two different byte strings, one comes before the other.
proof fn lemma_before_total(a: Seq<u8>, b: Seq<u8>)
    requires
        a != b,
    ensures
        bytes_before(a, b) || bytes_before(b, a),
    decreases a.len(),
{
    if a.len() > 0 && b.len() > 0 && a[0] == b[0] {
        if a.drop_first() == b.drop_first() {
            assert(a =~= seq![a[0]] + a.drop_first());
            assert(b =~= seq![b[0]] + b.drop_first());
        }
        lemma_before_total(a.drop_first(), b.drop_first());
    }
    if a.len() == 0 && b.len() == 0 {
        assert(a =~= b);
    }
}

/// Whether `a` comes strictly before `b` in byte order.
fn bytes_before_exec(a: &[u8], b: &[u8]) -> (r: bool)
    ensures
        r == bytes_before(a@, b@),
{
    let mut i: usize = 0;
    assert(a@.skip(0) =~= a@ && b@.skip(0) =~= b@);
    while i < a.len() && i < b.len()
        invariant
            0 <= i <= a@.len(),
            i <= b@.len(),
            bytes_before(a@, b@) == bytes_before(a@.skip(i as int), b@.skip(i as int)),
        decreases a@.len() - i,
    {
        if a[i] != b[i] {
            return a[i] < b[i];
        }
        proof {
            assert(a@.skip(i as int).drop_first() =~= a@.skip(i + 1));
            assert(b@.skip(i as int).drop_first() =~= b@.skip(i + 1));
        }
        i += 1;
    }
    i < b.len()
}

/// Whether name `a` sorts strictly before name `b`.
fn name_before_exec(a: &String, b: &String) -> (r: bool)
    ensures
        r == name_before(*a, *b),
{
    bytes_before_exec(a.as_str().as_bytes(), b.as_str().as_bytes())
}

/// Names in strictly ascending order are distinct.
proof fn lemma_ascending_distinct(names: Seq<String>)
    requires
        names_ascending(names),
    ensures
        names_distinct(names),
{
    assert forall|i: int, j: int|
        0 <= i < names.len() && 0 <= j < names.len() && i != j implies #[trigger] names[i]@
        != #[trigger] names[j]@ by {
        if names[i]@ == names[j]@ {
            lemma_before_irreflexive(encode_utf8(names[i]@));
            if i < j {
                assert(name_before(names[i], names[j]));
            } else {
                assert(name_before(names[j], names[i]));
            }
        }
    }
}

/// Insert a new name into an ascending list, keeping it ascending.
fn insert_sorted(v: &mut Vec<String>, x: String)
    requires
        names_ascending(old(v)@),
        !name_set(old(v)@).contains(x@),
    ensures
        names_ascending(final(v)@),
        name_set(final(v)@) == name_set(old(v)@).insert(x@),
{
    let mut p: usize = 0;
    while p < v.len() && name_before_exec(&v[p], &x)
        invariant
            0 <= p <= v@.len(),
            forall|q: int| 0 <= q < p ==> name_before(#[trigger] v@[q], x),
        decreases v@.len() - p,
    {
        p += 1;
    }
    let ghost before = v@;
    proof {
        if p < before.len() {
            assert(!name_before(before[p as int], x));
            assert(before[p as int]@ != x@) by {
                assert(name_set(before).contains(before[p as int]@));
            }
            vstd::utf8::encode_utf8_decode_utf8(before[p as int]@);
            vstd::utf8::encode_utf8_decode_utf8(x@);
            lemma_before_total(encode_utf8(before[p as int]@), encode_utf8(x@));
            assert(name_before(x, before[p as int]));
            assert forall|q: int| p < q < before.len() implies name_before(x, #[trigger] before[q]) by {
                assert(name_before(before[p as int], before[q]));
                lemma_before_transitive(encode_utf8(x@), encode_utf8(before[p as int]@), encode_utf8(before[q]@));
            }
        }
    }
    v.insert(p, x);
    proof {
        let after = v@;
        assert forall|i: int, j: int| 0 <= i < j < after.len() implies name_before(
            #[trigger] after[i],
            #[trigger] after[j],
        ) by {
            if j < p {
                assert(after[i] == before[i] && after[j] == before[j]);
            } else if j == p {
                assert(after[i] == before[i]);
            } else if i < p {
                assert(after[i] == before[i] && after[j] == before[j - 1]);
                assert(name_before(before[i], x));
                if j - 1 > p {
                    assert(name_before(x, before[j - 1]));
                } else {
                    assert(name_before(x, before[j - 1]));
                }
                lemma_before_transitive(encode_utf8(before[i]@), encode_utf8(x@), encode_utf8(before[j - 1]@));
            } else if i == p {
                assert(after[j] == before[j - 1]);
            } else {
                assert(after[i] == before[i - 1] && after[j] == before[j - 1]);
            }
        }
        assert forall|n: Seq<char>| name_set(after).contains(n) <==> name_set(before).insert(x@).contains(
            n,
        ) by {
            if name_set(after).contains(n) {
                let i = choose|i: int| 0 <= i < after.len() && after[i]@ == n;
                if i < p {
                    assert(after[i] == before[i]);
                } else if i > p {
                    assert(after[i] == before[i - 1]);
                }
            }
            if name_set(before).contains(n) {
                let i = choose|i: int| 0 <= i < before.len() && before[i]@ == n;
                if i < p {
                    assert(after[i] == before[i]);
                } else {
                    assert(after[i + 1] == before[i]);
                }
            }
            if n == x@ {
                assert(after[p as int] == x);
            }
        }
        assert(name_set(after) =~= name_set(before).insert(x@));
    }
}

/// The names, each once, in ascending order.
fn sort_names(v: Vec<String>) -> (r: Vec<String>)
    requires
        names_distinct(v@),
    ensures
        names_ascending(r@),
        names_distinct(r@),
        name_set(r@) == name_set(v@),
{
    let mut r: Vec<String> = Vec::new();
    let mut i: usize = 0;
    assert(name_set(r@) =~= name_set(v@.take(0)));
    while i < v.len()
        invariant
            0 <= i <= v@.len(),
            names_distinct(v@),
            names_ascending(r@),
            name_set(r@) == name_set(v@.take(i as int)),
        decreases v@.len() - i,
    {
        let x = v[i].clone();
        proof {
            assert(v@.take(i + 1) =~= v@.take(i as int).push(v@[i as int]));
            lemma_name_set_push(v@.take(i as int), v@[i as int]);
            if name_set(r@).contains(x@) {
                let j = choose|j: int| 0 <= j < i && v@.take(i as int)[j]@ == x@;
                assert(v@[j]@ != v@[i as int]@);
            }
        }
        insert_sorted(&mut r, x);
        i += 1;
    }
    proof {
        assert(v@.take(v@.len() as int) =~= v@);
        lemma_ascending_distinct(r@);
    }
    r
}

/// Where the diagnostic channel last saw each named region of the window:
/// the rectangle each was declared at, the names declared this frame, and
/// the names declared the frame before. `R` is a rectangle as the toolkit
/// gives it; deciding whether a region moved is the caller's.
pub struct UiRegions<R> {
    rects: Vec<(String, R)>,
    this_frame: Vec<String>,
    last_frame: Vec<String>,
}

impl<R> UiRegions<R> {
    /// No name occurs twice in any of the three lists.
    pub closed spec fn wf(&self) -> bool {
        &&& regions_distinct(self.rects@)
        &&& names_distinct(self.this_frame@)
        &&& names_distinct(self.last_frame@)
    }

    /// Each region's last declared rectangle.
    pub closed spec fn rects_view(&self) -> Map<Seq<char>, R> {
        region_map(self.rects@)
    }

    /// The names declared this frame.
    pub closed spec fn this_view(&self) -> Set<Seq<char>> {
        name_set(self.this_frame@)
    }

    /// The names declared the frame before.
    pub closed spec fn last_view(&self) -> Set<Seq<char>> {
        name_set(self.last_frame@)
    }

    /// Nothing declared yet.
    pub fn new() -> (g: Self)
        ensures
            g.wf(),
            g.rects_view() == Map::<Seq<char>, R>::empty(),
            g.this_view() == Set::<Seq<char>>::empty(),
            g.last_view() == Set::<Seq<char>>::empty(),
    {
        let g = UiRegions { rects: Vec::new(), this_frame: Vec::new(), last_frame: Vec::new() };
        assert(g.rects_view() =~= Map::<Seq<char>, R>::empty());
        assert(g.this_view() =~= Set::<Seq<char>>::empty());
        assert(g.last_view() =~= Set::<Seq<char>>::empty());
        g
    }

    /// The rectangle `name` was last declared at, if it was.
    pub fn rect_of(&self, name: &str) -> (r: Option<&R>)
        requires
            self.wf(),
        ensures
            match r {
                Some(x) => self.rects_view().contains_key(name@) && self.rects_view()[name@] == *x,
                None => !self.rects_view().contains_key(name@),
            },
    {
        match region_position(&self.rects, name) {
            Some(i) => {
                proof {
                    lemma_region_at(self.rects@, i as int);
                }
                Some(&self.rects[i].1)
            },
            None => None,
        }
    }

    /// Record that `name` was drawn this frame.
    pub fn declare(&mut self, name: &str)
        requires
            old(self).wf(),
        ensures
            final(self).wf(),
            final(self).this_view() == old(self).this_view().insert(name@),
            final(self).last_view() == old(self).last_view(),
            final(self).rects_view() == old(self).rects_view(),
    {
        if holds_name(&self.this_frame, name) {
            assert(self.this_view() =~= self.this_view().insert(name@));
            return;
        }
        let ghost before = self.this_frame@;
        self.this_frame.push(name.to_owned());
        proof {
            let after = self.this_frame@;
            assert forall|i: int, j: int|
                0 <= i < after.len() && 0 <= j < after.len() && i != j implies #[trigger] after[i]@
                != #[trigger] after[j]@ by {
                if i < before.len() {
                    assert(after[i] == before[i]);
                }
                if j < before.len() {
                    assert(after[j] == before[j]);
                }
            }
            assert forall|n: Seq<char>| name_set(after).contains(n) <==> name_set(before).insert(
                name@,
            ).contains(n) by {
                if name_set(before).contains(n) {
                    let i = choose|i: int| 0 <= i < before.len() && before[i]@ == n;
                    assert(after[i] == before[i]);
                }
                if n == name@ {
                    assert(after[before.len() as int]@ == n);
                }
                if name_set(after).contains(n) {
                    let i = choose|i: int| 0 <= i < after.len() && after[i]@ == n;
                    if i < before.len() {
                        assert(after[i] == before[i]);
                    }
                }
            }
            assert(name_set(after) =~= name_set(before).insert(name@));
        }
    }

    /// Record the rectangle `name` was drawn at.
    pub fn set_rect(&mut self, name: &str, rect: R)
        requires
            old(self).wf(),
        ensures
            final(self).wf(),
            final(self).rects_view() == old(self).rects_view().insert(name@, rect),
            final(self).this_view() == old(self).this_view(),
            final(self).last_view() == old(self).last_view(),
    {
        let ghost before = self.rects@;
        let ghost rect_g = rect;
        match region_position(&self.rects, name) {
            Some(i) => {
                self.rects.set(i, (name.to_owned(), rect));
            },
            None => {
                self.rects.push((name.to_owned(), rect));
            },
        }
        proof {
            let after = self.rects@;
            assert(regions_distinct(after)) by {
                assert forall|a: int, b: int|
                    0 <= a < after.len() && 0 <= b < after.len() && a != b implies #[trigger] after[a].0@
                    != #[trigger] after[b].0@ by {
                    if a < before.len() && after[a].0@ != name@ {
                        assert(after[a] == before[a]);
                    }
                    if b < before.len() && after[b].0@ != name@ {
                        assert(after[b] == before[b]);
                    }
                }
            }
            let want = region_map(before).insert(name@, rect_g);
            assert forall|n: Seq<char>| #[trigger] region_map(after).contains_key(n)
                <==> want.contains_key(n) by {
                if region_map(after).contains_key(n) {
                    let k = choose|k: int| 0 <= k < after.len() && after[k].0@ == n;
                    if n != name@ {
                        assert(after[k] == before[k]);
                    }
                }
                if region_map(before).contains_key(n) {
                    let k = choose|k: int| 0 <= k < before.len() && before[k].0@ == n;
                    if n != name@ {
                        assert(after[k] == before[k]);
                    }
                    assert(after[k].0@ == n);
                }
                if n == name@ {
                    let k = if after.len() > before.len() {
                        before.len() as int
                    } else {
                        choose|k: int| 0 <= k < before.len() && before[k].0@ == name@
                    };
                    assert(after[k].0@ == n);
                }
            }
            assert forall|n: Seq<char>| #[trigger] region_map(after).contains_key(n) implies region_map(
                after,
            )[n] == want[n] by {
                let k = choose|k: int| 0 <= k < after.len() && after[k].0@ == n;
                lemma_region_at(after, k);
                if n != name@ {
                    assert(after[k] == before[k]);
                    lemma_region_at(before, k);
                } else {
                    assert(after[k].1 == rect_g);
                }
            }
            assert(region_map(after) =~= want);
        }
    }

    /// End a frame: the names declared the frame before and not this one are
    /// handed out, and their rectangles forgotten; this frame's names become
    /// the frame before's, and no name is declared for the next one yet.
    pub fn end_frame(&mut self) -> (retired: Vec<String>)
        requires
            old(self).wf(),
        ensures
            final(self).wf(),
            names_distinct(retired@),
            names_ascending(retired@),
            name_set(retired@) == old(self).last_view().difference(old(self).this_view()),
            final(self).rects_view() == old(self).rects_view().remove_keys(name_set(retired@)),
            final(self).last_view() == old(self).this_view(),
            final(self).this_view() == Set::<Seq<char>>::empty(),
    {
        let missing = names_missing_from(&self.last_frame, &self.this_frame);
        let retired = sort_names(missing);
        let ghost gone = name_set(retired@);
        let ghost before = self.rects@;
        let mut rest: Vec<(String, R)> = Vec::new();
        std::mem::swap(&mut rest, &mut self.rects);
        let ghost n = before.len() as int;
        let ghost this0 = self.this_frame@;
        let ghost last0 = self.last_frame@;
        proof {
            assert(before.subrange(n, n) =~= Seq::<(String, R)>::empty());
            assert(region_map(self.rects@) =~= region_map(before.subrange(n, n)).remove_keys(gone));
        }
        while rest.len() > 0
            invariant
                regions_distinct(before),
                n == before.len(),
                rest@.len() <= n,
                rest@ == before.take(rest@.len() as int),
                regions_distinct(self.rects@),
                region_map(self.rects@) == region_map(before.subrange(rest@.len() as int, n)).remove_keys(
                    gone,
                ),
                self.this_frame@ == this0,
                self.last_frame@ == last0,
                gone == name_set(retired@),
            decreases rest@.len(),
        {
            let ghost k = rest@.len() - 1;
            proof {
                assert(rest@[k] == before[k]);
            }
            let entry = rest.pop().unwrap();
            proof {
                assert(entry == before[k]);
                assert(rest@ =~= before.take(k));
                lemma_region_sub_front(before, k, n);
            }
            if !holds_name(&retired, entry.0.as_str()) {
                proof {
                    lemma_region_push(self.rects@, entry);
                }
                let ghost prev = self.rects@;
                self.rects.push(entry);
                proof {
                    assert(!gone.contains(before[k].0@));
                    assert(region_map(self.rects@) == region_map(prev).insert(before[k].0@, before[k].1));
                    assert(region_map(prev) == region_map(before.subrange(k + 1, n)).remove_keys(gone));
                    lemma_remove_keys_insert(
                        region_map(before.subrange(k + 1, n)),
                        before[k].0@,
                        before[k].1,
                        gone,
                    );
                }
            } else {
                proof {
                    assert(gone.contains(before[k].0@));
                    lemma_remove_keys_insert(
                        region_map(before.subrange(k + 1, n)),
                        before[k].0@,
                        before[k].1,
                        gone,
                    );
                }
            }
        }
        proof {
            assert(before.subrange(0, n) =~= before);
        }
        std::mem::swap(&mut self.last_frame, &mut self.this_frame);
        self.this_frame.clear();
        proof {
            assert(self.this_view() =~= Set::<Seq<char>>::empty());
        }
        retired
    }

    /// Forget every region and every declared name.
    pub fn clear(&mut self)
        ensures
            final(self).wf(),
            final(self).rects_view() == Map::<Seq<char>, R>::empty(),
            final(self).this_view() == Set::<Seq<char>>::empty(),
            final(self).last_view() == Set::<Seq<char>>::empty(),
    {
        self.rects.clear();
        self.this_frame.clear();
        self.last_frame.clear();
        proof {
            assert(self.rects_view() =~= Map::<Seq<char>, R>::empty());
            assert(self.this_view() =~= Set::<Seq<char>>::empty());
            assert(self.last_view() =~= Set::<Seq<char>>::empty());
        }
    }
}

/// Whether `name` is in the list.
fn holds_name(names: &Vec<String>, name: &str) -> (r: bool)
    ensures
        r == name_set(names@).contains(name@),
{
    let wanted = name.to_owned();
    let mut i: usize = 0;
    while i < names.len()
        invariant
            0 <= i <= names@.len(),
            wanted@ == name@,
            forall|j: int| 0 <= j < i ==> #[trigger] names@[j]@ != name@,
        decreases names@.len() - i,
    {
        if names[i] == wanted {
            assert(names@[i as int]@ == name@);
            return true;
        }
        i += 1;
    }
    false
}

/// Where the region `name` sits in the list, if it is there.
fn region_position<R>(entries: &Vec<(String, R)>, name: &str) -> (r: Option<usize>)
    ensures
        match r {
            Some(i) => i < entries@.len() && entries@[i as int].0@ == name@,
            None => !region_map(entries@).contains_key(name@),
        },
{
    let wanted = name.to_owned();
    let mut i: usize = 0;
    while i < entries.len()
        invariant
            0 <= i <= entries@.len(),
            wanted@ == name@,
            forall|j: int| 0 <= j < i ==> #[trigger] entries@[j].0@ != name@,
        decreases entries@.len() - i,
    {
        if entries[i].0 == wanted {
            return Some(i);
        }
        i += 1;
    }
    None
}

/// Adding a name to a list adds it to the list's set.
proof fn lemma_name_set_push(names: Seq<String>, x: String)
    ensures
        name_set(names.push(x)) == name_set(names).insert(x@),
{
    let after = names.push(x);
    assert forall|n: Seq<char>| name_set(after).contains(n) <==> name_set(names).insert(x@).contains(
        n,
    ) by {
        if name_set(after).contains(n) {
            let i = choose|i: int| 0 <= i < after.len() && after[i]@ == n;
            if i < names.len() {
                assert(names[i] == after[i]);
            }
        }
        if name_set(names).contains(n) {
            let i = choose|i: int| 0 <= i < names.len() && names[i]@ == n;
            assert(after[i] == names[i]);
        }
        if n == x@ {
            assert(after[names.len() as int] == x);
        }
    }
    assert(name_set(after) =~= name_set(names).insert(x@));
}

/// A name added to a list with distinct names keeps them distinct when it
/// was not there.
proof fn lemma_names_distinct_push(names: Seq<String>, x: String)
    requires
        names_distinct(names),
        !name_set(names).contains(x@),
    ensures
        names_distinct(names.push(x)),
{
    let after = names.push(x);
    assert forall|i: int, j: int|
        0 <= i < after.len() && 0 <= j < after.len() && i != j implies #[trigger] after[i]@
        != #[trigger] after[j]@ by {
        if i < names.len() && j < names.len() {
            assert(after[i] == names[i] && after[j] == names[j]);
        } else if i < names.len() {
            assert(after[i] == names[i]);
            assert(name_set(names).contains(names[i]@));
        } else {
            assert(after[j] == names[j]);
            assert(name_set(names).contains(names[j]@));
        }
    }
}

/// The names of `last` that are not in `this`, each once.
fn names_missing_from(last: &Vec<String>, this: &Vec<String>) -> (r: Vec<String>)
    requires
        names_distinct(last@),
    ensures
        names_distinct(r@),
        name_set(r@) == name_set(last@).difference(name_set(this@)),
{
    let mut r: Vec<String> = Vec::new();
    let mut i: usize = 0;
    assert(name_set(r@) =~= name_set(last@.take(0)).difference(name_set(this@)));
    while i < last.len()
        invariant
            0 <= i <= last@.len(),
            names_distinct(last@),
            names_distinct(r@),
            name_set(r@) == name_set(last@.take(i as int)).difference(name_set(this@)),
        decreases last@.len() - i,
    {
        let name = last[i].as_str();
        proof {
            assert(last@.take(i + 1) =~= last@.take(i as int).push(last@[i as int]));
            lemma_name_set_push(last@.take(i as int), last@[i as int]);
        }
        if !holds_name(this, name) {
            let item = last[i].clone();
            proof {
                if name_set(r@).contains(item@) {
                    let j = choose|j: int| 0 <= j < i && last@.take(i as int)[j]@ == item@;
                    assert(last@[j]@ != last@[i as int]@);
                }
                lemma_names_distinct_push(r@, item);
                lemma_name_set_push(r@, item);
            }
            r.push(item);
            proof {
                assert(name_set(r@) =~= name_set(last@.take(i + 1)).difference(name_set(this@)));
            }
        } else {
            proof {
                assert(name_set(r@) =~= name_set(last@.take(i + 1)).difference(name_set(this@)));
            }
        }
        i += 1;
    }
    assert(last@.take(last@.len() as int) =~= last@);
    r
}

/// Forget every line gate and every region, so the first frame of a newly
/// opened document speaks: the next line under any slot is news, the next
/// rectangle of any region is new, and no region is reported gone.
pub fn reset_change_gates<R>(map: &mut ChangeGates, regions: &mut UiRegions<R>)
    ensures
        final(map).wf(),
        final(map)@ == Map::<Seq<char>, Seq<char>>::empty(),
        final(regions).wf(),
        final(regions).rects_view() == Map::<Seq<char>, R>::empty(),
        final(regions).this_view() == Set::<Seq<char>>::empty(),
        final(regions).last_view() == Set::<Seq<char>>::empty(),
{
    map.entries.clear();
    regions.clear();
}

/// A line recorded twice in a row under one slot is news only the first
/// time: the second [`record_if_changed`] answers `false`.
pub proof fn law_repeat_is_suppressed(gates: Map<Seq<char>, Seq<char>>, slot: Seq<char>, line: Seq<char>)
    ensures
        !is_news(gates.insert(slot, line), slot, line),
{
}

/// Slots do not silence one another: recording under one slot leaves
/// whether a line is news under any other slot exactly as it was, so an
/// identical line under a different slot is still news.
pub proof fn law_slots_are_independent(
    gates: Map<Seq<char>, Seq<char>>,
    slot: Seq<char>,
    line: Seq<char>,
    other: Seq<char>,
    other_line: Seq<char>,
)
    requires
        other != slot,
    ensures
        is_news(gates.insert(slot, line), other, other_line) == is_news(gates, other, other_line),
{
}

/// A line that differs from the last one under its slot is news, including a
/// value that comes back after a change.
pub proof fn law_a_changed_line_is_news(
    gates: Map<Seq<char>, Seq<char>>,
    slot: Seq<char>,
    first: Seq<char>,
    second: Seq<char>,
)
    requires
        first != second,
    ensures
        is_news(gates.insert(slot, first), slot, second),
        is_news(gates.insert(slot, first).insert(slot, second), slot, first),
{
}

/// After [`reset_change_gates`], every line under every slot is news.
pub proof fn law_reset_makes_every_line_news(slot: Seq<char>, line: Seq<char>)
    ensures
        is_news(Map::<Seq<char>, Seq<char>>::empty(), slot, line),
{
}

} // verus!
