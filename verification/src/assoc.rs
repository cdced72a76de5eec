//! Lists of names with the lines given under each, no name twice: the form
//! in which headers and parameters are held.

use vstd::prelude::*;
use crate::text::string_texts;

verus! {

/// Whether an entry of the list has the name `k`.
pub open spec fn has_name(s: Seq<(String, Vec<String>)>, k: Seq<char>) -> bool {
    exists|i: int| 0 <= i < s.len() && (#[trigger] s[i]).0@ == k
}

/// The place of the entry named `k`.
pub open spec fn place_of(s: Seq<(String, Vec<String>)>, k: Seq<char>) -> int {
    choose|i: int| 0 <= i < s.len() && (#[trigger] s[i]).0@ == k
}

/// Whether the list holds no name twice.
pub open spec fn names_differ(s: Seq<(String, Vec<String>)>) -> bool {
    forall|i: int, j: int| 0 <= i < j < s.len() ==> (#[trigger] s[i]).0@ != (#[trigger] s[j]).0@
}

/// The map from names to lines that the list stands for.
pub open spec fn lines_by_name(s: Seq<(String, Vec<String>)>) -> Map<Seq<char>, Seq<Seq<char>>> {
    Map::new(|k: Seq<char>| has_name(s, k), |k: Seq<char>| string_texts(s[place_of(s, k)].1@))
}

/// Whether two lists hold the same names with the same lines, place by place.
pub open spec fn same_entries(
    a: Seq<(String, Vec<String>)>,
    b: Seq<(String, Vec<String>)>,
) -> bool {
    &&& a.len() == b.len()
    &&& forall|i: int|
        0 <= i < a.len() ==> (#[trigger] a[i]).0@ == b[i].0@ && string_texts(a[i].1@)
            == string_texts(b[i].1@)
}

/// An entry of a list without a name twice is what the map holds under its name.
pub proof fn lemma_entry_stands(s: Seq<(String, Vec<String>)>, i: int)
    requires
        names_differ(s),
        0 <= i < s.len(),
    ensures
        has_name(s, s[i].0@),
        place_of(s, s[i].0@) == i,
        lines_by_name(s).contains_key(s[i].0@),
        lines_by_name(s)[s[i].0@] == string_texts(s[i].1@),
{
    let j = place_of(s, s[i].0@);
    assert(s[j].0@ == s[i].0@);
}

/// Lists with the same entries stand for the same map.
pub proof fn lemma_same_entries(a: Seq<(String, Vec<String>)>, b: Seq<(String, Vec<String>)>)
    requires
        names_differ(b),
        same_entries(a, b),
    ensures
        names_differ(a),
        lines_by_name(a) == lines_by_name(b),
{
    assert forall|i: int, j: int| 0 <= i < j < a.len() implies (#[trigger] a[i]).0@ != (
    #[trigger] a[j]).0@ by {
        assert(b[i].0@ == a[i].0@);
        assert(b[j].0@ == a[j].0@);
    }
    assert forall|m: Seq<char>| has_name(a, m) <==> has_name(b, m) by {
        if has_name(a, m) {
            assert(b[place_of(a, m)].0@ == m);
        }
        if has_name(b, m) {
            assert(a[place_of(b, m)].0@ == m);
        }
    }
    assert forall|m: Seq<char>| has_name(a, m) implies lines_by_name(a)[m] == lines_by_name(
        b,
    )[m] by {
        let j = place_of(a, m);
        assert(b[j].0@ == m);
        lemma_entry_stands(b, j);
    }
    assert(lines_by_name(a) =~= lines_by_name(b));
}

/// New lines in the place of an entry put them under its name in the map.
pub proof fn lemma_replaced(
    before: Seq<(String, Vec<String>)>,
    after: Seq<(String, Vec<String>)>,
    i: int,
    lines: Seq<Seq<char>>,
)
    requires
        names_differ(before),
        0 <= i < before.len(),
        after.len() == before.len(),
        after[i].0@ == before[i].0@,
        string_texts(after[i].1@) == lines,
        forall|j: int| 0 <= j < before.len() && j != i ==> after[j] == before[j],
    ensures
        names_differ(after),
        lines_by_name(after) == lines_by_name(before).insert(before[i].0@, lines),
{
    let k = before[i].0@;
    assert forall|j: int| 0 <= j < after.len() implies (#[trigger] after[j]).0@
        == before[j].0@ by {}
    assert forall|a: int, b: int| 0 <= a < b < after.len() implies (#[trigger] after[a]).0@ != (
    #[trigger] after[b]).0@ by {
        assert(before[a].0@ != before[b].0@);
    }
    assert forall|m: Seq<char>| has_name(after, m) <==> has_name(before, m) by {
        if has_name(after, m) {
            assert(before[place_of(after, m)].0@ == m);
        }
        if has_name(before, m) {
            assert(after[place_of(before, m)].0@ == m);
        }
    }
    lemma_entry_stands(before, i);
    assert forall|m: Seq<char>| has_name(after, m) implies lines_by_name(after)[m]
        == lines_by_name(before).insert(k, lines)[m] by {
        let j = place_of(after, m);
        lemma_entry_stands(after, j);
        lemma_entry_stands(before, j);
    }
    assert(lines_by_name(after) =~= lines_by_name(before).insert(k, lines));
}

/// One more entry under a new name puts its lines under that name in the map.
pub proof fn lemma_appended(
    before: Seq<(String, Vec<String>)>,
    after: Seq<(String, Vec<String>)>,
    k: Seq<char>,
    lines: Seq<Seq<char>>,
)
    requires
        names_differ(before),
        !has_name(before, k),
        after.len() == before.len() + 1,
        after[before.len() as int].0@ == k,
        string_texts(after[before.len() as int].1@) == lines,
        forall|j: int| 0 <= j < before.len() ==> after[j] == before[j],
    ensures
        names_differ(after),
        lines_by_name(after) == lines_by_name(before).insert(k, lines),
{
    let n = before.len() as int;
    assert forall|a: int, b: int| 0 <= a < b < after.len() implies (#[trigger] after[a]).0@ != (
    #[trigger] after[b]).0@ by {
        if b < n {
            assert(before[a].0@ != before[b].0@);
        } else {
            assert(before[a].0@ != k);
        }
    }
    assert forall|m: Seq<char>| has_name(after, m) <==> (m == k || has_name(before, m)) by {
        if has_name(after, m) {
            let j = place_of(after, m);
            if j < n {
                assert(before[j].0@ == m);
            }
        }
        if has_name(before, m) {
            assert(after[place_of(before, m)].0@ == m);
        }
        if m == k {
            assert(after[n].0@ == m);
        }
    }
    assert forall|m: Seq<char>| has_name(after, m) implies lines_by_name(after)[m]
        == lines_by_name(before).insert(k, lines)[m] by {
        let j = place_of(after, m);
        lemma_entry_stands(after, j);
        if j < n {
            lemma_entry_stands(before, j);
        }
    }
    assert(lines_by_name(after) =~= lines_by_name(before).insert(k, lines));
}

/// The place of the entry whose name is `key`.
pub fn find_name(entries: &Vec<(String, Vec<String>)>, key: &String) -> (r: Option<usize>)
    ensures
        match r {
            Some(i) => i < entries@.len() && entries@[i as int].0@ == key@,
            None => !has_name(entries@, key@),
        },
{
    let mut i: usize = 0;
    while i < entries.len()
        invariant
            i <= entries@.len(),
            forall|j: int| 0 <= j < i ==> (#[trigger] entries@[j]).0@ != key@,
        decreases entries@.len() - i,
    {
        if entries[i].0 == *key {
            return Some(i);
        }
        i += 1;
    }
    None
}

/// A copy of a list of strings.
pub fn copy_lines(lines: &Vec<String>) -> (r: Vec<String>)
    ensures
        string_texts(r@) == string_texts(lines@),
{
    let mut out: Vec<String> = Vec::new();
    let mut k: usize = 0;
    while k < lines.len()
        invariant
            k <= lines@.len(),
            out@.len() == k,
            forall|j: int| 0 <= j < k ==> (#[trigger] out@[j])@ == lines@[j]@,
        decreases lines@.len() - k,
    {
        out.push(lines[k].clone());
        k += 1;
    }
    assert(string_texts(out@) =~= string_texts(lines@));
    out
}

/// A copy of a list of entries.
pub fn copy_entries(entries: &Vec<(String, Vec<String>)>) -> (r: Vec<(String, Vec<String>)>)
    ensures
        same_entries(r@, entries@),
{
    let mut out: Vec<(String, Vec<String>)> = Vec::new();
    let mut i: usize = 0;
    while i < entries.len()
        invariant
            i <= entries@.len(),
            out@.len() == i,
            forall|j: int|
                0 <= j < i ==> (#[trigger] out@[j]).0@ == entries@[j].0@ && string_texts(
                    out@[j].1@,
                ) == string_texts(entries@[j].1@),
        decreases entries@.len() - i,
    {
        let name = entries[i].0.clone();
        let lines = copy_lines(&entries[i].1);
        out.push((name, lines));
        i += 1;
    }
    out
}

} // verus!
