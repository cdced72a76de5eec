//! Query and form parameters.

use vstd::prelude::*;
use crate::assoc::{
    copy_entries, find_name, lemma_appended, lemma_entry_stands, lemma_replaced,
    lemma_same_entries, lines_by_name, names_differ,
};
use crate::text::string_texts;

verus! {

/// The pairs of names and values that `url::form_urlencoded::parse` reads
/// from a text in the `application/x-www-form-urlencoded` syntax.
pub uninterp spec fn form_urlencoded_pairs(input: Seq<char>) -> Seq<(Seq<char>, Seq<char>)>;

/// Reads the pairs of a query string or a form body.
///
/// Trusted: `url::form_urlencoded::parse`, run to its end. The pairs are a
/// function of the text.
#[verifier::external_body]
fn parse_pairs(s: &str) -> (r: Vec<(String, String)>)
    ensures
        pair_texts(r@) == form_urlencoded_pairs(s@),
{
    url::form_urlencoded::parse(s.as_bytes()).map(|(k, v)| (k.into_owned(), v.into_owned())).collect()
}

/// The texts of a list of pairs of strings.
pub open spec fn pair_texts(v: Seq<(String, String)>) -> Seq<(Seq<char>, Seq<char>)> {
    Seq::new(v.len(), |i: int| (v[i].0@, v[i].1@))
}

/// The values that a list of pairs gives under `key`, in the order of the list.
pub open spec fn values_for(pairs: Seq<(Seq<char>, Seq<char>)>, key: Seq<char>) -> Seq<Seq<char>>
    decreases pairs.len(),
{
    if pairs.len() == 0 {
        Seq::<Seq<char>>::empty()
    } else {
        let rest = values_for(pairs.drop_last(), key);
        if pairs.last().0 == key {
            rest.push(pairs.last().1)
        } else {
            rest
        }
    }
}

/// The parameters that a list of pairs stands for: each name that occurs,
/// with all its values in the order of the list.
pub open spec fn query_of(pairs: Seq<(Seq<char>, Seq<char>)>) -> Map<Seq<char>, Seq<Seq<char>>> {
    Map::new(
        |k: Seq<char>| values_for(pairs, k).len() > 0,
        |k: Seq<char>| values_for(pairs, k),
    )
}

/// Whether a list of entries holds no name twice and no name without a value.
pub open spec fn params_ok(s: Seq<(String, Vec<String>)>) -> bool {
    &&& forall|i: int| 0 <= i < s.len() ==> (#[trigger] s[i]).1@.len() > 0
    &&& names_differ(s)
}

/// Query parameters or form parameters: under each name the values given
/// for it, in the order they were given.
#[derive(Debug)]
pub struct Query {
    map: Vec<(String, Vec<String>)>,
}

impl View for Query {
    type V = Map<Seq<char>, Seq<Seq<char>>>;

    closed spec fn view(&self) -> Map<Seq<char>, Seq<Seq<char>>> {
        lines_by_name(self.map@)
    }
}

/// One more pair gives its value behind the values of its name, and leaves
/// the other names as they are.
proof fn lemma_query_of_push(pairs: Seq<(Seq<char>, Seq<char>)>, k: Seq<char>, v: Seq<char>)
    ensures
        query_of(pairs.push((k, v))) == query_of(pairs).insert(k, values_for(pairs, k).push(v)),
{
    let more = pairs.push((k, v));
    assert(more.drop_last() =~= pairs);
    assert forall|m: Seq<char>| values_for(more, m) == if m == k {
        values_for(pairs, m).push(v)
    } else {
        values_for(pairs, m)
    } by {}
    assert(query_of(more) =~= query_of(pairs).insert(k, values_for(pairs, k).push(v)));
}

impl Query {
    #[verifier::type_invariant]
    spec fn inv(&self) -> bool {
        params_ok(self.map@)
    }

    /// The first value under `key`, if the parameters hold the name.
    pub open spec fn first_of(&self, key: Seq<char>) -> Option<Seq<char>> {
        if self@.contains_key(key) {
            Some(self@[key][0])
        } else {
            None
        }
    }

    /// No parameters.
    pub fn new() -> (q: Query)
        ensures
            q@ == Map::<Seq<char>, Seq<Seq<char>>>::empty(),
    {
        let q = Query { map: Vec::new() };
        assert(q@ =~= Map::<Seq<char>, Seq<Seq<char>>>::empty());
        q
    }

    /// The parameters of a list of pairs of names and values.
    pub fn from_pairs(pairs: &Vec<(String, String)>) -> (q: Query)
        ensures
            q@ == query_of(pair_texts(pairs@)),
    {
        let ghost all = pair_texts(pairs@);
        let mut entries: Vec<(String, Vec<String>)> = Vec::new();
        let mut i: usize = 0;
        assert(lines_by_name(entries@) =~= query_of(all.take(0)));
        while i < pairs.len()
            invariant
                i <= pairs@.len(),
                all == pair_texts(pairs@),
                params_ok(entries@),
                lines_by_name(entries@) == query_of(all.take(i as int)),
            decreases pairs@.len() - i,
        {
            let key = pairs[i].0.clone();
            let value = pairs[i].1.clone();
            let ghost k = key@;
            let ghost v = value@;
            let ghost before = entries@;
            let ghost seen = all.take(i as int);
            proof {
                assert(all.take(i as int + 1) =~= seen.push((k, v)));
                lemma_query_of_push(seen, k, v);
                assert(query_of(seen).contains_key(k) == (values_for(seen, k).len() > 0));
            }
            match find_name(&entries, &key) {
                Some(idx) => {
                    proof {
                        lemma_entry_stands(before, idx as int);
                    }
                    let mut entry = entries.remove(idx);
                    entry.1.push(value);
                    let ghost lines = string_texts(entry.1@);
                    entries.insert(idx, entry);
                    proof {
                        assert(lines =~= string_texts(before[idx as int].1@).push(v));
                        lemma_replaced(before, entries@, idx as int, lines);
                    }
                },
                None => {
                    let mut values: Vec<String> = Vec::new();
                    values.push(value);
                    entries.push((key, values));
                    proof {
                        assert(string_texts(values@) =~= seq![v]);
                        assert(values_for(seen, k).push(v) =~= seq![v]);
                        lemma_appended(before, entries@, k, seq![v]);
                    }
                },
            }
            i += 1;
        }
        assert(all.take(pairs@.len() as int) =~= all);
        Query { map: entries }
    }

    /// Parses a query string or a form body.
    pub fn from_string(s: &str) -> (q: Query)
        ensures
            q@ == query_of(form_urlencoded_pairs(s@)),
    {
        let pairs = parse_pairs(s);
        Query::from_pairs(&pairs)
    }

    /// Returns the first value under `key`, and `None` if the name does not occur.
    pub fn find_first(&self, key: &str) -> (r: Option<&str>)
        ensures
            match r {
                Some(v) => self.first_of(key@) == Some(v@),
                None => self.first_of(key@) is None,
            },
    {
        proof {
            use_type_invariant(self);
        }
        let wanted = key.to_owned();
        match find_name(&self.map, &wanted) {
            Some(i) => {
                proof {
                    lemma_entry_stands(self.map@, i as int);
                }
                Some(self.map[i].1[0].as_str())
            },
            None => None,
        }
    }

    /// The parameters as a list: each name once, with its values.
    pub fn entries(&self) -> (r: Vec<(String, Vec<String>)>)
        ensures
            params_ok(r@),
            lines_by_name(r@) == self@,
    {
        proof {
            use_type_invariant(self);
        }
        let out = copy_entries(&self.map);
        proof {
            lemma_same_entries(out@, self.map@);
            assert forall|i: int| 0 <= i < out@.len() implies (#[trigger] out@[i]).1@.len()
                > 0 by {
                assert(string_texts(out@[i].1@).len() == string_texts(self.map@[i].1@).len());
                assert(self.map@[i].1@.len() > 0);
            }
        }
        out
    }
}

} // verus!
