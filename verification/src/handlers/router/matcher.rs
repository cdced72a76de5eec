//! Route patterns: the regular expression that stands for a pattern, and
//! what a path bound when it matched.
//!
//! A pattern is read from left to right. `**` stands for any run of segment
//! characters and `/`, `*` for any run of segment characters, `:name` for a
//! run of value characters kept under `name`; every other character stands
//! as it is, with the meaning the regex crate gives it.

use vstd::prelude::*;
use vstd::string::StringExecFns;
use crate::text::{chars_of, push_char};

verus! {

/// `regex::Regex`: a compiled regular expression, of which nothing is seen
/// but what the functions below say.
#[verifier::external_type_specification]
#[verifier::external_body]
pub struct ExRegex(regex::Regex);

/// `regex::Error`: why an expression was not compiled.
#[verifier::external_type_specification]
#[verifier::external_body]
pub struct ExRegexError(regex::Error);

/// The expression that a compiled regex was made from: what `Regex::as_str` returns.
pub uninterp spec fn regex_source(re: regex::Regex) -> Seq<char>;

/// Whether `Regex::new` accepts the expression.
pub uninterp spec fn regex_compiles(source: Seq<char>) -> bool;

/// The names of the groups of a regex as `Regex::capture_names` lists
/// them: one entry for each group, `None` for a group without a name.
pub uninterp spec fn regex_group_names(re: regex::Regex) -> Seq<Option<Seq<char>>>;

/// What `Regex::captures` finds of the regex in the text: `None` without a
/// match, else for each group the text it matched, `None` for a group that
/// took no part.
pub uninterp spec fn regex_captures(re: regex::Regex, text: Seq<char>) -> Option<
    Seq<Option<Seq<char>>>,
>;

/// An ASCII letter or digit.
pub open spec fn is_alnum(c: char) -> bool {
    ('a' <= c && c <= 'z') || ('A' <= c && c <= 'Z') || ('0' <= c && c <= '9')
}

/// A character that stands for something else than itself in a regular
/// expression outside a character class.
pub open spec fn is_regex_sign(c: char) -> bool {
    c == '\\' || c == '.' || c == '+' || c == '*' || c == '?' || c == '(' || c == ')' || c == '|'
        || c == '[' || c == ']' || c == '{' || c == '}' || c == '^' || c == '$'
}

/// A character that a regular expression matches where it stands in the
/// expression: every character that is no sign, and `.`, which matches any
/// character.
pub open spec fn matches_itself(c: char) -> bool {
    !is_regex_sign(c) || c == '.'
}

/// A character that a pattern hands to the regular expression as it is,
/// and that matches itself there: none of the pattern's own signs `:` and
/// `*`, and no sign of the regular expression but `.`.
pub open spec fn is_plain_char(c: char) -> bool {
    matches_itself(c) && c != ':' && c != '*'
}

/// A character that the group of a `:name` token matches.
pub open spec fn is_value_char(c: char) -> bool {
    is_alnum(c) || c == '%' || c == '_' || c == '-'
}

/// A character that the name of a `:name` token extends over.
pub open spec fn is_name_char(c: char) -> bool {
    is_alnum(c) || c == ',' || c == '_' || c == '-'
}

/// Text made of plain characters.
pub open spec fn is_plain(s: Seq<char>) -> bool {
    forall|i: int| 0 <= i < s.len() ==> is_plain_char(#[trigger] s[i])
}

/// Text made of characters that match themselves.
pub open spec fn matches_as_written(s: Seq<char>) -> bool {
    forall|i: int| 0 <= i < s.len() ==> matches_itself(#[trigger] s[i])
}

/// Text made of value characters.
pub open spec fn is_value(s: Seq<char>) -> bool {
    forall|i: int| 0 <= i < s.len() ==> is_value_char(#[trigger] s[i])
}

/// Text made of letters, digits and `_`: what a group can be called.
pub open spec fn is_group_name(s: Seq<char>) -> bool {
    forall|i: int| 0 <= i < s.len() ==> (is_alnum(#[trigger] s[i]) || s[i] == '_')
}

/// The expression for `*`: any run of segment characters.
pub open spec fn single_class() -> Seq<char> {
    "[,.a-zA-Z0-9_-]*"@
}

/// The expression for `**`: any run of segment characters and `/`.
pub open spec fn multi_class() -> Seq<char> {
    "[,./a-zA-Z0-9_-]*"@
}

/// The expression for `:name`: a group of that name over any run of value characters.
pub open spec fn capture_group(name: Seq<char>) -> Seq<char> {
    "(?P<"@ + name + ">[a-zA-Z0-9%_-]*)"@
}

/// An expression that has to match a text from its first character to its last.
pub open spec fn anchored(body: Seq<char>) -> Seq<char> {
    seq!['^'] + body + seq!['$']
}

/// That a regex made from an anchored run of characters that match
/// themselves has the one group of the whole match, and matches the run itself.
pub open spec fn reads_literal(re: regex::Regex, lit: Seq<char>) -> bool {
    regex_source(re) == anchored(lit) && matches_as_written(lit) ==> {
        &&& regex_group_names(re) == seq![None::<Seq<char>>]
        &&& regex_captures(re, lit) == Some(seq![Some(lit)])
    }
}

/// That a regex made from characters that match themselves round one
/// named group of value characters reads them as they stand: the group has
/// that name, and in a text made of the same characters round a run of
/// value characters it holds that run.
pub open spec fn reads_group(
    re: regex::Regex,
    pre: Seq<char>,
    name: Seq<char>,
    post: Seq<char>,
    value: Seq<char>,
) -> bool {
    regex_source(re) == anchored(pre + capture_group(name) + post) && matches_as_written(pre)
        && is_group_name(name) && matches_as_written(post) && is_value(value) ==> {
        &&& regex_group_names(re) == seq![None::<Seq<char>>, Some(name)]
        &&& regex_captures(re, pre + value + post) == Some(
            seq![Some(pre + value + post), Some(value)],
        )
    }
}

/// The number of `/` in a text.
pub open spec fn slashes(s: Seq<char>) -> nat
    decreases s.len(),
{
    if s.len() == 0 {
        0
    } else if s.last() == '/' {
        slashes(s.drop_last()) + 1
    } else {
        slashes(s.drop_last())
    }
}

/// A pattern whose tokens each stay within one segment: it has no `**`,
/// and no sign of the regular expression but `*`.
pub open spec fn is_segment_pattern(p: Seq<char>) -> bool {
    &&& forall|i: int| 0 <= i < p.len() ==> (!is_regex_sign(#[trigger] p[i]) || p[i] == '*')
    &&& forall|i: int| 0 <= i < p.len() - 1 ==> !(#[trigger] p[i] == '*' && p[i + 1] == '*')
}

/// That a regex made from the expression of a pattern whose tokens stay
/// within one segment matches only texts with as many `/` as the pattern
/// has: the expression is made of characters that match only themselves
/// and of runs over `[,.a-zA-Z0-9_-]` and `[a-zA-Z0-9%_-]`, which hold no `/`.
pub open spec fn keeps_slashes(re: regex::Regex, pattern: Seq<char>, text: Seq<char>) -> bool {
    regex_source(re) == route_regex(pattern) && is_segment_pattern(pattern) && regex_captures(
        re,
        text,
    ) is Some ==> slashes(text) == slashes(pattern)
}

/// What is relied on of how a regex that `Regex::new` made reads its expression.
pub open spec fn regex_reads_plainly(re: regex::Regex) -> bool {
    &&& forall|lit: Seq<char>| #[trigger] reads_literal(re, lit)
    &&& forall|pre: Seq<char>, name: Seq<char>, post: Seq<char>, value: Seq<char>| #[trigger]
        reads_group(re, pre, name, post, value)
    &&& forall|pattern: Seq<char>, text: Seq<char>| #[trigger] keeps_slashes(re, pattern, text)
}

/// The texts of a list of optional strings.
pub open spec fn texts_of(v: Seq<Option<String>>) -> Seq<Option<Seq<char>>> {
    Seq::new(
        v.len(),
        |i: int|
            match v[i] {
                Some(s) => Some(s@),
                None => None,
            },
    )
}

/// Compiles an expression.
///
/// Trusted: `regex::Regex::new`. It returns a regex exactly for the
/// expressions the crate accepts, the regex remembers the expression it was
/// made from, and it reads an expression made of `^`, characters that
/// match themselves, at most one named group over `[a-zA-Z0-9%_-]*`, and
/// `$` as it stands. An expression made of `^`, characters that match only
/// themselves, runs over classes without `/`, and `$` matches no text with
/// another number of `/` than it has itself.
#[verifier::external_body]
fn compile_regex(source: &str) -> (r: Result<regex::Regex, regex::Error>)
    ensures
        r is Ok <==> regex_compiles(source@),
        r matches Ok(re) ==> regex_source(re) == source@ && regex_reads_plainly(re),
{
    regex::Regex::new(source)
}

/// The expression the regex was made from.
///
/// Trusted: `regex::Regex::as_str`.
#[verifier::external_body]
fn source_of(re: &regex::Regex) -> (s: &str)
    ensures
        s@ == regex_source(*re),
{
    re.as_str()
}

/// Whether the regex matches somewhere in the text.
///
/// Trusted: `regex::Regex::is_match`. It holds exactly where `captures`
/// finds a match.
#[verifier::external_body]
fn test_regex(re: &regex::Regex, text: &str) -> (b: bool)
    ensures
        b == regex_captures(*re, text@) is Some,
{
    re.is_match(text)
}

/// The groups of the first match of the regex in the text.
///
/// Trusted: `regex::Regex::captures` with `Captures::iter`. The result is a
/// function of the regex and the text.
#[verifier::external_body]
fn capture_regex(re: &regex::Regex, text: &str) -> (r: Option<Vec<Option<String>>>)
    ensures
        match r {
            Some(groups) => regex_captures(*re, text@) == Some(texts_of(groups@)),
            None => regex_captures(*re, text@) is None,
        },
{
    re.captures(text).map(|caps| caps.iter().map(|m| m.map(|m| m.as_str().to_string())).collect())
}

/// The names of the groups of the regex.
///
/// Trusted: `regex::Regex::capture_names`; the list is a function of the regex.
#[verifier::external_body]
fn group_names_of(re: &regex::Regex) -> (r: Vec<Option<String>>)
    ensures
        texts_of(r@) == regex_group_names(*re),
{
    re.capture_names().map(|n| n.map(|s| s.to_string())).collect()
}

/// Where the run of name characters that starts at `from` ends.
pub open spec fn name_end(p: Seq<char>, from: int) -> int
    decreases p.len() - from,
{
    if 0 <= from < p.len() && is_name_char(p[from]) {
        name_end(p, from + 1)
    } else {
        from
    }
}

/// The run of name characters ends at or after its start, and inside the pattern.
pub proof fn lemma_name_end_bounds(p: Seq<char>, from: int)
    requires
        0 <= from <= p.len(),
    ensures
        from <= name_end(p, from) <= p.len(),
    decreases p.len() - from,
{
    if from < p.len() && is_name_char(p[from]) {
        lemma_name_end_bounds(p, from + 1);
    }
}

/// The expression for the part of a pattern from `from` on.
pub open spec fn expression_from(p: Seq<char>, from: int) -> Seq<char>
    decreases p.len() - from,
{
    if from < 0 || from >= p.len() {
        Seq::<char>::empty()
    } else if p[from] == '*' {
        if from + 1 < p.len() && p[from + 1] == '*' {
            multi_class() + expression_from(p, from + 2)
        } else {
            single_class() + expression_from(p, from + 1)
        }
    } else if p[from] == ':' {
        let end = name_end(p, from + 1);
        proof {
            lemma_name_end_bounds(p, from + 1);
        }
        capture_group(p.subrange(from + 1, end)) + expression_from(p, end)
    } else {
        seq![p[from]] + expression_from(p, from + 1)
    }
}

/// The regular expression of a route pattern.
pub open spec fn route_regex(pattern: Seq<char>) -> Seq<char> {
    anchored(expression_from(pattern, 0))
}

/// The bindings among the first `k` groups: each group that has a name and
/// matched a text that is not empty, by its name and its text, in the
/// order of the groups.
pub open spec fn named_captures_upto(
    names: Seq<Option<Seq<char>>>,
    groups: Seq<Option<Seq<char>>>,
    k: int,
) -> Seq<(Seq<char>, Seq<char>)>
    decreases k,
{
    if k <= 0 {
        Seq::<(Seq<char>, Seq<char>)>::empty()
    } else {
        let rest = named_captures_upto(names, groups, k - 1);
        match (names[k - 1], groups[k - 1]) {
            (Some(n), Some(v)) => if v.len() > 0 {
                rest.push((n, v))
            } else {
                rest
            },
            _ => rest,
        }
    }
}

/// The bindings of a match: names and groups taken in pairs, as far as both go.
pub open spec fn named_captures(
    names: Seq<Option<Seq<char>>>,
    groups: Seq<Option<Seq<char>>>,
) -> Seq<(Seq<char>, Seq<char>)> {
    if names.len() <= groups.len() {
        named_captures_upto(names, groups, names.len() as int)
    } else {
        named_captures_upto(names, groups, groups.len() as int)
    }
}

/// What matching a path against a regex gives: nothing where the regex
/// does not match, else the bindings of the match.
pub open spec fn route_match(re: regex::Regex, path: Seq<char>) -> Option<
    Seq<(Seq<char>, Seq<char>)>,
> {
    match regex_captures(re, path) {
        None => None,
        Some(groups) => Some(named_captures(regex_group_names(re), groups)),
    }
}

/// The value of the first binding of `key`.
pub open spec fn first_value(pairs: Seq<(Seq<char>, Seq<char>)>, key: Seq<char>) -> Option<
    Seq<char>,
>
    decreases pairs.len(),
{
    if pairs.len() == 0 {
        None
    } else if pairs[0].0 == key {
        Some(pairs[0].1)
    } else {
        first_value(pairs.drop_first(), key)
    }
}

/// The bindings of a successful match, in the order of the pattern's names.
#[derive(Debug)]
pub struct RouteResult {
    params: Vec<(String, String)>,
}

impl View for RouteResult {
    type V = Seq<(Seq<char>, Seq<char>)>;

    closed spec fn view(&self) -> Seq<(Seq<char>, Seq<char>)> {
        Seq::new(self.params@.len(), |i: int| (self.params@[i].0@, self.params@[i].1@))
    }
}

impl RouteResult {
    /// A result with the given bindings.
    pub fn from_pairs(params: Vec<(String, String)>) -> (r: RouteResult)
        ensures
            r@ == Seq::new(params@.len(), |i: int| (params@[i].0@, params@[i].1@)),
    {
        RouteResult { params }
    }

    /// The number of bindings.
    pub fn len(&self) -> (n: usize)
        ensures
            n == self@.len(),
    {
        self.params.len()
    }

    /// The value bound to `key`: that of the first binding of that name.
    pub fn param(&self, key: &str) -> (r: Option<&str>)
        ensures
            match r {
                Some(v) => first_value(self@, key@) == Some(v@),
                None => first_value(self@, key@) is None,
            },
    {
        let wanted = key.to_owned();
        let mut i: usize = 0;
        assert(self@.skip(0) =~= self@);
        while i < self.params.len()
            invariant
                i <= self.params@.len(),
                wanted@ == key@,
                first_value(self@, key@) == first_value(self@.skip(i as int), key@),
            decreases self.params@.len() - i,
        {
            assert(self@.skip(i as int)[0] == self@[i as int]);
            assert(self@.skip(i as int).drop_first() =~= self@.skip(i as int + 1));
            if self.params[i].0 == wanted {
                return Some(self.params[i].1.as_str());
            }
            i += 1;
        }
        None
    }
}

/// The bindings that a list of group names and the groups of a match give.
pub fn collect_params(names: &Vec<Option<String>>, groups: &Vec<Option<String>>) -> (r:
    RouteResult)
    ensures
        r@ == named_captures(texts_of(names@), texts_of(groups@)),
{
    let n = if names.len() <= groups.len() {
        names.len()
    } else {
        groups.len()
    };
    let mut params: Vec<(String, String)> = Vec::new();
    let mut i: usize = 0;
    while i < n
        invariant
            i <= n,
            n <= names@.len(),
            n <= groups@.len(),
            Seq::new(params@.len(), |k: int| (params@[k].0@, params@[k].1@))
                == named_captures_upto(texts_of(names@), texts_of(groups@), i as int),
        decreases n - i,
    {
        let ghost before = Seq::new(params@.len(), |k: int| (params@[k].0@, params@[k].1@));
        match (&names[i], &groups[i]) {
            (Some(name), Some(value)) => {
                if !value.as_str().is_empty() {
                    params.push((name.clone(), value.clone()));
                    assert(Seq::new(params@.len(), |k: int| (params@[k].0@, params@[k].1@))
                        =~= before.push((name@, value@)));
                }
            },
            _ => {},
        }
        i += 1;
    }
    RouteResult { params }
}

/// Whether a character extends the name of a `:name` token.
fn name_char(c: char) -> (b: bool)
    ensures
        b == is_name_char(c),
{
    ('a' <= c && c <= 'z') || ('A' <= c && c <= 'Z') || ('0' <= c && c <= '9') || c == ','
        || c == '_' || c == '-'
}

/// The regular expression of a route pattern, as text.
pub fn route_expression(pattern: &str) -> (r: String)
    ensures
        r@ == route_regex(pattern@),
{
    let p = chars_of(pattern);
    let mut out = String::new();
    push_char(&mut out, '^');
    let mut i: usize = 0;
    assert(out@ + expression_from(p@, 0) =~= seq!['^'] + expression_from(p@, 0));
    while i < p.len()
        invariant
            i <= p@.len(),
            out@ + expression_from(p@, i as int) == seq!['^'] + expression_from(p@, 0),
        decreases p@.len() - i,
    {
        let ghost start = out@;
        let ghost at = i as int;
        let c = p[i];
        if c == '*' {
            if i + 1 < p.len() && p[i + 1] == '*' {
                out.append("[,./a-zA-Z0-9_-]*");
                i += 2;
            } else {
                out.append("[,.a-zA-Z0-9_-]*");
                i += 1;
            }
        } else if c == ':' {
            out.append("(?P<");
            let first = i + 1;
            let mut j: usize = first;
            assert(p@.subrange(first as int, j as int) =~= Seq::<char>::empty());
            assert(out@ =~= start + "(?P<"@ + p@.subrange(first as int, j as int));
            while j < p.len() && name_char(p[j])
                invariant
                    first <= j <= p@.len(),
                    name_end(p@, first as int) == name_end(p@, j as int),
                    out@ == start + "(?P<"@ + p@.subrange(first as int, j as int),
                decreases p@.len() - j,
            {
                push_char(&mut out, p[j]);
                j += 1;
                assert(p@.subrange(first as int, j as int) =~= p@.subrange(
                    first as int,
                    j as int - 1,
                ).push(p@[j as int - 1]));
                assert(out@ =~= start + "(?P<"@ + p@.subrange(first as int, j as int));
            }
            out.append(">[a-zA-Z0-9%_-]*)");
            assert(out@ =~= start + capture_group(p@.subrange(first as int, j as int)));
            i = j;
        } else {
            push_char(&mut out, c);
            i += 1;
        }
        assert(out@ + expression_from(p@, i as int) =~= start + expression_from(p@, at));
    }
    push_char(&mut out, '$');
    assert(out@ =~= route_regex(pattern@));
    out
}

/// A compiled route pattern.
pub struct Matcher {
    regex: regex::Regex,
}

impl Matcher {
    /// The regex the matcher runs.
    pub closed spec fn regex(&self) -> regex::Regex {
        self.regex
    }

    /// The regular expression the matcher runs.
    pub open spec fn source(&self) -> Seq<char> {
        regex_source(self.regex())
    }

    /// Whether the matcher is what compiling `pattern` gives.
    pub open spec fn compiled_from(&self, pattern: Seq<char>) -> bool {
        &&& self.source() == route_regex(pattern)
        &&& regex_reads_plainly(self.regex())
    }

    /// What matching `path` gives: nothing, or the bindings.
    pub open spec fn matches(&self, path: Seq<char>) -> Option<Seq<(Seq<char>, Seq<char>)>> {
        route_match(self.regex(), path)
    }

    /// A matcher that runs the given regex.
    pub fn new(regex: regex::Regex) -> (m: Matcher)
        ensures
            m.regex() == regex,
    {
        Matcher { regex: regex }
    }

    /// The regular expression the matcher runs, as text.
    pub fn expression(&self) -> (s: &str)
        ensures
            s@ == self.source(),
    {
        source_of(&self.regex)
    }

    /// Compiles a route pattern, where its expression is one the regex crate accepts.
    pub fn compile(pattern: &str) -> (r: Option<Matcher>)
        ensures
            r is Some <==> regex_compiles(route_regex(pattern@)),
            r matches Some(m) ==> m.compiled_from(pattern@),
    {
        let source = route_expression(pattern);
        match compile_regex(source.as_str()) {
            Ok(regex) => Some(Matcher::new(regex)),
            Err(_) => None,
        }
    }

    /// Whether a route pattern can be compiled.
    pub fn accepts(pattern: &str) -> (b: bool)
        ensures
            b == regex_compiles(route_regex(pattern@)),
    {
        Matcher::compile(pattern).is_some()
    }

    /// Compiles a route pattern that can be compiled.
    pub fn from(pattern: &str) -> (m: Matcher)
        requires
            regex_compiles(route_regex(pattern@)),
        ensures
            m.compiled_from(pattern@),
    {
        match Matcher::compile(pattern) {
            Some(m) => m,
            None => vstd::pervasive::unreached(),
        }
    }

    /// Matches a path, without its query string, against the pattern: the
    /// bindings where the whole path fits, nothing where it does not.
    pub fn match_route(&self, path: &str) -> (r: Option<RouteResult>)
        ensures
            match r {
                Some(result) => self.matches(path@) == Some(result@),
                None => self.matches(path@) is None,
            },
    {
        if !test_regex(&self.regex, path) {
            return None;
        }
        match capture_regex(&self.regex, path) {
            Some(groups) => {
                let names = group_names_of(&self.regex);
                Some(collect_params(&names, &groups))
            },
            None => None,
        }
    }
}

/// A pattern without `*` and `:` from `from` on stands in its expression as it is.
pub proof fn lemma_expression_of_plain(p: Seq<char>, from: int)
    requires
        0 <= from <= p.len(),
        forall|i: int| from <= i < p.len() ==> p[i] != '*' && p[i] != ':',
    ensures
        expression_from(p, from) == p.subrange(from, p.len() as int),
    decreases p.len() - from,
{
    if from < p.len() {
        lemma_expression_of_plain(p, from + 1);
        assert(seq![p[from]] + p.subrange(from + 1, p.len() as int) =~= p.subrange(
            from,
            p.len() as int,
        ));
    } else {
        assert(p.subrange(from, p.len() as int) =~= Seq::<char>::empty());
    }
}

/// A run of name characters that ends before another kind of character, or
/// at the end of the pattern, is the whole name.
pub proof fn lemma_name_end_of_run(p: Seq<char>, from: int, end: int)
    requires
        0 <= from <= end <= p.len(),
        forall|i: int| from <= i < end ==> is_name_char(p[i]),
        end < p.len() ==> !is_name_char(p[end]),
    ensures
        name_end(p, from) == end,
    decreases end - from,
{
    if from < end {
        lemma_name_end_of_run(p, from + 1, end);
    }
}

/// The expression of a pattern made of plain characters, one `:name` token
/// and plain characters again holds the two plain parts round one group.
pub proof fn lemma_expression_of_one_name(pre: Seq<char>, name: Seq<char>, post: Seq<char>, from: int)
    requires
        is_plain(pre),
        is_group_name(name),
        is_plain(post),
        post.len() > 0 ==> !is_name_char(post[0]),
        0 <= from <= pre.len(),
    ensures
        expression_from(pre + seq![':'] + name + post, from) == pre.subrange(
            from,
            pre.len() as int,
        ) + capture_group(name) + post,
    decreases pre.len() - from,
{
    let p = pre + seq![':'] + name + post;
    let a = pre.len() as int;
    let b = a + 1 + name.len();
    if from < a {
        assert(p[from] == pre[from]);
        assert(is_plain_char(pre[from]));
        lemma_expression_of_one_name(pre, name, post, from + 1);
        assert(seq![p[from]] + (pre.subrange(from + 1, a) + capture_group(name) + post)
            =~= pre.subrange(from, a) + capture_group(name) + post);
    } else {
        assert(p[a] == ':');
        assert forall|i: int| a + 1 <= i < b implies is_name_char(p[i]) by {
            assert(p[i] == name[i - a - 1]);
        }
        if b < p.len() {
            assert(p[b] == post[0]);
        }
        lemma_name_end_of_run(p, a + 1, b);
        assert(p.subrange(a + 1, b) =~= name);
        assert forall|i: int| b <= i < p.len() implies p[i] != '*' && p[i] != ':' by {
            assert(p[i] == post[i - b]);
            assert(is_plain_char(post[i - b]));
        }
        lemma_expression_of_plain(p, b);
        assert(p.subrange(b, p.len() as int) =~= post);
        assert(pre.subrange(a, a) + capture_group(name) + post =~= capture_group(name) + post);
    }
}

/// A pattern without `*` and `:`, and without a sign of the regular
/// expression but `.`, matches itself, and binds nothing.
pub proof fn lemma_literal_pattern_matches_itself(m: Matcher, pattern: Seq<char>)
    requires
        m.compiled_from(pattern),
        is_plain(pattern),
    ensures
        m.matches(pattern) == Some(Seq::<(Seq<char>, Seq<char>)>::empty()),
{
    assert forall|i: int| 0 <= i < pattern.len() implies pattern[i] != '*' && pattern[i]
        != ':' by {
        assert(is_plain_char(pattern[i]));
    }
    lemma_expression_of_plain(pattern, 0);
    assert(pattern.subrange(0, pattern.len() as int) =~= pattern);
    let re = m.regex();
    assert(matches_as_written(pattern)) by {
        assert forall|i: int| 0 <= i < pattern.len() implies matches_itself(
            #[trigger] pattern[i],
        ) by {
            assert(is_plain_char(pattern[i]));
        }
    }
    assert(reads_literal(re, pattern));
    let names = regex_group_names(re);
    let groups = seq![Some(pattern)];
    assert(named_captures_upto(names, groups, 0) =~= Seq::<(Seq<char>, Seq<char>)>::empty());
    assert(named_captures_upto(names, groups, 1) =~= Seq::<(Seq<char>, Seq<char>)>::empty());
}

/// A pattern with one `:name` token between plain characters matches every
/// path that has a run of value characters in the token's place, and binds
/// the name to that run; to nothing where the run is empty.
pub proof fn lemma_named_token_binds_value(
    m: Matcher,
    pre: Seq<char>,
    name: Seq<char>,
    post: Seq<char>,
    value: Seq<char>,
)
    requires
        m.compiled_from(pre + seq![':'] + name + post),
        is_plain(pre),
        is_group_name(name),
        is_plain(post),
        post.len() > 0 ==> !is_name_char(post[0]),
        is_value(value),
    ensures
        value.len() > 0 ==> m.matches(pre + value + post) == Some(seq![(name, value)]),
        value.len() > 0 ==> first_value(m.matches(pre + value + post)->0, name) == Some(value),
        value.len() == 0 ==> m.matches(pre + value + post) == Some(
            Seq::<(Seq<char>, Seq<char>)>::empty(),
        ),
{
    lemma_expression_of_one_name(pre, name, post, 0);
    assert(pre.subrange(0, pre.len() as int) =~= pre);
    let re = m.regex();
    assert(matches_as_written(pre)) by {
        assert forall|i: int| 0 <= i < pre.len() implies matches_itself(#[trigger] pre[i]) by {
            assert(is_plain_char(pre[i]));
        }
    }
    assert(matches_as_written(post)) by {
        assert forall|i: int| 0 <= i < post.len() implies matches_itself(#[trigger] post[i]) by {
            assert(is_plain_char(post[i]));
        }
    }
    assert(reads_group(re, pre, name, post, value));
    let names = regex_group_names(re);
    let text = pre + value + post;
    let groups = seq![Some(text), Some(value)];
    assert(named_captures_upto(names, groups, 0) =~= Seq::<(Seq<char>, Seq<char>)>::empty());
    assert(named_captures_upto(names, groups, 1) =~= Seq::<(Seq<char>, Seq<char>)>::empty());
    if value.len() > 0 {
        assert(named_captures_upto(names, groups, 2) =~= seq![(name, value)]);
    } else {
        assert(named_captures_upto(names, groups, 2) =~= Seq::<(Seq<char>, Seq<char>)>::empty());
    }
}

/// A pattern without `**`, and without a sign of the regular expression
/// but `*`, takes only paths with as many `/` as it has itself: neither
/// `*` nor `:name` takes a `/`.
pub proof fn lemma_single_segment_tokens_take_no_slash(
    m: Matcher,
    pattern: Seq<char>,
    path: Seq<char>,
)
    requires
        m.compiled_from(pattern),
        is_segment_pattern(pattern),
        m.matches(path) is Some,
    ensures
        slashes(path) == slashes(pattern),
{
    assert(keeps_slashes(m.regex(), pattern, path));
}

} // verus!
