//! Regular-expression matching, done by `regex`.

use crate::seqs::option_view;
use crate::seqs::views;
use regex::Regex;
use vstd::prelude::*;

verus! {

/// The capture groups of one match: group 0 is the whole match, and a group
/// that took no part in the match is `None`.
pub struct Groups {
    pub groups: Vec<Option<String>>,
}

impl View for Groups {
    type V = Seq<Option<Seq<char>>>;

    open spec fn view(&self) -> Seq<Option<Seq<char>>> {
        Seq::new(
            self.groups@.len(),
            |i: int|
                match self.groups@[i] {
                    Some(s) => Some(s@),
                    None => None,
                },
        )
    }
}

/// The groups of the leftmost match of the regular expression `pattern` in
/// `text`, as `regex` reports them; `None` where there is no match or
/// `pattern` does not compile.
pub uninterp spec fn first_match(pattern: Seq<char>, text: Seq<char>) -> Option<
    Seq<Option<Seq<char>>>,
>;

/// The groups of the successive non-overlapping matches of `pattern` in
/// `text`, as `regex` reports them, in order; empty where there is no match
/// or `pattern` does not compile.
pub uninterp spec fn all_matches(pattern: Seq<char>, text: Seq<char>) -> Seq<
    Seq<Option<Seq<char>>>,
>;

/// Compiles `pattern` once with `Regex::new` and searches each of `texts`
/// with `Regex::captures`; the result for each text is the one named by
/// `first_match`. Every match has group 0, and group 0 is present.
#[verifier::external_body]
pub(crate) fn captures_in_each(pattern: &str, texts: &Vec<String>) -> (r: Vec<Option<Groups>>)
    ensures
        r@.len() == texts@.len(),
        forall|i: int|
            0 <= i < r@.len() ==> option_view(#[trigger] r@[i]) == first_match(
                pattern@,
                texts@[i]@,
            ),
        forall|i: int|
            0 <= i < r@.len() ==> ((#[trigger] r@[i]) matches Some(g) ==> g@.len() >= 1 && g@[0]
                is Some),
{
    match Regex::new(pattern) {
        Ok(re) => texts.iter().map(
            |text|
                re.captures(text).map(
                    |caps|
                        Groups {
                            groups: caps.iter().map(|m| m.map(|m| m.as_str().to_string())).collect(),
                        },
                ),
        ).collect(),
        Err(_) => texts.iter().map(|_| None).collect(),
    }
}

/// The groups of the leftmost match of `pattern` in `text`. Every match
/// has group 0, and group 0 is present.
pub fn captures(pattern: &str, text: &str) -> (r: Option<Groups>)
    ensures
        option_view(r) == first_match(pattern@, text@),
        r matches Some(g) ==> g@.len() >= 1 && g@[0] is Some,
{
    let mut texts: Vec<String> = Vec::new();
    texts.push(String::from_str(text));
    let mut found = captures_in_each(pattern, &texts);
    assert(texts@[0]@ == text@);
    let ghost first = found@[0];
    match found.pop() {
        Some(r) => {
            assert(r == first);
            r
        },
        None => None,
    }
}

/// Compiles `pattern` with `Regex::new` and walks `Regex::captures_iter`
/// over `text`; the result is the one named by `all_matches`. Every match
/// has group 0, and group 0 is present.
#[verifier::external_body]
pub(crate) fn captures_all(pattern: &str, text: &str) -> (r: Vec<Groups>)
    ensures
        views(r@) == all_matches(pattern@, text@),
        forall|i: int| 0 <= i < r@.len() ==> (#[trigger] r@[i])@.len() >= 1 && r@[i]@[0] is Some,
{
    match Regex::new(pattern) {
        Ok(re) => re.captures_iter(text).map(
            |caps| Groups { groups: caps.iter().map(|m| m.map(|m| m.as_str().to_string())).collect() },
        ).collect(),
        Err(_) => Vec::new(),
    }
}

/// The text `text` with the leftmost match of the regular expression
/// `pattern` replaced by `replacement`, in which `$` refers to groups, as
/// `regex` does it; `text` itself where there is no match or `pattern`
/// does not compile.
pub uninterp spec fn replaced_first(pattern: Seq<char>, text: Seq<char>, replacement: Seq<char>) -> Seq<
    char,
>;

/// Compiles `pattern` with `Regex::new` and replaces the leftmost match in
/// `text` with `Regex::replace`; the result is the one named by
/// `replaced_first`.
#[verifier::external_body]
pub(crate) fn replace_first(pattern: &str, text: &str, replacement: &str) -> (r: String)
    ensures
        r@ == replaced_first(pattern@, text@, replacement@),
{
    match Regex::new(pattern) {
        Ok(re) => re.replace(text, replacement).into_owned(),
        Err(_) => text.to_string(),
    }
}

impl Clone for Groups {
    fn clone(&self) -> (r: Self)
        ensures
            r@ == self@,
    {
        let mut groups: Vec<Option<String>> = Vec::new();
        let mut i: usize = 0;
        while i < self.groups.len()
            invariant
                i <= self.groups.len(),
                groups@.len() == i,
                forall|k: int|
                    0 <= k < i ==> option_view(#[trigger] groups@[k]) == option_view(
                        self.groups@[k],
                    ),
            decreases self.groups.len() - i,
        {
            let g = match &self.groups[i] {
                Some(s) => Some(s.clone()),
                None => None,
            };
            groups.push(g);
            i += 1;
        }
        let r = Groups { groups };
        assert(r@ =~= self@);
        r
    }
}

impl Groups {
    /// The number of groups, group 0 included.
    pub fn len(&self) -> (n: usize)
        ensures
            n == self@.len(),
    {
        self.groups.len()
    }

    /// The text of group `i`, where that group exists and took part in the match.
    pub fn get(&self, i: usize) -> (r: Option<&String>)
        ensures
            match r {
                Some(s) => i < self@.len() && self@[i as int] == Some(s@),
                None => i >= self@.len() || self@[i as int] is None,
            },
    {
        if i < self.groups.len() {
            match &self.groups[i] {
                Some(s) => Some(s),
                None => None,
            }
        } else {
            None
        }
    }
}

} // verus!
