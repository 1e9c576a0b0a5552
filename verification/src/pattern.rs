//! Pattern search in text, done by the `regex` crate.
use vstd::prelude::*;

verus! {

/// The leftmost-first match of the regular expression `pattern` in `text`,
/// as `regex::Regex::find` gives it; `None` where there is no match or
/// `pattern` does not compile.
pub uninterp spec fn regex_first_match(pattern: Seq<char>, text: Seq<char>) -> Option<Seq<char>>;

/// Compiles `pattern` with `regex::Regex::new` and returns the text of the
/// first match that `regex::Regex::find` reports in `text`. The contract
/// claims only that the result is a function of the pattern and the text,
/// named `regex_first_match`; what the match is, is left to the `regex`
/// crate and not stated.
#[verifier::external_body]
pub fn find_first_match(pattern: &str, text: &str) -> (res: Option<String>)
    ensures
        match res {
            Some(m) => regex_first_match(pattern@, text@) == Some(m@),
            None => regex_first_match(pattern@, text@) is None,
        },
{
    match regex::Regex::new(pattern) {
        Ok(re) => match re.find(text) {
            Some(m) => Some(m.as_str().to_string()),
            None => None,
        },
        Err(_) => None,
    }
}


/// The groups of every non-overlapping match of `pattern` in `text`, match by
/// match, as `regex::Regex::captures_iter` reports them: for each group (the
/// whole match first) its text, or `None` where the group took no part in the
/// match. Empty where `pattern` does not compile.
pub uninterp spec fn regex_captures(pattern: Seq<char>, text: Seq<char>) -> Seq<Seq<Option<Seq<char>>>>;

/// Compiles `pattern` with `regex::Regex::new` and lists, for every match that
/// `regex::Regex::captures_iter` reports in `text`, the text of each of its
/// groups. The contract claims only that the result is a function of the
/// pattern and the text, named `regex_captures`; which matches the `regex`
/// crate finds is not stated.
#[verifier::external_body]
fn captures_of(pattern: &str, text: &str) -> (res: Vec<Vec<Option<String>>>)
    ensures
        res.deep_view() == regex_captures(pattern@, text@),
{
    let mut res: Vec<Vec<Option<String>>> = Vec::new();
    if let Ok(re) = regex::Regex::new(pattern) {
        for caps in re.captures_iter(text) {
            let mut groups: Vec<Option<String>> = Vec::new();
            for group in caps.iter() {
                groups.push(group.map(|m| m.as_str().to_string()));
            }
            res.push(groups);
        }
    }
    res
}

/// The texts of the groups that took part, match by match and group by group.
pub open spec fn present_groups(captures: Seq<Seq<Option<Seq<char>>>>) -> Seq<Seq<char>>
    decreases captures.len(),
{
    if captures.len() == 0 {
        seq![]
    } else {
        present_groups(captures.drop_last()) + captures.last().filter_map(|g: Option<Seq<char>>| g)
    }
}

/// What `capture_texts` gives for `pattern` and `text`.
pub open spec fn regex_capture_texts(pattern: Seq<char>, text: Seq<char>) -> Seq<Seq<char>> {
    present_groups(regex_captures(pattern, text))
}

/// The texts of all groups of all non-overlapping matches of `pattern` in
/// `text`, match by match and group by group (the whole match first); the
/// groups that took no part in a match are left out.
pub fn capture_texts(pattern: &str, text: &str) -> (res: Vec<String>)
    ensures
        res.deep_view() == regex_capture_texts(pattern@, text@),
{
    let caps = captures_of(pattern, text);
    let ghost cs = caps.deep_view();
    let mut res: Vec<String> = Vec::new();
    let mut i: usize = 0;
    proof {
        assert(cs.take(0) =~= seq![]);
    }
    while i < caps.len()
        invariant
            cs == caps.deep_view(),
            i <= caps.len(),
            res.deep_view() == present_groups(cs.take(i as int)),
        decreases caps.len() - i,
    {
        let groups = &caps[i];
        let ghost gs = groups.deep_view();
        let ghost before = res.deep_view();
        proof {
            assert(gs == cs[i as int]);
            assert(gs.take(0) =~= seq![]);
            assert(before + gs.take(0).filter_map(|g: Option<Seq<char>>| g) =~= before);
        }
        let mut j: usize = 0;
        while j < groups.len()
            invariant
                gs == groups.deep_view(),
                j <= groups.len(),
                res.deep_view() == before + gs.take(j as int).filter_map(|g: Option<Seq<char>>| g),
            decreases groups.len() - j,
        {
            proof {
                gs.lemma_filter_map_take_succ(|g: Option<Seq<char>>| g, j as int);
                assert(gs[j as int] == groups[j as int].deep_view());
            }
            let ghost mid = res.deep_view();
            match &groups[j] {
                Some(m) => {
                    res.push(m.clone());
                    proof {
                        assert(res.deep_view() =~= mid.push(m@));
                    }
                },
                None => {},
            }
            proof {
                assert(res.deep_view() =~= before + gs.take(j + 1).filter_map(|g: Option<Seq<char>>| g));
            }
            j = j + 1;
        }
        proof {
            assert(gs.take(groups.len() as int) =~= gs);
            assert(cs.take(i + 1).drop_last() =~= cs.take(i as int));
        }
        i = i + 1;
    }
    proof {
        assert(cs.take(caps.len() as int) =~= cs);
    }
    res
}

} // verus!
