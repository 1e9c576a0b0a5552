//! Text primitives on character sequences: trimming, searching, replacing
//! and splitting, each stated over `Seq<char>` and implemented on `&str`.
use vstd::prelude::*;

verus! {

broadcast use vstd::string::group_string_axioms;

/// Unicode `White_Space`: the characters that `char::is_whitespace` accepts.
pub open spec fn is_white(c: char) -> bool {
    ||| ('\u{9}' <= c && c <= '\u{d}')
    ||| c == ' '
    ||| c == '\u{85}'
    ||| c == '\u{a0}'
    ||| c == '\u{1680}'
    ||| ('\u{2000}' <= c && c <= '\u{200a}')
    ||| c == '\u{2028}'
    ||| c == '\u{2029}'
    ||| c == '\u{202f}'
    ||| c == '\u{205f}'
    ||| c == '\u{3000}'
}

/// `s` without its leading white space.
pub open spec fn trim_start(s: Seq<char>) -> Seq<char>
    decreases s.len(),
{
    if s.len() > 0 && is_white(s[0]) {
        trim_start(s.drop_first())
    } else {
        s
    }
}

/// `s` without its trailing white space.
pub open spec fn trim_end(s: Seq<char>) -> Seq<char>
    decreases s.len(),
{
    if s.len() > 0 && is_white(s.last()) {
        trim_end(s.drop_last())
    } else {
        s
    }
}

/// `s` without leading and trailing white space, as `str::trim` gives it.
pub open spec fn trim(s: Seq<char>) -> Seq<char> {
    trim_end(trim_start(s))
}

/// `pat` occurs in `s` at position `i`.
pub open spec fn occurs_at(s: Seq<char>, pat: Seq<char>, i: int) -> bool {
    0 <= i && i + pat.len() <= s.len() && s.subrange(i, i + pat.len()) == pat
}

/// `pat` occurs somewhere in `s`.
pub open spec fn contains(s: Seq<char>, pat: Seq<char>) -> bool {
    exists|i: int| occurs_at(s, pat, i)
}

/// Every non-overlapping occurrence of `pat` in `s`, taken from left to right,
/// replaced by `rep`.
pub open spec fn replace_all(s: Seq<char>, pat: Seq<char>, rep: Seq<char>) -> Seq<char>
    decreases s.len(),
{
    if s.len() == 0 {
        seq![]
    } else if pat.len() > 0 && occurs_at(s, pat, 0) {
        rep + replace_all(s.skip(pat.len() as int), pat, rep)
    } else {
        seq![s[0]] + replace_all(s.skip(1), pat, rep)
    }
}

/// `pieces` with `p` put in front of its first piece.
pub open spec fn prepend_first(p: Seq<char>, pieces: Seq<Seq<char>>) -> Seq<Seq<char>> {
    pieces.update(0, p + pieces[0])
}

/// The pieces of `s` between the non-overlapping occurrences of `pat`, from
/// left to right, as `str::split` gives them.
pub open spec fn split(s: Seq<char>, pat: Seq<char>) -> Seq<Seq<char>>
    decreases s.len(),
{
    if s.len() == 0 {
        seq![seq![]]
    } else if pat.len() > 0 && occurs_at(s, pat, 0) {
        seq![seq![]] + split(s.skip(pat.len() as int), pat)
    } else {
        prepend_first(seq![s[0]], split(s.skip(1), pat))
    }
}

/// The text before the first occurrence of `pat`, or all of `s`.
pub open spec fn first_piece(s: Seq<char>, pat: Seq<char>) -> Seq<char> {
    split(s, pat)[0]
}

pub proof fn lemma_split_nonempty(s: Seq<char>, pat: Seq<char>)
    ensures
        split(s, pat).len() >= 1,
    decreases s.len(),
{
    if s.len() > 0 {
        if pat.len() > 0 && occurs_at(s, pat, 0) {
            lemma_split_nonempty(s.skip(pat.len() as int), pat);
        } else {
            lemma_split_nonempty(s.skip(1), pat);
        }
    }
}

/// The characters of `s`, one by one.
pub fn chars_of(s: &str) -> (res: Vec<char>)
    ensures
        res@ == s@,
{
    let mut res: Vec<char> = Vec::new();
    for c in iter: s.chars()
        invariant
            iter.seq() == s@,
            res@ == iter.seq().take(iter.index() as int),
    {
        res.push(c);
    }
    res
}

/// Exec check of `is_white`.
pub fn char_is_white(c: char) -> (res: bool)
    ensures
        res == is_white(c),
{
    ('\u{9}' <= c && c <= '\u{d}') || c == ' ' || c == '\u{85}' || c == '\u{a0}' || c
        == '\u{1680}' || ('\u{2000}' <= c && c <= '\u{200a}') || c == '\u{2028}' || c
        == '\u{2029}' || c == '\u{202f}' || c == '\u{205f}' || c == '\u{3000}'
}

/// Whether `pat` occurs in `s` at position `i`.
pub fn occurs_at_exec(s: &Vec<char>, pat: &Vec<char>, i: usize) -> (res: bool)
    ensures
        res == occurs_at(s@, pat@, i as int),
{
    if i > s.len() || pat.len() > s.len() - i {
        return false;
    }
    let mut k: usize = 0;
    while k < pat.len()
        invariant
            i + pat.len() <= s.len(),
            k <= pat.len(),
            forall|j: int| 0 <= j < k ==> s@[i + j] == pat@[j],
        decreases pat.len() - k,
    {
        if s[i + k] != pat[k] {
            assert(s@.subrange(i as int, i + pat.len())[k as int] != pat@[k as int]);
            return false;
        }
        k = k + 1;
    }
    assert(s@.subrange(i as int, i + pat.len()) =~= pat@);
    true
}

/// Whether the two texts are equal.
pub fn text_eq(a: &str, b: &str) -> (res: bool)
    ensures
        res == (a@ == b@),
{
    let x = chars_of(a);
    let y = chars_of(b);
    if x.len() != y.len() {
        return false;
    }
    let mut k: usize = 0;
    while k < x.len()
        invariant
            x@ == a@,
            y@ == b@,
            x.len() == y.len(),
            k <= x.len(),
            forall|j: int| 0 <= j < k ==> x@[j] == y@[j],
        decreases x.len() - k,
    {
        if x[k] != y[k] {
            return false;
        }
        k = k + 1;
    }
    assert(x@ =~= y@);
    true
}

/// Whether `pat` occurs in `s`.
pub fn contains_text(s: &str, pat: &str) -> (res: bool)
    ensures
        res == contains(s@, pat@),
{
    let sc = chars_of(s);
    let pc = chars_of(pat);
    let mut i: usize = 0;
    while i < sc.len()
        invariant
            sc@ == s@,
            pc@ == pat@,
            i <= sc.len(),
            forall|j: int| 0 <= j < i ==> !occurs_at(s@, pat@, j),
        decreases sc.len() - i,
    {
        if occurs_at_exec(&sc, &pc, i) {
            return true;
        }
        i = i + 1;
    }
    if occurs_at_exec(&sc, &pc, i) {
        return true;
    }
    assert forall|j: int| !occurs_at(s@, pat@, j) by {
        if 0 <= j && j <= i {
        }
    }
    false
}

proof fn lemma_trim_start_skip(s: Seq<char>, i: int)
    requires
        0 <= i <= s.len(),
        forall|j: int| 0 <= j < i ==> is_white(s[j]),
    ensures
        trim_start(s) == trim_start(s.skip(i)),
    decreases i,
{
    if i > 0 {
        lemma_trim_start_skip(s, i - 1);
        assert(s.skip(i - 1).drop_first() =~= s.skip(i));
    } else {
        assert(s.skip(0) =~= s);
    }
}

proof fn lemma_trim_end_take(s: Seq<char>, j: int)
    requires
        0 <= j <= s.len(),
        forall|k: int| j <= k < s.len() ==> is_white(s[k]),
    ensures
        trim_end(s) == trim_end(s.take(j)),
    decreases s.len() - j,
{
    if j < s.len() {
        lemma_trim_end_take(s, j + 1);
        assert(s.take(j + 1).drop_last() =~= s.take(j));
    } else {
        assert(s.take(j) =~= s);
    }
}

/// `s` without leading and trailing white space.
pub fn trim_text(s: &str) -> (res: &str)
    ensures
        res@ == trim(s@),
{
    let sc = chars_of(s);
    let n = sc.len();
    let mut i: usize = 0;
    while i < n && char_is_white(sc[i])
        invariant
            sc@ == s@,
            n == sc.len(),
            i <= n,
            forall|j: int| 0 <= j < i ==> is_white(s@[j]),
        decreases n - i,
    {
        i = i + 1;
    }
    proof {
        lemma_trim_start_skip(s@, i as int);
    }
    let mut j: usize = n;
    while j > i && char_is_white(sc[j - 1])
        invariant
            sc@ == s@,
            n == sc.len(),
            i <= j <= n,
            forall|k: int| j <= k < n ==> is_white(s@[k]),
        decreases j,
    {
        j = j - 1;
    }
    let ghost t = s@.skip(i as int);
    proof {
        assert forall|k: int| j - i <= k < t.len() implies is_white(t[k]) by {
            assert(t[k] == s@[k + i]);
        }
        lemma_trim_end_take(t, j - i);
        assert(t.take(j - i) =~= s@.subrange(i as int, j as int));
        let u = s@.subrange(i as int, j as int);
        if u.len() > 0 {
            assert(u[0] == s@[i as int]);
            assert(u.last() == s@[j - 1]);
        }
    }
    s.substring_char(i, j)
}


/// `s` with every non-overlapping occurrence of `pat` replaced by `rep`.
pub fn replace_text(s: &str, pat: &str, rep: &str) -> (res: String)
    requires
        pat@.len() > 0,
    ensures
        res@ == replace_all(s@, pat@, rep@),
{
    let sc = chars_of(s);
    let pc = chars_of(pat);
    let n = sc.len();
    let mut out = String::new();
    let mut i: usize = 0;
    proof {
        assert(s@.skip(0) =~= s@);
        assert(out@ + replace_all(s@, pat@, rep@) =~= replace_all(s@, pat@, rep@));
    }
    while i < n
        invariant
            sc@ == s@,
            pc@ == pat@,
            n == sc.len(),
            pat@.len() > 0,
            i <= n,
            out@ + replace_all(s@.skip(i as int), pat@, rep@) == replace_all(s@, pat@, rep@),
        decreases n - i,
    {
        let ghost t = s@.skip(i as int);
        if occurs_at_exec(&sc, &pc, i) {
            proof {
                assert(t.subrange(0, pat@.len() as int) =~= s@.subrange(i as int, i + pat@.len()));
                assert(t.skip(pat@.len() as int) =~= s@.skip(i + pat@.len()));
            }
            out.append(rep);
            i = i + pc.len();
        } else {
            proof {
                assert(!occurs_at(t, pat@, 0)) by {
                    if occurs_at(t, pat@, 0) {
                        assert(t.subrange(0, pat@.len() as int) =~= s@.subrange(i as int, i + pat@.len()));
                    }
                }
                assert(t.skip(1) =~= s@.skip(i + 1));
                assert(s@.subrange(i as int, i + 1) =~= seq![t[0]]);
            }
            out.append(s.substring_char(i, i + 1));
            i = i + 1;
        }
        proof {
            assert(out@ + replace_all(s@.skip(i as int), pat@, rep@) =~= replace_all(s@, pat@, rep@));
        }
    }
    proof {
        assert(s@.skip(i as int) =~= seq![]);
        assert(out@ + seq![] =~= out@);
    }
    out
}

/// The pieces of `s` between the occurrences of `pat`.
pub fn split_text(s: &str, pat: &str) -> (res: Vec<String>)
    requires
        pat@.len() > 0,
    ensures
        res.deep_view() == split(s@, pat@),
{
    let sc = chars_of(s);
    let pc = chars_of(pat);
    let n = sc.len();
    let mut res: Vec<String> = Vec::new();
    let mut start: usize = 0;
    let mut i: usize = 0;
    proof {
        assert(s@.skip(0) =~= s@);
        lemma_split_nonempty(s@, pat@);
        assert(s@.subrange(0, 0) =~= seq![]);
        assert(prepend_first(seq![], split(s@, pat@)) =~= split(s@, pat@));
        assert(res.deep_view() =~= seq![]);
        assert(split(s@, pat@) =~= res.deep_view() + split(s@, pat@));
    }
    while i < n
        invariant
            sc@ == s@,
            pc@ == pat@,
            n == sc.len(),
            pat@.len() > 0,
            start <= i <= n,
            split(s@, pat@) == res.deep_view() + prepend_first(
                s@.subrange(start as int, i as int),
                split(s@.skip(i as int), pat@),
            ),
        decreases n - i,
    {
        let ghost t = s@.skip(i as int);
        let ghost cur = s@.subrange(start as int, i as int);
        proof {
            lemma_split_nonempty(t, pat@);
        }
        if occurs_at_exec(&sc, &pc, i) {
            proof {
                assert(t.subrange(0, pat@.len() as int) =~= s@.subrange(i as int, i + pat@.len()));
                assert(t.skip(pat@.len() as int) =~= s@.skip(i + pat@.len()));
                lemma_split_nonempty(s@.skip(i + pat@.len()), pat@);
            }
            let ghost prev = res.deep_view();
            let piece = String::from_str(s.substring_char(start, i));
            res.push(piece);
            i = i + pc.len();
            start = i;
            proof {
                let r = split(s@.skip(i as int), pat@);
                assert(s@.subrange(start as int, i as int) =~= seq![]);
                assert(prepend_first(seq![], r) =~= r);
                assert(prepend_first(cur, seq![seq![]] + r) =~= seq![cur] + r);
                assert(res.deep_view() =~= prev + seq![cur]);
            }
        } else {
            proof {
                assert(!occurs_at(t, pat@, 0)) by {
                    if occurs_at(t, pat@, 0) {
                        assert(t.subrange(0, pat@.len() as int) =~= s@.subrange(i as int, i + pat@.len()));
                    }
                }
                assert(t.skip(1) =~= s@.skip(i + 1));
                lemma_split_nonempty(s@.skip(i + 1), pat@);
                let r = split(s@.skip(i + 1), pat@);
                assert(s@.subrange(start as int, i + 1) =~= cur + seq![t[0]]);
                assert(cur + (seq![t[0]] + r[0]) =~= (cur + seq![t[0]]) + r[0]);
                assert(prepend_first(cur, prepend_first(seq![t[0]], r)) =~= prepend_first(cur + seq![t[0]], r));
            }
            i = i + 1;
        }
    }
    let last = String::from_str(s.substring_char(start, n));
    proof {
        assert(s@.skip(n as int) =~= seq![]);
        assert(prepend_first(s@.subrange(start as int, n as int), seq![seq![]]) =~= seq![s@.subrange(start as int, n as int)]);
    }
    let ghost prev = res.deep_view();
    res.push(last);
    proof {
        assert(res.deep_view() =~= prev + seq![s@.subrange(start as int, n as int)]);
    }
    res
}

/// The text of `s` before the first occurrence of `pat`, or all of `s`.
pub fn first_piece_text<'a>(s: &'a str, pat: &str) -> (res: &'a str)
    requires
        pat@.len() > 0,
    ensures
        res@ == first_piece(s@, pat@),
{
    let sc = chars_of(s);
    let pc = chars_of(pat);
    let n = sc.len();
    let mut i: usize = 0;
    proof {
        assert(s@.skip(0) =~= s@);
        assert(s@.take(0) + first_piece(s@, pat@) =~= first_piece(s@, pat@));
    }
    while i < n && !occurs_at_exec(&sc, &pc, i)
        invariant
            sc@ == s@,
            pc@ == pat@,
            n == sc.len(),
            pat@.len() > 0,
            i <= n,
            first_piece(s@, pat@) == s@.take(i as int) + first_piece(s@.skip(i as int), pat@),
        decreases n - i,
    {
        proof {
            let t = s@.skip(i as int);
            assert(!occurs_at(t, pat@, 0)) by {
                if occurs_at(t, pat@, 0) {
                    assert(t.subrange(0, pat@.len() as int) =~= s@.subrange(i as int, i + pat@.len()));
                }
            }
            assert(t.skip(1) =~= s@.skip(i + 1));
            lemma_split_nonempty(s@.skip(i + 1), pat@);
            assert(s@.take(i + 1) =~= s@.take(i as int) + seq![t[0]]);
        }
        i = i + 1;
    }
    proof {
        let t = s@.skip(i as int);
        if i < n {
            assert(t.subrange(0, pat@.len() as int) =~= s@.subrange(i as int, i + pat@.len()));
            lemma_split_nonempty(t.skip(pat@.len() as int), pat@);
        }
        assert(s@.take(i as int) + seq![] =~= s@.take(i as int));
        assert(s@.take(i as int) =~= s@.subrange(0, i as int));
    }
    s.substring_char(0, i)
}


/// A character that `pat` does not hold survives every replacement of `pat`.
pub proof fn lemma_replace_keeps_char(s: Seq<char>, pat: Seq<char>, rep: Seq<char>, c: char)
    requires
        pat.len() > 0,
        !pat.contains(c),
        s.contains(c),
    ensures
        replace_all(s, pat, rep).contains(c),
    decreases s.len(),
{
    let k = choose|k: int| 0 <= k < s.len() && s[k] == c;
    if occurs_at(s, pat, 0) {
        if k < pat.len() {
            assert(s.subrange(0, pat.len() as int)[k] == s[k]);
            assert(pat[k] == c);
        }
        let t = s.skip(pat.len() as int);
        assert(t[k - pat.len()] == c);
        lemma_replace_keeps_char(t, pat, rep, c);
        let r = replace_all(t, pat, rep);
        let j = choose|j: int| 0 <= j < r.len() && r[j] == c;
        assert((rep + r)[rep.len() + j] == c);
    } else if k == 0 {
        assert((seq![s[0]] + replace_all(s.skip(1), pat, rep))[0] == c);
    } else {
        let t = s.skip(1);
        assert(t[k - 1] == c);
        lemma_replace_keeps_char(t, pat, rep, c);
        let r = replace_all(t, pat, rep);
        let j = choose|j: int| 0 <= j < r.len() && r[j] == c;
        assert((seq![s[0]] + r)[1 + j] == c);
    }
}

/// Trimming keeps every character that is not white space.
pub proof fn lemma_trim_keeps_char(s: Seq<char>, c: char)
    requires
        s.contains(c),
        !is_white(c),
    ensures
        trim(s).contains(c),
{
    lemma_trim_start_keeps_char(s, c);
    lemma_trim_end_keeps_char(trim_start(s), c);
}

proof fn lemma_trim_start_keeps_char(s: Seq<char>, c: char)
    requires
        s.contains(c),
        !is_white(c),
    ensures
        trim_start(s).contains(c),
    decreases s.len(),
{
    if s.len() > 0 && is_white(s[0]) {
        let k = choose|k: int| 0 <= k < s.len() && s[k] == c;
        assert(s.drop_first()[k - 1] == c);
        lemma_trim_start_keeps_char(s.drop_first(), c);
    }
}

proof fn lemma_trim_end_keeps_char(s: Seq<char>, c: char)
    requires
        s.contains(c),
        !is_white(c),
    ensures
        trim_end(s).contains(c),
    decreases s.len(),
{
    if s.len() > 0 && is_white(s.last()) {
        let k = choose|k: int| 0 <= k < s.len() && s[k] == c;
        assert(s.drop_last()[k] == c);
        lemma_trim_end_keeps_char(s.drop_last(), c);
    }
}


/// Trimming twice trims nothing more.
pub proof fn lemma_trim_idempotent(s: Seq<char>)
    ensures
        trim(trim(s)) == trim(s),
{
    let t = trim(s);
    lemma_trim_start_result(s);
    lemma_trim_end_result(trim_start(s));
    lemma_trim_end_result(t);
    if t.len() > 0 {
        assert(!is_white(t[0]));
    }
    assert(trim_start(t) == t);
}

proof fn lemma_trim_start_result(s: Seq<char>)
    ensures
        trim_start(s).len() > 0 ==> !is_white(trim_start(s)[0]),
    decreases s.len(),
{
    if s.len() > 0 && is_white(s[0]) {
        lemma_trim_start_result(s.drop_first());
    }
}

proof fn lemma_trim_end_result(s: Seq<char>)
    ensures
        trim_end(s).len() > 0 ==> !is_white(trim_end(s).last()),
        trim_end(s).len() > 0 ==> trim_end(s)[0] == s[0],
        trim_end(trim_end(s)) == trim_end(s),
    decreases s.len(),
{
    if s.len() > 0 && is_white(s.last()) {
        lemma_trim_end_result(s.drop_last());
    }
}


/// What `str::to_lowercase` gives for `s`.
pub uninterp spec fn lowercase(s: Seq<char>) -> Seq<char>;

/// Calls `str::to_lowercase`. The contract claims only that the result is a
/// function of the text, named `lowercase`; which characters it maps to
/// which (Unicode case tables) is not stated.
#[verifier::external_body]
pub fn to_lowercase_text(s: &str) -> (res: String)
    ensures
        res@ == lowercase(s@),
{
    s.to_lowercase()
}

} // verus!
