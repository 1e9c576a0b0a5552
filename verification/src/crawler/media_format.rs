//! Reading the list of supported media formats of a product: the text is cut
//! into pieces, each piece is matched against the Latin-text pattern, and the
//! matches are looked up in the table of formats.
use vstd::prelude::*;
use crate::crawler::util::string_value_parser::{lemma_media_format_texts, media_format_of};
use crate::dto::characteristic::enum_characteristic::MediaFormat;
use crate::pattern::{find_first_match, regex_first_match};
use crate::text::{contains, contains_text, lemma_trim_idempotent, split, split_text, trim, trim_text, text_eq};

verus! {

/// A run of at least two Latin letters, digits, spaces and the characters
/// `./-+–`: the part of a piece of text that names a format.
pub const NO_DESCRIPTION_PATTERN: &'static str = "(?ms)[A-Za-z./ 0-9\\-+–]{2,}";

/// The text without one trailing `.`.
pub open spec fn without_final_dot(value: Seq<char>) -> Seq<char> {
    if value.len() > 0 && value.last() == '.' {
        value.drop_last()
    } else {
        value
    }
}

/// The parts of the list: separated by `;` where there is one, else by `,`.
pub open spec fn media_format_parts(value: Seq<char>) -> Seq<Seq<char>> {
    if contains(value, ";"@) {
        split(value, ";"@)
    } else {
        split(value, ","@)
    }
}

/// The trimmed pieces of `s` between the occurrences of `pat`.
pub open spec fn trimmed_pieces(s: Seq<char>, pat: Seq<char>) -> Seq<Seq<char>> {
    split(s, pat).map_values(|p: Seq<char>| trim(p))
}

/// A part that lists several formats is cut further: at every `и` where it
/// holds ` и `, else at every `and` where it holds ` and `, else at every `/`.
pub open spec fn expand_media_part(part: Seq<char>) -> Seq<Seq<char>> {
    if contains(part, " и "@) {
        trimmed_pieces(part, "и"@)
    } else if contains(part, " and "@) {
        trimmed_pieces(part, "and"@)
    } else if contains(part, "/"@) {
        trimmed_pieces(part, "/"@)
    } else {
        seq![part]
    }
}

/// The pieces of a media format list, in order.
pub open spec fn media_format_pieces(value: Seq<char>) -> Seq<Seq<char>> {
    media_format_parts(without_final_dot(value)).flat_map(|p: Seq<char>| expand_media_part(p))
}

/// Formats that some shops write together, or that name no format.
pub open spec fn exception_formats(t: Seq<char>) -> Seq<MediaFormat> {
    if t == "AAC+eAAC+"@ {
        seq![MediaFormat::AAC_plus, MediaFormat::eAAC_plus]
    } else if t == "H.264 HEVC"@ {
        seq![MediaFormat::H264]
    } else {
        seq![]
    }
}

/// The formats that one matched piece names.
pub open spec fn formats_of(m: Seq<char>) -> Seq<MediaFormat> {
    match media_format_of(trim(m)) {
        Some(f) => seq![f],
        None => exception_formats(trim(m)),
    }
}

/// `acc` followed by the formats of `new` that it does not hold yet, each
/// once, in order.
pub open spec fn add_formats(acc: Seq<MediaFormat>, new: Seq<MediaFormat>) -> Seq<MediaFormat>
    decreases new.len(),
{
    if new.len() == 0 {
        acc
    } else {
        let a = add_formats(acc, new.drop_last());
        if a.contains(new.last()) {
            a
        } else {
            a.push(new.last())
        }
    }
}

/// The formats that the matched pieces name, each once, in the order of
/// first mention.
pub open spec fn collect_formats(ms: Seq<Seq<char>>) -> Seq<MediaFormat>
    decreases ms.len(),
{
    if ms.len() == 0 {
        seq![]
    } else {
        add_formats(collect_formats(ms.drop_last()), formats_of(ms.last()))
    }
}

/// The formats that a media format list names.
pub open spec fn media_formats_of(value: Seq<char>) -> Seq<MediaFormat> {
    collect_formats(
        media_format_pieces(value).filter_map(
            |p: Seq<char>| regex_first_match(NO_DESCRIPTION_PATTERN@, p),
        ),
    )
}

/// `acc` extended by `new` holds exactly the formats of both.
pub proof fn lemma_add_formats_members(acc: Seq<MediaFormat>, new: Seq<MediaFormat>, f: MediaFormat)
    ensures
        add_formats(acc, new).contains(f) <==> (acc.contains(f) || new.contains(f)),
    decreases new.len(),
{
    if new.len() > 0 {
        lemma_add_formats_members(acc, new.drop_last(), f);
        assert(new =~= new.drop_last().push(new.last()));
        assert(new.contains(f) <==> (new.drop_last().contains(f) || new.last() == f)) by {
            if new.contains(f) {
                let i = choose|i: int| 0 <= i < new.len() && new[i] == f;
                if i < new.len() - 1 {
                    assert(new.drop_last()[i] == f);
                }
            }
            if new.drop_last().contains(f) {
                let i = choose|i: int| 0 <= i < new.drop_last().len() && new.drop_last()[i] == f;
                assert(new[i] == f);
            }
        }
        let a = add_formats(acc, new.drop_last());
        let x = new.last();
        assert(a.push(x).contains(f) <==> (a.contains(f) || x == f)) by {
            if a.push(x).contains(f) {
                let i = choose|i: int| 0 <= i < a.push(x).len() && a.push(x)[i] == f;
                if i < a.len() {
                    assert(a[i] == f);
                }
            }
            if a.contains(f) {
                let i = choose|i: int| 0 <= i < a.len() && a[i] == f;
                assert(a.push(x)[i] == f);
            }
            if x == f {
                assert(a.push(x)[a.len() as int] == f);
            }
        }
    }
}

/// The formats collected from matched pieces are exactly those that some
/// piece names: none is lost and none is added.
pub proof fn lemma_collect_formats_members(ms: Seq<Seq<char>>, f: MediaFormat)
    ensures
        collect_formats(ms).contains(f) <==> exists|i: int| 0 <= i < ms.len() && #[trigger] formats_of(ms[i]).contains(f),
    decreases ms.len(),
{
    if ms.len() > 0 {
        let rest = ms.drop_last();
        lemma_collect_formats_members(rest, f);
        lemma_add_formats_members(collect_formats(rest), formats_of(ms.last()), f);
        if collect_formats(ms).contains(f) {
            if formats_of(ms.last()).contains(f) {
                assert(formats_of(ms[ms.len() - 1]).contains(f));
            } else {
                let i = choose|i: int| 0 <= i < rest.len() && #[trigger] formats_of(rest[i]).contains(f);
                assert(ms[i] == rest[i]);
                assert(formats_of(ms[i]).contains(f));
            }
        }
        if exists|i: int| 0 <= i < ms.len() && #[trigger] formats_of(ms[i]).contains(f) {
            let i = choose|i: int| 0 <= i < ms.len() && #[trigger] formats_of(ms[i]).contains(f);
            if i < ms.len() - 1 {
                assert(rest[i] == ms[i]);
                assert(formats_of(rest[i]).contains(f));
            }
        }
    }
}

/// A piece that reads `AAC+eAAC+` names both AAC+ and eAAC+.
pub proof fn lemma_paired_aac_piece(m: Seq<char>)
    requires
        trim(m) == "AAC+eAAC+"@,
    ensures
        formats_of(m).contains(MediaFormat::AAC_plus),
        formats_of(m).contains(MediaFormat::eAAC_plus),
{
    reveal_strlit("AAC+eAAC+");
    reveal_strlit("MP4");
    reveal_strlit("M4V");
    reveal_strlit("MKV");
    reveal_strlit("XVID");
    reveal_strlit("WAV");
    reveal_strlit("AAC");
    reveal_strlit("MP3");
    reveal_strlit("AMR");
    reveal_strlit("FLAC");
    reveal_strlit("APE");
    reveal_strlit("AAC+");
    reveal_strlit("AAC +");
    reveal_strlit("eAAC+");
    reveal_strlit("eAAC +");
    reveal_strlit("AMR-NB");
    reveal_strlit("AMR - NB");
    reveal_strlit("AMR–NB");
    reveal_strlit("WB");
    reveal_strlit("PCM");
    reveal_strlit("H.263");
    reveal_strlit("H263");
    reveal_strlit("H.264");
    reveal_strlit("H264");
    reveal_strlit("H.265");
    reveal_strlit("HEVC");
    reveal_strlit("MPEG4");
    reveal_strlit("ASF");
    reveal_strlit("WMV");
    reveal_strlit("3GI");
    reveal_strlit("WEBM");
    reveal_strlit("FLV");
    reveal_strlit("MIDI");
    reveal_strlit("WAVE");
    reveal_strlit("Opus");
    reveal_strlit("VC-1");
    reveal_strlit("DSF");
    reveal_strlit("M4A");
    reveal_strlit("OGG");
    reveal_strlit("WMA");
    reveal_strlit("AWB");
    lemma_media_format_texts(trim(m));
    assert("AAC+eAAC+"@.len() != "MP4"@.len());
    assert("AAC+eAAC+"@.len() != "M4V"@.len());
    assert("AAC+eAAC+"@.len() != "MKV"@.len());
    assert("AAC+eAAC+"@.len() != "XVID"@.len());
    assert("AAC+eAAC+"@.len() != "WAV"@.len());
    assert("AAC+eAAC+"@.len() != "AAC"@.len());
    assert("AAC+eAAC+"@.len() != "MP3"@.len());
    assert("AAC+eAAC+"@.len() != "AMR"@.len());
    assert("AAC+eAAC+"@.len() != "FLAC"@.len());
    assert("AAC+eAAC+"@.len() != "APE"@.len());
    assert("AAC+eAAC+"@.len() != "AAC+"@.len());
    assert("AAC+eAAC+"@.len() != "AAC +"@.len());
    assert("AAC+eAAC+"@.len() != "eAAC+"@.len());
    assert("AAC+eAAC+"@.len() != "eAAC +"@.len());
    assert("AAC+eAAC+"@.len() != "AMR-NB"@.len());
    assert("AAC+eAAC+"@.len() != "AMR - NB"@.len());
    assert("AAC+eAAC+"@.len() != "AMR–NB"@.len());
    assert("AAC+eAAC+"@.len() != "WB"@.len());
    assert("AAC+eAAC+"@.len() != "PCM"@.len());
    assert("AAC+eAAC+"@.len() != "H.263"@.len());
    assert("AAC+eAAC+"@.len() != "H263"@.len());
    assert("AAC+eAAC+"@.len() != "H.264"@.len());
    assert("AAC+eAAC+"@.len() != "H264"@.len());
    assert("AAC+eAAC+"@.len() != "H.265"@.len());
    assert("AAC+eAAC+"@.len() != "HEVC"@.len());
    assert("AAC+eAAC+"@.len() != "MPEG4"@.len());
    assert("AAC+eAAC+"@.len() != "ASF"@.len());
    assert("AAC+eAAC+"@.len() != "WMV"@.len());
    assert("AAC+eAAC+"@.len() != "3GI"@.len());
    assert("AAC+eAAC+"@.len() != "WEBM"@.len());
    assert("AAC+eAAC+"@.len() != "FLV"@.len());
    assert("AAC+eAAC+"@.len() != "MIDI"@.len());
    assert("AAC+eAAC+"@.len() != "WAVE"@.len());
    assert("AAC+eAAC+"@.len() != "Opus"@.len());
    assert("AAC+eAAC+"@.len() != "VC-1"@.len());
    assert("AAC+eAAC+"@.len() != "DSF"@.len());
    assert("AAC+eAAC+"@.len() != "M4A"@.len());
    assert("AAC+eAAC+"@.len() != "OGG"@.len());
    assert("AAC+eAAC+"@.len() != "WMA"@.len());
    assert("AAC+eAAC+"@.len() != "AWB"@.len());
    assert(media_format_of(trim(m)) is None);
    assert(formats_of(m)[0] == MediaFormat::AAC_plus);
    assert(formats_of(m)[1] == MediaFormat::eAAC_plus);
}

/// Where a matched piece of a list reads `AAC+eAAC+`, the list's formats hold
/// both AAC+ and eAAC+.
pub proof fn lemma_paired_aac_in_list(ms: Seq<Seq<char>>, i: int)
    requires
        0 <= i < ms.len(),
        trim(ms[i]) == "AAC+eAAC+"@,
    ensures
        collect_formats(ms).contains(MediaFormat::AAC_plus),
        collect_formats(ms).contains(MediaFormat::eAAC_plus),
{
    lemma_paired_aac_piece(ms[i]);
    lemma_collect_formats_members(ms, MediaFormat::AAC_plus);
    lemma_collect_formats_members(ms, MediaFormat::eAAC_plus);
}

proof fn lemma_add_formats_no_duplicates(acc: Seq<MediaFormat>, new: Seq<MediaFormat>)
    requires
        acc.no_duplicates(),
    ensures
        add_formats(acc, new).no_duplicates(),
    decreases new.len(),
{
    if new.len() > 0 {
        lemma_add_formats_no_duplicates(acc, new.drop_last());
    }
}

/// No format is listed twice.
pub proof fn lemma_collect_formats_no_duplicates(ms: Seq<Seq<char>>)
    ensures
        collect_formats(ms).no_duplicates(),
    decreases ms.len(),
{
    if ms.len() > 0 {
        lemma_collect_formats_no_duplicates(ms.drop_last());
        lemma_add_formats_no_duplicates(collect_formats(ms.drop_last()), formats_of(ms.last()));
    }
}

/// The trimmed pieces of `s` between the occurrences of `pat`.
fn trimmed_split(s: &str, pat: &str) -> (res: Vec<String>)
    requires
        pat@.len() > 0,
    ensures
        res.deep_view() == trimmed_pieces(s@, pat@),
{
    let pieces = split_text(s, pat);
    let ghost ps = split(s@, pat@);
    let mut res: Vec<String> = Vec::new();
    let mut i: usize = 0;
    while i < pieces.len()
        invariant
            pieces.deep_view() == ps,
            ps == split(s@, pat@),
            i <= pieces.len(),
            res.deep_view() == ps.take(i as int).map_values(|p: Seq<char>| trim(p)),
        decreases pieces.len() - i,
    {
        let t = String::from_str(trim_text(pieces[i].as_str()));
        let ghost prev = res.deep_view();
        res.push(t);
        proof {
            assert(pieces[i as int]@ == ps[i as int]);
            assert(res.deep_view() =~= prev.push(t@));
            assert(ps.take(i + 1).map_values(|p: Seq<char>| trim(p)) =~= ps.take(i as int).map_values(
                |p: Seq<char>| trim(p),
            ).push(trim(ps[i as int])));
        }
        i = i + 1;
    }
    proof {
        assert(ps.take(pieces.len() as int) =~= ps);
    }
    res
}

fn expand_media_part_text(part: &str) -> (res: Vec<String>)
    ensures
        res.deep_view() == expand_media_part(part@),
{
    proof {
        reveal_strlit("и");
        reveal_strlit("and");
        reveal_strlit("/");
    }
    if contains_text(part, " и ") {
        trimmed_split(part, "и")
    } else if contains_text(part, " and ") {
        trimmed_split(part, "and")
    } else if contains_text(part, "/") {
        trimmed_split(part, "/")
    } else {
        let mut res: Vec<String> = Vec::new();
        res.push(String::from_str(part));
        proof {
            assert(res.deep_view() =~= seq![part@]);
        }
        res
    }
}

/// Cuts a media format list into its pieces.
pub fn split_media_format_values(value: &str) -> (res: Vec<String>)
    ensures
        res.deep_view() == media_format_pieces(value@),
{
    proof {
        reveal_strlit(";");
        reveal_strlit(",");
    }
    let n = value.unicode_len();
    let v: &str = if n > 0 && value.get_char(n - 1) == '.' {
        value.substring_char(0, n - 1)
    } else {
        value
    };
    proof {
        assert(v@ =~= without_final_dot(value@));
    }
    let parts = if contains_text(v, ";") {
        split_text(v, ";")
    } else {
        split_text(v, ",")
    };
    let ghost ps = media_format_parts(v@);
    let ghost f = |p: Seq<char>| expand_media_part(p);
    let mut res: Vec<String> = Vec::new();
    let mut i: usize = 0;
    while i < parts.len()
        invariant
            parts.deep_view() == ps,
            ps == media_format_parts(v@),
            v@ == without_final_dot(value@),
            f == (|p: Seq<char>| expand_media_part(p)),
            i <= parts.len(),
            res.deep_view() == ps.take(i as int).flat_map(f),
        decreases parts.len() - i,
    {
        let mut more = expand_media_part_text(parts[i].as_str());
        let ghost prev = res.deep_view();
        let ghost added = more.deep_view();
        res.append(&mut more);
        proof {
            assert(parts[i as int]@ == ps[i as int]);
            ps.lemma_flat_map_take_append(f, i as int);
            assert(res.deep_view() =~= prev + added);
        }
        i = i + 1;
    }
    proof {
        assert(ps.take(parts.len() as int) =~= ps);
    }
    res
}

fn has_format(v: &Vec<MediaFormat>, f: MediaFormat) -> (res: bool)
    ensures
        res == v@.contains(f),
{
    let mut i: usize = 0;
    while i < v.len()
        invariant
            i <= v.len(),
            forall|j: int| 0 <= j < i ==> v@[j] != f,
        decreases v.len() - i,
    {
        if v[i] == f {
            return true;
        }
        i = i + 1;
    }
    false
}

fn formats_of_text(m: &str) -> (res: Vec<MediaFormat>)
    ensures
        res@ == formats_of(m@),
{
    let t = trim_text(m);
    let mut res: Vec<MediaFormat> = Vec::new();
    match crate::crawler::util::string_value_parser::string_media_format_value(t) {
        Some(f) => {
            res.push(f);
        },
        None => {
            if text_eq(t, "AAC+eAAC+") {
                res.push(MediaFormat::AAC_plus);
                res.push(MediaFormat::eAAC_plus);
            } else if text_eq(t, "H.264 HEVC") {
                res.push(MediaFormat::H264);
            }
        },
    }
    proof {
        assert(trim(t@) == trim(m@)) by {
            lemma_trim_idempotent(m@);
        }
        assert(res@ =~= formats_of(m@));
    }
    res
}

/// Puts together the formats that the matched pieces name, each once, in the
/// order of first mention.
pub fn collect_media_formats(matches: &Vec<String>) -> (res: Vec<MediaFormat>)
    ensures
        res@ == collect_formats(matches.deep_view()),
        res@.no_duplicates(),
{
    let ghost ms = matches.deep_view();
    let mut formats: Vec<MediaFormat> = Vec::new();
    let mut i: usize = 0;
    while i < matches.len()
        invariant
            ms == matches.deep_view(),
            i <= matches.len(),
            formats@ == collect_formats(ms.take(i as int)),
        decreases matches.len() - i,
    {
        let new = formats_of_text(matches[i].as_str());
        let ghost before = formats@;
        let mut k: usize = 0;
        while k < new.len()
            invariant
                k <= new.len(),
                formats@ == add_formats(before, new@.take(k as int)),
            decreases new.len() - k,
        {
            let f = new[k];
            proof {
                assert(new@.take(k + 1).drop_last() =~= new@.take(k as int));
            }
            if !has_format(&formats, f) {
                formats.push(f);
            }
            k = k + 1;
        }
        proof {
            assert(new@.take(new.len() as int) =~= new@);
            assert(matches[i as int]@ == ms[i as int]);
            assert(ms.take(i + 1).drop_last() =~= ms.take(i as int));
        }
        i = i + 1;
    }
    proof {
        assert(ms.take(matches.len() as int) =~= ms);
        lemma_collect_formats_no_duplicates(ms);
    }
    formats
}

/// Reads the list of media formats that a product supports: each format
/// once, in the order of first mention.
pub fn multiple_string_media_format_value(title: &str, external_id: &str, value: &str) -> (res:
    Vec<MediaFormat>)
    ensures
        res@ == media_formats_of(value@),
        res@.no_duplicates(),
{
    let pieces = split_media_format_values(value);
    let ghost ps = pieces.deep_view();
    let ghost f = |p: Seq<char>| regex_first_match(NO_DESCRIPTION_PATTERN@, p);
    let mut matches: Vec<String> = Vec::new();
    let mut i: usize = 0;
    while i < pieces.len()
        invariant
            ps == pieces.deep_view(),
            f == (|p: Seq<char>| regex_first_match(NO_DESCRIPTION_PATTERN@, p)),
            i <= pieces.len(),
            matches.deep_view() == ps.take(i as int).filter_map(f),
        decreases pieces.len() - i,
    {
        let found = find_first_match(NO_DESCRIPTION_PATTERN, pieces[i].as_str());
        let ghost prev = matches.deep_view();
        proof {
            assert(pieces[i as int]@ == ps[i as int]);
            ps.lemma_filter_map_take_succ(f, i as int);
        }
        if let Some(m) = found {
            matches.push(m);
            proof {
                assert(matches.deep_view() =~= prev.push(m@));
            }
        }
        i = i + 1;
    }
    proof {
        assert(ps.take(pieces.len() as int) =~= ps);
    }
    collect_media_formats(&matches)
}

} // verus!
