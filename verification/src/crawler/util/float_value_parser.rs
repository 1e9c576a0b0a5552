//! The text side of reading fractional characteristics: units and
//! decorations are cut and the decimal comma is taken for a point. What is
//! left is the text that is read as a floating-point number, which happens
//! outside this library.
use vstd::prelude::*;
use crate::text::{contains, contains_text, first_piece, first_piece_text, lowercase, replace_all, replace_text, split, split_text, to_lowercase_text, trim, trim_text};

verus! {

/// The text that is read as a number: commas taken for points, trimmed.
pub open spec fn float_number_text(value: Seq<char>) -> Seq<char> {
    trim(replace_all(value, ","@, "."@))
}

/// The text of a version cut before its second point: `6.0.1` gives `6.0`.
pub open spec fn version_cut(value: Seq<char>) -> Seq<char> {
    let pieces = split(value, "."@);
    if pieces.len() > 2 {
        pieces[0] + "."@ + pieces[1]
    } else {
        value
    }
}

pub open spec fn android_version_text(value: Seq<char>) -> Seq<char> {
    float_number_text(version_cut(replace_all(replace_all(value, "Android"@, ""@), "OS, v"@, ""@)))
}

pub open spec fn miui_version_text(value: Seq<char>) -> Seq<char> {
    float_number_text(version_cut(replace_all(value, "MIUI"@, ""@)))
}

/// Whether a frequency is written in MHz.
pub open spec fn frequency_in_mhz(value: Seq<char>) -> bool {
    contains(lowercase(value), "мгц"@) || contains(lowercase(value), "mhz"@)
}

pub open spec fn frequency_text(value: Seq<char>) -> Seq<char> {
    float_number_text(
        replace_all(
            replace_all(
                replace_all(replace_all(lowercase(lowercase(value)), "ггц"@, ""@), "мгц"@, ""@),
                "mhz"@,
                ""@,
            ),
            "ghz"@,
            ""@,
        ),
    )
}

pub open spec fn diagonal_text(value: Seq<char>) -> Seq<char> {
    float_number_text(replace_all(value, "\""@, ""@))
}

pub open spec fn aperture_text(value: Seq<char>) -> Seq<char> {
    float_number_text(
        first_piece(
            replace_all(replace_all(replace_all(value, "f"@, ""@), "ƒ"@, ""@), "/"@, ""@),
            "+"@,
        ),
    )
}

/// A frequency is taken as written in MHz, and later divided by 1000,
/// exactly where its lowercased text holds `mhz` (Latin) or `мгц`
/// (Cyrillic); any other text, in GHz among them, is taken as GHz.
pub proof fn lemma_mhz_flag(v: Seq<char>)
    ensures
        contains(lowercase(v), "mhz"@) ==> frequency_in_mhz(v),
        contains(lowercase(v), "мгц"@) ==> frequency_in_mhz(v),
        !contains(lowercase(v), "mhz"@) && !contains(lowercase(v), "мгц"@) ==> !frequency_in_mhz(v),
{
}

/// The text that a plain fractional value is read from.
pub fn float_value_text(value: &str) -> (res: String)
    ensures
        res@ == float_number_text(value@),
{
    proof {
        reveal_strlit(",");
    }
    let replaced = replace_text(value, ",", ".");
    String::from_str(trim_text(replaced.as_str()))
}

fn version_cut_text(value: &str) -> (res: String)
    ensures
        res@ == version_cut(value@),
{
    proof {
        reveal_strlit(".");
    }
    let pieces = split_text(value, ".");
    if pieces.len() > 2 {
        let mut res = pieces[0].clone();
        res.append(".");
        res.append(pieces[1].as_str());
        proof {
            assert(pieces.deep_view()[0] == pieces[0]@);
            assert(pieces.deep_view()[1] == pieces[1]@);
        }
        res
    } else {
        String::from_str(value)
    }
}

/// The text that a version is read from: cut before its second point.
pub fn float_version_text(value: &str) -> (res: String)
    ensures
        res@ == float_number_text(version_cut(value@)),
{
    let cut = version_cut_text(value);
    float_value_text(cut.as_str())
}

/// The text that an Android version is read from: `Android 11` gives `11`,
/// `OS, v6.0.1` gives `6.0`.
pub fn float_android_version_text(value: &str) -> (res: String)
    ensures
        res@ == android_version_text(value@),
{
    proof {
        reveal_strlit("Android");
        reveal_strlit("OS, v");
    }
    let a = replace_text(value, "Android", "");
    let b = replace_text(a.as_str(), "OS, v", "");
    float_version_text(b.as_str())
}

/// The text that a MIUI version is read from: `MIUI 11.2.3` gives `11.2`.
pub fn float_miui_version_text(value: &str) -> (res: String)
    ensures
        res@ == miui_version_text(value@),
{
    proof {
        reveal_strlit("MIUI");
    }
    let a = replace_text(value, "MIUI", "");
    float_version_text(a.as_str())
}

/// The text that a processor frequency is read from, and whether it is
/// written in MHz (the number is then divided by 1000 to give GHz).
pub fn float_ghz_text(value: &str) -> (res: (String, bool))
    ensures
        res.0@ == frequency_text(value@),
        res.1 == frequency_in_mhz(value@),
{
    proof {
        reveal_strlit("ггц");
        reveal_strlit("мгц");
        reveal_strlit("mhz");
        reveal_strlit("ghz");
    }
    let lower = to_lowercase_text(value);
    let in_mhz = contains_text(lower.as_str(), "мгц") || contains_text(lower.as_str(), "mhz");
    let again = to_lowercase_text(lower.as_str());
    let a = replace_text(again.as_str(), "ггц", "");
    let b = replace_text(a.as_str(), "мгц", "");
    let c = replace_text(b.as_str(), "mhz", "");
    let d = replace_text(c.as_str(), "ghz", "");
    (float_value_text(d.as_str()), in_mhz)
}

/// The text that a screen diagonal is read from: the inch sign cut.
pub fn float_diagonal_text(value: &str) -> (res: String)
    ensures
        res@ == diagonal_text(value@),
{
    proof {
        reveal_strlit("\"");
    }
    let a = replace_text(value, "\"", "");
    float_value_text(a.as_str())
}

/// The text that an aperture is read from: `f/1,79 + f/2,4 + f/2,4` gives
/// `1.79`, `f2.4` and `ƒ2.4` give `2.4`.
pub fn float_aperture_text(value: &str) -> (res: String)
    ensures
        res@ == aperture_text(value@),
{
    proof {
        reveal_strlit("f");
        reveal_strlit("ƒ");
        reveal_strlit("/");
        reveal_strlit("+");
    }
    let a = replace_text(value, "f", "");
    let b = replace_text(a.as_str(), "ƒ", "");
    let c = replace_text(b.as_str(), "/", "");
    float_value_text(first_piece_text(c.as_str(), "+"))
}

} // verus!
