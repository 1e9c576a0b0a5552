//! Readers of whole-number characteristics: units and decorations are cut
//! from the text, then the rest is read as an `i32`.
use vstd::prelude::*;
use crate::number::{decimal_i32, parse_i32_text, lemma_decimal_rejects_char, is_digit, is_sign};
use crate::text::{contains, contains_text, first_piece, first_piece_text, lemma_replace_keeps_char, lemma_trim_keeps_char, occurs_at, replace_all, replace_text, split, split_text, trim, trim_text};

verus! {

/// The number that the text `value` holds once trimmed, as `int_value` reads it.
pub open spec fn int_text_value(value: Seq<char>) -> Option<i32> {
    decimal_i32(trim(value))
}

/// Reads a whole number from the text of a characteristic.
pub fn int_value(title: &str, external_id: &str, value: &str) -> (res: Option<i32>)
    ensures
        res == int_text_value(value@),
{
    parse_i32_text(trim_text(value))
}

/// The text of a camera resolution with the unit cut and only the first
/// camera kept: `64Мп + 8Мп + 6Мп` gives `64`.
pub open spec fn mp_text(value: Seq<char>) -> Seq<char> {
    first_piece(replace_all(value, "Мп"@, ""@), "+"@)
}

/// The number of megapixels of the main camera that `value` gives.
pub open spec fn mp_value(value: Seq<char>) -> Option<i32> {
    int_text_value(mp_text(value))
}

/// Reads the resolution of the main camera in megapixels; additional
/// cameras are skipped.
pub fn int_mp_value(title: &str, external_id: &str, value: &str) -> (res: Option<i32>)
    ensures
        res == mp_value(value@),
{
    proof {
        reveal_strlit("Мп");
        reveal_strlit("+");
    }
    let cut = replace_text(value, "Мп", "");
    int_value(title, external_id, first_piece_text(cut.as_str(), "+"))
}

/// The battery capacity in mA·h that `value` gives.
pub open spec fn ma_h_value(value: Seq<char>) -> Option<i32> {
    int_text_value(replace_all(value, "мАч"@, ""@))
}

/// Reads a battery capacity in mA·h.
pub fn int_ma_h_value(title: &str, external_id: &str, value: &str) -> (res: Option<i32>)
    ensures
        res == ma_h_value(value@),
{
    proof {
        reveal_strlit("мАч");
    }
    int_value(title, external_id, replace_text(value, "мАч", "").as_str())
}

/// The brightness in nits that `value` gives.
pub open spec fn nit_value(value: Seq<char>) -> Option<i32> {
    int_text_value(replace_all(value, "нит"@, ""@))
}

/// Reads a brightness in nits.
pub fn int_nit_value(title: &str, external_id: &str, value: &str) -> (res: Option<i32>)
    ensures
        res == nit_value(value@),
{
    proof {
        reveal_strlit("нит");
    }
    int_value(title, external_id, replace_text(value, "нит", "").as_str())
}

/// The largest memory card size in GB that `value` gives.
pub open spec fn max_memory_card_size_value(value: Seq<char>) -> Option<i32> {
    int_text_value(replace_all(replace_all(value, "до"@, ""@), "ГБ"@, ""@))
}

/// Reads the largest memory card size in GB.
pub fn int_max_memory_card_size_value(title: &str, external_id: &str, value: &str) -> (res:
    Option<i32>)
    ensures
        res == max_memory_card_size_value(value@),
{
    proof {
        reveal_strlit("до");
        reveal_strlit("ГБ");
    }
    let cut = replace_text(value, "до", "");
    int_value(title, external_id, replace_text(cut.as_str(), "ГБ", "").as_str())
}

/// The warranty in months that `value` gives.
pub open spec fn guarantee_value(value: Seq<char>) -> Option<i32> {
    int_text_value(replace_all(replace_all(value, "месяцев"@, ""@), "Месяцев."@, ""@))
}

/// Reads a warranty in months.
pub fn int_guarantee_value(title: &str, external_id: &str, value: &str) -> (res: Option<i32>)
    ensures
        res == guarantee_value(value@),
{
    proof {
        reveal_strlit("месяцев");
        reveal_strlit("Месяцев.");
    }
    let cut = replace_text(value, "месяцев", "");
    int_value(title, external_id, replace_text(cut.as_str(), "Месяцев.", "").as_str())
}

/// The frequency in Hz that `value` gives.
pub open spec fn hz_value(value: Seq<char>) -> Option<i32> {
    int_text_value(replace_all(value, "Гц"@, ""@))
}

/// Reads a frequency in Hz.
pub fn int_hz_value(title: &str, external_id: &str, value: &str) -> (res: Option<i32>)
    ensures
        res == hz_value(value@),
{
    proof {
        reveal_strlit("Гц");
    }
    int_value(title, external_id, replace_text(value, "Гц", "").as_str())
}

/// The text of a memory size with the unit `ГБ` and the word `до` cut.
pub open spec fn memory_text(value: Seq<char>) -> Seq<char> {
    replace_all(replace_all(value, "ГБ"@, ""@), "до"@, ""@)
}

/// What `int_memory_value` gives: the number in GB, times 1000 where the
/// text speaks of `ТБ`.
pub open spec fn memory_value(value: Seq<char>) -> Option<i32> {
    match int_text_value(memory_text(value)) {
        Some(v) => if contains(value, "ТБ"@) {
            Some((v * 1000) as i32)
        } else {
            Some(v)
        },
        None => None,
    }
}

/// Reads a memory size in GB; a size in TB is meant to count a thousand GB,
/// but the `ТБ` is never cut from the text, so such a text reads as nothing.
pub fn int_memory_value(title: &str, external_id: &str, value: &str) -> (res: Option<i32>)
    ensures
        res == memory_value(value@),
        contains(value@, "ТБ"@) ==> res is None,
{
    proof {
        reveal_strlit("ТБ");
        reveal_strlit("ГБ");
        reveal_strlit("до");
    }
    let is_tb = contains_text(value, "ТБ");
    let cut = replace_text(value, "ГБ", "");
    let parsed = int_value(title, external_id, replace_text(cut.as_str(), "до", "").as_str());
    proof {
        if is_tb {
            lemma_terabytes_unreadable(value@);
        }
    }
    match parsed {
        Some(v) => if is_tb {
            Some(v * 1000)
        } else {
            Some(v)
        },
        None => None,
    }
}

proof fn lemma_terabytes_unreadable(value: Seq<char>)
    requires
        contains(value, "ТБ"@),
    ensures
        int_text_value(memory_text(value)) is None,
{
    reveal_strlit("ТБ");
    reveal_strlit("ГБ");
    reveal_strlit("до");
    let i = choose|i: int| occurs_at(value, "ТБ"@, i);
    assert(value.subrange(i, i + 2)[0] == value[i]);
    assert(value[i] == 'Т');
    assert(value.contains('Т'));
    let once = replace_all(value, "ГБ"@, ""@);
    lemma_replace_keeps_char(value, "ГБ"@, ""@, 'Т');
    lemma_replace_keeps_char(once, "до"@, ""@, 'Т');
    lemma_trim_keeps_char(memory_text(value), 'Т');
    lemma_decimal_rejects_char(trim(memory_text(value)), 'Т');
}

/// The frame rate that `value` gives.
pub open spec fn fps_value(value: Seq<char>) -> Option<i32> {
    int_text_value(replace_all(replace_all(value, "fps"@, ""@), "кадров/с"@, ""@))
}

/// Reads a frame rate.
pub fn int_fps_value(title: &str, external_id: &str, value: &str) -> (res: Option<i32>)
    ensures
        res == fps_value(value@),
{
    proof {
        reveal_strlit("fps");
        reveal_strlit("кадров/с");
    }
    let cut = replace_text(value, "fps", "");
    int_value(title, external_id, replace_text(cut.as_str(), "кадров/с", "").as_str())
}

/// The part of a resolution text that is read: before the first `x`, then
/// before the first `/`.
pub open spec fn pix_cut(value: Seq<char>) -> Seq<char> {
    let a = if contains(value, "x"@) {
        first_piece(value, "x"@)
    } else {
        value
    };
    if contains(a, "/"@) {
        first_piece(a, "/"@)
    } else {
        a
    }
}

/// The resolution text with `K` written out: `4K` gives `4000`, and the
/// units `px` and `p` cut.
pub open spec fn pix_text(value: Seq<char>) -> Seq<char> {
    replace_all(
        replace_all(
            replace_all(replace_all(pix_cut(value), "K"@, "000"@), "К"@, "000"@),
            "px"@,
            ""@,
        ),
        "p"@,
        ""@,
    )
}

/// The resolution in pixels that `value` gives.
pub open spec fn pix_value(value: Seq<char>) -> Option<i32> {
    int_text_value(pix_text(value))
}

/// Reads a resolution in pixels: `4K` gives 4000, `720px` and `720p` give
/// 720, `1920x1080` gives 1920, `1080/720` gives 1080.
pub fn pix_int_value(title: &str, external_id: &str, value: &str) -> (res: Option<i32>)
    ensures
        res == pix_value(value@),
{
    proof {
        reveal_strlit("x");
        reveal_strlit("/");
        reveal_strlit("K");
        reveal_strlit("К");
        reveal_strlit("px");
        reveal_strlit("p");
    }
    let mut cut_value = value;
    if contains_text(cut_value, "x") {
        cut_value = first_piece_text(cut_value, "x");
    }
    if contains_text(cut_value, "/") {
        cut_value = first_piece_text(cut_value, "/");
    }
    let a = replace_text(cut_value, "K", "000");
    let b = replace_text(a.as_str(), "К", "000");
    let c = replace_text(b.as_str(), "px", "");
    let d = replace_text(c.as_str(), "p", "");
    int_value(title, external_id, d.as_str())
}

/// The numbers in the comma-separated pieces of `value` that read as
/// numbers, in order; the others are skipped.
pub open spec fn multiple_int_text_values(value: Seq<char>) -> Seq<i32> {
    split(value, ","@).filter_map(|piece: Seq<char>| int_text_value(piece))
}

/// Reads every comma-separated number of a characteristic, skipping the
/// pieces that do not read as numbers.
pub fn multiple_int_value(title: &str, external_id: &str, value: &str) -> (res: Vec<i32>)
    ensures
        res@ == multiple_int_text_values(value@),
{
    proof {
        reveal_strlit(",");
    }
    let pieces = split_text(value, ",");
    let ghost ps = split(value@, ","@);
    let mut int_values: Vec<i32> = Vec::new();
    let mut i: usize = 0;
    while i < pieces.len()
        invariant
            pieces.deep_view() == ps,
            ps == split(value@, ","@),
            i <= pieces.len(),
            int_values@ == ps.take(i as int).filter_map(|piece: Seq<char>| int_text_value(piece)),
        decreases pieces.len() - i,
    {
        let parsed = int_value(title, external_id, pieces[i].as_str());
        proof {
            assert(pieces[i as int]@ == ps[i as int]);
            ps.lemma_filter_map_take_succ(|piece: Seq<char>| int_text_value(piece), i as int);
        }
        if let Some(v) = parsed {
            int_values.push(v);
        }
        i = i + 1;
    }
    proof {
        assert(ps.take(pieces.len() as int) =~= ps);
    }
    int_values
}

} // verus!
