//! Reader of yes/no characteristics.
use vstd::prelude::*;
use crate::text::{trim, trim_text, text_eq};

verus! {

/// The answer that the trimmed text `t` gives: `Да` is yes, `Нет` is no.
pub open spec fn bool_text_value(t: Seq<char>) -> Option<bool> {
    if t == "Да"@ {
        Some(true)
    } else if t == "Нет"@ {
        Some(false)
    } else {
        None
    }
}

/// `Да` reads as yes, `Нет` as no, and no other text reads.
pub proof fn lemma_bool_texts(t: Seq<char>)
    ensures
        bool_text_value(t) == Some(true) <==> t == "Да"@,
        bool_text_value(t) == Some(false) <==> t == "Нет"@,
        bool_text_value(t) is None <==> (t != "Да"@ && t != "Нет"@),
{
    reveal_strlit("Да");
    reveal_strlit("Нет");
    assert("Да"@.len() != "Нет"@.len());
}

/// Reads a yes/no characteristic.
pub fn bool_value(title: &str, external_id: &str, value: &str) -> (res: Option<bool>)
    ensures
        res == bool_text_value(trim(value@)),
{
    let t = trim_text(value);
    if text_eq(t, "Да") {
        Some(true)
    } else if text_eq(t, "Нет") {
        Some(false)
    } else {
        None
    }
}

} // verus!
