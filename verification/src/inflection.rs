//! Case conversion of names, done by the `Inflector` crate.
use vstd::prelude::*;

verus! {

/// What `inflector::cases::snakecase::to_snake_case` gives for `s`.
pub uninterp spec fn snake_case(s: Seq<char>) -> Seq<char>;

/// Calls `Inflector::to_snake_case`. The contract claims only that the result
/// is a function of the text, named `snake_case`; where the underscores go
/// and how letters change case is left to the `Inflector` crate.
#[verifier::external_body]
pub fn to_snake_case_text(s: &str) -> (res: String)
    ensures
        res@ == snake_case(s@),
{
    inflector::cases::snakecase::to_snake_case(s)
}

} // verus!
