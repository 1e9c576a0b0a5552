//! Finding a category in the store.
use vstd::prelude::*;
use crate::db::entity::category::CategorySlug;
use crate::inflection::{snake_case, to_snake_case_text};

verus! {

/// The slug under which a category is stored: its name in snake case.
pub fn category_slug(category: CategorySlug) -> (res: String)
    ensures
        res@ == snake_case(category.display_name()),
{
    to_snake_case_text(category.name())
}

} // verus!
