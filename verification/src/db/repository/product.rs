//! Decisions taken when products are stored.
use vstd::prelude::*;

verus! {

/// Whether a product is shown once its details are stored: it was shown or
/// can be bought, and it has images and a description.
pub fn enabled_with_details(
    currently_enabled: bool,
    available: bool,
    has_images: bool,
    has_description: bool,
) -> (res: bool)
    ensures
        res == ((currently_enabled || available) && has_images && has_description),
{
    (currently_enabled || available) && has_images && has_description
}

/// Whether a stored product that is hidden must be shown again, now that a
/// shop offers it.
pub fn should_enable(parsed_available: bool, currently_enabled: bool) -> (res: bool)
    ensures
        res == (parsed_available && !currently_enabled),
{
    parsed_available && !currently_enabled
}

/// Whether the details of a stored product are still to be read: it has no
/// description or no images yet.
pub fn needs_details(has_description: bool, has_images: bool) -> (res: bool)
    ensures
        res == (!has_description || !has_images),
{
    !has_description || !has_images
}

} // verus!
