//! The categories that products are sorted into.
use vstd::prelude::*;

verus! {

#[derive(Debug, Clone, Copy, PartialEq, Eq, Structural)]
pub enum CategorySlug {
    Smartphone,
    SmartHome,
    Headphones,
    Watches,
}

impl CategorySlug {
    /// The name of the category, as it is printed.
    pub open spec fn display_name(self) -> Seq<char> {
        match self {
            CategorySlug::Smartphone => "Smartphone"@,
            CategorySlug::SmartHome => "SmartHome"@,
            CategorySlug::Headphones => "Headphones"@,
            CategorySlug::Watches => "Watches"@,
        }
    }

    /// The name of the category, as it is printed.
    pub fn name(&self) -> (res: &'static str)
        ensures
            res@ == self.display_name(),
    {
        match self {
            CategorySlug::Smartphone => "Smartphone",
            CategorySlug::SmartHome => "SmartHome",
            CategorySlug::Headphones => "Headphones",
            CategorySlug::Watches => "Watches",
        }
    }
}

} // verus!
