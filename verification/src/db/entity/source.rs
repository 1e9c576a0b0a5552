//! The shops that products are read from.
use vstd::prelude::*;

verus! {

#[derive(Debug, Clone, Copy, PartialEq, Eq, Structural)]
pub enum SourceName {
    MiShopCom,
    SamsungShopComUa,
}

impl SourceName {
    /// The name of the shop, as it is printed.
    pub open spec fn display_name(self) -> Seq<char> {
        match self {
            SourceName::MiShopCom => "MiShopCom"@,
            SourceName::SamsungShopComUa => "SamsungShopComUa"@,
        }
    }

    /// The name of the shop, as it is printed.
    pub fn name(&self) -> (res: &'static str)
        ensures
            res@ == self.display_name(),
    {
        match self {
            SourceName::MiShopCom => "MiShopCom",
            SourceName::SamsungShopComUa => "SamsungShopComUa",
        }
    }
}

} // verus!
