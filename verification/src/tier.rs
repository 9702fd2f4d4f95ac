use vstd::prelude::*;

verus! {

/// The three membership tiers a visitor can sign up for. Each carries a
/// billing plan identifier and the advertised price and discount.
#[derive(Clone, Copy, Debug, PartialEq, Eq, Structural)]
pub enum MembershipTier {
    Basic,
    Middle,
    Top,
}

impl MembershipTier {
    /// The plan identifier the payment gateway bills the tier under.
    pub open spec fn spec_plan_id(self) -> Seq<char> {
        match self {
            MembershipTier::Basic => "basic"@,
            MembershipTier::Middle => "super_cewl"@,
            MembershipTier::Top => "virtue_signaling"@,
        }
    }

    /// The tier's advertised monthly price.
    pub open spec fn spec_price(self) -> int {
        match self {
            MembershipTier::Basic => 12,
            MembershipTier::Middle => 75,
            MembershipTier::Top => 31337,
        }
    }

    /// The discount taken off the tier's advertised price.
    pub open spec fn spec_discount(self) -> int {
        match self {
            MembershipTier::Basic => 2,
            MembershipTier::Middle => 25,
            MembershipTier::Top => 30000,
        }
    }

    pub fn plan_id(&self) -> (r: &'static str)
        ensures
            r@ == self.spec_plan_id(),
    {
        match self {
            MembershipTier::Basic => "basic",
            MembershipTier::Middle => "super_cewl",
            MembershipTier::Top => "virtue_signaling",
        }
    }

    pub fn price(&self) -> (r: i16)
        ensures
            r == self.spec_price(),
    {
        match self {
            MembershipTier::Basic => 12,
            MembershipTier::Middle => 75,
            MembershipTier::Top => 31337,
        }
    }

    pub fn discount(&self) -> (r: i16)
        ensures
            r == self.spec_discount(),
    {
        match self {
            MembershipTier::Basic => 2,
            MembershipTier::Middle => 25,
            MembershipTier::Top => 30000,
        }
    }

    /// The amount actually charged: the price less the discount.
    pub fn total(&self) -> (r: i16)
        ensures
            r == self.spec_price() - self.spec_discount(),
    {
        self.price() - self.discount()
    }
}

} // verus!
