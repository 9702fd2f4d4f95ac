use crate::numeral::decimal_of;
use crate::numeral::decimal_string;
use crate::text::replace_all;
use crate::text::replace_spec;
use crate::tier::MembershipTier;
use vstd::prelude::*;

verus! {

/// The signup page for a tier: the page template with each placeholder
/// substituted in turn — the plan identifier, the price, the discount,
/// the discounted total, and the gateway's client-side token.
pub open spec fn rendered_form(template: Seq<char>, tier: MembershipTier, token: Seq<char>) -> Seq<
    char,
> {
    replace_spec(
        replace_spec(
            replace_spec(
                replace_spec(
                    replace_spec(template, "MEMBERSHIPTYPE"@, tier.spec_plan_id()),
                    "PRICE"@,
                    decimal_of(tier.spec_price()),
                ),
                "DISCOUNT"@,
                decimal_of(tier.spec_discount()),
            ),
            "TOTAL"@,
            decimal_of(tier.spec_price() - tier.spec_discount()),
        ),
        "CLIENT_TOKEN_FROM_SERVER"@,
        token,
    )
}

/// Fills a tier's signup-form template: substitutes the tier's plan
/// identifier, price, discount and total, and the client token handed out
/// by the payment gateway.
pub fn render_form(template: &str, tier: &MembershipTier, client_token: &str) -> (r: String)
    ensures
        r@ == rendered_form(template@, *tier, client_token@),
{
    let with_plan = replace_all(template, "MEMBERSHIPTYPE", tier.plan_id());
    let price = decimal_string(tier.price());
    let with_price = replace_all(with_plan.as_str(), "PRICE", price.as_str());
    let discount = decimal_string(tier.discount());
    let with_discount = replace_all(with_price.as_str(), "DISCOUNT", discount.as_str());
    let amount = decimal_string(tier.total());
    let with_total = replace_all(with_discount.as_str(), "TOTAL", amount.as_str());
    replace_all(with_total.as_str(), "CLIENT_TOKEN_FROM_SERVER", client_token)
}

} // verus!
