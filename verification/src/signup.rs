use vstd::prelude::*;

verus! {

/// One signup submission, exactly as the form posts it: the member's name,
/// contact and address fields, the single-use payment-method nonce minted by
/// the client-side payment widget, and the chosen membership plan.
#[derive(Debug)]
pub struct Signup {
    pub first_name: String,
    pub last_name: String,
    pub email: String,
    pub address: String,
    pub address2: String,
    pub city: String,
    pub state: String,
    pub zip_code: String,
    pub payment_method_nonce: String,
    pub membership_type: String,
}

/// The billing address sent with a new customer; every field is optional on
/// the gateway's side.
pub struct BillingAddress {
    pub first_name: Option<String>,
    pub last_name: Option<String>,
    pub locality: Option<String>,
    pub postal_code: Option<String>,
    pub region: Option<String>,
    pub street_address: Option<String>,
}

/// The payment-card part of a customer request; only the billing address is
/// filled in, the card itself comes from the nonce.
pub struct CardRequest {
    pub billing_address: Option<BillingAddress>,
}

/// A request to create a customer at the payment gateway, with the fields
/// this flow fills in; the rest stay unset.
pub struct CustomerRequest {
    pub email: Option<String>,
    pub first_name: Option<String>,
    pub last_name: Option<String>,
    pub payment_method_nonce: Option<String>,
    pub credit_card: Option<CardRequest>,
}

/// A request to start a subscription: which plan, billed against which
/// stored payment method.
pub struct SubscriptionRequest {
    pub plan_id: Option<String>,
    pub payment_method_token: Option<String>,
}

/// The card the gateway stored for a new customer, reduced to what the flow
/// reads from it: the token under which it can be billed.
pub struct StoredCard {
    pub token: Option<String>,
}

/// What came back from asking the gateway to create a customer: the stored
/// card on success, the gateway's message on failure.
pub enum CustomerOutcome {
    Created { credit_card: Option<StoredCard> },
    Failed { message: String },
}

/// Whether `r` holds exactly the fields that `customer_request_for` promises
/// to fill from the submission `s`.
pub open spec fn customer_request_matches(r: CustomerRequest, s: Signup) -> bool {
    &&& r.email matches Some(e) && e@ == s.email@
    &&& r.first_name matches Some(f) && f@ == s.first_name@
    &&& r.last_name matches Some(l) && l@ == s.last_name@
    &&& r.payment_method_nonce matches Some(n) && n@ == s.payment_method_nonce@
    &&& r.credit_card matches Some(c) && {
        &&& c.billing_address matches Some(a)
        &&& a.first_name matches Some(af) && af@ == s.first_name@
        &&& a.last_name matches Some(al) && al@ == s.last_name@
        &&& a.locality matches Some(lo) && lo@ == s.city@
        &&& a.postal_code matches Some(p) && p@ == s.zip_code@
        &&& a.region matches Some(rg) && rg@ == s.state@
        &&& a.street_address matches Some(st) && st@ == s.address@
    }
}

/// Builds the customer-creation request for a submission: the member's
/// e-mail, name and payment nonce, and a card whose billing address carries
/// the name, city, postal code, region and street the form gave. The
/// secondary address line and the membership type are not part of it.
pub fn customer_request_for(s: &Signup) -> (r: CustomerRequest)
    ensures
        customer_request_matches(r, *s),
{
    CustomerRequest {
        email: Some(s.email.clone()),
        first_name: Some(s.first_name.clone()),
        last_name: Some(s.last_name.clone()),
        payment_method_nonce: Some(s.payment_method_nonce.clone()),
        credit_card: Some(
            CardRequest {
                billing_address: Some(
                    BillingAddress {
                        first_name: Some(s.first_name.clone()),
                        last_name: Some(s.last_name.clone()),
                        locality: Some(s.city.clone()),
                        postal_code: Some(s.zip_code.clone()),
                        region: Some(s.state.clone()),
                        street_address: Some(s.address.clone()),
                    },
                ),
            },
        ),
    }
}

/// What the flow does once the gateway has answered the customer request:
/// on success it starts a subscription for the submission's membership type,
/// billed against the stored card's token; on failure it only reports the
/// gateway's message and starts nothing.
pub fn subscription_after(s: &Signup, outcome: &CustomerOutcome) -> (r: Option<SubscriptionRequest>)
    requires
        outcome matches CustomerOutcome::Created { credit_card } ==> credit_card is Some,
    ensures
        outcome matches CustomerOutcome::Created { credit_card } ==> r matches Some(req)
            && req.plan_id matches Some(p) && p@ == s.membership_type@
            && req.payment_method_token == credit_card->0.token,
        outcome is Failed ==> r is None,
{
    match outcome {
        CustomerOutcome::Created { credit_card } => {
            let card = match credit_card {
                Some(c) => c,
                None => unreached(),
            };
            let held_token: Option<String> = match &card.token {
                Some(t) => Some(t.clone()),
                None => None,
            };
            Some(
                SubscriptionRequest {
                    plan_id: Some(s.membership_type.clone()),
                    payment_method_token: held_token,
                },
            )
        },
        CustomerOutcome::Failed { .. } => None,
    }
}

} // verus!
