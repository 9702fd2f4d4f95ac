use gym_signup::tier::MembershipTier;

#[test]
fn basic_tier_numbers() {
    let t = MembershipTier::Basic;
    assert_eq!(t.plan_id(), "basic");
    assert_eq!(t.price(), 12);
    assert_eq!(t.discount(), 2);
    assert_eq!(t.total(), 10);
}

#[test]
fn middle_tier_numbers() {
    let t = MembershipTier::Middle;
    assert_eq!(t.plan_id(), "super_cewl");
    assert_eq!(t.price(), 75);
    assert_eq!(t.discount(), 25);
    assert_eq!(t.total(), 50);
}

#[test]
fn top_tier_numbers() {
    let t = MembershipTier::Top;
    assert_eq!(t.plan_id(), "virtue_signaling");
    assert_eq!(t.price(), 31337);
    assert_eq!(t.discount(), 30000);
    assert_eq!(t.total(), 1337);
}
