use gym_signup::page::render_form;
use gym_signup::tier::MembershipTier;

#[test]
fn fills_every_placeholder_for_the_basic_tier() {
    let template = "plan=MEMBERSHIPTYPE price=PRICE off=DISCOUNT pay=TOTAL token=CLIENT_TOKEN_FROM_SERVER";
    let page = render_form(template, &MembershipTier::Basic, "tok123");
    assert_eq!(page, "plan=basic price=12 off=2 pay=10 token=tok123");
}

#[test]
fn fills_every_placeholder_for_the_top_tier() {
    let template = "MEMBERSHIPTYPE costs PRICE minus DISCOUNT is TOTAL (CLIENT_TOKEN_FROM_SERVER)";
    let page = render_form(template, &MembershipTier::Top, "abc");
    assert_eq!(page, "virtue_signaling costs 31337 minus 30000 is 1337 (abc)");
}

#[test]
fn substitutes_a_repeated_placeholder_everywhere() {
    let page = render_form("PRICE PRICE", &MembershipTier::Middle, "t");
    assert_eq!(page, "75 75");
}

#[test]
fn leaves_a_template_without_placeholders_alone() {
    let page = render_form("<html>static</html>", &MembershipTier::Middle, "t");
    assert_eq!(page, "<html>static</html>");
}
