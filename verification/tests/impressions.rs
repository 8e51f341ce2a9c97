use pete_runtime::body::BodySense;
use pete_runtime::impressions::{body_state_impression_text, derive_direct_impressions_from_now};
use pete_runtime::now::Now;

fn permille(x: f32) -> u32 {
    (x * 1000.0).round() as u32
}

fn check_analog_cliff_risk_alone_does_not_say_floor_falls_away() {
    let mut now = Now::blank(100, BodySense::default());
    now.body.cliff_sensors.front_left = permille(0.96);
    now.body.cliff_sensors.front_right = permille(0.82);

    let (_sensations, impressions) = derive_direct_impressions_from_now(&now);
    let body_text = impressions
        .iter()
        .find(|impression| impression.kind == "body.state.impression")
        .map(|impression| impression.text.as_str())
        .unwrap();

    assert!(!body_text.contains("floor feels like it falls away near me"));
    assert!(body_text.contains("cliff IR signal is uncertain"));
}

#[test]
fn experience_selection_analog_cliff_risk_alone_does_not_say_floor_falls_away() {
    check_analog_cliff_risk_alone_does_not_say_floor_falls_away();
}

#[test]
fn lib_tests_analog_cliff_risk_alone_does_not_say_floor_falls_away() {
    check_analog_cliff_risk_alone_does_not_say_floor_falls_away();
}

#[test]
fn flagged_cliff_says_floor_falls_away_in_first_person() {
    let mut now = Now::blank(100, BodySense::default());
    now.body.flags.cliff_front_left = true;
    now.body.cliff_sensors.front_left = permille(0.8);

    let (sensations, impressions) = derive_direct_impressions_from_now(&now);
    assert_eq!(sensations.len(), 1);
    assert_eq!(sensations[0].kind, "body.state");
    let body = &impressions[0];
    assert_eq!(body.kind, "body.state.impression");
    assert_eq!(body.generator, "mechanical");
    assert_eq!(body.sensation_kind, "body.state");
    assert!(body.text.contains("floor feels like it falls away near me"));
    assert!(!body.text.contains("cliffs L/FL/FR/R"));
    assert!(!body.text.contains("cliff levels"));
    for impression in &impressions {
        assert!(
            impression.text.starts_with("I ")
                || impression.text.starts_with("I'm ")
                || impression.text.starts_with("My ")
        );
        assert!(
            impression.text.contains("confident")
                || impression.text.contains("pretty sure")
                || impression.text.contains("I think")
                || impression.text.contains("may have")
                || impression.text.contains("not sure")
        );
    }
}

#[test]
fn quiet_body_is_confident_of_the_floor() {
    assert_eq!(
        body_state_impression_text(&BodySense::default()),
        "I'm confident the floor is solid under me."
    );
}

#[test]
fn body_text_lists_wheel_bump_and_charging_in_order() {
    let mut body = BodySense::default();
    body.flags.wheel_drop = true;
    body.flags.bump_right = true;
    body.charging = true;
    assert_eq!(
        body_state_impression_text(&body),
        "I'm confident the floor is solid under me. I'm confident a wheel has dropped. I'm pretty sure I bumped into something. I'm confident I'm charging."
    );
}

#[test]
fn low_analog_risk_leaves_the_floor_solid() {
    let mut body = BodySense::default();
    body.cliff_sensors.right = 499;
    assert!(body_state_impression_text(&body).contains("solid"));
    body.cliff_sensors.right = 500;
    assert!(body_state_impression_text(&body).contains("uncertain"));
}
