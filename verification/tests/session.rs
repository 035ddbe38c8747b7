use etracer::frac::Frac;
use etracer::page::Page;
use etracer::page::PosterError;
use etracer::session::SessionState;
use etracer::units::Units;
use etracer::units::convert;
use etracer::units::from_milli_inches;
use etracer::units::to_milli_inches;

#[test]
fn default_session_matches_fresh_state() {
    let s = SessionState::default();
    assert_eq!(s.poster.desired_width, 8260);
    assert_eq!(s.poster.desired_height, 15000);
    assert_eq!(s.poster.page_size, Page::Letter);
    assert!(!s.poster.maintain_aspect_ratio);
    assert_eq!(s.units, Units::Inches);
    assert!(s.image.is_none());
}

#[test]
fn aspect_lock_tracks_image_ratio() {
    // image 400 x 200 (ratio 2:1): width 10 in gives height 5 in,
    // then height 4 in gives width 8 in
    let mut s = SessionState::default();
    s.load_image(400, 200, vec![137u8, 80, 78, 71, 13, 10, 26, 10]);
    s.set_aspect_lock(true);
    s.apply_width(10000);
    assert_eq!(s.poster.desired_width, 10000);
    assert_eq!(s.poster.desired_height, 5000);
    s.apply_height(4000);
    assert_eq!(s.poster.desired_height, 4000);
    assert_eq!(s.poster.desired_width, 8000);
}

#[test]
fn aspect_lock_without_image_changes_nothing_else() {
    let mut s = SessionState::default();
    s.set_aspect_lock(true);
    assert!(s.poster.maintain_aspect_ratio);
    assert_eq!(s.poster.desired_width, 8260);
    assert_eq!(s.poster.desired_height, 15000);
    s.apply_width(10000);
    assert_eq!(s.poster.desired_height, 15000);
}

#[test]
fn width_edit_without_lock_leaves_height() {
    let mut s = SessionState::default();
    s.load_image(400, 200, vec![137u8, 80, 78, 71, 13, 10, 26, 10]);
    s.apply_width(10000);
    assert_eq!(s.poster.desired_width, 10000);
    assert_eq!(s.poster.desired_height, 15000);
}

#[test]
fn loading_image_under_lock_recomputes_height() {
    let mut s = SessionState::default();
    s.set_aspect_lock(true);
    s.apply_width(10000);
    s.load_image(500, 100, vec![137u8, 80, 78, 71, 13, 10, 26, 10]);
    assert_eq!(s.poster.desired_width, 10000);
    assert_eq!(s.poster.desired_height, 2000);
}

#[test]
fn save_without_image_is_invalid_state() {
    let s = SessionState::default();
    assert!(matches!(s.save_document(), Err(PosterError::InvalidState)));
}

#[test]
fn save_with_image_plans_pages() {
    let mut s = SessionState::default();
    s.load_image(400, 200, vec![137u8, 80, 78, 71, 13, 10, 26, 10]);
    s.apply_width(20000);
    s.apply_height(10000);
    let plan = s.save_document().unwrap();
    assert_eq!(plan.pages.len(), 3);
}

#[test]
fn unit_change_keeps_canonical_dimensions() {
    let mut s = SessionState::default();
    s.set_units(Units::Centimeters);
    assert_eq!(s.units, Units::Centimeters);
    assert_eq!(s.poster.desired_width, 8260);
    assert_eq!(s.poster.desired_height, 15000);
}

#[test]
fn unit_round_trip_reproduces_value() {
    // 10 inches to centimeters and back, exactly
    let v = Frac { num: 10000, den: 1000 };
    let cm = convert(v, Units::Inches, Units::Centimeters);
    assert_eq!(cm, Frac { num: 10000 * 127, den: 1000 * 50 });
    let back = convert(cm, Units::Centimeters, Units::Inches);
    // same rational: cross products agree
    assert_eq!(back.num * v.den, v.num * back.den);
}

#[test]
fn unit_round_trip_from_centimeters() {
    // 30 cm to inches and back, exactly
    let v = Frac { num: 30000, den: 1000 };
    let inches = convert(v, Units::Centimeters, Units::Inches);
    let back = convert(inches, Units::Inches, Units::Centimeters);
    assert_eq!(back.num * v.den, v.num * back.den);
}

#[test]
fn milli_conversions_are_exact_on_whole_values() {
    // 10 in = 25.4 cm
    assert_eq!(from_milli_inches(10000, Units::Centimeters), 25400);
    assert_eq!(to_milli_inches(25400, Units::Centimeters), 10000);
    assert_eq!(from_milli_inches(8260, Units::Inches), 8260);
    assert_eq!(to_milli_inches(8260, Units::Inches), 8260);
}
