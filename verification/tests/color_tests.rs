use pbc2::PBCColor;

#[test]
fn test_color_creation() {
    let color = PBCColor::new(100, 150, 200);
    assert_eq!(color.r, 100);
    assert_eq!(color.g, 150);
    assert_eq!(color.b, 200);
}

#[test]
fn test_contrast_color_dark() {
    let dark = PBCColor::new(50, 50, 50);
    let contrast = dark.contrast_color();
    assert_eq!(contrast, PBCColor::white());
}

#[test]
fn test_contrast_color_bright() {
    let bright = PBCColor::new(200, 200, 200);
    let contrast = bright.contrast_color();
    assert_eq!(contrast, PBCColor::black());
}

#[test]
fn color_test_default() {
    let color = PBCColor::default();
    assert_eq!(color, PBCColor::black());
}

#[test]
fn test_const_colors() {
    assert_eq!(PBCColor::black(), PBCColor::new(0, 0, 0));
    assert_eq!(PBCColor::white(), PBCColor::new(255, 255, 255));
}
