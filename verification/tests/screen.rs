use frame_compositor::screen::ScreenRect;

const ONE: u32 = ScreenRect::UNIT_SCALE_BITS;

#[test]
fn new_keeps_every_field() {
    let rect = ScreenRect::new(1, 2, 3, 4, 0x4000_0000);
    assert_eq!(rect.x, 1);
    assert_eq!(rect.y, 2);
    assert_eq!(rect.width, 3);
    assert_eq!(rect.height, 4);
    assert_eq!(rect.scale_factor_bits, 0x4000_0000);
}

#[test]
fn unit_scale_is_the_bit_pattern_of_one() {
    assert_eq!(f32::from_bits(ScreenRect::UNIT_SCALE_BITS), 1.0);
}

#[test]
fn zero_is_the_empty_rect_with_unit_scale() {
    assert_eq!(ScreenRect::zero(), ScreenRect::new(0, 0, 0, 0, ONE));
    assert!(ScreenRect::zero().is_none());
}

#[test]
fn pos_is_the_origin() {
    assert_eq!(ScreenRect::new(7, 9, 30, 40, ONE).pos(), (7, 9));
}

#[test]
fn size_repeats_the_width() {
    assert_eq!(ScreenRect::new(7, 9, 30, 40, ONE).size(), (30, 30));
}

#[test]
fn rect_without_width_and_height_is_none() {
    assert!(ScreenRect::new(0, 0, 0, 0, ONE).is_none());
    assert!(ScreenRect::new(5, 6, 0, 0, 0x4000_0000).is_none());
}

#[test]
fn rect_with_only_one_zero_side_is_not_none() {
    assert!(!ScreenRect::new(0, 0, 0, 1, ONE).is_none());
    assert!(!ScreenRect::new(0, 0, 1, 0, ONE).is_none());
}

#[test]
fn rect_with_area_is_not_none() {
    assert!(!ScreenRect::new(0, 0, 100, 100, ONE).is_none());
    assert!(!ScreenRect::new(0, 0, u32::MAX, u32::MAX, ONE).is_none());
}

#[test]
fn is_none_goes_by_width_and_height_alone() {
    for width in [0u32, 1, 2, 640] {
        for height in [0u32, 1, 3, 480] {
            let rect = ScreenRect::new(11, 12, width, height, ONE);
            assert_eq!(rect.is_none(), width == 0 && height == 0);
        }
    }
}
