use flip::geometry::{compute_crop, compute_resize, CropRect, CropRejected, Scale};

#[test]
fn crop_removes_margin_from_each_side() {
    assert_eq!(
        compute_crop(100, 60, 10),
        Ok(CropRect { x: 10, y: 10, width: 80, height: 40 })
    );
}

#[test]
fn crop_zero_margin_keeps_whole_image() {
    assert_eq!(compute_crop(7, 3, 0), Ok(CropRect { x: 0, y: 0, width: 7, height: 3 }));
    assert_eq!(compute_crop(0, 0, 0), Ok(CropRect { x: 0, y: 0, width: 0, height: 0 }));
}

#[test]
fn crop_margin_50_on_80_square_is_rejected() {
    assert_eq!(
        compute_crop(80, 80, 50),
        Err(CropRejected { margin: 50, width: 80, height: 80 })
    );
}

#[test]
fn crop_rejected_when_one_axis_is_too_small() {
    assert_eq!(
        compute_crop(100, 20, 10),
        Err(CropRejected { margin: 10, width: 100, height: 20 })
    );
    assert!(compute_crop(21, 100, 10).is_ok());
}

#[test]
fn crop_huge_margin_does_not_overflow() {
    assert_eq!(
        compute_crop(u32::MAX, u32::MAX, u32::MAX),
        Err(CropRejected { margin: u32::MAX, width: u32::MAX, height: u32::MAX })
    );
}

#[test]
fn resize_rounds_each_axis() {
    assert_eq!(compute_resize(100, 50, Scale::new(1500000)), (150, 75));
    assert_eq!(compute_resize(5, 7, Scale::new(500000)), (3, 4));
    assert_eq!(compute_resize(80, 80, Scale::new(2000000)), (160, 160));
}

#[test]
fn resize_floors_at_two() {
    assert_eq!(compute_resize(1, 100, Scale::identity()), (2, 100));
    assert_eq!(compute_resize(3, 3, Scale::new(100000)), (2, 2));
    assert_eq!(compute_resize(3, 3, Scale::new(0)), (2, 2));
}

#[test]
fn resize_identity_keeps_size() {
    assert_eq!(compute_resize(640, 480, Scale::identity()), (640, 480));
}

#[test]
fn scale_is_clamped_to_ten() {
    assert_eq!(Scale::new(20000000).millionths, 10000000);
    assert_eq!(Scale::new(10000000).millionths, 10000000);
    assert_eq!(compute_resize(10, 10, Scale::new(50000000)), (100, 100));
}

#[test]
fn resize_keeps_fine_scales() {
    assert_eq!(compute_resize(3000, 3000, Scale::new(333300)), (1000, 1000));
}

#[test]
fn resize_saturates_at_largest_u32() {
    assert_eq!(compute_resize(u32::MAX, 4, Scale::new(10000000)), (u32::MAX, 40));
}
