use reachfms::crop::{aspect_crop, find_crop_for_instrument, find_crop_for_instruments, CropRect};

#[test]
fn square_crop_keeps_equal_frame() {
    let c = find_crop_for_instruments(128, 128);
    assert_eq!(c, CropRect { x: 0, y: 0, width: 128, height: 128 });
}

#[test]
fn square_crop_trims_wide_frame() {
    let c = find_crop_for_instruments(200, 100);
    assert_eq!(c, CropRect { x: 50, y: 0, width: 100, height: 100 });
    assert_eq!(c.width, c.height);
}

#[test]
fn square_crop_trims_tall_frame() {
    let c = find_crop_for_instruments(100, 250);
    assert_eq!(c, CropRect { x: 0, y: 75, width: 100, height: 100 });
    assert_eq!(c.width, c.height);
}

#[test]
fn cdu_crop_narrow_tall_scenario() {
    // 100 x 120 at the fixed 0.866 ratio: height corrected to 86, centered.
    let c = find_crop_for_instrument("FMS", 100, 120);
    assert_eq!(c, CropRect { x: 0, y: 17, width: 100, height: 86 });
}

#[test]
fn cdu_crop_wide_frame() {
    // 200 x 100: width corrected to 100 * 1000 / 866 = 115, centered.
    let c = find_crop_for_instrument("FMS", 200, 100);
    assert_eq!(c, CropRect { x: 42, y: 0, width: 115, height: 100 });
}

#[test]
fn non_cdu_kind_gets_square_crop() {
    let c = find_crop_for_instrument("PFD", 100, 120);
    assert_eq!(c, CropRect { x: 0, y: 10, width: 100, height: 100 });
    assert_eq!(c.width, c.height);
}

#[test]
fn crop_always_fits_source() {
    let cases = vec![(1u32, 1u32), (700, 700), (1, 5000), (5000, 1), (123, 457)];
    for (w, h) in cases {
        for kind in ["FMS", "PFD", "ND", "UNKNOWN"] {
            let c = find_crop_for_instrument(kind, w, h);
            assert!(c.x >= 0 && c.y >= 0 && c.width >= 0 && c.height >= 0);
            assert!(c.x + c.width <= w as i32);
            assert!(c.y + c.height <= h as i32);
        }
    }
}

#[test]
fn aspect_crop_exact_ratio_is_full_frame() {
    // 1000 x 866 is exactly the ratio: nothing trimmed.
    let c = aspect_crop(866, 1000, 866);
    assert_eq!(c, CropRect { x: 0, y: 0, width: 1000, height: 866 });
}

#[test]
fn zero_rect_is_sentinel() {
    let z = CropRect::zero();
    assert!(z.is_zero());
    let c = CropRect { x: 0, y: 1, width: 0, height: 0 };
    assert!(!c.is_zero());
}
