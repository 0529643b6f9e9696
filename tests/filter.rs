use cantypes::filter::{CanIdFilter, ExtendedCanIdFilter, MaskType, StandardCanIdFilter};
use cantypes::{EXTENDED_FRAME_ID_MASK, STANDARD_FRAME_ID_MASK};

#[test]
fn match_std_filter_001() {
    assert!(StandardCanIdFilter::from_can_id(0xABC).match_can_id(0xABC));
}

#[test]
fn match_std_filter_002() {
    assert!(!StandardCanIdFilter::from_can_id(0xABD).match_can_id(0xABC));
}

#[test]
fn match_std_filter_003() {
    let filter = StandardCanIdFilter::from_can_id(0x7_FF) + StandardCanIdFilter::from_can_id(0x0_0F);
    println!("{:03X}", filter.mask());
    assert!(filter.mask() == 0x0_0F);
}

#[test]
fn match_std_filter_004() {
    let filter = StandardCanIdFilter::accept_all();
    for can_id in 0..STANDARD_FRAME_ID_MASK {
        assert!(filter.match_can_id(can_id));
    }
}

#[test]
fn weight_std_filter_001() {
    let filter = StandardCanIdFilter::accept_all();
    assert_eq!(filter.weight(), 0x800);
}

#[test]
fn match_ext_filter_001() {
    assert!(ExtendedCanIdFilter::from_can_id(0xABC).match_can_id(0xABC));
}

#[test]
fn match_ext_filter_002() {
    assert!(!ExtendedCanIdFilter::from_can_id(0xABD).match_can_id(0xABC));
}

#[test]
fn match_ext_filter_003() {
    let filter = ExtendedCanIdFilter::from_can_id(0x1F_FF_CC_FF) + ExtendedCanIdFilter::from_can_id(0x1F_FF_33_FF);
    println!("{:03X}", filter.mask());
    assert!(filter.mask() == 0x1F_FF_00_FF);
}

#[test]
fn match_ext_filter_004() {
    let filter = ExtendedCanIdFilter::accept_all();
    for can_id in 0..EXTENDED_FRAME_ID_MASK {
        assert!(filter.match_can_id(can_id));
    }
}

#[test]
fn weight_ext_filter_001() {
    let filter = ExtendedCanIdFilter::accept_all();
    assert_eq!(filter.weight(), 0x20_00_00_00);
}

#[test]
fn from_can_id_cuts_high_bits() {
    let s = StandardCanIdFilter::from_can_id(0xFFFF_FABC);
    assert_eq!(s.can_id(), 0x2BC);
    assert_eq!(s.mask(), 0x7FF);
    assert_eq!(s.mask_type(), MaskType::Standard);
    let e = ExtendedCanIdFilter::from_can_id(0xFFFF_FFFF);
    assert_eq!(e.can_id(), 0x1FFF_FFFF);
    assert_eq!(e.mask(), 0x1FFF_FFFF);
    assert_eq!(e.mask_type(), MaskType::Extended);
}

#[test]
fn accept_all_has_no_required_bits() {
    let s = StandardCanIdFilter::accept_all();
    assert_eq!((s.can_id(), s.mask()), (0, 0));
    let e = ExtendedCanIdFilter::accept_all();
    assert_eq!((e.can_id(), e.mask()), (0, 0));
}

#[test]
fn exact_filter_accepts_own_id() {
    for x in [0u32, 1, 0x7FF, 0x800, 0xABC, 0x1FFF_FFFF, 0xFFFF_FFFF] {
        assert!(StandardCanIdFilter::from_can_id(x).match_can_id(x));
        assert!(ExtendedCanIdFilter::from_can_id(x).match_can_id(x));
    }
}

#[test]
fn exact_filter_rejects_other_ids() {
    assert!(!StandardCanIdFilter::from_can_id(0x123).match_can_id(0x124));
    assert!(!ExtendedCanIdFilter::from_can_id(0x1234_5678).match_can_id(0x1234_5679));
    // bits above the width are not required
    assert!(StandardCanIdFilter::from_can_id(0x123).match_can_id(0x8123));
    assert!(ExtendedCanIdFilter::from_can_id(0x0234_5678).match_can_id(0xE234_5678));
}

#[test]
fn wildcard_accepts_any_value() {
    for y in [0u32, 0x7FF, 0x800, 0x1FFF_FFFF, 0xFFFF_FFFF] {
        assert!(StandardCanIdFilter::accept_all().match_can_id(y));
        assert!(ExtendedCanIdFilter::accept_all().match_can_id(y));
    }
}

#[test]
fn weight_of_exact_filter_is_one() {
    assert_eq!(StandardCanIdFilter::from_can_id(0x555).weight(), 1);
    assert_eq!(ExtendedCanIdFilter::from_can_id(0x555).weight(), 1);
}

#[test]
fn weight_counts_dont_care_bits_within_width() {
    // two bits differ: four identifiers accepted
    let f = StandardCanIdFilter::from_can_id(0x100).merge(&StandardCanIdFilter::from_can_id(0x103));
    assert_eq!(f.mask(), 0x7FC);
    assert_eq!(f.weight(), 4);
    let e = ExtendedCanIdFilter::from_can_id(0x0).merge(&ExtendedCanIdFilter::from_can_id(0x1000_00FF));
    assert_eq!(e.mask(), 0x0FFF_FF00);
    assert_eq!(e.weight(), 512);
}

#[test]
fn merge_keeps_left_id_and_symmetric_mask() {
    let a = StandardCanIdFilter::from_can_id(0x7FF);
    let b = StandardCanIdFilter::from_can_id(0x00F);
    let ab = &a + &b;
    let ba = b + &a;
    assert_eq!(ab.mask(), ba.mask());
    assert_eq!(ab.can_id(), 0x7FF);
    assert_eq!(ba.can_id(), 0x00F);
    assert!(ab == a.merge(&b));
}

#[test]
fn merge_covers_both_ids() {
    let pairs = [(0x123u32, 0x456u32), (0x0, 0x7FF), (0x1FFF_CCFF, 0x1FFF_33FF), (0xABC, 0xABC)];
    for (x, y) in pairs {
        let s = StandardCanIdFilter::from_can_id(x) + StandardCanIdFilter::from_can_id(y);
        assert!(s.match_can_id(x) && s.match_can_id(y));
        let e = ExtendedCanIdFilter::from_can_id(x) + ExtendedCanIdFilter::from_can_id(y);
        assert!(e.match_can_id(x) && e.match_can_id(y));
    }
}

#[test]
fn merge_of_wildcards_requires_every_bit() {
    let w = StandardCanIdFilter::accept_all() + StandardCanIdFilter::accept_all();
    assert_eq!(w.mask(), 0x7FF);
    let e = ExtendedCanIdFilter::accept_all() + ExtendedCanIdFilter::accept_all();
    assert_eq!(e.mask(), 0x1FFF_FFFF);
}

#[test]
fn merge_exact_filter_with_itself_gives_it_back() {
    for x in [0u32, 0x123, 0x7FF, 0xFFFF_FFFF] {
        let s = StandardCanIdFilter::from_can_id(x);
        assert!(s + s == s);
        let e = ExtendedCanIdFilter::from_can_id(x);
        assert!(e + e == e);
    }
    assert!(StandardCanIdFilter::from_can_id(0x42) == StandardCanIdFilter::from_can_id(0x42));
}
