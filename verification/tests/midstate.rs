use bosminer_am1_s9::error::ErrorKind;
use bosminer_am1_s9::midstate::{MidstateCount, MidstateCountReg};

#[test]
fn supported_counts_are_accepted() {
    for count in [1usize, 2, 4] {
        let midstate_count = MidstateCount::new(count).expect("supported count");
        assert_eq!(midstate_count.to_count(), count);
    }
}

#[test]
fn unsupported_counts_are_rejected() {
    for count in [0usize, 3, 5, 6, 7, 8, 16, 255, usize::MAX] {
        assert_eq!(
            MidstateCount::new(count),
            Err(ErrorKind::UnsupportedMidstateCount(count))
        );
    }
}

#[test]
fn every_other_count_up_to_a_thousand_is_rejected() {
    for count in 0usize..1000 {
        let supported = count == 1 || count == 2 || count == 4;
        assert_eq!(MidstateCount::new(count).is_ok(), supported, "count {}", count);
    }
}

#[test]
fn mask_is_count_minus_one() {
    assert_eq!(MidstateCount::new(1).unwrap().to_mask(), 0);
    assert_eq!(MidstateCount::new(2).unwrap().to_mask(), 1);
    assert_eq!(MidstateCount::new(4).unwrap().to_mask(), 3);
}

#[test]
fn bits_are_log2_of_count() {
    assert_eq!(MidstateCount::new(1).unwrap().to_bits(), 0);
    assert_eq!(MidstateCount::new(2).unwrap().to_bits(), 1);
    assert_eq!(MidstateCount::new(4).unwrap().to_bits(), 2);
    for count in [1usize, 2, 4] {
        let midstate_count = MidstateCount::new(count).unwrap();
        assert_eq!(1usize << midstate_count.to_bits(), midstate_count.to_count());
        assert_eq!(midstate_count.to_mask() + 1, midstate_count.to_count());
    }
}

#[test]
fn register_value_names_the_count() {
    assert_eq!(MidstateCount::new(1).unwrap().to_reg(), MidstateCountReg::One);
    assert_eq!(MidstateCount::new(2).unwrap().to_reg(), MidstateCountReg::Two);
    assert_eq!(MidstateCount::new(4).unwrap().to_reg(), MidstateCountReg::Four);
}

#[test]
fn hardware_id_splits_into_work_id_and_midstate_index() {
    let four = MidstateCount::new(4).unwrap();
    assert_eq!(four.work_id(8), 2);
    assert_eq!(four.midstate_idx(8), 0);
    assert_eq!(four.work_id(11), 2);
    assert_eq!(four.midstate_idx(11), 3);
    assert_eq!(four.work_id(0xffff_ffff), 0x3fff_ffff);
    assert_eq!(four.midstate_idx(0xffff_ffff), 3);

    let two = MidstateCount::new(2).unwrap();
    assert_eq!(two.work_id(11), 5);
    assert_eq!(two.midstate_idx(11), 1);

    let one = MidstateCount::new(1).unwrap();
    assert_eq!(one.work_id(11), 11);
    assert_eq!(one.midstate_idx(11), 0);
}

#[test]
fn hardware_id_split_loses_nothing() {
    for count in [1usize, 2, 4] {
        let midstate_count = MidstateCount::new(count).unwrap();
        for hardware_id in (0u32..5000).chain(0xffff_f000..=0xffff_ffff) {
            let work_id = midstate_count.work_id(hardware_id);
            let midstate_idx = midstate_count.midstate_idx(hardware_id);
            assert!(midstate_idx < count);
            assert_eq!(work_id * count + midstate_idx, hardware_id as usize);
        }
    }
}
