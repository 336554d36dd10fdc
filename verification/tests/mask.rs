use led_link::mask::{mask_from_toggles, Leds, ALL_OFF, ALL_ON};

#[test]
fn every_mask_sets_each_output_from_its_bit() {
    for m in 0..=255u8 {
        let mut leds = Leds::new();
        leds.apply_mask(m);
        assert_eq!(leds.led1, m & 0x01 != 0);
        assert_eq!(leds.led2, m & 0x02 != 0);
        assert_eq!(leds.led3, m & 0x04 != 0);
        assert_eq!(leds.led4, m & 0x08 != 0);
        for i in 0..4usize {
            assert_eq!(leds.is_on(i), (m >> i) & 1 == 1);
        }
        assert!(!leds.is_on(4));
    }
}

#[test]
fn bits_four_to_seven_change_nothing() {
    for m in 0..=255u8 {
        let mut with_high = Leds::new();
        with_high.apply_mask(m);
        let mut without = Leds::new();
        without.apply_mask(m & 0x0f);
        assert_eq!(with_high, without);
    }
}

#[test]
fn mask_five_lights_the_first_and_the_third() {
    let mut leds = Leds::new();
    leds.apply_mask(0x05);
    assert_eq!(leds, Leds { led1: true, led2: false, led3: true, led4: false });
}

#[test]
fn a_mask_replaces_what_was_lit() {
    let mut leds = Leds::new();
    leds.apply_mask(0x0f);
    leds.apply_mask(0x02);
    assert_eq!(leds, Leds { led1: false, led2: true, led3: false, led4: false });
}

#[test]
fn new_outputs_are_off() {
    assert_eq!(Leds::new(), Leds { led1: false, led2: false, led3: false, led4: false });
}

#[test]
fn all_off_darkens_whatever_was_lit() {
    for m in 0..=255u8 {
        let mut leds = Leds::new();
        leds.apply_mask(m);
        leds.all_off();
        assert_eq!(leds, Leds::new());
    }
}

#[test]
fn switches_give_one_bit_each() {
    assert_eq!(mask_from_toggles(false, false, false, false), 0x00);
    assert_eq!(mask_from_toggles(true, false, false, false), 0x01);
    assert_eq!(mask_from_toggles(false, true, false, false), 0x02);
    assert_eq!(mask_from_toggles(false, false, true, false), 0x04);
    assert_eq!(mask_from_toggles(false, false, false, true), 0x08);
    assert_eq!(mask_from_toggles(true, false, true, false), 0x05);
    assert_eq!(mask_from_toggles(true, true, true, true), 0x0f);
}

#[test]
fn the_mask_of_the_outputs_lights_the_same_outputs() {
    for m in 0..16u8 {
        let mut leds = Leds::new();
        leds.apply_mask(m);
        assert_eq!(leds.to_mask(), m);
        let mut again = Leds::new();
        again.apply_mask(leds.to_mask());
        assert_eq!(again, leds);
    }
    let mut leds = Leds::new();
    leds.apply_mask(0xf5);
    assert_eq!(leds.to_mask(), 0x05);
}

#[test]
fn the_two_fixed_masks() {
    assert_eq!(ALL_ON, 0x0f);
    assert_eq!(ALL_OFF, 0x00);
    let mut leds = Leds::new();
    leds.apply_mask(ALL_ON);
    assert_eq!(leds, Leds { led1: true, led2: true, led3: true, led4: true });
    leds.apply_mask(ALL_OFF);
    assert_eq!(leds, Leds::new());
}
