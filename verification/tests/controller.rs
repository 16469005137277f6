use coral::controller::{new, Controller};

#[test]
fn a_new_controller_is_at_rest() {
    let controller = new();
    assert_eq!(controller.state_data, 0);
    assert_eq!(controller.live_data, 0);
}

#[test]
fn the_live_byte_is_not_seen_before_the_strobe() {
    let mut controller = new();
    controller.write_live(0xFF);
    assert_eq!(controller.state_data, 0);
    assert_eq!(controller.read(), 0);
    controller.write();
    assert_eq!(controller.state_data, 0xFF);
    assert_eq!(controller.live_data, 0xFF);
}

#[test]
fn reads_hand_out_the_buttons_from_the_top_bit_down() {
    // A, Select, Up and Right are pressed.
    let mut controller = new();
    controller.write_live(0b1010_1001);
    controller.write();
    let mut bits = vec![];
    for _ in 0..8 {
        bits.push(controller.read());
    }
    assert_eq!(bits, vec![1, 0, 1, 0, 1, 0, 0, 1]);
    assert_eq!(controller.state_data, 0);
    assert_eq!(controller.live_data, 0b1010_1001);
}

#[test]
fn a_strobe_starts_the_reads_again() {
    let mut controller = new();
    controller.write_live(0x80);
    controller.write();
    assert_eq!(controller.read(), 1);
    assert_eq!(controller.read(), 0);
    controller.write();
    assert_eq!(controller.read(), 1);
}

#[test]
fn reset_clears_both_bytes() {
    let mut controller = Controller { state_data: 0x12, live_data: 0x34 };
    controller.reset();
    assert_eq!(controller.state_data, 0);
    assert_eq!(controller.live_data, 0);
}
