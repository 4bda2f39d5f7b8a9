use bad_usb::mirror::run_mirror_script;

#[test]
fn burst_of_events_triggers_one_sync() {
    // Five modify events land within one drain window: one sync, not
    // five.
    assert_eq!(run_mirror_script(&vec![5]), 1);
}

#[test]
fn one_sync_per_drain_window() {
    assert_eq!(run_mirror_script(&vec![3, 1, 7]), 3);
}

#[test]
fn no_events_no_sync() {
    assert_eq!(run_mirror_script(&Vec::new()), 0);
}
