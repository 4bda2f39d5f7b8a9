use bad_usb::gadget::{gadget_identity, hid_device_node, keyboard_function_config,
    GADGET_SETTLE_DELAY_MS, KEYSTROKE_DELAY_MS};
use bad_usb::{WMSError, WMSKeyboardDevice, WMSMassStorageDevice};
use usbd_hid::descriptor::{KeyboardReport, SerializedDescriptor};

#[test]
fn gadget_identity_matches_registration() {
    let g = gadget_identity();
    assert_eq!((g.device_class, g.device_subclass, g.device_protocol), (1, 2, 3));
    assert_eq!((g.vendor_id, g.product_id), (4, 5));
    assert_eq!(g.manufacturer, "Cole");
    assert_eq!(g.product, "evil USB");
    assert_eq!(g.serial, "Cereal Value");
    assert_eq!(g.config_name, "cfg1");
}

#[test]
fn keyboard_function_is_boot_keyboard() {
    let c = keyboard_function_config();
    assert_eq!(c.protocol, 1);
    assert_eq!(c.sub_class, 1);
    assert_eq!(c.report_len, 8);
    assert_eq!(c.report_desc, KeyboardReport::desc().to_vec());
}

#[test]
fn device_node_and_delays() {
    assert_eq!(hid_device_node(), "/dev/hidg0");
    assert_eq!(KEYSTROKE_DELAY_MS, 100);
    assert_eq!(GADGET_SETTLE_DELAY_MS, 1000);
}

#[test]
fn load_script_encodes_each_line() {
    let mut kybd = WMSKeyboardDevice::new();
    let lines = vec!["shift a".to_string(), "release".to_string(), "b".to_string()];
    assert_eq!(kybd.load_script(&lines), Ok(()));
    assert_eq!(kybd.keystrokes.len(), 3);
    assert_eq!(kybd.keystrokes[0], [0x02, 0, 4, 0, 0, 0, 0, 0]);
    assert_eq!(kybd.keystrokes[1], [0u8; 8]);
    assert_eq!(kybd.keystrokes[2], [0, 0, 5, 0, 0, 0, 0, 0]);
}

#[test]
fn load_script_appends_in_order() {
    let mut kybd = WMSKeyboardDevice::new();
    assert_eq!(kybd.load_script(&vec!["a".to_string()]), Ok(()));
    assert_eq!(kybd.load_script(&vec!["b".to_string()]), Ok(()));
    assert_eq!(kybd.keystrokes[0], [0, 0, 4, 0, 0, 0, 0, 0]);
    assert_eq!(kybd.keystrokes[1], [0, 0, 5, 0, 0, 0, 0, 0]);
}

#[test]
fn injection_plan_ends_with_release_report() {
    let mut kybd = WMSKeyboardDevice::new();
    kybd.load_script(&vec!["shift a".to_string(), "enter".to_string()]).unwrap();
    let plan = kybd.injection_reports();
    assert_eq!(plan.len(), 3);
    assert_eq!(plan[0], [0x02, 0, 4, 0, 0, 0, 0, 0]);
    assert_eq!(plan[1], [0, 0, 40, 0, 0, 0, 0, 0]);
    assert_eq!(plan[2], [0u8; 8]);
}

#[test]
fn empty_script_still_releases() {
    let kybd = WMSKeyboardDevice::new();
    assert_eq!(kybd.injection_reports(), vec![[0u8; 8]]);
}

#[test]
fn mass_storage_paths_and_sync_command() {
    let mut msd = WMSMassStorageDevice::new("/tmp/fakefs".to_string());
    assert_eq!(msd.fakefs, "/tmp/fakefs");
    assert!(msd.logfs.is_none());
    assert_eq!(msd.open_logfile("/tmp/storage-log".to_string()), Ok(()));
    assert_eq!(msd.logfs.as_deref(), Some("/tmp/storage-log"));
    let args = msd.sync_command_args();
    assert_eq!(args, vec!["-avW", "--no-compress", "/tmp/fakefs", "/tmp/storage-log"]);
}

#[test]
fn error_taxonomy_variants_are_distinct() {
    let all = [WMSError::FileError, WMSError::SyntaxError, WMSError::GadgetSetupError,
        WMSError::RuntimeError];
    for (i, a) in all.iter().enumerate() {
        for (j, b) in all.iter().enumerate() {
            assert_eq!(a == b, i == j);
        }
    }
}
