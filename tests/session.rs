use libmtp_rs::device::{BatteryLevel, MtpDevice, StorageSort, UpdateResult};
use libmtp_rs::error::{Error, ErrorEntry, ErrorStack, MtpErrorKind, ERROR_CANCELLED};
use libmtp_rs::device::capabilities::DeviceCapability;
use libmtp_rs::device::raw::{detect_outcome, RawDevice};
use libmtp_rs::internals::{supported_devices_outcome, DeviceEntry, InitState};
use libmtp_rs::object::filetypes::Filetype;
use libmtp_rs::storage::StorageRecord;
use libmtp_rs::values::{AllowedValues, DataType, RawAllowedValues, Values};

fn entry(code: u32, text: &str) -> ErrorEntry {
    ErrorEntry { errornumber: code, text: text.as_bytes().to_vec() }
}

fn record(id: u32, free: u64, max: u64) -> StorageRecord {
    StorageRecord {
        id,
        storage_type: 3,
        filesystem_type: 2,
        access_capability: 0,
        max_capacity: max,
        free_space_in_bytes: free,
        free_space_in_objects: 100,
        description: Some(format!("storage {}", id)),
        volume_identifier: None,
    }
}

#[test]
fn init() {
    let mut state = InitState::new();
    assert!(state.maybe_init());
    assert!(!state.maybe_init());
    assert!(!state.maybe_init());
}

#[test]
fn error_kind_from_number() {
    assert!(MtpErrorKind::from_error_number(0).is_none());
    assert_eq!(MtpErrorKind::from_error_number(1), Some(MtpErrorKind::General));
    assert_eq!(MtpErrorKind::from_error_number(2), Some(MtpErrorKind::PtpLayer));
    assert_eq!(MtpErrorKind::from_error_number(3), Some(MtpErrorKind::UsbLayer));
    assert_eq!(MtpErrorKind::from_error_number(6), Some(MtpErrorKind::StorageFull));
    assert_eq!(MtpErrorKind::from_error_number(8), Some(MtpErrorKind::Cancelled));
    assert_eq!(MtpErrorKind::from_error_number(4), Some(MtpErrorKind::MemoryAllocation));
    assert_eq!(MtpErrorKind::from_error_number(5), Some(MtpErrorKind::NoDeviceAttached));
    assert_eq!(MtpErrorKind::from_error_number(7), Some(MtpErrorKind::Connecting));
    assert!(MtpErrorKind::from_error_number(9).is_none());
    assert!(MtpErrorKind::from_error_number(0x400).is_none());
}

#[test]
fn latest_error_takes_last_entry_and_drains() {
    let mut stack = ErrorStack::new();
    stack.push(entry(1, "first"));
    stack.push(entry(6, "full"));
    match stack.latest_error() {
        Some(Error::MtpError { kind, text }) => {
            assert_eq!(kind, MtpErrorKind::StorageFull);
            assert_eq!(text, "full");
        }
        other => panic!("unexpected {:?}", other),
    }
    assert!(stack.is_empty());
}

#[test]
fn second_read_of_error_stack_is_empty() {
    let mut stack = ErrorStack::new();
    stack.push(entry(2, "ptp"));
    assert!(stack.latest_error().is_some());
    assert!(stack.latest_error().is_none());
}

#[test]
fn undecodable_entry_gives_unknown_failure() {
    let mut stack = ErrorStack::new();
    stack.push(entry(77, "odd"));
    assert!(matches!(stack.failure(), Error::Unknown));
    assert!(stack.is_empty());
    assert!(matches!(stack.failure(), Error::Unknown));
}

#[test]
fn lossy_error_text() {
    let mut stack = ErrorStack::new();
    stack.push(ErrorEntry { errornumber: 1, text: vec![b'a', 0xff, b'b'] });
    match stack.failure() {
        Error::MtpError { text, .. } => assert_eq!(text, "a\u{fffd}b"),
        other => panic!("unexpected {:?}", other),
    }
}

#[test]
fn text_property_outcomes() {
    let mut dev = MtpDevice::new();
    assert_eq!(dev.text_property(Some(b"Kevin's Android".to_vec())).unwrap(), "Kevin's Android");
    match dev.text_property(Some(vec![0xc3, 0x28])) {
        Err(Error::Utf8Error { bytes }) => assert_eq!(bytes, vec![0xc3, 0x28]),
        other => panic!("unexpected {:?}", other),
    }
    dev.record_error(entry(5, "gone"));
    match dev.text_property(None) {
        Err(Error::MtpError { kind, .. }) => assert_eq!(kind, MtpErrorKind::NoDeviceAttached),
        other => panic!("unexpected {:?}", other),
    }
    assert!(matches!(dev.text_property(None), Err(Error::Unknown)));
}

#[test]
fn battery_level_outcomes() {
    let mut dev = MtpDevice::new();
    assert_eq!(dev.battery_level(0, 100, 0).unwrap(), (BatteryLevel::OnExternalPower, 100));
    assert_eq!(dev.battery_level(0, 100, 42).unwrap(), (BatteryLevel::OnBattery(42), 100));
    dev.record_error(entry(2, "no battery"));
    match dev.battery_level(-1, 0, 0) {
        Err(Error::MtpError { kind, text }) => {
            assert_eq!(kind, MtpErrorKind::PtpLayer);
            assert_eq!(text, "no battery");
        }
        other => panic!("unexpected {:?}", other),
    }
}

#[test]
fn supported_filetypes_keeps_known_ones() {
    let mut dev = MtpDevice::new();
    let types = dev.supported_filetypes(0, Some(vec![2, 500, 14, 44])).unwrap();
    assert_eq!(types, vec![Filetype::Mp3, Filetype::Jpeg, Filetype::Unknown]);
    assert!(matches!(dev.supported_filetypes(1, Some(vec![2])), Err(Error::Unknown)));
    assert!(matches!(dev.supported_filetypes(0, None), Err(Error::Unknown)));
}

#[test]
fn storage_sort_codes() {
    assert_eq!(StorageSort::NotSorted.native_code(), 0);
    assert_eq!(StorageSort::ByFreeSpace.native_code(), 1);
    assert_eq!(StorageSort::ByMaximumSpace.native_code(), 2);
}

#[test]
fn update_by_free_space_puts_most_free_first() {
    // The native layer sorts during the refresh; the pool keeps that order.
    let mut dev = MtpDevice::new();
    let mut native = vec![record(0x10001, 500, 1000), record(0x20001, 9000, 16000), record(0x10002, 70, 64)];
    native.sort_by(|a, b| b.free_space_in_bytes.cmp(&a.free_space_in_bytes));
    let code = StorageSort::ByFreeSpace.native_code();
    assert_eq!(code, 1);
    assert_eq!(dev.update_storage(0, native).unwrap(), UpdateResult::Success);
    let pool = dev.storage_pool();
    let mut it = pool.iter();
    let (id, first) = it.next().unwrap();
    assert_eq!(id, 0x20001);
    assert_eq!(first.free_space_in_bytes(), 9000);
    for (_, s) in [it.next().unwrap(), it.next().unwrap()] {
        assert!(s.free_space_in_bytes() <= first.free_space_in_bytes());
    }
    assert!(it.next().is_none());
}

#[test]
fn successful_outcome_leaves_no_stale_error() {
    let mut dev = MtpDevice::new();
    dev.record_error(entry(2, "properties unavailable"));
    assert_eq!(dev.update_storage(1, vec![record(7, 0, 0)]).unwrap(), UpdateResult::OnlyIds);
    assert!(dev.errors.is_empty());
    assert_eq!(dev.errors.value(5u32).unwrap(), 5);
    dev.record_error(entry(1, "stale"));
    assert!(dev.errors.status(0).is_ok());
    assert!(dev.errors.is_empty());
}

#[test]
fn update_storage_only_ids_and_failure() {
    let mut dev = MtpDevice::new();
    assert_eq!(dev.update_storage(1, vec![record(7, 0, 0)]).unwrap(), UpdateResult::OnlyIds);
    assert_eq!(dev.storage_pool().len(), 1);
    dev.record_error(entry(3, "usb"));
    match dev.update_storage(-1, vec![]) {
        Err(Error::MtpError { kind, .. }) => assert_eq!(kind, MtpErrorKind::UsbLayer),
        other => panic!("unexpected {:?}", other),
    }
    assert_eq!(dev.storage_pool().len(), 1);
}

#[test]
fn property_support_outcomes() {
    let mut dev = MtpDevice::new();
    assert_eq!(dev.is_property_supported(1).unwrap(), true);
    assert_eq!(dev.is_property_supported(0).unwrap(), false);
    assert!(matches!(dev.is_property_supported(-1), Err(Error::Unknown)));
}

fn raw_values(datatype: u32, is_range: u16) -> RawAllowedValues {
    RawAllowedValues {
        datatype,
        is_range,
        i8_values: Values::new(0, 0, 0, vec![]),
        u8_values: Values::new(0, 0, 0, vec![]),
        i16_values: Values::new(0, 0, 0, vec![]),
        u16_values: Values::new(100, 10, 5, vec![30, 10, 30]),
        i32_values: Values::new(0, 0, 0, vec![]),
        u32_values: Values::new(0, 0, 0, vec![]),
        i64_values: Values::new(-1, -9, 2, vec![-3]),
        u64_values: Values::new(0, 0, 0, vec![]),
    }
}

#[test]
fn allowed_values_range() {
    let mut dev = MtpDevice::new();
    let a = dev.allowed_property_values(0, Some(raw_values(3, 1))).unwrap();
    assert!(a.is_range());
    assert_eq!(a.datatype(), DataType::U16);
    let v = a.u16_values().unwrap();
    assert_eq!((v.min(), v.max(), v.step()), (10, 100, 5));
    assert!(v.vals().is_empty());
    assert!(a.u8_values().is_none());
    assert!(a.i8_values().is_none());
    assert!(a.i16_values().is_none());
    assert!(a.u32_values().is_none());
    assert!(a.i32_values().is_none());
    assert!(a.u64_values().is_none());
    assert!(a.i64_values().is_none());
}

#[test]
fn allowed_values_enumeration_keeps_order() {
    let mut dev = MtpDevice::new();
    let a = dev.allowed_property_values(0, Some(raw_values(3, 0))).unwrap();
    assert!(!a.is_range());
    assert_eq!(a.u16_values().unwrap().vals(), &[30, 10, 30]);
    let b = dev.allowed_property_values(0, Some(raw_values(6, 0))).unwrap();
    assert_eq!(b.datatype(), DataType::I64);
    let v = b.i64_values().unwrap();
    assert_eq!((v.min(), v.max(), v.step(), v.vals()), (-9, -1, 2, &[-3i64][..]));
    assert!(b.u16_values().is_none());
}

#[test]
fn allowed_values_failures() {
    let mut dev = MtpDevice::new();
    assert!(matches!(dev.allowed_property_values(0, Some(raw_values(8, 0))), Err(Error::Unknown)));
    dev.record_error(entry(1, "no constraint"));
    match dev.allowed_property_values(-1, None) {
        Err(Error::MtpError { kind, .. }) => assert_eq!(kind, MtpErrorKind::General),
        other => panic!("unexpected {:?}", other),
    }
    assert!(matches!(dev.allowed_property_values(0, None), Err(Error::Unknown)));
}

#[test]
fn datatype_codes() {
    assert_eq!(DataType::from_u32(0), Some(DataType::I8));
    assert_eq!(DataType::from_u32(7), Some(DataType::U64));
    assert_eq!(DataType::from_u32(8), None);
}

#[test]
fn cancelled_entry_is_decoded() {
    let mut stack = ErrorStack::new();
    stack.push(entry(ERROR_CANCELLED, "Cancelled transfer"));
    assert!(matches!(stack.failure(), Error::MtpError { kind: MtpErrorKind::Cancelled, .. }));
}

#[test]
fn supported_devices_outcomes() {
    let entry = DeviceEntry {
        vendor: "Vendor".to_string(),
        vendor_id: 0x1234,
        product: "Player".to_string(),
        product_id: 0x5678,
        device_flags: 0,
    };
    let list = supported_devices_outcome(0, vec![entry]).unwrap();
    assert_eq!(list.len(), 1);
    assert_eq!(list[0].product_id, 0x5678);
    assert!(matches!(supported_devices_outcome(1, vec![]), Err(Error::Unknown)));
}

#[test]
fn detect_outcomes() {
    let dev = RawDevice {
        bus_location: 3,
        devnum: 9,
        device_entry: DeviceEntry {
            vendor: "V".to_string(),
            vendor_id: 1,
            product: "P".to_string(),
            product_id: 2,
            device_flags: 0,
        },
    };
    let found = detect_outcome(0, vec![dev]).unwrap();
    assert_eq!((found[0].bus_number(), found[0].dev_number()), (3, 9));
    assert_eq!(found[0].device_entry().vendor, "V");
    match detect_outcome(5, vec![]) {
        Err(Error::MtpError { kind, text }) => {
            assert_eq!(kind, MtpErrorKind::NoDeviceAttached);
            assert_eq!(text, "Failed to detect raw devices");
        }
        other => panic!("unexpected {:?}", other),
    }
}

#[test]
fn numeric_getter_outcomes() {
    let mut stack = ErrorStack::new();
    assert_eq!(stack.value(0u32).unwrap(), 0);
    stack.push(entry(1, "no such property"));
    assert!(matches!(stack.value(0u64), Err(Error::MtpError { kind: MtpErrorKind::General, .. })));
    assert!(stack.is_empty());
    assert!(stack.status(0).is_ok());
    assert!(matches!(stack.status(-1), Err(Error::Unknown)));
}

#[test]
fn capability_codes() {
    assert_eq!(DeviceCapability::GetPartialObject.native_code(), 0);
    assert_eq!(DeviceCapability::CopyObject.native_code(), 4);
}

#[test]
fn default_error_and_values() {
    assert!(matches!(Error::default(), Error::Unknown));
    let a = AllowedValues::default();
    assert_eq!(a.datatype(), DataType::I8);
    assert!(!a.is_range());
    assert!(a.i8_values().unwrap().vals().is_empty());
}
