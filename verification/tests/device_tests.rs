use keychron_monitor::keychron_device::{
    classify, KeychronDevice, KeychronDeviceCategory, ParseKeychronDeviceCategoryError,
    ParseKeychronDeviceError, UnknownKeychronDevice, UnknownKeychronDeviceCategory,
};
use keychron_monitor::report::{Report, TryMerge};

const ALL: [(KeychronDevice, u16, &str); 8] = [
    (KeychronDevice::UltraLink8K, 0xd028, "Ultra-Link 8K"),
    (KeychronDevice::M3Mini4K, 0xd037, "M3 Mini 4K"),
    (KeychronDevice::M3_4K, 0xd03c, "M3 4K"),
    (KeychronDevice::M4_4K, 0xd040, "M4 4K"),
    (KeychronDevice::M3Mini4KAluAll, 0xd041, "M3 Mini 4K 铝合金"),
    (KeychronDevice::M3M24K, 0xd045, "M3 M2 4K"),
    (KeychronDevice::M6_4K, 0xd046, "M6 4K"),
    (KeychronDevice::M6_8K, 0xd049, "M6 8K"),
];

#[test]
fn every_device_has_its_product_id() {
    for (device, id, _) in ALL {
        assert_eq!(u16::from(device), id);
        assert_eq!(KeychronDevice::try_from(id), Ok(device));
    }
}

#[test]
fn unknown_product_id_is_refused_with_its_number() {
    for id in [0u16, 0xd027, 0xd029, 0xd038, 0xd04a, 0x28d0, 0xffff] {
        assert_eq!(KeychronDevice::try_from(id), Err(UnknownKeychronDevice { number: id }));
    }
}

#[test]
fn every_device_has_its_name() {
    for (device, _, name) in ALL {
        assert_eq!(device.to_string(), name);
    }
}

#[test]
fn device_is_read_from_its_name() {
    for (device, _, name) in ALL {
        assert_eq!(KeychronDevice::from_str(name), Ok(device));
        assert_eq!(KeychronDevice::from_str(&name.to_lowercase()), Ok(device));
    }
    assert_eq!(KeychronDevice::from_str("  m 3  mini 4 k "), Ok(KeychronDevice::M3Mini4K));
    assert_eq!(KeychronDevice::from_str("ultra-link8k"), Ok(KeychronDevice::UltraLink8K));
}

#[test]
fn parse_reaches_devices_and_categories() {
    assert_eq!("m6 8k".parse::<KeychronDevice>(), Ok(KeychronDevice::M6_8K));
    assert_eq!("Ultra-Link 8K".parse::<KeychronDevice>(), Ok(KeychronDevice::UltraLink8K));
    assert_eq!("m7".parse::<KeychronDevice>(), Err(ParseKeychronDeviceError));
    assert_eq!("mouse".parse::<KeychronDeviceCategory>(), Ok(KeychronDeviceCategory::Mouse));
    assert_eq!(" Receiver".parse::<KeychronDeviceCategory>(), Ok(KeychronDeviceCategory::Receiver));
    assert_eq!("".parse::<KeychronDeviceCategory>(), Err(ParseKeychronDeviceCategoryError));
}

#[test]
fn unknown_device_name_is_refused() {
    for name in ["", "M3", "M3 Mini", "Ultra Link 8K", "M6 4K.", "M5 4K"] {
        assert_eq!(KeychronDevice::from_str(name), Err(ParseKeychronDeviceError));
    }
}

#[test]
fn device_is_looked_up_by_normal_form_only() {
    assert_eq!(KeychronDevice::from_normalized("M68K"), Ok(KeychronDevice::M6_8K));
    assert_eq!(KeychronDevice::from_normalized("M6 8K"), Err(ParseKeychronDeviceError));
    assert_eq!(KeychronDevice::from_normalized("m68k"), Err(ParseKeychronDeviceError));
}

#[test]
fn only_the_ultra_link_is_a_receiver() {
    for (device, _, _) in ALL {
        let expected = if device == KeychronDevice::UltraLink8K {
            KeychronDeviceCategory::Receiver
        } else {
            KeychronDeviceCategory::Mouse
        };
        assert_eq!(device.device_type(), expected);
    }
}

#[test]
fn category_has_code_name_description_and_type() {
    let mouse = KeychronDeviceCategory::Mouse;
    let receiver = KeychronDeviceCategory::Receiver;
    assert_eq!(u8::from(receiver), 24);
    assert_eq!(u8::from(mouse), 25);
    assert_eq!(KeychronDeviceCategory::try_from(24u8), Ok(receiver));
    assert_eq!(KeychronDeviceCategory::try_from(25u8), Ok(mouse));
    assert_eq!(mouse.to_string(), "Mouse");
    assert_eq!(receiver.to_string(), "Receiver");
    assert_eq!(mouse.description(), "");
    assert_eq!(receiver.description(), "Keychron Link");
    assert_eq!(mouse.ttype(), 1);
    assert_eq!(receiver.ttype(), 2);
}

#[test]
fn unknown_category_code_is_refused_with_its_number() {
    for number in [0u8, 1, 2, 23, 26, 255] {
        assert_eq!(
            KeychronDeviceCategory::try_from(number),
            Err(UnknownKeychronDeviceCategory { number })
        );
    }
}

#[test]
fn category_is_read_from_its_name() {
    assert_eq!(KeychronDeviceCategory::from_str("Mouse"), Ok(KeychronDeviceCategory::Mouse));
    assert_eq!(KeychronDeviceCategory::from_str(" mo use "), Ok(KeychronDeviceCategory::Mouse));
    assert_eq!(
        KeychronDeviceCategory::from_str("receiver"),
        Ok(KeychronDeviceCategory::Receiver)
    );
    assert_eq!(
        KeychronDeviceCategory::from_str("RECEIVER"),
        Ok(KeychronDeviceCategory::Receiver)
    );
    for name in ["", "mice", "keyboard", "mouse\t"] {
        assert_eq!(KeychronDeviceCategory::from_str(name), Err(ParseKeychronDeviceCategoryError));
    }
    assert_eq!(
        KeychronDeviceCategory::from_normalized("Mouse"),
        Err(ParseKeychronDeviceCategoryError)
    );
}

#[test]
fn parse_errors_have_their_texts() {
    assert_eq!(ParseKeychronDeviceError.to_string(), "Invalid Keychron device given");
    assert_eq!(ParseKeychronDeviceError.description(), "invalid Keychron device");
    assert_eq!(
        ParseKeychronDeviceCategoryError.to_string(),
        "Invalid Keychron device category given"
    );
    assert_eq!(ParseKeychronDeviceCategoryError.description(), "invalid Keychron device category");
}

#[test]
fn classify_asks_for_the_vendor_of_the_catalog() {
    assert_eq!(classify(0x3434, 0xd028), Some(KeychronDevice::UltraLink8K));
    assert_eq!(classify(0x3434, 0xd049), Some(KeychronDevice::M6_8K));
    assert_eq!(classify(0x3434, 0xd04a), None);
    assert_eq!(classify(0x3435, 0xd028), None);
    assert_eq!(classify(0, 0), None);
}

#[test]
fn status_names_its_device() {
    let mut r = Report::default();
    assert_eq!(r.keychron_device(), Err(UnknownKeychronDevice { number: 0 }));
    r.pid = 0xd040;
    assert_eq!(r.keychron_device(), Ok(KeychronDevice::M4_4K));
    r.merge(&[2, 0, 0, 0x34, 0x34, 0xd0, 0x46, 0, 0, 0]).unwrap();
    assert_eq!(r.keychron_device(), Ok(KeychronDevice::M6_4K));
    assert_eq!(r.vendor_product_id(), 0x3434_d046);
}
