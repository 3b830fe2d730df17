use keychron_monitor::report::Report;
use keychron_monitor::tray::{
    device_of, BatteryIcon, Device, Notice, ParsePollLevelError, PollLevel, Tray, TrayAction,
    TrayEvent, TrayImage, TrayLook, TrayStatus, UnknownPollLevel, BATTERY_RESET, KEYCHRON_URL,
    NOTICE_ICON, TRAY_TITLE,
};
use trayicon::MenuBuilder;

fn device() -> Device {
    Device {
        name: "M3 Mini 4K".to_string(),
        version: "1.2.3".to_string(),
        battery: 80,
        charging: false,
        dpi: 1600,
        polling_rate_level: 3,
    }
}

fn notice(summary: &str) -> Notice {
    Notice { appname: "M3 Mini 4K".to_string(), summary: summary.to_string() }
}

#[test]
fn constants_of_the_tray() {
    assert_eq!(KEYCHRON_URL, "https://launcher.keychron.com");
    assert_eq!(TRAY_TITLE, "Keychron");
    assert_eq!(NOTICE_ICON, "input-mouse");
    assert_eq!(BATTERY_RESET, 255);
    assert_eq!(TrayEvent::default(), TrayEvent::Idle);
    assert_eq!(Device::default().name, "");
    assert_eq!(Device::default().battery, 0);
}

#[test]
fn tray_events_have_their_actions() {
    assert_eq!(TrayEvent::LeftClick.action(), TrayAction::ShowMenu);
    assert_eq!(TrayEvent::RightClick.action(), TrayAction::ShowMenu);
    assert_eq!(TrayEvent::Close.action(), TrayAction::Exit);
    assert_eq!(TrayEvent::Configure.action(), TrayAction::OpenConfigurator);
    assert_eq!(TrayEvent::UdevRules.action(), TrayAction::InstallUdevRules);
    assert_eq!(TrayEvent::Idle.action(), TrayAction::Nothing);
}

#[test]
fn menu_without_device() {
    let tray = Tray::new();
    let expected =
        MenuBuilder::new().item("Configure", TrayEvent::Configure).item("✖ Close", TrayEvent::Close);
    assert_eq!(tray.gen_menu().builder, expected);
    assert_ne!(tray.gen_menu().builder, MenuBuilder::new());
}

#[test]
fn menu_offers_the_udev_rules_when_needed() {
    let mut tray = Tray::new();
    tray.needs_udev_rules(true);
    let expected = MenuBuilder::new()
        .item("Install udev rules", TrayEvent::UdevRules)
        .item("Configure", TrayEvent::Configure)
        .item("✖ Close", TrayEvent::Close);
    assert_eq!(tray.gen_menu().builder, expected);
    tray.needs_udev_rules(false);
    let expected =
        MenuBuilder::new().item("Configure", TrayEvent::Configure).item("✖ Close", TrayEvent::Close);
    assert_eq!(tray.gen_menu().builder, expected);
}

#[test]
fn menu_shows_the_device() {
    let mut tray = Tray::new();
    tray.needs_udev_rules(true);
    tray.update_device(device());
    let expected = MenuBuilder::new()
        .item("Install udev rules", TrayEvent::UdevRules)
        .item("🖱️M3 Mini 4K", TrayEvent::Idle)
        .item("┣🔋80%", TrayEvent::Idle)
        .item("┣📏1600 dpi", TrayEvent::Idle)
        .item("┣⏱3:⚪🔵", TrayEvent::Idle)
        .item("┗🛈1.2.3", TrayEvent::Idle)
        .item("Configure", TrayEvent::Configure)
        .item("✖ Close", TrayEvent::Close);
    assert_eq!(tray.gen_menu().builder, expected);
}

#[test]
fn menu_shows_charging_and_low_battery() {
    let mut tray = Tray::new();
    tray.update_device(Device { charging: true, battery: 10, ..device() });
    let expected = MenuBuilder::new()
        .item("🖱️M3 Mini 4K", TrayEvent::Idle)
        .item("┣⚡10%", TrayEvent::Idle)
        .item("┣📏1600 dpi", TrayEvent::Idle)
        .item("┣⏱3:⚪🔵", TrayEvent::Idle)
        .item("┗🛈1.2.3", TrayEvent::Idle)
        .item("Configure", TrayEvent::Configure)
        .item("✖ Close", TrayEvent::Close);
    assert_eq!(tray.gen_menu().builder, expected);
    tray.update_device(Device { battery: 25, polling_rate_level: 9, dpi: 0, ..device() });
    let expected = MenuBuilder::new()
        .item("🖱️M3 Mini 4K", TrayEvent::Idle)
        .item("┣🪫25%", TrayEvent::Idle)
        .item("┣📏0 dpi", TrayEvent::Idle)
        .item("┣⏱9:⚪", TrayEvent::Idle)
        .item("┗🛈1.2.3", TrayEvent::Idle)
        .item("Configure", TrayEvent::Configure)
        .item("✖ Close", TrayEvent::Close);
    assert_eq!(tray.gen_menu().builder, expected);
}

#[test]
fn first_two_devices_raise_no_notice() {
    let mut tray = Tray::new();
    let update = tray.update_device(device());
    assert_eq!(update.notices, vec![]);
    let update = tray.update_device(Device { dpi: 800, polling_rate_level: 1, ..device() });
    assert_eq!(update.notices, vec![]);
    let update = tray.update_device(Device { dpi: 3200, polling_rate_level: 1, ..device() });
    assert_eq!(update.notices, vec![notice("3200 dpi")]);
}

#[test]
fn changes_raise_their_notices() {
    let mut tray = Tray::new();
    tray.update_device(device());
    tray.update_device(device());
    let update = tray.update_device(device());
    assert_eq!(update.notices, vec![]);
    let update = tray.update_device(Device { polling_rate_level: 5, ..device() });
    assert_eq!(update.notices, vec![notice("Polling rate 5 ⚪🔵🔴")]);
    let update = tray.update_device(Device { dpi: 26000, polling_rate_level: 0, ..device() });
    assert_eq!(update.notices, vec![notice("26000 dpi"), notice("Polling rate 0 ⚪")]);
    let update = tray.update_device(Device { dpi: 26000, polling_rate_level: 7, ..device() });
    assert_eq!(update.notices, vec![notice("Polling rate 7 ⚪")]);
}

#[test]
fn clear_forgets_the_device_and_its_changes() {
    let mut tray = Tray::new();
    tray.needs_udev_rules(true);
    tray.update_device(device());
    tray.update_device(device());
    let look = tray.clear();
    let expected = TrayLook {
        tooltip: "Keychron".to_string(),
        image: TrayImage::Plain,
        status: TrayStatus::Passive,
    };
    assert_eq!(look, expected);
    assert_eq!(tray.shown_device(), &None);
    let update = tray.update_device(Device { dpi: 1, ..device() });
    assert_eq!(update.notices, vec![]);
    let update = tray.update_device(Device { dpi: 2, ..device() });
    assert_eq!(update.notices, vec![]);
    let update = tray.update_device(Device { dpi: 3, ..device() });
    assert_eq!(update.notices, vec![notice("3 dpi")]);
    let expected = MenuBuilder::new()
        .item("Install udev rules", TrayEvent::UdevRules)
        .item("🖱️M3 Mini 4K", TrayEvent::Idle)
        .item("┣🔋80%", TrayEvent::Idle)
        .item("┣📏3 dpi", TrayEvent::Idle)
        .item("┣⏱3:⚪🔵", TrayEvent::Idle)
        .item("┗🛈1.2.3", TrayEvent::Idle)
        .item("Configure", TrayEvent::Configure)
        .item("✖ Close", TrayEvent::Close);
    assert_eq!(tray.gen_menu().builder, expected);
}

#[test]
fn battery_is_shown_up_to_100() {
    let mut tray = Tray::new();
    for (battery, shown, tooltip) in [
        (0u8, 0u8, "🪫0%"),
        (25, 25, "🪫25%"),
        (26, 26, "🔋26%"),
        (100, 100, "🔋100%"),
        (101, 100, "🔋100%"),
        (254, 100, "🔋100%"),
    ] {
        let update = tray.update_device(Device { battery, ..device() });
        assert_eq!(update.tooltip, tooltip);
        assert_eq!(tray.shown_device().as_ref().unwrap().battery, shown);
    }
}

#[test]
fn battery_255_is_not_shown_as_100() {
    let mut tray = Tray::new();
    let update = tray.update_device(Device { battery: 255, ..device() });
    assert_eq!(tray.shown_device().as_ref().unwrap().battery, 255);
    assert_eq!(update.tooltip, "🔋255%");
    assert_eq!(update.icon, BatteryIcon::Full);
    assert_eq!(update.status, TrayStatus::Active);
}

#[test]
fn icon_and_status_follow_the_battery() {
    let mut tray = Tray::new();
    for (battery, icon, status) in [
        (0u8, BatteryIcon::Low, TrayStatus::NeedsAttention),
        (25, BatteryIcon::Low, TrayStatus::NeedsAttention),
        (26, BatteryIcon::Half, TrayStatus::Active),
        (50, BatteryIcon::Half, TrayStatus::Active),
        (51, BatteryIcon::Good, TrayStatus::Active),
        (75, BatteryIcon::Good, TrayStatus::Active),
        (76, BatteryIcon::Full, TrayStatus::Active),
        (100, BatteryIcon::Full, TrayStatus::Active),
        (200, BatteryIcon::Full, TrayStatus::Active),
    ] {
        let update = tray.update_device(Device { battery, charging: true, ..device() });
        assert_eq!(update.icon, icon);
        assert_eq!(update.status, status);
    }
}

#[test]
fn charging_is_shown_in_the_tooltip() {
    let mut tray = Tray::new();
    let update = tray.update_device(Device { battery: 5, charging: true, ..device() });
    assert_eq!(update.tooltip, "⚡5%");
}

#[test]
fn status_is_shown_as_a_device() {
    let mut status = Report::default();
    status.pid = 0xd037;
    status.fr_version = [1, 2, 3];
    status.power.value = 80;
    status.power.state = true;
    status.dpi.level = [2, 0, 1];
    status.dpi.levels_val = [400, 800, 1600, 3200, 6400];
    status.polling_rate.level = [3, 1, 2];
    let expected = Device {
        name: "M3 Mini 4K".to_string(),
        version: "1.2.3".to_string(),
        battery: 80,
        charging: true,
        dpi: 1600,
        polling_rate_level: 3,
    };
    assert_eq!(device_of(&status), expected);
    status.dpi.level = [4, 0, 0];
    assert_eq!(device_of(&status).dpi, 6400);
}

#[test]
fn status_of_an_unknown_device_is_shown_under_the_title() {
    let mut status = Report::default();
    status.power.value = 255;
    status.dpi.level = [5, 0, 0];
    status.dpi.levels_val = [400, 800, 1600, 3200, 6400];
    let expected = Device {
        name: "Keychron".to_string(),
        version: "0.0.0".to_string(),
        battery: 255,
        charging: false,
        dpi: 0,
        polling_rate_level: 0,
    };
    assert_eq!(device_of(&status), expected);
    status.dpi.level = [255, 0, 0];
    assert_eq!(device_of(&status).dpi, 0);
}

#[test]
fn parse_reaches_poll_levels() {
    assert_eq!("⚪🔴".parse::<PollLevel>(), Ok(PollLevel::Level4));
    assert_eq!("".parse::<PollLevel>(), Err(ParsePollLevelError));
}

#[test]
fn poll_levels_have_numbers_and_colors() {
    let all = [
        (PollLevel::Level0, "⚪"),
        (PollLevel::Level1, "🔵"),
        (PollLevel::Level2, "🔴"),
        (PollLevel::Level3, "⚪🔵"),
        (PollLevel::Level4, "⚪🔴"),
        (PollLevel::Level5, "⚪🔵🔴"),
    ];
    for (number, (level, colors)) in all.into_iter().enumerate() {
        assert_eq!(PollLevel::try_from(number as u8), Ok(level));
        assert_eq!(PollLevel::shown(number as u8), level);
        assert_eq!(level.to_string(), colors);
        assert_eq!(level.as_str(), colors);
        assert_eq!(PollLevel::from_str(colors), Ok(level));
    }
    assert_eq!(PollLevel::default(), PollLevel::Level0);
    assert_eq!(PollLevel::try_from(6u8), Err(UnknownPollLevel { number: 6 }));
    assert_eq!(PollLevel::try_from(255u8), Err(UnknownPollLevel { number: 255 }));
    assert_eq!(PollLevel::shown(6), PollLevel::Level0);
}

#[test]
fn poll_level_is_read_whatever_the_spacing() {
    assert_eq!(PollLevel::from_str(" ⚪ 🔵 🔴 "), Ok(PollLevel::Level5));
    assert_eq!(PollLevel::from_str("🔵⚪"), Err(ParsePollLevelError));
    assert_eq!(PollLevel::from_str(""), Err(ParsePollLevelError));
    assert_eq!(PollLevel::from_normalized("⚪ 🔵"), Err(ParsePollLevelError));
    assert_eq!(ParsePollLevelError.to_string(), "Invalid poll level given");
    assert_eq!(ParsePollLevelError.description(), "invalid poll level");
}
