//! What the tray shows of a device: its menu, its tooltip, its icon, and the
//! notices that tell of a change. The tray icon itself is the caller's; here is
//! what is decided of it.

use crate::keychron_device::KeychronDevice;
use crate::report::Report;
use crate::text::{decimal, decimal_string, normalize, normalized, same_text};
use trayicon::MenuBuilder;
use vstd::prelude::*;
use vstd::std_specs::convert::TryFromSpecImpl;
use vstd::string::StringExecFns;

verus! {

/// Where the device is configured.
pub const KEYCHRON_URL: &'static str = "https://launcher.keychron.com";

/// The title of the tray icon, which is also its tooltip while it shows no
/// device, and the name under which a device that is not in the catalog is
/// shown.
pub const TRAY_TITLE: &'static str = "Keychron";

/// The name of the icon of a notice.
pub const NOTICE_ICON: &'static str = "input-mouse";

/// The battery value that stands for a device that has been reset. It is no
/// charge level and is shown as it is.
pub const BATTERY_RESET: u8 = 255;

/// What a click in the tray stands for.
#[derive(Clone, Copy, Debug, PartialEq, Eq, Hash, Structural)]
pub enum TrayEvent {
    Idle,
    UdevRules,
    Configure,
    Close,
    LeftClick,
    RightClick,
}

impl Default for TrayEvent {
    fn default() -> (event: TrayEvent)
        ensures
            event == TrayEvent::Idle,
    {
        TrayEvent::Idle
    }
}

/// What is done about a click in the tray.
#[derive(Clone, Copy, Debug, PartialEq, Eq, Hash, Structural)]
pub enum TrayAction {
    /// Show the menu.
    ShowMenu,
    /// End the program.
    Exit,
    /// Open `KEYCHRON_URL` in the browser.
    OpenConfigurator,
    /// Install the udev rules that grant access to the devices.
    InstallUdevRules,
    /// Nothing.
    Nothing,
}

impl TrayEvent {
    /// What is done about the event.
    pub open spec fn reaction(self) -> TrayAction {
        match self {
            TrayEvent::LeftClick | TrayEvent::RightClick => TrayAction::ShowMenu,
            TrayEvent::Close => TrayAction::Exit,
            TrayEvent::Configure => TrayAction::OpenConfigurator,
            TrayEvent::UdevRules => TrayAction::InstallUdevRules,
            TrayEvent::Idle => TrayAction::Nothing,
        }
    }

    /// What is done about the event.
    pub fn action(&self) -> (action: TrayAction)
        ensures
            action == self.reaction(),
    {
        match self {
            TrayEvent::LeftClick | TrayEvent::RightClick => TrayAction::ShowMenu,
            TrayEvent::Close => TrayAction::Exit,
            TrayEvent::Configure => TrayAction::OpenConfigurator,
            TrayEvent::UdevRules => TrayAction::InstallUdevRules,
            TrayEvent::Idle => TrayAction::Nothing,
        }
    }
}

/// A polling level, shown by the colors of the lights of the device.
#[derive(Clone, Copy, Debug, PartialEq, Eq, Hash, Structural)]
pub enum PollLevel {
    Level0,
    Level1,
    Level2,
    Level3,
    Level4,
    Level5,
}

/// The error of a text that shows no polling level.
#[derive(Debug, Eq, PartialEq, Copy, Clone, Hash, Structural)]
pub struct ParsePollLevelError;

/// The error of a number that is no polling level.
#[derive(Debug, Eq, PartialEq, Copy, Clone, Hash, Structural)]
pub struct UnknownPollLevel {
    pub number: u8,
}

impl ParsePollLevelError {
    pub fn to_string(&self) -> (s: String)
        ensures
            s@ == "Invalid poll level given"@,
    {
        String::from_str("Invalid poll level given")
    }

    pub fn description(&self) -> (s: &'static str)
        ensures
            s@ == "invalid poll level"@,
    {
        "invalid poll level"
    }
}

impl Default for PollLevel {
    fn default() -> (level: PollLevel)
        ensures
            level == PollLevel::Level0,
    {
        PollLevel::Level0
    }
}

impl PollLevel {
    /// The level that a number stands for, if any.
    pub open spec fn of_number(number: u8) -> Option<PollLevel> {
        if number == 0 {
            Some(PollLevel::Level0)
        } else if number == 1 {
            Some(PollLevel::Level1)
        } else if number == 2 {
            Some(PollLevel::Level2)
        } else if number == 3 {
            Some(PollLevel::Level3)
        } else if number == 4 {
            Some(PollLevel::Level4)
        } else if number == 5 {
            Some(PollLevel::Level5)
        } else {
            None
        }
    }

    /// The level that is shown for a number: the level it stands for, and the
    /// lowest level where it stands for none.
    pub open spec fn shown_for(number: u8) -> PollLevel {
        match Self::of_number(number) {
            Some(level) => level,
            None => PollLevel::Level0,
        }
    }

    /// The colors that show the level.
    pub open spec fn symbol(self) -> Seq<char> {
        match self {
            PollLevel::Level0 => "⚪"@,
            PollLevel::Level1 => "🔵"@,
            PollLevel::Level2 => "🔴"@,
            PollLevel::Level3 => "⚪🔵"@,
            PollLevel::Level4 => "⚪🔴"@,
            PollLevel::Level5 => "⚪🔵🔴"@,
        }
    }

    /// The level whose colors have the normal form `norm`, if any.
    pub open spec fn of_normalized(norm: Seq<char>) -> Option<PollLevel> {
        if norm == "⚪"@ {
            Some(PollLevel::Level0)
        } else if norm == "🔵"@ {
            Some(PollLevel::Level1)
        } else if norm == "🔴"@ {
            Some(PollLevel::Level2)
        } else if norm == "⚪🔵"@ {
            Some(PollLevel::Level3)
        } else if norm == "⚪🔴"@ {
            Some(PollLevel::Level4)
        } else if norm == "⚪🔵🔴"@ {
            Some(PollLevel::Level5)
        } else {
            None
        }
    }

    /// The colors that show the level.
    pub fn as_str(&self) -> (s: &'static str)
        ensures
            s@ == self.symbol(),
    {
        match *self {
            PollLevel::Level0 => "⚪",
            PollLevel::Level1 => "🔵",
            PollLevel::Level2 => "🔴",
            PollLevel::Level3 => "⚪🔵",
            PollLevel::Level4 => "⚪🔴",
            PollLevel::Level5 => "⚪🔵🔴",
        }
    }

    pub fn to_string(&self) -> (s: String)
        ensures
            s@ == self.symbol(),
    {
        String::from_str(self.as_str())
    }

    /// The level that is shown for a number.
    pub fn shown(number: u8) -> (level: PollLevel)
        ensures
            level == Self::shown_for(number),
    {
        match PollLevel::try_from(number) {
            Ok(level) => level,
            Err(_) => PollLevel::default(),
        }
    }

    /// Looks a level up by its colors in normal form: without spaces, in upper
    /// case.
    pub fn from_normalized(norm: &str) -> (res: Result<Self, ParsePollLevelError>)
        ensures
            res is Ok <==> Self::of_normalized(norm@) is Some,
            res is Ok ==> Some(res->Ok_0) == Self::of_normalized(norm@),
    {
        if same_text(norm, "⚪") {
            Ok(PollLevel::Level0)
        } else if same_text(norm, "🔵") {
            Ok(PollLevel::Level1)
        } else if same_text(norm, "🔴") {
            Ok(PollLevel::Level2)
        } else if same_text(norm, "⚪🔵") {
            Ok(PollLevel::Level3)
        } else if same_text(norm, "⚪🔴") {
            Ok(PollLevel::Level4)
        } else if same_text(norm, "⚪🔵🔴") {
            Ok(PollLevel::Level5)
        } else {
            Err(ParsePollLevelError)
        }
    }

    /// Reads a level from its colors, whatever the spacing.
    pub fn from_str(s: &str) -> (res: Result<Self, ParsePollLevelError>)
        ensures
            res is Ok <==> Self::of_normalized(normalized(s@)) is Some,
            res is Ok ==> Some(res->Ok_0) == Self::of_normalized(normalized(s@)),
    {
        let norm = normalize(s);
        Self::from_normalized(norm.as_str())
    }
}

impl std::str::FromStr for PollLevel {
    type Err = ParsePollLevelError;

    /// Reads a level from its colors, as `PollLevel::from_str` does, so that
    /// `str::parse` reaches it.
    fn from_str(s: &str) -> Result<Self, ParsePollLevelError> {
        PollLevel::from_str(s)
    }
}

impl TryFrom<u8> for PollLevel {
    type Error = UnknownPollLevel;

    fn try_from(number: u8) -> (res: Result<Self, UnknownPollLevel>) {
        match number {
            0 => Ok(PollLevel::Level0),
            1 => Ok(PollLevel::Level1),
            2 => Ok(PollLevel::Level2),
            3 => Ok(PollLevel::Level3),
            4 => Ok(PollLevel::Level4),
            5 => Ok(PollLevel::Level5),
            _ => Err(UnknownPollLevel { number }),
        }
    }
}

impl TryFromSpecImpl<u8> for PollLevel {
    open spec fn obeys_try_from_spec() -> bool {
        true
    }

    open spec fn try_from_spec(number: u8) -> Result<Self, UnknownPollLevel> {
        match Self::of_number(number) {
            Some(level) => Ok(level),
            None => Err(UnknownPollLevel { number }),
        }
    }
}

/// What the tray shows of a device.
#[derive(Clone, Debug, PartialEq, Eq)]
pub struct Device {
    pub name: String,
    pub version: String,
    pub battery: u8,
    pub charging: bool,
    pub dpi: u16,
    pub polling_rate_level: u8,
}

/// A device as the contracts speak of it, its texts as sequences of
/// characters.
pub struct DeviceView {
    pub name: Seq<char>,
    pub version: Seq<char>,
    pub battery: u8,
    pub charging: bool,
    pub dpi: u16,
    pub polling_rate_level: u8,
}

impl View for Device {
    type V = DeviceView;

    open spec fn view(&self) -> DeviceView {
        DeviceView {
            name: self.name@,
            version: self.version@,
            battery: self.battery,
            charging: self.charging,
            dpi: self.dpi,
            polling_rate_level: self.polling_rate_level,
        }
    }
}

impl Default for Device {
    fn default() -> (device: Device)
        ensures
            device@ == (DeviceView {
                name: Seq::empty(),
                version: Seq::empty(),
                battery: 0,
                charging: false,
                dpi: 0,
                polling_rate_level: 0,
            }),
    {
        Device {
            name: String::new(),
            version: String::new(),
            battery: 0,
            charging: false,
            dpi: 0,
            polling_rate_level: 0,
        }
    }
}

/// A notice to the user.
#[derive(Clone, Debug, PartialEq, Eq)]
pub struct Notice {
    pub appname: String,
    pub summary: String,
}

/// A notice as the contracts speak of it.
pub struct NoticeView {
    pub appname: Seq<char>,
    pub summary: Seq<char>,
}

impl View for Notice {
    type V = NoticeView;

    open spec fn view(&self) -> NoticeView {
        NoticeView { appname: self.appname@, summary: self.summary@ }
    }
}

/// The icon that shows the charge of the battery.
#[derive(Clone, Copy, Debug, PartialEq, Eq, Hash, Structural)]
pub enum BatteryIcon {
    Low,
    Half,
    Good,
    Full,
}

/// The image of the tray icon: the plain one, or one that shows the charge.
#[derive(Clone, Copy, Debug, PartialEq, Eq, Hash, Structural)]
pub enum TrayImage {
    Plain,
    Battery(BatteryIcon),
}

/// How the tray icon presents itself.
#[derive(Clone, Copy, Debug, PartialEq, Eq, Hash, Structural)]
pub enum TrayStatus {
    Active,
    NeedsAttention,
    Passive,
}

/// How the tray looks while it shows no device.
#[derive(Clone, Debug, PartialEq, Eq)]
pub struct TrayLook {
    pub tooltip: String,
    pub image: TrayImage,
    pub status: TrayStatus,
}

/// What the tray is to show after its device has changed.
#[derive(Clone, Debug, PartialEq, Eq)]
pub struct TrayUpdate {
    pub notices: Vec<Notice>,
    pub tooltip: String,
    pub icon: BatteryIcon,
    pub status: TrayStatus,
}

/// The battery value that is shown: the reset value as it is, any other value
/// as a charge of at most 100.
pub open spec fn shown_battery(battery: u8) -> u8 {
    if battery == BATTERY_RESET {
        BATTERY_RESET
    } else if battery > 100 {
        100
    } else {
        battery
    }
}

/// The sign before the charge: charging, nearly empty, or neither.
pub open spec fn battery_sign(charging: bool, battery: u8) -> Seq<char> {
    if charging {
        "⚡"@
    } else if battery <= 25 {
        "🪫"@
    } else {
        "🔋"@
    }
}

/// The charge as the tooltip shows it.
pub open spec fn battery_text(device: DeviceView) -> Seq<char> {
    battery_sign(device.charging, device.battery) + decimal(device.battery as nat) + "%"@
}

/// The polling level as a notice and the menu show it: the number, `between`,
/// and the colors of the level.
pub open spec fn polling_text(level: u8, between: Seq<char>) -> Seq<char> {
    decimal(level as nat) + between + PollLevel::shown_for(level).symbol()
}

/// The icon for a charge.
pub open spec fn icon_for(battery: u8) -> BatteryIcon {
    if battery <= 25 {
        BatteryIcon::Low
    } else if battery <= 50 {
        BatteryIcon::Half
    } else if battery <= 75 {
        BatteryIcon::Good
    } else {
        BatteryIcon::Full
    }
}

/// How the tray icon presents itself at a charge.
pub open spec fn status_for(battery: u8) -> TrayStatus {
    if battery <= 25 {
        TrayStatus::NeedsAttention
    } else {
        TrayStatus::Active
    }
}

/// The entries of the menu that show a device, none of which does anything.
pub open spec fn device_entries(device: DeviceView) -> Seq<(Seq<char>, TrayEvent)> {
    seq![
        ("🖱️"@ + device.name, TrayEvent::Idle),
        ("┣"@ + battery_text(device), TrayEvent::Idle),
        ("┣📏"@ + decimal(device.dpi as nat) + " dpi"@, TrayEvent::Idle),
        ("┣⏱"@ + polling_text(device.polling_rate_level, ":"@), TrayEvent::Idle),
        ("┗🛈"@ + device.version, TrayEvent::Idle),
    ]
}

/// The entries of the menu: the offer to install the udev rules where they
/// are needed, the device where there is one, and the two entries that are
/// always there.
pub open spec fn menu_of(install_udev_rules: bool, device: Option<DeviceView>) -> Seq<
    (Seq<char>, TrayEvent),
> {
    (if install_udev_rules {
        seq![("Install udev rules"@, TrayEvent::UdevRules)]
    } else {
        Seq::empty()
    }) + (match device {
        Some(device) => device_entries(device),
        None => Seq::empty(),
    }) + seq![("Configure"@, TrayEvent::Configure), ("✖ Close"@, TrayEvent::Close)]
}

/// The notices that tell of a change from the device `before` to the device
/// `after`: one for the DPI and one for the polling level, each where it
/// differs. The first device that is shown after none is no change, nor is the
/// first that follows it.
pub open spec fn notices_of(before: Option<DeviceView>, changes: usize, after: DeviceView) -> Seq<
    NoticeView,
> {
    match before {
        Some(before) if changes > 0 => (if before.dpi != after.dpi {
            seq![NoticeView { appname: after.name, summary: decimal(after.dpi as nat) + " dpi"@ }]
        } else {
            Seq::empty()
        }) + (if before.polling_rate_level != after.polling_rate_level {
            seq![
                NoticeView {
                    appname: after.name,
                    summary: "Polling rate "@ + polling_text(after.polling_rate_level, " "@),
                },
            ]
        } else {
            Seq::empty()
        }),
        _ => Seq::empty(),
    }
}

/// The views of notices.
pub open spec fn notice_views(notices: Seq<Notice>) -> Seq<NoticeView> {
    notices.map_values(|notice: Notice| notice@)
}

/// A menu of the tray: a `trayicon::MenuBuilder` with the events of this
/// tray, which is what the tray icon takes.
#[verifier::external_body]
#[derive(Debug, PartialEq)]
pub struct Menu {
    pub builder: MenuBuilder<TrayEvent>,
}

/// The entries that a menu holds, each with its name and with the event that
/// it stands for, in their order. It speaks of menus that hold plain items
/// only, which are those that are made here.
pub uninterp spec fn menu_entries(menu: Menu) -> Seq<(Seq<char>, TrayEvent)>;

/// Calls `MenuBuilder::new`. Trusted: the menu has no entries.
#[verifier::external_body]
fn menu_new() -> (menu: Menu)
    ensures
        menu_entries(menu) == Seq::<(Seq<char>, TrayEvent)>::empty(),
{
    Menu { builder: MenuBuilder::new() }
}

/// Calls `MenuBuilder::item`. Trusted: the menu is the one before, with one
/// more entry at its end, a plain item that has the name and the event given.
#[verifier::external_body]
fn menu_item(menu: Menu, name: &str, id: TrayEvent) -> (res: Menu)
    ensures
        menu_entries(res) == menu_entries(menu).push((name@, id)),
{
    Menu { builder: menu.builder.item(name, id) }
}

fn battery_sign_str(charging: bool, battery: u8) -> (s: &'static str)
    ensures
        s@ == battery_sign(charging, battery),
{
    if charging {
        "⚡"
    } else if battery <= 25 {
        "🪫"
    } else {
        "🔋"
    }
}

fn battery_string(device: &Device) -> (s: String)
    ensures
        s@ == battery_text(device@),
{
    let number = decimal_string(device.battery as u16);
    String::from_str(battery_sign_str(device.charging, device.battery)).concat(
        number.as_str(),
    ).concat("%")
}

fn polling_string(level: u8, between: &str) -> (s: String)
    ensures
        s@ == polling_text(level, between@),
{
    decimal_string(level as u16).concat(between).concat(PollLevel::shown(level).as_str())
}

fn dpi_string(dpi: u16) -> (s: String)
    ensures
        s@ == decimal(dpi as nat) + " dpi"@,
{
    decimal_string(dpi).concat(" dpi")
}

/// The tray: the device it shows, whether it offers to install the udev
/// rules, and how many times the device has changed since it was first shown.
#[derive(Clone, Debug, PartialEq, Eq)]
pub struct Tray {
    dev: Option<Device>,
    install_udev_rules: bool,
    changes: usize,
}

impl Tray {
    /// The device that the tray shows.
    pub closed spec fn device(self) -> Option<DeviceView> {
        match self.dev {
            Some(device) => Some(device@),
            None => None,
        }
    }

    /// Whether the tray offers to install the udev rules.
    pub closed spec fn offers_install(self) -> bool {
        self.install_udev_rules
    }

    /// How many times the device has changed since it was first shown, as far
    /// as that is counted.
    pub closed spec fn changes(self) -> usize {
        self.changes
    }

    /// The tray after the device `device` has come in: it shows the device,
    /// with the battery value that is shown for it, and has counted the change
    /// if it showed a device before.
    pub open spec fn updated(self, device: DeviceView) -> (Option<DeviceView>, usize) {
        (
            Some(DeviceView { battery: shown_battery(device.battery), ..device }),
            if self.device() is Some && self.changes() < usize::MAX {
                (self.changes() + 1) as usize
            } else {
                self.changes()
            },
        )
    }

    /// A tray that shows no device and offers nothing.
    pub fn new() -> (tray: Tray)
        ensures
            tray.device() is None,
            !tray.offers_install(),
            tray.changes() == 0,
    {
        Tray { dev: None, install_udev_rules: false, changes: 0 }
    }

    /// The device that the tray shows.
    pub fn shown_device(&self) -> (device: &Option<Device>)
        ensures
            match *device {
                Some(device) => self.device() == Some(device@),
                None => self.device() is None,
            },
    {
        &self.dev
    }

    /// The menu of the tray.
    pub fn gen_menu(&self) -> (menu: Menu)
        ensures
            menu_entries(menu) == menu_of(self.offers_install(), self.device()),
    {
        let mut menu = menu_new();
        if self.install_udev_rules {
            menu = menu_item(menu, "Install udev rules", TrayEvent::UdevRules);
        }
        match &self.dev {
            Some(device) => {
                let name = String::from_str("🖱️").concat(device.name.as_str());
                let battery = String::from_str("┣").concat(battery_string(device).as_str());
                let dpi = String::from_str("┣📏").concat(dpi_string(device.dpi).as_str());
                let polling = String::from_str("┣⏱").concat(
                    polling_string(device.polling_rate_level, ":").as_str(),
                );
                let version = String::from_str("┗🛈").concat(device.version.as_str());
                assert(dpi@ =~= "┣📏"@ + decimal(device.dpi as nat) + " dpi"@);
                menu = menu_item(menu, name.as_str(), TrayEvent::Idle);
                menu = menu_item(menu, battery.as_str(), TrayEvent::Idle);
                menu = menu_item(menu, dpi.as_str(), TrayEvent::Idle);
                menu = menu_item(menu, polling.as_str(), TrayEvent::Idle);
                menu = menu_item(menu, version.as_str(), TrayEvent::Idle);
            },
            None => {},
        }
        menu = menu_item(menu, "Configure", TrayEvent::Configure);
        menu = menu_item(menu, "✖ Close", TrayEvent::Close);
        assert(menu_entries(menu) =~= menu_of(self.offers_install(), self.device()));
        menu
    }

    /// Shows no device any more, and forgets the changes of the one shown.
    /// Says how the tray is to look now: its title as tooltip, the plain
    /// image, and passive.
    pub fn clear(&mut self) -> (look: TrayLook)
        ensures
            final(self).device() is None,
            final(self).changes() == 0,
            final(self).offers_install() == old(self).offers_install(),
            look.tooltip@ == TRAY_TITLE@,
            look.image == TrayImage::Plain,
            look.status == TrayStatus::Passive,
    {
        self.dev = None;
        self.changes = 0;
        TrayLook {
            tooltip: String::from_str(TRAY_TITLE),
            image: TrayImage::Plain,
            status: TrayStatus::Passive,
        }
    }

    /// Offers to install the udev rules, or offers it no longer.
    pub fn needs_udev_rules(&mut self, b: bool)
        ensures
            final(self).offers_install() == b,
            final(self).device() == old(self).device(),
            final(self).changes() == old(self).changes(),
    {
        self.install_udev_rules = b;
    }

    /// Takes in the device as it is now. Says what the tray is to show of it,
    /// and which notices tell the user of what has changed.
    pub fn update_device(&mut self, dev: Device) -> (update: TrayUpdate)
        ensures
            (final(self).device(), final(self).changes()) == old(self).updated(dev@),
            final(self).offers_install() == old(self).offers_install(),
            notice_views(update.notices@) == notices_of(old(self).device(), old(self).changes(), dev@),
            update.notices@.len() == notices_of(old(self).device(), old(self).changes(), dev@).len(),
            update.tooltip@ == battery_text(final(self).device()->Some_0),
            update.icon == icon_for(shown_battery(dev.battery)),
            update.status == status_for(shown_battery(dev.battery)),
    {
        let mut notices: Vec<Notice> = Vec::new();
        assert(notice_views(notices@) =~= Seq::empty());
        match &self.dev {
            Some(old_dev) => {
                if self.changes > 0 {
                    if old_dev.dpi != dev.dpi {
                        notices.push(
                            Notice { appname: dev.name.clone(), summary: dpi_string(dev.dpi) },
                        );
                    }
                    if old_dev.polling_rate_level != dev.polling_rate_level {
                        notices.push(
                            Notice {
                                appname: dev.name.clone(),
                                summary: String::from_str("Polling rate ").concat(
                                    polling_string(dev.polling_rate_level, " ").as_str(),
                                ),
                            },
                        );
                    }
                    assert(notice_views(notices@) =~= notices_of(
                        old(self).device(),
                        old(self).changes(),
                        dev@,
                    ));
                }
                if self.changes < usize::MAX {
                    self.changes = self.changes + 1;
                }
            },
            None => {},
        }
        let mut dev = dev;
        if dev.battery != BATTERY_RESET && dev.battery > 100 {
            dev.battery = 100;
        }
        let tooltip = battery_string(&dev);
        let icon = if dev.battery <= 25 {
            BatteryIcon::Low
        } else if dev.battery <= 50 {
            BatteryIcon::Half
        } else if dev.battery <= 75 {
            BatteryIcon::Good
        } else {
            BatteryIcon::Full
        };
        let status = if dev.battery <= 25 {
            TrayStatus::NeedsAttention
        } else {
            TrayStatus::Active
        };
        self.dev = Some(dev);
        TrayUpdate { notices, tooltip, icon, status }
    }
}

/// What the tray shows of a status: the name of the device that the product
/// id stands for, or the title of the tray where it stands for none; the
/// firmware version; the power value and state; the DPI value of the first
/// DPI level, or zero where that level has no value; the first polling level.
pub open spec fn device_shown_for(status: Report) -> DeviceView {
    DeviceView {
        name: match KeychronDevice::of_product_id(status.pid) {
            Some(device) => device.name(),
            None => TRAY_TITLE@,
        },
        version: status.fr_version_text(),
        battery: status.power.value,
        charging: status.power.state,
        dpi: if status.dpi.level[0] < 5 {
            status.dpi.levels_val[status.dpi.level[0] as int]
        } else {
            0
        },
        polling_rate_level: status.polling_rate.level[0],
    }
}

/// Makes of a status what the tray shows of it.
pub fn device_of(status: &Report) -> (device: Device)
    ensures
        device@ == device_shown_for(*status),
{
    let level = status.dpi.level[0];
    Device {
        name: match status.keychron_device() {
            Ok(device) => device.to_string(),
            Err(_) => String::from_str(TRAY_TITLE),
        },
        version: status.fr_version_string(),
        battery: status.power.value,
        charging: status.power.state,
        dpi: if level < 5 {
            status.dpi.levels_val[level as usize]
        } else {
            0
        },
        polling_rate_level: status.polling_rate.level[0],
    }
}

/// The reset value of the battery is never shown as a full charge: it is
/// shown as it is, and every other value as a charge of at most 100.
pub proof fn lemma_reset_is_not_clamped(battery: u8)
    ensures
        shown_battery(battery) == BATTERY_RESET <==> battery == BATTERY_RESET,
        battery != BATTERY_RESET ==> shown_battery(battery) <= 100,
        battery <= 100 ==> shown_battery(battery) == battery,
{
}

} // verus!
