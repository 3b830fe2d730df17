//! The catalog of known devices: each product id with its name and with the
//! category, receiver or mouse, that it belongs to.

use crate::keychron_hid::KEYCHRON_VENDOR_ID;
use crate::text::{normalize, normalized, same_text};
use vstd::prelude::*;
use vstd::std_specs::convert::{FromSpecImpl, TryFromSpecImpl};
use vstd::string::StringExecFns;

verus! {

/// What kind of device it is: the receiver that a mouse talks to, or a mouse.
#[derive(Debug, Eq, PartialEq, Copy, Clone, Hash, Structural)]
pub enum KeychronDeviceCategory {
    Receiver,
    Mouse,
}

/// The error of a text that is the name of no category.
#[derive(Debug, Eq, PartialEq, Copy, Clone, Hash, Structural)]
pub struct ParseKeychronDeviceCategoryError;

/// The error of a number that is the code of no category.
#[derive(Debug, Eq, PartialEq, Copy, Clone, Hash, Structural)]
pub struct UnknownKeychronDeviceCategory {
    pub number: u8,
}

impl ParseKeychronDeviceCategoryError {
    pub fn to_string(&self) -> (s: String)
        ensures
            s@ == "Invalid Keychron device category given"@,
    {
        String::from_str("Invalid Keychron device category given")
    }

    pub fn description(&self) -> (s: &'static str)
        ensures
            s@ == "invalid Keychron device category"@,
    {
        "invalid Keychron device category"
    }
}

impl KeychronDeviceCategory {
    /// The number that stands for the category.
    pub open spec fn code(self) -> u8 {
        match self {
            KeychronDeviceCategory::Receiver => 24,
            KeychronDeviceCategory::Mouse => 25,
        }
    }

    /// The category that a number stands for, if any.
    pub open spec fn of_code(number: u8) -> Option<KeychronDeviceCategory> {
        if number == 24 {
            Some(KeychronDeviceCategory::Receiver)
        } else if number == 25 {
            Some(KeychronDeviceCategory::Mouse)
        } else {
            None
        }
    }

    /// The name of the category.
    pub open spec fn name(self) -> Seq<char> {
        match self {
            KeychronDeviceCategory::Mouse => "Mouse"@,
            KeychronDeviceCategory::Receiver => "Receiver"@,
        }
    }

    /// The category whose name has the normal form `norm`, if any.
    pub open spec fn of_normalized(norm: Seq<char>) -> Option<KeychronDeviceCategory> {
        if norm == "MOUSE"@ {
            Some(KeychronDeviceCategory::Mouse)
        } else if norm == "RECEIVER"@ {
            Some(KeychronDeviceCategory::Receiver)
        } else {
            None
        }
    }

    pub fn to_string(&self) -> (s: String)
        ensures
            s@ == self.name(),
    {
        match *self {
            KeychronDeviceCategory::Mouse => String::from_str("Mouse"),
            KeychronDeviceCategory::Receiver => String::from_str("Receiver"),
        }
    }

    /// Looks a category up by its name in normal form: without spaces, in upper
    /// case.
    pub fn from_normalized(norm: &str) -> (res: Result<Self, ParseKeychronDeviceCategoryError>)
        ensures
            res is Ok <==> Self::of_normalized(norm@) is Some,
            res is Ok ==> Some(res->Ok_0) == Self::of_normalized(norm@),
    {
        if same_text(norm, "MOUSE") {
            Ok(KeychronDeviceCategory::Mouse)
        } else if same_text(norm, "RECEIVER") {
            Ok(KeychronDeviceCategory::Receiver)
        } else {
            Err(ParseKeychronDeviceCategoryError)
        }
    }

    /// Reads a category from its name, whatever its case and spacing.
    pub fn from_str(s: &str) -> (res: Result<Self, ParseKeychronDeviceCategoryError>)
        ensures
            res is Ok <==> Self::of_normalized(normalized(s@)) is Some,
            res is Ok ==> Some(res->Ok_0) == Self::of_normalized(normalized(s@)),
    {
        let norm = normalize(s);
        Self::from_normalized(norm.as_str())
    }

    pub fn description(&self) -> (s: &'static str)
        ensures
            s@ == (match *self {
                KeychronDeviceCategory::Mouse => ""@,
                KeychronDeviceCategory::Receiver => "Keychron Link"@,
            }),
    {
        match *self {
            KeychronDeviceCategory::Mouse => "",
            KeychronDeviceCategory::Receiver => "Keychron Link",
        }
    }

    /// The number by which the device itself names the category.
    pub fn ttype(&self) -> (t: u8)
        ensures
            t == (match *self {
                KeychronDeviceCategory::Mouse => 1u8,
                KeychronDeviceCategory::Receiver => 2u8,
            }),
    {
        match *self {
            KeychronDeviceCategory::Mouse => 1,
            KeychronDeviceCategory::Receiver => 2,
        }
    }
}

impl std::str::FromStr for KeychronDeviceCategory {
    type Err = ParseKeychronDeviceCategoryError;

    /// Reads a category from its name, as `KeychronDeviceCategory::from_str`
    /// does, so that `str::parse` reaches it.
    fn from_str(s: &str) -> Result<Self, ParseKeychronDeviceCategoryError> {
        KeychronDeviceCategory::from_str(s)
    }
}

impl From<KeychronDeviceCategory> for u8 {
    fn from(category: KeychronDeviceCategory) -> (number: u8) {
        match category {
            KeychronDeviceCategory::Receiver => 24,
            KeychronDeviceCategory::Mouse => 25,
        }
    }
}

impl FromSpecImpl<KeychronDeviceCategory> for u8 {
    open spec fn obeys_from_spec() -> bool {
        true
    }

    open spec fn from_spec(category: KeychronDeviceCategory) -> u8 {
        category.code()
    }
}

impl TryFrom<u8> for KeychronDeviceCategory {
    type Error = UnknownKeychronDeviceCategory;

    fn try_from(number: u8) -> (res: Result<Self, UnknownKeychronDeviceCategory>) {
        if number == 24 {
            Ok(KeychronDeviceCategory::Receiver)
        } else if number == 25 {
            Ok(KeychronDeviceCategory::Mouse)
        } else {
            Err(UnknownKeychronDeviceCategory { number })
        }
    }
}

impl TryFromSpecImpl<u8> for KeychronDeviceCategory {
    open spec fn obeys_try_from_spec() -> bool {
        true
    }

    open spec fn try_from_spec(number: u8) -> Result<Self, UnknownKeychronDeviceCategory> {
        match Self::of_code(number) {
            Some(category) => Ok(category),
            None => Err(UnknownKeychronDeviceCategory { number }),
        }
    }
}

/// The devices of the catalog.
#[derive(Debug, Eq, PartialEq, Copy, Clone, Hash, Structural)]
pub enum KeychronDevice {
    UltraLink8K,
    M3Mini4K,
    M3_4K,
    M4_4K,
    M3Mini4KAluAll,
    M3M24K,
    M6_4K,
    M6_8K,
}

/// The error of a text that is the name of no device.
#[derive(Debug, Eq, PartialEq, Copy, Clone, Hash, Structural)]
pub struct ParseKeychronDeviceError;

/// The error of a number that is the product id of no device in the catalog.
#[derive(Debug, Eq, PartialEq, Copy, Clone, Hash, Structural)]
pub struct UnknownKeychronDevice {
    pub number: u16,
}

impl ParseKeychronDeviceError {
    pub fn to_string(&self) -> (s: String)
        ensures
            s@ == "Invalid Keychron device given"@,
    {
        String::from_str("Invalid Keychron device given")
    }

    pub fn description(&self) -> (s: &'static str)
        ensures
            s@ == "invalid Keychron device"@,
    {
        "invalid Keychron device"
    }
}

impl KeychronDevice {
    /// The product id of the device.
    pub open spec fn product_id(self) -> u16 {
        match self {
            KeychronDevice::UltraLink8K => 0xd028,
            KeychronDevice::M3Mini4K => 0xd037,
            KeychronDevice::M3_4K => 0xd03c,
            KeychronDevice::M4_4K => 0xd040,
            KeychronDevice::M3Mini4KAluAll => 0xd041,
            KeychronDevice::M3M24K => 0xd045,
            KeychronDevice::M6_4K => 0xd046,
            KeychronDevice::M6_8K => 0xd049,
        }
    }

    /// The device with the product id `number`, if the catalog has one.
    pub open spec fn of_product_id(number: u16) -> Option<KeychronDevice> {
        if exists|device: KeychronDevice| device.product_id() == number {
            Some(choose|device: KeychronDevice| device.product_id() == number)
        } else {
            None
        }
    }

    /// The device with the product id `number`, or the error that holds the
    /// number.
    pub open spec fn looked_up(number: u16) -> Result<KeychronDevice, UnknownKeychronDevice> {
        match Self::of_product_id(number) {
            Some(device) => Ok(device),
            None => Err(UnknownKeychronDevice { number }),
        }
    }

    /// The category of the device: the Ultra-Link is a receiver, the others are
    /// mice.
    pub open spec fn category(self) -> KeychronDeviceCategory {
        if self == KeychronDevice::UltraLink8K {
            KeychronDeviceCategory::Receiver
        } else {
            KeychronDeviceCategory::Mouse
        }
    }

    /// The name of the device.
    pub open spec fn name(self) -> Seq<char> {
        match self {
            KeychronDevice::UltraLink8K => "Ultra-Link 8K"@,
            KeychronDevice::M3Mini4K => "M3 Mini 4K"@,
            KeychronDevice::M3_4K => "M3 4K"@,
            KeychronDevice::M4_4K => "M4 4K"@,
            KeychronDevice::M3Mini4KAluAll => "M3 Mini 4K 铝合金"@,
            KeychronDevice::M3M24K => "M3 M2 4K"@,
            KeychronDevice::M6_4K => "M6 4K"@,
            KeychronDevice::M6_8K => "M6 8K"@,
        }
    }

    /// The device whose name has the normal form `norm`, if any; where two
    /// names had the same normal form, the one listed first.
    pub open spec fn of_normalized(norm: Seq<char>) -> Option<KeychronDevice> {
        if norm == "ULTRA-LINK8K"@ {
            Some(KeychronDevice::UltraLink8K)
        } else if norm == "M3MINI4K"@ {
            Some(KeychronDevice::M3Mini4K)
        } else if norm == "M34K"@ {
            Some(KeychronDevice::M3_4K)
        } else if norm == "M44K"@ {
            Some(KeychronDevice::M4_4K)
        } else if norm == "M3MINI4K铝合金"@ {
            Some(KeychronDevice::M3Mini4KAluAll)
        } else if norm == "M3M24K"@ {
            Some(KeychronDevice::M3M24K)
        } else if norm == "M64K"@ {
            Some(KeychronDevice::M6_4K)
        } else if norm == "M68K"@ {
            Some(KeychronDevice::M6_8K)
        } else {
            None
        }
    }

    pub fn to_string(&self) -> (s: String)
        ensures
            s@ == self.name(),
    {
        match *self {
            KeychronDevice::UltraLink8K => String::from_str("Ultra-Link 8K"),
            KeychronDevice::M3Mini4K => String::from_str("M3 Mini 4K"),
            KeychronDevice::M3_4K => String::from_str("M3 4K"),
            KeychronDevice::M4_4K => String::from_str("M4 4K"),
            KeychronDevice::M3Mini4KAluAll => String::from_str("M3 Mini 4K 铝合金"),
            KeychronDevice::M3M24K => String::from_str("M3 M2 4K"),
            KeychronDevice::M6_4K => String::from_str("M6 4K"),
            KeychronDevice::M6_8K => String::from_str("M6 8K"),
        }
    }

    /// Looks a device up by its name in normal form: without spaces, in upper
    /// case.
    pub fn from_normalized(norm: &str) -> (res: Result<Self, ParseKeychronDeviceError>)
        ensures
            res is Ok <==> Self::of_normalized(norm@) is Some,
            res is Ok ==> Some(res->Ok_0) == Self::of_normalized(norm@),
    {
        if same_text(norm, "ULTRA-LINK8K") {
            Ok(KeychronDevice::UltraLink8K)
        } else if same_text(norm, "M3MINI4K") {
            Ok(KeychronDevice::M3Mini4K)
        } else if same_text(norm, "M34K") {
            Ok(KeychronDevice::M3_4K)
        } else if same_text(norm, "M44K") {
            Ok(KeychronDevice::M4_4K)
        } else if same_text(norm, "M3MINI4K铝合金") {
            Ok(KeychronDevice::M3Mini4KAluAll)
        } else if same_text(norm, "M3M24K") {
            Ok(KeychronDevice::M3M24K)
        } else if same_text(norm, "M64K") {
            Ok(KeychronDevice::M6_4K)
        } else if same_text(norm, "M68K") {
            Ok(KeychronDevice::M6_8K)
        } else {
            Err(ParseKeychronDeviceError)
        }
    }

    /// Reads a device from its name, whatever its case and spacing.
    pub fn from_str(s: &str) -> (res: Result<Self, ParseKeychronDeviceError>)
        ensures
            res is Ok <==> Self::of_normalized(normalized(s@)) is Some,
            res is Ok ==> Some(res->Ok_0) == Self::of_normalized(normalized(s@)),
    {
        let norm = normalize(s);
        Self::from_normalized(norm.as_str())
    }

    /// The category of the device.
    pub fn device_type(&self) -> (category: KeychronDeviceCategory)
        ensures
            category == self.category(),
    {
        match *self {
            KeychronDevice::UltraLink8K => KeychronDeviceCategory::Receiver,
            KeychronDevice::M3Mini4K
            | KeychronDevice::M3_4K
            | KeychronDevice::M4_4K
            | KeychronDevice::M3Mini4KAluAll
            | KeychronDevice::M3M24K
            | KeychronDevice::M6_4K
            | KeychronDevice::M6_8K => KeychronDeviceCategory::Mouse,
        }
    }
}

/// No two devices of the catalog share a product id, so a product id stands
/// for at most one device, and the device found for the product id of a device
/// is that device.
pub proof fn lemma_product_ids_differ(a: KeychronDevice, b: KeychronDevice)
    ensures
        a.product_id() == b.product_id() ==> a == b,
        KeychronDevice::of_product_id(a.product_id()) == Some(a),
{
}

impl std::str::FromStr for KeychronDevice {
    type Err = ParseKeychronDeviceError;

    /// Reads a device from its name, as `KeychronDevice::from_str` does, so
    /// that `str::parse` reaches it.
    fn from_str(s: &str) -> Result<Self, ParseKeychronDeviceError> {
        KeychronDevice::from_str(s)
    }
}

impl From<KeychronDevice> for u16 {
    fn from(device: KeychronDevice) -> (number: u16) {
        match device {
            KeychronDevice::UltraLink8K => 0xd028,
            KeychronDevice::M3Mini4K => 0xd037,
            KeychronDevice::M3_4K => 0xd03c,
            KeychronDevice::M4_4K => 0xd040,
            KeychronDevice::M3Mini4KAluAll => 0xd041,
            KeychronDevice::M3M24K => 0xd045,
            KeychronDevice::M6_4K => 0xd046,
            KeychronDevice::M6_8K => 0xd049,
        }
    }
}

impl FromSpecImpl<KeychronDevice> for u16 {
    open spec fn obeys_from_spec() -> bool {
        true
    }

    open spec fn from_spec(device: KeychronDevice) -> u16 {
        device.product_id()
    }
}

impl TryFrom<u16> for KeychronDevice {
    type Error = UnknownKeychronDevice;

    fn try_from(number: u16) -> (res: Result<Self, UnknownKeychronDevice>) {
        let found = match number {
            0xd028 => Some(KeychronDevice::UltraLink8K),
            0xd037 => Some(KeychronDevice::M3Mini4K),
            0xd03c => Some(KeychronDevice::M3_4K),
            0xd040 => Some(KeychronDevice::M4_4K),
            0xd041 => Some(KeychronDevice::M3Mini4KAluAll),
            0xd045 => Some(KeychronDevice::M3M24K),
            0xd046 => Some(KeychronDevice::M6_4K),
            0xd049 => Some(KeychronDevice::M6_8K),
            _ => None,
        };
        match found {
            Some(device) => {
                proof {
                    lemma_product_ids_differ(device, device);
                }
                Ok(device)
            },
            None => {
                assert(forall|device: KeychronDevice| device.product_id() != number);
                Err(UnknownKeychronDevice { number })
            },
        }
    }
}

impl TryFromSpecImpl<u16> for KeychronDevice {
    open spec fn obeys_try_from_spec() -> bool {
        true
    }

    open spec fn try_from_spec(number: u16) -> Result<Self, UnknownKeychronDevice> {
        Self::looked_up(number)
    }
}

/// The device that a vendor id and a product id stand for: a device of the
/// catalog with that product id, if the vendor id is that of the catalog.
pub open spec fn classified(vendor_id: u16, product_id: u16) -> Option<KeychronDevice> {
    if vendor_id == KEYCHRON_VENDOR_ID {
        KeychronDevice::of_product_id(product_id)
    } else {
        None
    }
}

/// Finds the device of the catalog that a vendor id and a product id stand for.
pub fn classify(vendor_id: u16, product_id: u16) -> (found: Option<KeychronDevice>)
    ensures
        found == classified(vendor_id, product_id),
{
    if vendor_id != KEYCHRON_VENDOR_ID {
        return None;
    }
    match KeychronDevice::try_from(product_id) {
        Ok(device) => Some(device),
        Err(_) => None,
    }
}

} // verus!
