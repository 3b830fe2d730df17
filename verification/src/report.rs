//! The accumulated status of a device and the decoder that merges each report
//! of the device into it.
//!
//! A report is a byte payload whose first byte, the tag, selects its layout.
//! Each layout defines some fields of the status; merging a report writes those
//! fields and leaves every other field as it was.

use crate::bits::{
    bit, count_ones, get_bit, get_high_nibble, get_low_bits, get_low_nibble, get_word,
    high_nibble, low_bits, low_nibble, ones, word,
};
use crate::keychron_device::{KeychronDevice, UnknownKeychronDevice};
use crate::text::{decimal, decimal_string};
use vstd::prelude::*;
use vstd::std_specs::convert::TryFromSpecImpl;
use vstd::string::StringExecFns;

verus! {

// The tags of the reports.
pub const REPORT_TYPE_UNKNOWN_1: u8 = 1;

pub const REPORT_TYPE_DESCRIPTION: u8 = 2;

pub const REPORT_TYPE_UNKNOWN_4: u8 = 4;

pub const REPORT_TYPE_FULL: u8 = 6;

pub const REPORT_TYPE_UNKNOWN_7: u8 = 7;

pub const REPORT_TYPE_UNKNOWN_65: u8 = 65;

pub const REPORT_TYPE_UNKNOWN_68: u8 = 68;

pub const REPORT_TYPE_LIGHT: u8 = 225;

pub const REPORT_TYPE_BASE: u8 = 226;

pub const REPORT_TYPE_PROFILE: u8 = 229;

/// DPI step that a full report stands for when it carries a step of zero.
pub const DEFAULT_DPI_STEP: u8 = 50;

/// Number of polling levels that a full report stands for when it carries zero.
pub const DEFAULT_POLLING_LEVEL_NUM: u8 = 6;

/// A full report does not carry this flag; the decoder sets it to this.
pub const FULL_LOOP_DPRESS_SUPPORT: bool = true;

/// Number of profiles that the report with tag 7 stands for.
pub const LEGACY_PROFILE_NUM: u8 = 1;

/// Number of polling levels that the report with tag 7 stands for.
pub const LEGACY_POLLING_LEVEL_NUM: u8 = 0;

/// In the reports with tag 1 or 65, the values of byte 2 that mark a status frame.
pub const LEGACY_STATUS_MARK_A: u8 = 140;

pub const LEGACY_STATUS_MARK_B: u8 = 142;

/// In the reports with tag 1, 65, 4 or 68, the value of byte 3 that marks a
/// frame to decode.
pub const LEGACY_VALID: u8 = 1;

/// A value that can take in a `T`, which either changes it or is refused.
pub trait TryMerge<T> {
    type Error;

    fn merge(&mut self, value: T) -> Result<(), Self::Error>;
}

/// The error of a payload that is shorter than its layout.
#[derive(Debug, Clone, Copy, PartialEq, Eq, Structural)]
pub struct MalformedReport;

impl MalformedReport {
    pub fn message(&self) -> (s: &'static str)
        ensures
            s@ == "Not enough data."@,
    {
        "Not enough data."
    }
}

#[derive(Debug, Clone, Copy, PartialEq, Eq, Structural)]
pub struct ReportProfile {
    pub current: u8,
    pub level_num: u8,
}

#[derive(Debug, Clone, Copy, PartialEq, Eq)]
pub struct ReportDPI {
    pub level: [u8; 3],
    pub levels_val: [u16; 5],
    pub level_num: u8,
    pub level_val_max: u16,
    pub level_val_step: u8,
}

#[derive(Debug, Clone, Copy, PartialEq, Eq)]
pub struct ReportPollingRate {
    pub level: [u8; 3],
    pub levels_val: [u8; 6],
    pub level_num: u8,
}

#[derive(Debug, Clone, Copy, PartialEq, Eq, Structural)]
pub struct ReportSysFeatures {
    pub lod: bool,
    pub wave: bool,
    pub line: bool,
    pub motion: bool,
    pub scroll_dir: bool,
    pub fps20k: bool,
}

#[derive(Debug, Clone, Copy, PartialEq, Eq)]
pub struct ReportDebounce {
    pub value: u8,
    pub values: [u8; 10],
}

#[derive(Debug, Clone, Copy, PartialEq, Eq, Structural)]
pub struct ReportScroll {
    pub speed: u8,
    pub inertia: u8,
    pub spl: u8,
}

#[derive(Debug, Clone, Copy, PartialEq, Eq, Structural)]
pub struct ReportSleep {
    pub time: u16,
}

#[derive(Debug, Clone, Copy, PartialEq, Eq, Structural)]
pub struct ReportPower {
    pub value: u8,
    pub state: bool,
}

#[derive(Debug, Clone, Copy, PartialEq, Eq, Structural)]
pub struct ReportRouseOrigin {
    pub key: bool,
    pub key_support: bool,
    pub scroll: bool,
    pub scroll_support: bool,
    pub mmove: bool,
    pub move_support: bool,
    pub side_scroll: bool,
    pub side_scroll_support: bool,
}

#[derive(Debug, Clone, Copy, PartialEq, Eq, Structural)]
pub struct ReportSupport {
    pub scroll_support: bool,
    pub debounce_support: bool,
    pub max_and_step_support: bool,
    pub polling_gears_support: bool,
    pub profile_support: bool,
    pub rouse_origin_support: bool,
    pub fps20k_support: bool,
    pub sleep_support: bool,
    pub loop_dpress_support: bool,
    pub pair_key_support: bool,
}

#[derive(Debug, Clone, Copy, PartialEq, Eq)]
pub struct ReportLight {
    pub mode: u8,
    pub speed: u8,
    pub brightness: u8,
    pub rgb: [u8; 3],
}

/// The status of a device, as far as its reports have told it.
#[derive(Debug, Clone, Copy, PartialEq, Eq)]
pub struct Report {
    pub vid: u16,
    pub pid: u16,
    pub version: u16,
    pub fr_version: [u8; 3],
    pub work_mode: u8,
    pub connect: u8,
    pub profile: ReportProfile,
    pub dpi: ReportDPI,
    pub polling_rate: ReportPollingRate,
    pub sys_features: ReportSysFeatures,
    pub debounce: ReportDebounce,
    pub scroll: ReportScroll,
    pub sleep: ReportSleep,
    pub power: ReportPower,
    pub rouse_origin: ReportRouseOrigin,
    pub support: ReportSupport,
    pub light: ReportLight,
}

impl ReportProfile {
    pub open spec fn initial() -> Self {
        ReportProfile { current: 0, level_num: 0 }
    }
}

impl Default for ReportProfile {
    fn default() -> (r: Self)
        ensures
            r == Self::initial(),
    {
        ReportProfile { current: 0, level_num: 0 }
    }
}

impl ReportDPI {
    pub open spec fn initial() -> Self {
        ReportDPI {
            level: [0u8, 0u8, 0u8],
            levels_val: [0u16, 0u16, 0u16, 0u16, 0u16],
            level_num: 0,
            level_val_max: 0,
            level_val_step: 0,
        }
    }
}

impl Default for ReportDPI {
    fn default() -> (r: Self)
        ensures
            r == Self::initial(),
    {
        ReportDPI {
            level: [0u8, 0u8, 0u8],
            levels_val: [0u16, 0u16, 0u16, 0u16, 0u16],
            level_num: 0,
            level_val_max: 0,
            level_val_step: 0,
        }
    }
}

impl ReportPollingRate {
    pub open spec fn initial() -> Self {
        ReportPollingRate {
            level: [0u8, 0u8, 0u8],
            levels_val: [0u8, 0u8, 0u8, 0u8, 0u8, 0u8],
            level_num: 0,
        }
    }
}

impl Default for ReportPollingRate {
    fn default() -> (r: Self)
        ensures
            r == Self::initial(),
    {
        ReportPollingRate {
            level: [0u8, 0u8, 0u8],
            levels_val: [0u8, 0u8, 0u8, 0u8, 0u8, 0u8],
            level_num: 0,
        }
    }
}

impl ReportSysFeatures {
    pub open spec fn initial() -> Self {
        ReportSysFeatures {
            lod: false,
            wave: false,
            line: false,
            motion: false,
            scroll_dir: false,
            fps20k: false,
        }
    }
}

impl Default for ReportSysFeatures {
    fn default() -> (r: Self)
        ensures
            r == Self::initial(),
    {
        ReportSysFeatures {
            lod: false,
            wave: false,
            line: false,
            motion: false,
            scroll_dir: false,
            fps20k: false,
        }
    }
}

impl ReportDebounce {
    pub open spec fn initial() -> Self {
        ReportDebounce { value: 0, values: [0u8, 0u8, 0u8, 0u8, 0u8, 0u8, 0u8, 0u8, 0u8, 0u8] }
    }
}

impl Default for ReportDebounce {
    fn default() -> (r: Self)
        ensures
            r == Self::initial(),
    {
        ReportDebounce { value: 0, values: [0u8, 0u8, 0u8, 0u8, 0u8, 0u8, 0u8, 0u8, 0u8, 0u8] }
    }
}

impl ReportScroll {
    pub open spec fn initial() -> Self {
        ReportScroll { speed: 0, inertia: 0, spl: 0 }
    }
}

impl Default for ReportScroll {
    fn default() -> (r: Self)
        ensures
            r == Self::initial(),
    {
        ReportScroll { speed: 0, inertia: 0, spl: 0 }
    }
}

impl ReportSleep {
    pub open spec fn initial() -> Self {
        ReportSleep { time: 0 }
    }
}

impl Default for ReportSleep {
    fn default() -> (r: Self)
        ensures
            r == Self::initial(),
    {
        ReportSleep { time: 0 }
    }
}

impl ReportPower {
    pub open spec fn initial() -> Self {
        ReportPower { value: 0, state: false }
    }
}

impl Default for ReportPower {
    fn default() -> (r: Self)
        ensures
            r == Self::initial(),
    {
        ReportPower { value: 0, state: false }
    }
}

impl ReportRouseOrigin {
    pub open spec fn initial() -> Self {
        ReportRouseOrigin {
            key: false,
            key_support: false,
            scroll: false,
            scroll_support: false,
            mmove: false,
            move_support: false,
            side_scroll: false,
            side_scroll_support: false,
        }
    }
}

impl Default for ReportRouseOrigin {
    fn default() -> (r: Self)
        ensures
            r == Self::initial(),
    {
        ReportRouseOrigin {
            key: false,
            key_support: false,
            scroll: false,
            scroll_support: false,
            mmove: false,
            move_support: false,
            side_scroll: false,
            side_scroll_support: false,
        }
    }
}

impl ReportSupport {
    pub open spec fn initial() -> Self {
        ReportSupport {
            scroll_support: false,
            debounce_support: false,
            max_and_step_support: false,
            polling_gears_support: false,
            profile_support: false,
            rouse_origin_support: false,
            fps20k_support: false,
            sleep_support: false,
            loop_dpress_support: false,
            pair_key_support: false,
        }
    }
}

impl Default for ReportSupport {
    fn default() -> (r: Self)
        ensures
            r == Self::initial(),
    {
        ReportSupport {
            scroll_support: false,
            debounce_support: false,
            max_and_step_support: false,
            polling_gears_support: false,
            profile_support: false,
            rouse_origin_support: false,
            fps20k_support: false,
            sleep_support: false,
            loop_dpress_support: false,
            pair_key_support: false,
        }
    }
}

impl ReportLight {
    pub open spec fn initial() -> Self {
        ReportLight { mode: 0, speed: 0, brightness: 0, rgb: [0u8, 0u8, 0u8] }
    }
}

impl Default for ReportLight {
    fn default() -> (r: Self)
        ensures
            r == Self::initial(),
    {
        ReportLight { mode: 0, speed: 0, brightness: 0, rgb: [0u8, 0u8, 0u8] }
    }
}

impl Default for Report {
    fn default() -> (r: Self)
        ensures
            r == Self::initial(),
    {
        Report {
            vid: 0,
            pid: 0,
            version: 0,
            fr_version: [0u8, 0u8, 0u8],
            work_mode: 0,
            connect: 0,
            profile: ReportProfile::default(),
            dpi: ReportDPI::default(),
            polling_rate: ReportPollingRate::default(),
            sys_features: ReportSysFeatures::default(),
            debounce: ReportDebounce::default(),
            scroll: ReportScroll::default(),
            sleep: ReportSleep::default(),
            power: ReportPower::default(),
            rouse_origin: ReportRouseOrigin::default(),
            support: ReportSupport::default(),
            light: ReportLight::default(),
        }
    }
}

/// The layouts of a report, one for each group of tags that share a layout.
#[derive(Debug, Clone, Copy, PartialEq, Eq, Structural)]
pub enum ReportKind {
    /// Tag 2: identity and firmware of the device.
    Description,
    /// Tag 6: the full status.
    Full,
    /// Tag 225: the light.
    Light,
    /// Tag 226: the base status.
    Base,
    /// Tag 229: the current profile alone.
    Profile,
    /// Tags 1 and 65: power, DPI level and polling level of older firmware.
    LegacyStatus,
    /// Tags 4 and 68: settings of older firmware.
    LegacySettings,
    /// Tag 7: profile, DPI and polling settings of older firmware.
    LegacyProfile,
    /// Any other tag: nothing to decode.
    Unknown,
}

impl ReportKind {
    /// The layout that a tag selects.
    pub open spec fn of_tag(tag: u8) -> ReportKind {
        if tag == REPORT_TYPE_DESCRIPTION {
            ReportKind::Description
        } else if tag == REPORT_TYPE_FULL {
            ReportKind::Full
        } else if tag == REPORT_TYPE_LIGHT {
            ReportKind::Light
        } else if tag == REPORT_TYPE_BASE {
            ReportKind::Base
        } else if tag == REPORT_TYPE_PROFILE {
            ReportKind::Profile
        } else if tag == REPORT_TYPE_UNKNOWN_1 || tag == REPORT_TYPE_UNKNOWN_65 {
            ReportKind::LegacyStatus
        } else if tag == REPORT_TYPE_UNKNOWN_4 || tag == REPORT_TYPE_UNKNOWN_68 {
            ReportKind::LegacySettings
        } else if tag == REPORT_TYPE_UNKNOWN_7 {
            ReportKind::LegacyProfile
        } else {
            ReportKind::Unknown
        }
    }

    /// The least length of a payload of this layout, its tag included.
    pub open spec fn min_len(self) -> nat {
        match self {
            ReportKind::Description => 10,
            ReportKind::Full => 54,
            ReportKind::Light => 8,
            ReportKind::Base => 8,
            ReportKind::Profile => 2,
            ReportKind::LegacyStatus => 10,
            ReportKind::LegacySettings => 55,
            ReportKind::LegacyProfile => 18,
            ReportKind::Unknown => 1,
        }
    }

    /// The layout that a tag selects.
    pub fn from_tag(tag: u8) -> (kind: ReportKind)
        ensures
            kind == Self::of_tag(tag),
    {
        match tag {
            REPORT_TYPE_DESCRIPTION => ReportKind::Description,
            REPORT_TYPE_FULL => ReportKind::Full,
            REPORT_TYPE_LIGHT => ReportKind::Light,
            REPORT_TYPE_BASE => ReportKind::Base,
            REPORT_TYPE_PROFILE => ReportKind::Profile,
            REPORT_TYPE_UNKNOWN_1 | REPORT_TYPE_UNKNOWN_65 => ReportKind::LegacyStatus,
            REPORT_TYPE_UNKNOWN_4 | REPORT_TYPE_UNKNOWN_68 => ReportKind::LegacySettings,
            REPORT_TYPE_UNKNOWN_7 => ReportKind::LegacyProfile,
            _ => ReportKind::Unknown,
        }
    }

    /// The least length of a payload of this layout, its tag included.
    pub fn required_len(&self) -> (n: usize)
        ensures
            n == self.min_len(),
    {
        match self {
            ReportKind::Description => 10,
            ReportKind::Full => 54,
            ReportKind::Light => 8,
            ReportKind::Base => 8,
            ReportKind::Profile => 2,
            ReportKind::LegacyStatus => 10,
            ReportKind::LegacySettings => 55,
            ReportKind::LegacyProfile => 18,
            ReportKind::Unknown => 1,
        }
    }
}

/// The least length that the payload `v` must have to be decoded: that of the
/// layout its tag selects, and one byte, the tag, where it is empty.
pub open spec fn min_len_of(v: Seq<u8>) -> nat {
    if v.len() == 0 {
        1
    } else {
        ReportKind::of_tag(v[0]).min_len()
    }
}

/// Whether `v` is long enough for the layout that its tag selects.
pub open spec fn well_formed(v: Seq<u8>) -> bool {
    v.len() >= min_len_of(v)
}

/// A polling level that is sent counting from one, as the level counting from
/// zero; a level of zero stays zero.
pub open spec fn zero_based(raw: u8) -> u8 {
    if raw > 0 {
        (raw - 1) as u8
    } else {
        0
    }
}

/// Whether a payload with tag 1 or 65 is a status frame, which is decoded.
pub open spec fn legacy_status_applies(v: Seq<u8>) -> bool {
    (v[2] == LEGACY_STATUS_MARK_A || v[2] == LEGACY_STATUS_MARK_B) && v[3] == LEGACY_VALID
}

/// Whether a payload with tag 4 or 68 is decoded.
pub open spec fn legacy_settings_applies(v: Seq<u8>) -> bool {
    v[3] == LEGACY_VALID
}

/// The DPI settings in a full report: three levels in the low nibbles of
/// bytes 2 to 4, five values as words from byte 5 on, their number, the
/// greatest value and the step.
pub open spec fn full_dpi(v: Seq<u8>) -> ReportDPI {
    ReportDPI {
        level: [low_nibble(v[2]), low_nibble(v[3]), low_nibble(v[4])],
        levels_val: [
            word(v[5], v[6]),
            word(v[7], v[8]),
            word(v[9], v[10]),
            word(v[11], v[12]),
            word(v[13], v[14]),
        ],
        level_num: v[16],
        level_val_max: word(v[40], v[41]),
        level_val_step: if v[42] != 0 {
            v[42]
        } else {
            DEFAULT_DPI_STEP
        },
    }
}

/// The polling settings in a full report: three levels in the high nibbles of
/// bytes 2 to 4, six values from byte 43 on and their number.
pub open spec fn full_polling_rate(v: Seq<u8>) -> ReportPollingRate {
    ReportPollingRate {
        level: [high_nibble(v[2]), high_nibble(v[3]), high_nibble(v[4])],
        levels_val: [v[43], v[44], v[45], v[46], v[47], v[48]],
        level_num: if v[49] != 0 {
            v[49]
        } else {
            DEFAULT_POLLING_LEVEL_NUM
        },
    }
}

/// The sensor features in a full report: bits of byte 15, and bit 0 of byte 52.
pub open spec fn full_sys_features(v: Seq<u8>) -> ReportSysFeatures {
    ReportSysFeatures {
        lod: low_bits(v[15], 2) != 0,
        wave: bit(v[15], 2),
        line: bit(v[15], 3),
        motion: bit(v[15], 4),
        scroll_dir: bit(v[15], 6),
        fps20k: bit(v[52], 0),
    }
}

/// The debounce settings in a full report: the value, and ten values from
/// byte 30 on.
pub open spec fn full_debounce(v: Seq<u8>) -> ReportDebounce {
    ReportDebounce {
        value: v[17],
        values: [v[30], v[31], v[32], v[33], v[34], v[35], v[36], v[37], v[38], v[39]],
    }
}

/// What wakes the device, in a full report: the eight bits of byte 51, the low
/// four saying which sources the device has, the high four which are on.
pub open spec fn full_rouse_origin(v: Seq<u8>) -> ReportRouseOrigin {
    ReportRouseOrigin {
        key: bit(v[51], 4),
        key_support: bit(v[51], 0),
        scroll: bit(v[51], 5),
        scroll_support: bit(v[51], 1),
        mmove: bit(v[51], 6),
        move_support: bit(v[51], 2),
        side_scroll: bit(v[51], 7),
        side_scroll_support: bit(v[51], 3),
    }
}

/// The features that the device has, after a full report: bits of byte 26 and
/// bit 1 of byte 53. The report says nothing of sleep support, which stays.
pub open spec fn full_support(prev: ReportSupport, v: Seq<u8>) -> ReportSupport {
    ReportSupport {
        scroll_support: bit(v[26], 0),
        debounce_support: bit(v[26], 1),
        max_and_step_support: bit(v[26], 3),
        polling_gears_support: bit(v[26], 4),
        profile_support: bit(v[26], 5),
        rouse_origin_support: bit(v[26], 6),
        fps20k_support: bit(v[26], 7),
        sleep_support: prev.sleep_support,
        loop_dpress_support: FULL_LOOP_DPRESS_SUPPORT,
        pair_key_support: bit(v[53], 1),
    }
}

pub(crate) fn decode_full_dpi(value: &[u8]) -> (dpi: ReportDPI)
    requires
        value@.len() >= 54,
    ensures
        dpi == full_dpi(value@),
{
    ReportDPI {
        level: [get_low_nibble(value[2]), get_low_nibble(value[3]), get_low_nibble(value[4])],
        levels_val: [
            get_word(value[5], value[6]),
            get_word(value[7], value[8]),
            get_word(value[9], value[10]),
            get_word(value[11], value[12]),
            get_word(value[13], value[14]),
        ],
        level_num: value[16],
        level_val_max: get_word(value[40], value[41]),
        level_val_step: if value[42] != 0 {
            value[42]
        } else {
            DEFAULT_DPI_STEP
        },
    }
}

pub(crate) fn decode_full_polling_rate(value: &[u8]) -> (rate: ReportPollingRate)
    requires
        value@.len() >= 54,
    ensures
        rate == full_polling_rate(value@),
{
    ReportPollingRate {
        level: [get_high_nibble(value[2]), get_high_nibble(value[3]), get_high_nibble(value[4])],
        levels_val: [value[43], value[44], value[45], value[46], value[47], value[48]],
        level_num: if value[49] != 0 {
            value[49]
        } else {
            DEFAULT_POLLING_LEVEL_NUM
        },
    }
}

pub(crate) fn decode_full_sys_features(value: &[u8]) -> (features: ReportSysFeatures)
    requires
        value@.len() >= 54,
    ensures
        features == full_sys_features(value@),
{
    ReportSysFeatures {
        lod: get_low_bits(value[15], 2) != 0,
        wave: get_bit(value[15], 2),
        line: get_bit(value[15], 3),
        motion: get_bit(value[15], 4),
        scroll_dir: get_bit(value[15], 6),
        fps20k: get_bit(value[52], 0),
    }
}

pub(crate) fn decode_full_debounce(value: &[u8]) -> (debounce: ReportDebounce)
    requires
        value@.len() >= 54,
    ensures
        debounce == full_debounce(value@),
{
    ReportDebounce {
        value: value[17],
        values: [
            value[30],
            value[31],
            value[32],
            value[33],
            value[34],
            value[35],
            value[36],
            value[37],
            value[38],
            value[39],
        ],
    }
}

pub(crate) fn decode_full_rouse_origin(value: &[u8]) -> (rouse: ReportRouseOrigin)
    requires
        value@.len() >= 54,
    ensures
        rouse == full_rouse_origin(value@),
{
    ReportRouseOrigin {
        key: get_bit(value[51], 4),
        key_support: get_bit(value[51], 0),
        scroll: get_bit(value[51], 5),
        scroll_support: get_bit(value[51], 1),
        mmove: get_bit(value[51], 6),
        move_support: get_bit(value[51], 2),
        side_scroll: get_bit(value[51], 7),
        side_scroll_support: get_bit(value[51], 3),
    }
}

pub(crate) fn decode_full_support(prev: ReportSupport, value: &[u8]) -> (support: ReportSupport)
    requires
        value@.len() >= 54,
    ensures
        support == full_support(prev, value@),
{
    ReportSupport {
        scroll_support: get_bit(value[26], 0),
        debounce_support: get_bit(value[26], 1),
        max_and_step_support: get_bit(value[26], 3),
        polling_gears_support: get_bit(value[26], 4),
        profile_support: get_bit(value[26], 5),
        rouse_origin_support: get_bit(value[26], 6),
        fps20k_support: get_bit(value[26], 7),
        sleep_support: prev.sleep_support,
        loop_dpress_support: FULL_LOOP_DPRESS_SUPPORT,
        pair_key_support: get_bit(value[53], 1),
    }
}

/// Writes the three numbers of a firmware version in decimal, with a dot
/// between them.
pub(crate) fn version_string(version: [u8; 3]) -> (s: String)
    ensures
        s@ == decimal(version[0] as nat) + "."@ + decimal(version[1] as nat) + "."@ + decimal(
            version[2] as nat,
        ),
{
    let major = decimal_string(version[0] as u16);
    let minor = decimal_string(version[1] as u16);
    let patch = decimal_string(version[2] as u16);
    major.concat(".").concat(minor.as_str()).concat(".").concat(patch.as_str())
}

impl Report {
    /// The status before any report: every number zero, every flag off.
    pub open spec fn initial() -> Self {
        Report {
            vid: 0,
            pid: 0,
            version: 0,
            fr_version: [0u8, 0u8, 0u8],
            work_mode: 0,
            connect: 0,
            profile: ReportProfile::initial(),
            dpi: ReportDPI::initial(),
            polling_rate: ReportPollingRate::initial(),
            sys_features: ReportSysFeatures::initial(),
            debounce: ReportDebounce::initial(),
            scroll: ReportScroll::initial(),
            sleep: ReportSleep::initial(),
            power: ReportPower::initial(),
            rouse_origin: ReportRouseOrigin::initial(),
            support: ReportSupport::initial(),
            light: ReportLight::initial(),
        }
    }

    /// The status after a description report `v` of at least 10 bytes: the
    /// vendor and product id, each with its high byte first, the version word,
    /// the firmware version and the work mode.
    pub open spec fn with_description(self, v: Seq<u8>) -> Report {
        Report {
            vid: word(v[4], v[3]),
            pid: word(v[6], v[5]),
            version: word(v[1], v[2]),
            fr_version: [v[8], high_nibble(v[7]), low_nibble(v[7])],
            work_mode: low_bits(v[9], 3),
            ..self
        }
    }

    /// The status after a full report `v` of at least 54 bytes.
    pub open spec fn with_full(self, v: Seq<u8>) -> Report {
        Report {
            profile: ReportProfile { current: v[1], level_num: v[50] },
            dpi: full_dpi(v),
            polling_rate: full_polling_rate(v),
            sys_features: full_sys_features(v),
            debounce: full_debounce(v),
            scroll: ReportScroll { speed: v[27], inertia: v[28], spl: v[29] },
            sleep: ReportSleep { time: v[18] as u16 },
            power: ReportPower { value: low_bits(v[19], 7), state: bit(v[19], 7) },
            rouse_origin: full_rouse_origin(v),
            support: full_support(self.support, v),
            ..self
        }
    }

    /// The status after a light report `v` of at least 8 bytes.
    pub open spec fn with_light(self, v: Seq<u8>) -> Report {
        Report {
            light: ReportLight { mode: v[1], speed: v[3], brightness: v[4], rgb: [v[5], v[6], v[7]] },
            ..self
        }
    }

    /// The status after a base report `v` of at least 8 bytes. Its one DPI
    /// level and its one polling level stand in all three places each.
    pub open spec fn with_base(self, v: Seq<u8>) -> Report {
        Report {
            work_mode: v[1],
            connect: v[2],
            power: ReportPower { value: v[4], state: v[3] != 0 },
            dpi: ReportDPI { level: [v[5], v[5], v[5]], level_num: v[7], ..self.dpi },
            polling_rate: ReportPollingRate { level: [v[6], v[6], v[6]], ..self.polling_rate },
            ..self
        }
    }

    /// The status after a profile report `v` of at least 2 bytes.
    pub open spec fn with_profile(self, v: Seq<u8>) -> Report {
        Report { profile: ReportProfile { current: v[1], ..self.profile }, ..self }
    }

    /// The status after a report `v` with tag 1 or 65, of at least 10 bytes.
    pub open spec fn with_legacy_status(self, v: Seq<u8>) -> Report {
        if legacy_status_applies(v) {
            Report {
                power: ReportPower { value: v[6], state: v[5] != 0 },
                dpi: ReportDPI { level: [v[8], v[8], v[8]], ..self.dpi },
                polling_rate: ReportPollingRate {
                    level: [zero_based(v[9]), zero_based(v[9]), zero_based(v[9])],
                    ..self.polling_rate
                },
                ..self
            }
        } else {
            self
        }
    }

    /// The status after a report `v` with tag 4 or 68, of at least 55 bytes.
    pub open spec fn with_legacy_settings(self, v: Seq<u8>) -> Report {
        if legacy_settings_applies(v) {
            Report {
                dpi: ReportDPI {
                    level: [v[7], v[7], v[7]],
                    levels_val: [
                        word(v[8], v[9]),
                        word(v[12], v[13]),
                        word(v[16], v[17]),
                        word(v[20], v[21]),
                        word(v[24], v[25]),
                    ],
                    level_num: ones(v[6]) as u8,
                    ..self.dpi
                },
                sys_features: ReportSysFeatures {
                    lod: v[43] != 0,
                    wave: bit(v[4], 4),
                    line: bit(v[4], 0),
                    motion: bit(v[4], 5),
                    scroll_dir: bit(v[4], 7),
                    ..self.sys_features
                },
                debounce: ReportDebounce { value: v[54], ..self.debounce },
                sleep: ReportSleep { time: word(v[52], v[53]) },
                polling_rate: ReportPollingRate {
                    level: [zero_based(v[5]), zero_based(v[5]), zero_based(v[5])],
                    ..self.polling_rate
                },
                ..self
            }
        } else {
            self
        }
    }

    /// The status after a report `v` with tag 7, of at least 18 bytes. The
    /// second DPI level is bit 4 of its byte, kept in place.
    pub open spec fn with_legacy_profile(self, v: Seq<u8>) -> Report {
        Report {
            profile: ReportProfile { current: v[1], level_num: LEGACY_PROFILE_NUM },
            dpi: ReportDPI {
                level: [
                    low_nibble(v[2]),
                    if bit(v[3], 4) {
                        16u8
                    } else {
                        0u8
                    },
                    low_nibble(v[4]),
                ],
                levels_val: [
                    word(v[5], v[6]),
                    word(v[7], v[8]),
                    word(v[9], v[10]),
                    word(v[11], v[12]),
                    word(v[13], v[14]),
                ],
                level_num: v[16],
                ..self.dpi
            },
            polling_rate: ReportPollingRate {
                level: [high_nibble(v[2]), high_nibble(v[3]), high_nibble(v[4])],
                level_num: LEGACY_POLLING_LEVEL_NUM,
                ..self.polling_rate
            },
            sys_features: ReportSysFeatures {
                lod: low_bits(v[15], 2) != 0,
                wave: bit(v[15], 2),
                line: bit(v[15], 3),
                motion: bit(v[15], 4),
                scroll_dir: bit(v[15], 6),
                ..self.sys_features
            },
            debounce: ReportDebounce { value: v[17], ..self.debounce },
            ..self
        }
    }

    /// The status after the well-formed payload `v`: the fields that the layout
    /// of `v` defines are those of `v`, all others are those of `self`.
    pub open spec fn merged(self, v: Seq<u8>) -> Report {
        match ReportKind::of_tag(v[0]) {
            ReportKind::Description => self.with_description(v),
            ReportKind::Full => self.with_full(v),
            ReportKind::Light => self.with_light(v),
            ReportKind::Base => self.with_base(v),
            ReportKind::Profile => self.with_profile(v),
            ReportKind::LegacyStatus => self.with_legacy_status(v),
            ReportKind::LegacySettings => self.with_legacy_settings(v),
            ReportKind::LegacyProfile => self.with_legacy_profile(v),
            ReportKind::Unknown => self,
        }
    }

    /// The firmware version as text: its three numbers in decimal, with a dot
    /// between them.
    pub open spec fn fr_version_text(self) -> Seq<char> {
        decimal(self.fr_version[0] as nat) + "."@ + decimal(self.fr_version[1] as nat) + "."@
            + decimal(self.fr_version[2] as nat)
    }

    /// The firmware version as text.
    pub fn fr_version_string(&self) -> (s: String)
        ensures
            s@ == self.fr_version_text(),
    {
        version_string(self.fr_version)
    }

    /// The vendor id and the product id in one number, the vendor id in its
    /// upper half.
    pub fn vendor_product_id(&self) -> (id: u32)
        ensures
            id == 65536 * self.vid + self.pid,
    {
        65536u32 * (self.vid as u32) + (self.pid as u32)
    }

    /// The device of the catalog that the product id of the status stands for.
    pub fn keychron_device(&self) -> (res: Result<KeychronDevice, UnknownKeychronDevice>)
        ensures
            res == KeychronDevice::looked_up(self.pid),
    {
        KeychronDevice::try_from(self.pid)
    }

    pub(crate) fn merge_description(&mut self, value: &[u8])
        requires
            value@.len() >= 10,
        ensures
            *final(self) == old(self).with_description(value@),
    {
        self.vid = get_word(value[4], value[3]);
        self.pid = get_word(value[6], value[5]);
        self.version = get_word(value[1], value[2]);
        self.fr_version = [value[8], get_high_nibble(value[7]), get_low_nibble(value[7])];
        self.work_mode = get_low_bits(value[9], 3);
    }

    fn merge_full(&mut self, value: &[u8])
        requires
            value@.len() >= 54,
        ensures
            *final(self) == old(self).with_full(value@),
    {
        self.profile.current = value[1];
        self.profile.level_num = value[50];
        self.dpi = decode_full_dpi(value);
        self.polling_rate = decode_full_polling_rate(value);
        self.sys_features = decode_full_sys_features(value);
        self.debounce = decode_full_debounce(value);
        self.scroll.speed = value[27];
        self.scroll.inertia = value[28];
        self.scroll.spl = value[29];
        self.sleep.time = value[18] as u16;
        self.power.value = get_low_bits(value[19], 7);
        self.power.state = get_bit(value[19], 7);
        self.rouse_origin = decode_full_rouse_origin(value);
        self.support = decode_full_support(self.support, value);
    }

    fn merge_light(&mut self, value: &[u8])
        requires
            value@.len() >= 8,
        ensures
            *final(self) == old(self).with_light(value@),
    {
        self.light.mode = value[1];
        self.light.speed = value[3];
        self.light.brightness = value[4];
        self.light.rgb = [value[5], value[6], value[7]];
    }

    fn merge_base(&mut self, value: &[u8])
        requires
            value@.len() >= 8,
        ensures
            *final(self) == old(self).with_base(value@),
    {
        self.work_mode = value[1];
        self.connect = value[2];
        self.power.state = value[3] != 0;
        self.power.value = value[4];
        self.dpi.level = [value[5], value[5], value[5]];
        self.dpi.level_num = value[7];
        self.polling_rate.level = [value[6], value[6], value[6]];
    }

    fn merge_profile(&mut self, value: &[u8])
        requires
            value@.len() >= 2,
        ensures
            *final(self) == old(self).with_profile(value@),
    {
        self.profile.current = value[1];
    }

    fn merge_legacy_status(&mut self, value: &[u8])
        requires
            value@.len() >= 10,
        ensures
            *final(self) == old(self).with_legacy_status(value@),
    {
        if (value[2] == LEGACY_STATUS_MARK_A || value[2] == LEGACY_STATUS_MARK_B) && value[3]
            == LEGACY_VALID {
            self.power.state = value[5] != 0;
            self.power.value = value[6];
            self.dpi.level = [value[8], value[8], value[8]];
            let level = if value[9] > 0 {
                value[9] - 1
            } else {
                value[9]
            };
            self.polling_rate.level = [level, level, level];
        }
    }

    fn merge_legacy_settings(&mut self, value: &[u8])
        requires
            value@.len() >= 55,
        ensures
            *final(self) == old(self).with_legacy_settings(value@),
    {
        if value[3] == LEGACY_VALID {
            self.dpi.level = [value[7], value[7], value[7]];
            self.dpi.levels_val = [
                get_word(value[8], value[9]),
                get_word(value[12], value[13]),
                get_word(value[16], value[17]),
                get_word(value[20], value[21]),
                get_word(value[24], value[25]),
            ];
            self.dpi.level_num = count_ones(value[6]);
            self.sys_features.lod = value[43] != 0;
            self.sys_features.wave = get_bit(value[4], 4);
            self.sys_features.line = get_bit(value[4], 0);
            self.sys_features.motion = get_bit(value[4], 5);
            self.sys_features.scroll_dir = get_bit(value[4], 7);
            self.debounce.value = value[54];
            self.sleep.time = get_word(value[52], value[53]);
            let level = if value[5] > 1 {
                value[5] - 1
            } else {
                0
            };
            self.polling_rate.level = [level, level, level];
        }
    }

    fn merge_legacy_profile(&mut self, value: &[u8])
        requires
            value@.len() >= 18,
        ensures
            *final(self) == old(self).with_legacy_profile(value@),
    {
        self.profile.current = value[1];
        self.profile.level_num = LEGACY_PROFILE_NUM;
        self.dpi.level = [
            get_low_nibble(value[2]),
            if get_bit(value[3], 4) {
                16
            } else {
                0
            },
            get_low_nibble(value[4]),
        ];
        self.dpi.levels_val = [
            get_word(value[5], value[6]),
            get_word(value[7], value[8]),
            get_word(value[9], value[10]),
            get_word(value[11], value[12]),
            get_word(value[13], value[14]),
        ];
        self.dpi.level_num = value[16];
        self.polling_rate.level = [
            get_high_nibble(value[2]),
            get_high_nibble(value[3]),
            get_high_nibble(value[4]),
        ];
        self.polling_rate.level_num = LEGACY_POLLING_LEVEL_NUM;
        self.sys_features.lod = get_low_bits(value[15], 2) != 0;
        self.sys_features.wave = get_bit(value[15], 2);
        self.sys_features.line = get_bit(value[15], 3);
        self.sys_features.motion = get_bit(value[15], 4);
        self.sys_features.scroll_dir = get_bit(value[15], 6);
        self.debounce.value = value[17];
    }
}

impl<'a> TryMerge<&'a [u8]> for Report {
    type Error = MalformedReport;

    /// Merges the payload `value` of one report into the status.
    ///
    /// A payload that is shorter than the layout of its tag, or empty, is
    /// refused and the status stays as it was. A payload with a tag that has no
    /// layout is accepted and changes nothing.
    fn merge(&mut self, value: &'a [u8]) -> (res: Result<(), MalformedReport>)
        ensures
            res is Ok <==> well_formed(value@),
            res is Ok ==> *final(self) == old(self).merged(value@),
            res is Err ==> *final(self) == *old(self),
    {
        if value.len() == 0 {
            return Err(MalformedReport);
        }
        let kind = ReportKind::from_tag(value[0]);
        if value.len() < kind.required_len() {
            return Err(MalformedReport);
        }
        match kind {
            ReportKind::Description => self.merge_description(value),
            ReportKind::Full => self.merge_full(value),
            ReportKind::Light => self.merge_light(value),
            ReportKind::Base => self.merge_base(value),
            ReportKind::Profile => self.merge_profile(value),
            ReportKind::LegacyStatus => self.merge_legacy_status(value),
            ReportKind::LegacySettings => self.merge_legacy_settings(value),
            ReportKind::LegacyProfile => self.merge_legacy_profile(value),
            ReportKind::Unknown => {},
        }
        Ok(())
    }
}

impl<'a> TryFrom<&'a [u8]> for Report {
    type Error = MalformedReport;

    /// The status that one report alone gives: the report merged into the
    /// status before any report.
    fn try_from(value: &'a [u8]) -> (res: Result<Self, MalformedReport>) {
        let mut status = Report::default();
        match status.merge(value) {
            Ok(()) => Ok(status),
            Err(e) => Err(e),
        }
    }
}

impl<'a> TryFromSpecImpl<&'a [u8]> for Report {
    open spec fn obeys_try_from_spec() -> bool {
        true
    }

    open spec fn try_from_spec(value: &'a [u8]) -> Result<Self, MalformedReport> {
        if well_formed(value@) {
            Ok(Report::initial().merged(value@))
        } else {
            Err(MalformedReport)
        }
    }
}

/// Whether `after` differs from `before` at most in the fields that a report of
/// layout `kind` defines.
pub open spec fn writes_only(kind: ReportKind, before: Report, after: Report) -> bool {
    match kind {
        ReportKind::Description => after == (Report {
            vid: after.vid,
            pid: after.pid,
            version: after.version,
            fr_version: after.fr_version,
            work_mode: after.work_mode,
            ..before
        }),
        ReportKind::Full => after == (Report {
            profile: after.profile,
            dpi: after.dpi,
            polling_rate: after.polling_rate,
            sys_features: after.sys_features,
            debounce: after.debounce,
            scroll: after.scroll,
            sleep: after.sleep,
            power: after.power,
            rouse_origin: after.rouse_origin,
            support: ReportSupport { sleep_support: before.support.sleep_support, ..after.support },
            ..before
        }),
        ReportKind::Light => after == (Report { light: after.light, ..before }),
        ReportKind::Base => after == (Report {
            work_mode: after.work_mode,
            connect: after.connect,
            power: after.power,
            dpi: ReportDPI { level: after.dpi.level, level_num: after.dpi.level_num, ..before.dpi },
            polling_rate: ReportPollingRate {
                level: after.polling_rate.level,
                ..before.polling_rate
            },
            ..before
        }),
        ReportKind::Profile => after == (Report {
            profile: ReportProfile { current: after.profile.current, ..before.profile },
            ..before
        }),
        ReportKind::LegacyStatus => after == (Report {
            power: after.power,
            dpi: ReportDPI { level: after.dpi.level, ..before.dpi },
            polling_rate: ReportPollingRate {
                level: after.polling_rate.level,
                ..before.polling_rate
            },
            ..before
        }),
        ReportKind::LegacySettings => after == (Report {
            dpi: ReportDPI {
                level: after.dpi.level,
                levels_val: after.dpi.levels_val,
                level_num: after.dpi.level_num,
                ..before.dpi
            },
            sys_features: ReportSysFeatures { fps20k: before.sys_features.fps20k, ..after.sys_features },
            debounce: ReportDebounce { value: after.debounce.value, ..before.debounce },
            sleep: after.sleep,
            polling_rate: ReportPollingRate {
                level: after.polling_rate.level,
                ..before.polling_rate
            },
            ..before
        }),
        ReportKind::LegacyProfile => after == (Report {
            profile: after.profile,
            dpi: ReportDPI {
                level: after.dpi.level,
                levels_val: after.dpi.levels_val,
                level_num: after.dpi.level_num,
                ..before.dpi
            },
            polling_rate: ReportPollingRate {
                level: after.polling_rate.level,
                level_num: after.polling_rate.level_num,
                ..before.polling_rate
            },
            sys_features: ReportSysFeatures { fps20k: before.sys_features.fps20k, ..after.sys_features },
            debounce: ReportDebounce { value: after.debounce.value, ..before.debounce },
            ..before
        }),
        ReportKind::Unknown => after == before,
    }
}

/// Merging is sparse: a report writes only the fields that its layout defines,
/// and every other field keeps the value it had.
pub proof fn lemma_merge_is_sparse(status: Report, v: Seq<u8>)
    ensures
        writes_only(ReportKind::of_tag(v[0]), status, status.merged(v)),
{
    match ReportKind::of_tag(v[0]) {
        ReportKind::Description => {
            assert(writes_only(ReportKind::Description, status, status.with_description(v)));
        },
        ReportKind::Full => {
            assert(writes_only(ReportKind::Full, status, status.with_full(v)));
        },
        ReportKind::Light => {
            assert(writes_only(ReportKind::Light, status, status.with_light(v)));
        },
        ReportKind::Base => {
            assert(writes_only(ReportKind::Base, status, status.with_base(v)));
        },
        ReportKind::Profile => {
            assert(writes_only(ReportKind::Profile, status, status.with_profile(v)));
        },
        ReportKind::LegacyStatus => {
            assert(writes_only(ReportKind::LegacyStatus, status, status.with_legacy_status(v)));
        },
        ReportKind::LegacySettings => {
            assert(writes_only(ReportKind::LegacySettings, status, status.with_legacy_settings(v)));
        },
        ReportKind::LegacyProfile => {
            assert(writes_only(ReportKind::LegacyProfile, status, status.with_legacy_profile(v)));
        },
        ReportKind::Unknown => {},
    }
}

/// A light report after a full report changes the light and nothing else: all
/// that the full report set is still there.
pub proof fn lemma_light_after_full(status: Report, full: Seq<u8>, light: Seq<u8>)
    requires
        full[0] == REPORT_TYPE_FULL,
        light[0] == REPORT_TYPE_LIGHT,
    ensures
        status.merged(full).merged(light) == (Report {
            light: ReportLight {
                mode: light[1],
                speed: light[3],
                brightness: light[4],
                rgb: [light[5], light[6], light[7]],
            },
            ..status.with_full(full)
        }),
{
}

/// Merging is repeatable: the same payload merged a second time changes
/// nothing, since each field it defines is overwritten with the same value.
pub proof fn lemma_merge_is_idempotent(status: Report, v: Seq<u8>)
    ensures
        status.merged(v).merged(v) == status.merged(v),
{
    match ReportKind::of_tag(v[0]) {
        ReportKind::Description => {
            assert(status.with_description(v).with_description(v) == status.with_description(v));
        },
        ReportKind::Full => {
            assert(status.with_full(v).with_full(v) == status.with_full(v));
        },
        ReportKind::Light => {
            assert(status.with_light(v).with_light(v) == status.with_light(v));
        },
        ReportKind::Base => {
            assert(status.with_base(v).with_base(v) == status.with_base(v));
        },
        ReportKind::Profile => {
            assert(status.with_profile(v).with_profile(v) == status.with_profile(v));
        },
        ReportKind::LegacyStatus => {
            assert(status.with_legacy_status(v).with_legacy_status(v) == status.with_legacy_status(v));
        },
        ReportKind::LegacySettings => {
            assert(status.with_legacy_settings(v).with_legacy_settings(v) == status.with_legacy_settings(v));
        },
        ReportKind::LegacyProfile => {
            assert(status.with_legacy_profile(v).with_legacy_profile(v) == status.with_legacy_profile(v));
        },
        ReportKind::Unknown => {},
    }
}

/// What a report writes does not depend on the status before it: from two
/// statuses that agree outside the fields of the layout, the same payload
/// leads to the same status.
pub proof fn lemma_merge_overwrites(a: Report, b: Report, v: Seq<u8>)
    requires
        writes_only(ReportKind::of_tag(v[0]), a, b),
        ReportKind::of_tag(v[0]) != ReportKind::Unknown,
        ReportKind::of_tag(v[0]) == ReportKind::LegacyStatus ==> legacy_status_applies(v),
        ReportKind::of_tag(v[0]) == ReportKind::LegacySettings ==> legacy_settings_applies(v),
    ensures
        a.merged(v) == b.merged(v),
{
    match ReportKind::of_tag(v[0]) {
        ReportKind::Description => {
            assert(a.with_description(v) == b.with_description(v));
        },
        ReportKind::Full => {
            assert(a.with_full(v) == b.with_full(v));
        },
        ReportKind::Light => {
            assert(a.with_light(v) == b.with_light(v));
        },
        ReportKind::Base => {
            assert(a.with_base(v) == b.with_base(v));
        },
        ReportKind::Profile => {
            assert(a.with_profile(v) == b.with_profile(v));
        },
        ReportKind::LegacyStatus => {
            assert(a.with_legacy_status(v) == b.with_legacy_status(v));
        },
        ReportKind::LegacySettings => {
            assert(a.with_legacy_settings(v) == b.with_legacy_settings(v));
        },
        ReportKind::LegacyProfile => {
            assert(a.with_legacy_profile(v) == b.with_legacy_profile(v));
        },
        ReportKind::Unknown => {},
    }
}

} // verus!
