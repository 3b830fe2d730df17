//! One input frame of the device decoded by itself, without a status to merge
//! it into: what the frame says, and nothing else.
//!
//! A frame starts with the report id of the transport; the payload follows,
//! its first byte being the tag.

use crate::bits::{bit, get_bit, get_low_bits, low_bits};
use crate::report::{
    version_string, decode_full_debounce, decode_full_dpi, decode_full_polling_rate,
    decode_full_rouse_origin, decode_full_support, full_debounce, full_dpi, full_polling_rate,
    full_rouse_origin, full_support, legacy_status_applies, well_formed, zero_based, Report,
    ReportDPI, ReportDebounce, ReportKind, ReportLight, ReportPollingRate, ReportPower,
    ReportProfile, ReportRouseOrigin, ReportScroll, ReportSleep, ReportSupport,
    LEGACY_STATUS_MARK_A, LEGACY_STATUS_MARK_B, LEGACY_VALID,
};
use crate::text::decimal;
use vstd::prelude::*;
use vstd::slice::slice_subrange;

verus! {

/// What a description frame says of the device.
#[derive(Debug, Clone, Copy, PartialEq, Eq)]
pub struct ReportInfo {
    pub vid: u16,
    pub pid: u16,
    pub version: u16,
    pub fr_version: [u8; 3],
    pub work_mode: u8,
}

/// The current profile, which is all that a profile frame says.
#[derive(Debug, Clone, Copy, PartialEq, Eq, Structural)]
pub struct ReportProfileLight {
    pub current: u8,
}

/// The DPI level of a base frame and the number of levels.
#[derive(Debug, Clone, Copy, PartialEq, Eq, Structural)]
pub struct ReportDPIBase {
    pub level: u8,
    pub level_num: u8,
}

/// The DPI level of a frame of older firmware.
#[derive(Debug, Clone, Copy, PartialEq, Eq, Structural)]
pub struct ReportDPIMisc {
    pub level: u8,
}

/// The polling level of a base frame or of a frame of older firmware.
#[derive(Debug, Clone, Copy, PartialEq, Eq, Structural)]
pub struct ReportPollingRateBase {
    pub level: u8,
}

/// The sensor features of a full frame, the lift-off distance as the number
/// that the frame holds.
#[derive(Debug, Clone, Copy, PartialEq, Eq, Structural)]
pub struct ReportSysFeatures {
    pub lod: u8,
    pub wave: bool,
    pub line: bool,
    pub motion: bool,
    pub scroll_dir: bool,
    pub fps20k: bool,
}

/// What a full frame says.
#[derive(Debug, Clone, Copy, PartialEq, Eq)]
pub struct ReportFull {
    pub profile: ReportProfile,
    pub dpi: ReportDPI,
    pub polling_rate: ReportPollingRate,
    pub sys_features: ReportSysFeatures,
    pub debounce: ReportDebounce,
    pub scroll: ReportScroll,
    pub sleep: ReportSleep,
    pub power: ReportPower,
    pub rouse_origin: ReportRouseOrigin,
    pub support: ReportSupport,
}

/// What a base frame says.
#[derive(Debug, Clone, Copy, PartialEq, Eq, Structural)]
pub struct ReportBase {
    pub work_mode: u8,
    pub connect: u8,
    pub power: ReportPower,
    pub dpi: ReportDPIBase,
    pub polling_rate: ReportPollingRateBase,
}

/// What a status frame of older firmware says.
#[derive(Debug, Clone, Copy, PartialEq, Eq, Structural)]
pub struct ReportMisc {
    pub power: ReportPower,
    pub dpi: ReportDPIMisc,
    pub polling_rate: ReportPollingRateBase,
}

/// A decoded frame.
#[derive(Debug, Clone, Copy, PartialEq, Eq)]
pub enum InputReport {
    Info(ReportInfo),
    Full(ReportFull),
    Light(ReportLight),
    Base(ReportBase),
    Profile(ReportProfileLight),
    Misc(ReportMisc),
}

impl ReportInfo {
    /// The firmware version as text: its three numbers in decimal, with a dot
    /// between them.
    pub open spec fn fr_version_text(self) -> Seq<char> {
        decimal(self.fr_version[0] as nat) + "."@ + decimal(self.fr_version[1] as nat) + "."@
            + decimal(self.fr_version[2] as nat)
    }

    /// The firmware version as text.
    pub fn fr_version_string(&self) -> (s: String)
        ensures
            s@ == self.fr_version_text(),
    {
        version_string(self.fr_version)
    }
}

/// What the description payload `v`, of at least 10 bytes, says.
pub open spec fn info_of(v: Seq<u8>) -> ReportInfo {
    let status = Report::initial().with_description(v);
    ReportInfo {
        vid: status.vid,
        pid: status.pid,
        version: status.version,
        fr_version: status.fr_version,
        work_mode: status.work_mode,
    }
}

/// What the full payload `v`, of at least 54 bytes, says. A full frame by
/// itself says that the device has no sleep support.
pub open spec fn full_of(v: Seq<u8>) -> ReportFull {
    ReportFull {
        profile: ReportProfile { current: v[1], level_num: v[50] },
        dpi: full_dpi(v),
        polling_rate: full_polling_rate(v),
        sys_features: ReportSysFeatures {
            lod: low_bits(v[15], 2),
            wave: bit(v[15], 2),
            line: bit(v[15], 3),
            motion: bit(v[15], 4),
            scroll_dir: bit(v[15], 6),
            fps20k: bit(v[52], 0),
        },
        debounce: full_debounce(v),
        scroll: ReportScroll { speed: v[27], inertia: v[28], spl: v[29] },
        sleep: ReportSleep { time: v[18] as u16 },
        power: ReportPower { value: low_bits(v[19], 7), state: bit(v[19], 7) },
        rouse_origin: full_rouse_origin(v),
        support: full_support(ReportSupport::initial(), v),
    }
}

/// What the light payload `v`, of at least 8 bytes, says.
pub open spec fn light_of(v: Seq<u8>) -> ReportLight {
    ReportLight { mode: v[1], speed: v[3], brightness: v[4], rgb: [v[5], v[6], v[7]] }
}

/// What the base payload `v`, of at least 8 bytes, says.
pub open spec fn base_of(v: Seq<u8>) -> ReportBase {
    ReportBase {
        work_mode: v[1],
        connect: v[2],
        power: ReportPower { value: v[4], state: v[3] != 0 },
        dpi: ReportDPIBase { level: v[5], level_num: v[7] },
        polling_rate: ReportPollingRateBase { level: v[6] },
    }
}

/// What the status payload `v` of older firmware, of at least 10 bytes, says.
pub open spec fn misc_of(v: Seq<u8>) -> ReportMisc {
    ReportMisc {
        power: ReportPower { value: v[6], state: v[5] != 0 },
        dpi: ReportDPIMisc { level: v[8] },
        polling_rate: ReportPollingRateBase { level: zero_based(v[9]) },
    }
}

/// What the payload `v` says, if it is long enough for its layout and its
/// layout is one that is decoded by itself.
pub open spec fn decoded_payload(v: Seq<u8>) -> Option<InputReport> {
    if !well_formed(v) {
        None
    } else {
        match ReportKind::of_tag(v[0]) {
            ReportKind::Description => Some(InputReport::Info(info_of(v))),
            ReportKind::Full => Some(InputReport::Full(full_of(v))),
            ReportKind::Light => Some(InputReport::Light(light_of(v))),
            ReportKind::Base => Some(InputReport::Base(base_of(v))),
            ReportKind::Profile => Some(
                InputReport::Profile(ReportProfileLight { current: v[1] }),
            ),
            ReportKind::LegacyStatus => if legacy_status_applies(v) {
                Some(InputReport::Misc(misc_of(v)))
            } else {
                None
            },
            _ => None,
        }
    }
}

/// What the frame `buf` says: what its payload says, the payload being the
/// frame without its first byte. A frame of less than two bytes has no
/// payload to decode.
pub open spec fn decoded(buf: Seq<u8>) -> Option<InputReport> {
    if buf.len() < 2 {
        None
    } else {
        decoded_payload(buf.skip(1))
    }
}

fn decode_full(data: &[u8]) -> (full: ReportFull)
    requires
        data@.len() >= 54,
    ensures
        full == full_of(data@),
{
    ReportFull {
        profile: ReportProfile { current: data[1], level_num: data[50] },
        dpi: decode_full_dpi(data),
        polling_rate: decode_full_polling_rate(data),
        sys_features: ReportSysFeatures {
            lod: get_low_bits(data[15], 2),
            wave: get_bit(data[15], 2),
            line: get_bit(data[15], 3),
            motion: get_bit(data[15], 4),
            scroll_dir: get_bit(data[15], 6),
            fps20k: get_bit(data[52], 0),
        },
        debounce: decode_full_debounce(data),
        scroll: ReportScroll { speed: data[27], inertia: data[28], spl: data[29] },
        sleep: ReportSleep { time: data[18] as u16 },
        power: ReportPower { value: get_low_bits(data[19], 7), state: get_bit(data[19], 7) },
        rouse_origin: decode_full_rouse_origin(data),
        support: decode_full_support(ReportSupport::default(), data),
    }
}

/// Decodes the payload of a frame by itself.
pub fn decode_payload(data: &[u8]) -> (res: Option<InputReport>)
    ensures
        res == decoded_payload(data@),
{
    if data.len() == 0 {
        return None;
    }
    let kind = ReportKind::from_tag(data[0]);
    if data.len() < kind.required_len() {
        return None;
    }
    match kind {
        ReportKind::Description => {
            let mut status = Report::default();
            status.merge_description(data);
            Some(
                InputReport::Info(
                    ReportInfo {
                        vid: status.vid,
                        pid: status.pid,
                        version: status.version,
                        fr_version: status.fr_version,
                        work_mode: status.work_mode,
                    },
                ),
            )
        },
        ReportKind::Full => Some(InputReport::Full(decode_full(data))),
        ReportKind::Light => Some(
            InputReport::Light(
                ReportLight {
                    mode: data[1],
                    speed: data[3],
                    brightness: data[4],
                    rgb: [data[5], data[6], data[7]],
                },
            ),
        ),
        ReportKind::Base => Some(
            InputReport::Base(
                ReportBase {
                    work_mode: data[1],
                    connect: data[2],
                    power: ReportPower { value: data[4], state: data[3] != 0 },
                    dpi: ReportDPIBase { level: data[5], level_num: data[7] },
                    polling_rate: ReportPollingRateBase { level: data[6] },
                },
            ),
        ),
        ReportKind::Profile => Some(InputReport::Profile(ReportProfileLight { current: data[1] })),
        ReportKind::LegacyStatus => {
            if (data[2] == LEGACY_STATUS_MARK_A || data[2] == LEGACY_STATUS_MARK_B) && data[3]
                == LEGACY_VALID {
                Some(
                    InputReport::Misc(
                        ReportMisc {
                            power: ReportPower { value: data[6], state: data[5] != 0 },
                            dpi: ReportDPIMisc { level: data[8] },
                            polling_rate: ReportPollingRateBase {
                                level: if data[9] > 0 {
                                    data[9] - 1
                                } else {
                                    data[9]
                                },
                            },
                        },
                    ),
                )
            } else {
                None
            }
        },
        _ => None,
    }
}

/// Decodes one frame as the device sent it, report id first.
pub fn handle_input_report(buf: &[u8]) -> (res: Option<InputReport>)
    ensures
        res == decoded(buf@),
{
    if buf.len() < 2 {
        return None;
    }
    let data = slice_subrange(buf, 1, buf.len());
    assert(data@ =~= buf@.skip(1));
    decode_payload(data)
}

} // verus!
