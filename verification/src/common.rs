//! Commands of the Common family shared by all vehicles, among them the
//! current-date and current-time commands.
use vstd::prelude::*;

use crate::bytes::{copy_range, lemma_subrange_split, lemma_window_head, parse_u8, spec_parse_u8};
use crate::frame::{Error, Param};

verus! {

/// A calendar date and time of day, as the date and time commands put it on
/// the wire.  The protocol never needs calendar arithmetic, only the digits.
#[derive(Debug, Clone, Copy, PartialEq, Eq, Structural)]
pub struct DateTime {
    pub year: u16,
    pub month: u8,
    pub day: u8,
    pub hour: u8,
    pub minute: u8,
    pub second: u8,
}

impl DateTime {
    /// Field ranges of a calendar date with a four-digit year.
    pub open spec fn valid(self) -> bool {
        self.year <= 9999 && 1 <= self.month <= 12 && 1 <= self.day <= 31 && self.hour < 24
            && self.minute < 60 && self.second < 60
    }

    /// Midnight at the start of the Unix epoch; stands in for date and time
    /// values that decoding cannot reconstruct from the wire.
    pub fn epoch() -> (r: DateTime)
        ensures
            r == DateTime::spec_epoch(),
    {
        DateTime { year: 1970, month: 1, day: 1, hour: 0, minute: 0, second: 0 }
    }

    pub open spec fn spec_epoch() -> DateTime {
        DateTime { year: 1970, month: 1, day: 1, hour: 0, minute: 0, second: 0 }
    }
}

/// Command class within the Common family (one byte on the wire).
#[derive(Debug, Clone, PartialEq, Eq)]
pub enum Class {
    Network,
    NetworkEvent,
    Settings,
    SettingsState,
    Common(Common),
    CommonState,
    Overheat,
    OverheatState,
    Controller,
    WifiSettings,
    WifiSettingsState,
    Mavlink,
    MavlinkState,
    FlightPlanSettings,
    FlightPlanSettingsState,
    Calibration,
    CalibrationState,
    CameraSettingsState,
    Gps,
    FlightPlanState,
    FlightPlanEvent,
    ArLibsVersionsState,
    Audio,
    AudioState,
    HeadLights,
    HeadLightsState,
    Animations,
    AnimationsState,
    Accessory,
    AccessoryState,
    Charger,
    ChargerState,
    Runstate,
    Factory,
    /// A class byte outside the decoded subset, kept with its raw trailing
    /// bytes so that re-encoding reproduces them verbatim.
    Unknown { class: u8, data: Vec<u8> },
}

/// Commands of the Common class itself (one byte on the wire, then for the
/// date and time a NUL-terminated ASCII string).
#[derive(Debug, Clone, Copy, PartialEq, Eq, Structural)]
pub enum Common {
    AllStates,
    CurrentDate(DateTime),
    CurrentTime(DateTime),
    Reboot,
}

impl Class {
    /// The wire discriminator of this class.
    pub open spec fn spec_code(self) -> u8 {
        match self {
            Class::Network => 0,
            Class::NetworkEvent => 1,
            Class::Settings => 2,
            Class::SettingsState => 3,
            Class::Common(_) => 4,
            Class::CommonState => 5,
            Class::Overheat => 6,
            Class::OverheatState => 7,
            Class::Controller => 8,
            Class::WifiSettings => 9,
            Class::WifiSettingsState => 10,
            Class::Mavlink => 11,
            Class::MavlinkState => 12,
            Class::FlightPlanSettings => 32,
            Class::FlightPlanSettingsState => 33,
            Class::Calibration => 13,
            Class::CalibrationState => 14,
            Class::CameraSettingsState => 15,
            Class::Gps => 16,
            Class::FlightPlanState => 17,
            Class::FlightPlanEvent => 19,
            Class::ArLibsVersionsState => 18,
            Class::Audio => 20,
            Class::AudioState => 21,
            Class::HeadLights => 22,
            Class::HeadLightsState => 23,
            Class::Animations => 24,
            Class::AnimationsState => 25,
            Class::Accessory => 26,
            Class::AccessoryState => 27,
            Class::Charger => 28,
            Class::ChargerState => 29,
            Class::Runstate => 30,
            Class::Factory => 31,
            Class::Unknown { class, .. } => class,
        }
    }

    pub fn code(&self) -> (r: u8)
        ensures
            r == self.spec_code(),
    {
        match self {
            Class::Network => 0,
            Class::NetworkEvent => 1,
            Class::Settings => 2,
            Class::SettingsState => 3,
            Class::Common(_) => 4,
            Class::CommonState => 5,
            Class::Overheat => 6,
            Class::OverheatState => 7,
            Class::Controller => 8,
            Class::WifiSettings => 9,
            Class::WifiSettingsState => 10,
            Class::Mavlink => 11,
            Class::MavlinkState => 12,
            Class::FlightPlanSettings => 32,
            Class::FlightPlanSettingsState => 33,
            Class::Calibration => 13,
            Class::CalibrationState => 14,
            Class::CameraSettingsState => 15,
            Class::Gps => 16,
            Class::FlightPlanState => 17,
            Class::FlightPlanEvent => 19,
            Class::ArLibsVersionsState => 18,
            Class::Audio => 20,
            Class::AudioState => 21,
            Class::HeadLights => 22,
            Class::HeadLightsState => 23,
            Class::Animations => 24,
            Class::AnimationsState => 25,
            Class::Accessory => 26,
            Class::AccessoryState => 27,
            Class::Charger => 28,
            Class::ChargerState => 29,
            Class::Runstate => 30,
            Class::Factory => 31,
            Class::Unknown { class, .. } => *class,
        }
    }
}

impl Common {
    /// The wire discriminator of this command.
    pub open spec fn spec_code(self) -> u8 {
        match self {
            Common::AllStates => 0,
            Common::CurrentDate(_) => 1,
            Common::CurrentTime(_) => 2,
            Common::Reboot => 3,
        }
    }

    pub fn code(self) -> (r: u8)
        ensures
            r == self.spec_code(),
    {
        match self {
            Common::AllStates => 0,
            Common::CurrentDate(_) => 1,
            Common::CurrentTime(_) => 2,
            Common::Reboot => 3,
        }
    }
}

// ------------------- wire format -------------------
/// The ASCII digit of `n`.
pub open spec fn spec_digit(n: int) -> u8
    recommends
        0 <= n <= 9,
{
    (0x30 + n) as u8
}

/// The date as NUL-free ASCII: four year digits, two month digits and two
/// day digits separated by dashes.
pub open spec fn spec_date_bytes(d: DateTime) -> Seq<u8> {
    seq![
        spec_digit(d.year as int / 1000),
        spec_digit(d.year as int / 100 % 10),
        spec_digit(d.year as int / 10 % 10),
        spec_digit(d.year as int % 10),
        0x2Du8,
        spec_digit(d.month as int / 10),
        spec_digit(d.month as int % 10),
        0x2Du8,
        spec_digit(d.day as int / 10),
        spec_digit(d.day as int % 10),
    ]
}

/// The time of day as NUL-free ASCII: a leading letter T, two digits each
/// for hour, minute and second, and the zone, always +0000.
pub open spec fn spec_time_bytes(d: DateTime) -> Seq<u8> {
    seq![
        0x54u8,
        spec_digit(d.hour as int / 10),
        spec_digit(d.hour as int % 10),
        spec_digit(d.minute as int / 10),
        spec_digit(d.minute as int % 10),
        spec_digit(d.second as int / 10),
        spec_digit(d.second as int % 10),
        0x2Bu8,
        0x30u8,
        0x30u8,
        0x30u8,
        0x30u8,
    ]
}

/// Formats the date part of `d`, as the current-date command sends it.
pub fn format_date(d: &DateTime) -> (r: Vec<u8>)
    requires
        d.valid(),
    ensures
        r@ == spec_date_bytes(*d),
{
    let mut out: Vec<u8> = Vec::new();
    out.push(0x30 + (d.year / 1000) as u8);
    out.push(0x30 + (d.year / 100 % 10) as u8);
    out.push(0x30 + (d.year / 10 % 10) as u8);
    out.push(0x30 + (d.year % 10) as u8);
    out.push(0x2D);
    out.push(0x30 + d.month / 10);
    out.push(0x30 + d.month % 10);
    out.push(0x2D);
    out.push(0x30 + d.day / 10);
    out.push(0x30 + d.day % 10);
    assert(out@ =~= spec_date_bytes(*d));
    out
}

/// Formats the time part of `d`, as the current-time command sends it.
pub fn format_time(d: &DateTime) -> (r: Vec<u8>)
    requires
        d.valid(),
    ensures
        r@ == spec_time_bytes(*d),
{
    let mut out: Vec<u8> = Vec::new();
    out.push(0x54);
    out.push(0x30 + d.hour / 10);
    out.push(0x30 + d.hour % 10);
    out.push(0x30 + d.minute / 10);
    out.push(0x30 + d.minute % 10);
    out.push(0x30 + d.second / 10);
    out.push(0x30 + d.second % 10);
    out.push(0x2B);
    out.push(0x30);
    out.push(0x30);
    out.push(0x30);
    out.push(0x30);
    assert(out@ =~= spec_time_bytes(*d));
    out
}

/// Which commands have an encoding: all of them, but a date or time only
/// with fields in calendar range.
pub open spec fn common_encodable(c: Common) -> bool {
    match c {
        Common::CurrentDate(d) => d.valid(),
        Common::CurrentTime(d) => d.valid(),
        _ => true,
    }
}

/// The wire bytes of a command: its one-byte discriminator, then for the
/// date and time their NUL-terminated ASCII text.
pub open spec fn spec_common_bytes(c: Common) -> Seq<u8> {
    seq![c.spec_code()] + match c {
        Common::CurrentDate(d) => spec_date_bytes(d) + seq![0u8],
        Common::CurrentTime(d) => spec_time_bytes(d) + seq![0u8],
        _ => Seq::empty(),
    }
}

/// A command from the window.  Decoding reads the discriminator only: the
/// text of a date or time command is not reconstructed from the wire, so
/// those decode to the epoch and leave their text unconsumed.
pub open spec fn spec_parse_common(s: Seq<u8>, pos: int, end: int) -> Result<(Common, int), Error> {
    match spec_parse_u8(s, pos, end) {
        Err(e) => Err(e),
        Ok((code, p1)) => match code {
            0u8 => Ok((Common::AllStates, p1)),
            1u8 => Ok((Common::CurrentDate(DateTime::spec_epoch()), p1)),
            2u8 => Ok((Common::CurrentTime(DateTime::spec_epoch()), p1)),
            3u8 => Ok((Common::Reboot, p1)),
            _ => Err(Error::OutOfBound { value: code as u64, param: Param::Common }),
        },
    }
}

pub fn parse_common(buf: &Vec<u8>, pos: usize, end: usize) -> (r: Result<(Common, usize), Error>)
    requires
        pos <= end && end <= buf@.len(),
    ensures
        crate::bytes::with_pos(r) == spec_parse_common(buf@, pos as int, end as int),
        r matches Ok(v) ==> pos < v.1 <= end,
{
    let (code, p1) = match parse_u8(buf, pos, end) {
        Ok(v) => v,
        Err(e) => {
            return Err(e);
        },
    };
    match code {
        0 => Ok((Common::AllStates, p1)),
        1 => Ok((Common::CurrentDate(DateTime::epoch()), p1)),
        2 => Ok((Common::CurrentTime(DateTime::epoch()), p1)),
        3 => Ok((Common::Reboot, p1)),
        _ => Err(Error::OutOfBound { value: code as u64, param: Param::Common }),
    }
}

pub fn encode_common(c: &Common) -> (r: Result<Vec<u8>, Error>)
    ensures
        r matches Ok(v) ==> common_encodable(*c) && v@ == spec_common_bytes(*c),
        r is Err <==> !common_encodable(*c),
        r matches Err(e) ==> e == Error::Unsupported,
{
    let mut out: Vec<u8> = Vec::new();
    out.push(c.code());
    match c {
        Common::CurrentDate(d) => {
            if !(d.year <= 9999 && 1 <= d.month && d.month <= 12 && 1 <= d.day && d.day <= 31
                && d.hour < 24 && d.minute < 60 && d.second < 60) {
                return Err(Error::Unsupported);
            }
            let mut t = format_date(d);
            out.append(&mut t);
            out.push(0);
        },
        Common::CurrentTime(d) => {
            if !(d.year <= 9999 && 1 <= d.month && d.month <= 12 && 1 <= d.day && d.day <= 31
                && d.hour < 24 && d.minute < 60 && d.second < 60) {
                return Err(Error::Unsupported);
            }
            let mut t = format_time(d);
            out.append(&mut t);
            out.push(0);
        },
        _ => {},
    }
    assert(out@ =~= spec_common_bytes(*c));
    Ok(out)
}

/// Whether decoding the encoding of a command gives back the very same
/// value: true for the commands without text, false for the date and time,
/// whose text decoding does not reconstruct.
pub open spec fn common_wire_exact(c: Common) -> bool {
    c is AllStates || c is Reboot
}

/// Decoding the encoding of a textless command gives it back and consumes
/// exactly its bytes.
pub proof fn lemma_common_round_trip(s: Seq<u8>, pos: int, end: int, c: Common)
    requires
        0 <= pos <= end <= s.len(),
        s.subrange(pos, end) == spec_common_bytes(c),
        common_wire_exact(c),
    ensures
        spec_parse_common(s, pos, end) == Ok::<(Common, int), Error>((c, end)),
{
    lemma_subrange_split(s, pos, end, seq![c.spec_code()], Seq::empty());
    assert(s[pos + 0] == seq![c.spec_code()][0]);
}

/// The mathematical shape of a class of the Common family: the class with
/// raw bytes abstracted to a sequence.
pub enum ClassView {
    Network,
    NetworkEvent,
    Settings,
    SettingsState,
    Common(Common),
    CommonState,
    Overheat,
    OverheatState,
    Controller,
    WifiSettings,
    WifiSettingsState,
    Mavlink,
    MavlinkState,
    FlightPlanSettings,
    FlightPlanSettingsState,
    Calibration,
    CalibrationState,
    CameraSettingsState,
    Gps,
    FlightPlanState,
    FlightPlanEvent,
    ArLibsVersionsState,
    Audio,
    AudioState,
    HeadLights,
    HeadLightsState,
    Animations,
    AnimationsState,
    Accessory,
    AccessoryState,
    Charger,
    ChargerState,
    Runstate,
    Factory,
    Unknown { class: u8, data: Seq<u8> },
}

impl View for Class {
    type V = ClassView;

    open spec fn view(&self) -> ClassView {
        match self {
            Class::Network => ClassView::Network,
            Class::NetworkEvent => ClassView::NetworkEvent,
            Class::Settings => ClassView::Settings,
            Class::SettingsState => ClassView::SettingsState,
            Class::Common(c) => ClassView::Common(*c),
            Class::CommonState => ClassView::CommonState,
            Class::Overheat => ClassView::Overheat,
            Class::OverheatState => ClassView::OverheatState,
            Class::Controller => ClassView::Controller,
            Class::WifiSettings => ClassView::WifiSettings,
            Class::WifiSettingsState => ClassView::WifiSettingsState,
            Class::Mavlink => ClassView::Mavlink,
            Class::MavlinkState => ClassView::MavlinkState,
            Class::FlightPlanSettings => ClassView::FlightPlanSettings,
            Class::FlightPlanSettingsState => ClassView::FlightPlanSettingsState,
            Class::Calibration => ClassView::Calibration,
            Class::CalibrationState => ClassView::CalibrationState,
            Class::CameraSettingsState => ClassView::CameraSettingsState,
            Class::Gps => ClassView::Gps,
            Class::FlightPlanState => ClassView::FlightPlanState,
            Class::FlightPlanEvent => ClassView::FlightPlanEvent,
            Class::ArLibsVersionsState => ClassView::ArLibsVersionsState,
            Class::Audio => ClassView::Audio,
            Class::AudioState => ClassView::AudioState,
            Class::HeadLights => ClassView::HeadLights,
            Class::HeadLightsState => ClassView::HeadLightsState,
            Class::Animations => ClassView::Animations,
            Class::AnimationsState => ClassView::AnimationsState,
            Class::Accessory => ClassView::Accessory,
            Class::AccessoryState => ClassView::AccessoryState,
            Class::Charger => ClassView::Charger,
            Class::ChargerState => ClassView::ChargerState,
            Class::Runstate => ClassView::Runstate,
            Class::Factory => ClassView::Factory,
            Class::Unknown { class, data } => ClassView::Unknown { class: *class, data: data@ },
        }
    }
}

impl ClassView {
    /// The wire discriminator of this class.
    pub open spec fn code(self) -> u8 {
        match self {
            ClassView::Network => 0,
            ClassView::NetworkEvent => 1,
            ClassView::Settings => 2,
            ClassView::SettingsState => 3,
            ClassView::Common(_) => 4,
            ClassView::CommonState => 5,
            ClassView::Overheat => 6,
            ClassView::OverheatState => 7,
            ClassView::Controller => 8,
            ClassView::WifiSettings => 9,
            ClassView::WifiSettingsState => 10,
            ClassView::Mavlink => 11,
            ClassView::MavlinkState => 12,
            ClassView::FlightPlanSettings => 32,
            ClassView::FlightPlanSettingsState => 33,
            ClassView::Calibration => 13,
            ClassView::CalibrationState => 14,
            ClassView::CameraSettingsState => 15,
            ClassView::Gps => 16,
            ClassView::FlightPlanState => 17,
            ClassView::FlightPlanEvent => 19,
            ClassView::ArLibsVersionsState => 18,
            ClassView::Audio => 20,
            ClassView::AudioState => 21,
            ClassView::HeadLights => 22,
            ClassView::HeadLightsState => 23,
            ClassView::Animations => 24,
            ClassView::AnimationsState => 25,
            ClassView::Accessory => 26,
            ClassView::AccessoryState => 27,
            ClassView::Charger => 28,
            ClassView::ChargerState => 29,
            ClassView::Runstate => 30,
            ClassView::Factory => 31,
            ClassView::Unknown { class, .. } => class,
        }
    }
}

/// Which classes have an encoding: the four bare network and settings
/// classes, the Common class, and the opaque class.
pub open spec fn class_encodable(c: ClassView) -> bool {
    match c {
        ClassView::Network => true,
        ClassView::NetworkEvent => true,
        ClassView::Settings => true,
        ClassView::SettingsState => true,
        ClassView::Common(cc) => common_encodable(cc),
        ClassView::Unknown { .. } => true,
        _ => false,
    }
}

/// The wire bytes of a class: its one-byte discriminator, then the payload
/// of its command.
pub open spec fn spec_class_bytes(c: ClassView) -> Seq<u8> {
    seq![c.code()] + match c {
        ClassView::Common(cc) => spec_common_bytes(cc),
        ClassView::Unknown { data, .. } => data,
        _ => Seq::empty(),
    }
}

/// A class from the window.  The four bare classes and the Common class are
/// interpreted; every other class byte decodes to the opaque class carrying
/// the rest of the window.
pub open spec fn spec_parse_class(s: Seq<u8>, pos: int, end: int) -> Result<
    (ClassView, int),
    Error,
> {
    match spec_parse_u8(s, pos, end) {
        Err(e) => Err(e),
        Ok((code, p1)) => match code {
            0u8 => Ok((ClassView::Network, p1)),
            1u8 => Ok((ClassView::NetworkEvent, p1)),
            2u8 => Ok((ClassView::Settings, p1)),
            3u8 => Ok((ClassView::SettingsState, p1)),
            4u8 => match spec_parse_common(s, p1, end) {
                Err(e) => Err(e),
                Ok((cc, p2)) => Ok((ClassView::Common(cc), p2)),
            },
            _ => Ok((ClassView::Unknown { class: code, data: s.subrange(p1, end) }, end)),
        },
    }
}

pub fn parse_class(buf: &Vec<u8>, pos: usize, end: usize) -> (r: Result<(Class, usize), Error>)
    requires
        pos <= end && end <= buf@.len(),
    ensures
        match (r, spec_parse_class(buf@, pos as int, end as int)) {
            (Ok((c, p)), Ok((cv, q))) => c@ == cv && p == q,
            (Err(e), Err(d)) => e == d,
            _ => false,
        },
        r matches Ok(v) ==> pos < v.1 <= end,
{
    let (code, p1) = match parse_u8(buf, pos, end) {
        Ok(v) => v,
        Err(e) => {
            return Err(e);
        },
    };
    match code {
        0 => Ok((Class::Network, p1)),
        1 => Ok((Class::NetworkEvent, p1)),
        2 => Ok((Class::Settings, p1)),
        3 => Ok((Class::SettingsState, p1)),
        4 => match parse_common(buf, p1, end) {
            Ok((cc, p2)) => Ok((Class::Common(cc), p2)),
            Err(e) => Err(e),
        },
        _ => {
            let data = copy_range(buf, p1, end);
            Ok((Class::Unknown { class: code, data }, end))
        },
    }
}

pub fn encode_class(c: &Class) -> (r: Result<Vec<u8>, Error>)
    ensures
        r matches Ok(v) ==> class_encodable(c@) && v@ == spec_class_bytes(c@),
        r is Err <==> !class_encodable(c@),
        r matches Err(e) ==> e == Error::Unsupported,
{
    match c {
        Class::Network | Class::NetworkEvent | Class::Settings | Class::SettingsState => {
            let mut out: Vec<u8> = Vec::new();
            out.push(c.code());
            assert(out@ =~= spec_class_bytes(c@));
            Ok(out)
        },
        Class::Common(cc) => {
            let mut sb = match encode_common(cc) {
                Ok(v) => v,
                Err(e) => {
                    return Err(e);
                },
            };
            let mut out: Vec<u8> = Vec::new();
            out.push(c.code());
            out.append(&mut sb);
            assert(out@ =~= spec_class_bytes(c@));
            Ok(out)
        },
        Class::Unknown { class, data } => {
            let mut out: Vec<u8> = Vec::new();
            out.push(*class);
            let mut d = data.clone();
            assert(d@ == data@);
            out.append(&mut d);
            assert(out@ =~= spec_class_bytes(c@));
            Ok(out)
        },
        _ => Err(Error::Unsupported),
    }
}

/// Whether decoding the encoding of a class gives back the very same value.
/// The date and time lose their text; an opaque class whose byte collides
/// with an interpreted class decodes as that class instead.
pub open spec fn class_wire_exact(c: ClassView) -> bool {
    match c {
        ClassView::Network => true,
        ClassView::NetworkEvent => true,
        ClassView::Settings => true,
        ClassView::SettingsState => true,
        ClassView::Common(cc) => common_wire_exact(cc),
        ClassView::Unknown { class, .. } => class > 4,
        _ => false,
    }
}

/// Decoding the encoding of a faithful class gives it back and consumes
/// exactly its bytes.
pub proof fn lemma_class_round_trip(s: Seq<u8>, pos: int, end: int, c: ClassView)
    requires
        0 <= pos <= end <= s.len(),
        s.subrange(pos, end) == spec_class_bytes(c),
        class_encodable(c),
        class_wire_exact(c),
    ensures
        spec_parse_class(s, pos, end) == Ok::<(ClassView, int), Error>((c, end)),
{
    let payload = match c {
        ClassView::Common(cc) => spec_common_bytes(cc),
        ClassView::Unknown { data, .. } => data,
        _ => Seq::<u8>::empty(),
    };
    lemma_subrange_split(s, pos, end, seq![c.code()], payload);
    assert(s[pos + 0] == seq![c.code()][0]);
    match c {
        ClassView::Common(cc) => {
            lemma_common_round_trip(s, pos + 1, end, cc);
        },
        ClassView::Unknown { class, data } => {
            assert(s.subrange(pos + 1, end) == data);
        },
        _ => {},
    }
}

/// Re-encoding a decoded opaque class reproduces the bytes it consumed.
pub proof fn lemma_class_reencode(s: Seq<u8>, pos: int, end: int)
    requires
        0 <= pos <= end <= s.len(),
        spec_parse_class(s, pos, end) is Ok,
        spec_parse_class(s, pos, end)->Ok_0.0 is Unknown,
    ensures
        spec_parse_class(s, pos, end)->Ok_0.1 == end,
        spec_class_bytes(spec_parse_class(s, pos, end)->Ok_0.0) == s.subrange(pos, end),
        class_encodable(spec_parse_class(s, pos, end)->Ok_0.0),
{
    let c = spec_parse_class(s, pos, end)->Ok_0.0;
    lemma_window_head(s, pos, end);
    assert(spec_class_bytes(c) =~= s.subrange(pos, end));
}

} // verus!
