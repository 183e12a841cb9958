//! Fixed UTC offsets and the resolved point in time that a clock line shows.
use vstd::prelude::*;
use vstd::string::StringExecFns;

verus! {

/// A fixed offset from UTC, as hours, minutes and seconds east of Greenwich.
#[derive(Clone, Copy, Debug, PartialEq, Eq, Structural)]
pub struct FixedOffset {
    pub hours: i8,
    pub minutes: i8,
    pub seconds: i8,
}

/// The offset of UTC itself.
pub open spec fn utc() -> FixedOffset {
    FixedOffset { hours: 0, minutes: 0, seconds: 0 }
}

/// Components in the ranges an offset may take, with the signs agreeing.
pub open spec fn hms_valid(h: int, m: int, s: int) -> bool {
    &&& -25 <= h <= 25
    &&& -59 <= m <= 59
    &&& -59 <= s <= 59
    &&& h > 0 ==> m >= 0 && s >= 0
    &&& h < 0 ==> m <= 0 && s <= 0
    &&& m > 0 ==> s >= 0
    &&& m < 0 ==> s <= 0
}

impl FixedOffset {
    pub open spec fn wf(self) -> bool {
        hms_valid(self.hours as int, self.minutes as int, self.seconds as int)
    }
}

/// A calendar date and time of day, as read in a given offset.
#[derive(Clone, Copy, Debug, PartialEq, Eq, Structural)]
pub struct Moment {
    pub year: i32,
    pub month: u8,
    pub day: u8,
    pub hour: u8,
    pub minute: u8,
    pub second: u8,
    pub offset: FixedOffset,
}

impl Moment {
    pub open spec fn wf(self) -> bool {
        &&& 1 <= self.month <= 12
        &&& 1 <= self.day <= 31
        &&& self.hour < 24
        &&& self.minute < 60
        &&& self.second < 60
        &&& self.offset.wf()
    }
}

/// What `UtcOffset::parse` gives for `text` under the format description
/// `layout`, as hours, minutes and seconds.
pub uninterp spec fn offset_in_layout(text: Seq<char>, layout: Seq<char>) -> Option<(i8, i8, i8)>;

/// Relies on `time::format_description::parse` to read the description
/// `layout`, and on `time::UtcOffset::parse` and `UtcOffset::as_hms`, whose
/// components lie in the offset's ranges and share one sign.
#[verifier::external_body]
fn parse_in_layout(text: &str, layout: &str) -> (r: Option<(i8, i8, i8)>)
    ensures
        r == offset_in_layout(text@, layout@),
        r matches Some(t) ==> hms_valid(t.0 as int, t.1 as int, t.2 as int),
{
    let items = match time::format_description::parse(layout) {
        Ok(items) => items,
        Err(_) => return None,
    };
    match time::UtcOffset::parse(text, &items) {
        Ok(offset) => Some(offset.as_hms()),
        Err(_) => None,
    }
}

/// Relies on `time::OffsetDateTime::now_utc`: the current date and time in UTC,
/// with its calendar fields in range.
#[verifier::external_body]
fn now_utc() -> (r: Moment)
    ensures
        r.wf(),
        r.offset == utc(),
{
    let t = time::OffsetDateTime::now_utc();
    Moment {
        year: t.year(),
        month: t.month() as u8,
        day: t.day(),
        hour: t.hour(),
        minute: t.minute(),
        second: t.second(),
        offset: FixedOffset { hours: 0, minutes: 0, seconds: 0 },
    }
}

/// Relies on `time::UtcDateTime::now` and `UtcDateTime::checked_to_offset`:
/// the current date and time in `offset`, or `None` where that falls outside
/// the supported years. `UtcOffset::from_hms` keeps components that are
/// in range and agree in sign.
#[verifier::external_body]
fn now_in_offset(offset: FixedOffset) -> (r: Option<Moment>)
    requires
        offset.wf(),
    ensures
        r matches Some(m) ==> m.wf() && m.offset == offset,
{
    let o = time::UtcOffset::from_hms(offset.hours, offset.minutes, offset.seconds).ok()?;
    let t = time::UtcDateTime::now().checked_to_offset(o)?;
    Some(Moment {
        year: t.year(),
        month: t.month() as u8,
        day: t.day(),
        hour: t.hour(),
        minute: t.minute(),
        second: t.second(),
        offset,
    })
}

/// The layouts an offset is read in, in the order they are tried.
pub open spec fn layout_compact() -> Seq<char> {
    "[offset_hour][offset_minute]"@
}

pub open spec fn layout_colon() -> Seq<char> {
    "[offset_hour]:[offset_minute]"@
}

pub open spec fn layout_hours() -> Seq<char> {
    "[offset_hour]"@
}

pub open spec fn to_offset(t: Option<(i8, i8, i8)>) -> Option<FixedOffset> {
    match t {
        Some(t) => Some(FixedOffset { hours: t.0, minutes: t.1, seconds: t.2 }),
        None => None,
    }
}

/// The first of three readings that succeeded.
pub open spec fn first_reading(
    a: Option<(i8, i8, i8)>,
    b: Option<(i8, i8, i8)>,
    c: Option<(i8, i8, i8)>,
) -> Option<FixedOffset> {
    if a is Some {
        to_offset(a)
    } else if b is Some {
        to_offset(b)
    } else {
        to_offset(c)
    }
}

/// The offset that `text` denotes: the first layout that reads it wins.
pub open spec fn offset_of_text(text: Seq<char>) -> Option<FixedOffset> {
    first_reading(
        offset_in_layout(text, layout_compact()),
        offset_in_layout(text, layout_colon()),
        offset_in_layout(text, layout_hours()),
    )
}

/// Picks the first of three readings of an offset that succeeded, trying
/// `±HHMM`, then `±HH:MM`, then `±HH`.
pub fn pick_offset(
    compact: Option<(i8, i8, i8)>,
    colon: Option<(i8, i8, i8)>,
    hours: Option<(i8, i8, i8)>,
) -> (r: Option<FixedOffset>)
    ensures
        r == first_reading(compact, colon, hours),
{
    let chosen = match compact {
        Some(t) => Some(t),
        None => match colon {
            Some(t) => Some(t),
            None => hours,
        },
    };
    match chosen {
        Some(t) => Some(FixedOffset { hours: t.0, minutes: t.1, seconds: t.2 }),
        None => None,
    }
}

/// Reads a UTC offset written `±HHMM`, `±HH:MM` or `±HH`, in that order of
/// preference; `None` when there is no text or no layout reads it.
pub fn parse_offset(offset_str: Option<&str>) -> (r: Option<FixedOffset>)
    ensures
        offset_str is None ==> r is None,
        offset_str matches Some(s) ==> r == offset_of_text(s@),
        r matches Some(o) ==> o.wf(),
{
    match offset_str {
        None => None,
        Some(s) => {
            let compact = String::from_str("[offset_hour][offset_minute]");
            let colon = String::from_str("[offset_hour]:[offset_minute]");
            let hours = String::from_str("[offset_hour]");
            let a = parse_in_layout(s, compact.as_str());
            let b = parse_in_layout(s, colon.as_str());
            let c = parse_in_layout(s, hours.as_str());
            pick_offset(a, b, c)
        },
    }
}

/// The current moment in the offset that `offset_str` denotes, or in UTC when
/// there is none, it cannot be read, or the moment cannot be shown in it.
pub fn resolve(offset_str: Option<&str>) -> (r: Moment)
    ensures
        r.wf(),
        offset_str is None ==> r.offset == utc(),
        offset_str matches Some(s) ==> {
            match offset_of_text(s@) {
                Some(o) => r.offset == o || r.offset == utc(),
                None => r.offset == utc(),
            }
        },
{
    match parse_offset(offset_str) {
        Some(offset) => match now_in_offset(offset) {
            Some(m) => m,
            None => now_utc(),
        },
        None => now_utc(),
    }
}

} // verus!
