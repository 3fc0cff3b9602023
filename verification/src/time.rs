use vstd::prelude::*;

verus! {

/// A calendar timestamp as the band encodes it on the wire: seven bytes,
/// little-endian year followed by month, day, hour, minute and second.
#[derive(Clone, Copy, Debug, PartialEq, Eq, Structural)]
pub struct BandTime {
    pub year: u16,
    pub month: u8,
    pub day: u8,
    pub hour: u8,
    pub minute: u8,
    pub second: u8,
}

pub open spec fn is_leap_year(year: int) -> bool {
    year % 4 == 0 && (year % 100 != 0 || year % 400 == 0)
}

pub open spec fn days_in_month(year: int, month: int) -> int {
    if month == 2 {
        if is_leap_year(year) {
            29
        } else {
            28
        }
    } else if month == 4 || month == 6 || month == 9 || month == 11 {
        30
    } else {
        31
    }
}

impl BandTime {
    /// The fields describe a real calendar date and a real time of day.
    pub open spec fn valid(self) -> bool {
        &&& 1 <= self.month <= 12
        &&& 1 <= self.day <= days_in_month(self.year as int, self.month as int)
        &&& self.hour < 24
        &&& self.minute < 60
        &&& self.second < 60
    }

    pub fn is_valid(&self) -> (r: bool)
        ensures
            r == self.valid(),
    {
        let month_ok: bool = 1 <= self.month && self.month <= 12;
        if !month_ok {
            return false;
        }
        let max_day: u8 = Self::days_in_month_exec(self.year, self.month);
        1 <= self.day && self.day <= max_day && self.hour < 24 && self.minute < 60
            && self.second < 60
    }

    fn days_in_month_exec(year: u16, month: u8) -> (r: u8)
        requires
            1 <= month <= 12,
        ensures
            r == days_in_month(year as int, month as int),
    {
        if month == 2 {
            let leap: bool = year % 4 == 0 && (year % 100 != 0 || year % 400 == 0);
            if leap {
                29
            } else {
                28
            }
        } else if month == 4 || month == 6 || month == 9 || month == 11 {
            30
        } else {
            31
        }
    }
}

/// The timestamp held in the first seven bytes, before any validity check.
pub open spec fn decoded_time(bytes: Seq<u8>) -> BandTime
    recommends
        bytes.len() >= 7,
{
    BandTime {
        year: (bytes[0] + bytes[1] * 256) as u16,
        month: bytes[2],
        day: bytes[3],
        hour: bytes[4],
        minute: bytes[5],
        second: bytes[6],
    }
}

/// What decoding a raw timestamp yields: the timestamp in the first seven
/// bytes when those describe a valid calendar date and time, nothing when the
/// buffer is short or a field is out of range.
pub open spec fn spec_parse_time(bytes: Seq<u8>) -> Option<BandTime> {
    if bytes.len() < 7 {
        None
    } else if decoded_time(bytes).valid() {
        Some(decoded_time(bytes))
    } else {
        None
    }
}

/// Decode a raw band timestamp. Invalid calendar fields (a thirteenth month,
/// a thirty-second day) yield `None`, never a clamped date.
pub fn parse_time(value: &[u8]) -> (r: Option<BandTime>)
    ensures
        r == spec_parse_time(value@),
{
    if value.len() < 7 {
        return None;
    }
    let year: u16 = (value[0] as u16) + (value[1] as u16) * 256;
    let time = BandTime {
        year,
        month: value[2],
        day: value[3],
        hour: value[4],
        minute: value[5],
        second: value[6],
    };
    if time.is_valid() {
        Some(time)
    } else {
        None
    }
}

/// The seven-byte wire form of a timestamp.
pub open spec fn spec_time_bytes(t: BandTime) -> Seq<u8> {
    seq![
        (t.year % 256) as u8,
        (t.year / 256) as u8,
        t.month,
        t.day,
        t.hour,
        t.minute,
        t.second,
    ]
}

/// Encode a timestamp into its seven wire bytes.
pub fn encode_time(t: &BandTime) -> (r: Vec<u8>)
    ensures
        r@ == spec_time_bytes(*t),
{
    let mut out: Vec<u8> = Vec::new();
    out.push((t.year % 256) as u8);
    out.push((t.year / 256) as u8);
    out.push(t.month);
    out.push(t.day);
    out.push(t.hour);
    out.push(t.minute);
    out.push(t.second);
    proof {
        assert(out@ =~= spec_time_bytes(*t));
    }
    out
}

/// Sakamoto's month offset table for the day-of-week computation.
pub open spec fn month_offset(month: int) -> int {
    if month == 1 {
        0
    } else if month == 2 {
        3
    } else if month == 3 {
        2
    } else if month == 4 {
        5
    } else if month == 5 {
        0
    } else if month == 6 {
        3
    } else if month == 7 {
        5
    } else if month == 8 {
        1
    } else if month == 9 {
        4
    } else if month == 10 {
        6
    } else if month == 11 {
        2
    } else {
        4
    }
}

/// Days since Sunday, zero-indexed, by Sakamoto's formula. The year is
/// shifted by one full 400-year Gregorian cycle, which leaves the weekday
/// unchanged and keeps the arithmetic non-negative for January and February.
pub open spec fn spec_day_of_week(t: BandTime) -> int {
    let y: int = if t.month < 3 {
        t.year + 399
    } else {
        t.year + 400
    };
    (y + y / 4 - y / 100 + y / 400 + month_offset(t.month as int) + t.day) % 7
}

fn month_offset_exec(month: u8) -> (r: u8)
    requires
        1 <= month <= 12,
    ensures
        r == month_offset(month as int),
{
    if month == 1 {
        0
    } else if month == 2 {
        3
    } else if month == 3 {
        2
    } else if month == 4 {
        5
    } else if month == 5 {
        0
    } else if month == 6 {
        3
    } else if month == 7 {
        5
    } else if month == 8 {
        1
    } else if month == 9 {
        4
    } else if month == 10 {
        6
    } else if month == 11 {
        2
    } else {
        4
    }
}

/// Days since Sunday for a calendar date, zero-indexed.
pub fn day_of_week(t: &BandTime) -> (r: u8)
    requires
        t.valid(),
    ensures
        r == spec_day_of_week(*t),
        r < 7,
{
    let y: u32 = if t.month < 3 {
        t.year as u32 + 399
    } else {
        t.year as u32 + 400
    };
    let total: u32 = y + y / 4 - y / 100 + y / 400 + month_offset_exec(t.month) as u32
        + t.day as u32;
    (total % 7) as u8
}

/// The eleven bytes written to set the band's clock: the timestamp, the
/// day of the week, then three reserved zero bytes.
pub open spec fn spec_time_write_bytes(t: BandTime) -> Seq<u8> {
    spec_time_bytes(t) + seq![spec_day_of_week(t) as u8, 0u8, 0u8, 0u8]
}

/// Build the payload that sets the band's clock.
pub fn time_write_payload(t: &BandTime) -> (r: Vec<u8>)
    requires
        t.valid(),
    ensures
        r@ == spec_time_write_bytes(*t),
{
    let mut out = encode_time(t);
    out.push(day_of_week(t));
    out.push(0);
    out.push(0);
    out.push(0);
    proof {
        assert(out@ =~= spec_time_write_bytes(*t));
    }
    out
}

/// A raw timestamp decodes only to valid calendar fields: a buffer whose
/// fields are out of range (a thirteenth month, a thirty-second day)
/// decodes to nothing, never to a clamped or altered date.
pub proof fn lemma_parse_time_validity(bytes: Seq<u8>)
    ensures
        match spec_parse_time(bytes) {
            Some(t) => bytes.len() >= 7 && t == decoded_time(bytes) && t.valid(),
            None => bytes.len() < 7 || !decoded_time(bytes).valid(),
        },
{
}

/// Decoding the encoded form of any valid timestamp gives that timestamp
/// back: the seven wire bytes lose nothing.
pub proof fn lemma_time_round_trip(t: BandTime)
    requires
        t.valid(),
    ensures
        spec_parse_time(spec_time_bytes(t)) == Some(t),
{
    let bytes = spec_time_bytes(t);
    assert(bytes[0] + bytes[1] * 256 == t.year) by {
        assert(t.year % 256 + 256 * (t.year / 256) == t.year) by (nonlinear_arith);
    }
    assert(decoded_time(bytes) == t);
}

} // verus!
