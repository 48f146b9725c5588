use vstd::prelude::*;

verus! {

/// A calendar date and time of day, as the real-time clock keeps it.
#[derive(Clone, Copy, Debug, PartialEq, Eq, Structural)]
pub struct DateTime {
    pub year: u16,
    pub month: u8,
    pub day: u8,
    pub hour: u8,
    pub minute: u8,
    pub second: u8,
    pub millisecond: u16,
}

/// The value of the Current Time characteristic.
#[derive(Clone, Copy, Debug, PartialEq, Eq, Structural)]
pub struct CurrentTime {
    pub year: u16,
    pub month: u8,
    pub day: u8,
    pub hours: u8,
    pub minutes: u8,
    pub seconds: u8,
    /// 1 = Monday, 7 = Sunday.
    pub day_of_week: u8,
    /// 1/256th of a second.
    pub fractions256: u8,
    /// Bit field that says why the time was adjusted.
    pub adjust_reason: u8,
}

/// Length of the characteristic's value in bytes.
pub const CURRENT_TIME_LEN: usize = 10;

/// Years below this one are taken to be unset.
pub const MIN_YEAR: u16 = 2020;

/// The year that stands in for an unset one.
pub const FALLBACK_YEAR: u16 = 2037;

/// The day of the week reported for every time read from the clock.
pub const CLOCK_DAY_OF_WEEK: u8 = 3;

/// The ten bytes of a time on the wire: the year low byte first, then one
/// byte per field.
pub open spec fn encode(ct: CurrentTime) -> Seq<u8> {
    seq![
        (ct.year % 256) as u8,
        (ct.year / 256) as u8,
        ct.month,
        ct.day,
        ct.hours,
        ct.minutes,
        ct.seconds,
        ct.day_of_week,
        ct.fractions256,
        ct.adjust_reason,
    ]
}

/// The time that the first ten bytes of `data` spell.
pub open spec fn decode(data: Seq<u8>) -> CurrentTime
    recommends
        data.len() >= 10,
{
    CurrentTime {
        year: (data[0] as int + 256 * (data[1] as int)) as u16,
        month: data[2],
        day: data[3],
        hours: data[4],
        minutes: data[5],
        seconds: data[6],
        day_of_week: data[7],
        fractions256: data[8],
        adjust_reason: data[9],
    }
}

/// The time that a clock reading is reported as.
pub open spec fn seen_on_clock(dt: DateTime) -> CurrentTime {
    CurrentTime {
        year: dt.year,
        month: dt.month,
        day: dt.day,
        hours: dt.hour,
        minutes: dt.minute,
        seconds: dt.second,
        day_of_week: CLOCK_DAY_OF_WEEK,
        fractions256: 0,
        adjust_reason: 0,
    }
}

/// The clock setting that a time asks for: a year before 2020 becomes 2037,
/// a month or day of 0 becomes 1, and the milliseconds are 0.
pub open spec fn clock_setting(ct: CurrentTime) -> DateTime {
    DateTime {
        year: if ct.year < MIN_YEAR {
            FALLBACK_YEAR
        } else {
            ct.year
        },
        month: if ct.month == 0 {
            1
        } else {
            ct.month
        },
        day: if ct.day == 0 {
            1
        } else {
            ct.day
        },
        hour: ct.hours,
        minute: ct.minutes,
        second: ct.seconds,
        millisecond: 0,
    }
}

/// The time that stands in until one is known: Thursday, 1 January 2025, midnight.
pub open spec fn default_time() -> CurrentTime {
    CurrentTime {
        year: 2025,
        month: 1,
        day: 1,
        hours: 0,
        minutes: 0,
        seconds: 0,
        day_of_week: 4,
        fractions256: 0,
        adjust_reason: 0,
    }
}

impl Default for CurrentTime {
    fn default() -> (ct: Self)
        ensures
            ct == default_time(),
    {
        CurrentTime {
            year: 2025,
            month: 1,
            day: 1,
            hours: 0,
            minutes: 0,
            seconds: 0,
            day_of_week: 4,
            fractions256: 0,
            adjust_reason: 0,
        }
    }
}

impl CurrentTime {
    /// The value as it goes over the air.
    pub fn to_bytes(&self) -> (bytes: [u8; 10])
        ensures
            bytes@ == encode(*self),
    {
        let bytes: [u8; 10] = [
            (self.year % 256) as u8,
            (self.year / 256) as u8,
            self.month,
            self.day,
            self.hours,
            self.minutes,
            self.seconds,
            self.day_of_week,
            self.fractions256,
            self.adjust_reason,
        ];
        assert(bytes@ =~= encode(*self));
        bytes
    }

    /// Reads a value from the first ten bytes of `data`. Fewer than ten
    /// bytes give nothing; bytes after the tenth are ignored.
    pub fn from_bytes(data: &[u8]) -> (parsed: Option<Self>)
        ensures
            parsed == if data@.len() < 10 {
                None
            } else {
                Some(decode(data@))
            },
    {
        if data.len() < 10 {
            return None;
        }
        let year: u16 = data[0] as u16 + 256 * (data[1] as u16);
        Some(
            CurrentTime {
                year,
                month: data[2],
                day: data[3],
                hours: data[4],
                minutes: data[5],
                seconds: data[6],
                day_of_week: data[7],
                fractions256: data[8],
                adjust_reason: data[9],
            },
        )
    }

    /// The value reported for a reading of the clock.
    pub fn from_datetime(dt: &DateTime) -> (ct: Self)
        ensures
            ct == seen_on_clock(*dt),
    {
        CurrentTime {
            year: dt.year,
            month: dt.month,
            day: dt.day,
            hours: dt.hour,
            minutes: dt.minute,
            seconds: dt.second,
            day_of_week: CLOCK_DAY_OF_WEEK,
            fractions256: 0,
            adjust_reason: 0,
        }
    }

    /// The clock setting that this value asks for.
    pub fn to_datetime(&self) -> (dt: DateTime)
        ensures
            dt == clock_setting(*self),
    {
        DateTime {
            year: if self.year < MIN_YEAR {
                FALLBACK_YEAR
            } else {
                self.year
            },
            month: if self.month == 0 {
                1
            } else {
                self.month
            },
            day: if self.day == 0 {
                1
            } else {
                self.day
            },
            hour: self.hours,
            minute: self.minutes,
            second: self.seconds,
            millisecond: 0,
        }
    }
}

/// Years below this one mean that the clock was never set.
pub const UNSET_BEFORE_YEAR: u16 = 2025;

/// The date to which a clock that was never set is set: 2 April 2025, 21:36.
pub open spec fn first_setting() -> DateTime {
    DateTime { year: 2025, month: 4, day: 2, hour: 21, minute: 36, second: 0, millisecond: 0 }
}

/// What the clock should hold at start, given its reading `now`: a clock
/// that was never set gets the first setting, any other keeps its time.
pub fn get_configured_rtc(now: DateTime) -> (setting: DateTime)
    ensures
        setting == if now.year < UNSET_BEFORE_YEAR {
            first_setting()
        } else {
            now
        },
{
    if now.year < UNSET_BEFORE_YEAR {
        DateTime { year: 2025, month: 4, day: 2, hour: 21, minute: 36, second: 0, millisecond: 0 }
    } else {
        now
    }
}

/// Decoding the encoding of a time gives the time back.
pub proof fn law_decode_encode(ct: CurrentTime)
    ensures
        encode(ct).len() == CURRENT_TIME_LEN,
        decode(encode(ct)) == ct,
{
}

/// A clock setting never has a year before 2020, nor a month or a day of 0.
pub proof fn law_clock_setting_clamped(ct: CurrentTime)
    ensures
        clock_setting(ct).year >= MIN_YEAR,
        clock_setting(ct).month >= 1,
        clock_setting(ct).day >= 1,
{
}

} // verus!
