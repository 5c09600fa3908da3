//! From a local time of day and a UTC offset to a daily recurrence.

use crate::command::messages;
use crate::decimal::int_to_decimal;
use crate::decimal::push_int;
use crate::deliver;
use vstd::prelude::*;
use vstd::string::*;

verus! {

/// The hour in UTC at which it is `hour` o'clock where the clocks are
/// `offset` hours ahead of UTC.
pub open spec fn spec_utc_hour(hour: int, offset: int) -> int {
    (hour - offset) % 24
}

#[verifier::when_used_as_spec(spec_utc_hour_i8)]
pub fn utc_hour(hour: i8, offset: i8) -> (r: i8)
    ensures
        r == spec_utc_hour(hour as int, offset as int),
        0 <= r <= 23,
{
    let d: i16 = hour as i16 - offset as i16;
    let m: i16 = d % 24;
    let w: i16 = if m < 0 {
        m + 24
    } else {
        m
    };
    w as i8
}

pub open spec fn spec_utc_hour_i8(hour: i8, offset: i8) -> i8 {
    spec_utc_hour(hour as int, offset as int) as i8
}

/// The recurrence "every day at `hour`:`minutes`:00 UTC", in seven fields:
/// second, minute, hour, day of month, month, day of week, year.
pub open spec fn cron_pattern(minutes: int, hour: int) -> Seq<char> {
    messages::CRON_SECONDS@ + int_to_decimal(minutes) + messages::SPACE@ + int_to_decimal(hour) + messages::CRON_EVERY_DAY@
}

pub fn cron_expression(minutes: i8, hour: i8) -> (r: String)
    ensures
        r@ == cron_pattern(minutes as int, hour as int),
{
    let mut s = String::from_str(messages::CRON_SECONDS);
    push_int(&mut s, minutes as i64);
    s.append(messages::SPACE);
    push_int(&mut s, hour as i64);
    s.append(messages::CRON_EVERY_DAY);
    s
}

/// A daily delivery as the user asked for it: a local time of day, the
/// offset of the user's clock from UTC, and the default city.
#[derive(Debug, PartialEq, Eq)]
pub struct ScheduleWeatherTask {
    pub user_hour: i8,
    pub minutes: i8,
    pub offset: i8,
    pub username: String,
    pub chat_id: i64,
    pub default_city_id: i32,
}

impl Clone for ScheduleWeatherTask {
    fn clone(&self) -> (r: Self)
        ensures
            r == *self,
    {
        ScheduleWeatherTask {
            user_hour: self.user_hour,
            minutes: self.minutes,
            offset: self.offset,
            username: self.username.clone(),
            chat_id: self.chat_id,
            default_city_id: self.default_city_id,
        }
    }
}

impl ScheduleWeatherTask {
    /// No chat holds two pending deliveries.
    pub fn uniq(&self) -> (r: bool)
        ensures
            r,
    {
        true
    }

    pub fn task_type(&self) -> (r: String)
        ensures
            r@ == messages::TASK_TYPE@,
    {
        String::from_str(messages::TASK_TYPE)
    }

    /// The recurrence in UTC that this request stands for.
    pub fn cron(&self) -> (r: Option<String>)
        ensures
            r is Some,
            r.unwrap()@ == cron_pattern(
                self.minutes as int,
                spec_utc_hour(self.user_hour as int, self.offset as int),
            ),
    {
        let hour_utc = utc_hour(self.user_hour, self.offset);
        Some(cron_expression(self.minutes, hour_utc))
    }

    /// The job that delivers to `user_id` what this request asks for.
    pub fn recurring(&self, user_id: u64) -> (r: deliver::ScheduleWeatherTask)
        ensures
            r@ == (deliver::ScheduleWeatherTaskView {
                cron_expression: cron_pattern(
                    self.minutes as int,
                    spec_utc_hour(self.user_hour as int, self.offset as int),
                ),
                chat_id: self.chat_id,
                user_id,
                city_id: self.default_city_id,
            }),
    {
        let hour_utc = utc_hour(self.user_hour, self.offset);
        deliver::ScheduleWeatherTask {
            cron_expression: cron_expression(self.minutes, hour_utc),
            chat_id: self.chat_id,
            user_id,
            city_id: self.default_city_id,
        }
    }
}

} // verus!
