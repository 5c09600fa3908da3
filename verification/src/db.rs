//! The records that the bot keeps, and the rules by which they are read.
//!
//! A moment in time is the number of whole seconds since 1970-01-01T00:00:00Z.

use crate::open_weather_map::weather::City;
use chrono::DateTime;
use chrono::Utc;
use cron::Schedule;
use std::str::FromStr;
use vstd::prelude::*;
use vstd::string::*;

verus! {

/// Why a record could not be had.
#[derive(Debug, Clone, Copy, PartialEq, Eq, Structural)]
pub enum BotDbError {
    /// The store or its connection pool failed.
    StorageError,
    /// The recurrence expression is not a cron expression.
    CronError,
    CityNotFoundError,
    /// The recurrence has no occurrence left.
    NoTimestampsError,
}

/// Where a chat stands in its dialog.
#[derive(Debug, Clone, Copy, PartialEq, Eq, Structural)]
pub enum ClientState {
    Initial,
    FindingCity,
    PickingFoundCityNumber,
    SettingDefaultCity,
    PickingDefaultCityNumber,
    AwaitingScheduleTime,
    AwaitingScheduleOffset,
}

/// One conversation with one user.
#[derive(Debug, PartialEq, Eq)]
pub struct Chat {
    pub id: i64,
    pub user_id: u64,
    pub state: ClientState,
    /// The flow that a numbered choice belongs to.
    pub before_state: ClientState,
    pub offset: Option<i8>,
    /// The search pattern behind a numbered list, or the time of day that
    /// waits for its offset.
    pub selected: Option<String>,
    pub default_city_id: Option<i32>,
}

pub struct ChatView {
    pub id: i64,
    pub user_id: u64,
    pub state: ClientState,
    pub before_state: ClientState,
    pub offset: Option<i8>,
    pub selected: Option<Seq<char>>,
    pub default_city_id: Option<i32>,
}

impl View for Chat {
    type V = ChatView;

    open spec fn view(&self) -> ChatView {
        ChatView {
            id: self.id,
            user_id: self.user_id,
            state: self.state,
            before_state: self.before_state,
            offset: self.offset,
            selected: match self.selected {
                Some(s) => Some(s@),
                None => None,
            },
            default_city_id: self.default_city_id,
        }
    }
}

impl Clone for Chat {
    fn clone(&self) -> (r: Self)
        ensures
            r == *self,
    {
        Chat {
            id: self.id,
            user_id: self.user_id,
            state: self.state,
            before_state: self.before_state,
            offset: self.offset,
            selected: match &self.selected {
                Some(s) => Some(s.clone()),
                None => None,
            },
            default_city_id: self.default_city_id,
        }
    }
}

impl Chat {
    /// The record of a chat that has just been met.
    pub open spec fn spec_new(id: i64, user_id: u64) -> ChatView {
        ChatView {
            id,
            user_id,
            state: ClientState::Initial,
            before_state: ClientState::Initial,
            offset: None,
            selected: None,
            default_city_id: None,
        }
    }

    /// The record of a chat that has just been met.
    pub fn new(id: i64, user_id: u64) -> (r: Chat)
        ensures
            r@ == Chat::spec_new(id, user_id),
    {
        Chat {
            id,
            user_id,
            state: ClientState::Initial,
            before_state: ClientState::Initial,
            offset: None,
            selected: None,
            default_city_id: None,
        }
    }
}

/// Whether a count of matching rows says that the chat is known: a chat
/// and a user have one record or none.
pub fn check_user_exists(rows: u64) -> (r: bool)
    ensures
        r == (rows == 1),
{
    rows == 1
}

/// The record to go on with and whether it has yet to be stored: the one
/// that the store holds, or a new one in its initial state.
pub fn find_or_create_chat(found: Option<Chat>, chat_id: i64, user_id: u64) -> (r: (Chat, bool))
    ensures
        match found {
            Some(chat) => r.0 == chat && !r.1,
            None => r.0@ == Chat::spec_new(chat_id, user_id) && r.1,
        },
{
    match found {
        Some(chat) => (chat, false),
        None => (Chat::new(chat_id, user_id), true),
    }
}

/// The wildcard that stands for any text in a pattern of the directory.
pub const ANY_TEXT: &'static str = "%";

/// `str::to_uppercase` of `text`.
pub uninterp spec fn uppercase(text: Seq<char>) -> Seq<char>;

/// Calls `str::to_uppercase`. Trusted: that the result depends on the
/// characters of `text` alone.
#[verifier::external_body]
fn to_uppercase(text: &str) -> (r: String)
    ensures
        r@ == uppercase(text@),
{
    text.to_uppercase()
}

/// The pattern by which the directory finds the cities whose name, in upper
/// case, contains `pattern` in upper case.
pub fn get_city_by_pattern(pattern: &str) -> (r: String)
    ensures
        r@ == ANY_TEXT@ + uppercase(pattern@) + ANY_TEXT@,
{
    let mut like = ANY_TEXT.to_owned();
    let upper = to_uppercase(pattern);
    like.append(upper.as_str());
    like.append(ANY_TEXT);
    like
}

/// One recurring delivery: at most one per chat, user and city.
#[derive(Debug, PartialEq, Eq)]
pub struct Forecast {
    pub id: i32,
    pub chat_id: i64,
    pub user_id: u64,
    pub city_id: i32,
    pub cron_expression: String,
    pub last_delivered_at: Option<i64>,
    pub next_delivery_at: i64,
    pub updated_at: i64,
    pub created_at: i64,
}

pub struct ForecastView {
    pub id: i32,
    pub chat_id: i64,
    pub user_id: u64,
    pub city_id: i32,
    pub cron_expression: Seq<char>,
    pub last_delivered_at: Option<i64>,
    pub next_delivery_at: i64,
    pub updated_at: i64,
    pub created_at: i64,
}

impl View for Forecast {
    type V = ForecastView;

    open spec fn view(&self) -> ForecastView {
        ForecastView {
            id: self.id,
            chat_id: self.chat_id,
            user_id: self.user_id,
            city_id: self.city_id,
            cron_expression: self.cron_expression@,
            last_delivered_at: self.last_delivered_at,
            next_delivery_at: self.next_delivery_at,
            updated_at: self.updated_at,
            created_at: self.created_at,
        }
    }
}

impl Clone for Forecast {
    fn clone(&self) -> (r: Self)
        ensures
            r == *self,
    {
        Forecast {
            id: self.id,
            chat_id: self.chat_id,
            user_id: self.user_id,
            city_id: self.city_id,
            cron_expression: self.cron_expression.clone(),
            last_delivered_at: self.last_delivered_at,
            next_delivery_at: self.next_delivery_at,
            updated_at: self.updated_at,
            created_at: self.created_at,
        }
    }
}

pub open spec fn forecast_views(rows: Seq<Forecast>) -> Seq<ForecastView> {
    rows.map_values(|f: Forecast| f@)
}

/// The number whose eight bytes, least significant first, are `b`.
pub open spec fn u64_from_le(b: Seq<u8>) -> int
    recommends
        b.len() == 8,
{
    b[0] + b[1] * 0x100 + b[2] * 0x1_0000 + b[3] * 0x100_0000 + b[4] * 0x1_0000_0000 + b[5]
        * 0x100_0000_0000 + b[6] * 0x1_0000_0000_0000 + b[7] * 0x100_0000_0000_0000
}

pub fn as_u64_le(array: &[u8; 8]) -> (r: u64)
    ensures
        r == u64_from_le(array@),
{
    let b0: u64 = array[0] as u64;
    let b1: u64 = array[1] as u64;
    let b2: u64 = array[2] as u64;
    let b3: u64 = array[3] as u64;
    let b4: u64 = array[4] as u64;
    let b5: u64 = array[5] as u64;
    let b6: u64 = array[6] as u64;
    let b7: u64 = array[7] as u64;
    assert(b1 << 8 == b1 * 0x100) by (bit_vector)
        requires
            b1 < 0x100,
    ;
    assert(b2 << 16 == b2 * 0x1_0000) by (bit_vector)
        requires
            b2 < 0x100,
    ;
    assert(b3 << 24 == b3 * 0x100_0000) by (bit_vector)
        requires
            b3 < 0x100,
    ;
    assert(b4 << 32 == b4 * 0x1_0000_0000) by (bit_vector)
        requires
            b4 < 0x100,
    ;
    assert(b5 << 40 == b5 * 0x100_0000_0000) by (bit_vector)
        requires
            b5 < 0x100,
    ;
    assert(b6 << 48 == b6 * 0x1_0000_0000_0000) by (bit_vector)
        requires
            b6 < 0x100,
    ;
    assert(b7 << 56 == b7 * 0x100_0000_0000_0000) by (bit_vector)
        requires
            b7 < 0x100,
    ;
    b0 + (b1 << 8) + (b2 << 16) + (b3 << 24) + (b4 << 32) + (b5 << 40) + (b6 << 48) + (b7 << 56)
}

/// The user id that a stored key of eight bytes stands for; `None` for a
/// key of another length.
pub fn bytes_to_u64(bytes: &[u8]) -> (r: Option<u64>)
    ensures
        r is Some <==> bytes@.len() == 8,
        r is Some ==> r.unwrap() == u64_from_le(bytes@),
{
    if bytes.len() != 8 {
        return None;
    }
    let arr: [u8; 8] = [
        bytes[0],
        bytes[1],
        bytes[2],
        bytes[3],
        bytes[4],
        bytes[5],
        bytes[6],
        bytes[7],
    ];
    Some(as_u64_le(&arr))
}

/// The first moment that a recurrence is asked about: 0001-01-01T00:00:00Z.
pub const MIN_TIMESTAMP: i64 = -62_135_596_800;

/// The last moment that a recurrence is asked about: 9999-12-31T23:59:59Z.
pub const MAX_TIMESTAMP: i64 = 253_402_300_799;

/// The error of `cron::Schedule::from_str`. Nothing is known of what it holds.
#[verifier::external_type_specification]
#[verifier::external_body]
pub struct ExCronError(cron::error::Error);

/// What the `cron` crate makes of an expression and a moment: `None` where
/// `Schedule::from_str` refuses the expression; else the first item of the
/// iterator that `Schedule::after` gives for that moment, as seconds since
/// the epoch, or `Some(None)` where the iterator is empty.
pub uninterp spec fn cron_next_after(expression: Seq<char>, now: int) -> Option<Option<int>>;

/// Calls `cron::Schedule::from_str` on `expression` and, where that parses,
/// `Schedule::after` with the UTC moment `now`, and takes the iterator's
/// first item. Trusted: that the outcome depends on the two arguments alone,
/// and that the calls return for every moment from `MIN_TIMESTAMP` to
/// `MAX_TIMESTAMP`.
#[verifier::external_body]
fn next_after(expression: &str, now: i64) -> (r: Result<Option<i64>, cron::error::Error>)
    requires
        MIN_TIMESTAMP <= now <= MAX_TIMESTAMP,
    ensures
        cron_next_after(expression@, now as int) == match r {
            Ok(Some(t)) => Some(Some(t as int)),
            Ok(None) => Some(None),
            Err(_) => None,
        },
{
    let schedule = Schedule::from_str(expression)?;
    let start: DateTime<Utc> = DateTime::from_timestamp(now, 0).unwrap();
    Ok(schedule.after(&start).next().map(|t| t.timestamp()))
}

/// The next delivery that an outcome of the schedule lookup stands for.
pub open spec fn delivery_of(found: Option<Option<int>>) -> Result<int, BotDbError> {
    match found {
        Some(Some(t)) => Ok(t),
        Some(None) => Err(BotDbError::NoTimestampsError),
        None => Err(BotDbError::CronError),
    }
}

/// What the schedule of `expression` gives as its first occurrence after
/// `now`. A moment outside the years 1 to 9999 has none.
pub open spec fn next_delivery(expression: Seq<char>, now: int) -> Result<int, BotDbError> {
    if MIN_TIMESTAMP <= now <= MAX_TIMESTAMP {
        delivery_of(cron_next_after(expression, now))
    } else {
        Err(BotDbError::NoTimestampsError)
    }
}

/// Turns what the schedule lookup returned into the next delivery or the
/// reason why there is none.
pub fn delivery_from(found: Result<Option<i64>, cron::error::Error>) -> (r: Result<
    i64,
    BotDbError,
>)
    ensures
        r == match found {
            Ok(Some(t)) => Ok::<i64, BotDbError>(t),
            Ok(None) => Err(BotDbError::NoTimestampsError),
            Err(_) => Err(BotDbError::CronError),
        },
{
    match found {
        Ok(Some(t)) => Ok(t),
        Ok(None) => Err(BotDbError::NoTimestampsError),
        Err(_) => Err(BotDbError::CronError),
    }
}

/// When a recurring delivery is next due, seen from `now`.
pub fn calculate_next_delivery(cron_expression: &str, now: i64) -> (r: Result<i64, BotDbError>)
    ensures
        match r {
            Ok(t) => next_delivery(cron_expression@, now as int) == Ok::<int, BotDbError>(
                t as int,
            ),
            Err(e) => next_delivery(cron_expression@, now as int) == Err::<int, BotDbError>(e),
        },
{
    if now < MIN_TIMESTAMP || now > MAX_TIMESTAMP {
        return Err(BotDbError::NoTimestampsError);
    }
    delivery_from(next_after(cron_expression, now))
}

/// The `n`-th of `cities`, counted from 1, as a numbered list shows them.
pub open spec fn city_row<T>(cities: Seq<T>, n: int) -> Result<T, BotDbError> {
    if 1 <= n <= cities.len() {
        Ok(cities[n - 1])
    } else {
        Err(BotDbError::CityNotFoundError)
    }
}

/// Resolves the number that a user picked from the list of `cities`.
pub fn get_city_row(cities: &Vec<City>, n: usize) -> (r: Result<City, BotDbError>)
    ensures
        r == city_row(cities@, n as int),
{
    if n == 0 || n > cities.len() {
        return Err(BotDbError::CityNotFoundError);
    }
    Ok(cities[n - 1].clone())
}

/// The city that a lookup by key found: the one row, where it is exactly one.
pub fn search_city(rows: &Vec<City>) -> (r: Result<City, BotDbError>)
    ensures
        r == if rows@.len() == 1 {
            Ok::<City, BotDbError>(rows@[0])
        } else {
            Err(BotDbError::CityNotFoundError)
        },
{
    if rows.len() == 1 {
        Ok(rows[0].clone())
    } else {
        Err(BotDbError::CityNotFoundError)
    }
}

} // verus!
