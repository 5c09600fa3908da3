//! The rules of the dialog, as functions from what is known to what is done.

use crate::command::messages;
use crate::command::model::ActionView;
use crate::command::model::EventView;
use crate::command::model::PhaseView;
use crate::command::model::StepView;
use crate::command::schedule::cron_pattern;
use crate::command::schedule::spec_utc_hour;
use crate::db::city_row;
use crate::db::BotDbError;
use crate::db::ChatView;
use crate::db::ClientState;
use crate::decimal::int_to_decimal;
use crate::decimal::parse_int_in;
use crate::decimal::parse_nat_upto;
use crate::deliver::ScheduleWeatherTaskView;
use crate::open_weather_map::weather::CityView;
use crate::open_weather_map::weather::WeatherView;
use crate::text::split_pair;
use crate::text::strip_suffix;
use crate::text::trim;
use crate::BotError;
use vstd::prelude::*;

verus! {

pub enum CommandView {
    Default,
    FindCity,
    SetDefaultCity,
    Start,
    Cancel,
    Schedule,
    UnknownCommand(Seq<char>),
}

/// The command that a message is: the bot's handle at its end and the blanks
/// around it do not count. A message that is no command is kept as it came.
pub open spec fn command_of(message: Seq<char>) -> CommandView {
    let token = trim(strip_suffix(message, messages::BOT_NAME@));
    if token == messages::CMD_START@ {
        CommandView::Start
    } else if token == messages::CMD_FIND_CITY@ {
        CommandView::FindCity
    } else if token == messages::CMD_DEFAULT@ {
        CommandView::Default
    } else if token == messages::CMD_SET_DEFAULT_CITY@ {
        CommandView::SetDefaultCity
    } else if token == messages::CMD_CANCEL@ {
        CommandView::Cancel
    } else if token == messages::CMD_SCHEDULE@ {
        CommandView::Schedule
    } else {
        CommandView::UnknownCommand(message)
    }
}

/// A message and the chat that it came from.
pub struct ProcessorView {
    pub text: Seq<char>,
    pub message_id: i32,
    pub username: Seq<char>,
    pub command: CommandView,
    pub chat: ChatView,
}

/// Every reply opens with a greeting by name.
pub open spec fn greet(username: Seq<char>, text: Seq<char>) -> Seq<char> {
    messages::GREETING_HEAD@ + username + messages::GREETING_TAIL@ + text
}

pub open spec fn say(p: ProcessorView, text: Seq<char>) -> ActionView {
    ActionView::SendMessage(greet(p.username, text))
}

pub open spec fn return_to_initial() -> Seq<ActionView> {
    seq![
        ActionView::SetBeforeState(ClientState::Initial),
        ActionView::SetState(ClientState::Initial),
    ]
}

/// Put the chat back to its initial state and say why.
pub open spec fn cancel(p: ProcessorView, text: Seq<char>) -> Seq<ActionView> {
    return_to_initial().push(say(p, text))
}

/// A step that ends the turn.
pub open spec fn finished(actions: Seq<ActionView>) -> StepView {
    StepView { phase: PhaseView::Closing, actions, failure: None }
}

/// A step that ends the turn short, for a reason that the user was told.
pub open spec fn refused(actions: Seq<ActionView>, reason: BotError) -> StepView {
    StepView { phase: PhaseView::Closing, actions, failure: Some(reason) }
}

/// The step that does nothing more.
pub open spec fn over(failure: Option<BotError>) -> StepView {
    StepView { phase: PhaseView::Finished, actions: Seq::empty(), failure }
}

/// A step that asks a question and waits in `phase` for the answer.
pub open spec fn asking(actions: Seq<ActionView>, phase: PhaseView) -> StepView {
    StepView { phase, actions, failure: None }
}

/// The step after a failure that the dialog did not cause.
pub open spec fn revert(p: ProcessorView, reason: BotError) -> StepView {
    StepView {
        phase: PhaseView::Reverting,
        actions: cancel(p, messages::CANCELED@),
        failure: Some(reason),
    }
}

pub open spec fn set_city(p: ProcessorView) -> Seq<ActionView> {
    seq![
        ActionView::SetState(ClientState::FindingCity),
        ActionView::SetBeforeState(ClientState::SettingDefaultCity),
        say(p, messages::ASK_CITY@),
    ]
}

pub open spec fn process_initial(p: ProcessorView) -> StepView {
    match p.command {
        CommandView::FindCity => finished(
            seq![ActionView::SetState(ClientState::FindingCity), say(p, messages::ASK_CITY@)],
        ),
        CommandView::Start => finished(seq![say(p, messages::START@)]),
        CommandView::SetDefaultCity => finished(set_city(p)),
        CommandView::Default => match p.chat.default_city_id {
            Some(id) => asking(seq![ActionView::FindCityById(id)], PhaseView::FindingDefault),
            None => finished(set_city(p).push(say(p, messages::SETTING_DEFAULT@))),
        },
        CommandView::Schedule => finished(
            seq![
                ActionView::SetState(ClientState::AwaitingScheduleTime),
                say(p, messages::ASK_TIME@),
            ],
        ),
        _ => finished(cancel(p, messages::UNKNOWN_COMMAND@)),
    }
}

/// Whether the city that is being picked becomes the default city, rather
/// than the subject of a report: the flow that the choice belongs to says so.
pub open spec fn picks_default(chat: ChatView) -> bool {
    chat.before_state == ClientState::SettingDefaultCity
}

/// One line of the numbered list: "i. name,country" and, where the city has
/// a region, ",region".
pub open spec fn city_line(number: int, city: CityView) -> Seq<char> {
    let head = int_to_decimal(number) + messages::DOT_SPACE@ + city.name + messages::COMMA@
        + city.country;
    if city.state.len() == 0 {
        head + messages::NEWLINE@
    } else {
        head + messages::COMMA@ + city.state + messages::NEWLINE@
    }
}

/// The lines of the numbered list, numbered from 1.
pub open spec fn city_lines(cities: Seq<CityView>) -> Seq<char>
    decreases cities.len(),
{
    if cities.len() == 0 {
        Seq::<char>::empty()
    } else {
        city_lines(cities.drop_last()) + city_line(cities.len() as int, cities.last())
    }
}

pub open spec fn not_found_text(pattern: Seq<char>) -> Seq<char> {
    messages::NOT_FOUND_HEAD@ + pattern + messages::NOT_FOUND_TAIL@
}

/// The most candidates that a list shows.
pub open spec fn max_candidates() -> int {
    30
}

/// What follows the list of cities that match the message.
pub open spec fn find_city(p: ProcessorView, cities: Seq<CityView>) -> StepView {
    if cities.len() == 0 || cities.len() > max_candidates() {
        refused(
            seq![say(p, not_found_text(p.text))] + return_to_initial(),
            BotError::DbError(BotDbError::CityNotFoundError),
        )
    } else {
        finished(
            seq![
                say(p, messages::FOUND_CITIES@ + city_lines(cities)),
                ActionView::SetSelected(p.text),
                ActionView::SetState(
                    if picks_default(p.chat) {
                        ClientState::PickingDefaultCityNumber
                    } else {
                        ClientState::PickingFoundCityNumber
                    },
                ),
            ],
        )
    }
}

/// What follows a message that should be a number of the list.
pub open spec fn process_number(p: ProcessorView) -> StepView {
    match parse_nat_upto(p.text, u64::MAX as int) {
        None => refused(cancel(p, messages::NOT_NUMBER@), BotError::InvalidInput),
        Some(n) => match p.chat.selected {
            None => refused(
                cancel(p, messages::CANCELED@),
                BotError::DbError(BotDbError::CityNotFoundError),
            ),
            Some(pattern) => asking(
                seq![ActionView::FindCitiesByPattern(pattern)],
                PhaseView::PickingCity(n as u64),
            ),
        },
    }
}

/// What follows the list from which number `n` was picked.
pub open spec fn pick_city(p: ProcessorView, n: int, cities: Seq<CityView>) -> StepView {
    match city_row(cities, n) {
        Err(e) => refused(cancel(p, messages::CANCELED@), BotError::DbError(e)),
        Ok(city) => if picks_default(p.chat) {
            finished(
                return_to_initial() + seq![
                    ActionView::SetDefaultCity(city.id),
                    say(p, messages::CITY_UPDATED@),
                ],
            )
        } else {
            asking(
                return_to_initial().push(ActionView::FetchWeather(city)),
                PhaseView::Reporting(city),
            )
        },
    }
}

/// What follows the lookup of the default city.
pub open spec fn default_city(p: ProcessorView, found: Option<CityView>) -> StepView {
    match found {
        Some(city) => asking(seq![ActionView::FetchWeather(city)], PhaseView::Reporting(city)),
        None => refused(
            cancel(p, messages::CANCELED@),
            BotError::DbError(BotDbError::CityNotFoundError),
        ),
    }
}

/// A reading of the weather as the user sees it.
pub open spec fn weather_text(description: Seq<char>, w: WeatherView) -> Seq<char> {
    messages::WEATHER_LABEL@ + description + messages::MEAN_LABEL@ + w.temp
        + messages::MINIMUM_LABEL@ + w.temp_min + messages::MAXIMUM_LABEL@ + w.temp_max
        + messages::PRESSURE_LABEL@ + int_to_decimal(w.pressure as int)
        + messages::HUMIDITY_LABEL@ + int_to_decimal(w.humidity as int) + messages::PERCENT@
}

/// The place that a report is about.
pub open spec fn place_text(city: CityView) -> Seq<char> {
    city.name + messages::COMMA@ + city.country + messages::LAT@ + city.coord.lat + messages::LON@
        + city.coord.lon + messages::NEWLINE@
}

/// What follows a reading of the weather at `city`.
pub open spec fn report(p: ProcessorView, city: CityView, w: WeatherView) -> StepView {
    match w.description {
        Some(d) => finished(seq![say(p, place_text(city) + weather_text(d, w))]),
        None => revert(p, BotError::WeatherApiError),
    }
}

/// A time of day in text: hour and minute as written, and their values.
pub struct TimeOfDay {
    pub hour_text: Seq<char>,
    pub minute_text: Seq<char>,
    pub hour: int,
    pub minutes: int,
}

/// Reads "hour:minutes", the hour in 0..=23 and the minutes in 0..=59.
pub open spec fn time_of(text: Seq<char>) -> Option<TimeOfDay> {
    match split_pair(text, ':') {
        None => None,
        Some((a, b)) => match (parse_int_in(a, 0, 23), parse_int_in(b, 0, 59)) {
            (Some(h), Some(m)) => Some(
                TimeOfDay { hour_text: a, minute_text: b, hour: h, minutes: m },
            ),
            _ => None,
        },
    }
}

/// A time of day as the chat record keeps it until the offset is known.
pub open spec fn time_text(hour: int, minutes: int) -> Seq<char> {
    int_to_decimal(hour) + messages::COLON@ + int_to_decimal(minutes)
}

/// What follows a message that should be a time of day.
pub open spec fn process_time(p: ProcessorView) -> StepView {
    if p.chat.default_city_id is None {
        refused(cancel(p, messages::NEEDS_DEFAULT_CITY@), BotError::InvalidInput)
    } else {
        match time_of(trim(p.text)) {
            None => refused(cancel(p, messages::NOT_TIME@), BotError::InvalidInput),
            Some(t) => finished(
                seq![
                    ActionView::SetSelected(time_text(t.hour, t.minutes)),
                    ActionView::SetState(ClientState::AwaitingScheduleOffset),
                    say(p, messages::ASK_OFFSET@),
                ],
            ),
        }
    }
}

/// The confirmation names the local time, minutes in two digits, and the offset.
pub open spec fn scheduled_text(t: TimeOfDay, offset: int) -> Seq<char> {
    let minutes = if t.minutes < 10 {
        messages::ZERO@ + t.minute_text
    } else {
        t.minute_text
    };
    messages::SCHEDULED_HEAD@ + t.hour_text + messages::COLON@ + minutes + messages::SCHEDULED_UTC@
        + int_to_decimal(offset)
}

/// The time of day that the chat record keeps.
pub open spec fn stored_time(chat: ChatView) -> Option<TimeOfDay> {
    match chat.selected {
        Some(s) => time_of(s),
        None => None,
    }
}

/// What follows a message that should be an offset from UTC.
pub open spec fn process_offset(p: ProcessorView) -> StepView {
    match parse_int_in(p.text, -11, 12) {
        None => refused(cancel(p, messages::NOT_VALID_OFFSET@), BotError::InvalidInput),
        Some(offset) => match stored_time(p.chat) {
            None => refused(cancel(p, messages::NOT_TIME@), BotError::InvalidInput),
            Some(t) => match p.chat.default_city_id {
                None => refused(cancel(p, messages::NEEDS_DEFAULT_CITY@), BotError::InvalidInput),
                Some(city_id) => finished(
                    seq![
                        ActionView::Schedule(
                            ScheduleWeatherTaskView {
                                cron_expression: cron_pattern(
                                    t.minutes,
                                    spec_utc_hour(t.hour, offset),
                                ),
                                chat_id: p.chat.id,
                                user_id: p.chat.user_id,
                                city_id,
                            },
                        ),
                        ActionView::SetOffset(offset as i8),
                    ] + cancel(p, scheduled_text(t, offset)),
                ),
            },
        },
    }
}

/// What a message leads to, by the state of its chat.
pub open spec fn dispatch(p: ProcessorView) -> StepView {
    if p.command is Cancel {
        finished(cancel(p, messages::CANCELED@))
    } else {
        match p.chat.state {
            ClientState::Initial => process_initial(p),
            ClientState::FindingCity | ClientState::SettingDefaultCity => asking(
                seq![ActionView::FindCitiesByPattern(p.text)],
                PhaseView::ListingCities,
            ),
            ClientState::PickingFoundCityNumber
            | ClientState::PickingDefaultCityNumber => process_number(p),
            ClientState::AwaitingScheduleTime => process_time(p),
            ClientState::AwaitingScheduleOffset => process_offset(p),
        }
    }
}

/// The first step of a turn: the typing indicator, then what the message
/// leads to.
pub open spec fn begin(p: ProcessorView) -> StepView {
    let s = dispatch(p);
    StepView { actions: seq![ActionView::SendTyping] + s.actions, ..s }
}

/// The step that an event leads to in a phase of a turn. A failure leads to
/// one attempt to put the chat back, whatever the phase; a failure of that
/// attempt ends the turn. An event that does not answer the phase counts as
/// a failure.
pub open spec fn step(p: ProcessorView, phase: PhaseView, event: EventView) -> StepView {
    match (phase, event) {
        (PhaseView::Finished, _) => over(None),
        (PhaseView::Reverting, EventView::Failed(e)) => over(Some(e)),
        (PhaseView::Reverting, _) => over(None),
        (_, EventView::Failed(e)) => revert(p, e),
        (PhaseView::Closing, _) => over(None),
        (PhaseView::Ready, EventView::Begin) => begin(p),
        (PhaseView::ListingCities, EventView::Cities(cities)) => find_city(p, cities),
        (PhaseView::PickingCity(n), EventView::Cities(cities)) => pick_city(p, n as int, cities),
        (PhaseView::FindingDefault, EventView::City(found)) => default_city(p, found),
        (PhaseView::Reporting(city), EventView::Weather(w)) => report(p, city, w),
        _ => revert(p, BotError::InvalidInput),
    }
}

} // verus!
