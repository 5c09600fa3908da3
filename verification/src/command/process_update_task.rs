//! One turn of the dialog: from a message and the state of its chat to the
//! actions that answer it.

use crate::command::messages;
use crate::command::model::action_views;
use crate::command::model::city_views;
use crate::command::model::Action;
use crate::command::model::Event;
use crate::command::model::Phase;
use crate::command::model::Step;
use crate::command::rules;
use crate::command::rules::CommandView;
use crate::command::rules::ProcessorView;
pub use crate::command::messages::TASK_TYPE;
pub use crate::command::schedule::ScheduleWeatherTask;
use crate::db::get_city_row;
use crate::db::BotDbError;
use crate::db::Chat;
use crate::db::ClientState;
use crate::decimal::parse_int_in;
use crate::decimal::parse_signed;
use crate::decimal::parse_unsigned;
use crate::decimal::push_int;
use crate::decimal::push_nat;
use crate::open_weather_map::weather::City;
use crate::open_weather_map::weather::Weather;
use crate::text::find_only;
use crate::text::from_chars;
use crate::text::has_suffix;
use crate::text::same_text;
use crate::text::to_chars;
use crate::text::trim_bounds;
use crate::BotError;
use crate::Missing;
use vstd::prelude::*;
use vstd::string::*;

verus! {

/// What a message asks for.
#[derive(Debug, PartialEq, Eq)]
pub enum Command {
    Default,
    FindCity,
    SetDefaultCity,
    Start,
    Cancel,
    Schedule,
    UnknownCommand(String),
}

impl View for Command {
    type V = CommandView;

    open spec fn view(&self) -> CommandView {
        match self {
            Command::Default => CommandView::Default,
            Command::FindCity => CommandView::FindCity,
            Command::SetDefaultCity => CommandView::SetDefaultCity,
            Command::Start => CommandView::Start,
            Command::Cancel => CommandView::Cancel,
            Command::Schedule => CommandView::Schedule,
            Command::UnknownCommand(t) => CommandView::UnknownCommand(t@),
        }
    }
}

impl Clone for Command {
    fn clone(&self) -> (r: Self)
        ensures
            r == *self,
    {
        match self {
            Command::Default => Command::Default,
            Command::FindCity => Command::FindCity,
            Command::SetDefaultCity => Command::SetDefaultCity,
            Command::Start => Command::Start,
            Command::Cancel => Command::Cancel,
            Command::Schedule => Command::Schedule,
            Command::UnknownCommand(t) => Command::UnknownCommand(t.clone()),
        }
    }
}

impl Command {
    /// Reads a message as a command. Every message is one: what is no known
    /// command is `UnknownCommand`.
    pub fn from_str(s: &str) -> (r: Result<Command, ()>)
        ensures
            r is Ok,
            r.unwrap()@ == rules::command_of(s@),
    {
        let mut v = to_chars(s);
        let handle = to_chars(messages::BOT_NAME);
        if has_suffix(&v, &handle) {
            v.truncate(v.len() - handle.len());
        }
        let (a, b) = trim_bounds(&v);
        let token = from_chars(&v, a, b);
        let t = token.as_str();
        let command = if same_text(t, messages::CMD_START) {
            Command::Start
        } else if same_text(t, messages::CMD_FIND_CITY) {
            Command::FindCity
        } else if same_text(t, messages::CMD_DEFAULT) {
            Command::Default
        } else if same_text(t, messages::CMD_SET_DEFAULT_CITY) {
            Command::SetDefaultCity
        } else if same_text(t, messages::CMD_CANCEL) {
            Command::Cancel
        } else if same_text(t, messages::CMD_SCHEDULE) {
            Command::Schedule
        } else {
            Command::UnknownCommand(String::from_str(s))
        };
        Ok(command)
    }
}

/// The sender of a message.
#[derive(Debug, PartialEq, Eq)]
pub struct User {
    pub id: u64,
    pub username: Option<String>,
    pub first_name: String,
}

/// A message as the chat service delivers it.
#[derive(Debug, PartialEq, Eq)]
pub struct Message {
    pub message_id: i32,
    pub chat_id: i64,
    pub from: Option<User>,
    pub text: Option<String>,
}

/// What an update carries: a message, or something that the bot ignores.
#[derive(Debug, PartialEq, Eq)]
pub enum UpdateContent {
    Message(Message),
    Other,
}

#[derive(Debug, PartialEq, Eq)]
pub struct Update {
    pub update_id: u32,
    pub content: UpdateContent,
}

/// The sign in front of a handle.
pub const AT: &'static str = "@";

impl User {
    /// The name by which the bot greets this user: the handle with `@` in
    /// front, or the first name where there is no handle.
    pub open spec fn greeting_name(&self) -> Seq<char> {
        match self.username {
            Some(name) => AT@ + name@,
            None => self.first_name@,
        }
    }
}

impl Update {
    /// What this update lacks to open a turn, if anything.
    pub open spec fn missing(&self) -> Option<Missing> {
        match self.content {
            UpdateContent::Other => Some(Missing::Message),
            UpdateContent::Message(m) => if m.text is None {
                Some(Missing::Text)
            } else if m.from is None {
                Some(Missing::Sender)
            } else {
                None
            },
        }
    }

    /// The message that this update carries, where it carries one.
    pub open spec fn message(&self) -> Message {
        self.content->Message_0
    }

    /// The chat and the user that this update comes from, by which the chat
    /// record is found.
    pub fn chat_key(&self) -> (r: Result<(i64, u64), BotError>)
        ensures
            match r {
                Ok(key) => self.missing() is None && key == (
                    self.message().chat_id,
                    self.message().from.unwrap().id,
                ),
                Err(e) => self.missing() is Some && e == BotError::UpdateNotMessage(
                    self.missing().unwrap(),
                ),
            },
    {
        match &self.content {
            UpdateContent::Other => Err(BotError::UpdateNotMessage(Missing::Message)),
            UpdateContent::Message(m) => {
                if m.text.is_none() {
                    return Err(BotError::UpdateNotMessage(Missing::Text));
                }
                match &m.from {
                    None => Err(BotError::UpdateNotMessage(Missing::Sender)),
                    Some(user) => Ok((m.chat_id, user.id)),
                }
            },
        }
    }
}

/// A message together with the record of its chat.
#[derive(Debug, PartialEq, Eq)]
pub struct UpdateProcessor {
    pub text: String,
    pub message_id: i32,
    pub username: String,
    pub command: Command,
    pub chat: Chat,
}

impl View for UpdateProcessor {
    type V = ProcessorView;

    open spec fn view(&self) -> ProcessorView {
        ProcessorView {
            text: self.text@,
            message_id: self.message_id,
            username: self.username@,
            command: self.command@,
            chat: self.chat@,
        }
    }
}

/// A time of day as read from text.
#[derive(Debug, PartialEq, Eq)]
pub struct Time {
    pub hour_text: String,
    pub minute_text: String,
    pub hour: i8,
    pub minutes: i8,
}

impl View for Time {
    type V = rules::TimeOfDay;

    open spec fn view(&self) -> rules::TimeOfDay {
        rules::TimeOfDay {
            hour_text: self.hour_text@,
            minute_text: self.minute_text@,
            hour: self.hour as int,
            minutes: self.minutes as int,
        }
    }
}

pub proof fn lemma_views_push(v: Seq<Action>, a: Action)
    ensures
        action_views(v.push(a)) == action_views(v).push(a@),
{
    assert(action_views(v.push(a)) =~= action_views(v).push(a@));
}

impl UpdateProcessor {
    /// Opens a turn for an update that is a message with a text and a sender.
    pub fn create(update: Update, chat: Chat) -> (r: Result<UpdateProcessor, BotError>)
        ensures
            match r {
                Ok(p) => update.missing() is None && p@ == (ProcessorView {
                    text: update.message().text.unwrap()@,
                    message_id: update.message().message_id,
                    username: update.message().from.unwrap().greeting_name(),
                    command: rules::command_of(update.message().text.unwrap()@),
                    chat: chat@,
                }),
                Err(e) => update.missing() is Some && e == BotError::UpdateNotMessage(
                    update.missing().unwrap(),
                ),
            },
    {
        match update.content {
            UpdateContent::Other => Err(BotError::UpdateNotMessage(Missing::Message)),
            UpdateContent::Message(message) => {
                let text = match message.text {
                    None => {
                        return Err(BotError::UpdateNotMessage(Missing::Text));
                    },
                    Some(text) => text,
                };
                let user = match message.from {
                    None => {
                        return Err(BotError::UpdateNotMessage(Missing::Sender));
                    },
                    Some(user) => user,
                };
                let username = match user.username {
                    Some(name) => {
                        let mut s = String::from_str(AT);
                        s.append(name.as_str());
                        s
                    },
                    None => user.first_name,
                };
                let command = match Command::from_str(text.as_str()) {
                    Ok(c) => c,
                    Err(_) => Command::UnknownCommand(text.clone()),
                };
                Ok(
                    UpdateProcessor {
                        text,
                        message_id: message.message_id,
                        username,
                        command,
                        chat,
                    },
                )
            },
        }
    }

    fn send_message(&self, text: &str) -> (a: Action)
        ensures
            a@ == rules::say(self@, text@),
    {
        let mut s = String::from_str(messages::GREETING_HEAD);
        s.append(self.username.as_str());
        s.append(messages::GREETING_TAIL);
        s.append(text);
        Action::SendMessage(s)
    }

    fn return_to_initial(actions: &mut Vec<Action>)
        ensures
            action_views(final(actions)@) == action_views(old(actions)@)
                + rules::return_to_initial(),
    {
        actions.push(Action::SetBeforeState(ClientState::Initial));
        actions.push(Action::SetState(ClientState::Initial));
        assert(action_views(actions@) =~= action_views(old(actions)@)
            + rules::return_to_initial());
    }

    fn cancel(&self, actions: &mut Vec<Action>, text: &str)
        ensures
            action_views(final(actions)@) == action_views(old(actions)@) + rules::cancel(
                self@,
                text@,
            ),
    {
        Self::return_to_initial(actions);
        let ghost mid = actions@;
        let say = self.send_message(text);
        proof {
            lemma_views_push(mid, say);
        }
        actions.push(say);
        assert(action_views(actions@) =~= action_views(old(actions)@) + rules::cancel(
            self@,
            text@,
        ));
    }

    /// Ends the turn short: the chat goes back to its initial state and the
    /// user is told why.
    fn refuse(&self, text: &str, reason: BotError) -> (s: Step)
        ensures
            s@ == rules::refused(rules::cancel(self@, text@), reason),
    {
        let mut actions: Vec<Action> = Vec::new();
        self.cancel(&mut actions, text);
        assert(action_views(actions@) =~= rules::cancel(self@, text@));
        Step { phase: Phase::Closing, actions, failure: Some(reason) }
    }

    /// The step after a failure that the dialog did not cause: a best effort
    /// to put the chat back to its initial state.
    pub fn revert_state(&self, reason: BotError) -> (s: Step)
        ensures
            s@ == rules::revert(self@, reason),
    {
        let mut actions: Vec<Action> = Vec::new();
        self.cancel(&mut actions, messages::CANCELED);
        assert(action_views(actions@) =~= rules::cancel(self@, messages::CANCELED@));
        Step { phase: Phase::Reverting, actions, failure: Some(reason) }
    }

    fn set_city(&self) -> (actions: Vec<Action>)
        ensures
            action_views(actions@) == rules::set_city(self@),
    {
        let mut actions: Vec<Action> = Vec::new();
        actions.push(Action::SetState(ClientState::FindingCity));
        actions.push(Action::SetBeforeState(ClientState::SettingDefaultCity));
        actions.push(self.send_message(messages::ASK_CITY));
        assert(action_views(actions@) =~= rules::set_city(self@));
        actions
    }

    fn process_initial(&self) -> (s: Step)
        ensures
            s@ == rules::process_initial(self@),
    {
        let mut actions: Vec<Action> = Vec::new();
        match &self.command {
            Command::FindCity => {
                actions.push(Action::SetState(ClientState::FindingCity));
                actions.push(self.send_message(messages::ASK_CITY));
            },
            Command::Start => {
                actions.push(self.send_message(messages::START));
            },
            Command::SetDefaultCity => {
                actions = self.set_city();
            },
            Command::Default => match self.chat.default_city_id {
                Some(id) => {
                    actions.push(Action::FindCityById(id));
                    assert(action_views(actions@) =~= seq![
                        crate::command::model::ActionView::FindCityById(id),
                    ]);
                    return Step { phase: Phase::FindingDefault, actions, failure: None };
                },
                None => {
                    actions = self.set_city();
                    actions.push(self.send_message(messages::SETTING_DEFAULT));
                    proof {
                        lemma_views_push(
                            actions@.drop_last(),
                            actions@.last(),
                        );
                        assert(actions@.drop_last().push(actions@.last()) == actions@);
                    }
                },
            },
            Command::Schedule => {
                actions.push(Action::SetState(ClientState::AwaitingScheduleTime));
                actions.push(self.send_message(messages::ASK_TIME));
            },
            _ => {
                self.cancel(&mut actions, messages::UNKNOWN_COMMAND);
            },
        }
        assert(action_views(actions@) =~= rules::process_initial(self@).actions);
        Step { phase: Phase::Closing, actions, failure: None }
    }
    /// The numbered list of `cities`, under its heading.
    fn city_list(cities: &Vec<City>) -> (text: String)
        ensures
            text@ == messages::FOUND_CITIES@ + rules::city_lines(city_views(cities@)),
    {
        let mut text = String::from_str(messages::FOUND_CITIES);
        let mut i: usize = 0;
        assert(city_views(cities@.take(0)) =~= Seq::empty());
        assert(text@ =~= messages::FOUND_CITIES@ + rules::city_lines(city_views(cities@.take(0))));
        while i < cities.len()
            invariant
                i <= cities.len(),
                text@ == messages::FOUND_CITIES@ + rules::city_lines(
                    city_views(cities@.take(i as int)),
                ),
            decreases cities.len() - i,
        {
            let city = &cities[i];
            let ghost before = text@;
            push_nat(&mut text, (i + 1) as u64);
            text.append(messages::DOT_SPACE);
            text.append(city.name.as_str());
            text.append(messages::COMMA);
            text.append(city.country.as_str());
            if !city.state.as_str().is_empty() {
                text.append(messages::COMMA);
                text.append(city.state.as_str());
            }
            text.append(messages::NEWLINE);
            proof {
                let done = city_views(cities@.take(i as int));
                let next = city_views(cities@.take(i + 1));
                assert(next.drop_last() =~= done);
                assert(next.last() == city@);
                assert(text@ =~= before + rules::city_line(i + 1, city@));
                assert(text@ =~= messages::FOUND_CITIES@ + rules::city_lines(next));
            }
            i += 1;
        }
        proof {
            assert(cities@.take(i as int) == cities@);
        }
        text
    }

    /// Answers the list of cities that match the message: shows it, numbered,
    /// where it holds 1 to 30 cities, and remembers the pattern.
    pub fn find_city(&self, cities: &Vec<City>) -> (s: Step)
        ensures
            s@ == rules::find_city(self@, city_views(cities@)),
    {
        let mut actions: Vec<Action> = Vec::new();
        if cities.len() == 0 || cities.len() > 30 {
            let mut text = String::from_str(messages::NOT_FOUND_HEAD);
            text.append(self.text.as_str());
            text.append(messages::NOT_FOUND_TAIL);
            actions.push(self.send_message(text.as_str()));
            Self::return_to_initial(&mut actions);
            assert(action_views(actions@) =~= rules::find_city(
                self@,
                city_views(cities@),
            ).actions);
            return Step {
                phase: Phase::Closing,
                actions,
                failure: Some(BotError::DbError(BotDbError::CityNotFoundError)),
            };
        }
        let list = Self::city_list(cities);
        actions.push(self.send_message(list.as_str()));
        actions.push(Action::SetSelected(self.text.clone()));
        let next = if self.picks_default() {
            ClientState::PickingDefaultCityNumber
        } else {
            ClientState::PickingFoundCityNumber
        };
        actions.push(Action::SetState(next));
        assert(action_views(actions@) =~= rules::find_city(self@, city_views(cities@)).actions);
        Step { phase: Phase::Closing, actions, failure: None }
    }

    fn picks_default(&self) -> (r: bool)
        ensures
            r == rules::picks_default(self@.chat),
    {
        self.chat.before_state == ClientState::SettingDefaultCity
    }

    /// Reads the message as a number of the list and asks for the list again.
    fn process_number(&self) -> (s: Step)
        ensures
            s@ == rules::process_number(self@),
    {
        let v = to_chars(self.text.as_str());
        match parse_unsigned(&v) {
            None => self.refuse(messages::NOT_NUMBER, BotError::InvalidInput),
            Some(n) => match &self.chat.selected {
                None => self.refuse(
                    messages::CANCELED,
                    BotError::DbError(BotDbError::CityNotFoundError),
                ),
                Some(pattern) => {
                    let mut actions: Vec<Action> = Vec::new();
                    actions.push(Action::FindCitiesByPattern(pattern.clone()));
                    assert(action_views(actions@) =~= rules::process_number(self@).actions);
                    Step { phase: Phase::PickingCity(n), actions, failure: None }
                },
            },
        }
    }

    /// Resolves the number `n` against the list that it was picked from:
    /// the city becomes the default city, or the weather there is asked for.
    pub fn pick_city(&self, n: u64, cities: &Vec<City>) -> (s: Step)
        ensures
            s@ == rules::pick_city(self@, n as int, city_views(cities@)),
    {
        if n == 0 || n > cities.len() as u64 {
            return self.refuse(
                messages::CANCELED,
                BotError::DbError(BotDbError::CityNotFoundError),
            );
        }
        let city = match get_city_row(cities, n as usize) {
            Ok(city) => city,
            Err(e) => {
                return self.refuse(messages::CANCELED, BotError::DbError(e));
            },
        };
        assert(city@ == city_views(cities@)[n - 1]);
        let mut actions: Vec<Action> = Vec::new();
        Self::return_to_initial(&mut actions);
        if self.picks_default() {
            actions.push(Action::SetDefaultCity(city.id));
            actions.push(self.send_message(messages::CITY_UPDATED));
            assert(action_views(actions@) =~= rules::pick_city(
                self@,
                n as int,
                city_views(cities@),
            ).actions);
            Step { phase: Phase::Closing, actions, failure: None }
        } else {
            actions.push(Action::FetchWeather(city.clone()));
            assert(action_views(actions@) =~= rules::pick_city(
                self@,
                n as int,
                city_views(cities@),
            ).actions);
            Step { phase: Phase::Reporting(city), actions, failure: None }
        }
    }

    /// Answers the lookup of the default city: asks for the weather there.
    fn default_city(&self, found: Option<City>) -> (s: Step)
        ensures
            s@ == rules::default_city(
                self@,
                match found {
                    Some(c) => Some(c@),
                    None => None,
                },
            ),
    {
        match found {
            Some(city) => {
                let mut actions: Vec<Action> = Vec::new();
                actions.push(Action::FetchWeather(city.clone()));
                assert(action_views(actions@) =~= seq![
                    crate::command::model::ActionView::FetchWeather(city@),
                ]);
                Step { phase: Phase::Reporting(city), actions, failure: None }
            },
            None => self.refuse(
                messages::CANCELED,
                BotError::DbError(BotDbError::CityNotFoundError),
            ),
        }
    }

    /// Answers a reading of the weather at `city` with the report.
    pub fn get_weather(&self, city: &City, weather: &Weather) -> (s: Step)
        ensures
            s@ == rules::report(self@, city@, weather@),
    {
        if weather.weather.len() == 0 {
            return self.revert_state(BotError::WeatherApiError);
        }
        let mut text = place(city);
        let reading = weather.to_text();
        text.append(reading.as_str());
        let mut actions: Vec<Action> = Vec::new();
        actions.push(self.send_message(text.as_str()));
        assert(action_views(actions@) =~= rules::report(self@, city@, weather@).actions);
        Step { phase: Phase::Closing, actions, failure: None }
    }
}

/// What `parse_time` gives for a text that is no number in its range.
pub const NO_TIME: i32 = -1;

/// The hour or the minutes that `text` writes, or `NO_TIME`.
pub open spec fn spec_parse_time(text: Seq<char>, max_range: int, min_range: int) -> int {
    match parse_int_in(text, min_range, max_range) {
        Some(v) => v,
        None => NO_TIME as int,
    }
}

/// Reads an hour or the minutes of an hour, a number in
/// `min_range..=max_range`; `NO_TIME` where `text` is none.
pub fn parse_time(text: &str, max_range: i32, min_range: i32) -> (r: i32)
    ensures
        r == spec_parse_time(text@, max_range as int, min_range as int),
{
    let v = to_chars(text);
    match parse_signed(&v, min_range as i64, max_range as i64) {
        Some(number) => number as i32,
        None => NO_TIME,
    }
}

/// Reads `v[from..to]` as "hour:minutes".
pub fn read_time(v: &Vec<char>, from: usize, to: usize) -> (r: Option<Time>)
    requires
        from <= to <= v.len(),
    ensures
        match r {
            Some(t) => rules::time_of(v@.subrange(from as int, to as int)) == Some(t@),
            None => rules::time_of(v@.subrange(from as int, to as int)) is None,
        },
{
    let colon = match find_only(v, from, to, ':') {
        None => {
            return None;
        },
        Some(i) => i,
    };
    let hour_text = from_chars(v, from, colon);
    let minute_text = from_chars(v, colon + 1, to);
    let hour = parse_time(hour_text.as_str(), 23, 0);
    if hour == NO_TIME {
        return None;
    }
    let minutes = parse_time(minute_text.as_str(), 59, 0);
    if minutes == NO_TIME {
        return None;
    }
    Some(Time { hour_text, minute_text, hour: hour as i8, minutes: minutes as i8 })
}

impl UpdateProcessor {
    /// Reads the message as a time of day and keeps it until the offset is known.
    fn process_time(&self) -> (s: Step)
        ensures
            s@ == rules::process_time(self@),
    {
        if self.chat.default_city_id.is_none() {
            return self.refuse(messages::NEEDS_DEFAULT_CITY, BotError::InvalidInput);
        }
        let v = to_chars(self.text.as_str());
        let (a, b) = trim_bounds(&v);
        let time = match read_time(&v, a, b) {
            None => {
                return self.refuse(messages::NOT_TIME, BotError::InvalidInput);
            },
            Some(t) => t,
        };
        let mut selected = String::new();
        push_int(&mut selected, time.hour as i64);
        selected.append(messages::COLON);
        push_int(&mut selected, time.minutes as i64);
        assert(selected@ =~= rules::time_text(time.hour as int, time.minutes as int));
        let mut actions: Vec<Action> = Vec::new();
        actions.push(Action::SetSelected(selected));
        actions.push(Action::SetState(ClientState::AwaitingScheduleOffset));
        actions.push(self.send_message(messages::ASK_OFFSET));
        assert(action_views(actions@) =~= rules::process_time(self@).actions);
        Step { phase: Phase::Closing, actions, failure: None }
    }

    /// Reads the message as an offset from UTC, schedules the daily delivery
    /// at the time of day that the chat record keeps, and records the offset.
    fn process_offset(&self) -> (s: Step)
        ensures
            s@ == rules::process_offset(self@),
    {
        let v = to_chars(self.text.as_str());
        let offset: i8 = match parse_signed(&v, -11, 12) {
            None => {
                return self.refuse(messages::NOT_VALID_OFFSET, BotError::InvalidInput);
            },
            Some(number) => number as i8,
        };
        let stored = match &self.chat.selected {
            None => None,
            Some(text) => {
                let w = to_chars(text.as_str());
                proof {
                    assert(w@.subrange(0, w@.len() as int) == w@);
                }
                read_time(&w, 0, w.len())
            },
        };
        let time = match stored {
            None => {
                return self.refuse(messages::NOT_TIME, BotError::InvalidInput);
            },
            Some(t) => t,
        };
        let city_id = match self.chat.default_city_id {
            None => {
                return self.refuse(messages::NEEDS_DEFAULT_CITY, BotError::InvalidInput);
            },
            Some(id) => id,
        };
        let task = ScheduleWeatherTask {
            user_hour: time.hour,
            minutes: time.minutes,
            offset,
            username: self.username.clone(),
            chat_id: self.chat.id,
            default_city_id: city_id,
        };
        let mut text = String::from_str(messages::SCHEDULED_HEAD);
        text.append(time.hour_text.as_str());
        text.append(messages::COLON);
        if time.minutes < 10 {
            text.append(messages::ZERO);
        }
        text.append(time.minute_text.as_str());
        text.append(messages::SCHEDULED_UTC);
        push_int(&mut text, offset as i64);
        assert(text@ =~= rules::scheduled_text(time@, offset as int));
        let mut actions: Vec<Action> = Vec::new();
        actions.push(Action::Schedule(task.recurring(self.chat.user_id)));
        actions.push(Action::SetOffset(offset));
        self.cancel(&mut actions, text.as_str());
        assert(action_views(actions@) =~= rules::process_offset(self@).actions);
        Step { phase: Phase::Closing, actions, failure: None }
    }

    /// What the message leads to, by the state of its chat.
    fn dispatch(&self) -> (s: Step)
        ensures
            s@ == rules::dispatch(self@),
    {
        if let Command::Cancel = &self.command {
            let mut actions: Vec<Action> = Vec::new();
            self.cancel(&mut actions, messages::CANCELED);
            assert(action_views(actions@) =~= rules::cancel(self@, messages::CANCELED@));
            return Step { phase: Phase::Closing, actions, failure: None };
        }
        match self.chat.state {
            ClientState::Initial => self.process_initial(),
            ClientState::FindingCity | ClientState::SettingDefaultCity => {
                let mut actions: Vec<Action> = Vec::new();
                actions.push(Action::FindCitiesByPattern(self.text.clone()));
                assert(action_views(actions@) =~= rules::dispatch(self@).actions);
                Step { phase: Phase::ListingCities, actions, failure: None }
            },
            ClientState::PickingFoundCityNumber
            | ClientState::PickingDefaultCityNumber => self.process_number(),
            ClientState::AwaitingScheduleTime => self.process_time(),
            ClientState::AwaitingScheduleOffset => self.process_offset(),
        }
    }

    /// The first step of a turn.
    fn begin(&self) -> (s: Step)
        ensures
            s@ == rules::begin(self@),
    {
        let next = self.dispatch();
        let mut actions: Vec<Action> = Vec::new();
        actions.push(Action::SendTyping);
        let mut rest = next.actions;
        actions.append(&mut rest);
        assert(action_views(actions@) =~= rules::begin(self@).actions);
        Step { phase: next.phase, actions, failure: next.failure }
    }

    /// The step that does nothing more.
    fn over(failure: Option<BotError>) -> (s: Step)
        ensures
            s@ == rules::over(failure),
    {
        let actions: Vec<Action> = Vec::new();
        assert(action_views(actions@) =~= Seq::empty());
        Step { phase: Phase::Finished, actions, failure }
    }

    /// One step of the turn: what to do upon `event`, which arrived while the
    /// turn stood in `phase`. A turn starts with `Phase::Ready` and
    /// `Event::Begin`. The actions of the step are performed in order, up to
    /// the first whose failure counts (`Action::recovery`); `Phase::next` of
    /// the step's phase then says how the turn goes on.
    pub fn process(&self, phase: Phase, event: Event) -> (s: Step)
        ensures
            s@ == rules::step(self@, phase@, event@),
    {
        match (phase, event) {
            (Phase::Finished, _) => Self::over(None),
            (Phase::Reverting, Event::Failed(e)) => Self::over(Some(e)),
            (Phase::Reverting, _) => Self::over(None),
            (_, Event::Failed(e)) => self.revert_state(e),
            (Phase::Closing, _) => Self::over(None),
            (Phase::Ready, Event::Begin) => self.begin(),
            (Phase::ListingCities, Event::Cities(cities)) => self.find_city(&cities),
            (Phase::PickingCity(n), Event::Cities(cities)) => self.pick_city(n, &cities),
            (Phase::FindingDefault, Event::City(found)) => self.default_city(found),
            (Phase::Reporting(city), Event::Weather(w)) => self.get_weather(&city, &w),
            _ => self.revert_state(BotError::InvalidInput),
        }
    }
}

/// The place that a report is about: name, country and coordinates.
pub fn place(city: &City) -> (text: String)
    ensures
        text@ == rules::place_text(city@),
{
    let mut text = city.name.clone();
    text.append(messages::COMMA);
    text.append(city.country.as_str());
    text.append(messages::LAT);
    text.append(city.coord.lat.as_str());
    text.append(messages::LON);
    text.append(city.coord.lon.as_str());
    text.append(messages::NEWLINE);
    text
}

impl Weather {
    /// The reading as the user sees it.
    pub fn to_text(&self) -> (text: String)
        requires
            self.weather@.len() > 0,
        ensures
            text@ == rules::weather_text(self@.description.unwrap(), self@),
    {
        let mut text = String::from_str(messages::WEATHER_LABEL);
        text.append(self.weather[0].description.as_str());
        text.append(messages::MEAN_LABEL);
        text.append(self.main.temp.as_str());
        text.append(messages::MINIMUM_LABEL);
        text.append(self.main.temp_min.as_str());
        text.append(messages::MAXIMUM_LABEL);
        text.append(self.main.temp_max.as_str());
        text.append(messages::PRESSURE_LABEL);
        push_nat(&mut text, self.main.pressure as u64);
        text.append(messages::HUMIDITY_LABEL);
        push_nat(&mut text, self.main.humidity as u64);
        text.append(messages::PERCENT);
        text
    }
}

} // verus!
