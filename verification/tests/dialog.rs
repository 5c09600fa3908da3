use weather_bot_rust::command::model::{
    Action, Event, Next, Outcome, Phase, Recovery, Step,
};
use weather_bot_rust::command::process_update_task::{
    Command, Message, Update, UpdateContent, UpdateProcessor, User,
};
use weather_bot_rust::db::{BotDbError, Chat, ClientState};
use weather_bot_rust::deliver::ScheduleWeatherTask;
use weather_bot_rust::open_weather_map::weather::{
    City, Clouds, Coord, Main, Weather, WeatherInfo, Wind,
};
use weather_bot_rust::{BotError, ErrorKind, Missing};

const STATES: [ClientState; 7] = [
    ClientState::Initial,
    ClientState::FindingCity,
    ClientState::PickingFoundCityNumber,
    ClientState::SettingDefaultCity,
    ClientState::PickingDefaultCityNumber,
    ClientState::AwaitingScheduleTime,
    ClientState::AwaitingScheduleOffset,
];

fn city(id: i32, name: &str, country: &str, state: &str) -> City {
    City {
        id,
        name: name.to_string(),
        state: state.to_string(),
        country: country.to_string(),
        coord: Coord { lon: "-3.70256".to_string(), lat: "40.4165".to_string() },
    }
}

fn madrids() -> Vec<City> {
    vec![city(3117735, "Madrid", "ES", ""), city(5059429, "Madrid", "US", "NY")]
}

fn sunny() -> Weather {
    Weather {
        coord: Coord { lon: "-3.70256".to_string(), lat: "40.4165".to_string() },
        weather: vec![WeatherInfo {
            id: 800,
            main: "Clear".to_string(),
            description: "clear sky".to_string(),
            icon: "01d".to_string(),
        }],
        base: "stations".to_string(),
        main: Main {
            temp: "21.5".to_string(),
            feels_like: "21".to_string(),
            temp_min: "19.25".to_string(),
            temp_max: "23".to_string(),
            pressure: 1015,
            humidity: 40,
        },
        visibility: 10000,
        wind: Wind { speed: "3.6".to_string(), deg: 200 },
        clouds: Clouds { all: 0 },
        dt: 1_704_142_800,
        timezone: 3600,
        id: 3117735,
        name: "Madrid".to_string(),
        cod: 200,
    }
}

fn update(text: &str) -> Update {
    Update {
        update_id: 1,
        content: UpdateContent::Message(Message {
            message_id: 77,
            chat_id: 42,
            from: Some(User {
                id: 99,
                username: Some("ada".to_string()),
                first_name: "Ada".to_string(),
            }),
            text: Some(text.to_string()),
        }),
    }
}

/// What one turn did, as the services saw it.
struct Turn {
    sent: Vec<String>,
    scheduled: Vec<ScheduleWeatherTask>,
    patterns: Vec<String>,
    failure: Option<BotError>,
    handed_on: Option<BotError>,
    typing: usize,
}

fn copy_of(w: &Weather) -> Weather {
    Weather {
        coord: w.coord.clone(),
        weather: w.weather.clone(),
        base: w.base.clone(),
        main: Main {
            temp: w.main.temp.clone(),
            feels_like: w.main.feels_like.clone(),
            temp_min: w.main.temp_min.clone(),
            temp_max: w.main.temp_max.clone(),
            pressure: w.main.pressure,
            humidity: w.main.humidity,
        },
        visibility: w.visibility,
        wind: Wind { speed: w.wind.speed.clone(), deg: w.wind.deg },
        clouds: w.clouds,
        dt: w.dt,
        timezone: w.timezone,
        id: w.id,
        name: w.name.clone(),
        cod: w.cod,
    }
}

/// Plays the services: a chat store in memory, a city directory that always
/// answers `cities`, and a weather service that answers `weather`.
fn turn(chat: &mut Chat, text: &str, cities: &[City], weather: Option<Weather>) -> Turn {
    turn_with(chat, text, cities, weather, |_| None)
}

/// As `turn`, with services of which `broken` says which action fails, and
/// how.
fn turn_with(
    chat: &mut Chat,
    text: &str,
    cities: &[City],
    weather: Option<Weather>,
    broken: fn(&Action) -> Option<BotError>,
) -> Turn {
    let processor = UpdateProcessor::create(update(text), chat.clone()).unwrap();
    let mut out = Turn {
        sent: vec![],
        scheduled: vec![],
        patterns: vec![],
        failure: None,
        handed_on: None,
        typing: 0,
    };
    let mut step: Step = processor.process(Phase::Ready, Event::Begin);
    for _ in 0..10 {
        if step.failure.is_some() {
            out.failure = step.failure;
        }
        let mut outcome = Outcome::Performed(None);
        for action in &step.actions {
            let result: Result<Option<Event>, BotError> = match broken(action) {
                Some(reason) => Err(reason),
                None => match action {
                    Action::SendTyping => {
                        out.typing += 1;
                        Ok(None)
                    }
                    Action::SendMessage(t) => {
                        out.sent.push(t.clone());
                        Ok(None)
                    }
                    Action::Schedule(job) => {
                        out.scheduled.push(job.clone());
                        Ok(None)
                    }
                    Action::FindCitiesByPattern(p) => {
                        out.patterns.push(p.clone());
                        Ok(Some(Event::Cities(cities.to_vec())))
                    }
                    Action::FindCityById(id) => {
                        Ok(Some(Event::City(cities.iter().find(|c| c.id == *id).cloned())))
                    }
                    Action::FetchWeather(_) => match &weather {
                        Some(w) => Ok(Some(Event::Weather(copy_of(w)))),
                        None => Err(BotError::WeatherApiError),
                    },
                    _ => Ok(None),
                },
            };
            match result {
                Ok(answer) => {
                    chat.apply(action);
                    outcome = Outcome::Performed(answer);
                }
                Err(reason) => {
                    assert_eq!(action.failure_counts(), action.recovery().is_some());
                    if let Some(recovery) = action.recovery() {
                        outcome = Outcome::Failed(recovery, reason);
                        break;
                    }
                }
            }
        }
        match step.phase.next(outcome) {
            Next::Event(event) => step = processor.process(step.phase, event),
            Next::End => return out,
            Next::Fail(reason) => {
                out.handed_on = Some(reason);
                return out;
            }
        }
    }
    panic!("the turn did not end");
}

fn chat_in(state: ClientState) -> Chat {
    let mut chat = Chat::new(42, 99);
    chat.state = state;
    chat
}

#[test]
fn command_tokens_are_recognised() {
    assert_eq!(Command::from_str("/start"), Ok(Command::Start));
    assert_eq!(Command::from_str("/find_city"), Ok(Command::FindCity));
    assert_eq!(Command::from_str("/set_default_city"), Ok(Command::SetDefaultCity));
    assert_eq!(Command::from_str("/default"), Ok(Command::Default));
    assert_eq!(Command::from_str("/cancel"), Ok(Command::Cancel));
    assert_eq!(Command::from_str("/schedule"), Ok(Command::Schedule));
}

#[test]
fn command_ignores_the_handle_and_blanks() {
    assert_eq!(Command::from_str("/start@RustWeather77Bot"), Ok(Command::Start));
    assert_eq!(Command::from_str("  /cancel \n"), Ok(Command::Cancel));
    assert_eq!(Command::from_str(" /schedule @RustWeather77Bot"), Ok(Command::Schedule));
    assert_eq!(Command::from_str("@RustWeather77Bot"), Ok(Command::UnknownCommand(
        "@RustWeather77Bot".to_string()
    )));
}

#[test]
fn anything_else_is_an_unknown_command_with_its_text() {
    assert_eq!(
        Command::from_str(" Madrid "),
        Ok(Command::UnknownCommand(" Madrid ".to_string()))
    );
    assert_eq!(
        Command::from_str("/start@OtherBot"),
        Ok(Command::UnknownCommand("/start@OtherBot".to_string()))
    );
    assert_eq!(
        Command::from_str("/start@RustWeather77Bot now"),
        Ok(Command::UnknownCommand("/start@RustWeather77Bot now".to_string()))
    );
    assert_eq!(Command::from_str("/START"), Ok(Command::UnknownCommand("/START".to_string())));
    assert_eq!(Command::from_str(""), Ok(Command::UnknownCommand(String::new())));
}

#[test]
fn an_update_without_a_message_opens_no_turn() {
    let other = Update { update_id: 5, content: UpdateContent::Other };
    assert_eq!(other.chat_key(), Err(BotError::UpdateNotMessage(Missing::Message)));
    assert_eq!(
        UpdateProcessor::create(other, Chat::new(1, 2)),
        Err(BotError::UpdateNotMessage(Missing::Message))
    );
}

#[test]
fn an_update_without_text_or_sender_opens_no_turn() {
    let mut no_text = update("x");
    if let UpdateContent::Message(m) = &mut no_text.content {
        m.text = None;
    }
    assert_eq!(no_text.chat_key(), Err(BotError::UpdateNotMessage(Missing::Text)));
    assert_eq!(
        UpdateProcessor::create(no_text, Chat::new(1, 2)),
        Err(BotError::UpdateNotMessage(Missing::Text))
    );
    let mut no_sender = update("x");
    if let UpdateContent::Message(m) = &mut no_sender.content {
        m.from = None;
    }
    assert_eq!(no_sender.chat_key(), Err(BotError::UpdateNotMessage(Missing::Sender)));
    assert_eq!(
        UpdateProcessor::create(no_sender, Chat::new(1, 2)),
        Err(BotError::UpdateNotMessage(Missing::Sender))
    );
}

#[test]
fn a_turn_opens_with_the_command_and_the_greeting_name() {
    assert_eq!(update("/default").chat_key(), Ok((42, 99)));
    let p = UpdateProcessor::create(update(" /default "), Chat::new(42, 99)).unwrap();
    assert_eq!(p.text, " /default ");
    assert_eq!(p.message_id, 77);
    assert_eq!(p.username, "@ada");
    assert_eq!(p.command, Command::Default);
    assert_eq!(p.chat, Chat::new(42, 99));
    let mut nameless = update("hi");
    if let UpdateContent::Message(m) = &mut nameless.content {
        m.from.as_mut().unwrap().username = None;
    }
    let p = UpdateProcessor::create(nameless, Chat::new(42, 99)).unwrap();
    assert_eq!(p.username, "Ada");
}

#[test]
fn cancel_returns_every_state_to_initial() {
    for state in STATES {
        for before in STATES {
            let mut chat = chat_in(state);
            chat.before_state = before;
            chat.selected = Some("Madrid".to_string());
            let t = turn(&mut chat, "/cancel", &madrids(), Some(sunny()));
            assert_eq!(chat.state, ClientState::Initial);
            assert_eq!(chat.before_state, ClientState::Initial);
            assert_eq!(t.sent, vec!["Hi, @ada!\nYour operation was canceled".to_string()]);
            assert_eq!(t.failure, None);
            assert_eq!(t.typing, 1);
            assert!(t.patterns.is_empty());
        }
    }
}

#[test]
fn first_step_of_cancel_is_exactly_four_actions() {
    let p = UpdateProcessor::create(update("/cancel@RustWeather77Bot"), chat_in(
        ClientState::AwaitingScheduleOffset,
    ))
    .unwrap();
    let step = p.process(Phase::Ready, Event::Begin);
    assert_eq!(
        step,
        Step {
            phase: Phase::Closing,
            actions: vec![
                Action::SendTyping,
                Action::SetBeforeState(ClientState::Initial),
                Action::SetState(ClientState::Initial),
                Action::SendMessage("Hi, @ada!\nYour operation was canceled".to_string()),
            ],
            failure: None,
        }
    );
}

#[test]
fn find_city_then_madrid_then_one_reports_madrid_es() {
    let mut chat = Chat::new(42, 99);
    let t = turn(&mut chat, "/find_city", &madrids(), Some(sunny()));
    assert_eq!(chat.state, ClientState::FindingCity);
    assert_eq!(chat.before_state, ClientState::Initial);
    assert_eq!(t.sent, vec!["Hi, @ada!\nWrite a city, let me see if I can find it".to_string()]);

    let t = turn(&mut chat, "Madrid", &madrids(), Some(sunny()));
    assert_eq!(t.patterns, vec!["Madrid".to_string()]);
    assert_eq!(
        t.sent,
        vec!["Hi, @ada!\nI found these cities. Put a number to select one\n\n1. Madrid,ES\n2. Madrid,US,NY\n"
            .to_string()]
    );
    assert!(t.sent[0].contains("1. Madrid,ES\n"));
    assert!(t.sent[0].contains("2. Madrid,US,NY\n"));
    assert_eq!(chat.state, ClientState::PickingFoundCityNumber);
    assert_eq!(chat.selected, Some("Madrid".to_string()));

    let t = turn(&mut chat, "1", &madrids(), Some(sunny()));
    assert_eq!(t.patterns, vec!["Madrid".to_string()]);
    assert_eq!(t.sent.len(), 1);
    assert!(t.sent[0].starts_with("Hi, @ada!\nMadrid,ES\nLat 40.4165 , Lon -3.70256\n"));
    assert!(t.sent[0].contains("Weather: clear sky"));
    assert_eq!(t.failure, None);
    assert_eq!(chat.state, ClientState::Initial);
    assert_eq!(chat.before_state, ClientState::Initial);
    assert_eq!(chat.default_city_id, None);
}

#[test]
fn picking_two_reports_the_second_city() {
    let mut chat = chat_in(ClientState::PickingFoundCityNumber);
    chat.selected = Some("Madrid".to_string());
    let t = turn(&mut chat, "2", &madrids(), Some(sunny()));
    assert!(t.sent[0].starts_with("Hi, @ada!\nMadrid,US\nLat "));
    assert_eq!(chat.state, ClientState::Initial);
}

#[test]
fn the_report_is_the_place_and_the_reading() {
    let mut chat = chat_in(ClientState::PickingFoundCityNumber);
    chat.selected = Some("Madrid".to_string());
    let t = turn(&mut chat, "+1", &madrids(), Some(sunny()));
    assert_eq!(
        t.sent,
        vec![format!(
            "Hi, @ada!\nMadrid,ES\nLat 40.4165 , Lon -3.70256\n{}",
            "\n🌍🌍 Weather: clear sky\n🌡️🌡️ Mean Temperature: 21.5 ºC\n🧊🧊 Minimum temperature: 19.25 ºC\n🔥🔥 Maximum temperature: 23 ºC\n⛰️⛰️ Pressure: 1015 hPa\n💧💧 Humidity: 40 %"
        )]
    );
    assert_eq!(sunny().to_text(), "\n🌍🌍 Weather: clear sky\n🌡️🌡️ Mean Temperature: 21.5 ºC\n🧊🧊 Minimum temperature: 19.25 ºC\n🔥🔥 Maximum temperature: 23 ºC\n⛰️⛰️ Pressure: 1015 hPa\n💧💧 Humidity: 40 %");
}

#[test]
fn a_number_outside_the_list_is_not_found() {
    for text in ["0", "3", "31", "18446744073709551615"] {
        let mut chat = chat_in(ClientState::PickingFoundCityNumber);
        chat.selected = Some("Madrid".to_string());
        let t = turn(&mut chat, text, &madrids(), Some(sunny()));
        assert_eq!(t.failure, Some(BotError::DbError(BotDbError::CityNotFoundError)));
        assert_eq!(t.failure.unwrap().kind(), ErrorKind::NotFound);
        assert_eq!(t.sent, vec!["Hi, @ada!\nYour operation was canceled".to_string()]);
        assert_eq!(chat.state, ClientState::Initial);
        assert_eq!(chat.before_state, ClientState::Initial);
    }
}

#[test]
fn a_text_that_is_no_number_is_invalid_input() {
    for text in ["one", "", "-1", "1.0", " 1", "18446744073709551616"] {
        for state in [ClientState::PickingFoundCityNumber, ClientState::PickingDefaultCityNumber] {
            let mut chat = chat_in(state);
            chat.before_state = ClientState::SettingDefaultCity;
            chat.selected = Some("Madrid".to_string());
            let t = turn(&mut chat, text, &madrids(), Some(sunny()));
            assert_eq!(t.failure, Some(BotError::InvalidInput));
            assert_eq!(BotError::InvalidInput.kind(), ErrorKind::InvalidInput);
            assert_eq!(
                t.sent,
                vec!["Hi, @ada!\nThat's not a positive number in the range. The command was cancelled"
                    .to_string()]
            );
            assert!(t.patterns.is_empty());
            assert_eq!(chat.state, ClientState::Initial);
            assert_eq!(chat.before_state, ClientState::Initial);
            assert_eq!(chat.default_city_id, None);
        }
    }
}

#[test]
fn a_pick_without_a_remembered_pattern_is_not_found() {
    let mut chat = chat_in(ClientState::PickingFoundCityNumber);
    let t = turn(&mut chat, "1", &madrids(), Some(sunny()));
    assert_eq!(t.failure, Some(BotError::DbError(BotDbError::CityNotFoundError)));
    assert!(t.patterns.is_empty());
    assert_eq!(chat.state, ClientState::Initial);
}

#[test]
fn set_default_city_flow_stores_the_picked_city() {
    let mut chat = Chat::new(42, 99);
    let t = turn(&mut chat, "/set_default_city", &madrids(), None);
    assert_eq!(chat.state, ClientState::FindingCity);
    assert_eq!(chat.before_state, ClientState::SettingDefaultCity);
    assert_eq!(t.sent, vec!["Hi, @ada!\nWrite a city, let me see if I can find it".to_string()]);

    turn(&mut chat, "madrid", &madrids(), None);
    assert_eq!(chat.state, ClientState::PickingDefaultCityNumber);
    assert_eq!(chat.before_state, ClientState::SettingDefaultCity);
    assert_eq!(chat.selected, Some("madrid".to_string()));

    let t = turn(&mut chat, "2", &madrids(), None);
    assert_eq!(t.sent, vec!["Hi, @ada!\nYour default city was updated".to_string()]);
    assert_eq!(t.failure, None);
    assert_eq!(chat.default_city_id, Some(5059429));
    assert_eq!(chat.state, ClientState::Initial);
    assert_eq!(chat.before_state, ClientState::Initial);
}

#[test]
fn the_flow_of_a_choice_is_what_the_record_remembers() {
    let mut chat = chat_in(ClientState::SettingDefaultCity);
    chat.before_state = ClientState::SettingDefaultCity;
    turn(&mut chat, "Madrid", &madrids(), None);
    assert_eq!(chat.state, ClientState::PickingDefaultCityNumber);
    let t = turn(&mut chat, "1", &madrids(), None);
    assert_eq!(t.sent, vec!["Hi, @ada!\nYour default city was updated".to_string()]);
    assert_eq!(chat.default_city_id, Some(3117735));

    let mut chat = chat_in(ClientState::SettingDefaultCity);
    turn(&mut chat, "Madrid", &madrids(), None);
    assert_eq!(chat.state, ClientState::PickingFoundCityNumber);

    let mut chat = chat_in(ClientState::PickingDefaultCityNumber);
    chat.selected = Some("Madrid".to_string());
    let t = turn(&mut chat, "1", &madrids(), Some(sunny()));
    assert!(t.sent[0].starts_with("Hi, @ada!\nMadrid,ES\nLat "));
    assert_eq!(chat.default_city_id, None);

    let mut chat = chat_in(ClientState::PickingFoundCityNumber);
    chat.before_state = ClientState::SettingDefaultCity;
    chat.selected = Some("Madrid".to_string());
    let t = turn(&mut chat, "1", &madrids(), Some(sunny()));
    assert_eq!(t.sent, vec!["Hi, @ada!\nYour default city was updated".to_string()]);
    assert_eq!(chat.default_city_id, Some(3117735));
}

#[test]
fn no_match_and_too_many_matches_are_not_found() {
    let many: Vec<City> = (0..31).map(|i| city(i, "Springfield", "US", "IL")).collect();
    for found in [Vec::new(), many] {
        let mut chat = chat_in(ClientState::FindingCity);
        chat.before_state = ClientState::SettingDefaultCity;
        let t = turn(&mut chat, "Springfield", &found, None);
        assert_eq!(
            t.sent,
            vec!["Hi, @ada!\nYour city Springfield was not found. Command cancelled.".to_string()]
        );
        assert_eq!(t.failure, Some(BotError::DbError(BotDbError::CityNotFoundError)));
        assert_eq!(chat.state, ClientState::Initial);
        assert_eq!(chat.before_state, ClientState::Initial);
        assert_eq!(chat.selected, None);
    }
}

#[test]
fn thirty_matches_are_listed() {
    let thirty: Vec<City> = (0..30).map(|i| city(i, "Springfield", "US", "IL")).collect();
    let mut chat = chat_in(ClientState::FindingCity);
    let t = turn(&mut chat, "Springfield", &thirty, None);
    assert_eq!(t.failure, None);
    assert!(t.sent[0].contains("\n1. Springfield,US,IL\n"));
    assert!(t.sent[0].contains("\n10. Springfield,US,IL\n"));
    assert!(t.sent[0].ends_with("\n30. Springfield,US,IL\n"));
    assert_eq!(t.sent[0].lines().count(), 3 + 30);
    assert_eq!(chat.state, ClientState::PickingFoundCityNumber);
}

#[test]
fn every_listed_number_picks_the_city_on_its_line() {
    let cities: Vec<City> =
        (1..=30).map(|i| city(1000 + i, &format!("City{}", i), "XX", "")).collect();
    let mut chat = chat_in(ClientState::FindingCity);
    let listing = turn(&mut chat, "City", &cities, None).sent.remove(0);
    for n in 1..=30usize {
        let line = format!("\n{}. {},XX\n", n, cities[n - 1].name);
        assert!(listing.contains(&line));
        let p = UpdateProcessor::create(update(&n.to_string()), chat.clone()).unwrap();
        let step = p.pick_city(n as u64, &cities);
        assert_eq!(step.phase, Phase::Reporting(cities[n - 1].clone()));
        assert_eq!(step.actions.last(), Some(&Action::FetchWeather(cities[n - 1].clone())));
    }
}

#[test]
fn start_sends_the_help_text() {
    let mut chat = Chat::new(42, 99);
    let t = turn(&mut chat, "/start", &[], None);
    assert_eq!(t.sent.len(), 1);
    assert!(t.sent[0].starts_with("Hi, @ada!\nThis bot provides weather info around the globe."));
    assert!(t.sent[0].contains("/find_city Ask weather info from any city worldwide."));
    assert_eq!(chat, Chat::new(42, 99));
}

#[test]
fn an_unknown_command_is_treated_as_cancel() {
    let mut chat = Chat::new(42, 99);
    let t = turn(&mut chat, "hello", &[], None);
    assert_eq!(
        t.sent,
        vec!["Hi, @ada!\nUnknown command. See /start for available commands".to_string()]
    );
    assert_eq!(t.failure, None);
    assert_eq!(chat, Chat::new(42, 99));
}

#[test]
fn default_without_a_default_city_enters_the_setting_flow() {
    let mut chat = Chat::new(42, 99);
    let t = turn(&mut chat, "/default", &madrids(), Some(sunny()));
    assert_eq!(
        t.sent,
        vec![
            "Hi, @ada!\nWrite a city, let me see if I can find it".to_string(),
            "Hi, @ada!\nSetting default city...".to_string(),
        ]
    );
    assert_eq!(chat.state, ClientState::FindingCity);
    assert_eq!(chat.before_state, ClientState::SettingDefaultCity);
}

#[test]
fn default_with_a_default_city_reports_its_weather() {
    let mut chat = Chat::new(42, 99);
    chat.default_city_id = Some(5059429);
    let t = turn(&mut chat, "/default", &madrids(), Some(sunny()));
    assert_eq!(t.sent.len(), 1);
    assert!(t.sent[0].starts_with("Hi, @ada!\nMadrid,US\nLat 40.4165 , Lon -3.70256\n"));
    assert_eq!(chat.state, ClientState::Initial);
    assert_eq!(t.failure, None);
}

#[test]
fn default_with_a_city_that_is_gone_is_not_found() {
    let mut chat = Chat::new(42, 99);
    chat.default_city_id = Some(1);
    let t = turn(&mut chat, "/default", &madrids(), Some(sunny()));
    assert_eq!(t.failure, Some(BotError::DbError(BotDbError::CityNotFoundError)));
    assert_eq!(t.sent, vec!["Hi, @ada!\nYour operation was canceled".to_string()]);
    assert_eq!(chat.state, ClientState::Initial);
}

#[test]
fn a_failed_fetch_reverts_the_chat() {
    let mut chat = Chat::new(42, 99);
    chat.default_city_id = Some(3117735);
    chat.state = ClientState::Initial;
    let t = turn(&mut chat, "/default", &madrids(), None);
    assert_eq!(t.failure, Some(BotError::WeatherApiError));
    assert_eq!(BotError::WeatherApiError.kind(), ErrorKind::Upstream);
    assert_eq!(t.sent, vec!["Hi, @ada!\nYour operation was canceled".to_string()]);
    assert_eq!(chat.state, ClientState::Initial);
    assert_eq!(chat.before_state, ClientState::Initial);
}

#[test]
fn a_reading_without_a_description_counts_as_a_failed_fetch() {
    let mut empty = sunny();
    empty.weather.clear();
    let mut chat = chat_in(ClientState::PickingFoundCityNumber);
    chat.selected = Some("Madrid".to_string());
    let t = turn(&mut chat, "1", &madrids(), Some(empty));
    assert_eq!(t.failure, Some(BotError::WeatherApiError));
    assert_eq!(t.sent, vec!["Hi, @ada!\nYour operation was canceled".to_string()]);
}

#[test]
fn a_failure_in_any_waiting_phase_reverts_and_a_second_one_ends_the_turn() {
    let p = UpdateProcessor::create(update("Madrid"), chat_in(ClientState::FindingCity)).unwrap();
    let waiting = [
        Phase::Ready,
        Phase::Closing,
        Phase::ListingCities,
        Phase::PickingCity(2),
        Phase::FindingDefault,
        Phase::Reporting(city(1, "Madrid", "ES", "")),
    ];
    for phase in waiting {
        let step = p.process(phase, Event::Failed(BotError::DbError(BotDbError::StorageError)));
        assert_eq!(step, p.revert_state(BotError::DbError(BotDbError::StorageError)));
        assert_eq!(step.phase, Phase::Reverting);
        assert_eq!(
            step.actions,
            vec![
                Action::SetBeforeState(ClientState::Initial),
                Action::SetState(ClientState::Initial),
                Action::SendMessage("Hi, @ada!\nYour operation was canceled".to_string()),
            ]
        );
        assert_eq!(step.failure.unwrap().kind(), ErrorKind::Storage);
    }
    let again = p.process(Phase::Reverting, Event::Failed(BotError::TelegramError));
    assert_eq!(
        again,
        Step { phase: Phase::Finished, actions: vec![], failure: Some(BotError::TelegramError) }
    );
    for (phase, event) in [
        (Phase::Finished, Event::Begin),
        (Phase::Finished, Event::Failed(BotError::TelegramError)),
        (Phase::Reverting, Event::Begin),
        (Phase::Closing, Event::Begin),
        (Phase::Closing, Event::City(None)),
    ] {
        let done = p.process(phase, event);
        assert_eq!(done, Step { phase: Phase::Finished, actions: vec![], failure: None });
    }
}

#[test]
fn an_event_that_answers_nothing_reverts_the_chat() {
    let p = UpdateProcessor::create(update("Madrid"), chat_in(ClientState::FindingCity)).unwrap();
    let step = p.process(Phase::ListingCities, Event::City(None));
    assert_eq!(step, p.revert_state(BotError::InvalidInput));
    let step = p.process(Phase::Ready, Event::Cities(madrids()));
    assert_eq!(step, p.revert_state(BotError::InvalidInput));
}

#[test]
fn schedule_then_time_then_offset_schedules_in_utc() {
    let mut chat = Chat::new(42, 99);
    chat.default_city_id = Some(3117735);
    let t = turn(&mut chat, "/schedule", &madrids(), None);
    assert_eq!(
        t.sent,
        vec!["Hi, @ada!\nwhat time would you like to schedule ? (format hour:minutes in range 0-23:0-59)"
            .to_string()]
    );
    assert_eq!(chat.state, ClientState::AwaitingScheduleTime);

    let t = turn(&mut chat, "07:05", &madrids(), None);
    assert_eq!(t.failure, None);
    assert_eq!(chat.state, ClientState::AwaitingScheduleOffset);
    assert_eq!(chat.selected, Some("7:5".to_string()));
    assert!(t.sent[0].starts_with("Hi, @ada!\nDo you have any offset respect UTC ?"));

    let t = turn(&mut chat, "2", &madrids(), None);
    assert_eq!(t.failure, None);
    assert_eq!(
        t.scheduled,
        vec![ScheduleWeatherTask {
            cron_expression: "0 5 5 * * * *".to_string(),
            chat_id: 42,
            user_id: 99,
            city_id: 3117735,
        }]
    );
    assert_eq!(
        t.sent,
        vec!["Hi, @ada!\nWeather info scheduled every day at 7:05 UTC 2".to_string()]
    );
    assert!(!t.sent[0].contains("07:5 UTC 2"));
    assert!(t.sent[0].contains("7:05 UTC 2"));
    assert_eq!(chat.offset, Some(2));
    assert_eq!(chat.state, ClientState::Initial);
    assert_eq!(chat.before_state, ClientState::Initial);
}

#[test]
fn the_job_is_handed_over_before_the_chat_is_reset() {
    let mut chat = chat_in(ClientState::AwaitingScheduleOffset);
    chat.default_city_id = Some(7);
    chat.selected = Some("23:30".to_string());
    let p = UpdateProcessor::create(update("-2"), chat).unwrap();
    let step = p.process(Phase::Ready, Event::Begin);
    assert_eq!(
        step.actions,
        vec![
            Action::SendTyping,
            Action::Schedule(ScheduleWeatherTask {
                cron_expression: "0 30 1 * * * *".to_string(),
                chat_id: 42,
                user_id: 99,
                city_id: 7,
            }),
            Action::SetOffset(-2),
            Action::SetBeforeState(ClientState::Initial),
            Action::SetState(ClientState::Initial),
            Action::SendMessage(
                "Hi, @ada!\nWeather info scheduled every day at 23:30 UTC -2".to_string()
            ),
        ]
    );
}

#[test]
fn a_time_needs_a_default_city() {
    let mut chat = chat_in(ClientState::AwaitingScheduleTime);
    let t = turn(&mut chat, "07:05", &[], None);
    assert_eq!(
        t.sent,
        vec!["Hi, @ada!\nTo use /schedule command default city must be set first.".to_string()]
    );
    assert_eq!(t.failure, Some(BotError::InvalidInput));
    assert_eq!(chat.state, ClientState::Initial);
    assert_eq!(chat.selected, None);
}

#[test]
fn a_malformed_time_is_refused() {
    for text in ["24:00", "12:60", "noon", "12", "1:2:3", "", ":", "7 :05"] {
        let mut chat = chat_in(ClientState::AwaitingScheduleTime);
        chat.default_city_id = Some(7);
        let t = turn(&mut chat, text, &[], None);
        assert_eq!(t.sent.len(), 1);
        assert!(t.sent[0].starts_with("Hi, @ada!\nThat's not a well formatted time"));
        assert_eq!(t.failure, Some(BotError::InvalidInput));
        assert_eq!(chat.state, ClientState::Initial);
        assert_eq!(chat.selected, None);
    }
}

#[test]
fn a_time_may_have_blanks_around_it() {
    let mut chat = chat_in(ClientState::AwaitingScheduleTime);
    chat.default_city_id = Some(7);
    let t = turn(&mut chat, "  23:59\n", &[], None);
    assert_eq!(t.failure, None);
    assert_eq!(chat.selected, Some("23:59".to_string()));
    assert_eq!(chat.state, ClientState::AwaitingScheduleOffset);
}

#[test]
fn an_offset_outside_the_range_is_refused() {
    for text in ["13", "-12", "two", "", "1.5", " 2", "128"] {
        let mut chat = chat_in(ClientState::AwaitingScheduleOffset);
        chat.default_city_id = Some(7);
        chat.selected = Some("7:5".to_string());
        let t = turn(&mut chat, text, &[], None);
        assert_eq!(t.sent.len(), 1);
        assert!(t.sent[0].starts_with("Hi, @ada!\nThat's not a valid offset"));
        assert!(t.scheduled.is_empty());
        assert_eq!(t.failure, Some(BotError::InvalidInput));
        assert_eq!(chat.state, ClientState::Initial);
        assert_eq!(chat.offset, None);
    }
}

#[test]
fn every_offset_of_the_range_is_accepted() {
    for offset in -11i8..=12 {
        let mut chat = chat_in(ClientState::AwaitingScheduleOffset);
        chat.default_city_id = Some(7);
        chat.selected = Some("1:0".to_string());
        let t = turn(&mut chat, &offset.to_string(), &[], None);
        let hour = (1 - i32::from(offset)).rem_euclid(24);
        assert_eq!(t.scheduled.len(), 1);
        assert_eq!(t.scheduled[0].cron_expression, format!("0 0 {} * * * *", hour));
        assert_eq!(
            t.sent,
            vec![format!("Hi, @ada!\nWeather info scheduled every day at 1:00 UTC {}", offset)]
        );
    }
}

#[test]
fn an_offset_without_a_stored_time_or_city_is_refused() {
    let mut chat = chat_in(ClientState::AwaitingScheduleOffset);
    chat.default_city_id = Some(7);
    let t = turn(&mut chat, "2", &[], None);
    assert!(t.sent[0].starts_with("Hi, @ada!\nThat's not a well formatted time"));
    assert!(t.scheduled.is_empty());
    assert_eq!(chat.state, ClientState::Initial);

    let mut chat = chat_in(ClientState::AwaitingScheduleOffset);
    chat.default_city_id = Some(7);
    chat.selected = Some("Madrid".to_string());
    let t = turn(&mut chat, "2", &[], None);
    assert!(t.sent[0].starts_with("Hi, @ada!\nThat's not a well formatted time"));
    assert_eq!(t.failure, Some(BotError::InvalidInput));

    let mut chat = chat_in(ClientState::AwaitingScheduleOffset);
    chat.selected = Some("7:5".to_string());
    let t = turn(&mut chat, "2", &[], None);
    assert_eq!(
        t.sent,
        vec!["Hi, @ada!\nTo use /schedule command default city must be set first.".to_string()]
    );
    assert!(t.scheduled.is_empty());
}

#[test]
fn apply_all_does_what_apply_does_one_by_one() {
    let actions = vec![
        Action::SendTyping,
        Action::SetSelected("7:5".to_string()),
        Action::SetState(ClientState::AwaitingScheduleOffset),
        Action::SetBeforeState(ClientState::SettingDefaultCity),
        Action::SetDefaultCity(9),
        Action::SetOffset(-11),
        Action::SendMessage("x".to_string()),
    ];
    let mut a = Chat::new(1, 2);
    a.apply_all(&actions);
    let mut b = Chat::new(1, 2);
    for action in &actions {
        b.apply(action);
    }
    assert_eq!(a, b);
    assert_eq!(
        a,
        Chat {
            id: 1,
            user_id: 2,
            state: ClientState::AwaitingScheduleOffset,
            before_state: ClientState::SettingDefaultCity,
            offset: Some(-11),
            selected: Some("7:5".to_string()),
            default_city_id: Some(9),
        }
    );
}

#[test]
fn every_failure_has_its_kind() {
    assert_eq!(BotError::UpdateNotMessage(Missing::Text).kind(), ErrorKind::InvalidInput);
    assert_eq!(BotError::InvalidInput.kind(), ErrorKind::InvalidInput);
    assert_eq!(BotError::TelegramError.kind(), ErrorKind::Upstream);
    assert_eq!(BotError::WeatherApiError.kind(), ErrorKind::Upstream);
    assert_eq!(BotError::DbError(BotDbError::CityNotFoundError).kind(), ErrorKind::NotFound);
    assert_eq!(BotError::DbError(BotDbError::NoTimestampsError).kind(), ErrorKind::NotFound);
    assert_eq!(BotError::DbError(BotDbError::CronError).kind(), ErrorKind::InvalidInput);
    assert_eq!(BotError::DbError(BotDbError::StorageError).kind(), ErrorKind::Storage);
}

#[test]
fn a_failed_typing_indicator_does_not_stop_the_turn() {
    fn no_typing(action: &Action) -> Option<BotError> {
        matches!(action, Action::SendTyping).then_some(BotError::TelegramError)
    }
    for state in STATES {
        let mut chat = chat_in(state);
        let mut calm = chat_in(state);
        chat.default_city_id = Some(3117735);
        calm.default_city_id = Some(3117735);
        chat.selected = Some("7:5".to_string());
        calm.selected = Some("7:5".to_string());
        for text in ["/cancel", "/start", "Madrid", "1", "07:05", "2"] {
            let with = turn_with(&mut chat, text, &madrids(), Some(sunny()), no_typing);
            let without = turn(&mut calm, text, &madrids(), Some(sunny()));
            assert_eq!(with.typing, 0);
            assert_eq!(without.typing, 1);
            assert_eq!(with.sent, without.sent);
            assert!(!with.sent.is_empty());
            assert_eq!(with.scheduled, without.scheduled);
            assert_eq!(with.failure, without.failure);
            assert_eq!(with.handed_on, None);
            assert_eq!(chat, calm);
        }
    }
}

#[test]
fn the_typing_indicator_is_asked_for_before_anything_else() {
    for state in STATES {
        for text in ["/cancel", "/default", "Madrid", "1", "07:05", "2", ""] {
            let mut chat = chat_in(state);
            chat.selected = Some("Madrid".to_string());
            let p = UpdateProcessor::create(update(text), chat).unwrap();
            let step = p.process(Phase::Ready, Event::Begin);
            assert_eq!(step.actions[0], Action::SendTyping);
            assert!(step.actions.len() >= 2);
            assert!(step.actions[1..].iter().all(|a| *a != Action::SendTyping));
        }
    }
}

#[test]
fn only_the_typing_indicator_may_fail_unnoticed() {
    let job = ScheduleWeatherTask {
        cron_expression: "0 5 5 * * * *".to_string(),
        chat_id: 42,
        user_id: 99,
        city_id: 7,
    };
    assert_eq!(Action::SendTyping.recovery(), None);
    assert!(!Action::SendTyping.failure_counts());
    assert_eq!(Action::Schedule(job).recovery(), Some(Recovery::HandOn));
    let reverted = [
        Action::SetState(ClientState::Initial),
        Action::SetBeforeState(ClientState::Initial),
        Action::SetSelected("x".to_string()),
        Action::SetDefaultCity(1),
        Action::SetOffset(2),
        Action::SendMessage("x".to_string()),
        Action::FindCitiesByPattern("x".to_string()),
        Action::FindCityById(1),
        Action::FetchWeather(city(1, "Madrid", "ES", "")),
    ];
    for action in reverted {
        assert_eq!(action.recovery(), Some(Recovery::Revert));
        assert!(action.failure_counts());
    }
}

#[test]
fn a_job_that_the_queue_refuses_fails_the_turn() {
    fn no_queue(action: &Action) -> Option<BotError> {
        matches!(action, Action::Schedule(_))
            .then_some(BotError::DbError(BotDbError::StorageError))
    }
    let mut chat = chat_in(ClientState::AwaitingScheduleOffset);
    chat.default_city_id = Some(7);
    chat.selected = Some("7:5".to_string());
    let before = chat.clone();
    let t = turn_with(&mut chat, "2", &[], None, no_queue);
    assert_eq!(t.handed_on, Some(BotError::DbError(BotDbError::StorageError)));
    assert!(t.sent.is_empty());
    assert!(t.scheduled.is_empty());
    assert_eq!(chat, before);
}

#[test]
fn a_failed_write_or_send_puts_the_chat_back() {
    fn no_selected(action: &Action) -> Option<BotError> {
        matches!(action, Action::SetSelected(_))
            .then_some(BotError::DbError(BotDbError::StorageError))
    }
    let mut chat = chat_in(ClientState::AwaitingScheduleTime);
    chat.default_city_id = Some(7);
    let t = turn_with(&mut chat, "07:05", &[], None, no_selected);
    assert_eq!(t.failure, Some(BotError::DbError(BotDbError::StorageError)));
    assert_eq!(t.handed_on, None);
    assert_eq!(t.sent, vec!["Hi, @ada!\nYour operation was canceled".to_string()]);
    assert_eq!(chat.state, ClientState::Initial);
    assert_eq!(chat.selected, None);

    fn no_messages(action: &Action) -> Option<BotError> {
        matches!(action, Action::SendMessage(_)).then_some(BotError::TelegramError)
    }
    let mut chat = chat_in(ClientState::FindingCity);
    let t = turn_with(&mut chat, "Madrid", &madrids(), None, no_messages);
    assert_eq!(t.failure, Some(BotError::TelegramError));
    assert_eq!(t.handed_on, None);
    assert!(t.sent.is_empty());
    assert_eq!(chat.state, ClientState::Initial);
    assert_eq!(chat.before_state, ClientState::Initial);
}

#[test]
fn next_says_how_a_turn_goes_on() {
    let storage = BotError::DbError(BotDbError::StorageError);
    let waiting = [
        Phase::ListingCities,
        Phase::PickingCity(1),
        Phase::FindingDefault,
        Phase::Reporting(city(1, "Madrid", "ES", "")),
    ];
    for phase in waiting {
        assert!(phase.awaits_answer());
        assert_eq!(
            phase.next(Outcome::Performed(Some(Event::City(None)))),
            Next::Event(Event::City(None))
        );
        assert_eq!(
            phase.next(Outcome::Performed(None)),
            Next::Event(Event::Failed(BotError::InvalidInput))
        );
        assert_eq!(
            phase.next(Outcome::Failed(Recovery::Revert, storage)),
            Next::Event(Event::Failed(storage))
        );
        assert_eq!(phase.next(Outcome::Failed(Recovery::HandOn, storage)), Next::Fail(storage));
    }
    for phase in [Phase::Ready, Phase::Closing, Phase::Reverting, Phase::Finished] {
        assert!(!phase.awaits_answer());
        assert_eq!(phase.next(Outcome::Performed(None)), Next::End);
        assert_eq!(phase.next(Outcome::Performed(Some(Event::Begin))), Next::End);
        assert_eq!(
            phase.next(Outcome::Failed(Recovery::Revert, storage)),
            Next::Event(Event::Failed(storage))
        );
        assert_eq!(phase.next(Outcome::Failed(Recovery::HandOn, storage)), Next::Fail(storage));
    }
}
