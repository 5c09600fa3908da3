//! What passes between the dialog and the services that it directs: the
//! actions that it asks for and the events that answer them.

use crate::db::Chat;
use crate::db::ChatView;
use crate::db::ClientState;
use crate::deliver::ScheduleWeatherTask;
use crate::deliver::ScheduleWeatherTaskView;
use crate::open_weather_map::weather::City;
use crate::open_weather_map::weather::CityView;
use crate::open_weather_map::weather::Weather;
use crate::open_weather_map::weather::WeatherView;
use crate::BotError;
use vstd::prelude::*;
use vstd::string::*;

verus! {

/// One request to a service. The services perform the actions of a step in
/// order and stop at the first whose failure counts (see `Action::recovery`).
#[derive(Debug, PartialEq, Eq)]
pub enum Action {
    SendTyping,
    SetState(ClientState),
    SetBeforeState(ClientState),
    SetSelected(String),
    SetDefaultCity(i32),
    /// Record the offset of the user's clock from UTC, in hours.
    SetOffset(i8),
    /// A reply to the message that opened the turn.
    SendMessage(String),
    /// Ask the city directory for the cities whose name contains the
    /// pattern; answered by `Event::Cities`.
    FindCitiesByPattern(String),
    /// Ask the city directory for a city; answered by `Event::City`.
    FindCityById(i32),
    /// Ask for the current weather at a city; answered by `Event::Weather`.
    FetchWeather(City),
    /// Hand a recurring delivery to the job queue, which keeps at most one
    /// per chat.
    Schedule(ScheduleWeatherTask),
}

pub enum ActionView {
    SendTyping,
    SetState(ClientState),
    SetBeforeState(ClientState),
    SetSelected(Seq<char>),
    SetDefaultCity(i32),
    SetOffset(i8),
    SendMessage(Seq<char>),
    FindCitiesByPattern(Seq<char>),
    FindCityById(i32),
    FetchWeather(CityView),
    Schedule(ScheduleWeatherTaskView),
}

impl View for Action {
    type V = ActionView;

    open spec fn view(&self) -> ActionView {
        match self {
            Action::SendTyping => ActionView::SendTyping,
            Action::SetState(s) => ActionView::SetState(*s),
            Action::SetBeforeState(s) => ActionView::SetBeforeState(*s),
            Action::SetSelected(t) => ActionView::SetSelected(t@),
            Action::SetDefaultCity(id) => ActionView::SetDefaultCity(*id),
            Action::SetOffset(hours) => ActionView::SetOffset(*hours),
            Action::SendMessage(t) => ActionView::SendMessage(t@),
            Action::FindCitiesByPattern(t) => ActionView::FindCitiesByPattern(t@),
            Action::FindCityById(id) => ActionView::FindCityById(*id),
            Action::FetchWeather(c) => ActionView::FetchWeather(c@),
            Action::Schedule(j) => ActionView::Schedule(j@),
        }
    }
}

/// What the failure of an action leads to, where it counts.
#[derive(Debug, Clone, Copy, PartialEq, Eq, Structural)]
pub enum Recovery {
    /// The turn goes on with `Event::Failed`: the chat is put back.
    Revert,
    /// The turn ends, and the failure is that of the job that ran it: the
    /// job queue tries the turn again.
    HandOn,
}

/// What the failure of `action` leads to. A failed typing indicator leads
/// to nothing: it is noted, and the next action is performed. A job that
/// the queue did not take is the queue's to hand on. Any other failure is
/// answered by putting the chat back.
pub open spec fn recovery(action: ActionView) -> Option<Recovery> {
    match action {
        ActionView::SendTyping => None,
        ActionView::Schedule(_) => Some(Recovery::HandOn),
        _ => Some(Recovery::Revert),
    }
}

impl Action {
    /// What the failure of this action leads to; `None` where it does not
    /// count.
    pub fn recovery(&self) -> (r: Option<Recovery>)
        ensures
            r == recovery(self@),
    {
        match self {
            Action::SendTyping => None,
            Action::Schedule(_) => Some(Recovery::HandOn),
            _ => Some(Recovery::Revert),
        }
    }

    /// Whether a failure of this action counts: that of the typing indicator
    /// alone does not.
    pub fn failure_counts(&self) -> (r: bool)
        ensures
            r == !(self@ is SendTyping),
            r == recovery(self@) is Some,
    {
        match self {
            Action::SendTyping => false,
            _ => true,
        }
    }
}

/// What the services report back.
#[derive(Debug, PartialEq, Eq)]
pub enum Event {
    /// A message has arrived and nothing was done yet.
    Begin,
    /// The cities that match a pattern, in the directory's order.
    Cities(Vec<City>),
    City(Option<City>),
    Weather(Weather),
    /// An action failed.
    Failed(BotError),
}

pub enum EventView {
    Begin,
    Cities(Seq<CityView>),
    City(Option<CityView>),
    Weather(WeatherView),
    Failed(BotError),
}

pub open spec fn city_views(cities: Seq<City>) -> Seq<CityView> {
    cities.map_values(|c: City| c@)
}

pub open spec fn action_views(actions: Seq<Action>) -> Seq<ActionView> {
    actions.map_values(|a: Action| a@)
}

impl View for Event {
    type V = EventView;

    open spec fn view(&self) -> EventView {
        match self {
            Event::Begin => EventView::Begin,
            Event::Cities(v) => EventView::Cities(city_views(v@)),
            Event::City(c) => EventView::City(
                match c {
                    Some(c) => Some(c@),
                    None => None,
                },
            ),
            Event::Weather(w) => EventView::Weather(w@),
            Event::Failed(e) => EventView::Failed(*e),
        }
    }
}

/// How far a turn has come.
#[derive(Debug, PartialEq, Eq)]
pub enum Phase {
    /// Nothing was done yet.
    Ready,
    /// The cities that match the message are being looked up.
    ListingCities,
    /// The list behind the picked number is being looked up again.
    PickingCity(u64),
    /// The default city is being looked up.
    FindingDefault,
    /// The weather at a city is being fetched.
    Reporting(City),
    /// The last actions of the turn are being performed.
    Closing,
    /// The chat is being put back after a failure.
    Reverting,
    /// Nothing is left to do.
    Finished,
}

pub enum PhaseView {
    Ready,
    ListingCities,
    PickingCity(u64),
    FindingDefault,
    Reporting(CityView),
    Closing,
    Reverting,
    Finished,
}

impl View for Phase {
    type V = PhaseView;

    open spec fn view(&self) -> PhaseView {
        match self {
            Phase::Ready => PhaseView::Ready,
            Phase::ListingCities => PhaseView::ListingCities,
            Phase::PickingCity(n) => PhaseView::PickingCity(*n),
            Phase::FindingDefault => PhaseView::FindingDefault,
            Phase::Reporting(c) => PhaseView::Reporting(c@),
            Phase::Closing => PhaseView::Closing,
            Phase::Reverting => PhaseView::Reverting,
            Phase::Finished => PhaseView::Finished,
        }
    }
}

impl PhaseView {
    /// Whether the last action of the step that led here asks a question
    /// whose answer the next step needs.
    pub open spec fn awaits_answer(self) -> bool {
        self is ListingCities || self is PickingCity || self is FindingDefault
            || self is Reporting
    }
}

impl Phase {
    pub fn awaits_answer(&self) -> (r: bool)
        ensures
            r == self@.awaits_answer(),
    {
        match self {
            Phase::ListingCities => true,
            Phase::PickingCity(_) => true,
            Phase::FindingDefault => true,
            Phase::Reporting(_) => true,
            _ => false,
        }
    }
}

/// One step of a turn: what to do now, and where the turn stands after it.
#[derive(Debug, PartialEq, Eq)]
pub struct Step {
    pub phase: Phase,
    pub actions: Vec<Action>,
    /// Why the turn was cut short, where it was.
    pub failure: Option<BotError>,
}

pub struct StepView {
    pub phase: PhaseView,
    pub actions: Seq<ActionView>,
    pub failure: Option<BotError>,
}

impl View for Step {
    type V = StepView;

    open spec fn view(&self) -> StepView {
        StepView {
            phase: self.phase@,
            actions: action_views(self.actions@),
            failure: self.failure,
        }
    }
}

/// The chat record after one action on it.
pub open spec fn apply_action(chat: ChatView, action: ActionView) -> ChatView {
    match action {
        ActionView::SetState(s) => ChatView { state: s, ..chat },
        ActionView::SetBeforeState(s) => ChatView { before_state: s, ..chat },
        ActionView::SetSelected(t) => ChatView { selected: Some(t), ..chat },
        ActionView::SetDefaultCity(id) => ChatView { default_city_id: Some(id), ..chat },
        ActionView::SetOffset(hours) => ChatView { offset: Some(hours), ..chat },
        _ => chat,
    }
}

/// The chat record after a run of actions on it, first to last.
pub open spec fn apply_actions(chat: ChatView, actions: Seq<ActionView>) -> ChatView
    decreases actions.len(),
{
    if actions.len() == 0 {
        chat
    } else {
        apply_action(apply_actions(chat, actions.drop_last()), actions.last())
    }
}

impl Chat {
    /// Does to this record what `action` asks of the store.
    pub fn apply(&mut self, action: &Action)
        ensures
            final(self)@ == apply_action(old(self)@, action@),
    {
        match action {
            Action::SetState(s) => {
                self.state = *s;
            },
            Action::SetBeforeState(s) => {
                self.before_state = *s;
            },
            Action::SetSelected(t) => {
                self.selected = Some(t.clone());
            },
            Action::SetDefaultCity(id) => {
                self.default_city_id = Some(*id);
            },
            Action::SetOffset(hours) => {
                self.offset = Some(*hours);
            },
            _ => {},
        }
    }

    /// Does to this record what `actions` ask of the store, in order.
    pub fn apply_all(&mut self, actions: &Vec<Action>)
        ensures
            final(self)@ == apply_actions(old(self)@, action_views(actions@)),
    {
        let mut i: usize = 0;
        while i < actions.len()
            invariant
                i <= actions.len(),
                self@ == apply_actions(old(self)@, action_views(actions@.take(i as int))),
            decreases actions.len() - i,
        {
            self.apply(&actions[i]);
            proof {
                let next = action_views(actions@.take(i + 1));
                assert(next.drop_last() == action_views(actions@.take(i as int)));
                assert(next.last() == actions@[i as int]@);
            }
            i += 1;
        }
        proof {
            assert(actions@.take(i as int) == actions@);
        }
    }
}

/// How the actions of a step went.
#[derive(Debug, PartialEq, Eq)]
pub enum Outcome {
    /// Every action was performed, or failed without counting; the answer
    /// is that of the last action, where it has one.
    Performed(Option<Event>),
    /// An action failed, and its failure counts.
    Failed(Recovery, BotError),
}

pub enum OutcomeView {
    Performed(Option<EventView>),
    Failed(Recovery, BotError),
}

impl View for Outcome {
    type V = OutcomeView;

    open spec fn view(&self) -> OutcomeView {
        match self {
            Outcome::Performed(answer) => OutcomeView::Performed(
                match answer {
                    Some(event) => Some(event@),
                    None => None,
                },
            ),
            Outcome::Failed(recovery, reason) => OutcomeView::Failed(*recovery, *reason),
        }
    }
}

/// How a turn goes on after a step.
#[derive(Debug, PartialEq, Eq)]
pub enum Next {
    /// With the step that this event leads to.
    Event(Event),
    /// Not at all: the turn is over.
    End,
    /// Not at all: the turn has failed, and the job queue is told so.
    Fail(BotError),
}

pub enum NextView {
    Event(EventView),
    End,
    Fail(BotError),
}

impl View for Next {
    type V = NextView;

    open spec fn view(&self) -> NextView {
        match self {
            Next::Event(event) => NextView::Event(event@),
            Next::End => NextView::End,
            Next::Fail(reason) => NextView::Fail(*reason),
        }
    }
}

/// How a turn goes on after the actions of a step whose phase is `phase`.
/// A failure that is handed on ends the turn as failed. Any other failure
/// is the next event. Where all went well, a phase that awaits an answer
/// goes on with it, and counts a missing answer as a failure; a phase that
/// awaits none ends the turn.
pub open spec fn next(phase: PhaseView, outcome: OutcomeView) -> NextView {
    match outcome {
        OutcomeView::Failed(Recovery::HandOn, reason) => NextView::Fail(reason),
        OutcomeView::Failed(Recovery::Revert, reason) => NextView::Event(
            EventView::Failed(reason),
        ),
        OutcomeView::Performed(answer) => if phase.awaits_answer() {
            match answer {
                Some(event) => NextView::Event(event),
                None => NextView::Event(EventView::Failed(BotError::InvalidInput)),
            }
        } else {
            NextView::End
        },
    }
}

impl Phase {
    /// How the turn goes on after the actions of the step that led to this
    /// phase.
    pub fn next(&self, outcome: Outcome) -> (r: Next)
        ensures
            r@ == next(self@, outcome@),
    {
        match outcome {
            Outcome::Failed(Recovery::HandOn, reason) => Next::Fail(reason),
            Outcome::Failed(Recovery::Revert, reason) => Next::Event(Event::Failed(reason)),
            Outcome::Performed(answer) => {
                if self.awaits_answer() {
                    match answer {
                        Some(event) => Next::Event(event),
                        None => Next::Event(Event::Failed(BotError::InvalidInput)),
                    }
                } else {
                    Next::End
                }
            },
        }
    }
}

} // verus!
