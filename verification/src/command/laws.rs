//! What holds of the dialog whatever the message and the chat.

use crate::command::messages;
use crate::command::model::apply_action;
use crate::command::model::apply_actions;
use crate::command::model::next;
use crate::command::model::recovery;
use crate::command::model::ActionView;
use crate::command::model::NextView;
use crate::command::model::OutcomeView;
use crate::command::model::Recovery;
use crate::command::model::EventView;
use crate::command::model::PhaseView;
use crate::command::rules;
use crate::command::rules::CommandView;
use crate::command::rules::ProcessorView;
use crate::command::schedule::spec_utc_hour;
use crate::command::schedule::cron_pattern;
use crate::db::city_row;
use crate::db::BotDbError;
use crate::db::ChatView;
use crate::db::ClientState;
use crate::decimal::int_to_decimal;
use crate::decimal::is_digit;
use crate::decimal::lemma_decimal_digits;
use crate::decimal::lemma_parse_decimal;
use crate::decimal::parse_int_in;
use crate::deliver::ScheduleWeatherTaskView;
use crate::open_weather_map::weather::CityView;
use crate::text::only_at;
use crate::text::strip_suffix;
use crate::text::trim;
use crate::text::trim_end;
use crate::text::trim_start;
use crate::BotError;
use vstd::prelude::*;

verus! {

/// Whether a chat record is where a dialog starts.
pub open spec fn at_rest(chat: ChatView) -> bool {
    chat.state == ClientState::Initial && chat.before_state == ClientState::Initial
}

pub proof fn lemma_apply_push(chat: ChatView, actions: Seq<ActionView>, last: ActionView)
    ensures
        apply_actions(chat, actions.push(last)) == apply_action(
            apply_actions(chat, actions),
            last,
        ),
{
    assert(actions.push(last).drop_last() == actions);
}

/// Whatever was done before, a chat is at rest once it was returned to its
/// initial state.
pub proof fn lemma_returned(chat: ChatView, before: Seq<ActionView>)
    ensures
        at_rest(apply_actions(chat, before + rules::return_to_initial())),
{
    let a = ActionView::SetBeforeState(ClientState::Initial);
    let b = ActionView::SetState(ClientState::Initial);
    assert(before + rules::return_to_initial() == before.push(a).push(b));
    lemma_apply_push(chat, before.push(a), b);
    lemma_apply_push(chat, before, a);
}

/// Whatever was done before, a chat is at rest after a cancellation.
pub proof fn lemma_cancelled(
    chat: ChatView,
    before: Seq<ActionView>,
    p: ProcessorView,
    text: Seq<char>,
)
    ensures
        at_rest(apply_actions(chat, before + rules::cancel(p, text))),
{
    let say = rules::say(p, text);
    assert(before + rules::cancel(p, text) == (before + rules::return_to_initial()).push(say));
    lemma_apply_push(chat, before + rules::return_to_initial(), say);
    lemma_returned(chat, before);
}

/// After a cancel command the chat is at rest, whatever its state was: the
/// first step of the turn ends it and returns the chat to its initial state.
pub proof fn lemma_cancel_returns_to_initial(p: ProcessorView)
    requires
        p.command is Cancel,
    ensures
        rules::step(p, PhaseView::Ready, EventView::Begin).phase is Closing,
        rules::step(p, PhaseView::Ready, EventView::Begin).failure is None,
        at_rest(
            apply_actions(p.chat, rules::step(p, PhaseView::Ready, EventView::Begin).actions),
        ),
{
    lemma_cancelled(p.chat, seq![ActionView::SendTyping], p, messages::CANCELED@);
}

/// A failure of a service is answered by one attempt to put the chat back,
/// which leaves it at rest where it succeeds; a failure of that attempt ends
/// the turn with nothing done.
pub proof fn lemma_failure_is_reverted_once(p: ProcessorView, phase: PhaseView, reason: BotError)
    ensures
        !(phase is Reverting) && !(phase is Finished) ==> rules::step(
            p,
            phase,
            EventView::Failed(reason),
        ) == rules::revert(p, reason),
        rules::revert(p, reason).phase is Reverting,
        at_rest(apply_actions(p.chat, rules::revert(p, reason).actions)),
        rules::step(p, PhaseView::Reverting, EventView::Failed(reason)) == rules::over(
            Some(reason),
        ),
        rules::over(Some(reason)).actions.len() == 0,
{
    let none = Seq::<ActionView>::empty();
    lemma_cancelled(p.chat, none, p, messages::CANCELED@);
    assert(none + rules::cancel(p, messages::CANCELED@) == rules::cancel(p, messages::CANCELED@));
}

/// No failure leaves a chat in the middle of a dialog: a step that reports
/// one returns the chat to its initial state, unless the failure is that of
/// this very return.
pub proof fn lemma_failure_returns_to_initial(
    p: ProcessorView,
    phase: PhaseView,
    event: EventView,
)
    requires
        !(phase is Reverting),
        rules::step(p, phase, event).failure is Some,
    ensures
        at_rest(apply_actions(p.chat, rules::step(p, phase, event).actions)),
{
    let s = rules::step(p, phase, event);
    let none = Seq::<ActionView>::empty();
    assert forall|text: Seq<char>| at_rest(apply_actions(p.chat, #[trigger] rules::cancel(p, text))) by {
        lemma_cancelled(p.chat, none, p, text);
        assert(none + rules::cancel(p, text) == rules::cancel(p, text));
    }
    let typing = seq![ActionView::SendTyping];
    assert forall|text: Seq<char>|
        at_rest(apply_actions(p.chat, typing + #[trigger] rules::cancel(p, text))) by {
        lemma_cancelled(p.chat, typing, p, text);
    }
    match (phase, event) {
        (PhaseView::Ready, EventView::Begin) => {
            let d = rules::dispatch(p);
            assert(s.actions == typing + d.actions);
            assert(d.failure is Some);
        },
        (PhaseView::ListingCities, EventView::Cities(cities)) => {
            lemma_returned(p.chat, seq![rules::say(p, rules::not_found_text(p.text))]);
        },
        _ => {},
    }
}

/// Picking a number from the list resolves to the city on the line of that
/// number: for `n` from 1 to the length of the list, the city is the `n`-th
/// that the search returned, the list up to that number ends with that
/// city's line, and the whole list starts with it. Any other `n` is refused
/// with `CityNotFoundError`, and the chat returns to its initial state.
pub proof fn lemma_pick_resolves_listed_city(p: ProcessorView, n: int, cities: Seq<CityView>)
    ensures
        1 <= n <= cities.len() ==> {
            &&& city_row(cities, n) == Ok::<CityView, BotDbError>(cities[n - 1])
            &&& rules::city_lines(cities.take(n)) == rules::city_lines(cities.take(n - 1))
                + rules::city_line(n, cities[n - 1])
            &&& rules::city_lines(cities.take(n)).is_prefix_of(rules::city_lines(cities))
            &&& rules::pick_city(p, n, cities).failure is None
            &&& rules::picks_default(p.chat) ==> rules::pick_city(p, n, cities).actions
                == rules::return_to_initial() + seq![
                ActionView::SetDefaultCity(cities[n - 1].id),
                rules::say(p, messages::CITY_UPDATED@),
            ]
            &&& !rules::picks_default(p.chat) ==> rules::pick_city(p, n, cities).phase
                == PhaseView::Reporting(cities[n - 1])
        },
        !(1 <= n <= cities.len()) ==> {
            &&& rules::pick_city(p, n, cities).failure == Some(
                BotError::DbError(BotDbError::CityNotFoundError),
            )
            &&& rules::pick_city(p, n, cities).phase is Closing
            &&& at_rest(apply_actions(p.chat, rules::pick_city(p, n, cities).actions))
        },
{
    if 1 <= n <= cities.len() {
        assert(cities.take(n).drop_last() == cities.take(n - 1));
        assert(cities.take(n).last() == cities[n - 1]);
        lemma_lines_prefix(cities, n);
    } else {
        let none = Seq::<ActionView>::empty();
        lemma_cancelled(p.chat, none, p, messages::CANCELED@);
        assert(none + rules::cancel(p, messages::CANCELED@) == rules::cancel(
            p,
            messages::CANCELED@,
        ));
    }
}

/// A shorter list is the start of a longer one: the numbers on the lines do
/// not depend on how many lines follow.
pub proof fn lemma_lines_prefix(cities: Seq<CityView>, n: int)
    requires
        0 <= n <= cities.len(),
    ensures
        rules::city_lines(cities.take(n)).is_prefix_of(rules::city_lines(cities)),
    decreases cities.len() - n,
{
    if n == cities.len() {
        assert(cities.take(n) == cities);
    } else {
        lemma_lines_prefix(cities.drop_last(), n);
        assert(cities.drop_last().take(n) == cities.take(n));
    }
}

/// A message that is no number is refused as invalid input, and the chat
/// returns to its initial state.
pub proof fn lemma_not_a_number_is_refused(p: ProcessorView)
    requires
        crate::decimal::parse_nat_upto(p.text, u64::MAX as int) is None,
    ensures
        rules::process_number(p).failure == Some(BotError::InvalidInput),
        rules::process_number(p).phase is Closing,
        at_rest(apply_actions(p.chat, rules::process_number(p).actions)),
{
    let none = Seq::<ActionView>::empty();
    lemma_cancelled(p.chat, none, p, messages::NOT_NUMBER@);
    assert(none + rules::cancel(p, messages::NOT_NUMBER@) == rules::cancel(
        p,
        messages::NOT_NUMBER@,
    ));
}

/// The hour in UTC is an hour of the day, and it is the local hour less the
/// offset, up to whole days.
pub proof fn lemma_utc_hour_wraps(hour: int, offset: int)
    ensures
        0 <= spec_utc_hour(hour, offset) <= 23,
        spec_utc_hour(hour, offset) == (hour - offset) % 24,
        exists|days: int| hour - offset == #[trigger] (days * 24) + spec_utc_hour(hour, offset),
{
    let d = hour - offset;
    assert(d == (d / 24) * 24 + d % 24) by (nonlinear_arith);
}

/// The separator between hour and minutes is one colon.
pub proof fn lemma_colon()
    ensures
        messages::COLON@ == seq![':'],
{
    reveal_strlit(":");
    assert(messages::COLON@ =~= seq![':']);
}

/// The time of day that one turn stores is the time of day that the next
/// turn reads: hour and minutes come back as they were, written without
/// leading zeros.
pub proof fn lemma_time_reads_back(hour: int, minutes: int)
    requires
        0 <= hour <= 23,
        0 <= minutes <= 59,
    ensures
        rules::time_of(rules::time_text(hour, minutes)) == Some(
            rules::TimeOfDay {
                hour_text: int_to_decimal(hour),
                minute_text: int_to_decimal(minutes),
                hour,
                minutes,
            },
        ),
{
    let a = int_to_decimal(hour);
    let b = int_to_decimal(minutes);
    let s = rules::time_text(hour, minutes);
    lemma_colon();
    lemma_decimal_digits(hour as nat);
    lemma_decimal_digits(minutes as nat);
    lemma_parse_decimal(hour);
    lemma_parse_decimal(minutes);
    let at = a.len() as int;
    assert(s == a + seq![':'] + b);
    assert(s[at] == ':');
    assert forall|j: int| 0 <= j < s.len() && j != at implies #[trigger] s[j] != ':' by {
        if j < at {
            assert(s[j] == a[j]);
            assert(is_digit(a[j]));
        } else {
            assert(s[j] == b[j - at - 1]);
            assert(is_digit(b[j - at - 1]));
        }
    }
    assert(only_at(s, ':', at));
    let found = choose|i: int| only_at(s, ':', i);
    assert(found == at) by {
        if found != at {
            assert(s[found] != ':');
        }
    }
    assert(s.take(at) == a);
    assert(s.skip(at + 1) == b);
}

/// A schedule is made in two turns, and what is scheduled is the time of
/// the first turn moved by the offset of the second: where the first
/// message reads as `hour:minutes` and the second as an offset, the second
/// turn hands the job queue a daily delivery at minute `minutes` of the hour
/// `(hour - offset) mod 24` in UTC for the default city, records the
/// offset, and leaves the chat at rest.
pub proof fn lemma_schedule_in_two_turns(first: ProcessorView, second: ProcessorView)
    requires
        !(first.command is Cancel),
        first.chat.state == ClientState::AwaitingScheduleTime,
        first.chat.default_city_id is Some,
        rules::time_of(trim(first.text)) is Some,
        !(second.command is Cancel),
        second.chat == apply_actions(
            first.chat,
            rules::step(first, PhaseView::Ready, EventView::Begin).actions,
        ),
        parse_int_in(second.text, -11, 12) is Some,
    ensures
        second.chat.state == ClientState::AwaitingScheduleOffset,
        rules::step(second, PhaseView::Ready, EventView::Begin).failure is None,
        rules::step(second, PhaseView::Ready, EventView::Begin).phase is Closing,
        rules::step(second, PhaseView::Ready, EventView::Begin).actions[1] == ActionView::Schedule(
            ScheduleWeatherTaskView {
                cron_expression: cron_pattern(
                    rules::time_of(trim(first.text)).unwrap().minutes,
                    spec_utc_hour(
                        rules::time_of(trim(first.text)).unwrap().hour,
                        parse_int_in(second.text, -11, 12).unwrap(),
                    ),
                ),
                chat_id: first.chat.id,
                user_id: first.chat.user_id,
                city_id: first.chat.default_city_id.unwrap(),
            },
        ),
        rules::step(second, PhaseView::Ready, EventView::Begin).actions[2] == ActionView::SetOffset(
            parse_int_in(second.text, -11, 12).unwrap() as i8,
        ),
        at_rest(
            apply_actions(
                second.chat,
                rules::step(second, PhaseView::Ready, EventView::Begin).actions,
            ),
        ),
{
    let t = rules::time_of(trim(first.text)).unwrap();
    let typing = ActionView::SendTyping;
    let a1 = ActionView::SetSelected(rules::time_text(t.hour, t.minutes));
    let a2 = ActionView::SetState(ClientState::AwaitingScheduleOffset);
    let a3 = rules::say(first, messages::ASK_OFFSET@);
    let done = rules::step(first, PhaseView::Ready, EventView::Begin).actions;
    assert(done == seq![typing].push(a1).push(a2).push(a3));
    lemma_apply_push(first.chat, seq![typing].push(a1).push(a2), a3);
    lemma_apply_push(first.chat, seq![typing].push(a1), a2);
    lemma_apply_push(first.chat, seq![typing], a1);
    lemma_apply_push(first.chat, Seq::empty(), typing);
    assert(Seq::<ActionView>::empty().push(typing) == seq![typing]);
    assert(second.chat.selected == Some(rules::time_text(t.hour, t.minutes)));
    lemma_time_reads_back(t.hour, t.minutes);
    let offset = parse_int_in(second.text, -11, 12).unwrap();
    let stored = rules::stored_time(second.chat).unwrap();
    let job = ActionView::Schedule(
        ScheduleWeatherTaskView {
            cron_expression: cron_pattern(t.minutes, spec_utc_hour(t.hour, offset)),
            chat_id: first.chat.id,
            user_id: first.chat.user_id,
            city_id: first.chat.default_city_id.unwrap(),
        },
    );
    let record = ActionView::SetOffset(offset as i8);
    lemma_cancelled(
        second.chat,
        seq![typing, job, record],
        second,
        rules::scheduled_text(stored, offset),
    );
    assert(rules::step(second, PhaseView::Ready, EventView::Begin).actions == seq![
        typing,
        job,
        record,
    ] + rules::cancel(second, rules::scheduled_text(stored, offset)));
}

/// The message "/cancel" is the cancel command.
pub proof fn lemma_cancel_is_a_command()
    ensures
        rules::command_of(messages::CMD_CANCEL@) == CommandView::Cancel,
{
    let s = messages::CMD_CANCEL@;
    reveal_strlit("/cancel");
    reveal_strlit("/start");
    reveal_strlit("/find_city");
    reveal_strlit("/default");
    reveal_strlit("/set_default_city");
    reveal_strlit("@RustWeather77Bot");
    assert(s.len() == 7);
    assert(messages::BOT_NAME@.len() == 17);
    assert(strip_suffix(s, messages::BOT_NAME@) == s);
    assert(s[0] == '/');
    assert(s[6] == 'l');
    assert(s.last() == 'l');
    assert(trim_start(s) == s);
    assert(trim_end(s) == s);
}

/// What a chat record holds whenever its dialog waits for a message: a
/// chat in its initial state belongs to no flow, a dialog that waits for a
/// number has the pattern of its list, the number of a default city is
/// awaited in the flow that sets one and in no other, and a dialog that
/// waits for an offset has a time of day and a default city.
pub open spec fn consistent(chat: ChatView) -> bool {
    &&& chat.state == ClientState::Initial ==> chat.before_state == ClientState::Initial
    &&& chat.state == ClientState::PickingFoundCityNumber || chat.state
        == ClientState::PickingDefaultCityNumber ==> chat.selected is Some
    &&& chat.state == ClientState::PickingDefaultCityNumber ==> chat.before_state
        == ClientState::SettingDefaultCity
    &&& chat.state == ClientState::PickingFoundCityNumber ==> chat.before_state
        != ClientState::SettingDefaultCity
    &&& chat.state == ClientState::AwaitingScheduleOffset ==> rules::stored_time(chat) is Some
        && chat.default_city_id is Some
}

/// A short run of actions, done one by one.
pub proof fn lemma_apply_each(chat: ChatView, actions: Seq<ActionView>)
    requires
        actions.len() <= 5,
    ensures
        actions.len() == 0 ==> apply_actions(chat, actions) == chat,
        actions.len() == 1 ==> apply_actions(chat, actions) == apply_action(chat, actions[0]),
        actions.len() == 2 ==> apply_actions(chat, actions) == apply_action(
            apply_action(chat, actions[0]),
            actions[1],
        ),
        actions.len() == 3 ==> apply_actions(chat, actions) == apply_action(
            apply_action(apply_action(chat, actions[0]), actions[1]),
            actions[2],
        ),
        actions.len() == 4 ==> apply_actions(chat, actions) == apply_action(
            apply_action(apply_action(apply_action(chat, actions[0]), actions[1]), actions[2]),
            actions[3],
        ),
        actions.len() == 5 ==> apply_actions(chat, actions) == apply_action(
            apply_action(
                apply_action(apply_action(apply_action(chat, actions[0]), actions[1]), actions[2]),
                actions[3],
            ),
            actions[4],
        ),
    decreases actions.len(),
{
    if actions.len() > 0 {
        lemma_apply_each(chat, actions.drop_last());
    }
}

/// The typing indicator changes nothing in the record.
pub proof fn lemma_typing_first(chat: ChatView, actions: Seq<ActionView>)
    ensures
        apply_actions(chat, seq![ActionView::SendTyping] + actions) == apply_actions(
            chat,
            actions,
        ),
    decreases actions.len(),
{
    let typing = seq![ActionView::SendTyping];
    if actions.len() == 0 {
        assert(typing + actions == typing);
        lemma_apply_each(chat, typing);
    } else {
        lemma_typing_first(chat, actions.drop_last());
        assert((typing + actions).drop_last() == typing + actions.drop_last());
        assert((typing + actions).last() == actions.last());
    }
}

/// A new chat record is consistent, and the dialog keeps it so: whatever
/// the message, the phase and the event, a step takes a consistent record to
/// a consistent record. So a dialog that waits for a number always finds its pattern, and
/// one that waits for an offset always finds its time of day and its city.
pub proof fn lemma_step_keeps_chat_consistent(
    p: ProcessorView,
    phase: PhaseView,
    event: EventView,
)
    requires
        consistent(p.chat),
    ensures
        consistent(apply_actions(p.chat, rules::step(p, phase, event).actions)),
        forall|id: i64, user_id: u64| consistent(#[trigger] crate::db::Chat::spec_new(id, user_id)),
{
    let s = rules::step(p, phase, event);
    let chat = p.chat;
    if s.failure is Some && !(phase is Reverting) {
        lemma_failure_returns_to_initial(p, phase, event);
    } else {
        match (phase, event) {
            (PhaseView::Ready, EventView::Begin) => {
                let d = rules::dispatch(p);
                lemma_typing_first(chat, d.actions);
                if p.command is Cancel {
                    lemma_cancel_returns_to_initial(p);
                } else {
                    match chat.state {
                        ClientState::Initial => {
                            if p.command is FindCity || p.command is Start || p.command
                                is SetDefaultCity || p.command is Default || p.command
                                is Schedule {
                                lemma_apply_each(chat, d.actions);
                            } else {
                                lemma_cancelled(chat, Seq::empty(), p, messages::UNKNOWN_COMMAND@);
                                assert(Seq::<ActionView>::empty() + d.actions == d.actions);
                            }
                        },
                        ClientState::AwaitingScheduleTime => {
                            let t = rules::time_of(trim(p.text)).unwrap();
                            lemma_apply_each(chat, d.actions);
                            lemma_time_reads_back(t.hour, t.minutes);
                        },
                        ClientState::AwaitingScheduleOffset => {
                            let t = rules::stored_time(chat).unwrap();
                            let offset = parse_int_in(p.text, -11, 12).unwrap();
                            lemma_cancelled(
                                chat,
                                seq![d.actions[0], d.actions[1]],
                                p,
                                rules::scheduled_text(t, offset),
                            );
                        },
                        _ => {
                            lemma_apply_each(chat, d.actions);
                        },
                    }
                }
            },
            (PhaseView::PickingCity(n), EventView::Cities(cities)) => {
                lemma_returned(chat, Seq::empty());
                assert(Seq::<ActionView>::empty() + rules::return_to_initial()
                    == rules::return_to_initial());
                let back = apply_actions(chat, rules::return_to_initial());
                let city = cities[n as int - 1];
                if rules::picks_default(chat) {
                    let a = ActionView::SetDefaultCity(city.id);
                    let b = rules::say(p, messages::CITY_UPDATED@);
                    assert(s.actions == rules::return_to_initial().push(a).push(b));
                    lemma_apply_push(chat, rules::return_to_initial().push(a), b);
                    lemma_apply_push(chat, rules::return_to_initial(), a);
                } else {
                    lemma_apply_push(chat, rules::return_to_initial(), ActionView::FetchWeather(city));
                }
            },
            _ => {
                if s.actions.len() <= 5 {
                    lemma_apply_each(chat, s.actions);
                }
            },
        }
    }
}

/// Every turn opens with the typing indicator, before anything else is
/// asked of a service, and a failure of it does not count: whatever the
/// message and the chat, the first action of the first step is the typing
/// indicator, no other action of that step is one, and its failure leads to
/// nothing, so that the actions after it are performed all the same.
pub proof fn lemma_typing_comes_first_and_does_not_count(p: ProcessorView)
    ensures
        rules::step(p, PhaseView::Ready, EventView::Begin).actions.len() >= 2,
        rules::step(p, PhaseView::Ready, EventView::Begin).actions[0] == ActionView::SendTyping,
        forall|i: int|
            1 <= i < rules::step(p, PhaseView::Ready, EventView::Begin).actions.len() ==> !(
            #[trigger] rules::step(p, PhaseView::Ready, EventView::Begin).actions[i]
                is SendTyping),
        recovery(ActionView::SendTyping) is None,
{
    let d = rules::dispatch(p);
    let s = rules::step(p, PhaseView::Ready, EventView::Begin);
    assert(s.actions == seq![ActionView::SendTyping] + d.actions);
    assert forall|text: Seq<char>, i: int| 0 <= i < 3 implies !(#[trigger] rules::cancel(p, text)[i]
        is SendTyping) by {}
    assert(d.actions.len() >= 1);
    assert forall|i: int| 0 <= i < d.actions.len() implies !(#[trigger] d.actions[i]
        is SendTyping) by {
        if !(p.command is Cancel) && p.chat.state == ClientState::AwaitingScheduleOffset
            && d.failure is None {
            let t = rules::stored_time(p.chat).unwrap();
            let offset = parse_int_in(p.text, -11, 12).unwrap();
            if i >= 2 {
                assert(d.actions[i] == rules::cancel(p, rules::scheduled_text(t, offset))[i - 2]);
            }
        }
    }
    assert forall|i: int| 1 <= i < s.actions.len() implies !(#[trigger] s.actions[i]
        is SendTyping) by {
        assert(s.actions[i] == d.actions[i - 1]);
    }
}

/// A failure is handed on to the job queue for one action alone, the
/// handing of a job to that queue; a turn that fails so ends at once, with
/// nothing more done to the chat. Every other failure that counts becomes
/// the event that puts the chat back.
pub proof fn lemma_only_the_queue_fails_a_turn(
    p: ProcessorView,
    phase: PhaseView,
    action: ActionView,
    reason: BotError,
)
    ensures
        recovery(action) == Some(Recovery::HandOn) <==> action is Schedule,
        recovery(action) is None <==> action is SendTyping,
        next(phase, OutcomeView::Failed(Recovery::HandOn, reason)) == NextView::Fail(reason),
        next(phase, OutcomeView::Failed(Recovery::Revert, reason)) == NextView::Event(
            EventView::Failed(reason),
        ),
        !(phase is Reverting) && !(phase is Finished) ==> rules::step(
            p,
            phase,
            EventView::Failed(reason),
        ) == rules::revert(p, reason),
{
}

/// A turn ends: the step after a phase that awaits no answer is never
/// asked for, and a phase that awaits one goes on with that answer.
pub proof fn lemma_turn_goes_on_with_the_answer(phase: PhaseView, answer: Option<EventView>)
    ensures
        !phase.awaits_answer() ==> next(phase, OutcomeView::Performed(answer)) == NextView::End,
        phase.awaits_answer() && answer is Some ==> next(phase, OutcomeView::Performed(answer))
            == NextView::Event(answer.unwrap()),
        phase.awaits_answer() && answer is None ==> next(phase, OutcomeView::Performed(answer))
            == NextView::Event(EventView::Failed(BotError::InvalidInput)),
{
}

} // verus!
