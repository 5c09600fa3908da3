//! Recurring deliveries: the job that sends one forecast, and the sweep that
//! finds the deliveries that are due.

use crate::db::calculate_next_delivery;
use crate::db::next_delivery;
use crate::db::BotDbError;
use crate::command::messages;
use crate::command::process_update_task::place;
use crate::command::rules::place_text;
use crate::db::forecast_views;
use crate::db::Forecast;
use crate::db::ForecastView;
use crate::open_weather_map::weather::City;
use crate::open_weather_map::weather::CityView;
use vstd::prelude::*;
use vstd::string::*;

verus! {

/// The task type of the deliveries.
pub const SCHEDULED_TASK_TYPE: &'static str = "scheduled_forecast";

/// The task type of the sweep. It is not that of the deliveries, so the
/// workers of the one never wait for the other.
pub const DELIVER_CHECKER_TASK_TYPE: &'static str = "deliver_checker";

/// The sweep runs every 30 seconds.
pub const CRON_DELIVER_CHECKER: &'static str = "0/30 * * * * * *";

/// One recurring delivery of the forecast for a city to a chat.
#[derive(Debug, PartialEq, Eq)]
pub struct ScheduleWeatherTask {
    pub cron_expression: String,
    pub chat_id: i64,
    pub user_id: u64,
    pub city_id: i32,
}

pub struct ScheduleWeatherTaskView {
    pub cron_expression: Seq<char>,
    pub chat_id: i64,
    pub user_id: u64,
    pub city_id: i32,
}

impl View for ScheduleWeatherTask {
    type V = ScheduleWeatherTaskView;

    open spec fn view(&self) -> ScheduleWeatherTaskView {
        ScheduleWeatherTaskView {
            cron_expression: self.cron_expression@,
            chat_id: self.chat_id,
            user_id: self.user_id,
            city_id: self.city_id,
        }
    }
}

impl Clone for ScheduleWeatherTask {
    fn clone(&self) -> (r: Self)
        ensures
            r == *self,
    {
        ScheduleWeatherTask {
            cron_expression: self.cron_expression.clone(),
            chat_id: self.chat_id,
            user_id: self.user_id,
            city_id: self.city_id,
        }
    }
}

pub open spec fn task_views(tasks: Seq<ScheduleWeatherTask>) -> Seq<ScheduleWeatherTaskView> {
    tasks.map_values(|t: ScheduleWeatherTask| t@)
}

/// What the ledger is told after a delivery was planned.
#[derive(Debug, PartialEq, Eq)]
pub struct ForecastUpdate {
    pub chat_id: i64,
    pub user_id: u64,
    pub city_id: i32,
    pub cron_expression: String,
    pub next_delivery_at: i64,
    pub updated_at: i64,
}

pub struct ForecastUpdateView {
    pub chat_id: i64,
    pub user_id: u64,
    pub city_id: i32,
    pub cron_expression: Seq<char>,
    pub next_delivery_at: i64,
    pub updated_at: i64,
}

impl View for ForecastUpdate {
    type V = ForecastUpdateView;

    open spec fn view(&self) -> ForecastUpdateView {
        ForecastUpdateView {
            chat_id: self.chat_id,
            user_id: self.user_id,
            city_id: self.city_id,
            cron_expression: self.cron_expression@,
            next_delivery_at: self.next_delivery_at,
            updated_at: self.updated_at,
        }
    }
}

/// One request of a delivery to a service. They are performed in order, and
/// the first that fails fails the delivery: the job queue then tries again.
#[derive(Debug, PartialEq, Eq)]
pub enum DeliveryAction {
    /// Look the city up in the directory.
    FindCity(i32),
    /// Write the next delivery into the ledger: update the row of this chat,
    /// user and city, or insert it where there is none.
    Upsert(ForecastUpdate),
    /// Hand the job to the queue again.
    Enqueue(ScheduleWeatherTask),
    /// Fetch the forecast for the city and send it to the chat, as a message
    /// of its own.
    SendForecast { chat_id: i64, city_id: i32 },
}

pub enum DeliveryActionView {
    FindCity(i32),
    Upsert(ForecastUpdateView),
    Enqueue(ScheduleWeatherTaskView),
    SendForecast { chat_id: i64, city_id: i32 },
}

impl View for DeliveryAction {
    type V = DeliveryActionView;

    open spec fn view(&self) -> DeliveryActionView {
        match self {
            DeliveryAction::FindCity(id) => DeliveryActionView::FindCity(*id),
            DeliveryAction::Upsert(u) => DeliveryActionView::Upsert(u@),
            DeliveryAction::Enqueue(t) => DeliveryActionView::Enqueue(t@),
            DeliveryAction::SendForecast { chat_id, city_id } => DeliveryActionView::SendForecast {
                chat_id: *chat_id,
                city_id: *city_id,
            },
        }
    }
}

pub open spec fn delivery_views(actions: Seq<DeliveryAction>) -> Seq<DeliveryActionView> {
    actions.map_values(|a: DeliveryAction| a@)
}

/// What one run of a delivery does, seen from `now`, where its next
/// occurrence is `next`: the ledger is written before anything is sent.
pub open spec fn delivery_plan(task: ScheduleWeatherTaskView, now: i64, next: i64) -> Seq<
    DeliveryActionView,
> {
    seq![
        DeliveryActionView::FindCity(task.city_id),
        DeliveryActionView::Upsert(
            ForecastUpdateView {
                chat_id: task.chat_id,
                user_id: task.user_id,
                city_id: task.city_id,
                cron_expression: task.cron_expression,
                next_delivery_at: next,
                updated_at: now,
            },
        ),
        DeliveryActionView::Enqueue(task),
        DeliveryActionView::SendForecast { chat_id: task.chat_id, city_id: task.city_id },
    ]
}

/// The text of a delivery: the heading, the place, the forecast.
pub open spec fn forecast_text(city: CityView, forecast: Seq<char>) -> Seq<char> {
    messages::FORECAST_HEAD@ + place_text(city) + forecast
}

impl ScheduleWeatherTask {
    /// When this delivery is next due, seen from `now`.
    pub fn compute_next_delivery(&self, now: i64) -> (r: Result<i64, BotDbError>)
        ensures
            match r {
                Ok(t) => next_delivery(self.cron_expression@, now as int) == Ok::<int, BotDbError>(
                    t as int,
                ),
                Err(e) => next_delivery(self.cron_expression@, now as int) == Err::<
                    int,
                    BotDbError,
                >(e),
            },
    {
        calculate_next_delivery(self.cron_expression.as_str(), now)
    }

    /// One run of this delivery at `now`: what to do, in order. A recurrence
    /// that has no next occurrence fails the run before anything is done.
    pub fn run(&self, now: i64) -> (r: Result<Vec<DeliveryAction>, BotDbError>)
        ensures
            match r {
                Ok(actions) => next_delivery(self.cron_expression@, now as int) is Ok
                    && delivery_views(actions@) == delivery_plan(
                    self@,
                    now,
                    next_delivery(self.cron_expression@, now as int).unwrap() as i64,
                ),
                Err(e) => next_delivery(self.cron_expression@, now as int) == Err::<
                    int,
                    BotDbError,
                >(e),
            },
    {
        let next = match self.compute_next_delivery(now) {
            Ok(t) => t,
            Err(e) => {
                return Err(e);
            },
        };
        let mut actions: Vec<DeliveryAction> = Vec::new();
        actions.push(DeliveryAction::FindCity(self.city_id));
        actions.push(
            DeliveryAction::Upsert(
                ForecastUpdate {
                    chat_id: self.chat_id,
                    user_id: self.user_id,
                    city_id: self.city_id,
                    cron_expression: self.cron_expression.clone(),
                    next_delivery_at: next,
                    updated_at: now,
                },
            ),
        );
        actions.push(DeliveryAction::Enqueue(self.clone()));
        actions.push(
            DeliveryAction::SendForecast { chat_id: self.chat_id, city_id: self.city_id },
        );
        assert(delivery_views(actions@) =~= delivery_plan(self@, now, next));
        Ok(actions)
    }

    /// The text that a delivery sends about `city`.
    pub fn message(city: &City, forecast: &str) -> (text: String)
        ensures
            text@ == forecast_text(city@, forecast@),
    {
        let mut text = String::from_str(messages::FORECAST_HEAD);
        let about = place(city);
        text.append(about.as_str());
        text.append(forecast);
        text
    }

    /// No chat holds two pending deliveries.
    pub fn uniq(&self) -> (r: bool)
        ensures
            r,
    {
        true
    }

    pub fn task_type(&self) -> (r: String)
        ensures
            r@ == SCHEDULED_TASK_TYPE@,
    {
        String::from_str(SCHEDULED_TASK_TYPE)
    }
}

/// Whether a row of the ledger is due at `now`.
pub open spec fn is_due(row: ForecastView, now: i64) -> bool {
    row.next_delivery_at <= now
}

/// The delivery that a row of the ledger stands for.
pub open spec fn job_of(row: ForecastView) -> ScheduleWeatherTaskView {
    ScheduleWeatherTaskView {
        cron_expression: row.cron_expression,
        chat_id: row.chat_id,
        user_id: row.user_id,
        city_id: row.city_id,
    }
}

/// The deliveries that a sweep at `now` enqueues for the rows of the ledger:
/// one for each row that is due, in the order of the rows.
pub open spec fn due_jobs(rows: Seq<ForecastView>, now: i64) -> Seq<ScheduleWeatherTaskView>
    decreases rows.len(),
{
    if rows.len() == 0 {
        Seq::empty()
    } else if is_due(rows.last(), now) {
        due_jobs(rows.drop_last(), now).push(job_of(rows.last()))
    } else {
        due_jobs(rows.drop_last(), now)
    }
}

/// The sweep that finds the deliveries that are due.
#[derive(Debug, Clone, Copy, PartialEq, Eq)]
pub struct DeliverChecker;

impl DeliverChecker {
    /// One sweep at `now` over the rows of the ledger: the deliveries to
    /// enqueue.
    pub fn run(&self, forecasts: &Vec<Forecast>, now: i64) -> (tasks: Vec<ScheduleWeatherTask>)
        ensures
            task_views(tasks@) == due_jobs(forecast_views(forecasts@), now),
    {
        let mut tasks: Vec<ScheduleWeatherTask> = Vec::new();
        let mut i: usize = 0;
        assert(task_views(tasks@) =~= due_jobs(forecast_views(forecasts@.take(0)), now));
        while i < forecasts.len()
            invariant
                i <= forecasts.len(),
                task_views(tasks@) == due_jobs(forecast_views(forecasts@.take(i as int)), now),
            decreases forecasts.len() - i,
        {
            let row = &forecasts[i];
            proof {
                let done = forecast_views(forecasts@.take(i as int));
                let next = forecast_views(forecasts@.take(i + 1));
                assert(next.drop_last() =~= done);
                assert(next.last() == row@);
            }
            if row.next_delivery_at <= now {
                let ghost before = tasks@;
                tasks.push(
                    ScheduleWeatherTask {
                        cron_expression: row.cron_expression.clone(),
                        chat_id: row.chat_id,
                        user_id: row.user_id,
                        city_id: row.city_id,
                    },
                );
                assert(task_views(tasks@) =~= task_views(before).push(job_of(row@)));
            }
            i += 1;
        }
        proof {
            assert(forecasts@.take(i as int) == forecasts@);
        }
        tasks
    }

    /// The queue holds at most one pending sweep.
    pub fn uniq(&self) -> (r: bool)
        ensures
            r,
    {
        true
    }

    /// The task type of the sweep, which no delivery and no turn of the
    /// dialog has.
    pub fn task_type(&self) -> (r: String)
        ensures
            r@ == DELIVER_CHECKER_TASK_TYPE@,
            r@ != SCHEDULED_TASK_TYPE@,
            r@ != messages::TASK_TYPE@,
    {
        proof {
            lemma_task_types_differ();
        }
        String::from_str(DELIVER_CHECKER_TASK_TYPE)
    }

    /// The recurrence of the sweep itself.
    pub fn cron(&self) -> (r: Option<String>)
        ensures
            r is Some,
            r.unwrap()@ == CRON_DELIVER_CHECKER@,
    {
        Some(String::from_str(CRON_DELIVER_CHECKER))
    }
}

/// The chat, user and city that a delivery is for.
pub open spec fn job_key(job: ScheduleWeatherTaskView) -> (i64, u64, i32) {
    (job.chat_id, job.user_id, job.city_id)
}

/// The ledger holds at most one row per chat, user and city.
pub open spec fn rows_unique(rows: Seq<ForecastView>) -> bool {
    forall|i: int, j: int|
        0 <= i < j < rows.len() ==> job_key(job_of(#[trigger] rows[i])) != job_key(
            job_of(#[trigger] rows[j]),
        )
}

/// Whether `job` is the delivery of a row that is due at `now`.
pub open spec fn of_due_row(rows: Seq<ForecastView>, now: i64, job: ScheduleWeatherTaskView) -> bool {
    exists|i: int| 0 <= i < rows.len() && is_due(#[trigger] rows[i], now) && job_of(rows[i]) == job
}

/// Whether `job` is among `jobs`.
pub open spec fn enqueued(jobs: Seq<ScheduleWeatherTaskView>, job: ScheduleWeatherTaskView) -> bool {
    exists|k: int| 0 <= k < jobs.len() && #[trigger] jobs[k] == job
}

/// A sweep enqueues nothing but due rows: each delivery that it enqueues
/// stands for a row whose next delivery is not after `now`.
pub proof fn lemma_sweep_only_due(rows: Seq<ForecastView>, now: i64)
    ensures
        forall|k: int|
            0 <= k < due_jobs(rows, now).len() ==> of_due_row(
                rows,
                now,
                #[trigger] due_jobs(rows, now)[k],
            ),
    decreases rows.len(),
{
    if rows.len() > 0 {
        let rest = rows.drop_last();
        lemma_sweep_only_due(rest, now);
        let jobs = due_jobs(rows, now);
        assert forall|k: int| 0 <= k < jobs.len() implies of_due_row(rows, now, #[trigger] jobs[k]) by {
            if k < due_jobs(rest, now).len() {
                assert(of_due_row(rest, now, due_jobs(rest, now)[k]));
                let i = choose|i: int|
                    0 <= i < rest.len() && is_due(#[trigger] rest[i], now) && job_of(rest[i])
                        == due_jobs(rest, now)[k];
                assert(rows[i] == rest[i]);
            } else {
                assert(is_due(rows[rows.len() - 1], now));
                assert(jobs[k] == job_of(rows[rows.len() - 1]));
            }
        }
    }
}

/// A sweep misses no due row: each row whose next delivery is not after
/// `now` has its delivery enqueued.
pub proof fn lemma_sweep_every_due(rows: Seq<ForecastView>, now: i64)
    ensures
        forall|i: int|
            0 <= i < rows.len() && is_due(#[trigger] rows[i], now) ==> enqueued(
                due_jobs(rows, now),
                job_of(rows[i]),
            ),
    decreases rows.len(),
{
    if rows.len() > 0 {
        let rest = rows.drop_last();
        lemma_sweep_every_due(rest, now);
        let jobs = due_jobs(rows, now);
        assert forall|i: int| 0 <= i < rows.len() && is_due(#[trigger] rows[i], now) implies enqueued(
            jobs,
            job_of(rows[i]),
        ) by {
            if i < rest.len() {
                assert(rows[i] == rest[i]);
                assert(enqueued(due_jobs(rest, now), job_of(rest[i])));
                let k = choose|k: int|
                    0 <= k < due_jobs(rest, now).len() && #[trigger] due_jobs(rest, now)[k]
                        == job_of(rest[i]);
                assert(jobs[k] == job_of(rows[i]));
            } else {
                assert(jobs[jobs.len() - 1] == job_of(rows[i]));
            }
        }
    }
}

/// A sweep enqueues no delivery twice: over a ledger with one row per chat,
/// user and city, no two of the deliveries of one sweep are for the same.
pub proof fn lemma_sweep_at_most_once(rows: Seq<ForecastView>, now: i64)
    requires
        rows_unique(rows),
    ensures
        forall|k: int, l: int|
            0 <= k < l < due_jobs(rows, now).len() ==> job_key(#[trigger] due_jobs(rows, now)[k])
                != job_key(#[trigger] due_jobs(rows, now)[l]),
    decreases rows.len(),
{
    if rows.len() > 0 {
        let rest = rows.drop_last();
        assert forall|i: int, j: int| 0 <= i < j < rest.len() implies job_key(
            job_of(#[trigger] rest[i]),
        ) != job_key(job_of(#[trigger] rest[j])) by {
            assert(rest[i] == rows[i]);
            assert(rest[j] == rows[j]);
        }
        lemma_sweep_at_most_once(rest, now);
        lemma_sweep_only_due(rest, now);
        let jobs = due_jobs(rows, now);
        let before = due_jobs(rest, now);
        assert forall|k: int, l: int| 0 <= k < l < jobs.len() implies job_key(#[trigger] jobs[k])
            != job_key(#[trigger] jobs[l]) by {
            if l < before.len() {
                assert(jobs[k] == before[k]);
                assert(jobs[l] == before[l]);
            } else {
                assert(of_due_row(rest, now, before[k]));
                let i = choose|i: int|
                    0 <= i < rest.len() && is_due(#[trigger] rest[i], now) && job_of(rest[i])
                        == before[k];
                assert(rest[i] == rows[i]);
                assert(jobs[k] == before[k]);
                assert(jobs[l] == job_of(rows[rows.len() - 1]));
            }
        }
    }
}

/// The sweep, the deliveries and the turns of the dialog are three
/// identities in the job queue: no two of them have the same task type.
pub proof fn lemma_task_types_differ()
    ensures
        DELIVER_CHECKER_TASK_TYPE@ != SCHEDULED_TASK_TYPE@,
        DELIVER_CHECKER_TASK_TYPE@ != messages::TASK_TYPE@,
        SCHEDULED_TASK_TYPE@ != messages::TASK_TYPE@,
{
    reveal_strlit("deliver_checker");
    reveal_strlit("scheduled_forecast");
    reveal_strlit("process_update");
    assert(DELIVER_CHECKER_TASK_TYPE@.len() == 15);
    assert(SCHEDULED_TASK_TYPE@.len() == 18);
    assert(messages::TASK_TYPE@.len() == 14);
}

} // verus!
