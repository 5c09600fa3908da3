//! A weather bot for a chat service, as a library of decisions.
//!
//! The bot talks with users in turns: a user looks for a city, picks a
//! default city, asks for the weather or has it delivered every day. The
//! library decides what each message leads to and when a delivery is due;
//! the services that it directs (the chat service, the weather service, the
//! store, the job queue) are outside it. A turn is a run of steps: each
//! step names the actions to perform, and the answer to the last of them is
//! the event that opens the next step.

pub mod command;
pub mod db;
pub mod decimal;
pub mod deliver;
pub mod open_weather_map;
pub mod text;

use vstd::prelude::*;

verus! {

/// What an update lacks that a turn of the dialog needs.
#[derive(Debug, Clone, Copy, PartialEq, Eq, Structural)]
pub enum Missing {
    Message,
    Text,
    Sender,
}

/// The four kinds of failure.
#[derive(Debug, Clone, Copy, PartialEq, Eq, Structural)]
pub enum ErrorKind {
    /// A city or a chat was looked up and is not there.
    NotFound,
    /// A number, a time of day or an offset is malformed.
    InvalidInput,
    /// The chat service or the weather service failed.
    Upstream,
    /// The store failed.
    Storage,
}

#[derive(Debug, Clone, Copy, PartialEq, Eq, Structural)]
pub enum BotError {
    UpdateNotMessage(Missing),
    InvalidInput,
    TelegramError,
    DbError(db::BotDbError),
    WeatherApiError,
}

impl BotError {
    pub open spec fn spec_kind(self) -> ErrorKind {
        match self {
            BotError::UpdateNotMessage(_) => ErrorKind::InvalidInput,
            BotError::InvalidInput => ErrorKind::InvalidInput,
            BotError::TelegramError => ErrorKind::Upstream,
            BotError::WeatherApiError => ErrorKind::Upstream,
            BotError::DbError(db::BotDbError::CityNotFoundError) => ErrorKind::NotFound,
            BotError::DbError(db::BotDbError::NoTimestampsError) => ErrorKind::NotFound,
            BotError::DbError(db::BotDbError::CronError) => ErrorKind::InvalidInput,
            BotError::DbError(db::BotDbError::StorageError) => ErrorKind::Storage,
        }
    }

    /// The kind of this failure. Only `Upstream` and `Storage` failures end a
    /// turn from outside; the dialog answers the other two itself.
    #[verifier::when_used_as_spec(spec_kind)]
    pub fn kind(self) -> (r: ErrorKind)
        ensures
            r == self.spec_kind(),
    {
        match self {
            BotError::UpdateNotMessage(_) => ErrorKind::InvalidInput,
            BotError::InvalidInput => ErrorKind::InvalidInput,
            BotError::TelegramError => ErrorKind::Upstream,
            BotError::WeatherApiError => ErrorKind::Upstream,
            BotError::DbError(db::BotDbError::CityNotFoundError) => ErrorKind::NotFound,
            BotError::DbError(db::BotDbError::NoTimestampsError) => ErrorKind::NotFound,
            BotError::DbError(db::BotDbError::CronError) => ErrorKind::InvalidInput,
            BotError::DbError(db::BotDbError::StorageError) => ErrorKind::Storage,
        }
    }
}

} // verus!

