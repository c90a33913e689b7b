//! Error kinds of the control surface and the text each one hands to the
//! caller.

use vstd::prelude::*;

verus! {

/// Why a call failed.
///
/// The unit variants are local precondition failures, found before the engine
/// is touched. The variants that carry a `String` are engine-level failures:
/// they forward the engine's own message verbatim.
#[derive(Debug, PartialEq, Eq)]
pub enum Error {
    /// The configuration text is absent.
    NullConfig,
    /// The room name hint is absent.
    NullRoomName,
    /// The room code is absent.
    NullRoomCode,
    /// No callback was supplied.
    NoCallback,
    /// No session is installed.
    NoInstance,
    /// The session exposes no stop signal.
    NoSignal,
    /// The session's event stream could not be subscribed to.
    NoStream,
    /// The session's query service is unavailable.
    NoService,
    /// The room code does not begin with `U/`.
    Prefix,
    /// Splitting the room code on `-` does not give four parts.
    SegmentCount,
    /// The four parts of the room code hold fewer than 16 characters.
    Length,
    /// The configuration loader refused the text.
    ConfigParse(String),
    /// The engine could not be brought up.
    EngineStart(String),
    /// A query to the running engine failed.
    Query(String),
}

impl Error {
    /// The description handed to the caller.
    pub open spec fn message_spec(self) -> Seq<char> {
        match self {
            Error::NullConfig => "cfg_str is nullptr"@,
            Error::NullRoomName => "room_name is nullptr"@,
            Error::NullRoomCode => "room_code is nullptr"@,
            Error::NoCallback => "callback is null"@,
            Error::NoInstance => "no running instance"@,
            Error::NoSignal => "no stop notifier"@,
            Error::NoStream => "no event subscriber"@,
            Error::NoService => "no API service"@,
            Error::Prefix => "Invalid room code format. Must start with 'U/'"@,
            Error::SegmentCount => "Invalid room code format"@,
            Error::Length => "Invalid room code length"@,
            Error::ConfigParse(detail) => detail@,
            Error::EngineStart(detail) => detail@,
            Error::Query(detail) => detail@,
        }
    }

    /// The description handed to the caller: a fixed text for a local
    /// failure, the engine's message unchanged for an engine-level one.
    pub fn message(&self) -> (text: String)
        ensures
            text@ == self.message_spec(),
    {
        match self {
            Error::NullConfig => "cfg_str is nullptr".to_owned(),
            Error::NullRoomName => "room_name is nullptr".to_owned(),
            Error::NullRoomCode => "room_code is nullptr".to_owned(),
            Error::NoCallback => "callback is null".to_owned(),
            Error::NoInstance => "no running instance".to_owned(),
            Error::NoSignal => "no stop notifier".to_owned(),
            Error::NoStream => "no event subscriber".to_owned(),
            Error::NoService => "no API service".to_owned(),
            Error::Prefix => "Invalid room code format. Must start with 'U/'".to_owned(),
            Error::SegmentCount => "Invalid room code format".to_owned(),
            Error::Length => "Invalid room code length".to_owned(),
            Error::ConfigParse(detail) => detail.clone(),
            Error::EngineStart(detail) => detail.clone(),
            Error::Query(detail) => detail.clone(),
        }
    }

    /// Tags the failure of a query to the running engine, keeping the
    /// engine's message.
    pub fn from_query<T>(reply: Result<T, String>) -> (r: Result<T, Error>)
        ensures
            r == match reply {
                Ok(value) => Ok::<T, Error>(value),
                Err(detail) => Err::<T, Error>(Error::Query(detail)),
            },
    {
        match reply {
            Ok(value) => Ok(value),
            Err(detail) => Err(Error::Query(detail)),
        }
    }
}

} // verus!
