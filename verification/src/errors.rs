//! Application error codes and the construction of error notifications.

use vstd::prelude::*;
use crate::events::Message;

verus! {

/// Codes for the error conditions the recorder can surface.
#[derive(Debug, Clone, Copy, PartialEq, Eq, Structural)]
pub enum ErrorCode {
    ConfigError,
    ConnectionError,
    NotConnected,
    StreamError,
    WriteError,
    ReadError,
    AppHandleNotInitialized,
}

/// The numeric value carried by each code: configuration errors sit below
/// ten, connection errors in the tens, stream errors in the twenties, and
/// system errors in the thirties.
pub open spec fn spec_code_value(code: ErrorCode) -> u8 {
    match code {
        ErrorCode::ConfigError => 0,
        ErrorCode::ConnectionError => 10,
        ErrorCode::NotConnected => 11,
        ErrorCode::StreamError => 20,
        ErrorCode::WriteError => 21,
        ErrorCode::ReadError => 22,
        ErrorCode::AppHandleNotInitialized => 30,
    }
}

/// The symbolic name of each code.
pub open spec fn spec_code_str(code: ErrorCode) -> Seq<char> {
    match code {
        ErrorCode::ConfigError => "CONFIG_ERROR"@,
        ErrorCode::ConnectionError => "CONNECTION_ERROR"@,
        ErrorCode::NotConnected => "NOT_CONNECTED"@,
        ErrorCode::StreamError => "STREAM_ERROR"@,
        ErrorCode::WriteError => "WRITE_ERROR"@,
        ErrorCode::ReadError => "READ_ERROR"@,
        ErrorCode::AppHandleNotInitialized => "APP_HANDLE_NOT_INITIALIZED"@,
    }
}

impl ErrorCode {
    /// The numeric value of the code.
    pub fn code(&self) -> (v: u8)
        ensures
            v == spec_code_value(*self),
    {
        match self {
            ErrorCode::ConfigError => 0,
            ErrorCode::ConnectionError => 10,
            ErrorCode::NotConnected => 11,
            ErrorCode::StreamError => 20,
            ErrorCode::WriteError => 21,
            ErrorCode::ReadError => 22,
            ErrorCode::AppHandleNotInitialized => 30,
        }
    }

    /// The symbolic name of the code.
    pub fn as_str(&self) -> (s: &'static str)
        ensures
            s@ == spec_code_str(*self),
    {
        match self {
            ErrorCode::ConfigError => "CONFIG_ERROR",
            ErrorCode::ConnectionError => "CONNECTION_ERROR",
            ErrorCode::NotConnected => "NOT_CONNECTED",
            ErrorCode::StreamError => "STREAM_ERROR",
            ErrorCode::WriteError => "WRITE_ERROR",
            ErrorCode::ReadError => "READ_ERROR",
            ErrorCode::AppHandleNotInitialized => "APP_HANDLE_NOT_INITIALIZED",
        }
    }
}

/// Why a recording could not start, or a stop could not do more than
/// tear down.
#[derive(Debug, Clone, Copy, PartialEq, Eq, Structural)]
pub enum RecorderError {
    /// A session is already active: at most one recording at a time.
    AlreadyRecording,
    /// The selector matched no device and no default was available.
    DeviceNotFound,
    /// The device's native format cannot be captured.
    DeviceConfigError,
}

/// Builds error notifications for the presentation layer. Delivery itself is
/// a transport concern and happens outside the library; the emitter appends
/// each built notification to the log handed to it.
pub struct ErrorEmitter;

impl ErrorEmitter {
    /// Builds the error notification for one condition: the numeric code,
    /// its symbolic name, the free-form message, and the given timestamp.
    pub fn make_error(code: ErrorCode, message: String, timestamp: u128) -> (m: Message)
        ensures
            m matches Message::Error { code: c, code_str, message: msg, timestamp: t }
                && c == spec_code_value(code)
                && code_str@ == spec_code_str(code)
                && msg == message
                && t == timestamp,
    {
        Message::Error {
            code: code.code(),
            code_str: code.as_str().to_owned(),
            message,
            timestamp,
        }
    }

    /// Records one error condition: builds the notification and appends it
    /// to the log, which an outside transport drains.
    pub fn emit_error(code: ErrorCode, message: String, timestamp: u128, log: &mut Vec<Message>)
        ensures
            final(log)@.len() == old(log)@.len() + 1,
            final(log)@ == old(log)@.push(final(log)@.last()),
            final(log)@.last() matches Message::Error { code: c, code_str, message: m, timestamp: t }
                && c == spec_code_value(code)
                && code_str@ == spec_code_str(code)
                && m == message
                && t == timestamp,
    {
        let m = Self::make_error(code, message, timestamp);
        log.push(m);
    }
}

} // verus!
