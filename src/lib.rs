//! Builds download requests for historical price data: the request URL for an
//! instrument and a time range, the calendar dates that bound the range, and the
//! rule that decides whether a response carries data.
pub mod calendar;
pub mod url;
pub mod error;
pub mod response;
