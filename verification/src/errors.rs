use vstd::prelude::*;

verus! {

/// The ways a query can fail, mutually exclusive by construction.
///
/// The first two variants report a failure to acquire the configuration
/// text and carry a description of the underlying cause; the last two
/// report a failure while resolving a friend's time and carry the string
/// that could not be handled.
#[derive(Debug, PartialEq, Eq)]
pub enum WhatTimeError {
    /// The configuration could not be read from a local file.
    ReadConfigFromDiskError(String),
    /// The configuration could not be fetched over HTTP.
    ReadConfigViaHttpError(String),
    /// The requested friend has no entry in the directory; carries the
    /// name as it was asked for.
    UnknownFriendError(String),
    /// The friend's configured zone string is not a recognized time-zone
    /// identifier; carries that string.
    ParseTzStringError(String),
}

} // verus!
