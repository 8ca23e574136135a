use vstd::prelude::*;
use crate::casing::lower_of;
use crate::casing::to_lowercase;
use crate::directory::ZoneDirectory;
use crate::errors::WhatTimeError;

verus! {

#[verifier::external_type_specification]
#[verifier::external_body]
pub struct ExTz(chrono_tz::Tz);

/// An instant read from the clock, opaque to the library; `chrono`'s
/// `DateTime` cannot be declared here because its type parameter is
/// bound by an outside trait.
#[verifier::external_body]
struct UtcInstant {
    inner: chrono::DateTime<chrono::Utc>,
}

/// The same instant re-expressed in a friend's zone, equally opaque.
#[verifier::external_body]
struct ZonedInstant {
    inner: chrono::DateTime<chrono_tz::Tz>,
}

/// Whether a string is a time-zone identifier that the compiled-in zone
/// table recognizes; a function of the string alone.
pub uninterp spec fn is_valid_tz(s: Seq<char>) -> bool;

/// Relies on chrono_tz's `FromStr` for `Tz`: a lookup of the string in
/// the compiled-in zone table, succeeding exactly on the identifiers the
/// table holds.
#[verifier::external_body]
pub(crate) fn parse_tz(s: &str) -> (r: Option<chrono_tz::Tz>)
    ensures
        r is Some <==> is_valid_tz(s@),
{
    s.parse::<chrono_tz::Tz>().ok()
}

/// Relies on chrono's `Utc::now`: reads the system clock; nothing is
/// promised of the value.
#[verifier::external_body]
fn utc_now() -> (r: UtcInstant)
{
    UtcInstant { inner: chrono::Utc::now() }
}

/// Relies on chrono's `DateTime::with_timezone`: re-expresses the
/// instant in the given zone.
#[verifier::external_body]
fn to_zone(t: UtcInstant, tz: &chrono_tz::Tz) -> (r: ZonedInstant)
{
    ZonedInstant { inner: t.inner.with_timezone(tz) }
}

pub open spec fn is_ascii_alpha(c: char) -> bool {
    let u = c as u32;
    (0x41 <= u && u <= 0x5A) || (0x61 <= u && u <= 0x7A)
}

pub open spec fn is_ascii_digit(c: char) -> bool {
    let u = c as u32;
    0x30 <= u && u <= 0x39
}

/// The shape of a resolved time: a three-letter weekday abbreviation, a
/// zero-padded two-digit 12-hour clock reading with a colon, and an
/// AM/PM marker, as in `"Mon 04:07 PM"`.
pub open spec fn is_time_display(s: Seq<char>) -> bool {
    s.len() == 12 && is_ascii_alpha(s[0]) && is_ascii_alpha(s[1]) && is_ascii_alpha(s[2]) && s[3]
        == ' ' && is_ascii_digit(s[4]) && is_ascii_digit(s[5]) && s[6] == ':' && is_ascii_digit(
        s[7],
    ) && is_ascii_digit(s[8]) && s[9] == ' ' && (s[10] == 'A' || s[10] == 'P') && s[11] == 'M'
}

/// Relies on chrono's strftime-style formatting with the fixed pattern
/// `"%a %I:%M %p"`: in the default locale `%a` is one of the seven
/// three-letter weekday names, `%I` and `%M` are zero-padded two-digit
/// numbers, and `%p` is `AM` or `PM`.
#[verifier::external_body]
fn format_time(t: &ZonedInstant) -> (r: String)
    ensures
        is_time_display(r@),
{
    t.inner.format("%a %I:%M %p").to_string()
}

/// Resolves the current local time for a friend: the name is lowercased
/// and looked up, the stored zone identifier is parsed, and the current
/// instant is rendered in that zone.
///
/// Succeeds exactly when the lowercased name has an entry whose zone
/// string is a recognized identifier; an unknown name and an
/// unrecognized zone string are reported as distinct errors, the latter
/// carrying the offending string.
pub fn get_local_time(name: &str, zones: ZoneDirectory) -> (r: Result<String, WhatTimeError>)
    ensures
        match r {
            Ok(display) => zones@.contains_key(lower_of(name@)) && is_valid_tz(
                zones@[lower_of(name@)],
            ) && is_time_display(display@),
            Err(e) => match e {
                WhatTimeError::UnknownFriendError(n) => !zones@.contains_key(lower_of(name@))
                    && n@ == name@,
                WhatTimeError::ParseTzStringError(z) => zones@.contains_key(lower_of(name@))
                    && z@ == zones@[lower_of(name@)] && !is_valid_tz(zones@[lower_of(name@)]),
                _ => false,
            },
        },
{
    let lowered = to_lowercase(name);
    match zones.get(lowered.as_str()) {
        None => Err(WhatTimeError::UnknownFriendError(name.to_owned())),
        Some(tz_string) => {
            match parse_tz(tz_string.as_str()) {
                None => Err(WhatTimeError::ParseTzStringError(tz_string.clone())),
                Some(tz) => {
                    let now = utc_now();
                    Ok(format_time(&to_zone(now, &tz)))
                },
            }
        },
    }
}

} // verus!
