use vstd::prelude::*;
use vstd::string::StrSliceExecFns;
use vstd::string::StringExecFns;
use crate::errors::WhatTimeError;

verus! {

/// Command line arguments, already parsed into plain values.
pub struct CmdLineArgs {
    /// Friend name to report time for
    pub name: String,
    /// Path to configuration file, or a URL to fetch it from
    pub config_path_or_url: String,
}

/// Where a configuration text comes from: a file on disk or a remote
/// HTTP(S) resource.  Classification is a pure string-prefix test.
pub enum ConfigSource {
    /// A path on the local filesystem.
    LocalPath(String),
    /// A URL to fetch with a single HTTP GET.
    RemoteUrl(String),
}

/// A source string is treated as a URL exactly when it starts with the
/// literal prefix `"http"`, which also covers `"https"`.
pub open spec fn is_url_spec(s: Seq<char>) -> bool {
    s.len() >= 4 && s[0] == 'h' && s[1] == 't' && s[2] == 't' && s[3] == 'p'
}

/// Decides whether a config source string names a remote URL rather than
/// a local file path.
pub fn is_url(path: &str) -> (r: bool)
    ensures
        r == is_url_spec(path@),
{
    let n = path.unicode_len();
    if n < 4 {
        false
    } else {
        path.get_char(0) == 'h' && path.get_char(1) == 't' && path.get_char(2) == 't'
            && path.get_char(3) == 'p'
    }
}

/// Tags a config source string as remote or local, carrying the string
/// through unchanged.
pub fn classify_source(source: &str) -> (r: ConfigSource)
    ensures
        match r {
            ConfigSource::RemoteUrl(u) => is_url_spec(source@) && u@ == source@,
            ConfigSource::LocalPath(p) => !is_url_spec(source@) && p@ == source@,
        },
{
    if is_url(source) {
        ConfigSource::RemoteUrl(source.to_owned())
    } else {
        ConfigSource::LocalPath(source.to_owned())
    }
}

/// Labels the outcome of acquiring the configuration text.
///
/// The caller performs the one read (a file read for a local path, a
/// single HTTP GET for a URL) and passes its outcome: the full text on
/// success, or a description of the failure.  A failure is labelled by
/// the kind of source the string classifies as, so that reading a file
/// and fetching a URL stay distinguishable at the top of the call chain.
pub fn get_config(path_or_url: &str, fetched: Result<String, String>) -> (r: Result<
    String,
    WhatTimeError,
>)
    ensures
        match r {
            Ok(text) => fetched matches Ok(t) && text@ == t@,
            Err(e) => match e {
                WhatTimeError::ReadConfigViaHttpError(m) => is_url_spec(path_or_url@) && (
                fetched matches Err(f) && m@ == f@),
                WhatTimeError::ReadConfigFromDiskError(m) => !is_url_spec(path_or_url@) && (
                fetched matches Err(f) && m@ == f@),
                _ => false,
            },
        },
{
    match fetched {
        Ok(text) => Ok(text),
        Err(cause) => {
            if is_url(path_or_url) {
                Err(WhatTimeError::ReadConfigViaHttpError(cause))
            } else {
                Err(WhatTimeError::ReadConfigFromDiskError(cause))
            }
        },
    }
}

/// Computes the default config file path from the home directory, if the
/// environment provides one; otherwise the current directory is used.
pub fn default_config(home: Option<&str>) -> (r: String)
    ensures
        home matches Some(h) ==> r@ == h@ + "/.what-time"@,
        home is None ==> r@ == "."@ + "/.what-time"@,
{
    let mut base = match home {
        Some(h) => h.to_owned(),
        None => ".".to_owned(),
    };
    base.append("/.what-time");
    base
}

} // verus!
