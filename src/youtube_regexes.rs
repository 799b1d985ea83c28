use vstd::prelude::*;

verus! {

/// The text of group `group` in the first match of `pattern` in `text`.
pub uninterp spec fn first_group(pattern: Seq<char>, group: Seq<char>, text: Seq<char>) -> Option<
    Seq<char>,
>;

/// The text of group `group` in the last match of `pattern` in `text`.
pub uninterp spec fn last_group(pattern: Seq<char>, group: Seq<char>, text: Seq<char>) -> Option<
    Seq<char>,
>;

/// `pattern` matches somewhere in `text`.
pub uninterp spec fn pattern_found(pattern: Seq<char>, text: Seq<char>) -> bool;

/// Relies on `regex::Regex::captures` and `Captures::name`: the group of the
/// first match, if both exist. The result depends on the three texts alone.
#[verifier::external_body]
fn capture_first(pattern: &str, group: &str, text: &str) -> (r: Option<String>)
    ensures
        match r {
            Some(s) => first_group(pattern@, group@, text@) == Some(s@),
            None => first_group(pattern@, group@, text@) is None,
        },
{
    let re = lazy_regex::Regex::new(pattern).ok()?;
    re.captures(text)?.name(group).map(|m| m.as_str().to_string())
}

/// Relies on `regex::Regex::captures_iter` and `Captures::name`: the group
/// of the last match, if both exist. The result depends on the three texts
/// alone.
#[verifier::external_body]
fn capture_last(pattern: &str, group: &str, text: &str) -> (r: Option<String>)
    ensures
        match r {
            Some(s) => last_group(pattern@, group@, text@) == Some(s@),
            None => last_group(pattern@, group@, text@) is None,
        },
{
    let re = lazy_regex::Regex::new(pattern).ok()?;
    re.captures_iter(text).last()?.name(group).map(|m| m.as_str().to_string())
}

/// Relies on `regex::Regex::is_match`. The result depends on the two texts
/// alone.
#[verifier::external_body]
fn is_match(pattern: &str, text: &str) -> (r: bool)
    ensures
        r == pattern_found(pattern@, text@),
{
    match lazy_regex::Regex::new(pattern) {
        Ok(re) => re.is_match(text),
        Err(_) => false,
    }
}

pub const VIDEO_LIST: &'static str = r#"ytInitialData[ =]+(?P<video_list>.+});</script>"#;

pub const CHAT_EXISTS: &'static str = r#"liveChatRenderer"#;

pub const GL: &'static str = r#"gl\W+(?P<gl>[\w.]+)"#;

pub const REMOTE_HOST: &'static str = r#"remoteHost\W+(?P<remote_host>[\d.]+)"#;

pub const VISITOR_DATA: &'static str = r#"visitorData\W+(?P<visitor_data>[\w%]+)"#;

pub const TIME_ZONE: &'static str = r#"timeZone\W+(?P<time_zone>[\w/]+)"#;

pub const RELOAD_CONTINUATION: &'static str =
    r#"reloadContinuationData\W+(?P<reload_continuation>[\w: %,\-"]+)"#;

pub const CONTINUATION: &'static str = r#"continuation\W+(?P<continuation>[\w%\-]+)"#;

pub const CLIENT_VERSION: &'static str = r#"clientVersion\W+(?P<client_version>[\w.]+)"#;

pub const CHAT_KEY: &'static str = r#"INNERTUBE_API_KEY\W+(?P<chat_key>\w+)\W"#;

/// Extractors of the values that the YouTube pages embed.
pub struct YoutubeRegexes;

impl YoutubeRegexes {
    /// The JSON object assigned to `ytInitialData`, last occurrence.
    pub fn extract_video_list(data: &str) -> (r: Option<String>)
        ensures
            match r {
                Some(s) => last_group(VIDEO_LIST@, "video_list"@, data@) == Some(s@),
                None => last_group(VIDEO_LIST@, "video_list"@, data@) is None,
            },
    {
        capture_last(VIDEO_LIST, "video_list", data)
    }

    pub fn is_chat_enabled(text_data: &str) -> (r: bool)
        ensures
            r == pattern_found(CHAT_EXISTS@, text_data@),
    {
        is_match(CHAT_EXISTS, text_data)
    }

    pub fn extract_gl(data: &str) -> (r: Option<String>)
        ensures
            match r {
                Some(s) => first_group(GL@, "gl"@, data@) == Some(s@),
                None => first_group(GL@, "gl"@, data@) is None,
            },
    {
        capture_first(GL, "gl", data)
    }

    pub fn extract_remote_host(data: &str) -> (r: Option<String>)
        ensures
            match r {
                Some(s) => first_group(REMOTE_HOST@, "remote_host"@, data@) == Some(s@),
                None => first_group(REMOTE_HOST@, "remote_host"@, data@) is None,
            },
    {
        capture_first(REMOTE_HOST, "remote_host", data)
    }

    pub fn extract_visitor_data(data: &str) -> (r: Option<String>)
        ensures
            match r {
                Some(s) => first_group(VISITOR_DATA@, "visitor_data"@, data@) == Some(s@),
                None => first_group(VISITOR_DATA@, "visitor_data"@, data@) is None,
            },
    {
        capture_first(VISITOR_DATA, "visitor_data", data)
    }

    pub fn extract_time_zone(data: &str) -> (r: Option<String>)
        ensures
            match r {
                Some(s) => first_group(TIME_ZONE@, "time_zone"@, data@) == Some(s@),
                None => first_group(TIME_ZONE@, "time_zone"@, data@) is None,
            },
    {
        capture_first(TIME_ZONE, "time_zone", data)
    }

    pub fn extract_client_version(data: &str) -> (r: Option<String>)
        ensures
            match r {
                Some(s) => first_group(CLIENT_VERSION@, "client_version"@, data@) == Some(s@),
                None => first_group(CLIENT_VERSION@, "client_version"@, data@) is None,
            },
    {
        capture_first(CLIENT_VERSION, "client_version", data)
    }

    /// The continuation token of the last `reloadContinuationData` block.
    pub fn extract_last_continuation(data: &str) -> (r: Option<String>)
        ensures
            match last_group(RELOAD_CONTINUATION@, "reload_continuation"@, data@) {
                Some(block) => match r {
                    Some(s) => first_group(CONTINUATION@, "continuation"@, block) == Some(s@),
                    None => first_group(CONTINUATION@, "continuation"@, block) is None,
                },
                None => r is None,
            },
    {
        match capture_last(RELOAD_CONTINUATION, "reload_continuation", data) {
            Some(block) => capture_first(CONTINUATION, "continuation", block.as_str()),
            None => None,
        }
    }

    pub fn extract_chat_key(data: &str) -> (r: Option<String>)
        ensures
            match r {
                Some(s) => first_group(CHAT_KEY@, "chat_key"@, data@) == Some(s@),
                None => first_group(CHAT_KEY@, "chat_key"@, data@) is None,
            },
    {
        capture_first(CHAT_KEY, "chat_key", data)
    }
}

} // verus!
