use vstd::prelude::*;

use crate::chat_params::{ChatParams, CHAT_URL_PREFIX};
use crate::poller::RequestSettings;
use crate::youtube_regexes::{
    first_group, last_group, pattern_found, YoutubeRegexes, CHAT_EXISTS, CHAT_KEY, CLIENT_VERSION,
    CONTINUATION, GL, RELOAD_CONTINUATION, REMOTE_HOST, TIME_ZONE, VISITOR_DATA,
};

verus! {

/// The time zone assumed when the chat page names none.
pub const FALLBACK_TIME_ZONE: &'static str = "Asia/Tokyo";

/// Relies on `chrono::Local::now`: the local time in milliseconds and the
/// local offset from UTC in minutes. chrono keeps an offset strictly within
/// one day.
#[verifier::external_body]
fn local_clock() -> (r: (i64, i32))
    ensures
        -1440 < r.1 < 1440,
{
    let now = chrono::Local::now();
    (now.timestamp_millis(), now.offset().local_minus_utc() / 60)
}

/// A value that the chat page lacks; each carries the page.
#[derive(Clone, Debug)]
pub enum ParamsExtractingError {
    ExtractGl(String),
    RemoteHost(String),
    VisitorData(String),
    Continuation(String),
    ClientVersion(String),
    ChatKey(String),
}

pub enum ExtractingResult {
    Extracted { chat_params: ChatParams, chat_key: String },
    ChatDisabled,
}

/// The continuation token of the page's last reload block.
pub open spec fn page_continuation(page: Seq<char>) -> Option<Seq<char>> {
    match last_group(RELOAD_CONTINUATION@, "reload_continuation"@, page) {
        Some(block) => first_group(CONTINUATION@, "continuation"@, block),
        None => None,
    }
}

/// Which value the page lacks first, in the order they are looked for.
pub open spec fn first_missing(page: Seq<char>) -> Option<int> {
    if first_group(GL@, "gl"@, page) is None {
        Some(0)
    } else if first_group(REMOTE_HOST@, "remote_host"@, page) is None {
        Some(1)
    } else if first_group(VISITOR_DATA@, "visitor_data"@, page) is None {
        Some(2)
    } else if first_group(CLIENT_VERSION@, "client_version"@, page) is None {
        Some(3)
    } else if page_continuation(page) is None {
        Some(4)
    } else if first_group(CHAT_KEY@, "chat_key"@, page) is None {
        Some(5)
    } else {
        None
    }
}

pub open spec fn error_code(e: ParamsExtractingError) -> int {
    match e {
        ParamsExtractingError::ExtractGl(_) => 0,
        ParamsExtractingError::RemoteHost(_) => 1,
        ParamsExtractingError::VisitorData(_) => 2,
        ParamsExtractingError::ClientVersion(_) => 3,
        ParamsExtractingError::Continuation(_) => 4,
        ParamsExtractingError::ChatKey(_) => 5,
    }
}

pub open spec fn error_page(e: ParamsExtractingError) -> Seq<char> {
    match e {
        ParamsExtractingError::ExtractGl(p) => p@,
        ParamsExtractingError::RemoteHost(p) => p@,
        ParamsExtractingError::VisitorData(p) => p@,
        ParamsExtractingError::ClientVersion(p) => p@,
        ParamsExtractingError::Continuation(p) => p@,
        ParamsExtractingError::ChatKey(p) => p@,
    }
}

/// Reads the poll parameters out of a chat page.
pub struct ParamsExtractor;

impl ParamsExtractor {
    /// The parameters of a chat page at a given local time: `ChatDisabled`
    /// for a page without a live chat, an error naming the first value the
    /// page lacks, or the parameters with the page's API key.
    pub fn extract_chat_params_at(
        video_id: &str,
        chat_page: &str,
        request_settings: &RequestSettings,
        timestamp: i64,
        utc_offset_minutes: i32,
    ) -> (r: Result<ExtractingResult, ParamsExtractingError>)
        ensures
            !pattern_found(CHAT_EXISTS@, chat_page@) ==> r matches Ok(ExtractingResult::ChatDisabled),
            pattern_found(CHAT_EXISTS@, chat_page@) ==> match first_missing(chat_page@) {
                Some(code) => r matches Err(e) && error_code(e) == code && error_page(e)
                    == chat_page@,
                None => match r {
                    Ok(ExtractingResult::Extracted { chat_params: p, chat_key }) => {
                        &&& Some(p.gl@) == first_group(GL@, "gl"@, chat_page@)
                        &&& Some(p.remote_host@) == first_group(
                            REMOTE_HOST@,
                            "remote_host"@,
                            chat_page@,
                        )
                        &&& Some(p.visitor_data@) == first_group(
                            VISITOR_DATA@,
                            "visitor_data"@,
                            chat_page@,
                        )
                        &&& Some(p.client_version@) == first_group(
                            CLIENT_VERSION@,
                            "client_version"@,
                            chat_page@,
                        )
                        &&& Some(p.continuation@) == page_continuation(chat_page@)
                        &&& Some(chat_key@) == first_group(CHAT_KEY@, "chat_key"@, chat_page@)
                        &&& p.time_zone@ == match first_group(TIME_ZONE@, "time_zone"@, chat_page@) {
                            Some(tz) => tz,
                            None => FALLBACK_TIME_ZONE@,
                        }
                        &&& p.user_agent@ == request_settings.user_agent@
                        &&& p.browser_name@ == request_settings.browser_name@
                        &&& p.browser_version@ == request_settings.browser_version@
                        &&& p.original_url@ == CHAT_URL_PREFIX@ + video_id@
                        &&& p.utc_offset_minutes == utc_offset_minutes
                    },
                    _ => false,
                },
            },
    {
        if !YoutubeRegexes::is_chat_enabled(chat_page) {
            return Ok(ExtractingResult::ChatDisabled);
        }
        let gl = match YoutubeRegexes::extract_gl(chat_page) {
            Some(v) => v,
            None => return Err(ParamsExtractingError::ExtractGl(chat_page.to_owned())),
        };
        let remote_host = match YoutubeRegexes::extract_remote_host(chat_page) {
            Some(v) => v,
            None => return Err(ParamsExtractingError::RemoteHost(chat_page.to_owned())),
        };
        let visitor_data = match YoutubeRegexes::extract_visitor_data(chat_page) {
            Some(v) => v,
            None => return Err(ParamsExtractingError::VisitorData(chat_page.to_owned())),
        };
        let client_version = match YoutubeRegexes::extract_client_version(chat_page) {
            Some(v) => v,
            None => return Err(ParamsExtractingError::ClientVersion(chat_page.to_owned())),
        };
        let continuation = match YoutubeRegexes::extract_last_continuation(chat_page) {
            Some(v) => v,
            None => return Err(ParamsExtractingError::Continuation(chat_page.to_owned())),
        };
        let chat_key = match YoutubeRegexes::extract_chat_key(chat_page) {
            Some(v) => v,
            None => return Err(ParamsExtractingError::ChatKey(chat_page.to_owned())),
        };
        let time_zone = match YoutubeRegexes::extract_time_zone(chat_page) {
            Some(v) => v,
            None => FALLBACK_TIME_ZONE.to_owned(),
        };
        let chat_params = ChatParams::init(
            gl,
            remote_host,
            visitor_data,
            request_settings.user_agent.clone(),
            client_version,
            video_id,
            time_zone,
            request_settings.browser_name.clone(),
            request_settings.browser_version.clone(),
            timestamp,
            utc_offset_minutes,
            continuation,
        );
        Ok(ExtractingResult::Extracted { chat_params, chat_key })
    }

    /// The parameters of a chat page, stamped with the local clock: as
    /// `extract_chat_params_at`, whatever time the clock gave.
    pub fn extract_chat_params(
        video_id: &str,
        chat_page: &str,
        request_settings: &RequestSettings,
    ) -> (r: Result<ExtractingResult, ParamsExtractingError>)
        ensures
            !pattern_found(CHAT_EXISTS@, chat_page@) ==> r matches Ok(ExtractingResult::ChatDisabled),
            pattern_found(CHAT_EXISTS@, chat_page@) ==> match first_missing(chat_page@) {
                Some(code) => r matches Err(e) && error_code(e) == code && error_page(e)
                    == chat_page@,
                None => match r {
                    Ok(ExtractingResult::Extracted { chat_params: p, chat_key }) => {
                        &&& Some(p.gl@) == first_group(GL@, "gl"@, chat_page@)
                        &&& Some(p.remote_host@) == first_group(
                            REMOTE_HOST@,
                            "remote_host"@,
                            chat_page@,
                        )
                        &&& Some(p.visitor_data@) == first_group(
                            VISITOR_DATA@,
                            "visitor_data"@,
                            chat_page@,
                        )
                        &&& Some(p.client_version@) == first_group(
                            CLIENT_VERSION@,
                            "client_version"@,
                            chat_page@,
                        )
                        &&& Some(p.continuation@) == page_continuation(chat_page@)
                        &&& Some(chat_key@) == first_group(CHAT_KEY@, "chat_key"@, chat_page@)
                        &&& p.time_zone@ == match first_group(TIME_ZONE@, "time_zone"@, chat_page@) {
                            Some(tz) => tz,
                            None => FALLBACK_TIME_ZONE@,
                        }
                        &&& p.user_agent@ == request_settings.user_agent@
                        &&& p.browser_name@ == request_settings.browser_name@
                        &&& p.browser_version@ == request_settings.browser_version@
                        &&& p.original_url@ == CHAT_URL_PREFIX@ + video_id@
                        &&& -1440 < p.utc_offset_minutes < 1440
                    },
                    _ => false,
                },
            },
    {
        let (timestamp, offset) = local_clock();
        Self::extract_chat_params_at(video_id, chat_page, request_settings, timestamp, offset)
    }
}

} // verus!
