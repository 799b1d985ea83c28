use vstd::prelude::*;
use vstd::string::*;

use crate::text::{decimal, decimal_string};

verus! {

pub const CHAT_URL_PREFIX: &'static str = "https://www.youtube.com/live_chat?is_popout=1&v=";

pub const ENDPOINT_URL_PREFIX: &'static str =
    "https://www.youtube.com/youtubei/v1/live_chat/get_live_chat?key=";

/// The live chat page of a video; also the referer of every poll.
pub fn chat_url(video_id: &str) -> (r: String)
    ensures
        r@ == CHAT_URL_PREFIX@ + video_id@,
{
    let mut url = String::from_str(CHAT_URL_PREFIX);
    url.append(video_id);
    url
}

/// The endpoint that answers polls, for the page's API key.
pub fn endpoint_url(chat_key: &str) -> (r: String)
    ensures
        r@ == ENDPOINT_URL_PREFIX@ + chat_key@,
{
    let mut url = String::from_str(ENDPOINT_URL_PREFIX);
    url.append(chat_key);
    url
}

/// One key/value entry of the ad signals a browser sends.
#[derive(Clone, Debug)]
pub struct AdParam {
    pub key: String,
    pub value: String,
}

impl AdParam {
    pub fn new(key: &str, value: &str) -> (r: AdParam)
        ensures
            r.key@ == key@,
            r.value@ == value@,
    {
        AdParam { key: String::from_str(key), value: String::from_str(value) }
    }
}

pub open spec fn ad_view(ps: Seq<AdParam>) -> Seq<(Seq<char>, Seq<char>)> {
    ps.map_values(|p: AdParam| (p.key@, p.value@))
}

/// The ad signals of a desktop browser, in the order it sends them; `dt` is
/// the local time in milliseconds and `u_tz` the offset from UTC in minutes.
pub open spec fn ad_signals(dt: Seq<char>, u_tz: Seq<char>) -> Seq<(Seq<char>, Seq<char>)> {
    seq![
        ("dt"@, dt),
        ("flash"@, "0"@),
        ("frm"@, "0"@),
        ("u_tz"@, u_tz),
        ("u_his"@, "3"@),
        ("u_java"@, "false"@),
        ("u_h"@, "864"@),
        ("u_w"@, "1536"@),
        ("u_ah"@, "864"@),
        ("u_aw"@, "1536"@),
        ("u_cd"@, "24"@),
        ("u_nplug"@, "0"@),
        ("u_nmime"@, "0"@),
        ("bc"@, "31"@),
        ("bih"@, "464"@),
        ("biw"@, "1536"@),
        ("brdim"@, "1529,857,1529,857,1536,0,1536,864,1536,464"@),
        ("vis"@, "1"@),
        ("wgl"@, "true"@),
        ("ca_type"@, "image"@),
    ]
}

/// The variable part of a poll request: what the chat page gave, the
/// browser imitated, the clock, and the continuation. The fixed fields of
/// the request are the constants below.
#[derive(Clone, Debug)]
pub struct ChatParams {
    pub gl: String,
    pub remote_host: String,
    pub visitor_data: String,
    pub user_agent: String,
    pub client_version: String,
    pub original_url: String,
    pub time_zone: String,
    pub browser_name: String,
    pub browser_version: String,
    pub utc_offset_minutes: i32,
    pub ad_params: Vec<AdParam>,
    pub continuation: String,
}

pub const LANGUAGE: &'static str = "en";

pub const CLIENT_NAME: &'static str = "WEB";

pub const OS_NAME: &'static str = "Windows";

pub const OS_VERSION: &'static str = "10.0";

pub const PLATFORM: &'static str = "DESKTOP";

pub const CLIENT_FORM_FACTOR: &'static str = "UNKNOWN_FORM_FACTOR";

pub const USER_INTERFACE_THEME: &'static str = "USER_INTERFACE_THEME_DARK";

pub const WEB_DISPLAY_MODE: &'static str = "WEB_DISPLAY_MODE_BROWSER";

pub const SCREEN_PIXEL_DENSITY: u8 = 1;

pub const SCREEN_WIDTH_POINTS: u16 = 1536;

pub const SCREEN_HEIGHT_POINTS: u16 = 464;

impl ChatParams {
    pub fn init(
        gl: String,
        remote_host: String,
        visitor_data: String,
        user_agent: String,
        client_version: String,
        video_id: &str,
        time_zone: String,
        browser_name: String,
        browser_version: String,
        timestamp: i64,
        utc_offset: i32,
        continuation: String,
    ) -> (r: ChatParams)
        ensures
            r.gl@ == gl@,
            r.remote_host@ == remote_host@,
            r.visitor_data@ == visitor_data@,
            r.user_agent@ == user_agent@,
            r.client_version@ == client_version@,
            r.original_url@ == CHAT_URL_PREFIX@ + video_id@,
            r.time_zone@ == time_zone@,
            r.browser_name@ == browser_name@,
            r.browser_version@ == browser_version@,
            r.utc_offset_minutes == utc_offset,
            ad_view(r.ad_params@) == ad_signals(decimal(timestamp as int), decimal(utc_offset as int)),
            r.continuation@ == continuation@,
    {
        let dt = decimal_string(timestamp);
        let u_tz = decimal_string(utc_offset as i64);
        let mut ad_params: Vec<AdParam> = Vec::new();
        ad_params.push(AdParam::new("dt", dt.as_str()));
        ad_params.push(AdParam::new("flash", "0"));
        ad_params.push(AdParam::new("frm", "0"));
        ad_params.push(AdParam::new("u_tz", u_tz.as_str()));
        ad_params.push(AdParam::new("u_his", "3"));
        ad_params.push(AdParam::new("u_java", "false"));
        ad_params.push(AdParam::new("u_h", "864"));
        ad_params.push(AdParam::new("u_w", "1536"));
        ad_params.push(AdParam::new("u_ah", "864"));
        ad_params.push(AdParam::new("u_aw", "1536"));
        ad_params.push(AdParam::new("u_cd", "24"));
        ad_params.push(AdParam::new("u_nplug", "0"));
        ad_params.push(AdParam::new("u_nmime", "0"));
        ad_params.push(AdParam::new("bc", "31"));
        ad_params.push(AdParam::new("bih", "464"));
        ad_params.push(AdParam::new("biw", "1536"));
        ad_params.push(AdParam::new("brdim", "1529,857,1529,857,1536,0,1536,864,1536,464"));
        ad_params.push(AdParam::new("vis", "1"));
        ad_params.push(AdParam::new("wgl", "true"));
        ad_params.push(AdParam::new("ca_type", "image"));
        assert(ad_view(ad_params@) =~= ad_signals(decimal(timestamp as int), decimal(utc_offset as int)));
        ChatParams {
            gl,
            remote_host,
            visitor_data,
            user_agent,
            client_version,
            original_url: chat_url(video_id),
            time_zone,
            browser_name,
            browser_version,
            utc_offset_minutes: utc_offset,
            ad_params,
            continuation,
        }
    }

    pub fn update_continuation(&mut self, new_continuation: String)
        ensures
            final(self).continuation@ == new_continuation@,
            final(self).gl == old(self).gl,
            final(self).remote_host == old(self).remote_host,
            final(self).visitor_data == old(self).visitor_data,
            final(self).user_agent == old(self).user_agent,
            final(self).client_version == old(self).client_version,
            final(self).original_url == old(self).original_url,
            final(self).time_zone == old(self).time_zone,
            final(self).browser_name == old(self).browser_name,
            final(self).browser_version == old(self).browser_version,
            final(self).utc_offset_minutes == old(self).utc_offset_minutes,
            final(self).ad_params == old(self).ad_params,
    {
        self.continuation = new_continuation;
    }
}

} // verus!
