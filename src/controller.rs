use vstd::prelude::*;

use crate::chat_manager;
use crate::detector_manager;
use crate::params::DetectorParams;
use crate::stream_finder;

verus! {

/// Commands to the whole pipeline.
#[derive(Clone, Debug)]
pub enum IncMessages {
    Close,
    AddChannel(String),
    RemoveChannel(String),
    UpdateStreamPollInterval(u64),
    UpdateUserAgent(String),
    UpdateBrowserVersion(String),
    UpdateBrowserNameAndVersion { name: String, version: String },
    UpdateDetectorParams { channel: String, new_params: DetectorParams },
}

/// Where a command goes: to each component, at most one message, sent in
/// the order stream finder, chat manager, detector manager.
pub struct Routes {
    pub to_stream_finder: Option<stream_finder::IncMessages>,
    pub to_chat_manager: Option<chat_manager::IncMessages>,
    pub to_detector: Option<detector_manager::IncMessages>,
}

/// Routes a command to the components that act on it; `None` answers
/// `Close`, after which the components are closed upstream first.
pub fn route(message: IncMessages) -> (r: Option<Routes>)
    ensures
        match message {
            IncMessages::Close => r is None,
            IncMessages::AddChannel(c) => r matches Some(Routes {
                to_stream_finder: Some(stream_finder::IncMessages::AddChannel(c2)),
                to_chat_manager: None,
                to_detector: None,
            }) && c2@ == c@,
            IncMessages::RemoveChannel(c) => r matches Some(Routes {
                to_stream_finder: Some(stream_finder::IncMessages::RemoveChannel(c2)),
                to_chat_manager: None,
                to_detector: None,
            }) && c2@ == c@,
            IncMessages::UpdateStreamPollInterval(ms) => r matches Some(Routes {
                to_stream_finder: Some(stream_finder::IncMessages::UpdatePollInterval(ms2)),
                to_chat_manager: None,
                to_detector: None,
            }) && ms2 == ms,
            IncMessages::UpdateUserAgent(a) => r matches Some(Routes {
                to_stream_finder: Some(stream_finder::IncMessages::UpdateUserAgent(a1)),
                to_chat_manager: Some(chat_manager::IncMessages::UpdateUserAgent(a2)),
                to_detector: None,
            }) && a1@ == a@ && a2@ == a@,
            IncMessages::UpdateBrowserVersion(v) => r matches Some(Routes {
                to_stream_finder: Some(stream_finder::IncMessages::UpdateBrowserVersion(v1)),
                to_chat_manager: Some(chat_manager::IncMessages::UpdateBrowserVersion(v2)),
                to_detector: None,
            }) && v1@ == v@ && v2@ == v@,
            IncMessages::UpdateBrowserNameAndVersion { name, version } => r matches Some(Routes {
                to_stream_finder: Some(
                    stream_finder::IncMessages::UpdateBrowserNameAndVersion { name: n1, version: v1 },
                ),
                to_chat_manager: Some(
                    chat_manager::IncMessages::UpdateBrowserNameAndVersion { name: n2, version: v2 },
                ),
                to_detector: None,
            }) && n1@ == name@ && v1@ == version@ && n2@ == name@ && v2@ == version@,
            IncMessages::UpdateDetectorParams { channel, new_params } => r matches Some(Routes {
                to_stream_finder: None,
                to_chat_manager: None,
                to_detector: Some(detector_manager::IncMessages::UpdateParams { channel: c2, params }),
            }) && c2@ == channel@ && params == new_params,
        },
{
    match message {
        IncMessages::Close => None,
        IncMessages::AddChannel(channel) => Some(
            Routes {
                to_stream_finder: Some(stream_finder::IncMessages::AddChannel(channel)),
                to_chat_manager: None,
                to_detector: None,
            },
        ),
        IncMessages::RemoveChannel(channel) => Some(
            Routes {
                to_stream_finder: Some(stream_finder::IncMessages::RemoveChannel(channel)),
                to_chat_manager: None,
                to_detector: None,
            },
        ),
        IncMessages::UpdateStreamPollInterval(interval) => Some(
            Routes {
                to_stream_finder: Some(stream_finder::IncMessages::UpdatePollInterval(interval)),
                to_chat_manager: None,
                to_detector: None,
            },
        ),
        IncMessages::UpdateUserAgent(user_agent) => Some(
            Routes {
                to_stream_finder: Some(
                    stream_finder::IncMessages::UpdateUserAgent(user_agent.clone()),
                ),
                to_chat_manager: Some(chat_manager::IncMessages::UpdateUserAgent(user_agent)),
                to_detector: None,
            },
        ),
        IncMessages::UpdateBrowserVersion(version) => Some(
            Routes {
                to_stream_finder: Some(
                    stream_finder::IncMessages::UpdateBrowserVersion(version.clone()),
                ),
                to_chat_manager: Some(chat_manager::IncMessages::UpdateBrowserVersion(version)),
                to_detector: None,
            },
        ),
        IncMessages::UpdateBrowserNameAndVersion { name, version } => Some(
            Routes {
                to_stream_finder: Some(
                    stream_finder::IncMessages::UpdateBrowserNameAndVersion {
                        name: name.clone(),
                        version: version.clone(),
                    },
                ),
                to_chat_manager: Some(
                    chat_manager::IncMessages::UpdateBrowserNameAndVersion { name, version },
                ),
                to_detector: None,
            },
        ),
        IncMessages::UpdateDetectorParams { channel, new_params } => Some(
            Routes {
                to_stream_finder: None,
                to_chat_manager: None,
                to_detector: Some(
                    detector_manager::IncMessages::UpdateParams { channel, params: new_params },
                ),
            },
        ),
    }
}

} // verus!
