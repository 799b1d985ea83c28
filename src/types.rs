use vstd::prelude::*;

verus! {

#[derive(Clone, Copy, Debug, PartialEq, Eq, Structural)]
pub enum UserBadges {
    Verified,
    Owner,
    Moderator,
    Member,
}

/// An author in the chat. `badges` is `Some` only with at least one badge.
#[derive(Clone, Debug)]
pub struct User {
    pub name: Option<String>,
    pub channel_id: String,
    pub badges: Option<Vec<UserBadges>>,
}

#[derive(Clone, Copy, Debug, PartialEq, Eq, Structural)]
pub enum ChatMode {
    SubscribersOnly,
    SlowMode,
    MembersOnly,
    QuestionAnswer,
}

#[derive(Clone, Debug)]
pub enum MembershipType {
    NewMember { greeting: String },
    Member { period: String, membership_name: Option<String>, message: Option<String> },
}

#[derive(Clone, Debug)]
pub enum MessageContent {
    SimpleMessage { author: User, message: String },
    Membership { author: User, membership_type: MembershipType },
    Superchat { author: User, message: Option<String>, amount: String },
    Sticker { author: User, sticker_name: String, purchase_amount: String },
    Fundraiser { author: Option<User>, text: String, subtext: String },
    ChatMode { text: String, subtext: String, mode: ChatMode },
    PollResult { message: String },
}

/// A chat item's id with its timestamp in microseconds.
#[derive(Clone, Debug)]
pub struct IdEntry {
    pub id: String,
    pub timestamp: u64,
}

#[derive(Clone, Copy, Debug, PartialEq, Eq, Structural)]
pub enum PollType {
    PollTypeCreator,
}

/// One choice of a finished poll. The share of votes is the bit pattern of
/// a binary64 ratio.
#[derive(Clone, Debug)]
pub struct PollResult {
    pub choice: String,
    pub ratio_bits: u64,
}

/// One event of a chat batch.
#[derive(Clone, Debug)]
pub enum Action {
    NewMessage { id: IdEntry, message: MessageContent },
    DeleteMessage { target_id: String },
    ReplaceMessage { target_id: String, new_id: IdEntry, message: MessageContent },
    BlockUser { channel_id: String },
    CloseBanner { banner_id: String },
    StartPoll { id: String, question: String, choices: Vec<String>, poll_type: PollType },
    FinishPoll { id: String, choices: Vec<PollResult> },
    ChannelNotice { id: IdEntry, author: User, message: String },
    FundraiserProgress { raised: String, title: String, goal_label: String },
    ClosePanel { target_id: String },
}

} // verus!
