//! The OneBot v11 actions a bot offers.
use vstd::prelude::*;
use crate::api::ApiError;
use crate::event::{
    EchoGetMsg, EchoGetStatus, EchoGetVersionInfo, EchoLoginInfo, GroupMsgEvent, SendMsgEcho,
};
use crate::json::{JsonValue, SpecJson};
use crate::message::{kept_segments, seg_type, segment_with, Message};
use crate::text::{i64_text, int_text};

verus! {

/// The OneBot v11 actions every bot offers.
pub trait BaseBot {
    /// Sends a private message.
    fn send_private_msg(&self, user_id: &i64, message: &Message) -> Result<SendMsgEcho, ApiError>;

    /// Whether `r` is an answer this bot can give when asked to send the
    /// segments `message` to group `group_id`. A bot states its answers by
    /// defining this; by default it states nothing of them.
    open spec fn group_msg_answer(&self, group_id: i64, message: Seq<SpecJson>, r: Result<SendMsgEcho, ApiError>) -> bool {
        true
    }

    /// Whether `r` is an answer this bot can give when asked to recall the
    /// message whose id is the text `msg_id`. A bot states its answers by
    /// defining this; by default it states nothing of them.
    open spec fn delete_answer(&self, msg_id: Seq<char>, r: Result<(), ApiError>) -> bool {
        true
    }

    /// Sends a group message.
    fn send_group_msg(&self, group_id: &i64, message: &Message) -> (r: Result<SendMsgEcho, ApiError>)
        ensures
            self.group_msg_answer(*group_id, message@, r),
    ;

    /// Recalls a message.
    fn delete_msg(&self, msg_id: &str) -> (r: Result<(), ApiError>)
        ensures
            self.delete_answer(msg_id@, r),
    ;

    /// Fetches a message.
    fn get_msg(&self, msg_id: &i64) -> Result<EchoGetMsg, ApiError>;

    /// Fetches a forwarded message.
    fn get_forward_msg(&self, id: &i64) -> Result<JsonValue, ApiError>;

    /// Likes a friend.
    fn send_like(&self, user_id: &i64, times: i16) -> Result<(), ApiError>;

    /// Removes a group member.
    fn set_group_kick(&self, group_id: &i64, user_id: &i64, reject_add_request: &bool) -> Result<(), ApiError>;

    /// Mutes a group member.
    fn set_group_ban(&self, group_id: &i64, user_id: &i64, duration: i64) -> Result<(), ApiError>;

    /// Mutes a whole group.
    fn set_group_whole_ban(&self, group_id: &i64, enable: &bool) -> Result<(), ApiError>;

    /// Grants or revokes administration.
    fn set_group_admin(&self, group_id: &i64, user_id: &i64, enable: &bool) -> Result<(), ApiError>;

    /// Sets a member's group card.
    fn set_group_card(&self, group_id: &i64, user_id: &i64, card: String) -> Result<(), ApiError>;

    /// Renames a group.
    fn set_group_name(&self, group_id: &i64, card: String) -> Result<(), ApiError>;

    /// Leaves a group.
    fn set_group_leave(&self, group_id: &i64, is_dismiss: bool) -> Result<(), ApiError>;

    /// Grants a special title.
    fn set_group_special_title(&self, group_id: &i64, user_id: &i64, special_title: String) -> Result<(), ApiError>;

    /// Answers a friend request.
    fn set_friend_add_request(&self, flag: String, approve: &bool, remark: String) -> Result<(), ApiError>;

    /// Answers a request to join a group.
    fn set_group_add_request(&self, flag: String, sub_type: String, approve: &bool, reason: String) -> Result<(), ApiError>;

    /// Fetches information on a user.
    fn get_stranger_info(&self, user_id: &i64) -> Result<JsonValue, ApiError>;

    /// Fetches the logged-in account.
    fn get_login_info(&self) -> Result<EchoLoginInfo, ApiError>;

    /// Fetches the friend list.
    fn get_friend_list(&self) -> Result<JsonValue, ApiError>;

    /// Fetches information on a group.
    fn get_group_info(&self, group_id: &i64) -> Result<JsonValue, ApiError>;

    /// Fetches the group list.
    fn get_group_list(&self) -> Result<JsonValue, ApiError>;

    /// Fetches information on a group member.
    fn get_group_member_info(&self, group_id: &i64, user_id: &i64) -> Result<JsonValue, ApiError>;

    /// Fetches the members of a group.
    fn get_group_member_list(&self, group_id: &i64) -> Result<JsonValue, ApiError>;

    /// Fetches the honours of a group.
    fn get_group_honor_info(&self, group_id: &i64, kind: String) -> Result<JsonValue, ApiError>;

    /// Fetches cookies for a domain.
    fn get_cookies(&self, domain: String) -> Result<JsonValue, ApiError>;

    /// Fetches the CSRF token.
    fn get_csrf_token(&self) -> Result<JsonValue, ApiError>;

    /// Fetches credentials for a domain.
    fn get_credentials(&self, domain: String) -> Result<JsonValue, ApiError>;

    /// Fetches a voice file (the implementation needs ffmpeg).
    fn get_record(&self, file: String, out_format: String) -> Result<JsonValue, ApiError>;

    /// Fetches an image file.
    fn get_image(&self, file: String) -> Result<JsonValue, ApiError>;

    /// Whether images can be sent.
    fn can_send_image(&self) -> Result<bool, ApiError>;

    /// Whether voice can be sent.
    fn can_send_record(&self) -> Result<bool, ApiError>;

    /// Clears the implementation's cache.
    fn clean_cache(&self) -> Result<(), ApiError>;

    /// Fetches the login status.
    fn get_status(&self) -> Result<EchoGetStatus, ApiError>;

    /// Fetches the implementation's version.
    fn get_version_info(&self) -> Result<EchoGetVersionInfo, ApiError>;

    /// Restarts the implementation.
    fn set_restart(&self, delay: i64) -> Result<(), ApiError>;
}

/// Actions that only NapCat offers.
#[allow(non_camel_case_types)]
pub trait napcatBot {
}

/// Actions that only go-cqhttp offers.
#[allow(non_camel_case_types)]
pub trait cqhttpBot {
}

impl GroupMsgEvent {
    /// Answers this message in its group: sends `reply_message(msg)` to
    /// `group_id`.
    pub fn reply<B: BaseBot>(&self, bot: &B, msg: &Message) -> (r: Result<SendMsgEcho, ApiError>)
        requires
            forall|i: int| 0 <= i < msg@.len() ==> (#[trigger] seg_type(msg@[i])) is Some,
        ensures
            bot.group_msg_answer(
                self.group_id,
                seq![segment_with("reply"@, "id"@, int_text(self.message_id as int))]
                    + kept_segments(msg@),
                r,
            ),
    {
        let m = self.reply_message(msg);
        bot.send_group_msg(&self.group_id, &m)
    }

    /// Recalls this message: asks to delete `message_id`.
    pub fn delete<B: BaseBot>(&self, bot: &B) -> (r: Result<(), ApiError>)
        ensures
            bot.delete_answer(int_text(self.message_id as int), r),
    {
        let id = i64_text(self.message_id);
        bot.delete_msg(id.as_str())
    }
}

} // verus!
