//! The requests the bot sends to a OneBot v11 implementation, as the JSON
//! text it writes on the wire.
use vstd::prelude::*;
use crate::json::{json_to_string, spec_json_text, JsonValue, SpecJson};
use crate::message::Message;
use crate::text::{int_text, nat_text, push_i64, push_u64};

verus! {

/// The text `Display` writes for a `bool`.
pub open spec fn bool_text(b: bool) -> Seq<char> {
    if b {
        "true"@
    } else {
        "false"@
    }
}

fn bool_str(b: bool) -> (r: &'static str)
    ensures
        r@ == bool_text(b),
{
    if b {
        "true"
    } else {
        "false"
    }
}

/// A request with parameters whose answer comes back under `echo`.
pub open spec fn echo_request(action: Seq<char>, params: Seq<char>, echo: u16) -> Seq<char> {
    "{\"action\": \""@ + action + "\",\"params\": {"@ + params + "},\"echo\":"@ + nat_text(
        echo as nat,
    ) + "}"@
}

/// A request without parameters whose answer comes back under `echo`.
pub open spec fn bare_request(action: Seq<char>, echo: u16) -> Seq<char> {
    "{\"action\": \""@ + action + "\",\"echo\":"@ + nat_text(echo as nat) + "}"@
}

/// A request with parameters and no `echo`.
pub open spec fn fire_request(action: Seq<char>, params: Seq<char>) -> Seq<char> {
    "{\"action\": \""@ + action + "\",\"params\": {"@ + params + "}}"@
}

fn with_echo(action: &str, params: &String, echo: u16) -> (r: String)
    ensures
        r@ == echo_request(action@, params@, echo),
{
    let mut s = String::from_str("{\"action\": \"");
    s.append(action);
    s.append("\",\"params\": {");
    s.append(params.as_str());
    s.append("},\"echo\":");
    push_u64(&mut s, echo as u64);
    s.append("}");
    s
}

fn without_params(action: &str, echo: u16) -> (r: String)
    ensures
        r@ == bare_request(action@, echo),
{
    let mut s = String::from_str("{\"action\": \"");
    s.append(action);
    s.append("\",\"echo\":");
    push_u64(&mut s, echo as u64);
    s.append("}");
    s
}

fn without_echo(action: &str, params: &String) -> (r: String)
    ensures
        r@ == fire_request(action@, params@),
{
    let mut s = String::from_str("{\"action\": \"");
    s.append(action);
    s.append("\",\"params\": {");
    s.append(params.as_str());
    s.append("}}");
    s
}

/// The request for clearing the implementation's cache; no answer is
/// awaited.
pub fn clean_cache() -> (r: String)
    ensures
        r@ == "{\"action\": \"clean_cache\"}"@,
{
    String::from_str("{\"action\": \"clean_cache\"}")
}

/// The request for a private message, answered under `echo`.
pub fn send_private_msg(user_id: i64, message: &Message, echo: u16) -> (r: String)
    ensures
        r@ == echo_request("send_private_msg"@, "\"user_id\":"@ + int_text(user_id as int) + ",\"message\":"@ + spec_json_text(SpecJson::Array(message@)), echo),
{
    let mut p = String::from_str("\"user_id\":");
    push_i64(&mut p, user_id);
    p.append(",\"message\":");
    p.append(message.to_string().as_str());
    with_echo("send_private_msg", &p, echo)
}

/// The request for a group message, answered under `echo`.
pub fn send_group_msg(group_id: i64, message: &Message, echo: u16) -> (r: String)
    ensures
        r@ == echo_request("send_group_msg"@, "\"group_id\":"@ + int_text(group_id as int) + ",\"message\":"@ + spec_json_text(SpecJson::Array(message@)), echo),
{
    let mut p = String::from_str("\"group_id\":");
    push_i64(&mut p, group_id);
    p.append(",\"message\":");
    p.append(message.to_string().as_str());
    with_echo("send_group_msg", &p, echo)
}

/// The request for a recall of a message, answered under `echo`.
pub fn delete_msg(message_id: &str, echo: u16) -> (r: String)
    ensures
        r@ == echo_request("delete_msg"@, "\"message_id\":"@ + message_id@, echo),
{
    let mut p = String::from_str("\"message_id\":");
    p.append(message_id);
    with_echo("delete_msg", &p, echo)
}

/// The request for a message, answered under `echo`.
pub fn get_msg(message_id: i64, echo: u16) -> (r: String)
    ensures
        r@ == echo_request("get_msg"@, "\"message_id\":"@ + int_text(message_id as int), echo),
{
    let mut p = String::from_str("\"message_id\":");
    push_i64(&mut p, message_id);
    with_echo("get_msg", &p, echo)
}

/// The request for a forwarded message, answered under `echo`.
pub fn get_forward_msg(id: i64, echo: u16) -> (r: String)
    ensures
        r@ == echo_request("get_forward_msg"@, "\"id\":"@ + int_text(id as int), echo),
{
    let mut p = String::from_str("\"id\":");
    push_i64(&mut p, id);
    with_echo("get_forward_msg", &p, echo)
}

/// The request for likes to a friend; no answer is awaited.
pub fn send_like(user_id: i64, times: i16) -> (r: String)
    ensures
        r@ == fire_request("send_like"@, "\"user_id\":"@ + int_text(user_id as int) + ",\"times\":"@ + int_text(times as int)),
{
    let mut p = String::from_str("\"user_id\":");
    push_i64(&mut p, user_id);
    p.append(",\"times\":");
    push_i64(&mut p, times as i64);
    without_echo("send_like", &p)
}

/// The request for removing a group member; no answer is awaited.
pub fn set_group_kick(group_id: i64, user_id: i64, reject_add_request: bool) -> (r: String)
    ensures
        r@ == fire_request("set_group_kick"@, "\"group_id\":"@ + int_text(group_id as int) + ", \"user_id\":"@ + int_text(user_id as int) + ",\"reject_add_request\":"@ + bool_text(reject_add_request)),
{
    let mut p = String::from_str("\"group_id\":");
    push_i64(&mut p, group_id);
    p.append(", \"user_id\":");
    push_i64(&mut p, user_id);
    p.append(",\"reject_add_request\":");
    p.append(bool_str(reject_add_request));
    without_echo("set_group_kick", &p)
}

/// The request for muting a group member; no answer is awaited.
pub fn set_group_ban(group_id: i64, user_id: i64, duration: i64) -> (r: String)
    ensures
        r@ == fire_request("set_group_ban"@, "\"group_id\":"@ + int_text(group_id as int) + ",\"user_id\":"@ + int_text(user_id as int) + ",\"duration\":"@ + int_text(duration as int)),
{
    let mut p = String::from_str("\"group_id\":");
    push_i64(&mut p, group_id);
    p.append(",\"user_id\":");
    push_i64(&mut p, user_id);
    p.append(",\"duration\":");
    push_i64(&mut p, duration);
    without_echo("set_group_ban", &p)
}

/// The request for muting a whole group; no answer is awaited.
pub fn set_group_whole_ban(group_id: i64, enable: bool) -> (r: String)
    ensures
        r@ == fire_request("set_group_whole_ban"@, "\"group_id\":"@ + int_text(group_id as int) + ",\"enable\":"@ + bool_text(enable)),
{
    let mut p = String::from_str("\"group_id\":");
    push_i64(&mut p, group_id);
    p.append(",\"enable\":");
    p.append(bool_str(enable));
    without_echo("set_group_whole_ban", &p)
}

/// The request for granting or revoking administration; no answer is awaited.
pub fn set_group_admin(group_id: i64, user_id: i64, enable: bool) -> (r: String)
    ensures
        r@ == fire_request("set_group_admin"@, "\"group_id\":"@ + int_text(group_id as int) + ",\"user_id\":"@ + int_text(user_id as int) + ",\"enable\":"@ + bool_text(enable)),
{
    let mut p = String::from_str("\"group_id\":");
    push_i64(&mut p, group_id);
    p.append(",\"user_id\":");
    push_i64(&mut p, user_id);
    p.append(",\"enable\":");
    p.append(bool_str(enable));
    without_echo("set_group_admin", &p)
}

/// The request for setting a member's group card; no answer is awaited.
pub fn set_group_card(group_id: i64, user_id: i64, card: &str) -> (r: String)
    ensures
        r@ == fire_request("set_group_card"@, "\"group_id\":"@ + int_text(group_id as int) + ",\"user_id\":"@ + int_text(user_id as int) + ",\"card\":"@ + spec_json_text(SpecJson::Str(card@))),
{
    let mut p = String::from_str("\"group_id\":");
    push_i64(&mut p, group_id);
    p.append(",\"user_id\":");
    push_i64(&mut p, user_id);
    p.append(",\"card\":");
    p.append(json_to_string(&JsonValue::Str(String::from_str(card))).as_str());
    without_echo("set_group_card", &p)
}

/// The request for renaming a group; no answer is awaited.
pub fn set_group_name(group_id: i64, card: &str) -> (r: String)
    ensures
        r@ == fire_request("set_group_name"@, "\"group_id\":"@ + int_text(group_id as int) + ",\"group_name\":"@ + spec_json_text(SpecJson::Str(card@))),
{
    let mut p = String::from_str("\"group_id\":");
    push_i64(&mut p, group_id);
    p.append(",\"group_name\":");
    p.append(json_to_string(&JsonValue::Str(String::from_str(card))).as_str());
    without_echo("set_group_name", &p)
}

/// The request for leaving a group; no answer is awaited.
pub fn set_group_leave(group_id: i64, is_dismiss: bool) -> (r: String)
    ensures
        r@ == fire_request("set_group_leave"@, "\"group_id\":"@ + int_text(group_id as int) + ",\"is_dismiss\":"@ + bool_text(is_dismiss)),
{
    let mut p = String::from_str("\"group_id\":");
    push_i64(&mut p, group_id);
    p.append(",\"is_dismiss\":");
    p.append(bool_str(is_dismiss));
    without_echo("set_group_leave", &p)
}

/// The request for granting a special title; no answer is awaited.
pub fn set_group_special_title(group_id: i64, user_id: i64, special_title: &str) -> (r: String)
    ensures
        r@ == fire_request("set_group_special_title"@, "\"group_id\":"@ + int_text(group_id as int) + ",\"user_id\":"@ + int_text(user_id as int) + ",\"special_title\":"@ + spec_json_text(SpecJson::Str(special_title@))),
{
    let mut p = String::from_str("\"group_id\":");
    push_i64(&mut p, group_id);
    p.append(",\"user_id\":");
    push_i64(&mut p, user_id);
    p.append(",\"special_title\":");
    p.append(json_to_string(&JsonValue::Str(String::from_str(special_title))).as_str());
    without_echo("set_group_special_title", &p)
}

/// The request for answering a friend request; no answer is awaited.
pub fn set_friend_add_request(flag: &str, approve: bool, remark: &str) -> (r: String)
    ensures
        r@ == fire_request("set_friend_add_request"@, "\"flag\":"@ + spec_json_text(SpecJson::Str(flag@)) + ",\"approve\":"@ + bool_text(approve) + ",\"remark\":"@ + spec_json_text(SpecJson::Str(remark@))),
{
    let mut p = String::from_str("\"flag\":");
    p.append(json_to_string(&JsonValue::Str(String::from_str(flag))).as_str());
    p.append(",\"approve\":");
    p.append(bool_str(approve));
    p.append(",\"remark\":");
    p.append(json_to_string(&JsonValue::Str(String::from_str(remark))).as_str());
    without_echo("set_friend_add_request", &p)
}

/// The request for answering a request to join a group; no answer is awaited.
pub fn set_group_add_request(flag: &str, sub_type: &str, approve: bool, reason: &str) -> (r: String)
    ensures
        r@ == fire_request("set_group_add_request"@, "\"flag\":"@ + spec_json_text(SpecJson::Str(flag@)) + ",\"sub_type\":"@ + spec_json_text(SpecJson::Str(sub_type@)) + ",\"approve\":"@ + bool_text(approve) + ",\"reason\":"@ + spec_json_text(SpecJson::Str(reason@))),
{
    let mut p = String::from_str("\"flag\":");
    p.append(json_to_string(&JsonValue::Str(String::from_str(flag))).as_str());
    p.append(",\"sub_type\":");
    p.append(json_to_string(&JsonValue::Str(String::from_str(sub_type))).as_str());
    p.append(",\"approve\":");
    p.append(bool_str(approve));
    p.append(",\"reason\":");
    p.append(json_to_string(&JsonValue::Str(String::from_str(reason))).as_str());
    without_echo("set_group_add_request", &p)
}

/// The request for information on a user, answered under `echo`.
pub fn get_stranger_info(user_id: i64, echo: u16) -> (r: String)
    ensures
        r@ == echo_request("get_stranger_info"@, "\"user_id\":"@ + int_text(user_id as int), echo),
{
    let mut p = String::from_str("\"user_id\":");
    push_i64(&mut p, user_id);
    with_echo("get_stranger_info", &p, echo)
}

/// The request for the logged-in account, answered under `echo`.
pub fn get_login_info(echo: u16) -> (r: String)
    ensures
        r@ == bare_request("get_login_info"@, echo),
{
    without_params("get_login_info", echo)
}

/// The request for the friend list, answered under `echo`.
pub fn get_friend_list(echo: u16) -> (r: String)
    ensures
        r@ == bare_request("get_friend_list"@, echo),
{
    without_params("get_friend_list", echo)
}

/// The request for information on a group, answered under `echo`.
pub fn get_group_info(group_id: i64, echo: u16) -> (r: String)
    ensures
        r@ == echo_request("get_group_info"@, "\"group_id\":"@ + int_text(group_id as int), echo),
{
    let mut p = String::from_str("\"group_id\":");
    push_i64(&mut p, group_id);
    with_echo("get_group_info", &p, echo)
}

/// The request for the group list, answered under `echo`.
pub fn get_group_list(echo: u16) -> (r: String)
    ensures
        r@ == bare_request("get_group_list"@, echo),
{
    without_params("get_group_list", echo)
}

/// The request for information on a group member, answered under `echo`.
pub fn get_group_member_info(group_id: i64, user_id: i64, echo: u16) -> (r: String)
    ensures
        r@ == echo_request("get_group_member_info"@, "\"group_id\":"@ + int_text(group_id as int) + ",\"user_id\":"@ + int_text(user_id as int), echo),
{
    let mut p = String::from_str("\"group_id\":");
    push_i64(&mut p, group_id);
    p.append(",\"user_id\":");
    push_i64(&mut p, user_id);
    with_echo("get_group_member_info", &p, echo)
}

/// The request for the members of a group, answered under `echo`.
pub fn get_group_member_list(group_id: i64, echo: u16) -> (r: String)
    ensures
        r@ == echo_request("get_group_member_list"@, "\"group_id\":"@ + int_text(group_id as int), echo),
{
    let mut p = String::from_str("\"group_id\":");
    push_i64(&mut p, group_id);
    with_echo("get_group_member_list", &p, echo)
}

/// The request for the honours of a group, answered under `echo`.
pub fn get_group_honor_info(group_id: i64, kind: &str, echo: u16) -> (r: String)
    ensures
        r@ == echo_request("get_group_honor_info"@, "\"group_id\":"@ + int_text(group_id as int) + ",\"type\":"@ + spec_json_text(SpecJson::Str(kind@)), echo),
{
    let mut p = String::from_str("\"group_id\":");
    push_i64(&mut p, group_id);
    p.append(",\"type\":");
    p.append(json_to_string(&JsonValue::Str(String::from_str(kind))).as_str());
    with_echo("get_group_honor_info", &p, echo)
}

/// The request for cookies for a domain, answered under `echo`.
pub fn get_cookies(domain: &str, echo: u16) -> (r: String)
    ensures
        r@ == echo_request("get_cookies"@, "\"domain\":"@ + spec_json_text(SpecJson::Str(domain@)), echo),
{
    let mut p = String::from_str("\"domain\":");
    p.append(json_to_string(&JsonValue::Str(String::from_str(domain))).as_str());
    with_echo("get_cookies", &p, echo)
}

/// The request for the CSRF token, answered under `echo`.
pub fn get_csrf_token(echo: u16) -> (r: String)
    ensures
        r@ == bare_request("get_csrf_token"@, echo),
{
    without_params("get_csrf_token", echo)
}

/// The request for credentials for a domain, answered under `echo`.
pub fn get_credentials(domain: &str, echo: u16) -> (r: String)
    ensures
        r@ == echo_request("get_credentials"@, "\"domain\":"@ + spec_json_text(SpecJson::Str(domain@)), echo),
{
    let mut p = String::from_str("\"domain\":");
    p.append(json_to_string(&JsonValue::Str(String::from_str(domain))).as_str());
    with_echo("get_credentials", &p, echo)
}

/// The request for a voice file, answered under `echo`.
pub fn get_record(file: &str, out_format: &str, echo: u16) -> (r: String)
    ensures
        r@ == echo_request("get_record"@, "\"file\":"@ + spec_json_text(SpecJson::Str(file@)) + ",\"out_format\":"@ + spec_json_text(SpecJson::Str(out_format@)), echo),
{
    let mut p = String::from_str("\"file\":");
    p.append(json_to_string(&JsonValue::Str(String::from_str(file))).as_str());
    p.append(",\"out_format\":");
    p.append(json_to_string(&JsonValue::Str(String::from_str(out_format))).as_str());
    with_echo("get_record", &p, echo)
}

/// The request for an image file, answered under `echo`.
pub fn get_image(file: &str, echo: u16) -> (r: String)
    ensures
        r@ == echo_request("get_image"@, "\"file\":"@ + spec_json_text(SpecJson::Str(file@)), echo),
{
    let mut p = String::from_str("\"file\":");
    p.append(json_to_string(&JsonValue::Str(String::from_str(file))).as_str());
    with_echo("get_image", &p, echo)
}

/// The request for whether images can be sent, answered under `echo`.
pub fn can_send_image(echo: u16) -> (r: String)
    ensures
        r@ == bare_request("can_send_image"@, echo),
{
    without_params("can_send_image", echo)
}

/// The request for whether voice can be sent, answered under `echo`.
pub fn can_send_record(echo: u16) -> (r: String)
    ensures
        r@ == bare_request("can_send_record"@, echo),
{
    without_params("can_send_record", echo)
}

/// The request for the login status, answered under `echo`.
pub fn get_status(echo: u16) -> (r: String)
    ensures
        r@ == bare_request("get_status"@, echo),
{
    without_params("get_status", echo)
}

/// The request for the implementation's version, answered under `echo`.
pub fn get_version_info(echo: u16) -> (r: String)
    ensures
        r@ == bare_request("get_version_info"@, echo),
{
    without_params("get_version_info", echo)
}

/// The request for a restart of the implementation; no answer is awaited.
pub fn set_restart(delay: i64) -> (r: String)
    ensures
        r@ == fire_request("set_restart"@, "\"delay\":"@ + int_text(delay as int)),
{
    let mut p = String::from_str("\"delay\":");
    push_i64(&mut p, delay);
    without_echo("set_restart", &p)
}

} // verus!
