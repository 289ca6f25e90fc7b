//! Data model of the REST boundary: the records the server returns, the
//! request bodies the client sends, and the shared response envelope
//! `{ ok, error, data }`.
//!
//! Timestamps are carried as whole seconds (`i64`); the surrounding
//! application converts from the wire representation when it decodes a
//! payload.

use vstd::prelude::*;

use crate::numfmt::{dec_int, decimal_i32};

verus! {

/// A registered account: a person or an automated bot.
#[derive(Debug)]
pub struct User {
    pub id: i32,
    pub username: String,
    pub is_bot: bool,
    pub icon: Option<String>,
    pub created_at: i64,
}

/// A chat room and the user that owns it.
#[derive(Debug)]
pub struct Chat {
    pub id: i32,
    pub name: String,
    pub owner: User,
    pub icon: Option<String>,
    pub created_at: i64,
}

/// What a member may do inside a chat.
#[derive(Clone, Copy, PartialEq, Eq, Structural, Debug)]
pub struct ChatMemberPermissions {
    pub can_write: bool,
    pub can_add_members: bool,
    pub can_kick_members: bool,
}

/// A user's membership in a chat, with its permissions.
#[derive(Debug)]
pub struct ChatMember {
    pub id: i32,
    pub user: User,
    pub chat: Chat,
    pub permissions: ChatMemberPermissions,
}

/// One message posted to a chat.
#[derive(Debug)]
pub struct ChatMessage {
    pub id: i32,
    pub sender: User,
    pub chat: Chat,
    pub content: String,
    pub files: Vec<String>,
    pub created_at: i64,
}

/// A chat event, consumed by exhaustive matching.
#[derive(Debug)]
pub enum EventType {
    MemberAdded(ChatMember),
    MemberKicked { user: User, chat: Chat },
    NewMessage(ChatMessage),
}

/// The error half of the response envelope.
#[derive(Debug)]
pub struct ApiError {
    pub code: i32,
    pub message: String,
}

/// The envelope every endpoint answers with: `ok` marks success, `error`
/// reports a server-side failure, `data` carries the payload.
#[derive(Debug)]
pub struct Response<T> {
    pub ok: bool,
    pub error: Option<ApiError>,
    pub data: Option<T>,
}

/// The transport failed before a well-formed envelope arrived: the network
/// call itself or decoding its body.
#[derive(Debug)]
pub struct ApiCallError {
    pub message: String,
}

/// Body of the register request.
#[derive(Debug)]
pub struct NewUserRequest {
    pub username: String,
    pub password: String,
    pub email: String,
}

/// Body of the issue-token request.
#[derive(Debug)]
pub struct GetTokenRequest {
    pub username: String,
    pub password: String,
}

/// Payload of a successful issue-token response.
#[derive(Debug)]
pub struct GetTokenResponseData {
    pub token: String,
}

/// Body of the create-chat request.
#[derive(Debug)]
pub struct NewChatRequest {
    pub name: String,
    pub icon_file: Option<String>,
}

/// Body of the send-message request.
#[derive(Debug)]
pub struct SendMessageRequest {
    pub content: String,
    pub files: Vec<String>,
}

/// Raw markup handed to the node that renders a message body.
#[derive(Debug)]
pub struct RawHtmlProps {
    pub html: String,
}

/// Prefix every API path is mounted under.
pub const API_PREFIX: &'static str = "/api";

/// Builds the full URL path of an API method from its suffix.
pub fn endpoint(method: &str) -> (r: String)
    ensures
        r@ == API_PREFIX@ + method@,
{
    let mut url = String::new();
    url.append(API_PREFIX);
    url.append(method);
    url
}

/// The method path of one chat.
pub fn chat_path(chat_id: i32) -> (r: String)
    ensures
        r@ == "/chat/"@ + dec_int(chat_id as int),
{
    let mut s = String::new();
    s.append("/chat/");
    let id_text = decimal_i32(chat_id);
    s.append(id_text.as_str());
    proof {
        assert(s@ =~= "/chat/"@ + dec_int(chat_id as int));
    }
    s
}

/// The method path of a chat's messages page.
pub fn chat_messages_path(chat_id: i32) -> (r: String)
    ensures
        r@ == "/chat/"@ + dec_int(chat_id as int) + "/messages"@,
{
    let mut s = chat_path(chat_id);
    s.append("/messages");
    proof {
        assert(s@ =~= "/chat/"@ + dec_int(chat_id as int) + "/messages"@);
    }
    s
}

/// The method path for posting a message to a chat.
pub fn chat_message_path(chat_id: i32) -> (r: String)
    ensures
        r@ == "/chat/"@ + dec_int(chat_id as int) + "/message"@,
{
    let mut s = chat_path(chat_id);
    s.append("/message");
    proof {
        assert(s@ =~= "/chat/"@ + dec_int(chat_id as int) + "/message"@);
    }
    s
}

/// The method path of a chat's member list.
pub fn chat_members_path(chat_id: i32) -> (r: String)
    ensures
        r@ == "/chat/"@ + dec_int(chat_id as int) + "/members"@,
{
    let mut s = chat_path(chat_id);
    s.append("/members");
    proof {
        assert(s@ =~= "/chat/"@ + dec_int(chat_id as int) + "/members"@);
    }
    s
}

/// The method path for adding a member to a chat.
pub fn chat_member_add_path(chat_id: i32) -> (r: String)
    ensures
        r@ == "/chat/"@ + dec_int(chat_id as int) + "/member"@,
{
    let mut s = chat_path(chat_id);
    s.append("/member");
    proof {
        assert(s@ =~= "/chat/"@ + dec_int(chat_id as int) + "/member"@);
    }
    s
}

/// The method path of one user's membership in a chat.
pub fn chat_member_path(chat_id: i32, user_id: i32) -> (r: String)
    ensures
        r@ == "/chat/"@ + dec_int(chat_id as int) + "/member/"@ + dec_int(user_id as int),
{
    let mut s = chat_member_add_path(chat_id);
    s.append("/");
    let id_text = decimal_i32(user_id);
    s.append(id_text.as_str());
    proof {
        reveal_strlit("/member");
        reveal_strlit("/");
        reveal_strlit("/member/");
        assert(s@ =~= "/chat/"@ + dec_int(chat_id as int) + "/member/"@ + dec_int(
            user_id as int,
        ));
    }
    s
}

/// The method path of one bot.
pub fn bot_path(bot_id: i32) -> (r: String)
    ensures
        r@ == "/bot/"@ + dec_int(bot_id as int),
{
    let mut s = String::new();
    s.append("/bot/");
    let id_text = decimal_i32(bot_id);
    s.append(id_text.as_str());
    proof {
        assert(s@ =~= "/bot/"@ + dec_int(bot_id as int));
    }
    s
}

/// The method path for issuing one bot's token.
pub fn bot_token_path(bot_id: i32) -> (r: String)
    ensures
        r@ == "/bot/"@ + dec_int(bot_id as int) + "/token"@,
{
    let mut s = bot_path(bot_id);
    s.append("/token");
    proof {
        assert(s@ =~= "/bot/"@ + dec_int(bot_id as int) + "/token"@);
    }
    s
}

} // verus!
