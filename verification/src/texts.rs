//! The user-visible notification texts, each pinned to the exact literal the
//! client displays. Server-reported failures and transport failures are
//! distinguished only by these texts, not by recovery behavior.

use vstd::prelude::*;

verus! {

/// Shown when the transport fails before a well-formed envelope arrives.
pub open spec fn server_down_text() -> Seq<char> {
    "Сервер не отвечает"@
}

pub fn server_down_message() -> (t: String)
    ensures
        t@ == server_down_text(),
{
    "Сервер не отвечает".to_owned()
}

/// Shown when a messages or members poll reports a server-side failure.
pub open spec fn fetch_messages_failed_text() -> Seq<char> {
    "Не удалось получить сообщения"@
}

pub fn fetch_messages_failed_message() -> (t: String)
    ensures
        t@ == fetch_messages_failed_text(),
{
    "Не удалось получить сообщения".to_owned()
}

/// Shown when a chat-list or bot-list poll reports a server-side failure.
pub open spec fn fetch_chats_failed_text() -> Seq<char> {
    "Не удалось получить список чатов"@
}

pub fn fetch_chats_failed_message() -> (t: String)
    ensures
        t@ == fetch_chats_failed_text(),
{
    "Не удалось получить список чатов".to_owned()
}

/// Shown when the one-shot chat-info fetch reports a server-side failure.
pub open spec fn fetch_chat_info_failed_text() -> Seq<char> {
    "Не удалось получить информацию о чате"@
}

pub fn fetch_chat_info_failed_message() -> (t: String)
    ensures
        t@ == fetch_chat_info_failed_text(),
{
    "Не удалось получить информацию о чате".to_owned()
}

/// Shown when the one-shot own-membership fetch reports a failure.
pub open spec fn fetch_self_member_failed_text() -> Seq<char> {
    "Не удалось получить информацию о себе"@
}

pub fn fetch_self_member_failed_message() -> (t: String)
    ensures
        t@ == fetch_self_member_failed_text(),
{
    "Не удалось получить информацию о себе".to_owned()
}

/// Shown when a user or bot search reports a server-side failure.
pub open spec fn search_failed_text() -> Seq<char> {
    "Не удалось получить информацию о пользователях"@
}

pub fn search_failed_message() -> (t: String)
    ensures
        t@ == search_failed_text(),
{
    "Не удалось получить информацию о пользователях".to_owned()
}

/// Shown when sending a message reports a server-side failure.
pub open spec fn send_message_failed_text() -> Seq<char> {
    "Не удалось отправить сообщение"@
}

pub fn send_message_failed_message() -> (t: String)
    ensures
        t@ == send_message_failed_text(),
{
    "Не удалось отправить сообщение".to_owned()
}

/// The "already a member" variant of the add-member failure.
pub open spec fn already_member_text() -> Seq<char> {
    "Этот пользователь уже состоит в этом чате"@
}

pub fn already_member_message() -> (t: String)
    ensures
        t@ == already_member_text(),
{
    "Этот пользователь уже состоит в этом чате".to_owned()
}

/// The generic variant of the add-member failure.
pub open spec fn add_member_failed_text() -> Seq<char> {
    "Не удалось добавить пользователя в чат"@
}

pub fn add_member_failed_message() -> (t: String)
    ensures
        t@ == add_member_failed_text(),
{
    "Не удалось добавить пользователя в чат".to_owned()
}

/// Shown when the issue-token call reports that the user does not exist.
pub open spec fn no_such_user_text() -> Seq<char> {
    "Ошибка! Такого пользователя нет."@
}

pub fn no_such_user_message() -> (t: String)
    ensures
        t@ == no_such_user_text(),
{
    "Ошибка! Такого пользователя нет.".to_owned()
}

/// Shown when registering reports that the name is already taken.
pub open spec fn user_exists_text() -> Seq<char> {
    "Ошибка! Такой пользователь уже есть."@
}

pub fn user_exists_message() -> (t: String)
    ensures
        t@ == user_exists_text(),
{
    "Ошибка! Такой пользователь уже есть.".to_owned()
}

/// Shown for any other server-reported login or register failure.
pub open spec fn unknown_error_text() -> Seq<char> {
    "Неизвестная ошибка!"@
}

pub fn unknown_error_message() -> (t: String)
    ensures
        t@ == unknown_error_text(),
{
    "Неизвестная ошибка!".to_owned()
}

/// Shown when the login or register transport fails.
pub open spec fn server_error_text() -> Seq<char> {
    "Неизвестная ошибка в работе сервера."@
}

pub fn server_error_message() -> (t: String)
    ensures
        t@ == server_error_text(),
{
    "Неизвестная ошибка в работе сервера.".to_owned()
}

/// Shown for server-reported failures of the create-chat, new-bot and
/// file-upload calls.
pub open spec fn generic_failure_text() -> Seq<char> {
    "Что-то пошло не так"@
}

pub fn generic_failure_message() -> (t: String)
    ensures
        t@ == generic_failure_text(),
{
    "Что-то пошло не так".to_owned()
}

/// Shown when create-chat is submitted with an empty name.
pub open spec fn chat_not_created_text() -> Seq<char> {
    "Чат не был создан"@
}

pub fn chat_not_created_message() -> (t: String)
    ensures
        t@ == chat_not_created_text(),
{
    "Чат не был создан".to_owned()
}

/// Shown when fetching a bot's token reports a server-side failure.
pub open spec fn bot_token_failed_text() -> Seq<char> {
    "Не удалось получить токен бота"@
}

pub fn bot_token_failed_message() -> (t: String)
    ensures
        t@ == bot_token_failed_text(),
{
    "Не удалось получить токен бота".to_owned()
}

/// Shown when deleting a bot or kicking a chat member reports a failure.
pub open spec fn delete_failed_text() -> Seq<char> {
    "Не удалось удалить бота"@
}

pub fn delete_failed_message() -> (t: String)
    ensures
        t@ == delete_failed_text(),
{
    "Не удалось удалить бота".to_owned()
}

} // verus!
