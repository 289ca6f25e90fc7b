use bitum_frontend::actions::{
    add_member_settled, bot_token_settled, chat_info_settled, delete_settled, login_settled,
    merge_search_results, new_bot_settled, new_chat_settled, prepare_send_message,
    register_settled, search_allowed, self_member_settled, send_message_settled,
    upload_icon_settled, validate_new_chat_name,
};
use bitum_frontend::api::{
    ApiCallError, ApiError, Chat, ChatMember, ChatMemberPermissions, ChatMessage,
    GetTokenResponseData, Response, User,
};
use bitum_frontend::guard::Route;
use bitum_frontend::notify::{NotificationQueue, NotificationStyle};

fn user(id: i32, name: &str) -> User {
    User {
        id,
        username: name.to_string(),
        is_bot: false,
        created_at: 1_700_000_000,
        icon: None,
    }
}

fn chat(id: i32) -> Chat {
    Chat {
        id,
        name: "room".to_string(),
        owner: user(1, "owner"),
        icon: None,
        created_at: 1_700_000_000,
    }
}

fn member(id: i32) -> ChatMember {
    ChatMember {
        id,
        user: user(2, "member"),
        chat: chat(5),
        permissions: ChatMemberPermissions {
            can_write: true,
            can_add_members: true,
            can_kick_members: false,
        },
    }
}

fn err(code: i32) -> Option<ApiError> {
    Some(ApiError { code, message: "server says no".to_string() })
}

fn transport() -> ApiCallError {
    ApiCallError { message: "connection reset".to_string() }
}

#[test]
fn empty_message_submit_issues_no_call_and_no_notification() {
    let queue = NotificationQueue::new();
    let request = prepare_send_message(String::new());
    assert!(request.is_none());
    // Nothing was submitted, so nothing can fail: the queue stays empty.
    assert_eq!(queue.render().len(), 0);
}

#[test]
fn nonempty_message_submit_carries_the_content_and_no_files() {
    let request = prepare_send_message("hello".to_string()).unwrap();
    assert_eq!(request.content, "hello");
    assert!(request.files.is_empty());
}

#[test]
fn send_message_failures_surface_their_texts() {
    let failed: Result<Response<ChatMessage>, ApiCallError> =
        Ok(Response { ok: false, error: err(500), data: None });
    assert_eq!(
        send_message_settled(failed).unwrap().text,
        "Не удалось отправить сообщение"
    );
    let down: Result<Response<ChatMessage>, ApiCallError> = Err(transport());
    assert_eq!(send_message_settled(down).unwrap().text, "Сервер не отвечает");
    let ok: Result<Response<ChatMessage>, ApiCallError> =
        Ok(Response { ok: true, error: None, data: None });
    assert!(send_message_settled(ok).is_none());
}

#[test]
fn add_member_conflict_shows_the_already_member_variant() {
    // The call answers `{ok: false, error: {code: 409, ...}}`: the text must
    // be the "already a member" variant, not the generic failure variant.
    let conflict: Result<Response<ChatMember>, ApiCallError> =
        Ok(Response { ok: false, error: err(409), data: None });
    let (close, notice) = add_member_settled(conflict);
    assert!(!close);
    let notice = notice.unwrap();
    assert_eq!(notice.text, "Этот пользователь уже состоит в этом чате");
    assert_ne!(notice.text, "Не удалось добавить пользователя в чат");
    assert_eq!(notice.style, NotificationStyle::Error);
}

#[test]
fn add_member_other_failures_show_the_generic_variant() {
    let denied: Result<Response<ChatMember>, ApiCallError> =
        Ok(Response { ok: false, error: err(403), data: None });
    let (_, notice) = add_member_settled(denied);
    assert_eq!(notice.unwrap().text, "Не удалось добавить пользователя в чат");
    let down: Result<Response<ChatMember>, ApiCallError> = Err(transport());
    let (close, notice) = add_member_settled(down);
    assert!(!close);
    assert_eq!(notice.unwrap().text, "Сервер не отвечает");
    let ok: Result<Response<ChatMember>, ApiCallError> =
        Ok(Response { ok: true, error: None, data: Some(member(3)) });
    let (close, notice) = add_member_settled(ok);
    assert!(close);
    assert!(notice.is_none());
}

#[test]
fn login_classification_covers_each_variant() {
    let ok: Result<Response<GetTokenResponseData>, ApiCallError> = Ok(Response {
        ok: true,
        error: None,
        data: Some(GetTokenResponseData { token: "session-token".to_string() }),
    });
    let (nav, notice) = login_settled(ok);
    assert_eq!(nav, Some(Route::Chats));
    assert!(notice.is_none());
    let missing: Result<Response<GetTokenResponseData>, ApiCallError> =
        Ok(Response { ok: false, error: err(404), data: None });
    let (nav, notice) = login_settled(missing);
    assert!(nav.is_none());
    assert_eq!(notice.unwrap().text, "Ошибка! Такого пользователя нет.");
    let other: Result<Response<GetTokenResponseData>, ApiCallError> =
        Ok(Response { ok: false, error: err(500), data: None });
    assert_eq!(login_settled(other).1.unwrap().text, "Неизвестная ошибка!");
    let down: Result<Response<GetTokenResponseData>, ApiCallError> = Err(transport());
    assert_eq!(
        login_settled(down).1.unwrap().text,
        "Неизвестная ошибка в работе сервера."
    );
}

#[test]
fn register_classification_covers_each_variant() {
    let ok: Result<Response<User>, ApiCallError> =
        Ok(Response { ok: true, error: None, data: Some(user(9, "new")) });
    let (follow_up, notice) = register_settled(ok);
    assert!(follow_up);
    assert!(notice.is_none());
    let taken: Result<Response<User>, ApiCallError> =
        Ok(Response { ok: false, error: err(409), data: None });
    let (follow_up, notice) = register_settled(taken);
    assert!(!follow_up);
    assert_eq!(notice.unwrap().text, "Ошибка! Такой пользователь уже есть.");
    let other: Result<Response<User>, ApiCallError> =
        Ok(Response { ok: false, error: err(500), data: None });
    assert_eq!(register_settled(other).1.unwrap().text, "Неизвестная ошибка!");
    let down: Result<Response<User>, ApiCallError> = Err(transport());
    assert_eq!(
        register_settled(down).1.unwrap().text,
        "Неизвестная ошибка в работе сервера."
    );
}

#[test]
fn empty_chat_name_is_rejected_without_a_call() {
    let notice = validate_new_chat_name(&String::new()).unwrap();
    assert_eq!(notice.text, "Чат не был создан");
    assert!(validate_new_chat_name(&"den".to_string()).is_none());
}

#[test]
fn new_chat_redirects_only_when_asked() {
    let ok: Result<Response<Chat>, ApiCallError> =
        Ok(Response { ok: true, error: None, data: Some(chat(12)) });
    let (nav, notice) = new_chat_settled(ok, true);
    assert_eq!(nav, Some(Route::Chat { id: 12 }));
    assert!(notice.is_none());
    let ok_again: Result<Response<Chat>, ApiCallError> =
        Ok(Response { ok: true, error: None, data: Some(chat(12)) });
    let (nav, _) = new_chat_settled(ok_again, false);
    assert!(nav.is_none());
    let failed: Result<Response<Chat>, ApiCallError> =
        Ok(Response { ok: false, error: err(500), data: None });
    assert_eq!(new_chat_settled(failed, true).1.unwrap().text, "Что-то пошло не так");
    let down: Result<Response<Chat>, ApiCallError> = Err(transport());
    assert_eq!(new_chat_settled(down, true).1.unwrap().text, "Сервер не отвечает");
}

#[test]
fn upload_icon_keeps_the_first_stored_name() {
    let ok: Result<Response<Vec<String>>, ApiCallError> = Ok(Response {
        ok: true,
        error: None,
        data: Some(vec!["stored-1.png".to_string(), "stored-2.png".to_string()]),
    });
    let (name, notice) = upload_icon_settled(ok);
    assert_eq!(name.unwrap(), "stored-1.png");
    assert!(notice.is_none());
    let empty: Result<Response<Vec<String>>, ApiCallError> =
        Ok(Response { ok: true, error: None, data: Some(Vec::new()) });
    assert!(upload_icon_settled(empty).0.is_none());
    let failed: Result<Response<Vec<String>>, ApiCallError> =
        Ok(Response { ok: false, error: err(500), data: None });
    assert_eq!(upload_icon_settled(failed).1.unwrap().text, "Что-то пошло не так");
}

#[test]
fn bot_lifecycle_classifications() {
    let ok: Result<Response<User>, ApiCallError> =
        Ok(Response { ok: true, error: None, data: Some(user(3, "bot")) });
    assert!(new_bot_settled(ok).is_none());
    let failed: Result<Response<User>, ApiCallError> =
        Ok(Response { ok: false, error: err(500), data: None });
    assert_eq!(new_bot_settled(failed).unwrap().text, "Что-то пошло не так");
    let token_ok: Result<Response<GetTokenResponseData>, ApiCallError> = Ok(Response {
        ok: true,
        error: None,
        data: Some(GetTokenResponseData { token: "bot-token".to_string() }),
    });
    let (token, notice) = bot_token_settled(token_ok);
    assert_eq!(token.unwrap(), "bot-token");
    assert!(notice.is_none());
    let token_failed: Result<Response<GetTokenResponseData>, ApiCallError> =
        Ok(Response { ok: false, error: err(500), data: None });
    assert_eq!(
        bot_token_settled(token_failed).1.unwrap().text,
        "Не удалось получить токен бота"
    );
    let delete_failed: Result<Response<()>, ApiCallError> =
        Ok(Response { ok: false, error: err(500), data: None });
    assert_eq!(delete_settled(delete_failed).unwrap().text, "Не удалось удалить бота");
    let delete_ok: Result<Response<()>, ApiCallError> =
        Ok(Response { ok: true, error: None, data: Some(()) });
    assert!(delete_settled(delete_ok).is_none());
}

#[test]
fn one_shot_chat_fetch_classifications() {
    let ok: Result<Response<Chat>, ApiCallError> =
        Ok(Response { ok: true, error: None, data: Some(chat(5)) });
    let (stored, notice) = chat_info_settled(ok);
    assert_eq!(stored.unwrap().id, 5);
    assert!(notice.is_none());
    let failed: Result<Response<Chat>, ApiCallError> =
        Ok(Response { ok: false, error: err(500), data: None });
    let (stored, notice) = chat_info_settled(failed);
    assert!(stored.is_none());
    assert_eq!(notice.unwrap().text, "Не удалось получить информацию о чате");
    let member_failed: Result<Response<ChatMember>, ApiCallError> =
        Ok(Response { ok: false, error: err(500), data: None });
    let (stored, notice) = self_member_settled(member_failed);
    assert!(stored.is_none());
    assert_eq!(notice.unwrap().text, "Не удалось получить информацию о себе");
}

#[test]
fn search_is_guarded_and_merged() {
    assert!(!search_allowed(&String::new()));
    assert!(search_allowed(&"al".to_string()));
    let users: Result<Response<Vec<User>>, ApiCallError> =
        Ok(Response { ok: true, error: None, data: Some(vec![user(1, "alice")]) });
    let bots: Result<Response<Vec<User>>, ApiCallError> =
        Ok(Response { ok: true, error: None, data: Some(vec![user(2, "alfred-bot")]) });
    let (list, notice) = merge_search_results(users, bots);
    assert_eq!(list.len(), 2);
    assert_eq!(list[0].username, "alice");
    assert_eq!(list[1].username, "alfred-bot");
    assert!(notice.is_none());
    // A failed half contributes nothing and surfaces its notice.
    let users: Result<Response<Vec<User>>, ApiCallError> =
        Ok(Response { ok: false, error: err(500), data: None });
    let bots: Result<Response<Vec<User>>, ApiCallError> =
        Ok(Response { ok: true, error: None, data: Some(vec![user(2, "alfred-bot")]) });
    let (list, notice) = merge_search_results(users, bots);
    assert_eq!(list.len(), 1);
    assert_eq!(
        notice.unwrap().text,
        "Не удалось получить информацию о пользователях"
    );
    // When both halves fail, the later report wins.
    let users: Result<Response<Vec<User>>, ApiCallError> =
        Ok(Response { ok: false, error: err(500), data: None });
    let bots: Result<Response<Vec<User>>, ApiCallError> = Err(transport());
    let (list, notice) = merge_search_results(users, bots);
    assert!(list.is_empty());
    assert_eq!(notice.unwrap().text, "Сервер не отвечает");
}

#[test]
fn notices_report_into_the_shared_queue() {
    let mut queue = NotificationQueue::new();
    let down: Result<Response<ChatMessage>, ApiCallError> = Err(transport());
    let notice = send_message_settled(down).unwrap();
    let id = notice.report(&mut queue);
    let visible = queue.render();
    assert_eq!(visible.len(), 1);
    assert_eq!(visible[0].id, id);
    assert_eq!(visible[0].text, "Сервер не отвечает");
}
