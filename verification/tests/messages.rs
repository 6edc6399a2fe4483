use asimov_telegram_module::json::{member_integer, member_items, member_text};
use asimov_telegram_module::telegram::messages::{
    AuthState, Message, Messages, TdLibResponse, UpdateAuthState, UpdateNewChat,
};
use asimov_telegram_module::telegram::{
    annotate, answer, assert_ok_response, chat_title, confirm, limit_members, members_in,
    read_members, ChatKind, Operation, OperationError, ReplyError,
};
use serde_json::Value;

fn json(text: &str) -> Value {
    serde_json::from_str(text).unwrap()
}

#[test]
fn test_parse() {
    let s = r#"{"@type":"ok","@extra":"1"}"#;
    TdLibResponse::decode(&serde_json::from_str::<Value>(s).unwrap()).unwrap();

    let s = r#"{"@type":"updateAuthorizationState","authorization_state":{"@type":"authorizationStateWaitTdlibParameters"}}"#;
    TdLibResponse::decode(&serde_json::from_str::<Value>(s).unwrap()).unwrap();
}

#[test]
fn replies_are_decoded() {
    assert_eq!(TdLibResponse::decode(&json(r#"{"@type":"ok"}"#)), Some(TdLibResponse::Success));
    assert_eq!(
        TdLibResponse::decode(&json(r#"{"@type":"error","code":404,"message":"Not Found","@extra":"1"}"#)),
        Some(TdLibResponse::Error { code: 404, message: "Not Found".to_string() })
    );
    assert_eq!(
        TdLibResponse::decode(&json(r#"{"@type":"error"}"#)),
        Some(TdLibResponse::Error { code: 0, message: String::new() })
    );
}

#[test]
fn updates_are_decoded_with_what_they_carry() {
    let state = json(r#"{"@type":"authorizationStateWaitPassword","password_hint":"pet"}"#);
    let update = json(
        r#"{"@type":"updateAuthorizationState","authorization_state":{"@type":"authorizationStateWaitPassword","password_hint":"pet"}}"#,
    );
    assert_eq!(
        TdLibResponse::decode(&update),
        Some(TdLibResponse::UpdateAuthorizationState {
            authorization_state: UpdateAuthState {
                typ: AuthState::AuthorizationStateWaitPassword,
                other: state,
            },
        })
    );
    let chat = json(r#"{"id":-100123,"title":"Rust","type":{"@type":"chatTypeSupergroup","supergroup_id":123}}"#);
    let update = json(
        r#"{"@type":"updateNewChat","chat":{"id":-100123,"title":"Rust","type":{"@type":"chatTypeSupergroup","supergroup_id":123}}}"#,
    );
    assert_eq!(
        TdLibResponse::decode(&update),
        Some(TdLibResponse::UpdateNewChat { chat: UpdateNewChat { id: -100123, other: chat } })
    );
    for (kind, member) in [
        ("updateBasicGroup", "basic_group"),
        ("updateSupergroup", "supergroup"),
        ("updateUser", "user"),
    ] {
        let update = json(&format!(r#"{{"@type":"{kind}","{member}":{{"id":5}}}}"#));
        assert!(TdLibResponse::decode(&update).is_some(), "{kind}");
        let without = json(&format!(r#"{{"@type":"{kind}","{member}":{{"name":"x"}}}}"#));
        assert_eq!(TdLibResponse::decode(&without), None, "{kind}");
    }
}

#[test]
fn what_the_client_does_not_read_is_not_decoded() {
    for text in [
        r#"{"@type":"updateOption","name":"x"}"#,
        r#"{"type":"ok"}"#,
        r#"{"@type":5}"#,
        r#"[1,2,3]"#,
        r#""ok""#,
        r#"null"#,
        r#"{"@type":"updateNewChat"}"#,
        r#"{"@type":"updateNewChat","chat":{"id":"7"}}"#,
        r#"{"@type":"updateNewChat","chat":{"id":1.5}}"#,
        r#"{"@type":"updateAuthorizationState","authorization_state":{"@type":"authorizationStateLoggingOut"}}"#,
    ] {
        assert_eq!(TdLibResponse::decode(&json(text)), None, "{text}");
    }
}

#[test]
fn authorization_states_have_their_names() {
    for (name, state) in [
        ("authorizationStateWaitTdlibParameters", AuthState::AuthorizationStateWaitTdlibParameters),
        ("authorizationStateWaitPhoneNumber", AuthState::AuthorizationStateWaitPhoneNumber),
        ("authorizationStateWaitCode", AuthState::AuthorizationStateWaitCode),
        ("authorizationStateWaitPassword", AuthState::AuthorizationStateWaitPassword),
        ("authorizationStateReady", AuthState::AuthorizationStateReady),
        ("authorizationStateClosed", AuthState::AuthorizationStateClosed),
    ] {
        assert_eq!(AuthState::from_name(name), Some(state));
    }
    assert_eq!(AuthState::from_name("authorizationStateClosing"), None);
    assert_eq!(AuthState::from_name(""), None);
}

#[test]
fn a_page_of_messages_is_decoded() {
    let page = json(
        r#"{"@type":"messages","total_count":2,"messages":[{"@type":"message","id":11,"chat_id":7,"content":"a"},{"@type":"message"}]}"#,
    );
    let decoded = Messages::decode(&page).unwrap();
    assert_eq!(decoded.typ, "messages");
    assert_eq!(decoded.total_count, Some(2));
    assert_eq!(
        decoded.messages,
        vec![
            Message {
                typ: "message".to_string(),
                id: 11,
                chat_id: 7,
                other: json(r#"{"@type":"message","id":11,"chat_id":7,"content":"a"}"#),
            },
            Message {
                typ: "message".to_string(),
                id: 0,
                chat_id: 0,
                other: json(r#"{"@type":"message"}"#),
            },
        ]
    );
    assert_eq!(
        TdLibResponse::decode(&page),
        Some(TdLibResponse::Messages { messages: decoded })
    );
}

#[test]
fn a_page_with_something_else_in_it_is_not_decoded() {
    assert_eq!(Messages::decode(&json(r#"{"@type":"messages","messages":[{"id":1}]}"#)), None);
    assert_eq!(Messages::decode(&json(r#"{"@type":"messages","messages":[null]}"#)), None);
    assert_eq!(Messages::decode(&json(r#"{"@type":"messages","messages":{}}"#)), None);
    assert_eq!(Messages::decode(&json(r#"{"@type":"messages"}"#)), None);
    assert_eq!(
        Messages::decode(&json(r#"{"@type":"messages","messages":[{"@type":"message","id":"1"}]}"#)),
        None
    );
    let empty = Messages::decode(&json(r#"{"@type":"messages","total_count":4294967296,"messages":[]}"#)).unwrap();
    assert_eq!(empty.total_count, None);
    assert!(empty.messages.is_empty());
}

#[test]
fn confirmations_are_told_from_errors() {
    assert_eq!(assert_ok_response(&json(r#"{"@type":"ok","@extra":"1"}"#)), Ok(()));
    assert_eq!(
        assert_ok_response(&json(r#"{"@type":"error","code":400,"message":"PHONE_NUMBER_INVALID"}"#)),
        Err(ReplyError::Rejected { code: 400, message: "PHONE_NUMBER_INVALID".to_string() })
    );
    assert_eq!(
        assert_ok_response(&json(r#"{"@type":"error"}"#)),
        Err(ReplyError::Rejected { code: 0, message: String::new() })
    );
    assert_eq!(assert_ok_response(&json(r#"{"@type":"user"}"#)), Err(ReplyError::Unknown));
    assert_eq!(assert_ok_response(&json(r#"{}"#)), Err(ReplyError::Unknown));
    assert_eq!(assert_ok_response(&json(r#"["ok"]"#)), Err(ReplyError::NotAnObject));
    assert_eq!(assert_ok_response(&json(r#""ok""#)), Err(ReplyError::NotAnObject));
}

#[test]
fn members_are_read_from_a_reply() {
    let reply = json(r#"{"@type":"chatMembers","total_count":2,"members":[{"id":1},{"id":2}]}"#);
    assert_eq!(members_in(&reply), vec![json(r#"{"id":1}"#), json(r#"{"id":2}"#)]);
    assert_eq!(members_in(&json(r#"{"@type":"chatMembers"}"#)), Vec::<Value>::new());
    assert_eq!(members_in(&json(r#"{"members":"none"}"#)), Vec::<Value>::new());
    assert_eq!(members_in(&json(r#"[1,2]"#)), Vec::<Value>::new());
}

#[test]
fn members_are_limited() {
    assert_eq!(limit_members(vec![1, 2, 3, 4], Some(2)), vec![1, 2]);
    assert_eq!(limit_members(vec![1, 2, 3, 4], Some(4)), vec![1, 2, 3, 4]);
    assert_eq!(limit_members(vec![1, 2, 3, 4], Some(9)), vec![1, 2, 3, 4]);
    assert_eq!(limit_members(vec![1, 2, 3, 4], Some(0)), Vec::<i32>::new());
    assert_eq!(limit_members(vec![1, 2, 3, 4], None), vec![1, 2, 3, 4]);
}

#[test]
fn the_kind_of_a_chat_is_read_from_its_record() {
    assert_eq!(
        ChatKind::of_record(&json(r#"{"id":1,"type":{"@type":"chatTypePrivate","user_id":9}}"#)),
        Some(ChatKind::Private { user_id: 9 })
    );
    assert_eq!(
        ChatKind::of_record(&json(r#"{"id":1,"type":{"@type":"chatTypeBasicGroup","basic_group_id":8}}"#)),
        Some(ChatKind::BasicGroup { basic_group_id: 8 })
    );
    assert_eq!(
        ChatKind::of_record(&json(
            r#"{"id":1,"type":{"@type":"chatTypeSupergroup","supergroup_id":7,"is_channel":true}}"#
        )),
        Some(ChatKind::Supergroup { supergroup_id: 7 })
    );
    assert_eq!(
        ChatKind::of_record(&json(
            r#"{"id":1,"type":{"@type":"chatTypeSecret","secret_chat_id":3,"user_id":6}}"#
        )),
        Some(ChatKind::Secret { user_id: 6 })
    );
    assert_eq!(ChatKind::of_record(&json(r#"{"id":1}"#)), None);
    assert_eq!(chat_title(&json(r#"{"id":1,"title":"Rust"}"#)), Some("Rust"));
    assert_eq!(chat_title(&json(r#"{"id":1}"#)), None);
    assert_eq!(ChatKind::of_record(&json(r#"{"type":{"@type":"chatTypeOther"}}"#)), None);
    assert_eq!(ChatKind::of_record(&json(r#"{"type":{"@type":"chatTypePrivate"}}"#)), None);
}

#[test]
fn members_are_read_by_name() {
    let value = json(r#"{"name":"x","n":-5,"big":18446744073709551615,"list":[1,"a"],"f":1.0}"#);
    assert_eq!(member_text(&value, "name"), Some("x"));
    assert_eq!(member_text(&value, "n"), None);
    assert_eq!(member_text(&value, "absent"), None);
    assert_eq!(member_integer(&value, "n"), Some(-5));
    assert_eq!(member_integer(&value, "big"), None);
    assert_eq!(member_integer(&value, "f"), None);
    assert_eq!(member_integer(&value, "name"), None);
    assert_eq!(member_items(&value, "list"), vec![json("1"), json(r#""a""#)]);
    assert_eq!(member_items(&value, "name"), Vec::<Value>::new());
    assert_eq!(member_text(&json("[]"), "name"), None);
}

#[test]
fn absent_entries_of_a_page_are_passed_over() {
    let page = json(
        r#"{"@type":"messages","total_count":4,"messages":[{"@type":"message","id":30},null,{"id":20},{"@type":"message","id":10}]}"#,
    );
    let present = Messages::read_present(&page).unwrap();
    let ids: Vec<i64> = present.iter().map(|m| m.id).collect();
    assert_eq!(ids, vec![30, 10]);
    assert_eq!(present[0].other, json(r#"{"@type":"message","id":30}"#));
    assert_eq!(Messages::decode(&page), None);

    assert_eq!(
        Messages::read_present(&json(r#"{"@type":"messages","messages":[]}"#)),
        Some(Vec::new())
    );
    assert_eq!(
        Messages::read_present(&json(r#"{"@type":"messages","messages":[null,null]}"#)),
        Some(Vec::new())
    );
    assert_eq!(Messages::read_present(&json(r#"{"@type":"messages"}"#)), None);
    assert_eq!(Messages::read_present(&json(r#"{"messages":7}"#)), None);
    assert_eq!(Messages::read_present(&json(r#"[]"#)), None);
}

#[test]
fn a_page_of_members_is_told_from_what_is_none() {
    assert_eq!(
        read_members(&json(r#"{"@type":"chatMembers","members":[{"id":1}]}"#)),
        Some(vec![json(r#"{"id":1}"#)])
    );
    assert_eq!(read_members(&json(r#"{"@type":"chatMembers","members":[]}"#)), Some(Vec::new()));
    assert_eq!(read_members(&json(r#"{"@type":"chatMembers"}"#)), None);
    assert_eq!(read_members(&json(r#"{"members":{}}"#)), None);
    assert_eq!(read_members(&json(r#"null"#)), None);
}

#[test]
fn a_failure_names_the_operation_and_the_cause() {
    let rejected = json(r#"{"@type":"error","code":400,"message":"API_ID_INVALID"}"#);
    let failure = confirm(Operation::Initialization, &rejected).unwrap_err();
    assert_eq!(
        failure,
        OperationError {
            operation: Operation::Initialization,
            cause: ReplyError::Rejected { code: 400, message: "API_ID_INVALID".to_string() },
        }
    );
    assert_eq!(failure.to_string(), "TdLib client initialization failed: API_ID_INVALID");
    assert_eq!(confirm(Operation::Initialization, &json(r#"{"@type":"ok"}"#)), Ok(()));
    assert_eq!(
        confirm(Operation::ConfirmAuthenticationCode, &json("7")).unwrap_err().to_string(),
        "Failed to confirm authentication code: Response not a JSON object"
    );
    for (operation, label) in [
        (Operation::Initialization, "TdLib client initialization failed"),
        (Operation::RequestAuthenticationCode, "Failed to request authentication code"),
        (Operation::ConfirmAuthenticationCode, "Failed to confirm authentication code"),
        (Operation::ConfirmAuthenticationPassword, "Failed to confirm authentication password"),
        (Operation::LoadChats, "Failed to load chats"),
        (Operation::GetUser, "Failed to get user"),
        (Operation::GetChatMember, "Failed to fetch chat member"),
        (Operation::GetChatMembers, "Failed to get chat members"),
        (Operation::GetChatHistory, "Failed to get chat history"),
    ] {
        assert_eq!(operation.to_string(), label);
        assert_eq!(annotate(operation, "why"), format!("{label}: why"));
    }
}

#[test]
fn a_reply_with_a_value_is_told_from_an_error() {
    let user = json(r#"{"@type":"user","id":5}"#);
    assert_eq!(answer(Operation::GetUser, user.clone()), Ok(user));
    let failure = answer(
        Operation::GetUser,
        json(r#"{"@type":"error","code":404,"message":"User not found"}"#),
    )
    .unwrap_err();
    assert_eq!(failure.operation, Operation::GetUser);
    assert_eq!(
        failure.cause,
        ReplyError::Rejected { code: 404, message: "User not found".to_string() }
    );
    assert_eq!(failure.to_string(), "Failed to get user: User not found");
    assert_eq!(answer(Operation::GetUser, json("null")), Ok(json("null")));
}
