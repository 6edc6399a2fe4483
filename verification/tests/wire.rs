use asimov_telegram_module::decimal::{parse_i64, parse_u64, render_i64, render_u64};
use asimov_telegram_module::telegram::poller::{Dispatch, Poller};
use asimov_telegram_module::telegram::requests::{ChatList, EngineParameters, Request};
use asimov_telegram_module::telegram::{ClientError, LoadError, ReplyError};
use asimov_telegram_module::telegram::key::KeyError;
use serde_json::Value;

fn json(text: &str) -> Value {
    serde_json::from_str(text).unwrap()
}

#[test]
fn numbers_are_written_in_decimal() {
    assert_eq!(render_u64(0), "0");
    assert_eq!(render_u64(7), "7");
    assert_eq!(render_u64(10), "10");
    assert_eq!(render_u64(1234567890), "1234567890");
    assert_eq!(render_u64(u64::MAX), "18446744073709551615");
    assert_eq!(render_i64(0), "0");
    assert_eq!(render_i64(-1), "-1");
    assert_eq!(render_i64(i64::MAX), "9223372036854775807");
    assert_eq!(render_i64(i64::MIN), "-9223372036854775808");
    assert_eq!(render_i64(-1001234567890), "-1001234567890");
}

#[test]
fn what_is_written_is_read_back() {
    for n in [0u64, 1, 9, 10, 99, 100, 4294967296, u64::MAX] {
        assert_eq!(parse_u64(&render_u64(n)), Some(n));
    }
    for n in [0i64, 1, -1, 42, -42, i64::MAX, i64::MIN] {
        assert_eq!(parse_i64(&render_i64(n)), Some(n));
    }
}

#[test]
fn a_request_goes_out_with_its_kind_and_its_tag() {
    let request = Request::CheckAuthenticationCode { code: "24680".to_string() };
    assert_eq!(
        request.encode(17),
        json(r#"{"@type":"checkAuthenticationCode","code":"24680","@extra":"17"}"#)
    );
    assert_eq!(request.kind(), "checkAuthenticationCode");
    assert_eq!(json(&request.to_wire(17)), request.encode(17));
}

#[test]
fn every_request_has_its_members() {
    let cases = vec![
        (
            Request::SetAuthenticationPhoneNumber { phone_number: "+15550100".to_string() },
            r#"{"@type":"setAuthenticationPhoneNumber","phone_number":"+15550100","@extra":"1"}"#,
        ),
        (
            Request::CheckAuthenticationPassword { password: "a\"b".to_string() },
            r#"{"@type":"checkAuthenticationPassword","password":"a\"b","@extra":"1"}"#,
        ),
        (
            Request::LoadChats { chat_list: ChatList::Main, limit: 100 },
            r#"{"@type":"loadChats","chat_list":{"@type":"chatListMain"},"limit":100,"@extra":"1"}"#,
        ),
        (
            Request::LoadChats { chat_list: ChatList::Archive, limit: 100 },
            r#"{"@type":"loadChats","chat_list":{"@type":"chatListArchive"},"limit":100,"@extra":"1"}"#,
        ),
        (
            Request::GetBasicGroupFullInfo { basic_group_id: 77 },
            r#"{"@type":"getBasicGroupFullInfo","basic_group_id":77,"@extra":"1"}"#,
        ),
        (
            Request::GetSupergroupMembers { supergroup_id: 1001, offset: 200, limit: 200 },
            r#"{"@type":"getSupergroupMembers","supergroup_id":1001,"offset":200,"limit":200,"@extra":"1"}"#,
        ),
        (
            Request::GetChatMember { chat_id: 55, user_id: 56 },
            r#"{"@type":"getChatMember","chat_id":55,"member_id":{"@type":"messageSenderUser","user_id":56},"@extra":"1"}"#,
        ),
        (Request::GetUser { user_id: -3 }, r#"{"@type":"getUser","user_id":-3,"@extra":"1"}"#),
        (
            Request::GetChatHistory {
                chat_id: 55,
                from_message_id: 900,
                offset: 0,
                limit: 100,
                only_local: false,
            },
            r#"{"@type":"getChatHistory","chat_id":55,"from_message_id":900,"offset":0,"limit":100,"only_local":false,"@extra":"1"}"#,
        ),
    ];
    for (request, expected) in cases {
        assert_eq!(request.encode(1), json(expected), "{request:?}");
    }
}

#[test]
fn the_parameters_go_out_member_by_member() {
    let request = Request::SetTdlibParameters {
        parameters: EngineParameters {
            use_test_dc: false,
            database_directory: "/var/lib/tg".to_string(),
            files_directory: String::new(),
            database_encryption_key: "00ff".to_string(),
            use_file_database: true,
            use_chat_info_database: true,
            use_message_database: true,
            use_secret_chats: false,
            api_id: 12345,
            api_hash: "abcdef".to_string(),
            system_language_code: "en".to_string(),
            device_model: "Desktop".to_string(),
            system_version: String::new(),
            application_version: "1.0".to_string(),
        },
    };
    assert_eq!(
        request.encode(1),
        json(
            r#"{"@type":"setTdlibParameters","use_test_dc":false,"database_directory":"/var/lib/tg","files_directory":"","database_encryption_key":"00ff","use_file_database":true,"use_chat_info_database":true,"use_message_database":true,"use_secret_chats":false,"api_id":12345,"api_hash":"abcdef","system_language_code":"en","device_model":"Desktop","system_version":"","application_version":"1.0","@extra":"1"}"#
        )
    );
}

#[test]
fn the_echo_of_a_tag_finds_the_caller() {
    let mut poller: Poller<&str> = Poller::new();
    let request = Request::GetUser { user_id: 5 };
    for (id, caller) in [(1u64, "a"), (18446744073709551615, "z"), (1000, "m")] {
        poller.register(id, caller);
        let sent = request.to_wire(id);
        match poller.on_text(&sent) {
            Dispatch::Deliver { slot, .. } => assert_eq!(slot, caller),
            other => panic!("{other:?}"),
        }
    }
}

#[test]
fn errors_have_messages() {
    assert_eq!(ClientError::InvalidApiId.to_string(), "Invalid API_ID");
    assert_eq!(ClientError::UnknownChat { chat_id: -12 }.to_string(), "Unknown chat ID: -12");
    assert_eq!(
        ClientError::UnreadableChat { chat_id: 3 }.to_string(),
        "Unreadable chat record: 3"
    );
    assert_eq!(ReplyError::NotAnObject.to_string(), "Response not a JSON object");
    assert_eq!(ReplyError::Unknown.to_string(), "Unknown failure");
    assert_eq!(
        ReplyError::Rejected { code: 400, message: "no".to_string() }.to_string(),
        "no"
    );
    assert_eq!(LoadError::Unexpected.to_string(), "Unknown error");
    assert_eq!(
        LoadError::Rejected { code: 500, message: "down".to_string() }.to_string(),
        "down"
    );
    assert_eq!(
        KeyError::Store { reason: "locked".to_string() }.to_string(),
        "Failed to retrieve encryption key from keyring: locked"
    );
    assert_eq!(KeyError::NoRandomness.to_string(), "Failed to generate a new encryption key");
}
