use asimov_telegram_module::telegram::messages::{AuthState, TdLibResponse};
use asimov_telegram_module::telegram::poller::{Dispatch, Poller};
use asimov_telegram_module::telegram::session::Phase;
use asimov_telegram_module::telegram::{Client, Config, MemberPlan};
use asimov_telegram_module::telegram::paging::{Collection, Position};
use serde_json::Value;
use std::path::PathBuf;

fn json(text: &str) -> Value {
    serde_json::from_str(text).unwrap()
}

fn client() -> Client {
    Client::new(Config {
        api_id: "1".to_string(),
        api_hash: "h".to_string(),
        database_directory: PathBuf::from("db"),
        encryption_key: "k".to_string(),
    })
}

#[test]
fn a_tagged_message_is_delivered_to_its_slot() {
    let mut poller: Poller<&str> = Poller::new();
    poller.register(1, "first");
    poller.register(2, "second");
    let text = r#"{"@type":"ok","@extra":"2"}"#;
    match poller.on_text(text) {
        Dispatch::Deliver { slot, payload } => {
            assert_eq!(slot, "second");
            assert_eq!(payload, json(text));
        }
        other => panic!("{other:?}"),
    }
    assert!(!poller.is_pending(2));
    assert!(poller.is_pending(1));
    assert!(matches!(poller.on_text(text), Dispatch::Discard));
}

#[test]
fn responses_out_of_order_reach_their_callers() {
    let mut poller: Poller<usize> = Poller::new();
    for id in 1..=5u64 {
        poller.register(id, id as usize * 10);
    }
    for id in [3u64, 5, 1, 4, 2] {
        match poller.on_text(&format!(r#"{{"@type":"ok","@extra":"{id}"}}"#)) {
            Dispatch::Deliver { slot, .. } => assert_eq!(slot, id as usize * 10),
            other => panic!("{other:?}"),
        }
    }
    assert_eq!(poller.outstanding(), 0);
}

#[test]
fn an_update_with_a_tag_is_a_response_and_no_update() {
    let mut poller: Poller<&str> = Poller::new();
    poller.register(4, "caller");
    let text = r#"{"@type":"updateAuthorizationState","authorization_state":{"@type":"authorizationStateReady"},"@extra":"4"}"#;
    assert!(matches!(poller.on_text(text), Dispatch::Deliver { slot: "caller", .. }));
}

#[test]
fn stale_and_malformed_messages_are_discarded() {
    let mut poller: Poller<&str> = Poller::new();
    poller.register(1, "caller");
    for text in [
        "not json",
        "",
        r#"{"@type":"ok","@extra":"99"}"#,
        r#"{"@type":"ok","@extra":"one"}"#,
        r#"{"@type":"ok","@extra":"-1"}"#,
        r#"{"@type":"ok"}"#,
        r#"{"@type":"error","code":500}"#,
        r#"{"@type":"updateOption"}"#,
        r#"{"@type":"messages","messages":[]}"#,
        r#"[]"#,
    ] {
        assert!(matches!(poller.on_text(text), Dispatch::Discard), "{text}");
        assert!(poller.running());
        assert_eq!(poller.outstanding(), 1);
    }
}

#[test]
fn a_tag_that_is_no_string_is_no_tag() {
    let mut poller: Poller<&str> = Poller::new();
    poller.register(1, "caller");
    let text = r#"{"@type":"updateUser","user":{"id":5},"@extra":1}"#;
    assert!(matches!(
        poller.on_text(text),
        Dispatch::Update { update: TdLibResponse::UpdateUser { .. } }
    ));
    assert!(poller.is_pending(1));
}

#[test]
fn updates_drive_the_session() {
    let mut poller: Poller<()> = Poller::new();
    let mut client = client();
    for text in [
        r#"{"@type":"updateAuthorizationState","authorization_state":{"@type":"authorizationStateWaitTdlibParameters"}}"#,
        r#"{"@type":"updateAuthorizationState","authorization_state":{"@type":"authorizationStateWaitPhoneNumber"}}"#,
        r#"{"@type":"updateAuthorizationState","authorization_state":{"@type":"authorizationStateWaitCode"}}"#,
        r#"{"@type":"updateAuthorizationState","authorization_state":{"@type":"authorizationStateReady"}}"#,
        r#"{"@type":"updateNewChat","chat":{"id":-1001,"title":"Rust","type":{"@type":"chatTypeSupergroup","supergroup_id":1001}}}"#,
        r#"{"@type":"updateNewChat","chat":{"id":55,"title":"Ann","type":{"@type":"chatTypePrivate","user_id":55}}}"#,
        r#"{"@type":"updateNewChat","chat":{"id":-77,"title":"Old","type":{"@type":"chatTypeBasicGroup","basic_group_id":77}}}"#,
        r#"{"@type":"updateNewChat","chat":{"id":3,"title":"Odd"}}"#,
        r#"{"@type":"updateUser","user":{"id":55,"first_name":"Ann"}}"#,
        r#"{"@type":"updateSupergroup","supergroup":{"id":1001}}"#,
        r#"{"@type":"updateBasicGroup","basic_group":{"id":77}}"#,
    ] {
        match poller.on_text(text) {
            Dispatch::Update { update } => client.on_update(update),
            other => panic!("{other:?}"),
        }
    }
    assert_eq!(client.current_phase(), Phase::Authorized);
    assert_eq!(client.get_chats().len(), 4);
    assert_eq!(client.get_users().len(), 1);
    assert_eq!(client.get_supergroups().len(), 1);
    assert_eq!(client.get_basic_groups().len(), 1);

    match client.get_chat_members(-1001, Some(300)).unwrap() {
        MemberPlan::Supergroup { fetcher } => {
            let request = fetcher.next_request().unwrap();
            assert_eq!(request.collection, Collection::SupergroupMembers { supergroup_id: 1001 });
            assert_eq!(request.position, Position::Offset(0));
            assert_eq!(request.limit, 200);
        }
        other => panic!("{other:?}"),
    }
    assert!(matches!(
        client.get_chat_members(55, None),
        Ok(MemberPlan::Single { chat_id: 55, user_id: 55 })
    ));
    assert!(matches!(
        client.get_chat_members(-77, Some(3)),
        Ok(MemberPlan::BasicGroup { basic_group_id: 77, limit: Some(3) })
    ));
    assert_eq!(
        client.get_chat_members(3, None).unwrap_err(),
        asimov_telegram_module::telegram::ClientError::UnreadableChat { chat_id: 3 }
    );
    assert_eq!(
        client.get_chat_members(4, None).unwrap_err(),
        asimov_telegram_module::telegram::ClientError::UnknownChat { chat_id: 4 }
    );

    let history = client.get_chat_history(55, Some(900), Some(10)).unwrap();
    let request = history.next_request().unwrap();
    assert_eq!(request.collection, Collection::ChatHistory { chat_id: 55 });
    assert_eq!(request.position, Position::Before(Some(900)));
    assert_eq!(request.limit, 10);
    assert_eq!(
        client.get_chat_history(4, None, None).unwrap_err(),
        asimov_telegram_module::telegram::ClientError::UnknownChat { chat_id: 4 }
    );
}

#[test]
fn the_close_abandons_what_is_outstanding_and_ends_the_loop() {
    let mut poller: Poller<&str> = Poller::new();
    let mut client = client();
    poller.register(3, "three");
    poller.register(1, "one");
    let text = r#"{"@type":"updateAuthorizationState","authorization_state":{"@type":"authorizationStateClosed"}}"#;
    match poller.on_text(text) {
        Dispatch::Closed { update, abandoned } => {
            assert_eq!(abandoned, vec![(1, "one"), (3, "three")]);
            assert!(matches!(
                &update,
                TdLibResponse::UpdateAuthorizationState { authorization_state }
                    if authorization_state.typ == AuthState::AuthorizationStateClosed
            ));
            client.on_update(update);
        }
        other => panic!("{other:?}"),
    }
    assert!(!poller.running());
    assert_eq!(poller.outstanding(), 0);
    assert_eq!(client.current_phase(), Phase::Closed);
    assert!(matches!(poller.on_text(r#"{"@type":"ok","@extra":"1"}"#), Dispatch::Discard));
}

#[test]
fn a_disconnect_abandons_what_is_outstanding_once() {
    let mut poller: Poller<String> = Poller::new();
    poller.register(8, "eight".to_string());
    poller.register(6, "six".to_string());
    assert!(matches!(
        poller.on_text(r#"{"@type":"ok","@extra":"6"}"#),
        Dispatch::Deliver { .. }
    ));
    let abandoned = poller.on_disconnect();
    assert_eq!(abandoned, vec![(8, "eight".to_string())]);
    assert!(!poller.running());
    assert!(poller.on_disconnect().is_empty());
}
