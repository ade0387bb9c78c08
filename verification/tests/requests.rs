use stashcat::chats::{ChatDirectory, ChatID, ChatType, Channel, Conversation};
use stashcat::errors::Errors;
use stashcat::request_types::{
    AuthOnlyRequest, ChannelRequest, CompanyRequest, ConversationsRequest, EmailPasswordLogin,
    MessageRequest, OtherUserInfoRequest, PrivateKeyRequest, SendMessageRequest, UserInfoRequest,
};
use stashcat::state::State;

fn logged_in_state() -> State {
    State::new(
        "https://api.example.test/".to_string(),
        "device-7".to_string(),
        Some("SECRET-REDACTED".to_string()),
    )
}

fn logged_out_state() -> State {
    State::new("https://api.example.test/".to_string(), "device-7".to_string(), None)
}

#[test]
fn state_new_adds_scheme_when_missing() {
    let s = State::new("api.example.test".to_string(), "d".to_string(), None);
    assert_eq!(s.base_url, "https://api.example.test");
    let s = State::new("http://plain.test".to_string(), "d".to_string(), None);
    assert_eq!(s.base_url, "http://plain.test");
    let s = State::new("https://tls.test".to_string(), "d".to_string(), None);
    assert_eq!(s.base_url, "https://tls.test");
}

#[test]
fn build_url_joins_with_exactly_one_slash() {
    let s = State::new("https://host/".to_string(), "d".to_string(), None);
    assert_eq!(s.build_url("/users/me"), "https://host/users/me");
    assert_eq!(s.build_url("users/me"), "https://host/users/me");
    let s = State::new("https://host".to_string(), "d".to_string(), None);
    assert_eq!(s.build_url("//double"), "https://host/double");
    assert_eq!(s.build_url(""), "https://host/");
}

#[test]
fn default_state_points_at_public_host() {
    let s = State::default();
    assert_eq!(s.base_url, "https://api.stashcat.com/");
    assert_eq!(s.device_id.len(), 32);
    assert!(s.client_key.is_none());
}

#[test]
fn builders_demand_a_client_key() {
    let state = logged_out_state();
    assert!(matches!(UserInfoRequest::new(&state, true), Err(Errors::NotAuthenticated)));
    assert!(matches!(CompanyRequest::new(&state), Err(Errors::NotAuthenticated)));
    assert!(matches!(
        PrivateKeyRequest::new(&state, "jwk", "encryption"),
        Err(Errors::NotAuthenticated)
    ));
    assert!(matches!(AuthOnlyRequest::new(&state), Err(Errors::NotAuthenticated)));
    assert!(matches!(
        ConversationsRequest::new(&state, 10, 0, 0, vec![]),
        Err(Errors::NotAuthenticated)
    ));
}

#[test]
fn user_info_request_spells_booleans_out() {
    let state = logged_in_state();
    let r = UserInfoRequest::new(&state, false).unwrap();
    assert_eq!(r.client_key, "SECRET-REDACTED");
    assert_eq!(r.device_id, "device-7");
    assert_eq!(r.withkey, "false");
}

#[test]
fn private_key_request_carries_format_and_kind() {
    let state = logged_in_state();
    let r = PrivateKeyRequest::new(&state, "jwk", "signing").unwrap();
    assert_eq!(r.format, "jwk");
    assert_eq!(r.key_type, "signing");
}

#[test]
fn conversations_request_renders_counts_and_sorting() {
    let state = logged_in_state();
    let sorting = vec!["\"favorite_desc\"".to_string(), "\"last_action_desc\"".to_string()];
    let r = ConversationsRequest::new(&state, 64, 128, 0, sorting).unwrap();
    assert_eq!(r.limit, "64");
    assert_eq!(r.offset, "128");
    assert_eq!(r.archive, "0");
    assert_eq!(r.sorting, "[\"favorite_desc\",\"last_action_desc\"]");
}

#[test]
fn message_request_duplicates_the_chat_id() {
    let state = logged_in_state();
    let r = MessageRequest::new(&state, "42".to_string(), "conversation".to_string(), 64, 0)
        .unwrap();
    assert_eq!(r.channel_id, "42");
    assert_eq!(r.conversation_id, "42");
    assert_eq!(r.source, "conversation");
    assert_eq!(r.limit, "64");
    assert_eq!(r.offset, "0");
}

#[test]
fn channel_and_other_user_requests_carry_ids() {
    let state = logged_in_state();
    let c = ChannelRequest::new(&state, "company-1".to_string()).unwrap();
    assert_eq!(c.company, "company-1");
    let o = OtherUserInfoRequest::new(&state, "user-9".to_string(), true).unwrap();
    assert_eq!(o.user_id, "user-9");
    assert!(o.withkey);
}

#[test]
fn send_message_request_renders_lists() {
    let state = logged_in_state();
    let r = SendMessageRequest::new(
        &state,
        "conversation".to_string(),
        "42".to_string(),
        "deadbeef".to_string(),
        vec!["1".to_string(), "2".to_string()],
        vec![None, None, None],
        true,
        Some("00112233445566778899aabbccddeeff".to_string()),
        "cafe".to_string(),
        "text".to_string(),
        false,
        None,
    )
    .unwrap();
    assert_eq!(r.conversation_id, "42");
    assert_eq!(r.channel_id, "42");
    assert_eq!(r.files, "[1,2]");
    assert_eq!(r.url, "[null,null,null]");
    assert_eq!(r.encrypted, "true");
    assert_eq!(r.is_forwarded, "false");
    assert_eq!(r.message_type, "text");
}

#[test]
fn email_password_login_spells_flags_out() {
    let r = EmailPasswordLogin::new(
        "a@b.test".to_string(),
        "SECRET-REDACTED".to_string(),
        "device-7".to_string(),
        "app".to_string(),
        false,
        false,
        true,
    );
    assert_eq!(r.email, "a@b.test");
    assert_eq!(r.encrypted, "false");
    assert_eq!(r.callable, "false");
    assert_eq!(r.key_transfer_support, "true");
}

#[test]
fn chat_type_sources_match_the_wire_words() {
    assert_eq!(ChatType::Channel.as_source(), "channel");
    assert_eq!(ChatType::Conversation.as_source(), "conversation");
}

#[test]
fn chat_ids_compare_by_kind_and_id() {
    let a = ChatID::new(ChatType::Channel, "1".to_string());
    let b = ChatID::new(ChatType::Channel, "1".to_string());
    let c = ChatID::new(ChatType::Conversation, "1".to_string());
    let d = ChatID::new(ChatType::Channel, "2".to_string());
    assert_eq!(a, b);
    assert_ne!(a, c);
    assert_ne!(a, d);
    let ch = Channel { id: "9".to_string(), name: "n".to_string(), encrypted: false, key: None };
    assert_eq!(ChatID::from_channel(ch), ChatID::new(ChatType::Channel, "9".to_string()));
    let cv = Conversation { id: "8".to_string(), name: None, encrypted: false, key: None };
    assert_eq!(
        ChatID::from_conversation(cv),
        ChatID::new(ChatType::Conversation, "8".to_string())
    );
}

fn directory() -> ChatDirectory {
    ChatDirectory::new(
        vec![
            Channel { id: "c1".to_string(), name: "general".to_string(), encrypted: false, key: None },
            Channel { id: "c2".to_string(), name: "random".to_string(), encrypted: true, key: None },
        ],
        vec![
            Conversation { id: "v1".to_string(), name: Some("pair".to_string()), encrypted: false, key: None },
            Conversation { id: "v2".to_string(), name: None, encrypted: false, key: None },
        ],
    )
}

#[test]
fn chat_names_resolve_or_fail_as_value_errors() {
    let d = directory();
    assert_eq!(
        d.get_chat_name(&ChatID::new(ChatType::Channel, "c1".to_string())).unwrap(),
        "general"
    );
    assert_eq!(
        d.get_chat_name(&ChatID::new(ChatType::Conversation, "v1".to_string())).unwrap(),
        "pair"
    );
    assert!(matches!(
        d.get_chat_name(&ChatID::new(ChatType::Channel, "nope".to_string())),
        Err(Errors::ValueError(_))
    ));
    assert!(matches!(
        d.get_chat_name(&ChatID::new(ChatType::Conversation, "v2".to_string())),
        Err(Errors::ValueError(_))
    ));
}

#[test]
fn id_lists_keep_directory_order() {
    let d = directory();
    assert_eq!(d.get_channel_ids(), vec!["c1".to_string(), "c2".to_string()]);
    assert_eq!(d.get_conversation_ids(), vec!["v1".to_string(), "v2".to_string()]);
}
