use channel_helper::config::Config;

fn cfg(allowed: Vec<i64>) -> Config {
    Config {
        bot_token: "token".to_string(),
        db_name: "db".to_string(),
        target_chat_id: -100,
        allowed_sender_chats: allowed,
        interval_ms: 60_000,
        group_threshold: 5,
        with_api: false,
        api_port: None,
        upload_chat_id: None,
    }
}

#[test]
fn sender_allow_list_is_exact() {
    let c = cfg(vec![10, -20, 30]);
    assert!(c.sender_allowed(10));
    assert!(c.sender_allowed(-20));
    assert!(c.sender_allowed(30));
    assert!(!c.sender_allowed(11));
    assert!(!c.sender_allowed(0));

    let empty = cfg(vec![]);
    assert!(!empty.sender_allowed(10));
}
