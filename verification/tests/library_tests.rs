use echo_bot::client::method_url;
use echo_bot::client_types::CallbackQuery;
use echo_bot::client_types::Chat;
use echo_bot::client_types::ClientError;
use echo_bot::client_types::Message;
use echo_bot::client_types::Payload;
use echo_bot::client_types::RawUpdate;
use echo_bot::client_types::TelegramApiError;
use echo_bot::client_types::TelegramResponse;
use echo_bot::client_types::User;
use echo_bot::client_types::Video;
use echo_bot::commands::Command;
use echo_bot::commands::IsCommand;
use echo_bot::config::BotMode;
use echo_bot::config::ConfigBuilder;
use echo_bot::console::State;
use echo_bot::console::construct_repeated_message;
use echo_bot::console::extract_repeat_count;
use echo_bot::handler::Action;
use echo_bot::handler::TelegramState;
use echo_bot::handler::apply_update;
use echo_bot::handler::construct_inline_keyboard;
use echo_bot::logger::LogLevel;
use echo_bot::logger::should_log;
use echo_bot::poll::next_offset;
use echo_bot::text::parse_u8;
use echo_bot::text::str_eq;
use echo_bot::text::u8_to_string;
use echo_bot::update_converter::TelegramUpdate;
use echo_bot::validation::ValidationError;
use echo_bot::validation::is_enum;

fn text_update(update_id: u64, chat_id: u64, text: &str) -> RawUpdate {
    RawUpdate {
        update_id,
        message: Some(Message {
            chat: Chat { id: chat_id },
            from: None,
            video: None,
            text: Some(text.to_string()),
        }),
        callback_query: None,
    }
}

fn callback_update(update_id: u64, chat_id: u64, id: &str, data: &str) -> RawUpdate {
    RawUpdate {
        update_id,
        message: None,
        callback_query: Some(CallbackQuery {
            id: id.to_string(),
            message: Message {
                chat: Chat { id: chat_id },
                from: None,
                video: None,
                text: None,
            },
            data: data.to_string(),
        }),
    }
}

#[test]
fn parse_u8_accepts_digit_runs_up_to_255() {
    assert_eq!(parse_u8("0"), Some(0));
    assert_eq!(parse_u8("3"), Some(3));
    assert_eq!(parse_u8("007"), Some(7));
    assert_eq!(parse_u8("255"), Some(255));
}

#[test]
fn parse_u8_rejects_everything_else() {
    assert_eq!(parse_u8(""), None);
    assert_eq!(parse_u8("txt"), None);
    assert_eq!(parse_u8("256"), None);
    assert_eq!(parse_u8("12a"), None);
    assert_eq!(parse_u8("-1"), None);
    assert_eq!(parse_u8("+3"), None);
    assert_eq!(parse_u8(" 3"), None);
    assert_eq!(parse_u8("99999999999999999999"), None);
}

#[test]
fn u8_to_string_renders_decimal() {
    assert_eq!(u8_to_string(0), "0");
    assert_eq!(u8_to_string(9), "9");
    assert_eq!(u8_to_string(10), "10");
    assert_eq!(u8_to_string(35), "35");
    assert_eq!(u8_to_string(255), "255");
}

#[test]
fn str_eq_compares_exactly() {
    assert!(str_eq("", ""));
    assert!(str_eq("abc", "abc"));
    assert!(!str_eq("abc", "abd"));
    assert!(!str_eq("abc", "ab"));
}

#[test]
fn command_parser_matches_exactly() {
    assert_eq!(Command::new("/help"), Command::Help);
    assert_eq!(Command::new("/exit"), Command::Exit);
    assert_eq!(Command::new("/repeat"), Command::Repeat);
    assert_eq!(Command::new("/bogus"), Command::Unknown);
    assert_eq!(Command::new("/Help"), Command::Unknown);
    assert_eq!(Command::new("/help "), Command::Unknown);
    assert_eq!(Command::new("help"), Command::Unknown);
}

#[test]
fn command_into_string_names_each_command() {
    assert_eq!(Command::Help.into_string(), "/help");
    assert_eq!(Command::Exit.into_string(), "/exit");
    assert_eq!(Command::Repeat.into_string(), "/repeat");
    assert_eq!(Command::Unknown.into_string(), "");
}

#[test]
fn is_command_means_leading_slash() {
    assert!("/x".to_string().is_command());
    assert!("/".to_string().is_command());
    assert!(!"x/".to_string().is_command());
    assert!(!"".to_string().is_command());
}

#[test]
fn into_result_keeps_the_three_failures_distinct() {
    let ok: TelegramResponse<bool> = TelegramResponse::Success { result: true };
    assert_eq!(ok.into_result(), Ok(true));

    let api = TelegramApiError {
        error_code: 4,
        description: "bad request".to_string(),
    };
    let failed: TelegramResponse<bool> = TelegramResponse::Failure(api.clone());
    assert_eq!(failed.into_result(), Err(ClientError::Api(api)));

    assert_ne!(
        ClientError::Http("x".to_string()),
        ClientError::Serialize("x".to_string())
    );
}

#[test]
fn method_url_has_the_wire_shape() {
    assert_eq!(
        method_url("https://api.telegram.org", "TOKEN", "getUpdates"),
        "https://api.telegram.org/botTOKEN/getUpdates"
    );
}

#[test]
fn next_offset_is_one_past_the_watermark() {
    let mut state = TelegramState::new();
    assert_eq!(next_offset(&state), 0);
    state.advance_offset(5);
    assert_eq!(next_offset(&state), 6);
}

#[test]
fn repeat_count_falls_back_to_default() {
    let state = TelegramState::new();
    assert_eq!(state.get_repeat_count(1, 1), 1);
    assert_eq!(state.get_repeat_count(1, 4), 4);
}

#[test]
fn stored_repeat_count_wins_over_any_default() {
    let mut state = TelegramState::new();
    state.set_repeat_number(1, 3);
    assert_eq!(state.get_repeat_count(1, 1), 3);
    assert_eq!(state.get_repeat_count(1, 200), 3);
    assert_eq!(state.get_repeat_count(2, 7), 7);
}

#[test]
fn text_update_with_default_one_sends_exactly_once() {
    let config = ConfigBuilder::build_default(BotMode::Telegram);
    let mut state = TelegramState::new();
    let update = TelegramUpdate::from(text_update(1, 1, "test"));

    let actions = apply_update(&config, &mut state, update);

    assert_eq!(
        actions,
        vec![Action::Send {
            chat_id: 1,
            payload: Payload::Text("test".to_string())
        }]
    );
    assert_eq!(state.last_update_id, Some(1));
}

#[test]
fn stored_override_of_three_sends_three_times() {
    let config = ConfigBuilder::build_default(BotMode::Telegram);
    let mut state = TelegramState::new();
    state.set_repeat_number(1, 3);
    let update = TelegramUpdate::from(text_update(1, 1, "x"));

    let actions = apply_update(&config, &mut state, update);

    let send = Action::Send {
        chat_id: 1,
        payload: Payload::Text("x".to_string()),
    };
    assert_eq!(actions, vec![send.clone(), send.clone(), send]);
}

#[test]
fn bot_message_never_produces_a_send() {
    let config = ConfigBuilder::build_default(BotMode::Telegram);
    let mut state = TelegramState::new();
    let raw = RawUpdate {
        update_id: 9,
        message: Some(Message {
            chat: Chat { id: 1 },
            from: Some(User { id: 1, is_bot: true }),
            video: None,
            text: Some("test".to_string()),
        }),
        callback_query: None,
    };

    let actions = apply_update(&config, &mut state, TelegramUpdate::from(raw));

    assert_eq!(actions, vec![]);
    assert_eq!(state.last_update_id, Some(9));
}

#[test]
fn bogus_command_earns_the_unknown_reply() {
    let config = ConfigBuilder::build_default(BotMode::Telegram);
    let mut state = TelegramState::new();
    let update = TelegramUpdate::from(text_update(1, 1, "/bogus"));

    let actions = apply_update(&config, &mut state, update);

    assert_eq!(
        actions,
        vec![Action::Send {
            chat_id: 1,
            payload: Payload::Text("get unknown command: /bogus".to_string())
        }]
    );
}

#[test]
fn exit_text_is_echoed_not_obeyed() {
    let config = ConfigBuilder::build_default(BotMode::Telegram);
    let mut state = TelegramState::new();
    let update = TelegramUpdate::from(text_update(1, 1, "/exit"));

    let actions = apply_update(&config, &mut state, update);

    assert_eq!(
        actions,
        vec![Action::Send {
            chat_id: 1,
            payload: Payload::Text("/exit".to_string())
        }]
    );
}

#[test]
fn callback_of_three_stores_it_and_acknowledges_once() {
    let config = ConfigBuilder::build_default(BotMode::Telegram);
    let mut state = TelegramState::new();
    let update = TelegramUpdate::from(callback_update(2, 1, "7", "3"));

    let actions = apply_update(&config, &mut state, update);

    assert_eq!(state.repeat_numbers.get(&1), Some(&3));
    assert_eq!(
        actions,
        vec![Action::AnswerCallback {
            id: "7".to_string(),
            text: "Repeats number was changed to 3".to_string()
        }]
    );
    assert_eq!(state.last_update_id, Some(2));
}

#[test]
fn malformed_callback_fails_closed() {
    let config = ConfigBuilder::build_default(BotMode::Telegram);
    let mut state = TelegramState::new();

    let actions = apply_update(
        &config,
        &mut state,
        TelegramUpdate::from(callback_update(2, 1, "7", "zero")),
    );
    assert_eq!(actions, vec![]);
    assert_eq!(state.repeat_numbers.get(&1), None);

    let actions = apply_update(
        &config,
        &mut state,
        TelegramUpdate::from(callback_update(3, 1, "7", "0")),
    );
    assert_eq!(actions, vec![]);
    assert_eq!(state.repeat_numbers.get(&1), None);
    assert_eq!(state.last_update_id, Some(3));
}

#[test]
fn keyboard_offers_buttons_one_to_five() {
    let keyboard = construct_inline_keyboard();
    assert_eq!(keyboard.rows.len(), 1);
    let row = &keyboard.rows[0];
    assert_eq!(row.len(), 5);
    for (i, button) in row.iter().enumerate() {
        let label = (i + 1).to_string();
        assert_eq!(button.text, label);
        assert_eq!(button.callback_data, label);
    }
}

#[test]
fn console_repeated_message_joins_with_newlines() {
    let config = ConfigBuilder::build_default(BotMode::Console);
    let mut state = State::new();
    assert_eq!(construct_repeated_message("x", &state, &config), "x");
    state.repeat_number = Some(3);
    assert_eq!(construct_repeated_message("x", &state, &config), "x\nx\nx");
}

#[test]
fn extract_repeat_count_stores_only_positive_numbers() {
    let mut state = State::new();
    state.is_await_repeat_number = true;

    assert_eq!(
        extract_repeat_count("255", &mut state),
        "Repeat message count currently is: 255"
    );
    assert_eq!(state.repeat_number, Some(255));
    assert!(!state.is_await_repeat_number);

    let mut state = State::new();
    state.is_await_repeat_number = true;
    assert_eq!(extract_repeat_count("256", &mut state), "Try again input number");
    assert_eq!(state.repeat_number, None);
    assert!(state.is_await_repeat_number);
}

#[test]
fn video_payload_repeats_like_text() {
    let config = ConfigBuilder::build_default(BotMode::Telegram);
    let mut state = TelegramState::new();
    state.set_repeat_number(5, 2);
    let raw = RawUpdate {
        update_id: 4,
        message: Some(Message {
            chat: Chat { id: 5 },
            from: None,
            video: Some(Video {
                file_id: "clip".to_string(),
            }),
            text: None,
        }),
        callback_query: None,
    };

    let actions = apply_update(&config, &mut state, TelegramUpdate::from(raw));

    let send = Action::Send {
        chat_id: 5,
        payload: Payload::Video("clip".to_string()),
    };
    assert_eq!(actions, vec![send.clone(), send]);
}

#[test]
fn conversion_prefers_text_over_video() {
    let raw = RawUpdate {
        update_id: 1,
        message: Some(Message {
            chat: Chat { id: 1 },
            from: None,
            video: Some(Video {
                file_id: "clip".to_string(),
            }),
            text: Some("hello".to_string()),
        }),
        callback_query: None,
    };

    let config = ConfigBuilder::build_default(BotMode::Telegram);
    let mut state = TelegramState::new();
    let actions = apply_update(&config, &mut state, TelegramUpdate::from(raw));
    assert_eq!(
        actions,
        vec![Action::Send {
            chat_id: 1,
            payload: Payload::Text("hello".to_string())
        }]
    );
}

#[test]
fn conversion_prefers_a_message_over_a_callback() {
    let mut raw = text_update(1, 1, "hello");
    raw.callback_query = Some(CallbackQuery {
        id: "9".to_string(),
        message: Message {
            chat: Chat { id: 2 },
            from: None,
            video: None,
            text: None,
        },
        data: "3".to_string(),
    });

    let config = ConfigBuilder::build_default(BotMode::Telegram);
    let mut state = TelegramState::new();
    let actions = apply_update(&config, &mut state, TelegramUpdate::from(raw));
    assert_eq!(
        actions,
        vec![Action::Send {
            chat_id: 1,
            payload: Payload::Text("hello".to_string())
        }]
    );
    assert_eq!(state.repeat_numbers.get(&2), None);
}

#[test]
fn message_with_neither_text_nor_video_is_ignored() {
    let raw = RawUpdate {
        update_id: 8,
        message: Some(Message {
            chat: Chat { id: 1 },
            from: None,
            video: None,
            text: None,
        }),
        callback_query: None,
    };

    let config = ConfigBuilder::build_default(BotMode::Telegram);
    let mut state = TelegramState::new();
    let actions = apply_update(&config, &mut state, TelegramUpdate::from(raw));
    assert_eq!(actions, vec![]);
    assert_eq!(state.last_update_id, Some(8));
}

#[test]
fn should_log_filters_by_severity() {
    assert!(should_log(&LogLevel::Error, &LogLevel::Debug));
    assert!(should_log(&LogLevel::Warn, &LogLevel::Warn));
    assert!(!should_log(&LogLevel::Debug, &LogLevel::Info));
    assert!(LogLevel::Debug.severity() < LogLevel::Info.severity());
    assert!(LogLevel::Info.severity() < LogLevel::Warn.severity());
    assert!(LogLevel::Warn.severity() < LogLevel::Error.severity());
}

#[test]
fn is_enum_checks_membership() {
    assert!(is_enum("telegram", vec!["telegram", "console"]));
    assert!(!is_enum("webhook", vec!["telegram", "console"]));
    assert!(!is_enum("telegram", vec![]));
}

#[test]
fn validation_error_keeps_message_and_field() {
    let err = ValidationError::new("must be positive".to_string(), "default_repeat_number");
    assert_eq!(err.message, "must be positive");
    assert_eq!(err.field, "default_repeat_number");
}

#[test]
fn config_builder_starts_at_the_default_path() {
    let builder = ConfigBuilder::new();
    assert_eq!(builder.file_path, Some("config.yaml".to_string()));
    assert_eq!(builder.file_content, None);
}
