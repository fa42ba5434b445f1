use echo_bot::config::BotMode;
use echo_bot::config::ConfigBuilder;
use echo_bot::console::State;
use echo_bot::console::respond_user;

#[test]
fn should_success_return_help_msg() {
    let mut state = State::new();
    let input = "/help".to_string();
    let config = ConfigBuilder::build_default(BotMode::Console);

    let response = respond_user(input, &mut state, &config);
    assert_eq!(response, Some("help msg".to_string()));
}

#[test]
fn should_return_none_if_provide_exit_command() {
    let mut state = State::new();
    let input = "/exit".to_string();
    let config = ConfigBuilder::build_default(BotMode::Console);

    let response = respond_user(input, &mut state, &config);
    assert_eq!(response, None);
}

#[test]
fn should_return_error_if_provided_unknown_command() {
    let mut state = State::new();
    let input = "/unknown".to_string();
    let input_clone = input.clone();
    let config = ConfigBuilder::build_default(BotMode::Console);

    let response = respond_user(input, &mut state, &config);
    assert_eq!(
        response,
        Some(format!(
            "Unknown command: {}. Supported commands: /help, /repeat, /exit",
            input_clone
        ))
    );
}

#[test]
fn should_success_repeat_message_with_default_repeat_count() {
    let mut state = State::new();
    let input = "test".to_string();
    let config = ConfigBuilder::build_default(BotMode::Console);

    let response = respond_user(input, &mut state, &config);
    assert_eq!(response, Some("test".to_string()));
}

#[test]
fn should_return_error_if_provided_invalid_number() {
    let mut state = State::new();
    let input = "/repeat".to_string();
    let config = ConfigBuilder::build_default(BotMode::Console);

    respond_user(input, &mut state, &config);

    let response1 = respond_user("0".to_string(), &mut state, &config);
    assert_eq!(response1, Some("Try again input number".to_string()));
    assert_eq!(state.repeat_number, None);

    let response2 = respond_user("txt".to_string(), &mut state, &config);
    assert_eq!(response2, Some("Try again input number".to_string()));
    assert_eq!(state.repeat_number, None);
}

#[test]
fn should_success_change_repeat_number() {
    let mut state = State::new();
    let input = "/repeat".to_string();
    let config = ConfigBuilder::build_default(BotMode::Console);

    let response1 = respond_user(input, &mut state, &config);
    assert_eq!(
        response1,
        Some(format!(
            "Currently repeat set: {}. {}",
            config.default_repeat_number, config.repeat_msg
        ))
    );

    let response2 = respond_user("3".to_string(), &mut state, &config);
    assert_eq!(
        response2,
        Some("Repeat message count currently is: 3".to_string())
    );
    assert_eq!(state.repeat_number, Some(3));
}

#[test]
fn should_success_repeat_message_after_change_number() {
    let mut state = State::new();
    let input = "/repeat".to_string();
    let config = ConfigBuilder::build_default(BotMode::Console);

    respond_user(input, &mut state, &config);
    respond_user("2".to_string(), &mut state, &config);
    let response = respond_user("test".to_string(), &mut state, &config);
    assert_eq!(response, Some("test\ntest".to_string()));
}
