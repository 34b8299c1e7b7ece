use desktop_shell::commands::{
    invoke_command, readiness_probe, CommandError, READINESS_COMMAND, READINESS_TOKEN,
};

#[test]
fn readiness_probe_answers_the_token() {
    assert_eq!(readiness_probe(), "pong");
    assert_eq!(readiness_probe(), READINESS_TOKEN);
}

#[test]
fn readiness_probe_is_the_same_every_time() {
    let first = invoke_command(READINESS_COMMAND, &Vec::new());
    for _ in 0..5 {
        let _ = invoke_command("other", &vec!["x".to_string()]);
        assert_eq!(invoke_command("ping", &Vec::new()), first);
    }
    assert_eq!(first, Ok("pong".to_string()));
}

#[test]
fn probe_with_arguments_is_refused() {
    let r = invoke_command("ping", &vec!["a".to_string(), "b".to_string()]);
    assert_eq!(r, Err(CommandError::InvalidArguments { expected: 0, given: 2 }));
}

#[test]
fn unknown_command_is_refused() {
    assert_eq!(invoke_command("greet", &Vec::new()), Err(CommandError::UnknownCommand));
    assert_eq!(invoke_command("", &Vec::new()), Err(CommandError::UnknownCommand));
    assert_eq!(invoke_command("PING", &Vec::new()), Err(CommandError::UnknownCommand));
}
