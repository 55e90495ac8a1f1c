use example_lib::commands::{
    async_command_begin, async_command_finish, basic, hello_world, parse_command,
    registered_names, str_eq, Command, InvokeError, ASYNC_COMMAND_DELAY_MS,
};

#[test]
fn known_names_resolve() {
    assert_eq!(parse_command("greet"), Ok(Command::Greet));
    assert_eq!(parse_command("basic"), Ok(Command::Basic));
    assert_eq!(parse_command("hello_world"), Ok(Command::HelloWorld));
    assert_eq!(parse_command("async_command"), Ok(Command::AsyncCommand));
}

#[test]
fn unknown_name_is_a_caller_error() {
    // Distinct from any handler error: handlers fail with strings, the
    // dispatch layer with this variant.
    assert_eq!(parse_command("nope"), Err(InvokeError::UnknownCommand));
    assert_eq!(parse_command(""), Err(InvokeError::UnknownCommand));
    assert_eq!(parse_command("Basic"), Err(InvokeError::UnknownCommand));
    assert_eq!(parse_command("hello_world "), Err(InvokeError::UnknownCommand));
}

#[test]
fn registry_lists_every_name() {
    let names = registered_names();
    assert_eq!(names, vec!["greet", "basic", "hello_world", "async_command"]);
    for n in &names {
        assert!(parse_command(n).is_ok());
    }
}

#[test]
fn hello_world_returns_fixed_greeting() {
    let (result, log) = hello_world("Alice");
    assert_eq!(result, Ok("Hello from Rust!".to_string()));
    assert_eq!(log, "hello_world called by Alice");
}

#[test]
fn hello_world_value_independent_of_input() {
    let (r1, _) = hello_world("Alice");
    let (r2, _) = hello_world("");
    let (r3, _) = hello_world("a much longer and stranger argument \u{1F980}");
    assert_eq!(r1, r2);
    assert_eq!(r2, r3);
}

#[test]
fn basic_hands_back_its_log_line() {
    assert_eq!(basic(), "basic command called");
}

#[test]
fn async_command_parts() {
    assert_eq!(async_command_begin(), ASYNC_COMMAND_DELAY_MS);
    assert_eq!(async_command_begin(), 1000);
    let (result, log) = async_command_finish();
    assert_eq!(result, Ok("Async command completed!".to_string()));
    assert_eq!(log, "async_command completed");
}

#[test]
fn str_eq_agrees_with_equality() {
    assert!(str_eq("", ""));
    assert!(str_eq("abc", "abc"));
    assert!(!str_eq("abc", "abd"));
    assert!(!str_eq("abc", "ab"));
    assert!(!str_eq("ab", "abc"));
    assert!(str_eq("na\u{ef}ve", "na\u{ef}ve"));
    assert!(!str_eq("na\u{ef}ve", "naive"));
}
