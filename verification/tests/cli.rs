use nitro::cli::{parse, Command, ParseError, USAGE};

fn args(strs: &[&str]) -> Vec<String> {
    strs.iter().map(|s| (*s).to_string()).collect()
}

#[test]
fn no_args_is_help() {
    assert_eq!(parse(&[]).unwrap(), Command::Help);
}

#[test]
fn help_command() {
    assert_eq!(parse(&args(&["help"])).unwrap(), Command::Help);
}

#[test]
fn settings_command() {
    assert_eq!(parse(&args(&["settings"])).unwrap(), Command::Settings);
}

#[test]
fn provider_passes_subcommand_args() {
    let parsed = parse(&args(&["provider", "add"])).unwrap();
    assert_eq!(
        parsed,
        Command::Provider {
            args: vec!["add".to_string()]
        }
    );
}

#[test]
fn interactive_with_and_without_request() {
    assert_eq!(
        parse(&args(&["interactive"])).unwrap(),
        Command::Interactive {
            request: String::new(),
        }
    );
    assert_eq!(
        parse(&args(&["i", "hello world"])).unwrap(),
        Command::Interactive {
            request: "hello world".to_string(),
        }
    );
}

#[test]
fn continue_requires_request() {
    assert_eq!(parse(&args(&["continue"])), Err(ParseError::ContinueWithoutRequest));
    assert_eq!(parse(&args(&["c"])), Err(ParseError::ContinueWithoutRequest));
    assert_eq!(
        parse(&args(&["c", "follow up"])).unwrap(),
        Command::Continue {
            request: "follow up".to_string(),
        }
    );
}

#[test]
fn resume_alias_with_and_without_request() {
    assert_eq!(
        parse(&args(&["resume"])).unwrap(),
        Command::Resume {
            request: String::new(),
        }
    );
    assert_eq!(
        parse(&args(&["r", "alias test"])).unwrap(),
        Command::Resume {
            request: "alias test".to_string(),
        }
    );
}

#[test]
fn strict_alias_works() {
    assert_eq!(
        parse(&args(&["s"])).unwrap(),
        Command::Strict {
            request: String::new(),
        }
    );
    assert_eq!(
        parse(&args(&["strict", "audit"])).unwrap(),
        Command::Strict {
            request: "audit".to_string(),
        }
    );
}

#[test]
fn multi_word_default_is_oneshot() {
    assert_eq!(
        parse(&args(&["hello world"])).unwrap(),
        Command::OneShot {
            request: "hello world".to_string(),
        }
    );
}

#[test]
fn single_word_unknown() {
    assert_eq!(
        parse(&args(&["unknown"])).unwrap(),
        Command::Unknown {
            command: "unknown".to_string(),
        }
    );
}

#[test]
fn usage_mentions_nitro() {
    assert!(USAGE.contains("Usage: nitro"));
}
