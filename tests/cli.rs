use ironcladserver::cli::{ArgsOpts, Config, HelpMenu, ServerCommand, ServerConfigArguments, Version};
use ironcladserver::error::ConfigError;
use ironcladserver::Server;

fn words(ws: &[&str]) -> Vec<String> {
    ws.iter().map(|w| w.to_string()).collect()
}

#[test]
fn check_cli_input() {
    let mut config_args_opts_map = ArgsOpts::new();
    let cli_input = vec![
        "ironcladserver".to_string(),
        "start".to_string(),
        "-ip".to_string(),
        "192.168.0.1".to_string(),
        "-p".to_string(),
        "7878".to_string(),
    ];

    match Config::parse_args_opts(&cli_input, &mut config_args_opts_map) {
        Ok(_) => {
            if let Some(ip) = config_args_opts_map.get(&ServerConfigArguments::IpAddress) {
                println!("IP: {}", ip);
                assert_eq!(*ip, "192.168.0.1".to_string());
            } else {
                panic!("Fix 'cli_input' vector.")
            }
            if let Some(ip) = config_args_opts_map.get(&ServerConfigArguments::Port) {
                println!("IP: {}", ip);
                assert_eq!(*ip, "7878".to_string());
            } else {
                panic!("Fix 'cli_input' vector.")
            }
        }
        Err(e) => panic!("Error: {}.", e.message()),
    }
}

#[test]
fn build_needs_a_command() {
    let r = Config::build(&words(&["ironcladserver"]));
    assert!(matches!(r, Err(ConfigError::NotEnoughArguments)));
}

#[test]
fn build_help_and_version_take_no_options() {
    let c = Config::build(&words(&["ironcladserver", "help"])).unwrap();
    assert_eq!(c.command, ServerCommand::Help);
    assert!(c.args_opts_map.is_none());
    assert_eq!(c.program, "ironcladserver");
    let c = Config::build(&words(&["ironcladserver", "Version"])).unwrap();
    assert_eq!(c.command, ServerCommand::Version);
}

#[test]
fn build_matches_commands_in_any_case() {
    let c = Config::build(&words(&["ironcladserver", "START", "-IP", "10.0.0.1", "-P", "80"])).unwrap();
    assert_eq!(c.command, ServerCommand::Start);
    let opts = c.args_opts_map.unwrap();
    assert_eq!(opts.get(&ServerConfigArguments::IpAddress).unwrap(), "10.0.0.1");
    assert_eq!(opts.get(&ServerConfigArguments::Port).unwrap(), "80");
}

#[test]
fn build_unknown_command() {
    match Config::build(&words(&["ironcladserver", "stop"])) {
        Err(ConfigError::UnknownCommand(c)) => assert_eq!(c, "stop"),
        _ => panic!("expected an unknown command"),
    }
}

#[test]
fn build_missing_mandatory_options() {
    match Config::build(&words(&["ironcladserver", "start", "-p", "7878"])) {
        Err(ConfigError::MissingOption(o)) => assert_eq!(o, "-ip"),
        _ => panic!("expected a missing -ip"),
    }
    match Config::build(&words(&["ironcladserver", "start", "-ip", "127.0.0.1"])) {
        Err(ConfigError::MissingOption(o)) => assert_eq!(o, "-p"),
        _ => panic!("expected a missing -p"),
    }
}

#[test]
fn build_repeated_option() {
    let r = Config::build(&words(&["ironcladserver", "start", "-ip", "a", "-ip", "b", "-p", "1"]));
    match r {
        Err(ConfigError::ParseError(m)) => assert_eq!(m, "ip address option '-ip' is allowed once"),
        _ => panic!("expected a parse error"),
    }
    let r = Config::build(&words(&["ironcladserver", "start", "--v", "--verbose"]));
    match r {
        Err(ConfigError::ParseError(m)) => assert_eq!(m, "flag '--v' or '--verbose' is allowed once"),
        _ => panic!("expected a parse error"),
    }
}

#[test]
fn build_option_without_value() {
    match Config::build(&words(&["ironcladserver", "start", "-p", "1", "-ip"])) {
        Err(ConfigError::ParseError(m)) => assert_eq!(m, "ip address option '-ip' needs a value"),
        _ => panic!("expected a parse error"),
    }
}

#[test]
fn build_unknown_option() {
    match Config::build(&words(&["ironcladserver", "start", "-tp", "4"])) {
        Err(ConfigError::UnknownCommand(m)) => assert_eq!(m, "option or flag not available."),
        _ => panic!("expected an unknown option"),
    }
}

#[test]
fn build_flags() {
    let c = Config::build(&words(&[
        "ironcladserver", "start", "-ip", "127.0.0.1", "-p", "7878", "--notls", "--v",
    ]))
    .unwrap();
    let opts = c.args_opts_map.unwrap();
    assert_eq!(opts.get(&ServerConfigArguments::Tls).unwrap(), "false");
    assert_eq!(opts.get(&ServerConfigArguments::Verbose).unwrap(), "true");
    let server = Server::init(opts).unwrap();
    assert_eq!(server.ip_port, "127.0.0.1:7878");
    assert!(!server.with_tls);
    assert!(server.verbose);
}

#[test]
fn server_defaults_to_tls() {
    let c = Config::build(&words(&["ironcladserver", "start", "-ip", "0.0.0.0", "-p", "443"])).unwrap();
    let server = Server::init(c.args_opts_map.unwrap()).unwrap();
    assert_eq!(server.ip_port, "0.0.0.0:443");
    assert!(server.with_tls);
    assert!(!server.verbose);
}

#[test]
fn server_init_needs_address() {
    let mut opts = ArgsOpts::new();
    assert!(matches!(Server::init(ArgsOpts::new()), Err(ConfigError::MissingOption(o)) if o == "-ip"));
    opts.insert(ServerConfigArguments::IpAddress, "1.2.3.4".to_string());
    assert!(matches!(Server::init(opts), Err(ConfigError::MissingOption(o)) if o == "-p"));
}

#[test]
fn config_error_messages() {
    assert_eq!(
        ConfigError::NotEnoughArguments.message(),
        "Not enough arguments.\nFor syntax help, type 'boowebserver help'."
    );
    assert_eq!(
        ConfigError::MissingOption("-p".to_string()).message(),
        "Missing option: -p\nFor syntax help, type 'boowebserver help'."
    );
}

#[test]
fn help_and_version_texts() {
    assert!(HelpMenu::text().contains("Usage: ironcladserver COMMAND [FLAGS] [OPTIONS]"));
    assert!(HelpMenu::text().contains("--notls"));
    assert_eq!(Version::text(), "Version: 0.2.0.");
}
