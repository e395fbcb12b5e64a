use serve::config::{LogVerbosity, ServeConfig, Subcommands, Tls};

fn quiet() -> LogVerbosity {
    LogVerbosity { verbose: 0, quiet: 0 }
}

fn cli_config() -> ServeConfig {
    ServeConfig {
        config: Some(String::from("serve.toml")),
        subcommand: None,
        path: None,
        port: 3000,
        addr: String::from("127.0.0.1"),
        disable_compression: false,
        not_found: None,
        ok: false,
        log_level: quiet(),
        log_path: None,
        log_max_files: None,
    }
}

fn file_config() -> ServeConfig {
    ServeConfig {
        config: None,
        subcommand: Some(Subcommands::Tls(Tls {
            cert: String::from("cert.pem"),
            key: String::from("key.pem"),
            redirect_http: true,
        })),
        path: Some(String::from("/srv/www")),
        port: 443,
        addr: String::from("0.0.0.0"),
        disable_compression: true,
        not_found: Some(String::from("404.html")),
        ok: true,
        log_level: LogVerbosity { verbose: 2, quiet: 0 },
        log_path: Some(String::from("/var/log/serve")),
        log_max_files: Some(14),
    }
}

#[test]
fn file_supplies_subcommand_port_and_addr() {
    let merged = cli_config().resolve_config(file_config());
    assert_eq!(merged.port, 443);
    assert_eq!(merged.addr, "0.0.0.0");
    match merged.subcommand {
        Some(Subcommands::Tls(tls)) => {
            assert_eq!(tls.cert, "cert.pem");
            assert_eq!(tls.key, "key.pem");
            assert!(tls.redirect_http);
        }
        None => panic!("expected the file's subcommand"),
    }
    assert_eq!(merged.config.as_deref(), Some("serve.toml"));
}

#[test]
fn command_line_wins_for_paths_when_given() {
    let mut cli = cli_config();
    cli.path = Some(String::from("/srv/other"));
    cli.not_found = Some(String::from("missing.html"));
    cli.log_path = Some(String::from("/tmp/logs"));
    cli.log_max_files = Some(3);
    let merged = cli.resolve_config(file_config());
    assert_eq!(merged.path.as_deref(), Some("/srv/other"));
    assert_eq!(merged.not_found.as_deref(), Some("missing.html"));
    assert_eq!(merged.log_path.as_deref(), Some("/tmp/logs"));
    assert_eq!(merged.log_max_files, Some(3));
}

#[test]
fn file_fills_paths_the_command_line_left_out() {
    let merged = cli_config().resolve_config(file_config());
    assert_eq!(merged.path.as_deref(), Some("/srv/www"));
    assert_eq!(merged.not_found.as_deref(), Some("404.html"));
    assert_eq!(merged.log_path.as_deref(), Some("/var/log/serve"));
    assert_eq!(merged.log_max_files, Some(14));
}

#[test]
fn switches_are_on_when_either_side_turns_them_on() {
    let merged = cli_config().resolve_config(file_config());
    assert!(merged.disable_compression);
    assert!(merged.ok);

    let mut cli = cli_config();
    cli.disable_compression = true;
    cli.ok = true;
    let mut file = file_config();
    file.disable_compression = false;
    file.ok = false;
    let merged = cli.resolve_config(file);
    assert!(merged.disable_compression);
    assert!(merged.ok);

    let mut file = file_config();
    file.disable_compression = false;
    file.ok = false;
    let merged = cli_config().resolve_config(file);
    assert!(!merged.disable_compression);
    assert!(!merged.ok);
}

#[test]
fn log_level_from_file_unless_given_on_the_command_line() {
    let merged = cli_config().resolve_config(file_config());
    assert_eq!(merged.log_level, LogVerbosity { verbose: 2, quiet: 0 });

    let mut cli = cli_config();
    cli.log_level = LogVerbosity { verbose: 0, quiet: 1 };
    let merged = cli.resolve_config(file_config());
    assert_eq!(merged.log_level, LogVerbosity { verbose: 0, quiet: 1 });
}

#[test]
fn verbosity_presence_means_either_flag() {
    assert!(!LogVerbosity { verbose: 0, quiet: 0 }.is_present());
    assert!(LogVerbosity { verbose: 1, quiet: 0 }.is_present());
    assert!(LogVerbosity { verbose: 0, quiet: 2 }.is_present());
}

#[test]
fn serving_path_defaults_to_the_current_directory() {
    let cfg = cli_config();
    assert_eq!(cfg.get_path(), ".");
    let mut cfg = cli_config();
    cfg.path = Some(String::from("/srv/www"));
    assert_eq!(cfg.get_path(), "/srv/www");
}
