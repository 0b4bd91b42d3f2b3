use website_checker::config::{parse_args, CliArgs, ConfigError, Settings};
use website_checker::text::{parse_u64, text_is, urls_from_text};

fn args(items: &[&str]) -> Vec<String> {
    items.iter().map(|s| s.to_string()).collect()
}

#[test]
fn parse_u64_cases() {
    assert_eq!(parse_u64("42"), Some(42));
    assert_eq!(parse_u64("+7"), Some(7));
    assert_eq!(parse_u64("007"), Some(7));
    assert_eq!(parse_u64(""), None);
    assert_eq!(parse_u64("+"), None);
    assert_eq!(parse_u64("-1"), None);
    assert_eq!(parse_u64("12a"), None);
    assert_eq!(parse_u64("18446744073709551615"), Some(u64::MAX));
    assert_eq!(parse_u64("18446744073709551616"), None);
}

#[test]
fn text_is_cases() {
    assert!(text_is("--file", "--file"));
    assert!(!text_is("--files", "--file"));
    assert!(!text_is("--fil", "--file"));
}

#[test]
fn file_lines_filtered() {
    let text = "# sites\nhttp://a.example\r\n\n   \t\nhttp://b.example\n#http://c.example\nhttp://d.example";
    assert_eq!(urls_from_text(text), args(&["http://a.example", "http://b.example", "http://d.example"]));
    assert!(urls_from_text("").is_empty());
    assert!(urls_from_text("# only a comment\n\n").is_empty());
}

#[test]
fn defaults_and_positional_urls() {
    let cli = parse_args(&args(&["http://a.example", "http://b.example"])).unwrap();
    assert_eq!(cli.urls, args(&["http://a.example", "http://b.example"]));
    assert!(cli.files.is_empty());
    assert_eq!(cli.workers, None);
    assert_eq!(cli.timeout_secs, 5);
    assert_eq!(cli.retries, 0);
}

#[test]
fn flags_read() {
    let cli = parse_args(&args(&["--workers", "4", "x", "--timeout", "9", "--retries", "2"])).unwrap();
    assert_eq!(cli.urls, args(&["x"]));
    assert_eq!(cli.workers, Some(4));
    assert_eq!(cli.timeout_secs, 9);
    assert_eq!(cli.retries, 2);
}

#[test]
fn urls_after_file_ignored() {
    let cli = parse_args(&args(&["a", "--file", "list.txt", "b", "--file", "more.txt"])).unwrap();
    assert_eq!(cli.urls, args(&["a"]));
    assert_eq!(cli.files, args(&["list.txt", "more.txt"]));
}

#[test]
fn trailing_flag_without_value_ignored() {
    let cli = parse_args(&args(&["a", "--workers"])).unwrap();
    assert_eq!(cli.urls, args(&["a"]));
    assert_eq!(cli.workers, None);
}

#[test]
fn malformed_flags_rejected() {
    assert_eq!(parse_args(&args(&["--workers", "many"])).err(), Some(ConfigError::InvalidWorkers));
    assert_eq!(parse_args(&args(&["--workers", "0"])).err(), Some(ConfigError::InvalidWorkers));
    assert_eq!(parse_args(&args(&["--timeout", "0"])).err(), Some(ConfigError::InvalidTimeout));
    assert_eq!(parse_args(&args(&["--timeout", "1.5"])).err(), Some(ConfigError::InvalidTimeout));
    assert_eq!(parse_args(&args(&["--retries", "-1"])).err(), Some(ConfigError::InvalidRetries));
    assert_eq!(parse_args(&args(&["--retries", "4294967296"])).err(), Some(ConfigError::InvalidRetries));
}

#[test]
fn no_urls_is_an_error() {
    let cli = parse_args(&args(&["--workers", "2"])).unwrap();
    let r = Settings::with_default_workers(cli, Vec::new(), 3);
    assert_eq!(r.err(), Some(ConfigError::NoUrls));
}

#[test]
fn settings_join_urls_and_default_workers() {
    let cli = parse_args(&args(&["a", "--file", "f"])).unwrap();
    let s = Settings::with_default_workers(cli, args(&["b", "c"]), 3).unwrap();
    assert_eq!(s.urls, args(&["a", "b", "c"]));
    assert_eq!(s.workers, 3);
    assert_eq!(s.timeout_secs, 5);
    let cli = CliArgs { urls: args(&["a"]), files: Vec::new(), workers: Some(7), timeout_secs: 1, retries: 1 };
    let s = Settings::new(cli, Vec::new()).unwrap();
    assert_eq!(s.workers, 7);
    let cli = CliArgs { urls: args(&["a"]), files: Vec::new(), workers: None, timeout_secs: 1, retries: 1 };
    assert!(Settings::new(cli, Vec::new()).unwrap().workers >= 1);
}

#[test]
fn exit_codes() {
    assert_eq!(ConfigError::NoUrls.exit_code(), 2);
    assert_eq!(ConfigError::UnreadableFile.exit_code(), 1);
    assert_eq!(ConfigError::InvalidWorkers.exit_code(), 1);
    assert_eq!(ConfigError::InvalidTimeout.exit_code(), 1);
    assert_eq!(ConfigError::InvalidRetries.exit_code(), 1);
}
