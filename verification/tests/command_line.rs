use builtins::args::{decide, Action, ArgScan, Args, Argument, DEFAULT_URL, USAGE};

#[test]
fn help_option_shows_the_usage() {
    assert_eq!(decide(&Argument::Long("help".to_string())), Action::ShowUsage);
}

#[test]
fn url_option_takes_a_value() {
    assert_eq!(decide(&Argument::Long("url".to_string())), Action::TakeUrl);
}

#[test]
fn other_arguments_are_rejected() {
    assert_eq!(decide(&Argument::Long("no-prebuilt-binary".to_string())), Action::Reject);
    assert_eq!(decide(&Argument::Long("URL".to_string())), Action::Reject);
    assert_eq!(decide(&Argument::Long("".to_string())), Action::Reject);
    assert_eq!(decide(&Argument::Short('h')), Action::Reject);
    assert_eq!(decide(&Argument::Short('u')), Action::Reject);
    assert_eq!(decide(&Argument::Value("help".to_string())), Action::Reject);
    assert_eq!(decide(&Argument::Value("https://example.org/".to_string())), Action::Reject);
}

#[test]
fn url_defaults_to_the_language_page() {
    assert_eq!(DEFAULT_URL, "https://gpuweb.github.io/gpuweb/wgsl/");
    let scan = ArgScan::new();
    assert_eq!(scan, ArgScan { url: None });
    assert_eq!(scan.finish(), Args { url: "https://gpuweb.github.io/gpuweb/wgsl/".to_string() });
}

#[test]
fn given_url_replaces_the_default() {
    let mut scan = ArgScan::new();
    scan.set_url("https://example.org/page".to_string());
    assert_eq!(scan.url, Some("https://example.org/page".to_string()));
    assert_eq!(scan.finish(), Args { url: "https://example.org/page".to_string() });
}

#[test]
fn last_url_wins() {
    let mut scan = ArgScan::new();
    scan.set_url("https://example.org/one".to_string());
    scan.set_url("https://example.org/two".to_string());
    assert_eq!(scan.finish(), Args { url: "https://example.org/two".to_string() });
}

#[test]
fn usage_names_the_options() {
    assert_eq!(
        USAGE,
        "Usage: cargo run --bin builtins [--url https://gpuweb.github.io/gpuweb/wgsl/] [--no-prebuilt-binary]"
    );
}
