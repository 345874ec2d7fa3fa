use std::cmp::Ordering;
use timestitch::application::command::{CliOpts, ColorOption, ColorOptionParseError, TraceLevel};
use timestitch::application::config::{Config, DEFAULT_PREFS_PATH};
use timestitch::application::load_status::{Format, LoadStatus};
use timestitch::application::prefs::Prefs;
use timestitch::application::trace::{TraceConfig, DEFAULT_ANSI_COLORS, DEFAULT_TRACE_FILTER};
use timestitch::interval::CalendarSystem;
use timestitch::numeric::IntErrorKind;
use timestitch::record::{AttributeValue, MatchFormat, MatchSource};

#[test]
fn load_status_set_then_get() {
    let s = LoadStatus::new();
    assert_eq!(s.load_path(), None);
    assert!(!s.modified());
    assert_eq!(s.format(), None);
    let mut s = s.with_load_path("a.toml").with_modified(true).with_format(Format::Ron);
    assert_eq!(s.load_path(), Some("a.toml"));
    assert!(s.modified());
    assert_eq!(s.format(), Some(Format::Ron));
    s.clear_load_path();
    assert_eq!(s.load_path(), None);
    s.set_load_path("b");
    s.set_modified(false);
    s.set_format(Format::Toml);
    assert_eq!(s.load_path(), Some("b"));
    assert!(!s.modified());
    assert_eq!(s.format(), Some(Format::Toml));
}

#[test]
fn config_defaults_and_setters() {
    let c = Config::new();
    assert_eq!(c.load_path(), None);
    assert!(!c.modified());
    assert_eq!(c.format(), Some(Format::Toml));
    assert_eq!(c.prefs_path, DEFAULT_PREFS_PATH);
    assert_eq!(c.prefs_format, Format::Toml);
    assert_eq!(c.trace_config.filters, vec![DEFAULT_TRACE_FILTER.to_string()]);
    let mut c = Config::default().with_load_path("c.toml").with_format(Format::Ron);
    assert_eq!(c.load_path(), Some("c.toml"));
    assert_eq!(c.format(), Some(Format::Ron));
    c.set_modified(true);
    assert!(c.modified());
    c.set_load_path("d");
    c.set_format(Format::Toml);
    assert_eq!(c.load_path(), Some("d"));
    assert_eq!(c.format(), Some(Format::Toml));
}

#[test]
fn prefs_setters() {
    let p = Prefs::new();
    assert_eq!(p.load_path(), None);
    assert!(!p.modified());
    let mut p = Prefs::default().with_load_path("p.ron");
    assert_eq!(p.load_path(), Some("p.ron"));
    p.set_modified(true);
    assert!(p.modified());
    p.set_load_path("q");
    assert_eq!(p.load_path(), Some("q"));
}

#[test]
fn trace_config_defaults() {
    let t = TraceConfig::new();
    assert_eq!(t.filters, vec![DEFAULT_TRACE_FILTER.to_string()]);
    assert_eq!(t.trace_output_path, None);
    assert!(!t.output_stdout);
    assert_eq!(t.ansi_colors, DEFAULT_ANSI_COLORS);
    assert_eq!(TraceConfig::default().filters, t.filters);
}

#[test]
fn color_option_parse() {
    assert_eq!(ColorOption::from_str("auto"), Ok(ColorOption::Auto));
    assert_eq!(ColorOption::from_str("ALWAYS"), Ok(ColorOption::Always));
    assert_eq!(ColorOption::from_str("Never"), Ok(ColorOption::Never));
    assert_eq!(ColorOption::from_str("sometimes"), Err(ColorOptionParseError));
    assert_eq!(ColorOption::from_str(""), Err(ColorOptionParseError));
    assert!(ColorOption::Always.enabled());
    assert!(!ColorOption::Never.enabled());
    assert!(ColorOption::Auto.enabled_given(true));
    assert!(!ColorOption::Auto.enabled_given(false));
}

fn opts() -> CliOpts {
    CliOpts {
        config: None,
        prefs: None,
        color: ColorOption::Auto,
        verbose: false,
        quiet: false,
        trace: false,
        fail_on_error: false,
        normal_only: false,
        expand_directories: true,
        no_expand_directories: true,
        expand_recursive: true,
        files: vec!["x".to_string()],
    }
}

#[test]
fn directory_flags_resolve() {
    let mut o = opts();
    o.resolve_directory_flags();
    assert!(!o.expand_directories);
    assert!(!o.expand_recursive);
    assert_eq!(o.files, vec!["x".to_string()]);
    let mut o = opts();
    o.no_expand_directories = false;
    o.resolve_directory_flags();
    assert!(o.expand_directories);
    assert!(o.expand_recursive);
}

#[test]
fn trace_levels() {
    let mut o = opts();
    assert_eq!(o.base_trace_level(), TraceLevel::Warn);
    o.verbose = true;
    assert_eq!(o.base_trace_level(), TraceLevel::Info);
    o.quiet = true;
    assert_eq!(o.base_trace_level(), TraceLevel::Warn);
    o.trace = true;
    assert_eq!(o.base_trace_level(), TraceLevel::Trace);
}

#[test]
fn attribute_formats() {
    assert_eq!(MatchFormat::U64.parse_dyn("12"), Ok(AttributeValue::U64(12)));
    assert_eq!(MatchFormat::Text.parse_dyn("12"), Ok(AttributeValue::Text("12".to_string())));
    assert_eq!(MatchFormat::U64.parse_dyn("-1").unwrap_err().kind, IntErrorKind::InvalidDigit);
    assert_eq!(MatchSource::default(), MatchSource::Default);
    assert_eq!(CalendarSystem::default(), CalendarSystem::GregorianProleptic);
}

#[test]
fn attribute_comparison() {
    let a = AttributeValue::U64(3);
    let b = AttributeValue::U64(5);
    assert_eq!(a.dyn_partial_cmp(&b), Some(Ordering::Less));
    assert_eq!(b.dyn_partial_cmp(&a), Some(Ordering::Greater));
    assert_eq!(a.dyn_partial_cmp(&a), Some(Ordering::Equal));
    let s = AttributeValue::Text("apple".to_string());
    let t = AttributeValue::Text("apples".to_string());
    assert_eq!(s.dyn_partial_cmp(&t), Some(Ordering::Less));
    assert_eq!(t.dyn_partial_cmp(&t.clone()), Some(Ordering::Equal));
    assert_eq!(a.dyn_partial_cmp(&s), None);
}
