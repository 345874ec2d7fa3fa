use std::collections::HashMap;
use timestitch::application::command::{CliOpts, ColorOption};
use timestitch::application::process::{
    build_entry, process_entries, try_process_entries, EntryError, EntryField, Resources,
    SourcePlace,
};
use timestitch::application::schema::{AttributeRule, EntrySchema, SourceRule};
use timestitch::application::walk::{
    failure_action, path_action, FailureAction, PathAction, PathKind, SourceWalk, WalkItem,
};
use timestitch::gregorian::GregorianProleptic;
use timestitch::gregorian_parse::{Format, GregorianProlepticParseError};
use timestitch::interval::TimeBound;
use timestitch::lines::split_lines;
use timestitch::numeric::IntErrorKind;
use timestitch::pattern::Pattern;
use timestitch::record::{AttributeValue, Entry, EntryCell, MatchFormat};
use timestitch::text::text_less;

fn pat(s: &str) -> Pattern {
    Pattern::new(s).unwrap()
}

fn resources() -> Resources {
    Resources {
        calendar_regex: pat(r"(\d+)-(\d+)-(\d+)"),
        calendar_regex_map: HashMap::new(),
        calendar_parse_fmt: Format::Ymd,
    }
}

const PATH: &str = "journal/2021-03-14.txt";
const TEXT: &str = "id: 42\nref: abc\r\nmood: fine\ncount 7\n";

fn full_schema() -> EntrySchema {
    let mut schema = EntrySchema::new(
        SourceRule::Content { line: 0, pattern: pat(r"id: (\d+)"), group: 1 },
        SourceRule::Path { pattern: pat(r"(\d+-\d+-\d+)"), group: 1 },
        Some(SourceRule::Content { line: 1, pattern: pat(r"ref: (.*)"), group: 1 }),
    );
    schema.insert_attribute(
        "mood".to_string(),
        AttributeRule::Content { line: 2, pattern: pat(r"mood: (\w+)"), group: 1, format: MatchFormat::Text },
    );
    schema.insert_attribute(
        "count".to_string(),
        AttributeRule::Content { line: 3, pattern: pat(r"count (\d+)"), group: 1, format: MatchFormat::U64 },
    );
    schema
}

fn default_schema() -> EntrySchema {
    EntrySchema::new(SourceRule::Default, SourceRule::Default, None)
}

#[test]
fn split_lines_like_str_lines() {
    for text in ["", "a", "a\n", "a\r\nb", "a\n\nb\n", "\n", "a\rb\n", "x\r", "\r\n\r\n", "a\r\r\nb"] {
        let expected: Vec<String> = text.lines().map(|s| s.to_string()).collect();
        assert_eq!(split_lines(text), expected, "{:?}", text);
    }
}

#[test]
fn text_order_like_str_order() {
    let words = ["", "a", "ab", "b", "B", "é", "aa", "abc"];
    for a in words {
        for b in words {
            assert_eq!(text_less(a, b), a < b, "{:?} {:?}", a, b);
        }
    }
}

#[test]
fn schema_keeps_attribute_names_ascending_and_unique() {
    let mut schema = default_schema();
    let t = || AttributeRule::Path { pattern: pat("(.*)"), group: 1, format: MatchFormat::Text };
    assert_eq!(schema.insert_attribute("m".to_string(), t()), 0);
    assert_eq!(schema.insert_attribute("c".to_string(), t()), 0);
    assert_eq!(schema.insert_attribute("x".to_string(), t()), 2);
    assert_eq!(schema.insert_attribute("m".to_string(), t()), 1);
    let names: Vec<&str> =
        schema.entry_attribute_sources().iter().map(|(n, _)| n.as_str()).collect();
    assert_eq!(names, vec!["c", "m", "x"]);
}

#[test]
fn process_entries_builds_entry() {
    let schema = full_schema();
    let res = resources();
    let mut entries: Vec<Entry<GregorianProleptic>> = Vec::new();
    process_entries(PATH, TEXT, &schema, &mut entries, &res).unwrap();
    assert_eq!(entries.len(), 1);
    let e = &entries[0];
    assert_eq!(e.id, 42);
    match e.time.start {
        TimeBound::At { period } => assert_eq!(
            period,
            GregorianProleptic::Ymd { year: 2021, month: Some(3), day: Some(14), time: None }),
        ref other => panic!("{:?}", other),
    }
    assert!(matches!(e.time.end, TimeBound::Unbounded));
    assert_eq!(e.source_path.0, PATH);
    assert_eq!(e.source_ref, "abc");
    assert_eq!(
        e.attributes,
        vec![
            ("count".to_string(), AttributeValue::U64(7)),
            ("mood".to_string(), AttributeValue::Text("fine".to_string())),
        ]);
    assert_eq!(e.len(), 6);
}

#[test]
fn default_id_counts_entries() {
    let schema = default_schema();
    let res = resources();
    let mut entries: Vec<Entry<GregorianProleptic>> = Vec::new();
    process_entries("a", "", &schema, &mut entries, &res).unwrap();
    process_entries("b", "", &schema, &mut entries, &res).unwrap();
    assert_eq!(entries[0].id, 0);
    assert_eq!(entries[1].id, 1);
    assert!(matches!(entries[1].time.start, TimeBound::Unbounded));
    assert_eq!(entries[1].source_ref, "");
    assert!(entries[1].attributes.is_empty());
}

fn failing(schema: EntrySchema, path: &str, text: &str) -> EntryError {
    let mut entries: Vec<Entry<GregorianProleptic>> = Vec::new();
    let e = process_entries(path, text, &schema, &mut entries, &resources()).unwrap_err();
    assert!(entries.is_empty());
    e
}

#[test]
fn errors_of_each_kind() {
    let e = failing(
        EntrySchema::new(
            SourceRule::Content { line: 9, pattern: pat("(.*)"), group: 1 },
            SourceRule::Default,
            None,
        ),
        PATH,
        TEXT,
    );
    assert!(matches!(e, EntryError::InvalidLineIndex(EntryField::Id)));

    let e = failing(
        EntrySchema::new(
            SourceRule::Content { line: 1, pattern: pat(r"id: (\d+)"), group: 1 },
            SourceRule::Default,
            None,
        ),
        PATH,
        TEXT,
    );
    assert!(matches!(e, EntryError::RegexMismatch(EntryField::Id, SourcePlace::Line)));

    let e = failing(
        EntrySchema::new(
            SourceRule::Default,
            SourceRule::Path { pattern: pat(r"(\d+)"), group: 2 },
            None,
        ),
        PATH,
        TEXT,
    );
    assert!(matches!(e, EntryError::MissingGroup(EntryField::Time, SourcePlace::Path)));

    let e = failing(
        EntrySchema::new(
            SourceRule::Content { line: 2, pattern: pat(r"mood: (\w+)"), group: 1 },
            SourceRule::Default,
            None,
        ),
        PATH,
        TEXT,
    );
    match e {
        EntryError::IdParse(p) => assert_eq!(p.kind, IntErrorKind::InvalidDigit),
        other => panic!("{:?}", other),
    }

    let e = failing(
        EntrySchema::new(
            SourceRule::Default,
            SourceRule::Content { line: 0, pattern: pat("(.*)"), group: 1 },
            None,
        ),
        PATH,
        TEXT,
    );
    assert!(matches!(
        e,
        EntryError::TimeParse(GregorianProlepticParseError::CaptureMatchFailure(_))));

    let e = failing(
        EntrySchema::new(
            SourceRule::Default,
            SourceRule::Default,
            Some(SourceRule::Path { pattern: pat("zzz(.)"), group: 1 }),
        ),
        PATH,
        TEXT,
    );
    assert!(matches!(e, EntryError::RegexMismatch(EntryField::SourceRef, SourcePlace::Path)));

    let mut schema = default_schema();
    schema.insert_attribute(
        "mood".to_string(),
        AttributeRule::Content { line: 2, pattern: pat(r"mood: (\w+)"), group: 1, format: MatchFormat::U64 },
    );
    match failing(schema, PATH, TEXT) {
        EntryError::AttributeParse(p) => assert_eq!(p.kind, IntErrorKind::InvalidDigit),
        other => panic!("{:?}", other),
    }
}

#[test]
fn first_failing_field_wins() {
    let e = failing(
        EntrySchema::new(
            SourceRule::Content { line: 9, pattern: pat("(.*)"), group: 1 },
            SourceRule::Content { line: 8, pattern: pat("(.*)"), group: 1 },
            None,
        ),
        PATH,
        TEXT,
    );
    assert!(matches!(e, EntryError::InvalidLineIndex(EntryField::Id)));
}

#[test]
fn undefined_entry_is_not_built() {
    let mut schema = default_schema();
    schema.insert_attribute(
        "when".to_string(),
        AttributeRule::Path { pattern: pat("(.*)"), group: 1, format: MatchFormat::Time },
    );
    let mut entries: Vec<Entry<GregorianProleptic>> = Vec::new();
    assert!(try_process_entries(PATH, TEXT, &schema, &mut entries, &resources()).is_none());
    assert!(entries.is_empty());
    assert!(build_entry(PATH, TEXT, &schema, 0, &resources()).is_none());
    let schema = full_schema();
    assert!(matches!(
        try_process_entries(PATH, TEXT, &schema, &mut entries, &resources()),
        Some(Ok(()))));
    assert_eq!(entries.len(), 1);
}

fn opts() -> CliOpts {
    CliOpts {
        config: None,
        prefs: None,
        color: ColorOption::Auto,
        verbose: false,
        quiet: false,
        trace: false,
        fail_on_error: false,
        normal_only: false,
        expand_directories: true,
        no_expand_directories: false,
        expand_recursive: false,
        files: Vec::new(),
    }
}

#[test]
fn path_actions() {
    let mut o = opts();
    assert_eq!(path_action(&o, PathKind::Directory, false), PathAction::ExpandDirectory);
    assert_eq!(path_action(&o, PathKind::Directory, true), PathAction::ReadFile);
    assert_eq!(path_action(&o, PathKind::File, true), PathAction::ReadFile);
    assert_eq!(path_action(&o, PathKind::Other, false), PathAction::ReadFile);
    o.normal_only = true;
    assert_eq!(path_action(&o, PathKind::Other, false), PathAction::Skip);
    assert_eq!(path_action(&o, PathKind::Directory, true), PathAction::Skip);
    o.expand_recursive = true;
    assert_eq!(path_action(&o, PathKind::Directory, true), PathAction::ExpandDirectory);
    o.expand_directories = false;
    assert_eq!(path_action(&o, PathKind::Directory, false), PathAction::Skip);
}

#[test]
fn failure_actions() {
    let mut o = opts();
    assert_eq!(failure_action(&o), FailureAction::Record);
    o.fail_on_error = true;
    assert_eq!(failure_action(&o), FailureAction::Abort);
}

fn source(item: Option<WalkItem>) -> (String, bool) {
    match item {
        Some(WalkItem::Source { path, in_expanded_dir }) => (path, in_expanded_dir),
        other => panic!("{:?}", other),
    }
}

#[test]
fn walk_is_depth_first() {
    let mut walk = SourceWalk::new(vec!["a".to_string(), "d".to_string()]);
    assert_eq!(source(walk.next_item()), ("a".to_string(), false));
    walk.push_listing(vec!["a/1".to_string(), "a/2".to_string()], true);
    assert_eq!(source(walk.next_item()), ("a/1".to_string(), true));
    walk.push_listing(vec!["a/1/x".to_string()], false);
    assert_eq!(source(walk.next_item()), ("a/1/x".to_string(), true));
    assert_eq!(source(walk.next_item()), ("a/2".to_string(), true));
    assert!(matches!(walk.next_item(), Some(WalkItem::ListingFailure)));
    assert!(!walk.is_done());
    assert_eq!(source(walk.next_item()), ("d".to_string(), false));
    assert!(walk.is_done());
    assert!(walk.next_item().is_none());
}

#[test]
fn final_line_ending_is_optional() {
    for s in ["a", "a\r", "x\nb", "x\n\nb\r"] {
        assert_eq!(split_lines(&format!("{}\r\n", s)), split_lines(s), "{:?}", s);
    }
    for s in ["a", "x\nb", "x\r\ny"] {
        assert_eq!(split_lines(&format!("{}\n", s)), split_lines(s), "{:?}", s);
    }
}

#[test]
fn entry_cells_in_column_order() {
    let schema = full_schema();
    let mut entries: Vec<Entry<GregorianProleptic>> = Vec::new();
    process_entries(PATH, TEXT, &schema, &mut entries, &resources()).unwrap();
    let e = &entries[0];
    assert!(matches!(e.cell(0), Some(EntryCell::Integer(42))));
    assert!(matches!(e.cell(1), Some(EntryCell::Integer(1000))));
    assert!(matches!(e.cell(2), Some(EntryCell::Text(t)) if t == PATH));
    assert!(matches!(e.cell(3), Some(EntryCell::Text("abc"))));
    assert!(matches!(e.cell(4), Some(EntryCell::Attribute(AttributeValue::U64(7)))));
    assert!(matches!(e.cell(5), Some(EntryCell::Attribute(AttributeValue::Text(t))) if t == "fine"));
    assert!(e.cell(6).is_none());
}
