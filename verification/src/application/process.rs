//! Building entries from the path and text of an input source.
use vstd::prelude::*;
use std::collections::HashMap;
use crate::application::schema::{AttributeRule, EntrySchema, SourceRule};
use crate::gregorian::GregorianProleptic;
use crate::gregorian_parse::{
    parse_format_spec, Format, GregorianProlepticParseError, ParseErrorView,
};
use crate::interval::{interval_outcome, TimeBound, TimeInterval};
use crate::lines::{lines_view, split_lines, text_lines};
use crate::numeric::{parse_int_spec, parse_u64, IntErrorKind, ParseIntError};
use crate::pattern::{regex_captures, Pattern};
use crate::record::{
    attributes_view, AttributeValue, AttributeView, DataSource, Entry,
    EntryView, MatchFormat,
};

verus! {

/// The entry field that a rule fills.
#[derive(Debug, Clone, Copy, PartialEq, Eq, Structural)]
pub enum EntryField {
    /// The identifier.
    Id,
    /// The time interval.
    Time,
    /// The source reference.
    SourceRef,
    /// An attribute.
    Attribute,
}

/// The text that a rule's regular expression is matched against.
#[derive(Debug, Clone, Copy, PartialEq, Eq, Structural)]
pub enum SourcePlace {
    /// The source's path.
    Path,
    /// A line of the source's contents.
    Line,
}

/// Why an entry could not be built from an input source.
#[derive(Debug, Clone)]
pub enum EntryError {
    /// The rule names a line that the contents do not have.
    InvalidLineIndex(EntryField),
    /// The rule's regular expression does not match.
    RegexMismatch(EntryField, SourcePlace),
    /// The rule's capture group took no part in the match.
    MissingGroup(EntryField, SourcePlace),
    /// The identifier text is not a `u64`.
    IdParse(ParseIntError),
    /// The time text is not a period of the calendar format.
    TimeParse(GregorianProlepticParseError),
    /// The attribute text is not of the attribute's format.
    AttributeParse(ParseIntError),
}

/// An `EntryError` as a value.
pub enum EntryErrorView {
    /// The rule names a line that the contents do not have.
    InvalidLineIndex(EntryField),
    /// The rule's regular expression does not match.
    RegexMismatch(EntryField, SourcePlace),
    /// The rule's capture group took no part in the match.
    MissingGroup(EntryField, SourcePlace),
    /// The identifier text is not a `u64`.
    IdParse(IntErrorKind),
    /// The time text is not a period of the calendar format.
    TimeParse(ParseErrorView),
    /// The attribute text is not of the attribute's format.
    AttributeParse(IntErrorKind),
}

impl View for EntryError {
    type V = EntryErrorView;

    open spec fn view(&self) -> EntryErrorView {
        match self {
            EntryError::InvalidLineIndex(f) => EntryErrorView::InvalidLineIndex(*f),
            EntryError::RegexMismatch(f, p) => EntryErrorView::RegexMismatch(*f, *p),
            EntryError::MissingGroup(f, p) => EntryErrorView::MissingGroup(*f, *p),
            EntryError::IdParse(e) => EntryErrorView::IdParse(e.kind),
            EntryError::TimeParse(e) => EntryErrorView::TimeParse(e@),
            EntryError::AttributeParse(e) => EntryErrorView::AttributeParse(e.kind),
        }
    }
}

/// What the calendar parser of the entry times is made of.
#[derive(Debug)]
pub struct Resources {
    /// The compiled calendar pattern.
    pub calendar_regex: Pattern,
    /// The calendar pattern capture group map.
    pub calendar_regex_map: HashMap<usize, usize>,
    /// The calendar value parse format.
    pub calendar_parse_fmt: Format,
}

/// A text result as a value.
pub open spec fn text_result_view(r: Result<String, EntryError>) -> Result<Seq<char>, EntryErrorView> {
    match r {
        Ok(s) => Ok(s@),
        Err(e) => Err(e@),
    }
}

/// The text of capture group `group` when `pattern` is matched against
/// `text`.
pub open spec fn captured_text(
    pattern: Seq<char>,
    group: usize,
    text: Seq<char>,
    field: EntryField,
    place: SourcePlace,
) -> Result<Seq<char>, EntryErrorView> {
    match regex_captures(pattern, text) {
        None => Err(EntryErrorView::RegexMismatch(field, place)),
        Some(groups) => if group < groups.len() && groups[group as int] is Some {
            Ok(groups[group as int]->0)
        } else {
            Err(EntryErrorView::MissingGroup(field, place))
        },
    }
}

/// The text of capture group `group` of `pattern`, matched against the path
/// (`line` is `None`) or against line `line` of `lines`.
pub open spec fn located_text(
    line: Option<usize>,
    pattern: Seq<char>,
    group: usize,
    path: Seq<char>,
    lines: Seq<Seq<char>>,
    field: EntryField,
) -> Result<Seq<char>, EntryErrorView> {
    match line {
        None => captured_text(pattern, group, path, field, SourcePlace::Path),
        Some(l) => if l < lines.len() {
            captured_text(pattern, group, lines[l as int], field, SourcePlace::Line)
        } else {
            Err(EntryErrorView::InvalidLineIndex(field))
        },
    }
}

/// The text that `rule` finds for `field`; the empty text for the default.
pub open spec fn rule_text(
    rule: SourceRule,
    path: Seq<char>,
    lines: Seq<Seq<char>>,
    field: EntryField,
) -> Result<Seq<char>, EntryErrorView> {
    match rule {
        SourceRule::Default => Ok(Seq::empty()),
        SourceRule::Path { pattern, group } => located_text(
            None,
            pattern.source_text(),
            group,
            path,
            lines,
            field,
        ),
        SourceRule::Content { line, pattern, group } => located_text(
            Some(line),
            pattern.source_text(),
            group,
            path,
            lines,
            field,
        ),
    }
}

/// The identifier of the entry: the number of entries before it by default,
/// else the `u64` that the rule's text is.
pub open spec fn id_outcome(
    rule: SourceRule,
    path: Seq<char>,
    lines: Seq<Seq<char>>,
    n_entries: nat,
) -> Result<u64, EntryErrorView> {
    if rule is Default {
        Ok(n_entries as u64)
    } else {
        match rule_text(rule, path, lines, EntryField::Id) {
            Err(e) => Err(e),
            Ok(s) => match parse_int_spec(s, 0, u64::MAX as int) {
                Ok(v) => Ok(v as u64),
                Err(k) => Err(EntryErrorView::IdParse(k)),
            },
        }
    }
}

/// The time interval of the entry: unknown by default, else the interval
/// starting at the period that the rule's text is; `None` where the calendar
/// parse is undefined.
pub open spec fn time_outcome(
    rule: SourceRule,
    path: Seq<char>,
    lines: Seq<Seq<char>>,
    res: Resources,
) -> Option<Result<TimeInterval<GregorianProleptic>, EntryErrorView>> {
    if rule is Default {
        Some(Ok(TimeInterval { start: TimeBound::Unbounded, end: TimeBound::Unbounded }))
    } else {
        match rule_text(rule, path, lines, EntryField::Time) {
            Err(e) => Some(Err(e)),
            Ok(s) => match interval_outcome(
                parse_format_spec(
                    s,
                    res.calendar_parse_fmt,
                    res.calendar_regex.source_text(),
                    res.calendar_regex_map@,
                ),
            ) {
                None => None,
                Some(Ok(t)) => Some(Ok(t)),
                Some(Err(e)) => Some(Err(EntryErrorView::TimeParse(e))),
            },
        }
    }
}

/// The source reference of the entry: empty without a rule or by default,
/// else the rule's text.
pub open spec fn ref_outcome(
    rule: Option<SourceRule>,
    path: Seq<char>,
    lines: Seq<Seq<char>>,
) -> Result<Seq<char>, EntryErrorView> {
    match rule {
        None => Ok(Seq::empty()),
        Some(r) => rule_text(r, path, lines, EntryField::SourceRef),
    }
}

/// The value of an attribute; `None` for the time format, which has no
/// attribute parser.
pub open spec fn attribute_outcome(
    rule: AttributeRule,
    path: Seq<char>,
    lines: Seq<Seq<char>>,
) -> Option<Result<AttributeView, EntryErrorView>> {
    let (t, format) = match rule {
        AttributeRule::Path { pattern, group, format } => (
            located_text(None, pattern.source_text(), group, path, lines, EntryField::Attribute),
            format,
        ),
        AttributeRule::Content { line, pattern, group, format } => (
            located_text(
                Some(line),
                pattern.source_text(),
                group,
                path,
                lines,
                EntryField::Attribute,
            ),
            format,
        ),
    };
    match t {
        Err(e) => Some(Err(e)),
        Ok(s) => if format == MatchFormat::Time {
            None
        } else {
            match format.parse_spec(s) {
                Ok(v) => Some(Ok(v)),
                Err(k) => Some(Err(EntryErrorView::AttributeParse(k))),
            }
        },
    }
}

/// The attributes of the entry, taken in the order of the rules; the first
/// failure stops.
pub open spec fn attributes_outcome(
    rules: Seq<(String, AttributeRule)>,
    path: Seq<char>,
    lines: Seq<Seq<char>>,
) -> Option<Result<Seq<(Seq<char>, AttributeView)>, EntryErrorView>>
    decreases rules.len(),
{
    if rules.len() == 0 {
        Some(Ok(Seq::empty()))
    } else {
        match attributes_outcome(rules.drop_last(), path, lines) {
            None => None,
            Some(Err(e)) => Some(Err(e)),
            Some(Ok(done)) => match attribute_outcome(rules.last().1, path, lines) {
                None => None,
                Some(Err(e)) => Some(Err(e)),
                Some(Ok(v)) => Some(Ok(done.push((rules.last().0@, v)))),
            },
        }
    }
}

/// The entry built from the source at `path` with contents `text`, after
/// `n_entries` entries: its identifier, time, source reference and
/// attributes in that order, the first failure stopping; `None` where it is
/// undefined.
pub open spec fn entry_outcome(
    schema: EntrySchema,
    path: Seq<char>,
    text: Seq<char>,
    n_entries: nat,
    res: Resources,
) -> Option<Result<EntryView<GregorianProleptic>, EntryErrorView>> {
    let lines = text_lines(text);
    match id_outcome(schema.id_rule(), path, lines, n_entries) {
        Err(e) => Some(Err(e)),
        Ok(id) => match time_outcome(schema.time_rule(), path, lines, res) {
            None => None,
            Some(Err(e)) => Some(Err(e)),
            Some(Ok(time)) => match ref_outcome(schema.ref_rule(), path, lines) {
                Err(e) => Some(Err(e)),
                Ok(source_ref) => match attributes_outcome(schema.attributes(), path, lines) {
                    None => None,
                    Some(Err(e)) => Some(Err(e)),
                    Some(Ok(attributes)) => Some(
                        Ok(EntryView { id, time, source_path: path, source_ref, attributes }),
                    ),
                },
            },
        },
    }
}

/// An entry build as a value.
pub open spec fn entry_result_view(
    r: Option<Result<Entry<GregorianProleptic>, EntryError>>,
) -> Option<Result<EntryView<GregorianProleptic>, EntryErrorView>> {
    match r {
        None => None,
        Some(Ok(e)) => Some(Ok(e@)),
        Some(Err(e)) => Some(Err(e@)),
    }
}

/// The text of capture group `group` when `pattern` is matched against
/// `text`.
fn capture(pattern: &Pattern, group: usize, text: &str, field: EntryField, place: SourcePlace) -> (r:
    Result<String, EntryError>)
    ensures
        text_result_view(r) == captured_text(pattern.source_text(), group, text@, field, place),
{
    match pattern.captures(text) {
        None => Err(EntryError::RegexMismatch(field, place)),
        Some(groups) => {
            if group < groups.len() {
                match &groups[group] {
                    Some(s) => Ok(s.clone()),
                    None => Err(EntryError::MissingGroup(field, place)),
                }
            } else {
                Err(EntryError::MissingGroup(field, place))
            }
        },
    }
}

/// The text of capture group `group` of `pattern`, matched against the path
/// or a line.
fn locate(
    line: Option<usize>,
    pattern: &Pattern,
    group: usize,
    path: &str,
    lines: &Vec<String>,
    field: EntryField,
) -> (r: Result<String, EntryError>)
    ensures
        text_result_view(r) == located_text(
            line,
            pattern.source_text(),
            group,
            path@,
            lines_view(lines@),
            field,
        ),
{
    match line {
        None => capture(pattern, group, path, field, SourcePlace::Path),
        Some(l) => {
            if l < lines.len() {
                capture(pattern, group, lines[l].as_str(), field, SourcePlace::Line)
            } else {
                Err(EntryError::InvalidLineIndex(field))
            }
        },
    }
}

/// The text that `rule` finds for `field`.
fn source_text_of(rule: &SourceRule, path: &str, lines: &Vec<String>, field: EntryField) -> (r:
    Result<String, EntryError>)
    ensures
        text_result_view(r) == rule_text(*rule, path@, lines_view(lines@), field),
{
    match rule {
        SourceRule::Default => Ok(String::new()),
        SourceRule::Path { pattern, group } => locate(None, pattern, *group, path, lines, field),
        SourceRule::Content { line, pattern, group } => locate(
            Some(*line),
            pattern,
            *group,
            path,
            lines,
            field,
        ),
    }
}

/// The value of an attribute; `None` for the time format.
fn attribute_of(rule: &AttributeRule, path: &str, lines: &Vec<String>) -> (r: Option<
    Result<AttributeValue, EntryError>,
>)
    ensures
        match r {
            None => attribute_outcome(*rule, path@, lines_view(lines@)) is None,
            Some(Ok(v)) => attribute_outcome(*rule, path@, lines_view(lines@)) == Some(
                Ok::<AttributeView, EntryErrorView>(v@),
            ),
            Some(Err(e)) => attribute_outcome(*rule, path@, lines_view(lines@)) == Some(
                Err::<AttributeView, EntryErrorView>(e@),
            ),
        },
{
    let (t, format) = match rule {
        AttributeRule::Path { pattern, group, format } => (
            locate(None, pattern, *group, path, lines, EntryField::Attribute),
            *format,
        ),
        AttributeRule::Content { line, pattern, group, format } => (
            locate(Some(*line), pattern, *group, path, lines, EntryField::Attribute),
            *format,
        ),
    };
    match t {
        Err(e) => Some(Err(e)),
        Ok(s) => {
            if format == MatchFormat::Time {
                None
            } else {
                match format.parse_dyn(s.as_str()) {
                    Ok(v) => Some(Ok(v)),
                    Err(e) => Some(Err(EntryError::AttributeParse(e))),
                }
            }
        },
    }
}

/// Once a prefix of the rules fails or is undefined, so are all the rules.
proof fn lemma_attributes_stop(
    rules: Seq<(String, AttributeRule)>,
    k: int,
    path: Seq<char>,
    lines: Seq<Seq<char>>,
)
    requires
        0 <= k <= rules.len(),
        !(attributes_outcome(rules.take(k), path, lines) matches Some(Ok(_))),
    ensures
        attributes_outcome(rules, path, lines) == attributes_outcome(rules.take(k), path, lines),
    decreases rules.len(),
{
    if rules.len() > k {
        assert(rules.drop_last().take(k) =~= rules.take(k));
        lemma_attributes_stop(rules.drop_last(), k, path, lines);
    } else {
        assert(rules.take(k) =~= rules);
    }
}

/// The attributes of the entry, in the order of the schema's rules.
fn attributes_of(schema: &EntrySchema, path: &str, lines: &Vec<String>) -> (r: Option<
    Result<Vec<(String, AttributeValue)>, EntryError>,
>)
    ensures
        match r {
            None => attributes_outcome(schema.attributes(), path@, lines_view(lines@)) is None,
            Some(Ok(v)) => attributes_outcome(schema.attributes(), path@, lines_view(lines@))
                == Some(
                Ok::<Seq<(Seq<char>, AttributeView)>, EntryErrorView>(attributes_view(v@)),
            ),
            Some(Err(e)) => attributes_outcome(schema.attributes(), path@, lines_view(lines@))
                == Some(Err::<Seq<(Seq<char>, AttributeView)>, EntryErrorView>(e@)),
        },
{
    let rules = schema.entry_attribute_sources();
    let ghost lv = lines_view(lines@);
    let mut out: Vec<(String, AttributeValue)> = Vec::new();
    let mut i: usize = 0;
    proof {
        assert(rules@.take(0) =~= Seq::<(String, AttributeRule)>::empty());
        assert(attributes_view(out@) =~= Seq::<(Seq<char>, AttributeView)>::empty());
    }
    while i < rules.len()
        invariant
            rules@ == schema.attributes(),
            lv == lines_view(lines@),
            i <= rules@.len(),
            attributes_outcome(rules@.take(i as int), path@, lv) == Some(
                Ok::<Seq<(Seq<char>, AttributeView)>, EntryErrorView>(attributes_view(out@)),
            ),
        decreases rules@.len() - i,
    {
        let (name, rule) = &rules[i];
        proof {
            assert(rules@.take(i + 1).drop_last() =~= rules@.take(i as int));
            assert(rules@.take(i + 1).last() == rules@[i as int]);
        }
        match attribute_of(rule, path, lines) {
            None => {
                proof {
                    lemma_attributes_stop(rules@, i + 1, path@, lv);
                }
                return None;
            },
            Some(Err(e)) => {
                proof {
                    lemma_attributes_stop(rules@, i + 1, path@, lv);
                }
                return Some(Err(e));
            },
            Some(Ok(v)) => {
                let key = name.clone();
                let ghost before = out@;
                out.push((key, v));
                proof {
                    assert(attributes_view(out@) =~= attributes_view(before).push((name@, v@)));
                }
            },
        }
        i = i + 1;
    }
    proof {
        assert(rules@.take(i as int) =~= rules@);
    }
    Some(Ok(out))
}

/// Builds the entry of the source at `path` with contents `text`, after
/// `n_entries` entries; `None` where that is undefined.
pub fn build_entry(
    path: &str,
    text: &str,
    schema: &EntrySchema,
    n_entries: usize,
    res: &Resources,
) -> (r: Option<Result<Entry<GregorianProleptic>, EntryError>>)
    ensures
        entry_result_view(r) == entry_outcome(*schema, path@, text@, n_entries as nat, *res),
{
    let lines = split_lines(text);
    let ghost lv = lines_view(lines@);
    assert(lv == text_lines(text@));
    let id: u64 = match schema.entry_id_source() {
        SourceRule::Default => n_entries as u64,
        rule => match source_text_of(rule, path, &lines, EntryField::Id) {
            Err(e) => {
                return Some(Err(e));
            },
            Ok(s) => match parse_u64(s.as_str()) {
                Ok(v) => v,
                Err(e) => {
                    return Some(Err(EntryError::IdParse(e)));
                },
            },
        },
    };
    let time: TimeInterval<GregorianProleptic> = match schema.entry_time_source() {
        SourceRule::Default => TimeInterval::unknown(),
        rule => match source_text_of(rule, path, &lines, EntryField::Time) {
            Err(e) => {
                return Some(Err(e));
            },
            Ok(s) => match TimeInterval::try_parse_format(
                s.as_str(),
                res.calendar_parse_fmt,
                &res.calendar_regex,
                &res.calendar_regex_map,
            ) {
                None => {
                    return None;
                },
                Some(Err(e)) => {
                    return Some(Err(EntryError::TimeParse(e)));
                },
                Some(Ok(t)) => t,
            },
        },
    };
    let source_ref: String = match schema.entry_ref_source() {
        None => String::new(),
        Some(rule) => match source_text_of(rule, path, &lines, EntryField::SourceRef) {
            Err(e) => {
                return Some(Err(e));
            },
            Ok(s) => s,
        },
    };
    let attributes = match attributes_of(schema, path, &lines) {
        None => {
            return None;
        },
        Some(Err(e)) => {
            return Some(Err(e));
        },
        Some(Ok(a)) => a,
    };
    Some(
        Ok(
            Entry {
                id,
                time,
                source_path: DataSource(path.to_owned()),
                source_ref,
                attributes,
            },
        ),
    )
}

/// Builds the entry of the source at `path` with contents `text` and
/// appends it to `entries`; on failure `entries` is left as it was.
pub fn process_entries(
    path: &str,
    text: &str,
    schema: &EntrySchema,
    entries: &mut Vec<Entry<GregorianProleptic>>,
    res: &Resources,
) -> (r: Result<(), EntryError>)
    requires
        entry_outcome(*schema, path@, text@, old(entries)@.len(), *res) is Some,
    ensures
        match entry_outcome(*schema, path@, text@, old(entries)@.len(), *res) {
            Some(Ok(e)) => {
                &&& r == Ok::<(), EntryError>(())
                &&& final(entries)@.len() == old(entries)@.len() + 1
                &&& final(entries)@.drop_last() == old(entries)@
                &&& final(entries)@.last()@ == e
            },
            Some(Err(k)) => {
                &&& r matches Err(x) && x@ == k
                &&& final(entries)@ == old(entries)@
            },
            None => false,
        },
{
    match build_entry(path, text, schema, entries.len(), res).unwrap() {
        Ok(e) => {
            entries.push(e);
            proof {
                assert(entries@.drop_last() =~= old(entries)@);
            }
            Ok(())
        },
        Err(e) => Err(e),
    }
}

/// As `process_entries` where building the entry is defined; `None`, with
/// `entries` unchanged, where it is not.
pub fn try_process_entries(
    path: &str,
    text: &str,
    schema: &EntrySchema,
    entries: &mut Vec<Entry<GregorianProleptic>>,
    res: &Resources,
) -> (r: Option<Result<(), EntryError>>)
    ensures
        match entry_outcome(*schema, path@, text@, old(entries)@.len(), *res) {
            Some(Ok(e)) => {
                &&& r == Some(Ok::<(), EntryError>(()))
                &&& final(entries)@.len() == old(entries)@.len() + 1
                &&& final(entries)@.drop_last() == old(entries)@
                &&& final(entries)@.last()@ == e
            },
            Some(Err(k)) => {
                &&& r matches Some(Err(x)) && x@ == k
                &&& final(entries)@ == old(entries)@
            },
            None => r is None && final(entries)@ == old(entries)@,
        },
{
    match build_entry(path, text, schema, entries.len(), res) {
        None => None,
        Some(_) => Some(process_entries(path, text, schema, entries, res)),
    }
}

} // verus!
