//! Event record entries.
use vstd::prelude::*;
use crate::interval::{EntryId, TimeInterval};
use crate::numeric::{parse_int_spec, parse_u64, IntErrorKind, ParseIntError};

verus! {

/// A parsed record attribute value.
#[derive(Debug, Clone, PartialEq, Eq)]
pub enum AttributeValue {
    /// An unsigned integer.
    U64(u64),
    /// Text.
    Text(String),
}

/// An attribute value as a value of the spec.
pub enum AttributeView {
    /// An unsigned integer.
    U64(u64),
    /// Text.
    Text(Seq<char>),
}

impl View for AttributeValue {
    type V = AttributeView;

    open spec fn view(&self) -> AttributeView {
        match self {
            AttributeValue::U64(v) => AttributeView::U64(*v),
            AttributeValue::Text(s) => AttributeView::Text(s@),
        }
    }
}

/// The file source of an entry.
#[derive(Debug, Clone, PartialEq, Eq)]
pub struct DataSource(pub String);

/// An indivisible record entry.
#[derive(Debug)]
pub struct Entry<C> {
    /// The entry's unique identifier.
    pub id: EntryId,
    /// The time interval over which the entry is valid.
    pub time: TimeInterval<C>,
    /// The file source of the entry.
    pub source_path: DataSource,
    /// The reference source of the entry.
    pub source_ref: String,
    /// The entry contents, by attribute name.
    pub attributes: Vec<(String, AttributeValue)>,
}

/// The attributes of an entry, as values.
pub open spec fn attributes_view(a: Seq<(String, AttributeValue)>) -> Seq<(Seq<char>, AttributeView)> {
    a.map_values(|p: (String, AttributeValue)| (p.0@, p.1@))
}

/// An entry as a value.
pub struct EntryView<C> {
    /// The entry's unique identifier.
    pub id: EntryId,
    /// The time interval over which the entry is valid.
    pub time: TimeInterval<C>,
    /// The file source of the entry.
    pub source_path: Seq<char>,
    /// The reference source of the entry.
    pub source_ref: Seq<char>,
    /// The entry contents, by attribute name.
    pub attributes: Seq<(Seq<char>, AttributeView)>,
}

impl<C> View for Entry<C> {
    type V = EntryView<C>;

    open spec fn view(&self) -> EntryView<C> {
        EntryView {
            id: self.id,
            time: self.time,
            source_path: self.source_path.0@,
            source_ref: self.source_ref@,
            attributes: attributes_view(self.attributes@),
        }
    }
}

/// The contents of one table cell of an entry.
#[derive(Debug)]
pub enum EntryCell<'a> {
    /// A number.
    Integer(u64),
    /// A piece of text.
    Text(&'a str),
    /// An attribute value.
    Attribute(&'a AttributeValue),
}

impl<C> Entry<C> {
    /// The table cell in column `col_idx`: the identifier, the number `1000`
    /// standing in for the time, the source path, the source reference, then
    /// the attribute values in order; `None` past the last attribute.
    pub fn cell(&self, col_idx: usize) -> (r: Option<EntryCell<'_>>)
        ensures
            col_idx == 0 ==> r == Some(EntryCell::Integer(self.id)),
            col_idx == 1 ==> r == Some(EntryCell::Integer(1000)),
            col_idx == 2 ==> (r matches Some(EntryCell::Text(t)) && t@ == self.source_path.0@),
            col_idx == 3 ==> (r matches Some(EntryCell::Text(t)) && t@ == self.source_ref@),
            col_idx >= 4 && col_idx - 4 < self.attributes@.len() ==> r == Some(
                EntryCell::Attribute(&self.attributes@[col_idx - 4].1),
            ),
            col_idx >= 4 && col_idx - 4 >= self.attributes@.len() ==> r is None,
    {
        if col_idx == 0 {
            Some(EntryCell::Integer(self.id))
        } else if col_idx == 1 {
            Some(EntryCell::Integer(1000))
        } else if col_idx == 2 {
            Some(EntryCell::Text(self.source_path.0.as_str()))
        } else if col_idx == 3 {
            Some(EntryCell::Text(self.source_ref.as_str()))
        } else if col_idx - 4 < self.attributes.len() {
            Some(EntryCell::Attribute(&self.attributes[col_idx - 4].1))
        } else {
            None
        }
    }

    /// The number of table columns of the entry: the identifier, the time,
    /// the source path and the source reference, then one per attribute.
    pub fn len(&self) -> (r: usize)
        requires
            self.attributes.len() + 4 <= usize::MAX,
        ensures
            r == self.attributes.len() + 4,
    {
        4 + self.attributes.len()
    }
}

/// Where an entry field is found in an input source.
#[derive(Debug, Clone, Copy, PartialEq, Eq, Structural)]
pub enum MatchSource {
    /// The field takes its default.
    Default,
    /// A capture group of the source's path.
    Path {
        /// The capture group.
        group: usize,
    },
    /// A capture group of a line of the source's contents.
    Content {
        /// The line.
        line: usize,
        /// The capture group.
        group: usize,
    },
}

impl Default for MatchSource {
    fn default() -> (r: Self)
        ensures
            r == MatchSource::Default,
    {
        MatchSource::Default
    }
}

/// The text format of an entry attribute.
#[derive(Debug, Clone, Copy, PartialEq, Eq, Structural)]
pub enum MatchFormat {
    /// An unsigned integer.
    U64,
    /// A time.
    Time,
    /// Text.
    Text,
}

/// Where an entry attribute is found in an input source, and its format.
#[derive(Debug, Clone, Copy, PartialEq, Eq, Structural)]
pub enum MatchSourceAttribute {
    /// A capture group of the source's path.
    Path {
        /// The capture group.
        group: usize,
        /// The attribute's format.
        format: MatchFormat,
    },
    /// A capture group of a line of the source's contents.
    Content {
        /// The line.
        line: usize,
        /// The capture group.
        group: usize,
        /// The attribute's format.
        format: MatchFormat,
    },
}

/// An attribute parse result as a value.
pub open spec fn attribute_result_view(r: Result<AttributeValue, ParseIntError>) -> Result<
    AttributeView,
    IntErrorKind,
> {
    match r {
        Ok(v) => Ok(v@),
        Err(e) => Err(e.kind),
    }
}

impl MatchFormat {
    /// The attribute parsed from `s` in this format: an integer as
    /// `str::parse::<u64>`, or the text itself.
    pub open spec fn parse_spec(self, s: Seq<char>) -> Result<AttributeView, IntErrorKind> {
        match self {
            MatchFormat::U64 => match parse_int_spec(s, 0, u64::MAX as int) {
                Ok(v) => Ok(AttributeView::U64(v as u64)),
                Err(e) => Err(e),
            },
            _ => Ok(AttributeView::Text(s)),
        }
    }

    /// Parses an attribute value from text in this format. Times are not
    /// supported.
    pub fn parse_dyn(self, s: &str) -> (r: Result<AttributeValue, ParseIntError>)
        requires
            self != MatchFormat::Time,
        ensures
            attribute_result_view(r) == self.parse_spec(s@),
    {
        match self {
            MatchFormat::U64 => match parse_u64(s) {
                Ok(v) => Ok(AttributeValue::U64(v)),
                Err(e) => Err(e),
            },
            _ => Ok(AttributeValue::Text(s.to_owned())),
        }
    }
}

} // verus!
