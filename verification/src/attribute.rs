//! Comparing record attributes.
use vstd::prelude::*;
use std::cmp::Ordering;
use crate::record::{AttributeValue, AttributeView};
use crate::text::{
    lemma_text_lt_irreflexive, lemma_text_lt_transitive, lemma_text_trichotomy, text_less, text_lt,
};

verus! {

/// The order of two attributes of the same kind (integers by value, texts
/// as `str` orders them); `None` for attributes of different kinds.
pub open spec fn attribute_order(a: AttributeView, b: AttributeView) -> Option<Ordering> {
    match (a, b) {
        (AttributeView::U64(x), AttributeView::U64(y)) => Some(
            if x < y {
                Ordering::Less
            } else if x == y {
                Ordering::Equal
            } else {
                Ordering::Greater
            },
        ),
        (AttributeView::Text(x), AttributeView::Text(y)) => Some(
            if text_lt(x, y) {
                Ordering::Less
            } else if x == y {
                Ordering::Equal
            } else {
                Ordering::Greater
            },
        ),
        _ => None,
    }
}

/// An ordering with its operands swapped.
pub open spec fn reversed(o: Option<Ordering>) -> Option<Ordering> {
    match o {
        Some(Ordering::Less) => Some(Ordering::Greater),
        Some(Ordering::Greater) => Some(Ordering::Less),
        other => other,
    }
}

/// Swapping two attributes reverses their order; an attribute is equal to
/// itself.
pub proof fn lemma_attribute_order_reverse(a: AttributeView, b: AttributeView)
    ensures
        attribute_order(b, a) == reversed(attribute_order(a, b)),
        attribute_order(a, a) matches Some(Ordering::Equal),
{
    if let (AttributeView::Text(x), AttributeView::Text(y)) = (a, b) {
        lemma_text_trichotomy(x, y);
        lemma_text_lt_irreflexive(x, 0);
        if text_lt(x, y) && text_lt(y, x) {
            lemma_text_lt_transitive(x, y, x, 0);
        }
    }
    if let AttributeView::Text(x) = a {
        lemma_text_lt_irreflexive(x, 0);
    }
}

/// Text attributes are ordered as `str` orders them: `Less` exactly when the
/// first sorts before the second, `Equal` exactly when they are the same
/// text, `Greater` exactly when the second sorts before the first.
pub proof fn lemma_text_attribute_order(x: Seq<char>, y: Seq<char>)
    ensures
        (attribute_order(AttributeView::Text(x), AttributeView::Text(y)) == Some(Ordering::Less))
            <==> text_lt(x, y),
        (attribute_order(AttributeView::Text(x), AttributeView::Text(y)) == Some(Ordering::Equal))
            <==> (x == y),
        (attribute_order(AttributeView::Text(x), AttributeView::Text(y)) == Some(
            Ordering::Greater,
        )) <==> text_lt(y, x),
{
    lemma_text_trichotomy(x, y);
    lemma_text_lt_irreflexive(x, 0);
    if text_lt(x, y) && text_lt(y, x) {
        lemma_text_lt_transitive(x, y, x, 0);
    }
}

/// Integer attributes are ordered by value.
pub proof fn lemma_integer_attribute_order(x: u64, y: u64)
    ensures
        (attribute_order(AttributeView::U64(x), AttributeView::U64(y)) == Some(Ordering::Less))
            <==> (x < y),
        (attribute_order(AttributeView::U64(x), AttributeView::U64(y)) == Some(Ordering::Equal))
            <==> (x == y),
        (attribute_order(AttributeView::U64(x), AttributeView::U64(y)) == Some(
            Ordering::Greater,
        )) <==> (x > y),
{
}

impl AttributeValue {
    /// Compares this attribute with another of the same kind; `None` when
    /// the two are of different kinds.
    pub fn dyn_partial_cmp(&self, other: &AttributeValue) -> (r: Option<Ordering>)
        ensures
            r == attribute_order(self@, other@),
    {
        match (self, other) {
            (AttributeValue::U64(x), AttributeValue::U64(y)) => {
                if *x < *y {
                    Some(Ordering::Less)
                } else if *x == *y {
                    Some(Ordering::Equal)
                } else {
                    Some(Ordering::Greater)
                }
            },
            (AttributeValue::Text(x), AttributeValue::Text(y)) => {
                proof {
                    lemma_text_trichotomy(x@, y@);
                }
                if text_less(x.as_str(), y.as_str()) {
                    Some(Ordering::Less)
                } else if text_less(y.as_str(), x.as_str()) {
                    Some(Ordering::Greater)
                } else {
                    Some(Ordering::Equal)
                }
            },
            _ => None,
        }
    }
}

} // verus!
