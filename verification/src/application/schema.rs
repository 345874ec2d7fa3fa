//! The entry schema: where each field of an entry is found in an input
//! source, and the regular expression that finds it.
use vstd::prelude::*;
use crate::pattern::Pattern;
use crate::record::MatchFormat;
use crate::text::{
    lemma_text_lt_irreflexive, lemma_text_lt_transitive, lemma_text_trichotomy, text_less, text_lt,
};

verus! {

/// Where an entry field is found in an input source.
#[derive(Debug)]
pub enum SourceRule {
    /// The field takes its default.
    Default,
    /// A capture group of `pattern` matched against the source's path.
    Path {
        /// The regular expression.
        pattern: Pattern,
        /// The capture group.
        group: usize,
    },
    /// A capture group of `pattern` matched against a line of the source's
    /// contents.
    Content {
        /// The line, counted from zero.
        line: usize,
        /// The regular expression.
        pattern: Pattern,
        /// The capture group.
        group: usize,
    },
}

/// Where an entry attribute is found in an input source, and its format.
#[derive(Debug)]
pub enum AttributeRule {
    /// A capture group of `pattern` matched against the source's path.
    Path {
        /// The regular expression.
        pattern: Pattern,
        /// The capture group.
        group: usize,
        /// The attribute's format.
        format: MatchFormat,
    },
    /// A capture group of `pattern` matched against a line of the source's
    /// contents.
    Content {
        /// The line, counted from zero.
        line: usize,
        /// The regular expression.
        pattern: Pattern,
        /// The capture group.
        group: usize,
        /// The attribute's format.
        format: MatchFormat,
    },
}

/// The rules that build an entry from an input source. The attribute rules
/// are kept by name, each name once, in ascending order of name.
#[derive(Debug)]
pub struct EntrySchema {
    /// Where the entry identifier is found.
    entry_id_source: SourceRule,
    /// Where the start of the entry's time interval is found.
    entry_time_source: SourceRule,
    /// Where the entry's source reference is found, if anywhere.
    entry_ref_source: Option<SourceRule>,
    /// The attribute rules, by name.
    entry_attribute_sources: Vec<(String, AttributeRule)>,
}

impl EntrySchema {
    /// Where the entry identifier is found.
    pub closed spec fn id_rule(&self) -> SourceRule {
        self.entry_id_source
    }

    /// Where the start of the entry's time interval is found.
    pub closed spec fn time_rule(&self) -> SourceRule {
        self.entry_time_source
    }

    /// Where the entry's source reference is found, if anywhere.
    pub closed spec fn ref_rule(&self) -> Option<SourceRule> {
        self.entry_ref_source
    }

    /// The attribute rules with their names, in the order they are applied.
    pub closed spec fn attributes(&self) -> Seq<(String, AttributeRule)> {
        self.entry_attribute_sources@
    }

    /// Whether an attribute rule has the name `name`.
    pub open spec fn has_attribute(&self, name: Seq<char>) -> bool {
        exists|i: int| 0 <= i < self.attributes().len() && (#[trigger] self.attributes()[i]).0@ == name
    }

    /// The attribute names ascend strictly, so that each occurs once.
    pub open spec fn wf(&self) -> bool {
        forall|i: int, j: int|
            0 <= i < j < self.attributes().len() ==> text_lt(
                (#[trigger] self.attributes()[i]).0@,
                (#[trigger] self.attributes()[j]).0@,
            )
    }

    /// A schema with the given field rules and no attribute rules.
    pub fn new(
        entry_id_source: SourceRule,
        entry_time_source: SourceRule,
        entry_ref_source: Option<SourceRule>,
    ) -> (r: Self)
        ensures
            r.id_rule() == entry_id_source,
            r.time_rule() == entry_time_source,
            r.ref_rule() == entry_ref_source,
            r.attributes().len() == 0,
            r.wf(),
    {
        EntrySchema {
            entry_id_source,
            entry_time_source,
            entry_ref_source,
            entry_attribute_sources: Vec::new(),
        }
    }

    /// Where the entry identifier is found.
    pub fn entry_id_source(&self) -> (r: &SourceRule)
        ensures
            *r == self.id_rule(),
    {
        &self.entry_id_source
    }

    /// Where the start of the entry's time interval is found.
    pub fn entry_time_source(&self) -> (r: &SourceRule)
        ensures
            *r == self.time_rule(),
    {
        &self.entry_time_source
    }

    /// Where the entry's source reference is found, if anywhere.
    pub fn entry_ref_source(&self) -> (r: &Option<SourceRule>)
        ensures
            *r == self.ref_rule(),
    {
        &self.entry_ref_source
    }

    /// The attribute rules with their names, in ascending order of name.
    pub fn entry_attribute_sources(&self) -> (r: &Vec<(String, AttributeRule)>)
        ensures
            r@ == self.attributes(),
    {
        &self.entry_attribute_sources
    }

    /// Sets the rule of attribute `name`, replacing a rule of that name, and
    /// returns the rule's position in the ascending order of names.
    pub fn insert_attribute(&mut self, name: String, rule: AttributeRule) -> (idx: usize)
        requires
            old(self).wf(),
        ensures
            final(self).wf(),
            final(self).id_rule() == old(self).id_rule(),
            final(self).time_rule() == old(self).time_rule(),
            final(self).ref_rule() == old(self).ref_rule(),
            idx < final(self).attributes().len(),
            final(self).attributes()[idx as int].0@ == name@,
            final(self).attributes()[idx as int].1 == rule,
            old(self).has_attribute(name@) ==> final(self).attributes().len() == old(
                self,
            ).attributes().len() && final(self).attributes().remove(idx as int) == old(
                self,
            ).attributes().remove(idx as int),
            !old(self).has_attribute(name@) ==> final(self).attributes().remove(idx as int)
                == old(self).attributes(),
    {
        let n = self.entry_attribute_sources.len();
        let ghost old_attrs = self.entry_attribute_sources@;
        let mut i: usize = 0;
        while i < n && text_less(self.entry_attribute_sources[i].0.as_str(), name.as_str())
            invariant
                n == self.entry_attribute_sources@.len(),
                self.entry_attribute_sources@ == old_attrs,
                i <= n,
                forall|j: int| 0 <= j < i ==> text_lt((#[trigger] old_attrs[j]).0@, name@),
            decreases n - i,
        {
            i = i + 1;
        }
        let replace = i < n && !text_less(name.as_str(), self.entry_attribute_sources[i].0.as_str());
        proof {
            assert(old_attrs == old(self).attributes());
            lemma_text_lt_irreflexive(name@, 0);
            if i < n {
                lemma_text_trichotomy(old_attrs[i as int].0@, name@);
            }
            if replace {
                assert(old(self).attributes()[i as int].0@ == name@);
                assert(old(self).has_attribute(name@));
            } else {
                assert forall|k: int| 0 <= k < n implies (#[trigger] old_attrs[k]).0@ != name@ by {
                    if k >= i {
                        if k > i {
                            assert(text_lt(
                                old(self).attributes()[i as int].0@,
                                old(self).attributes()[k].0@,
                            ));
                            if old_attrs[k].0@ == name@ {
                                lemma_text_lt_transitive(name@, old_attrs[i as int].0@, name@, 0);
                            }
                        }
                    }
                }
            }
        }
        if replace {
            self.entry_attribute_sources.set(i, (name, rule));
            proof {
                assert(self.entry_attribute_sources@.remove(i as int) =~= old_attrs.remove(
                    i as int,
                ));
                assert forall|a: int, b: int|
                    0 <= a < b < self.attributes().len() implies text_lt(
                    (#[trigger] self.attributes()[a]).0@,
                    (#[trigger] self.attributes()[b]).0@,
                ) by {
                    assert(text_lt(old(self).attributes()[a].0@, old(self).attributes()[b].0@));
                }
            }
        } else {
            self.entry_attribute_sources.insert(i, (name, rule));
            proof {
                let s = self.entry_attribute_sources@;
                assert(s.remove(i as int) =~= old_attrs);
                assert forall|a: int, b: int| 0 <= a < b < s.len() implies text_lt(
                    (#[trigger] s[a]).0@,
                    (#[trigger] s[b]).0@,
                ) by {
                    if b < i {
                        assert(text_lt(old(self).attributes()[a].0@, old(self).attributes()[b].0@));
                    } else if b == i {
                        assert(s[a] == old_attrs[a]);
                    } else if a == i {
                        assert(s[b] == old_attrs[b - 1]);
                        if b - 1 > i {
                            assert(text_lt(
                                old(self).attributes()[i as int].0@,
                                old(self).attributes()[b - 1].0@,
                            ));
                            lemma_text_lt_transitive(
                                name@,
                                old_attrs[i as int].0@,
                                old_attrs[b - 1].0@,
                                0,
                            );
                        }
                    } else if a < i {
                        assert(s[a] == old_attrs[a]);
                        assert(s[b] == old_attrs[b - 1]);
                        assert(text_lt(
                            old(self).attributes()[a].0@,
                            old(self).attributes()[b - 1].0@,
                        ));
                    } else {
                        assert(s[a] == old_attrs[a - 1]);
                        assert(s[b] == old_attrs[b - 1]);
                        assert(text_lt(
                            old(self).attributes()[a - 1].0@,
                            old(self).attributes()[b - 1].0@,
                        ));
                    }
                }
            }
        }
        i
    }
}

} // verus!
