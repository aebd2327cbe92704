//! The mapping generator: from the ordered variant identifiers of one
//! declaration and its resolved case style to the forward table
//! (variant to label) and the inverse parser (label to variant).
//!
//! A variant is represented by its index in declaration order. The inverse
//! parser matches by exact string equality only and, should two variants
//! carry the same label, the earliest-declared one wins: the fixed
//! first-match policy.

use vstd::prelude::*;

use crate::case::CaseStyle;
use crate::case::spec_label;
use crate::config::ArgToken;
use crate::config::ConfigError;
use crate::config::parse_options;
use crate::config::spec_parse_options;

verus! {

/// The index of the first label equal to `s` at or after position `i`,
/// if any.
pub open spec fn spec_find_from(labels: Seq<Seq<char>>, s: Seq<char>, i: int) -> Option<int>
    decreases labels.len() - i,
{
    if i < 0 || i >= labels.len() {
        None
    } else if labels[i] == s {
        Some(i)
    } else {
        spec_find_from(labels, s, i + 1)
    }
}

/// The variant that the inverse parser yields for an input string: the
/// index of the first label equal to it, or none.
pub open spec fn spec_find(labels: Seq<Seq<char>>, s: Seq<char>) -> Option<int> {
    spec_find_from(labels, s, 0)
}

/// What `spec_find_from` yields, spelled out: the found index carries a
/// label equal to `s` and every earlier position from `i` on does not;
/// nothing is found exactly when no label from `i` on equals `s`.
pub proof fn lemma_find_from_props(labels: Seq<Seq<char>>, s: Seq<char>, i: int)
    requires
        0 <= i <= labels.len(),
    ensures
        match spec_find_from(labels, s, i) {
            Some(k) => i <= k < labels.len() && labels[k] == s && (forall|j: int|
                i <= j < k ==> labels[j] != s),
            None => forall|j: int| i <= j < labels.len() ==> labels[j] != s,
        },
    decreases labels.len() - i,
{
    if i < labels.len() && labels[i] != s {
        lemma_find_from_props(labels, s, i + 1);
    }
}

/// The generated mapping of one declaration: each variant's identifier in
/// declaration order, and the label derived from it under the one active
/// case style.
pub struct Mapping {
    pub style: CaseStyle,
    pub variants: Vec<String>,
    pub labels: Vec<String>,
}

impl Mapping {
    /// The variant identifiers, as character sequences, in declaration
    /// order.
    pub open spec fn spec_variants(self) -> Seq<Seq<char>> {
        self.variants@.map_values(|v: String| v@)
    }

    /// The labels, as character sequences, in declaration order.
    pub open spec fn spec_labels(self) -> Seq<Seq<char>> {
        self.labels@.map_values(|l: String| l@)
    }

    /// Well-formedness: one label per variant, each derived from its
    /// variant's identifier under the mapping's case style.
    pub open spec fn wf(self) -> bool {
        &&& self.labels@.len() == self.variants@.len()
        &&& forall|i: int|
            0 <= i < self.variants@.len() ==> self.spec_labels()[i] == spec_label(
                self.spec_variants()[i],
                self.style,
            )
    }

    /// No two variants carry the same label. A lossy case transform can
    /// break this; the generator does not enforce it, and only the
    /// round-trip law depends on it.
    pub open spec fn labels_distinct(self) -> bool {
        forall|i: int, j: int|
            0 <= i < j < self.spec_labels().len() ==> self.spec_labels()[i] != self.spec_labels()[j]
    }

    /// Build the mapping: derive every variant's label under the given
    /// style, in declaration order. Total; an empty declaration yields an
    /// empty, still well-formed mapping.
    pub fn new(variants: Vec<String>, style: CaseStyle) -> (m: Mapping)
        ensures
            m.wf(),
            m.style == style,
            m.variants == variants,
    {
        let mut labels: Vec<String> = Vec::new();
        let mut i: usize = 0;
        while i < variants.len()
            invariant
                i <= variants.len(),
                labels@.len() == i,
                forall|j: int|
                    0 <= j < i ==> labels@[j]@ == spec_label(variants@[j]@, style),
            decreases variants.len() - i,
        {
            let label = crate::case::convert(variants[i].as_str(), style);
            labels.push(label);
            i += 1;
        }
        Mapping { style, variants, labels }
    }

    /// The forward accessor: the label of the variant at index `v`.
    pub fn label_of(&self, v: usize) -> (r: &String)
        requires
            self.wf(),
            v < self.variants@.len(),
        ensures
            r@ == self.spec_labels()[v as int],
            r@ == spec_label(self.spec_variants()[v as int], self.style),
    {
        proof {
            assert(self.spec_labels()[v as int] == self.labels@[v as int]@);
            assert(self.spec_variants()[v as int] == self.variants@[v as int]@);
        }
        &self.labels[v]
    }

    /// The inverse parser: the earliest variant whose label equals `s`
    /// exactly, or `None` when `s` equals no label at all.
    pub fn parse(&self, s: &str) -> (r: Option<usize>)
        requires
            self.wf(),
        ensures
            match r {
                Some(v) => {
                    &&& spec_find(self.spec_labels(), s@) == Some(v as int)
                    &&& v < self.variants@.len()
                    &&& self.spec_labels()[v as int] == s@
                    &&& forall|j: int| 0 <= j < v ==> self.spec_labels()[j] != s@
                },
                None => {
                    &&& spec_find(self.spec_labels(), s@) is None
                    &&& forall|j: int|
                        0 <= j < self.spec_labels().len() ==> self.spec_labels()[j] != s@
                },
            },
    {
        let wanted: String = s.to_owned();
        let mut i: usize = 0;
        while i < self.labels.len()
            invariant
                self.wf(),
                i <= self.labels@.len(),
                wanted@ == s@,
                forall|j: int| 0 <= j < i ==> self.spec_labels()[j] != s@,
                spec_find(self.spec_labels(), s@) == spec_find_from(
                    self.spec_labels(),
                    s@,
                    i as int,
                ),
            decreases self.labels@.len() - i,
        {
            if self.labels[i] == wanted {
                assert(self.spec_labels()[i as int] == s@);
                return Some(i);
            }
            assert(self.spec_labels()[i as int] != s@);
            i += 1;
        }
        None
    }
}

/// Round-trip law: in a well-formed mapping with pairwise-distinct labels,
/// parsing the label derived for a variant yields that variant back.
pub proof fn lemma_round_trip(m: Mapping, v: int)
    requires
        m.wf(),
        m.labels_distinct(),
        0 <= v < m.spec_variants().len(),
    ensures
        spec_find(m.spec_labels(), spec_label(m.spec_variants()[v], m.style)) == Some(v),
{
    let labels = m.spec_labels();
    let s = spec_label(m.spec_variants()[v], m.style);
    assert(labels[v] == s);
    lemma_find_from_props(labels, s, 0);
    match spec_find(labels, s) {
        Some(k) => {
            if k < v {
                assert(labels[k] != labels[v]);
            } else if v < k {
                assert(labels[v] != s);
            }
        },
        None => {
            assert(labels[v] != s);
        },
    }
}

/// Identity-style law: under the identity style every label is the
/// variant's identifier, byte for byte.
pub proof fn lemma_identity_style(m: Mapping, v: int)
    requires
        m.wf(),
        m.style == CaseStyle::Identity,
        0 <= v < m.spec_variants().len(),
    ensures
        m.spec_labels()[v] == m.spec_variants()[v],
{
}

/// Unknown-input law: a string equal to no label of the mapping parses to
/// no variant. In particular every input to an empty mapping does.
pub proof fn lemma_unknown_input(m: Mapping, s: Seq<char>)
    requires
        forall|j: int| 0 <= j < m.spec_labels().len() ==> m.spec_labels()[j] != s,
    ensures
        spec_find(m.spec_labels(), s) is None,
{
    lemma_find_from_props(m.spec_labels(), s, 0);
}

/// Determinism of the inverse parser: two results of `spec_find` for the
/// same labels and input are one and the same.
pub proof fn lemma_find_deterministic(
    labels: Seq<Seq<char>>,
    s: Seq<char>,
    r1: Option<int>,
    r2: Option<int>,
)
    requires
        r1 == spec_find(labels, s),
        r2 == spec_find(labels, s),
    ensures
        r1 == r2,
{
}

/// The whole pipeline of one invocation: resolve the configuration from
/// the argument tokens, then derive the mapping over the declaration's
/// variant identifiers.
///
/// On a configuration diagnostic no mapping is produced at all; the
/// diagnostic is exactly the one the configuration parser resolves.
pub fn generate(args: &Vec<ArgToken>, variants: Vec<String>) -> (r: Result<Mapping, ConfigError>)
    ensures
        match r {
            Ok(m) => {
                &&& spec_parse_options(args@) == Ok::<CaseStyle, ConfigError>(m.style)
                &&& m.wf()
                &&& m.variants == variants
            },
            Err(e) => spec_parse_options(args@) == Err::<CaseStyle, ConfigError>(e),
        },
{
    match parse_options(args) {
        Ok(style) => Ok(Mapping::new(variants, style)),
        Err(e) => Err(e),
    }
}

} // verus!
