//! The closed set of optional target features, its encoding as a
//! `target-feature` flag value, and its reading from a list of identifiers.

use crate::syntax::{FeatureExpr, FeatureExprView};
use crate::text::same_text;
use vstd::prelude::*;

verus! {

/// The optional WebAssembly proposals a module can be compiled with.
#[derive(Clone, Copy, Debug, PartialEq, Eq, Structural)]
pub struct TargetFeatures {
    pub atomics: bool,
    pub bulk_memory: bool,
    pub mutable_globals: bool,
}

/// Why a feature list was refused.
#[derive(Clone, Copy, Debug, PartialEq, Eq, Structural)]
pub enum FeatureErrorKind {
    /// The element is not a bare identifier.
    NotAName,
    /// The element is an identifier that names no feature.
    Unknown,
}

/// The first offending element of a feature list.
#[derive(Clone, Copy, Debug, PartialEq, Eq, Structural)]
pub struct FeatureError {
    /// Position of the element in the list.
    pub index: usize,
    pub kind: FeatureErrorKind,
}

impl FeatureErrorKind {
    /// The text of the diagnostic.
    pub open spec fn text(self) -> Seq<char> {
        match self {
            FeatureErrorKind::NotAName => "expected a single token giving a feature"@,
            FeatureErrorKind::Unknown => "unknown feature"@,
        }
    }

    /// The diagnostic shown at the offending element.
    pub fn message(&self) -> (msg: String)
        ensures
            msg@ == self.text(),
    {
        match self {
            FeatureErrorKind::NotAName => "expected a single token giving a feature".to_owned(),
            FeatureErrorKind::Unknown => "unknown feature".to_owned(),
        }
    }
}

/// Whether `name` is the identifier of one of the three features.
pub open spec fn is_feature_name(name: Seq<char>) -> bool {
    name == "atomics"@ || name == "bulk_memory"@ || name == "mutable_globals"@
}

/// Whether an element is the bare identifier of a feature.
pub open spec fn names_feature(e: FeatureExprView) -> bool {
    e.bare_ident() matches Some(name) && is_feature_name(name)
}

/// Whether the identifier `name` is an element of the list.
pub open spec fn listed(elems: Seq<FeatureExprView>, name: Seq<char>) -> bool {
    exists|i: int| 0 <= i < elems.len() && (#[trigger] elems[i]).bare_ident() == Some(name)
}

/// Position of the first element that is not the bare identifier of a
/// feature.
pub open spec fn first_refused(elems: Seq<FeatureExprView>) -> Option<int>
    decreases elems.len(),
{
    if elems.len() == 0 {
        None
    } else {
        match first_refused(elems.drop_last()) {
            Some(i) => Some(i),
            None => if names_feature(elems.last()) {
                None
            } else {
                Some(elems.len() - 1)
            },
        }
    }
}

/// `first_refused` finds the least position whose element names no feature,
/// and finds none exactly if every element names one.
pub proof fn lemma_first_refused(elems: Seq<FeatureExprView>)
    ensures
        first_refused(elems) matches Some(i) ==> 0 <= i < elems.len() && !names_feature(elems[i])
            && forall|j: int| 0 <= j < i ==> names_feature(#[trigger] elems[j]),
        first_refused(elems) is None ==> forall|j: int|
            0 <= j < elems.len() ==> names_feature(#[trigger] elems[j]),
    decreases elems.len(),
{
    if elems.len() > 0 {
        let front = elems.drop_last();
        lemma_first_refused(front);
        assert forall|j: int| 0 <= j < front.len() implies front[j] == elems[j] by {}
    }
}

proof fn feature_names_differ()
    ensures
        "atomics"@ != "bulk_memory"@,
        "atomics"@ != "mutable_globals"@,
        "bulk_memory"@ != "mutable_globals"@,
{
    reveal_strlit("atomics");
    reveal_strlit("bulk_memory");
    reveal_strlit("mutable_globals");
    assert("atomics"@.len() == 7);
    assert("bulk_memory"@.len() == 11);
}

impl TargetFeatures {
    /// The flag value: one `+name,` token per enabled feature, in the order
    /// atomics, bulk-memory, mutable-globals.
    pub open spec fn flags(self) -> Seq<char> {
        (if self.atomics {
            "+atomics,"@
        } else {
            Seq::<char>::empty()
        }) + (if self.bulk_memory {
            "+bulk-memory,"@
        } else {
            Seq::<char>::empty()
        }) + (if self.mutable_globals {
            "+mutable-globals,"@
        } else {
            Seq::<char>::empty()
        })
    }

    /// What a feature list reads as: the first element that is not the bare
    /// identifier of a feature is an error; without one, a feature is enabled
    /// exactly if the list holds its identifier.
    pub open spec fn read(elems: Seq<FeatureExprView>) -> Result<TargetFeatures, FeatureError> {
        match first_refused(elems) {
            Some(i) => Err(
                FeatureError {
                    index: i as usize,
                    kind: if elems[i].bare_ident() is None {
                        FeatureErrorKind::NotAName
                    } else {
                        FeatureErrorKind::Unknown
                    },
                },
            ),
            None => Ok(
                TargetFeatures {
                    atomics: listed(elems, "atomics"@),
                    bulk_memory: listed(elems, "bulk_memory"@),
                    mutable_globals: listed(elems, "mutable_globals"@),
                },
            ),
        }
    }

    /// No feature enabled.
    pub fn none() -> (res: TargetFeatures)
        ensures
            res == (TargetFeatures { atomics: false, bulk_memory: false, mutable_globals: false }),
    {
        TargetFeatures { atomics: false, bulk_memory: false, mutable_globals: false }
    }

    /// Encodes the set for the compiler's `target-feature` option.
    pub fn to_string(&self) -> (s: String)
        ensures
            s@ == self.flags(),
    {
        let mut s = String::new();
        if self.atomics {
            s.append("+atomics,");
        }
        if self.bulk_memory {
            s.append("+bulk-memory,");
        }
        if self.mutable_globals {
            s.append("+mutable-globals,");
        }
        s
    }

    /// Reads a feature list. Every element must be one of the identifiers
    /// `atomics`, `bulk_memory`, `mutable_globals`; the first element that is
    /// not is reported. A feature is enabled exactly if the list names it.
    pub fn from_list_of_exprs(elems: &Vec<FeatureExpr>) -> (res: Result<
        TargetFeatures,
        FeatureError,
    >)
        ensures
            res == TargetFeatures::read(elems.deep_view()),
    {
        let mut set = TargetFeatures::none();
        let ghost view = elems.deep_view();
        let mut index: usize = 0;
        while index < elems.len()
            invariant
                index <= elems.len(),
                view == elems.deep_view(),
                first_refused(view.take(index as int)) is None,
                set.atomics == listed(view.take(index as int), "atomics"@),
                set.bulk_memory == listed(view.take(index as int), "bulk_memory"@),
                set.mutable_globals == listed(view.take(index as int), "mutable_globals"@),
            decreases elems.len() - index,
        {
            let ghost seen = view.take(index as int);
            let ghost next = view.take(index + 1);
            let ghost cur = view[index as int];
            proof {
                feature_names_differ();
                assert(next.drop_last() =~= seen);
                assert(next.last() == cur);
                assert forall|name: Seq<char>|
                    listed(next, name) == (listed(seen, name) || cur.bare_ident() == Some(
                        name,
                    )) by {}
            }
            let refused = match elems[index].bare_ident() {
                Some(name) => {
                    if same_text(name, "atomics") {
                        set.atomics = true;
                        None
                    } else if same_text(name, "bulk_memory") {
                        set.bulk_memory = true;
                        None
                    } else if same_text(name, "mutable_globals") {
                        set.mutable_globals = true;
                        None
                    } else {
                        Some(FeatureErrorKind::Unknown)
                    }
                },
                None => Some(FeatureErrorKind::NotAName),
            };
            if let Some(kind) = refused {
                proof {
                    lemma_refused_stays(view, index as int);
                }
                return Err(FeatureError { index, kind });
            }
            index += 1;
        }
        proof {
            assert(view.take(index as int) =~= view);
        }
        Ok(set)
    }
}

/// The first refused element of a prefix is the first of the whole list.
proof fn lemma_refused_stays(elems: Seq<FeatureExprView>, at: int)
    requires
        0 <= at < elems.len(),
        first_refused(elems.take(at)) is None,
        !names_feature(elems[at]),
    ensures
        first_refused(elems) == Some(at),
{
    lemma_first_refused(elems);
    lemma_first_refused(elems.take(at));
    if let Some(i) = first_refused(elems) {
        if i < at {
            assert(elems.take(at)[i] == elems[i]);
        }
    }
}

impl Default for TargetFeatures {
    fn default() -> (res: TargetFeatures)
        ensures
            res == (TargetFeatures { atomics: false, bulk_memory: false, mutable_globals: false }),
    {
        TargetFeatures::none()
    }
}

} // verus!
