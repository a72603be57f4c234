//! Telling the one artifact among what a pattern matched, and the module's
//! own files among what its directory holds.

use crate::error::{BuildError, BuildErrorView};
use crate::views::result_view;
use vstd::prelude::*;

verus! {

/// One result of matching a pattern against the file system.
#[derive(Debug, PartialEq, Eq)]
pub enum GlobEntry {
    /// A path that matches; `is_file` tells whether it is a regular file.
    Found { path: String, is_file: bool },
    /// A path that could not be read while matching.
    Failed { reason: String },
}

/// [`GlobEntry`] as contracts speak of it, its text as sequences of characters.
pub enum GlobEntryView {
    Found { path: Seq<char>, is_file: bool },
    Failed { reason: Seq<char> },
}

impl View for GlobEntry {
    type V = GlobEntryView;

    open spec fn view(&self) -> GlobEntryView {
        match self {
            GlobEntry::Found { path, is_file } => GlobEntryView::Found {
                path: path@,
                is_file: *is_file,
            },
            GlobEntry::Failed { reason } => GlobEntryView::Failed { reason: reason@ },
        }
    }
}

impl DeepView for GlobEntry {
    type V = GlobEntryView;

    open spec fn deep_view(&self) -> GlobEntryView {
        self@
    }
}

/// Whether an entry is a regular file that matched.
pub open spec fn is_regular_file(e: GlobEntryView) -> bool {
    e matches GlobEntryView::Found { is_file, .. } && is_file
}

/// The paths of the regular files among the entries, in their order.
pub open spec fn regular_files(entries: Seq<GlobEntryView>) -> Seq<Seq<char>>
    decreases entries.len(),
{
    if entries.len() == 0 {
        Seq::empty()
    } else if is_regular_file(entries.last()) {
        regular_files(entries.drop_last()).push(entries.last()->path)
    } else {
        regular_files(entries.drop_last())
    }
}

/// The artifact among what the pattern matched. A failure on the first
/// entry is reported as such. Else there must be exactly one regular file:
/// none means that the compiler wrote nothing where it should have, several
/// that artifacts of an earlier build are still there.
pub open spec fn resolved(
    pattern: Seq<char>,
    output_root: Seq<char>,
    entries: Seq<GlobEntryView>,
) -> Result<Seq<char>, BuildErrorView> {
    if entries.len() > 0 && entries[0] is Failed {
        Err(BuildErrorView::ArtifactUnreadable { pattern, reason: entries[0]->reason })
    } else if regular_files(entries).len() == 0 {
        Err(BuildErrorView::NoArtifact { pattern })
    } else if regular_files(entries).len() == 1 {
        Ok(regular_files(entries)[0])
    } else {
        Err(BuildErrorView::MultipleArtifacts { pattern, output_root })
    }
}

/// Every path among the regular files comes from an entry that is one, and
/// every such entry's path is among them.
pub proof fn lemma_regular_files_are_entries(entries: Seq<GlobEntryView>)
    ensures
        forall|k: int|
            0 <= k < regular_files(entries).len() ==> exists|i: int|
                0 <= i < entries.len() && entries[i] == (GlobEntryView::Found {
                    path: #[trigger] regular_files(entries)[k],
                    is_file: true,
                }),
        forall|i: int|
            0 <= i < entries.len() && is_regular_file(#[trigger] entries[i]) ==> regular_files(
                entries,
            ).contains(entries[i]->path),
    decreases entries.len(),
{
    if entries.len() > 0 {
        let front = entries.drop_last();
        lemma_regular_files_are_entries(front);
        let files = regular_files(entries);
        let before = regular_files(front);
        assert forall|k: int| 0 <= k < files.len() implies exists|i: int|
            0 <= i < entries.len() && entries[i] == (GlobEntryView::Found {
                path: #[trigger] files[k],
                is_file: true,
            }) by {
            if k < before.len() {
                let i: int = choose|i: int|
                    0 <= i < front.len() && front[i] == (GlobEntryView::Found {
                        path: before[k],
                        is_file: true,
                    });
                assert(entries[i] == front[i]);
            } else {
                assert(entries[entries.len() - 1] == (GlobEntryView::Found {
                    path: files[k],
                    is_file: true,
                }));
            }
        }
        assert forall|i: int|
            0 <= i < entries.len() && is_regular_file(#[trigger] entries[i]) implies files.contains(
            entries[i]->path,
        ) by {
            if i < front.len() {
                let k: int = choose|k: int| 0 <= k < before.len() && before[k] == front[i]->path;
                assert(files[k] == before[k]);
            } else {
                assert(files[files.len() - 1] == entries[i]->path);
            }
        }
    }
}

/// Resolution goes by the number of regular files where nothing failed: one
/// file is the artifact, none and two are errors.
pub proof fn lemma_resolution_by_count(
    pattern: Seq<char>,
    output_root: Seq<char>,
    one: Seq<char>,
    other: Seq<char>,
)
    ensures
        resolved(pattern, output_root, Seq::empty()) == Err::<Seq<char>, BuildErrorView>(
            BuildErrorView::NoArtifact { pattern },
        ),
        resolved(pattern, output_root, seq![GlobEntryView::Found { path: one, is_file: true }])
            == Ok::<Seq<char>, BuildErrorView>(one),
        resolved(
            pattern,
            output_root,
            seq![
                GlobEntryView::Found { path: one, is_file: true },
                GlobEntryView::Found { path: other, is_file: true },
            ],
        ) == Err::<Seq<char>, BuildErrorView>(
            BuildErrorView::MultipleArtifacts { pattern, output_root },
        ),
{
    let single = seq![GlobEntryView::Found { path: one, is_file: true }];
    let double = seq![
        GlobEntryView::Found { path: one, is_file: true },
        GlobEntryView::Found { path: other, is_file: true },
    ];
    assert(single.drop_last() =~= Seq::empty());
    assert(double.drop_last() =~= single);
}

/// The regular files among what a pattern matched; entries that failed and
/// paths that are no regular files are passed over.
pub fn all_module_files(entries: &Vec<GlobEntry>) -> (files: Vec<String>)
    ensures
        files.deep_view() == regular_files(entries.deep_view()),
{
    let ghost all = entries.deep_view();
    let mut files: Vec<String> = Vec::new();
    let mut i: usize = 0;
    while i < entries.len()
        invariant
            i <= entries.len(),
            all == entries.deep_view(),
            files.deep_view() == regular_files(all.take(i as int)),
        decreases entries.len() - i,
    {
        proof {
            let next = all.take(i + 1);
            assert(next.drop_last() =~= all.take(i as int));
        }
        match &entries[i] {
            GlobEntry::Found { path, is_file } => {
                if *is_file {
                    files.push(path.clone());
                }
            },
            GlobEntry::Failed { .. } => {},
        }
        i += 1;
    }
    proof {
        assert(all.take(i as int) =~= all);
    }
    files
}

/// Picks the artifact out of what its pattern matched.
pub fn resolve_artifact(pattern: &str, output_root: &str, entries: &Vec<GlobEntry>) -> (res: Result<
    String,
    BuildError,
>)
    ensures
        result_view(res) == resolved(pattern@, output_root@, entries.deep_view()),
{
    if entries.len() > 0 {
        if let GlobEntry::Failed { reason } = &entries[0] {
            return Err(
                BuildError::ArtifactUnreadable {
                    pattern: pattern.to_owned(),
                    reason: reason.clone(),
                },
            );
        }
    }
    let mut files = all_module_files(entries);
    if files.len() == 0 {
        Err(BuildError::NoArtifact { pattern: pattern.to_owned() })
    } else if files.len() == 1 {
        let found = files.pop().unwrap();
        Ok(found)
    } else {
        Err(
            BuildError::MultipleArtifacts {
                pattern: pattern.to_owned(),
                output_root: output_root.to_owned(),
            },
        )
    }
}

} // verus!
