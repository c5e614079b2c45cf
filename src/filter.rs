use vstd::prelude::*;

use crate::text::texts;

verus! {

/// Which branches the user asked to see, chosen once per run from the flags.
#[derive(Clone, Copy, Debug, PartialEq, Eq, Structural)]
pub enum MergedFilter {
    NoFilter,
    MergedOnly,
    UnmergedOnly,
}

/// How the chosen branches are deleted.
#[derive(Clone, Copy, Debug, PartialEq, Eq, Structural)]
pub enum DeletionMode {
    /// Refuses to delete a branch whose commits are not merged.
    Safe,
    /// Deletes unconditionally; needs the user's explicit consent.
    Forced,
}

/// A local branch and whether it is merged into the current branch.
pub struct BranchInfo {
    pub name: String,
    pub merged: bool,
}

/// The filter that a pair of flags asks for; asking for both is no filter at all.
pub open spec fn filter_of_flags(merged: bool, unmerged: bool) -> MergedFilter {
    if merged && unmerged {
        MergedFilter::NoFilter
    } else if merged {
        MergedFilter::MergedOnly
    } else if unmerged {
        MergedFilter::UnmergedOnly
    } else {
        MergedFilter::NoFilter
    }
}

/// Deletion is forced exactly when only unmerged branches are shown.
pub open spec fn mode_of(f: MergedFilter) -> DeletionMode {
    match f {
        MergedFilter::UnmergedOnly => DeletionMode::Forced,
        MergedFilter::NoFilter => DeletionMode::Safe,
        MergedFilter::MergedOnly => DeletionMode::Safe,
    }
}

/// Whether a filter lets a branch with this merge status through.
pub open spec fn shows(f: MergedFilter, merged: bool) -> bool {
    match f {
        MergedFilter::NoFilter => true,
        MergedFilter::MergedOnly => merged,
        MergedFilter::UnmergedOnly => !merged,
    }
}

/// The primary branches, never offered for deletion.
pub open spec fn is_protected_name(name: Seq<char>) -> bool {
    name == "main"@ || name == "master"@
}

/// What a branch contributes to the candidate list: its name, if it is kept.
pub open spec fn candidate_of(f: MergedFilter) -> spec_fn(BranchInfo) -> Option<Seq<char>> {
    |b: BranchInfo|
        if !is_protected_name(b.name@) && shows(f, b.merged) {
            Some(b.name@)
        } else {
            None
        }
}

/// The names of the unprotected branches that pass the filter, in their given order.
pub open spec fn candidates(bs: Seq<BranchInfo>, f: MergedFilter) -> Seq<Seq<char>> {
    bs.filter_map(candidate_of(f))
}

impl MergedFilter {
    /// Resolves the `--merged` / `--unmerged` flags into a filter.
    pub fn from_args(merged: bool, unmerged: bool) -> (r: MergedFilter)
        ensures
            r == filter_of_flags(merged, unmerged),
            merged && unmerged ==> r == MergedFilter::NoFilter,
    {
        if merged && unmerged {
            return MergedFilter::NoFilter;
        }
        if merged {
            return MergedFilter::MergedOnly;
        }
        if unmerged {
            return MergedFilter::UnmergedOnly;
        }
        MergedFilter::NoFilter
    }

    /// Whether the two flags contradict each other, which deserves a warning.
    pub fn is_conflicting(merged: bool, unmerged: bool) -> (r: bool)
        ensures
            r == (merged && unmerged),
    {
        merged && unmerged
    }

    /// The deletion mode that this filter calls for.
    pub fn deletion_mode(&self) -> (r: DeletionMode)
        ensures
            r == mode_of(*self),
    {
        match self {
            MergedFilter::UnmergedOnly => DeletionMode::Forced,
            MergedFilter::NoFilter => DeletionMode::Safe,
            MergedFilter::MergedOnly => DeletionMode::Safe,
        }
    }

    /// Whether a branch with the given merge status passes this filter.
    pub fn shows(&self, merged: bool) -> (r: bool)
        ensures
            r == shows(*self, merged),
    {
        match self {
            MergedFilter::NoFilter => true,
            MergedFilter::MergedOnly => merged,
            MergedFilter::UnmergedOnly => !merged,
        }
    }
}

/// Whether a branch name is one of the protected primary branches.
pub fn is_protected(name: &String) -> (r: bool)
    ensures
        r == is_protected_name(name@),
{
    let main = String::from_str("main");
    let master = String::from_str("master");
    *name == main || *name == master
}

/// The branches offered for deletion: unprotected ones that pass the filter, order kept.
pub fn filter_candidates(branches: &Vec<BranchInfo>, filter: MergedFilter) -> (r: Vec<String>)
    ensures
        texts(r@) == candidates(branches@, filter),
        forall|i: int| 0 <= i < r.len() ==> !is_protected_name(#[trigger] r@[i]@),
{
    let mut r: Vec<String> = Vec::new();
    let mut i: usize = 0;
    while i < branches.len()
        invariant
            i <= branches.len(),
            texts(r@) == candidates(branches@.take(i as int), filter),
        decreases branches.len() - i,
    {
        let b = &branches[i];
        proof {
            branches@.lemma_filter_map_take_succ(candidate_of(filter), i as int);
        }
        if !is_protected(&b.name) && filter.shows(b.merged) {
            r.push(b.name.clone());
            assert(texts(r@) =~= candidates(branches@.take(i + 1), filter));
        } else {
            assert(texts(r@) =~= candidates(branches@.take(i + 1), filter));
        }
        i = i + 1;
    }
    assert(branches@.take(branches.len() as int) =~= branches@);
    proof {
        lemma_candidates_unprotected(branches@, filter);
        assert forall|i: int| 0 <= i < r.len() implies !is_protected_name(#[trigger] r@[i]@) by {
            assert(texts(r@)[i] == r@[i]@);
        }
    }
    r
}

/// The deletion mode is a function of the filter alone: forced for unmerged-only, else safe.
pub proof fn lemma_mode_of_filter(f: MergedFilter)
    ensures
        (mode_of(f) == DeletionMode::Forced) == (f == MergedFilter::UnmergedOnly),
        (mode_of(f) == DeletionMode::Safe) == (f != MergedFilter::UnmergedOnly),
{
}

/// No candidate is a protected branch, whatever the branches and the filter.
pub proof fn lemma_candidates_unprotected(bs: Seq<BranchInfo>, f: MergedFilter)
    ensures
        forall|i: int|
            0 <= i < candidates(bs, f).len() ==> !is_protected_name(
                #[trigger] candidates(bs, f)[i],
            ),
{
    assert forall|i: int| 0 <= i < candidates(bs, f).len() implies !is_protected_name(
        #[trigger] candidates(bs, f)[i],
    ) by {
        let n = candidates(bs, f)[i];
        assert(candidates(bs, f).contains(n));
        bs.lemma_filter_map_contains(candidate_of(f), n);
    }
}

} // verus!
