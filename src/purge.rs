use vstd::prelude::*;

use crate::filter::{mode_of, DeletionMode, MergedFilter};
use crate::text::{decimal, decimal_text, join_spaced, joined, texts};

verus! {

/// What comes after the candidates are known.
pub enum Listing {
    /// Nothing fits the filter: report it and finish successfully, without a prompt.
    NothingToClean,
    /// Ask the user to choose among these candidates.
    Select(Vec<String>),
}

/// What the planner decided for a non-empty selection.
pub enum Plan {
    /// Run the delete tool at once with these arguments.
    Execute(Vec<String>),
    /// Ask first: show the help text, then settle with `resolve_confirmation`.
    Confirm { help: String, branches: Vec<String> },
}

/// What a forced deletion turns into once the user has answered.
pub enum Resolution {
    /// Run the delete tool with these arguments.
    Execute(Vec<String>),
    /// Delete nothing, and show the command that would do it by hand.
    Cancel(String),
}

/// The flag that selects a deletion mode.
pub open spec fn mode_flag(mode: DeletionMode) -> Seq<char> {
    match mode {
        DeletionMode::Safe => "-d"@,
        DeletionMode::Forced => "-D"@,
    }
}

/// The arguments of the delete tool for these branches in this mode.
pub open spec fn delete_arguments(mode: DeletionMode, names: Seq<Seq<char>>) -> Seq<Seq<char>> {
    seq!["branch"@, mode_flag(mode)] + names
}

/// The command that force-deletes these branches, as the user would type it.
pub open spec fn forced_command(names: Seq<Seq<char>>) -> Seq<char> {
    "git branch -D "@ + joined(names)
}

/// The help text shown with the confirmation question.
pub open spec fn confirmation_help_text(names: Seq<Seq<char>>) -> Seq<char> {
    "This will run the following command: "@ + forced_command(names)
}

/// The summary of a selection: "1 branch to purge", "3 branches to purge".
pub open spec fn summary_text(count: nat) -> Seq<char> {
    decimal(count) + if count == 1 {
        " branch to purge"@
    } else {
        " branches to purge"@
    }
}

/// The banner that tells which branches are shown.
pub open spec fn info_text(f: MergedFilter, head: Seq<char>) -> Seq<char> {
    match f {
        MergedFilter::NoFilter => "Showing ALL git branches, be careful!"@,
        MergedFilter::MergedOnly => "Showing only branches merged to "@ + head,
        MergedFilter::UnmergedOnly => "Showing only branches NOT merged to "@ + head
            + "; confirmation will be required"@,
    }
}

/// Short-circuits an empty candidate list; otherwise hands the candidates to the prompt.
pub fn after_listing(candidates: Vec<String>) -> (r: Listing)
    ensures
        (candidates.len() == 0) == (r is NothingToClean),
        r matches Listing::Select(c) ==> c@ == candidates@,
{
    if candidates.len() == 0 {
        Listing::NothingToClean
    } else {
        Listing::Select(candidates)
    }
}

/// Whether a selection of `count` branches may be accepted; an empty one is refused.
pub fn selection_is_valid(count: usize) -> (r: bool)
    ensures
        r == (count > 0),
{
    count > 0
}

/// The summary shown once the selection is made.
pub fn selection_summary(count: usize) -> (r: String)
    ensures
        r@ == summary_text(count as nat),
{
    let mut r = decimal_text(count);
    if count == 1 {
        r.append(" branch to purge");
    } else {
        r.append(" branches to purge");
    }
    r
}

/// The arguments that delete the branches in the given mode.
pub fn delete_args(mode: DeletionMode, branches: &Vec<String>) -> (r: Vec<String>)
    ensures
        texts(r@) == delete_arguments(mode, texts(branches@)),
{
    let mut r: Vec<String> = Vec::new();
    r.push(String::from_str("branch"));
    match mode {
        DeletionMode::Safe => r.push(String::from_str("-d")),
        DeletionMode::Forced => r.push(String::from_str("-D")),
    }
    let mut i: usize = 0;
    while i < branches.len()
        invariant
            i <= branches.len(),
            texts(r@) == delete_arguments(mode, texts(branches@).take(i as int)),
        decreases branches.len() - i,
    {
        let ghost before = texts(r@);
        r.push(branches[i].clone());
        assert(texts(r@) =~= before.push(branches@[i as int]@));
        i = i + 1;
        assert(texts(r@) =~= delete_arguments(mode, texts(branches@).take(i as int)));
    }
    assert(texts(branches@).take(branches.len() as int) =~= texts(branches@));
    r
}

/// The command that force-deletes the branches, for the user to run by hand.
pub fn manual_command(branches: &Vec<String>) -> (r: String)
    ensures
        r@ == forced_command(texts(branches@)),
{
    let names = join_spaced(branches);
    let mut r = String::from_str("git branch -D ");
    r.append(names.as_str());
    r
}

/// Plans the deletion of a non-empty selection: the filter alone decides the mode.
pub fn plan_deletion(filter: MergedFilter, selected: Vec<String>) -> (r: Plan)
    requires
        selected.len() > 0,
    ensures
        mode_of(filter) == DeletionMode::Safe ==> (r matches Plan::Execute(args) && texts(args@)
            == delete_arguments(DeletionMode::Safe, texts(selected@))),
        mode_of(filter) == DeletionMode::Forced ==> (r matches Plan::Confirm { help, branches }
            && branches@ == selected@ && help@ == confirmation_help_text(texts(selected@))),
{
    match filter.deletion_mode() {
        DeletionMode::Safe => Plan::Execute(delete_args(DeletionMode::Safe, &selected)),
        DeletionMode::Forced => {
            let command = manual_command(&selected);
            let mut help = String::from_str("This will run the following command: ");
            help.append(command.as_str());
            Plan::Confirm { help, branches: selected }
        },
    }
}

/// Settles a forced deletion: only an affirmative answer deletes anything.
pub fn resolve_confirmation(branches: &Vec<String>, accepted: bool) -> (r: Resolution)
    ensures
        accepted ==> (r matches Resolution::Execute(args) && texts(args@) == delete_arguments(
            DeletionMode::Forced,
            texts(branches@),
        )),
        !accepted ==> (r matches Resolution::Cancel(command) && command@ == forced_command(
            texts(branches@),
        )),
{
    if accepted {
        Resolution::Execute(delete_args(DeletionMode::Forced, branches))
    } else {
        Resolution::Cancel(manual_command(branches))
    }
}

/// The warning printed when both filters are asked for.
pub fn conflict_warning() -> (r: String)
    ensures
        r@ == "You've specified both merged and unmerged filters, which might not make sense.\nDefaulting to no filter."@,
{
    String::from_str(
        "You've specified both merged and unmerged filters, which might not make sense.\nDefaulting to no filter.",
    )
}

impl MergedFilter {
    /// The banner that tells the user which branches are shown, relative to `current_head`.
    pub fn info_message(&self, current_head: &str) -> (r: String)
        ensures
            r@ == info_text(*self, current_head@),
    {
        match self {
            MergedFilter::NoFilter => String::from_str("Showing ALL git branches, be careful!"),
            MergedFilter::MergedOnly => {
                let mut r = String::from_str("Showing only branches merged to ");
                r.append(current_head);
                r
            },
            MergedFilter::UnmergedOnly => {
                let mut r = String::from_str("Showing only branches NOT merged to ");
                r.append(current_head);
                r.append("; confirmation will be required");
                r
            },
        }
    }
}

} // verus!
