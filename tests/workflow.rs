use branch_purge::filter::{filter_candidates, is_protected, BranchInfo, DeletionMode, MergedFilter};
use branch_purge::listing::{parse_branch_names, tag_merged};
use branch_purge::purge::{
    after_listing, conflict_warning, delete_args, manual_command, plan_deletion,
    resolve_confirmation, selection_is_valid, selection_summary, Listing, Plan, Resolution,
};
use branch_purge::text::{decimal_text, join_spaced};

fn branch(name: &str, merged: bool) -> BranchInfo {
    BranchInfo { name: name.to_string(), merged }
}

fn strings(v: &[&str]) -> Vec<String> {
    v.iter().map(|s| s.to_string()).collect()
}

#[test]
fn merged_only_scenario_deletes_safely_without_confirmation() {
    let branches = vec![branch("feature-a", true), branch("feature-b", true), branch("main", true)];
    let candidates = filter_candidates(&branches, MergedFilter::MergedOnly);
    assert_eq!(candidates, strings(&["feature-a", "feature-b"]));
    let chosen = match after_listing(candidates) {
        Listing::Select(c) => c,
        Listing::NothingToClean => panic!("candidates were expected"),
    };
    assert!(selection_is_valid(chosen.len()));
    match plan_deletion(MergedFilter::MergedOnly, chosen) {
        Plan::Execute(args) => {
            assert_eq!(args, strings(&["branch", "-d", "feature-a", "feature-b"]))
        }
        Plan::Confirm { .. } => panic!("safe deletion needs no confirmation"),
    }
}

#[test]
fn unmerged_only_scenario_declined_deletes_nothing() {
    let branches = vec![branch("wip-x", false)];
    let candidates = filter_candidates(&branches, MergedFilter::UnmergedOnly);
    assert_eq!(candidates, strings(&["wip-x"]));
    match plan_deletion(MergedFilter::UnmergedOnly, candidates) {
        Plan::Confirm { help, branches } => {
            assert_eq!(help, "This will run the following command: git branch -D wip-x");
            match resolve_confirmation(&branches, false) {
                Resolution::Cancel(command) => {
                    assert_eq!(command, "git branch -D wip-x");
                    assert!(command.contains("wip-x"));
                }
                Resolution::Execute(_) => panic!("a declined confirmation must not delete"),
            }
        }
        Plan::Execute(_) => panic!("forced deletion needs confirmation"),
    }
}

#[test]
fn accepted_confirmation_force_deletes() {
    let chosen = strings(&["wip-x", "wip-y"]);
    match resolve_confirmation(&chosen, true) {
        Resolution::Execute(args) => assert_eq!(args, strings(&["branch", "-D", "wip-x", "wip-y"])),
        Resolution::Cancel(_) => panic!("an accepted confirmation deletes"),
    }
}

#[test]
fn declined_confirmation_prints_command_joined_by_single_spaces() {
    let chosen = strings(&["a", "b", "c"]);
    match resolve_confirmation(&chosen, false) {
        Resolution::Cancel(command) => assert_eq!(command, "git branch -D a b c"),
        Resolution::Execute(_) => panic!("a declined confirmation must not delete"),
    }
}

#[test]
fn both_flags_give_no_filter_and_warning() {
    assert_eq!(MergedFilter::from_args(true, true), MergedFilter::NoFilter);
    assert!(MergedFilter::is_conflicting(true, true));
    assert_eq!(
        conflict_warning(),
        "You've specified both merged and unmerged filters, which might not make sense.\nDefaulting to no filter."
    );
    let branches = vec![
        branch("feature-a", true),
        branch("master", true),
        branch("wip-x", false),
        branch("main", false),
    ];
    let f = MergedFilter::from_args(true, true);
    assert_eq!(filter_candidates(&branches, f), strings(&["feature-a", "wip-x"]));
}

#[test]
fn single_flags_resolve_to_their_filter() {
    assert_eq!(MergedFilter::from_args(true, false), MergedFilter::MergedOnly);
    assert_eq!(MergedFilter::from_args(false, true), MergedFilter::UnmergedOnly);
    assert_eq!(MergedFilter::from_args(false, false), MergedFilter::NoFilter);
    assert!(!MergedFilter::is_conflicting(true, false));
    assert!(!MergedFilter::is_conflicting(false, false));
}

#[test]
fn deletion_mode_follows_filter() {
    assert_eq!(MergedFilter::UnmergedOnly.deletion_mode(), DeletionMode::Forced);
    assert_eq!(MergedFilter::MergedOnly.deletion_mode(), DeletionMode::Safe);
    assert_eq!(MergedFilter::NoFilter.deletion_mode(), DeletionMode::Safe);
}

#[test]
fn no_filter_with_mixed_selection_deletes_safely() {
    match plan_deletion(MergedFilter::NoFilter, strings(&["x", "y"])) {
        Plan::Execute(args) => assert_eq!(args, strings(&["branch", "-d", "x", "y"])),
        Plan::Confirm { .. } => panic!("no filter deletes safely"),
    }
}

#[test]
fn protected_branches_never_candidates() {
    let branches = vec![
        branch("main", true),
        branch("master", false),
        branch("maintenance", true),
        branch("old", false),
    ];
    for f in [MergedFilter::NoFilter, MergedFilter::MergedOnly, MergedFilter::UnmergedOnly] {
        let c = filter_candidates(&branches, f);
        assert!(!c.iter().any(|n| n == "main" || n == "master"));
    }
    assert_eq!(filter_candidates(&branches, MergedFilter::MergedOnly), strings(&["maintenance"]));
    assert_eq!(filter_candidates(&branches, MergedFilter::UnmergedOnly), strings(&["old"]));
    assert!(is_protected(&"main".to_string()));
    assert!(is_protected(&"master".to_string()));
    assert!(!is_protected(&"mainline".to_string()));
}

#[test]
fn empty_candidates_short_circuit() {
    assert!(matches!(after_listing(Vec::new()), Listing::NothingToClean));
    let only_main = vec![branch("main", true)];
    let c = filter_candidates(&only_main, MergedFilter::NoFilter);
    assert!(c.is_empty());
    assert!(matches!(after_listing(c), Listing::NothingToClean));
    assert!(filter_candidates(&Vec::new(), MergedFilter::MergedOnly).is_empty());
}

#[test]
fn candidates_keep_source_order() {
    let branches = vec![branch("z", true), branch("a", true), branch("m", false)];
    assert_eq!(filter_candidates(&branches, MergedFilter::NoFilter), strings(&["z", "a", "m"]));
}

#[test]
fn empty_selection_is_invalid() {
    assert!(!selection_is_valid(0));
    assert!(selection_is_valid(1));
    assert!(selection_is_valid(5));
}

#[test]
fn selection_summary_pluralizes() {
    assert_eq!(selection_summary(1), "1 branch to purge");
    assert_eq!(selection_summary(3), "3 branches to purge");
    assert_eq!(selection_summary(0), "0 branches to purge");
    assert_eq!(selection_summary(12), "12 branches to purge");
}

#[test]
fn decimal_text_writes_numbers() {
    assert_eq!(decimal_text(0), "0");
    assert_eq!(decimal_text(7), "7");
    assert_eq!(decimal_text(10), "10");
    assert_eq!(decimal_text(1234), "1234");
    assert_eq!(decimal_text(usize::MAX), usize::MAX.to_string());
}

#[test]
fn join_spaced_uses_single_spaces() {
    assert_eq!(join_spaced(&Vec::new()), "");
    assert_eq!(join_spaced(&strings(&["one"])), "one");
    assert_eq!(join_spaced(&strings(&["a", "bb", "c"])), "a bb c");
}

#[test]
fn delete_args_pick_flag_by_mode() {
    let b = strings(&["x"]);
    assert_eq!(delete_args(DeletionMode::Safe, &b), strings(&["branch", "-d", "x"]));
    assert_eq!(delete_args(DeletionMode::Forced, &b), strings(&["branch", "-D", "x"]));
    assert_eq!(manual_command(&strings(&["p", "q"])), "git branch -D p q");
}

#[test]
fn info_messages_name_the_filter() {
    assert_eq!(MergedFilter::NoFilter.info_message("dev"), "Showing ALL git branches, be careful!");
    assert_eq!(MergedFilter::MergedOnly.info_message("dev"), "Showing only branches merged to dev");
    assert_eq!(
        MergedFilter::UnmergedOnly.info_message("dev"),
        "Showing only branches NOT merged to dev; confirmation will be required"
    );
}

#[test]
fn parse_listing_strips_marker_and_blanks() {
    let out = "  feature-a\n* main\n  wip-x\n";
    assert_eq!(parse_branch_names(out), strings(&["feature-a", "main", "wip-x"]));
    assert_eq!(parse_branch_names(""), Vec::<String>::new());
    assert_eq!(parse_branch_names("\n\n  \n"), Vec::<String>::new());
    assert_eq!(parse_branch_names("* dev\r\n  t\u{e9}st"), strings(&["dev", "t\u{e9}st"]));
}

#[test]
fn tag_merged_marks_members() {
    let all = strings(&["a", "b", "c"]);
    let merged = strings(&["c", "a"]);
    let tagged = tag_merged(&all, &merged);
    let got: Vec<(String, bool)> = tagged.into_iter().map(|b| (b.name, b.merged)).collect();
    assert_eq!(
        got,
        vec![("a".to_string(), true), ("b".to_string(), false), ("c".to_string(), true)]
    );
}
