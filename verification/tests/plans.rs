use remote_manager::error::Error;
use remote_manager::plan::create_actions;
use remote_manager::plan::delete_plan;
use remote_manager::plan::dispatch;
use remote_manager::plan::name_is_present;
use remote_manager::plan::removal_actions;
use remote_manager::plan::DeletePlan;
use remote_manager::plan::GitAction;
use remote_manager::plan::TargetOp;

#[test]
fn create_new_remote_registers_then_fetches() {
    let existing: Vec<String> = Vec::new();
    let uri = "git@github.com:Acme/Widget.git";
    let plan = create_actions(&existing, uri).unwrap();
    assert_eq!(plan.name, "acme-xtask");
    assert_eq!(
        plan.actions,
        vec![
            GitAction::AddRemote {
                name: String::from("acme-xtask"),
                url: String::from(uri),
            },
            GitAction::Fetch { name: String::from("acme-xtask") },
        ]
    );
}

#[test]
fn create_existing_remote_skips_registration() {
    let existing = vec![String::from("acme-xtask")];
    let plan = create_actions(&existing, "https://github.com/Acme/Widget").unwrap();
    assert_eq!(plan.name, "acme-xtask");
    assert_eq!(
        plan.actions,
        vec![GitAction::Fetch { name: String::from("acme-xtask") }]
    );
}

#[test]
fn create_twice_registers_at_most_once_but_fetches_both_times() {
    let uri = "https://github.com/Acme/Widget";
    let before: Vec<String> = Vec::new();
    let first = create_actions(&before, uri).unwrap();
    assert!(first
        .actions
        .iter()
        .any(|a| matches!(a, GitAction::AddRemote { .. })));
    assert!(first.actions.iter().any(|a| matches!(a, GitAction::Fetch { .. })));
    let after = vec![first.name.clone()];
    let second = create_actions(&after, uri).unwrap();
    assert!(!second
        .actions
        .iter()
        .any(|a| matches!(a, GitAction::AddRemote { .. })));
    assert_eq!(
        second.actions,
        vec![GitAction::Fetch { name: String::from("acme-xtask") }]
    );
}

#[test]
fn create_compares_names_after_trimming() {
    let existing = vec![String::from(" acme-xtask\n")];
    let plan = create_actions(&existing, "https://github.com/Acme/Widget").unwrap();
    assert_eq!(
        plan.actions,
        vec![GitAction::Fetch { name: String::from("acme-xtask") }]
    );
}

#[test]
fn create_propagates_invalid_source() {
    let existing: Vec<String> = Vec::new();
    let r = create_actions(&existing, "https://example.com/Acme/Widget");
    assert!(matches!(r, Err(Error::InvalidSource)));
}

#[test]
fn create_propagates_malformed_uri() {
    let existing: Vec<String> = Vec::new();
    let r = create_actions(&existing, "github.com");
    assert!(matches!(r, Err(Error::MalformedUri)));
}

#[test]
fn present_check_sees_trimmed_names() {
    let existing = vec![String::from("origin"), String::from(" acme-xtask\n")];
    assert!(name_is_present(&existing, "acme-xtask"));
    assert!(!name_is_present(&existing, "upstream"));
}

#[test]
fn delete_of_absent_name_is_noop() {
    let existing = vec![String::from("origin")];
    let r = delete_plan(&existing, "not-present");
    assert_eq!(r, DeletePlan::NotPresent);
}

#[test]
fn delete_by_bare_name() {
    let existing = vec![String::from("origin"), String::from("acme-xtask")];
    let r = delete_plan(&existing, "acme-xtask");
    assert_eq!(r, DeletePlan::Remove { name: String::from("acme-xtask") });
}

#[test]
fn delete_by_uri_resolves_canonical_name() {
    let existing = vec![String::from("acme-xtask")];
    let r = delete_plan(&existing, "https://github.com/Acme/Widget");
    assert_eq!(r, DeletePlan::Remove { name: String::from("acme-xtask") });
}

#[test]
fn delete_falls_back_to_literal_input() {
    let existing = vec![String::from("weird name")];
    let r = delete_plan(&existing, "weird name");
    assert_eq!(r, DeletePlan::Remove { name: String::from("weird name") });
}

#[test]
fn removal_of_current_remote_switches_branch_first() {
    let current = Some(String::from("acme-xtask"));
    let acts = removal_actions(&String::from("acme-xtask"), &current);
    assert_eq!(
        acts,
        vec![
            GitAction::Checkout { branch: String::from("main") },
            GitAction::RemoveRemote { name: String::from("acme-xtask") },
        ]
    );
}

#[test]
fn removal_of_other_remote_never_switches() {
    let current = Some(String::from("origin"));
    let acts = removal_actions(&String::from("acme-xtask"), &current);
    assert_eq!(
        acts,
        vec![GitAction::RemoveRemote { name: String::from("acme-xtask") }]
    );
}

#[test]
fn removal_without_upstream_never_switches() {
    let acts = removal_actions(&String::from("acme-xtask"), &None);
    assert_eq!(
        acts,
        vec![GitAction::RemoveRemote { name: String::from("acme-xtask") }]
    );
}

#[test]
fn dispatch_without_target_or_list_is_usage_error() {
    let r = dispatch(false, false, false);
    assert_eq!(r, Err(Error::UsageError));
}

#[test]
fn dispatch_with_only_list_flag_just_lists() {
    let d = dispatch(false, false, true).unwrap();
    assert_eq!(d.op, None);
    assert!(d.list_after);
}

#[test]
fn dispatch_with_target_creates() {
    let d = dispatch(true, false, false).unwrap();
    assert_eq!(d.op, Some(TargetOp::Create));
    assert!(!d.list_after);
}

#[test]
fn dispatch_with_delete_flag_deletes_and_can_list() {
    let d = dispatch(true, true, true).unwrap();
    assert_eq!(d.op, Some(TargetOp::Delete));
    assert!(d.list_after);
}
