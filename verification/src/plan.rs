//! Decisions: which git commands a create, delete or bare invocation
//! must issue, given the current remote set.

use vstd::prelude::*;

use crate::error::Error;
use crate::text::str_eq;
use crate::text::trim_spec;
use crate::text::trim_str;
use crate::uri::accepts;
use crate::uri::derived_name;
use crate::uri::has_marker;
use crate::uri::has_owner;
use crate::uri::parse_github_uri;

verus! {

/// One git command the caller must run, in the order given.
#[derive(Debug, PartialEq, Eq)]
pub enum GitAction {
    AddRemote { name: String, url: String },
    Fetch { name: String },
    Checkout { branch: String },
    RemoveRemote { name: String },
}

/// Spec-level image of one git command.
pub enum ActionSpec {
    AddRemote { name: Seq<char>, url: Seq<char> },
    Fetch { name: Seq<char> },
    Checkout { branch: Seq<char> },
    RemoveRemote { name: Seq<char> },
}

impl View for GitAction {
    type V = ActionSpec;

    open spec fn view(&self) -> ActionSpec {
        match self {
            GitAction::AddRemote { name, url } => ActionSpec::AddRemote {
                name: name@,
                url: url@,
            },
            GitAction::Fetch { name } => ActionSpec::Fetch { name: name@ },
            GitAction::Checkout { branch } => ActionSpec::Checkout { branch: branch@ },
            GitAction::RemoveRemote { name } => ActionSpec::RemoveRemote { name: name@ },
        }
    }
}

/// The fixed branch the working tree switches to before the currently
/// tracked remote is removed.
pub open spec fn default_branch() -> Seq<char> {
    "main"@
}

/// Whether `name` is already among the remotes, comparing trimmed text.
pub open spec fn name_present(existing: Seq<Seq<char>>, name: Seq<char>) -> bool {
    exists|k: int| 0 <= k < existing.len() && trim_spec(existing[k]) == trim_spec(name)
}

/// Whether `name` is already among the remotes, comparing trimmed text.
pub fn name_is_present(existing: &Vec<String>, name: &str) -> (r: bool)
    ensures
        r == name_present(existing@.map_values(|p: String| p@), name@),
{
    let ghost ev = existing@.map_values(|p: String| p@);
    let mut i: usize = 0;
    while i < existing.len()
        invariant
            0 <= i <= existing@.len(),
            ev == existing@.map_values(|p: String| p@),
            forall|k: int| 0 <= k < i ==> trim_spec(#[trigger] ev[k]) != trim_spec(name@),
        decreases existing@.len() - i,
    {
        if str_eq(trim_str(existing[i].as_str()), trim_str(name)) {
            proof {
                assert(ev[i as int] == existing@[i as int]@);
            }
            return true;
        }
        i = i + 1;
    }
    false
}

/// The git commands a create request issues once the canonical name is
/// known: registration only when the name is absent, then always a
/// fetch.
pub open spec fn create_actions_spec(existing: Seq<Seq<char>>, uri: Seq<char>) -> Seq<ActionSpec> {
    let name = derived_name(uri);
    if name_present(existing, name) {
        seq![ActionSpec::Fetch { name }]
    } else {
        seq![ActionSpec::AddRemote { name, url: uri }, ActionSpec::Fetch { name }]
    }
}

/// The outcome of planning a create request: the canonical remote name
/// and the git commands to run, in order.
pub struct CreatePlan {
    pub name: String,
    pub actions: Vec<GitAction>,
}

/// Plans a create request: derives the canonical name from the URI,
/// skips registration when a remote of that (trimmed) name already
/// exists, and always fetches.  Fails exactly when the parser rejects
/// the URI, with the parser's error.
pub fn create_actions(existing: &Vec<String>, uri: &str) -> (r: Result<CreatePlan, Error>)
    ensures
        r is Ok <==> accepts(uri@),
        !has_marker(uri@) ==> r == Err::<CreatePlan, Error>(Error::InvalidSource),
        has_marker(uri@) && !has_owner(uri@) ==> r == Err::<CreatePlan, Error>(Error::MalformedUri),
        r matches Ok(p) ==> p.name@ == derived_name(uri@) && p.actions@.map_values(
            |a: GitAction| a@,
        ) == create_actions_spec(existing@.map_values(|p: String| p@), uri@),
{
    let name = match parse_github_uri(uri) {
        Ok(n) => n,
        Err(e) => {
            return Err(e);
        },
    };
    let mut actions: Vec<GitAction> = Vec::new();
    if !name_is_present(existing, name.as_str()) {
        actions.push(GitAction::AddRemote { name: name.clone(), url: uri.to_owned() });
    }
    actions.push(GitAction::Fetch { name: name.clone() });
    proof {
        assert(actions@.map_values(|a: GitAction| a@) =~= create_actions_spec(
            existing@.map_values(|p: String| p@),
            uri@,
        ));
    }
    Ok(CreatePlan { name, actions })
}

/// The name a delete request resolves to: the canonical name when the
/// input parses as a GitHub URI, the input text itself otherwise.
pub open spec fn delete_target_spec(input: Seq<char>) -> Seq<char> {
    if accepts(input) {
        derived_name(input)
    } else {
        input
    }
}

/// Whether `name` is among the remotes, comparing exact text.
pub open spec fn exactly_present(existing: Seq<Seq<char>>, name: Seq<char>) -> bool {
    exists|k: int| 0 <= k < existing.len() && existing[k] == name
}

/// The outcome of planning a delete request.
#[derive(Debug, PartialEq, Eq)]
pub enum DeletePlan {
    /// The resolved name is not a configured remote: nothing to do, and
    /// that is success.
    NotPresent,
    /// The resolved name is configured; the caller must look up the
    /// currently tracked remote and then run `removal_actions`.
    Remove { name: String },
}

/// Plans a delete request.  The input may be a GitHub URI or a bare
/// remote name: a URI resolves to its canonical name, anything else is
/// taken literally.  A name that is not configured resolves to a no-op.
pub fn delete_plan(existing: &Vec<String>, input: &str) -> (r: DeletePlan)
    ensures
        exactly_present(existing@.map_values(|p: String| p@), delete_target_spec(input@))
            ==> (r matches DeletePlan::Remove { name } && name@ == delete_target_spec(input@)),
        !exactly_present(existing@.map_values(|p: String| p@), delete_target_spec(input@))
            ==> r is NotPresent,
{
    let name = match parse_github_uri(input) {
        Ok(n) => n,
        Err(_) => input.to_owned(),
    };
    let ghost ev = existing@.map_values(|p: String| p@);
    let mut i: usize = 0;
    while i < existing.len()
        invariant
            0 <= i <= existing@.len(),
            ev == existing@.map_values(|p: String| p@),
            name@ == delete_target_spec(input@),
            forall|k: int| 0 <= k < i ==> #[trigger] ev[k] != name@,
        decreases existing@.len() - i,
    {
        if str_eq(existing[i].as_str(), name.as_str()) {
            proof {
                assert(ev[i as int] == existing@[i as int]@);
            }
            return DeletePlan::Remove { name };
        }
        i = i + 1;
    }
    DeletePlan::NotPresent
}

/// The git commands that remove the configured remote `name`: when it
/// is the currently tracked remote, a switch to the default branch comes
/// first, so the repository is never left on a removed remote's branch.
pub open spec fn removal_actions_spec(name: Seq<char>, current: Option<Seq<char>>) -> Seq<
    ActionSpec,
> {
    if current == Some(name) {
        seq![
            ActionSpec::Checkout { branch: default_branch() },
            ActionSpec::RemoveRemote { name },
        ]
    } else {
        seq![ActionSpec::RemoveRemote { name }]
    }
}

/// The character sequences of an optional string.
pub open spec fn opt_view(o: Option<String>) -> Option<Seq<char>> {
    match o {
        Some(s) => Some(s@),
        None => None,
    }
}

/// The git commands that remove the configured remote `name`, given the
/// currently tracked remote (if any).
pub fn removal_actions(name: &String, current: &Option<String>) -> (acts: Vec<GitAction>)
    ensures
        acts@.map_values(|a: GitAction| a@) == removal_actions_spec(name@, opt_view(*current)),
{
    let is_current = match current {
        Some(c) => str_eq(c.as_str(), name.as_str()),
        None => false,
    };
    let mut acts: Vec<GitAction> = Vec::new();
    if is_current {
        acts.push(GitAction::Checkout { branch: String::from_str("main") });
    }
    acts.push(GitAction::RemoveRemote { name: name.clone() });
    proof {
        assert(acts@.map_values(|a: GitAction| a@) =~= removal_actions_spec(
            name@,
            opt_view(*current),
        ));
    }
    acts
}

/// What a dispatched invocation does with its target.
#[derive(Clone, Copy, Debug, PartialEq, Eq, Structural)]
pub enum TargetOp {
    Create,
    Delete,
}

/// The dispatcher's decision: what to do with the target, and whether
/// to print the remote listing afterwards.
#[derive(Clone, Copy, Debug, PartialEq, Eq)]
pub struct Dispatch {
    pub op: Option<TargetOp>,
    pub list_after: bool,
}

/// Decides what an invocation does.  With a target, the delete flag
/// picks deletion over creation; without one, the list flag must be set,
/// else the request is a usage error.  The remote listing is printed
/// afterwards exactly when the list flag is set.
pub fn dispatch(has_target: bool, delete: bool, list: bool) -> (r: Result<Dispatch, Error>)
    ensures
        r is Err <==> !has_target && !list,
        !has_target && !list ==> r == Err::<Dispatch, Error>(Error::UsageError),
        has_target && delete ==> (r matches Ok(d) && d.op == Some(TargetOp::Delete)
            && d.list_after == list),
        has_target && !delete ==> (r matches Ok(d) && d.op == Some(TargetOp::Create)
            && d.list_after == list),
        !has_target && list ==> (r matches Ok(d) && d.op is None && d.list_after),
{
    if has_target {
        if delete {
            Ok(Dispatch { op: Some(TargetOp::Delete), list_after: list })
        } else {
            Ok(Dispatch { op: Some(TargetOp::Create), list_after: list })
        }
    } else if list {
        Ok(Dispatch { op: None, list_after: true })
    } else {
        Err(Error::UsageError)
    }
}

/// Creating is idempotent.  However the remote set looked when a URI was
/// first created, once its canonical name is registered a second create
/// request for the same URI registers nothing — yet both requests fetch.
pub proof fn lemma_create_idempotent(first: Seq<Seq<char>>, second: Seq<Seq<char>>, uri: Seq<char>)
    requires
        accepts(uri),
        name_present(second, derived_name(uri)),
    ensures
        create_actions_spec(second, uri) == seq![(ActionSpec::Fetch { name: derived_name(uri) })],
        forall|k: int|
            0 <= k < create_actions_spec(second, uri).len() ==> !(#[trigger] create_actions_spec(
                second,
                uri,
            )[k] is AddRemote),
        create_actions_spec(first, uri).last() == (ActionSpec::Fetch { name: derived_name(uri) }),
{
}

/// Deleting the currently tracked remote always switches to the default
/// branch, and does so before the removal; deleting any other remote
/// never switches branches.
pub proof fn lemma_removal_switch(name: Seq<char>, current: Option<Seq<char>>)
    ensures
        current == Some(name) ==> removal_actions_spec(name, current) == seq![
            (ActionSpec::Checkout { branch: default_branch() }),
            (ActionSpec::RemoveRemote { name }),
        ],
        current != Some(name) ==> forall|k: int|
            0 <= k < removal_actions_spec(name, current).len() ==> !(#[trigger] removal_actions_spec(
                name,
                current,
            )[k] is Checkout),
{
}

} // verus!
