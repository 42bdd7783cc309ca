//! Workspace manager: where each project lives on disk, what is copied from
//! the template, and the steps that provision a project before a build.
use vstd::prelude::*;

use crate::models::text;

verus! {

/// The directory of the project `(user, project)`, relative to the service root.
pub open spec fn project_dir_of(user: Seq<char>, project: Seq<char>) -> Seq<char> {
    "projects/"@ + user + "/"@ + project
}

/// The directory holding all projects of `user`.
pub open spec fn user_dir_of(user: Seq<char>) -> Seq<char> {
    "projects/"@ + user
}

/// The contract source file inside a project directory.
pub open spec fn source_path_of(dir: Seq<char>) -> Seq<char> {
    dir + "/contracts/hello-world/src/lib.rs"@
}

/// The directory a build leaves its artifacts in, inside a project directory.
pub open spec fn release_dir_of(dir: Seq<char>) -> Seq<char> {
    dir + "/target/wasm32v1-none/release"@
}

/// The template directory new projects are copied from.
pub fn template_dir() -> (r: String)
    ensures
        r@ == "base_project"@,
{
    text("base_project")
}

pub fn user_dir(user_id: &str) -> (r: String)
    ensures
        r@ == user_dir_of(user_id@),
{
    let mut d = text("projects/");
    d.append(user_id);
    d
}

pub fn project_dir(user_id: &str, project_id: &str) -> (r: String)
    ensures
        r@ == project_dir_of(user_id@, project_id@),
{
    let mut d = user_dir(user_id);
    d.append("/");
    d.append(project_id);
    d
}

pub fn source_path(dir: &str) -> (r: String)
    ensures
        r@ == source_path_of(dir@),
{
    let mut p = text(dir);
    p.append("/contracts/hello-world/src/lib.rs");
    p
}

pub fn release_dir(dir: &str) -> (r: String)
    ensures
        r@ == release_dir_of(dir@),
{
    let mut p = text(dir);
    p.append("/target/wasm32v1-none/release");
    p
}

/// The entry `name` of `dir`.
pub fn entry_path(dir: &str, name: &str) -> (r: String)
    ensures
        r@ == dir@ + "/"@ + name@,
{
    let mut p = text(dir);
    p.append("/");
    p.append(name);
    p
}

/// A template entry is copied unless it is a build-output or version-control directory.
pub open spec fn copied_from_template(name: Seq<char>, is_dir: bool) -> bool {
    !(is_dir && (name == "target"@ || name == ".git"@))
}

pub fn copy_from_template(name: &str, is_dir: bool) -> (r: bool)
    ensures
        r == copied_from_template(name@, is_dir),
{
    if !is_dir {
        return true;
    }
    let n = text(name);
    !(n == text("target") || n == text(".git"))
}

/// One step of provisioning a project.
pub enum SetupStep {
    /// Create the user's directory and its parents.
    CreateUserDir,
    /// Copy the template tree into the project directory.
    CopyTemplate,
    /// Overwrite the contract source file with the caller's code.
    WriteSource,
}

/// The steps that provision a project: a new project is copied from the
/// template first; the source file is written in every case.
pub open spec fn setup_steps(exists: bool) -> Seq<SetupStep> {
    if exists {
        seq![SetupStep::WriteSource]
    } else {
        seq![SetupStep::CreateUserDir, SetupStep::CopyTemplate, SetupStep::WriteSource]
    }
}

pub fn plan_setup(project_exists: bool) -> (r: Vec<SetupStep>)
    ensures
        r@ == setup_steps(project_exists),
{
    let mut steps: Vec<SetupStep> = Vec::new();
    if !project_exists {
        steps.push(SetupStep::CreateUserDir);
        steps.push(SetupStep::CopyTemplate);
    }
    steps.push(SetupStep::WriteSource);
    assert(steps@ =~= setup_steps(project_exists));
    steps
}

/// What the disk holds of one project: whether its directory exists, how many
/// times the template was copied into it, and its contract source.
pub struct ProjectState {
    pub exists: bool,
    pub template_copies: nat,
    pub source: Seq<char>,
}

/// A valid state: a project that does not exist has never been copied.
pub open spec fn valid_state(s: ProjectState) -> bool {
    !s.exists ==> s.template_copies == 0
}

/// The project after one step, where the template's source is `template` and
/// the caller's code is `code`.
pub open spec fn apply_step(
    s: ProjectState,
    step: SetupStep,
    template: Seq<char>,
    code: Seq<char>,
) -> ProjectState {
    match step {
        SetupStep::CreateUserDir => s,
        SetupStep::CopyTemplate => ProjectState {
            exists: true,
            template_copies: s.template_copies + 1,
            source: template,
        },
        SetupStep::WriteSource => ProjectState { source: code, ..s },
    }
}

/// The project after the steps, in order.
pub open spec fn apply_steps(
    s: ProjectState,
    steps: Seq<SetupStep>,
    template: Seq<char>,
    code: Seq<char>,
) -> ProjectState
    decreases steps.len(),
{
    if steps.len() == 0 {
        s
    } else {
        apply_step(apply_steps(s, steps.drop_last(), template, code), steps.last(), template, code)
    }
}

/// The project after provisioning it for a build of `code`.
pub open spec fn provisioned(s: ProjectState, template: Seq<char>, code: Seq<char>) -> ProjectState {
    apply_steps(s, setup_steps(s.exists), template, code)
}

/// Provisioning a project twice, with two source texts, leaves the second text
/// in its source file, and copies the template at most once: only when the
/// project did not exist before the first time.
pub proof fn lemma_provision_twice(
    s: ProjectState,
    template: Seq<char>,
    first: Seq<char>,
    second: Seq<char>,
)
    requires
        valid_state(s),
    ensures
        ({
            let after = provisioned(provisioned(s, template, first), template, second);
            &&& after.exists
            &&& after.source == second
            &&& after.template_copies == (if s.exists {
                s.template_copies
            } else {
                1
            })
        }),
{
    let one = provisioned(s, template, first);
    reveal_with_fuel(apply_steps, 4);
    assert(setup_steps(false).drop_last().drop_last().drop_last() =~= Seq::<SetupStep>::empty());
    assert(setup_steps(false).drop_last().drop_last() =~= seq![SetupStep::CreateUserDir]);
    assert(setup_steps(false).drop_last() =~= seq![
        SetupStep::CreateUserDir,
        SetupStep::CopyTemplate,
    ]);
    assert(setup_steps(true).drop_last() =~= Seq::<SetupStep>::empty());
    assert(one.exists);
    assert(one.source == first);
}

} // verus!
