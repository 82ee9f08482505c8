//! The init flow: an explicit state machine over the steps of one `init`
//! run. The binary performs each step's side effect and reports whether it
//! succeeded; the machine decides what comes next. A failure at any step
//! abandons the run, so no later step is ever reached.
use vstd::prelude::*;
use vstd::string::StringExecFns;
use crate::text::{contains_text, occurs_at};

verus! {

/// The steps of one `init` run, in order, plus the two terminal states.
#[derive(Clone, Copy, Debug, PartialEq, Eq, Structural)]
pub enum Step {
    /// Create the project root directory.
    CreateRoot,
    /// Run the external package-init command inside the root.
    RunInit,
    /// Write the template catalog into the root.
    WriteTemplates,
    /// Write the generated package manifest into the root.
    WriteManifest,
    /// Every step succeeded.
    Done,
    /// Some step failed; the run is abandoned.
    Failed,
}

/// The step that follows `s` when its side effect succeeded (`ok`) or
/// failed (`!ok`). The terminal states stay put.
pub open spec fn step_after(s: Step, ok: bool) -> Step {
    match s {
        Step::CreateRoot => if ok {
            Step::RunInit
        } else {
            Step::Failed
        },
        Step::RunInit => if ok {
            Step::WriteTemplates
        } else {
            Step::Failed
        },
        Step::WriteTemplates => if ok {
            Step::WriteManifest
        } else {
            Step::Failed
        },
        Step::WriteManifest => if ok {
            Step::Done
        } else {
            Step::Failed
        },
        Step::Done => Step::Done,
        Step::Failed => Step::Failed,
    }
}

/// Advances the flow by one step: `ok` reports whether the side effect of
/// `s` succeeded.
pub fn next_step(s: Step, ok: bool) -> (r: Step)
    ensures
        r == step_after(s, ok),
{
    match s {
        Step::CreateRoot => if ok {
            Step::RunInit
        } else {
            Step::Failed
        },
        Step::RunInit => if ok {
            Step::WriteTemplates
        } else {
            Step::Failed
        },
        Step::WriteTemplates => if ok {
            Step::WriteManifest
        } else {
            Step::Failed
        },
        Step::WriteManifest => if ok {
            Step::Done
        } else {
            Step::Failed
        },
        Step::Done => Step::Done,
        Step::Failed => Step::Failed,
    }
}

/// Whether `s` is terminal: the run is over and no side effect remains.
pub fn is_terminal(s: Step) -> (r: bool)
    ensures
        r == (s == Step::Done || s == Step::Failed),
{
    match s {
        Step::Done => true,
        Step::Failed => true,
        _ => false,
    }
}

/// The states visited when the flow starts at `s` and the side effects
/// report `events`, one outcome per step taken.
pub open spec fn states_from(s: Step, events: Seq<bool>) -> Seq<Step>
    decreases events.len(),
{
    if events.len() == 0 {
        seq![s]
    } else {
        seq![s] + states_from(step_after(s, events[0]), events.drop_first())
    }
}

/// The states of a whole run: the flow starts at `CreateRoot`.
pub open spec fn run_states(events: Seq<bool>) -> Seq<Step> {
    states_from(Step::CreateRoot, events)
}

/// Once the flow has failed it stays failed, whatever the later outcomes
/// are.
pub proof fn lemma_failed_is_absorbing(events: Seq<bool>)
    ensures
        forall|i: int|
            0 <= i < states_from(Step::Failed, events).len()
                ==> states_from(Step::Failed, events)[i] == Step::Failed,
    decreases events.len(),
{
    if events.len() > 0 {
        lemma_failed_is_absorbing(events.drop_first());
    }
}

/// If the external init command fails, materialization is short-circuited:
/// the run visits neither file-writing step, and never completes.
pub proof fn lemma_failed_init_blocks_writes(events: Seq<bool>)
    requires
        events.len() >= 2,
        events[0],
        !events[1],
    ensures
        forall|i: int|
            0 <= i < run_states(events).len()
                ==> run_states(events)[i] != Step::WriteTemplates && run_states(events)[i]
                != Step::WriteManifest && run_states(events)[i] != Step::Done,
{
    let after_first = events.drop_first();
    let after_second = after_first.drop_first();
    assert(after_first[0] == events[1]);
    assert(run_states(events) == seq![Step::CreateRoot] + states_from(Step::RunInit, after_first));
    assert(states_from(Step::RunInit, after_first) == seq![Step::RunInit] + states_from(
        Step::Failed,
        after_second,
    ));
    lemma_failed_is_absorbing(after_second);
}

/// A run in which every side effect succeeds visits the four steps in
/// order and completes: success is owed to a run without failures.
pub proof fn lemma_clean_run_completes(events: Seq<bool>)
    requires
        events.len() == 4,
        forall|i: int| 0 <= i < events.len() ==> events[i],
    ensures
        run_states(events) == seq![
            Step::CreateRoot,
            Step::RunInit,
            Step::WriteTemplates,
            Step::WriteManifest,
            Step::Done,
        ],
{
    let e1 = events.drop_first();
    let e2 = e1.drop_first();
    let e3 = e2.drop_first();
    let e4 = e3.drop_first();
    assert(e1[0] == events[1] && e2[0] == events[2] && e3[0] == events[3]);
    assert(e4.len() == 0);
    assert(states_from(Step::Done, e4) == seq![Step::Done]);
    assert(states_from(Step::WriteManifest, e3) == seq![Step::WriteManifest] + states_from(
        Step::Done,
        e4,
    ));
    assert(states_from(Step::WriteTemplates, e2) == seq![Step::WriteTemplates] + states_from(
        Step::WriteManifest,
        e3,
    ));
    assert(states_from(Step::RunInit, e1) == seq![Step::RunInit] + states_from(
        Step::WriteTemplates,
        e2,
    ));
    assert(run_states(events) =~= seq![
        Step::CreateRoot,
        Step::RunInit,
        Step::WriteTemplates,
        Step::WriteManifest,
        Step::Done,
    ]);
}

/// Failure text when the project root directory cannot be created; it names
/// the directory.
pub fn dir_failure_message(project_name: &str) -> (r: String)
    ensures
        r@ == "Failed to create project directory: "@ + project_name@,
{
    let mut s = String::new();
    s.append("Failed to create project directory: ");
    s.append(project_name);
    proof {
        assert(s@ =~= "Failed to create project directory: "@ + project_name@);
    }
    s
}

/// Failure text when the external init command cannot be started at all; it
/// names the command that was attempted.
pub fn spawn_failure_message() -> (r: &'static str)
    ensures
        r@ == "Failed to run 'cargo init'"@,
{
    "Failed to run 'cargo init'"
}

/// Failure text when the external init command exits non-zero; the captured
/// standard-error text is carried whole.
pub fn init_failure_message(stderr_text: &str) -> (r: String)
    ensures
        r@ == "Failed to initialize Cargo project: "@ + stderr_text@,
{
    let mut s = String::new();
    s.append("Failed to initialize Cargo project: ");
    s.append(stderr_text);
    proof {
        assert(s@ =~= "Failed to initialize Cargo project: "@ + stderr_text@);
    }
    s
}

/// The failure text for a non-zero external init exit contains the captured
/// standard-error text whole.
pub proof fn lemma_init_failure_keeps_stderr(stderr_text: Seq<char>)
    ensures
        contains_text("Failed to initialize Cargo project: "@ + stderr_text, stderr_text),
{
    let head = "Failed to initialize Cargo project: "@;
    let full = head + stderr_text;
    let p = head.len() as int;
    assert(full.subrange(p, p + stderr_text.len() as int) =~= stderr_text);
    assert(occurs_at(full, stderr_text, p));
}

} // verus!
