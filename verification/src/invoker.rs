use vstd::prelude::*;

verus! {

/// The OS families the invoker knows a command mapping for; any other family
/// is a build-time concern, not a runtime branch.
#[derive(Clone, Copy, PartialEq, Eq, Structural, Debug)]
pub enum OsFamily {
    Windows,
    MacOs,
    Linux,
}

/// A logical action requested of the invoker; it carries no OS-specific
/// detail.
pub enum PlatformAction {
    OpenPath(String),
    RevealInFolder(String),
}

/// One external program invocation: a program name and its argument list.
pub struct Invocation {
    pub program: String,
    pub args: Vec<String>,
}

/// An invocation reduced to its text: the program name and the arguments.
pub open spec fn inv_view(i: Invocation) -> (Seq<char>, Seq<Seq<char>>) {
    (i.program@, i.args@.map_values(|a: String| a@))
}

/// A sequence of invocations reduced to their text.
pub open spec fn invs_view(s: Seq<Invocation>) -> Seq<(Seq<char>, Seq<Seq<char>>)> {
    s.map_values(|i: Invocation| inv_view(i))
}

/// The per-OS command table: for each action and OS family, the ordered
/// invocations to attempt. Opening a target is always a single invocation;
/// revealing a file is a single invocation except on Linux, where an ordered
/// list of file managers is tried in turn.
pub open spec fn spec_invocations(action: PlatformAction, os: OsFamily) -> Seq<
    (Seq<char>, Seq<Seq<char>>),
> {
    match action {
        PlatformAction::OpenPath(t) => match os {
            OsFamily::Windows => seq![("cmd"@, seq!["/C"@, "start"@, t@])],
            OsFamily::MacOs => seq![("open"@, seq![t@])],
            OsFamily::Linux => seq![("xdg-open"@, seq![t@])],
        },
        PlatformAction::RevealInFolder(p) => match os {
            OsFamily::Windows => seq![("explorer"@, seq!["/select,"@, p@])],
            OsFamily::MacOs => seq![("open"@, seq!["-R"@, p@])],
            OsFamily::Linux => seq![
                ("nautilus"@, seq![p@]),
                ("dolphin"@, seq![p@]),
                ("thunar"@, seq![p@]),
                ("pcmanfm"@, seq![p@]),
            ],
        },
    }
}

fn single_invocation(program: &str, args: Vec<String>) -> (r: Vec<Invocation>)
    ensures
        r@.len() == 1,
        r@[0].program@ == program@,
        r@[0].args == args,
{
    let inv = Invocation { program: String::from_str(program), args };
    let mut r: Vec<Invocation> = Vec::new();
    r.push(inv);
    r
}

/// Translates a logical action and an OS family into the ordered external
/// program invocations to attempt, exactly as the command table gives them.
pub fn invocations_for(action: &PlatformAction, os: OsFamily) -> (r: Vec<Invocation>)
    ensures
        invs_view(r@) =~~= spec_invocations(*action, os),
{
    match action {
        PlatformAction::OpenPath(t) => {
            let mut args: Vec<String> = Vec::new();
            let r = match os {
                OsFamily::Windows => {
                    args.push(String::from_str("/C"));
                    args.push(String::from_str("start"));
                    args.push(t.clone());
                    single_invocation("cmd", args)
                },
                OsFamily::MacOs => {
                    args.push(t.clone());
                    single_invocation("open", args)
                },
                OsFamily::Linux => {
                    args.push(t.clone());
                    single_invocation("xdg-open", args)
                },
            };
            proof {
                assert(invs_view(r@) =~~= spec_invocations(*action, os));
            }
            r
        },
        PlatformAction::RevealInFolder(p) => {
            match os {
                OsFamily::Windows => {
                    let mut args: Vec<String> = Vec::new();
                    args.push(String::from_str("/select,"));
                    args.push(p.clone());
                    let r = single_invocation("explorer", args);
                    proof {
                        assert(invs_view(r@) =~~= spec_invocations(*action, os));
                    }
                    r
                },
                OsFamily::MacOs => {
                    let mut args: Vec<String> = Vec::new();
                    args.push(String::from_str("-R"));
                    args.push(p.clone());
                    let r = single_invocation("open", args);
                    proof {
                        assert(invs_view(r@) =~~= spec_invocations(*action, os));
                    }
                    r
                },
                OsFamily::Linux => {
                    let mut r: Vec<Invocation> = Vec::new();
                    let mut args: Vec<String> = Vec::new();
                    args.push(p.clone());
                    r.push(Invocation { program: String::from_str("nautilus"), args });
                    let mut args: Vec<String> = Vec::new();
                    args.push(p.clone());
                    r.push(Invocation { program: String::from_str("dolphin"), args });
                    let mut args: Vec<String> = Vec::new();
                    args.push(p.clone());
                    r.push(Invocation { program: String::from_str("thunar"), args });
                    let mut args: Vec<String> = Vec::new();
                    args.push(p.clone());
                    r.push(Invocation { program: String::from_str("pcmanfm"), args });
                    proof {
                        assert(invs_view(r@) =~~= spec_invocations(*action, os));
                    }
                    r
                },
            }
        },
    }
}

/// What the fallback search does next, after one candidate's spawn outcome
/// is known.
pub enum FallbackStep {
    Report(Result<(), String>),
    TryNext(usize),
}

/// One step of the reveal-in-folder fallback search: a successful spawn ends
/// the search with success at once; a failed spawn moves to the next
/// candidate, or reports the fixed failure message when none is left.
pub fn fallback_step(spawn_ok: bool, attempted: usize, total: usize) -> (d: FallbackStep)
    requires
        attempted < total,
    ensures
        spawn_ok ==> d == FallbackStep::Report(Result::<(), String>::Ok(())),
        !spawn_ok && attempted + 1 < total ==> d == FallbackStep::TryNext((attempted + 1) as usize),
        !spawn_ok && attempted + 1 == total ==> (d matches FallbackStep::Report(res) && res matches Err(m)
            && m@ == "No suitable file manager found"@ && m@.len() > 0),
{
    if spawn_ok {
        FallbackStep::Report(Ok(()))
    } else if attempted + 1 < total {
        FallbackStep::TryNext(attempted + 1)
    } else {
        proof {
            reveal_strlit("No suitable file manager found");
        }
        FallbackStep::Report(Err(String::from_str("No suitable file manager found")))
    }
}

/// The fallback search over a list of spawn outcomes, one per candidate in
/// order: how many candidates are attempted, and whether the search succeeds.
/// An attempt that spawns ends the search; a candidate after it is never
/// attempted.
pub open spec fn fallback_run(outcomes: Seq<bool>) -> (nat, bool)
    decreases outcomes.len(),
{
    if outcomes.len() == 0 {
        (0nat, false)
    } else if outcomes[0] {
        (1nat, true)
    } else {
        let rest = fallback_run(outcomes.drop_first());
        ((rest.0 + 1) as nat, rest.1)
    }
}

/// The fallback search stops at the first candidate whose spawn succeeds:
/// it reports success and attempts no candidate after that one.
pub proof fn lemma_fallback_first_success(outcomes: Seq<bool>, i: int)
    requires
        0 <= i < outcomes.len(),
        outcomes[i],
        forall|j: int| 0 <= j < i ==> !outcomes[j],
    ensures
        fallback_run(outcomes) == ((i + 1) as nat, true),
    decreases i,
{
    if i > 0 {
        assert(outcomes.drop_first()[i - 1] == outcomes[i]);
        assert(forall|j: int| 0 <= j < i - 1 ==> !outcomes.drop_first()[j]);
        lemma_fallback_first_success(outcomes.drop_first(), i - 1);
    }
}

/// A fallback search in which every candidate's spawn fails attempts each
/// candidate once and does not succeed.
pub proof fn lemma_fallback_exhausted(outcomes: Seq<bool>)
    requires
        forall|j: int| 0 <= j < outcomes.len() ==> !outcomes[j],
    ensures
        fallback_run(outcomes) == (outcomes.len(), false),
    decreases outcomes.len(),
{
    if outcomes.len() > 0 {
        assert(forall|j: int| 0 <= j < outcomes.drop_first().len() ==> !outcomes.drop_first()[j]);
        lemma_fallback_exhausted(outcomes.drop_first());
    }
}

/// Where the first candidate fails and the second succeeds, the fallback
/// search reports success after exactly two attempts: the third candidate
/// and any after it are never attempted.
pub proof fn lemma_fallback_short_circuit(outcomes: Seq<bool>)
    requires
        outcomes.len() >= 2,
        !outcomes[0],
        outcomes[1],
    ensures
        fallback_run(outcomes) == (2nat, true),
{
    lemma_fallback_first_success(outcomes, 1);
}

} // verus!
