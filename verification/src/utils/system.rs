//! Commands the tool runs on the router, the checks it makes of the system
//! it runs on, and the patches it applies to system files.

use vstd::prelude::*;

use crate::error::CatoolsError;
use crate::text::{
    contains_seq, lemma_replace_absent, lemma_short_not_contains, replace_all, replace_str, starts_with, str_eq, trim,
    trim_str, views,
};

verus! {

/// A program to run with its arguments.
pub struct Command {
    pub program: String,
    pub args: Vec<String>,
}

/// What a command runs: the program and the texts of its arguments.
pub type CommandView = (Seq<char>, Seq<Seq<char>>);

/// The program and arguments of `c`.
pub open spec fn command_view(c: Command) -> CommandView {
    (c.program@, views(c.args@))
}

/// The programs and arguments of a sequence of commands.
pub open spec fn commands_view(cs: Seq<Command>) -> Seq<CommandView> {
    cs.map_values(|c: Command| command_view(c))
}

/// `c` runs `program` with the arguments `args`.
pub open spec fn command_is(c: Command, program: Seq<char>, args: Seq<Seq<char>>) -> bool {
    command_view(c) == (program, args)
}

/// A step of a plan: a command, and whether its failure ends the plan.
pub struct Step {
    pub command: Command,
    /// When `true`, a failure of the command is the plan's error and no later
    /// step runs; when `false`, a failure is ignored.
    pub checked: bool,
}

/// What a step runs, and whether its failure ends the plan.
pub open spec fn step_view(s: Step) -> (CommandView, bool) {
    (command_view(s.command), s.checked)
}

/// The views of a sequence of steps.
pub open spec fn steps_view(ss: Seq<Step>) -> Seq<(CommandView, bool)> {
    ss.map_values(|s: Step| step_view(s))
}

/// Pushing to a sequence of commands pushes to its views.
pub proof fn lemma_commands_view_push(cs: Seq<Command>, c: Command)
    ensures
        commands_view(cs.push(c)) == commands_view(cs).push(command_view(c)),
{
    assert(commands_view(cs.push(c)) =~= commands_view(cs).push(command_view(c)));
}

/// Pushing to a sequence of steps pushes to its views.
pub proof fn lemma_steps_view_push(ss: Seq<Step>, s: Step)
    ensures
        steps_view(ss.push(s)) == steps_view(ss).push(step_view(s)),
{
    assert(steps_view(ss.push(s)) =~= steps_view(ss).push(step_view(s)));
}

/// Appends the command `c` to the plan `r`.
pub fn push_command(r: &mut Vec<Command>, c: Command)
    ensures
        final(r)@ == old(r)@.push(c),
        commands_view(final(r)@) == commands_view(old(r)@).push(command_view(c)),
{
    proof {
        lemma_commands_view_push(r@, c);
    }
    r.push(c);
}

/// Appends the step that runs `c` to the plan `r`; `checked` says whether a
/// failure of `c` ends the plan.
pub fn push_step(r: &mut Vec<Step>, c: Command, checked: bool)
    ensures
        steps_view(final(r)@) == steps_view(old(r)@).push((command_view(c), checked)),
{
    let s = Step { command: c, checked };
    proof {
        lemma_steps_view_push(r@, s);
    }
    r.push(s);
}

/// Every command of `cs` as a checked step.
pub fn checked_steps(cs: Vec<Command>) -> (r: Vec<Step>)
    ensures
        steps_view(r@) == commands_view(cs@).map_values(|c: CommandView| (c, true)),
{
    let ghost all = cs@;
    let mut r: Vec<Step> = Vec::new();
    let mut rest = cs;
    let n = rest.len();
    let mut k: usize = 0;
    assert(commands_view(all.take(0)).map_values(|c: CommandView| (c, true)) =~= steps_view(r@));
    while k < n
        invariant
            n == all.len(),
            k <= n,
            rest@ == all.skip(k as int),
            steps_view(r@) == commands_view(all.take(k as int)).map_values(
                |c: CommandView| (c, true),
            ),
        decreases n - k,
    {
        let c = rest.remove(0);
        assert(c == all[k as int]);
        assert(all.skip(k as int).remove(0) =~= all.skip(k + 1));
        assert(commands_view(all.take(k + 1)).map_values(|c: CommandView| (c, true))
            =~= commands_view(all.take(k as int)).map_values(|c: CommandView| (c, true)).push(
            (command_view(c), true),
        ));
        push_step(&mut r, c, true);
        k = k + 1;
    }
    assert(all.take(n as int) =~= all);
    r
}

/// What comes next while a plan runs.
pub enum PlanNext {
    /// Run the step at this index.
    Run(usize),
    /// The plan is over with this error: a checked step failed.
    Stop(CatoolsError),
    /// The plan is over and succeeded.
    Done,
}

/// What follows step `k` of a plan whose steps are `checked` (whether each
/// one's failure ends the plan), once that step gave `outcome`: a failed
/// checked step stops the plan with its error; otherwise the next step runs,
/// or the plan is done after its last step.
pub open spec fn plan_next(
    checked: Seq<bool>,
    k: int,
    outcome: Result<String, CatoolsError>,
) -> PlanNext {
    match outcome {
        Err(e) if checked[k] => PlanNext::Stop(e),
        _ => if k + 1 < checked.len() {
            PlanNext::Run((k + 1) as usize)
        } else {
            PlanNext::Done
        },
    }
}

/// Whether each step of a plan ends it when it fails.
pub open spec fn checked_flags(plan: Seq<Step>) -> Seq<bool> {
    plan.map_values(|s: Step| s.checked)
}

/// The outcome of running a plan from step `k` on, where `outs[i]` is what
/// step `i` gives: the steps run in order, each at most once, and the first
/// checked step that fails ends the plan with its error.
pub open spec fn plan_outcome(
    checked: Seq<bool>,
    outs: Seq<Result<String, CatoolsError>>,
    k: int,
) -> Result<(), CatoolsError>
    decreases checked.len() - k,
{
    if k < 0 || k >= checked.len() {
        Ok(())
    } else {
        match plan_next(checked, k, outs[k]) {
            PlanNext::Run(_) => plan_outcome(checked, outs, k + 1),
            PlanNext::Stop(e) => Err(e),
            PlanNext::Done => Ok(()),
        }
    }
}

/// The first step of a plan: its first step, or done at once if it has none.
pub fn plan_start(plan: &Vec<Step>) -> (r: PlanNext)
    ensures
        plan@.len() == 0 ==> r is Done,
        plan@.len() > 0 ==> r == PlanNext::Run(0),
{
    if plan.len() == 0 {
        PlanNext::Done
    } else {
        PlanNext::Run(0)
    }
}

/// What follows step `k` of `plan` once it gave `outcome`.
pub fn plan_step(plan: &Vec<Step>, k: usize, outcome: Result<String, CatoolsError>) -> (r:
    PlanNext)
    requires
        k < plan@.len(),
    ensures
        r == plan_next(checked_flags(plan@), k as int, outcome),
{
    let checked = plan[k].checked;
    match outcome {
        Err(e) => {
            if checked {
                return PlanNext::Stop(e);
            }
        },
        Ok(_) => {},
    }
    if k < plan.len() - 1 {
        PlanNext::Run(k + 1)
    } else {
        PlanNext::Done
    }
}

/// A plan ends with the error of its first checked step that fails, and
/// succeeds when no checked step fails.
pub proof fn lemma_plan_first_failure(
    checked: Seq<bool>,
    outs: Seq<Result<String, CatoolsError>>,
    k: int,
)
    requires
        0 <= k,
        outs.len() == checked.len(),
    ensures
        (forall|i: int| k <= i < checked.len() ==> !(checked[i] && #[trigger] outs[i] is Err))
            ==> plan_outcome(checked, outs, k) is Ok,
        forall|j: int|
            k <= j < checked.len() && checked[j] && #[trigger] outs[j] is Err && (forall|i: int|
                k <= i < j ==> !(checked[i] && #[trigger] outs[i] is Err)) ==> plan_outcome(
                checked,
                outs,
                k,
            ) == Err::<(), CatoolsError>(outs[j]->Err_0),
    decreases checked.len() - k,
{
    if k < checked.len() {
        lemma_plan_first_failure(checked, outs, k + 1);
        assert forall|j: int|
            k <= j < checked.len() && checked[j] && #[trigger] outs[j] is Err && (forall|i: int|
                k <= i < j ==> !(checked[i] && #[trigger] outs[i] is Err)) implies plan_outcome(
            checked,
            outs,
            k,
        ) == Err::<(), CatoolsError>(outs[j]->Err_0) by {
            if j > k {
                assert(!(checked[k] && outs[k] is Err));
                assert forall|i: int| k + 1 <= i < j implies !(checked[i] && #[trigger] outs[i] is Err) by {
                    assert(!(checked[i] && outs[i] is Err));
                }
            }
        }
    }
}

/// A plan none of whose steps is checked succeeds, whatever its steps give.
pub proof fn lemma_unchecked_plan_succeeds(
    checked: Seq<bool>,
    outs: Seq<Result<String, CatoolsError>>,
)
    requires
        outs.len() == checked.len(),
        forall|i: int| 0 <= i < checked.len() ==> !checked[i],
    ensures
        plan_outcome(checked, outs, 0) is Ok,
{
    lemma_plan_first_failure(checked, outs, 0);
}

/// Builds a command from a program name and its arguments.
pub fn command(program: &str, args: Vec<String>) -> (c: Command)
    ensures
        c.program@ == program@,
        c.args@ == args@,
{
    Command { program: String::from_str(program), args }
}

/// The message of the error for a command that exited with failure.
pub open spec fn command_failed_message(program: Seq<char>, stderr: Seq<char>) -> Seq<char> {
    "Command "@ + program + " failed: "@ + stderr
}

/// What running `program` comes to, once it has exited: its standard output
/// if it succeeded, else an error that quotes its standard error.
pub fn command_outcome(program: &str, success: bool, stdout: String, stderr: &str) -> (r: Result<
    String,
    CatoolsError,
>)
    ensures
        success ==> r == Ok::<String, CatoolsError>(stdout),
        !success ==> (r matches Err(CatoolsError::CommandError(m)) && m@ == command_failed_message(
            program@,
            stderr@,
        )),
{
    if success {
        Ok(stdout)
    } else {
        let mut m = String::from_str("Command ");
        m.append(program);
        m.append(" failed: ");
        m.append(stderr);
        Err(CatoolsError::CommandError(m))
    }
}

/// The message when the tool does not run as root.
pub open spec fn not_root_message() -> Seq<char> {
    "This tool requires root privileges. Please run with sudo or as root."@
}

/// Decides from the output of `id -u` whether the tool runs as root: the
/// output, trimmed, must be `0`.
pub fn check_root(id_output: &str) -> (r: Result<(), CatoolsError>)
    ensures
        r is Ok <==> trim(id_output@) == "0"@,
        r matches Err(e) ==> (e matches CatoolsError::CommandError(m) && m@ == not_root_message()),
{
    let uid = trim_str(id_output);
    if !str_eq(uid.as_str(), "0") {
        return Err(CatoolsError::CommandError(String::from_str(
            "This tool requires root privileges. Please run with sudo or as root.",
        )));
    }
    Ok(())
}

/// The message when the system is not OpenWrt.
pub open spec fn not_openwrt_message() -> Seq<char> {
    "This tool is designed for OpenWrt/CatWrt systems."@
}

/// Decides whether the tool runs on OpenWrt: `/etc/openwrt_release` must
/// exist.
pub fn check_openwrt(release_file_exists: bool) -> (r: Result<(), CatoolsError>)
    ensures
        r is Ok <==> release_file_exists,
        r matches Err(e) ==> (e matches CatoolsError::CommandError(m) && m@
            == not_openwrt_message()),
{
    if !release_file_exists {
        return Err(CatoolsError::CommandError(String::from_str(
            "This tool is designed for OpenWrt/CatWrt systems.",
        )));
    }
    Ok(())
}

/// The command that restarts the init script `service`.
pub fn restart_service(service: &str) -> (c: Command)
    ensures
        command_is(c, "/etc/init.d"@, seq![service@, "restart"@]),
{
    let mut args: Vec<String> = Vec::new();
    args.push(String::from_str(service));
    args.push(String::from_str("restart"));
    let c = command("/etc/init.d", args);
    assert(views(c.args@) =~= seq![service@, "restart"@]);
    c
}

/// The banner with the old domain `miaoer.xyz` replaced by `miaoer.net`
/// everywhere.
pub fn patch_banner_domains(banner: &str) -> (r: String)
    ensures
        r@ == patched_banner(banner@),
{
    proof {
        reveal_strlit("miaoer.xyz");
    }
    replace_str(banner, "miaoer.xyz", "miaoer.net")
}

/// The domain the banner used to name.
pub open spec fn old_domain() -> Seq<char> {
    "miaoer.xyz"@
}

/// The domain the banner names now.
pub open spec fn new_domain() -> Seq<char> {
    "miaoer.net"@
}

/// The banner patched: every occurrence of the old domain replaced.
pub open spec fn patched_banner(banner: Seq<char>) -> Seq<char> {
    replace_all(banner, old_domain(), new_domain())
}

/// If the patched text starts with the old domain less its first `k`
/// characters, so does the text itself: a replacement puts an `m` where
/// none of those tails starts.
proof fn lemma_patched_tail(t: Seq<char>, k: int)
    requires
        1 <= k < 10,
        starts_with(patched_banner(t), old_domain().skip(k)),
    ensures
        starts_with(t, old_domain().skip(k)),
    decreases t.len(),
{
    reveal_strlit("miaoer.xyz");
    reveal_strlit("miaoer.net");
    let x = old_domain();
    let q = x.skip(k);
    let r = patched_banner(t);
    assert(q[0] == x[k]);
    if t.len() < 10 {
    } else if t.take(10) == x {
        assert(r == new_domain() + patched_banner(t.skip(10)));
        assert(r.take(q.len() as int)[0] == r[0]);
        assert(r[0] == 'm');
    } else {
        let r2 = patched_banner(t.drop_first());
        assert(r == seq![t[0]] + r2);
        assert(r.take(q.len() as int)[0] == t[0]);
        if k < 9 {
            assert(r2.take(q.len() - 1) =~= r.take(q.len() as int).drop_first());
            assert(q.drop_first() =~= x.skip(k + 1));
            lemma_patched_tail(t.drop_first(), k + 1);
            assert(t.take(q.len() as int) =~= seq![t[0]] + t.drop_first().take(q.len() - 1));
            assert(t.take(q.len() as int) =~= q);
        } else {
            assert(t.take(1) =~= seq![t[0]]);
            assert(q =~= seq![q[0]]);
        }
    }
}

/// The new domain, from its `j`-th character on, followed by a text free of
/// the old domain, is free of it: no tail of the new domain starts a copy.
proof fn lemma_new_domain_then_clean(r: Seq<char>, j: int)
    requires
        0 <= j <= 10,
        !contains_seq(r, old_domain()),
    ensures
        !contains_seq(new_domain().skip(j) + r, old_domain()),
    decreases 10 - j,
{
    reveal_strlit("miaoer.xyz");
    reveal_strlit("miaoer.net");
    let n = new_domain();
    let u = n.skip(j) + r;
    if j < 10 {
        lemma_new_domain_then_clean(r, j + 1);
        assert(u.drop_first() =~= n.skip(j + 1) + r);
        assert(u[0] == n[j]);
        if j == 0 {
            assert(u.take(10) =~= n);
            assert(n[7] != old_domain()[7]);
        } else {
            assert(old_domain()[0] == 'm');
        }
        assert(!starts_with(u, old_domain())) by {
            if starts_with(u, old_domain()) {
                assert(u.take(10)[0] == u[0]);
                if j == 0 {
                    assert(u.take(10)[7] == n[7]);
                }
            }
        }
    } else {
        assert(u =~= r);
    }
}

/// The patched banner no longer names the old domain.
proof fn lemma_patched_clean(s: Seq<char>)
    ensures
        !contains_seq(patched_banner(s), old_domain()),
    decreases s.len(),
{
    reveal_strlit("miaoer.xyz");
    reveal_strlit("miaoer.net");
    let x = old_domain();
    let r = patched_banner(s);
    if s.len() < 10 {
        lemma_short_not_contains(s, x);
    } else if s.take(10) == x {
        lemma_patched_clean(s.skip(10));
        lemma_new_domain_then_clean(patched_banner(s.skip(10)), 0);
        assert(new_domain().skip(0) =~= new_domain());
    } else {
        let r2 = patched_banner(s.drop_first());
        lemma_patched_clean(s.drop_first());
        assert(r == seq![s[0]] + r2);
        assert(r.drop_first() =~= r2);
        assert(!starts_with(r, x)) by {
            if starts_with(r, x) {
                assert(r.take(10)[0] == s[0]);
                assert(r2.take(9) =~= r.take(10).drop_first());
                assert(x.drop_first() =~= x.skip(1));
                lemma_patched_tail(s.drop_first(), 1);
                assert(s.take(10) =~= seq![s[0]] + s.drop_first().take(9));
                assert(s.take(10) =~= x);
            }
        }
    }
}

/// Patching the banner leaves no mention of the old domain, so patching it
/// again (as every start of the tool does) changes nothing.
pub proof fn lemma_banner_patch_idempotent(banner: Seq<char>)
    ensures
        !contains_seq(patched_banner(banner), old_domain()),
        patched_banner(patched_banner(banner)) == patched_banner(banner),
{
    reveal_strlit("miaoer.xyz");
    lemma_patched_clean(banner);
    lemma_replace_absent(patched_banner(banner), old_domain(), new_domain());
}

/// The release file written when there is none.
pub open spec fn default_release() -> Seq<char> {
    "CATWRT_RELEASE=\"v25.8\"\nCATWRT_ARCH=\"unknown\"\n"@
}

/// What to write to `/etc/catwrt_release`: nothing if it exists, else a
/// default release description.
pub fn patch_catwrt_release(release_file_exists: bool) -> (r: Option<String>)
    ensures
        release_file_exists ==> r is None,
        !release_file_exists ==> (r matches Some(s) && s@ == default_release()),
{
    if release_file_exists {
        None
    } else {
        Some(String::from_str("CATWRT_RELEASE=\"v25.8\"\nCATWRT_ARCH=\"unknown\"\n"))
    }
}

} // verus!
