//! The concurrent execution engine's decision core: one execution unit per
//! host, each a fail-fast plan of synchronize-then-build steps, plus the
//! aggregation of per-host outcomes into the summary block and the process
//! exit code. The caller performs each planned invocation and reports its
//! result back; every decision — what runs next, what is logged, what the
//! run's verdict is — is made and verified here.

use crate::host::{Host, HostSpec};
use crate::log::{lines_match, spec_cmd_line, spec_error_line, spec_success_line, Log, Output,
    Stream};
use crate::remote::{push_step, Remote, Step, StepKind, StepSpec};
use vstd::prelude::*;

verus! {

/// Whether every host name in the registry is distinct.
pub open spec fn distinct_host_names(hosts: Seq<HostSpec>) -> bool {
    forall|i: int, j: int|
        0 <= i < j < hosts.len() ==> hosts[i].name != hosts[j].name
}

/// The shell text that resets the host's work tree to the synchronization
/// token `hash`.
pub open spec fn spec_reset_cmd(hash: Seq<char>) -> Seq<char> {
    "git reset "@ + hash + " --hard"@
}

/// The full plan for one host: push the tracked tree, reset the remote work
/// tree to the synchronization token, then run each build command in order.
pub open spec fn spec_plan(h: HostSpec, hash: Seq<char>, commands: Seq<Seq<char>>) -> Seq<
    StepSpec,
> {
    seq![
        crate::remote::spec_push_step(h),
        crate::remote::spec_remote_step(h, spec_reset_cmd(hash)),
    ] + commands.map_values(|c: Seq<char>| crate::remote::spec_remote_step(h, c))
}

/// Mathematical image of a [`Unit`].
pub struct UnitSpec {
    pub host_name: Seq<char>,
    pub steps: Seq<StepSpec>,
    pub next: int,
    pub failed: bool,
}

impl UnitSpec {
    /// A unit is done when a step failed or every step was recorded.
    pub open spec fn spec_done(self) -> bool {
        self.failed || self.next == self.steps.len()
    }

    /// The verdict of a finished unit.
    pub open spec fn spec_succeeded(self) -> bool {
        !self.failed
    }
}

/// The state a freshly planned unit starts in.
pub open spec fn spec_fresh_unit(h: HostSpec, hash: Seq<char>, commands: Seq<Seq<char>>) -> UnitSpec {
    UnitSpec { host_name: h.name, steps: spec_plan(h, hash, commands), next: 0, failed: false }
}

/// How recording one step result transforms a unit: success advances the
/// plan, failure finishes the unit at once.
pub open spec fn spec_record(u: UnitSpec, ok: bool) -> UnitSpec {
    if ok {
        UnitSpec { next: u.next + 1, ..u }
    } else {
        UnitSpec { failed: true, ..u }
    }
}

/// The unit reached by feeding step results in order, stopping once the
/// unit is done.
pub open spec fn spec_run_events(u: UnitSpec, events: Seq<bool>) -> UnitSpec
    decreases events.len(),
{
    if events.len() == 0 || u.spec_done() {
        u
    } else {
        spec_run_events(spec_record(u, events[0]), events.drop_first())
    }
}

/// The result of executing one planned step, as reported by the caller.
pub enum StepResult {
    /// The invocation ran and exited with status zero.
    Success,
    /// The invocation could not run or exited nonzero; the text describes
    /// the failure.
    Failed(String),
}

/// The one verdict line a finished unit emits for `name`: a green success
/// line on standard output, or a red failure line on standard error.
pub open spec fn spec_verdict_line(o: Output, name: Seq<char>, ok: bool) -> (Stream, Seq<char>) {
    if ok {
        (Stream::StdOut, spec_success_line(o, name, "Build succeeded"@))
    } else {
        (Stream::StdErr, spec_error_line(o, name, "Build failed"@))
    }
}

/// The lines that recording one step result emits, in order: for a failed
/// remote-shell step, the failure text as a host-tagged error line; then,
/// exactly when the unit thereby finishes, its one verdict line. Nothing
/// else is ever emitted.
pub open spec fn spec_record_lines(u: UnitSpec, o: Output, result: StepResult) -> Seq<
    (Stream, Seq<char>),
> {
    match result {
        StepResult::Success => {
            if u.next + 1 == u.steps.len() {
                seq![spec_verdict_line(o, u.host_name, true)]
            } else {
                Seq::empty()
            }
        },
        StepResult::Failed(msg) => {
            let error_lines: Seq<(Stream, Seq<char>)> = if u.steps[u.next].kind
                == StepKind::RemoteShell {
                seq![(Stream::StdErr, spec_error_line(o, u.host_name, msg@))]
            } else {
                Seq::empty()
            };
            error_lines + seq![spec_verdict_line(o, u.host_name, false)]
        },
    }
}

/// One independent execution unit: the fail-fast plan of steps for a single
/// host and how far it has progressed. Exactly one verdict comes out of it.
pub struct Unit {
    host_name: String,
    steps: Vec<Step>,
    next: usize,
    failed: bool,
}

impl View for Unit {
    type V = UnitSpec;

    closed spec fn view(&self) -> UnitSpec {
        UnitSpec {
            host_name: self.host_name@,
            steps: self.steps.deep_view(),
            next: self.next as int,
            failed: self.failed,
        }
    }
}

impl Unit {
    #[verifier::type_invariant]
    spec fn type_inv(&self) -> bool {
        self.next <= self.steps.len()
    }

    /// A fresh unit for `host`: push, reset to `hash`, then run each of
    /// `commands` in order.
    pub fn new(host: &Host, hash: &str, commands: &Vec<String>) -> (u: Unit)
        ensures
            u@ == spec_fresh_unit(host@, hash@, commands.deep_view()),
    {
        let remote = Remote::new(host);

        let mut steps: Vec<Step> = Vec::new();
        steps.push(push_step(host));

        let mut reset = String::from_str("git reset ");
        reset.append(hash);
        reset.append(" --hard");
        steps.push(remote.run(reset.as_str()));

        let mut i: usize = 0;
        while i < commands.len()
            invariant
                remote.host@ == host@,
                i <= commands.len(),
                steps.deep_view() =~= spec_plan(
                    host@,
                    hash@,
                    commands.deep_view().take(i as int),
                ),
            decreases commands.len() - i,
        {
            let ghost prior = steps.deep_view();
            let step = remote.run(commands[i].as_str());
            proof {
                assert(step@ == crate::remote::spec_remote_step(
                    host@,
                    commands.deep_view()[i as int],
                ));
            }
            steps.push(step);
            proof {
                assert(steps.deep_view() =~= prior.push(
                    crate::remote::spec_remote_step(host@, commands.deep_view()[i as int]),
                ));
                assert(commands.deep_view().take(i + 1).map_values(
                    |c: Seq<char>| crate::remote::spec_remote_step(host@, c),
                ) =~= commands.deep_view().take(i as int).map_values(
                    |c: Seq<char>| crate::remote::spec_remote_step(host@, c),
                ).push(crate::remote::spec_remote_step(host@, commands.deep_view()[i as int])));
                assert(steps.deep_view() =~= spec_plan(
                    host@,
                    hash@,
                    commands.deep_view().take(i + 1),
                ));
            }
            i = i + 1;
        }
        proof {
            assert(commands.deep_view().take(commands.deep_view().len() as int)
                =~= commands.deep_view());
        }

        let u = Unit { host_name: host.name.clone(), steps, next: 0, failed: false };
        proof {
            assert(u@ =~= spec_fresh_unit(host@, hash@, commands.deep_view()));
        }
        u
    }

    /// The host this unit's verdict belongs to.
    pub fn host_name(&self) -> (r: &String)
        ensures
            r@ == self@.host_name,
    {
        &self.host_name
    }

    /// Whether the unit has finished: a step failed, or every step ran.
    pub fn done(&self) -> (b: bool)
        ensures
            b == self@.spec_done(),
    {
        proof {
            use_type_invariant(self);
        }
        self.failed || self.next == self.steps.len()
    }

    /// The pending step, next to be executed.
    pub fn current(&self) -> (s: &Step)
        requires
            !self@.spec_done(),
        ensures
            s@ == self@.steps[self@.next],
    {
        proof {
            use_type_invariant(self);
        }
        &self.steps[self.next]
    }

    /// Announces the pending step: echoes its command text through the sink
    /// under the step's header, exactly as it is about to run. The emitted
    /// echo line comes back to the caller, exactly as written.
    pub fn start(&self, output: &Output) -> (emitted: String)
        requires
            !self@.spec_done(),
        ensures
            emitted@ == spec_cmd_line(
                *output,
                self@.steps[self@.next].header,
                self@.steps[self@.next].title,
            ),
    {
        proof {
            use_type_invariant(self);
        }
        let step = &self.steps[self.next];
        let log = Log::new(step.header.as_str(), output);
        log.cmd(step.title.as_str())
    }

    /// Records the pending step's result. Success advances the plan; a
    /// failure finishes the unit at once — no later step will be offered —
    /// and, for a remote-shell step, emits the failure text as an error line
    /// under the host's header. When the unit thereby finishes, its verdict
    /// is emitted: a green `Build succeeded` or a red `Build failed` line.
    /// The emitted lines come back to the caller, exactly as written and in
    /// emission order.
    pub fn record(&mut self, output: &Output, result: &StepResult) -> (emitted: Vec<
        (Stream, String),
    >)
        requires
            !old(self)@.spec_done(),
        ensures
            final(self)@ == spec_record(old(self)@, *result matches StepResult::Success),
            lines_match(emitted@, spec_record_lines(old(self)@, *output, *result)),
    {
        proof {
            use_type_invariant(&*self);
        }
        let mut emitted: Vec<(Stream, String)> = Vec::new();
        let step_kind = self.steps[self.next].kind;
        match result {
            StepResult::Success => {
                self.next = self.next + 1;
            },
            StepResult::Failed(msg) => {
                if step_kind == StepKind::RemoteShell {
                    let log = Log::new(self.host_name.as_str(), output);
                    let line = log.error(msg.as_str());
                    emitted.push((Stream::StdErr, line));
                }
                self.failed = true;
            },
        }
        if self.failed || self.next == self.steps.len() {
            let log = Log::new(self.host_name.as_str(), output);
            if !self.failed {
                let line = log.success("Build succeeded");
                emitted.push((Stream::StdOut, line));
            } else {
                let line = log.error("Build failed");
                emitted.push((Stream::StdErr, line));
            }
        }
        proof {
            assert(lines_match(emitted@, spec_record_lines(old(self)@, *output, *result)));
        }
        emitted
    }

    /// The verdict of a finished unit: true only if synchronization and
    /// every build command succeeded.
    pub fn succeeded(&self) -> (b: bool)
        requires
            self@.spec_done(),
        ensures
            b == self@.spec_succeeded(),
    {
        !self.failed
    }
}

/// LAW (fail-fast within a host): when the pending step of an unfinished
/// unit fails, the unit is done at once with a failure verdict, and its plan
/// has not advanced — the steps after the failing one are never dispatched.
pub proof fn lemma_failure_is_final(u: UnitSpec)
    requires
        !u.spec_done(),
    ensures
        spec_record(u, false).spec_done(),
        !spec_record(u, false).spec_succeeded(),
        spec_record(u, false).next == u.next,
{
}

/// LAW (success verdict): a unit that records success for every remaining
/// planned step finishes, and reports success.
pub proof fn lemma_all_steps_succeed(u: UnitSpec, events: Seq<bool>)
    requires
        0 <= u.next <= u.steps.len(),
        !u.failed,
        events.len() == u.steps.len() - u.next,
        forall|i: int| 0 <= i < events.len() ==> events[i],
    ensures
        spec_run_events(u, events).spec_done(),
        spec_run_events(u, events).spec_succeeded(),
    decreases events.len(),
{
    if events.len() > 0 {
        lemma_all_steps_succeed(spec_record(u, true), events.drop_first());
    }
}

/// LAW (failure verdict, commands after a failure never run): when the
/// step results contain a first failure, the unit finishes with a failure
/// verdict and its plan stops exactly at the failing step.
pub proof fn lemma_first_failure_fails(u: UnitSpec, events: Seq<bool>, k: int)
    requires
        0 <= u.next,
        !u.failed,
        0 <= k < events.len(),
        events.len() <= u.steps.len() - u.next,
        forall|i: int| 0 <= i < k ==> events[i],
        !events[k],
    ensures
        spec_run_events(u, events).spec_done(),
        !spec_run_events(u, events).spec_succeeded(),
        spec_run_events(u, events).next == u.next + k,
    decreases k,
{
    if k == 0 {
        let u1 = spec_record(u, false);
        assert(spec_run_events(u, events) == spec_run_events(u1, events.drop_first()));
    } else {
        lemma_first_failure_fails(spec_record(u, true), events.drop_first(), k - 1);
    }
}

/// One fresh unit per registry host, in registry order.
pub fn plan_units(hosts: &Vec<Host>, hash: &str, commands: &Vec<String>) -> (units: Vec<Unit>)
    ensures
        units@.len() == hosts@.len(),
        forall|i: int|
            0 <= i < hosts@.len() ==> units@[i]@ == spec_fresh_unit(
                hosts@[i]@,
                hash@,
                commands.deep_view(),
            ),
{
    let mut units: Vec<Unit> = Vec::new();
    let mut i: usize = 0;
    while i < hosts.len()
        invariant
            i <= hosts.len(),
            units@.len() == i,
            forall|j: int|
                0 <= j < i ==> units@[j]@ == spec_fresh_unit(
                    hosts@[j]@,
                    hash@,
                    commands.deep_view(),
                ),
        decreases hosts.len() - i,
    {
        units.push(Unit::new(&hosts[i], hash, commands));
        i = i + 1;
    }
    units
}

/// LAW (one outcome per host): outcomes collected in order from the planned
/// units cover the registry exactly — as many outcomes as hosts, the i-th
/// outcome named after the i-th host, and, when registry names are distinct,
/// no two outcomes for the same host.
pub proof fn lemma_outcomes_cover_registry(
    hosts: Seq<HostSpec>,
    units: Seq<UnitSpec>,
    outcomes: Seq<(Seq<char>, bool)>,
)
    requires
        units.len() == hosts.len(),
        forall|i: int| 0 <= i < units.len() ==> units[i].host_name == hosts[i].name,
        outcomes.len() == units.len(),
        forall|i: int| 0 <= i < outcomes.len() ==> outcomes[i].0 == units[i].host_name,
    ensures
        outcomes.len() == hosts.len(),
        forall|i: int| 0 <= i < outcomes.len() ==> outcomes[i].0 == hosts[i].name,
        distinct_host_names(hosts) ==> forall|i: int, j: int|
            0 <= i < j < outcomes.len() ==> outcomes[i].0 != outcomes[j].0,
{
}

/// Whether every collected outcome is a success.
pub open spec fn spec_all_succeeded(results: Seq<(String, bool)>) -> bool {
    forall|i: int| 0 <= i < results.len() ==> results[i].1
}

/// True only if every per-host outcome reports success.
pub fn all_succeeded(results: &Vec<(String, bool)>) -> (b: bool)
    ensures
        b == spec_all_succeeded(results@),
{
    let mut all = true;
    let mut i: usize = 0;
    while i < results.len()
        invariant
            i <= results.len(),
            all == (forall|j: int| 0 <= j < i ==> results@[j].1),
        decreases results.len() - i,
    {
        all = all && results[i].1;
        i = i + 1;
    }
    all
}

/// Whether the summary block is shown: only when more than one host was
/// targeted.
pub fn prints_summary(results: &Vec<(String, bool)>) -> (b: bool)
    ensures
        b <==> results@.len() >= 2,
{
    results.len() > 1
}

/// The text of the summary banner, written as one emission.
pub open spec fn summary_banner() -> Seq<char> {
    "\n---------- Summary ----------\n"@
}

/// The whole summary block: the banner, then exactly one verdict line per
/// collected outcome, in registry order.
pub open spec fn spec_summary_lines(results: Seq<(String, bool)>, o: Output) -> Seq<
    (Stream, Seq<char>),
> {
    seq![(Stream::StdOut, summary_banner())] + Seq::new(
        results.len(),
        |i: int| spec_verdict_line(o, results[i].0@, results[i].1),
    )
}

/// Prints the summary block: a banner, then one verdict line per host, in
/// registry order — a green `Build succeeded` or a red `Build failed` under
/// each host's header. The emitted lines come back to the caller, exactly
/// as written and in emission order.
pub fn print_summary(results: &Vec<(String, bool)>, output: &Output) -> (emitted: Vec<
    (Stream, String),
>)
    ensures
        lines_match(emitted@, spec_summary_lines(results@, *output)),
{
    let mut emitted: Vec<(Stream, String)> = Vec::new();
    let banner = String::from_str("\n---------- Summary ----------\n");
    output.emit(Stream::StdOut, banner.clone());
    emitted.push((Stream::StdOut, banner));

    let mut i: usize = 0;
    while i < results.len()
        invariant
            i <= results.len(),
            emitted@.len() == i + 1,
            emitted@[0].0 == Stream::StdOut && emitted@[0].1@ == summary_banner(),
            forall|j: int|
                1 <= j < emitted@.len() ==> #[trigger] emitted@[j].0 == spec_verdict_line(
                    *output,
                    results@[j - 1].0@,
                    results@[j - 1].1,
                ).0 && emitted@[j].1@ == spec_verdict_line(
                    *output,
                    results@[j - 1].0@,
                    results@[j - 1].1,
                ).1,
        decreases results.len() - i,
    {
        let log = Log::new(results[i].0.as_str(), output);
        if results[i].1 {
            let line = log.success("Build succeeded");
            emitted.push((Stream::StdOut, line));
        } else {
            let line = log.error("Build failed");
            emitted.push((Stream::StdErr, line));
        }
        i = i + 1;
    }
    proof {
        let expected = spec_summary_lines(results@, *output);
        assert(emitted@.len() == expected.len());
        assert forall|k: int|
            0 <= k < emitted@.len() implies #[trigger] emitted@[k].0 == expected[k].0
            && emitted@[k].1@ == expected[k].1 by {
            if k == 0 {
                assert(expected[0] == (Stream::StdOut, summary_banner()));
            } else {
                assert(expected[k] == spec_verdict_line(
                    *output,
                    results@[k - 1].0@,
                    results@[k - 1].1,
                ));
                assert(emitted@[k].0 == spec_verdict_line(
                    *output,
                    results@[k - 1].0@,
                    results@[k - 1].1,
                ).0);
            }
        }
        assert(lines_match(emitted@, expected));
    }
    emitted
}

/// Reduces the collected per-host outcomes to the process exit code,
/// printing the summary block first when — and only when — more than one
/// host was targeted. The exit code is 0 exactly when every outcome is a
/// success, and 1 exactly when at least one is a failure; the lines emitted
/// for the summary come back beside it, exactly as written: none for a run
/// of fewer than two hosts, the whole block otherwise.
pub fn aggregate(results: &Vec<(String, bool)>, output: &Output) -> (r: (i32, Vec<
    (Stream, String),
>))
    ensures
        r.0 == 0 <==> spec_all_succeeded(results@),
        r.0 == 1 <==> !spec_all_succeeded(results@),
        results@.len() < 2 ==> r.1@.len() == 0,
        results@.len() >= 2 ==> lines_match(r.1@, spec_summary_lines(results@, *output)),
{
    let emitted: Vec<(Stream, String)> = if prints_summary(results) {
        print_summary(results, output)
    } else {
        Vec::new()
    };
    let code: i32 = if all_succeeded(results) {
        0
    } else {
        1
    };
    (code, emitted)
}

} // verus!
