//! A model of the machine that a detection probes, and the proof that a
//! session driven by its answers reports what the table says of it.

use crate::detection::{
    at_check, current_check, decided, fresh_scan, line_of, passed_over, questions_left,
    report_follows_table, resumed, root_text, settled, started, with_root, ProbeActionView,
    ProbeReplyView, ScanTurnView, TerminalScanView,
};
use crate::platform::OsFamily;
use crate::terminals::{candidates_of, CandidateView, CheckView, TerminalInfoView};
use vstd::prelude::*;

verus! {

/// What a machine holds at one moment, as far as probes can see it.
pub struct ProbeWorld {
    /// The environment variables that are set, with their values.
    pub env: Map<Seq<char>, Seq<char>>,
    /// The paths at which something exists.
    pub paths: Set<Seq<char>>,
    /// The executable names that the command locator resolves.
    pub commands: Set<Seq<char>>,
}

/// The machine's answer to a question.
pub open spec fn answer(world: ProbeWorld, action: ProbeActionView) -> ProbeReplyView {
    match action {
        ProbeActionView::ReadEnv { name } => ProbeReplyView {
            found: world.env.dom().contains(name),
            text: if world.env.dom().contains(name) {
                world.env[name]
            } else {
                Seq::empty()
            },
        },
        ProbeActionView::PathExists { path } => ProbeReplyView {
            found: world.paths.contains(path),
            text: Seq::empty(),
        },
        ProbeActionView::CommandExists { locator, name } => ProbeReplyView {
            found: world.commands.contains(name),
            text: Seq::empty(),
        },
    }
}

/// The value of an environment variable, empty where it is not set.
pub open spec fn env_text(world: ProbeWorld, name: Seq<char>) -> Seq<char> {
    if world.env.dom().contains(name) {
        world.env[name]
    } else {
        Seq::empty()
    }
}

/// Whether a check holds on the machine.
pub open spec fn check_holds(world: ProbeWorld, check: CheckView) -> bool {
    match check {
        CheckView::Command { name } => world.commands.contains(name),
        CheckView::Path { root: None, tail } => world.paths.contains(tail),
        CheckView::Path { root: Some(name), tail } => world.paths.contains(
            env_text(world, name) + tail,
        ),
    }
}

/// A candidate is available where at least one of its checks holds.
pub open spec fn available_in(world: ProbeWorld, candidate: CandidateView) -> bool {
    exists|i: int| 0 <= i < candidate.checks.len() && check_holds(world, #[trigger] candidate.checks[i])
}

/// The report that the table of `family` calls for on the machine: one line
/// per candidate, in table order.
pub open spec fn expected_report(family: OsFamily, world: ProbeWorld) -> Seq<TerminalInfoView> {
    Seq::new(
        candidates_of(family).len(),
        |i: int| line_of(candidates_of(family)[i], available_in(world, candidates_of(family)[i])),
    )
}

/// The report of a session that is resumed with the machine's answers at
/// most `fuel` times, if it ends within them.
pub open spec fn outcome(turn: ScanTurnView, world: ProbeWorld, fuel: nat) -> Option<
    Seq<TerminalInfoView>,
>
    decreases fuel,
{
    match turn {
        ScanTurnView::Report { terminals } => Some(terminals),
        ScanTurnView::Ask { scan, action } => if fuel == 0 {
            None
        } else {
            outcome(resumed(scan, answer(world, action)), world, (fuel - 1) as nat)
        },
    }
}

/// The session has reported the candidates before the current one as the
/// machine has them, and every check of the current one before the pending
/// check fails on the machine.
pub open spec fn on_course(scan: TerminalScanView, world: ProbeWorld) -> bool {
    let table = candidates_of(scan.family);
    &&& scan.candidate <= table.len()
    &&& scan.found == expected_report(scan.family, world).take(scan.candidate as int)
    &&& scan.candidate < table.len() ==> forall|j: int|
        0 <= j < scan.check && j < table[scan.candidate as int].checks.len() ==> !check_holds(
            world,
            #[trigger] table[scan.candidate as int].checks[j],
        )
}

proof fn lemma_decided_on_course(scan: TerminalScanView, world: ProbeWorld, available: bool)
    requires
        on_course(scan, world),
        scan.candidate < candidates_of(scan.family).len(),
        available == available_in(world, candidates_of(scan.family)[scan.candidate as int]),
    ensures
        on_course(decided(scan, available), world),
{
    let next = decided(scan, available);
    let report = expected_report(scan.family, world);
    assert(next.found =~= report.take(next.candidate as int));
}

proof fn lemma_settled_outcome(scan: TerminalScanView, world: ProbeWorld, fuel: nat)
    requires
        on_course(scan, world),
        !scan.rooted,
        fuel >= questions_left(scan.family, scan.candidate, scan.check),
    ensures
        outcome(settled(scan), world, fuel) == Some(expected_report(scan.family, world)),
    decreases
        candidates_of(scan.family).len() - scan.candidate,
        (if at_check(scan) {
            candidates_of(scan.family)[scan.candidate as int].checks.len() - scan.check
        } else {
            0
        }),
{
    let table = candidates_of(scan.family);
    let report = expected_report(scan.family, world);
    if scan.candidate >= table.len() {
        assert(report.take(scan.candidate as int) =~= report);
    } else {
        let candidate = table[scan.candidate as int];
        if !at_check(scan) {
            assert(!available_in(world, candidate));
            lemma_decided_on_course(scan, world, false);
            lemma_settled_outcome(decided(scan, false), world, fuel);
        } else {
            let check = current_check(scan);
            let hit = decided(scan, true);
            let miss = passed_over(scan);
            if check_holds(world, check) {
                assert(available_in(world, candidate));
                lemma_decided_on_course(scan, world, true);
            } else {
                assert(on_course(miss, world));
            }
            match check {
                CheckView::Path { root: Some(name), tail } => {
                    let first = answer(world, ProbeActionView::ReadEnv { name });
                    let path = root_text(first) + tail;
                    let second = answer(world, ProbeActionView::PathExists { path });
                    assert(path == env_text(world, name) + tail);
                    assert(resumed(scan, first) == ScanTurnView::Ask {
                        scan: with_root(scan),
                        action: ProbeActionView::PathExists { path },
                    });
                    assert(decided(with_root(scan), true) == hit);
                    assert(passed_over(with_root(scan)) == miss);
                    let rest = (fuel - 2) as nat;
                    if second.found {
                        lemma_settled_outcome(hit, world, rest);
                    } else {
                        lemma_settled_outcome(miss, world, rest);
                    }
                    assert(outcome(settled(scan), world, fuel) == outcome(
                        resumed(scan, first),
                        world,
                        (fuel - 1) as nat,
                    ));
                    assert(outcome(resumed(scan, first), world, (fuel - 1) as nat) == outcome(
                        resumed(with_root(scan), second),
                        world,
                        rest,
                    ));
                },
                _ => {
                    let rest = (fuel - 1) as nat;
                    if check_holds(world, check) {
                        lemma_settled_outcome(hit, world, rest);
                    } else {
                        lemma_settled_outcome(miss, world, rest);
                    }
                },
            }
        }
    }
}

/// A detection that is resumed with the answers of a machine ends, after no
/// more questions than two for each check of the table, with the report that
/// the table calls for on that machine.
pub proof fn lemma_detection_reports_machine(family: OsFamily, world: ProbeWorld, fuel: nat)
    requires
        fuel >= questions_left(family, 0, 0),
    ensures
        outcome(started(family), world, fuel) == Some(expected_report(family, world)),
{
    let scan = fresh_scan(family);
    assert(scan.found =~= expected_report(family, world).take(0));
    lemma_settled_outcome(scan, world, fuel);
}

/// The report that the table calls for lists the terminals of the table,
/// each once and in table order, whatever the machine holds.
pub proof fn lemma_expected_report_follows_table(family: OsFamily, world: ProbeWorld)
    ensures
        report_follows_table(family, expected_report(family, world)),
{
}

} // verus!
