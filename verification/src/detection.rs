//! The detection session: it walks the table of a family, asks for one probe
//! at a time and turns the answers into the report.
//!
//! A candidate is available as soon as one of its checks holds, so the
//! checks after the first hit are never asked for.

use crate::platform::OsFamily;
use crate::terminals::{
    candidate_views, candidates_of, lemma_candidate_ids_distinct, terminal_candidates,
    terminal_views, Candidate, CandidateView, Check, CheckView, TerminalInfo, TerminalInfoView,
};
use vstd::prelude::*;

verus! {

/// A question to the machine.
pub enum ProbeActionView {
    /// The value of an environment variable.
    ReadEnv { name: Seq<char> },
    /// Whether anything exists at a path.
    PathExists { path: Seq<char> },
    /// Whether the command locator, run with an executable name as its one
    /// argument, exits with status 0.
    CommandExists { locator: Seq<char>, name: Seq<char> },
}

/// A question to the machine, as the session hands it out.
pub enum ProbeAction {
    ReadEnv { name: String },
    PathExists { path: String },
    CommandExists { locator: String, name: String },
}

impl View for ProbeAction {
    type V = ProbeActionView;

    open spec fn view(&self) -> ProbeActionView {
        match self {
            ProbeAction::ReadEnv { name } => ProbeActionView::ReadEnv { name: name@ },
            ProbeAction::PathExists { path } => ProbeActionView::PathExists { path: path@ },
            ProbeAction::CommandExists { locator, name } => ProbeActionView::CommandExists {
                locator: locator@,
                name: name@,
            },
        }
    }
}

/// The answer to a question. `found` says that the variable is set, that the
/// path exists or that the command resolves; a probe that could not be made
/// answers `found: false`. `text` carries the value of a variable that is
/// set and is not read otherwise.
pub struct ProbeReplyView {
    pub found: bool,
    pub text: Seq<char>,
}

/// The answer to a question, as the session takes it.
pub struct ProbeReply {
    pub found: bool,
    pub text: String,
}

impl View for ProbeReply {
    type V = ProbeReplyView;

    open spec fn view(&self) -> ProbeReplyView {
        ProbeReplyView { found: self.found, text: self.text@ }
    }
}

impl ProbeReply {
    /// The answer that the value of an environment variable gives: found
    /// where the variable is set to a text.
    pub fn of_variable(value: Option<String>) -> (reply: ProbeReply)
        ensures
            reply@ == match value {
                Some(text) => ProbeReplyView { found: true, text: text@ },
                None => ProbeReplyView { found: false, text: Seq::empty() },
            },
    {
        match value {
            Some(text) => ProbeReply { found: true, text },
            None => ProbeReply { found: false, text: String::new() },
        }
    }

    /// The answer that a look at a path gives.
    pub fn of_existence(exists: bool) -> (reply: ProbeReply)
        ensures
            reply@ == (ProbeReplyView { found: exists, text: Seq::empty() }),
    {
        ProbeReply { found: exists, text: String::new() }
    }

    /// The answer that a run of the command locator gives: found where it
    /// exited with status 0, and not found where it exited otherwise, was
    /// ended by a signal or could not be started (`None`).
    pub fn of_exit(status: Option<i32>) -> (reply: ProbeReply)
        ensures
            reply@ == (ProbeReplyView { found: status == Some(0i32), text: Seq::empty() }),
    {
        let found = match status {
            Some(code) => code == 0,
            None => false,
        };
        ProbeReply { found, text: String::new() }
    }
}

/// The command locator of a family: `where` on Windows, `which` elsewhere.
pub open spec fn locator_text(family: OsFamily) -> Seq<char> {
    if family == OsFamily::Windows {
        "where"@
    } else {
        "which"@
    }
}

/// The name of the command locator of `family`.
pub fn command_locator(family: OsFamily) -> (locator: String)
    ensures
        locator@ == locator_text(family),
{
    match family {
        OsFamily::Windows => "where".to_owned(),
        _ => "which".to_owned(),
    }
}

/// Where a session stands: the candidate under examination, the check of it
/// that is being asked, whether the root of that check has been read, and
/// the lines reported so far.
pub struct TerminalScanView {
    pub family: OsFamily,
    pub candidate: nat,
    pub check: nat,
    pub rooted: bool,
    pub found: Seq<TerminalInfoView>,
}

/// A detection in progress. It is made by `detect_available_terminals` and
/// moves on by `resume` alone, so the lines it has gathered are always those
/// of the first candidates of its table.
pub struct TerminalScan {
    family: OsFamily,
    candidate: usize,
    check: usize,
    rooted: bool,
    found: Vec<TerminalInfo>,
}

impl View for TerminalScan {
    type V = TerminalScanView;

    closed spec fn view(&self) -> TerminalScanView {
        TerminalScanView {
            family: self.family,
            candidate: self.candidate as nat,
            check: self.check as nat,
            rooted: self.rooted,
            found: terminal_views(self.found@),
        }
    }
}

impl TerminalScan {
    #[verifier::type_invariant]
    spec fn in_step_with_table(self) -> bool {
        follows_table(self@)
    }
}

/// What a session wants next: a probe, or nothing more.
pub enum ScanTurnView {
    Ask { scan: TerminalScanView, action: ProbeActionView },
    Report { terminals: Seq<TerminalInfoView> },
}

/// What a session wants next, as it is handed out.
pub enum ScanTurn {
    /// Perform `action` and resume `scan` with the answer.
    Ask { scan: TerminalScan, action: ProbeAction },
    /// The finished report, in table order.
    Report { terminals: Vec<TerminalInfo> },
}

impl View for ScanTurn {
    type V = ScanTurnView;

    open spec fn view(&self) -> ScanTurnView {
        match self {
            ScanTurn::Ask { scan, action } => ScanTurnView::Ask { scan: scan@, action: action@ },
            ScanTurn::Report { terminals } => ScanTurnView::Report {
                terminals: terminal_views(terminals@),
            },
        }
    }
}

/// The report line of a candidate.
pub open spec fn line_of(candidate: CandidateView, available: bool) -> TerminalInfoView {
    TerminalInfoView { id: candidate.id, name: candidate.name, available }
}

/// The session before the first candidate.
pub open spec fn fresh_scan(family: OsFamily) -> TerminalScanView {
    TerminalScanView { family, candidate: 0, check: 0, rooted: false, found: Seq::empty() }
}

/// The session after the current candidate has been decided.
pub open spec fn decided(scan: TerminalScanView, available: bool) -> TerminalScanView {
    TerminalScanView {
        family: scan.family,
        candidate: scan.candidate + 1,
        check: 0,
        rooted: false,
        found: scan.found.push(
            line_of(candidates_of(scan.family)[scan.candidate as int], available),
        ),
    }
}

/// The session after the current check has failed.
pub open spec fn passed_over(scan: TerminalScanView) -> TerminalScanView {
    TerminalScanView {
        family: scan.family,
        candidate: scan.candidate,
        check: scan.check + 1,
        rooted: false,
        found: scan.found,
    }
}

/// The session once the root of the current check has been read.
pub open spec fn with_root(scan: TerminalScanView) -> TerminalScanView {
    TerminalScanView {
        family: scan.family,
        candidate: scan.candidate,
        check: scan.check,
        rooted: true,
        found: scan.found,
    }
}

/// Whether the session points at a check of its table.
pub open spec fn at_check(scan: TerminalScanView) -> bool {
    let table = candidates_of(scan.family);
    scan.candidate < table.len() && scan.check < table[scan.candidate as int].checks.len()
}

/// The check that the session points at.
pub open spec fn current_check(scan: TerminalScanView) -> CheckView {
    candidates_of(scan.family)[scan.candidate as int].checks[scan.check as int]
}

/// From a session that waits for no answer: passes over every candidate
/// that has no check left, as not available, and stops at the first
/// question, or at the end of the table with the report. No candidate is
/// reported as available here: that takes an answer.
pub open spec fn settled(scan: TerminalScanView) -> ScanTurnView
    decreases candidates_of(scan.family).len() - scan.candidate,
{
    if scan.candidate >= candidates_of(scan.family).len() {
        ScanTurnView::Report { terminals: scan.found }
    } else if !at_check(scan) {
        settled(decided(scan, false))
    } else {
        match current_check(scan) {
            CheckView::Command { name } => ScanTurnView::Ask {
                scan,
                action: ProbeActionView::CommandExists { locator: locator_text(scan.family), name },
            },
            CheckView::Path { root: None, tail } => ScanTurnView::Ask {
                scan,
                action: ProbeActionView::PathExists { path: tail },
            },
            CheckView::Path { root: Some(name), tail } => ScanTurnView::Ask {
                scan,
                action: ProbeActionView::ReadEnv { name },
            },
        }
    }
}

/// The value that a reply gives for an environment variable: its text where
/// the variable is set, the empty text where it is not.
pub open spec fn root_text(reply: ProbeReplyView) -> Seq<char> {
    if reply.found {
        reply.text
    } else {
        Seq::empty()
    }
}

/// The session's move on an answer to the question it asked last.
pub open spec fn resumed(scan: TerminalScanView, reply: ProbeReplyView) -> ScanTurnView {
    if !at_check(scan) {
        settled(scan)
    } else {
        match current_check(scan) {
            CheckView::Path { root: Some(name), tail } if !scan.rooted => ScanTurnView::Ask {
                scan: with_root(scan),
                action: ProbeActionView::PathExists { path: root_text(reply) + tail },
            },
            _ => if reply.found {
                settled(decided(scan, true))
            } else {
                settled(passed_over(scan))
            },
        }
    }
}

/// The first move of a detection on `family`.
pub open spec fn started(family: OsFamily) -> ScanTurnView {
    settled(fresh_scan(family))
}

fn decide(scan: TerminalScan, candidate: &Candidate, available: bool) -> (next: TerminalScan)
    requires
        scan@.candidate < candidates_of(scan@.family).len(),
        candidate@ == candidates_of(scan@.family)[scan@.candidate as int],
        scan@.candidate < usize::MAX,
    ensures
        next@ == decided(scan@, available),
{
    proof {
        use_type_invariant(&scan);
    }
    let line = TerminalInfo { id: candidate.id.clone(), name: candidate.name.clone(), available };
    let family = scan.family;
    let index = scan.candidate;
    let mut found = scan.found;
    let ghost before = found@;
    found.push(line);
    proof {
        assert(terminal_views(found@) =~= terminal_views(before).push(
            line_of(candidate@, available),
        ));
    }
    TerminalScan { family, candidate: index + 1, check: 0, rooted: false, found }
}

fn settle(start: TerminalScan) -> (turn: ScanTurn)
    ensures
        turn@ == settled(start@),
        turn_follows_table(start@.family, turn@),
{
    proof {
        use_type_invariant(&start);
        lemma_settled_follows_table(start@);
    }
    let table = terminal_candidates(start.family);
    let mut scan = start;
    loop
        invariant
            candidate_views(table@) == candidates_of(scan@.family),
            settled(scan@) == settled(start@),
            turn_follows_table(start@.family, settled(start@)),
        decreases table.len() - scan.candidate,
    {
        proof {
            assert(candidate_views(table@).len() == table.len());
        }
        if scan.candidate >= table.len() {
            proof {
                assert(settled(scan@) == ScanTurnView::Report { terminals: scan@.found });
            }
            return ScanTurn::Report { terminals: scan.found };
        }
        let candidate = &table[scan.candidate];
        proof {
            assert(candidate_views(table@)[scan.candidate as int] == candidate@);
            assert(candidate@.checks.len() == candidate.checks.len());
        }
        if scan.check >= candidate.checks.len() {
            proof {
                assert(!at_check(scan@));
            }
            scan = decide(scan, candidate, false);
        } else {
            proof {
                assert(candidate@.checks[scan.check as int] == candidate.checks[scan.check as int]@);
                assert(at_check(scan@));
                assert(current_check(scan@) == candidate.checks[scan.check as int]@);
            }
            match &candidate.checks[scan.check] {
                Check::Command { name } => {
                    let action = ProbeAction::CommandExists {
                        locator: command_locator(scan.family),
                        name: name.clone(),
                    };
                    return ScanTurn::Ask { scan, action };
                },
                Check::Path { root: None, tail } => {
                    let action = ProbeAction::PathExists { path: tail.clone() };
                    return ScanTurn::Ask { scan, action };
                },
                Check::Path { root: Some(name), tail } => {
                    let action = ProbeAction::ReadEnv { name: name.clone() };
                    return ScanTurn::Ask { scan, action };
                },
            }
        }
    }
}

/// Starts a detection of the terminals of `family`: the first probe to
/// make. No terminal is taken as available without a probe, so every
/// detection starts with a question.
///
/// Every report of the detection has one line for each terminal of the
/// table of `family`, in table order, whatever the probes answer.
pub fn detect_available_terminals(family: OsFamily) -> (turn: ScanTurn)
    ensures
        turn@ == started(family),
        turn@ is Ask,
        turn_follows_table(family, turn@),
{
    proof {
        lemma_start_asks(family);
    }
    let scan = TerminalScan { family, candidate: 0, check: 0, rooted: false, found: Vec::new() };
    proof {
        assert(scan@.found =~= Seq::empty());
    }
    settle(scan)
}

impl TerminalScan {
    /// Takes the answer to the probe that the session asked for last and
    /// names the next one, or hands out the report.
    ///
    /// The lines gathered so far are kept, and at most the next terminal is
    /// marked available, and only on an answer that found something.
    pub fn resume(self, reply: ProbeReply) -> (turn: ScanTurn)
        ensures
            turn@ == resumed(self@, reply@),
            turn_follows_table(self@.family, turn@),
            extends_by_answer(self@.found, lines_of(turn@), reply@.found),
    {
        proof {
            use_type_invariant(&self);
            lemma_resume_follows_table(self@, reply@);
            lemma_available_needs_answer(self@, reply@);
        }
        let table = terminal_candidates(self.family);
        proof {
            assert(candidate_views(table@).len() == table.len());
        }
        if self.candidate >= table.len() {
            return settle(self);
        }
        let candidate = &table[self.candidate];
        proof {
            assert(candidate_views(table@)[self.candidate as int] == candidate@);
            assert(candidate@.checks.len() == candidate.checks.len());
        }
        if self.check >= candidate.checks.len() {
            return settle(self);
        }
        proof {
            assert(candidate@.checks[self.check as int] == candidate.checks[self.check as int]@);
        }
        match &candidate.checks[self.check] {
            Check::Path { root: Some(_), tail } if !self.rooted => {
                let mut path = if reply.found {
                    reply.text
                } else {
                    String::new()
                };
                path.append(tail.as_str());
                let scan = TerminalScan {
                    family: self.family,
                    candidate: self.candidate,
                    check: self.check,
                    rooted: true,
                    found: self.found,
                };
                ScanTurn::Ask { scan, action: ProbeAction::PathExists { path } }
            },
            _ => {
                if reply.found {
                    settle(decide(self, candidate, true))
                } else {
                    let scan = TerminalScan {
                        family: self.family,
                        candidate: self.candidate,
                        check: self.check + 1,
                        rooted: false,
                        found: self.found,
                    };
                    settle(scan)
                }
            },
        }
    }
}

/// The lines reported so far are those of the first candidates of the
/// table, slug and display name, in table order.
pub open spec fn follows_table(scan: TerminalScanView) -> bool {
    let table = candidates_of(scan.family);
    &&& scan.candidate <= table.len()
    &&& scan.found.len() == scan.candidate
    &&& forall|i: int|
        0 <= i < scan.candidate ==> (#[trigger] scan.found[i]).id == table[i].id
            && scan.found[i].name == table[i].name
}

/// A report has one line for each candidate of the table, slug and display
/// name, in table order.
pub open spec fn report_follows_table(family: OsFamily, terminals: Seq<TerminalInfoView>) -> bool {
    let table = candidates_of(family);
    &&& terminals.len() == table.len()
    &&& forall|i: int|
        0 <= i < table.len() ==> (#[trigger] terminals[i]).id == table[i].id && terminals[i].name
            == table[i].name
}

/// What `follows_table` and `report_follows_table` say of a turn.
pub open spec fn turn_follows_table(family: OsFamily, turn: ScanTurnView) -> bool {
    match turn {
        ScanTurnView::Ask { scan, action } => scan.family == family && follows_table(scan),
        ScanTurnView::Report { terminals } => report_follows_table(family, terminals),
    }
}

proof fn lemma_settled_follows_table(scan: TerminalScanView)
    requires
        follows_table(scan),
    ensures
        turn_follows_table(scan.family, settled(scan)),
    decreases candidates_of(scan.family).len() - scan.candidate,
{
    if scan.candidate < candidates_of(scan.family).len() {
        if !at_check(scan) {
            lemma_settled_follows_table(decided(scan, false));
        }
    }
}

/// The first turn of a detection follows the table of its family.
pub proof fn lemma_start_follows_table(family: OsFamily)
    ensures
        turn_follows_table(family, started(family)),
{
    lemma_settled_follows_table(fresh_scan(family));
}

/// Whatever the answer, the turn after a session that follows its table
/// follows it too. With the lemma on the first turn: every report of a
/// detection lists the terminals of the table, each once and in table order,
/// whatever the probes answered.
pub proof fn lemma_resume_follows_table(scan: TerminalScanView, reply: ProbeReplyView)
    requires
        follows_table(scan),
    ensures
        turn_follows_table(scan.family, resumed(scan, reply)),
{
    lemma_settled_follows_table(scan);
    if at_check(scan) {
        lemma_settled_follows_table(decided(scan, true));
        lemma_settled_follows_table(passed_over(scan));
    }
}

/// A report that follows the table is not empty and names no slug twice.
pub proof fn lemma_report_ids_distinct(family: OsFamily, terminals: Seq<TerminalInfoView>)
    requires
        report_follows_table(family, terminals),
    ensures
        terminals.len() > 0,
        forall|i: int, j: int|
            0 <= i < j < terminals.len() ==> (#[trigger] terminals[i]).id != (
            #[trigger] terminals[j]).id,
{
    lemma_candidate_ids_distinct(family);
    let table = candidates_of(family);
    assert forall|i: int, j: int| 0 <= i < j < terminals.len() implies (#[trigger] terminals[i]).id
        != (#[trigger] terminals[j]).id by {
        assert(table[i].id != table[j].id);
    }
}

/// The lines that a turn carries: those gathered so far, or the report.
pub open spec fn lines_of(turn: ScanTurnView) -> Seq<TerminalInfoView> {
    match turn {
        ScanTurnView::Ask { scan, action } => scan.found,
        ScanTurnView::Report { terminals } => terminals,
    }
}

/// The lines of `before` stand unchanged at the head of `after`, and of the
/// lines behind them only the first can be marked available, and only where
/// `found` holds.
pub open spec fn extends_by_answer(
    before: Seq<TerminalInfoView>,
    after: Seq<TerminalInfoView>,
    found: bool,
) -> bool {
    &&& before.len() <= after.len()
    &&& forall|i: int| 0 <= i < before.len() ==> #[trigger] after[i] == before[i]
    &&& forall|i: int|
        before.len() <= i < after.len() && (#[trigger] after[i]).available ==> found && i
            == before.len()
}

proof fn lemma_settled_marks_none(scan: TerminalScanView)
    ensures
        extends_by_answer(scan.found, lines_of(settled(scan)), false),
    decreases candidates_of(scan.family).len() - scan.candidate,
{
    if scan.candidate < candidates_of(scan.family).len() && !at_check(scan) {
        lemma_settled_marks_none(decided(scan, false));
    }
}

/// Every detection starts with a question: each table names terminals, and
/// the first of them has a check to ask.
pub proof fn lemma_start_asks(family: OsFamily)
    ensures
        started(family) is Ask,
{
    let table = candidates_of(family);
    assert(table.len() > 0 && table[0].checks.len() > 0) by {
        match family {
            OsFamily::Windows => {
                assert(table[0].checks.len() == 1);
            },
            OsFamily::MacOs => {
                assert(table[0].checks.len() == 1);
            },
            OsFamily::Linux => {
                assert(table[0].checks.len() == 1);
            },
            OsFamily::Other => {
                assert(table[0].checks.len() == 1);
            },
        }
    }
    assert(at_check(fresh_scan(family)));
}

/// Before the first answer no terminal is marked available.
pub proof fn lemma_start_marks_none(family: OsFamily)
    ensures
        forall|i: int|
            0 <= i < lines_of(started(family)).len() ==> !(#[trigger] lines_of(
                started(family),
            )[i]).available,
{
    lemma_settled_marks_none(fresh_scan(family));
}

/// A terminal is marked available only on an answer that found something:
/// a turn keeps the lines it had, and marks at most the next one, and that
/// one only where the answer it was resumed with says `found`.
pub proof fn lemma_available_needs_answer(scan: TerminalScanView, reply: ProbeReplyView)
    ensures
        extends_by_answer(scan.found, lines_of(resumed(scan, reply)), reply.found),
{
    lemma_settled_marks_none(scan);
    if at_check(scan) {
        lemma_settled_marks_none(decided(scan, true));
        lemma_settled_marks_none(passed_over(scan));
    }
}

/// An upper bound on the questions that remain from a position of the table:
/// two for each check that has not been asked.
pub open spec fn questions_left(family: OsFamily, candidate: nat, check: nat) -> nat
    decreases candidates_of(family).len() - candidate,
{
    if candidate >= candidates_of(family).len() {
        0
    } else {
        let checks = candidates_of(family)[candidate as int].checks.len();
        let here: nat = if check < checks {
            (2 * (checks - check)) as nat
        } else {
            0
        };
        here + questions_left(family, candidate + 1, 0)
    }
}

/// What a session has left to ask at most: the questions that remain from
/// its position, less the one for a root that has been read.
pub open spec fn scan_measure(scan: TerminalScanView) -> nat {
    let left = questions_left(scan.family, scan.candidate, scan.check);
    if scan.rooted && left > 0 {
        (left - 1) as nat
    } else {
        left
    }
}

proof fn lemma_settled_measure(scan: TerminalScanView)
    ensures
        settled(scan) matches ScanTurnView::Ask { scan: next, .. } ==> {
            &&& at_check(next)
            &&& next.family == scan.family
            &&& questions_left(next.family, next.candidate, next.check) <= questions_left(
                scan.family,
                scan.candidate,
                scan.check,
            )
            &&& (next == scan || !next.rooted)
        },
    decreases candidates_of(scan.family).len() - scan.candidate,
{
    if scan.candidate < candidates_of(scan.family).len() && !at_check(scan) {
        lemma_settled_measure(decided(scan, false));
    }
}

/// The first question of a detection, where there is one, points at a check
/// of the table.
pub proof fn lemma_start_asks_at_check(family: OsFamily)
    ensures
        started(family) matches ScanTurnView::Ask { scan, .. } ==> at_check(scan) && scan_measure(
            scan,
        ) <= questions_left(family, 0, 0),
{
    lemma_settled_measure(fresh_scan(family));
}

/// Every detection ends, whatever the answers: a session that points at a
/// check of its table, resumed with any answer, either hands out the report
/// or asks again from a position with strictly less left to ask.
pub proof fn lemma_resume_lowers_measure(scan: TerminalScanView, reply: ProbeReplyView)
    requires
        at_check(scan),
    ensures
        resumed(scan, reply) matches ScanTurnView::Ask { scan: next, .. } ==> at_check(next)
            && scan_measure(next) < scan_measure(scan),
{
    lemma_settled_measure(decided(scan, true));
    lemma_settled_measure(passed_over(scan));
}

} // verus!
