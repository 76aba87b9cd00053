use vstd::prelude::*;

use crate::setup::{
    is_ok, lines_view, one_line, reply_ok, three_lines, two_lines, DesktopReply, DesktopRequest,
    FlowReport, ReplyView, ReportView, RequestView,
};
use crate::text::{chars_of, concat};

verus! {

/// What `korean doctor` found out about the desktop.
#[derive(Clone, Copy, Debug, PartialEq, Eq, Structural)]
pub struct DoctorFacts {
    pub has_ibus: bool,
    pub has_gsettings: bool,
    pub ibus_address_set: bool,
    pub engine_registered: bool,
    pub engine_visible: bool,
    pub has_dev_input: bool,
}

/// Where `korean doctor` stands: the question it waits an answer for.
#[derive(Clone, Copy, Debug, PartialEq, Eq, Structural)]
pub enum DoctorPhase {
    CheckingIbus,
    CheckingGsettings,
    CheckingAddress,
    CheckingEngine,
    CheckingVisibility,
    CheckingDevInput,
    Finished,
}

/// The state of `korean doctor`: what it found so far, and where it stands.
pub struct DoctorView {
    pub facts: DoctorFacts,
    pub phase: DoctorPhase,
}

/// `korean doctor`: asks the desktop what the engine needs, one question at a
/// time, and reports what it found.
pub struct DoctorFlow {
    facts: DoctorFacts,
    phase: DoctorPhase,
}

impl View for DoctorFlow {
    type V = DoctorView;

    closed spec fn view(&self) -> DoctorView {
        DoctorView { facts: self.facts, phase: self.phase }
    }
}

/// Nothing found yet.
pub open spec fn no_facts() -> DoctorFacts {
    DoctorFacts {
        has_ibus: false,
        has_gsettings: false,
        ibus_address_set: false,
        engine_registered: false,
        engine_visible: false,
        has_dev_input: false,
    }
}

/// One step of `korean doctor`: the answer is recorded and the next question
/// asked. Whether the running IBus lists the engine is asked only when the
/// engine is registered. After the last answer there is no question left.
pub open spec fn spec_doctor_step(f: DoctorView, r: ReplyView) -> (DoctorView, Option<RequestView>) {
    let ok = reply_ok(r);
    let x = f.facts;
    match f.phase {
        DoctorPhase::CheckingIbus => (
            DoctorView { facts: DoctorFacts { has_ibus: ok, ..x }, phase: DoctorPhase::CheckingGsettings },
            Some(RequestView::HasGsettings),
        ),
        DoctorPhase::CheckingGsettings => (
            DoctorView { facts: DoctorFacts { has_gsettings: ok, ..x }, phase: DoctorPhase::CheckingAddress },
            Some(RequestView::IbusAddressSet),
        ),
        DoctorPhase::CheckingAddress => (
            DoctorView { facts: DoctorFacts { ibus_address_set: ok, ..x }, phase: DoctorPhase::CheckingEngine },
            Some(RequestView::EngineRegistered),
        ),
        DoctorPhase::CheckingEngine => if ok {
            (
                DoctorView {
                    facts: DoctorFacts { engine_registered: true, ..x },
                    phase: DoctorPhase::CheckingVisibility,
                },
                Some(RequestView::EngineVisible),
            )
        } else {
            (
                DoctorView {
                    facts: DoctorFacts { engine_registered: false, ..x },
                    phase: DoctorPhase::CheckingDevInput,
                },
                Some(RequestView::HasDevInput),
            )
        },
        DoctorPhase::CheckingVisibility => (
            DoctorView { facts: DoctorFacts { engine_visible: ok, ..x }, phase: DoctorPhase::CheckingDevInput },
            Some(RequestView::HasDevInput),
        ),
        DoctorPhase::CheckingDevInput => (
            DoctorView { facts: DoctorFacts { has_dev_input: ok, ..x }, phase: DoctorPhase::Finished },
            None,
        ),
        DoctorPhase::Finished => (f, None),
    }
}

/// The engine can work: IBus and `gsettings` are installed and IBus knows the engine.
pub open spec fn doctor_healthy(x: DoctorFacts) -> bool {
    x.has_ibus && x.has_gsettings && x.engine_registered
}

pub open spec fn ok_or_missing(found: bool) -> Seq<char> {
    if found {
        "ok"@
    } else {
        "missing"@
    }
}

pub open spec fn address_lines(set: bool) -> Seq<Seq<char>> {
    if set {
        seq!["IBUS_ADDRESS: set"@]
    } else {
        seq![
            "IBUS_ADDRESS: not set"@,
            "  In GNOME, this is usually provided to graphical apps by the session."@,
            "  If the engine cannot connect, try: ibus restart"@,
        ]
    }
}

pub open spec fn engine_lines(x: DoctorFacts, engine: Seq<char>) -> Seq<Seq<char>> {
    if !x.engine_registered {
        seq![
            engine + " engine: not registered"@,
            "  Expected an IBus component XML for "@ + engine,
            "  Try: sudo apt install --reinstall korean && ibus restart"@,
        ]
    } else if x.engine_visible {
        seq![engine + " engine: ok"@]
    } else {
        seq![
            engine + " engine: ok"@,
            "  Installed component is present, but the current shell cannot query the running IBus engine list."@,
            "  If GNOME does not show Korean, run: ibus restart"@,
        ]
    }
}

pub open spec fn dev_input_lines(found: bool) -> Seq<Seq<char>> {
    if found {
        seq![
            "caps daemon: /dev/input exists"@,
            "  If tap/hold fails, ensure your user can read the relevant /dev/input/event* device."@,
        ]
    } else {
        seq!["caps daemon: /dev/input is not available in this environment"@]
    }
}

/// What `korean doctor` prints for what it found, and its exit code: 0 when
/// the engine can work, 1 otherwise.
pub open spec fn spec_doctor_report(x: DoctorFacts, engine: Seq<char>) -> ReportView {
    ReportView {
        stdout: seq!["ibus: "@ + ok_or_missing(x.has_ibus), "gsettings: "@ + ok_or_missing(x.has_gsettings)]
            + address_lines(x.ibus_address_set) + engine_lines(x, engine) + dev_input_lines(
            x.has_dev_input,
        ),
        stderr: Seq::empty(),
        exit_code: if doctor_healthy(x) {
            0
        } else {
            1
        },
    }
}

fn extend_lines(v: &mut Vec<String>, more: Vec<String>)
    ensures
        lines_view(final(v)@) == lines_view(old(v)@) + lines_view(more@),
{
    let ghost start = lines_view(v@);
    let mut i: usize = 0;
    while i < more.len()
        invariant
            i <= more@.len(),
            lines_view(v@) == start + lines_view(more@).take(i as int),
        decreases more@.len() - i,
    {
        let ghost before = v@;
        v.push(more[i].clone());
        assert(lines_view(v@) =~= lines_view(before).push(more@[i as int]@));
        assert(lines_view(more@).take(i + 1) =~= lines_view(more@).take(i as int).push(
            more@[i as int]@,
        ));
        i = i + 1;
    }
    assert(lines_view(more@).take(more@.len() as int) =~= lines_view(more@));
}

fn found_line(label: &str, found: bool) -> (r: String)
    ensures
        r@ == label@ + ok_or_missing(found),
{
    if found {
        concat(label, "ok")
    } else {
        concat(label, "missing")
    }
}

impl DoctorFlow {
    /// Starts `korean doctor`; the first question is whether IBus is installed.
    pub fn start() -> (r: (DoctorFlow, DesktopRequest))
        ensures
            r.0@ == (DoctorView { facts: no_facts(), phase: DoctorPhase::CheckingIbus }),
            r.1@ == RequestView::HasIbus,
    {
        let facts = DoctorFacts {
            has_ibus: false,
            has_gsettings: false,
            ibus_address_set: false,
            engine_registered: false,
            engine_visible: false,
            has_dev_input: false,
        };
        (DoctorFlow { facts, phase: DoctorPhase::CheckingIbus }, DesktopRequest::HasIbus)
    }

    /// What was found so far.
    pub fn facts(&self) -> (r: DoctorFacts)
        ensures
            r == self@.facts,
    {
        self.facts
    }

    /// Takes the answer to the last question and gives the next one, or
    /// nothing once every answer is in.
    pub fn step(&mut self, reply: DesktopReply) -> (r: Option<DesktopRequest>)
        ensures
            final(self)@ == spec_doctor_step(old(self)@, reply@).0,
            match (r, spec_doctor_step(old(self)@, reply@).1) {
                (Some(q), Some(expected)) => q@ == expected,
                (None, None) => true,
                _ => false,
            },
    {
        let ok = is_ok(&reply);
        match self.phase {
            DoctorPhase::CheckingIbus => {
                self.facts.has_ibus = ok;
                self.phase = DoctorPhase::CheckingGsettings;
                Some(DesktopRequest::HasGsettings)
            },
            DoctorPhase::CheckingGsettings => {
                self.facts.has_gsettings = ok;
                self.phase = DoctorPhase::CheckingAddress;
                Some(DesktopRequest::IbusAddressSet)
            },
            DoctorPhase::CheckingAddress => {
                self.facts.ibus_address_set = ok;
                self.phase = DoctorPhase::CheckingEngine;
                Some(DesktopRequest::EngineRegistered)
            },
            DoctorPhase::CheckingEngine => {
                self.facts.engine_registered = ok;
                if ok {
                    self.phase = DoctorPhase::CheckingVisibility;
                    Some(DesktopRequest::EngineVisible)
                } else {
                    self.phase = DoctorPhase::CheckingDevInput;
                    Some(DesktopRequest::HasDevInput)
                }
            },
            DoctorPhase::CheckingVisibility => {
                self.facts.engine_visible = ok;
                self.phase = DoctorPhase::CheckingDevInput;
                Some(DesktopRequest::HasDevInput)
            },
            DoctorPhase::CheckingDevInput => {
                self.facts.has_dev_input = ok;
                self.phase = DoctorPhase::Finished;
                None
            },
            DoctorPhase::Finished => None,
        }
    }
}

/// How far `korean doctor` has come; every question goes further.
pub open spec fn doctor_rank(p: DoctorPhase) -> nat {
    match p {
        DoctorPhase::CheckingIbus => 0,
        DoctorPhase::CheckingGsettings => 1,
        DoctorPhase::CheckingAddress => 2,
        DoctorPhase::CheckingEngine => 3,
        DoctorPhase::CheckingVisibility => 4,
        DoctorPhase::CheckingDevInput => 5,
        DoctorPhase::Finished => 6,
    }
}

/// `korean doctor` after it is given the replies, in order.
pub open spec fn doctor_after(f: DoctorView, replies: Seq<ReplyView>) -> DoctorView
    decreases replies.len(),
{
    if replies.len() == 0 {
        f
    } else {
        spec_doctor_step(doctor_after(f, replies.drop_last()), replies.last()).0
    }
}

proof fn lemma_doctor_rank_grows(f: DoctorView, replies: Seq<ReplyView>)
    ensures
        doctor_after(f, replies).phase == DoctorPhase::Finished || doctor_rank(
            doctor_after(f, replies).phase,
        ) >= doctor_rank(f.phase) + replies.len(),
    decreases replies.len(),
{
    if replies.len() > 0 {
        lemma_doctor_rank_grows(f, replies.drop_last());
    }
}

/// `korean doctor` ends whatever the desktop answers: from its start it asks
/// at most six questions, and then asks nothing more.
pub proof fn lemma_doctor_ends(replies: Seq<ReplyView>, r: ReplyView)
    requires
        replies.len() >= 6,
    ensures
        ({
            let end = doctor_after(DoctorView { facts: no_facts(), phase: DoctorPhase::CheckingIbus }, replies);
            &&& end.phase == DoctorPhase::Finished
            &&& spec_doctor_step(end, r) == (end, Option::<RequestView>::None)
        }),
{
    lemma_doctor_rank_grows(DoctorView { facts: no_facts(), phase: DoctorPhase::CheckingIbus }, replies);
}

/// `korean doctor` asks whether the running IBus lists the engine only once it
/// knows that the engine is registered.
pub proof fn lemma_doctor_asks_visibility_when_registered(f: DoctorView, r: ReplyView)
    ensures
        spec_doctor_step(f, r).1 == Some(RequestView::EngineVisible) ==> spec_doctor_step(
            f,
            r,
        ).0.facts.engine_registered,
{
}

/// `korean doctor` succeeds (exit code 0) exactly when the `ibus` and
/// `gsettings` commands were both found and IBus knows the engine, and fails
/// with exit code 1 otherwise; its first two lines say which of the two
/// commands were found.
pub proof fn lemma_doctor_verdict(x: DoctorFacts, engine: Seq<char>)
    ensures
        (spec_doctor_report(x, engine).exit_code == 0) == (x.has_ibus && x.has_gsettings
            && x.engine_registered),
        spec_doctor_report(x, engine).exit_code == 0 || spec_doctor_report(x, engine).exit_code == 1,
        spec_doctor_report(x, engine).stdout[0] == "ibus: "@ + (if x.has_ibus {
            "ok"@
        } else {
            "missing"@
        }),
        spec_doctor_report(x, engine).stdout[1] == "gsettings: "@ + (if x.has_gsettings {
            "ok"@
        } else {
            "missing"@
        }),
{
}

/// What `korean doctor` reports are the desktop's answers, in the order it
/// asks: IBus, gsettings, `IBUS_ADDRESS`, the engine's registration, then
/// (only for a registered engine) whether the running IBus lists it, and
/// `/dev/input`.
pub proof fn lemma_doctor_records_answers(replies: Seq<ReplyView>)
    requires
        replies.len() == (if reply_ok(replies[3]) {
            6int
        } else {
            5int
        }),
    ensures
        ({
            let x = doctor_after(DoctorView { facts: no_facts(), phase: DoctorPhase::CheckingIbus }, replies).facts;
            &&& x.has_ibus == reply_ok(replies[0])
            &&& x.has_gsettings == reply_ok(replies[1])
            &&& x.ibus_address_set == reply_ok(replies[2])
            &&& x.engine_registered == reply_ok(replies[3])
            &&& x.engine_visible == (reply_ok(replies[3]) && reply_ok(replies[4]))
            &&& x.has_dev_input == reply_ok(replies[replies.len() - 1])
        }),
{
    let start = DoctorView { facts: no_facts(), phase: DoctorPhase::CheckingIbus };
    assert(replies.take(0) =~= Seq::<ReplyView>::empty());
    assert(replies.take(1).drop_last() =~= replies.take(0));
    assert(replies.take(1).last() == replies[0]);
    assert(replies.take(2).drop_last() =~= replies.take(1));
    assert(replies.take(2).last() == replies[1]);
    assert(replies.take(3).drop_last() =~= replies.take(2));
    assert(replies.take(3).last() == replies[2]);
    assert(replies.take(4).drop_last() =~= replies.take(3));
    assert(replies.take(4).last() == replies[3]);
    assert(replies.take(5).drop_last() =~= replies.take(4));
    assert(replies.take(5).last() == replies[4]);
    assert(doctor_after(start, replies.take(0)) == start);
    let s1 = doctor_after(start, replies.take(1));
    assert(s1 == spec_doctor_step(start, replies[0]).0);
    let s2 = doctor_after(start, replies.take(2));
    assert(s2 == spec_doctor_step(s1, replies[1]).0);
    let s3 = doctor_after(start, replies.take(3));
    assert(s3 == spec_doctor_step(s2, replies[2]).0);
    let s4 = doctor_after(start, replies.take(4));
    assert(s4 == spec_doctor_step(s3, replies[3]).0);
    let s5 = doctor_after(start, replies.take(5));
    assert(s5 == spec_doctor_step(s4, replies[4]).0);
    if replies.len() == 6 {
        assert(replies.drop_last() =~= replies.take(5));
        assert(replies.last() == replies[5]);
        assert(doctor_after(start, replies) == spec_doctor_step(s5, replies[5]).0);
    } else {
        assert(replies =~= replies.take(5));
    }
}

/// What `korean doctor` prints for the facts it found, and its exit code.
pub fn doctor_report(facts: DoctorFacts, engine: &str) -> (r: FlowReport)
    ensures
        r@ == spec_doctor_report(facts, engine@),
{
    let mut out = two_lines(found_line("ibus: ", facts.has_ibus), found_line("gsettings: ", facts.has_gsettings));
    let address = if facts.ibus_address_set {
        one_line("IBUS_ADDRESS: set".to_owned())
    } else {
        three_lines(
            "IBUS_ADDRESS: not set".to_owned(),
            "  In GNOME, this is usually provided to graphical apps by the session.".to_owned(),
            "  If the engine cannot connect, try: ibus restart".to_owned(),
        )
    };
    extend_lines(&mut out, address);
    let engine_part = if !facts.engine_registered {
        three_lines(
            concat(engine, " engine: not registered"),
            concat("  Expected an IBus component XML for ", engine),
            "  Try: sudo apt install --reinstall korean && ibus restart".to_owned(),
        )
    } else if facts.engine_visible {
        one_line(concat(engine, " engine: ok"))
    } else {
        three_lines(
            concat(engine, " engine: ok"),
            "  Installed component is present, but the current shell cannot query the running IBus engine list.".to_owned(),
            "  If GNOME does not show Korean, run: ibus restart".to_owned(),
        )
    };
    extend_lines(&mut out, engine_part);
    let dev_input = if facts.has_dev_input {
        two_lines(
            "caps daemon: /dev/input exists".to_owned(),
            "  If tap/hold fails, ensure your user can read the relevant /dev/input/event* device.".to_owned(),
        )
    } else {
        one_line("caps daemon: /dev/input is not available in this environment".to_owned())
    };
    extend_lines(&mut out, dev_input);
    let healthy = facts.has_ibus && facts.has_gsettings && facts.engine_registered;
    let r = FlowReport { stdout: out, stderr: Vec::new(), exit_code: if healthy { 0 } else { 1 } };
    assert(lines_view(r.stderr@) =~= Seq::empty());
    r
}

/// What `korean status` prints: whether IBus is installed, whether it knows
/// the engine, whether the running IBus lists it, and the GNOME input sources
/// when they can be read.
pub open spec fn spec_status_report(
    has_ibus: bool,
    engine_registered: bool,
    engine_visible: bool,
    sources: Option<Seq<char>>,
) -> Seq<Seq<char>> {
    seq![
        "Korean status"@,
        "  ibus: "@ + (if has_ibus {
            "found"@
        } else {
            "missing"@
        }),
        "  engine: "@ + (if engine_registered {
            "registered"@
        } else {
            "not registered"@
        }),
        "  running ibus visibility: "@ + (if engine_visible {
            "visible"@
        } else {
            "not visible"@
        }),
    ] + match sources {
        Some(s) => seq!["  gnome sources: "@ + s],
        None => Seq::empty(),
    }
}

pub open spec fn optional_text(s: Option<&str>) -> Option<Seq<char>> {
    match s {
        Some(t) => Some(t@),
        None => None,
    }
}

/// The lines `korean status` prints.
pub fn status_report(
    has_ibus: bool,
    engine_registered: bool,
    engine_visible: bool,
    sources: Option<&str>,
) -> (r: Vec<String>)
    ensures
        lines_view(r@) == spec_status_report(
            has_ibus,
            engine_registered,
            engine_visible,
            optional_text(sources),
        ),
{
    let ibus = if has_ibus {
        concat("  ibus: ", "found")
    } else {
        concat("  ibus: ", "missing")
    };
    let engine = if engine_registered {
        concat("  engine: ", "registered")
    } else {
        concat("  engine: ", "not registered")
    };
    let visibility = if engine_visible {
        concat("  running ibus visibility: ", "visible")
    } else {
        concat("  running ibus visibility: ", "not visible")
    };
    let mut out = two_lines("Korean status".to_owned(), ibus);
    extend_lines(&mut out, two_lines(engine, visibility));
    match sources {
        Some(s) => extend_lines(&mut out, one_line(concat("  gnome sources: ", s))),
        None => {
            let none: Vec<String> = Vec::new();
            assert(lines_view(none@) =~= Seq::empty());
            extend_lines(&mut out, none);
        },
    }
    out
}

/// Whether a name under `/dev/input` is an event device (`event*`).
pub fn is_event_device(name: &str) -> (r: bool)
    ensures
        r == "event"@.is_prefix_of(name@),
{
    let chars = chars_of(name);
    let prefix = chars_of("event");
    if chars.len() < prefix.len() {
        return false;
    }
    let mut i: usize = 0;
    while i < prefix.len()
        invariant
            i <= prefix@.len(),
            prefix@.len() <= chars@.len(),
            chars@ == name@,
            prefix@ == "event"@,
            forall|j: int| 0 <= j < i ==> prefix@[j] == chars@[j],
        decreases prefix@.len() - i,
    {
        if prefix[i] != chars[i] {
            return false;
        }
        i = i + 1;
    }
    assert("event"@ =~= name@.subrange(0, prefix@.len() as int));
    true
}

} // verus!
