use vstd::prelude::*;

use crate::cli::SetupOptions;
use crate::sources::{
    append_ibus_source, contains_seq, engine_name_wf, lemma_append_then_found,
    lemma_remove_then_absent, remove_ibus_source, source_index, source_item_wf,
    spec_append_ibus_source, spec_remove_ibus_source, spec_source_index, spec_source_items,
    str_contains,
};
use crate::text::{concat, concat3, str_equals};

verus! {

/// How `korean setup` or `korean stop` ended.
#[derive(Clone, Copy, Debug, PartialEq, Eq, Structural)]
pub enum FlowResult {
    SetupCompleted,
    Stopped,
    IbusMissing,
    EngineNotRegistered,
    GsettingsMissing,
    SourcesNotUpdated,
    SourceNotSelected,
    SourceNotFound,
    SourceNotRemoved,
    CapsSwitchNotSet,
    SwitchKeysNotRestored,
    IbusNotRestarted,
}

/// What a command asks of the desktop, one request at a time.
#[derive(Debug, PartialEq, Eq)]
pub enum DesktopRequest {
    /// Whether the `ibus` command is installed.
    HasIbus,
    /// Start the IBus daemon; whether it started does not matter.
    StartIbus,
    /// Whether IBus knows the engine.
    EngineRegistered,
    /// Whether the `gsettings` command is installed.
    HasGsettings,
    /// Tell the user this on the error stream, and go on.
    Notice(String),
    /// The GNOME input sources, if they can be read.
    ReadSources,
    /// Replace the GNOME input sources.
    WriteSources(String),
    /// Make the input source at this position the current one.
    SelectSource(usize),
    /// Make Caps Lock the GNOME key that switches input sources.
    UseCapsLockSwitch,
    /// Restore GNOME's default keys that switch input sources.
    RestoreSwitchKeys,
    /// Restart IBus.
    RestartIbus,
    /// Whether the session tells applications how to reach IBus (`IBUS_ADDRESS`).
    IbusAddressSet,
    /// Whether the running IBus lists the engine.
    EngineVisible,
    /// Whether input devices can be watched (`/dev/input` exists).
    HasDevInput,
    /// Nothing more to do: the command ends with this result.
    Finish(FlowResult),
}

/// The desktop's answer to the last request.
pub enum DesktopReply {
    /// The answer to a question, or whether a change succeeded.
    Done(bool),
    /// The input sources, if they could be read.
    Sources(Option<String>),
}

/// `DesktopRequest` with its texts as character sequences.
pub enum RequestView {
    HasIbus,
    StartIbus,
    EngineRegistered,
    HasGsettings,
    Notice(Seq<char>),
    ReadSources,
    WriteSources(Seq<char>),
    SelectSource(int),
    UseCapsLockSwitch,
    RestoreSwitchKeys,
    RestartIbus,
    IbusAddressSet,
    EngineVisible,
    HasDevInput,
    Finish(FlowResult),
}

/// `DesktopReply` with its text as a character sequence.
pub enum ReplyView {
    Done(bool),
    Sources(Option<Seq<char>>),
}

impl View for DesktopRequest {
    type V = RequestView;

    open spec fn view(&self) -> RequestView {
        match self {
            DesktopRequest::HasIbus => RequestView::HasIbus,
            DesktopRequest::StartIbus => RequestView::StartIbus,
            DesktopRequest::EngineRegistered => RequestView::EngineRegistered,
            DesktopRequest::HasGsettings => RequestView::HasGsettings,
            DesktopRequest::Notice(t) => RequestView::Notice(t@),
            DesktopRequest::ReadSources => RequestView::ReadSources,
            DesktopRequest::WriteSources(s) => RequestView::WriteSources(s@),
            DesktopRequest::SelectSource(i) => RequestView::SelectSource(*i as int),
            DesktopRequest::UseCapsLockSwitch => RequestView::UseCapsLockSwitch,
            DesktopRequest::RestoreSwitchKeys => RequestView::RestoreSwitchKeys,
            DesktopRequest::RestartIbus => RequestView::RestartIbus,
            DesktopRequest::IbusAddressSet => RequestView::IbusAddressSet,
            DesktopRequest::EngineVisible => RequestView::EngineVisible,
            DesktopRequest::HasDevInput => RequestView::HasDevInput,
            DesktopRequest::Finish(r) => RequestView::Finish(*r),
        }
    }
}

impl View for DesktopReply {
    type V = ReplyView;

    open spec fn view(&self) -> ReplyView {
        match self {
            DesktopReply::Done(b) => ReplyView::Done(*b),
            DesktopReply::Sources(Some(s)) => ReplyView::Sources(Some(s@)),
            DesktopReply::Sources(None) => ReplyView::Sources(None),
        }
    }
}

/// A request succeeded, or a question was answered yes.
pub open spec fn reply_ok(r: ReplyView) -> bool {
    r == ReplyView::Done(true)
}

/// The input sources read; sources that cannot be read count as an empty list.
pub open spec fn read_sources(r: ReplyView) -> Seq<char> {
    match r {
        ReplyView::Sources(Some(s)) => s,
        _ => "[]"@,
    }
}

pub(crate) fn is_ok(reply: &DesktopReply) -> (b: bool)
    ensures
        b == reply_ok(reply@),
{
    match reply {
        DesktopReply::Done(b) => *b,
        DesktopReply::Sources(_) => false,
    }
}

fn sources_in(reply: DesktopReply) -> (s: String)
    ensures
        s@ == read_sources(reply@),
{
    match reply {
        DesktopReply::Sources(Some(s)) => s,
        _ => "[]".to_owned(),
    }
}

/// The engine id: the value of the engine setting when it is set, else `korean`.
pub open spec fn spec_engine_name(setting: Option<Seq<char>>) -> Seq<char> {
    match setting {
        Some(name) => name,
        None => "korean"@,
    }
}

/// The engine id for the value of the engine setting, if it is set.
pub fn engine_name(setting: Option<&str>) -> (r: String)
    ensures
        r@ == spec_engine_name(match setting {
            Some(s) => Some(s@),
            None => None,
        }),
{
    match setting {
        Some(name) => name.to_owned(),
        None => "korean".to_owned(),
    }
}

// ---------------------------------------------------------------------------
// korean setup
// ---------------------------------------------------------------------------

/// Where `korean setup` stands: the request it waits an answer for.
#[derive(Clone, Copy, Debug, PartialEq, Eq, Structural)]
pub enum SetupPhase {
    CheckingIbus,
    StartingIbus,
    CheckingEngine,
    CheckingGsettings,
    NotifiedNoGsettings,
    ReadingSources,
    WritingSources,
    SelectingSource,
    SettingSwitchKeys,
    RestartingIbus,
    Finished(FlowResult),
}

/// The state of `korean setup`: its options, the engine, the input sources as
/// last read or written, and where it stands.
pub struct SetupView {
    pub caps_switch: bool,
    pub engine: Seq<char>,
    pub sources: Seq<char>,
    pub phase: SetupPhase,
}

/// `korean setup`: registers the engine as a GNOME input source, selects it,
/// sets the switch keys and restarts IBus, asking the desktop one request at a
/// time.
pub struct SetupFlow {
    caps_switch: bool,
    engine: String,
    sources: String,
    phase: SetupPhase,
}

impl View for SetupFlow {
    type V = SetupView;

    closed spec fn view(&self) -> SetupView {
        SetupView {
            caps_switch: self.caps_switch,
            engine: self.engine@,
            sources: self.sources@,
            phase: self.phase,
        }
    }
}

pub open spec fn setup_goto(f: SetupView, phase: SetupPhase, req: RequestView) -> (SetupView, RequestView) {
    (SetupView { phase, ..f }, req)
}

pub open spec fn setup_finish(f: SetupView, result: FlowResult) -> (SetupView, RequestView) {
    setup_goto(f, SetupPhase::Finished(result), RequestView::Finish(result))
}

/// Selecting the engine where it stands in the sources, or failing when it is
/// not there.
pub open spec fn setup_select(f: SetupView) -> (SetupView, RequestView) {
    match spec_source_index(f.sources, f.engine) {
        Some(i) => setup_goto(f, SetupPhase::SelectingSource, RequestView::SelectSource(i)),
        None => setup_finish(f, FlowResult::SourceNotFound),
    }
}

/// The message given when GNOME settings cannot be changed.
pub open spec fn no_gsettings_notice() -> Seq<char> {
    "gsettings not found. Add Korean manually in GNOME Settings."@
}

/// One step of `korean setup`: the answer to the last request gives the next
/// request. IBus must be installed and know the engine; with `gsettings` the
/// engine is added to the input sources when they do not mention it, selected,
/// and the switch keys are set; then IBus is restarted.
pub open spec fn spec_setup_step(f: SetupView, r: ReplyView) -> (SetupView, RequestView) {
    let ok = reply_ok(r);
    match f.phase {
        SetupPhase::CheckingIbus => if ok {
            setup_goto(f, SetupPhase::StartingIbus, RequestView::StartIbus)
        } else {
            setup_finish(f, FlowResult::IbusMissing)
        },
        SetupPhase::StartingIbus => setup_goto(f, SetupPhase::CheckingEngine, RequestView::EngineRegistered),
        SetupPhase::CheckingEngine => if ok {
            setup_goto(f, SetupPhase::CheckingGsettings, RequestView::HasGsettings)
        } else {
            setup_finish(f, FlowResult::EngineNotRegistered)
        },
        SetupPhase::CheckingGsettings => if ok {
            setup_goto(f, SetupPhase::ReadingSources, RequestView::ReadSources)
        } else {
            setup_goto(f, SetupPhase::NotifiedNoGsettings, RequestView::Notice(no_gsettings_notice()))
        },
        SetupPhase::NotifiedNoGsettings => setup_goto(f, SetupPhase::RestartingIbus, RequestView::RestartIbus),
        SetupPhase::ReadingSources => {
            let current = read_sources(r);
            if contains_seq(current, f.engine) {
                setup_select(SetupView { sources: current, ..f })
            } else {
                let updated = spec_append_ibus_source(current, f.engine);
                (
                    SetupView { sources: updated, phase: SetupPhase::WritingSources, ..f },
                    RequestView::WriteSources(updated),
                )
            }
        },
        SetupPhase::WritingSources => if ok {
            setup_select(f)
        } else {
            setup_finish(f, FlowResult::SourcesNotUpdated)
        },
        SetupPhase::SelectingSource => if ok {
            setup_goto(
                f,
                SetupPhase::SettingSwitchKeys,
                if f.caps_switch {
                    RequestView::UseCapsLockSwitch
                } else {
                    RequestView::RestoreSwitchKeys
                },
            )
        } else {
            setup_finish(f, FlowResult::SourceNotSelected)
        },
        SetupPhase::SettingSwitchKeys => if ok {
            setup_goto(f, SetupPhase::RestartingIbus, RequestView::RestartIbus)
        } else if f.caps_switch {
            setup_finish(f, FlowResult::CapsSwitchNotSet)
        } else {
            setup_finish(f, FlowResult::SwitchKeysNotRestored)
        },
        SetupPhase::RestartingIbus => if ok {
            setup_finish(f, FlowResult::SetupCompleted)
        } else {
            setup_finish(f, FlowResult::IbusNotRestarted)
        },
        SetupPhase::Finished(result) => (f, RequestView::Finish(result)),
    }
}

impl SetupFlow {
    /// Starts `korean setup` for the engine; the first request asks whether
    /// IBus is installed.
    pub fn start(options: &SetupOptions, engine: &str) -> (r: (SetupFlow, DesktopRequest))
        ensures
            r.0@ == (SetupView {
                caps_switch: options.caps_switch,
                engine: engine@,
                sources: Seq::empty(),
                phase: SetupPhase::CheckingIbus,
            }),
            r.1@ == RequestView::HasIbus,
    {
        let flow = SetupFlow {
            caps_switch: options.caps_switch,
            engine: engine.to_owned(),
            sources: String::new(),
            phase: SetupPhase::CheckingIbus,
        };
        (flow, DesktopRequest::HasIbus)
    }

    fn goto(&mut self, phase: SetupPhase, req: DesktopRequest) -> (r: DesktopRequest)
        ensures
            (final(self)@, r@) == setup_goto(old(self)@, phase, req@),
    {
        self.phase = phase;
        req
    }

    fn finish(&mut self, result: FlowResult) -> (r: DesktopRequest)
        ensures
            (final(self)@, r@) == setup_finish(old(self)@, result),
    {
        self.goto(SetupPhase::Finished(result), DesktopRequest::Finish(result))
    }

    fn select_engine_source(&mut self) -> (r: DesktopRequest)
        ensures
            (final(self)@, r@) == setup_select(old(self)@),
    {
        match source_index(self.sources.as_str(), self.engine.as_str()) {
            Some(i) => self.goto(SetupPhase::SelectingSource, DesktopRequest::SelectSource(i)),
            None => self.finish(FlowResult::SourceNotFound),
        }
    }

    /// Takes the answer to the last request and gives the next request.
    pub fn step(&mut self, reply: DesktopReply) -> (r: DesktopRequest)
        ensures
            (final(self)@, r@) == spec_setup_step(old(self)@, reply@),
    {
        let ok = is_ok(&reply);
        match self.phase {
            SetupPhase::CheckingIbus => if ok {
                self.goto(SetupPhase::StartingIbus, DesktopRequest::StartIbus)
            } else {
                self.finish(FlowResult::IbusMissing)
            },
            SetupPhase::StartingIbus => self.goto(SetupPhase::CheckingEngine, DesktopRequest::EngineRegistered),
            SetupPhase::CheckingEngine => if ok {
                self.goto(SetupPhase::CheckingGsettings, DesktopRequest::HasGsettings)
            } else {
                self.finish(FlowResult::EngineNotRegistered)
            },
            SetupPhase::CheckingGsettings => if ok {
                self.goto(SetupPhase::ReadingSources, DesktopRequest::ReadSources)
            } else {
                let notice = "gsettings not found. Add Korean manually in GNOME Settings.".to_owned();
                self.goto(SetupPhase::NotifiedNoGsettings, DesktopRequest::Notice(notice))
            },
            SetupPhase::NotifiedNoGsettings => self.goto(SetupPhase::RestartingIbus, DesktopRequest::RestartIbus),
            SetupPhase::ReadingSources => {
                let current = sources_in(reply);
                if str_contains(current.as_str(), self.engine.as_str()) {
                    self.sources = current;
                    self.select_engine_source()
                } else {
                    let updated = append_ibus_source(current.as_str(), self.engine.as_str());
                    self.sources = updated.clone();
                    self.goto(SetupPhase::WritingSources, DesktopRequest::WriteSources(updated))
                }
            },
            SetupPhase::WritingSources => if ok {
                self.select_engine_source()
            } else {
                self.finish(FlowResult::SourcesNotUpdated)
            },
            SetupPhase::SelectingSource => if ok {
                let req = if self.caps_switch {
                    DesktopRequest::UseCapsLockSwitch
                } else {
                    DesktopRequest::RestoreSwitchKeys
                };
                self.goto(SetupPhase::SettingSwitchKeys, req)
            } else {
                self.finish(FlowResult::SourceNotSelected)
            },
            SetupPhase::SettingSwitchKeys => if ok {
                self.goto(SetupPhase::RestartingIbus, DesktopRequest::RestartIbus)
            } else if self.caps_switch {
                self.finish(FlowResult::CapsSwitchNotSet)
            } else {
                self.finish(FlowResult::SwitchKeysNotRestored)
            },
            SetupPhase::RestartingIbus => if ok {
                self.finish(FlowResult::SetupCompleted)
            } else {
                self.finish(FlowResult::IbusNotRestarted)
            },
            SetupPhase::Finished(result) => DesktopRequest::Finish(result),
        }
    }
}

// ---------------------------------------------------------------------------
// korean stop
// ---------------------------------------------------------------------------

/// Where `korean stop` stands: the request it waits an answer for.
#[derive(Clone, Copy, Debug, PartialEq, Eq, Structural)]
pub enum StopPhase {
    CheckingGsettings,
    ReadingSources,
    WritingSources,
    SelectingFirst,
    RestoringSwitchKeys,
    Finished(FlowResult),
}

/// The state of `korean stop`: the engine, the input sources without it, and
/// where it stands.
pub struct StopView {
    pub engine: Seq<char>,
    pub sources: Seq<char>,
    pub phase: StopPhase,
}

/// `korean stop`: removes the engine from the GNOME input sources, selects the
/// first source left and restores the default switch keys.
pub struct StopFlow {
    engine: String,
    sources: String,
    phase: StopPhase,
}

impl View for StopFlow {
    type V = StopView;

    closed spec fn view(&self) -> StopView {
        StopView { engine: self.engine@, sources: self.sources@, phase: self.phase }
    }
}

pub open spec fn stop_goto(f: StopView, phase: StopPhase, req: RequestView) -> (StopView, RequestView) {
    (StopView { phase, ..f }, req)
}

pub open spec fn stop_finish(f: StopView, result: FlowResult) -> (StopView, RequestView) {
    stop_goto(f, StopPhase::Finished(result), RequestView::Finish(result))
}

/// Once the sources are right: select the first one if any is left, then
/// restore the switch keys.
pub open spec fn stop_after_sources(f: StopView) -> (StopView, RequestView) {
    if f.sources != "[]"@ {
        stop_goto(f, StopPhase::SelectingFirst, RequestView::SelectSource(0))
    } else {
        stop_goto(f, StopPhase::RestoringSwitchKeys, RequestView::RestoreSwitchKeys)
    }
}

/// One step of `korean stop`: `gsettings` must be installed; the sources that
/// mention the engine are removed (written back only when that changes them),
/// the first source left is selected (whether that works does not matter), and
/// the default switch keys are restored.
pub open spec fn spec_stop_step(f: StopView, r: ReplyView) -> (StopView, RequestView) {
    let ok = reply_ok(r);
    match f.phase {
        StopPhase::CheckingGsettings => if ok {
            stop_goto(f, StopPhase::ReadingSources, RequestView::ReadSources)
        } else {
            stop_finish(f, FlowResult::GsettingsMissing)
        },
        StopPhase::ReadingSources => {
            let current = read_sources(r);
            let updated = spec_remove_ibus_source(current, f.engine);
            if updated != current {
                (
                    StopView { sources: updated, phase: StopPhase::WritingSources, ..f },
                    RequestView::WriteSources(updated),
                )
            } else {
                stop_after_sources(StopView { sources: updated, ..f })
            }
        },
        StopPhase::WritingSources => if ok {
            stop_after_sources(f)
        } else {
            stop_finish(f, FlowResult::SourceNotRemoved)
        },
        StopPhase::SelectingFirst => stop_goto(f, StopPhase::RestoringSwitchKeys, RequestView::RestoreSwitchKeys),
        StopPhase::RestoringSwitchKeys => if ok {
            stop_finish(f, FlowResult::Stopped)
        } else {
            stop_finish(f, FlowResult::SwitchKeysNotRestored)
        },
        StopPhase::Finished(result) => (f, RequestView::Finish(result)),
    }
}

impl StopFlow {
    /// Starts `korean stop` for the engine; the first request asks whether
    /// `gsettings` is installed.
    pub fn start(engine: &str) -> (r: (StopFlow, DesktopRequest))
        ensures
            r.0@ == (StopView {
                engine: engine@,
                sources: Seq::empty(),
                phase: StopPhase::CheckingGsettings,
            }),
            r.1@ == RequestView::HasGsettings,
    {
        let flow = StopFlow {
            engine: engine.to_owned(),
            sources: String::new(),
            phase: StopPhase::CheckingGsettings,
        };
        (flow, DesktopRequest::HasGsettings)
    }

    fn goto(&mut self, phase: StopPhase, req: DesktopRequest) -> (r: DesktopRequest)
        ensures
            (final(self)@, r@) == stop_goto(old(self)@, phase, req@),
    {
        self.phase = phase;
        req
    }

    fn finish(&mut self, result: FlowResult) -> (r: DesktopRequest)
        ensures
            (final(self)@, r@) == stop_finish(old(self)@, result),
    {
        self.goto(StopPhase::Finished(result), DesktopRequest::Finish(result))
    }

    fn after_sources(&mut self) -> (r: DesktopRequest)
        ensures
            (final(self)@, r@) == stop_after_sources(old(self)@),
    {
        if !str_equals(self.sources.as_str(), "[]") {
            self.goto(StopPhase::SelectingFirst, DesktopRequest::SelectSource(0))
        } else {
            self.goto(StopPhase::RestoringSwitchKeys, DesktopRequest::RestoreSwitchKeys)
        }
    }

    /// Takes the answer to the last request and gives the next request.
    pub fn step(&mut self, reply: DesktopReply) -> (r: DesktopRequest)
        ensures
            (final(self)@, r@) == spec_stop_step(old(self)@, reply@),
    {
        let ok = is_ok(&reply);
        match self.phase {
            StopPhase::CheckingGsettings => if ok {
                self.goto(StopPhase::ReadingSources, DesktopRequest::ReadSources)
            } else {
                self.finish(FlowResult::GsettingsMissing)
            },
            StopPhase::ReadingSources => {
                let current = sources_in(reply);
                let updated = remove_ibus_source(current.as_str(), self.engine.as_str());
                if !str_equals(updated.as_str(), current.as_str()) {
                    self.sources = updated.clone();
                    self.goto(StopPhase::WritingSources, DesktopRequest::WriteSources(updated))
                } else {
                    self.sources = updated;
                    self.after_sources()
                }
            },
            StopPhase::WritingSources => if ok {
                self.after_sources()
            } else {
                self.finish(FlowResult::SourceNotRemoved)
            },
            StopPhase::SelectingFirst => self.goto(StopPhase::RestoringSwitchKeys, DesktopRequest::RestoreSwitchKeys),
            StopPhase::RestoringSwitchKeys => if ok {
                self.finish(FlowResult::Stopped)
            } else {
                self.finish(FlowResult::SwitchKeysNotRestored)
            },
            StopPhase::Finished(result) => DesktopRequest::Finish(result),
        }
    }
}

// ---------------------------------------------------------------------------
// Laws of the flows
// ---------------------------------------------------------------------------

/// How far `korean setup` has come; every step before the end goes further.
pub open spec fn setup_rank(p: SetupPhase) -> nat {
    match p {
        SetupPhase::CheckingIbus => 0,
        SetupPhase::StartingIbus => 1,
        SetupPhase::CheckingEngine => 2,
        SetupPhase::CheckingGsettings => 3,
        SetupPhase::NotifiedNoGsettings => 4,
        SetupPhase::ReadingSources => 4,
        SetupPhase::WritingSources => 5,
        SetupPhase::SelectingSource => 6,
        SetupPhase::SettingSwitchKeys => 7,
        SetupPhase::RestartingIbus => 8,
        SetupPhase::Finished(_) => 9,
    }
}

/// `korean setup` after it is given the replies, in order.
pub open spec fn setup_after(f: SetupView, replies: Seq<ReplyView>) -> SetupView
    decreases replies.len(),
{
    if replies.len() == 0 {
        f
    } else {
        spec_setup_step(setup_after(f, replies.drop_last()), replies.last()).0
    }
}

proof fn lemma_setup_rank_grows(f: SetupView, replies: Seq<ReplyView>)
    ensures
        setup_after(f, replies).phase is Finished || setup_rank(setup_after(f, replies).phase)
            >= setup_rank(f.phase) + replies.len(),
        f.phase is Finished ==> setup_after(f, replies) == f,
    decreases replies.len(),
{
    if replies.len() > 0 {
        lemma_setup_rank_grows(f, replies.drop_last());
    }
}

/// `korean setup` ends whatever the desktop answers: from its start it asks at
/// most nine requests before it finishes, and once finished it stays finished
/// with the same result.
pub proof fn lemma_setup_ends(engine: Seq<char>, caps_switch: bool, replies: Seq<ReplyView>, r: ReplyView)
    requires
        replies.len() >= 9,
    ensures
        ({
            let start = SetupView {
                caps_switch,
                engine,
                sources: Seq::empty(),
                phase: SetupPhase::CheckingIbus,
            };
            let end = setup_after(start, replies);
            &&& end.phase is Finished
            &&& spec_setup_step(end, r) == (end, RequestView::Finish(end.phase->0))
        }),
{
    let start = SetupView { caps_switch, engine, sources: Seq::empty(), phase: SetupPhase::CheckingIbus };
    lemma_setup_rank_grows(start, replies);
}

/// `korean setup` selects the engine exactly where it stands in the sources it
/// read or wrote.
pub proof fn lemma_setup_selects_engine(f: SetupView, r: ReplyView)
    ensures
        ({
            let (g, req) = spec_setup_step(f, r);
            req matches RequestView::SelectSource(i) ==> g.engine == f.engine && spec_source_index(
                g.sources,
                f.engine,
            ) == Some(i)
        }),
{
}

/// `korean setup` writes the input sources exactly when those it read do not
/// mention the engine, and then writes them with the engine's source added;
/// when they do mention it, it goes straight on to selecting it.
pub proof fn lemma_setup_adds_engine_when_absent(f: SetupView, r: ReplyView)
    ensures
        f.phase == SetupPhase::ReadingSources && !contains_seq(read_sources(r), f.engine)
            ==> spec_setup_step(f, r).1 == RequestView::WriteSources(
            spec_append_ibus_source(read_sources(r), f.engine),
        ),
        f.phase == SetupPhase::ReadingSources && contains_seq(read_sources(r), f.engine)
            ==> !(spec_setup_step(f, r).1 is WriteSources),
        spec_setup_step(f, r).1 matches RequestView::WriteSources(s) ==> {
            &&& f.phase == SetupPhase::ReadingSources
            &&& !contains_seq(read_sources(r), f.engine)
            &&& s == spec_append_ibus_source(read_sources(r), f.engine)
        },
{
}

/// When `korean setup` wrote the sources itself and the write succeeded, it
/// finds the engine in them and selects it: the sources read hold well-formed
/// sources and the engine name has no `),`.
pub proof fn lemma_setup_finds_what_it_wrote(f: SetupView, r1: ReplyView, r2: ReplyView)
    requires
        f.phase == SetupPhase::ReadingSources,
        forall|i: int|
            0 <= i < spec_source_items(read_sources(r1)).len() ==> source_item_wf(
                #[trigger] spec_source_items(read_sources(r1))[i],
            ),
        engine_name_wf(f.engine),
        spec_setup_step(f, r1).1 is WriteSources,
        reply_ok(r2),
    ensures
        spec_setup_step(spec_setup_step(f, r1).0, r2).1 is SelectSource,
{
    lemma_append_then_found(read_sources(r1), f.engine);
}

/// The setup flow sets the switch keys right after the engine is selected:
/// it makes Caps Lock the switch key exactly when its options ask for it
/// (`korean start` always does, `korean setup` with `--caps-switch`), and
/// otherwise restores the default switch keys.
pub proof fn lemma_setup_switch_keys_follow_option(f: SetupView, r: ReplyView)
    ensures
        spec_setup_step(f, r).1 == RequestView::UseCapsLockSwitch ==> f.caps_switch,
        spec_setup_step(f, r).1 == RequestView::RestoreSwitchKeys ==> !f.caps_switch,
        f.phase == SetupPhase::SelectingSource && reply_ok(r) ==> spec_setup_step(f, r).1 == (
        if f.caps_switch {
            RequestView::UseCapsLockSwitch
        } else {
            RequestView::RestoreSwitchKeys
        }),
{
}

proof fn lemma_setup_keeps_options(f: SetupView, replies: Seq<ReplyView>)
    ensures
        setup_after(f, replies).caps_switch == f.caps_switch,
        setup_after(f, replies).engine == f.engine,
    decreases replies.len(),
{
    if replies.len() > 0 {
        lemma_setup_keeps_options(f, replies.drop_last());
    }
}

/// `korean start` makes Caps Lock the GNOME input-source switch key: its
/// options always ask for it (see `parse_start_options`), so whatever the
/// desktop answers its flow never restores the default switch keys, and once
/// the engine is selected it asks for Caps Lock.
pub proof fn lemma_start_sets_caps_lock_switch(engine: Seq<char>, replies: Seq<ReplyView>, r: ReplyView)
    ensures
        ({
            let start = SetupView {
                caps_switch: true,
                engine,
                sources: Seq::empty(),
                phase: SetupPhase::CheckingIbus,
            };
            let f = setup_after(start, replies);
            &&& spec_setup_step(f, r).1 != RequestView::RestoreSwitchKeys
            &&& f.phase == SetupPhase::SelectingSource && reply_ok(r) ==> spec_setup_step(f, r).1
                == RequestView::UseCapsLockSwitch
        }),
{
    let start = SetupView { caps_switch: true, engine, sources: Seq::empty(), phase: SetupPhase::CheckingIbus };
    lemma_setup_keeps_options(start, replies);
}

/// `korean setup` reports success only after IBus was restarted.
pub proof fn lemma_setup_completes_after_restart(f: SetupView, r: ReplyView)
    requires
        !(f.phase is Finished),
        spec_setup_step(f, r).1 == RequestView::Finish(FlowResult::SetupCompleted),
    ensures
        f.phase == SetupPhase::RestartingIbus,
        reply_ok(r),
{
}

/// How far `korean stop` has come; every step before the end goes further.
pub open spec fn stop_rank(p: StopPhase) -> nat {
    match p {
        StopPhase::CheckingGsettings => 0,
        StopPhase::ReadingSources => 1,
        StopPhase::WritingSources => 2,
        StopPhase::SelectingFirst => 3,
        StopPhase::RestoringSwitchKeys => 4,
        StopPhase::Finished(_) => 5,
    }
}

/// `korean stop` after it is given the replies, in order.
pub open spec fn stop_after(f: StopView, replies: Seq<ReplyView>) -> StopView
    decreases replies.len(),
{
    if replies.len() == 0 {
        f
    } else {
        spec_stop_step(stop_after(f, replies.drop_last()), replies.last()).0
    }
}

proof fn lemma_stop_rank_grows(f: StopView, replies: Seq<ReplyView>)
    ensures
        stop_after(f, replies).phase is Finished || stop_rank(stop_after(f, replies).phase)
            >= stop_rank(f.phase) + replies.len(),
        f.phase is Finished ==> stop_after(f, replies) == f,
    decreases replies.len(),
{
    if replies.len() > 0 {
        lemma_stop_rank_grows(f, replies.drop_last());
    }
}

/// `korean stop` ends whatever the desktop answers: from its start it asks at
/// most five requests before it finishes, and once finished it stays finished.
pub proof fn lemma_stop_ends(engine: Seq<char>, replies: Seq<ReplyView>, r: ReplyView)
    requires
        replies.len() >= 5,
    ensures
        ({
            let start = StopView { engine, sources: Seq::empty(), phase: StopPhase::CheckingGsettings };
            let end = stop_after(start, replies);
            &&& end.phase is Finished
            &&& spec_stop_step(end, r) == (end, RequestView::Finish(end.phase->0))
        }),
{
    let start = StopView { engine, sources: Seq::empty(), phase: StopPhase::CheckingGsettings };
    lemma_stop_rank_grows(start, replies);
}

/// `korean stop` writes the input sources exactly when removing the engine's
/// sources changes them, and what it writes no longer has the engine (the
/// sources read being well-formed).
pub proof fn lemma_stop_removes_engine(f: StopView, r: ReplyView)
    ensures
        f.phase == StopPhase::ReadingSources && spec_remove_ibus_source(read_sources(r), f.engine)
            != read_sources(r) ==> spec_stop_step(f, r).1 == RequestView::WriteSources(
            spec_remove_ibus_source(read_sources(r), f.engine),
        ),
        spec_stop_step(f, r).1 matches RequestView::WriteSources(s) ==> {
            &&& f.phase == StopPhase::ReadingSources
            &&& s == spec_remove_ibus_source(read_sources(r), f.engine)
            &&& s != read_sources(r)
            &&& (forall|i: int|
                0 <= i < spec_source_items(read_sources(r)).len() ==> source_item_wf(
                    #[trigger] spec_source_items(read_sources(r))[i],
                )) ==> spec_source_index(s, f.engine) is None
        },
{
    if spec_stop_step(f, r).1 is WriteSources {
        if forall|i: int|
            0 <= i < spec_source_items(read_sources(r)).len() ==> source_item_wf(
                #[trigger] spec_source_items(read_sources(r))[i],
            ) {
            lemma_remove_then_absent(read_sources(r), f.engine);
        }
    }
}

// ---------------------------------------------------------------------------
// What the commands print
// ---------------------------------------------------------------------------

/// What a command prints on each stream, line by line, and its exit code.
#[derive(Debug, PartialEq, Eq)]
pub struct FlowReport {
    pub stdout: Vec<String>,
    pub stderr: Vec<String>,
    pub exit_code: u8,
}

/// `FlowReport` with its lines as character sequences.
pub struct ReportView {
    pub stdout: Seq<Seq<char>>,
    pub stderr: Seq<Seq<char>>,
    pub exit_code: u8,
}

pub open spec fn lines_view(lines: Seq<String>) -> Seq<Seq<char>> {
    lines.map_values(|l: String| l@)
}

impl View for FlowReport {
    type V = ReportView;

    open spec fn view(&self) -> ReportView {
        ReportView {
            stdout: lines_view(self.stdout@),
            stderr: lines_view(self.stderr@),
            exit_code: self.exit_code,
        }
    }
}

pub open spec fn failure(lines: Seq<Seq<char>>) -> ReportView {
    ReportView { stdout: Seq::empty(), stderr: lines, exit_code: 1 }
}

pub open spec fn add_source_hint(engine: Seq<char>) -> Seq<char> {
    "Add ('ibus', '"@ + engine + "') from Settings > Keyboard > Input Sources."@
}

/// What `korean setup` and `korean stop` print for each way they end.
pub open spec fn spec_flow_report(result: FlowResult, engine: Seq<char>, caps_switch: bool, quiet: bool) -> ReportView {
    match result {
        FlowResult::SetupCompleted => ReportView {
            stdout: if quiet {
                Seq::empty()
            } else {
                seq![
                    "Korean setup completed."@,
                    "IBus restarted."@,
                    if caps_switch {
                        "Caps Lock is configured as the GNOME input source switch key."@
                    } else {
                        "Caps Lock is handled by the Korean input method."@
                    },
                    "Select '"@ + engine + "' in the GNOME input source menu if it is not active yet."@,
                ]
            },
            stderr: Seq::empty(),
            exit_code: 0,
        },
        FlowResult::Stopped => ReportView {
            stdout: seq!["Korean stopped."@],
            stderr: Seq::empty(),
            exit_code: 0,
        },
        FlowResult::IbusMissing => failure(
            seq!["ibus command not found. Install the korean package dependencies and try again."@],
        ),
        FlowResult::EngineNotRegistered => failure(
            seq![
                engine + " engine is not visible to IBus yet."@,
                "Try: ibus restart"@,
                "If it still fails, verify the IBus component XML exists."@,
            ],
        ),
        FlowResult::GsettingsMissing => failure(
            seq!["gsettings not found. Remove Korean manually in GNOME Settings."@],
        ),
        FlowResult::SourcesNotUpdated => failure(
            seq!["Could not update GNOME input sources automatically."@, add_source_hint(engine)],
        ),
        FlowResult::SourceNotSelected => failure(
            seq![
                "Could not select "@ + engine + " automatically."@,
                "Select '"@ + engine + "' from the GNOME input source menu."@,
            ],
        ),
        FlowResult::SourceNotFound => failure(
            seq![engine + " was not found in GNOME input sources after setup."@, add_source_hint(engine)],
        ),
        FlowResult::SourceNotRemoved => failure(
            seq!["Could not remove "@ + engine + " from GNOME input sources automatically."@],
        ),
        FlowResult::CapsSwitchNotSet => failure(
            seq![
                "Could not set Caps Lock as the GNOME input-source switch key."@,
                "Set Settings > Keyboard > Keyboard Shortcuts > Typing > Switch to next input source to Caps Lock."@,
            ],
        ),
        FlowResult::SwitchKeysNotRestored => failure(
            seq!["Could not restore GNOME input-source switch keys automatically."@],
        ),
        FlowResult::IbusNotRestarted => failure(
            seq!["Could not restart IBus automatically."@, "Run: ibus restart"@],
        ),
    }
}

/// A command that succeeds prints only on the standard output and exits
/// with 0; one that fails prints at least one line, only on the error
/// stream, and exits with 1. Only completing `korean setup` and stopping
/// with `korean stop` count as success.
pub proof fn lemma_reports_follow_results(result: FlowResult, engine: Seq<char>, caps_switch: bool, quiet: bool)
    ensures
        ({
            let report = spec_flow_report(result, engine, caps_switch, quiet);
            &&& (report.exit_code == 0) == (result == FlowResult::SetupCompleted || result
                == FlowResult::Stopped)
            &&& report.exit_code == 0 ==> report.stderr.len() == 0
            &&& report.exit_code != 0 ==> report.exit_code == 1 && report.stdout.len() == 0
                && report.stderr.len() > 0
        }),
{
}

/// The lines, in order.
pub fn lines_of(first: String, rest: Vec<String>) -> (v: Vec<String>)
    ensures
        lines_view(v@) == seq![first@] + lines_view(rest@),
{
    let ghost f = first@;
    let mut v: Vec<String> = Vec::new();
    v.push(first);
    let mut i: usize = 0;
    while i < rest.len()
        invariant
            i <= rest@.len(),
            lines_view(v@) == seq![f] + lines_view(rest@).take(i as int),
        decreases rest@.len() - i,
    {
        let ghost before = v@;
        v.push(rest[i].clone());
        assert(lines_view(v@) =~= lines_view(before).push(rest@[i as int]@));
        assert(lines_view(rest@).take(i + 1) =~= lines_view(rest@).take(i as int).push(
            rest@[i as int]@,
        ));
        i = i + 1;
    }
    assert(lines_view(rest@).take(rest@.len() as int) =~= lines_view(rest@));
    v
}

pub(crate) fn one_line(line: String) -> (v: Vec<String>)
    ensures
        lines_view(v@) == seq![line@],
{
    let ghost l = line@;
    let mut v: Vec<String> = Vec::new();
    v.push(line);
    assert(lines_view(v@) =~= seq![l]);
    v
}

pub(crate) fn two_lines(a: String, b: String) -> (v: Vec<String>)
    ensures
        lines_view(v@) == seq![a@, b@],
{
    let v = lines_of(a, one_line(b));
    assert(lines_view(v@) =~= seq![a@, b@]);
    v
}

pub(crate) fn three_lines(a: String, b: String, c: String) -> (v: Vec<String>)
    ensures
        lines_view(v@) == seq![a@, b@, c@],
{
    let v = lines_of(a, two_lines(b, c));
    assert(lines_view(v@) =~= seq![a@, b@, c@]);
    v
}

pub(crate) fn four_lines(a: String, b: String, c: String, d: String) -> (v: Vec<String>)
    ensures
        lines_view(v@) == seq![a@, b@, c@, d@],
{
    let v = lines_of(a, three_lines(b, c, d));
    assert(lines_view(v@) =~= seq![a@, b@, c@, d@]);
    v
}

fn failure_report(stderr: Vec<String>) -> (r: FlowReport)
    ensures
        r@ == failure(lines_view(stderr@)),
{
    let r = FlowReport { stdout: Vec::new(), stderr, exit_code: 1 };
    assert(lines_view(r.stdout@) =~= Seq::empty());
    r
}

fn add_source_hint_line(engine: &str) -> (r: String)
    ensures
        r@ == add_source_hint(engine@),
{
    concat3("Add ('ibus', '", engine, "') from Settings > Keyboard > Input Sources.")
}

/// What `korean setup` or `korean stop` prints when it ends with `result`.
pub fn flow_report(result: FlowResult, engine: &str, options: &SetupOptions) -> (r: FlowReport)
    ensures
        r@ == spec_flow_report(result, engine@, options.caps_switch, options.quiet),
{
    match result {
        FlowResult::SetupCompleted => {
            let stdout = if options.quiet {
                let v: Vec<String> = Vec::new();
                assert(lines_view(v@) =~= Seq::empty());
                v
            } else {
                let switch_line = if options.caps_switch {
                    "Caps Lock is configured as the GNOME input source switch key.".to_owned()
                } else {
                    "Caps Lock is handled by the Korean input method.".to_owned()
                };
                four_lines(
                    "Korean setup completed.".to_owned(),
                    "IBus restarted.".to_owned(),
                    switch_line,
                    concat3("Select '", engine, "' in the GNOME input source menu if it is not active yet."),
                )
            };
            let r = FlowReport { stdout, stderr: Vec::new(), exit_code: 0 };
            assert(lines_view(r.stderr@) =~= Seq::empty());
            r
        },
        FlowResult::Stopped => {
            let r = FlowReport {
                stdout: one_line("Korean stopped.".to_owned()),
                stderr: Vec::new(),
                exit_code: 0,
            };
            assert(lines_view(r.stderr@) =~= Seq::empty());
            r
        },
        FlowResult::IbusMissing => failure_report(
            one_line(
                "ibus command not found. Install the korean package dependencies and try again.".to_owned(),
            ),
        ),
        FlowResult::EngineNotRegistered => failure_report(
            three_lines(
                concat(engine, " engine is not visible to IBus yet."),
                "Try: ibus restart".to_owned(),
                "If it still fails, verify the IBus component XML exists.".to_owned(),
            ),
        ),
        FlowResult::GsettingsMissing => failure_report(
            one_line("gsettings not found. Remove Korean manually in GNOME Settings.".to_owned()),
        ),
        FlowResult::SourcesNotUpdated => failure_report(
            two_lines(
                "Could not update GNOME input sources automatically.".to_owned(),
                add_source_hint_line(engine),
            ),
        ),
        FlowResult::SourceNotSelected => failure_report(
            two_lines(
                concat3("Could not select ", engine, " automatically."),
                concat3("Select '", engine, "' from the GNOME input source menu."),
            ),
        ),
        FlowResult::SourceNotFound => failure_report(
            two_lines(
                concat(engine, " was not found in GNOME input sources after setup."),
                add_source_hint_line(engine),
            ),
        ),
        FlowResult::SourceNotRemoved => failure_report(
            one_line(concat3("Could not remove ", engine, " from GNOME input sources automatically.")),
        ),
        FlowResult::CapsSwitchNotSet => failure_report(
            two_lines(
                "Could not set Caps Lock as the GNOME input-source switch key.".to_owned(),
                "Set Settings > Keyboard > Keyboard Shortcuts > Typing > Switch to next input source to Caps Lock.".to_owned(),
            ),
        ),
        FlowResult::SwitchKeysNotRestored => failure_report(
            one_line("Could not restore GNOME input-source switch keys automatically.".to_owned()),
        ),
        FlowResult::IbusNotRestarted => failure_report(
            two_lines("Could not restart IBus automatically.".to_owned(), "Run: ibus restart".to_owned()),
        ),
    }
}

} // verus!
