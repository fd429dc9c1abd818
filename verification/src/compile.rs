//! The compile run: a step machine that takes one backend reply at a
//! time and decides the next backend request, the terminal verdict, and
//! which intermediate compiled units must be released.
//!
//! One run compiles the vertex stage, then the fragment stage, then links
//! the two units into the program. The unverified host performs each
//! [`CompileAction`] against the backend and feeds the reply back through
//! [`CompileSession::step`]. On every terminal path the machine orders
//! the release of every compiled unit the backend has handed out, so a
//! failed run leaks nothing.

use vstd::prelude::*;

use crate::shader::CompileError;
use crate::shader::CompileErrorView;
use crate::shader::ShaderStage;

verus! {

/// Smallest diagnostic-log buffer, in bytes, that a host should offer
/// the backend when it fetches a compile or link log.
pub const SHADER_LOG_CAPACITY: usize = 512;

/// A request the library asks the host to perform against the backend.
pub enum CompileAction {
    /// Compile this source text as this stage; reply with
    /// [`CompileEvent::StageOk`] carrying the new compiled unit's handle,
    /// or [`CompileEvent::StageError`] carrying the diagnostic log.
    CompileStage(ShaderStage, String),
    /// Attach the two compiled units (second and third field) to the
    /// program handle (first field) and link; reply with
    /// [`CompileEvent::LinkOk`] or [`CompileEvent::LinkError`].
    LinkProgram(u32, u32, u32),
}

/// Mathematical image of a [`CompileAction`].
#[verifier::ext_equal]
pub enum CompileActionView {
    CompileStage(ShaderStage, Seq<char>),
    LinkProgram(u32, u32, u32),
}

impl View for CompileAction {
    type V = CompileActionView;

    open spec fn view(&self) -> CompileActionView {
        match self {
            CompileAction::CompileStage(stage, source) => CompileActionView::CompileStage(
                *stage,
                source@,
            ),
            CompileAction::LinkProgram(program, vertex_unit, fragment_unit) => CompileActionView::LinkProgram(
                *program,
                *vertex_unit,
                *fragment_unit,
            ),
        }
    }
}

/// The backend's reply to the pending [`CompileAction`].
pub enum CompileEvent {
    /// The stage compiled; carries the compiled unit's handle.
    StageOk(u32),
    /// The stage did not compile; carries the diagnostic log.
    StageError(String),
    /// The program linked.
    LinkOk,
    /// The link failed; carries the diagnostic log.
    LinkError(String),
}

/// Mathematical image of a [`CompileEvent`].
#[verifier::ext_equal]
pub enum CompileEventView {
    StageOk(u32),
    StageError(Seq<char>),
    LinkOk,
    LinkError(Seq<char>),
}

impl View for CompileEvent {
    type V = CompileEventView;

    open spec fn view(&self) -> CompileEventView {
        match self {
            CompileEvent::StageOk(unit) => CompileEventView::StageOk(*unit),
            CompileEvent::StageError(log) => CompileEventView::StageError(log@),
            CompileEvent::LinkOk => CompileEventView::LinkOk,
            CompileEvent::LinkError(log) => CompileEventView::LinkError(log@),
        }
    }
}

/// Where a run stands: which reply it waits for, holding the handles of
/// the compiled units acquired so far, or a terminal verdict.
#[derive(Clone, Copy, PartialEq, Eq, Structural, Debug)]
pub enum CompilePhase {
    /// Waiting for the vertex stage's compile reply.
    VertexPending,
    /// Vertex stage compiled (its unit handle is held); waiting for the
    /// fragment stage's compile reply.
    FragmentPending(u32),
    /// Both stages compiled (both unit handles are held); waiting for
    /// the link reply.
    LinkPending(u32, u32),
    /// The program linked; terminal.
    Succeeded,
    /// The run failed; terminal.
    Failed,
}

/// One compile-and-link run for one program.
pub struct CompileSession {
    program_id: u32,
    fragment_source: String,
    phase: CompilePhase,
}

/// Mathematical image of a [`CompileSession`].
#[verifier::ext_equal]
pub struct CompileSessionView {
    pub program_id: u32,
    pub fragment_source: Seq<char>,
    pub phase: CompilePhase,
}

impl View for CompileSession {
    type V = CompileSessionView;

    closed spec fn view(&self) -> CompileSessionView {
        CompileSessionView {
            program_id: self.program_id,
            fragment_source: self.fragment_source@,
            phase: self.phase,
        }
    }
}

/// What one step tells the host to do next.
pub enum StepNext {
    /// Perform this request and call [`CompileSession::step`] with the
    /// backend's reply.
    Request(CompileAction),
    /// The program linked; the run is over.
    Success,
    /// The run failed with this error; no further request follows.
    Failure(CompileError),
}

/// Mathematical image of a [`StepNext`].
#[verifier::ext_equal]
pub enum StepNextView {
    Request(CompileActionView),
    Success,
    Failure(CompileErrorView),
}

impl View for StepNext {
    type V = StepNextView;

    open spec fn view(&self) -> StepNextView {
        match self {
            StepNext::Request(action) => StepNextView::Request(action@),
            StepNext::Success => StepNextView::Success,
            StepNext::Failure(error) => StepNextView::Failure(error@),
        }
    }
}

/// The outcome of one step.
pub struct StepResult {
    /// Compiled-unit handles the host must release (delete) now.
    pub releases: Vec<u32>,
    /// The next request, or the terminal verdict.
    pub next: StepNext,
}

/// Mathematical image of a [`StepResult`].
#[verifier::ext_equal]
pub struct StepResultView {
    pub releases: Seq<u32>,
    pub next: StepNextView,
}

impl View for StepResult {
    type V = StepResultView;

    open spec fn view(&self) -> StepResultView {
        StepResultView { releases: self.releases@, next: self.next@ }
    }
}

/// Does this reply answer the request pending in this phase?
pub open spec fn event_fits(phase: CompilePhase, event: CompileEventView) -> bool {
    match phase {
        CompilePhase::VertexPending => event is StageOk || event is StageError,
        CompilePhase::FragmentPending(_) => event is StageOk || event is StageError,
        CompilePhase::LinkPending(_, _) => event is LinkOk || event is LinkError,
        CompilePhase::Succeeded => false,
        CompilePhase::Failed => false,
    }
}

/// Is the run over?
pub open spec fn phase_terminal(phase: CompilePhase) -> bool {
    phase is Succeeded || phase is Failed
}

/// The transition function of the machine: from a session and a fitting
/// backend reply to the next session and what the host must do.
pub open spec fn step_spec(s: CompileSessionView, event: CompileEventView) -> (
    CompileSessionView,
    StepResultView,
)
    recommends
        event_fits(s.phase, event),
{
    match (s.phase, event) {
        (CompilePhase::VertexPending, CompileEventView::StageOk(vertex_unit)) => (
            CompileSessionView { phase: CompilePhase::FragmentPending(vertex_unit), ..s },
            StepResultView {
                releases: Seq::empty(),
                next: StepNextView::Request(
                    CompileActionView::CompileStage(ShaderStage::Fragment, s.fragment_source),
                ),
            },
        ),
        (CompilePhase::VertexPending, CompileEventView::StageError(log)) => (
            CompileSessionView { phase: CompilePhase::Failed, ..s },
            StepResultView {
                releases: Seq::empty(),
                next: StepNextView::Failure(CompileErrorView::Stage(ShaderStage::Vertex, log)),
            },
        ),
        (CompilePhase::FragmentPending(vertex_unit), CompileEventView::StageOk(fragment_unit)) => (
            CompileSessionView {
                phase: CompilePhase::LinkPending(vertex_unit, fragment_unit),
                ..s
            },
            StepResultView {
                releases: Seq::empty(),
                next: StepNextView::Request(
                    CompileActionView::LinkProgram(s.program_id, vertex_unit, fragment_unit),
                ),
            },
        ),
        (CompilePhase::FragmentPending(vertex_unit), CompileEventView::StageError(log)) => (
            CompileSessionView { phase: CompilePhase::Failed, ..s },
            StepResultView {
                releases: seq![vertex_unit],
                next: StepNextView::Failure(CompileErrorView::Stage(ShaderStage::Fragment, log)),
            },
        ),
        (CompilePhase::LinkPending(vertex_unit, fragment_unit), CompileEventView::LinkOk) => (
            CompileSessionView { phase: CompilePhase::Succeeded, ..s },
            StepResultView {
                releases: seq![vertex_unit, fragment_unit],
                next: StepNextView::Success,
            },
        ),
        (CompilePhase::LinkPending(vertex_unit, fragment_unit), CompileEventView::LinkError(log)) => (
            CompileSessionView { phase: CompilePhase::Failed, ..s },
            StepResultView {
                releases: seq![vertex_unit, fragment_unit],
                next: StepNextView::Failure(CompileErrorView::Link(log)),
            },
        ),
        _ => arbitrary(),
    }
}

impl CompileSession {
    /// Open a run for the program with this handle and this fragment
    /// source; the host's first request is to compile the vertex stage,
    /// which the caller of this constructor issues alongside it.
    pub(crate) fn open(program_id: u32, fragment_source: String) -> (s: Self)
        ensures
            s@ == (CompileSessionView {
                program_id,
                fragment_source: fragment_source@,
                phase: CompilePhase::VertexPending,
            }),
    {
        CompileSession { program_id, fragment_source, phase: CompilePhase::VertexPending }
    }

    /// The handle of the program this run belongs to.
    pub fn program_id(&self) -> (id: u32)
        ensures
            id == self@.program_id,
    {
        self.program_id
    }

    /// Where the run stands.
    pub fn phase(&self) -> (p: CompilePhase)
        ensures
            p == self@.phase,
    {
        self.phase
    }

    /// Feed the backend's reply to the pending request; returns which
    /// compiled units to release now and the next request or the
    /// terminal verdict, exactly as [`step_spec`] says.
    pub fn step(&mut self, event: CompileEvent) -> (r: StepResult)
        requires
            event_fits(old(self)@.phase, event@),
        ensures
            final(self)@ == step_spec(old(self)@, event@).0,
            r@ == step_spec(old(self)@, event@).1,
    {
        match (self.phase, event) {
            (CompilePhase::VertexPending, CompileEvent::StageOk(vertex_unit)) => {
                self.phase = CompilePhase::FragmentPending(vertex_unit);
                let action = CompileAction::CompileStage(
                    ShaderStage::Fragment,
                    self.fragment_source.clone(),
                );
                let r = StepResult { releases: Vec::new(), next: StepNext::Request(action) };
                proof {
                    assert(r@ =~= step_spec(old(self)@, event@).1);
                }
                r
            },
            (CompilePhase::VertexPending, CompileEvent::StageError(log)) => {
                self.phase = CompilePhase::Failed;
                let r = StepResult {
                    releases: Vec::new(),
                    next: StepNext::Failure(CompileError::Stage(ShaderStage::Vertex, log)),
                };
                proof {
                    assert(r@ =~= step_spec(old(self)@, event@).1);
                }
                r
            },
            (CompilePhase::FragmentPending(vertex_unit), CompileEvent::StageOk(fragment_unit)) => {
                self.phase = CompilePhase::LinkPending(vertex_unit, fragment_unit);
                let action = CompileAction::LinkProgram(
                    self.program_id,
                    vertex_unit,
                    fragment_unit,
                );
                let r = StepResult { releases: Vec::new(), next: StepNext::Request(action) };
                proof {
                    assert(r@ =~= step_spec(old(self)@, event@).1);
                }
                r
            },
            (CompilePhase::FragmentPending(vertex_unit), CompileEvent::StageError(log)) => {
                self.phase = CompilePhase::Failed;
                let mut releases: Vec<u32> = Vec::new();
                releases.push(vertex_unit);
                let r = StepResult {
                    releases,
                    next: StepNext::Failure(CompileError::Stage(ShaderStage::Fragment, log)),
                };
                proof {
                    assert(r@ =~= step_spec(old(self)@, event@).1);
                }
                r
            },
            (CompilePhase::LinkPending(vertex_unit, fragment_unit), CompileEvent::LinkOk) => {
                self.phase = CompilePhase::Succeeded;
                let mut releases: Vec<u32> = Vec::new();
                releases.push(vertex_unit);
                releases.push(fragment_unit);
                let r = StepResult { releases, next: StepNext::Success };
                proof {
                    assert(r@ =~= step_spec(old(self)@, event@).1);
                }
                r
            },
            (CompilePhase::LinkPending(vertex_unit, fragment_unit), CompileEvent::LinkError(log)) => {
                self.phase = CompilePhase::Failed;
                let mut releases: Vec<u32> = Vec::new();
                releases.push(vertex_unit);
                releases.push(fragment_unit);
                let r = StepResult {
                    releases,
                    next: StepNext::Failure(CompileError::Link(log)),
                };
                proof {
                    assert(r@ =~= step_spec(old(self)@, event@).1);
                }
                r
            },
            (_, _) => {
                // Ruled out by the precondition: the reply fits the phase.
                proof {
                    assert(false);
                }
                StepResult { releases: Vec::new(), next: StepNext::Success }
            },
        }
    }
}

/// What a whole run did: where the session ended, every release it
/// ordered along the way (in order), and the last step's outcome.
#[verifier::ext_equal]
pub struct RunView {
    pub session: CompileSessionView,
    pub releases: Seq<u32>,
    /// The `next` of the last step, if any step was taken.
    pub last: Option<StepNextView>,
}

/// Run the machine over a whole reply sequence.
pub open spec fn run_spec(s: CompileSessionView, events: Seq<CompileEventView>) -> RunView
    decreases events.len(),
{
    if events.len() == 0 {
        RunView { session: s, releases: Seq::empty(), last: None }
    } else {
        let stepped = step_spec(s, events.first());
        let rest = run_spec(stepped.0, events.drop_first());
        RunView {
            session: rest.session,
            releases: stepped.1.releases + rest.releases,
            last: if events.len() == 1 {
                Some(stepped.1.next)
            } else {
                rest.last
            },
        }
    }
}

/// Every reply along the way answers the then-pending request.
pub open spec fn events_fit(s: CompileSessionView, events: Seq<CompileEventView>) -> bool
    decreases events.len(),
{
    events.len() == 0 || {
        &&& event_fits(s.phase, events.first())
        &&& events_fit(step_spec(s, events.first()).0, events.drop_first())
    }
}

/// The compiled-unit handles the backend handed out in these replies,
/// in order.
pub open spec fn acquired_units(events: Seq<CompileEventView>) -> Seq<u32>
    decreases events.len(),
{
    if events.len() == 0 {
        Seq::empty()
    } else {
        let rest = acquired_units(events.drop_first());
        match events.first() {
            CompileEventView::StageOk(unit) => seq![unit] + rest,
            _ => rest,
        }
    }
}

/// The compiled-unit handles a phase still holds.
pub open spec fn held_units(phase: CompilePhase) -> Seq<u32> {
    match phase {
        CompilePhase::VertexPending => Seq::empty(),
        CompilePhase::FragmentPending(vertex_unit) => seq![vertex_unit],
        CompilePhase::LinkPending(vertex_unit, fragment_unit) => seq![
            vertex_unit,
            fragment_unit,
        ],
        CompilePhase::Succeeded => Seq::empty(),
        CompilePhase::Failed => Seq::empty(),
    }
}

/// No compiled unit outlives a run: on every reply sequence that drives
/// a session to a terminal phase, the releases the machine ordered are
/// exactly the units the session already held plus every unit the
/// backend handed out along the way, in that order. In particular a run
/// begun at `VertexPending` releases precisely what it acquired,
/// whether it ends in success or in any failure.
pub proof fn lemma_no_unit_leaks(s: CompileSessionView, events: Seq<CompileEventView>)
    requires
        events_fit(s, events),
        phase_terminal(run_spec(s, events).session.phase),
    ensures
        run_spec(s, events).releases == held_units(s.phase) + acquired_units(events),
    decreases events.len(),
{
    if events.len() == 0 {
        assert(run_spec(s, events).releases =~= held_units(s.phase) + acquired_units(events));
    } else {
        let e = events.first();
        let stepped = step_spec(s, e);
        lemma_no_unit_leaks(stepped.0, events.drop_first());
        assert(run_spec(s, events).releases =~= held_units(s.phase) + acquired_units(events));
    }
}

/// A run whose fragment stage fails to compile: the verdict is a
/// fragment-stage error carrying the backend's log, the run is over,
/// and the vertex stage's compiled unit is the one release ordered, so
/// it does not leak.
pub proof fn lemma_fragment_error_run(s: CompileSessionView, vertex_unit: u32, log: Seq<char>)
    requires
        s.phase is VertexPending,
    ensures
        ({
            let events = seq![
                CompileEventView::StageOk(vertex_unit),
                CompileEventView::StageError(log),
            ];
            let run = run_spec(s, events);
            &&& events_fit(s, events)
            &&& run.session.phase is Failed
            &&& run.last == Some(
                StepNextView::Failure(CompileErrorView::Stage(ShaderStage::Fragment, log)),
            )
            &&& run.releases == seq![vertex_unit]
        }),
{
    reveal_with_fuel(run_spec, 4);
    reveal_with_fuel(events_fit, 4);
    let events = seq![
        CompileEventView::StageOk(vertex_unit),
        CompileEventView::StageError(log),
    ];
    assert(events.drop_first().first() == CompileEventView::StageError(log));
    assert(events.drop_first().drop_first().len() == 0);
    assert(run_spec(s, events).releases =~= seq![vertex_unit]);
}

/// A run whose stages compile but whose link fails: the verdict is a
/// link error carrying the backend's log, and both compiled units are
/// released, so neither leaks.
pub proof fn lemma_link_error_run(
    s: CompileSessionView,
    vertex_unit: u32,
    fragment_unit: u32,
    log: Seq<char>,
)
    requires
        s.phase is VertexPending,
    ensures
        ({
            let events = seq![
                CompileEventView::StageOk(vertex_unit),
                CompileEventView::StageOk(fragment_unit),
                CompileEventView::LinkError(log),
            ];
            let run = run_spec(s, events);
            &&& events_fit(s, events)
            &&& run.session.phase is Failed
            &&& run.last == Some(StepNextView::Failure(CompileErrorView::Link(log)))
            &&& run.releases == seq![vertex_unit, fragment_unit]
        }),
{
    reveal_with_fuel(run_spec, 4);
    reveal_with_fuel(events_fit, 4);
    let events = seq![
        CompileEventView::StageOk(vertex_unit),
        CompileEventView::StageOk(fragment_unit),
        CompileEventView::LinkError(log),
    ];
    assert(events.drop_first().first() == CompileEventView::StageOk(fragment_unit));
    assert(events.drop_first().drop_first().first() == CompileEventView::LinkError(log));
    assert(events.drop_first().drop_first().drop_first().len() == 0);
    assert(run_spec(s, events).releases =~= seq![vertex_unit, fragment_unit]);
}

/// A run whose stages compile and whose link succeeds: the session ends
/// `Succeeded`, the verdict is `Success`, and both compiled units are
/// released once linked into the program.
pub proof fn lemma_success_run(
    s: CompileSessionView,
    vertex_unit: u32,
    fragment_unit: u32,
)
    requires
        s.phase is VertexPending,
    ensures
        ({
            let events = seq![
                CompileEventView::StageOk(vertex_unit),
                CompileEventView::StageOk(fragment_unit),
                CompileEventView::LinkOk,
            ];
            let run = run_spec(s, events);
            &&& events_fit(s, events)
            &&& run.session.phase is Succeeded
            &&& run.last == Some(StepNextView::Success)
            &&& run.releases == seq![vertex_unit, fragment_unit]
        }),
{
    reveal_with_fuel(run_spec, 4);
    reveal_with_fuel(events_fit, 4);
    let events = seq![
        CompileEventView::StageOk(vertex_unit),
        CompileEventView::StageOk(fragment_unit),
        CompileEventView::LinkOk,
    ];
    assert(events.drop_first().first() == CompileEventView::StageOk(fragment_unit));
    assert(events.drop_first().drop_first().first() == CompileEventView::LinkOk);
    assert(events.drop_first().drop_first().drop_first().len() == 0);
    assert(run_spec(s, events).releases =~= seq![vertex_unit, fragment_unit]);
}

/// A run's course is fixed by the source text and the backend's replies
/// alone: two sessions in the same phase and with the same fragment
/// source, fed the same replies, pass through the same phases and order
/// the same releases; and once the run is over, the verdict is the
/// same. The program handle plays no part in the verdict, so two
/// programs built from identical source text behave identically under
/// identical backend replies.
pub proof fn lemma_run_determined_by_source(
    a: CompileSessionView,
    b: CompileSessionView,
    events: Seq<CompileEventView>,
)
    requires
        a.fragment_source == b.fragment_source,
        a.phase == b.phase,
        events_fit(a, events),
    ensures
        events_fit(b, events),
        run_spec(a, events).session.phase == run_spec(b, events).session.phase,
        run_spec(a, events).releases == run_spec(b, events).releases,
        phase_terminal(run_spec(a, events).session.phase) ==> run_spec(a, events).last
            == run_spec(b, events).last,
    decreases events.len(),
{
    if events.len() > 0 {
        let e = events.first();
        let stepped_a = step_spec(a, e);
        let stepped_b = step_spec(b, e);
        assert(stepped_a.0.phase == stepped_b.0.phase);
        assert(stepped_a.0.fragment_source == stepped_b.0.fragment_source);
        lemma_run_determined_by_source(stepped_a.0, stepped_b.0, events.drop_first());
        assert(run_spec(a, events).releases =~= run_spec(b, events).releases);
    }
}

/// Turn the backend's stage-compile status into the reply event: a zero
/// status means the stage did not compile and the log is the diagnosis;
/// any other status means the unit with this handle compiled.
pub fn validate_shader_compilation(status: i32, unit: u32, log: String) -> (event: CompileEvent)
    ensures
        event@ == if status == 0 {
            CompileEventView::StageError(log@)
        } else {
            CompileEventView::StageOk(unit)
        },
{
    if status == 0 {
        CompileEvent::StageError(log)
    } else {
        CompileEvent::StageOk(unit)
    }
}

/// Turn the backend's link status into the reply event: a zero status
/// means the link failed and the log is the diagnosis.
pub fn validate_shader_program_linkage(status: i32, log: String) -> (event: CompileEvent)
    ensures
        event@ == if status == 0 {
            CompileEventView::LinkError(log@)
        } else {
            CompileEventView::LinkOk
        },
{
    if status == 0 {
        CompileEvent::LinkError(log)
    } else {
        CompileEvent::LinkOk
    }
}

} // verus!
