//! The capture session state machine: one manager owns at most one active
//! session, drives it through Idle → Running ↔ Paused → Stopped, and
//! accounts elapsed recording time. Wall-clock instants enter every
//! operation as an explicit millisecond reading, so the accounting itself
//! is fully specified.

use vstd::prelude::*;

use crate::config::EncoderConfig;
use crate::config::VideoCodec;
use crate::config::VideoEncoderPreference;
use crate::config::spec_effective_codec;
use crate::models::{
    CaptureResolutionPreset, CaptureState, CaptureTarget, Region, region_fits,
};
use crate::provider::{ScreenProvider, WindowsCaptureScreenProvider};
use crate::runtime::{CaptureRuntimeHandle, PlatformRuntimeHandle, RuntimeStartConfig};
use crate::text::dec_seq;

verus! {

/// What the UI reads of a session.
#[derive(Debug, Clone)]
pub struct CaptureManagerSnapshot {
    pub state: CaptureState,
    pub elapsed_ms: u64,
    pub last_error: Option<String>,
    pub video_encoder_label: Option<String>,
    pub is_processing: bool,
}

/// Everything a new session is started with.
#[derive(Debug, Clone)]
pub struct SessionConfig {
    pub target_id: u32,
    pub fps: u32,
    pub crop_region: Option<Region>,
    pub capture_resolution_preset: Option<CaptureResolutionPreset>,
    pub encoder_config: EncoderConfig,
}

/// Builds runtime handles for new sessions.
pub trait RuntimeFactory {
    type Handle: CaptureRuntimeHandle;

    fn build(&self, config: SessionConfig) -> Result<Self::Handle, String>;
}

/// The factory of the OS-backed runtime. It carries the experimental
/// Direct3D input switch the embedder read from the environment, and
/// derives the GPU-surface preference per session; on this portable
/// build every start still reports the platform error.
#[derive(Debug, Clone, Copy)]
pub struct PlatformRuntimeFactory {
    pub d3d11_input_enabled: bool,
}

impl PlatformRuntimeFactory {
    pub fn new(d3d11_input_enabled: bool) -> (r: PlatformRuntimeFactory)
        ensures
            r.d3d11_input_enabled == d3d11_input_enabled,
    {
        PlatformRuntimeFactory { d3d11_input_enabled }
    }
}

impl RuntimeFactory for PlatformRuntimeFactory {
    type Handle = PlatformRuntimeHandle;

    fn build(&self, config: SessionConfig) -> Result<PlatformRuntimeHandle, String> {
        let prefer_gpu_frames = should_prefer_gpu_frames_with_flag(
            &config.encoder_config,
            &config.crop_region,
            self.d3d11_input_enabled,
        );
        crate::runtime::start_runtime(
            RuntimeStartConfig {
                target_id: config.target_id,
                fps: config.fps,
                crop_region: config.crop_region,
                prefer_gpu_frames,
            },
        )
    }
}

/// One recording session while the manager holds it.
pub struct ActiveSession<H> {
    pub state: CaptureState,
    pub elapsed_before_pause_ms: u64,
    pub last_resume_at: Option<u64>,
    pub last_error: Option<String>,
    pub runtime: Option<H>,
}

/// A session is well formed when it is Running exactly while a resume
/// instant is recorded, and is never Idle (Idle is the absence of a
/// session).
pub open spec fn session_wf<H>(s: ActiveSession<H>) -> bool {
    &&& (s.state == CaptureState::Running) == (s.last_resume_at is Some)
    &&& s.state != CaptureState::Idle
}

/// `v` clamped into `u64`.
pub open spec fn clamp_u64(v: int) -> u64 {
    if v > u64::MAX {
        u64::MAX
    } else if v < 0 {
        0u64
    } else {
        v as u64
    }
}

/// `a - b` floored at zero.
pub open spec fn sat_sub(a: u64, b: u64) -> int {
    if a >= b {
        a - b
    } else {
        0
    }
}

/// The elapsed recording time of a session observed at instant `now`: the
/// accumulated milliseconds, plus the current run segment while Running.
pub open spec fn elapsed_at<H>(s: ActiveSession<H>, now: u64) -> u64 {
    if s.state == CaptureState::Running && s.last_resume_at is Some {
        clamp_u64(s.elapsed_before_pause_ms + sat_sub(now, s.last_resume_at->0))
    } else {
        s.elapsed_before_pause_ms
    }
}

/// The session after a pause at instant `now`.
pub open spec fn pause_result<H>(s: ActiveSession<H>, now: u64) -> ActiveSession<H> {
    ActiveSession {
        state: CaptureState::Paused,
        elapsed_before_pause_ms: elapsed_at(s, now),
        last_resume_at: None,
        ..s
    }
}

/// The session after a resume at instant `now`.
pub open spec fn resume_result<H>(s: ActiveSession<H>, now: u64) -> ActiveSession<H> {
    ActiveSession { state: CaptureState::Running, last_resume_at: Some(now), ..s }
}

/// The session after entering the Stopped state at instant `now` (runtime
/// and error bookkeeping aside).
pub open spec fn stopped_result<H>(s: ActiveSession<H>, now: u64) -> ActiveSession<H> {
    ActiveSession {
        state: CaptureState::Stopped,
        elapsed_before_pause_ms: elapsed_at(s, now),
        last_resume_at: None,
        ..s
    }
}

/// Elapsed time is monotone: later observations of a session, and
/// observations after any legal transition taken at the earlier instant,
/// never report less. The transitions also preserve well-formedness.
pub proof fn lemma_elapsed_monotone<H>(s: ActiveSession<H>, t: u64, t2: u64)
    requires
        session_wf(s),
        t <= t2,
    ensures
        elapsed_at(s, t) <= elapsed_at(s, t2),
        s.state == CaptureState::Running ==> elapsed_at(s, t) <= elapsed_at(
            pause_result(s, t),
            t2,
        ) && session_wf(pause_result(s, t)),
        s.state == CaptureState::Paused ==> elapsed_at(s, t) <= elapsed_at(
            resume_result(s, t),
            t2,
        ) && session_wf(resume_result(s, t)),
        (s.state == CaptureState::Running || s.state == CaptureState::Paused) ==> elapsed_at(
            s,
            t,
        ) <= elapsed_at(stopped_result(s, t), t2) && session_wf(stopped_result(s, t)),
{
}

/// A transition a live session can take, tagged so whole histories can be
/// reasoned about.
#[derive(Debug, Clone, Copy, PartialEq, Eq, Structural)]
pub enum SessionOp {
    Pause,
    Resume,
    Stop,
}

/// Whether a session's state admits the transition.
pub open spec fn op_legal<H>(s: ActiveSession<H>, op: SessionOp) -> bool {
    match op {
        SessionOp::Pause => s.state == CaptureState::Running,
        SessionOp::Resume => s.state == CaptureState::Paused,
        SessionOp::Stop => s.state == CaptureState::Running || s.state == CaptureState::Paused,
    }
}

/// The session after the transition, taken at instant `now`.
pub open spec fn op_step<H>(s: ActiveSession<H>, op: SessionOp, now: u64) -> ActiveSession<H> {
    match op {
        SessionOp::Pause => pause_result(s, now),
        SessionOp::Resume => resume_result(s, now),
        SessionOp::Stop => stopped_result(s, now),
    }
}

/// The session after a whole history of timed transitions.
pub open spec fn run_ops<H>(s: ActiveSession<H>, ops: Seq<(SessionOp, u64)>) -> ActiveSession<H>
    decreases ops.len(),
{
    if ops.len() == 0 {
        s
    } else {
        run_ops(op_step(s, ops[0].0, ops[0].1), ops.drop_first())
    }
}

/// Whether each transition of the history is legal in the state it meets.
pub open spec fn ops_legal_from<H>(s: ActiveSession<H>, ops: Seq<(SessionOp, u64)>) -> bool
    decreases ops.len(),
{
    if ops.len() == 0 {
        true
    } else {
        op_legal(s, ops[0].0) && ops_legal_from(op_step(s, ops[0].0, ops[0].1), ops.drop_first())
    }
}

/// Whether the history's instants never go backwards, starting from `t0`.
pub open spec fn times_ordered(ops: Seq<(SessionOp, u64)>, t0: u64) -> bool
    decreases ops.len(),
{
    if ops.len() == 0 {
        true
    } else {
        t0 <= ops[0].1 && times_ordered(ops.drop_first(), ops[0].1)
    }
}

/// The instant the history ends at.
pub open spec fn end_time(ops: Seq<(SessionOp, u64)>, t0: u64) -> u64
    decreases ops.len(),
{
    if ops.len() == 0 {
        t0
    } else {
        end_time(ops.drop_first(), ops[0].1)
    }
}

/// Elapsed time is monotone across any legal transition history: whatever
/// legal sequence of pauses, resumes and stops a well-formed session goes
/// through, at instants that never go backwards, the elapsed account it
/// reports afterwards is at least what it reported before, and the
/// session stays well formed.
pub proof fn lemma_elapsed_monotone_over_history<H>(
    s: ActiveSession<H>,
    ops: Seq<(SessionOp, u64)>,
    t0: u64,
    t_end: u64,
)
    requires
        session_wf(s),
        ops_legal_from(s, ops),
        times_ordered(ops, t0),
        t_end >= end_time(ops, t0),
    ensures
        elapsed_at(run_ops(s, ops), t_end) >= elapsed_at(s, t0),
        session_wf(run_ops(s, ops)),
    decreases ops.len(),
{
    if ops.len() == 0 {
        lemma_elapsed_monotone(s, t0, t_end);
    } else {
        let op = ops[0].0;
        let t1 = ops[0].1;
        let stepped = op_step(s, op, t1);
        lemma_elapsed_monotone(s, t0, t1);
        lemma_elapsed_monotone(s, t1, t1);
        lemma_elapsed_monotone_over_history(stepped, ops.drop_first(), t1, t_end);
    }
}

/// Pausing and later resuming preserves the elapsed account: right after
/// the resume, the session reports exactly what it reported at the pause.
pub proof fn lemma_pause_resume_preserves_elapsed<H>(s: ActiveSession<H>, t1: u64, t2: u64)
    requires
        session_wf(s),
        s.state == CaptureState::Running,
    ensures
        elapsed_at(resume_result(pause_result(s, t1), t2), t2) == elapsed_at(s, t1),
{
}

impl<H> ActiveSession<H> {
    /// A fresh Running session owning its runtime.
    pub fn new(runtime: H, now_ms: u64) -> (r: ActiveSession<H>)
        ensures
            r.state == CaptureState::Running,
            r.elapsed_before_pause_ms == 0,
            r.last_resume_at == Some(now_ms),
            r.last_error is None,
            r.runtime is Some,
            session_wf(r),
            elapsed_at(r, now_ms) == 0,
    {
        ActiveSession {
            state: CaptureState::Running,
            elapsed_before_pause_ms: 0,
            last_resume_at: Some(now_ms),
            last_error: None,
            runtime: Some(runtime),
        }
    }

    /// Folds the current run segment into the accumulator and clears the
    /// resume instant.
    pub fn accumulate_elapsed(&mut self, now_ms: u64)
        ensures
            final(self).elapsed_before_pause_ms == match old(self).last_resume_at {
                Some(since) => clamp_u64(old(self).elapsed_before_pause_ms + sat_sub(now_ms, since)),
                None => old(self).elapsed_before_pause_ms,
            },
            final(self).last_resume_at is None,
            final(self).state == old(self).state,
            final(self).last_error == old(self).last_error,
            final(self).runtime == old(self).runtime,
    {
        match self.last_resume_at.take() {
            Some(since) => {
                let delta = now_ms.saturating_sub(since);
                self.elapsed_before_pause_ms = self.elapsed_before_pause_ms.saturating_add(delta);
            },
            None => {},
        }
    }

    /// The elapsed milliseconds observed at `now_ms`.
    pub fn elapsed_ms(&self, now_ms: u64) -> (r: u64)
        ensures
            r == elapsed_at(*self, now_ms),
    {
        match self.state {
            CaptureState::Running => {
                match &self.last_resume_at {
                    Some(since) => {
                        let delta = now_ms.saturating_sub(*since);
                        self.elapsed_before_pause_ms.saturating_add(delta)
                    },
                    None => self.elapsed_before_pause_ms,
                }
            },
            _ => self.elapsed_before_pause_ms,
        }
    }
}

impl<H: CaptureRuntimeHandle> ActiveSession<H> {
    /// Whether the producer is done; a session without a runtime counts as
    /// finished.
    pub fn runtime_finished(&self) -> (r: bool)
        ensures
            self.runtime is None ==> r,
    {
        match &self.runtime {
            Some(rt) => rt.is_finished(),
            None => true,
        }
    }
}

pub open spec fn msg_no_active_session() -> Seq<char> {
    "No hay una grabación activa"@
}

pub open spec fn msg_recording_in_progress() -> Seq<char> {
    "Ya existe una grabación en curso"@
}

pub open spec fn msg_invalid_fps_range() -> Seq<char> {
    "FPS inválido. Debe estar entre 1 y 120"@
}

pub open spec fn msg_cannot_pause_from(st: CaptureState) -> Seq<char> {
    "Transición inválida: no se puede pausar desde "@ + st.spec_label()
}

pub open spec fn msg_cannot_resume_from(st: CaptureState) -> Seq<char> {
    "Transición inválida: no se puede reanudar desde "@ + st.spec_label()
}

pub open spec fn msg_cannot_stop_from(st: CaptureState) -> Seq<char> {
    "Transición inválida: no se puede detener desde "@ + st.spec_label()
}

pub open spec fn msg_no_target_with_id(id: u32) -> Seq<char> {
    "No se encontró un target con id "@ + dec_seq(id as int)
}

/// A stopped-and-drained form of a session: what `refresh_runtime_state`
/// leaves when the producer finished on its own. The terminal error is
/// whatever the runtime reported.
pub open spec fn finalized_form<H>(s: ActiveSession<H>, s2: ActiveSession<H>, now: u64) -> bool {
    &&& s2.state == CaptureState::Stopped
    &&& s2.elapsed_before_pause_ms == elapsed_at(s, now)
    &&& s2.last_resume_at is None
    &&& s2.runtime is None
}

/// How one refresh step may change the session slot: an absent or already
/// stopped session is left exactly as it is; a live one either stays (the
/// producer still runs) or is finalized.
pub open spec fn refresh_rel<H>(
    pre: Option<ActiveSession<H>>,
    post: Option<ActiveSession<H>>,
    now: u64,
) -> bool {
    match pre {
        None => post == pre,
        Some(s) => {
            if s.state == CaptureState::Running || s.state == CaptureState::Paused {
                post == pre || (post matches Some(s2) && finalized_form(s, s2, now))
            } else {
                post == pre
            }
        },
    }
}

/// Start's lazy cleanup: a Stopped session is discarded.
pub open spec fn cleanup_spec<H>(pre: Option<ActiveSession<H>>) -> Option<ActiveSession<H>> {
    match pre {
        Some(s) => {
            if s.state == CaptureState::Stopped {
                None
            } else {
                pre
            }
        },
        None => pre,
    }
}

/// The session state machine and its dependencies: a screen provider and
/// a runtime factory.
pub struct CaptureManager<P, F: RuntimeFactory> {
    pub active_session: Option<ActiveSession<F::Handle>>,
    pub provider: P,
    pub runtime_factory: F,
}

/// The manager's invariant: whatever session it holds is well formed.
pub open spec fn manager_wf<P, F: RuntimeFactory>(m: CaptureManager<P, F>) -> bool {
    match m.active_session {
        Some(s) => session_wf(s),
        None => true,
    }
}

impl CaptureManager<WindowsCaptureScreenProvider, PlatformRuntimeFactory> {
    /// A manager wired to the OS screen provider and runtime. The
    /// experimental Direct3D input stays off; an embedder that reads the
    /// environment switch wires its own factory through
    /// `with_dependencies`.
    pub fn new() -> (r: CaptureManager<WindowsCaptureScreenProvider, PlatformRuntimeFactory>)
        ensures
            r.active_session is None,
            !r.runtime_factory.d3d11_input_enabled,
            manager_wf(r),
    {
        CaptureManager {
            active_session: None,
            provider: WindowsCaptureScreenProvider::new(),
            runtime_factory: PlatformRuntimeFactory::new(false),
        }
    }
}

/// Finds the first target carrying `target_id` and checks the crop against
/// it: the target when both pass; the exact error otherwise.
pub fn find_and_validate_target(
    target_id: u32,
    crop_region: &Option<Region>,
    targets: &Vec<CaptureTarget>,
) -> (r: Result<usize, String>)
    ensures
        r matches Ok(i) ==> {
            &&& i < targets@.len()
            &&& targets@[i as int].id == target_id
            &&& forall|k: int| 0 <= k < i ==> (#[trigger] targets@[k]).id != target_id
            &&& (crop_region matches Some(c) ==> region_fits(
                *c,
                targets@[i as int].width,
                targets@[i as int].height,
            ))
        },
        (forall|k: int| 0 <= k < targets@.len() ==> (#[trigger] targets@[k]).id != target_id) ==> (
        r matches Err(e) && e@ == msg_no_target_with_id(target_id)),
        r is Err ==> ((forall|k: int|
            0 <= k < targets@.len() ==> (#[trigger] targets@[k]).id != target_id) || (
        crop_region matches Some(c) && exists|i: int|
            {
                &&& 0 <= i < targets@.len()
                &&& (#[trigger] targets@[i]).id == target_id
                &&& (forall|k: int| 0 <= k < i ==> (#[trigger] targets@[k]).id != target_id)
                &&& !region_fits(*c, targets@[i].width, targets@[i].height)
            })),
{
    let n = targets.len();
    let mut i: usize = 0;
    while i < n
        invariant
            i <= n,
            n == targets@.len(),
            forall|k: int| 0 <= k < i ==> (#[trigger] targets@[k]).id != target_id,
        decreases n - i,
    {
        if targets[i].id == target_id {
            match crop_region {
                Some(region) => match region.validate_against_target(&targets[i]) {
                    Ok(()) => {
                        return Ok(i);
                    },
                    Err(e) => {
                        return Err(e);
                    },
                },
                None => {
                    return Ok(i);
                },
            }
        }
        i = i + 1;
    }
    let mut m = String::from_str("No se encontró un target con id ");
    m.append(crate::text::u32_to_string(target_id).as_str());
    assert(m@ =~= msg_no_target_with_id(target_id));
    Err(m)
}

impl<P: ScreenProvider, F: RuntimeFactory> CaptureManager<P, F> {
    /// A manager over the given provider and factory, with no session.
    pub fn with_dependencies(provider: P, runtime_factory: F) -> (r: CaptureManager<P, F>)
        ensures
            r.active_session is None,
            r.provider == provider,
            r.runtime_factory == runtime_factory,
            manager_wf(r),
    {
        CaptureManager { active_session: None, provider, runtime_factory }
    }

    fn finalize_finished_runtime_if_any(&mut self, now_ms: u64)
        requires
            manager_wf(*old(self)),
        ensures
            manager_wf(*final(self)),
            refresh_rel(old(self).active_session, final(self).active_session, now_ms),
            final(self).provider == old(self).provider,
            final(self).runtime_factory == old(self).runtime_factory,
    {
        let should_finalize = match &self.active_session {
            Some(session) => (matches!(session.state, CaptureState::Running | CaptureState::Paused))
                && session.runtime_finished(),
            None => false,
        };

        if !should_finalize {
            return ;
        }

        match &mut self.active_session {
            Some(session) => {
                session.accumulate_elapsed(now_ms);
                session.state = CaptureState::Stopped;

                match session.runtime.take() {
                    Some(runtime) => {
                        match runtime.wait() {
                            Ok(_) => {},
                            Err(err) => {
                                session.last_error = Some(err);
                            },
                        }
                    },
                    None => {},
                }
            },
            None => {},
        }
    }

    /// Polls the producer: a session whose producer finished on its own is
    /// moved to Stopped with its terminal error captured. On an absent or
    /// already terminal session this changes nothing, so repeating it is
    /// idempotent.
    pub fn refresh_runtime_state(&mut self, now_ms: u64)
        requires
            manager_wf(*old(self)),
        ensures
            manager_wf(*final(self)),
            refresh_rel(old(self).active_session, final(self).active_session, now_ms),
            (match old(self).active_session {
                None => true,
                Some(s) => s.state == CaptureState::Stopped,
            }) ==> final(self).active_session == old(self).active_session,
            final(self).provider == old(self).provider,
            final(self).runtime_factory == old(self).runtime_factory,
    {
        self.finalize_finished_runtime_if_any(now_ms);
    }

    /// The provider's current target list.
    pub fn get_targets(&self) -> Result<Vec<CaptureTarget>, String> {
        self.provider.get_targets()
    }

    /// Whether the provider can capture at all.
    pub fn is_supported(&self) -> bool {
        self.provider.is_supported()
    }

    /// Starts a session: fails when one is already live, when the frame
    /// rate is out of range, when the target is missing, or when the crop
    /// does not fit it; otherwise asks the factory for a runtime and holds
    /// the new Running session.
    pub fn start(&mut self, config: SessionConfig, now_ms: u64) -> (r: Result<(), String>)
        requires
            manager_wf(*old(self)),
        ensures
            manager_wf(*final(self)),
            final(self).provider == old(self).provider,
            final(self).runtime_factory == old(self).runtime_factory,
            exists|mid: Option<ActiveSession<F::Handle>>|
                {
                    &&& #[trigger] refresh_rel(old(self).active_session, mid, now_ms)
                    &&& {
                        let mid2 = cleanup_spec(mid);
                        if mid2 is Some {
                            &&& r matches Err(e) && e@ == msg_recording_in_progress()
                            &&& final(self).active_session == mid2
                        } else if config.fps == 0 || config.fps > 120 {
                            &&& r matches Err(e) && e@ == msg_invalid_fps_range()
                            &&& final(self).active_session is None
                        } else {
                            &&& (r is Ok ==> (final(self).active_session matches Some(s) && {
                                &&& s.state == CaptureState::Running
                                &&& s.elapsed_before_pause_ms == 0
                                &&& s.last_resume_at == Some(now_ms)
                                &&& s.last_error is None
                                &&& s.runtime is Some
                            }))
                            &&& (r is Err ==> final(self).active_session is None)
                        }
                    }
                },
    {
        self.finalize_finished_runtime_if_any(now_ms);

        let should_cleanup = match &self.active_session {
            Some(session) => session.state == CaptureState::Stopped,
            None => false,
        };
        if should_cleanup {
            self.active_session = None;
        }

        if self.active_session.is_some() {
            return Err(String::from_str("Ya existe una grabación en curso"));
        }

        if config.fps == 0 || config.fps > 120 {
            return Err(String::from_str("FPS inválido. Debe estar entre 1 y 120"));
        }

        let targets = match self.provider.get_targets() {
            Ok(ts) => ts,
            Err(e) => {
                return Err(e);
            },
        };

        match find_and_validate_target(config.target_id, &config.crop_region, &targets) {
            Ok(_) => {},
            Err(e) => {
                return Err(e);
            },
        }

        let runtime = match self.runtime_factory.build(config) {
            Ok(rt) => rt,
            Err(e) => {
                return Err(e);
            },
        };
        self.active_session = Some(ActiveSession::new(runtime, now_ms));
        Ok(())
    }

    /// Pauses a Running session; any other state is a transition error
    /// naming it.
    pub fn pause(&mut self, now_ms: u64) -> (r: Result<(), String>)
        requires
            manager_wf(*old(self)),
        ensures
            manager_wf(*final(self)),
            final(self).provider == old(self).provider,
            final(self).runtime_factory == old(self).runtime_factory,
            exists|mid: Option<ActiveSession<F::Handle>>|
                {
                    &&& #[trigger] refresh_rel(old(self).active_session, mid, now_ms)
                    &&& match mid {
                        None => {
                            &&& r matches Err(e) && e@ == msg_no_active_session()
                            &&& final(self).active_session is None
                        },
                        Some(s) => {
                            if s.state == CaptureState::Running {
                                &&& r is Ok
                                &&& final(self).active_session == Some(pause_result(s, now_ms))
                            } else {
                                &&& r matches Err(e) && e@ == msg_cannot_pause_from(s.state)
                                &&& final(self).active_session == mid
                            }
                        },
                    }
                },
    {
        self.finalize_finished_runtime_if_any(now_ms);

        match &mut self.active_session {
            None => Err(String::from_str("No hay una grabación activa")),
            Some(session) => {
                if !session.state.can_pause() {
                    let mut m = String::from_str(
                        "Transición inválida: no se puede pausar desde ",
                    );
                    m.append(session.state.as_str());
                    return Err(m);
                }

                match &session.runtime {
                    Some(rt) => rt.pause(),
                    None => {},
                }

                session.accumulate_elapsed(now_ms);
                session.state = CaptureState::Paused;
                Ok(())
            },
        }
    }

    /// Resumes a Paused session; any other state is a transition error
    /// naming it. Resuming never changes the accumulated elapsed time.
    pub fn resume(&mut self, now_ms: u64) -> (r: Result<(), String>)
        requires
            manager_wf(*old(self)),
        ensures
            manager_wf(*final(self)),
            final(self).provider == old(self).provider,
            final(self).runtime_factory == old(self).runtime_factory,
            exists|mid: Option<ActiveSession<F::Handle>>|
                {
                    &&& #[trigger] refresh_rel(old(self).active_session, mid, now_ms)
                    &&& match mid {
                        None => {
                            &&& r matches Err(e) && e@ == msg_no_active_session()
                            &&& final(self).active_session is None
                        },
                        Some(s) => {
                            if s.state == CaptureState::Paused {
                                &&& r is Ok
                                &&& final(self).active_session == Some(resume_result(s, now_ms))
                            } else {
                                &&& r matches Err(e) && e@ == msg_cannot_resume_from(s.state)
                                &&& final(self).active_session == mid
                            }
                        },
                    }
                },
    {
        self.finalize_finished_runtime_if_any(now_ms);

        match &mut self.active_session {
            None => Err(String::from_str("No hay una grabación activa")),
            Some(session) => {
                if !session.state.can_resume() {
                    let mut m = String::from_str(
                        "Transición inválida: no se puede reanudar desde ",
                    );
                    m.append(session.state.as_str());
                    return Err(m);
                }

                match &session.runtime {
                    Some(rt) => rt.resume(),
                    None => {},
                }

                session.state = CaptureState::Running;
                session.last_resume_at = Some(now_ms);
                Ok(())
            },
        }
    }

    /// Stops a Running or Paused session and releases it; stop on an
    /// already Stopped session is idempotent; with no session it reports
    /// that none is active. A runtime stop error keeps the stopped session
    /// with that error recorded.
    pub fn stop(&mut self, now_ms: u64) -> (r: Result<(), String>)
        requires
            manager_wf(*old(self)),
        ensures
            manager_wf(*final(self)),
            final(self).provider == old(self).provider,
            final(self).runtime_factory == old(self).runtime_factory,
            exists|mid: Option<ActiveSession<F::Handle>>|
                {
                    &&& #[trigger] refresh_rel(old(self).active_session, mid, now_ms)
                    &&& match mid {
                        None => {
                            &&& r matches Err(e) && e@ == msg_no_active_session()
                            &&& final(self).active_session is None
                        },
                        Some(s) => {
                            if s.state == CaptureState::Running || s.state == CaptureState::Paused
                                || s.state == CaptureState::Stopped {
                                &&& (r is Ok ==> final(self).active_session is None)
                                &&& (r matches Err(e) ==> (final(self).active_session matches Some(
                                    s2,
                                ) && {
                                    &&& finalized_form(s, s2, now_ms)
                                    &&& s2.last_error == Some(e)
                                }))
                            } else {
                                &&& r matches Err(e) && e@ == msg_cannot_stop_from(s.state)
                                &&& final(self).active_session == mid
                            }
                        },
                    }
                },
    {
        self.finalize_finished_runtime_if_any(now_ms);

        let mut session = match self.active_session.take() {
            Some(s) => s,
            None => {
                return Err(String::from_str("No hay una grabación activa"));
            },
        };

        if session.state.can_stop() {
            session.accumulate_elapsed(now_ms);
            session.state = CaptureState::Stopped;
        } else if session.state != CaptureState::Stopped {
            let mut m = String::from_str("Transición inválida: no se puede detener desde ");
            m.append(session.state.as_str());
            self.active_session = Some(session);
            return Err(m);
        }

        match session.runtime.take() {
            Some(runtime) => {
                match runtime.stop() {
                    Ok(_) => {},
                    Err(err) => {
                        session.last_error = Some(err.clone());
                        self.active_session = Some(session);
                        return Err(err);
                    },
                }
            },
            None => {},
        }

        Ok(())
    }

    /// Stops and discards the session; it behaves exactly as `stop`.
    pub fn cancel(&mut self, now_ms: u64) -> (r: Result<(), String>)
        requires
            manager_wf(*old(self)),
        ensures
            manager_wf(*final(self)),
            final(self).provider == old(self).provider,
            final(self).runtime_factory == old(self).runtime_factory,
            exists|mid: Option<ActiveSession<F::Handle>>|
                {
                    &&& #[trigger] refresh_rel(old(self).active_session, mid, now_ms)
                    &&& match mid {
                        None => {
                            &&& r matches Err(e) && e@ == msg_no_active_session()
                            &&& final(self).active_session is None
                        },
                        Some(s) => {
                            if s.state == CaptureState::Running || s.state == CaptureState::Paused
                                || s.state == CaptureState::Stopped {
                                &&& (r is Ok ==> final(self).active_session is None)
                                &&& (r matches Err(e) ==> (final(self).active_session matches Some(
                                    s2,
                                ) && {
                                    &&& finalized_form(s, s2, now_ms)
                                    &&& s2.last_error == Some(e)
                                }))
                            } else {
                                &&& r matches Err(e) && e@ == msg_cannot_stop_from(s.state)
                                &&& final(self).active_session == mid
                            }
                        },
                    }
                },
    {
        self.stop(now_ms)
    }

    /// The state, elapsed time and last error, observed at `now_ms`. The
    /// encoder label and processing flag are merged in by the status layer.
    pub fn snapshot(&self, now_ms: u64) -> (r: CaptureManagerSnapshot)
        ensures
            r.state == (match self.active_session {
                Some(s) => s.state,
                None => CaptureState::Idle,
            }),
            r.elapsed_ms == (match self.active_session {
                Some(s) => elapsed_at(s, now_ms),
                None => 0u64,
            }),
            r.last_error == (match self.active_session {
                Some(s) => s.last_error,
                None => None::<String>,
            }),
            r.video_encoder_label is None,
            !r.is_processing,
    {
        match &self.active_session {
            Some(session) => CaptureManagerSnapshot {
                state: session.state.clone(),
                elapsed_ms: session.elapsed_ms(now_ms),
                last_error: session.last_error.clone(),
                video_encoder_label: None,
                is_processing: false,
            },
            None => CaptureManagerSnapshot {
                state: CaptureState::Idle,
                elapsed_ms: 0,
                last_error: None,
                video_encoder_label: None,
                is_processing: false,
            },
        }
    }

    /// Whether a session is live (Running or Paused).
    pub fn is_active(&self) -> (r: bool)
        ensures
            r == (match self.active_session {
                Some(s) => s.state == CaptureState::Running || s.state == CaptureState::Paused,
                None => false,
            }),
    {
        match &self.active_session {
            Some(session) => matches!(
                session.state,
                CaptureState::Running | CaptureState::Paused
            ),
            None => false,
        }
    }
}

/// Whether the producer should hand the encoder raw GPU textures: only
/// when the experimental Direct3D input is enabled, nothing is cropped,
/// the codec is not VP9, and a hardware backend was explicitly chosen (a
/// CPU fallback could not accept textures).
pub fn should_prefer_gpu_frames_with_flag(
    encoder_config: &EncoderConfig,
    crop_region: &Option<Region>,
    d3d11_input_enabled: bool,
) -> (r: bool)
    ensures
        r == (d3d11_input_enabled && crop_region is None && spec_effective_codec(*encoder_config)
            != VideoCodec::Vp9 && (encoder_config.video_encoder_preference
            == VideoEncoderPreference::Nvenc || encoder_config.video_encoder_preference
            == VideoEncoderPreference::Amf || encoder_config.video_encoder_preference
            == VideoEncoderPreference::Qsv)),
{
    if !d3d11_input_enabled {
        return false;
    }

    if crop_region.is_some() {
        return false;
    }

    let codec = encoder_config.effective_codec();
    if matches!(codec, VideoCodec::Vp9) {
        return false;
    }

    matches!(
        encoder_config.video_encoder_preference,
        VideoEncoderPreference::Nvenc | VideoEncoderPreference::Amf | VideoEncoderPreference::Qsv
    )
}

/// Whether an environment value switches the experimental Direct3D input
/// on: `1`, `true` or `yes`, case-insensitively, after trimming.
pub fn is_experimental_d3d11_input_value(value: Option<&str>) -> (r: bool)
    ensures
        r == (match value {
            Some(v) => {
                let norm = crate::text::lower_seq(crate::text::trim_seq(v@));
                norm == crate::text::lower_seq("1"@) || norm == crate::text::lower_seq("true"@)
                    || norm == crate::text::lower_seq("yes"@)
            },
            None => false,
        }),
{
    match value {
        Some(v) => {
            let t = crate::text::trim_string(v);
            crate::text::eq_ignore_case(t.as_str(), "1") || crate::text::eq_ignore_case(
                t.as_str(),
                "true",
            ) || crate::text::eq_ignore_case(t.as_str(), "yes")
        },
        None => false,
    }
}

} // verus!
