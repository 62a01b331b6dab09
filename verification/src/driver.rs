//! The frame driver: the single cooperative control loop core. Once per
//! tick it drains pending events through the classifier, assembles a
//! read-only snapshot for the user callback, consumes the callback's
//! instruction, and resets the one-shot state. A destroy instruction moves
//! the loop to its terminal phases; the teardown hook belongs to the entry
//! into the terminated phase and fires exactly once.
//!
//! The platform's event pump and the GPU submission are external edges:
//! the surrounding program performs them and hands plain events in and
//! takes the driver's decisions out.

use vstd::prelude::*;

use crate::events::AFWindowEvent;
use crate::events::apply_event_spec;
use crate::events::classify_event;
use crate::events::classify_events;
use crate::events::event_admissible;
use crate::events::events_admissible;
use crate::events::run_events;
use crate::state::AFError;
use crate::state::AFFrameState;
use crate::state::AFFrameStateView;
use crate::util_structs::AFSize2D;

verus! {

/// The loop's phase: `Running` ticks; `Exiting` is entered when a callback
/// asks for destruction and admits no further ticks; `Terminated` is
/// absorbing and is entered when the platform loop is torn down.
#[derive(Copy, Clone, PartialEq, Eq, Structural, Debug)]
pub enum AFLoopPhase {
    Running,
    Exiting,
    Terminated,
}

impl AFLoopPhase {
    /// The phase after a tick whose callback returned `instruction`.
    pub open spec fn after_instruction(self, instruction: AFMainloop) -> AFLoopPhase {
        if instruction.destroy {
            AFLoopPhase::Exiting
        } else {
            self
        }
    }

    /// The phase after the platform destroys its loop: always terminal.
    pub open spec fn after_loop_destroyed(self) -> AFLoopPhase {
        AFLoopPhase::Terminated
    }

    /// Whether tearing the loop down from this phase runs the teardown
    /// hook: only the first entry into the terminal phase does.
    pub open spec fn teardown_fires(self) -> bool {
        !(self is Terminated)
    }
}

/// The payload of one mainloop render command: draw without buffers,
/// from raw vertex data, or from vertex data with an index buffer.
#[derive(PartialEq, Eq, Debug)]
pub enum AFMainloopRenderType {
    Empty { vertices: u32, calls: u32 },
    Vertex { vertices: u32, calls: u32, vertex_buffers: Vec<u8> },
    Index { indices: u32, calls: u32, vertex_buffers: Vec<u8>, index_buffer: Vec<u8> },
}

/// A compute dispatch in a frame's command list; the render path defines
/// no parameters for it.
#[derive(Copy, Clone, PartialEq, Eq, Structural, Debug)]
pub struct AFMainloopComputeCommand {}

/// A one-shot input event delivered to exactly one frame's snapshot.
#[derive(PartialEq, Eq, Debug)]
pub enum AFMainloopInputEvent {
    FileDropped(String),
    KeyClicked(),
}

/// The instruction a frame callback returns: whether to destroy the loop
/// and whether to rebuild the presentable surface before the next draw.
#[derive(Copy, Clone, PartialEq, Eq, Structural, Debug)]
pub struct AFMainloop {
    pub destroy: bool,
    pub update_surface: bool,
}

/// The read-only snapshot handed to the frame callback: the window state,
/// the paths currently hovering, the one-shot events of this tick, and the
/// held and freshly clicked key sets.
#[derive(PartialEq, Eq, Debug)]
pub struct AFMainloopState {
    pub size: AFSize2D,
    pub close_requested: bool,
    pub focused: bool,
    pub file_hovered: Vec<String>,
    pub was_resized: bool,
    pub events: Vec<AFMainloopInputEvent>,
    pub pressed: Vec<u32>,
    pub clicked: Vec<u32>,
}

/// What it means for a snapshot to present exactly the store model `v`:
/// every steady field agrees, and the one-shot events are the dropped
/// paths of this tick, in drop order.
pub open spec fn snapshot_matches(snapshot: AFMainloopState, v: AFFrameStateView) -> bool {
    &&& snapshot.size.width == v.width
    &&& snapshot.size.height == v.height
    &&& snapshot.close_requested == v.close_requested
    &&& snapshot.focused == v.focused
    &&& snapshot.file_hovered.deep_view() == v.hovering
    &&& snapshot.was_resized == v.resized
    &&& snapshot.pressed@ == v.pressed
    &&& snapshot.clicked@ == v.clicked
    &&& snapshot.events@.len() == v.dropped.len()
    &&& forall|i: int|
        0 <= i < v.dropped.len() ==> ((#[trigger] snapshot.events@[i]) matches
            AFMainloopInputEvent::FileDropped(path) && path@ == v.dropped[i])
}

/// A copy of a key set, element for element.
fn clone_keys(keys: &Vec<u32>) -> (r: Vec<u32>)
    ensures
        r@ == keys@,
{
    let mut r: Vec<u32> = Vec::new();
    let mut i: usize = 0;
    while i < keys.len()
        invariant
            0 <= i <= keys@.len(),
            r@ == keys@.take(i as int),
        decreases keys@.len() - i,
    {
        r.push(keys[i]);
        proof {
            assert(keys@.take(i as int).push(keys@[i as int]) =~= keys@.take(i as int + 1));
        }
        i += 1;
    }
    proof {
        assert(keys@.take(keys@.len() as int) =~= keys@);
    }
    r
}

/// A copy of a path list, string for string.
fn clone_paths(paths: &Vec<String>) -> (r: Vec<String>)
    ensures
        r.deep_view() == paths.deep_view(),
{
    let mut r: Vec<String> = Vec::new();
    let mut i: usize = 0;
    while i < paths.len()
        invariant
            0 <= i <= paths@.len(),
            r@.len() == i,
            forall|j: int| 0 <= j < i ==> r@[j]@ == paths@[j]@,
        decreases paths@.len() - i,
    {
        let path = paths[i].clone();
        r.push(path);
        i += 1;
    }
    proof {
        assert forall|j: int| 0 <= j < r.deep_view().len() implies r.deep_view()[j]
            == paths.deep_view()[j] by {
            assert(r@[j]@ == paths@[j]@);
        }
        assert(r.deep_view() =~= paths.deep_view());
    }
    r
}

/// The dropped paths of this tick as one-shot events, in drop order.
fn dropped_events(paths: &Vec<String>) -> (r: Vec<AFMainloopInputEvent>)
    ensures
        r@.len() == paths.deep_view().len(),
        forall|i: int|
            0 <= i < paths.deep_view().len() ==> ((#[trigger] r@[i]) matches
                AFMainloopInputEvent::FileDropped(path) && path@ == paths.deep_view()[i]),
{
    let mut r: Vec<AFMainloopInputEvent> = Vec::new();
    let mut i: usize = 0;
    while i < paths.len()
        invariant
            0 <= i <= paths@.len(),
            r@.len() == i,
            forall|j: int|
                0 <= j < i ==> ((#[trigger] r@[j]) matches
                    AFMainloopInputEvent::FileDropped(path) && path@ == paths@[j]@),
        decreases paths@.len() - i,
    {
        let path = paths[i].clone();
        r.push(AFMainloopInputEvent::FileDropped(path));
        i += 1;
    }
    r
}

/// The frame driver: exclusive owner of the frame state store and of the
/// loop phase for the lifetime of the loop.
pub struct AFFrameDriver {
    pub state: AFFrameState,
    pub phase: AFLoopPhase,
}

impl AFFrameDriver {
    /// The store model is well formed; every operation preserves this.
    pub open spec fn wf(self) -> bool {
        self.state@.wf()
    }

    /// A fresh driver for a window of the given starting size: empty
    /// store, running phase.
    pub fn new(width: u32, height: u32) -> (driver: AFFrameDriver)
        ensures
            driver.phase is Running,
            driver.state@ == AFFrameStateView::initial(width, height),
            driver.wf(),
    {
        AFFrameDriver { state: AFFrameState::new(width, height), phase: AFLoopPhase::Running }
    }

    /// Classifies one platform event into the store. The phase never
    /// changes here: only a callback instruction or the platform's
    /// teardown moves the phase.
    pub fn handle_event(&mut self, event: AFWindowEvent) -> (r: Result<(), AFError>)
        requires
            old(self).wf(),
        ensures
            final(self).wf(),
            final(self).phase == old(self).phase,
            event_admissible(old(self).state@, event) ==> r == Ok::<(), AFError>(())
                && final(self).state@ == apply_event_spec(old(self).state@, event),
            !event_admissible(old(self).state@, event) ==> r == Err::<(), AFError>(
                AFError::InvariantViolation,
            ) && final(self).state@ == old(self).state@,
    {
        classify_event(&mut self.state, event)
    }

    /// Drains a whole tick's pending events in delivery order; stops at
    /// the first violation, which is fatal to the loop.
    pub fn pump_events(&mut self, events: Vec<AFWindowEvent>) -> (r: Result<(), AFError>)
        requires
            old(self).wf(),
        ensures
            final(self).wf(),
            final(self).phase == old(self).phase,
            events_admissible(old(self).state@, events@) ==> r == Ok::<(), AFError>(())
                && final(self).state@ == run_events(old(self).state@, events@),
            !events_admissible(old(self).state@, events@) ==> r == Err::<(), AFError>(
                AFError::InvariantViolation,
            ) && (exists|n: int|
                0 <= n < events@.len() && events_admissible(old(self).state@, events@.take(n))
                    && !event_admissible(run_events(old(self).state@, events@.take(n)), events@[n])
                    && final(self).state@ == run_events(old(self).state@, events@.take(n))),
    {
        classify_events(&mut self.state, events)
    }

    /// Assembles the read-only snapshot for this tick's callback. Only a
    /// running loop draws.
    pub fn begin_redraw(&self) -> (snapshot: AFMainloopState)
        requires
            self.phase is Running,
            self.wf(),
        ensures
            snapshot_matches(snapshot, self.state@),
    {
        AFMainloopState {
            size: self.state.size,
            close_requested: self.state.close_requested,
            focused: self.state.focused,
            file_hovered: clone_paths(&self.state.hover_files),
            was_resized: self.state.resized_since_last_frame,
            events: dropped_events(&self.state.dropped_files),
            pressed: clone_keys(&self.state.pressed_keys),
            clicked: clone_keys(&self.state.clicked_keys),
        }
    }

    /// Consumes the callback's instruction and ends the tick: one-shot
    /// state is reset whatever the instruction said, and a destroy request
    /// moves the loop out of its running phase, so no further tick can
    /// begin.
    pub fn finish_redraw(&mut self, instruction: AFMainloop)
        requires
            old(self).phase is Running,
        ensures
            final(self).state@ == old(self).state@.reset_spec(),
            old(self).wf() ==> final(self).wf(),
            final(self).phase == old(self).phase.after_instruction(instruction),
    {
        self.state.reset_frame_flags();
        if instruction.destroy {
            self.phase = AFLoopPhase::Exiting;
        }
    }

    /// Acknowledges the platform's teardown of its loop. The returned flag
    /// says whether the teardown hook must run now; entering the terminal
    /// phase a second time never fires it again.
    pub fn on_loop_destroyed(&mut self) -> (teardown: bool)
        ensures
            final(self).phase is Terminated,
            final(self).phase == old(self).phase.after_loop_destroyed(),
            teardown == old(self).phase.teardown_fires(),
            final(self).state == old(self).state,
    {
        let teardown = !matches!(self.phase, AFLoopPhase::Terminated);
        self.phase = AFLoopPhase::Terminated;
        teardown
    }

    /// Whether the loop may still tick.
    pub fn is_running(&self) -> (r: bool)
        ensures
            r == (self.phase is Running),
    {
        matches!(self.phase, AFLoopPhase::Running)
    }
}

/// One whole tick of the cooperative loop, run on each redraw signal:
/// drain the pending events in delivery order,
/// assemble the snapshot, call the frame callback on it, consume the
/// returned instruction and reset the one-shot state. The caller performs
/// the platform work around it: pumping the events in, requesting the
/// redraw, and rebuilding the surface when the instruction asks for it.
/// Returns the snapshot the callback saw and the instruction it gave, or
/// the violation that ended the loop.
pub fn mainloop_tick<F: Fn(&AFMainloopState) -> AFMainloop>(
    driver: &mut AFFrameDriver,
    pending: Vec<AFWindowEvent>,
    frame: &F,
) -> (r: Result<(AFMainloopState, AFMainloop), AFError>)
    requires
        old(driver).wf(),
        old(driver).phase is Running,
        forall|s: &AFMainloopState| #[trigger] call_requires(*frame, (s,)),
    ensures
        final(driver).wf(),
        events_admissible(old(driver).state@, pending@) ==> (r matches Ok(report)
            && snapshot_matches(report.0, run_events(old(driver).state@, pending@))
            && call_ensures(*frame, (&report.0,), report.1)
            && final(driver).state@ == run_events(old(driver).state@, pending@).reset_spec()
            && final(driver).phase == old(driver).phase.after_instruction(report.1)),
        !events_admissible(old(driver).state@, pending@) ==> r == Err::<
            (AFMainloopState, AFMainloop),
            AFError,
        >(AFError::InvariantViolation) && final(driver).phase == old(driver).phase && (exists|
            n: int,
        |
            0 <= n < pending@.len() && events_admissible(old(driver).state@, pending@.take(n))
                && !event_admissible(
                run_events(old(driver).state@, pending@.take(n)),
                pending@[n],
            ) && final(driver).state@ == run_events(old(driver).state@, pending@.take(n))),
{
    match driver.pump_events(pending) {
        Ok(()) => {},
        Err(violation) => {
            return Err(violation);
        },
    }
    let snapshot = driver.begin_redraw();
    let instruction = frame(&snapshot);
    driver.finish_redraw(instruction);
    Ok((snapshot, instruction))
}

/// The idempotent reset law: after any completed tick the dropped-file
/// queue and the clicked set are empty and the resized flag is down, and
/// resetting a second time changes nothing.
pub proof fn lemma_tick_reset_idempotent(v: AFFrameStateView)
    ensures
        v.reset_spec().dropped.len() == 0,
        v.reset_spec().clicked.len() == 0,
        !v.reset_spec().resized,
        v.reset_spec().reset_spec() == v.reset_spec(),
        v.reset_spec().pressed == v.pressed,
        v.reset_spec().hovering == v.hovering,
        v.reset_spec().width == v.width && v.reset_spec().height == v.height,
        v.reset_spec().focused == v.focused,
{
    assert(v.reset_spec().reset_spec() =~= v.reset_spec());
}

/// The resize flag law: a resize raises the flag at once, and the end of
/// the next tick lowers it again, whatever the callback answered.
pub proof fn lemma_resize_flag(v: AFFrameStateView, width: u32, height: u32)
    ensures
        v.resize_spec(width, height).resized,
        !v.resize_spec(width, height).reset_spec().resized,
        v.resize_spec(width, height).width == width,
        v.resize_spec(width, height).height == height,
        v.resize_spec(width, height).reset_spec().width == width,
        v.resize_spec(width, height).reset_spec().height == height,
{
}

/// The teardown law: the platform's teardown always lands in the
/// absorbing terminal phase, and the teardown hook fires on the first
/// entry and never again.
pub proof fn lemma_teardown_fires_exactly_once(phase: AFLoopPhase)
    ensures
        phase.after_loop_destroyed() is Terminated,
        !phase.after_loop_destroyed().teardown_fires(),
        phase !is Terminated ==> phase.teardown_fires(),
        phase is Terminated ==> !phase.teardown_fires(),
{
}

/// The destroy law: a destroy instruction moves a running loop out of the
/// running phase in that very tick, and any other instruction keeps it
/// running.
pub proof fn lemma_destroy_ends_ticking(phase: AFLoopPhase, instruction: AFMainloop)
    requires
        phase is Running,
    ensures
        instruction.destroy ==> phase.after_instruction(instruction) is Exiting,
        instruction.destroy ==> !(phase.after_instruction(instruction) is Running),
        !instruction.destroy ==> phase.after_instruction(instruction) is Running,
{
}

} // verus!
