use vstd::prelude::*;
use crate::animation::{rotl1, AnimationEngine};
use crate::bus::{ProtocolEncoder, SerialBus, TransmissionError};
use crate::encoder::{pulse_train, BYTES_PER_COLOR};

verus! {

/// Base priority of the animation loop, the lowest-priority task.
pub const IDLE_PRIORITY: u8 = 0;

/// Priority of the button interrupt task, strictly above the loop.
pub const HANDLER_PRIORITY: u8 = 2;

/// Ceiling of the resources shared between the loop and the handler: the
/// highest priority of any task that touches them, here the handler's.
pub const SHARED_CEILING: u8 = 2;

/// State of a task priority level.
#[derive(Clone, Copy, PartialEq, Eq, Structural, Debug)]
pub enum TaskState {
    /// The lowest-priority task is executing the animation loop.
    Idle,
    /// The loop has been interrupted and its context saved.
    Preempted,
    /// The interrupt task is executing.
    Handling,
}

/// Which task context a peripheral handle belongs to.
#[derive(Clone, Copy, PartialEq, Eq, Structural, Debug)]
pub enum TaskId {
    AnimationLoop,
    ButtonHandler,
}

/// The peripheral handles the board hands out at boot.
#[derive(Clone, Copy, PartialEq, Eq, Structural, Debug)]
pub enum PeripheralId {
    /// First discrete indicator output.
    Led,
    /// Second discrete indicator output, driven in lockstep with the first.
    AuxLed,
    /// Blocking delay source paced by the system timer.
    Delay,
    /// Diagnostic output stream.
    LogSink,
    /// Serial bus feeding the addressable strip.
    StripBus,
    /// Button input pin.
    ButtonInput,
    /// Interrupt-controller register block holding the edge latch.
    InterruptController,
}

/// How a peripheral may be reached: moved into exactly one task context at
/// startup, or shared under a priority ceiling.
#[derive(Clone, Copy, PartialEq, Eq, Structural, Debug)]
pub enum Ownership {
    OwnedBy(TaskId),
    SharedWithCeiling(u8),
}

/// The static assignment of each peripheral handle: single-owner handles
/// bypass locking entirely; exactly the button/interrupt-controller pair is
/// shared between the loop and the handler, under the handler's priority as
/// ceiling.
pub struct SharedResourceManager {}

impl SharedResourceManager {
    pub open spec fn spec_assignment(p: PeripheralId) -> Ownership {
        match p {
            PeripheralId::ButtonInput => Ownership::SharedWithCeiling(SHARED_CEILING),
            PeripheralId::InterruptController => Ownership::SharedWithCeiling(SHARED_CEILING),
            _ => Ownership::OwnedBy(TaskId::AnimationLoop),
        }
    }

    pub fn assignment(p: PeripheralId) -> (o: Ownership)
        ensures
            o == Self::spec_assignment(p),
    {
        match p {
            PeripheralId::ButtonInput => Ownership::SharedWithCeiling(SHARED_CEILING),
            PeripheralId::InterruptController => Ownership::SharedWithCeiling(SHARED_CEILING),
            _ => Ownership::OwnedBy(TaskId::AnimationLoop),
        }
    }

    /// The ceiling-lock discipline: a task may touch a peripheral exactly
    /// when it owns it, or when the peripheral is shared and the task's
    /// effective priority has been raised to at least the ceiling.
    pub open spec fn spec_access_allowed(p: PeripheralId, task: TaskId, effective: u8) -> bool {
        match Self::spec_assignment(p) {
            Ownership::OwnedBy(owner) => owner == task,
            Ownership::SharedWithCeiling(ceiling) => effective >= ceiling,
        }
    }

    pub fn access_allowed(p: PeripheralId, task: TaskId, effective: u8) -> (ok: bool)
        ensures
            ok == Self::spec_access_allowed(p, task, effective),
    {
        match Self::assignment(p) {
            Ownership::OwnedBy(owner) => owner == task,
            Ownership::SharedWithCeiling(ceiling) => effective >= ceiling,
        }
    }
}

/// The priority-preemptive dispatcher for the two tasks, together with the
/// pair of shared hardware registers their discipline protects: the
/// edge-triggered pending latch of the bound interrupt line, and the button
/// input level (high when released, pulled low by a press).
pub struct Scheduler {
    running: TaskState,
    effective_priority: u8,
    pending: bool,
    button_level: bool,
}

impl Scheduler {
    /// The task context currently executing: `Idle` or `Handling`.
    pub closed spec fn running_task(&self) -> TaskState {
        self.running
    }

    /// The saved context of the loop while the handler runs.
    pub open spec fn idle_context(&self) -> TaskState {
        if self.running_task() is Handling {
            TaskState::Preempted
        } else {
            TaskState::Idle
        }
    }

    /// The effective priority of the running context, after any raise.
    pub closed spec fn effective(&self) -> u8 {
        self.effective_priority
    }

    /// Whether the hardware edge latch for the bound line is set.
    pub closed spec fn is_pending(&self) -> bool {
        self.pending
    }

    /// The button input level: true while released.
    pub closed spec fn button_high(&self) -> bool {
        self.button_level
    }

    pub open spec fn wf(&self) -> bool {
        &&& !(self.running_task() is Preempted)
        &&& (self.running_task() is Handling ==> self.effective() == HANDLER_PRIORITY)
        &&& (self.running_task() is Idle ==> self.effective() <= SHARED_CEILING)
    }

    /// The ceiling-lock contract for the shared pair: touched only from the
    /// handler, which already runs at the elevated priority, or from the
    /// loop inside a critical section raised to at least the ceiling.
    pub open spec fn can_access_shared(&self) -> bool {
        self.running_task() is Handling || self.effective() >= SHARED_CEILING
    }

    /// The handler preempts the loop only for a latched edge, and only while
    /// the loop's effective priority sits below the handler's: a critical
    /// section held at the ceiling keeps the dispatch out.
    pub open spec fn dispatch_enabled(&self) -> bool {
        &&& self.running_task() is Idle
        &&& self.is_pending()
        &&& self.effective() < HANDLER_PRIORITY
    }

    /// The scheduler right after boot: loop running at base priority, no
    /// edge latched, button released.
    pub fn start() -> (s: Scheduler)
        ensures
            s.wf(),
            s.running_task() is Idle,
            s.effective() == IDLE_PRIORITY,
            !s.is_pending(),
            s.button_high(),
    {
        Scheduler {
            running: TaskState::Idle,
            effective_priority: IDLE_PRIORITY,
            pending: false,
            button_level: true,
        }
    }

    /// The physical press: the input falls and the edge-triggered latch
    /// remembers the transition until software clears it.
    pub fn signal_edge(&mut self)
        requires
            old(self).wf(),
        ensures
            final(self).wf(),
            final(self).is_pending(),
            !final(self).button_high(),
            final(self).running_task() == old(self).running_task(),
            final(self).effective() == old(self).effective(),
    {
        self.pending = true;
        self.button_level = false;
    }

    /// The physical release: the input rises again; the line triggers on
    /// falling edges only, so no new latch.
    pub fn release_button(&mut self)
        requires
            old(self).wf(),
        ensures
            final(self).wf(),
            final(self).button_high(),
            final(self).is_pending() == old(self).is_pending(),
            final(self).running_task() == old(self).running_task(),
            final(self).effective() == old(self).effective(),
    {
        self.button_level = true;
    }

    /// Preempt the loop into the interrupt task. The loop's context is
    /// saved; the handler starts at its own priority.
    pub fn dispatch(&mut self)
        requires
            old(self).wf(),
            old(self).dispatch_enabled(),
        ensures
            final(self).wf(),
            final(self).running_task() is Handling,
            final(self).idle_context() is Preempted,
            final(self).effective() == HANDLER_PRIORITY,
            final(self).is_pending() == old(self).is_pending(),
            final(self).button_high() == old(self).button_high(),
    {
        self.running = TaskState::Handling;
        self.effective_priority = HANDLER_PRIORITY;
    }

    /// Enter a critical section from the loop: raise the effective priority
    /// to the shared pair's ceiling for the minimum necessary duration.
    pub fn enter_critical(&mut self)
        requires
            old(self).wf(),
            old(self).running_task() is Idle,
        ensures
            final(self).wf(),
            final(self).running_task() is Idle,
            final(self).effective() == SHARED_CEILING,
            final(self).can_access_shared(),
            final(self).is_pending() == old(self).is_pending(),
            final(self).button_high() == old(self).button_high(),
    {
        self.effective_priority = SHARED_CEILING;
    }

    /// Leave the critical section: the loop falls back to its base priority.
    pub fn exit_critical(&mut self)
        requires
            old(self).wf(),
            old(self).running_task() is Idle,
        ensures
            final(self).wf(),
            final(self).running_task() is Idle,
            final(self).effective() == IDLE_PRIORITY,
            final(self).is_pending() == old(self).is_pending(),
            final(self).button_high() == old(self).button_high(),
    {
        self.effective_priority = IDLE_PRIORITY;
    }

    pub fn running(&self) -> (t: TaskState)
        ensures
            t == self.running_task(),
    {
        self.running
    }

    pub fn current_priority(&self) -> (p: u8)
        ensures
            p == self.effective(),
    {
        self.effective_priority
    }

    /// Read the edge latch. Shared: only under the ceiling discipline.
    pub fn read_pending(&self) -> (b: bool)
        requires
            self.wf(),
            self.can_access_shared(),
        ensures
            b == self.is_pending(),
    {
        self.pending
    }

    /// Read the button level. Shared: only under the ceiling discipline.
    pub fn read_button(&self) -> (b: bool)
        requires
            self.wf(),
            self.can_access_shared(),
        ensures
            b == self.button_high(),
    {
        self.button_level
    }

    /// Clear the hardware pending bit for the bound line. Shared: only under
    /// the ceiling discipline.
    pub fn clear_pending(&mut self)
        requires
            old(self).wf(),
            old(self).can_access_shared(),
        ensures
            final(self).wf(),
            !final(self).is_pending(),
            final(self).running_task() == old(self).running_task(),
            final(self).effective() == old(self).effective(),
            final(self).button_high() == old(self).button_high(),
    {
        self.pending = false;
    }

    /// The interrupt task returns. If the latch was left set, the same edge
    /// re-fires immediately and the handler runs again; only with the latch
    /// clear does control fall back to the loop at its base priority.
    pub fn return_from_handler(&mut self)
        requires
            old(self).wf(),
            old(self).running_task() is Handling,
        ensures
            final(self).wf(),
            final(self).is_pending() == old(self).is_pending(),
            final(self).button_high() == old(self).button_high(),
            old(self).is_pending() ==> final(self).running_task() is Handling
                && final(self).effective() == HANDLER_PRIORITY,
            !old(self).is_pending() ==> final(self).running_task() is Idle
                && final(self).effective() == IDLE_PRIORITY,
    {
        // a still-set latch dispatches the handler again before the loop
        // can resume (edge-triggered latch re-entrancy)
        if !self.pending {
            self.running = TaskState::Idle;
            self.effective_priority = IDLE_PRIORITY;
        }
    }

    /// Run the interrupt task to completion: acknowledge the edge, then
    /// return. The latch is clear when the handler returns, so control is
    /// back in the loop with no re-entrant dispatch for the same edge.
    pub fn service_interrupt(&mut self)
        requires
            old(self).wf(),
            old(self).running_task() is Handling,
        ensures
            final(self).wf(),
            !final(self).is_pending(),
            final(self).running_task() is Idle,
            final(self).effective() == IDLE_PRIORITY,
            final(self).button_high() == old(self).button_high(),
    {
        InputEventHandler::on_edge(self);
        self.return_from_handler();
    }
}

/// With the latch clear, no dispatch for the already-serviced edge is
/// enabled: a new dispatch needs a new physical edge.
pub proof fn lemma_no_refire(s: Scheduler)
    requires
        !s.is_pending(),
    ensures
        !s.dispatch_enabled(),
{
}

/// While the loop holds a critical section at the shared ceiling, the
/// handler cannot preempt it: the ceiling equals the handler's priority, so
/// the blocking a press can inflict on the loop is bounded by one critical
/// section, and the section is a true mutual exclusion for the shared pair.
pub proof fn lemma_ceiling_blocks_preemption(s: Scheduler)
    requires
        s.running_task() is Idle,
        s.effective() >= SHARED_CEILING,
    ensures
        !s.dispatch_enabled(),
{
}

/// The interrupt-bound routine.
pub struct InputEventHandler {}

impl InputEventHandler {
    /// Acknowledge the hardware edge: clear the latched pending state for
    /// the bound line before returning — the one mandatory side effect.
    /// Anything further (debounce, payload, dispatch) is an intentionally
    /// open extension point.
    pub fn on_edge(sched: &mut Scheduler)
        requires
            old(sched).wf(),
            old(sched).running_task() is Handling,
        ensures
            final(sched).wf(),
            !final(sched).is_pending(),
            final(sched).running_task() is Handling,
            final(sched).effective() == old(sched).effective(),
            final(sched).button_high() == old(sched).button_high(),
    {
        sched.clear_pending();
    }
}

/// One pass of the animation loop run by the idle task: transmit the
/// current frame over the bus as one gap-free block, then advance the frame
/// one step. The blocking delay between passes belongs to the caller, as
/// does draining the bus; a bus fault propagates unchanged — by current
/// policy the caller treats it as fatal.
pub fn idle_step(engine: &mut AnimationEngine, bus: &mut SerialBus) -> (r: Result<
    (),
    TransmissionError,
>)
    requires
        old(bus).wf(),
    ensures
        final(bus).wf(),
        final(bus).window_size() == old(bus).window_size(),
        r is Ok <==> old(bus).transmitted().len() + old(engine)@.len() * (BYTES_PER_COLOR as int)
            <= old(bus).window_size(),
        r is Ok ==> final(bus).transmitted() == old(bus).transmitted() + pulse_train(old(engine)@)
            && final(engine)@ == rotl1(old(engine)@),
        r is Err ==> final(engine)@ == old(engine)@ && final(bus).transmitted() == old(
            bus,
        ).transmitted(),
{
    match ProtocolEncoder::write(bus, engine.frame().as_colors()) {
        Ok(()) => {
            engine.tick();
            Ok(())
        },
        Err(e) => Err(e),
    }
}

} // verus!
