use vstd::prelude::*;
use crate::animation::{initial_color_at, AnimationEngine, FRAME_LEN};
use crate::bus::SerialBus;
use crate::color::{Color, Palette};
use crate::encoder::BYTES_PER_COLOR;
use crate::scheduler::{Scheduler, IDLE_PRIORITY};

verus! {

/// Bytes the bus's transmit window holds: exactly one frame's pulse train.
pub const BUS_WINDOW: usize = FRAME_LEN * BYTES_PER_COLOR;

/// Why the board could not be brought up.
#[derive(Clone, Copy, PartialEq, Eq, Structural, Debug)]
pub enum BootError {
    /// A required peripheral could not be taken. Fatal: there is no
    /// degraded-mode boot.
    PeripheralsUnavailable,
}

/// The two discrete indicator outputs. They are driven in lockstep: both on
/// or both off, always.
pub struct LedPair {
    lit: bool,
    aux_lit: bool,
}

impl LedPair {
    pub closed spec fn is_lit(&self) -> bool {
        self.lit
    }

    pub closed spec fn aux_is_lit(&self) -> bool {
        self.aux_lit
    }

    /// Lockstep invariant: the two outputs never disagree.
    pub open spec fn wf(&self) -> bool {
        self.is_lit() == self.aux_is_lit()
    }

    /// Both outputs start off.
    pub fn new() -> (leds: LedPair)
        ensures
            leds.wf(),
            !leds.is_lit(),
    {
        LedPair { lit: false, aux_lit: false }
    }

    /// Flip both outputs together.
    pub fn toggle(&mut self)
        requires
            old(self).wf(),
        ensures
            final(self).wf(),
            final(self).is_lit() == !old(self).is_lit(),
            final(self).aux_is_lit() == !old(self).aux_is_lit(),
    {
        self.lit = !self.lit;
        self.aux_lit = !self.aux_lit;
    }

    pub fn is_on(&self) -> (b: bool)
        ensures
            b == self.is_lit(),
    {
        self.lit
    }
}

/// Everything a successful boot hands the tasks: the dispatcher with the
/// shared pair, the animation engine with its frame, the strip's bus, and
/// the indicator outputs.
pub struct BoardResources {
    pub scheduler: Scheduler,
    pub engine: AnimationEngine,
    pub bus: SerialBus,
    pub leds: LedPair,
}

/// The observable state right after boot: loop ready at base priority with
/// no latched edge, frame holding the initial pattern for `palette`, bus
/// empty with a one-frame window, indicators off. Nothing partial: a
/// `BoardResources` exists only in this state.
pub open spec fn fully_initialized(r: BoardResources, palette: Seq<Color>) -> bool {
    &&& r.scheduler.wf()
    &&& r.scheduler.running_task() is Idle
    &&& r.scheduler.effective() == IDLE_PRIORITY
    &&& !r.scheduler.is_pending()
    &&& r.engine@.len() == FRAME_LEN
    &&& (forall|j: int| 0 <= j < FRAME_LEN ==> r.engine@[j] == initial_color_at(palette, j))
    &&& r.bus.wf()
    &&& r.bus.transmitted() == Seq::<u8>::empty()
    &&& r.bus.window_size() == BUS_WINDOW
    &&& r.leds.wf()
    &&& !r.leds.is_lit()
}

/// PeripheralBootstrap's last word: claim the device and core peripheral
/// blocks and build every task resource. Succeeds exactly when both blocks
/// are available; otherwise nothing is constructed and the caller must treat
/// the failure as fatal — no task may run, and no partially initialized
/// state is observable.
pub fn bootstrap(device_peripherals: bool, core_peripherals: bool, palette: &Palette) -> (r: Result<
    BoardResources,
    BootError,
>)
    requires
        palette.wf(),
    ensures
        r is Ok <==> device_peripherals && core_peripherals,
        r is Err ==> r == Result::<BoardResources, BootError>::Err(
            BootError::PeripheralsUnavailable,
        ),
        (r matches Ok(res) ==> fully_initialized(res, palette@)),
{
    if !(device_peripherals && core_peripherals) {
        return Err(BootError::PeripheralsUnavailable);
    }
    let scheduler = Scheduler::start();
    let engine = AnimationEngine::new(palette);
    let bus = SerialBus::new(BUS_WINDOW);
    let leds = LedPair::new();
    Ok(BoardResources { scheduler, engine, bus, leds })
}

} // verus!
