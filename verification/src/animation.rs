use vstd::prelude::*;
use vstd::assert_seqs_equal;
use crate::color::{Color, Palette, PALETTE_LEN};

verus! {

/// Number of pixels on the strip, fixed at boot.
pub const FRAME_LEN: usize = 50;

/// Pixels between the start pixels of consecutive palette blocks.
pub const BLOCK_STRIDE: usize = 10;

/// Lit pixels at the head of each block; the rest of the block stays off.
pub const FADE_STEPS: usize = 3;

/// One left rotation: slot 0 moves to the end, every other slot shifts
/// down by one. The empty sequence is left unchanged.
pub open spec fn rotl1(s: Seq<Color>) -> Seq<Color> {
    if s.len() == 0 {
        s
    } else {
        s.subrange(1, s.len() as int).push(s[0])
    }
}

/// `n` left rotations in a row.
pub open spec fn rotl(s: Seq<Color>, n: nat) -> Seq<Color>
    decreases n,
{
    if n == 0 {
        s
    } else {
        rotl1(rotl(s, (n - 1) as nat))
    }
}

/// After `n <= len` rotations the sequence is its own tail of length
/// `len - n` followed by its own head of length `n`.
proof fn lemma_rotl_split(s: Seq<Color>, n: nat)
    requires
        n <= s.len(),
    ensures
        rotl(s, n) == s.subrange(n as int, s.len() as int) + s.subrange(0, n as int),
    decreases n,
{
    let len = s.len() as int;
    if n == 0 {
        assert_seqs_equal!(rotl(s, 0) == s.subrange(0, len) + s.subrange(0, 0));
    } else {
        lemma_rotl_split(s, (n - 1) as nat);
        let prev = s.subrange(n - 1, len) + s.subrange(0, n - 1);
        assert(rotl(s, n) == rotl1(prev));
        assert(prev.len() == len);
        assert(prev[0] == s[n - 1]);
        assert_seqs_equal!(rotl1(prev) == s.subrange(n as int, len) + s.subrange(0, n as int), i => {
            if i < len - n {
                assert(rotl1(prev)[i] == prev[i + 1]);
                assert(prev[i + 1] == s[n + i]);
            } else if i < len - 1 {
                assert(rotl1(prev)[i] == prev[i + 1]);
                assert(prev[i + 1] == s[i - (len - n)]);
            } else {
                assert(rotl1(prev)[i] == prev[0]);
            }
        });
    }
}

/// Cyclic invariant of the animation: rotating a frame left once per tick,
/// a full cycle of `len` ticks restores the original ordering, whatever the
/// frame holds.
pub proof fn lemma_tick_cycle(s: Seq<Color>)
    ensures
        rotl(s, s.len()) == s,
{
    lemma_rotl_split(s, s.len());
    assert_seqs_equal!(s.subrange(s.len() as int, s.len() as int) + s.subrange(0, s.len() as int) == s);
}

/// What the freshly built frame holds at slot `j`: inside the first
/// `FADE_STEPS` slots of each `BLOCK_STRIDE`-wide block, the block's palette
/// color divided by one more than the offset into the block; everywhere
/// else, off.
pub open spec fn initial_color_at(palette: Seq<Color>, j: int) -> Color
    recommends
        palette.len() == PALETTE_LEN,
        0 <= j < FRAME_LEN,
{
    if j % (BLOCK_STRIDE as int) < FADE_STEPS as int {
        palette[j / (BLOCK_STRIDE as int)].spec_scaled((j % (BLOCK_STRIDE as int) + 1) as u8)
    } else {
        Color::spec_black()
    }
}

/// A fixed-length ordered sequence of colors; the length never changes
/// after construction.
pub struct FrameBuffer {
    colors: Vec<Color>,
}

impl View for FrameBuffer {
    type V = Seq<Color>;

    closed spec fn view(&self) -> Seq<Color> {
        self.colors@
    }
}

impl FrameBuffer {
    /// A frame of `len` pixels, all off.
    pub fn new(len: usize) -> (f: FrameBuffer)
        ensures
            f@.len() == len,
            forall|j: int| 0 <= j < len ==> f@[j] == Color::spec_black(),
    {
        let mut colors: Vec<Color> = Vec::new();
        let mut i: usize = 0;
        while i < len
            invariant
                i <= len,
                colors@.len() == i,
                forall|j: int| 0 <= j < i ==> colors@[j] == Color::spec_black(),
            decreases len - i,
        {
            colors.push(Color::black());
            i = i + 1;
        }
        FrameBuffer { colors }
    }

    /// Read access for the encoder and for diagnostics.
    pub fn as_colors(&self) -> (v: &Vec<Color>)
        ensures
            v@ == self@,
    {
        &self.colors
    }

    pub fn len(&self) -> (n: usize)
        ensures
            n == self@.len(),
    {
        self.colors.len()
    }

    /// In-place left rotation by exactly one slot: the element at index 0
    /// moves to the last index, all others shift down by one. Pure, total,
    /// no failure mode.
    pub fn rotate_left(&mut self)
        ensures
            final(self)@ == rotl1(old(self)@),
            final(self)@.len() == old(self)@.len(),
    {
        let n = self.colors.len();
        if n == 0 {
            return;
        }
        let first = self.colors[0];
        let mut i: usize = 0;
        while i < n - 1
            invariant
                n == self.colors@.len(),
                1 <= n,
                i <= n - 1,
                first == old(self)@[0],
                forall|k: int| 0 <= k < i ==> self.colors@[k] == old(self)@[k + 1],
                forall|k: int| i <= k < n ==> self.colors@[k] == old(self)@[k],
            decreases n - i,
        {
            let next = self.colors[i + 1];
            self.colors[i] = next;
            i = i + 1;
        }
        self.colors[n - 1] = first;
        proof {
            assert_seqs_equal!(self.colors@ == rotl1(old(self)@));
        }
    }
}

/// Owns the frame buffer, computes the initial pattern from the palette,
/// and advances it by one left rotation each tick.
pub struct AnimationEngine {
    frame: FrameBuffer,
}

impl View for AnimationEngine {
    type V = Seq<Color>;

    closed spec fn view(&self) -> Seq<Color> {
        self.frame@
    }
}

impl AnimationEngine {
    /// The boot-time frame: for block index `b` in `[0, PALETTE_LEN)` and
    /// intra-block position `i` in `[0, FADE_STEPS)`, slot `b * BLOCK_STRIDE + i`
    /// holds `palette[b]` divided per channel by `i + 1`; every other slot
    /// stays off. Brightness thus falls with distance from each block's
    /// start pixel.
    pub fn build_initial_frame(palette: &Palette) -> (f: FrameBuffer)
        requires
            palette.wf(),
        ensures
            f@.len() == FRAME_LEN,
            forall|j: int| 0 <= j < FRAME_LEN ==> f@[j] == initial_color_at(palette@, j),
    {
        let mut colors: Vec<Color> = Vec::new();
        let mut j: usize = 0;
        while j < FRAME_LEN
            invariant
                palette.wf(),
                j <= FRAME_LEN,
                colors@.len() == j,
                forall|k: int| 0 <= k < j ==> colors@[k] == initial_color_at(palette@, k),
            decreases FRAME_LEN - j,
        {
            let offset = j % BLOCK_STRIDE;
            if offset < FADE_STEPS {
                let base = palette.get(j / BLOCK_STRIDE);
                colors.push(base.scaled((offset + 1) as u8));
            } else {
                colors.push(Color::black());
            }
            j = j + 1;
        }
        FrameBuffer { colors }
    }

    /// An engine whose frame starts as the initial pattern for `palette`.
    pub fn new(palette: &Palette) -> (e: AnimationEngine)
        requires
            palette.wf(),
        ensures
            e@.len() == FRAME_LEN,
            forall|j: int| 0 <= j < FRAME_LEN ==> e@[j] == initial_color_at(palette@, j),
    {
        AnimationEngine { frame: Self::build_initial_frame(palette) }
    }

    /// Advance the animation by one step: a left rotation by exactly one slot.
    pub fn tick(&mut self)
        ensures
            final(self)@ == rotl1(old(self)@),
            final(self)@.len() == old(self)@.len(),
    {
        self.frame.rotate_left();
    }

    pub fn frame(&self) -> (f: &FrameBuffer)
        ensures
            f@ == self@,
    {
        &self.frame
    }
}

/// Treat the array as a ring, i.e. the counter wraps around so that you can
/// repeat the array forever by incrementing the counter.
pub fn next_in_ring(an_array: &[i32], counter: usize) -> (r: i32)
    requires
        an_array@.len() > 0,
    ensures
        r == an_array@[counter as int % an_array@.len() as int],
{
    let slice = counter % an_array.len();
    an_array[slice]
}

} // verus!
