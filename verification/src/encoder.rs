use vstd::prelude::*;
use vstd::assert_seqs_equal;
use crate::color::Color;

verus! {

/// Pulse symbol for a logical `1`: long high, short low (`1110` on the wire).
pub const SYMBOL_ONE: u8 = 0x0E;

/// Pulse symbol for a logical `0`: short high, long low (`1000` on the wire).
pub const SYMBOL_ZERO: u8 = 0x08;

/// Logical bits per color: three channels of eight bits each.
pub const BITS_PER_COLOR: usize = 24;

/// Bus bytes per color: two four-bit symbols are packed into each byte.
pub const BYTES_PER_COLOR: usize = 12;

/// Bit `i` of `byte`, most significant first.
pub open spec fn spec_bit(byte: u8, i: int) -> bool
    recommends
        0 <= i < 8,
{
    (byte >> ((7 - i) as u8)) & 1 == 1
}

/// The eight bits of `byte`, most significant first.
pub open spec fn byte_bits(byte: u8) -> Seq<bool> {
    Seq::new(8, |i: int| spec_bit(byte, i))
}

/// The 24 logical bits of one color in wire order: green, red, blue, each
/// most-significant-bit first.
pub open spec fn color_bits(c: Color) -> Seq<bool> {
    byte_bits(c.g) + byte_bits(c.r) + byte_bits(c.b)
}

/// The logical bits of a whole frame, color by color.
pub open spec fn frame_bits(colors: Seq<Color>) -> Seq<bool>
    decreases colors.len(),
{
    if colors.len() == 0 {
        Seq::empty()
    } else {
        frame_bits(colors.drop_last()) + color_bits(colors.last())
    }
}

/// The pulse symbol that encodes one logical bit.
pub open spec fn symbol_for(bit: bool) -> u8 {
    if bit {
        SYMBOL_ONE
    } else {
        SYMBOL_ZERO
    }
}

/// The strip's pulse train as symbols: exactly one symbol per logical bit.
pub open spec fn pulse_symbols(colors: Seq<Color>) -> Seq<u8> {
    frame_bits(colors).map_values(|bit: bool| symbol_for(bit))
}

/// Two adjacent symbols packed into one bus byte, earlier bit in the high
/// nibble, so the bus shifts the earlier pulse out first.
pub open spec fn packed(hi: bool, lo: bool) -> u8 {
    (symbol_for(hi) << 4u8) | symbol_for(lo)
}

/// The byte stream shifted out on the bus for a frame: byte `k` carries
/// logical bits `2k` and `2k + 1`.
pub open spec fn pulse_train(colors: Seq<Color>) -> Seq<u8> {
    Seq::new(
        (frame_bits(colors).len() / 2) as nat,
        |k: int| packed(frame_bits(colors)[2 * k], frame_bits(colors)[2 * k + 1]),
    )
}

/// The four bus bytes that carry one channel byte.
pub open spec fn channel_train(byte: u8) -> Seq<u8> {
    Seq::new(4, |k: int| packed(spec_bit(byte, 2 * k), spec_bit(byte, 2 * k + 1)))
}

/// A frame of `n` colors yields exactly `n * 24` pulse symbols — one per
/// logical bit — and `n * 12` bus bytes.
pub proof fn lemma_pulse_counts(colors: Seq<Color>)
    ensures
        frame_bits(colors).len() == colors.len() * (BITS_PER_COLOR as int),
        pulse_symbols(colors).len() == colors.len() * (BITS_PER_COLOR as int),
        pulse_train(colors).len() == colors.len() * (BYTES_PER_COLOR as int),
    decreases colors.len(),
{
    if colors.len() == 0 {
    } else {
        lemma_pulse_counts(colors.drop_last());
    }
}

/// Each bus byte carries exactly two adjacent pulse symbols, earlier one in
/// the high nibble: the train is the symbol sequence packed back to back,
/// with no idle bit between symbols.
pub proof fn lemma_train_carries_symbols(colors: Seq<Color>, k: int)
    requires
        0 <= k < pulse_train(colors).len(),
    ensures
        2 * k + 1 < pulse_symbols(colors).len(),
        pulse_train(colors)[k] >> 4u8 == pulse_symbols(colors)[2 * k],
        (pulse_train(colors)[k] & 0x0Fu8) == pulse_symbols(colors)[2 * k + 1],
{
    lemma_pulse_counts(colors);
    let hi = frame_bits(colors)[2 * k];
    let lo = frame_bits(colors)[2 * k + 1];
    assert(((symbol_for(hi) << 4u8) | symbol_for(lo)) >> 4u8 == symbol_for(hi)) by (bit_vector)
        requires
            symbol_for(hi) == 0x08u8 || symbol_for(hi) == 0x0Eu8,
            symbol_for(lo) == 0x08u8 || symbol_for(lo) == 0x0Eu8,
    ;
    assert((((symbol_for(hi) << 4u8) | symbol_for(lo)) & 0x0Fu8) == symbol_for(lo)) by (bit_vector)
        requires
            symbol_for(hi) == 0x08u8 || symbol_for(hi) == 0x0Eu8,
            symbol_for(lo) == 0x08u8 || symbol_for(lo) == 0x0Eu8,
    ;
}

/// The symbols a byte stream carries, in wire order: each byte's high
/// nibble, then its low nibble.
pub open spec fn train_symbols(train: Seq<u8>) -> Seq<u8> {
    Seq::new(
        train.len() * 2,
        |i: int|
            if i % 2 == 0 {
                train[i / 2] >> 4u8
            } else {
                train[i / 2] & 0x0Fu8
            },
    )
}

/// The bus byte stream of a frame carries exactly the frame's pulse
/// symbols, in order and back to back: every nibble on the wire is a
/// symbol, and no filler sits between them.
pub proof fn lemma_train_is_packed_symbols(colors: Seq<Color>)
    ensures
        train_symbols(pulse_train(colors)) == pulse_symbols(colors),
{
    lemma_pulse_counts(colors);
    assert_seqs_equal!(train_symbols(pulse_train(colors)) == pulse_symbols(colors), i => {
        lemma_train_carries_symbols(colors, i / 2);
        assert(i == 2 * (i / 2) + i % 2);
    });
}

/// Appending one color to a frame appends that color's twelve bus bytes to
/// the train.
proof fn lemma_pulse_train_push(colors: Seq<Color>, c: Color)
    ensures
        pulse_train(colors.push(c)) == pulse_train(colors) + color_train(c),
{
    assert(colors.push(c).drop_last() =~= colors);
    assert(colors.push(c).last() == c);
    assert(frame_bits(colors.push(c)) == frame_bits(colors) + color_bits(c));
    lemma_pulse_counts(colors);
    lemma_pulse_counts(colors.push(c));
    let bits = frame_bits(colors.push(c));
    let n = colors.len() as int;
    assert_seqs_equal!(pulse_train(colors.push(c)) == pulse_train(colors) + color_train(c), k => {
        if k < 12 * n {
            assert(bits[2 * k] == frame_bits(colors)[2 * k]);
            assert(bits[2 * k + 1] == frame_bits(colors)[2 * k + 1]);
        } else {
            assert(bits[2 * k] == color_bits(c)[2 * k - 24 * n]);
            assert(bits[2 * k + 1] == color_bits(c)[2 * k + 1 - 24 * n]);
        }
    });
}

/// The twelve bus bytes of one color: its three channel trains in wire order.
pub open spec fn color_train(c: Color) -> Seq<u8> {
    Seq::new(12, |k: int| packed(color_bits(c)[2 * k], color_bits(c)[2 * k + 1]))
}

/// A color's train is its green, red and blue channel trains in a row.
proof fn lemma_color_train_split(c: Color)
    ensures
        color_train(c) == channel_train(c.g) + channel_train(c.r) + channel_train(c.b),
{
    assert_seqs_equal!(color_train(c) == channel_train(c.g) + channel_train(c.r) + channel_train(c.b), k => {
        if k < 4 {
            assert(color_bits(c)[2 * k] == byte_bits(c.g)[2 * k]);
            assert(color_bits(c)[2 * k + 1] == byte_bits(c.g)[2 * k + 1]);
        } else if k < 8 {
            assert(color_bits(c)[2 * k] == byte_bits(c.r)[2 * k - 8]);
            assert(color_bits(c)[2 * k + 1] == byte_bits(c.r)[2 * k + 1 - 8]);
        } else {
            assert(color_bits(c)[2 * k] == byte_bits(c.b)[2 * k - 16]);
            assert(color_bits(c)[2 * k + 1] == byte_bits(c.b)[2 * k + 1 - 16]);
        }
    });
}

/// Push the four bus bytes that encode one channel byte.
fn push_channel(out: &mut Vec<u8>, byte: u8)
    ensures
        final(out)@ == old(out)@ + channel_train(byte),
{
    let mut k: usize = 0;
    while k < 4
        invariant
            k <= 4,
            out@ == old(out)@ + channel_train(byte).subrange(0, k as int),
        decreases 4 - k,
    {
        let sh_hi: u8 = 7 - 2 * (k as u8);
        let sh_lo: u8 = 6 - 2 * (k as u8);
        let hi = (byte >> sh_hi) & 1 == 1;
        let lo = (byte >> sh_lo) & 1 == 1;
        let sym_hi = if hi { SYMBOL_ONE } else { SYMBOL_ZERO };
        let sym_lo = if lo { SYMBOL_ONE } else { SYMBOL_ZERO };
        out.push((sym_hi << 4u8) | sym_lo);
        proof {
            assert(hi == spec_bit(byte, 2 * (k as int)));
            assert(lo == spec_bit(byte, 2 * (k as int) + 1));
            assert_seqs_equal!(out@ == old(out)@ + channel_train(byte).subrange(0, k as int + 1));
        }
        k = k + 1;
    }
    proof {
        assert_seqs_equal!(channel_train(byte).subrange(0, 4) == channel_train(byte));
    }
}

/// Serialize a whole frame into its bus byte stream: channels in wire order
/// (green, red, blue), most significant bit first, one pulse symbol per bit,
/// two symbols per byte.
pub fn encode_frame(colors: &Vec<Color>) -> (out: Vec<u8>)
    ensures
        out@ == pulse_train(colors@),
        out@.len() == colors@.len() * BYTES_PER_COLOR,
{
    let mut out: Vec<u8> = Vec::new();
    let mut idx: usize = 0;
    proof {
        assert(colors@.subrange(0, 0) =~= Seq::<Color>::empty());
        assert_seqs_equal!(out@ == pulse_train(colors@.subrange(0, 0)));
    }
    while idx < colors.len()
        invariant
            idx <= colors@.len(),
            out@ == pulse_train(colors@.subrange(0, idx as int)),
        decreases colors@.len() - idx,
    {
        let c = colors[idx];
        push_channel(&mut out, c.g);
        push_channel(&mut out, c.r);
        push_channel(&mut out, c.b);
        proof {
            let prefix = colors@.subrange(0, idx as int);
            assert(colors@.subrange(0, idx as int + 1) =~= prefix.push(c));
            lemma_pulse_train_push(prefix, c);
            lemma_color_train_split(c);
            assert_seqs_equal!(out@ == pulse_train(colors@.subrange(0, idx as int + 1)));
        }
        idx = idx + 1;
    }
    proof {
        assert(colors@.subrange(0, colors@.len() as int) =~= colors@);
        lemma_pulse_counts(colors@);
    }
    out
}

} // verus!
