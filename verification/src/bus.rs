use vstd::prelude::*;
use crate::color::Color;
use crate::encoder::{encode_frame, pulse_train, BYTES_PER_COLOR};

verus! {

/// Failures of the strip's serial bus.
#[derive(Clone, Copy, PartialEq, Eq, Structural, Debug)]
pub enum TransmissionError {
    /// The frame does not fit in what is left of the bus's transmit window,
    /// so sending it could not have been gap-free.
    Overrun,
}

/// Model of the serial bus that feeds the strip: the bytes queued for the
/// current transmission, in order, and the fixed size of the transmit
/// window. Queueing is the only way bytes reach the wire, so whatever one
/// call appends goes out back to back, with no idle time inside the block.
pub struct SerialBus {
    tx: Vec<u8>,
    window: usize,
}

impl SerialBus {
    /// The bytes queued so far, oldest first.
    pub closed spec fn transmitted(&self) -> Seq<u8> {
        self.tx@
    }

    /// How many bytes one transmission may hold in all.
    pub closed spec fn window_size(&self) -> int {
        self.window as int
    }

    pub open spec fn wf(&self) -> bool {
        self.transmitted().len() <= self.window_size()
    }

    /// A bus with an empty transmit window of `window` bytes.
    pub fn new(window: usize) -> (bus: SerialBus)
        ensures
            bus.wf(),
            bus.transmitted() == Seq::<u8>::empty(),
            bus.window_size() == window,
    {
        SerialBus { tx: Vec::new(), window }
    }

    pub fn window(&self) -> (w: usize)
        ensures
            w == self.window_size(),
    {
        self.window
    }

    pub fn queued_len(&self) -> (n: usize)
        ensures
            n == self.transmitted().len(),
    {
        self.tx.len()
    }

    /// Hand the queued bytes over to the wire, emptying the window for the
    /// next frame.
    pub fn drain(&mut self) -> (sent: Vec<u8>)
        ensures
            final(self).wf(),
            final(self).window_size() == old(self).window_size(),
            final(self).transmitted() == Seq::<u8>::empty(),
            sent@ == old(self).transmitted(),
    {
        let mut sent: Vec<u8> = Vec::new();
        core::mem::swap(&mut sent, &mut self.tx);
        sent
    }

    /// Queue `bytes` as one contiguous block.
    fn queue_block(&mut self, bytes: &Vec<u8>)
        requires
            old(self).wf(),
            old(self).transmitted().len() + bytes@.len() <= old(self).window_size(),
        ensures
            final(self).wf(),
            final(self).window_size() == old(self).window_size(),
            final(self).transmitted() == old(self).transmitted() + bytes@,
    {
        let mut i: usize = 0;
        while i < bytes.len()
            invariant
                i <= bytes@.len(),
                self.window == old(self).window,
                self.tx@ == old(self).tx@ + bytes@.subrange(0, i as int),
                old(self).tx@.len() + bytes@.len() <= self.window,
            decreases bytes@.len() - i,
        {
            let byte = bytes[i];
            self.tx.push(byte);
            proof {
                assert(self.tx@ =~= old(self).tx@ + bytes@.subrange(0, i as int + 1));
            }
            i = i + 1;
        }
        proof {
            assert(self.tx@ =~= old(self).tx@ + bytes@);
        }
    }
}

/// Encodes a frame of colors into the strip's pulse train and hands it to
/// the serial bus as a single gap-free block.
pub struct ProtocolEncoder {}

impl ProtocolEncoder {
    /// Transmit a whole frame: either every byte of the frame's pulse train
    /// is queued back to back — no inter-symbol gap that the strip could
    /// mistake for a frame latch — or, when the train cannot fit in what is
    /// left of the window, nothing is queued at all and the overrun is
    /// reported. Success exactly when the train fits.
    pub fn write(bus: &mut SerialBus, colors: &Vec<Color>) -> (r: Result<(), TransmissionError>)
        requires
            old(bus).wf(),
        ensures
            final(bus).wf(),
            final(bus).window_size() == old(bus).window_size(),
            r is Ok <==> old(bus).transmitted().len() + colors@.len() * (BYTES_PER_COLOR as int)
                <= old(bus).window_size(),
            r is Ok ==> final(bus).transmitted() == old(bus).transmitted() + pulse_train(colors@),
            r is Err ==> final(bus).transmitted() == old(bus).transmitted(),
    {
        let fits = match colors.len().checked_mul(BYTES_PER_COLOR) {
            Some(needed) => needed <= bus.window() - bus.queued_len(),
            None => false,
        };
        if !fits {
            return Err(TransmissionError::Overrun);
        }
        let train = encode_frame(colors);
        bus.queue_block(&train);
        Ok(())
    }
}

} // verus!
