use std::cell::RefCell;
use std::rc::Rc;

use ringlight::bus::{ProtocolEncoder, SerialBus, TransmissionError};
use ringlight::color::Color;
use ringlight::encoder::{encode_frame, BYTES_PER_COLOR, SYMBOL_ONE, SYMBOL_ZERO};

use smart_leds::{SmartLedsWrite, RGB8};
use ws2812_spi::Ws2812;

#[test]
fn encode_black_is_all_zero_symbols() {
    let colors = vec![Color::black()];
    let out = encode_frame(&colors);
    assert_eq!(out.len(), BYTES_PER_COLOR);
    for byte in out {
        assert_eq!(byte, (SYMBOL_ZERO << 4) | SYMBOL_ZERO);
    }
}

#[test]
fn encode_known_color_wire_order() {
    // green is sent first, then red, then blue, most significant bit first
    let colors = vec![Color::new(0xFF, 0, 0)];
    let out = encode_frame(&colors);
    let zero2 = (SYMBOL_ZERO << 4) | SYMBOL_ZERO;
    let one2 = (SYMBOL_ONE << 4) | SYMBOL_ONE;
    assert_eq!(out[0..4], [zero2; 4]); // g == 0x00
    assert_eq!(out[4..8], [one2; 4]); // r == 0xFF
    assert_eq!(out[8..12], [zero2; 4]); // b == 0x00

    // 0b1010_1010 alternates symbols within each byte
    let colors = vec![Color::new(0, 0xAA, 0)];
    let out = encode_frame(&colors);
    let mixed = (SYMBOL_ONE << 4) | SYMBOL_ZERO;
    assert_eq!(out[0..4], [mixed; 4]); // g == 0xAA leads
    assert_eq!(out[4..8], [zero2; 4]);
    assert_eq!(out[8..12], [zero2; 4]);
}

#[test]
fn encode_yields_three_times_eight_symbols_per_color() {
    let colors = vec![
        Color::new(0x60, 0, 0),
        Color::new(1, 2, 3),
        Color::new(0xFF, 0xFF, 0xFF),
        Color::black(),
    ];
    let out = encode_frame(&colors);
    assert_eq!(out.len(), colors.len() * BYTES_PER_COLOR);
    // every nibble is one pulse symbol: 2 symbols a byte, 24 a color
    let mut symbols = 0usize;
    for byte in out {
        for symbol in [byte >> 4, byte & 0x0F] {
            assert!(symbol == SYMBOL_ONE || symbol == SYMBOL_ZERO);
            symbols += 1;
        }
    }
    assert_eq!(symbols, colors.len() * 3 * 8);
}

/// Records every byte the strip driver shifts out.
struct MockSpi {
    sent: Rc<RefCell<Vec<u8>>>,
}

impl embedded_hal::spi::FullDuplex<u8> for MockSpi {
    type Error = ();

    fn read(&mut self) -> nb::Result<u8, ()> {
        Ok(0)
    }

    fn send(&mut self, word: u8) -> nb::Result<(), ()> {
        self.sent.borrow_mut().push(word);
        Ok(())
    }
}

#[test]
fn encode_matches_strip_driver() {
    let colors = vec![
        Color::new(0x60, 0, 0),
        Color::new(0x30, 0x30, 0),
        Color::new(1, 2, 3),
        Color::new(0xFF, 0xAA, 0x55),
        Color::black(),
    ];
    let rgb: Vec<RGB8> = colors
        .iter()
        .map(|c| RGB8 { r: c.r, g: c.g, b: c.b })
        .collect();

    let sent = Rc::new(RefCell::new(Vec::new()));
    let mut strip = Ws2812::new(MockSpi { sent: sent.clone() });
    strip.write(rgb.iter().cloned()).unwrap();
    let stream = sent.borrow();

    let ours = encode_frame(&colors);
    // the driver first queues one idle byte, then the data, then holds the
    // line low long enough to latch the frame
    assert_eq!(stream[0], 0);
    assert_eq!(stream[1..1 + ours.len()], ours[..]);
    assert!(stream[1 + ours.len()..].iter().all(|&b| b == 0));
    assert!(stream.len() > 1 + ours.len());
}

#[test]
fn write_queues_whole_frame_contiguously() {
    let colors = vec![Color::new(0x60, 0, 0), Color::new(0, 0x60, 0)];
    let mut bus = SerialBus::new(2 * BYTES_PER_COLOR);
    assert_eq!(ProtocolEncoder::write(&mut bus, &colors), Ok(()));
    assert_eq!(bus.queued_len(), 2 * BYTES_PER_COLOR);
    let sent = bus.drain();
    assert_eq!(sent, encode_frame(&colors));
    assert_eq!(bus.queued_len(), 0);
}

#[test]
fn write_overrun_reported_and_nothing_queued() {
    let colors = vec![Color::new(0x60, 0, 0), Color::new(0, 0x60, 0)];
    let mut bus = SerialBus::new(2 * BYTES_PER_COLOR - 1);
    assert_eq!(
        ProtocolEncoder::write(&mut bus, &colors),
        Err(TransmissionError::Overrun)
    );
    assert_eq!(bus.queued_len(), 0);

    // exactly at the boundary the frame still fits
    let mut bus = SerialBus::new(2 * BYTES_PER_COLOR);
    assert_eq!(ProtocolEncoder::write(&mut bus, &colors), Ok(()));
    // a second frame no longer fits, and what was queued stays as it was
    assert_eq!(
        ProtocolEncoder::write(&mut bus, &colors),
        Err(TransmissionError::Overrun)
    );
    assert_eq!(bus.drain(), encode_frame(&colors));
}

#[test]
fn empty_frame_encodes_to_nothing() {
    let colors: Vec<Color> = Vec::new();
    assert_eq!(encode_frame(&colors), Vec::<u8>::new());
    let mut bus = SerialBus::new(0);
    assert_eq!(ProtocolEncoder::write(&mut bus, &colors), Ok(()));
    assert_eq!(bus.queued_len(), 0);
}
