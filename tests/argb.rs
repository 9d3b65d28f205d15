use netspeed::argb::{pulse_ticks, ARGBError, ARGB};

const ZERO: u32 = 0xA;
const ONE: u32 = 0xB;

#[test]
fn byte_becomes_eight_words_msb_first() {
    let argb = ARGB::new(ZERO, ONE);
    let mut buf = vec![7u32; 10];
    assert_eq!(argb.convert_rgb_channel_to_pulses(0b1010_0001, &mut buf, 1), Ok(9));
    assert_eq!(buf, vec![7, ONE, ZERO, ONE, ZERO, ZERO, ZERO, ZERO, ONE, 7]);
}

#[test]
fn short_buffer_is_reported() {
    let argb = ARGB::new(ZERO, ONE);
    let mut buf = vec![7u32; 5];
    assert_eq!(
        argb.convert_rgb_channel_to_pulses(0xff, &mut buf, 2),
        Err(ARGBError::BufferSizeExceeded)
    );
    assert_eq!(buf, vec![7, 7, ONE, ONE, ONE]);
    assert_eq!(
        argb.convert_rgb_channel_to_pulses(0xff, &mut buf, 9),
        Err(ARGBError::BufferSizeExceeded)
    );
}

#[test]
fn chain_of_leds_ends_with_zero_word() {
    let argb = ARGB::new(ZERO, ONE);
    let mut buf = vec![7u32; 2 * 32 + 2];
    assert_eq!(argb.fill_colors(&[[0xff, 0x00, 0x80], [0x01, 0x02, 0x03]], &mut buf), Ok(()));
    assert_eq!(&buf[0..8], &[ONE; 8]);
    assert_eq!(&buf[8..16], &[ZERO; 8]);
    assert_eq!(&buf[16..24], &[ONE, ZERO, ZERO, ZERO, ZERO, ZERO, ZERO, ZERO]);
    assert_eq!(&buf[24..32], &[ONE, ZERO, ZERO, ZERO, ZERO, ZERO, ZERO, ZERO]);
    assert_eq!(&buf[32..40], &[ZERO, ZERO, ZERO, ZERO, ZERO, ZERO, ZERO, ONE]);
    assert_eq!(buf[64], 0);
    assert_eq!(buf[65], 7);
}

#[test]
fn chain_too_long_leaves_buffer() {
    let argb = ARGB::new(ZERO, ONE);
    let mut buf = vec![7u32; 32];
    assert_eq!(argb.fill_colors(&[[1, 2, 3]], &mut buf), Err(ARGBError::BufferSizeExceeded));
    assert_eq!(buf, vec![7u32; 32]);
    let mut empty: Vec<u32> = Vec::new();
    assert_eq!(argb.fill_colors(&[], &mut empty), Err(ARGBError::BufferSizeExceeded));
    let mut one = vec![9u32];
    assert_eq!(argb.fill_colors(&[], &mut one), Ok(()));
    assert_eq!(one, vec![0]);
}

#[test]
fn pulse_lengths_at_80_mhz() {
    assert_eq!(pulse_ticks(320, 80), 25);
    assert_eq!(pulse_ticks(880, 80), 70);
    assert_eq!(pulse_ticks(640, 80), 51);
    assert_eq!(pulse_ticks(560, 80), 44);
}
