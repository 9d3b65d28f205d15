use vstd::prelude::*;

verus! {

/// Period of one bit on the LED line, in nanoseconds.
pub const SK68XX_CODE_PERIOD: u32 = 1200;

/// High time of a zero bit, in nanoseconds.
pub const SK68XX_T0H_NS: u32 = 320;

/// Low time of a zero bit, in nanoseconds.
pub const SK68XX_T0L_NS: u32 = SK68XX_CODE_PERIOD - SK68XX_T0H_NS;

/// High time of a one bit, in nanoseconds.
pub const SK68XX_T1H_NS: u32 = 640;

/// Low time of a one bit, in nanoseconds.
pub const SK68XX_T1L_NS: u32 = SK68XX_CODE_PERIOD - SK68XX_T1H_NS;

/// The fourth channel value sent for every LED.
pub const WHITE_LEVEL: u8 = 128;

/// Number of pulse words for one LED: four channels of eight bits.
pub const WORDS_PER_LED: usize = 32;

#[derive(Debug, Clone, Copy, PartialEq, Eq, Structural)]
pub enum ARGBError {
    /// The pulse buffer is too short for what was to be written.
    BufferSizeExceeded,
    /// The transmitter refused the pulse train.
    Transmit,
}

/// Bit `k` of `value`, counting from the most significant (k = 0).
pub open spec fn bit_at(value: u8, k: int) -> bool {
    (value >> ((7 - k) as u8)) & 1u8 == 1u8
}

/// Turns bytes into the pulse words of a single-wire LED chain: one word per
/// bit, most significant bit first.
#[derive(Debug, Clone, Copy, PartialEq, Eq)]
pub struct ARGB {
    /// The words for a zero bit and for a one bit.
    pub pulses: (u32, u32),
}

/// Clock ticks in `ns` nanoseconds at `clock_mhz`, as the transmitter's
/// 16-bit length field holds them.
pub open spec fn ticks_spec(ns: u32, clock_mhz: u32) -> u16 {
    ((ns * clock_mhz) / 1000) as u16
}

/// Clock ticks in `ns` nanoseconds at `clock_mhz`.
pub fn pulse_ticks(ns: u32, clock_mhz: u32) -> (r: u16)
    requires
        ns * clock_mhz <= u32::MAX,
    ensures
        r == ticks_spec(ns, clock_mhz),
{
    ((ns * clock_mhz) / 1000) as u16
}

impl ARGB {
    /// The word for one bit.
    pub open spec fn word(self, bit: bool) -> u32 {
        if bit {
            self.pulses.1
        } else {
            self.pulses.0
        }
    }

    /// The eight words of a byte.
    pub open spec fn byte_words(self, value: u8) -> Seq<u32> {
        Seq::new(8, |k: int| self.word(bit_at(value, k)))
    }

    /// The words of one LED: red, green, blue, then the fixed fourth channel.
    pub open spec fn led_words(self, color: [u8; 3]) -> Seq<u32> {
        self.byte_words(color[0]) + self.byte_words(color[1]) + self.byte_words(color[2])
            + self.byte_words(WHITE_LEVEL)
    }

    /// The words of a chain of LEDs, followed by the closing zero word.
    pub open spec fn frame_words(self, colors: Seq<[u8; 3]>) -> Seq<u32>
        decreases colors.len(),
    {
        if colors.len() == 0 {
            seq![0u32]
        } else {
            self.led_words(colors[0]) + self.frame_words(colors.drop_first())
        }
    }

    /// An encoder with the given words for a zero and a one bit.
    pub fn new(zero: u32, one: u32) -> (r: Self)
        ensures
            r.pulses == (zero, one),
    {
        ARGB { pulses: (zero, one) }
    }

    /// Writes the eight words of `channel_value` from `pos` on. When fewer than
    /// eight places are left, as many words as fit are written and the buffer
    /// is reported too short.
    pub fn convert_rgb_channel_to_pulses(&self, channel_value: u8, buffer: &mut Vec<u32>, pos: usize) -> (r:
        Result<usize, ARGBError>)
        ensures
            final(buffer)@.len() == old(buffer)@.len(),
            forall|i: int|
                0 <= i < old(buffer)@.len() ==> #[trigger] final(buffer)@[i] == if pos <= i < pos + 8 {
                    self.byte_words(channel_value)[i - pos]
                } else {
                    old(buffer)@[i]
                },
            r == if pos + 8 <= old(buffer)@.len() {
                Ok::<usize, ARGBError>((pos + 8) as usize)
            } else {
                Err(ARGBError::BufferSizeExceeded)
            },
    {
        let len = buffer.len();
        if pos > len {
            return Err(ARGBError::BufferSizeExceeded);
        }
        let mut k: usize = 0;
        while k < 8
            invariant
                k <= 8,
                pos + k <= len,
                len == buffer@.len(),
                buffer@.len() == old(buffer)@.len(),
                forall|i: int|
                    0 <= i < old(buffer)@.len() ==> #[trigger] buffer@[i] == if pos <= i < pos + k {
                        self.byte_words(channel_value)[i - pos]
                    } else {
                        old(buffer)@[i]
                    },
            decreases 8 - k,
        {
            if k >= len - pos {
                return Err(ARGBError::BufferSizeExceeded);
            }
            let shift: u8 = (7 - k) as u8;
            let bit = (channel_value >> shift) & 1u8 == 1u8;
            assert(bit == bit_at(channel_value, k as int));
            let word = if bit {
                self.pulses.1
            } else {
                self.pulses.0
            };
            buffer.set(pos + k, word);
            k = k + 1;
        }
        Ok(pos + 8)
    }

    /// Writes the 32 words of one LED from `pos` on.
    fn encode_led(&self, color: [u8; 3], buffer: &mut Vec<u32>, pos: usize)
        requires
            pos + WORDS_PER_LED <= old(buffer)@.len(),
        ensures
            final(buffer)@ == old(buffer)@.subrange(0, pos as int) + self.led_words(color) + old(
                buffer,
            )@.subrange(pos + WORDS_PER_LED, old(buffer)@.len() as int),
    {
        let _len = buffer.len();
        let _ = self.convert_rgb_channel_to_pulses(color[0], buffer, pos);
        let _ = self.convert_rgb_channel_to_pulses(color[1], buffer, pos + 8);
        let _ = self.convert_rgb_channel_to_pulses(color[2], buffer, pos + 16);
        let _ = self.convert_rgb_channel_to_pulses(WHITE_LEVEL, buffer, pos + 24);
        proof {
            let want = old(buffer)@.subrange(0, pos as int) + self.led_words(color) + old(
                buffer,
            )@.subrange(pos + WORDS_PER_LED, old(buffer)@.len() as int);
            assert forall|i: int| 0 <= i < buffer@.len() implies buffer@[i] == want[i] by {
                if pos <= i < pos + WORDS_PER_LED {
                    assert(self.led_words(color)[i - pos] == want[i]);
                }
            }
            assert(buffer@ =~= want);
        }
    }

    /// Fills `buffer` with the pulse train of a chain of LEDs and the closing
    /// zero word. A buffer too short for it is left as it was.
    pub fn fill_colors(&self, colors: &[[u8; 3]], buffer: &mut Vec<u32>) -> (r: Result<(), ARGBError>)
        ensures
            r is Ok <==> self.frame_words(colors@).len() <= old(buffer)@.len(),
            r is Ok ==> final(buffer)@ == self.frame_words(colors@) + old(buffer)@.subrange(
                self.frame_words(colors@).len() as int,
                old(buffer)@.len() as int,
            ),
            r is Err ==> final(buffer)@ == old(buffer)@,
    {
        proof {
            self.frame_words_len(colors@);
        }
        let n = colors.len();
        let len = buffer.len();
        if len == 0 || n > (len - 1) / WORDS_PER_LED {
            proof {
                if len > 0 {
                    assert(n * WORDS_PER_LED + 1 > len) by (nonlinear_arith)
                        requires
                            n > (len - 1) / 32,
                            len > 0,
                    ;
                }
            }
            return Err(ARGBError::BufferSizeExceeded);
        }
        proof {
            assert(n * WORDS_PER_LED + 1 <= len) by (nonlinear_arith)
                requires
                    n <= (len - 1) / 32,
                    len > 0,
            ;
        }
        let mut pos: usize = 0;
        let mut j: usize = 0;
        while j < n
            invariant
                j <= n,
                n == colors@.len(),
                len == buffer@.len(),
                n * WORDS_PER_LED + 1 <= len,
                pos == j * WORDS_PER_LED,
                buffer@.len() == old(buffer)@.len(),
                buffer@.subrange(0, pos as int) == self.leds_words(colors@.subrange(0, j as int)),
                buffer@.subrange(pos as int, len as int) == old(buffer)@.subrange(pos as int, len as int),
            decreases n - j,
        {
            let ghost before = buffer@;
            let color = colors[j];
            proof {
                assert(pos + WORDS_PER_LED <= len) by (nonlinear_arith)
                    requires
                        pos == j * WORDS_PER_LED,
                        j < n,
                        n * WORDS_PER_LED + 1 <= len,
                ;
            }
            self.encode_led(color, buffer, pos);
            proof {
                let done = colors@.subrange(0, j as int);
                let next = colors@.subrange(0, j + 1);
                assert(next =~= done.push(colors@[j as int]));
                self.leds_words_push(done, colors@[j as int]);
                assert(buffer@.subrange(0, pos + WORDS_PER_LED) =~= before.subrange(0, pos as int)
                    + self.led_words(color));
                assert forall|i: int| pos + WORDS_PER_LED <= i < len implies buffer@[i] == old(
                    buffer,
                )@[i] by {
                    assert(buffer@[i] == before[i]);
                    assert(before.subrange(pos as int, len as int)[i - pos] == before[i]);
                }
                assert(buffer@.subrange(pos + WORDS_PER_LED, len as int) =~= old(buffer)@.subrange(
                    pos + WORDS_PER_LED,
                    len as int,
                ));
                assert((j + 1) * WORDS_PER_LED == pos + WORDS_PER_LED) by (nonlinear_arith)
                    requires
                        pos == j * WORDS_PER_LED,
                ;
            }
            pos = pos + WORDS_PER_LED;
            j = j + 1;
        }
        let ghost before = buffer@;
        buffer.set(pos, 0);
        proof {
            assert(colors@.subrange(0, n as int) =~= colors@);
            self.frame_is_leds(colors@);
            let want = self.frame_words(colors@) + old(buffer)@.subrange(pos + 1, len as int);
            assert forall|i: int| 0 <= i < len implies buffer@[i] == want[i] by {
                if i < pos {
                    assert(before.subrange(0, pos as int)[i] == before[i]);
                } else if i > pos {
                    assert(before.subrange(pos as int, len as int)[i - pos] == before[i]);
                }
            }
            assert(buffer@ =~= want);
        }
        Ok(())
    }

    /// The words of a chain of LEDs, without the closing word.
    pub open spec fn leds_words(self, colors: Seq<[u8; 3]>) -> Seq<u32>
        decreases colors.len(),
    {
        if colors.len() == 0 {
            Seq::empty()
        } else {
            self.leds_words(colors.drop_last()) + self.led_words(colors.last())
        }
    }

    proof fn leds_words_push(self, colors: Seq<[u8; 3]>, c: [u8; 3])
        ensures
            self.leds_words(colors.push(c)) == self.leds_words(colors) + self.led_words(c),
    {
        assert(colors.push(c).drop_last() == colors);
    }

    proof fn frame_words_len(self, colors: Seq<[u8; 3]>)
        ensures
            self.frame_words(colors).len() == colors.len() * WORDS_PER_LED + 1,
        decreases colors.len(),
    {
        if colors.len() > 0 {
            self.frame_words_len(colors.drop_first());
            assert(colors.len() * WORDS_PER_LED == (colors.len() - 1) * WORDS_PER_LED + WORDS_PER_LED) by (nonlinear_arith);
        }
    }

    proof fn frame_is_leds(self, colors: Seq<[u8; 3]>)
        ensures
            self.frame_words(colors) == self.leds_words(colors).push(0u32),
        decreases colors.len(),
    {
        if colors.len() > 0 {
            self.frame_is_leds(colors.drop_first());
            self.leds_first(colors);
            assert(self.frame_words(colors) =~= self.leds_words(colors).push(0u32));
        } else {
            assert(self.frame_words(colors) =~= self.leds_words(colors).push(0u32));
        }
    }

    proof fn leds_first(self, colors: Seq<[u8; 3]>)
        requires
            colors.len() > 0,
        ensures
            self.leds_words(colors) == self.led_words(colors[0]) + self.leds_words(colors.drop_first()),
        decreases colors.len(),
    {
        if colors.len() == 1 {
            let empty = Seq::<[u8; 3]>::empty();
            assert(colors.drop_last() =~= empty);
            assert(colors.drop_first() =~= empty);
            assert(self.leds_words(empty) == Seq::<u32>::empty());
            assert(colors.last() == colors[0]);
            assert(self.leds_words(colors) =~= self.led_words(colors[0]) + self.leds_words(empty));
        } else {
            self.leds_first(colors.drop_last());
            assert(colors.drop_last().drop_first() =~= colors.drop_first().drop_last());
            assert(colors.drop_first().last() == colors.last());
            assert(self.leds_words(colors) =~= self.led_words(colors[0]) + self.leds_words(colors.drop_first()));
        }
    }
}

} // verus!
