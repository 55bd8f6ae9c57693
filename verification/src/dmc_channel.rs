//! The APU delta-modulation channel: plays 1-bit deltas by nudging a
//! 7-bit DAC, refilling its one-byte sample buffer over the CPU bus.
//! The channel itself never touches the bus: it raises a stall flag,
//! and the system fetches the byte and hands it back.

use vstd::prelude::*;

verus! {

/// The NTSC rate table for the DMC timer, indexed by the low 4
/// register bits.
pub open spec fn spec_dmc_rate(i: int) -> u16 {
    if i == 0 {
        0x1AC
    } else if i == 1 {
        0x17C
    } else if i == 2 {
        0x154
    } else if i == 3 {
        0x140
    } else if i == 4 {
        0x11E
    } else if i == 5 {
        0x0FE
    } else if i == 6 {
        0x0E2
    } else if i == 7 {
        0x0D6
    } else if i == 8 {
        0x0BE
    } else if i == 9 {
        0x0A0
    } else if i == 10 {
        0x08E
    } else if i == 11 {
        0x080
    } else if i == 12 {
        0x06A
    } else if i == 13 {
        0x054
    } else if i == 14 {
        0x048
    } else {
        0x036
    }
}

/// The APU delta-modulation channel.
#[derive(Clone, Copy, PartialEq, Eq, Structural, Debug)]
pub struct DMCChannel {
    pub enabled: bool,
    pub even_latch: bool,
    pub timer: u16,
    pub timer_period: u16,
    pub irq_enable: bool,
    pub irq: bool,
    pub loop_flag: bool,
    pub dac_level: u8,
    pub sample_address: u16,
    pub sample_len: u16,
    pub sample_buffer: Option<u8>,
    pub shift: u8,
    pub dma_address: u16,
    pub bytes_remaining: u16,
    pub bits_remaining: u16,
    pub silence: bool,
    /// Set when the channel wants a byte fetched from `dma_address`;
    /// the system answers with `provide_sample` and stalls the CPU.
    pub stall_cpu: bool,
}

/// The DAC after one delta bit: up by 2 on a set bit, down by 2 on a
/// clear one, saturating inside 0..=127.
pub open spec fn spec_dac_step(level: u8, bit_set: bool) -> u8 {
    if bit_set {
        if level <= 125 {
            (level + 2) as u8
        } else {
            level
        }
    } else {
        if level >= 2 {
            (level - 2) as u8
        } else {
            level
        }
    }
}

/// The channel after its timer expires: the DAC moves unless silenced,
/// the shift register advances, and an exhausted bit counter starts
/// the next byte, taking it from the sample buffer or going silent.
/// An emptied buffer with bytes still to play requests a fetch.
pub open spec fn spec_dmc_output_clock(d: DMCChannel) -> DMCChannel {
    let stepped = DMCChannel {
        timer: d.timer_period,
        dac_level: if d.silence {
            d.dac_level
        } else {
            spec_dac_step(d.dac_level, d.shift & 1 == 1)
        },
        shift: d.shift >> 1,
        bits_remaining: (d.bits_remaining - 1) as u16,
        ..d
    };
    if stepped.bits_remaining == 0 {
        match d.sample_buffer {
            Some(b) => DMCChannel {
                bits_remaining: 8,
                silence: false,
                shift: b,
                sample_buffer: None,
                stall_cpu: d.stall_cpu || d.bytes_remaining > 0,
                ..stepped
            },
            None => DMCChannel { bits_remaining: 8, silence: true, ..stepped },
        }
    } else {
        stepped
    }
}

/// The channel after one CPU cycle: on every second one the timer
/// counts down, and its expiry clocks the output unit.
pub open spec fn spec_dmc_tick(d: DMCChannel) -> DMCChannel {
    if !d.even_latch {
        DMCChannel { even_latch: true, ..d }
    } else if d.timer > 0 {
        DMCChannel { even_latch: false, timer: (d.timer - 1) as u16, ..d }
    } else {
        DMCChannel { even_latch: false, ..spec_dmc_output_clock(d) }
    }
}

impl DMCChannel {
    /// A silent channel with an empty buffer.
    pub fn new() -> (r: DMCChannel)
        ensures
            r == (DMCChannel {
                enabled: false,
                even_latch: true,
                timer: 0,
                timer_period: 0,
                irq_enable: false,
                irq: false,
                loop_flag: false,
                dac_level: 0,
                sample_address: 0,
                sample_len: 0,
                sample_buffer: None,
                shift: 0,
                dma_address: 0,
                bytes_remaining: 0,
                bits_remaining: 8,
                silence: true,
                stall_cpu: false,
            }),
    {
        DMCChannel {
            enabled: false,
            even_latch: true,
            timer: 0,
            timer_period: 0,
            irq_enable: false,
            irq: false,
            loop_flag: false,
            dac_level: 0,
            sample_address: 0,
            sample_len: 0,
            sample_buffer: None,
            shift: 0,
            dma_address: 0,
            bytes_remaining: 0,
            bits_remaining: 8,
            silence: true,
            stall_cpu: false,
        }
    }

    /// One CPU cycle: on every second one the timer counts down, and
    /// its expiry clocks the output unit as `spec_dmc_output_clock`
    /// describes.
    pub fn tick(&mut self)
        requires
            old(self).bits_remaining >= 1,
        ensures
            *final(self) == spec_dmc_tick(*old(self)),
            final(self).bits_remaining >= 1,
            old(self).dac_level <= 127 ==> final(self).dac_level <= 127,
            final(self).even_latch == !old(self).even_latch,
            !old(self).even_latch ==> *final(self) == (DMCChannel {
                even_latch: true,
                ..*old(self)
            }),
            old(self).even_latch && old(self).timer > 0 ==> *final(self) == (DMCChannel {
                even_latch: false,
                timer: (old(self).timer - 1) as u16,
                ..*old(self)
            }),
            old(self).even_latch && old(self).timer == 0 ==> *final(self) == (DMCChannel {
                even_latch: false,
                ..spec_dmc_output_clock(*old(self))
            }),
    {
        if self.even_latch {
            if self.timer > 0 {
                self.timer = self.timer - 1;
            } else {
                self.timer = self.timer_period;
                if !self.silence {
                    if self.shift & 1 == 1 {
                        if self.dac_level <= 125 {
                            self.dac_level = self.dac_level + 2;
                        }
                    } else {
                        if self.dac_level >= 2 {
                            self.dac_level = self.dac_level - 2;
                        }
                    }
                }
                self.shift = self.shift >> 1;
                self.bits_remaining = self.bits_remaining - 1;
                if self.bits_remaining == 0 {
                    self.bits_remaining = 8;
                    match self.sample_buffer {
                        Some(b) => {
                            self.silence = false;
                            self.shift = b;
                            self.sample_buffer = None;
                            if self.bytes_remaining > 0 {
                                self.stall_cpu = true;
                            }
                        },
                        None => {
                            self.silence = true;
                        },
                    }
                }
            }
        }
        self.even_latch = !self.even_latch;
    }

    /// Answer a fetch request with the byte read from `dma_address`:
    /// the buffer fills, the address advances (wrapping to 0), and the
    /// byte count falls; its last byte loops the sample or raises the
    /// end-of-sample IRQ.
    pub fn provide_sample(&mut self, data: u8)
        ensures
            old(self).bytes_remaining == 0 || old(self).sample_buffer is Some ==> *final(self)
                == *old(self),
            old(self).bytes_remaining > 1 && old(self).sample_buffer is None ==> *final(self) == (
            DMCChannel {
                sample_buffer: Some(data),
                dma_address: if old(self).dma_address == 0xFFFF {
                    0u16
                } else {
                    (old(self).dma_address + 1) as u16
                },
                bytes_remaining: (old(self).bytes_remaining - 1) as u16,
                ..*old(self)
            }),
            old(self).bytes_remaining == 1 && old(self).sample_buffer is None && old(
                self,
            ).loop_flag ==> *final(self) == (DMCChannel {
                sample_buffer: Some(data),
                dma_address: old(self).sample_address,
                bytes_remaining: old(self).sample_len,
                ..*old(self)
            }),
            old(self).bytes_remaining == 1 && old(self).sample_buffer is None && !old(
                self,
            ).loop_flag ==> *final(self) == (DMCChannel {
                sample_buffer: Some(data),
                dma_address: if old(self).dma_address == 0xFFFF {
                    0u16
                } else {
                    (old(self).dma_address + 1) as u16
                },
                bytes_remaining: 0,
                irq: old(self).irq || old(self).irq_enable,
                ..*old(self)
            }),
    {
        if self.bytes_remaining == 0 || self.sample_buffer.is_some() {
            return ;
        }
        self.sample_buffer = Some(data);
        if self.dma_address == 0xFFFF {
            self.dma_address = 0;
        } else {
            self.dma_address = self.dma_address + 1;
        }
        self.bytes_remaining = self.bytes_remaining - 1;
        if self.bytes_remaining == 0 {
            if self.loop_flag {
                self.dma_address = self.sample_address;
                self.bytes_remaining = self.sample_len;
            } else if self.irq_enable {
                self.irq = true;
            }
        }
    }

    /// Drive the channel-enable bit: disabling clears the byte count;
    /// enabling with nothing left restarts the sample and requests the
    /// first fetch.
    pub fn update_enabled(&mut self, control_bit: u8)
        ensures
            final(self).enabled == (control_bit == 1),
            control_bit == 1 && old(self).bytes_remaining == 0 ==> *final(self) == (DMCChannel {
                enabled: true,
                dma_address: old(self).sample_address,
                bytes_remaining: old(self).sample_len,
                stall_cpu: old(self).stall_cpu || old(self).sample_len > 0,
                ..*old(self)
            }),
            control_bit == 1 && old(self).bytes_remaining > 0 ==> *final(self) == (DMCChannel {
                enabled: true,
                ..*old(self)
            }),
            control_bit != 1 ==> *final(self) == (DMCChannel {
                enabled: false,
                bytes_remaining: 0,
                ..*old(self)
            }),
    {
        self.enabled = control_bit == 1;
        if self.enabled {
            if self.bytes_remaining == 0 {
                self.dma_address = self.sample_address;
                self.bytes_remaining = self.sample_len;
                if self.sample_len > 0 {
                    self.stall_cpu = true;
                }
            }
        } else {
            self.bytes_remaining = 0;
        }
    }

    /// Write one of the channel's registers: flags and rate, direct
    /// DAC load, sample address, or sample length.
    pub fn update_register(&mut self, register_offset: u16, data: u8)
        requires
            register_offset <= 3,
        ensures
            old(self).dac_level <= 127 ==> final(self).dac_level <= 127,
            register_offset == 0 ==> *final(self) == (DMCChannel {
                irq_enable: data >> 7 == 1,
                loop_flag: (data >> 6) & 1 == 1,
                timer_period: spec_dmc_rate((data & 0x0F) as int),
                ..*old(self)
            }),
            register_offset == 1 ==> *final(self) == (DMCChannel {
                dac_level: data & 0x7F,
                ..*old(self)
            }),
            register_offset == 2 ==> *final(self) == (DMCChannel {
                sample_address: (0xC000 + ((data as u16) << 6)) as u16,
                ..*old(self)
            }),
            register_offset == 3 ==> *final(self) == (DMCChannel {
                sample_len: (((data as u16) << 4) + 1) as u16,
                ..*old(self)
            }),
    {
        if register_offset == 0 {
            self.irq_enable = data >> 7 == 1;
            self.loop_flag = (data >> 6) & 1 == 1;
            let i = data & 0x0F;
            proof {
                assert(data & 0x0F < 16) by (bit_vector);
            }
            self.timer_period = if i == 0 {
                0x1AC
            } else if i == 1 {
                0x17C
            } else if i == 2 {
                0x154
            } else if i == 3 {
                0x140
            } else if i == 4 {
                0x11E
            } else if i == 5 {
                0x0FE
            } else if i == 6 {
                0x0E2
            } else if i == 7 {
                0x0D6
            } else if i == 8 {
                0x0BE
            } else if i == 9 {
                0x0A0
            } else if i == 10 {
                0x08E
            } else if i == 11 {
                0x080
            } else if i == 12 {
                0x06A
            } else if i == 13 {
                0x054
            } else if i == 14 {
                0x048
            } else {
                0x036
            };
        } else if register_offset == 1 {
            proof {
                assert(data & 0x7F <= 127) by (bit_vector);
            }
            self.dac_level = data & 0x7F;
        } else if register_offset == 2 {
            proof {
                assert(((data as u16) << 6) <= 0x3FC0) by (bit_vector);
            }
            self.sample_address = 0xC000 + ((data as u16) << 6);
        } else {
            proof {
                assert(((data as u16) << 4) <= 0xFF0) by (bit_vector);
            }
            self.sample_len = ((data as u16) << 4) + 1;
        }
    }

    /// The channel's current sample: the DAC level itself.
    pub fn output(&self) -> (r: u8)
        ensures
            r == self.dac_level,
    {
        self.dac_level
    }
}

} // verus!
