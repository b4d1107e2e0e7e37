use crate::history::{pushed, seq_mean, SampleHistory};
use settings_schema::Switch;
use vstd::prelude::*;

verus! {

/// Declares settings_schema's `Switch`, a setting that is either enabled
/// with a value or disabled, with its two variants visible.
#[verifier::external_type_specification]
#[verifier::reject_recursive_types(T)]
pub struct ExSwitch<T>(Switch<T>);

/// The cap on a recorded network latency, in nanoseconds (500 ms). It also
/// stands for a latency that was reported as zero, that is unknown.
pub const LATENCY_CAP_NS: u64 = 500_000_000;

/// Below this bitrate plus the down step, an on-budget frame raises the
/// bitrate by the same amount instead of lowering it.
pub const LOW_BITRATE_RESCUE_MBS: u64 = 5;

/// A latency target that follows the measured frame interval.
#[derive(Clone, Copy, Debug, PartialEq, Eq)]
pub struct FrameTimeTarget {
    /// Added to the mean frame interval, in microseconds.
    pub latency_target_offset: i64,
    /// Upper bound of the target, in microseconds.
    pub latency_target_maximum: u64,
}

/// Parameters of the adaptive control law.
#[derive(Clone, Copy, Debug)]
pub struct AdaptiveBitrateConfig {
    /// When set, the latency target follows the frame interval.
    pub latency_use_frametime: Switch<FrameTimeTarget>,
    /// Static latency target, in microseconds.
    pub latency_target: u64,
    /// Tolerance around the target, in microseconds.
    pub latency_threshold: u64,
    /// Step down, in Mbps.
    pub bitrate_down_rate: u64,
    /// Step up, in Mbps.
    pub bitrate_up_rate: u64,
    /// Upper bound of the bitrate, in Mbps.
    pub bitrate_maximum: u64,
}

/// A snapshot of the settings that the controller reads on each call.
#[derive(Clone, Copy, Debug)]
pub struct BitrateConfig {
    /// Static bitrate, in Mbps: the starting point, and the answer while
    /// adaptation is off.
    pub encode_bitrate_mbs: u64,
    /// Capacity of each sample history.
    pub statistics_history_size: usize,
    /// The adaptive control law, when enabled.
    pub adaptive_bitrate: Switch<AdaptiveBitrateConfig>,
}

impl BitrateConfig {
    pub open spec fn wf(&self) -> bool {
        self.statistics_history_size >= 1
    }
}

/// What a recorded latency becomes: zero and anything above the cap are
/// recorded as the cap.
pub open spec fn clamp_latency(latency_ns: u64) -> u64 {
    if latency_ns > LATENCY_CAP_NS || latency_ns == 0 {
        LATENCY_CAP_NS
    } else {
        latency_ns
    }
}

/// Time from `previous_ns` to `now_ns`, zero when the clock did not advance.
pub open spec fn interval_between(previous_ns: u64, now_ns: u64) -> u64 {
    if now_ns >= previous_ns {
        (now_ns - previous_ns) as u64
    } else {
        0
    }
}

/// Latency target in microseconds, given the mean frame interval in
/// nanoseconds.
pub open spec fn latency_target_us(config: AdaptiveBitrateConfig, mean_interval_ns: u64) -> u64 {
    match config.latency_use_frametime {
        Switch::Enabled(ft) => {
            let t = (mean_interval_ns / 1000).wrapping_add_signed(ft.latency_target_offset);
            if t <= ft.latency_target_maximum {
                t
            } else {
                ft.latency_target_maximum
            }
        },
        Switch::Disabled => config.latency_target,
    }
}

/// One step of the control law on the bitrate `bitrate`, given the latency
/// target (microseconds), the mean latency (nanoseconds), and whether recent
/// throughput shows headroom over the current bitrate. Sums and differences
/// of settings wrap around as unsigned 64-bit integers.
pub open spec fn next_bitrate(
    bitrate: u64,
    config: AdaptiveBitrateConfig,
    target_us: u64,
    mean_latency_ns: u64,
    headroom: bool,
) -> u64 {
    let latency_us = mean_latency_ns / 1000;
    if mean_latency_ns == 0 {
        bitrate
    } else if latency_us <= target_us.wrapping_add(config.latency_threshold) {
        if bitrate <= LOW_BITRATE_RESCUE_MBS.wrapping_add(config.bitrate_down_rate) {
            bitrate.wrapping_add(LOW_BITRATE_RESCUE_MBS)
        } else {
            bitrate.wrapping_sub(config.bitrate_down_rate)
        }
    } else if latency_us < target_us.wrapping_sub(config.latency_threshold) {
        if bitrate >= config.bitrate_maximum.wrapping_sub(config.bitrate_up_rate) {
            config.bitrate_maximum
        } else if headroom {
            bitrate.wrapping_add(config.bitrate_up_rate)
        } else {
            bitrate
        }
    } else {
        bitrate
    }
}

/// The controller's state as mathematical values.
pub struct BitrateState {
    pub bitrate: u64,
    /// Bits per packet, oldest first.
    pub bits: Seq<u64>,
    /// Network latencies in nanoseconds, oldest first.
    pub latencies: Seq<u64>,
    /// Frame intervals in nanoseconds, oldest first.
    pub intervals: Seq<u64>,
    /// Clock reading of the last latency report, in nanoseconds.
    pub previous_frame_ns: u64,
}

/// The bitrate that the controller holds after a query in state `s`.
pub open spec fn queried_bitrate(s: BitrateState, config: BitrateConfig, headroom: bool) -> u64 {
    match config.adaptive_bitrate {
        Switch::Enabled(a) => next_bitrate(
            s.bitrate,
            a,
            latency_target_us(a, seq_mean(s.intervals) as u64),
            seq_mean(s.latencies) as u64,
            headroom,
        ),
        Switch::Disabled => s.bitrate,
    }
}

/// The answer of a query in state `s`.
pub open spec fn query_answer(s: BitrateState, config: BitrateConfig, headroom: bool) -> u64 {
    match config.adaptive_bitrate {
        Switch::Enabled(_) => queried_bitrate(s, config, headroom),
        Switch::Disabled => config.encode_bitrate_mbs,
    }
}

/// The state after a query in state `s`: only the bitrate may change.
pub open spec fn after_query(s: BitrateState, config: BitrateConfig, headroom: bool) -> BitrateState {
    BitrateState { bitrate: queried_bitrate(s, config, headroom), ..s }
}

/// Adaptive bitrate controller of one streaming session.
pub struct VideoBitrateManager {
    bitrate_mbs: u64,
    bit_count_history: SampleHistory,
    network_latency_history: SampleHistory,
    frame_interval_history: SampleHistory,
    previous_frame_time_ns: u64,
}

impl View for VideoBitrateManager {
    type V = BitrateState;

    closed spec fn view(&self) -> BitrateState {
        BitrateState {
            bitrate: self.bitrate_mbs,
            bits: self.bit_count_history@,
            latencies: self.network_latency_history@,
            intervals: self.frame_interval_history@,
            previous_frame_ns: self.previous_frame_time_ns,
        }
    }
}

impl VideoBitrateManager {
    /// Every history holds at least one sample.
    pub open spec fn wf(&self) -> bool {
        &&& self@.bits.len() >= 1
        &&& self@.latencies.len() >= 1
        &&& self@.intervals.len() >= 1
    }

    /// A controller at the start of a session, with the clock reading `now_ns`.
    pub fn new(config: &BitrateConfig, now_ns: u64) -> (r: VideoBitrateManager)
        ensures
            r.wf(),
            r@ == (BitrateState {
                bitrate: config.encode_bitrate_mbs,
                bits: seq![0u64],
                latencies: seq![0u64],
                intervals: seq![0u64],
                previous_frame_ns: now_ns,
            }),
    {
        VideoBitrateManager {
            bitrate_mbs: config.encode_bitrate_mbs,
            bit_count_history: SampleHistory::seeded(0),
            network_latency_history: SampleHistory::seeded(0),
            frame_interval_history: SampleHistory::seeded(0),
            previous_frame_time_ns: now_ns,
        }
    }

    /// The bitrate to encode the next frame with, in Mbps. With adaptation
    /// on, one step of the control law is applied to the held bitrate first;
    /// `headroom` says whether the mean bits per packet, in megabits, exceed
    /// the held bitrate times the light-load threshold times the preferred
    /// frame rate, over the mean latency in seconds. The histories are left
    /// as they are.
    pub fn bitrate_mbs(&mut self, config: &BitrateConfig, headroom: bool) -> (r: u64)
        requires
            old(self).wf(),
        ensures
            final(self).wf(),
            final(self)@ == after_query(old(self)@, *config, headroom),
            r == query_answer(old(self)@, *config, headroom),
    {
        match &config.adaptive_bitrate {
            Switch::Enabled(adaptive) => {
                let target_us = match &adaptive.latency_use_frametime {
                    Switch::Enabled(ft) => {
                        let interval_us = self.frame_interval_history.mean() / 1000;
                        let t = interval_us.wrapping_add_signed(ft.latency_target_offset);
                        if t <= ft.latency_target_maximum {
                            t
                        } else {
                            ft.latency_target_maximum
                        }
                    },
                    Switch::Disabled => adaptive.latency_target,
                };
                let mean_latency_ns = self.network_latency_history.mean();
                let latency_us = mean_latency_ns / 1000;
                if mean_latency_ns != 0 {
                    if latency_us <= target_us.wrapping_add(adaptive.latency_threshold) {
                        if self.bitrate_mbs <= LOW_BITRATE_RESCUE_MBS.wrapping_add(
                            adaptive.bitrate_down_rate,
                        ) {
                            self.bitrate_mbs = self.bitrate_mbs.wrapping_add(LOW_BITRATE_RESCUE_MBS);
                        } else {
                            self.bitrate_mbs = self.bitrate_mbs.wrapping_sub(
                                adaptive.bitrate_down_rate,
                            );
                        }
                    } else if latency_us < target_us.wrapping_sub(adaptive.latency_threshold) {
                        if self.bitrate_mbs >= adaptive.bitrate_maximum.wrapping_sub(
                            adaptive.bitrate_up_rate,
                        ) {
                            self.bitrate_mbs = adaptive.bitrate_maximum;
                        } else if headroom {
                            self.bitrate_mbs = self.bitrate_mbs.wrapping_add(
                                adaptive.bitrate_up_rate,
                            );
                        }
                    }
                }
                self.bitrate_mbs
            },
            Switch::Disabled => config.encode_bitrate_mbs,
        }
    }

    /// Records one video packet of `byte_count` bytes, as bits.
    pub fn report_packet_bytes(&mut self, config: &BitrateConfig, byte_count: u64)
        requires
            old(self).wf(),
            config.wf(),
            byte_count <= u64::MAX / 8,
        ensures
            final(self).wf(),
            final(self)@ == (BitrateState {
                bits: pushed(
                    old(self)@.bits,
                    (byte_count * 8) as u64,
                    config.statistics_history_size as nat,
                ),
                ..old(self)@
            }),
    {
        self.bit_count_history.push(byte_count * 8, config.statistics_history_size);
    }

    /// Records the network latency of one frame, `latency_ns`, clamped, and
    /// the time since the previous report as a frame interval; `now_ns` is
    /// the clock reading at this report. Call once per frame, in frame order.
    pub fn report_network_latency(&mut self, config: &BitrateConfig, latency_ns: u64, now_ns: u64)
        requires
            old(self).wf(),
            config.wf(),
        ensures
            final(self).wf(),
            final(self)@ == (BitrateState {
                latencies: pushed(
                    old(self)@.latencies,
                    clamp_latency(latency_ns),
                    config.statistics_history_size as nat,
                ),
                intervals: pushed(
                    old(self)@.intervals,
                    interval_between(old(self)@.previous_frame_ns, now_ns),
                    config.statistics_history_size as nat,
                ),
                previous_frame_ns: now_ns,
                ..old(self)@
            }),
    {
        let latency = if latency_ns > LATENCY_CAP_NS || latency_ns == 0 {
            LATENCY_CAP_NS
        } else {
            latency_ns
        };
        self.network_latency_history.push(latency, config.statistics_history_size);
        let interval = if now_ns >= self.previous_frame_time_ns {
            now_ns - self.previous_frame_time_ns
        } else {
            0
        };
        self.frame_interval_history.push(interval, config.statistics_history_size);
        self.previous_frame_time_ns = now_ns;
    }

    /// The bitrate held by the controller, in Mbps.
    pub fn current_bitrate_mbs(&self) -> (r: u64)
        ensures
            r == self@.bitrate,
    {
        self.bitrate_mbs
    }

    /// Mean bits per recent packet, rounded down.
    pub fn average_past_bits(&self) -> (r: u64)
        requires
            self.wf(),
        ensures
            r == seq_mean(self@.bits),
    {
        self.bit_count_history.mean()
    }

    /// Mean recent network latency in nanoseconds, rounded down.
    pub fn average_latency_ns(&self) -> (r: u64)
        requires
            self.wf(),
        ensures
            r == seq_mean(self@.latencies),
    {
        self.network_latency_history.mean()
    }

    /// Mean recent frame interval in nanoseconds, rounded down.
    pub fn average_frame_interval_ns(&self) -> (r: u64)
        requires
            self.wf(),
        ensures
            r == seq_mean(self@.intervals),
    {
        self.frame_interval_history.mean()
    }
}

/// A query never changes the sample histories or the clock reading; and
/// where adaptation is off, or the control law leaves the bitrate where it
/// was, asking again without new reports gives the same answer.
pub proof fn lemma_query_repeats(s: BitrateState, config: BitrateConfig, headroom: bool)
    requires
        config.adaptive_bitrate is Disabled || queried_bitrate(s, config, headroom) == s.bitrate,
    ensures
        after_query(s, config, headroom).bits == s.bits,
        after_query(s, config, headroom).latencies == s.latencies,
        after_query(s, config, headroom).intervals == s.intervals,
        after_query(s, config, headroom).previous_frame_ns == s.previous_frame_ns,
        query_answer(after_query(s, config, headroom), config, headroom) == query_answer(
            s,
            config,
            headroom,
        ),
{
    assert(after_query(s, config, headroom) == s);
}


} // verus!
