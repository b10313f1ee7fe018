//! Performance accounting for the stats overlay.
//!
//! The monitor keeps the frame counter, the last frame time and an
//! exponentially smoothed frame rate, and holds the most recent
//! CPU/memory sample. Time arrives as microseconds on a monotonic
//! clock and percentages leave as thousandths of a percent, so every
//! update rule is exact integer arithmetic; the sampling itself (clock
//! and system counters) belongs to the unverified shell, which feeds
//! the readings in.

use vstd::prelude::*;

verus! {

/// How often the system counters are refreshed, in microseconds.
pub const SAMPLE_INTERVAL_MICROS: u64 = 500_000;

/// Upper bound the smoothing keeps on the stored frame rate: one frame
/// per microsecond, in milli-frames per second.
pub const MAX_FPS_MILLI: u64 = 1_000_000_000;

/// Live performance state.
#[derive(Clone, Copy, Debug, PartialEq, Eq, Structural)]
pub struct PerformanceMonitor {
    pub last_update_micros: u64,
    pub last_frame_micros: u64,
    pub frame_time_micros: u64,
    pub frame_count: u64,
    pub fps_milli: u64,
    pub cpu_milli_percent: u64,
    pub memory_milli_percent: u64,
    pub memory_used_bytes: u64,
    pub memory_total_bytes: u64,
    pub gpu_memory_used: Option<u64>,
    pub gpu_memory_total: Option<u64>,
}

/// A read-only snapshot for the overlay.
#[derive(Clone, Copy, Debug, PartialEq, Eq, Structural)]
pub struct PerformanceStats {
    pub cpu_milli_percent: u64,
    pub memory_milli_percent: u64,
    pub memory_used_mb: u64,
    pub memory_total_mb: u64,
    pub fps_milli: u64,
    pub frame_time_micros: u64,
    pub frame_count: u64,
}

/// A monitor that has just started at this instant.
pub open spec fn initial_monitor(now_micros: u64) -> PerformanceMonitor {
    PerformanceMonitor {
        last_update_micros: now_micros,
        last_frame_micros: now_micros,
        frame_time_micros: 0,
        frame_count: 0,
        fps_milli: 0,
        cpu_milli_percent: 0,
        memory_milli_percent: 0,
        memory_used_bytes: 0,
        memory_total_bytes: 0,
        gpu_memory_used: None,
        gpu_memory_total: None,
    }
}

/// Internal invariant: the smoothed rate never escapes its cap.
pub open spec fn monitor_wf(m: PerformanceMonitor) -> bool {
    m.fps_milli <= MAX_FPS_MILLI
}

/// One smoothing step: nine parts old rate, one part the rate of the
/// frame just finished (`MAX_FPS_MILLI / frame_time` milli-fps); a
/// zero-length frame leaves the rate alone.
pub open spec fn fps_next_spec(fps_milli: int, frame_time_micros: int) -> int {
    if frame_time_micros > 0 {
        (fps_milli * 9 + (MAX_FPS_MILLI as int) / frame_time_micros) / 10
    } else {
        fps_milli
    }
}

/// Share of `used` in `total`, in thousandths of a percent; zero when
/// nothing is known about the total.
pub open spec fn milli_percent_spec(used: int, total: int) -> int {
    if total > 0 {
        used * 100_000 / total
    } else {
        0
    }
}

/// The snapshot a monitor yields.
pub open spec fn stats_spec(m: PerformanceMonitor) -> PerformanceStats {
    PerformanceStats {
        cpu_milli_percent: m.cpu_milli_percent,
        memory_milli_percent: m.memory_milli_percent,
        memory_used_mb: (m.memory_used_bytes / 1024 / 1024) as u64,
        memory_total_mb: (m.memory_total_bytes / 1024 / 1024) as u64,
        fps_milli: m.fps_milli,
        frame_time_micros: m.frame_time_micros,
        frame_count: m.frame_count,
    }
}

impl PerformanceMonitor {
    /// A monitor started at the given instant.
    pub fn new(now_micros: u64) -> (m: PerformanceMonitor)
        ensures
            m == initial_monitor(now_micros),
            monitor_wf(m),
    {
        PerformanceMonitor {
            last_update_micros: now_micros,
            last_frame_micros: now_micros,
            frame_time_micros: 0,
            frame_count: 0,
            fps_milli: 0,
            cpu_milli_percent: 0,
            memory_milli_percent: 0,
            memory_used_bytes: 0,
            memory_total_bytes: 0,
            gpu_memory_used: None,
            gpu_memory_total: None,
        }
    }

    /// Is the last system sample old enough to refresh?
    pub fn should_refresh(&self, now_micros: u64) -> (r: bool)
        requires
            now_micros >= self.last_update_micros,
        ensures
            r == (now_micros - self.last_update_micros >= SAMPLE_INTERVAL_MICROS),
    {
        now_micros - self.last_update_micros >= SAMPLE_INTERVAL_MICROS
    }

    /// Store a fresh CPU/memory sample and remember when it was taken.
    pub fn apply_sample(&mut self, now_micros: u64, cpu_milli_percent: u64,
        used_bytes: u64, total_bytes: u64)
        requires
            used_bytes <= total_bytes,
        ensures
            *final(self) == (PerformanceMonitor {
                last_update_micros: now_micros,
                cpu_milli_percent,
                memory_milli_percent:
                    milli_percent_spec(used_bytes as int, total_bytes as int) as u64,
                memory_used_bytes: used_bytes,
                memory_total_bytes: total_bytes,
                ..*old(self)
            }),
            final(self).memory_milli_percent <= 100_000,
    {
        self.last_update_micros = now_micros;
        self.cpu_milli_percent = cpu_milli_percent;
        self.memory_used_bytes = used_bytes;
        self.memory_total_bytes = total_bytes;
        if total_bytes > 0 {
            proof {
                crate::fixed::lemma_div_trunc_bound(
                    used_bytes as int * 100_000, total_bytes as int, 100_000);
                assert(used_bytes as int * 100_000 <= 100_000 * (total_bytes as int))
                    by (nonlinear_arith)
                    requires
                        used_bytes as int <= total_bytes as int,
                ;
            }
            let ratio = ((used_bytes as u128) * 100_000u128) / (total_bytes as u128);
            self.memory_milli_percent = ratio as u64;
        } else {
            self.memory_milli_percent = 0;
        }
    }

    /// Account one presented frame: frame time, frame count, smoothed
    /// rate.
    pub fn record_frame(&mut self, now_micros: u64)
        requires
            now_micros >= old(self).last_frame_micros,
            old(self).frame_count < u64::MAX,
            monitor_wf(*old(self)),
        ensures
            *final(self) == (PerformanceMonitor {
                last_frame_micros: now_micros,
                frame_time_micros: (now_micros - old(self).last_frame_micros) as u64,
                frame_count: (old(self).frame_count + 1) as u64,
                fps_milli: fps_next_spec(
                    old(self).fps_milli as int,
                    now_micros - old(self).last_frame_micros,
                ) as u64,
                ..*old(self)
            }),
            monitor_wf(*final(self)),
    {
        let frame_time = now_micros - self.last_frame_micros;
        self.frame_time_micros = frame_time;
        self.frame_count = self.frame_count + 1;
        if frame_time > 0 {
            let current = MAX_FPS_MILLI / frame_time;
            self.fps_milli = (self.fps_milli * 9 + current) / 10;
        }
        self.last_frame_micros = now_micros;
    }

    /// The overlay's snapshot.
    pub fn get_stats(&self) -> (r: PerformanceStats)
        ensures
            r == stats_spec(*self),
    {
        PerformanceStats {
            cpu_milli_percent: self.cpu_milli_percent,
            memory_milli_percent: self.memory_milli_percent,
            memory_used_mb: self.memory_used_bytes / 1024 / 1024,
            memory_total_mb: self.memory_total_bytes / 1024 / 1024,
            fps_milli: self.fps_milli,
            frame_time_micros: self.frame_time_micros,
            frame_count: self.frame_count,
        }
    }

    /// Record what the graphics device reports about its memory.
    pub fn set_gpu_memory(&mut self, used: u64, total: u64)
        ensures
            *final(self) == (PerformanceMonitor {
                gpu_memory_used: Some(used),
                gpu_memory_total: Some(total),
                ..*old(self)
            }),
    {
        self.gpu_memory_used = Some(used);
        self.gpu_memory_total = Some(total);
    }
}

} // verus!
