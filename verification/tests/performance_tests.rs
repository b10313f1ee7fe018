use objviewer::performance::PerformanceMonitor;

#[test]
fn new_monitor_starts_at_zero() {
    let m = PerformanceMonitor::new(42);
    assert_eq!(m.last_update_micros, 42);
    assert_eq!(m.last_frame_micros, 42);
    assert_eq!(m.frame_count, 0);
    assert_eq!(m.fps_milli, 0);
    assert_eq!(m.frame_time_micros, 0);
    assert_eq!(m.gpu_memory_used, None);
}

#[test]
fn refresh_cadence_is_half_a_second() {
    let m = PerformanceMonitor::new(1_000_000);
    assert!(!m.should_refresh(1_000_000));
    assert!(!m.should_refresh(1_499_999));
    assert!(m.should_refresh(1_500_000));
    assert!(m.should_refresh(9_000_000));
}

#[test]
fn memory_share_is_exact_milli_percent() {
    let mut m = PerformanceMonitor::new(0);
    m.apply_sample(600_000, 12_345, 512, 1024);
    assert_eq!(m.cpu_milli_percent, 12_345);
    assert_eq!(m.memory_milli_percent, 50_000);
    assert_eq!(m.memory_used_bytes, 512);
    assert_eq!(m.memory_total_bytes, 1024);
    assert_eq!(m.last_update_micros, 600_000);
    // an unknown total reads as zero percent
    m.apply_sample(700_000, 0, 0, 0);
    assert_eq!(m.memory_milli_percent, 0);
}

#[test]
fn fps_smoothing_is_nine_to_one() {
    let mut m = PerformanceMonitor::new(0);
    // one frame of 16667 microseconds: the instantaneous rate is
    // 59998 milli-fps, smoothed in at one tenth
    m.record_frame(16_667);
    assert_eq!(m.frame_time_micros, 16_667);
    assert_eq!(m.frame_count, 1);
    assert_eq!(m.fps_milli, 5_999);
    // a second identical frame
    m.record_frame(33_334);
    assert_eq!(m.fps_milli, (5_999 * 9 + 59_998) / 10);
    assert_eq!(m.fps_milli, 11_398);
    assert_eq!(m.frame_count, 2);
}

#[test]
fn zero_length_frame_keeps_rate() {
    let mut m = PerformanceMonitor::new(0);
    m.record_frame(16_667);
    let rate = m.fps_milli;
    m.record_frame(16_667);
    assert_eq!(m.fps_milli, rate);
    assert_eq!(m.frame_time_micros, 0);
    assert_eq!(m.frame_count, 2);
}

#[test]
fn stats_snapshot_converts_to_megabytes() {
    let mut m = PerformanceMonitor::new(0);
    m.apply_sample(0, 7, 3 * 1024 * 1024 + 5, 8 * 1024 * 1024);
    m.record_frame(10_000);
    let s = m.get_stats();
    assert_eq!(s.cpu_milli_percent, 7);
    assert_eq!(s.memory_used_mb, 3);
    assert_eq!(s.memory_total_mb, 8);
    assert_eq!(s.frame_time_micros, 10_000);
    assert_eq!(s.frame_count, 1);
    assert_eq!(s.fps_milli, m.fps_milli);
}

#[test]
fn gpu_memory_is_recorded() {
    let mut m = PerformanceMonitor::new(0);
    m.set_gpu_memory(1_000, 4_000);
    assert_eq!(m.gpu_memory_used, Some(1_000));
    assert_eq!(m.gpu_memory_total, Some(4_000));
}
