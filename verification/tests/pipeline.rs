use shadertui::file_watcher::FileWatcher;
use shadertui::multi_file_watcher::MultiFileWatcher;
use shadertui::threading::{
    coordinator_should_exit, DualPerformanceTracker, FrameData, PerformanceTracker,
    SharedFrameBuffer, SharedUniforms, ThreadError,
};

fn frame(tag: u32) -> FrameData {
    FrameData { gpu_data: vec![tag, tag + 1], width: 2 }
}

#[test]
fn relay_read_yields_latest_write_and_counts_drops() {
    let mut relay = SharedFrameBuffer::new();
    assert_eq!(relay.get_frames_dropped(), 0);
    relay.write_frame(frame(1));
    relay.write_frame(frame(2));
    relay.write_frame(frame(3));
    let got = relay.read_frame().unwrap();
    assert_eq!(got.gpu_data, vec![3, 4]);
    assert_eq!(relay.get_frames_dropped(), 2);
}

#[test]
fn relay_rereads_same_frame_without_new_write() {
    let mut relay = SharedFrameBuffer::new();
    assert!(relay.read_frame().is_none());
    relay.write_frame(frame(7));
    let first = relay.read_frame().unwrap();
    let second = relay.read_frame().unwrap();
    assert_eq!(first.gpu_data, second.gpu_data);
    assert_eq!(relay.get_frames_dropped(), 0);
}

#[test]
fn relay_never_yields_an_overwritten_frame() {
    let mut relay = SharedFrameBuffer::new();
    relay.write_frame(frame(1));
    let _ = relay.read_frame();
    relay.write_frame(frame(2));
    relay.write_frame(frame(3));
    let got = relay.read_frame().unwrap();
    assert_eq!(got.gpu_data, vec![3, 4]);
    assert_eq!(relay.get_frames_dropped(), 1);
}

#[test]
fn reload_consumed_once_last_write_wins() {
    let mut control = SharedUniforms::new();
    control.request_shader_reload("first".to_string());
    control.request_shader_reload("second".to_string());
    assert_eq!(control.consume_shader_reload(), Some("second".to_string()));
    assert_eq!(control.consume_shader_reload(), None);
}

#[test]
fn cursor_and_pause_commands() {
    let mut control = SharedUniforms::new();
    control.move_cursor(3, -2);
    control.move_cursor(1, 1);
    assert_eq!(control.cursor, [4, -1]);
    assert_eq!(control.effective_time(500), 500);
    control.toggle_pause(450);
    assert!(control.time_paused);
    assert_eq!(control.effective_time(500), 450);
    control.toggle_pause(700);
    assert!(!control.time_paused);
    assert_eq!(control.effective_time(800), 800);
}

#[test]
fn rate_is_zero_until_two_samples() {
    let mut tracker = PerformanceTracker::new(0);
    assert_eq!(tracker.get_fps(), 0);
    tracker.record_frame(300);
    assert_eq!(tracker.get_fps(), 0);
}

#[test]
fn rate_converges_to_reciprocal_of_period() {
    let mut tracker = PerformanceTracker::new(0);
    // Samples every 100 ms; the recompute interval is 250 ms.
    tracker.record_frame(100);
    tracker.record_frame(200);
    tracker.record_frame(300);
    // At 300 ms a recomputation has happened over [100, 200, 300]:
    // (3 - 1) / 0.2 s = 10 frames per second.
    assert_eq!(tracker.get_fps(), 10_000);
    tracker.record_frame(400);
    tracker.record_frame(500);
    tracker.record_frame(600);
    assert_eq!(tracker.get_fps(), 10_000);
}

#[test]
fn dual_tracker_keeps_stages_apart() {
    let mut dual = DualPerformanceTracker::new(0);
    dual.record_gpu_frame(100);
    dual.record_gpu_frame(200);
    dual.record_gpu_frame(300);
    assert_eq!(dual.get_gpu_fps(), 10_000);
    assert_eq!(dual.get_terminal_fps(), 0);
    dual.record_terminal_frame(400);
    assert_eq!(dual.get_terminal_fps(), 0);
}

#[test]
fn debounce_collapses_raw_events_within_window() {
    let mut watcher = FileWatcher::new(0);
    assert!(watcher.check_for_changes(true, 200));
    // 10 ms after a surfaced change: suppressed.
    assert!(!watcher.check_for_changes(true, 210));
    // 150 ms after the surfaced change: surfaced again.
    assert!(watcher.check_for_changes(true, 350));
    // No raw event: nothing surfaced, however long it has been.
    assert!(!watcher.check_for_changes(false, 1000));
}

#[test]
fn multi_watcher_debounce_and_reconcile() {
    let mut watcher = MultiFileWatcher::new("/p/main.wgsl".to_string(), 0);
    assert_eq!(watcher.watched_files, vec!["/p/main.wgsl".to_string()]);

    let closure = vec!["/p/main.wgsl".to_string(), "/p/a.wgsl".to_string()];
    let delta = watcher.update_watched_files(&closure);
    assert_eq!(delta.to_add, vec!["/p/a.wgsl".to_string()]);
    assert!(delta.to_remove.is_empty());
    assert_eq!(
        watcher.watched_files,
        vec!["/p/main.wgsl".to_string(), "/p/a.wgsl".to_string()]
    );

    // The entry file is always kept, even when the closure drops it.
    let closure = vec!["/p/b.wgsl".to_string()];
    let delta = watcher.update_watched_files(&closure);
    assert_eq!(delta.to_add, vec!["/p/b.wgsl".to_string()]);
    assert_eq!(delta.to_remove, vec!["/p/a.wgsl".to_string()]);
    assert_eq!(
        watcher.watched_files,
        vec!["/p/main.wgsl".to_string(), "/p/b.wgsl".to_string()]
    );

    assert_eq!(
        watcher.check_for_changes(Some("/p/b.wgsl".to_string()), 200),
        Some("/p/b.wgsl".to_string())
    );
    assert_eq!(watcher.check_for_changes(Some("/p/b.wgsl".to_string()), 210), None);
    assert_eq!(
        watcher.check_for_changes(Some("/p/b.wgsl".to_string()), 360),
        Some("/p/b.wgsl".to_string())
    );
}

#[test]
fn only_shutdown_ends_the_coordinator() {
    assert!(coordinator_should_exit(&ThreadError::Shutdown));
    assert!(!coordinator_should_exit(&ThreadError::ShaderReloadSuccess));
    assert!(!coordinator_should_exit(&ThreadError::ShaderCompilationError(
        "bad".to_string()
    )));
    assert!(!coordinator_should_exit(&ThreadError::GpuError("lost".to_string())));
}
