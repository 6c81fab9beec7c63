use shadertui::cli::Cli;
use shadertui::screen::{get_centered_window_position, get_window_size};
use shadertui::terminal_buffer::{Cell, DoubleBuffer};
use shadertui::terminal_render::{cell_content, update_buffer_from_gpu_data};
use shadertui::terminal_renderer::{format_performance_overlay, TerminalRenderer};
use shadertui::threading::ThreadError;

#[test]
fn cell_starts_blank_and_tracks_space() {
    let mut cell = Cell::new();
    assert_eq!(cell.content, " ");
    assert!(cell.is_empty);
    cell.set_content("x".to_string());
    assert_eq!(cell.content, "x");
    assert!(!cell.is_empty);
    cell.set_content(" ".to_string());
    assert!(cell.is_empty);
}

#[test]
fn swap_reports_only_changed_cells_in_row_major_order() {
    let mut buffer = DoubleBuffer::new(3, 2);
    buffer.set_cell(1, 0, "a".to_string());
    buffer.set_cell(0, 1, "b".to_string());
    // Out-of-range coordinates are ignored.
    buffer.set_cell(9, 9, "zz".to_string());
    let changes = buffer.swap_and_get_changes();
    assert_eq!(
        changes,
        vec![(1, 0, "a".to_string()), (0, 1, "b".to_string())]
    );
    // The prepared grid became the shown grid: preparing the same content
    // again yields no change.
    buffer.set_cell(1, 0, "a".to_string());
    buffer.set_cell(0, 1, "b".to_string());
    let changes = buffer.swap_and_get_changes();
    assert!(changes.is_empty());
}

#[test]
fn clear_next_blanks_the_prepared_grid() {
    let mut buffer = DoubleBuffer::new(2, 1);
    buffer.set_cell(0, 0, "q".to_string());
    buffer.clear_next();
    let changes = buffer.swap_and_get_changes();
    assert!(changes.is_empty());
}

#[test]
fn cell_escape_sequence_shape() {
    let s = cell_content((255, 0, 10), (1, 2, 3));
    assert_eq!(s, "\u{1b}[38;2;255;0;10m\u{1b}[48;2;1;2;3m\u{2580}\u{1b}[0m");
}

#[test]
fn gpu_data_maps_two_pixel_rows_onto_one_cell() {
    let mut buffer = DoubleBuffer::new(1, 1);
    // One column, two pixel rows, four bytes per pixel.
    let data: Vec<u8> = vec![10, 20, 30, 255, 40, 50, 60, 255];
    update_buffer_from_gpu_data(&mut buffer, &data, 1, 2);
    let changes = buffer.swap_and_get_changes();
    assert_eq!(changes.len(), 1);
    let (x, y, content) = changes[0].clone();
    assert_eq!((x, y), (0, 0));
    assert_eq!(content, cell_content((10, 20, 30), (40, 50, 60)));
}

#[test]
fn gpu_data_out_of_range_pixels_are_black() {
    let mut buffer = DoubleBuffer::new(1, 1);
    // Only the top pixel is present; the bottom one falls past the buffer.
    let data: Vec<u8> = vec![10, 20, 30, 255];
    update_buffer_from_gpu_data(&mut buffer, &data, 1, 2);
    let changes = buffer.swap_and_get_changes();
    assert_eq!(changes.len(), 1);
    assert_eq!(changes[0].2, cell_content((10, 20, 30), (0, 0, 0)));
}

#[test]
fn renderer_error_state_machine() {
    let mut renderer = TerminalRenderer::new(4, 2);
    assert!(!renderer.should_redraw_error());

    let shutdown = renderer.apply_thread_error(&ThreadError::ShaderCompilationError(
        "expected ';'".to_string(),
    ));
    assert!(!shutdown);
    assert_eq!(
        renderer.error_state,
        Some("Shader compilation error: expected ';'".to_string())
    );
    assert!(renderer.should_redraw_error());
    renderer.mark_error_displayed();
    assert!(!renderer.should_redraw_error());

    let shutdown = renderer.apply_thread_error(&ThreadError::GpuError("device lost".to_string()));
    assert!(!shutdown);
    assert_eq!(renderer.error_state, Some("GPU error: device lost".to_string()));
    assert!(renderer.should_redraw_error());

    let shutdown = renderer.apply_thread_error(&ThreadError::ShaderReloadSuccess);
    assert!(!shutdown);
    assert_eq!(renderer.error_state, None);
    renderer.clear_displayed_error();
    assert!(!renderer.should_redraw_error());

    assert!(renderer.apply_thread_error(&ThreadError::Shutdown));
}

#[test]
fn renderer_file_change_result() {
    let mut renderer = TerminalRenderer::new(4, 2);
    renderer.set_file_change_result(Some("File read error: gone".to_string()));
    assert_eq!(renderer.error_state, Some("File read error: gone".to_string()));
    renderer.set_file_change_result(None);
    assert_eq!(renderer.error_state, None);
}

#[test]
fn skip_top_row_leaves_the_overlay_line_blank() {
    let mut renderer = TerminalRenderer::new(1, 2);
    // One column, four pixel rows.
    let data: Vec<u8> = vec![
        1, 1, 1, 255, 2, 2, 2, 255, 3, 3, 3, 255, 4, 4, 4, 255,
    ];
    renderer.update_buffer_from_gpu_data_skip_top_row(&data, 1, 4);
    let changes = renderer.terminal_buffer.swap_and_get_changes();
    // Only row 1 changed; row 0 stays blank.
    assert_eq!(changes.len(), 1);
    assert_eq!((changes[0].0, changes[0].1), (0, 1));
    assert_eq!(changes[0].2, cell_content((3, 3, 3), (4, 4, 4)));
}

#[test]
fn performance_overlay_text() {
    assert_eq!(
        format_performance_overlay(59_949, 30_050, 7),
        "GPU: 59.9 | Term: 30.0 | Dropped: 7"
    );
    assert_eq!(
        format_performance_overlay(0, 1_000, 0),
        "GPU: 0.0 | Term: 1.0 | Dropped: 0"
    );
}

#[test]
fn window_geometry() {
    assert_eq!(get_window_size(), (1280, 800));
    assert_eq!(get_centered_window_position(2560, 1440), (640, 320));
    // A monitor smaller than the window clamps to the origin.
    assert_eq!(get_centered_window_position(640, 480), (0, 0));
}

#[test]
fn cli_mode_choice() {
    let cli = Cli {
        shader_file: "shader.wgsl".to_string(),
        perf: true,
        max_fps: Some(30),
        window: false,
    };
    assert!(!cli.is_windowed_mode());
    let cli = Cli { window: true, ..cli };
    assert!(cli.is_windowed_mode());
}
