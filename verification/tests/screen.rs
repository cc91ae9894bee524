use lifegame::cell::Cell;
use lifegame::filter::Block;
use lifegame::matrix::Matrix;
use lifegame::screen;

fn grid_of(states: &[bool], shape: (usize, usize)) -> Matrix<Cell> {
    let cells: Vec<Cell> = states.iter().map(|&b| Cell::from(b)).collect();
    Matrix::from_slice(&cells, shape)
}

#[test]
fn test_render_rows_with_block_filter() {
    let grid = grid_of(&[true, false, false, true], (2, 2));
    let rows = screen::render_rows(&grid, &Block);
    assert_eq!(rows, vec!["██  ", "  ██"]);
}

#[test]
fn test_render_rows_empty_grid() {
    let grid = grid_of(&[], (0, 0));
    let rows = screen::render_rows(&grid, &Block);
    assert!(rows.is_empty());
}

#[test]
fn test_render_measurement_alignment() {
    let line = screen::render_measurement("Generation", "42");
    let expected = format!(
        "\x1b[1mGeneration\x1b[22m{}{}42",
        " ".repeat(10),
        " ".repeat(38)
    );
    assert_eq!(line, expected);
}

#[test]
fn test_exit_message_is_bold_green() {
    assert_eq!(
        screen::exit_message(),
        "\x1b[32m\x1b[1mGAME OVER\x1b[22m\x1b[39m"
    );
}

#[test]
fn test_fmt_hundredths() {
    assert_eq!(screen::fmt_hundredths(0), "0.00");
    assert_eq!(screen::fmt_hundredths(5), "0.05");
    assert_eq!(screen::fmt_hundredths(50), "0.50");
    assert_eq!(screen::fmt_hundredths(12_34), "12.34");
    assert_eq!(screen::fmt_hundredths(100_00), "100.00");
}

#[test]
fn test_density_is_zero_on_empty_grid() {
    assert_eq!(screen::density_pct_hundredths(0, 0), 0);
}

#[test]
fn test_density_pct_hundredths() {
    // Five alive cells out of nine: 55.55 percent, truncated.
    assert_eq!(screen::density_pct_hundredths(5, 9), 55_55);
    assert_eq!(screen::density_pct_hundredths(1, 2), 50_00);
    assert_eq!(screen::density_pct_hundredths(9, 9), 100_00);
}

#[test]
fn test_fps_hundredths() {
    // A sixteen-and-two-thirds millisecond frame is sixty frames a second.
    assert_eq!(screen::fps_hundredths(16_666_667), 59_99);
    assert_eq!(screen::fps_hundredths(1_000_000_000), 1_00);
    assert_eq!(screen::fps_hundredths(0), 0);
}

#[test]
fn test_render_stats_five_labeled_lines() {
    let lines = screen::render_stats(3, 5, 9, 1_000_000_000, 2_000_000_000);
    assert_eq!(lines.len(), 5);
    assert!(lines[0].contains("Generation"));
    assert!(lines[0].ends_with('3'));
    assert!(lines[1].contains("Population"));
    assert!(lines[1].ends_with('5'));
    assert!(lines[2].contains("Density"));
    assert!(lines[2].ends_with("55.55 %"));
    assert!(lines[3].contains("FPS"));
    assert!(lines[3].ends_with("1.00"));
    assert!(lines[4].contains("Runtime"));
    assert!(lines[4].ends_with("2 s 000 ms 000 μs 000 ns"));
}

#[test]
fn test_frame_duration_min_scales_by_power_of_two() {
    // A nominal 60 fps frame is 16 666 666 nanoseconds.
    assert_eq!(screen::frame_duration_min(16_666_666, 0), 16_666_666);
    assert_eq!(screen::frame_duration_min(16_666_666, 1), 8_333_333);
    assert_eq!(screen::frame_duration_min(16_666_666, 10), 16_276);
    assert_eq!(screen::frame_duration_min(16_666_666, -1), 33_333_332);
    assert_eq!(screen::frame_duration_min(16_666_666, -10), 17_066_665_984);
}

#[test]
fn test_quit_interrupts_pacing_wait() {
    // However much frame budget is left, a quit request stops the spin.
    assert!(!screen::keep_spinning(true, 0, 1_000_000));
    assert!(!screen::keep_spinning(true, 999_999, 1_000_000));
    // Without a quit request the wait runs the frame out, and no longer.
    assert!(screen::keep_spinning(false, 999_999, 1_000_000));
    assert!(!screen::keep_spinning(false, 1_000_000, 1_000_000));
}
