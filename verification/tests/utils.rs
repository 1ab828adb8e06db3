use mltop::color::{cyan_text, gray_text, orange_text, red_text, yellow_text};
use mltop::data::cpu::{CoreSnapshot, CpuSnapshot};
use mltop::text::decimal_text;
use mltop::units::{percent_of, FULL_SCALE, PERCENT};
use mltop::utils::fast_int_sqrt;
use mltop::widgets::cpu::CpuWidget;

#[test]
fn test_fast_int_sqrt() {
    assert_eq!(fast_int_sqrt(4), 2);
    assert_eq!(fast_int_sqrt(5), 2);
    assert_eq!(fast_int_sqrt(32), 5);
}

#[test]
fn fast_int_sqrt_edges() {
    assert_eq!(fast_int_sqrt(0), 0);
    assert_eq!(fast_int_sqrt(1), 1);
    assert_eq!(fast_int_sqrt(3), 1);
    assert_eq!(fast_int_sqrt(99), 9);
    assert_eq!(fast_int_sqrt(100), 10);
    assert_eq!(fast_int_sqrt(usize::MAX), (1usize << (usize::BITS / 2)) - 1);
}

fn cpu_snap(cores: usize) -> CpuSnapshot {
    CpuSnapshot { usage: 0, cores: vec![CoreSnapshot { usage: 0, temp: 0 }; cores] }
}

#[test]
fn test_grid_dimensions() {
    let widget = CpuWidget {};

    let data = cpu_snap(1);
    assert_eq!(widget.grid_dimensions(&data), (1, 1));

    let data = cpu_snap(2);
    assert_eq!(widget.grid_dimensions(&data), (2, 1));

    let data = cpu_snap(3);
    assert_eq!(widget.grid_dimensions(&data), (3, 1));

    let data = cpu_snap(4);
    assert_eq!(widget.grid_dimensions(&data), (2, 2));

    let data = cpu_snap(5);
    assert_eq!(widget.grid_dimensions(&data), (2, 3));

    let data = cpu_snap(12);
    assert_eq!(widget.grid_dimensions(&data), (3, 4));

    let data = cpu_snap(16);
    assert_eq!(widget.grid_dimensions(&data), (4, 4));
}

#[test]
fn grid_dimensions_of_no_cores_and_of_many() {
    let widget = CpuWidget::new();
    assert_eq!(widget.grid_dimensions(&cpu_snap(0)), (0, 1));
    assert_eq!(widget.grid_dimensions(&cpu_snap(32)), (5, 7));
    assert_eq!(widget.grid_dimensions(&cpu_snap(65535)), (255, 257));
}

#[test]
fn percent_of_is_exact() {
    assert_eq!(PERCENT, 1000);
    assert_eq!(FULL_SCALE, 100_000);
    assert_eq!(percent_of(1, 4), 25_000);
    assert_eq!(percent_of(1, 3), 33_333);
    assert_eq!(percent_of(5, 5), 100_000);
    assert_eq!(percent_of(0, 7), 0);
}

#[test]
fn percent_of_nothing_is_zero_and_large_shares_are_capped() {
    assert_eq!(percent_of(12, 0), 0);
    assert_eq!(percent_of(u64::MAX, 1), u32::MAX);
    assert_eq!(percent_of(u64::MAX, u64::MAX), 100_000);
}

#[test]
fn decimal_text_writes_numbers() {
    assert_eq!(decimal_text(0), "0");
    assert_eq!(decimal_text(7), "7");
    assert_eq!(decimal_text(10), "10");
    assert_eq!(decimal_text(4096), "4096");
    assert_eq!(decimal_text(u32::MAX), "4294967295");
}

#[test]
fn coloured_text_is_wrapped_in_escapes() {
    assert_eq!(red_text("a"), "\x1b[31ma\x1b[0m");
    assert_eq!(yellow_text("b"), "\x1b[33mb\x1b[0m");
    assert_eq!(cyan_text("Total"), "\x1b[36mTotal\x1b[0m");
    assert_eq!(orange_text(""), "\x1b[38;5;214m\x1b[0m");
    assert_eq!(gray_text("12%"), "\x1b[90m12%\x1b[0m");
}
