use mltop::data::cpu::{core_id, sensor_core, CoreReading, CoreSnapshot, CpuSnapshot, SensorReading};
use mltop::text::{chars_of, find_run, is_space_char, last_word_range, parse_number};
use mltop::widgets::command_cell::{
    after_last_byte, command_cuts, create_cmd_cell, cut_segments, find_byte, CommandCuts, Segment,
    SLASH, SPACE,
};
use mltop::widgets::cpu::{column_widths, temperature_level, TemperatureLevel};
use mltop::widgets::percentage_bar::{percentage_bar, BarLayout, BarLevel};

fn parse(text: &str) -> Option<usize> {
    let chars = chars_of(text);
    parse_number(&chars, 0, chars.len())
}

#[test]
fn chars_of_a_text() {
    assert_eq!(chars_of(""), Vec::<char>::new());
    assert_eq!(chars_of("a\u{e9}z"), vec!['a', '\u{e9}', 'z']);
}

#[test]
fn parse_number_reads_decimal_numbers() {
    assert_eq!(parse("0"), Some(0));
    assert_eq!(parse("7"), Some(7));
    assert_eq!(parse("0012"), Some(12));
    assert_eq!(parse("+12"), Some(12));
    assert_eq!(parse("18446744073709551615"), "18446744073709551615".parse::<usize>().ok());
    assert_eq!(parse("4294967295"), Some(4294967295));
}

#[test]
fn parse_number_refuses_what_is_no_number() {
    assert_eq!(parse(""), None);
    assert_eq!(parse("+"), None);
    assert_eq!(parse("-1"), None);
    assert_eq!(parse("++1"), None);
    assert_eq!(parse("1+"), None);
    assert_eq!(parse("12a"), None);
    assert_eq!(parse(" 1"), None);
    assert_eq!(parse("1 "), None);
    assert_eq!(parse("\u{661}"), None);
    assert_eq!(parse("18446744073709551616"), "18446744073709551616".parse::<usize>().ok());
    assert_eq!(parse("99999999999999999999999"), None);
}

#[test]
fn parse_number_agrees_with_the_standard_parser() {
    for text in ["", "+", "-", "5", "+5", "-5", "05", "5x", "x5", "1_000", "٣", "1e3", "0x10", "+0"] {
        assert_eq!(parse(text), text.parse::<usize>().ok(), "{:?}", text);
    }
}

#[test]
fn parse_number_of_a_part() {
    let chars = chars_of("cpu12 x");
    assert_eq!(parse_number(&chars, 3, 5), Some(12));
    assert_eq!(parse_number(&chars, 3, 6), None);
    assert_eq!(parse_number(&chars, 4, 4), None);
}

#[test]
fn white_space_is_what_unicode_says() {
    for code in 0..0x3100u32 {
        if let Some(c) = char::from_u32(code) {
            assert_eq!(is_space_char(c), c.is_whitespace(), "{:x}", code);
        }
    }
    assert!(!is_space_char('\u{feff}'));
    assert!(!is_space_char('\u{10ffff}'));
}

fn last_word(text: &str) -> String {
    let chars = chars_of(text);
    let (start, end) = last_word_range(&chars);
    chars[start..end].iter().collect()
}

#[test]
fn last_word_of_a_text() {
    assert_eq!(last_word("coretemp Core 3"), "3");
    assert_eq!(last_word("Core 3  \t"), "3");
    assert_eq!(last_word("Core3"), "Core3");
    assert_eq!(last_word("a\u{a0}b"), "b");
    assert_eq!(last_word(""), "");
    assert_eq!(last_word("   "), "");
    for text in ["x", " x", "x ", "one two  three ", "\n7", "a\u{2003}b\u{3000}"] {
        assert_eq!(last_word(text), text.split_whitespace().last().unwrap_or(""), "{:?}", text);
    }
}

#[test]
fn core_id_is_the_number_behind_the_first_three_bytes() {
    assert_eq!(core_id("cpu0"), Some(0));
    assert_eq!(core_id("cpu12"), Some(12));
    assert_eq!(core_id("CPU 3"), None);
    assert_eq!(core_id("cpu"), None);
    assert_eq!(core_id("cp"), None);
    assert_eq!(core_id(""), None);
    assert_eq!(core_id("cpux"), None);
    assert_eq!(core_id("\u{e9}a5"), Some(5));
    assert_eq!(core_id("a\u{e9}5"), Some(5));
    assert_eq!(core_id("\u{20ac}42"), Some(42));
    assert_eq!(core_id("ab\u{e9}5"), None);
    assert_eq!(core_id("\u{1f600}5"), None);
}

#[test]
fn sensor_core_is_the_number_of_a_core_label() {
    assert_eq!(sensor_core("coretemp Core 0"), Some(0));
    assert_eq!(sensor_core("coretemp Core 11"), Some(11));
    assert_eq!(sensor_core("Core 4 "), Some(4));
    assert_eq!(sensor_core("coretemp Package id 0"), None);
    assert_eq!(sensor_core("core 4"), None);
    assert_eq!(sensor_core("Core temp"), None);
    assert_eq!(sensor_core("Core4"), None);
    assert_eq!(sensor_core("Core"), None);
    assert_eq!(sensor_core("nvme Composite 1"), None);
    assert_eq!(sensor_core(""), None);
}

fn reading_of(name: &str, usage: u32) -> CoreReading {
    CoreReading { name: String::from(name), usage }
}

fn sensor(label: &str, temperature: u32) -> SensorReading {
    SensorReading { label: String::from(label), temperature }
}

#[test]
fn cpu_sample_from_readings() {
    let cores = vec![reading_of("cpu0", 1000), reading_of("cpu1", 2000), reading_of("cpu2", 3000)];
    let sensors = vec![
        sensor("coretemp Package id 0", 70_000),
        sensor("coretemp Core 0", 50_000),
        sensor("coretemp Core 2", 52_000),
        sensor("other Core 0", 61_000),
    ];
    let cpu = CpuSnapshot::from_sysinfo(1500, &cores, &sensors);
    assert_eq!(
        cpu,
        CpuSnapshot {
            usage: 1500,
            cores: vec![
                CoreSnapshot { usage: 1000, temp: 61_000 },
                CoreSnapshot { usage: 2000, temp: 0 },
                CoreSnapshot { usage: 3000, temp: 52_000 },
            ],
        }
    );
    let none = CpuSnapshot::from_sysinfo(0, &vec![], &sensors);
    assert_eq!(none.cores, vec![]);
    let cold = CpuSnapshot::from_sysinfo(9, &cores, &vec![]);
    assert_eq!(cold.cores[2], CoreSnapshot { usage: 3000, temp: 0 });
    assert_eq!(cold.clone(), cold);
}

#[test]
fn bar_layout_is_exact() {
    assert_eq!(
        percentage_bar(20, 50_000, "50.0%"),
        BarLayout { level: BarLevel::Medium, bar_width: 10, empty_width: 5, colored_text_width: 0 }
    );
    assert_eq!(
        percentage_bar(20, 100_000, "100.0%"),
        BarLayout { level: BarLevel::High, bar_width: 14, empty_width: 0, colored_text_width: 6 }
    );
    assert_eq!(
        percentage_bar(20, 90_000, "90.0%"),
        BarLayout {
            level: BarLevel::MediumHigh,
            bar_width: 15,
            empty_width: 0,
            colored_text_width: 3
        }
    );
    assert_eq!(
        percentage_bar(10, 0, ""),
        BarLayout { level: BarLevel::Low, bar_width: 0, empty_width: 10, colored_text_width: 0 }
    );
    assert_eq!(
        percentage_bar(0, 100_000, ""),
        BarLayout { level: BarLevel::High, bar_width: 0, empty_width: 0, colored_text_width: 0 }
    );
    assert_eq!(percentage_bar(3, 50_000, "").bar_width, 2);
    assert_eq!(percentage_bar(3, 49_999, "").bar_width, 1);
}

#[test]
fn bar_levels_change_above_their_thresholds() {
    assert_eq!(percentage_bar(5, 40_000, "").level, BarLevel::Low);
    assert_eq!(percentage_bar(5, 40_001, "").level, BarLevel::Medium);
    assert_eq!(percentage_bar(5, 70_000, "").level, BarLevel::Medium);
    assert_eq!(percentage_bar(5, 70_001, "").level, BarLevel::MediumHigh);
    assert_eq!(percentage_bar(5, 90_000, "").level, BarLevel::MediumHigh);
    assert_eq!(percentage_bar(5, 90_001, "").level, BarLevel::High);
    assert_eq!(percentage_bar(65_535, 100_000, "\u{e9}\u{e9}").colored_text_width, 2);
}

#[test]
fn bytes_are_found_first_and_last() {
    assert_eq!(SLASH, b'/');
    assert_eq!(SPACE, b' ');
    assert_eq!(find_byte(b"/bin/ls -l -a", SPACE), 7);
    assert_eq!(find_byte(b"/bin/ls", SPACE), 7);
    assert_eq!(find_byte(b"", SPACE), 0);
    assert_eq!(after_last_byte(b"/bin/ls -l", SLASH), 5);
    assert_eq!(after_last_byte(b"ls -l", SLASH), 0);
    assert_eq!(after_last_byte(b"ls /", SLASH), 4);
    assert_eq!(find_run(b"abcabc", b"bc"), Some(1));
    assert_eq!(find_run(b"abcabc", b""), Some(0));
    assert_eq!(find_run(b"abcabc", b"cb"), None);
    assert_eq!(find_run(b"ab", b"abc"), None);
}

#[test]
fn command_cuts_of_a_command_line() {
    assert_eq!(
        command_cuts("/usr/bin/python3 -m train", Some("thon")),
        CommandCuts { bin_start: 9, bin_end: 16, match_start: 11, match_end: 15 }
    );
    assert_eq!(
        command_cuts("/usr/bin/python3 -m train", None),
        CommandCuts { bin_start: 9, bin_end: 16, match_start: 0, match_end: 0 }
    );
    assert_eq!(
        command_cuts("bash", Some("zsh")),
        CommandCuts { bin_start: 0, bin_end: 4, match_start: 0, match_end: 0 }
    );
    assert_eq!(
        command_cuts("bash", Some("")),
        CommandCuts { bin_start: 0, bin_end: 4, match_start: 0, match_end: 0 }
    );
    assert_eq!(
        command_cuts("/bin/sh -c /tmp/run", Some("/")),
        CommandCuts { bin_start: 16, bin_end: 7, match_start: 0, match_end: 1 }
    );
}

fn seg(start: usize, end: usize, is_bin: bool, is_match: bool) -> Segment {
    Segment { start, end, is_bin, is_match }
}

#[test]
fn command_cell_segments() {
    assert_eq!(
        create_cmd_cell("/usr/bin/python3 -m train", Some("thon")),
        vec![
            seg(0, 9, false, false),
            seg(9, 11, true, false),
            seg(11, 15, true, true),
            seg(15, 16, true, false),
            seg(16, 25, false, false),
        ]
    );
    assert_eq!(
        create_cmd_cell("bash", None),
        vec![seg(0, 4, true, false)]
    );
    assert_eq!(create_cmd_cell("", Some("x")), vec![]);
    assert_eq!(
        create_cmd_cell("/bin/ls -l", Some("ls -")),
        vec![seg(0, 5, false, false), seg(5, 7, true, true), seg(7, 9, false, true), seg(9, 10, false, false)]
    );
    assert_eq!(
        create_cmd_cell("/opt/caf\u{e9}/x y", Some("\u{e9}")),
        vec![
            seg(0, 8, false, false),
            seg(8, 10, false, true),
            seg(10, 11, false, false),
            seg(11, 12, true, false),
            seg(12, 14, false, false),
        ]
    );
}

#[test]
fn cut_segments_tile_the_line() {
    let cuts = CommandCuts { bin_start: 3, bin_end: 3, match_start: 1, match_end: 8 };
    let segments = cut_segments(&cuts, 8);
    assert_eq!(segments, vec![seg(0, 1, false, false), seg(1, 3, false, true), seg(3, 8, false, true)]);
    let same = CommandCuts { bin_start: 0, bin_end: 5, match_start: 0, match_end: 5 };
    assert_eq!(cut_segments(&same, 5), vec![seg(0, 5, true, true)]);
    assert_eq!(cut_segments(&same, 0), vec![]);
}

#[test]
fn temperature_levels_change_above_their_thresholds() {
    assert_eq!(temperature_level(0), TemperatureLevel::Unknown);
    assert_eq!(temperature_level(1), TemperatureLevel::Normal);
    assert_eq!(temperature_level(70_000), TemperatureLevel::Normal);
    assert_eq!(temperature_level(70_001), TemperatureLevel::Warm);
    assert_eq!(temperature_level(80_000), TemperatureLevel::Warm);
    assert_eq!(temperature_level(80_001), TemperatureLevel::Hot);
    assert_eq!(temperature_level(90_000), TemperatureLevel::Hot);
    assert_eq!(temperature_level(90_001), TemperatureLevel::Critical);
    assert_eq!(temperature_level(u32::MAX), TemperatureLevel::Critical);
}

#[test]
fn column_widths_share_the_cells() {
    assert_eq!(column_widths(10, 3), vec![4, 3, 3]);
    assert_eq!(column_widths(11, 3), vec![4, 4, 3]);
    assert_eq!(column_widths(12, 3), vec![4, 4, 4]);
    assert_eq!(column_widths(2, 4), vec![1, 1, 0, 0]);
    assert_eq!(column_widths(0, 2), vec![0, 0]);
    assert_eq!(column_widths(65_535, 1), vec![65_535]);
    assert_eq!(column_widths(65_535, 2), vec![32_768, 32_767]);
    assert_eq!(column_widths(114, 7).iter().sum::<u16>(), 114);
}
