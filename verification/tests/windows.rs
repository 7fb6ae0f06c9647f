use terminal_size::windows::{
    dimension, terminal_size, terminal_size_full, ConsoleProbe, ScreenBufferInfo, WindowRect,
};
use terminal_size::{Height, Width};

fn report(left: i16, top: i16, right: i16, bottom: i16) -> ConsoleProbe {
    ConsoleProbe::Reported(ScreenBufferInfo {
        buffer_columns: 120,
        buffer_rows: 9001,
        window: WindowRect { left, top, right, bottom },
    })
}

#[test]
fn visible_window_of_a_long_scrollback() {
    let probe = ConsoleProbe::Reported(ScreenBufferInfo {
        buffer_columns: 80,
        buffer_rows: 200,
        window: WindowRect { left: 0, top: 10, right: 79, bottom: 33 },
    });
    assert_eq!(terminal_size(probe), Some((Width(80), Height(24))));
}

#[test]
fn width_and_height_count_both_bounds() {
    assert_eq!(terminal_size(report(0, 0, 79, 24)), Some((Width(80), Height(25))));
    assert_eq!(terminal_size(report(5, 7, 5, 7)), Some((Width(1), Height(1))));
    assert_eq!(terminal_size(report(-3, -2, 3, 2)), Some((Width(7), Height(5))));
    assert_eq!(terminal_size(report(0, 0, 119, 29)), Some((Width(120), Height(30))));
}

#[test]
fn buffer_size_plays_no_part() {
    let window = WindowRect { left: 2, top: 100, right: 81, bottom: 123 };
    let small = ScreenBufferInfo { buffer_columns: 80, buffer_rows: 24, window };
    let large = ScreenBufferInfo { buffer_columns: 32767, buffer_rows: 32767, window };
    assert_eq!(terminal_size(ConsoleProbe::Reported(small)), Some((Width(80), Height(24))));
    assert_eq!(
        terminal_size(ConsoleProbe::Reported(small)),
        terminal_size(ConsoleProbe::Reported(large))
    );
}

#[test]
fn invalid_handle_has_no_size() {
    assert_eq!(terminal_size(ConsoleProbe::InvalidHandle), None);
    assert_eq!(terminal_size_full(ConsoleProbe::InvalidHandle), None);
}

#[test]
fn failed_console_query_has_no_size() {
    assert_eq!(terminal_size(ConsoleProbe::QueryFailed), None);
    assert_eq!(terminal_size_full(ConsoleProbe::QueryFailed), None);
}

#[test]
fn console_never_reports_pixels() {
    assert_eq!(terminal_size_full(report(0, 10, 79, 33)), Some((Width(80), Height(24), None)));
    assert_eq!(terminal_size_full(report(0, 0, 0, 0)), Some((Width(1), Height(1), None)));
}

#[test]
fn empty_window_has_no_size() {
    assert_eq!(terminal_size(report(10, 0, 9, 24)), None);
    assert_eq!(terminal_size(report(0, 10, 79, 9)), None);
    assert_eq!(terminal_size(report(79, 24, 0, 0)), None);
}

#[test]
fn widest_windows() {
    assert_eq!(terminal_size(report(0, 0, 32767, 0)), Some((Width(32768), Height(1))));
    assert_eq!(terminal_size(report(-32768, 0, 32766, 0)), Some((Width(65535), Height(1))));
    assert_eq!(terminal_size(report(-32768, 0, 32767, 0)), None);
    assert_eq!(terminal_size(report(0, -32768, 0, 32767)), None);
}

#[test]
fn dimension_counts_cells() {
    assert_eq!(dimension(10, 33), Some(24));
    assert_eq!(dimension(0, 0), Some(1));
    assert_eq!(dimension(1, 0), None);
    assert_eq!(dimension(32767, -32768), None);
    assert_eq!(dimension(-32768, 32766), Some(65535));
    assert_eq!(dimension(-32768, 32767), None);
    assert_eq!(dimension(-1, 32767), Some(32769));
}
