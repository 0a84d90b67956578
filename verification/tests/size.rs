use wtm::size::TerminalSize;

#[test]
fn terminal_size_enforces_minimums() {
    let size = TerminalSize::new(0, 0);
    assert_eq!(size.rows, 1);
    assert_eq!(size.cols, 1);
}

#[test]
fn terminal_size_keeps_positive_dimensions() {
    let size = TerminalSize::new(12, 40);
    assert_eq!(size.rows, 12);
    assert_eq!(size.cols, 40);
    let mixed = TerminalSize::new(0, 7);
    assert_eq!(mixed, TerminalSize { rows: 1, cols: 7 });
    let largest = TerminalSize::new(u16::MAX, u16::MAX);
    assert_eq!(largest.rows, u16::MAX);
}
