use wtm::keymap::{KeyCode, KeyInput, KeyModifiers};
use wtm::scanner::{cursor_position_reply, dsr_advance, scan_chunk, DsrState};
use wtm::screen::ScreenBuffer;
use wtm::session::{
    after_read, default_shell, reaped_status, PtySession, ReadOutcome, ReaderStep, SpawnFailure,
};
use wtm::size::TerminalSize;
use wtm::title::{
    compose_title, lookup_name, pick_child, resolve_foreground, resolve_title, truncate_label,
    ProcessInfo,
};

fn session() -> PtySession {
    PtySession::spawn(4, "Tab 4", TerminalSize::new(24, 80), Ok(())).unwrap()
}

fn process(pid: u32, parent: u32, name: &str, cpu: u32, runnable: bool) -> ProcessInfo {
    ProcessInfo { pid, parent, name: name.to_string(), cpu, runnable }
}

#[test]
fn scanner_answers_one_query_and_returns_to_rest() {
    let (state, replies) = scan_chunk(DsrState::Idle, b"\x1b[6n", 4, 9);
    assert_eq!(state, DsrState::Idle);
    assert_eq!(replies, b"\x1b[5;10R".to_vec());
}

#[test]
fn scanner_keeps_its_state_across_chunks() {
    let (state, replies) = scan_chunk(DsrState::Idle, b"abc\x1b[", 0, 0);
    assert_eq!(state, DsrState::Bracket);
    assert!(replies.is_empty());
    let (state, replies) = scan_chunk(state, b"6nxx\x1b[6n\x1b", 0, 0);
    assert_eq!(state, DsrState::Escape);
    assert_eq!(replies, b"\x1b[1;1R\x1b[1;1R".to_vec());
}

#[test]
fn scanner_resets_on_any_other_byte() {
    let (state, replies) = scan_chunk(DsrState::Idle, b"\x1b\x1b[6n\x1b[61n\x1b[6", 1, 1);
    assert_eq!(state, DsrState::Six);
    assert!(replies.is_empty());
    assert_eq!(dsr_advance(DsrState::Six, b'n'), (DsrState::Idle, true));
    assert_eq!(dsr_advance(DsrState::Six, b'x'), (DsrState::Idle, false));
    assert_eq!(dsr_advance(DsrState::Escape, 0x1b), (DsrState::Idle, false));
}

#[test]
fn cursor_reply_is_one_based() {
    assert_eq!(cursor_position_reply(0, 0), b"\x1b[1;1R".to_vec());
    assert_eq!(cursor_position_reply(23, 79), b"\x1b[24;80R".to_vec());
    assert_eq!(cursor_position_reply(u16::MAX, 9), b"\x1b[65536;10R".to_vec());
}

#[test]
fn screen_shows_what_the_session_printed() {
    let mut screen = ScreenBuffer::new(TerminalSize::new(5, 20));
    assert_eq!(screen.dimensions(), TerminalSize::new(5, 20));
    assert_eq!(screen.cursor_position(), (0, 0));
    let replies = screen.feed(b"$ echo hi\r\nhi\r\n");
    assert!(replies.is_empty());
    assert!(screen.contents().contains("hi"));
    assert_eq!(screen.contents().lines().nth(1), Some("hi"));
    assert_eq!(screen.cursor_position(), (2, 0));
}

#[test]
fn screen_answers_with_the_cursor_before_the_chunk() {
    let mut screen = ScreenBuffer::new(TerminalSize::new(5, 20));
    screen.feed(b"ab\r\ncd");
    let replies = screen.feed(b"xyz\x1b[6n");
    assert_eq!(replies, b"\x1b[2;3R".to_vec());
    assert_eq!(screen.cursor_position(), (1, 5));
    let split = screen.feed(b"\x1b[6");
    assert!(split.is_empty());
    assert_eq!(screen.feed(b"n"), b"\x1b[2;6R".to_vec());
}

#[test]
fn screen_resize_changes_dimensions() {
    let mut screen = ScreenBuffer::new(TerminalSize::new(5, 20));
    screen.feed(b"hello");
    screen.resize(TerminalSize::new(10, 40));
    assert_eq!(screen.dimensions(), TerminalSize::new(10, 40));
    assert!(screen.contents().contains("hello"));
    screen.resize(TerminalSize::new(1, 1));
    assert_eq!(screen.dimensions(), TerminalSize::new(1, 1));
}

#[test]
fn spawned_session_starts_running() {
    let tab = session();
    assert_eq!(tab.id(), 4);
    assert_eq!(tab.title(), "Tab 4");
    assert_eq!(tab.base_title(), "Tab 4");
    assert!(!tab.is_terminated());
    let geometry = tab.geometry();
    assert_eq!((geometry.rows, geometry.cols), (24, 80));
    assert_eq!((geometry.pixel_width, geometry.pixel_height), (0, 0));
    let failed = PtySession::spawn(
        1,
        "x",
        TerminalSize::new(1, 1),
        Err(SpawnFailure { reason: "no shell".to_string() }),
    );
    assert_eq!(failed.unwrap_err().reason, "no shell");
}

#[test]
fn resizing_to_the_same_size_asks_once() {
    let mut tab = session();
    assert!(tab.resize_to(TerminalSize::new(24, 80)).is_none());
    let size = TerminalSize::new(40, 120);
    let first = tab.resize_to(size).unwrap();
    assert_eq!((first.rows, first.cols), (40, 120));
    assert!(tab.resize_to(size).is_none());
    assert_eq!(tab.size(), size);
}

#[test]
fn send_command_appends_carriage_return_and_newline() {
    let tab = session();
    assert_eq!(tab.send_command("echo hi"), b"echo hi\r\n".to_vec());
    assert_eq!(tab.send_command(""), b"\r\n".to_vec());
    assert_eq!(tab.send_command("\u{e9}"), vec![0xc3, 0xa9, 0x0d, 0x0a]);
}

#[test]
fn session_translates_keys() {
    let tab = session();
    let ctrl_c = KeyInput::new(KeyCode::Char('c'), KeyModifiers::control());
    assert_eq!(tab.handle_key_event(ctrl_c), Some(vec![0x03]));
    let unmapped = KeyInput::new(KeyCode::Unmapped, KeyModifiers::none());
    assert_eq!(tab.handle_key_event(unmapped), None);
}

#[test]
fn completion_flag_is_written_once() {
    let mut tab = session();
    tab.record_exit(true);
    assert!(tab.is_terminated());
    tab.record_exit(false);
    assert!(tab.is_terminated());
    let plan = tab.shutdown(true);
    assert!(!plan.kill_child);
    assert!(plan.join_threads);
    assert!(tab.is_terminated());
}

#[test]
fn shutdown_is_idempotent() {
    let mut tab = session();
    let plan = tab.shutdown(false);
    assert!(plan.kill_child && plan.join_threads);
    assert!(tab.is_terminated());
    let again = tab.shutdown(false);
    assert!(!again.kill_child && !again.join_threads);
    assert!(tab.is_terminated());
}

#[test]
fn reader_decides_by_the_read() {
    assert_eq!(after_read(ReadOutcome::Bytes(0)), ReaderStep::Stop);
    assert_eq!(after_read(ReadOutcome::Bytes(17)), ReaderStep::Feed);
    assert_eq!(after_read(ReadOutcome::Interrupted), ReaderStep::Retry);
    assert_eq!(after_read(ReadOutcome::Failed), ReaderStep::Stop);
    assert_eq!(reaped_status(Some(true), Some(false)), Some(true));
    assert_eq!(reaped_status(None, Some(false)), Some(false));
    assert_eq!(reaped_status(None, None), None);
}

#[test]
fn default_shell_is_not_empty() {
    assert!(!default_shell(false, None).is_empty());
    assert_eq!(default_shell(false, None), "/bin/sh");
    assert_eq!(default_shell(true, None), "cmd.exe");
    assert_eq!(default_shell(false, Some("/bin/zsh".to_string())), "/bin/zsh");
}

#[test]
fn title_resolution_prefers_runnable_child_with_higher_cpu() {
    let table = vec![
        process(1, 0, "zsh", 0, false),
        process(2, 1, "cargo", 550, true),
        process(3, 1, "sleep", 0, false),
    ];
    assert_eq!(pick_child(&table, 1), Some(2));
    assert_eq!(resolve_foreground(&table, 1), 2);
    assert_eq!(resolve_title(&table, 1, "Tab 1"), Some("cargo - Tab 1".to_string()));
}

#[test]
fn title_resolution_breaks_ties_by_smallest_pid() {
    let table = vec![
        process(9, 1, "b", 10, true),
        process(5, 1, "a", 10, true),
        process(7, 1, "c", 10, true),
        process(6, 1, "idle", 90, false),
        process(8, 5, "leaf", 0, false),
    ];
    assert_eq!(pick_child(&table, 1), Some(5));
    assert_eq!(resolve_foreground(&table, 1), 8);
    assert_eq!(lookup_name(&table, 8), Some("leaf".to_string()));
    assert_eq!(pick_child(&table, 8), None);
}

#[test]
fn title_resolution_stops_on_odd_tables() {
    let cycle = vec![process(1, 2, "a", 0, true), process(2, 1, "b", 0, true)];
    let end = resolve_foreground(&cycle, 1);
    assert!(end == 1 || end == 2);
    assert_eq!(end, 1);
    let own_child = vec![process(1, 1, "self", 0, true)];
    assert_eq!(resolve_foreground(&own_child, 1), 1);
    assert_eq!(resolve_title(&Vec::new(), 1, "Tab"), None);
    assert_eq!(resolve_foreground(&Vec::new(), 42), 42);
}

#[test]
fn titles_are_truncated_on_each_side() {
    let long_program = "p".repeat(100);
    let long_base = "b".repeat(60);
    let title = compose_title(&long_program, &long_base);
    let expected = format!("{}\u{2026} - {}\u{2026}", "p".repeat(79), "b".repeat(39));
    assert_eq!(title, expected);
    assert_eq!(compose_title(&"p".repeat(80), &"b".repeat(40)).chars().count(), 123);
    assert_eq!(truncate_label("abcdef", 3), vec!['a', 'b', '\u{2026}']);
    assert_eq!(truncate_label("abc", 3), vec!['a', 'b', 'c']);
    assert_eq!(truncate_label("abc", 0), Vec::<char>::new());
}

#[test]
fn title_is_published_only_when_it_changes() {
    let mut tab = session();
    let table = vec![process(1, 0, "zsh", 0, false), process(2, 1, "vim", 1, true)];
    assert!(tab.refresh_title(&table, 1));
    assert_eq!(tab.title(), "vim - Tab 4");
    assert!(!tab.update_title("vim - Tab 4"));
    assert!(tab.update_title("other"));
    assert!(tab.refresh_title(&Vec::new(), 1));
    assert_eq!(tab.title(), "other");
    tab.record_exit(true);
    assert!(!tab.refresh_title(&table, 1));
    assert_eq!(tab.title(), "other");
}

#[test]
fn narrow_screen_takes_wide_characters() {
    let mut screen = ScreenBuffer::new(TerminalSize::new(1, 1));
    assert_eq!(screen.dimensions(), TerminalSize::new(1, 1));
    assert_eq!(screen.emulator().screen().size(), (2, 2));
    let replies = screen.feed("\u{4e2d}\u{6587}a\u{1f600}\t\u{4e2d}\r\n\r\nxyz\x1b[6n".as_bytes());
    assert!(replies.starts_with(b"\x1b["));
    assert!(replies.ends_with(b"R"));
    screen.resize(TerminalSize { rows: 0, cols: 0 });
    assert_eq!(screen.emulator().screen().size(), (2, 2));
    screen.feed("\u{ff21}\u{ff22}\u{ff23}".as_bytes());
    assert_eq!(screen.dimensions(), TerminalSize { rows: 0, cols: 0 });
    let mut row = ScreenBuffer::new(TerminalSize::new(1, 5));
    assert_eq!(row.emulator().screen().size(), (2, 5));
    row.feed(b"abcdefghijklmnop\r\nq");
    let mut column = ScreenBuffer::new(TerminalSize::new(5, 1));
    assert_eq!(column.emulator().screen().size(), (5, 2));
    column.feed("\u{4e2d}\u{4e2d}\u{4e2d}".as_bytes());
}

#[test]
fn widest_screen_takes_tabs_at_the_last_column() {
    let mut screen = ScreenBuffer::new(TerminalSize::new(2, u16::MAX));
    assert_eq!(screen.emulator().screen().size(), (2, 65520));
    screen.feed(b"\x1b[1;65535H\t\t\tx\t");
    let (row, col) = screen.cursor_position();
    assert!(row < 2 && col <= 65520);
}

#[test]
fn resized_screen_shows_what_the_old_one_showed() {
    let mut screen = ScreenBuffer::new(TerminalSize::new(4, 10));
    screen.feed("ab\u{4e2d}\u{6587}\r\n\x1b[31mred\x1b[m".as_bytes());
    assert_eq!(screen.contents(), "ab\u{4e2d}\u{6587}\nred");
    screen.resize(TerminalSize::new(6, 20));
    assert_eq!(screen.emulator().screen().size(), (6, 20));
    assert_eq!(screen.contents(), "ab\u{4e2d}\u{6587}\nred");
    assert_eq!(screen.cursor_position(), (1, 3));
    let cell = screen.emulator().screen().cell(1, 0).unwrap();
    assert_eq!(cell.contents(), "r");
    assert_eq!(cell.fgcolor(), tui_term::vt100::Color::Idx(1));
    screen.resize(TerminalSize::new(6, 5));
    screen.feed("\u{4e2d}\u{4e2d}\u{4e2d}x".as_bytes());
    screen.resize(TerminalSize::new(6, 3));
    screen.feed("\x1b[1;3H\u{4e2d}\x1b[1;1Hzz\u{4e2d}".as_bytes());
    assert_eq!(screen.dimensions(), TerminalSize::new(6, 3));
    screen.resize(TerminalSize::new(6, 3));
    assert_eq!(screen.emulator().screen().size(), (6, 3));
}

#[test]
fn emulator_shows_what_was_fed_in_order() {
    let mut one = ScreenBuffer::new(TerminalSize::new(3, 10));
    one.feed(b"ab\r\ncd");
    let mut two = ScreenBuffer::new(TerminalSize::new(3, 10));
    two.feed(b"ab\r");
    two.feed(b"\nc");
    two.feed(b"d");
    assert_eq!(one.contents(), two.contents());
    assert_eq!(one.contents(), "ab\ncd");
    assert_eq!(one.emulator().screen().cursor_position(), two.cursor_position());
    let cell = one.emulator().screen().cell(1, 0).unwrap();
    assert_eq!(cell.contents(), "c");
}

fn next(state: &mut u64) -> u64 {
    *state = state.wrapping_mul(6364136223846793005).wrapping_add(1442695040888963407);
    *state >> 33
}

fn number(state: &mut u64) -> String {
    match next(state) % 100 {
        0 => (65520 + next(state) % 40).to_string(),
        1 => (4294967290u64 + next(state) % 10).to_string(),
        2..=5 => (next(state) % 200).to_string(),
        6..=12 => String::new(),
        _ => (next(state) % 12).to_string(),
    }
}

fn stream(state: &mut u64) -> Vec<u8> {
    let finals = b"ABCDEFGHIJKLMPSTXZ@`abcdefghilmnpqrstux";
    let mut out = Vec::new();
    for _ in 0..next(state) % 40 {
        match next(state) % 12 {
            0 | 1 => out.push(b' ' + (next(state) % 95) as u8),
            2 => out.extend_from_slice("\u{4e2d}".as_bytes()),
            3 => out.extend_from_slice("\u{301}".as_bytes()),
            4 => out.push([b'\t', 8, 7, b'\n', b'\r', 0x0b, 0x0c][(next(state) % 7) as usize]),
            5 | 6 | 7 => {
                out.extend_from_slice(b"\x1b[");
                if next(state) % 4 == 0 {
                    out.push(b'?');
                }
                for i in 0..next(state) % 4 {
                    if i > 0 {
                        out.push(b';');
                    }
                    out.extend_from_slice(number(state).as_bytes());
                }
                out.push(finals[(next(state) % finals.len() as u64) as usize]);
            }
            8 => {
                out.push(0x1b);
                out.push(b"78MDEc=>HZ"[(next(state) % 10) as usize]);
            }
            9 => out.extend_from_slice("\u{1f600}".as_bytes()),
            10 => out.extend_from_slice(b"\x1b[?1049h"),
            _ => out.push((next(state) % 256) as u8),
        }
    }
    out
}

#[test]
fn no_byte_stream_crashes_the_screen() {
    let sizes = [(0u16, 0u16), (1, 1), (1, 7), (7, 1), (2, 2), (3, 4), (24, 80)];
    for (seed, (rows, cols)) in sizes.iter().enumerate() {
        let mut state = 77 + seed as u64;
        let mut screen = ScreenBuffer::new(TerminalSize { rows: *rows, cols: *cols });
        for round in 0..250u64 {
            let bytes = stream(&mut state);
            screen.feed(&bytes);
            if round % 10 == 9 {
                let size = TerminalSize {
                    rows: (next(&mut state) % 9) as u16,
                    cols: (next(&mut state) % 9) as u16,
                };
                screen.resize(size);
                assert_eq!(screen.dimensions(), size);
            }
            let (row, col) = screen.cursor_position();
            let (height, width) = screen.emulator().screen().size();
            assert!(row < height && col <= width);
        }
        assert!(screen.contents().len() < 100_000);
    }
}
