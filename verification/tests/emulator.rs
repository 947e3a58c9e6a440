use nagx::emulator::TerminalEmulator;

#[test]
fn new_terminal_has_requested_size() {
    let term = TerminalEmulator::new(32, 120, 2000);
    assert_eq!(term.size(), (32, 120));
    assert_eq!(term.cursor_position(), (0, 0));
    assert_eq!(term.render(), "");
}

#[test]
fn process_returns_rendered_screen() {
    let mut term = TerminalEmulator::new(4, 20, 100);
    let rendered = term.process(b"hello");
    assert_eq!(rendered, term.render());
    assert!(rendered.starts_with("hello"));
    assert_eq!(term.cursor_position(), (0, 5));
}

#[test]
fn process_handles_newlines_and_keeps_size() {
    let mut term = TerminalEmulator::new(3, 10, 0);
    let rendered = term.process(b"ab\r\ncd");
    assert_eq!(rendered, "ab\ncd");
    assert_eq!(term.size(), (3, 10));
    assert_eq!(term.cursor_position(), (1, 2));
}

#[test]
fn formatted_render_contains_text() {
    let mut term = TerminalEmulator::new(2, 10, 0);
    term.process(b"\x1b[1mhi");
    let formatted = term.render_formatted_basic();
    assert!(formatted.contains("hi"));
    assert!(formatted.contains("\x1b["));
    assert_eq!(term.render(), "hi");
}

#[test]
fn set_size_resizes() {
    let mut term = TerminalEmulator::new(32, 120, 2000);
    term.set_size(10, 40);
    assert_eq!(term.size(), (10, 40));
}

#[test]
fn set_size_clamps_zero_to_one() {
    let mut term = TerminalEmulator::new(32, 120, 2000);
    term.set_size(0, 0);
    assert_eq!(term.size(), (1, 1));
    term.set_size(0, 7);
    assert_eq!(term.size(), (1, 7));
}

#[test]
fn set_scrollback_keeps_size() {
    let mut term = TerminalEmulator::new(2, 10, 10);
    term.process(b"1\r\n2\r\n3\r\n4");
    term.set_scrollback(2);
    assert_eq!(term.size(), (2, 10));
    assert_eq!(term.render(), "1\n2");
    term.set_scrollback(0);
    assert_eq!(term.render(), "3\n4");
}

#[test]
fn fresh_terminal_shows_processed_text() {
    let mut term = TerminalEmulator::new(2, 10, 0);
    assert_eq!(term.process(b"hi"), "hi");
    assert_eq!(term.cursor_position(), (0, 2));
    assert_eq!(term.size(), (2, 10));
}

#[test]
fn resizing_twice_is_resizing_once() {
    let mut once = TerminalEmulator::new(4, 20, 10);
    let mut twice = TerminalEmulator::new(4, 20, 10);
    once.process(b"abc\r\ndef");
    twice.process(b"abc\r\ndef");
    once.set_size(2, 2);
    twice.set_size(2, 2);
    twice.set_size(2, 2);
    assert_eq!(once.render(), twice.render());
    assert_eq!(once.cursor_position(), twice.cursor_position());
    assert_eq!(once.size(), twice.size());
}

#[test]
fn scrolling_back_to_zero_restores_live_screen() {
    let mut term = TerminalEmulator::new(2, 10, 10);
    term.process(b"1\r\n2\r\n3\r\n4");
    let (text, cursor, size) = (term.render(), term.cursor_position(), term.size());
    term.set_scrollback(5);
    assert_eq!(term.cursor_position(), cursor);
    term.set_scrollback(0);
    assert_eq!((term.render(), term.cursor_position(), term.size()), (text, cursor, size));
}

#[test]
fn empty_input_changes_nothing() {
    let mut term = TerminalEmulator::new(3, 10, 0);
    term.process(b"hello\xE2");
    let before = (term.render(), term.cursor_position(), term.size());
    assert_eq!(term.process(b""), before.0);
    assert_eq!((term.render(), term.cursor_position(), term.size()), before);
}

#[test]
fn cursor_stays_inside_screen() {
    let mut term = TerminalEmulator::new(2, 3, 0);
    term.process(b"abc");
    let (row, col) = term.cursor_position();
    assert!(row < 2 && col <= 3);
    term.process(b"\x1b[99;99H");
    assert_eq!(term.cursor_position(), (1, 2));
}

#[test]
fn cursor_stays_inside_screen_on_random_input() {
    let alphabet: &[u8] = b"ab \r\n\t\x08\x1b[;0123456789HJKmABCD?hl\xC2\x85\xE2\x82\xAC\xF0\x9F\x98\x80\x9b\x07";
    let mut state: u64 = 0x2545F4914F6CDD1D;
    let mut next = move || {
        state ^= state << 13;
        state ^= state >> 7;
        state ^= state << 17;
        state
    };
    for _ in 0..400 {
        let len = (next() % 120) as usize;
        let bytes: Vec<u8> = (0..len).map(|_| alphabet[(next() % alphabet.len() as u64) as usize]).collect();
        let mut term = TerminalEmulator::new(4, 6, 3);
        let mut start = 0;
        while start < bytes.len() {
            let end = (start + 1 + (next() % 5) as usize).min(bytes.len());
            term.process(&bytes[start..end]);
            let (row, col) = term.cursor_position();
            let (rows, cols) = term.size();
            assert!(row < rows && col <= cols, "{bytes:?}");
            if next() % 7 == 0 {
                term.set_size((next() % 6) as u16, (next() % 8) as u16);
                let (row, col) = term.cursor_position();
                let (rows, cols) = term.size();
                assert!(row < rows && col <= cols, "{bytes:?}");
            }
            start = end;
        }
    }
}

#[test]
fn live_view_stays_live_on_random_input() {
    let alphabet: &[u8] = b"ab\r\n\x1b[?1049hl0123456789JH\x1bc";
    let mut state: u64 = 0x9E3779B97F4A7C15;
    let mut next = move || {
        state ^= state << 13;
        state ^= state >> 7;
        state ^= state << 17;
        state
    };
    for _ in 0..300 {
        let mut term = TerminalEmulator::new(3, 5, 4);
        for _ in 0..20 {
            let len = (next() % 12) as usize;
            let bytes: Vec<u8> = (0..len).map(|_| alphabet[(next() % alphabet.len() as u64) as usize]).collect();
            let live = term.process(&bytes);
            // at the live view the text shown never changes by scrolling to 0
            term.set_scrollback(0);
            assert_eq!(term.render(), live, "{bytes:?}");
            if next() % 4 == 0 {
                term.set_scrollback((next() % 5) as usize);
                term.set_scrollback(0);
                assert_eq!(term.render(), live);
            }
        }
    }
}
