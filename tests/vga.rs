use kernel::mutex::SpinMutex;
use kernel::vga::{get_offset, init_writer, rec_colour, rec_entry, Colours, TermWriter};

fn row_text(w: &TermWriter, row: usize, len: usize) -> Vec<u8> {
    (0..len).map(|c| (w.cell(get_offset(row, c)) & 0xff) as u8).collect()
}

#[test]
fn colour_and_entry_encoding() {
    assert_eq!(rec_colour(Colours::White, Colours::Black), 0x0f);
    assert_eq!(rec_colour(Colours::LightGreen, Colours::Blue), 0x1a);
    assert_eq!(rec_entry(b'A', 0x0f), 0x0f41);
    assert_eq!(get_offset(24, 79), 1999);
    assert_eq!(get_offset(1, 0), 80);
}

#[test]
fn new_writer_starts_on_last_row() {
    let w = TermWriter::new();
    assert_eq!(w.cursor(), (24, 0));
    assert_eq!(w.colour(), 0);
    assert_eq!(w.cells().len(), 2000);
}

#[test]
fn init_writer_clears_white_on_black() {
    let mut m = SpinMutex::new(TermWriter::new());
    init_writer(&mut m);
    assert!(!m.is_locked());
    let g = m.lock();
    let w = g.get();
    assert_eq!(w.colour(), 0x0f);
    assert!(w.cells().iter().all(|&c| c == 0x0f20));
    assert_eq!(w.cursor(), (24, 0));
}

#[test]
fn writing_and_scrolling() {
    let mut w = TermWriter::new();
    w.set_colour(Colours::White, Colours::Black);
    w.clear();
    w.write_bytes(b"hi\nyo");
    assert_eq!(row_text(&w, 23, 2), b"hi".to_vec());
    assert_eq!(row_text(&w, 24, 2), b"yo".to_vec());
    assert_eq!(w.cursor(), (24, 2));
    assert_eq!(w.cell(get_offset(24, 0)), 0x0f79);
}

#[test]
fn full_line_wraps() {
    let mut w = TermWriter::new();
    w.clear();
    let line = vec![b'x'; 80];
    w.write_bytes(&line);
    assert_eq!(w.cursor(), (24, 80));
    w.write_char(b'z');
    assert_eq!(row_text(&w, 23, 80), line);
    assert_eq!(row_text(&w, 24, 2), b"z ".to_vec());
    assert_eq!(w.cursor(), (24, 1));
}

#[test]
fn clear_row_blanks_one_row() {
    let mut w = TermWriter::new();
    w.clear();
    w.write_bytes(b"abc");
    w.clear_row(24);
    assert_eq!(row_text(&w, 24, 3), b"   ".to_vec());
}
