use bytevm::display::Display;
use bytevm::mem::MemBuf;

#[test]
fn test_as_bytes() {
    let m = MemBuf::<2>::new([1; 2], 0);
    let mut d = Display::new(8, 1, 0);
    d.update(&m);
    assert_eq!([1], d.as_bytes());
}

#[test]
fn test_as_str() {
    let m = MemBuf::<2>::new([1; 2], 0);
    let mut d = Display::<1>::new(8, 1, 0);
    d.update(&m);
    assert_eq!("       *\n", d.as_str());
}

#[test]
fn test_format() {
    let m = MemBuf::<2>::new([1; 2], 0);
    let mut d = Display::<1>::new(8, 1, 0);
    d.update(&m);
    assert_eq!("       -\n", d.format(" ", "-"));
}

#[test]
fn display_test_impl() {
    let m = MemBuf::default();
    let mut d = Display::<32>::new(64, 32, 5);
    d.update(&m);
    d.as_str();
    d.as_bytes();
    d.format(" ", "*");
}

#[test]
fn new_display_is_blank() {
    let d = Display::<3>::new(8, 3, 0);
    assert_eq!(d.as_bytes(), [0, 0, 0]);
    assert_eq!(d.as_str(), "                        \n\n\n");
}

#[test]
fn update_copies_the_window_at_the_offset() {
    let m = MemBuf::<6>::new([10, 11, 12, 13, 14, 15], 0);
    let mut d = Display::<3>::new(8, 3, 2);
    d.update(&m);
    assert_eq!(d.as_bytes(), [12, 13, 14]);
    let mut d = Display::<3>::new(8, 3, 3);
    d.update(&m);
    assert_eq!(d.as_bytes(), [13, 14, 15]);
    let mut d = Display::<6>::new(8, 6, 0);
    d.update(&m);
    assert_eq!(d.as_bytes(), [10, 11, 12, 13, 14, 15]);
}

#[test]
fn a_row_shows_the_most_significant_bit_first() {
    let m = MemBuf::<1>::new([0b1100_0101], 0);
    let mut d = Display::<1>::new(8, 1, 0);
    d.update(&m);
    assert_eq!(d.format(".", "#"), "##...#.#\n");
}

#[test]
fn later_rows_stand_before_earlier_ones() {
    let m = MemBuf::<2>::new([0x01, 0x80], 0);
    let mut d = Display::<2>::new(8, 2, 0);
    d.update(&m);
    assert_eq!(d.format(".", "#"), "#..............#\n\n");
}

#[test]
fn glyphs_may_be_longer_than_one_symbol() {
    let m = MemBuf::<1>::new([0b0000_0011], 0);
    let mut d = Display::<1>::new(8, 1, 0);
    d.update(&m);
    assert_eq!(d.format("no", "YES"), "nonononononoYESYES\n");
    assert_eq!(d.format("", ""), "\n");
}

#[test]
fn empty_frame_renders_as_nothing() {
    let m = MemBuf::<2>::new([1; 2], 0);
    let mut d = Display::<0>::new(0, 0, 2);
    d.update(&m);
    assert_eq!(d.as_str(), "");
}
