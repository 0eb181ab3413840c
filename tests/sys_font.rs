use rust_chip::sys_font::Font;
use rust_chip::sys_font::Font::{
    Char0, Char1, Char2, Char3, Char4, Char5, Char6, Char7, Char8, Char9, CharA, CharB, CharC, CharD,
    CharE, CharF,
};

#[test]
fn table_is_in_correct_order_and_bytes_are_correct() {
    let table: [u8; 80] = Font::get_table_as_bytes();

    assert_eq!(
        &table[Char0.table_offset()..Char1.table_offset()],
        &Char0.as_bytes()[..]
    );
    assert_eq!(
        &table[Char1.table_offset()..Char2.table_offset()],
        &Char1.as_bytes()[..]
    );
    assert_eq!(
        &table[Char2.table_offset()..Char3.table_offset()],
        &Char2.as_bytes()[..]
    );
    assert_eq!(
        &table[Char3.table_offset()..Char4.table_offset()],
        &Char3.as_bytes()[..]
    );
    assert_eq!(
        &table[Char4.table_offset()..Char5.table_offset()],
        &Char4.as_bytes()[..]
    );
    assert_eq!(
        &table[Char5.table_offset()..Char6.table_offset()],
        &Char5.as_bytes()[..]
    );
    assert_eq!(
        &table[Char6.table_offset()..Char7.table_offset()],
        &Char6.as_bytes()[..]
    );
    assert_eq!(
        &table[Char7.table_offset()..Char8.table_offset()],
        &Char7.as_bytes()[..]
    );
    assert_eq!(
        &table[Char8.table_offset()..Char9.table_offset()],
        &Char8.as_bytes()[..]
    );
    assert_eq!(
        &table[Char9.table_offset()..CharA.table_offset()],
        &Char9.as_bytes()[..]
    );
    assert_eq!(
        &table[CharA.table_offset()..CharB.table_offset()],
        &CharA.as_bytes()[..]
    );
    assert_eq!(
        &table[CharB.table_offset()..CharC.table_offset()],
        &CharB.as_bytes()[..]
    );
    assert_eq!(
        &table[CharC.table_offset()..CharD.table_offset()],
        &CharC.as_bytes()[..]
    );
    assert_eq!(
        &table[CharD.table_offset()..CharE.table_offset()],
        &CharD.as_bytes()[..]
    );
    assert_eq!(
        &table[CharE.table_offset()..CharF.table_offset()],
        &CharE.as_bytes()[..]
    );
    assert_eq!(
        &table[CharF.table_offset()..Font::COUNT * 5],
        &CharF.as_bytes()[..]
    );
}

#[test]
fn glyph_bytes_and_offsets_are_exact() {
    assert_eq!(Font::Char0.as_bytes(), [0xF0, 0x90, 0x90, 0x90, 0xF0]);
    assert_eq!(Font::Char7.as_bytes(), [0xF0, 0x10, 0x20, 0x40, 0x40]);
    assert_eq!(Font::CharF.as_bytes(), [0xF0, 0x80, 0xF0, 0x80, 0x80]);
    assert_eq!(Font::Char0.table_offset(), 0);
    assert_eq!(Font::CharA.table_offset(), 50);
    assert_eq!(Font::CharF.table_offset(), 75);
    assert_eq!(Font::COUNT, 16);
    assert_eq!(Font::PREFERRED_TABLE_STARTING_ADDRESS, 0x050);
}

#[test]
fn table_is_all_glyphs_concatenated() {
    let all = [
        Char0, Char1, Char2, Char3, Char4, Char5, Char6, Char7, Char8, Char9, CharA, CharB, CharC,
        CharD, CharE, CharF,
    ];
    let mut joined: Vec<u8> = Vec::new();
    for c in all.iter() {
        joined.extend_from_slice(&c.as_bytes());
    }
    assert_eq!(joined.len(), 80);
    assert_eq!(&joined[..], &Font::get_table_as_bytes()[..]);
}
