use cryptosearch::endian::{AsByteVec, ConstTable, EndianWrapper, Endianness};
use cryptosearch::stream::ByteIterator;

fn three_words() -> EndianWrapper {
    EndianWrapper(ConstTable::U32(vec![0x12345678, 0x00000001, 0xFFFFFFFF]))
}

#[test]
fn test_as_bytes_be() {
    let bytes = three_words().as_byte_vec(Endianness::BigEndian);

    assert_eq!(bytes, &[
        0x12, 0x34, 0x56, 0x78,
        0x00, 0x00, 0x00, 0x01,
        0xFF, 0xFF, 0xFF, 0xFF,
    ]);
}

#[test]
fn test_as_bytes_le() {
    let bytes = three_words().as_byte_vec(Endianness::LittleEndian);

    assert_eq!(bytes, &[
        0x78, 0x56, 0x34, 0x12,
        0x01, 0x00, 0x00, 0x00,
        0xFF, 0xFF, 0xFF, 0xFF,
    ]);
}

#[test]
fn test_u32_iter_be() {
    let table = EndianWrapper(ConstTable::U32(vec![0x12345678, 0x98765432]));
    let mut arr = ByteIterator::new(table, Endianness::BigEndian);

    assert_eq!(arr.next(), Some(0x12));
    assert_eq!(arr.next(), Some(0x34));
    assert_eq!(arr.next(), Some(0x56));
    assert_eq!(arr.next(), Some(0x78));

    assert_eq!(arr.next(), Some(0x98));
    assert_eq!(arr.next(), Some(0x76));
    assert_eq!(arr.next(), Some(0x54));
    assert_eq!(arr.next(), Some(0x32));

    assert_eq!(arr.next(), None);
}

#[test]
fn test_u32_iter_le() {
    let table = EndianWrapper(ConstTable::U32(vec![0x12345678, 0x98765432]));
    let mut arr = ByteIterator::new(table, Endianness::LittleEndian);

    assert_eq!(arr.next(), Some(0x78));
    assert_eq!(arr.next(), Some(0x56));
    assert_eq!(arr.next(), Some(0x34));
    assert_eq!(arr.next(), Some(0x12));

    assert_eq!(arr.next(), Some(0x32));
    assert_eq!(arr.next(), Some(0x54));
    assert_eq!(arr.next(), Some(0x76));
    assert_eq!(arr.next(), Some(0x98));

    assert_eq!(arr.next(), None);
}

#[test]
fn test_constants() {
    let table = EndianWrapper(ConstTable::U32(vec![0x12345678]));
    let mut it = ByteIterator::new(table, Endianness::BigEndian);
    let bytes = it.collect_remaining();

    assert_eq!(bytes, &[0x12, 0x34, 0x56, 0x78]);
}

fn sample_tables() -> Vec<ConstTable> {
    vec![
        ConstTable::U8(vec![0x01, 0xfe, 0x7f]),
        ConstTable::U16(vec![0x1234, 0xabcd]),
        ConstTable::U32(vec![0x12345678, 0xdeadbeef, 0]),
        ConstTable::U64(vec![0x0123456789abcdef, 0xffeeddccbbaa9988]),
        ConstTable::U32(vec![]),
    ]
}

fn lazy_bytes(table: ConstTable, e: Endianness) -> Vec<u8> {
    let mut it = ByteIterator::new(EndianWrapper(table), e);
    let mut out = Vec::new();
    while let Some(b) = it.next() {
        out.push(b);
    }
    out
}

#[test]
fn eager_and_lazy_encodings_agree() {
    for e in [Endianness::LittleEndian, Endianness::BigEndian] {
        for (i, table) in sample_tables().into_iter().enumerate() {
            let eager = EndianWrapper(table).as_byte_vec(e);
            let lazy = lazy_bytes(sample_tables().remove(i), e);
            assert_eq!(eager, lazy);
        }
    }
}

#[test]
fn single_word_example_in_both_orders() {
    let t = EndianWrapper(ConstTable::U32(vec![0x12345678]));
    assert_eq!(t.as_byte_vec(Endianness::BigEndian), vec![0x12, 0x34, 0x56, 0x78]);
    assert_eq!(t.as_byte_vec(Endianness::LittleEndian), vec![0x78, 0x56, 0x34, 0x12]);
}

#[test]
fn encoding_length_is_count_times_width() {
    let widths = [1usize, 2, 4, 8, 4];
    for e in [Endianness::LittleEndian, Endianness::BigEndian] {
        for (table, w) in sample_tables().into_iter().zip(widths) {
            let n = table.len();
            assert_eq!(table.element_width(), w);
            assert_eq!(EndianWrapper(table).as_byte_vec(e).len(), n * w);
        }
    }
}

#[test]
fn sixteen_bit_words_in_both_orders() {
    let t = EndianWrapper(ConstTable::U16(vec![0x1234, 0xabcd]));
    assert_eq!(t.as_byte_vec(Endianness::BigEndian), vec![0x12, 0x34, 0xab, 0xcd]);
    assert_eq!(t.as_byte_vec(Endianness::LittleEndian), vec![0x34, 0x12, 0xcd, 0xab]);
}

#[test]
fn sixty_four_bit_words_in_both_orders() {
    let t = EndianWrapper(ConstTable::U64(vec![0x0123456789abcdef]));
    assert_eq!(
        t.as_byte_vec(Endianness::BigEndian),
        vec![0x01, 0x23, 0x45, 0x67, 0x89, 0xab, 0xcd, 0xef]
    );
    assert_eq!(
        t.as_byte_vec(Endianness::LittleEndian),
        vec![0xef, 0xcd, 0xab, 0x89, 0x67, 0x45, 0x23, 0x01]
    );
}

#[test]
fn byte_tables_ignore_byte_order() {
    let t = EndianWrapper(ConstTable::U8(vec![1, 2, 3]));
    assert_eq!(t.as_byte_vec(Endianness::BigEndian), vec![1, 2, 3]);
    assert_eq!(t.as_byte_vec(Endianness::LittleEndian), vec![1, 2, 3]);
}

#[test]
fn empty_table_encodes_to_nothing() {
    let t = EndianWrapper(ConstTable::U64(vec![]));
    assert!(t.as_byte_vec(Endianness::BigEndian).is_empty());
    let mut it = ByteIterator::new(t, Endianness::BigEndian);
    assert_eq!(it.next(), None);
    assert_eq!(it.next(), None);
}

#[test]
fn iterator_restarts_from_the_beginning() {
    let t = EndianWrapper(ConstTable::U16(vec![0x0102, 0x0304]));
    let mut it = ByteIterator::new(t, Endianness::LittleEndian);
    assert_eq!(it.next(), Some(0x02));
    assert_eq!(it.next(), Some(0x01));
    assert_eq!(it.next(), Some(0x04));
    it.restart();
    assert_eq!(it.collect_remaining(), vec![0x02, 0x01, 0x04, 0x03]);
    assert_eq!(it.next(), None);
}

#[test]
fn byte_order_labels() {
    assert_eq!(Endianness::LittleEndian.label(), "LE");
    assert_eq!(Endianness::BigEndian.label(), "BE");
}
