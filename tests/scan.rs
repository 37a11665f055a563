use cryptosearch::automaton::{build_automaton, decode, interleaved_patterns, scan, MatchRecord};
use cryptosearch::endian::{AsByteVec, ConstTable, EndianWrapper, Endianness};
use cryptosearch::patterns::{algorithm_names, get_patterns, Pattern};

fn entry(algorithm: &'static str, table: ConstTable) -> Pattern {
    Pattern { algorithm, desc: "test table", bytes: EndianWrapper(table), varname: "TEST" }
}

fn record(pattern_index: usize, byte_offset: usize, byte_order: Endianness) -> MatchRecord {
    MatchRecord { pattern_index, byte_offset, byte_order }
}

fn sorted(mut v: Vec<MatchRecord>) -> Vec<MatchRecord> {
    v.sort_by_key(|r| (r.byte_offset, r.pattern_index, r.byte_order == Endianness::BigEndian));
    v
}

#[test]
fn end_to_end_big_endian_table() {
    let catalog = vec![entry("SHA256", ConstTable::U32(vec![0x428a2f98, 0x71374491]))];
    let automaton = build_automaton(&catalog).unwrap();
    let bytes = [
        0xAA, 0xBB, 0xCC, 0xDD, 0x42, 0x8a, 0x2f, 0x98, 0x71, 0x37, 0x44, 0x91, 0x00, 0x11,
    ];
    let found = scan(&automaton, &bytes);
    assert_eq!(found, vec![record(0, 4, Endianness::BigEndian)]);
}

#[test]
fn automaton_interleaves_byte_orders() {
    let catalog = vec![
        entry("A", ConstTable::U32(vec![0x11223344])),
        entry("B", ConstTable::U16(vec![0xaabb, 0xccdd])),
    ];
    let pats = interleaved_patterns(&catalog);
    assert_eq!(pats.len(), 4);
    assert_eq!(pats[0], vec![0x44, 0x33, 0x22, 0x11]);
    assert_eq!(pats[1], vec![0x11, 0x22, 0x33, 0x44]);
    assert_eq!(pats[2], vec![0xbb, 0xaa, 0xdd, 0xcc]);
    assert_eq!(pats[3], vec![0xaa, 0xbb, 0xcc, 0xdd]);
    for (i, p) in catalog.iter().enumerate() {
        assert_eq!(pats[2 * i], p.bytes.as_byte_vec(Endianness::LittleEndian));
        assert_eq!(pats[2 * i + 1], p.bytes.as_byte_vec(Endianness::BigEndian));
    }
    let automaton = build_automaton(&catalog).unwrap();
    assert_eq!(automaton.len(), 4);
}

#[test]
fn decode_splits_index_into_entry_and_order() {
    assert_eq!(decode(0), (0, Endianness::LittleEndian));
    assert_eq!(decode(1), (0, Endianness::BigEndian));
    assert_eq!(decode(2), (1, Endianness::LittleEndian));
    assert_eq!(decode(3), (1, Endianness::BigEndian));
    assert_eq!(decode(10), (5, Endianness::LittleEndian));
    for i in 0..50usize {
        assert_eq!(decode(2 * i), (i, Endianness::LittleEndian));
        assert_eq!(decode(2 * i + 1), (i, Endianness::BigEndian));
    }
}

#[test]
fn worked_example_second_entry_big_endian() {
    let catalog = vec![
        entry("SHA256", ConstTable::U32(vec![0x428a2f98])),
        entry("MD5", ConstTable::U32(vec![0xd76aa478])),
    ];
    let automaton = build_automaton(&catalog).unwrap();
    let mut bytes = vec![0u8; 128];
    bytes.extend_from_slice(&[0xd7, 0x6a, 0xa4, 0x78]);
    let found = scan(&automaton, &bytes);
    assert_eq!(found, vec![record(1, 128, Endianness::BigEndian)]);
}

#[test]
fn embedded_pattern_is_found_at_its_offset() {
    let catalog = vec![
        entry("A", ConstTable::U32(vec![0xcafebabe, 0x01020304])),
        entry("B", ConstTable::U64(vec![0x1122334455667788])),
    ];
    let automaton = build_automaton(&catalog).unwrap();
    let pats = interleaved_patterns(&catalog);
    for (k, p) in pats.iter().enumerate() {
        let mut bytes = vec![0x55u8; 7];
        bytes.extend_from_slice(p);
        bytes.extend_from_slice(&[0x66, 0x77]);
        let found = scan(&automaton, &bytes);
        let (i, e) = decode(k);
        assert!(found.contains(&record(i, 7, e)));
    }
}

#[test]
fn overlapping_patterns_are_each_reported() {
    let catalog = vec![
        entry("outer", ConstTable::U8(vec![1, 2, 3, 4, 5])),
        entry("inner", ConstTable::U8(vec![3, 4])),
    ];
    let automaton = build_automaton(&catalog).unwrap();
    let found = sorted(scan(&automaton, &[9, 1, 2, 3, 4, 5, 9]));
    assert_eq!(found.len(), 4);
    assert_eq!(
        found,
        vec![
            record(0, 1, Endianness::LittleEndian),
            record(0, 1, Endianness::BigEndian),
            record(1, 3, Endianness::LittleEndian),
            record(1, 3, Endianness::BigEndian),
        ]
    );
}

#[test]
fn both_byte_orders_found_without_interference() {
    let catalog = vec![entry("T", ConstTable::U32(vec![0x01020304]))];
    let automaton = build_automaton(&catalog).unwrap();
    let bytes = [0x01, 0x02, 0x03, 0x04, 0xee, 0x04, 0x03, 0x02, 0x01];
    let found = sorted(scan(&automaton, &bytes));
    assert_eq!(
        found,
        vec![record(0, 0, Endianness::BigEndian), record(0, 5, Endianness::LittleEndian)]
    );
}

#[test]
fn repeated_occurrences_are_all_reported() {
    let catalog = vec![entry("T", ConstTable::U16(vec![0x0101]))];
    let automaton = build_automaton(&catalog).unwrap();
    let found = sorted(scan(&automaton, &[1, 1, 1]));
    assert_eq!(
        found,
        vec![
            record(0, 0, Endianness::LittleEndian),
            record(0, 0, Endianness::BigEndian),
            record(0, 1, Endianness::LittleEndian),
            record(0, 1, Endianness::BigEndian),
        ]
    );
}

#[test]
fn empty_catalog_matches_nothing() {
    let automaton = build_automaton(&Vec::new()).unwrap();
    assert_eq!(automaton.len(), 0);
    assert!(scan(&automaton, &[1, 2, 3, 4]).is_empty());
}

#[test]
fn empty_view_has_no_matches() {
    let catalog = vec![entry("T", ConstTable::U32(vec![0x01020304]))];
    let automaton = build_automaton(&catalog).unwrap();
    assert!(scan(&automaton, &[]).is_empty());
}

#[test]
fn catalog_holds_every_table_in_order() {
    let catalog = get_patterns();
    assert_eq!(catalog.len(), 41);
    let algorithms: Vec<&str> = catalog.iter().map(|p| p.algorithm).collect();
    let mut expected = vec!["SHA-256", "SHA-512", "MD5", "CRC32", "Keccak"];
    expected.extend(["Blowfish"; 5]);
    expected.extend(["DES"; 14]);
    expected.extend(["Rijndael"; 10]);
    expected.extend([
        "PKCS MD2",
        "PKCS MD5",
        "PKCS RIPEMD160",
        "PKCS Tiger",
        "PKCS SHA256",
        "PKCS SHA384",
        "PKCS SHA512",
    ]);
    assert_eq!(algorithms, expected);
    for (i, p) in catalog.iter().enumerate() {
        let prefix = if i < 5 {
            "hash::"
        } else if i < 34 {
            "crypto::"
        } else {
            "other::"
        };
        assert!(p.varname.starts_with(prefix));
        assert_eq!(p.desc, p.varname);
        for q in &catalog[..i] {
            assert_ne!(q.varname, p.varname);
        }
    }
    assert_eq!(catalog[0].varname, "hash::SHA256_CONSTS");
    assert_eq!(catalog[40].varname, "other::PKCS_DIGEST_SHA512");
}

#[test]
fn catalog_tables_hold_known_constants() {
    let catalog = get_patterns();
    let first_and_last = |i: usize| -> (u64, u64) {
        match &catalog[i].bytes.0 {
            ConstTable::U8(v) => (v[0] as u64, v[v.len() - 1] as u64),
            ConstTable::U16(v) => (v[0] as u64, v[v.len() - 1] as u64),
            ConstTable::U32(v) => (v[0] as u64, v[v.len() - 1] as u64),
            ConstTable::U64(v) => (v[0], v[v.len() - 1]),
        }
    };
    assert_eq!(first_and_last(0), (0x428a2f98, 0xc67178f2));
    assert_eq!(first_and_last(1), (0x428a2f98d728ae22, 0x6c44198c4a475817));
    assert_eq!(first_and_last(2), (0xd76aa478, 0xeb86d391));
    assert_eq!(first_and_last(3), (0x00000000, 0x2d02ef8d));
    assert_eq!(first_and_last(4), (0x0000000000000001, 0x8000000080008008));
    assert_eq!(first_and_last(5), (0x243f6a88, 0x8979fb1b));
    assert_eq!(first_and_last(6).0, 0xd1310ba6);
    assert_eq!(first_and_last(9).1, 0x3ac372e6);
    assert_eq!(first_and_last(10), (58, 7));
    assert_eq!(first_and_last(16), (14, 13));
    assert_eq!(first_and_last(24), (0xc66363a5, 0x2c16163a));
    assert_eq!(first_and_last(28), (0x63636363, 0x16161616));
    assert_eq!(first_and_last(29), (0x51f4a750, 0xd0b85742));
    assert_eq!(first_and_last(40), (0x30, 0x40));
}

#[test]
fn catalog_algorithms_listed_once_in_order() {
    let catalog = get_patterns();
    assert_eq!(
        algorithm_names(&catalog),
        vec![
            "SHA-256",
            "SHA-512",
            "MD5",
            "CRC32",
            "Keccak",
            "Blowfish",
            "DES",
            "Rijndael",
            "PKCS MD2",
            "PKCS MD5",
            "PKCS RIPEMD160",
            "PKCS Tiger",
            "PKCS SHA256",
            "PKCS SHA384",
            "PKCS SHA512",
        ]
    );
}

#[test]
fn catalog_table_found_in_data() {
    let catalog = get_patterns();
    let automaton = build_automaton(&catalog).unwrap();
    let mut bytes = vec![0u8; 3];
    bytes.extend(catalog[0].bytes.as_byte_vec(Endianness::LittleEndian));
    let found = scan(&automaton, &bytes);
    assert_eq!(found, vec![record(0, 3, Endianness::LittleEndian)]);
}

#[test]
fn blowfish_table_found_big_endian() {
    let catalog = get_patterns();
    let automaton = build_automaton(&catalog).unwrap();
    assert_eq!(automaton.len(), 82);
    let mut bytes = vec![0x90u8; 16];
    bytes.extend(catalog[5].bytes.as_byte_vec(Endianness::BigEndian));
    let found = scan(&automaton, &bytes);
    assert_eq!(found, vec![record(5, 16, Endianness::BigEndian)]);
}

#[test]
fn algorithm_names_are_listed_once() {
    let catalog = vec![
        entry("DES", ConstTable::U8(vec![1])),
        entry("Blowfish", ConstTable::U8(vec![2])),
        entry("DES", ConstTable::U8(vec![3])),
    ];
    assert_eq!(algorithm_names(&catalog), vec!["DES", "Blowfish"]);
}

#[test]
fn empty_table_matches_at_every_offset() {
    let catalog = vec![entry("E", ConstTable::U32(vec![]))];
    let automaton = build_automaton(&catalog).unwrap();
    let found = sorted(scan(&automaton, &[7, 8]));
    let mut expected = Vec::new();
    for off in 0..3 {
        expected.push(record(0, off, Endianness::LittleEndian));
        expected.push(record(0, off, Endianness::BigEndian));
    }
    assert_eq!(found, expected);
}
