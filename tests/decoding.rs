use syscall_fuzz::catalog::{
    get_syscall_name_only, operation_count_of, TypedFuzzInstructionPrototype,
    TypedModAddressPrototype, TypedModBufPrototype, TypedModIntPrototype, CATEGORY_COUNT,
    MAX_INSTRUCTION_LEN,
};
use syscall_fuzz::codec::{symbol_char_at, ByteCursor, InsufficientInput};
use syscall_fuzz::operand::{ValMapProto, ValVecProto};
use syscall_fuzz::value::{LeafVal, ValProto};
use syscall_fuzz::theorems::selection_buffer;

fn pseudo_random_buffer(seed: u64, len: usize) -> Vec<u8> {
    let mut x = seed.wrapping_mul(6364136223846793005).wrapping_add(1442695040888963407);
    let mut out = Vec::with_capacity(len);
    for _ in 0..len {
        x = x.wrapping_mul(6364136223846793005).wrapping_add(1442695040888963407);
        out.push((x >> 33) as u8);
    }
    out
}

#[test]
fn zero_buffer_selects_first_operation() {
    let data = [0u8; 512];
    let decoded = TypedFuzzInstructionPrototype::decode(&data).unwrap();
    match &decoded {
        TypedFuzzInstructionPrototype::Address(
            TypedModAddressPrototype::AccountPublicKeyToAddress(b),
        ) => {
            assert!(b.bytes.is_empty());
        }
        other => panic!("unexpected instruction {:?}", other),
    }
    assert_eq!(
        get_syscall_name_only(&decoded),
        "syscalls::address::account_public_key_to_address"
    );
}

#[test]
fn decoding_is_deterministic() {
    for seed in 0..200u64 {
        let data = pseudo_random_buffer(seed, 512);
        let a = TypedFuzzInstructionPrototype::decode(&data);
        let b = TypedFuzzInstructionPrototype::decode(&data);
        assert_eq!(format!("{:?}", a), format!("{:?}", b));
    }
}

#[test]
fn long_buffers_always_decode() {
    for seed in 0..2000u64 {
        let data = pseudo_random_buffer(seed, MAX_INSTRUCTION_LEN);
        assert!(TypedFuzzInstructionPrototype::decode(&data).is_ok(), "seed {}", seed);
    }
}

#[test]
fn largest_operation_fits_exactly() {
    // Map category, MapPut: a map of four entries whose keys and values are
    // maps of four entries of 32-byte byte strings, then two such values.
    let big_leaf = |d: &mut Vec<u8>| {
        d.extend_from_slice(&[11, 0, 0, 0, 32]);
        d.extend_from_slice(&[0xAB; 32]);
    };
    let big_val = |d: &mut Vec<u8>| {
        d.extend_from_slice(&[18, 0, 0, 0, 4]);
        for _ in 0..8 {
            big_leaf(d);
        }
    };
    let mut data = vec![7u8, 0, 0, 0, 11, 0, 0, 0, 4];
    for _ in 0..10 {
        big_val(&mut data);
    }
    assert_eq!(data.len(), MAX_INSTRUCTION_LEN);
    let decoded = TypedFuzzInstructionPrototype::decode(&data).unwrap();
    assert_eq!(get_syscall_name_only(&decoded), "syscalls::map::map_put");
    let short = &data[..data.len() - 1];
    assert_eq!(
        TypedFuzzInstructionPrototype::decode(short).unwrap_err(),
        InsufficientInput
    );
}

#[test]
fn empty_and_short_buffers_are_insufficient() {
    assert!(TypedFuzzInstructionPrototype::decode(&[]).is_err());
    assert!(TypedFuzzInstructionPrototype::decode(&[0, 0, 0]).is_err());
    // Category chosen, operation choice cut short.
    assert!(TypedFuzzInstructionPrototype::decode(&[0, 0, 0, 0, 0]).is_err());
}

#[test]
fn test_category_takes_no_operation_choice() {
    let decoded = TypedFuzzInstructionPrototype::decode(&[9, 0, 0, 0]).unwrap();
    assert!(matches!(decoded, TypedFuzzInstructionPrototype::Test));
    assert_eq!(get_syscall_name_only(&decoded), "syscalls::test::dummy0");
}

#[test]
fn category_choice_wraps_modulo_category_count() {
    // 20 mod 11 is 9, the test category.
    let decoded = TypedFuzzInstructionPrototype::decode(&[20, 0, 0, 0]).unwrap();
    assert!(matches!(decoded, TypedFuzzInstructionPrototype::Test));
}

#[test]
fn every_operation_is_reachable() {
    let mut names = std::collections::BTreeSet::new();
    let categories = [
        "address", "buf", "call", "context", "crypto", "int", "ledger", "map", "prng", "test",
        "vec",
    ];
    for cat in 0..CATEGORY_COUNT {
        for op in 0..operation_count_of(cat) {
            let buf = selection_buffer(cat, op);
            let decoded = TypedFuzzInstructionPrototype::decode(&buf).unwrap();
            let name = get_syscall_name_only(&decoded);
            assert!(
                name.starts_with(&format!("syscalls::{}::", categories[cat as usize])),
                "{} in category {}",
                name,
                cat
            );
            assert!(names.insert(name), "{} selected twice", name);
        }
    }
    assert_eq!(names.len(), 139);
}

#[test]
fn operands_are_decoded_in_declared_order() {
    // Buf category (1), BytesCopyFromLinearMemory (2): bytes, then three u32.
    let mut data = vec![1u8, 0, 0, 0, 2, 0, 0, 0];
    data.extend_from_slice(&[2, 0xAA, 0xBB]);
    data.extend_from_slice(&[1, 0, 0, 0]);
    data.extend_from_slice(&[2, 0, 0, 0]);
    data.extend_from_slice(&[0x04, 0x03, 0x02, 0x01]);
    let decoded = TypedFuzzInstructionPrototype::decode(&data).unwrap();
    match decoded {
        TypedFuzzInstructionPrototype::Buf(TypedModBufPrototype::BytesCopyFromLinearMemory(
            b,
            x,
            y,
            z,
        )) => {
            assert_eq!(b.bytes, vec![0xAA, 0xBB]);
            assert_eq!((x, y, z), (1, 2, 0x01020304));
        }
        other => panic!("unexpected instruction {:?}", other),
    }
}

#[test]
fn signed_and_wide_integer_operands() {
    // Int category (5), ObjFromI128Pieces (12): i64 then u64.
    let mut data = vec![5u8, 0, 0, 0, 12, 0, 0, 0];
    data.extend_from_slice(&[0xFF; 8]);
    data.extend_from_slice(&[1, 0, 0, 0, 0, 0, 0, 0x80]);
    match TypedFuzzInstructionPrototype::decode(&data).unwrap() {
        TypedFuzzInstructionPrototype::Int(TypedModIntPrototype::ObjFromI128Pieces(hi, lo)) => {
            assert_eq!(hi, -1);
            assert_eq!(lo, 0x8000_0000_0000_0001);
        }
        other => panic!("unexpected instruction {:?}", other),
    }
    // ObjToI128Hi64 (18): one i128, low eight bytes first.
    let mut data = vec![5u8, 0, 0, 0, 18, 0, 0, 0];
    data.extend_from_slice(&[0, 0, 0, 0, 0, 0, 0, 0]);
    data.extend_from_slice(&[0xFF; 8]);
    match TypedFuzzInstructionPrototype::decode(&data).unwrap() {
        TypedFuzzInstructionPrototype::Int(TypedModIntPrototype::ObjToI128Hi64(v)) => {
            assert_eq!(v, -(1i128 << 64));
        }
        other => panic!("unexpected instruction {:?}", other),
    }
}

#[test]
fn cursor_reads_little_endian() {
    let mut c = ByteCursor::new(&[1, 2, 3, 4, 5, 6, 7, 8, 9, 10, 11, 12]);
    assert_eq!(c.take_u32(), Ok(0x04030201));
    assert_eq!(c.take_u64(), Ok(0x0C0B0A0908070605));
    assert_eq!(c.remaining(), 0);
    assert_eq!(c.take_u8(), Err(InsufficientInput));
}

#[test]
fn cursor_u128_and_bool() {
    let mut data = vec![0u8; 8];
    data.extend_from_slice(&[1, 0, 0, 0, 0, 0, 0, 0]);
    data.push(3);
    data.push(2);
    let mut c = ByteCursor::new(&data);
    assert_eq!(c.take_u128(), Ok(1u128 << 64));
    assert_eq!(c.take_bool(), Ok(true));
    assert_eq!(c.take_bool(), Ok(false));
}

#[test]
fn cursor_choice_and_count_wrap() {
    let mut c = ByteCursor::new(&[10, 0, 0, 0, 40]);
    assert_eq!(c.take_choice(7), Ok(3));
    assert_eq!(c.take_count(32), Ok(7));
}

#[test]
fn byte_strings_are_bounded() {
    // A length byte of 34 means 34 mod 33 = 1 byte.
    let mut c = ByteCursor::new(&[34, 0xEE, 0xFF]);
    assert_eq!(c.take_bytes(), Ok(vec![0xEE]));
    assert_eq!(c.remaining(), 1);
    let mut c = ByteCursor::new(&[5, 1, 2]);
    assert_eq!(c.take_bytes(), Err(InsufficientInput));
}

#[test]
fn symbols_use_the_symbol_alphabet() {
    assert_eq!(symbol_char_at(0), b'_');
    assert_eq!(symbol_char_at(1), b'a');
    assert_eq!(symbol_char_at(26), b'z');
    assert_eq!(symbol_char_at(27), b'A');
    assert_eq!(symbol_char_at(52), b'Z');
    assert_eq!(symbol_char_at(53), b'0');
    assert_eq!(symbol_char_at(62), b'9');
    let mut c = ByteCursor::new(&[4, 0, 1, 63, 62]);
    assert_eq!(c.take_symbol(), Ok(b"_a_9".to_vec()));
}

#[test]
fn generic_values_decode_by_kind() {
    let mut c = ByteCursor::new(&[3, 0, 0, 0, 7, 0, 0, 0]);
    assert!(matches!(ValProto::decode(&mut c), Ok(ValProto::Leaf(LeafVal::U32(7)))));
    let mut c = ByteCursor::new(&[0, 0, 0, 0]);
    assert!(matches!(ValProto::decode(&mut c), Ok(ValProto::Leaf(LeafVal::Void))));
    let mut c = ByteCursor::new(&[4, 0, 0, 0, 0xFE, 0xFF, 0xFF, 0xFF]);
    assert!(matches!(ValProto::decode(&mut c), Ok(ValProto::Leaf(LeafVal::I32(-2)))));
    let mut c = ByteCursor::new(&[16, 0, 0, 0, 5, 0, 0, 0, 0, 0, 0, 0]);
    assert!(matches!(ValProto::decode(&mut c), Ok(ValProto::Leaf(LeafVal::Duration(5)))));
    let mut data = vec![14u8, 0, 0, 0];
    data.extend_from_slice(&[9; 32]);
    let mut c = ByteCursor::new(&data);
    match ValProto::decode(&mut c) {
        Ok(ValProto::Leaf(LeafVal::Address(a))) => assert_eq!(a, vec![9; 32]),
        other => panic!("unexpected value {:?}", other),
    }
    // Kind 35 wraps to kind 16.
    let mut c = ByteCursor::new(&[35, 0, 0, 0, 1, 0, 0, 0, 0, 0, 0, 0]);
    assert!(matches!(ValProto::decode(&mut c), Ok(ValProto::Leaf(LeafVal::Duration(1)))));
}

#[test]
fn errors_and_wide_integers_decode() {
    // Error of type 3: the code is taken modulo 10.
    let mut c = ByteCursor::new(&[2, 0, 0, 0, 3, 0, 0, 0, 15, 0, 0, 0]);
    assert!(matches!(ValProto::decode(&mut c), Ok(ValProto::Leaf(LeafVal::Error(3, 5)))));
    // A contract error (type 0) keeps its code.
    let mut c = ByteCursor::new(&[2, 0, 0, 0, 10, 0, 0, 0, 15, 0, 0, 0]);
    assert!(matches!(ValProto::decode(&mut c), Ok(ValProto::Leaf(LeafVal::Error(0, 15)))));
    let mut data = vec![9u8, 0, 0, 0];
    for part in 1..=4u8 {
        data.extend_from_slice(&[part, 0, 0, 0, 0, 0, 0, 0]);
    }
    let mut c = ByteCursor::new(&data);
    assert!(matches!(
        ValProto::decode(&mut c),
        Ok(ValProto::Leaf(LeafVal::U256(1, 2, 3, 4)))
    ));
    let mut data = vec![10u8, 0, 0, 0];
    data.extend_from_slice(&[0xFF; 8]);
    data.extend_from_slice(&[0; 24]);
    let mut c = ByteCursor::new(&data);
    assert!(matches!(
        ValProto::decode(&mut c),
        Ok(ValProto::Leaf(LeafVal::I256(-1, 0, 0, 0)))
    ));
}

#[test]
fn nested_vectors_and_maps_decode() {
    // A vector (kind 17) of two plain values: true, then unit.
    let mut c = ByteCursor::new(&[17, 0, 0, 0, 2, 1, 0, 0, 0, 1, 0, 0, 0, 0]);
    match ValProto::decode(&mut c) {
        Ok(ValProto::Vec(ls)) => {
            assert_eq!(ls.len(), 2);
            assert!(matches!(ls[0], LeafVal::Bool(true)));
            assert!(matches!(ls[1], LeafVal::Void));
        }
        other => panic!("unexpected value {:?}", other),
    }
    // A map (kind 18) of one entry, 3 to unit.
    let mut c = ByteCursor::new(&[18, 0, 0, 0, 1, 3, 0, 0, 0, 3, 0, 0, 0, 0, 0, 0, 0]);
    match ValProto::decode(&mut c) {
        Ok(ValProto::Table(es)) => {
            assert_eq!(es.len(), 1);
            assert!(matches!(es[0], (LeafVal::U32(3), LeafVal::Void)));
        }
        other => panic!("unexpected value {:?}", other),
    }
}

#[test]
fn sequences_and_maps_are_bounded() {
    // Count byte 7 means 7 mod 5 = 2 elements.
    let mut c = ByteCursor::new(&[7, 1, 0, 0, 0, 1, 0, 0, 0, 0]);
    let v = ValVecProto::decode(&mut c).unwrap();
    assert_eq!(v.items.len(), 2);
    assert!(matches!(v.items[0], ValProto::Leaf(LeafVal::Bool(true))));
    assert!(matches!(v.items[1], ValProto::Leaf(LeafVal::Void)));
    let mut c = ByteCursor::new(&[1, 3, 0, 0, 0, 3, 0, 0, 0, 0, 0, 0, 0]);
    let m = ValMapProto::decode(&mut c).unwrap();
    assert_eq!(m.entries.len(), 1);
    assert!(matches!(
        m.entries[0],
        (ValProto::Leaf(LeafVal::U32(3)), ValProto::Leaf(LeafVal::Void))
    ));
    let mut c = ByteCursor::new(&[1, 3, 0, 0, 0, 3, 0, 0, 0]);
    assert!(ValMapProto::decode(&mut c).is_err());
}
