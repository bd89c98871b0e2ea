use soroban_sdk::{Bytes, Env, Symbol};
use syscall_fuzz::catalog::{
    TypedFuzzInstructionPrototype, TypedModBufPrototype, TypedModCallPrototype,
    TypedModContextPrototype, TypedModIntPrototype,
};
use syscall_fuzz::host::{
    val_to_host, FakeVal, TypedFuzzInstruction, TypedModAddress, TypedModBuf, TypedModCall,
    TypedModContext, TypedModInt,
};
use syscall_fuzz::operand::{AddressProto, BytesProto, SymbolProto, ValVecProto};
use syscall_fuzz::value::{LeafVal, ValProto};

#[test]
fn zero_buffer_adapts_to_an_empty_host_byte_string() {
    let env = Env::default();
    let decoded = TypedFuzzInstructionPrototype::decode(&[0u8; 512]).unwrap();
    match decoded.to_guest(&env) {
        TypedFuzzInstruction::Address(TypedModAddress::AccountPublicKeyToAddress(b)) => {
            assert_eq!(b, Bytes::new(&env));
        }
        other => panic!("unexpected instruction {:?}", other),
    }
}

#[test]
fn scalars_pass_through_and_bytes_become_host_bytes() {
    let env = Env::default();
    let input = TypedFuzzInstructionPrototype::Buf(TypedModBufPrototype::BytesCopyFromLinearMemory(
        BytesProto { bytes: vec![1, 2, 3] },
        5,
        6,
        7,
    ));
    match input.to_guest(&env) {
        TypedFuzzInstruction::Buf(TypedModBuf::BytesCopyFromLinearMemory(b, x, y, z)) => {
            assert_eq!(b, Bytes::from_slice(&env, &[1, 2, 3]));
            assert_eq!((x, y, z), (5, 6, 7));
        }
        other => panic!("unexpected instruction {:?}", other),
    }
}

#[test]
fn wide_integers_pass_through() {
    let env = Env::default();
    let input = TypedFuzzInstructionPrototype::Int(TypedModIntPrototype::ObjToI128Hi64(-5));
    assert!(matches!(
        input.to_guest(&env),
        TypedFuzzInstruction::Int(TypedModInt::ObjToI128Hi64(-5))
    ));
}

#[test]
fn call_operands_become_host_objects() {
    let env = Env::default();
    let input = TypedFuzzInstructionPrototype::Call(TypedModCallPrototype::TryCall(
        AddressProto { contract_id: vec![7; 32] },
        SymbolProto { chars: b"run_it".to_vec() },
        ValVecProto {
            items: vec![ValProto::Leaf(LeafVal::U32(1)), ValProto::Leaf(LeafVal::Bool(false))],
        },
    ));
    match input.to_guest(&env) {
        TypedFuzzInstruction::Call(TypedModCall::TryCall(a, s, v)) => {
            assert_eq!(s, Symbol::new(&env, "run_it"));
            assert_eq!(v.len(), 2);
            let other = AddressProto { contract_id: vec![8; 32] };
            let input2 = TypedFuzzInstructionPrototype::Call(TypedModCallPrototype::Call(
                other,
                SymbolProto { chars: b"x".to_vec() },
                ValVecProto { items: vec![] },
            ));
            match input2.to_guest(&env) {
                TypedFuzzInstruction::Call(TypedModCall::Call(b, _, w)) => {
                    assert_ne!(a, b);
                    assert_eq!(w.len(), 0);
                }
                other => panic!("unexpected instruction {:?}", other),
            }
        }
        other => panic!("unexpected instruction {:?}", other),
    }
}

#[test]
fn small_generic_values_keep_their_payload() {
    let env = Env::default();
    let input = TypedFuzzInstructionPrototype::Context(TypedModContextPrototype::ObjCmp(
        ValProto::Leaf(LeafVal::U32(9)),
        ValProto::Leaf(LeafVal::Void),
    ));
    match input.to_guest(&env) {
        TypedFuzzInstruction::Context(TypedModContext::ObjCmp(a, b)) => {
            assert_eq!(a, FakeVal((9u64 << 32) | 4));
            assert_eq!(b, FakeVal(2));
        }
        other => panic!("unexpected instruction {:?}", other),
    }
}

#[test]
fn host_encodings_of_generic_values() {
    let env = Env::default();
    let bits = |v: ValProto| val_to_host(&env, &v).get_payload();
    assert_eq!(bits(ValProto::Leaf(LeafVal::Bool(true))), 1);
    assert_eq!(bits(ValProto::Leaf(LeafVal::Bool(false))), 0);
    assert_eq!(bits(ValProto::Leaf(LeafVal::I32(-1))), (0xFFFF_FFFFu64 << 32) | 5);
    assert_eq!(bits(ValProto::Leaf(LeafVal::Error(3, 5))), (5u64 << 32) | (3 << 8) | 3);
    assert_eq!(bits(ValProto::Leaf(LeafVal::U64(7))) & 0xFF, 6);
    assert_eq!(bits(ValProto::Leaf(LeafVal::U64(u64::MAX))) & 0xFF, 64);
    assert_eq!(bits(ValProto::Leaf(LeafVal::U256(1, 2, 3, 4))) & 0xFF, 70);
    assert_eq!(bits(ValProto::Leaf(LeafVal::I256(-1, 0, 0, 0))) & 0xFF, 71);
    assert_eq!(bits(ValProto::Leaf(LeafVal::Bytes(vec![1, 2]))) & 0xFF, 72);
    assert_eq!(bits(ValProto::Leaf(LeafVal::Symbol(b"abc".to_vec()))) & 0xFF, 14);
    assert_eq!(bits(ValProto::Leaf(LeafVal::Address(vec![1; 32]))) & 0xFF, 77);
    assert_eq!(bits(ValProto::Vec(vec![LeafVal::Void])) & 0xFF, 75);
    assert_eq!(
        bits(ValProto::Table(vec![(LeafVal::U32(1), LeafVal::Void)])) & 0xFF,
        76
    );
    let error = soroban_sdk::Error::from_type_and_code(
        soroban_sdk::xdr::ScErrorType::Storage,
        soroban_sdk::xdr::ScErrorCode::ExceededLimit,
    );
    let error_val: soroban_sdk::Val = error.into();
    assert_eq!(
        bits(ValProto::Leaf(LeafVal::Error(3, 5))),
        error_val.get_payload()
    );
}

#[test]
fn vector_operands_hold_their_values() {
    let env = Env::default();
    let input = TypedFuzzInstructionPrototype::Call(TypedModCallPrototype::Call(
        AddressProto { contract_id: vec![1; 32] },
        SymbolProto { chars: b"f".to_vec() },
        ValVecProto {
            items: vec![ValProto::Leaf(LeafVal::U32(5)), ValProto::Leaf(LeafVal::Void)],
        },
    ));
    match input.to_guest(&env) {
        TypedFuzzInstruction::Call(TypedModCall::Call(_, _, v)) => {
            assert_eq!(v.len(), 2);
            assert_eq!(v.get(0).unwrap().get_payload(), (5u64 << 32) | 4);
            assert_eq!(v.get(1).unwrap().get_payload(), 2);
        }
        other => panic!("unexpected instruction {:?}", other),
    }
}

#[test]
fn test_category_adapts_to_test() {
    let env = Env::default();
    assert!(matches!(
        TypedFuzzInstructionPrototype::Test.to_guest(&env),
        TypedFuzzInstruction::Test
    ));
}

#[test]
fn cost_meter_resets_to_baseline() {
    let env = Env::default();
    let _ = Bytes::from_slice(&env, &[1, 2, 3, 4]);
    let mut budget = env.cost_estimate().budget();
    budget.reset_unlimited();
    assert_eq!(budget.cpu_instruction_cost(), 0);
    assert_eq!(budget.memory_bytes_cost(), 0);
}
