use invalid_mutations::file_format::{
    FieldDefinition, FunctionDefinition, FunctionHandle, FunctionSignature, ModuleHandle,
    SignatureToken, StructDefinition, StructFieldInformation, StructHandle,
};
use invalid_mutations::{
    pick_slice_idxs, valid_pointer_srcs, ApplyOutOfBoundsContext, CompiledModule, SignatureTokenKind,
    FunctionSignatureTokenIndex, IndexKind, OutOfBoundsMutation, PointerKind, VMStaticViolation,
    VerificationError,
};
use proptest::prelude::any;
use proptest::sample::Index;
use proptest::strategy::{Strategy, ValueTree};
use proptest::test_runner::TestRunner;

fn selectors(n: usize) -> Vec<Index> {
    let mut runner = TestRunner::deterministic();
    (0..n)
        .map(|_| any::<Index>().new_tree(&mut runner).unwrap().current())
        .collect()
}

fn selector() -> Index {
    selectors(1)[0]
}

fn empty_module() -> CompiledModule {
    CompiledModule {
        module_handles: vec![],
        struct_handles: vec![],
        function_handles: vec![],
        struct_defs: vec![],
        field_defs: vec![],
        function_defs: vec![],
        type_signatures: vec![],
        function_signatures: vec![],
        locals_signatures: vec![],
        string_pool: vec![],
        byte_array_pool: vec![],
        address_pool: vec![],
    }
}

fn field(struct_: u16) -> FieldDefinition {
    FieldDefinition { struct_, name: 0, signature: 0 }
}

/// A small module with every table filled.
fn sample_module() -> CompiledModule {
    let mut m = empty_module();
    m.module_handles = vec![ModuleHandle { address: 0, name: 0 }];
    m.struct_handles = vec![
        StructHandle { module: 0, name: 1 },
        StructHandle { module: 0, name: 2 },
    ];
    m.function_handles = vec![FunctionHandle { module: 0, name: 3, signature: 0 }];
    m.struct_defs = vec![StructDefinition {
        struct_handle: 0,
        field_information: StructFieldInformation::Declared { field_count: 2, fields: 1 },
    }];
    m.field_defs = vec![field(1), field(0), field(0)];
    m.function_defs = vec![FunctionDefinition { function: 0, locals: 0 }];
    m.type_signatures = vec![SignatureToken::U64, SignatureToken::Struct(1)];
    m.function_signatures = vec![FunctionSignature {
        return_types: vec![SignatureToken::Bool],
        arg_types: vec![SignatureToken::Reference(Box::new(SignatureToken::Struct(0)))],
    }];
    m.locals_signatures = vec![vec![SignatureToken::U64, SignatureToken::Struct(0)]];
    m.string_pool = vec!["M".to_string(), "S".to_string(), "T".to_string(), "f".to_string()];
    m.byte_array_pool = vec![];
    m.address_pool = vec![vec![0u8; 32]];
    m
}

#[test]
fn pointer_kind_sanity() {
    let srcs = valid_pointer_srcs();
    for variant in IndexKind::variants() {
        if srcs.iter().any(|x| *x == variant) {
            assert!(
                !PointerKind::pointers_from(variant).is_empty(),
                "expected variant {:?} to be a valid pointer source",
                variant,
            );
        } else {
            assert!(
                PointerKind::pointers_from(variant).is_empty(),
                "expected variant {:?} to not be a valid pointer source",
                variant,
            );
        }
    }
}

#[test]
fn variants_lists_every_kind_once() {
    let v = IndexKind::variants();
    assert_eq!(v.len(), 15);
    assert!(v.contains(&IndexKind::ByteArrayPool));
    assert!(v.contains(&IndexKind::TypeParameter));
    for (i, a) in v.iter().enumerate() {
        for b in &v[i + 1..] {
            assert_ne!(a, b);
        }
    }
}

#[test]
fn nine_pointer_sources() {
    let srcs = valid_pointer_srcs();
    assert_eq!(srcs.len(), 9);
    assert_eq!(
        PointerKind::pointers_from(IndexKind::FunctionHandle),
        vec![
            PointerKind::One(IndexKind::ModuleHandle),
            PointerKind::One(IndexKind::StringPool),
            PointerKind::One(IndexKind::FunctionSignature),
        ]
    );
    assert_eq!(
        PointerKind::pointers_from(IndexKind::TypeSignature),
        vec![PointerKind::Optional(IndexKind::StructHandle)]
    );
    assert_eq!(PointerKind::Star(IndexKind::StructHandle).to_index_kind(), IndexKind::StructHandle);
}

#[test]
fn generated_destination_is_an_edge() {
    let sels = selectors(64);
    let srcs = valid_pointer_srcs();
    for (i, sel) in sels.iter().enumerate() {
        let src = srcs[i % srcs.len()];
        let m = OutOfBoundsMutation::from_selectors(src, sels[0], *sel, i % 16);
        assert_eq!(m.src_kind, src);
        assert_eq!(m.offset, i % 16);
        let dsts: Vec<IndexKind> =
            PointerKind::pointers_from(src).into_iter().map(|p| p.to_index_kind()).collect();
        assert!(dsts.contains(&m.dst_kind));
    }
}

#[test]
fn picks_are_distinct_and_in_range() {
    let sels = selectors(10);
    let picks = pick_slice_idxs(20, &sels);
    assert_eq!(picks.len(), 10);
    for (i, a) in picks.iter().enumerate() {
        assert!(*a < 20);
        for b in &picks[i + 1..] {
            assert_ne!(a, b);
        }
    }
    let mut all = pick_slice_idxs(4, &sels);
    all.sort();
    assert_eq!(all, vec![0, 1, 2, 3]);
    assert!(pick_slice_idxs(0, &sels).is_empty());
}

#[test]
fn single_mutation_gives_one_index_error() {
    // One module handle; the address pool has 1 entry; offset 5.
    let m = OutOfBoundsMutation::new(IndexKind::ModuleHandle, selector(), IndexKind::AddressPool, 5);
    let (module, errs) = ApplyOutOfBoundsContext::new(sample_module(), vec![m]).apply();
    assert_eq!(
        errs,
        vec![VerificationError {
            kind: IndexKind::ModuleHandle,
            idx: 0,
            err: VMStaticViolation::IndexOutOfBounds(IndexKind::AddressPool, 1, 6),
        }]
    );
    assert_eq!(module.module_handles[0].address, 6);
    assert_eq!(module.module_handles[0].name, 0);
}

#[test]
fn single_signature_mutation_rewrites_the_token() {
    // Two struct handles; only the second type signature refers to a struct.
    let m = OutOfBoundsMutation::new(IndexKind::TypeSignature, selector(), IndexKind::StructHandle, 0);
    let (module, errs) = ApplyOutOfBoundsContext::new(sample_module(), vec![m]).apply();
    assert_eq!(
        errs,
        vec![VerificationError {
            kind: IndexKind::TypeSignature,
            idx: 1,
            err: VMStaticViolation::IndexOutOfBounds(IndexKind::StructHandle, 2, 2),
        }]
    );
    assert_eq!(module.type_signatures[1], SignatureToken::Struct(2));
    assert_eq!(module.type_signatures[0], SignatureToken::U64);
}

#[test]
fn group_goes_to_distinct_sources() {
    let mut module = sample_module();
    module.struct_handles = (0..6).map(|i| StructHandle { module: 0, name: i % 4 }).collect();
    let muts: Vec<OutOfBoundsMutation> = selectors(4)
        .into_iter()
        .enumerate()
        .map(|(i, s)| OutOfBoundsMutation::new(IndexKind::StructHandle, s, IndexKind::StringPool, i))
        .collect();
    let (module, errs) = ApplyOutOfBoundsContext::new(module, muts).apply();
    assert_eq!(errs.len(), 4);
    for (i, e) in errs.iter().enumerate() {
        assert_eq!(e.kind, IndexKind::StructHandle);
        assert_eq!(e.err, VMStaticViolation::IndexOutOfBounds(IndexKind::StringPool, 4, 4 + i));
        assert_eq!(module.struct_handles[e.idx].name as usize, 4 + i);
        for f in &errs[i + 1..] {
            assert_ne!(e.idx, f.idx);
        }
    }
}

#[test]
fn more_mutations_than_sources() {
    let muts: Vec<OutOfBoundsMutation> = selectors(3)
        .into_iter()
        .map(|s| OutOfBoundsMutation::new(IndexKind::FunctionDefinition, s, IndexKind::LocalsSignature, 0))
        .collect();
    let (module, errs) = ApplyOutOfBoundsContext::new(sample_module(), muts).apply();
    assert_eq!(errs.len(), 1);
    assert_eq!(errs[0].err, VMStaticViolation::IndexOutOfBounds(IndexKind::LocalsSignature, 1, 1));
    assert_eq!(module.function_defs[0].locals, 1);
}

#[test]
fn field_range_moves_past_the_end() {
    // Fields [1, 3) of a table of 3, offset 0: the range becomes [2, 4).
    let m = OutOfBoundsMutation::new(IndexKind::StructDefinition, selector(), IndexKind::FieldDefinition, 0);
    let (module, errs) = ApplyOutOfBoundsContext::new(sample_module(), vec![m]).apply();
    assert_eq!(
        errs,
        vec![VerificationError {
            kind: IndexKind::StructDefinition,
            idx: 0,
            err: VMStaticViolation::RangeOutOfBounds(IndexKind::FieldDefinition, 3, 2, 4),
        }]
    );
    assert_eq!(
        module.struct_defs[0].field_information,
        StructFieldInformation::Declared { field_count: 2, fields: 2 }
    );
}

#[test]
fn native_struct_is_skipped() {
    let mut module = sample_module();
    module.struct_defs[0].field_information = StructFieldInformation::Native;
    let m = OutOfBoundsMutation::new(IndexKind::StructDefinition, selector(), IndexKind::FieldDefinition, 3);
    let (module, errs) = ApplyOutOfBoundsContext::new(module, vec![m]).apply();
    assert!(errs.is_empty());
    assert_eq!(module.struct_defs[0].field_information, StructFieldInformation::Native);
    let mut expected = sample_module();
    expected.struct_defs[0].field_information = StructFieldInformation::Native;
    assert_eq!(module, expected);
}

#[test]
fn empty_batch_changes_nothing() {
    let (module, errs) = ApplyOutOfBoundsContext::new(sample_module(), vec![]).apply();
    assert!(errs.is_empty());
    assert_eq!(module, sample_module());
    let (module, errs) = ApplyOutOfBoundsContext::new(empty_module(), vec![]).apply();
    assert!(errs.is_empty());
    assert_eq!(module, empty_module());
}

#[test]
fn function_signature_error_names_the_signature() {
    // Three struct-referring return tokens over two signatures; the third of them
    // is the return token at position 2 of signature 1.
    let mut module = sample_module();
    module.function_signatures = vec![
        FunctionSignature {
            return_types: vec![SignatureToken::Struct(0)],
            arg_types: vec![SignatureToken::U64],
        },
        FunctionSignature {
            return_types: vec![
                SignatureToken::MutableReference(Box::new(SignatureToken::Struct(1))),
                SignatureToken::Bool,
                SignatureToken::Struct(0),
            ],
            arg_types: vec![],
        },
    ];
    let mut ctx = ApplyOutOfBoundsContext::new(module, vec![]);
    assert_eq!(
        ctx.function_sig_structs,
        vec![
            FunctionSignatureTokenIndex::ReturnType(0, 0),
            FunctionSignatureTokenIndex::ReturnType(1, 0),
            FunctionSignatureTokenIndex::ReturnType(1, 2),
        ]
    );
    let err = ctx.set_index(IndexKind::FunctionSignature, 2, IndexKind::StructHandle, 2, 9);
    assert_eq!(
        err,
        Some(VerificationError {
            kind: IndexKind::FunctionSignature,
            idx: 1,
            err: VMStaticViolation::IndexOutOfBounds(IndexKind::StructHandle, 2, 9),
        })
    );
    assert_eq!(ctx.module.function_signatures[1].return_types[2], SignatureToken::Struct(9));
    assert_eq!(
        ctx.module.function_signatures[1].return_types[0],
        SignatureToken::MutableReference(Box::new(SignatureToken::Struct(1)))
    );
}

#[test]
fn nested_reference_token_is_rewritten() {
    let m = OutOfBoundsMutation::new(IndexKind::FunctionSignature, selector(), IndexKind::StructHandle, 1);
    let (module, errs) = ApplyOutOfBoundsContext::new(sample_module(), vec![m]).apply();
    assert_eq!(errs.len(), 1);
    assert_eq!(errs[0].idx, 0);
    assert_eq!(
        module.function_signatures[0].arg_types[0],
        SignatureToken::Reference(Box::new(SignatureToken::Struct(3)))
    );
}

#[test]
fn locals_and_field_mutations() {
    let sels = selectors(3);
    let muts = vec![
        OutOfBoundsMutation::new(IndexKind::LocalsSignature, sels[0], IndexKind::StructHandle, 2),
        OutOfBoundsMutation::new(IndexKind::FieldDefinition, sels[1], IndexKind::TypeSignature, 0),
        OutOfBoundsMutation::new(IndexKind::FunctionHandle, sels[2], IndexKind::FunctionSignature, 7),
    ];
    let (module, mut errs) = ApplyOutOfBoundsContext::new(sample_module(), muts).apply();
    errs.sort_by_key(|e| e.kind);
    assert_eq!(errs.len(), 3);
    assert_eq!(errs[0].kind, IndexKind::FunctionHandle);
    assert_eq!(errs[0].err, VMStaticViolation::IndexOutOfBounds(IndexKind::FunctionSignature, 1, 8));
    assert_eq!(module.function_handles[0].signature, 8);
    assert_eq!(errs[1].kind, IndexKind::FieldDefinition);
    assert_eq!(errs[1].err, VMStaticViolation::IndexOutOfBounds(IndexKind::TypeSignature, 2, 2));
    assert_eq!(module.field_defs[errs[1].idx].signature, 2);
    assert_eq!(errs[2], VerificationError {
        kind: IndexKind::LocalsSignature,
        idx: 0,
        err: VMStaticViolation::IndexOutOfBounds(IndexKind::StructHandle, 2, 4),
    });
    assert_eq!(module.locals_signatures[0][1], SignatureToken::Struct(4));
    assert_eq!(module.kind_count(IndexKind::StringPool), 4);
}

#[test]
fn kind_descriptions() {
    assert_eq!(IndexKind::CodeDefinition.description(), "code definition pool");
    assert_eq!(IndexKind::ByteArrayPool.description(), "byte_array pool");
    assert_eq!(IndexKind::LocalsSignature.description(), "locals signature");
    assert_eq!(SignatureTokenKind::MutableReference.description(), "mutable reference");
    assert_eq!(SignatureTokenKind::Value.description(), "value");
}

#[test]
fn token_struct_handles() {
    let t = SignatureToken::MutableReference(Box::new(SignatureToken::Struct(3)));
    assert_eq!(t.struct_index(), Some(3));
    assert_eq!(SignatureToken::Address.struct_index(), None);
    assert_eq!(
        t.with_struct_handle(7),
        SignatureToken::MutableReference(Box::new(SignatureToken::Struct(7)))
    );
    assert_eq!(SignatureToken::U64.with_struct_handle(7), SignatureToken::U64);
}

#[test]
fn caches_list_struct_tokens_in_order() {
    let mut module = sample_module();
    module.function_signatures.push(FunctionSignature {
        return_types: vec![SignatureToken::Struct(1)],
        arg_types: vec![SignatureToken::Struct(0), SignatureToken::Bool],
    });
    module.locals_signatures.push(vec![SignatureToken::Struct(1)]);
    let ctx = ApplyOutOfBoundsContext::new(module, vec![]);
    assert_eq!(ctx.type_sig_structs, vec![1]);
    assert_eq!(
        ctx.function_sig_structs,
        vec![
            FunctionSignatureTokenIndex::ReturnType(1, 0),
            FunctionSignatureTokenIndex::ArgType(0, 0),
            FunctionSignatureTokenIndex::ArgType(1, 0),
        ]
    );
    assert_eq!(ctx.locals_sig_structs, vec![(0, 1), (1, 0)]);
}

#[test]
fn apply_group_uses_the_given_picks() {
    let mut module = sample_module();
    module.field_defs = (0..5).map(field).collect();
    let sels = selectors(2);
    let muts = vec![
        OutOfBoundsMutation::new(IndexKind::FieldDefinition, sels[0], IndexKind::StructHandle, 1),
        OutOfBoundsMutation::new(IndexKind::FieldDefinition, sels[1], IndexKind::StructHandle, 3),
    ];
    let mut ctx = ApplyOutOfBoundsContext::new(module, vec![]);
    let errs = ctx.apply_group(IndexKind::FieldDefinition, IndexKind::StructHandle, &muts, &vec![4, 2]);
    assert_eq!(
        errs,
        vec![
            VerificationError {
                kind: IndexKind::FieldDefinition,
                idx: 4,
                err: VMStaticViolation::IndexOutOfBounds(IndexKind::StructHandle, 2, 3),
            },
            VerificationError {
                kind: IndexKind::FieldDefinition,
                idx: 2,
                err: VMStaticViolation::IndexOutOfBounds(IndexKind::StructHandle, 2, 5),
            },
        ]
    );
    assert_eq!(ctx.module.field_defs[4].struct_, 3);
    assert_eq!(ctx.module.field_defs[2].struct_, 5);
    assert_eq!(ctx.module.field_defs[0].struct_, 0);
}
