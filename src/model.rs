//! The mathematical model of mutation: where the corruptible pointers are, and what
//! applying mutations does to a module and which diagnostics it calls for.
use vstd::prelude::*;
use crate::bounds::{
    is_edge, pointer_dst, spec_pointers_from, OutOfBoundsMutation, PointerKind, OFFSET_BOUND,
};
use crate::file_format::{
    token_struct_handle, token_with_struct_handle, lemma_with_struct_handle, FieldDefinition,
    FunctionDefinition, FunctionHandle, FunctionSignatureView, ModuleHandle, ModuleView,
    SignatureToken, StructDefinition, StructFieldInformation, StructHandle, TableIndex,
    VMStaticViolation, VerificationError,
};
use crate::index_kind::IndexKind;

verus! {

/// A token of a function signature: a return type or an argument type, given by
/// the signature's position and the token's position within its list.
#[derive(Copy, Clone, Debug, PartialEq, Eq, Structural, Hash)]
pub enum FunctionSignatureTokenIndex {
    ReturnType(usize, usize),
    ArgType(usize, usize),
}

/// The positions, in order, of the tokens that refer to a struct.
pub open spec fn struct_positions(tokens: Seq<SignatureToken>) -> Seq<usize>
    decreases tokens.len(),
{
    if tokens.len() == 0 {
        seq![]
    } else {
        struct_positions(tokens.drop_last()) + if token_struct_handle(tokens.last()) is Some {
            seq![(tokens.len() - 1) as usize]
        } else {
            seq![]
        }
    }
}

/// The struct-referring return tokens of the signatures, signature by signature.
pub open spec fn return_structs(sigs: Seq<FunctionSignatureView>) -> Seq<
    FunctionSignatureTokenIndex,
>
    decreases sigs.len(),
{
    if sigs.len() == 0 {
        seq![]
    } else {
        return_structs(sigs.drop_last()) + struct_positions(sigs.last().return_types).map_values(
            |j: usize| FunctionSignatureTokenIndex::ReturnType((sigs.len() - 1) as usize, j),
        )
    }
}

/// The struct-referring argument tokens of the signatures, signature by signature.
pub open spec fn arg_structs(sigs: Seq<FunctionSignatureView>) -> Seq<FunctionSignatureTokenIndex>
    decreases sigs.len(),
{
    if sigs.len() == 0 {
        seq![]
    } else {
        arg_structs(sigs.drop_last()) + struct_positions(sigs.last().arg_types).map_values(
            |j: usize| FunctionSignatureTokenIndex::ArgType((sigs.len() - 1) as usize, j),
        )
    }
}

/// All struct-referring tokens of function signatures: every return token first,
/// then every argument token.
pub open spec fn function_structs(sigs: Seq<FunctionSignatureView>) -> Seq<
    FunctionSignatureTokenIndex,
> {
    return_structs(sigs) + arg_structs(sigs)
}

/// The struct-referring tokens of locals signatures, as (signature, position) pairs.
pub open spec fn locals_structs(sigs: Seq<Seq<SignatureToken>>) -> Seq<(usize, usize)>
    decreases sigs.len(),
{
    if sigs.len() == 0 {
        seq![]
    } else {
        locals_structs(sigs.drop_last()) + struct_positions(sigs.last()).map_values(
            |j: usize| ((sigs.len() - 1) as usize, j),
        )
    }
}

/// The function signature token `t` exists and refers to a struct.
pub open spec fn fn_token_valid(
    sigs: Seq<FunctionSignatureView>,
    t: FunctionSignatureTokenIndex,
) -> bool {
    match t {
        FunctionSignatureTokenIndex::ReturnType(a, j) => a < sigs.len() && j < sigs[a as int].return_types.len()
            && token_struct_handle(sigs[a as int].return_types[j as int]) is Some,
        FunctionSignatureTokenIndex::ArgType(a, j) => a < sigs.len() && j < sigs[a as int].arg_types.len()
            && token_struct_handle(sigs[a as int].arg_types[j as int]) is Some,
    }
}

/// The struct-referring return tokens, or argument tokens, of the signatures.
pub open spec fn sig_structs(sigs: Seq<FunctionSignatureView>, want_returns: bool) -> Seq<
    FunctionSignatureTokenIndex,
> {
    if want_returns {
        return_structs(sigs)
    } else {
        arg_structs(sigs)
    }
}

/// Every cached location lies in the module and holds a token that refers to a struct.
pub open spec fn caches_valid(
    m: ModuleView,
    type_c: Seq<usize>,
    fn_c: Seq<FunctionSignatureTokenIndex>,
    loc_c: Seq<(usize, usize)>,
) -> bool {
    &&& forall|k: int|
        0 <= k < type_c.len() ==> #[trigger] type_c[k] < m.type_signatures.len()
            && token_struct_handle(m.type_signatures[type_c[k] as int]) is Some
    &&& forall|k: int|
        0 <= k < fn_c.len() ==> fn_token_valid(m.function_signatures, #[trigger] fn_c[k])
    &&& forall|k: int|
        0 <= k < loc_c.len() ==> #[trigger] loc_c[k].0 < m.locals_signatures.len() && loc_c[k].1
            < m.locals_signatures[loc_c[k].0 as int].len() && token_struct_handle(
            m.locals_signatures[loc_c[k].0 as int][loc_c[k].1 as int],
        ) is Some
}

/// The diagnostic for an index set `new_idx` into a table of `dst_count` entries.
pub open spec fn index_error(
    src: IndexKind,
    idx: int,
    dst: IndexKind,
    dst_count: usize,
    new_idx: TableIndex,
) -> VerificationError {
    VerificationError {
        kind: src,
        idx: idx as usize,
        err: VMStaticViolation::IndexOutOfBounds(dst, dst_count, new_idx as usize),
    }
}

/// The module and diagnostic that come of setting, in the node at `src_idx` of
/// kind `src` (through the caches for signatures), the pointer to kind `dst` to
/// `new_idx`, where the destination table has `dst_count` entries.
pub open spec fn spec_set_index(
    m: ModuleView,
    type_c: Seq<usize>,
    fn_c: Seq<FunctionSignatureTokenIndex>,
    loc_c: Seq<(usize, usize)>,
    src: IndexKind,
    i: int,
    dst: IndexKind,
    dst_count: usize,
    new_idx: TableIndex,
) -> (ModuleView, Option<VerificationError>) {
    let e = Some(index_error(src, i, dst, dst_count, new_idx));
    match (src, dst) {
        (IndexKind::ModuleHandle, IndexKind::AddressPool) => (
            ModuleView {
                module_handles: m.module_handles.update(
                    i,
                    ModuleHandle { address: new_idx, ..m.module_handles[i] },
                ),
                ..m
            },
            e,
        ),
        (IndexKind::ModuleHandle, IndexKind::StringPool) => (
            ModuleView {
                module_handles: m.module_handles.update(
                    i,
                    ModuleHandle { name: new_idx, ..m.module_handles[i] },
                ),
                ..m
            },
            e,
        ),
        (IndexKind::StructHandle, IndexKind::ModuleHandle) => (
            ModuleView {
                struct_handles: m.struct_handles.update(
                    i,
                    StructHandle { module: new_idx, ..m.struct_handles[i] },
                ),
                ..m
            },
            e,
        ),
        (IndexKind::StructHandle, IndexKind::StringPool) => (
            ModuleView {
                struct_handles: m.struct_handles.update(
                    i,
                    StructHandle { name: new_idx, ..m.struct_handles[i] },
                ),
                ..m
            },
            e,
        ),
        (IndexKind::FunctionHandle, IndexKind::ModuleHandle) => (
            ModuleView {
                function_handles: m.function_handles.update(
                    i,
                    FunctionHandle { module: new_idx, ..m.function_handles[i] },
                ),
                ..m
            },
            e,
        ),
        (IndexKind::FunctionHandle, IndexKind::StringPool) => (
            ModuleView {
                function_handles: m.function_handles.update(
                    i,
                    FunctionHandle { name: new_idx, ..m.function_handles[i] },
                ),
                ..m
            },
            e,
        ),
        (IndexKind::FunctionHandle, IndexKind::FunctionSignature) => (
            ModuleView {
                function_handles: m.function_handles.update(
                    i,
                    FunctionHandle { signature: new_idx, ..m.function_handles[i] },
                ),
                ..m
            },
            e,
        ),
        (IndexKind::StructDefinition, IndexKind::StructHandle) => (
            ModuleView {
                struct_defs: m.struct_defs.update(
                    i,
                    StructDefinition { struct_handle: new_idx, ..m.struct_defs[i] },
                ),
                ..m
            },
            e,
        ),
        (IndexKind::StructDefinition, IndexKind::FieldDefinition) => {
            match m.struct_defs[i].field_information {
                StructFieldInformation::Native => (m, None),
                StructFieldInformation::Declared { field_count, .. } => {
                    let end = new_idx + 1;
                    let first = end - field_count;
                    (
                        ModuleView {
                            struct_defs: m.struct_defs.update(
                                i,
                                StructDefinition {
                                    field_information: StructFieldInformation::Declared {
                                        field_count,
                                        fields: first as TableIndex,
                                    },
                                    ..m.struct_defs[i]
                                },
                            ),
                            ..m
                        },
                        Some(
                            VerificationError {
                                kind: src,
                                idx: i as usize,
                                err: VMStaticViolation::RangeOutOfBounds(
                                    dst,
                                    dst_count,
                                    first as usize,
                                    end as usize,
                                ),
                            },
                        ),
                    )
                },
            }
        },
        (IndexKind::FieldDefinition, IndexKind::StructHandle) => (
            ModuleView {
                field_defs: m.field_defs.update(
                    i,
                    FieldDefinition { struct_: new_idx, ..m.field_defs[i] },
                ),
                ..m
            },
            e,
        ),
        (IndexKind::FieldDefinition, IndexKind::StringPool) => (
            ModuleView {
                field_defs: m.field_defs.update(
                    i,
                    FieldDefinition { name: new_idx, ..m.field_defs[i] },
                ),
                ..m
            },
            e,
        ),
        (IndexKind::FieldDefinition, IndexKind::TypeSignature) => (
            ModuleView {
                field_defs: m.field_defs.update(
                    i,
                    FieldDefinition { signature: new_idx, ..m.field_defs[i] },
                ),
                ..m
            },
            e,
        ),
        (IndexKind::FunctionDefinition, IndexKind::FunctionHandle) => (
            ModuleView {
                function_defs: m.function_defs.update(
                    i,
                    FunctionDefinition { function: new_idx, ..m.function_defs[i] },
                ),
                ..m
            },
            e,
        ),
        (IndexKind::FunctionDefinition, IndexKind::LocalsSignature) => (
            ModuleView {
                function_defs: m.function_defs.update(
                    i,
                    FunctionDefinition { locals: new_idx, ..m.function_defs[i] },
                ),
                ..m
            },
            e,
        ),
        (IndexKind::TypeSignature, IndexKind::StructHandle) => {
            let a = type_c[i] as int;
            (
                ModuleView {
                    type_signatures: m.type_signatures.update(
                        a,
                        token_with_struct_handle(m.type_signatures[a], new_idx),
                    ),
                    ..m
                },
                Some(index_error(src, a, dst, dst_count, new_idx)),
            )
        },
        (IndexKind::FunctionSignature, IndexKind::StructHandle) => {
            match fn_c[i] {
                FunctionSignatureTokenIndex::ReturnType(a, j) => {
                    let sig = m.function_signatures[a as int];
                    (
                        ModuleView {
                            function_signatures: m.function_signatures.update(
                                a as int,
                                FunctionSignatureView {
                                    return_types: sig.return_types.update(
                                        j as int,
                                        token_with_struct_handle(
                                            sig.return_types[j as int],
                                            new_idx,
                                        ),
                                    ),
                                    arg_types: sig.arg_types,
                                },
                            ),
                            ..m
                        },
                        Some(index_error(src, a as int, dst, dst_count, new_idx)),
                    )
                },
                FunctionSignatureTokenIndex::ArgType(a, j) => {
                    let sig = m.function_signatures[a as int];
                    (
                        ModuleView {
                            function_signatures: m.function_signatures.update(
                                a as int,
                                FunctionSignatureView {
                                    return_types: sig.return_types,
                                    arg_types: sig.arg_types.update(
                                        j as int,
                                        token_with_struct_handle(sig.arg_types[j as int], new_idx),
                                    ),
                                },
                            ),
                            ..m
                        },
                        Some(index_error(src, a as int, dst, dst_count, new_idx)),
                    )
                },
            }
        },
        (IndexKind::LocalsSignature, IndexKind::StructHandle) => {
            let (a, j) = loc_c[i];
            (
                ModuleView {
                    locals_signatures: m.locals_signatures.update(
                        a as int,
                        m.locals_signatures[a as int].update(
                            j as int,
                            token_with_struct_handle(m.locals_signatures[a as int][j as int], new_idx),
                        ),
                    ),
                    ..m
                },
                Some(index_error(src, a as int, dst, dst_count, new_idx)),
            )
        },
        _ => (m, None),
    }
}

/// Corrupting one pointer keeps the module well formed and every cached location
/// referring to a struct.
pub proof fn lemma_set_index_keeps_inv(
    m: ModuleView,
    type_c: Seq<usize>,
    fn_c: Seq<FunctionSignatureTokenIndex>,
    loc_c: Seq<(usize, usize)>,
    src: IndexKind,
    i: int,
    dst: IndexKind,
    dst_count: usize,
    new_idx: TableIndex,
)
    requires
        m.well_formed(),
        caches_valid(m, type_c, fn_c, loc_c),
        0 <= i,
        src is TypeSignature ==> i < type_c.len(),
        src is FunctionSignature ==> i < fn_c.len(),
        src is LocalsSignature ==> i < loc_c.len(),
        !(src is TypeSignature || src is FunctionSignature || src is LocalsSignature) ==> i
            < m.kind_count(src),
        dst_count == m.kind_count(dst),
        dst_count <= new_idx < 0xffff,
    ensures
        ({
            let m2 = spec_set_index(m, type_c, fn_c, loc_c, src, i, dst, dst_count, new_idx).0;
            &&& m2.well_formed()
            &&& caches_valid(m2, type_c, fn_c, loc_c)
            &&& forall|k: IndexKind| #[trigger] m2.kind_count(k) == m.kind_count(k)
        }),
{
    let m2 = spec_set_index(m, type_c, fn_c, loc_c, src, i, dst, dst_count, new_idx).0;
    match (src, dst) {
        (IndexKind::TypeSignature, IndexKind::StructHandle) => {
            lemma_with_struct_handle(m.type_signatures[type_c[i] as int], new_idx);
        },
        (IndexKind::FunctionSignature, IndexKind::StructHandle) => {
            match fn_c[i] {
                FunctionSignatureTokenIndex::ReturnType(a, j) => {
                    lemma_with_struct_handle(
                        m.function_signatures[a as int].return_types[j as int],
                        new_idx,
                    );
                },
                FunctionSignatureTokenIndex::ArgType(a, j) => {
                    lemma_with_struct_handle(
                        m.function_signatures[a as int].arg_types[j as int],
                        new_idx,
                    );
                },
            }
        },
        (IndexKind::LocalsSignature, IndexKind::StructHandle) => {
            let (a, j) = loc_c[i];
            lemma_with_struct_handle(m.locals_signatures[a as int][j as int], new_idx);
        },
        _ => {},
    }
    assert forall|k: IndexKind| #[trigger] m2.kind_count(k) == m.kind_count(k) by {}
    assert(m2.tables_fit());
    assert(m2.field_counts_fit());
}

/// The diagnostic, if any, as a sequence of zero or one.
pub open spec fn option_seq(e: Option<VerificationError>) -> Seq<VerificationError> {
    match e {
        Some(d) => seq![d],
        None => seq![],
    }
}

/// The index that a mutation with `offset` sets, in a table of `dst_count` entries.
pub open spec fn new_index(dst_count: usize, offset: usize) -> TableIndex {
    (dst_count + offset) as TableIndex
}

/// The module and diagnostics that come of applying `mutations[k]` at node
/// `picks[k]`, for each `k` in order.
pub open spec fn spec_apply_group(
    m: ModuleView,
    type_c: Seq<usize>,
    fn_c: Seq<FunctionSignatureTokenIndex>,
    loc_c: Seq<(usize, usize)>,
    src: IndexKind,
    dst: IndexKind,
    dst_count: usize,
    mutations: Seq<OutOfBoundsMutation>,
    picks: Seq<usize>,
) -> (ModuleView, Seq<VerificationError>)
    decreases picks.len(),
{
    if picks.len() == 0 {
        (m, seq![])
    } else {
        let n = picks.len() - 1;
        let prev = spec_apply_group(
            m,
            type_c,
            fn_c,
            loc_c,
            src,
            dst,
            dst_count,
            mutations,
            picks.drop_last(),
        );
        let step = spec_set_index(
            prev.0,
            type_c,
            fn_c,
            loc_c,
            src,
            picks[n] as int,
            dst,
            dst_count,
            new_index(dst_count, mutations[n].offset),
        );
        (step.0, prev.1 + option_seq(step.1))
    }
}

/// Whether the diagnostic, against module `m`, is reported at an entry of its
/// source table and names the true size of its destination table, with an index at
/// or past the end of it, or a range on the field definitions that ends past it.
pub open spec fn reports_out_of_bounds(m: ModuleView, d: VerificationError) -> bool {
    &&& d.idx < m.kind_count(d.kind)
    &&& match d.err {
        VMStaticViolation::IndexOutOfBounds(k, count, idx) => count == m.kind_count(k) && idx
            >= count,
        VMStaticViolation::RangeOutOfBounds(k, count, start, end) => k is FieldDefinition && count
            == m.kind_count(k) && start <= end && end > count,
    }
}

/// How many nodes of kind `k` can have a pointer corrupted: for signatures, the
/// cached tokens that refer to a struct; for other kinds, every entry of the table.
pub open spec fn src_population(
    m: ModuleView,
    type_c: Seq<usize>,
    fn_c: Seq<FunctionSignatureTokenIndex>,
    loc_c: Seq<(usize, usize)>,
    k: IndexKind,
) -> nat {
    match k {
        IndexKind::TypeSignature => type_c.len(),
        IndexKind::FunctionSignature => fn_c.len(),
        IndexKind::LocalsSignature => loc_c.len(),
        _ => m.kind_count(k),
    }
}

/// Every struct definition has declared fields.
pub open spec fn all_declared(m: ModuleView) -> bool {
    forall|i: int|
        0 <= i < m.struct_defs.len() ==> (#[trigger] m.struct_defs[i]).field_information is Declared
}

/// The one pair whose corruption may be skipped: a struct definition's field range.
pub open spec fn is_range_pair(src: IndexKind, dst: IndexKind) -> bool {
    src is StructDefinition && dst is FieldDefinition
}

/// An edge of the pointer model is one of the pairs that `set_index` handles.
pub proof fn lemma_edge_is_handled(src: IndexKind, dst: IndexKind)
    requires
        is_edge(src, dst),
    ensures
        match (src, dst) {
            (IndexKind::ModuleHandle, IndexKind::AddressPool)
            | (IndexKind::ModuleHandle, IndexKind::StringPool)
            | (IndexKind::StructHandle, IndexKind::ModuleHandle)
            | (IndexKind::StructHandle, IndexKind::StringPool)
            | (IndexKind::FunctionHandle, IndexKind::ModuleHandle)
            | (IndexKind::FunctionHandle, IndexKind::StringPool)
            | (IndexKind::FunctionHandle, IndexKind::FunctionSignature)
            | (IndexKind::StructDefinition, IndexKind::StructHandle)
            | (IndexKind::StructDefinition, IndexKind::FieldDefinition)
            | (IndexKind::FieldDefinition, IndexKind::StructHandle)
            | (IndexKind::FieldDefinition, IndexKind::StringPool)
            | (IndexKind::FieldDefinition, IndexKind::TypeSignature)
            | (IndexKind::FunctionDefinition, IndexKind::FunctionHandle)
            | (IndexKind::FunctionDefinition, IndexKind::LocalsSignature)
            | (IndexKind::TypeSignature, IndexKind::StructHandle)
            | (IndexKind::FunctionSignature, IndexKind::StructHandle)
            | (IndexKind::LocalsSignature, IndexKind::StructHandle) => true,
            _ => false,
        },
{
    let i = choose|i: int|
        0 <= i < spec_pointers_from(src).len() && #[trigger] pointer_dst(spec_pointers_from(src)[i])
            == dst;
    assert(0 <= i < spec_pointers_from(src).len());
    assert(pointer_dst(spec_pointers_from(src)[i]) == dst);
}

/// The diagnostic of one corruption reports, at an entry of the source table, an
/// index or range past the end of the destination table of `m`, whose table sizes
/// `m1` shares.
#[verifier::rlimit(30)]
pub proof fn lemma_step_reports(
    m: ModuleView,
    m1: ModuleView,
    type_c: Seq<usize>,
    fn_c: Seq<FunctionSignatureTokenIndex>,
    loc_c: Seq<(usize, usize)>,
    src: IndexKind,
    i: int,
    dst: IndexKind,
    dst_count: usize,
    new_idx: TableIndex,
)
    requires
        m1.well_formed(),
        caches_valid(m1, type_c, fn_c, loc_c),
        forall|k: IndexKind| #[trigger] m1.kind_count(k) == m.kind_count(k),
        0 <= i < src_population(m1, type_c, fn_c, loc_c, src),
        dst_count == m.kind_count(dst),
        dst_count <= new_idx < 0xffff,
    ensures
        ({
            let e = spec_set_index(m1, type_c, fn_c, loc_c, src, i, dst, dst_count, new_idx).1;
            e is Some ==> reports_out_of_bounds(m, e->Some_0)
        }),
{
    let e = spec_set_index(m1, type_c, fn_c, loc_c, src, i, dst, dst_count, new_idx).1;
    if e is Some {
        let d = e->Some_0;
        assert(m1.kind_count(src) == m.kind_count(src));
        match (src, dst) {
            (IndexKind::TypeSignature, IndexKind::StructHandle) => {
                assert(type_c[i] < m1.type_signatures.len());
            },
            (IndexKind::FunctionSignature, IndexKind::StructHandle) => {
                assert(fn_token_valid(m1.function_signatures, fn_c[i]));
            },
            (IndexKind::LocalsSignature, IndexKind::StructHandle) => {
                assert(loc_c[i].0 < m1.locals_signatures.len());
            },
            (IndexKind::StructDefinition, IndexKind::FieldDefinition) => {
                assert(m1.field_counts_fit());
                let fi = m1.struct_defs[i].field_information;
                assert(match fi {
                    StructFieldInformation::Native => true,
                    StructFieldInformation::Declared { field_count, .. } => field_count
                        <= m1.field_defs.len(),
                });
                if let StructFieldInformation::Declared { field_count, .. } = fi {
                    let end = new_idx + 1;
                    let first = end - field_count;
                    assert(field_count <= m1.field_defs.len());
                    assert(m1.field_defs.len() == m1.kind_count(IndexKind::FieldDefinition));
                    assert(m1.kind_count(IndexKind::FieldDefinition) == dst_count);
                    assert(0 <= first <= end);
                    assert(d.err == VMStaticViolation::RangeOutOfBounds(
                        dst,
                        dst_count,
                        (first as TableIndex) as usize,
                        end as usize,
                    ));
                }
            },
            _ => {
                assert(d.err == VMStaticViolation::IndexOutOfBounds(
                    dst,
                    dst_count,
                    new_idx as usize,
                ));
            },
        }
        assert(d.idx < m.kind_count(d.kind));
        assert(reports_out_of_bounds(m, d));
    }
}

/// Applying a group keeps the module well formed, its table sizes and its cached
/// locations, and keeps every struct declared if all were. It gives at most one
/// diagnostic per pick, exactly one unless the pair is a struct's field range over
/// a native struct, and each of them reports, at an entry of the source table, an
/// index or range past the end of the destination table.
#[verifier::rlimit(30)]
pub proof fn lemma_apply_group_diagnostics(
    m: ModuleView,
    type_c: Seq<usize>,
    fn_c: Seq<FunctionSignatureTokenIndex>,
    loc_c: Seq<(usize, usize)>,
    src: IndexKind,
    dst: IndexKind,
    dst_count: usize,
    mutations: Seq<OutOfBoundsMutation>,
    picks: Seq<usize>,
)
    requires
        m.well_formed(),
        caches_valid(m, type_c, fn_c, loc_c),
        is_edge(src, dst),
        dst_count == m.kind_count(dst),
        picks.len() <= mutations.len(),
        forall|k: int| 0 <= k < picks.len() ==> #[trigger] picks[k] < src_population(m, type_c, fn_c, loc_c, src),
        forall|k: int| 0 <= k < mutations.len() ==> (#[trigger] mutations[k]).offset < OFFSET_BOUND,
    ensures
        ({
            let (m2, diags) = spec_apply_group(
                m,
                type_c,
                fn_c,
                loc_c,
                src,
                dst,
                dst_count,
                mutations,
                picks,
            );
            &&& m2.well_formed()
            &&& caches_valid(m2, type_c, fn_c, loc_c)
            &&& forall|k: IndexKind| #[trigger] m2.kind_count(k) == m.kind_count(k)
            &&& all_declared(m) ==> all_declared(m2)
            &&& diags.len() <= picks.len()
            &&& !is_range_pair(src, dst) || all_declared(m) ==> diags.len() == picks.len()
            &&& forall|k: int| 0 <= k < diags.len() ==> reports_out_of_bounds(m, #[trigger] diags[k])
        }),
    decreases picks.len(),
{
    lemma_edge_is_handled(src, dst);
    if picks.len() > 0 {
        lemma_apply_group_diagnostics(
            m,
            type_c,
            fn_c,
            loc_c,
            src,
            dst,
            dst_count,
            mutations,
            picks.drop_last(),
        );
        let prev = spec_apply_group(
            m,
            type_c,
            fn_c,
            loc_c,
            src,
            dst,
            dst_count,
            mutations,
            picks.drop_last(),
        );
        let n = picks.len() - 1;
        let i = picks[n] as int;
        let new_idx = new_index(dst_count, mutations[n].offset);
        assert(mutations[n].offset < OFFSET_BOUND);
        assert(m.kind_count(dst) + 16 < 0x10000);
        assert(picks[n] < src_population(m, type_c, fn_c, loc_c, src));
        lemma_set_index_keeps_inv(prev.0, type_c, fn_c, loc_c, src, i, dst, dst_count, new_idx);
        let step = spec_set_index(prev.0, type_c, fn_c, loc_c, src, i, dst, dst_count, new_idx);
        if all_declared(m) {
            if is_range_pair(src, dst) {
                assert(prev.0.kind_count(IndexKind::StructDefinition) == m.kind_count(
                    IndexKind::StructDefinition,
                ));
                assert(0 <= i < prev.0.struct_defs.len());
                assert(all_declared(prev.0));
                assert(prev.0.struct_defs[i].field_information is Declared);
            }
            assert forall|j: int| 0 <= j < step.0.struct_defs.len() implies (
            #[trigger] step.0.struct_defs[j]).field_information is Declared by {
                assert(prev.0.struct_defs[j].field_information is Declared);
            }
        }
        lemma_step_reports(m, prev.0, type_c, fn_c, loc_c, src, i, dst, dst_count, new_idx);
        let diags = prev.1 + option_seq(step.1);
        assert forall|k: int| 0 <= k < diags.len() implies reports_out_of_bounds(
            m,
            #[trigger] diags[k],
        ) by {
            if k >= prev.1.len() {
                assert(diags[k] == step.1->Some_0);
            } else {
                assert(diags[k] == prev.1[k]);
            }
        }
    }
}

/// The value of the pointer of kind `dst` held by the `i`-th corruptible node of
/// kind `src` (through the caches for signatures); `None` for a pair that is not a
/// single pointer.
pub open spec fn pointer_at(
    m: ModuleView,
    type_c: Seq<usize>,
    fn_c: Seq<FunctionSignatureTokenIndex>,
    loc_c: Seq<(usize, usize)>,
    src: IndexKind,
    i: int,
    dst: IndexKind,
) -> Option<TableIndex> {
    match (src, dst) {
        (IndexKind::ModuleHandle, IndexKind::AddressPool) => Some(m.module_handles[i].address),
        (IndexKind::ModuleHandle, IndexKind::StringPool) => Some(m.module_handles[i].name),
        (IndexKind::StructHandle, IndexKind::ModuleHandle) => Some(m.struct_handles[i].module),
        (IndexKind::StructHandle, IndexKind::StringPool) => Some(m.struct_handles[i].name),
        (IndexKind::FunctionHandle, IndexKind::ModuleHandle) => Some(m.function_handles[i].module),
        (IndexKind::FunctionHandle, IndexKind::StringPool) => Some(m.function_handles[i].name),
        (IndexKind::FunctionHandle, IndexKind::FunctionSignature) => Some(
            m.function_handles[i].signature,
        ),
        (IndexKind::StructDefinition, IndexKind::StructHandle) => Some(
            m.struct_defs[i].struct_handle,
        ),
        (IndexKind::FieldDefinition, IndexKind::StructHandle) => Some(m.field_defs[i].struct_),
        (IndexKind::FieldDefinition, IndexKind::StringPool) => Some(m.field_defs[i].name),
        (IndexKind::FieldDefinition, IndexKind::TypeSignature) => Some(m.field_defs[i].signature),
        (IndexKind::FunctionDefinition, IndexKind::FunctionHandle) => Some(
            m.function_defs[i].function,
        ),
        (IndexKind::FunctionDefinition, IndexKind::LocalsSignature) => Some(
            m.function_defs[i].locals,
        ),
        (IndexKind::TypeSignature, IndexKind::StructHandle) => token_struct_handle(
            m.type_signatures[type_c[i] as int],
        ),
        (IndexKind::FunctionSignature, IndexKind::StructHandle) => match fn_c[i] {
            FunctionSignatureTokenIndex::ReturnType(a, j) => token_struct_handle(
                m.function_signatures[a as int].return_types[j as int],
            ),
            FunctionSignatureTokenIndex::ArgType(a, j) => token_struct_handle(
                m.function_signatures[a as int].arg_types[j as int],
            ),
        },
        (IndexKind::LocalsSignature, IndexKind::StructHandle) => token_struct_handle(
            m.locals_signatures[loc_c[i].0 as int][loc_c[i].1 as int],
        ),
        _ => None,
    }
}

/// A single mutation of offset `o` on a pair other than a field range, against a
/// destination table of `dst_count` entries, gives exactly one diagnostic,
/// `IndexOutOfBounds(dst, dst_count, dst_count + o)`, and the corrupted pointer then
/// reads `dst_count + o`.
pub proof fn lemma_single_mutation(
    m: ModuleView,
    type_c: Seq<usize>,
    fn_c: Seq<FunctionSignatureTokenIndex>,
    loc_c: Seq<(usize, usize)>,
    mutation: OutOfBoundsMutation,
    pick: usize,
    dst_count: usize,
)
    requires
        m.well_formed(),
        caches_valid(m, type_c, fn_c, loc_c),
        mutation.wf(),
        !is_range_pair(mutation.src_kind, mutation.dst_kind),
        mutation.src_kind is TypeSignature ==> pick < type_c.len(),
        mutation.src_kind is FunctionSignature ==> pick < fn_c.len(),
        mutation.src_kind is LocalsSignature ==> pick < loc_c.len(),
        !(mutation.src_kind is TypeSignature || mutation.src_kind is FunctionSignature
            || mutation.src_kind is LocalsSignature) ==> pick < m.kind_count(mutation.src_kind),
        dst_count == m.kind_count(mutation.dst_kind),
    ensures
        ({
            let (m2, diags) = spec_apply_group(
                m,
                type_c,
                fn_c,
                loc_c,
                mutation.src_kind,
                mutation.dst_kind,
                dst_count,
                seq![mutation],
                seq![pick],
            );
            &&& diags.len() == 1
            &&& diags[0].err == VMStaticViolation::IndexOutOfBounds(
                mutation.dst_kind,
                dst_count,
                (dst_count + mutation.offset) as usize,
            )
            &&& pointer_at(m2, type_c, fn_c, loc_c, mutation.src_kind, pick as int, mutation.dst_kind)
                == Some((dst_count + mutation.offset) as TableIndex)
        }),
{
    let src = mutation.src_kind;
    let dst = mutation.dst_kind;
    lemma_edge_is_handled(src, dst);
    assert(m.kind_count(dst) + 16 < 0x10000);
    assert(seq![pick].drop_last() =~= Seq::<usize>::empty());
    let new_idx = new_index(dst_count, mutation.offset);
    let prev = spec_apply_group(m, type_c, fn_c, loc_c, src, dst, dst_count, seq![mutation], seq![pick].drop_last());
    assert(prev == (m, Seq::<VerificationError>::empty()));
    assert(seq![mutation][0] == mutation);
    assert(seq![pick][0] == pick);
    let step = spec_set_index(m, type_c, fn_c, loc_c, src, pick as int, dst, dst_count, new_idx);
    let g = spec_apply_group(m, type_c, fn_c, loc_c, src, dst, dst_count, seq![mutation], seq![pick]);
    assert(g.0 == step.0);
    assert(g.1 == Seq::<VerificationError>::empty() + option_seq(step.1));
    match (src, dst) {
        (IndexKind::TypeSignature, IndexKind::StructHandle) => {
            lemma_with_struct_handle(m.type_signatures[type_c[pick as int] as int], new_idx);
        },
        (IndexKind::FunctionSignature, IndexKind::StructHandle) => {
            match fn_c[pick as int] {
                FunctionSignatureTokenIndex::ReturnType(a, j) => {
                    lemma_with_struct_handle(
                        m.function_signatures[a as int].return_types[j as int],
                        new_idx,
                    );
                },
                FunctionSignatureTokenIndex::ArgType(a, j) => {
                    lemma_with_struct_handle(
                        m.function_signatures[a as int].arg_types[j as int],
                        new_idx,
                    );
                },
            }
        },
        (IndexKind::LocalsSignature, IndexKind::StructHandle) => {
            let (a, j) = loc_c[pick as int];
            lemma_with_struct_handle(m.locals_signatures[a as int][j as int], new_idx);
        },
        _ => {},
    }
}

/// A struct definition with no declared fields has no field range to corrupt: the
/// module is left as it is and no diagnostic comes of it.
pub proof fn lemma_native_struct_skipped(
    m: ModuleView,
    type_c: Seq<usize>,
    fn_c: Seq<FunctionSignatureTokenIndex>,
    loc_c: Seq<(usize, usize)>,
    i: int,
    dst_count: usize,
    new_idx: TableIndex,
)
    requires
        0 <= i < m.struct_defs.len(),
        m.struct_defs[i].field_information is Native,
    ensures
        spec_set_index(
            m,
            type_c,
            fn_c,
            loc_c,
            IndexKind::StructDefinition,
            i,
            IndexKind::FieldDefinition,
            dst_count,
            new_idx,
        ) == (m, Option::<VerificationError>::None),
{
}

/// Whether a mutation is of the pair (`s`, `d`).
pub open spec fn in_pair(s: IndexKind, d: IndexKind) -> spec_fn(OutOfBoundsMutation) -> bool {
    |m: OutOfBoundsMutation| m.src_kind == s && m.dst_kind == d
}

/// Every edge of the pointer model, source by source, in the model's order.
pub open spec fn spec_edge_pairs() -> Seq<(IndexKind, IndexKind)> {
    seq![
        (IndexKind::ModuleHandle, IndexKind::AddressPool),
        (IndexKind::ModuleHandle, IndexKind::StringPool),
        (IndexKind::StructHandle, IndexKind::ModuleHandle),
        (IndexKind::StructHandle, IndexKind::StringPool),
        (IndexKind::FunctionHandle, IndexKind::ModuleHandle),
        (IndexKind::FunctionHandle, IndexKind::StringPool),
        (IndexKind::FunctionHandle, IndexKind::FunctionSignature),
        (IndexKind::StructDefinition, IndexKind::StructHandle),
        (IndexKind::StructDefinition, IndexKind::FieldDefinition),
        (IndexKind::FieldDefinition, IndexKind::StructHandle),
        (IndexKind::FieldDefinition, IndexKind::StringPool),
        (IndexKind::FieldDefinition, IndexKind::TypeSignature),
        (IndexKind::FunctionDefinition, IndexKind::FunctionHandle),
        (IndexKind::FunctionDefinition, IndexKind::LocalsSignature),
        (IndexKind::TypeSignature, IndexKind::StructHandle),
        (IndexKind::FunctionSignature, IndexKind::StructHandle),
        (IndexKind::LocalsSignature, IndexKind::StructHandle),
    ]
}

/// The module and diagnostics that come of applying, pair by pair in the order of
/// `pairs`, the mutations of each pair (in batch order) at the picks `picks[n]` of
/// the `n`-th pair.
pub open spec fn spec_apply_pairs(
    m: ModuleView,
    type_c: Seq<usize>,
    fn_c: Seq<FunctionSignatureTokenIndex>,
    loc_c: Seq<(usize, usize)>,
    mutations: Seq<OutOfBoundsMutation>,
    pairs: Seq<(IndexKind, IndexKind)>,
    picks: Seq<Seq<usize>>,
) -> (ModuleView, Seq<VerificationError>)
    decreases pairs.len(),
{
    if pairs.len() == 0 || picks.len() == 0 {
        (m, seq![])
    } else {
        let prev = spec_apply_pairs(
            m,
            type_c,
            fn_c,
            loc_c,
            mutations,
            pairs.drop_last(),
            picks.drop_last(),
        );
        let (s, d) = pairs.last();
        let g = spec_apply_group(
            prev.0,
            type_c,
            fn_c,
            loc_c,
            s,
            d,
            prev.0.kind_count(d) as usize,
            mutations.filter(in_pair(s, d)),
            picks.last(),
        );
        (g.0, prev.1 + g.1)
    }
}

/// The edges out of each kind of `srcs`, in order.
pub open spec fn edge_pairs_of(srcs: Seq<IndexKind>) -> Seq<(IndexKind, IndexKind)>
    decreases srcs.len(),
{
    if srcs.len() == 0 {
        seq![]
    } else {
        edge_pairs_of(srcs.drop_last()) + spec_pointers_from(srcs.last()).map_values(
            |q: PointerKind| (srcs.last(), pointer_dst(q)),
        )
    }
}

/// Each listed pair is an edge of the pointer model.
pub proof fn lemma_edge_pair_is_edge(n: int)
    requires
        0 <= n < spec_edge_pairs().len(),
    ensures
        is_edge(spec_edge_pairs()[n].0, spec_edge_pairs()[n].1),
{
    let (s, d) = spec_edge_pairs()[n];
    let ptrs = spec_pointers_from(s);
    if n == 0 || n == 2 || n == 4 || n == 7 || n == 9 || n == 12 || n >= 14 {
        assert(pointer_dst(ptrs[0]) == d);
    } else if n == 1 || n == 3 || n == 5 || n == 8 || n == 10 || n == 13 {
        assert(pointer_dst(ptrs[1]) == d);
    } else {
        assert(pointer_dst(ptrs[2]) == d);
    }
}

/// The position of the pair (`s`, `d`) among the edges of the pointer model.
pub open spec fn edge_position(s: IndexKind, d: IndexKind) -> int {
    match (s, d) {
        (IndexKind::ModuleHandle, IndexKind::AddressPool) => 0,
        (IndexKind::ModuleHandle, IndexKind::StringPool) => 1,
        (IndexKind::StructHandle, IndexKind::ModuleHandle) => 2,
        (IndexKind::StructHandle, IndexKind::StringPool) => 3,
        (IndexKind::FunctionHandle, IndexKind::ModuleHandle) => 4,
        (IndexKind::FunctionHandle, IndexKind::StringPool) => 5,
        (IndexKind::FunctionHandle, IndexKind::FunctionSignature) => 6,
        (IndexKind::StructDefinition, IndexKind::StructHandle) => 7,
        (IndexKind::StructDefinition, IndexKind::FieldDefinition) => 8,
        (IndexKind::FieldDefinition, IndexKind::StructHandle) => 9,
        (IndexKind::FieldDefinition, IndexKind::StringPool) => 10,
        (IndexKind::FieldDefinition, IndexKind::TypeSignature) => 11,
        (IndexKind::FunctionDefinition, IndexKind::FunctionHandle) => 12,
        (IndexKind::FunctionDefinition, IndexKind::LocalsSignature) => 13,
        (IndexKind::TypeSignature, IndexKind::StructHandle) => 14,
        (IndexKind::FunctionSignature, IndexKind::StructHandle) => 15,
        (IndexKind::LocalsSignature, IndexKind::StructHandle) => 16,
        _ => -1,
    }
}

/// Each edge stands at its own position in the list of edges.
pub proof fn lemma_edge_position(n: int)
    requires
        0 <= n < spec_edge_pairs().len(),
    ensures
        edge_position(spec_edge_pairs()[n].0, spec_edge_pairs()[n].1) == n,
{
    if n == 0 {
        assert(edge_position(spec_edge_pairs()[n].0, spec_edge_pairs()[n].1) == n)
    } else if n == 1 {
        assert(edge_position(spec_edge_pairs()[n].0, spec_edge_pairs()[n].1) == n)
    } else if n == 2 {
        assert(edge_position(spec_edge_pairs()[n].0, spec_edge_pairs()[n].1) == n)
    } else if n == 3 {
        assert(edge_position(spec_edge_pairs()[n].0, spec_edge_pairs()[n].1) == n)
    } else if n == 4 {
        assert(edge_position(spec_edge_pairs()[n].0, spec_edge_pairs()[n].1) == n)
    } else if n == 5 {
        assert(edge_position(spec_edge_pairs()[n].0, spec_edge_pairs()[n].1) == n)
    } else if n == 6 {
        assert(edge_position(spec_edge_pairs()[n].0, spec_edge_pairs()[n].1) == n)
    } else if n == 7 {
        assert(edge_position(spec_edge_pairs()[n].0, spec_edge_pairs()[n].1) == n)
    } else if n == 8 {
        assert(edge_position(spec_edge_pairs()[n].0, spec_edge_pairs()[n].1) == n)
    } else if n == 9 {
        assert(edge_position(spec_edge_pairs()[n].0, spec_edge_pairs()[n].1) == n)
    } else if n == 10 {
        assert(edge_position(spec_edge_pairs()[n].0, spec_edge_pairs()[n].1) == n)
    } else if n == 11 {
        assert(edge_position(spec_edge_pairs()[n].0, spec_edge_pairs()[n].1) == n)
    } else if n == 12 {
        assert(edge_position(spec_edge_pairs()[n].0, spec_edge_pairs()[n].1) == n)
    } else if n == 13 {
        assert(edge_position(spec_edge_pairs()[n].0, spec_edge_pairs()[n].1) == n)
    } else if n == 14 {
        assert(edge_position(spec_edge_pairs()[n].0, spec_edge_pairs()[n].1) == n)
    } else if n == 15 {
        assert(edge_position(spec_edge_pairs()[n].0, spec_edge_pairs()[n].1) == n)
    } else if n == 16 {
        assert(edge_position(spec_edge_pairs()[n].0, spec_edge_pairs()[n].1) == n)
    }
}

/// An edge of the pointer model is listed at its position.
pub proof fn lemma_edge_listed(s: IndexKind, d: IndexKind)
    requires
        is_edge(s, d),
    ensures
        0 <= edge_position(s, d) < spec_edge_pairs().len(),
        spec_edge_pairs()[edge_position(s, d)] == (s, d),
{
    lemma_edge_is_handled(s, d);
}

/// Filtering by a predicate that every element meets keeps the whole sequence.
pub proof fn lemma_filter_all(v: Seq<OutOfBoundsMutation>, p: spec_fn(OutOfBoundsMutation) -> bool)
    requires
        forall|k: int| 0 <= k < v.len() ==> #[trigger] p(v[k]),
    ensures
        v.filter(p) == v,
    decreases v.len(),
{
    reveal_with_fuel(Seq::filter, 1);
    if v.len() > 0 {
        lemma_filter_all(v.drop_last(), p);
        assert(p(v[v.len() - 1]));
        assert(v.drop_last().push(v.last()) =~= v);
    }
}

/// When every mutation is of the pair at position `n0` and no other pair has a
/// pick, applying the pairs in order up to `k` does nothing before `n0`, and from
/// then on is applying that one group.
pub proof fn lemma_apply_pairs_single(
    m: ModuleView,
    type_c: Seq<usize>,
    fn_c: Seq<FunctionSignatureTokenIndex>,
    loc_c: Seq<(usize, usize)>,
    mutations: Seq<OutOfBoundsMutation>,
    picks: Seq<Seq<usize>>,
    n0: int,
    k: int,
)
    requires
        0 <= n0 < spec_edge_pairs().len(),
        0 <= k <= spec_edge_pairs().len(),
        picks.len() == spec_edge_pairs().len(),
        forall|j: int| 0 <= j < picks.len() && j != n0 ==> (#[trigger] picks[j]).len() == 0,
        mutations.filter(in_pair(spec_edge_pairs()[n0].0, spec_edge_pairs()[n0].1)) == mutations,
    ensures
        spec_apply_pairs(
            m,
            type_c,
            fn_c,
            loc_c,
            mutations,
            spec_edge_pairs().take(k),
            picks.take(k),
        ) == if k <= n0 {
            (m, Seq::<VerificationError>::empty())
        } else {
            spec_apply_group(
                m,
                type_c,
                fn_c,
                loc_c,
                spec_edge_pairs()[n0].0,
                spec_edge_pairs()[n0].1,
                m.kind_count(spec_edge_pairs()[n0].1) as usize,
                mutations,
                picks[n0],
            )
        },
    decreases k,
{
    let pairs = spec_edge_pairs();
    if k > 0 {
        lemma_apply_pairs_single(m, type_c, fn_c, loc_c, mutations, picks, n0, k - 1);
        assert(pairs.take(k).drop_last() =~= pairs.take(k - 1));
        assert(picks.take(k).drop_last() =~= picks.take(k - 1));
        assert(pairs.take(k).last() == pairs[k - 1]);
        assert(picks.take(k).last() == picks[k - 1]);
        let prev = spec_apply_pairs(
            m,
            type_c,
            fn_c,
            loc_c,
            mutations,
            pairs.take(k - 1),
            picks.take(k - 1),
        );
        let (s, d) = pairs[k - 1];
        let g = spec_apply_group(
            prev.0,
            type_c,
            fn_c,
            loc_c,
            s,
            d,
            prev.0.kind_count(d) as usize,
            mutations.filter(in_pair(s, d)),
            picks[k - 1],
        );
        if k - 1 == n0 {
            assert(Seq::<VerificationError>::empty() + g.1 =~= g.1);
        } else {
            assert(picks[k - 1].len() == 0);
            assert(prev.1 + g.1 =~= prev.1);
        }
    } else {
        assert(pairs.take(0).len() == 0);
    }
}

/// Two token lists of one length whose tokens refer to a struct at the same places.
pub open spec fn same_shape(a: Seq<SignatureToken>, b: Seq<SignatureToken>) -> bool {
    &&& a.len() == b.len()
    &&& forall|i: int|
        0 <= i < a.len() ==> (token_struct_handle(#[trigger] a[i]) is Some) == (
        token_struct_handle(b[i]) is Some)
}

/// Token lists of the same shape have the same struct positions.
pub proof fn lemma_struct_positions_same(a: Seq<SignatureToken>, b: Seq<SignatureToken>)
    requires
        same_shape(a, b),
    ensures
        struct_positions(a) == struct_positions(b),
    decreases a.len(),
{
    if a.len() > 0 {
        assert(same_shape(a.drop_last(), b.drop_last())) by {
            assert forall|i: int| 0 <= i < a.drop_last().len() implies (token_struct_handle(
                #[trigger] a.drop_last()[i],
            ) is Some) == (token_struct_handle(b.drop_last()[i]) is Some) by {
                assert(a.drop_last()[i] == a[i]);
                assert(b.drop_last()[i] == b[i]);
            }
        }
        lemma_struct_positions_same(a.drop_last(), b.drop_last());
        assert(a.last() == a[a.len() - 1]);
    }
}

/// Signature lists of the same shape, signature by signature.
pub open spec fn same_sig_shape(a: Seq<FunctionSignatureView>, b: Seq<FunctionSignatureView>) -> bool {
    &&& a.len() == b.len()
    &&& forall|i: int|
        0 <= i < a.len() ==> same_shape((#[trigger] a[i]).return_types, b[i].return_types)
            && same_shape(a[i].arg_types, b[i].arg_types)
}

/// Function signatures of the same shape have the same struct-referring tokens.
pub proof fn lemma_function_structs_same(a: Seq<FunctionSignatureView>, b: Seq<FunctionSignatureView>)
    requires
        same_sig_shape(a, b),
    ensures
        return_structs(a) == return_structs(b),
        arg_structs(a) == arg_structs(b),
        function_structs(a) == function_structs(b),
    decreases a.len(),
{
    if a.len() > 0 {
        assert(same_sig_shape(a.drop_last(), b.drop_last())) by {
            assert forall|i: int| 0 <= i < a.drop_last().len() implies same_shape(
                (#[trigger] a.drop_last()[i]).return_types,
                b.drop_last()[i].return_types,
            ) && same_shape(a.drop_last()[i].arg_types, b.drop_last()[i].arg_types) by {
                assert(a.drop_last()[i] == a[i]);
                assert(b.drop_last()[i] == b[i]);
            }
        }
        lemma_function_structs_same(a.drop_last(), b.drop_last());
        assert(same_shape(a[a.len() - 1].return_types, b[a.len() - 1].return_types));
        lemma_struct_positions_same(a.last().return_types, b.last().return_types);
        lemma_struct_positions_same(a.last().arg_types, b.last().arg_types);
    }
}

/// Locals signature lists of the same shape, signature by signature.
pub open spec fn same_locals_shape(a: Seq<Seq<SignatureToken>>, b: Seq<Seq<SignatureToken>>) -> bool {
    &&& a.len() == b.len()
    &&& forall|i: int| 0 <= i < a.len() ==> same_shape(#[trigger] a[i], b[i])
}

/// Locals signatures of the same shape have the same struct-referring tokens.
pub proof fn lemma_locals_structs_same(a: Seq<Seq<SignatureToken>>, b: Seq<Seq<SignatureToken>>)
    requires
        same_locals_shape(a, b),
    ensures
        locals_structs(a) == locals_structs(b),
    decreases a.len(),
{
    if a.len() > 0 {
        assert(same_locals_shape(a.drop_last(), b.drop_last())) by {
            assert forall|i: int| 0 <= i < a.drop_last().len() implies same_shape(
                #[trigger] a.drop_last()[i],
                b.drop_last()[i],
            ) by {
                assert(a.drop_last()[i] == a[i]);
                assert(b.drop_last()[i] == b[i]);
            }
        }
        lemma_locals_structs_same(a.drop_last(), b.drop_last());
        assert(same_shape(a[a.len() - 1], b[a.len() - 1]));
        lemma_struct_positions_same(a.last(), b.last());
    }
}

/// Corrupting one pointer leaves the struct-referring tokens of every signature
/// table where they were.
pub proof fn lemma_set_index_keeps_structs(
    m: ModuleView,
    type_c: Seq<usize>,
    fn_c: Seq<FunctionSignatureTokenIndex>,
    loc_c: Seq<(usize, usize)>,
    src: IndexKind,
    i: int,
    dst: IndexKind,
    dst_count: usize,
    new_idx: TableIndex,
)
    requires
        caches_valid(m, type_c, fn_c, loc_c),
        0 <= i,
        src is TypeSignature ==> i < type_c.len(),
        src is FunctionSignature ==> i < fn_c.len(),
        src is LocalsSignature ==> i < loc_c.len(),
    ensures
        ({
            let m2 = spec_set_index(m, type_c, fn_c, loc_c, src, i, dst, dst_count, new_idx).0;
            &&& struct_positions(m2.type_signatures) == struct_positions(m.type_signatures)
            &&& function_structs(m2.function_signatures) == function_structs(m.function_signatures)
            &&& locals_structs(m2.locals_signatures) == locals_structs(m.locals_signatures)
        }),
{
    let m2 = spec_set_index(m, type_c, fn_c, loc_c, src, i, dst, dst_count, new_idx).0;
    match (src, dst) {
        (IndexKind::TypeSignature, IndexKind::StructHandle) => {
            lemma_with_struct_handle(m.type_signatures[type_c[i] as int], new_idx);
        },
        (IndexKind::FunctionSignature, IndexKind::StructHandle) => {
            match fn_c[i] {
                FunctionSignatureTokenIndex::ReturnType(a, j) => {
                    lemma_with_struct_handle(
                        m.function_signatures[a as int].return_types[j as int],
                        new_idx,
                    );
                },
                FunctionSignatureTokenIndex::ArgType(a, j) => {
                    lemma_with_struct_handle(
                        m.function_signatures[a as int].arg_types[j as int],
                        new_idx,
                    );
                },
            }
        },
        (IndexKind::LocalsSignature, IndexKind::StructHandle) => {
            let (a, j) = loc_c[i];
            lemma_with_struct_handle(m.locals_signatures[a as int][j as int], new_idx);
        },
        _ => {},
    }
    assert(same_shape(m2.type_signatures, m.type_signatures));
    assert(same_sig_shape(m2.function_signatures, m.function_signatures));
    assert(same_locals_shape(m2.locals_signatures, m.locals_signatures));
    lemma_struct_positions_same(m2.type_signatures, m.type_signatures);
    lemma_function_structs_same(m2.function_signatures, m.function_signatures);
    lemma_locals_structs_same(m2.locals_signatures, m.locals_signatures);
}

/// Every struct definition is native.
pub open spec fn all_native(m: ModuleView) -> bool {
    forall|i: int|
        0 <= i < m.struct_defs.len() ==> (#[trigger] m.struct_defs[i]).field_information is Native
}

/// Field-range mutations against native struct definitions only leave the module
/// as it is and give no diagnostic.
pub proof fn lemma_native_group_skipped(
    m: ModuleView,
    type_c: Seq<usize>,
    fn_c: Seq<FunctionSignatureTokenIndex>,
    loc_c: Seq<(usize, usize)>,
    dst_count: usize,
    mutations: Seq<OutOfBoundsMutation>,
    picks: Seq<usize>,
)
    requires
        all_native(m),
        forall|k: int| 0 <= k < picks.len() ==> #[trigger] picks[k] < m.struct_defs.len(),
    ensures
        spec_apply_group(
            m,
            type_c,
            fn_c,
            loc_c,
            IndexKind::StructDefinition,
            IndexKind::FieldDefinition,
            dst_count,
            mutations,
            picks,
        ) == (m, Seq::<VerificationError>::empty()),
    decreases picks.len(),
{
    if picks.len() > 0 {
        lemma_native_group_skipped(m, type_c, fn_c, loc_c, dst_count, mutations, picks.drop_last());
        let i = picks[picks.len() - 1] as int;
        assert(m.struct_defs[i].field_information is Native);
        assert(Seq::<VerificationError>::empty() + option_seq(None) =~= Seq::<VerificationError>::empty());
    }
}

/// Whether a mutation is of one of the pairs `ps`.
pub open spec fn in_pairs(ps: Seq<(IndexKind, IndexKind)>) -> spec_fn(OutOfBoundsMutation) -> bool {
    |m: OutOfBoundsMutation| ps.contains((m.src_kind, m.dst_kind))
}

/// Filtering by either of two exclusive predicates keeps as many elements as the
/// two filters together.
pub proof fn lemma_filter_either(
    v: Seq<OutOfBoundsMutation>,
    p: spec_fn(OutOfBoundsMutation) -> bool,
    q: spec_fn(OutOfBoundsMutation) -> bool,
    pq: spec_fn(OutOfBoundsMutation) -> bool,
)
    requires
        forall|x: OutOfBoundsMutation| #[trigger] pq(x) == (p(x) || q(x)),
        forall|x: OutOfBoundsMutation| !(#[trigger] p(x) && q(x)),
    ensures
        v.filter(pq).len() == v.filter(p).len() + v.filter(q).len(),
    decreases v.len(),
{
    reveal_with_fuel(Seq::filter, 1);
    if v.len() > 0 {
        lemma_filter_either(v.drop_last(), p, q, pq);
        assert(pq(v.last()) == (p(v.last()) || q(v.last())));
    }
}

/// The mutations of the first `i + 1` edges are those of the first `i` and those
/// of edge `i`, which no earlier edge repeats.
pub proof fn lemma_pairs_count_step(v: Seq<OutOfBoundsMutation>, i: int)
    requires
        0 <= i < spec_edge_pairs().len(),
    ensures
        v.filter(in_pairs(spec_edge_pairs().take(i + 1))).len() == v.filter(
            in_pairs(spec_edge_pairs().take(i)),
        ).len() + v.filter(in_pair(spec_edge_pairs()[i].0, spec_edge_pairs()[i].1)).len(),
{
    let pairs = spec_edge_pairs();
    let (s, d) = pairs[i];
    assert forall|x: OutOfBoundsMutation| #[trigger] in_pairs(pairs.take(i + 1))(x) == (in_pairs(
        pairs.take(i),
    )(x) || in_pair(s, d)(x)) by {
        assert(pairs.take(i + 1) =~= pairs.take(i).push(pairs[i]));
        if pairs.take(i + 1).contains((x.src_kind, x.dst_kind)) {
            let j = choose|j: int| 0 <= j < i + 1 && #[trigger] pairs.take(i + 1)[j] == (x.src_kind, x.dst_kind);
            if j < i {
                assert(pairs.take(i)[j] == (x.src_kind, x.dst_kind));
            }
        }
        if pairs.take(i).contains((x.src_kind, x.dst_kind)) {
            let j = choose|j: int| 0 <= j < i && #[trigger] pairs.take(i)[j] == (x.src_kind, x.dst_kind);
            assert(pairs.take(i + 1)[j] == (x.src_kind, x.dst_kind));
        }
        if in_pair(s, d)(x) {
            assert(pairs.take(i + 1)[i] == (x.src_kind, x.dst_kind));
        }
    }
    assert forall|x: OutOfBoundsMutation| !(#[trigger] in_pairs(pairs.take(i))(x) && in_pair(s, d)(
        x,
    )) by {
        if in_pairs(pairs.take(i))(x) && in_pair(s, d)(x) {
            let j = choose|j: int| 0 <= j < i && #[trigger] pairs.take(i)[j] == (x.src_kind, x.dst_kind);
            lemma_edge_position(j);
            lemma_edge_position(i);
            assert(pairs[j] == pairs[i]);
        }
    }
    lemma_filter_either(v, in_pairs(pairs.take(i)), in_pair(s, d), in_pairs(pairs.take(i + 1)));
}

} // verus!
