//! Which kinds of node point to which, and the description of one intended
//! out-of-bounds mutation.
use vstd::prelude::*;
use proptest::sample::Index;
use crate::index_kind::IndexKind;

verus! {

/// How many pointers lead out of a node of some kind to a node of another kind.
#[derive(Copy, Clone, Debug, PartialEq, Eq, Structural, Hash)]
pub enum PointerKind {
    /// Exactly one pointer out with this index kind as its destination.
    One(IndexKind),
    /// Zero or one pointer out with this index kind as its destination.
    Optional(IndexKind),
    /// Zero or more pointers out with this index kind as its destination.
    Star(IndexKind),
}

/// The destination kind of a pointer kind.
pub open spec fn pointer_dst(p: PointerKind) -> IndexKind {
    match p {
        PointerKind::One(k) => k,
        PointerKind::Optional(k) => k,
        PointerKind::Star(k) => k,
    }
}

/// The pointers that lead out of a node of kind `k`, in a fixed order.
pub open spec fn spec_pointers_from(k: IndexKind) -> Seq<PointerKind> {
    match k {
        IndexKind::ModuleHandle => seq![
            PointerKind::One(IndexKind::AddressPool),
            PointerKind::One(IndexKind::StringPool),
        ],
        IndexKind::StructHandle => seq![
            PointerKind::One(IndexKind::ModuleHandle),
            PointerKind::One(IndexKind::StringPool),
        ],
        IndexKind::FunctionHandle => seq![
            PointerKind::One(IndexKind::ModuleHandle),
            PointerKind::One(IndexKind::StringPool),
            PointerKind::One(IndexKind::FunctionSignature),
        ],
        IndexKind::StructDefinition => seq![
            PointerKind::One(IndexKind::StructHandle),
            PointerKind::One(IndexKind::FieldDefinition),
        ],
        IndexKind::FieldDefinition => seq![
            PointerKind::One(IndexKind::StructHandle),
            PointerKind::One(IndexKind::StringPool),
            PointerKind::One(IndexKind::TypeSignature),
        ],
        IndexKind::FunctionDefinition => seq![
            PointerKind::One(IndexKind::FunctionHandle),
            PointerKind::One(IndexKind::LocalsSignature),
        ],
        IndexKind::TypeSignature => seq![PointerKind::Optional(IndexKind::StructHandle)],
        IndexKind::FunctionSignature => seq![PointerKind::Star(IndexKind::StructHandle)],
        IndexKind::LocalsSignature => seq![PointerKind::Star(IndexKind::StructHandle)],
        _ => seq![],
    }
}

/// The kinds whose nodes hold pointers that can be made out of bounds.
pub open spec fn spec_valid_pointer_srcs() -> Seq<IndexKind> {
    seq![
        IndexKind::ModuleHandle,
        IndexKind::StructHandle,
        IndexKind::FunctionHandle,
        IndexKind::StructDefinition,
        IndexKind::FieldDefinition,
        IndexKind::FunctionDefinition,
        IndexKind::TypeSignature,
        IndexKind::FunctionSignature,
        IndexKind::LocalsSignature,
    ]
}

/// Whether `k` is one of the nine kinds that hold pointers.
pub open spec fn is_pointer_src(k: IndexKind) -> bool {
    match k {
        IndexKind::ModuleHandle | IndexKind::StructHandle | IndexKind::FunctionHandle
        | IndexKind::StructDefinition | IndexKind::FieldDefinition
        | IndexKind::FunctionDefinition | IndexKind::TypeSignature
        | IndexKind::FunctionSignature | IndexKind::LocalsSignature => true,
        _ => false,
    }
}

/// Whether a node of kind `src` holds a pointer to a node of kind `dst`.
pub open spec fn is_edge(src: IndexKind, dst: IndexKind) -> bool {
    exists|i: int| 0 <= i < spec_pointers_from(src).len()
        && #[trigger] pointer_dst(spec_pointers_from(src)[i]) == dst
}

/// Exactly the nine pointer sources have pointers out; every other kind has none.
pub proof fn lemma_pointer_srcs_have_pointers(k: IndexKind)
    ensures
        spec_valid_pointer_srcs().contains(k) <==> is_pointer_src(k),
        spec_pointers_from(k).len() > 0 <==> is_pointer_src(k),
        spec_pointers_from(k).len() > 0 <==> spec_valid_pointer_srcs().contains(k),
{
    let v = spec_valid_pointer_srcs();
    if is_pointer_src(k) {
        match k {
            IndexKind::ModuleHandle => assert(v[0] == k),
            IndexKind::StructHandle => assert(v[1] == k),
            IndexKind::FunctionHandle => assert(v[2] == k),
            IndexKind::StructDefinition => assert(v[3] == k),
            IndexKind::FieldDefinition => assert(v[4] == k),
            IndexKind::FunctionDefinition => assert(v[5] == k),
            IndexKind::TypeSignature => assert(v[6] == k),
            IndexKind::FunctionSignature => assert(v[7] == k),
            IndexKind::LocalsSignature => assert(v[8] == k),
            _ => {},
        }
    } else {
        if v.contains(k) {
            let i = choose|i: int| 0 <= i < v.len() && v[i] == k;
            assert(is_pointer_src(v[i]));
        }
    }
}

impl PointerKind {
    /// Lists the pointers that lead out of a node of kind `src_kind`.
    ///
    /// Pointers out of a function's code unit are not part of this list.
    pub fn pointers_from(src_kind: IndexKind) -> (r: Vec<PointerKind>)
        ensures
            r@ == spec_pointers_from(src_kind),
            r@.len() > 0 <==> is_pointer_src(src_kind),
    {
        let r = match src_kind {
            IndexKind::ModuleHandle => vec![
                PointerKind::One(IndexKind::AddressPool),
                PointerKind::One(IndexKind::StringPool),
            ],
            IndexKind::StructHandle => vec![
                PointerKind::One(IndexKind::ModuleHandle),
                PointerKind::One(IndexKind::StringPool),
            ],
            IndexKind::FunctionHandle => vec![
                PointerKind::One(IndexKind::ModuleHandle),
                PointerKind::One(IndexKind::StringPool),
                PointerKind::One(IndexKind::FunctionSignature),
            ],
            IndexKind::StructDefinition => vec![
                PointerKind::One(IndexKind::StructHandle),
                PointerKind::One(IndexKind::FieldDefinition),
            ],
            IndexKind::FieldDefinition => vec![
                PointerKind::One(IndexKind::StructHandle),
                PointerKind::One(IndexKind::StringPool),
                PointerKind::One(IndexKind::TypeSignature),
            ],
            IndexKind::FunctionDefinition => vec![
                PointerKind::One(IndexKind::FunctionHandle),
                PointerKind::One(IndexKind::LocalsSignature),
            ],
            IndexKind::TypeSignature => vec![PointerKind::Optional(IndexKind::StructHandle)],
            IndexKind::FunctionSignature => vec![PointerKind::Star(IndexKind::StructHandle)],
            IndexKind::LocalsSignature => vec![PointerKind::Star(IndexKind::StructHandle)],
            // Local pools and code definitions are local to a function, and only
            // module-scoped indices are listed here.
            IndexKind::StringPool | IndexKind::ByteArrayPool | IndexKind::AddressPool
            | IndexKind::LocalPool | IndexKind::CodeDefinition
            | IndexKind::TypeParameter => vec![],
        };
        proof {
            assert(r@ =~= spec_pointers_from(src_kind));
        }
        r
    }

    /// The destination kind of this pointer.
    pub fn to_index_kind(self) -> (r: IndexKind)
        ensures
            r == pointer_dst(self),
    {
        match self {
            PointerKind::One(idx) => idx,
            PointerKind::Optional(idx) => idx,
            PointerKind::Star(idx) => idx,
        }
    }
}

/// Lists the kinds whose nodes hold pointers that can be made out of bounds.
pub fn valid_pointer_srcs() -> (r: Vec<IndexKind>)
    ensures
        r@ == spec_valid_pointer_srcs(),
{
    let r = vec![
        IndexKind::ModuleHandle,
        IndexKind::StructHandle,
        IndexKind::FunctionHandle,
        IndexKind::StructDefinition,
        IndexKind::FieldDefinition,
        IndexKind::FunctionDefinition,
        IndexKind::TypeSignature,
        IndexKind::FunctionSignature,
        IndexKind::LocalsSignature,
    ];
    proof {
        assert(r@ =~= spec_valid_pointer_srcs());
    }
    r
}

/// The largest mutation offset, plus one.
pub const OFFSET_BOUND: usize = 16;

/// One intended out-of-bounds corruption of a module: a pointer of kind `dst_kind`
/// held by a node of kind `src_kind` is set `offset` places past the end of its
/// destination table. Which node is corrupted is chosen by `src_idx` once the number
/// of candidate nodes is known.
#[derive(Copy, Clone, Debug)]
pub struct OutOfBoundsMutation {
    pub src_kind: IndexKind,
    pub src_idx: Index,
    pub dst_kind: IndexKind,
    pub offset: usize,
}

impl OutOfBoundsMutation {
    /// The destination is one the source kind points to, and the offset is in range.
    pub open spec fn wf(&self) -> bool {
        is_edge(self.src_kind, self.dst_kind) && self.offset < OFFSET_BOUND
    }

    /// A mutation from its parts.
    pub fn new(src_kind: IndexKind, src_idx: Index, dst_kind: IndexKind, offset: usize) -> (r:
        Self)
        requires
            is_edge(src_kind, dst_kind),
            offset < OFFSET_BOUND,
        ensures
            r.wf(),
            r.src_kind == src_kind,
            r.src_idx == src_idx,
            r.dst_kind == dst_kind,
            r.offset == offset,
    {
        OutOfBoundsMutation { src_kind, src_idx, dst_kind, offset }
    }

    /// A mutation whose destination kind is chosen by `dst_kind_idx` among the
    /// pointers out of `src_kind`.
    pub fn from_selectors(src_kind: IndexKind, src_idx: Index, dst_kind_idx: Index, offset: usize)
        -> (r: Self)
        requires
            is_pointer_src(src_kind),
            offset < OFFSET_BOUND,
        ensures
            r.wf(),
            r.src_kind == src_kind,
            r.src_idx == src_idx,
            r.offset == offset,
    {
        let dst_kind = Self::dst_kind(src_kind, dst_kind_idx);
        OutOfBoundsMutation { src_kind, src_idx, dst_kind, offset }
    }

    fn dst_kind(src_kind: IndexKind, dst_kind_idx: Index) -> (r: IndexKind)
        requires
            is_pointer_src(src_kind),
        ensures
            is_edge(src_kind, r),
    {
        let pointers = PointerKind::pointers_from(src_kind);
        let i = dst_kind_idx.index(pointers.len());
        let r = pointers[i].to_index_kind();
        proof {
            assert(pointer_dst(spec_pointers_from(src_kind)[i as int]) == r);
        }
        r
    }
}

} // verus!
