//! The kinds of tables and pools in a compiled module.
use vstd::prelude::*;

verus! {

/// A kind of table or pool within a compiled module, used to name the source and
/// destination of a reference.
#[derive(Copy, Clone, Debug, PartialEq, Eq, Structural, Hash, PartialOrd, Ord)]
pub enum IndexKind {
    ModuleHandle,
    StructHandle,
    FunctionHandle,
    StructDefinition,
    FieldDefinition,
    FunctionDefinition,
    TypeSignature,
    FunctionSignature,
    LocalsSignature,
    StringPool,
    ByteArrayPool,
    AddressPool,
    LocalPool,
    CodeDefinition,
    TypeParameter,
}

/// The kind of a signature token.
#[derive(Copy, Clone, Debug, PartialEq, Eq, Structural, Hash, PartialOrd, Ord)]
pub enum SignatureTokenKind {
    /// Any sort of owned value (integer, bool, struct and so on).
    Value,
    /// A reference.
    Reference,
    /// A mutable reference.
    MutableReference,
}

/// Every index kind, in declaration order.
pub open spec fn all_index_kinds() -> Seq<IndexKind> {
    seq![
        IndexKind::ModuleHandle,
        IndexKind::StructHandle,
        IndexKind::FunctionHandle,
        IndexKind::StructDefinition,
        IndexKind::FieldDefinition,
        IndexKind::FunctionDefinition,
        IndexKind::TypeSignature,
        IndexKind::FunctionSignature,
        IndexKind::LocalsSignature,
        IndexKind::StringPool,
        IndexKind::ByteArrayPool,
        IndexKind::AddressPool,
        IndexKind::LocalPool,
        IndexKind::CodeDefinition,
        IndexKind::TypeParameter,
    ]
}

impl IndexKind {
    /// Lists every index kind exactly once.
    pub fn variants() -> (r: Vec<IndexKind>)
        ensures
            r@ == all_index_kinds(),
            forall|k: IndexKind| r@.contains(k),
            r@.no_duplicates(),
    {
        let r = vec![
            IndexKind::ModuleHandle,
            IndexKind::StructHandle,
            IndexKind::FunctionHandle,
            IndexKind::StructDefinition,
            IndexKind::FieldDefinition,
            IndexKind::FunctionDefinition,
            IndexKind::TypeSignature,
            IndexKind::FunctionSignature,
            IndexKind::LocalsSignature,
            IndexKind::StringPool,
            IndexKind::ByteArrayPool,
            IndexKind::AddressPool,
            IndexKind::LocalPool,
            IndexKind::CodeDefinition,
            IndexKind::TypeParameter,
        ];
        proof {
            assert(r@ =~= all_index_kinds());
            assert forall|k: IndexKind| r@.contains(k) by {
                match k {
                    IndexKind::ModuleHandle => assert(r@[0] == k),
                    IndexKind::StructHandle => assert(r@[1] == k),
                    IndexKind::FunctionHandle => assert(r@[2] == k),
                    IndexKind::StructDefinition => assert(r@[3] == k),
                    IndexKind::FieldDefinition => assert(r@[4] == k),
                    IndexKind::FunctionDefinition => assert(r@[5] == k),
                    IndexKind::TypeSignature => assert(r@[6] == k),
                    IndexKind::FunctionSignature => assert(r@[7] == k),
                    IndexKind::LocalsSignature => assert(r@[8] == k),
                    IndexKind::StringPool => assert(r@[9] == k),
                    IndexKind::ByteArrayPool => assert(r@[10] == k),
                    IndexKind::AddressPool => assert(r@[11] == k),
                    IndexKind::LocalPool => assert(r@[12] == k),
                    IndexKind::CodeDefinition => assert(r@[13] == k),
                    IndexKind::TypeParameter => assert(r@[14] == k),
                }
            }
        }
        r
    }
}

/// How an index kind is named in messages.
pub open spec fn index_kind_description(k: IndexKind) -> Seq<char> {
    match k {
        IndexKind::ModuleHandle => "module handle"@,
        IndexKind::StructHandle => "struct handle"@,
        IndexKind::FunctionHandle => "function handle"@,
        IndexKind::StructDefinition => "struct definition"@,
        IndexKind::FieldDefinition => "field definition"@,
        IndexKind::FunctionDefinition => "function definition"@,
        IndexKind::TypeSignature => "type signature"@,
        IndexKind::FunctionSignature => "function signature"@,
        IndexKind::LocalsSignature => "locals signature"@,
        IndexKind::StringPool => "string pool"@,
        IndexKind::ByteArrayPool => "byte_array pool"@,
        IndexKind::AddressPool => "address pool"@,
        IndexKind::LocalPool => "local pool"@,
        IndexKind::CodeDefinition => "code definition pool"@,
        IndexKind::TypeParameter => "type parameter"@,
    }
}

/// How a signature token kind is named in messages.
pub open spec fn token_kind_description(k: SignatureTokenKind) -> Seq<char> {
    match k {
        SignatureTokenKind::Value => "value"@,
        SignatureTokenKind::Reference => "reference"@,
        SignatureTokenKind::MutableReference => "mutable reference"@,
    }
}

impl IndexKind {
    /// The name of this kind, as messages print it.
    pub fn description(&self) -> (r: &'static str)
        ensures
            r@ == index_kind_description(*self),
    {
        match self {
            IndexKind::ModuleHandle => "module handle",
            IndexKind::StructHandle => "struct handle",
            IndexKind::FunctionHandle => "function handle",
            IndexKind::StructDefinition => "struct definition",
            IndexKind::FieldDefinition => "field definition",
            IndexKind::FunctionDefinition => "function definition",
            IndexKind::TypeSignature => "type signature",
            IndexKind::FunctionSignature => "function signature",
            IndexKind::LocalsSignature => "locals signature",
            IndexKind::StringPool => "string pool",
            IndexKind::ByteArrayPool => "byte_array pool",
            IndexKind::AddressPool => "address pool",
            IndexKind::LocalPool => "local pool",
            IndexKind::CodeDefinition => "code definition pool",
            IndexKind::TypeParameter => "type parameter",
        }
    }
}

impl SignatureTokenKind {
    /// The name of this kind, as messages print it.
    pub fn description(&self) -> (r: &'static str)
        ensures
            r@ == token_kind_description(*self),
    {
        match self {
            SignatureTokenKind::Value => "value",
            SignatureTokenKind::Reference => "reference",
            SignatureTokenKind::MutableReference => "mutable reference",
        }
    }
}

} // verus!
