//! A compiled module as tables that refer to one another by position, and the
//! bounds violations a verifier reports on it.
use vstd::prelude::*;
use crate::index_kind::IndexKind;

verus! {

/// A position in one of a module's tables.
pub type TableIndex = u16;

/// A module handle: the address and the name of a module.
#[derive(Copy, Clone, Debug, PartialEq, Eq, Structural)]
pub struct ModuleHandle {
    pub address: TableIndex,
    pub name: TableIndex,
}

/// A struct handle: the module that declares a struct, and its name.
#[derive(Copy, Clone, Debug, PartialEq, Eq, Structural)]
pub struct StructHandle {
    pub module: TableIndex,
    pub name: TableIndex,
}

/// A function handle: the declaring module, the name and the signature.
#[derive(Copy, Clone, Debug, PartialEq, Eq, Structural)]
pub struct FunctionHandle {
    pub module: TableIndex,
    pub name: TableIndex,
    pub signature: TableIndex,
}

/// Where the fields of a struct definition are stored.
#[derive(Copy, Clone, Debug, PartialEq, Eq, Structural)]
pub enum StructFieldInformation {
    /// A native struct, with no field storage.
    Native,
    /// The fields `[fields, fields + field_count)` of the field definition table.
    Declared { field_count: TableIndex, fields: TableIndex },
}

/// A struct definition: its handle and its fields.
#[derive(Copy, Clone, Debug, PartialEq, Eq, Structural)]
pub struct StructDefinition {
    pub struct_handle: TableIndex,
    pub field_information: StructFieldInformation,
}

/// A field definition: the owning struct, the name and the type signature.
#[derive(Copy, Clone, Debug, PartialEq, Eq, Structural)]
pub struct FieldDefinition {
    pub struct_: TableIndex,
    pub name: TableIndex,
    pub signature: TableIndex,
}

/// A function definition: its handle and the signature of its locals.
#[derive(Copy, Clone, Debug, PartialEq, Eq, Structural)]
pub struct FunctionDefinition {
    pub function: TableIndex,
    pub locals: TableIndex,
}

/// A type as it appears in a signature.
#[derive(Debug, PartialEq, Eq)]
pub enum SignatureToken {
    Bool,
    U64,
    String,
    ByteArray,
    Address,
    /// A struct, by its struct handle.
    Struct(TableIndex),
    Reference(Box<SignatureToken>),
    MutableReference(Box<SignatureToken>),
    TypeParameter(TableIndex),
}

/// The struct handle that a token refers to, through any references.
pub open spec fn token_struct_handle(t: SignatureToken) -> Option<TableIndex>
    decreases t,
{
    match t {
        SignatureToken::Struct(sh) => Some(sh),
        SignatureToken::Reference(inner) => token_struct_handle(*inner),
        SignatureToken::MutableReference(inner) => token_struct_handle(*inner),
        _ => None,
    }
}

/// The token with its struct handle replaced by `sh`.
pub open spec fn token_with_struct_handle(t: SignatureToken, sh: TableIndex) -> SignatureToken
    decreases t,
{
    match t {
        SignatureToken::Struct(_) => SignatureToken::Struct(sh),
        SignatureToken::Reference(inner) => SignatureToken::Reference(
            Box::new(token_with_struct_handle(*inner, sh)),
        ),
        SignatureToken::MutableReference(inner) => SignatureToken::MutableReference(
            Box::new(token_with_struct_handle(*inner, sh)),
        ),
        _ => t,
    }
}

pub proof fn lemma_with_struct_handle(t: SignatureToken, sh: TableIndex)
    requires
        token_struct_handle(t) is Some,
    ensures
        token_struct_handle(token_with_struct_handle(t, sh)) == Some(sh),
    decreases t,
{
    match t {
        SignatureToken::Reference(inner) => lemma_with_struct_handle(*inner, sh),
        SignatureToken::MutableReference(inner) => lemma_with_struct_handle(*inner, sh),
        _ => {},
    }
}

impl SignatureToken {
    /// The struct handle this token refers to, if any.
    pub fn struct_index(&self) -> (r: Option<TableIndex>)
        ensures
            r == token_struct_handle(*self),
        decreases self,
    {
        match self {
            SignatureToken::Struct(sh) => Some(*sh),
            SignatureToken::Reference(inner) => inner.struct_index(),
            SignatureToken::MutableReference(inner) => inner.struct_index(),
            _ => None,
        }
    }

    /// Replaces the struct handle that this token refers to; a token without one is
    /// returned unchanged.
    pub fn with_struct_handle(self, sh: TableIndex) -> (r: SignatureToken)
        ensures
            r == token_with_struct_handle(self, sh),
        decreases self,
    {
        match self {
            SignatureToken::Struct(_) => SignatureToken::Struct(sh),
            SignatureToken::Reference(inner) => SignatureToken::Reference(
                Box::new((*inner).with_struct_handle(sh)),
            ),
            SignatureToken::MutableReference(inner) => SignatureToken::MutableReference(
                Box::new((*inner).with_struct_handle(sh)),
            ),
            other => other,
        }
    }
}

/// A function signature: the return types and the argument types.
#[derive(Debug, PartialEq, Eq)]
pub struct FunctionSignature {
    pub return_types: Vec<SignatureToken>,
    pub arg_types: Vec<SignatureToken>,
}

/// The contents of a function signature.
pub struct FunctionSignatureView {
    pub return_types: Seq<SignatureToken>,
    pub arg_types: Seq<SignatureToken>,
}

impl View for FunctionSignature {
    type V = FunctionSignatureView;

    open spec fn view(&self) -> FunctionSignatureView {
        FunctionSignatureView { return_types: self.return_types@, arg_types: self.arg_types@ }
    }
}

/// A compiled module, as a set of tables that refer to one another by position.
#[derive(Debug, PartialEq, Eq)]
pub struct CompiledModule {
    pub module_handles: Vec<ModuleHandle>,
    pub struct_handles: Vec<StructHandle>,
    pub function_handles: Vec<FunctionHandle>,
    pub struct_defs: Vec<StructDefinition>,
    pub field_defs: Vec<FieldDefinition>,
    pub function_defs: Vec<FunctionDefinition>,
    pub type_signatures: Vec<SignatureToken>,
    pub function_signatures: Vec<FunctionSignature>,
    pub locals_signatures: Vec<Vec<SignatureToken>>,
    pub string_pool: Vec<String>,
    pub byte_array_pool: Vec<Vec<u8>>,
    pub address_pool: Vec<Vec<u8>>,
}

/// The contents of a compiled module.
pub struct ModuleView {
    pub module_handles: Seq<ModuleHandle>,
    pub struct_handles: Seq<StructHandle>,
    pub function_handles: Seq<FunctionHandle>,
    pub struct_defs: Seq<StructDefinition>,
    pub field_defs: Seq<FieldDefinition>,
    pub function_defs: Seq<FunctionDefinition>,
    pub type_signatures: Seq<SignatureToken>,
    pub function_signatures: Seq<FunctionSignatureView>,
    pub locals_signatures: Seq<Seq<SignatureToken>>,
    pub string_pool: Seq<Seq<char>>,
    pub byte_array_pool: Seq<Seq<u8>>,
    pub address_pool: Seq<Seq<u8>>,
}

impl View for CompiledModule {
    type V = ModuleView;

    open spec fn view(&self) -> ModuleView {
        ModuleView {
            module_handles: self.module_handles@,
            struct_handles: self.struct_handles@,
            function_handles: self.function_handles@,
            struct_defs: self.struct_defs@,
            field_defs: self.field_defs@,
            function_defs: self.function_defs@,
            type_signatures: self.type_signatures@,
            function_signatures: self.function_signatures@.map_values(
                |s: FunctionSignature| s@,
            ),
            locals_signatures: self.locals_signatures@.map_values(
                |s: Vec<SignatureToken>| s@,
            ),
            string_pool: self.string_pool@.map_values(|s: String| s@),
            byte_array_pool: self.byte_array_pool@.map_values(|s: Vec<u8>| s@),
            address_pool: self.address_pool@.map_values(|s: Vec<u8>| s@),
        }
    }
}

/// Whether `k` names a table of the module itself (not one local to a function).
pub open spec fn is_module_table(k: IndexKind) -> bool {
    !(k is LocalPool || k is CodeDefinition || k is TypeParameter)
}

impl ModuleView {
    /// The number of entries in the table of kind `k`.
    pub open spec fn kind_count(self, k: IndexKind) -> nat {
        match k {
            IndexKind::ModuleHandle => self.module_handles.len(),
            IndexKind::StructHandle => self.struct_handles.len(),
            IndexKind::FunctionHandle => self.function_handles.len(),
            IndexKind::StructDefinition => self.struct_defs.len(),
            IndexKind::FieldDefinition => self.field_defs.len(),
            IndexKind::FunctionDefinition => self.function_defs.len(),
            IndexKind::TypeSignature => self.type_signatures.len(),
            IndexKind::FunctionSignature => self.function_signatures.len(),
            IndexKind::LocalsSignature => self.locals_signatures.len(),
            IndexKind::StringPool => self.string_pool.len(),
            IndexKind::ByteArrayPool => self.byte_array_pool.len(),
            IndexKind::AddressPool => self.address_pool.len(),
            _ => 0,
        }
    }

    /// Every declared field range has a count no larger than the field table.
    pub open spec fn field_counts_fit(self) -> bool {
        forall|i: int|
            0 <= i < self.struct_defs.len() ==> match #[trigger] self.struct_defs[i].field_information {
                StructFieldInformation::Native => true,
                StructFieldInformation::Declared { field_count, .. } => field_count
                    <= self.field_defs.len(),
            }
    }

    /// Every table is small enough that its size plus any mutation offset is still a
    /// table index, one short of the largest.
    pub open spec fn tables_fit(self) -> bool {
        forall|k: IndexKind| #[trigger] self.kind_count(k) + 16 < 0x10000
    }

    /// What this engine asks of a module: tables that leave room for out-of-bounds
    /// indices, and field ranges no longer than the field table.
    pub open spec fn well_formed(self) -> bool {
        self.tables_fit() && self.field_counts_fit()
    }
}

impl CompiledModule {
    /// The number of entries in the table of kind `kind`.
    pub fn kind_count(&self, kind: IndexKind) -> (r: usize)
        requires
            is_module_table(kind),
        ensures
            r == self@.kind_count(kind),
    {
        match kind {
            IndexKind::ModuleHandle => self.module_handles.len(),
            IndexKind::StructHandle => self.struct_handles.len(),
            IndexKind::FunctionHandle => self.function_handles.len(),
            IndexKind::StructDefinition => self.struct_defs.len(),
            IndexKind::FieldDefinition => self.field_defs.len(),
            IndexKind::FunctionDefinition => self.function_defs.len(),
            IndexKind::TypeSignature => self.type_signatures.len(),
            IndexKind::FunctionSignature => self.function_signatures.len(),
            IndexKind::LocalsSignature => self.locals_signatures.len(),
            IndexKind::StringPool => self.string_pool.len(),
            IndexKind::ByteArrayPool => self.byte_array_pool.len(),
            IndexKind::AddressPool => self.address_pool.len(),
            _ => 0,
        }
    }
}

/// A bounds violation that a verifier reports.
#[derive(Copy, Clone, Debug, PartialEq, Eq, Structural)]
pub enum VMStaticViolation {
    /// `IndexOutOfBounds(kind, count, index)`: `index` is not below `count`, the size
    /// of the table of `kind`.
    IndexOutOfBounds(IndexKind, usize, usize),
    /// `RangeOutOfBounds(kind, count, start, end)`: `[start, end)` does not lie within
    /// the table of `kind`, of size `count`.
    RangeOutOfBounds(IndexKind, usize, usize, usize),
}

/// A violation together with the table entry it is reported at.
#[derive(Copy, Clone, Debug, PartialEq, Eq, Structural)]
pub struct VerificationError {
    pub kind: IndexKind,
    pub idx: usize,
    pub err: VMStaticViolation,
}

} // verus!
