use vstd::prelude::*;

verus! {

/// A WebAssembly value type.
#[derive(Clone, Copy, Debug, PartialEq, Eq, Structural)]
pub enum ValType {
    I32,
    I64,
    F32,
    F64,
}

/// A function signature: ordered parameter types and an optional single return type.
#[derive(Clone, Debug)]
pub struct FuncType {
    pub params: Vec<ValType>,
    pub return_type: Option<ValType>,
}

/// The mathematical signature: parameter sequence and optional return type.
pub type Signature = (Seq<ValType>, Option<ValType>);

impl View for FuncType {
    type V = Signature;

    open spec fn view(&self) -> Signature {
        (self.params@, self.return_type)
    }
}

/// The signature with no parameters and no return value.
pub open spec fn empty_signature() -> Signature {
    (Seq::empty(), None)
}

/// The view of an optional signature.
pub open spec fn opt_sig(f: Option<FuncType>) -> Option<Signature> {
    match f {
        Some(t) => Some(t@),
        None => None,
    }
}

impl FuncType {
    pub fn new(params: Vec<ValType>, return_type: Option<ValType>) -> (r: FuncType)
        ensures
            r@ == (params@, return_type),
    {
        FuncType { params, return_type }
    }

    /// A copy of this signature, element by element.
    pub fn duplicate(&self) -> (r: FuncType)
        ensures
            r@ == self@,
    {
        let mut params: Vec<ValType> = Vec::new();
        let mut i: usize = 0;
        while i < self.params.len()
            invariant
                i <= self.params@.len(),
                params@ == self.params@.subrange(0, i as int),
            decreases self.params@.len() - i,
        {
            params.push(self.params[i]);
            i = i + 1;
            assert(params@ =~= self.params@.subrange(0, i as int));
        }
        assert(params@ =~= self.params@);
        FuncType { params, return_type: self.return_type }
    }

    /// Structural equality: same parameter sequence and same optional return type.
    pub fn same_as(&self, other: &FuncType) -> (r: bool)
        ensures
            r == (self@ == other@),
    {
        if self.return_type != other.return_type || self.params.len() != other.params.len() {
            return false;
        }
        let mut i: usize = 0;
        while i < self.params.len()
            invariant
                i <= self.params@.len(),
                self.params@.len() == other.params@.len(),
                forall|j: int| 0 <= j < i ==> self.params@[j] == other.params@[j],
            decreases self.params@.len() - i,
        {
            if self.params[i] != other.params[i] {
                return false;
            }
            i = i + 1;
        }
        assert(self.params@ =~= other.params@);
        true
    }
}

impl Default for FuncType {
    fn default() -> (r: FuncType)
        ensures
            r@ == empty_signature(),
    {
        let r = FuncType { params: Vec::new(), return_type: None };
        assert(r.params@ =~= Seq::<ValType>::empty());
        r
    }
}

impl PartialEq for FuncType {
    fn eq(&self, other: &FuncType) -> (r: bool) {
        self.same_as(other)
    }
}

impl vstd::std_specs::cmp::PartialEqSpecImpl for FuncType {
    open spec fn obeys_eq_spec() -> bool {
        true
    }

    open spec fn eq_spec(&self, other: &FuncType) -> bool {
        self@ == other@
    }
}

/// What an export entry binds to: a kind of module item and its index.
#[derive(Clone, Copy, Debug, PartialEq, Eq, Structural)]
pub enum InternalRef {
    Function(u32),
    Table(u32),
    Memory(u32),
    Global(u32),
}

impl InternalRef {
    pub open spec fn spec_index(self) -> u32 {
        match self {
            InternalRef::Function(i) => i,
            InternalRef::Table(i) => i,
            InternalRef::Memory(i) => i,
            InternalRef::Global(i) => i,
        }
    }

    /// The index carried by the binding, whatever its kind.
    pub fn index(&self) -> (r: u32)
        ensures
            r == self.spec_index(),
    {
        match *self {
            InternalRef::Function(i) => i,
            InternalRef::Table(i) => i,
            InternalRef::Memory(i) => i,
            InternalRef::Global(i) => i,
        }
    }
}

/// What an import entry binds to; a function import carries its type index.
#[derive(Clone, Copy, Debug, PartialEq, Eq, Structural)]
pub enum ExternalRef {
    Function(u32),
    Table,
    Memory,
    Global,
}

/// An entry of the import section.
#[derive(Clone, Debug)]
pub struct Import {
    pub module: String,
    pub field: String,
    pub external: ExternalRef,
}

/// An entry of the export section.
#[derive(Clone, Debug)]
pub struct Export {
    pub field: String,
    pub internal: InternalRef,
}

/// A decoded module, as far as the compliance rules read it. Each section is absent
/// (`None`) or present with its entries in order.
#[derive(Clone, Debug)]
pub struct WasmModule {
    /// The type section: the function signatures, by type index.
    pub types: Option<Vec<FuncType>>,
    /// The function section: the type index of each locally defined function.
    pub functions: Option<Vec<u32>>,
    pub imports: Option<Vec<Import>>,
    pub exports: Option<Vec<Export>>,
    /// The start section: the index of the start function.
    pub start: Option<u32>,
}

/// An import entry as a value: namespace, field name and binding.
pub struct ImportView {
    pub module: Seq<char>,
    pub field: Seq<char>,
    pub external: ExternalRef,
}

/// An export entry as a value: field name and binding.
pub struct ExportView {
    pub field: Seq<char>,
    pub internal: InternalRef,
}

/// A decoded module as a value: each section absent or present with its entries in order.
pub struct ModuleView {
    pub types: Option<Seq<Signature>>,
    pub functions: Option<Seq<u32>>,
    pub imports: Option<Seq<ImportView>>,
    pub exports: Option<Seq<ExportView>>,
    pub start: Option<u32>,
}

impl View for Import {
    type V = ImportView;

    open spec fn view(&self) -> ImportView {
        ImportView { module: self.module@, field: self.field@, external: self.external }
    }
}

impl View for Export {
    type V = ExportView;

    open spec fn view(&self) -> ExportView {
        ExportView { field: self.field@, internal: self.internal }
    }
}

impl View for WasmModule {
    type V = ModuleView;

    open spec fn view(&self) -> ModuleView {
        ModuleView {
            types: match self.types {
                Some(v) => Some(v@.map_values(|f: FuncType| f@)),
                None => None,
            },
            functions: match self.functions {
                Some(v) => Some(v@),
                None => None,
            },
            imports: match self.imports {
                Some(v) => Some(v@.map_values(|e: Import| e@)),
                None => None,
            },
            exports: match self.exports {
                Some(v) => Some(v@.map_values(|e: Export| e@)),
                None => None,
            },
            start: self.start,
        }
    }
}

/// The type indices of the function imports, in import order.
pub open spec fn func_import_types(s: Seq<ImportView>) -> Seq<u32>
    decreases s.len(),
{
    if s.len() == 0 {
        Seq::empty()
    } else {
        let rest = func_import_types(s.drop_last());
        match s.last().external {
            ExternalRef::Function(t) => rest.push(t),
            _ => rest,
        }
    }
}

/// The import entries, none where the section is absent.
pub open spec fn import_seq(m: ModuleView) -> Seq<ImportView> {
    match m.imports {
        Some(s) => s,
        None => Seq::empty(),
    }
}

/// The export entries, none where the section is absent.
pub open spec fn export_seq(m: ModuleView) -> Seq<ExportView> {
    match m.exports {
        Some(s) => s,
        None => Seq::empty(),
    }
}

/// The type indices of the local functions, none where the section is absent.
pub open spec fn local_seq(m: ModuleView) -> Seq<u32> {
    match m.functions {
        Some(s) => s,
        None => Seq::empty(),
    }
}

/// The type indices of the imported functions of the module, in order.
pub open spec fn imported_funcs(m: ModuleView) -> Seq<u32> {
    func_import_types(import_seq(m))
}

/// The combined function index space: imported functions first, then local ones,
/// each given by its type index.
pub open spec fn func_space(m: ModuleView) -> Seq<u32> {
    imported_funcs(m) + local_seq(m)
}

/// The signature with the given type index, if the type section has it.
pub open spec fn type_at(m: ModuleView, t: int) -> Option<Signature> {
    match m.types {
        Some(s) => if 0 <= t < s.len() {
            Some(s[t])
        } else {
            None
        },
        None => None,
    }
}

/// The signature of the function with the given index in the combined index space.
pub open spec fn func_sig(m: ModuleView, index: int) -> Option<Signature> {
    if 0 <= index < func_space(m).len() {
        type_at(m, func_space(m)[index] as int)
    } else {
        None
    }
}

/// Whether the import entry at the given position exists and imports a function.
pub open spec fn is_func_import_at(m: ModuleView, pos: int) -> bool {
    0 <= pos < import_seq(m).len() && import_seq(m)[pos].external is Function
}

/// The signature of the function imported by the import entry at the given position.
pub open spec fn import_sig(m: ModuleView, pos: int) -> Option<Signature> {
    if 0 <= pos < import_seq(m).len() {
        match import_seq(m)[pos].external {
            ExternalRef::Function(t) => type_at(m, t as int),
            _ => None,
        }
    } else {
        None
    }
}

} // verus!
