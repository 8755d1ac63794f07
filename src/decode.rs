use vstd::prelude::*;

use parity_wasm::elements as pw;

use crate::wasm::{Export, ExternalRef, FuncType, Import, InternalRef, ModuleView, ValType, WasmModule};

verus! {

#[verifier::external_type_specification]
#[verifier::external_body]
pub struct ExModule(pw::Module);

#[verifier::external_type_specification]
#[verifier::external_body]
pub struct ExError(pw::Error);

#[verifier::external_type_specification]
#[verifier::external_body]
pub struct ExFunctionType(pw::FunctionType);

#[verifier::external_type_specification]
#[verifier::external_body]
pub struct ExImportEntry(pw::ImportEntry);

#[verifier::external_type_specification]
#[verifier::external_body]
pub struct ExExportEntry(pw::ExportEntry);

#[verifier::external_type_specification]
#[verifier::external_body]
pub struct ExTableType(pw::TableType);

#[verifier::external_type_specification]
#[verifier::external_body]
pub struct ExMemoryType(pw::MemoryType);

#[verifier::external_type_specification]
#[verifier::external_body]
pub struct ExGlobalType(pw::GlobalType);

#[verifier::external_type_specification]
pub struct ExValueType(pw::ValueType);

#[verifier::external_type_specification]
pub struct ExInternal(pw::Internal);

#[verifier::external_type_specification]
pub struct ExExternal(pw::External);

#[verifier::external_type_specification]
pub struct ExType(pw::Type);

pub assume_specification[ pw::FunctionType::params ](f: &pw::FunctionType) -> &[pw::ValueType];

pub assume_specification[ pw::FunctionType::return_type ](f: &pw::FunctionType) -> Option<
    pw::ValueType,
>;

pub assume_specification[ pw::ImportEntry::module ](e: &pw::ImportEntry) -> &str;

pub assume_specification[ pw::ImportEntry::field ](e: &pw::ImportEntry) -> &str;

pub assume_specification[ pw::ImportEntry::external ](e: &pw::ImportEntry) -> &pw::External;

pub assume_specification[ pw::ExportEntry::field ](e: &pw::ExportEntry) -> &str;

pub assume_specification[ pw::ExportEntry::internal ](e: &pw::ExportEntry) -> &pw::Internal;

/// The error for bytes that do not decode as a module.
#[derive(Clone, Copy, Debug, PartialEq, Eq, Structural)]
pub struct DecodeError;

/// The module that the bytes decode to, if they decode as a whole module.
pub uninterp spec fn decoded(code: Seq<u8>) -> Option<ModuleView>;

/// Relies on parity_wasm::elements::deserialize_buffer: whether it succeeds, and the
/// module it returns, depend on the bytes alone (bytes left after the module are an
/// error). The sections come from Module::type_section, function_section,
/// import_section, export_section and start_section, each entry in section order.
#[verifier::external_body]
fn deserialize(code: &[u8]) -> (r: Result<WasmModule, pw::Error>)
    ensures
        r is Ok <==> decoded(code@) is Some,
        r matches Ok(m) ==> decoded(code@) == Some(m@),
{
    pw::deserialize_buffer::<pw::Module>(code).map(|m| WasmModule {
        types: m.type_section().map(|s| s.types().iter().map(signature_of).collect()),
        functions: m.function_section().map(|s| s.entries().iter().map(|f| f.type_ref()).collect()),
        imports: m.import_section().map(|s| s.entries().iter().map(import_of).collect()),
        exports: m.export_section().map(|s| s.entries().iter().map(export_of).collect()),
        start: m.start_section(),
    })
}

/// The library's value type for a decoded one.
fn value_type_of(v: pw::ValueType) -> (r: ValType)
    ensures
        v is I32 ==> r == ValType::I32,
        v is I64 ==> r == ValType::I64,
        v is F32 ==> r == ValType::F32,
        v is F64 ==> r == ValType::F64,
{
    match v {
        pw::ValueType::I32 => ValType::I32,
        pw::ValueType::I64 => ValType::I64,
        pw::ValueType::F32 => ValType::F32,
        pw::ValueType::F64 => ValType::F64,
    }
}

/// The library's export binding for a decoded one: same kind, same index.
fn internal_of(i: pw::Internal) -> (r: InternalRef)
    ensures
        i matches pw::Internal::Function(k) ==> r == InternalRef::Function(k),
        i matches pw::Internal::Table(k) ==> r == InternalRef::Table(k),
        i matches pw::Internal::Memory(k) ==> r == InternalRef::Memory(k),
        i matches pw::Internal::Global(k) ==> r == InternalRef::Global(k),
{
    match i {
        pw::Internal::Function(k) => InternalRef::Function(k),
        pw::Internal::Table(k) => InternalRef::Table(k),
        pw::Internal::Memory(k) => InternalRef::Memory(k),
        pw::Internal::Global(k) => InternalRef::Global(k),
    }
}

/// The library's import binding for a decoded one: a function import keeps its type
/// index, the other kinds keep their kind.
fn external_of(x: &pw::External) -> (r: ExternalRef)
    ensures
        *x matches pw::External::Function(t) ==> r == ExternalRef::Function(t),
        *x is Table ==> r == ExternalRef::Table,
        *x is Memory ==> r == ExternalRef::Memory,
        *x is Global ==> r == ExternalRef::Global,
{
    match x {
        pw::External::Function(t) => ExternalRef::Function(*t),
        pw::External::Table(_) => ExternalRef::Table,
        pw::External::Memory(_) => ExternalRef::Memory,
        pw::External::Global(_) => ExternalRef::Global,
    }
}

/// The library's signature for a decoded function type: its parameter types in order
/// and its return type.
fn signature_of(t: &pw::Type) -> (r: FuncType) {
    match t {
        pw::Type::Function(f) => {
            let ps = f.params();
            let mut params: Vec<ValType> = Vec::new();
            let mut i: usize = 0;
            while i < ps.len()
                invariant
                    i <= ps@.len(),
                    params@.len() == i,
                decreases ps@.len() - i,
            {
                params.push(value_type_of(ps[i]));
                i = i + 1;
            }
            let ret = match f.return_type() {
                Some(v) => Some(value_type_of(v)),
                None => None,
            };
            FuncType::new(params, ret)
        },
    }
}

/// The library's import entry for a decoded one: namespace, field and binding.
fn import_of(e: &pw::ImportEntry) -> (r: Import) {
    Import {
        module: String::from_str(e.module()),
        field: String::from_str(e.field()),
        external: external_of(e.external()),
    }
}

/// The library's export entry for a decoded one: field and binding.
fn export_of(e: &pw::ExportEntry) -> (r: Export) {
    Export { field: String::from_str(e.field()), internal: internal_of(*e.internal()) }
}

impl WasmModule {
    /// Decodes a module from its binary encoding: `Err` exactly where the bytes are not a
    /// well-formed module, else the module they encode.
    pub fn decode(code: &[u8]) -> (r: Result<WasmModule, DecodeError>)
        ensures
            r is Err <==> decoded(code@) is None,
            r matches Ok(m) ==> decoded(code@) == Some(m@),
    {
        match deserialize(code) {
            Ok(m) => Ok(m),
            Err(_) => Err(DecodeError),
        }
    }
}

} // verus!
