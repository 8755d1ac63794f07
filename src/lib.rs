//! Checks that a WebAssembly module meets the Ethereum environment interface: an
//! exported entry point and memory, no start function, and host imports drawn from
//! one namespace with the registered signatures.
pub mod checker;
pub mod checklist;
pub mod context;
pub mod decode;
pub mod eci_std;
pub mod eei;
pub mod wasm;
pub mod resolve;

pub use checker::EcicChecker;
pub use checklist::{Check, CheckKind, CheckStatus, EciChecklist, UnknownCheckId};
pub use context::EcicContext;
pub use decode::DecodeError;
pub use eei::ImportInterfaceMap;
pub use wasm::{
    Export, ExternalRef, FuncType, Import, InternalRef, ValType, WasmModule,
};
