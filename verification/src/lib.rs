//! A verified model of the configuration layer beneath a set of low-level
//! MLIR bindings: resolving an LLVM/MLIR installation from environment
//! configuration, classifying build trees, discovering static archives,
//! planning the link line, scoping the generated binding surface, and the
//! hand-written ABI value types (handles, logical results, string references)
//! with their null and success semantics.

pub mod cmake;
pub mod discovery;
pub mod fs;
pub mod handles;
pub mod link_plan;
pub mod logical;
pub mod paths;
pub mod policy;
pub mod resolver;
pub mod string_ref;
pub mod text;

pub use handles::MlirAffineMap;
pub use handles::MlirAttribute;
pub use handles::MlirBlock;
pub use handles::MlirContext;
pub use handles::MlirDialect;
pub use handles::MlirDialectRegistry;
pub use handles::MlirLocation;
pub use handles::MlirModule;
pub use handles::MlirOperation;
pub use handles::MlirRegion;
pub use handles::MlirSymbolTable;
pub use handles::MlirType;
pub use handles::MlirTypeID;
pub use handles::MlirValue;
pub use handles::mlirAttributeIsNull;
pub use handles::mlirBlockIsNull;
pub use handles::mlirContextIsNull;
pub use handles::mlirDialectIsNull;
pub use handles::mlirDialectRegistryIsNull;
pub use handles::mlirLocationIsNull;
pub use handles::mlirModuleIsNull;
pub use handles::mlirOperationIsNull;
pub use handles::mlirRegionIsNull;
pub use handles::mlirSymbolTableIsNull;
pub use handles::mlirTypeIDIsNull;
pub use handles::mlirTypeIsNull;
pub use handles::mlirValueIsNull;
pub use handles::mlirAffineMapIsNull;
pub use logical::MlirLogicalResult;
pub use logical::mlirLogicalResultFailure;
pub use logical::mlirLogicalResultIsFailure;
pub use logical::mlirLogicalResultIsSuccess;
pub use logical::mlirLogicalResultSuccess;
pub use string_ref::MlirStringRef;
pub use string_ref::mlirStringRefCreate;
pub use string_ref::mlirStringRefCreateFromStr;

use vstd::prelude::*;

verus! {

/// The single LLVM/MLIR major version this crate is built against.
pub const LLVM_MAJOR_VERSION: u64 = 21;

} // verus!
