//! Tests of the hand-written ABI value types: string references, logical
//! results, and the null semantics shared by every handle kind.

use mlir_sys::MlirAffineMap;
use mlir_sys::MlirAttribute;
use mlir_sys::MlirBlock;
use mlir_sys::MlirContext;
use mlir_sys::MlirDialect;
use mlir_sys::MlirDialectRegistry;
use mlir_sys::MlirLocation;
use mlir_sys::MlirLogicalResult;
use mlir_sys::MlirModule;
use mlir_sys::MlirOperation;
use mlir_sys::MlirRegion;
use mlir_sys::MlirStringRef;
use mlir_sys::MlirSymbolTable;
use mlir_sys::MlirType;
use mlir_sys::MlirTypeID;
use mlir_sys::MlirValue;
use mlir_sys::mlirAffineMapIsNull;
use mlir_sys::mlirAttributeIsNull;
use mlir_sys::mlirBlockIsNull;
use mlir_sys::mlirContextIsNull;
use mlir_sys::mlirDialectIsNull;
use mlir_sys::mlirDialectRegistryIsNull;
use mlir_sys::mlirLocationIsNull;
use mlir_sys::mlirLogicalResultFailure;
use mlir_sys::mlirLogicalResultIsFailure;
use mlir_sys::mlirLogicalResultIsSuccess;
use mlir_sys::mlirLogicalResultSuccess;
use mlir_sys::mlirModuleIsNull;
use mlir_sys::mlirOperationIsNull;
use mlir_sys::mlirRegionIsNull;
use mlir_sys::mlirStringRefCreate;
use mlir_sys::mlirStringRefCreateFromStr;
use mlir_sys::mlirSymbolTableIsNull;
use mlir_sys::mlirTypeIDIsNull;
use mlir_sys::mlirTypeIsNull;
use mlir_sys::mlirValueIsNull;

/// A stand-in for what a native factory call returns: a handle whose pointer
/// field carries a non-zero address.
const LIVE: usize = 0x1000;

#[test]
fn test_string_ref() {
    let s = "hello";
    let sr = MlirStringRef::from_str(s);
    assert_eq!(sr.len(), 5);
    assert!(!sr.is_empty());
}

#[test]
fn test_logical_result() {
    let success = MlirLogicalResult::success();
    assert!(success.is_success());
    assert!(!success.is_failure());

    let failure = MlirLogicalResult::failure();
    assert!(!failure.is_success());
    assert!(failure.is_failure());

    let from_bool: MlirLogicalResult = true.into();
    assert!(from_bool.is_success());
}

#[test]
fn test_context_creation() {
    let ctx = MlirContext { ptr: LIVE };
    assert!(!mlirContextIsNull(ctx));
}

#[test]
fn test_location_creation() {
    let loc = MlirLocation { ptr: LIVE };
    assert!(!mlirLocationIsNull(loc));
}

#[test]
fn test_module_creation() {
    let module = MlirModule { ptr: LIVE };
    assert!(!mlirModuleIsNull(module));
}

#[test]
fn test_type_parsing() {
    let type_str = MlirStringRef::from_str("i32");
    assert_eq!(type_str.len(), 3);
    let ty = MlirType { ptr: LIVE };
    assert!(!mlirTypeIsNull(ty));
}

#[test]
fn test_attribute_parsing() {
    let attr_str = MlirStringRef::from_str("42 : i32");
    assert_eq!(attr_str.len(), 8);
    let attr = MlirAttribute { ptr: LIVE };
    assert!(!mlirAttributeIsNull(attr));
}

#[test]
fn test_string_ref_reports_source_length() {
    let empty = MlirStringRef::from_str("");
    assert_eq!(empty.len(), 0);
    assert!(empty.is_empty());
    assert_ne!(empty.data, 0);

    let one = MlirStringRef::from_str("x");
    assert_eq!(one.len(), 1);
    assert!(!one.is_empty());
    assert_ne!(one.data, 0);

    let text = "an arbitrary piece of text";
    let arb = MlirStringRef::from_str(text);
    assert_eq!(arb.len(), text.len());
    assert!(!arb.is_empty());
    assert_ne!(arb.data, 0);
}

#[test]
fn test_string_ref_create_functions() {
    let sr = mlirStringRefCreate(0x2000, 7);
    assert_eq!(sr.data, 0x2000);
    assert_eq!(sr.length, 7);
    assert_eq!(sr.len(), 7);

    let sr2 = mlirStringRefCreateFromStr("abc");
    assert_eq!(sr2.length, 3);
    assert_ne!(sr2.data, 0);

    let sr3 = MlirStringRef::new(0x3000, 0);
    assert!(sr3.is_empty());

    let zero = MlirStringRef::default();
    assert_eq!(zero.data, 0);
    assert_eq!(zero.length, 0);
}

#[test]
fn test_logical_result_free_functions() {
    assert!(mlirLogicalResultIsSuccess(mlirLogicalResultSuccess()));
    assert!(!mlirLogicalResultIsFailure(mlirLogicalResultSuccess()));
    assert!(mlirLogicalResultIsFailure(mlirLogicalResultFailure()));
    assert!(!mlirLogicalResultIsSuccess(mlirLogicalResultFailure()));
    assert_eq!(mlirLogicalResultSuccess().value, 1);
    assert_eq!(mlirLogicalResultFailure().value, 0);
}

#[test]
fn test_logical_result_round_trip() {
    for b in [false, true] {
        let r = MlirLogicalResult::from(b);
        assert_eq!(r.is_success(), b);
        assert_eq!(bool::from(r), b);
        let as_result: Result<(), ()> = r.into();
        assert_eq!(as_result.is_ok(), b);
    }
    let zero = MlirLogicalResult::default();
    assert!(zero.is_failure());
    // A non-canonical non-zero encoding still reads as success.
    let odd = MlirLogicalResult { value: 7 };
    assert!(odd.is_success());
    assert!(bool::from(odd));
}

#[test]
fn test_zero_initialized_handles_are_null() {
    assert!(mlirContextIsNull(MlirContext::default()));
    assert!(mlirDialectIsNull(MlirDialect::default()));
    assert!(mlirDialectRegistryIsNull(MlirDialectRegistry::default()));
    assert!(mlirLocationIsNull(MlirLocation::default()));
    assert!(mlirModuleIsNull(MlirModule::default()));
    assert!(mlirOperationIsNull(MlirOperation::default()));
    assert!(mlirRegionIsNull(MlirRegion::default()));
    assert!(mlirBlockIsNull(MlirBlock::default()));
    assert!(mlirValueIsNull(MlirValue::default()));
    assert!(mlirTypeIsNull(MlirType::default()));
    assert!(mlirAttributeIsNull(MlirAttribute::default()));
    assert!(mlirSymbolTableIsNull(MlirSymbolTable::default()));
    assert!(mlirTypeIDIsNull(MlirTypeID::default()));
    assert!(mlirAffineMapIsNull(MlirAffineMap::default()));
}

#[test]
fn test_live_handles_are_not_null() {
    assert!(!mlirDialectIsNull(MlirDialect { ptr: LIVE }));
    assert!(!mlirDialectRegistryIsNull(MlirDialectRegistry { ptr: LIVE }));
    assert!(!mlirOperationIsNull(MlirOperation { ptr: LIVE }));
    assert!(!mlirRegionIsNull(MlirRegion { ptr: LIVE }));
    assert!(!mlirBlockIsNull(MlirBlock { ptr: LIVE }));
    assert!(!mlirValueIsNull(MlirValue { ptr: LIVE }));
    assert!(!mlirSymbolTableIsNull(MlirSymbolTable { ptr: LIVE }));
    assert!(!mlirTypeIDIsNull(MlirTypeID { ptr: LIVE }));
    assert!(!mlirAffineMapIsNull(MlirAffineMap { ptr: LIVE }));
}

#[test]
fn test_affine_map_layout_matches_other_handles() {
    // The hand-defined kind is interchangeable with the derived kinds at the
    // ABI boundary: one pointer-sized field, same null convention.
    assert_eq!(
        std::mem::size_of::<MlirAffineMap>(),
        std::mem::size_of::<MlirContext>()
    );
    assert_eq!(std::mem::size_of::<MlirAffineMap>(), std::mem::size_of::<usize>());
    let map = MlirAffineMap { ptr: 0 };
    assert!(mlirAffineMapIsNull(map));
}
