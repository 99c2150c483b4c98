//! Opaque handle kinds of the native C API.
//!
//! Every handle kind wraps exactly one native pointer, carried here as its
//! address bit pattern. A handle never owns the referent: lifetime of the
//! native object is entirely the toolkit's business. The one invariant all
//! kinds share is null-equality: a handle is null exactly when its pointer
//! field is zero, and every kind answers that question through a predicate
//! with identical semantics. These predicates are header-only (inline) in the
//! native headers, so they are defined on this side of the ABI.
//!
//! `MlirAffineMap` is the one kind the automatic surface derivation cannot
//! recover (its header forward-declares the type before defining it); it is
//! written by hand with the same single-pointer layout and the same null
//! semantics as every derived kind.

use vstd::prelude::*;

verus! {

/// A context handle.
#[derive(Clone, Copy, Debug, PartialEq, Eq, Hash, Structural)]
pub struct MlirContext {
    pub ptr: usize,
}

/// A dialect handle.
#[derive(Clone, Copy, Debug, PartialEq, Eq, Hash, Structural)]
pub struct MlirDialect {
    pub ptr: usize,
}

/// A dialect registry handle.
#[derive(Clone, Copy, Debug, PartialEq, Eq, Hash, Structural)]
pub struct MlirDialectRegistry {
    pub ptr: usize,
}

/// A source location handle.
#[derive(Clone, Copy, Debug, PartialEq, Eq, Hash, Structural)]
pub struct MlirLocation {
    pub ptr: usize,
}

/// A module handle.
#[derive(Clone, Copy, Debug, PartialEq, Eq, Hash, Structural)]
pub struct MlirModule {
    pub ptr: usize,
}

/// An operation handle.
#[derive(Clone, Copy, Debug, PartialEq, Eq, Hash, Structural)]
pub struct MlirOperation {
    pub ptr: usize,
}

/// A region handle.
#[derive(Clone, Copy, Debug, PartialEq, Eq, Hash, Structural)]
pub struct MlirRegion {
    pub ptr: usize,
}

/// A block handle.
#[derive(Clone, Copy, Debug, PartialEq, Eq, Hash, Structural)]
pub struct MlirBlock {
    pub ptr: usize,
}

/// A value handle.
#[derive(Clone, Copy, Debug, PartialEq, Eq, Hash, Structural)]
pub struct MlirValue {
    pub ptr: usize,
}

/// A type handle.
#[derive(Clone, Copy, Debug, PartialEq, Eq, Hash, Structural)]
pub struct MlirType {
    pub ptr: usize,
}

/// An attribute handle.
#[derive(Clone, Copy, Debug, PartialEq, Eq, Hash, Structural)]
pub struct MlirAttribute {
    pub ptr: usize,
}

/// A symbol table handle.
#[derive(Clone, Copy, Debug, PartialEq, Eq, Hash, Structural)]
pub struct MlirSymbolTable {
    pub ptr: usize,
}

/// A type identifier handle.
#[derive(Clone, Copy, Debug, PartialEq, Eq, Hash, Structural)]
pub struct MlirTypeID {
    pub ptr: usize,
}

/// An affine map handle.
///
/// This is the hand-written kind: the automatic derivation is defeated by the
/// forward declaration in the native headers, so the type is defined manually
/// with the same single-pointer layout and null semantics as the derived
/// kinds, making it interchangeable with them at the ABI boundary.
#[derive(Clone, Copy, Debug, PartialEq, Eq, Hash, Structural)]
pub struct MlirAffineMap {
    pub ptr: usize,
}

impl MlirContext {
    pub open spec fn spec_is_null(self) -> bool {
        self.ptr == 0
    }
}

impl MlirDialect {
    pub open spec fn spec_is_null(self) -> bool {
        self.ptr == 0
    }
}

impl MlirDialectRegistry {
    pub open spec fn spec_is_null(self) -> bool {
        self.ptr == 0
    }
}

impl MlirLocation {
    pub open spec fn spec_is_null(self) -> bool {
        self.ptr == 0
    }
}

impl MlirModule {
    pub open spec fn spec_is_null(self) -> bool {
        self.ptr == 0
    }
}

impl MlirOperation {
    pub open spec fn spec_is_null(self) -> bool {
        self.ptr == 0
    }
}

impl MlirRegion {
    pub open spec fn spec_is_null(self) -> bool {
        self.ptr == 0
    }
}

impl MlirBlock {
    pub open spec fn spec_is_null(self) -> bool {
        self.ptr == 0
    }
}

impl MlirValue {
    pub open spec fn spec_is_null(self) -> bool {
        self.ptr == 0
    }
}

impl MlirType {
    pub open spec fn spec_is_null(self) -> bool {
        self.ptr == 0
    }
}

impl MlirAttribute {
    pub open spec fn spec_is_null(self) -> bool {
        self.ptr == 0
    }
}

impl MlirSymbolTable {
    pub open spec fn spec_is_null(self) -> bool {
        self.ptr == 0
    }
}

impl MlirTypeID {
    pub open spec fn spec_is_null(self) -> bool {
        self.ptr == 0
    }
}

impl MlirAffineMap {
    pub open spec fn spec_is_null(self) -> bool {
        self.ptr == 0
    }
}

impl Default for MlirContext {
    /// The zero-initialized (null) handle.
    fn default() -> (r: Self)
        ensures
            r.ptr == 0,
    {
        MlirContext { ptr: 0 }
    }
}

impl Default for MlirDialect {
    /// The zero-initialized (null) handle.
    fn default() -> (r: Self)
        ensures
            r.ptr == 0,
    {
        MlirDialect { ptr: 0 }
    }
}

impl Default for MlirDialectRegistry {
    /// The zero-initialized (null) handle.
    fn default() -> (r: Self)
        ensures
            r.ptr == 0,
    {
        MlirDialectRegistry { ptr: 0 }
    }
}

impl Default for MlirLocation {
    /// The zero-initialized (null) handle.
    fn default() -> (r: Self)
        ensures
            r.ptr == 0,
    {
        MlirLocation { ptr: 0 }
    }
}

impl Default for MlirModule {
    /// The zero-initialized (null) handle.
    fn default() -> (r: Self)
        ensures
            r.ptr == 0,
    {
        MlirModule { ptr: 0 }
    }
}

impl Default for MlirOperation {
    /// The zero-initialized (null) handle.
    fn default() -> (r: Self)
        ensures
            r.ptr == 0,
    {
        MlirOperation { ptr: 0 }
    }
}

impl Default for MlirRegion {
    /// The zero-initialized (null) handle.
    fn default() -> (r: Self)
        ensures
            r.ptr == 0,
    {
        MlirRegion { ptr: 0 }
    }
}

impl Default for MlirBlock {
    /// The zero-initialized (null) handle.
    fn default() -> (r: Self)
        ensures
            r.ptr == 0,
    {
        MlirBlock { ptr: 0 }
    }
}

impl Default for MlirValue {
    /// The zero-initialized (null) handle.
    fn default() -> (r: Self)
        ensures
            r.ptr == 0,
    {
        MlirValue { ptr: 0 }
    }
}

impl Default for MlirType {
    /// The zero-initialized (null) handle.
    fn default() -> (r: Self)
        ensures
            r.ptr == 0,
    {
        MlirType { ptr: 0 }
    }
}

impl Default for MlirAttribute {
    /// The zero-initialized (null) handle.
    fn default() -> (r: Self)
        ensures
            r.ptr == 0,
    {
        MlirAttribute { ptr: 0 }
    }
}

impl Default for MlirSymbolTable {
    /// The zero-initialized (null) handle.
    fn default() -> (r: Self)
        ensures
            r.ptr == 0,
    {
        MlirSymbolTable { ptr: 0 }
    }
}

impl Default for MlirTypeID {
    /// The zero-initialized (null) handle.
    fn default() -> (r: Self)
        ensures
            r.ptr == 0,
    {
        MlirTypeID { ptr: 0 }
    }
}

impl Default for MlirAffineMap {
    /// The zero-initialized (null) handle.
    fn default() -> (r: Self)
        ensures
            r.ptr == 0,
    {
        MlirAffineMap { ptr: 0 }
    }
}

/// Checks whether a context is null.
pub fn mlirContextIsNull(context: MlirContext) -> (r: bool)
    ensures
        r == context.spec_is_null(),
{
    context.ptr == 0
}

/// Checks if the dialect is null.
pub fn mlirDialectIsNull(dialect: MlirDialect) -> (r: bool)
    ensures
        r == dialect.spec_is_null(),
{
    dialect.ptr == 0
}

/// Checks if the dialect registry is null.
pub fn mlirDialectRegistryIsNull(registry: MlirDialectRegistry) -> (r: bool)
    ensures
        r == registry.spec_is_null(),
{
    registry.ptr == 0
}

/// Checks if the location is null.
pub fn mlirLocationIsNull(location: MlirLocation) -> (r: bool)
    ensures
        r == location.spec_is_null(),
{
    location.ptr == 0
}

/// Checks whether a module is null.
pub fn mlirModuleIsNull(module: MlirModule) -> (r: bool)
    ensures
        r == module.spec_is_null(),
{
    module.ptr == 0
}

/// Checks whether the underlying operation is null.
pub fn mlirOperationIsNull(op: MlirOperation) -> (r: bool)
    ensures
        r == op.spec_is_null(),
{
    op.ptr == 0
}

/// Checks whether a region is null.
pub fn mlirRegionIsNull(region: MlirRegion) -> (r: bool)
    ensures
        r == region.spec_is_null(),
{
    region.ptr == 0
}

/// Checks whether a block is null.
pub fn mlirBlockIsNull(block: MlirBlock) -> (r: bool)
    ensures
        r == block.spec_is_null(),
{
    block.ptr == 0
}

/// Returns whether the value is null.
pub fn mlirValueIsNull(value: MlirValue) -> (r: bool)
    ensures
        r == value.spec_is_null(),
{
    value.ptr == 0
}

/// Checks whether a type is null.
pub fn mlirTypeIsNull(type_: MlirType) -> (r: bool)
    ensures
        r == type_.spec_is_null(),
{
    type_.ptr == 0
}

/// Checks whether an attribute is null.
pub fn mlirAttributeIsNull(attr: MlirAttribute) -> (r: bool)
    ensures
        r == attr.spec_is_null(),
{
    attr.ptr == 0
}

/// Returns true if the symbol table is null.
pub fn mlirSymbolTableIsNull(symbolTable: MlirSymbolTable) -> (r: bool)
    ensures
        r == symbolTable.spec_is_null(),
{
    symbolTable.ptr == 0
}

/// Checks whether a type id is null.
pub fn mlirTypeIDIsNull(typeID: MlirTypeID) -> (r: bool)
    ensures
        r == typeID.spec_is_null(),
{
    typeID.ptr == 0
}

/// Checks whether an affine map is null.
pub fn mlirAffineMapIsNull(affineMap: MlirAffineMap) -> (r: bool)
    ensures
        r == affineMap.spec_is_null(),
{
    affineMap.ptr == 0
}

/// Null-equivalence law: for every handle kind, the hand-written affine map
/// kind included, the zero-initialized value is null, and a handle is null
/// exactly when its single pointer field holds the zero bit pattern.
pub proof fn lemma_zero_initialized_handles_are_null()
    ensures
        (MlirContext { ptr: 0 }).spec_is_null(),
        (MlirDialect { ptr: 0 }).spec_is_null(),
        (MlirDialectRegistry { ptr: 0 }).spec_is_null(),
        (MlirLocation { ptr: 0 }).spec_is_null(),
        (MlirModule { ptr: 0 }).spec_is_null(),
        (MlirOperation { ptr: 0 }).spec_is_null(),
        (MlirRegion { ptr: 0 }).spec_is_null(),
        (MlirBlock { ptr: 0 }).spec_is_null(),
        (MlirValue { ptr: 0 }).spec_is_null(),
        (MlirType { ptr: 0 }).spec_is_null(),
        (MlirAttribute { ptr: 0 }).spec_is_null(),
        (MlirSymbolTable { ptr: 0 }).spec_is_null(),
        (MlirTypeID { ptr: 0 }).spec_is_null(),
        (MlirAffineMap { ptr: 0 }).spec_is_null(),
        forall|h: MlirAffineMap| h.spec_is_null() <==> h.ptr == 0,
{
}

} // verus!
