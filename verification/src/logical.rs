//! The two-state logical result type of the native C API.
//!
//! A `MlirLogicalResult` stores a single integer; any non-zero stored value
//! means success and zero means failure. The helpers here reproduce the
//! semantics of the header-only functions of the native API, which have no
//! linkable symbol and therefore must be defined on this side of the ABI.

use vstd::prelude::*;

verus! {

/// A logical result value: success is encoded as a non-zero stored value,
/// failure as zero.
#[derive(Clone, Copy, Debug, PartialEq, Eq, Hash, Structural)]
pub struct MlirLogicalResult {
    pub value: i8,
}

impl MlirLogicalResult {
    /// Whether this value encodes success.
    pub open spec fn spec_is_success(self) -> bool {
        self.value != 0
    }

    /// The canonical encoding of a two-state boolean.
    pub open spec fn spec_from_bool(b: bool) -> MlirLogicalResult {
        MlirLogicalResult { value: if b { 1 } else { 0 } }
    }

    /// Check if this result represents success.
    pub fn is_success(&self) -> (r: bool)
        ensures
            r == self.spec_is_success(),
    {
        self.value != 0
    }

    /// Check if this result represents failure.
    pub fn is_failure(&self) -> (r: bool)
        ensures
            r == !self.spec_is_success(),
    {
        self.value == 0
    }

    /// Create a success result.
    pub fn success() -> (r: Self)
        ensures
            r == MlirLogicalResult::spec_from_bool(true),
            r.spec_is_success(),
    {
        MlirLogicalResult { value: 1 }
    }

    /// Create a failure result.
    pub fn failure() -> (r: Self)
        ensures
            r == MlirLogicalResult::spec_from_bool(false),
            !r.spec_is_success(),
    {
        MlirLogicalResult { value: 0 }
    }
}

impl Default for MlirLogicalResult {
    /// The zero-initialized logical result, which encodes failure.
    fn default() -> (r: Self)
        ensures
            r.value == 0,
            !r.spec_is_success(),
    {
        MlirLogicalResult { value: 0 }
    }
}

/// Checks if the given logical result represents a success.
pub fn mlirLogicalResultIsSuccess(res: MlirLogicalResult) -> (r: bool)
    ensures
        r == res.spec_is_success(),
{
    res.value != 0
}

/// Checks if the given logical result represents a failure.
pub fn mlirLogicalResultIsFailure(res: MlirLogicalResult) -> (r: bool)
    ensures
        r == !res.spec_is_success(),
{
    res.value == 0
}

/// Creates a logical result representing a success.
pub fn mlirLogicalResultSuccess() -> (r: MlirLogicalResult)
    ensures
        r == MlirLogicalResult::spec_from_bool(true),
{
    MlirLogicalResult { value: 1 }
}

/// Creates a logical result representing a failure.
pub fn mlirLogicalResultFailure() -> (r: MlirLogicalResult)
    ensures
        r == MlirLogicalResult::spec_from_bool(false),
{
    MlirLogicalResult { value: 0 }
}

impl From<bool> for MlirLogicalResult {
    /// Encode a two-state boolean as a logical result.
    fn from(b: bool) -> (r: Self) {
        if b {
            MlirLogicalResult::success()
        } else {
            MlirLogicalResult::failure()
        }
    }
}

impl vstd::std_specs::convert::FromSpecImpl<bool> for MlirLogicalResult {
    open spec fn obeys_from_spec() -> bool {
        true
    }

    open spec fn from_spec(b: bool) -> MlirLogicalResult {
        MlirLogicalResult::spec_from_bool(b)
    }
}

impl From<MlirLogicalResult> for bool {
    /// Decode a logical result to its two-state boolean.
    fn from(res: MlirLogicalResult) -> (r: Self) {
        res.is_success()
    }
}

impl vstd::std_specs::convert::FromSpecImpl<MlirLogicalResult> for bool {
    open spec fn obeys_from_spec() -> bool {
        true
    }

    open spec fn from_spec(res: MlirLogicalResult) -> bool {
        res.spec_is_success()
    }
}

impl From<MlirLogicalResult> for Result<(), ()> {
    /// Decode a logical result to a two-state host result value.
    fn from(res: MlirLogicalResult) -> (r: Self) {
        if res.is_success() {
            Ok(())
        } else {
            Err(())
        }
    }
}

impl vstd::std_specs::convert::FromSpecImpl<MlirLogicalResult> for Result<(), ()> {
    open spec fn obeys_from_spec() -> bool {
        true
    }

    open spec fn from_spec(res: MlirLogicalResult) -> Result<(), ()> {
        if res.spec_is_success() {
            Ok(())
        } else {
            Err(())
        }
    }
}

/// Round-trip law: encoding a boolean as a logical result and testing it for
/// success yields the boolean back, and decoding that encoding, either to a
/// boolean or to a two-state result value, is lossless.
pub proof fn lemma_logical_result_round_trip(b: bool)
    ensures
        MlirLogicalResult::spec_from_bool(b).spec_is_success() == b,
        MlirLogicalResult::spec_from_bool(MlirLogicalResult::spec_from_bool(b).spec_is_success())
            == MlirLogicalResult::spec_from_bool(b),
        (if MlirLogicalResult::spec_from_bool(b).spec_is_success() {
            Ok(())
        } else {
            Err(())
        }) == (if b {
            Ok::<(), ()>(())
        } else {
            Err::<(), ()>(())
        }),
{
}

} // verus!
