//! Values and records exchanged with the host VM.

use vstd::prelude::*;

verus! {

/// A value passed across the module boundary: an argument handed to a
/// native function, or the result it gives back.
#[derive(Clone, Debug, PartialEq, Eq)]
pub enum AbiValue {
    Null,
    Int(i64),
    /// The IEEE-754 bit pattern of a 64-bit float.
    Float(u64),
    Bool(bool),
    /// The bytes of a string before its terminator, or `None` for a null
    /// string pointer.
    Str(Option<Vec<u8>>),
}

/// The bytes that a string value carries, without its terminator.
pub open spec fn str_bytes(v: AbiValue) -> Option<Seq<u8>> {
    match v {
        AbiValue::Str(Some(b)) => Some(b@),
        _ => None,
    }
}

/// Major and minor number of the module interface.
#[derive(Clone, Copy, Debug, PartialEq, Eq, Structural)]
pub struct AbiVersion {
    pub major: u32,
    pub minor: u32,
}

/// A caller and a callee can work together when they share the major number
/// and the callee offers at least the minor revision the caller expects.
pub open spec fn compatible(caller: AbiVersion, callee: AbiVersion) -> bool {
    caller.major == callee.major && caller.minor <= callee.minor
}

/// Checks whether a caller built against `caller` can use a callee that
/// offers `callee`.
pub fn abi_compatible(caller: AbiVersion, callee: AbiVersion) -> (r: bool)
    ensures
        r == compatible(caller, callee),
{
    caller.major == callee.major && caller.minor <= callee.minor
}

} // verus!
