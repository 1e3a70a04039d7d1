//! The module descriptor and the calling convention of native functions.

use vstd::prelude::*;
use vstd::string::StringSliceAdditionalSpecFns;

use crate::abi::AbiVersion;
use crate::types::terminable_bytes;

verus! {

/// What a module tells the host about itself: the interface version it was
/// built for and its terminated name.
pub struct ModuleDescriptor {
    pub abi_version: AbiVersion,
    pub name: Vec<u8>,
}

/// The descriptor of a module called `name` built for version
/// `major`.`minor`; `None` when the name holds a terminator byte.
pub fn module_descriptor(name: &str, major: u32, minor: u32) -> (r: Option<ModuleDescriptor>)
    ensures
        r is None <==> name.spec_bytes().contains(0u8),
        r matches Some(d) ==> d.name@ == name.spec_bytes().push(0u8),
        r matches Some(d) ==> d.abi_version == (AbiVersion { major, minor }),
{
    match terminable_bytes(name) {
        None => None,
        Some(mut b) => {
            b.push(0u8);
            Some(ModuleDescriptor { abi_version: AbiVersion { major, minor }, name: b })
        },
    }
}

/// How many arguments a native function sees when the host passes an
/// argument array with `argc` entries: none when the array is null.
pub fn arg_view_len(args_null: bool, argc: usize) -> (r: usize)
    ensures
        r == if args_null {
            0
        } else {
            argc
        },
{
    if args_null {
        0
    } else {
        argc
    }
}

} // verus!
