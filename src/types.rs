//! Reading arguments and building results of native functions.

use vstd::prelude::*;
use vstd::string::StringSliceAdditionalSpecFns;
use vstd::utf8::{decode_utf8, valid_utf8};

use crate::abi::{str_bytes, AbiValue};

verus! {

/// Integer type of the VM.
pub type DCInt = i64;

/// The integer at index `i` of `args`, if there is one.
pub open spec fn int_arg(args: Seq<AbiValue>, i: int) -> Option<i64> {
    if 0 <= i < args.len() {
        match args[i] {
            AbiValue::Int(n) => Some(n),
            _ => None,
        }
    } else {
        None
    }
}

/// The boolean at index `i` of `args`, if there is one.
pub open spec fn bool_arg(args: Seq<AbiValue>, i: int) -> Option<bool> {
    if 0 <= i < args.len() {
        match args[i] {
            AbiValue::Bool(b) => Some(b),
            _ => None,
        }
    } else {
        None
    }
}

/// The text that a value holds: a non-null string whose bytes are valid UTF-8.
pub open spec fn text_of(v: AbiValue) -> Option<Seq<char>> {
    match str_bytes(v) {
        Some(b) => if valid_utf8(b) {
            Some(decode_utf8(b))
        } else {
            None
        },
        None => None,
    }
}

/// The text at index `i` of `args`, if there is one.
pub open spec fn str_arg(args: Seq<AbiValue>, i: int) -> Option<Seq<char>> {
    if 0 <= i < args.len() {
        text_of(args[i])
    } else {
        None
    }
}

/// Argument `i` as an integer; `None` when it is missing or not an integer.
pub fn get_int(args: &[AbiValue], i: usize) -> (r: Option<i64>)
    ensures
        r == int_arg(args@, i as int),
{
    if i < args.len() {
        match &args[i] {
            AbiValue::Int(n) => Some(*n),
            _ => None,
        }
    } else {
        None
    }
}

/// Argument `i` as a boolean; `None` when it is missing or not a boolean.
pub fn get_bool(args: &[AbiValue], i: usize) -> (r: Option<bool>)
    ensures
        r == bool_arg(args@, i as int),
{
    if i < args.len() {
        match &args[i] {
            AbiValue::Bool(b) => Some(*b),
            _ => None,
        }
    } else {
        None
    }
}

/// Relies on std::str::from_utf8: it succeeds exactly on valid UTF-8 and
/// then views the same bytes as text.
#[verifier::external_body]
fn utf8_text(b: &[u8]) -> (r: Option<&str>)
    ensures
        r is Some <==> valid_utf8(b@),
        r matches Some(t) ==> t.spec_bytes() == b@,
{
    std::str::from_utf8(b).ok()
}

/// Argument `i` as text borrowed from the argument list; `None` when it is
/// missing, not a string, a null string or not valid UTF-8.
pub fn get_str(args: &[AbiValue], i: usize) -> (r: Option<&str>)
    ensures
        r is Some <==> str_arg(args@, i as int) is Some,
        r matches Some(t) ==> str_arg(args@, i as int) == Some(t@),
        r matches Some(t) ==> str_bytes(args@[i as int]) == Some(t.spec_bytes()),
{
    if i < args.len() {
        match &args[i] {
            AbiValue::Str(Some(b)) => {
                let r = utf8_text(b.as_slice());
                proof {
                    if let Some(t) = r {
                        vstd::utf8::encode_utf8_decode_utf8(t@);
                    }
                }
                r
            },
            _ => None,
        }
    } else {
        None
    }
}

/// An integer result.
pub fn abi_int(i: i64) -> (r: AbiValue)
    ensures
        r == AbiValue::Int(i),
{
    AbiValue::Int(i)
}

/// A boolean result.
pub fn abi_bool(b: bool) -> (r: AbiValue)
    ensures
        r == AbiValue::Bool(b),
{
    AbiValue::Bool(b)
}

/// The null result.
pub fn abi_null() -> (r: AbiValue)
    ensures
        r == AbiValue::Null,
{
    AbiValue::Null
}

/// The bytes of `s` when they hold no terminator byte, `None` otherwise.
pub(crate) fn terminable_bytes(s: &str) -> (r: Option<Vec<u8>>)
    ensures
        r is None <==> s.spec_bytes().contains(0u8),
        r matches Some(b) ==> b@ == s.spec_bytes(),
{
    let bytes = s.as_bytes();
    let mut out: Vec<u8> = Vec::new();
    let mut k: usize = 0;
    while k < bytes.len()
        invariant
            k <= bytes@.len(),
            bytes@ == s.spec_bytes(),
            out@ == bytes@.subrange(0, k as int),
            forall|j: int| 0 <= j < k ==> bytes@[j] != 0u8,
        decreases bytes@.len() - k,
    {
        if bytes[k] == 0u8 {
            assert(bytes@[k as int] == 0u8);
            return None;
        }
        out.push(bytes[k]);
        k = k + 1;
    }
    assert(out@ =~= bytes@);
    Some(out)
}

/// A string result holding the bytes of `s`; the null value when `s` holds
/// a terminator byte, which a terminated string cannot carry.
pub fn abi_str(s: &str) -> (r: AbiValue)
    ensures
        s.spec_bytes().contains(0u8) ==> r == AbiValue::Null,
        !s.spec_bytes().contains(0u8) ==> str_bytes(r) == Some(s.spec_bytes()),
{
    match terminable_bytes(s) {
        Some(b) => AbiValue::Str(Some(b)),
        None => AbiValue::Null,
    }
}

/// A string result built from `s` and read back as an argument gives the
/// text of `s`, whose bytes are exactly the bytes it was built from.
pub proof fn lemma_str_round_trip(s: &str, v: AbiValue)
    requires
        !s.spec_bytes().contains(0u8),
        str_bytes(v) == Some(s.spec_bytes()),
    ensures
        text_of(v) == Some(s@),
        str_arg(seq![v], 0) == Some(s@),
{
    vstd::utf8::encode_utf8_valid_utf8(s@);
    vstd::utf8::encode_utf8_decode_utf8(s@);
    assert(seq![v][0] == v);
}

/// Where the float read from an argument comes from: an integer that is
/// widened, or the bit pattern of a float.
#[derive(Clone, Copy, Debug, PartialEq, Eq, Structural)]
pub enum FloatSource {
    Widened(i64),
    Bits(u64),
}

/// The float source at index `i` of `args`, if there is one.
pub open spec fn float_arg(args: Seq<AbiValue>, i: int) -> Option<FloatSource> {
    if 0 <= i < args.len() {
        match args[i] {
            AbiValue::Int(n) => Some(FloatSource::Widened(n)),
            AbiValue::Float(f) => Some(FloatSource::Bits(f)),
            _ => None,
        }
    } else {
        None
    }
}

/// Argument `i` as the source of a float: integers and floats qualify, any
/// other value or a missing index gives `None`.
pub fn float_source(args: &[AbiValue], i: usize) -> (r: Option<FloatSource>)
    ensures
        r == float_arg(args@, i as int),
{
    if i < args.len() {
        match &args[i] {
            AbiValue::Int(n) => Some(FloatSource::Widened(*n)),
            AbiValue::Float(f) => Some(FloatSource::Bits(*f)),
            _ => None,
        }
    } else {
        None
    }
}

} // verus!
