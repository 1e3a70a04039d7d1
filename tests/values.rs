use datacode_sdk::abi::{abi_compatible, AbiValue, AbiVersion};
use datacode_sdk::types::{
    abi_bool, abi_int, abi_null, abi_str, float_source, get_bool, get_int, get_str, FloatSource,
};

fn float_arg(args: &[AbiValue], i: usize) -> Option<f64> {
    match float_source(args, i) {
        Some(FloatSource::Widened(n)) => Some(n as f64),
        Some(FloatSource::Bits(b)) => Some(f64::from_bits(b)),
        None => None,
    }
}

fn add(args: &[AbiValue]) -> AbiValue {
    match (get_int(args, 0), get_int(args, 1)) {
        (Some(a), Some(b)) => match a.checked_add(b) {
            Some(s) => abi_int(s),
            None => abi_null(),
        },
        _ => abi_null(),
    }
}

fn mixed_args() -> Vec<AbiValue> {
    vec![
        AbiValue::Int(42),
        AbiValue::Float(2.5f64.to_bits()),
        AbiValue::Bool(true),
        AbiValue::Str(Some(b"hi".to_vec())),
        AbiValue::Str(None),
        AbiValue::Null,
    ]
}

#[test]
fn get_int_reads_only_integers() {
    let args = mixed_args();
    assert_eq!(get_int(&args, 0), Some(42));
    for i in 1..args.len() {
        assert_eq!(get_int(&args, i), None);
    }
    assert_eq!(get_int(&args, 6), None);
    assert_eq!(get_int(&[], 0), None);
    assert_eq!(get_int(&[AbiValue::Int(i64::MIN)], 0), Some(i64::MIN));
}

#[test]
fn get_bool_reads_only_booleans() {
    let args = mixed_args();
    assert_eq!(get_bool(&args, 2), Some(true));
    assert_eq!(get_bool(&[AbiValue::Bool(false)], 0), Some(false));
    for i in [0usize, 1, 3, 4, 5, 6, usize::MAX] {
        assert_eq!(get_bool(&args, i), None);
    }
}

#[test]
fn get_str_reads_valid_text_only() {
    let args = mixed_args();
    assert_eq!(get_str(&args, 3), Some("hi"));
    assert_eq!(get_str(&args, 4), None);
    for i in [0usize, 1, 2, 5, 6] {
        assert_eq!(get_str(&args, i), None);
    }
    let bad = vec![AbiValue::Str(Some(vec![0xff, 0xfe]))];
    assert_eq!(get_str(&bad, 0), None);
    let multi = vec![AbiValue::Str(Some("héllo".as_bytes().to_vec()))];
    assert_eq!(get_str(&multi, 0), Some("héllo"));
}

#[test]
fn get_float_widens_integers_and_reads_floats() {
    let args = mixed_args();
    assert_eq!(float_arg(&args, 0), Some(42.0));
    assert_eq!(float_arg(&args, 1), Some(2.5));
    for i in [2usize, 3, 4, 5, 6] {
        assert_eq!(float_arg(&args, i), None);
    }
    assert_eq!(float_source(&args, 0), Some(FloatSource::Widened(42)));
    assert_eq!(float_source(&args, 1), Some(FloatSource::Bits(2.5f64.to_bits())));
}

#[test]
fn get_float_is_exact_up_to_two_to_the_53() {
    let limit: i64 = 1 << 53;
    for n in [0i64, 1, -1, 12345, -98765, limit - 1, limit, -limit] {
        let got = float_arg(&[AbiValue::Int(n)], 0).unwrap();
        assert_eq!(got, n as f64);
        assert_eq!(got as i64, n);
    }
}

#[test]
fn builders_make_their_variant() {
    assert_eq!(abi_int(-7), AbiValue::Int(-7));
    assert_eq!(abi_bool(true), AbiValue::Bool(true));
    assert_eq!(abi_null(), AbiValue::Null);
}

#[test]
fn str_round_trips_byte_for_byte() {
    let v = abi_str("abc");
    assert_eq!(v, AbiValue::Str(Some(b"abc".to_vec())));
    let args = vec![v];
    assert_eq!(get_str(&args, 0), Some("abc"));
    assert_eq!(get_str(&args, 0).unwrap().as_bytes(), b"abc");

    let empty = vec![abi_str("")];
    assert_eq!(empty[0], AbiValue::Str(Some(Vec::new())));
    assert_eq!(get_str(&empty, 0), Some(""));
}

#[test]
fn str_with_terminator_is_null() {
    assert_eq!(abi_str("a\0b"), AbiValue::Null);
    assert_eq!(abi_str("\0"), AbiValue::Null);
    assert_eq!(abi_str("abc\0"), AbiValue::Null);
}

#[test]
fn add_function_sums_two_integers() {
    assert_eq!(add(&[AbiValue::Int(2), AbiValue::Int(3)]), AbiValue::Int(5));
    assert_eq!(add(&[AbiValue::Int(2)]), AbiValue::Null);
    assert_eq!(add(&[]), AbiValue::Null);
}

#[test]
fn version_compatibility() {
    let v = |major: u32, minor: u32| AbiVersion { major, minor };
    assert!(!abi_compatible(v(1, 2), v(1, 1)));
    assert!(abi_compatible(v(1, 1), v(1, 3)));
    assert!(abi_compatible(v(1, 1), v(1, 1)));
    assert!(!abi_compatible(v(1, 0), v(2, 0)));
    assert!(!abi_compatible(v(2, 0), v(1, 9)));
}
