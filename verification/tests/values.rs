use std::borrow::Cow;

use featureflag::extensions::Extensions;
use featureflag::fields::Fields;
use featureflag::value::{ToValue, Value};

fn same(a: &Value<'_>, b: &Value<'_>) -> bool {
    match (a, b) {
        (Value::Str(x), Value::Str(y)) => x == y,
        (Value::Bytes(x), Value::Bytes(y)) => x == y,
        (Value::Bool(x), Value::Bool(y)) => x == y,
        (Value::I64(x), Value::I64(y)) => x == y,
        (Value::U64(x), Value::U64(y)) => x == y,
        (Value::F64(x), Value::F64(y)) => x == y,
        (Value::Null, Value::Null) => true,
        _ => false,
    }
}

fn owned(v: &Value<'_>) -> bool {
    !matches!(v, Value::Str(Cow::Borrowed(_)) | Value::Bytes(Cow::Borrowed(_)))
}

fn samples() -> Vec<Value<'static>> {
    vec![
        Value::Str(Cow::Borrowed("hello")),
        Value::Str(Cow::Owned(String::from("wörld"))),
        Value::Str(Cow::Borrowed("")),
        Value::Bytes(Cow::Borrowed(&[0u8, 255, 7])),
        Value::Bytes(Cow::Owned(vec![1u8, 2, 3])),
        Value::Bool(true),
        Value::Bool(false),
        Value::I64(i64::MIN),
        Value::I64(-1),
        Value::U64(u64::MAX),
        Value::F64(1.5f64.to_bits()),
        Value::F64(f64::NAN.to_bits()),
        Value::Null,
    ]
}

#[test]
fn to_static_keeps_kind_and_payload() {
    for v in samples() {
        let s = v.to_static();
        assert!(same(&v, &s));
        assert!(owned(&s));
    }
}

#[test]
fn to_static_twice_is_to_static_once() {
    for v in samples() {
        let once = v.to_static();
        let twice = once.to_static();
        assert!(same(&once, &twice));
        assert!(owned(&twice));
    }
}

#[test]
fn into_static_keeps_kind_and_payload() {
    for v in samples() {
        let copy = v.clone();
        let s = v.into_static();
        assert!(same(&copy, &s));
        assert!(owned(&s));
    }
}

#[test]
fn to_static_outlives_its_source() {
    let kept = {
        let text = String::from("short lived");
        let borrowed = Value::Str(Cow::Borrowed(text.as_str()));
        borrowed.to_static()
    };
    assert_eq!(kept.as_str(), Some("short lived"));
}

#[test]
fn clone_keeps_borrowing() {
    let v = Value::Str(Cow::Borrowed("x"));
    let c = v.clone();
    assert!(!owned(&c));
    assert_eq!(c.as_str(), Some("x"));
    let o = Value::Bytes(Cow::Owned(vec![9u8]));
    let c = o.clone();
    assert!(owned(&c));
    assert_eq!(c.as_bytes(), Some(&[9u8][..]));
}

#[test]
fn accessors_answer_for_their_own_kind_only() {
    let s = Value::Str(Cow::Borrowed("a"));
    assert_eq!(s.as_str(), Some("a"));
    assert_eq!(s.as_bytes(), None);
    assert_eq!(s.as_bool(), None);
    assert_eq!(s.as_i64(), None);
    assert_eq!(s.as_u64(), None);
    assert_eq!(s.as_f64_bits(), None);
    assert!(!s.is_null());

    let b = Value::Bytes(Cow::Borrowed(&[1u8, 2]));
    assert_eq!(b.as_bytes(), Some(&[1u8, 2][..]));
    assert_eq!(b.as_str(), None);

    assert_eq!(Value::Bool(false).as_bool(), Some(false));
    assert_eq!(Value::Bool(true).as_i64(), None);
    assert_eq!(Value::I64(-5).as_i64(), Some(-5));
    assert_eq!(Value::I64(5).as_u64(), None);
    assert_eq!(Value::U64(5).as_u64(), Some(5));
    assert_eq!(Value::U64(5).as_i64(), None);

    let x = Value::F64(2.25f64.to_bits());
    assert_eq!(x.as_f64_bits().map(f64::from_bits), Some(2.25));
    assert_eq!(x.as_u64(), None);

    assert!(Value::Null.is_null());
    assert_eq!(Value::Null.as_bool(), None);
    assert!(Value::default().is_null());
}

#[test]
fn to_value_of_each_kind() {
    assert_eq!("abc".to_value().as_str(), Some("abc"));
    assert_eq!(String::from("abc").to_value().as_str(), Some("abc"));
    assert!(!owned(&"abc".to_value()));
    assert_eq!([1u8, 2][..].to_value().as_bytes(), Some(&[1u8, 2][..]));
    assert_eq!(vec![3u8].to_value().as_bytes(), Some(&[3u8][..]));
    assert_eq!(true.to_value().as_bool(), Some(true));
    assert_eq!((-3i8).to_value().as_i64(), Some(-3));
    assert_eq!(i16::MIN.to_value().as_i64(), Some(-32768));
    assert_eq!(i32::MAX.to_value().as_i64(), Some(2147483647));
    assert_eq!(i64::MIN.to_value().as_i64(), Some(i64::MIN));
    assert_eq!(200u8.to_value().as_u64(), Some(200));
    assert_eq!(u16::MAX.to_value().as_u64(), Some(65535));
    assert_eq!(u32::MAX.to_value().as_u64(), Some(4294967295));
    assert_eq!(u64::MAX.to_value().as_u64(), Some(u64::MAX));
    assert_eq!(Some(4u8).to_value().as_u64(), Some(4));
    assert!(None::<u8>.to_value().is_null());
    let text = "ref";
    assert_eq!((&text).to_value().as_str(), Some("ref"));
    let owned_text: Cow<'_, String> = Cow::Owned(String::from("cow"));
    assert_eq!(owned_text.to_value().as_str(), Some("cow"));
    let number = 12u16;
    let borrowed_number: Cow<'_, u16> = Cow::Borrowed(&number);
    assert_eq!(borrowed_number.to_value().as_u64(), Some(12));
}

#[test]
fn fields_get_finds_the_first_of_a_name() {
    let pairs = [
        ("a", Value::I64(1)),
        ("b", Value::I64(2)),
        ("a", Value::I64(3)),
    ];
    let fields = Fields::new(&pairs);
    assert_eq!(fields.get("a").and_then(|v| v.as_i64()), Some(1));
    assert_eq!(fields.get("b").and_then(|v| v.as_i64()), Some(2));
    assert!(fields.get("c").is_none());
    assert!(fields.get("").is_none());
    assert!(fields.get("A").is_none());
}

#[test]
fn fields_pairs_come_in_order() {
    let pairs = [
        ("x", Value::Bool(true)),
        ("y", Value::Null),
        ("x", Value::U64(7)),
    ];
    let fields = Fields::new(&pairs);
    assert_eq!(fields.len(), 3);
    let listed = fields.pairs();
    assert_eq!(listed.len(), 3);
    assert_eq!(listed[0].0, "x");
    assert_eq!(listed[0].1.as_bool(), Some(true));
    assert_eq!(listed[1].0, "y");
    assert!(listed[1].1.is_null());
    assert_eq!(listed[2].0, "x");
    assert_eq!(listed[2].1.as_u64(), Some(7));
}

#[test]
fn fields_may_be_empty() {
    let fields = Fields::new(&[]);
    assert_eq!(fields.len(), 0);
    assert!(fields.pairs().is_empty());
    assert!(fields.get("a").is_none());
    let copy = fields.clone();
    assert_eq!(copy.len(), 0);
}

#[derive(Debug, PartialEq)]
struct Tenant(u32);

#[derive(Debug, PartialEq)]
struct Session(String);

#[test]
fn extensions_start_empty() {
    let ext = Extensions::new();
    assert!(!ext.has::<Tenant>());
    assert_eq!(ext.get::<Tenant>(), None);
    let ext = Extensions::default();
    assert!(!ext.has::<u8>());
}

#[test]
fn extensions_insert_is_an_upsert() {
    let mut ext = Extensions::new();
    assert_eq!(ext.insert(Tenant(1)), None);
    assert!(ext.has::<Tenant>());
    assert_eq!(ext.get::<Tenant>(), Some(&Tenant(1)));
    assert_eq!(ext.insert(Tenant(2)), Some(Tenant(1)));
    assert_eq!(ext.get::<Tenant>(), Some(&Tenant(2)));
}

#[test]
fn extensions_hold_one_value_for_each_type() {
    let mut ext = Extensions::new();
    assert_eq!(ext.insert(Tenant(1)), None);
    assert_eq!(ext.insert(Session(String::from("s"))), None);
    assert_eq!(ext.insert(5u32), None);
    assert_eq!(ext.get::<Tenant>(), Some(&Tenant(1)));
    assert_eq!(ext.get::<Session>(), Some(&Session(String::from("s"))));
    assert_eq!(ext.get::<u32>(), Some(&5));
    assert_eq!(ext.get::<u64>(), None);
    assert!(!ext.has::<u64>());

    assert_eq!(ext.insert(Session(String::from("t"))), Some(Session(String::from("s"))));
    assert_eq!(ext.get::<Tenant>(), Some(&Tenant(1)));
    assert_eq!(ext.get::<u32>(), Some(&5));
}

#[test]
fn extensions_remove_takes_the_value_out() {
    let mut ext = Extensions::new();
    assert_eq!(ext.remove::<Tenant>(), None);
    ext.insert(Tenant(1));
    ext.insert(Session(String::from("s")));
    ext.insert(9u8);
    assert_eq!(ext.remove::<Tenant>(), Some(Tenant(1)));
    assert!(!ext.has::<Tenant>());
    assert_eq!(ext.remove::<Tenant>(), None);
    assert_eq!(ext.get::<Session>(), Some(&Session(String::from("s"))));
    assert_eq!(ext.get::<u8>(), Some(&9));
    assert_eq!(ext.remove::<u8>(), Some(9));
    assert_eq!(ext.remove::<Session>(), Some(Session(String::from("s"))));
    assert!(!ext.has::<Session>());
}

#[test]
fn extensions_get_mut_changes_the_value_in_place() {
    let mut ext = Extensions::new();
    assert!(ext.get_mut::<Tenant>().is_none());
    ext.insert(Tenant(1));
    ext.insert(3u16);
    if let Some(t) = ext.get_mut::<Tenant>() {
        t.0 = 10;
    }
    assert_eq!(ext.get::<Tenant>(), Some(&Tenant(10)));
    assert_eq!(ext.get::<u16>(), Some(&3));
    assert!(ext.get_mut::<u32>().is_none());
}
