use std::collections::{BTreeMap, HashMap, HashSet};
use fcplug::runtime::abi::{
    Buffer, GoFfiData, GoFfiResult, ResultMsg, RustFfiArg, RustFfiResult, TBytes, TryFromBytes, TryIntoBytes,
    IntoMessage, TryIntoTBytes, ABIResult, RC_DECODE, RC_UNKNOWN,
};
use fcplug::runtime::ctypes::{ConvRepr, FfiArray, FfiMap, MapEntry};
use fcplug::runtime::rclib::{FFIResult, LeakBuffer, ResultCode, result_code_number};

#[test]
fn buffers() {
    let b = Buffer::from_vec(vec![1, 2, 3]);
    assert_eq!(b.read(), Some(&[1u8, 2, 3][..]));
    assert_eq!(b.to_text(), "Some([1, 2, 3])");
    assert_eq!(Buffer::null().read(), None);
    assert_eq!(Buffer::from_vec(vec![]).to_text(), "None");
    assert_eq!(Buffer::from_vec(vec![0, 99, 100, 255]).to_text(), "Some([0, 99, 100, 255])");
    assert!(Buffer::default().is_empty());
    let arg: RustFfiArg<String> = RustFfiArg::from(Buffer::from_vec(vec![9]));
    assert_eq!(arg.bytes(), &[9u8][..]);
}

#[test]
fn go_results() {
    let r: GoFfiResult<String> = GoFfiResult::from_err(ResultMsg { code: 0, msg: "boom".to_string() });
    assert_eq!(r.code, RC_UNKNOWN);
    let back = r.into_abi_result();
    let e = back.unwrap_err();
    assert_eq!(e.code, RC_UNKNOWN);
    assert_eq!(e.msg, "boom");
    let ok = GoFfiResult::from_encoded(Ok(vec![7, 8]));
    assert_eq!(ok.code, 0);
    let v = ok.into_abi_result().unwrap();
    assert_eq!(v.bytes, vec![7, 8]);
    let mut none: GoFfiResult<u32> = GoFfiResult { code: 0, data: GoFfiData::Nothing };
    assert_eq!(none.consume_data(), None);
    assert_eq!(none.into_abi_result().unwrap(), 0);
    let err = GoFfiResult::from_abi_result::<String>(Err(ResultMsg { code: RC_DECODE, msg: "bad".to_string() }));
    assert_eq!(err.code, RC_DECODE);
}

#[test]
fn rust_results() {
    let r = RustFfiResult::from_encoded(Err(ResultMsg { code: -1, msg: "AB".to_string() }));
    assert_eq!(r.code, -1);
    let e = r.to_abi_bytes().unwrap_err();
    assert_eq!(e.code, -1);
    assert_eq!(e.msg, "Some([65, 66])");
    let r = RustFfiResult::from_err(ResultMsg { code: 0, msg: String::new() });
    assert_eq!(r.code, RC_UNKNOWN);
    assert_eq!(r.to_abi_bytes().unwrap_err().msg, "None");
    let ok = RustFfiResult::from_encoded(Ok(vec![5]));
    assert_eq!(ok.to_abi_bytes().unwrap(), &[5u8][..]);
    let s = RustFfiResult::from_abi_result(Ok("hi".to_string()));
    assert_eq!(s.to_abi_bytes().unwrap(), b"hi");
}

struct Point(u8);

impl IntoMessage<Vec<u8>> for Point {
    fn into_message(self) -> Vec<u8> {
        vec![self.0]
    }
}

#[test]
fn messages_and_bytes() {
    let t: TBytes<String> = TBytes::new(vec![1]);
    assert_eq!(t.try_into_bytes().unwrap(), vec![1]);
    assert_eq!("é".to_string().try_into_bytes().unwrap(), vec![0xc3, 0xa9]);
    let v: ABIResult<Vec<u8>> = <Vec<u8> as TryFromBytes>::try_from_bytes(&[4, 5]);
    assert_eq!(v.unwrap(), vec![4, 5]);
    let tb = Point(3).try_into_tbytes::<Vec<u8>>().unwrap();
    assert_eq!(tb.bytes, vec![3]);
    let tb2 = TBytes::<Point>::try_from::<Vec<u8>>(Point(6)).unwrap();
    assert_eq!(tb2.bytes, vec![6]);
}

#[test]
fn c_representations() {
    let c = "héllo".to_string().into_c_repr();
    assert_eq!(c.v, "héllo".as_bytes().to_vec());
    assert_eq!(String::from_c_repr(c), "héllo");
    let c = vec![1u64, 2, 3].into_c_repr();
    assert_eq!(Vec::<u64>::from_c_repr(c), vec![1, 2, 3]);
    let c = (1u8, "a".to_string(), true).into_c_repr();
    let back = <(u8, String, bool)>::from_c_repr(c);
    assert_eq!(back, (1u8, "a".to_string(), true));
    let c = Some(Box::new(5i32)).into_c_repr();
    assert_eq!(<Option<Box<i32>>>::from_c_repr(c), Some(Box::new(5)));
    assert_eq!(<Option<Box<i32>>>::from_c_repr(None), None);
    let names = vec!["a".to_string(), "bc".to_string()];
    assert_eq!(Vec::<String>::from_c_repr(names.clone().into_c_repr()), names);
    assert_eq!(FfiArray::from_string("ab".to_string()).into_bytes(), b"ab".to_vec());
    assert_eq!(FfiArray::from_bytes(vec![104, 105]).into_string(), "hi");
    assert!(FfiArray::<u8>::null().is_empty());
}

#[test]
fn maps() {
    let m = FfiMap(vec![
        MapEntry { key: 1u32, value: "a".to_string() },
        MapEntry { key: 2u32, value: "b".to_string() },
        MapEntry { key: 1u32, value: "c".to_string() },
    ]);
    let h: HashMap<u32, String> = m.into_hash_map();
    assert_eq!(h.len(), 2);
    assert_eq!(h[&1], "c");
    let arr = FfiArray::from_vec(vec![MapEntry { key: 3i64, value: 30u8 }, MapEntry { key: 1i64, value: 10u8 }]);
    let b: BTreeMap<i64, u8> = arr.into_b_tree_map();
    assert_eq!(b.into_iter().collect::<Vec<_>>(), vec![(1, 10), (3, 30)]);
    let c = FfiMap(vec![MapEntry { key: "k".to_string(), value: 7u16 }]).into_c_repr();
    let back = FfiMap::<String, u16>::from_c_repr(c);
    assert_eq!(back.0[0].key, "k");
    assert_eq!(back.0[0].value, 7);
}

#[test]
fn earlier_runtime() {
    let b = LeakBuffer::from_vec(vec![1, 2]);
    assert_eq!(b.read(), Some(&[1u8, 2][..]));
    assert!(LeakBuffer::null().is_empty());
    let ok = FFIResult::ok(b);
    assert!(ok.code == ResultCode::NoError);
    assert_eq!(ok.to_request_bytes().unwrap(), &[1u8, 2][..]);
    let e = FFIResult::from_encoded(Ok(Err(())));
    assert!(e.code == ResultCode::Encode);
    assert!(e.to_request_bytes() == Err(ResultCode::Encode));
    let e = FFIResult::from_encoded::<()>(Err(ResultCode::Decode));
    assert!(e.code == ResultCode::Encode);
    assert_eq!(result_code_number(ResultCode::Decode), 1);
}

#[test]
fn go_result_round_trip() {
    let back = GoFfiResult::from_ok(42u32).into_abi_result();
    assert_eq!(back.unwrap(), 42);
    let back = GoFfiResult::<u32>::from_err(ResultMsg { code: 5, msg: "five".to_string() }).into_abi_result();
    let e = back.unwrap_err();
    assert_eq!(e.code, 5);
    assert_eq!(e.msg, "five");
}

#[test]
fn c_repr_round_trip() {
    let v: Vec<u8> = vec![3, 1, 4];
    assert_eq!(Vec::<u8>::from_c_repr(v.clone().into_c_repr()), v);
    let empty: Vec<u16> = Vec::new();
    assert_eq!(Vec::<u16>::from_c_repr(empty.clone().into_c_repr()), empty);
    let nested = vec![vec![1u32, 2], vec![], vec![3]];
    assert_eq!(Vec::<Vec<u32>>::from_c_repr(nested.clone().into_c_repr()), nested);
    let b = Box::new(7i64);
    assert_eq!(Box::<i64>::from_c_repr(b.clone().into_c_repr()), b);
}

#[test]
fn leak_buffer_keeps_free_type() {
    let r = FFIResult::ok(LeakBuffer::from_vec(vec![4]));
    assert!(r.data.free_type == fcplug::runtime::rclib::OriginType::Vec);
    let e = FFIResult::err(ResultCode::Decode);
    assert!(e.data.free_type == fcplug::runtime::rclib::OriginType::Vec);
    assert!(e.data.is_empty());
}

#[test]
fn maps_into_entries_and_back() {
    let mut h: HashMap<u32, String> = HashMap::new();
    h.insert(1, "one".to_string());
    h.insert(2, "two".to_string());
    let m = FfiMap::from_hash_map(h.clone());
    assert_eq!(m.0.len(), 2);
    assert_eq!(m.into_hash_map(), h);
    let mut b: BTreeMap<i64, u8> = BTreeMap::new();
    b.insert(30, 3);
    b.insert(-10, 1);
    b.insert(20, 2);
    let m = FfiMap::from_b_tree_map(b.clone());
    let keys: Vec<i64> = m.0.iter().map(|e| e.key).collect();
    assert_eq!(keys, vec![-10, 20, 30]);
    assert_eq!(m.into_b_tree_map(), b);
    let arr = FfiArray::from_b_tree_map(b.clone());
    assert_eq!(arr.into_b_tree_map(), b);
    let arr = FfiArray::from_hash_map(h.clone());
    assert_eq!(arr.into_hash_map(), h);
    let s: HashSet<u16> = [5, 7, 9].into_iter().collect();
    let mut items = FfiArray::from_hash_set(s).into_vec();
    items.sort();
    assert_eq!(items, vec![5, 7, 9]);
}

#[test]
fn argument_bytes_in_place() {
    let mut arg: RustFfiArg<String> = RustFfiArg::from(Buffer::from_vec(vec![1, 2, 3]));
    arg.bytes_mut()[1] = 9;
    assert_eq!(arg.bytes(), &[1u8, 9, 3][..]);
    let mut empty: RustFfiArg<String> = RustFfiArg::from(Buffer::null());
    assert!(empty.bytes_mut().is_empty());
}

#[test]
fn go_call_result_keeps_its_value() {
    let r: fcplug::runtime::ctypes::GoFfiResult<String, (u8, String)> =
        fcplug::runtime::ctypes::GoFfiResult::new("pong".to_string(), (1u8, "ping".to_string()).into_c_repr(), 4096);
    assert_eq!(r.ret(), "pong");
}

#[test]
fn abi_test_free() {
    let buf = LeakBuffer::from_vec(vec![0, 1, 2, 3, 4, 5, 6, 7, 8]);
    assert_eq!(buf.read(), Some(&[0u8, 1, 2, 3, 4, 5, 6, 7, 8][..]));
    assert_eq!(buf.buffer().bytes, vec![0, 1, 2, 3, 4, 5, 6, 7, 8]);
    assert_eq!(buf.read(), Some(&[0u8, 1, 2, 3, 4, 5, 6, 7, 8][..]));
}

#[test]
fn lib_test_free() {
    let buf = Buffer::from_vec(vec![0, 1, 2, 3, 4, 5, 6, 7, 8]);
    assert_eq!(buf.read(), Some(&[0u8, 1, 2, 3, 4, 5, 6, 7, 8][..]));
    assert_eq!(buf.bytes, vec![0, 1, 2, 3, 4, 5, 6, 7, 8]);
    assert_eq!(buf.read(), Some(&[0u8, 1, 2, 3, 4, 5, 6, 7, 8][..]));
}
