use fcplug::demo::{add, TestObject, X};

#[test]
fn lib_it_works() {
    let result = add(2, 2);
    assert_eq!(result, 4);
}

#[test]
fn mod_it_works() {
    assert_eq!(4, 2 + 2);
}

#[test]
fn rust_call_go_it_works() {}

#[test]
fn test_object_holds_its_example_values() {
    let obj = TestObject::new_test();
    assert_eq!(obj.map.get("k"), Some(&vec!["v".to_string()]));
    assert_eq!(obj.queue.len(), 1);
    assert_eq!(obj.queue[0], "q");
    match obj.value {
        X::A(v, n) => {
            assert_eq!(v, vec!["a".to_string()]);
            assert_eq!(n, 1);
        }
    }
}

#[test]
fn raw_echo_method() {
    assert_eq!(fcplug::demo::echo("andeya"), Ok("input is: andeya".to_string()));
    assert_eq!(fcplug::demo::echo(""), Ok("input is: ".to_string()));
}
