//! Small items that the examples exercise.
use vstd::prelude::*;
use std::collections::{HashMap, VecDeque};
use vstd::std_specs::hash::obeys_key_model;
use crate::runtime::rclib::ABIResult;
use crate::text::views;

verus! {

/// The sum of two sizes.
pub fn add(left: usize, right: usize) -> (r: usize)
    requires
        left + right <= usize::MAX,
    ensures
        r == left + right,
{
    left + right
}

/// A value of the example object.
pub enum X {
    A(Vec<String>, usize),
}

/// An object that holds a map, a queue and an enum.
pub struct TestObject {
    pub map: HashMap<String, Vec<String>>,
    pub queue: VecDeque<String>,
    pub value: X,
}

impl TestObject {
    /// The example object: `k` maps to `[v]`, the queue holds `q`, and the
    /// enum holds `["a"]` and 1.
    pub fn new_test() -> (r: TestObject)
        ensures
            r.queue@.len() == 1,
            r.queue@[0]@ == "q"@,
            r.value matches X::A(v, n) && n == 1 && views(v@) == seq!["a"@],
            obeys_key_model::<String>() ==> r.map@.len() == 1 && exists|k: String|
                #[trigger] r.map@.contains_key(k) && k@ == "k"@ && views(r.map@[k]@) == seq!["v"@],
    {
        let mut map: HashMap<String, Vec<String>> = HashMap::new();
        let key = String::from_str("k");
        let vals = vec![String::from_str("v")];
        assert(views(vals@) =~= seq!["v"@]);
        map.insert(key, vals);
        let mut queue: VecDeque<String> = VecDeque::new();
        queue.push_back(String::from_str("q"));
        let a = vec![String::from_str("a")];
        assert(views(a@) =~= seq!["a"@]);
        proof {
            if obeys_key_model::<String>() {
                assert(map@.contains_key(key));
                assert(map@.dom() =~= set![key]);
            }
        }
        TestObject { map, queue, value: X::A(a, 1) }
    }
}

/// The raw-bytes example method: it answers `args` with `input is: `
/// before it.
pub fn echo(args: &str) -> (r: ABIResult<String>)
    ensures
        r matches Ok(t) && t@ == "input is: "@ + args@,
{
    let mut t = String::from_str("input is: ");
    t.append(args);
    Ok(t)
}

} // verus!
