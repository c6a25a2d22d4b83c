//! The C representations of Rust values: arrays, strings and maps that can
//! cross the boundary, and the conversion of values to and from them.
use vstd::prelude::*;
use vstd::std_specs::hash::{axiom_random_state_builds_valid_hashers, obeys_key_model};
use vstd::laws_cmp::obeys_cmp;
use vstd::utf8::{decode_utf8, encode_utf8, encode_utf8_decode_utf8, valid_utf8, encode_utf8_valid_utf8};
use vstd::std_specs::btree::increasing_seq;
use std::collections::{BTreeMap, HashMap, HashSet};
use std::hash::Hash;

verus! {

/// An array that crosses the boundary; the empty array is the null array.
#[derive(Debug)]
pub struct FfiArray<T> {
    pub v: Vec<T>,
}

impl<T> View for FfiArray<T> {
    type V = Seq<T>;

    open spec fn view(&self) -> Seq<T> {
        self.v@
    }
}

impl<T> FfiArray<T> {
    /// The null array.
    pub fn null() -> (r: FfiArray<T>)
        ensures
            r@ == Seq::<T>::empty(),
    {
        FfiArray { v: Vec::new() }
    }

    /// The array that takes over `v`.
    pub fn from_vec(v: Vec<T>) -> (r: FfiArray<T>)
        ensures
            r@ == v@,
    {
        FfiArray { v }
    }

    /// The items of the array.
    pub fn into_vec(self) -> (r: Vec<T>)
        ensures
            r@ == self@,
    {
        self.v
    }

    /// Whether the array holds nothing.
    pub fn is_empty(&self) -> (r: bool)
        ensures
            r == (self@.len() == 0),
    {
        self.v.len() == 0
    }
}

/// `String::from_utf8`: the string whose UTF-8 encoding is `v`; none where
/// `v` is not valid UTF-8.
#[verifier::external_body]
fn string_from_utf8(v: Vec<u8>) -> (r: Option<String>)
    ensures
        r is Some <==> valid_utf8(v@),
        r matches Some(s) ==> encode_utf8(s@) == v@,
{
    String::from_utf8(v).ok()
}

impl FfiArray<u8> {
    /// The array of some bytes.
    pub fn from_bytes(v: Vec<u8>) -> (r: FfiArray<u8>)
        ensures
            r@ == v@,
    {
        Self::from_vec(v)
    }

    /// The bytes of the array.
    pub fn into_bytes(self) -> (r: Vec<u8>)
        ensures
            r@ == self@,
    {
        self.into_vec()
    }

    /// The array of the UTF-8 bytes of `s`.
    pub fn from_string(s: String) -> (r: FfiArray<u8>)
        ensures
            r@ == encode_utf8(s@),
    {
        Self::from_vec(s.as_str().as_bytes_vec())
    }

    /// The string whose UTF-8 bytes the array holds.
    pub fn into_string(self) -> (r: String)
        requires
            valid_utf8(self@),
        ensures
            r@ == decode_utf8(self@),
    {
        let bytes = self.into_vec();
        match string_from_utf8(bytes) {
            Some(s) => {
                proof {
                    encode_utf8_decode_utf8(s@);
                }
                s
            },
            None => String::new(),
        }
    }
}

/// An entry of a map that crosses the boundary.
#[derive(Debug)]
pub struct MapEntry<K, V> {
    pub key: K,
    pub value: V,
}

/// A map that crosses the boundary: its entries, in order.
#[derive(Debug)]
pub struct FfiMap<K, V>(pub Vec<MapEntry<K, V>>);

/// The map that the entries make: a later entry overrides an earlier one
/// with the same key.
pub open spec fn entries_map<K, V>(entries: Seq<MapEntry<K, V>>) -> Map<K, V>
    decreases entries.len(),
{
    if entries.len() == 0 {
        Map::empty()
    } else {
        entries_map(entries.drop_last()).insert(entries.last().key, entries.last().value)
    }
}

/// Whether `pairs` lists the map `m`: each of its entries once, in some
/// order.
pub open spec fn lists_map<K, V>(pairs: Seq<(K, V)>, m: Map<K, V>) -> bool {
    &&& pairs.len() == m.len()
    &&& forall|i: int| 0 <= i < pairs.len() ==> #[trigger] m.contains_key(pairs[i].0) && m[pairs[i].0] == pairs[i].1
    &&& forall|i: int, j: int| 0 <= i < j < pairs.len() ==> #[trigger] pairs[i].0 != #[trigger] pairs[j].0
}

/// The key and the value of each entry.
pub open spec fn entry_pairs<K, V>(entries: Seq<MapEntry<K, V>>) -> Seq<(K, V)> {
    entries.map_values(|e: MapEntry<K, V>| (e.key, e.value))
}

/// `Vec::from_iter` on a hash map: its entries, each once, in the order in
/// which the map hands them out, which the standard library leaves open.
#[verifier::external_body]
fn hash_map_pairs<K: Eq + Hash, V>(m: HashMap<K, V>) -> (r: Vec<(K, V)>)
    ensures
        obeys_key_model::<K>() ==> lists_map(r@, m@),
{
    Vec::from_iter(m)
}

/// `Vec::from_iter` on an ordered map: its entries, each once, by
/// increasing key.
#[verifier::external_body]
fn b_tree_map_pairs<K: Ord, V>(m: BTreeMap<K, V>) -> (r: Vec<(K, V)>)
    ensures
        obeys_cmp::<K>() ==> lists_map(r@, m@) && increasing_seq(r@.map_values(|p: (K, V)| p.0)),
{
    Vec::from_iter(m)
}

/// `Vec::from_iter` on a hash set: its items, each once, in the order in
/// which the set hands them out, which the standard library leaves open.
#[verifier::external_body]
fn hash_set_items<T: Eq + Hash>(s: HashSet<T>) -> (r: Vec<T>)
    ensures
        obeys_key_model::<T>() ==> r@.len() == s@.len() && r@.no_duplicates() && forall|i: int|
            0 <= i < r@.len() ==> s@.contains(#[trigger] r@[i]),
{
    Vec::from_iter(s)
}

/// The entries made of the pairs, in order.
fn entries_of_pairs<K, V>(pairs: Vec<(K, V)>) -> (r: Vec<MapEntry<K, V>>)
    ensures
        entry_pairs(r@) == pairs@,
{
    let ghost all = pairs@;
    let mut rest = pairs;
    let mut r: Vec<MapEntry<K, V>> = Vec::new();
    let ghost mut k: int = 0;
    while rest.len() > 0
        invariant
            0 <= k <= all.len(),
            rest@ == all.skip(k),
            entry_pairs(r@) == all.take(k),
        decreases rest.len(),
    {
        let (key, value) = rest.remove(0);
        let ghost before = r@;
        r.push(MapEntry { key, value });
        proof {
            assert(entry_pairs(r@) =~= entry_pairs(before).push((key, value)));
            assert(all.take(k + 1) =~= all.take(k).push(all[k]));
            assert(all.skip(k + 1) =~= all.skip(k).drop_first());
            k = k + 1;
        }
    }
    assert(all.take(k) =~= all);
    r
}

impl<K: Eq + Hash, V> FfiMap<K, V> {
    /// The entries of the hash map `m`, each once, in the order in which the
    /// map hands them out.
    pub fn from_hash_map(m: HashMap<K, V>) -> (r: FfiMap<K, V>)
        ensures
            obeys_key_model::<K>() ==> lists_map(entry_pairs(r.0@), m@),
    {
        let pairs = hash_map_pairs(m);
        FfiMap(entries_of_pairs(pairs))
    }
}

impl<K: Ord, V> FfiMap<K, V> {
    /// The entries of the ordered map `m`, each once, by increasing key.
    pub fn from_b_tree_map(m: BTreeMap<K, V>) -> (r: FfiMap<K, V>)
        ensures
            obeys_cmp::<K>() ==> lists_map(entry_pairs(r.0@), m@) && increasing_seq(
                entry_pairs(r.0@).map_values(|p: (K, V)| p.0),
            ),
    {
        let pairs = b_tree_map_pairs(m);
        FfiMap(entries_of_pairs(pairs))
    }
}

impl<K: Eq + Hash, V> FfiArray<MapEntry<K, V>> {
    /// The array of the entries of the hash map `m`, each once.
    pub fn from_hash_map(m: HashMap<K, V>) -> (r: FfiArray<MapEntry<K, V>>)
        ensures
            obeys_key_model::<K>() ==> lists_map(entry_pairs(r@), m@),
    {
        Self::from_map(FfiMap::from_hash_map(m))
    }
}

impl<K: Ord, V> FfiArray<MapEntry<K, V>> {
    /// The array of the entries of the ordered map `m`, by increasing key.
    pub fn from_b_tree_map(m: BTreeMap<K, V>) -> (r: FfiArray<MapEntry<K, V>>)
        ensures
            obeys_cmp::<K>() ==> lists_map(entry_pairs(r@), m@) && increasing_seq(
                entry_pairs(r@).map_values(|p: (K, V)| p.0),
            ),
    {
        Self::from_map(FfiMap::from_b_tree_map(m))
    }
}

impl<T: Eq + Hash> FfiArray<T> {
    /// The array of the items of the set `s`, each once.
    pub fn from_hash_set(s: HashSet<T>) -> (r: FfiArray<T>)
        ensures
            obeys_key_model::<T>() ==> r@.len() == s@.len() && r@.no_duplicates() && forall|i: int|
                0 <= i < r@.len() ==> s@.contains(#[trigger] r@[i]),
    {
        Self::from_vec(hash_set_items(s))
    }
}

impl<K: Eq + Hash, V> FfiMap<K, V> {
    /// The hash map of the entries; a later entry overrides an earlier one.
    pub fn into_hash_map(self) -> (r: HashMap<K, V>)
        ensures
            obeys_key_model::<K>() ==> r@ == entries_map(self.0@),
    {
        broadcast use axiom_random_state_builds_valid_hashers;
        let ghost all = self.0@;
        let mut rest = self.0;
        let mut m: HashMap<K, V> = HashMap::new();
        let ghost mut k: int = 0;
        while rest.len() > 0
            invariant
                0 <= k <= all.len(),
                rest@ == all.skip(k),
                obeys_key_model::<K>() ==> m@ == entries_map(all.take(k)),
            decreases rest.len(),
        {
            let x = rest.remove(0);
            proof {
                assert(all.take(k + 1).drop_last() =~= all.take(k));
                assert(all.skip(k + 1) =~= all.skip(k).drop_first());
                k = k + 1;
            }
            m.insert(x.key, x.value);
        }
        assert(all.take(k) =~= all);
        m
    }
}

impl<K: Ord, V> FfiMap<K, V> {
    /// The ordered map of the entries; a later entry overrides an earlier one.
    pub fn into_b_tree_map(self) -> (r: BTreeMap<K, V>)
        ensures
            obeys_cmp::<K>() ==> r@ == entries_map(self.0@),
    {
        let ghost all = self.0@;
        let mut rest = self.0;
        let mut m: BTreeMap<K, V> = BTreeMap::new();
        let ghost mut k: int = 0;
        while rest.len() > 0
            invariant
                0 <= k <= all.len(),
                rest@ == all.skip(k),
                obeys_cmp::<K>() ==> m@ == entries_map(all.take(k)),
            decreases rest.len(),
        {
            let x = rest.remove(0);
            proof {
                assert(all.take(k + 1).drop_last() =~= all.take(k));
                assert(all.skip(k + 1) =~= all.skip(k).drop_first());
                k = k + 1;
            }
            m.insert(x.key, x.value);
        }
        assert(all.take(k) =~= all);
        m
    }
}

impl<K, V> FfiArray<MapEntry<K, V>> {
    /// The array of the entries of `m`.
    pub fn from_map(m: FfiMap<K, V>) -> (r: FfiArray<MapEntry<K, V>>)
        ensures
            r@ == m.0@,
    {
        Self::from_vec(m.0)
    }

    /// The map of the entries of the array.
    pub fn into_map(self) -> (r: FfiMap<K, V>)
        ensures
            r.0@ == self@,
    {
        FfiMap(self.into_vec())
    }
}

impl<K: Eq + Hash, V> FfiArray<MapEntry<K, V>> {
    /// The hash map of the entries of the array.
    pub fn into_hash_map(self) -> (r: HashMap<K, V>)
        ensures
            obeys_key_model::<K>() ==> r@ == entries_map(self@),
    {
        self.into_map().into_hash_map()
    }
}

impl<K: Ord, V> FfiArray<MapEntry<K, V>> {
    /// The ordered map of the entries of the array.
    pub fn into_b_tree_map(self) -> (r: BTreeMap<K, V>)
        ensures
            obeys_cmp::<K>() ==> r@ == entries_map(self@),
    {
        self.into_map().into_b_tree_map()
    }
}

/// What a call into Go returns, kept together with the C representation of
/// the call's arguments, which lives as long as the result and is dropped
/// with it, and the address of the Go result, which the side that made the
/// call frees through Go.
pub struct GoFfiResult<RET, ARGS: ConvRepr> {
    ret: RET,
    c_args: ARGS::CRepr,
    c_ret_ptr: usize,
}

impl<RET, ARGS: ConvRepr> GoFfiResult<RET, ARGS> {
    /// The result `ret` of a call made with the arguments `c_args`, whose
    /// Go result is at `c_ret_ptr`.
    pub fn new(ret: RET, c_args: ARGS::CRepr, c_ret_ptr: usize) -> (r: GoFfiResult<RET, ARGS>)
        ensures
            r.view_ret() == ret,
            r.view_c_args() == c_args,
            r.view_c_ret_ptr() == c_ret_ptr,
    {
        GoFfiResult { ret, c_args, c_ret_ptr }
    }

    /// The value the call returned.
    pub closed spec fn view_ret(&self) -> RET {
        self.ret
    }

    /// The C representation of the call's arguments.
    pub closed spec fn view_c_args(&self) -> ARGS::CRepr {
        self.c_args
    }

    /// The address of the Go result.
    pub closed spec fn view_c_ret_ptr(&self) -> usize {
        self.c_ret_ptr
    }

    /// The value the call returned.
    pub fn ret(&self) -> (r: &RET)
        ensures
            *r == self.view_ret(),
    {
        &self.ret
    }
}

/// A value that has a C representation, and the conversions both ways.
pub trait ConvRepr: Sized {
    /// The C representation.
    type CRepr;

    /// Whether `c` represents `v`.
    spec fn represents(c: Self::CRepr, v: Self) -> bool;

    /// Whether `c` represents some value of this type.
    spec fn valid_repr(c: Self::CRepr) -> bool;

    /// The C representation of `self`.
    fn into_c_repr(self) -> (c: Self::CRepr)
        ensures
            Self::valid_repr(c),
            Self::represents(c, self),
    ;

    /// The value that `c` represents.
    fn from_c_repr(c: Self::CRepr) -> (v: Self)
        requires
            Self::valid_repr(c),
        ensures
            Self::represents(c, v),
    ;
}

impl ConvRepr for () {
    type CRepr = ();

    open spec fn represents(c: (), v: ()) -> bool {
        c == v
    }

    open spec fn valid_repr(c: ()) -> bool {
        true
    }

    fn into_c_repr(self) -> (c: ()) {
        self
    }

    fn from_c_repr(c: ()) -> (v: ()) {
        c
    }
}

impl ConvRepr for bool {
    type CRepr = bool;

    open spec fn represents(c: bool, v: bool) -> bool {
        c == v
    }

    open spec fn valid_repr(c: bool) -> bool {
        true
    }

    fn into_c_repr(self) -> (c: bool) {
        self
    }

    fn from_c_repr(c: bool) -> (v: bool) {
        c
    }
}

impl ConvRepr for i8 {
    type CRepr = i8;

    open spec fn represents(c: i8, v: i8) -> bool {
        c == v
    }

    open spec fn valid_repr(c: i8) -> bool {
        true
    }

    fn into_c_repr(self) -> (c: i8) {
        self
    }

    fn from_c_repr(c: i8) -> (v: i8) {
        c
    }
}

impl ConvRepr for i16 {
    type CRepr = i16;

    open spec fn represents(c: i16, v: i16) -> bool {
        c == v
    }

    open spec fn valid_repr(c: i16) -> bool {
        true
    }

    fn into_c_repr(self) -> (c: i16) {
        self
    }

    fn from_c_repr(c: i16) -> (v: i16) {
        c
    }
}

impl ConvRepr for i32 {
    type CRepr = i32;

    open spec fn represents(c: i32, v: i32) -> bool {
        c == v
    }

    open spec fn valid_repr(c: i32) -> bool {
        true
    }

    fn into_c_repr(self) -> (c: i32) {
        self
    }

    fn from_c_repr(c: i32) -> (v: i32) {
        c
    }
}

impl ConvRepr for i64 {
    type CRepr = i64;

    open spec fn represents(c: i64, v: i64) -> bool {
        c == v
    }

    open spec fn valid_repr(c: i64) -> bool {
        true
    }

    fn into_c_repr(self) -> (c: i64) {
        self
    }

    fn from_c_repr(c: i64) -> (v: i64) {
        c
    }
}

impl ConvRepr for i128 {
    type CRepr = i128;

    open spec fn represents(c: i128, v: i128) -> bool {
        c == v
    }

    open spec fn valid_repr(c: i128) -> bool {
        true
    }

    fn into_c_repr(self) -> (c: i128) {
        self
    }

    fn from_c_repr(c: i128) -> (v: i128) {
        c
    }
}

impl ConvRepr for u8 {
    type CRepr = u8;

    open spec fn represents(c: u8, v: u8) -> bool {
        c == v
    }

    open spec fn valid_repr(c: u8) -> bool {
        true
    }

    fn into_c_repr(self) -> (c: u8) {
        self
    }

    fn from_c_repr(c: u8) -> (v: u8) {
        c
    }
}

impl ConvRepr for u16 {
    type CRepr = u16;

    open spec fn represents(c: u16, v: u16) -> bool {
        c == v
    }

    open spec fn valid_repr(c: u16) -> bool {
        true
    }

    fn into_c_repr(self) -> (c: u16) {
        self
    }

    fn from_c_repr(c: u16) -> (v: u16) {
        c
    }
}

impl ConvRepr for u32 {
    type CRepr = u32;

    open spec fn represents(c: u32, v: u32) -> bool {
        c == v
    }

    open spec fn valid_repr(c: u32) -> bool {
        true
    }

    fn into_c_repr(self) -> (c: u32) {
        self
    }

    fn from_c_repr(c: u32) -> (v: u32) {
        c
    }
}

impl ConvRepr for u64 {
    type CRepr = u64;

    open spec fn represents(c: u64, v: u64) -> bool {
        c == v
    }

    open spec fn valid_repr(c: u64) -> bool {
        true
    }

    fn into_c_repr(self) -> (c: u64) {
        self
    }

    fn from_c_repr(c: u64) -> (v: u64) {
        c
    }
}

impl ConvRepr for u128 {
    type CRepr = u128;

    open spec fn represents(c: u128, v: u128) -> bool {
        c == v
    }

    open spec fn valid_repr(c: u128) -> bool {
        true
    }

    fn into_c_repr(self) -> (c: u128) {
        self
    }

    fn from_c_repr(c: u128) -> (v: u128) {
        c
    }
}

impl ConvRepr for String {
    type CRepr = FfiArray<u8>;

    /// The array holds the UTF-8 bytes of the string.
    open spec fn represents(c: FfiArray<u8>, v: String) -> bool {
        c@ == encode_utf8(v@)
    }

    open spec fn valid_repr(c: FfiArray<u8>) -> bool {
        valid_utf8(c@)
    }

    fn into_c_repr(self) -> (c: FfiArray<u8>) {
        proof {
            encode_utf8_valid_utf8(self@);
        }
        FfiArray::from_string(self)
    }

    fn from_c_repr(c: FfiArray<u8>) -> (v: String) {
        let v = c.into_string();
        proof {
            vstd::utf8::decode_utf8_encode_utf8(c@);
        }
        v
    }
}

impl<T: ConvRepr> ConvRepr for Box<T> {
    type CRepr = Box<T::CRepr>;

    open spec fn represents(c: Box<T::CRepr>, v: Box<T>) -> bool {
        T::represents(*c, *v)
    }

    open spec fn valid_repr(c: Box<T::CRepr>) -> bool {
        T::valid_repr(*c)
    }

    fn into_c_repr(self) -> (c: Box<T::CRepr>) {
        Box::new((*self).into_c_repr())
    }

    fn from_c_repr(c: Box<T::CRepr>) -> (v: Box<T>) {
        Box::new(T::from_c_repr(*c))
    }
}

impl<T: ConvRepr> ConvRepr for Option<Box<T>> {
    /// A nullable pointer: none is the null pointer.
    type CRepr = Option<Box<T::CRepr>>;

    open spec fn represents(c: Option<Box<T::CRepr>>, v: Option<Box<T>>) -> bool {
        match (c, v) {
            (None, None) => true,
            (Some(a), Some(b)) => T::represents(*a, *b),
            _ => false,
        }
    }

    open spec fn valid_repr(c: Option<Box<T::CRepr>>) -> bool {
        match c {
            Some(a) => T::valid_repr(*a),
            None => true,
        }
    }

    fn into_c_repr(self) -> (c: Option<Box<T::CRepr>>) {
        match self {
            Some(b) => Some(Box::new((*b).into_c_repr())),
            None => None,
        }
    }

    fn from_c_repr(c: Option<Box<T::CRepr>>) -> (v: Option<Box<T>>) {
        match c {
            Some(a) => Some(Box::new(T::from_c_repr(*a))),
            None => None,
        }
    }
}

/// Whether each item of `c` represents the item of `v` at the same place.
pub open spec fn represents_each<T: ConvRepr>(c: Seq<T::CRepr>, v: Seq<T>) -> bool {
    c.len() == v.len() && forall|i: int| 0 <= i < c.len() ==> T::represents(#[trigger] c[i], v[i])
}

/// Whether each item of `c` represents some value.
pub open spec fn valid_each<T: ConvRepr>(c: Seq<T::CRepr>) -> bool {
    forall|i: int| 0 <= i < c.len() ==> T::valid_repr(#[trigger] c[i])
}

impl<T: ConvRepr> ConvRepr for Vec<T> {
    type CRepr = FfiArray<T::CRepr>;

    open spec fn represents(c: FfiArray<T::CRepr>, v: Vec<T>) -> bool {
        represents_each::<T>(c@, v@)
    }

    open spec fn valid_repr(c: FfiArray<T::CRepr>) -> bool {
        valid_each::<T>(c@)
    }

    fn into_c_repr(self) -> (c: FfiArray<T::CRepr>) {
        let ghost all = self@;
        let mut rest = self;
        let mut out: Vec<T::CRepr> = Vec::new();
        while rest.len() > 0
            invariant
                out@.len() <= all.len(),
                rest@ == all.skip(out@.len() as int),
                represents_each::<T>(out@, all.take(out@.len() as int)),
                valid_each::<T>(out@),
            decreases rest.len(),
        {
            let ghost k = out@.len() as int;
            let x = rest.remove(0);
            assert(x == all[k]);
            out.push(x.into_c_repr());
            assert(all.skip(k + 1) =~= all.skip(k).drop_first());
            assert(all.take(k + 1) =~= all.take(k).push(x));
        }
        assert(all.take(out@.len() as int) =~= all);
        FfiArray::from_vec(out)
    }

    fn from_c_repr(c: FfiArray<T::CRepr>) -> (v: Vec<T>) {
        let ghost all = c@;
        let mut rest = c.into_vec();
        let mut out: Vec<T> = Vec::new();
        while rest.len() > 0
            invariant
                out@.len() <= all.len(),
                valid_each::<T>(all),
                rest@ == all.skip(out@.len() as int),
                represents_each::<T>(all.take(out@.len() as int), out@),
            decreases rest.len(),
        {
            let ghost k = out@.len() as int;
            let x = rest.remove(0);
            assert(x == all[k]);
            out.push(T::from_c_repr(x));
            assert(all.skip(k + 1) =~= all.skip(k).drop_first());
            assert(all.take(k + 1) =~= all.take(k).push(x));
        }
        assert(all.take(out@.len() as int) =~= all);
        out
    }
}

/// Whether each entry of `c` represents the entry of `v` at the same place.
pub open spec fn represents_entries<K: ConvRepr, V: ConvRepr>(
    c: Seq<MapEntry<K::CRepr, V::CRepr>>,
    v: Seq<MapEntry<K, V>>,
) -> bool {
    c.len() == v.len() && forall|i: int|
        0 <= i < c.len() ==> K::represents((#[trigger] c[i]).key, v[i].key) && V::represents(
            c[i].value,
            v[i].value,
        )
}

/// Whether each entry of `c` represents some entry.
pub open spec fn valid_entries<K: ConvRepr, V: ConvRepr>(c: Seq<MapEntry<K::CRepr, V::CRepr>>) -> bool {
    forall|i: int| 0 <= i < c.len() ==> K::valid_repr((#[trigger] c[i]).key) && V::valid_repr(c[i].value)
}

impl<K: ConvRepr, V: ConvRepr> ConvRepr for FfiMap<K, V> {
    type CRepr = FfiArray<MapEntry<K::CRepr, V::CRepr>>;

    open spec fn represents(c: FfiArray<MapEntry<K::CRepr, V::CRepr>>, v: FfiMap<K, V>) -> bool {
        represents_entries::<K, V>(c@, v.0@)
    }

    open spec fn valid_repr(c: FfiArray<MapEntry<K::CRepr, V::CRepr>>) -> bool {
        valid_entries::<K, V>(c@)
    }

    fn into_c_repr(self) -> (c: FfiArray<MapEntry<K::CRepr, V::CRepr>>) {
        let ghost all = self.0@;
        let mut rest = self.0;
        let mut out: Vec<MapEntry<K::CRepr, V::CRepr>> = Vec::new();
        while rest.len() > 0
            invariant
                out@.len() <= all.len(),
                rest@ == all.skip(out@.len() as int),
                represents_entries::<K, V>(out@, all.take(out@.len() as int)),
                valid_entries::<K, V>(out@),
            decreases rest.len(),
        {
            let ghost k = out@.len() as int;
            let x = rest.remove(0);
            assert(x == all[k]);
            let MapEntry { key, value } = x;
            out.push(MapEntry { key: key.into_c_repr(), value: value.into_c_repr() });
            assert(all.skip(k + 1) =~= all.skip(k).drop_first());
            assert(all.take(k + 1) =~= all.take(k).push(x));
        }
        assert(all.take(out@.len() as int) =~= all);
        FfiArray::from_vec(out)
    }

    fn from_c_repr(c: FfiArray<MapEntry<K::CRepr, V::CRepr>>) -> (v: FfiMap<K, V>) {
        let ghost all = c@;
        let mut rest = c.into_vec();
        let mut out: Vec<MapEntry<K, V>> = Vec::new();
        while rest.len() > 0
            invariant
                out@.len() <= all.len(),
                valid_entries::<K, V>(all),
                rest@ == all.skip(out@.len() as int),
                represents_entries::<K, V>(all.take(out@.len() as int), out@),
            decreases rest.len(),
        {
            let ghost k = out@.len() as int;
            let x = rest.remove(0);
            assert(x == all[k]);
            let MapEntry { key, value } = x;
            out.push(MapEntry { key: K::from_c_repr(key), value: V::from_c_repr(value) });
            assert(all.skip(k + 1) =~= all.skip(k).drop_first());
            assert(all.take(k + 1) =~= all.take(k).push(x));
        }
        assert(all.take(out@.len() as int) =~= all);
        FfiMap(out)
    }
}

impl<A: ConvRepr> ConvRepr for (A,) {
    type CRepr = (A::CRepr,);

    open spec fn represents(c: (A::CRepr,), v: (A,)) -> bool {
        A::represents(c.0, v.0)
    }

    open spec fn valid_repr(c: (A::CRepr,)) -> bool {
        A::valid_repr(c.0)
    }

    fn into_c_repr(self) -> (c: (A::CRepr,)) {
        let (a,) = self;
        (a.into_c_repr(),)
    }

    fn from_c_repr(c: (A::CRepr,)) -> (v: (A,)) {
        let (a,) = c;
        (A::from_c_repr(a),)
    }
}

impl<A: ConvRepr, B: ConvRepr> ConvRepr for (A, B) {
    type CRepr = (A::CRepr, B::CRepr);

    open spec fn represents(c: (A::CRepr, B::CRepr), v: (A, B)) -> bool {
        A::represents(c.0, v.0) && B::represents(c.1, v.1)
    }

    open spec fn valid_repr(c: (A::CRepr, B::CRepr)) -> bool {
        A::valid_repr(c.0) && B::valid_repr(c.1)
    }

    fn into_c_repr(self) -> (c: (A::CRepr, B::CRepr)) {
        let (a, b) = self;
        (a.into_c_repr(), b.into_c_repr())
    }

    fn from_c_repr(c: (A::CRepr, B::CRepr)) -> (v: (A, B)) {
        let (a, b) = c;
        (A::from_c_repr(a), B::from_c_repr(b))
    }
}

impl<A: ConvRepr, B: ConvRepr, C: ConvRepr> ConvRepr for (A, B, C) {
    type CRepr = (A::CRepr, B::CRepr, C::CRepr);

    open spec fn represents(c: (A::CRepr, B::CRepr, C::CRepr), v: (A, B, C)) -> bool {
        A::represents(c.0, v.0) && B::represents(c.1, v.1) && C::represents(c.2, v.2)
    }

    open spec fn valid_repr(c: (A::CRepr, B::CRepr, C::CRepr)) -> bool {
        A::valid_repr(c.0) && B::valid_repr(c.1) && C::valid_repr(c.2)
    }

    fn into_c_repr(self) -> (c: (A::CRepr, B::CRepr, C::CRepr)) {
        let (a, b, c) = self;
        (a.into_c_repr(), b.into_c_repr(), c.into_c_repr())
    }

    fn from_c_repr(c: (A::CRepr, B::CRepr, C::CRepr)) -> (v: (A, B, C)) {
        let (a, b, c) = c;
        (A::from_c_repr(a), B::from_c_repr(b), C::from_c_repr(c))
    }
}

impl<A: ConvRepr, B: ConvRepr, C: ConvRepr, D: ConvRepr> ConvRepr for (A, B, C, D) {
    type CRepr = (A::CRepr, B::CRepr, C::CRepr, D::CRepr);

    open spec fn represents(c: (A::CRepr, B::CRepr, C::CRepr, D::CRepr), v: (A, B, C, D)) -> bool {
        A::represents(c.0, v.0) && B::represents(c.1, v.1) && C::represents(c.2, v.2) && D::represents(c.3, v.3)
    }

    open spec fn valid_repr(c: (A::CRepr, B::CRepr, C::CRepr, D::CRepr)) -> bool {
        A::valid_repr(c.0) && B::valid_repr(c.1) && C::valid_repr(c.2) && D::valid_repr(c.3)
    }

    fn into_c_repr(self) -> (c: (A::CRepr, B::CRepr, C::CRepr, D::CRepr)) {
        let (a, b, c, d) = self;
        (a.into_c_repr(), b.into_c_repr(), c.into_c_repr(), d.into_c_repr())
    }

    fn from_c_repr(c: (A::CRepr, B::CRepr, C::CRepr, D::CRepr)) -> (v: (A, B, C, D)) {
        let (a, b, c, d) = c;
        (A::from_c_repr(a), B::from_c_repr(b), C::from_c_repr(c), D::from_c_repr(d))
    }
}

impl<A: ConvRepr, B: ConvRepr, C: ConvRepr, D: ConvRepr, E: ConvRepr> ConvRepr for (A, B, C, D, E) {
    type CRepr = (A::CRepr, B::CRepr, C::CRepr, D::CRepr, E::CRepr);

    open spec fn represents(c: (A::CRepr, B::CRepr, C::CRepr, D::CRepr, E::CRepr), v: (A, B, C, D, E)) -> bool {
        A::represents(c.0, v.0) && B::represents(c.1, v.1) && C::represents(c.2, v.2) && D::represents(c.3, v.3) && E::represents(c.4, v.4)
    }

    open spec fn valid_repr(c: (A::CRepr, B::CRepr, C::CRepr, D::CRepr, E::CRepr)) -> bool {
        A::valid_repr(c.0) && B::valid_repr(c.1) && C::valid_repr(c.2) && D::valid_repr(c.3) && E::valid_repr(c.4)
    }

    fn into_c_repr(self) -> (c: (A::CRepr, B::CRepr, C::CRepr, D::CRepr, E::CRepr)) {
        let (a, b, c, d, e) = self;
        (a.into_c_repr(), b.into_c_repr(), c.into_c_repr(), d.into_c_repr(), e.into_c_repr())
    }

    fn from_c_repr(c: (A::CRepr, B::CRepr, C::CRepr, D::CRepr, E::CRepr)) -> (v: (A, B, C, D, E)) {
        let (a, b, c, d, e) = c;
        (A::from_c_repr(a), B::from_c_repr(b), C::from_c_repr(c), D::from_c_repr(d), E::from_c_repr(e))
    }
}

impl<A: ConvRepr, B: ConvRepr, C: ConvRepr, D: ConvRepr, E: ConvRepr, F: ConvRepr> ConvRepr for (A, B, C, D, E, F) {
    type CRepr = (A::CRepr, B::CRepr, C::CRepr, D::CRepr, E::CRepr, F::CRepr);

    open spec fn represents(c: (A::CRepr, B::CRepr, C::CRepr, D::CRepr, E::CRepr, F::CRepr), v: (A, B, C, D, E, F)) -> bool {
        A::represents(c.0, v.0) && B::represents(c.1, v.1) && C::represents(c.2, v.2) && D::represents(c.3, v.3) && E::represents(c.4, v.4) && F::represents(c.5, v.5)
    }

    open spec fn valid_repr(c: (A::CRepr, B::CRepr, C::CRepr, D::CRepr, E::CRepr, F::CRepr)) -> bool {
        A::valid_repr(c.0) && B::valid_repr(c.1) && C::valid_repr(c.2) && D::valid_repr(c.3) && E::valid_repr(c.4) && F::valid_repr(c.5)
    }

    fn into_c_repr(self) -> (c: (A::CRepr, B::CRepr, C::CRepr, D::CRepr, E::CRepr, F::CRepr)) {
        let (a, b, c, d, e, f) = self;
        (a.into_c_repr(), b.into_c_repr(), c.into_c_repr(), d.into_c_repr(), e.into_c_repr(), f.into_c_repr())
    }

    fn from_c_repr(c: (A::CRepr, B::CRepr, C::CRepr, D::CRepr, E::CRepr, F::CRepr)) -> (v: (A, B, C, D, E, F)) {
        let (a, b, c, d, e, f) = c;
        (A::from_c_repr(a), B::from_c_repr(b), C::from_c_repr(c), D::from_c_repr(d), E::from_c_repr(e), F::from_c_repr(f))
    }
}

impl<A: ConvRepr, B: ConvRepr, C: ConvRepr, D: ConvRepr, E: ConvRepr, F: ConvRepr, G: ConvRepr> ConvRepr for (A, B, C, D, E, F, G) {
    type CRepr = (A::CRepr, B::CRepr, C::CRepr, D::CRepr, E::CRepr, F::CRepr, G::CRepr);

    open spec fn represents(c: (A::CRepr, B::CRepr, C::CRepr, D::CRepr, E::CRepr, F::CRepr, G::CRepr), v: (A, B, C, D, E, F, G)) -> bool {
        A::represents(c.0, v.0) && B::represents(c.1, v.1) && C::represents(c.2, v.2) && D::represents(c.3, v.3) && E::represents(c.4, v.4) && F::represents(c.5, v.5) && G::represents(c.6, v.6)
    }

    open spec fn valid_repr(c: (A::CRepr, B::CRepr, C::CRepr, D::CRepr, E::CRepr, F::CRepr, G::CRepr)) -> bool {
        A::valid_repr(c.0) && B::valid_repr(c.1) && C::valid_repr(c.2) && D::valid_repr(c.3) && E::valid_repr(c.4) && F::valid_repr(c.5) && G::valid_repr(c.6)
    }

    fn into_c_repr(self) -> (c: (A::CRepr, B::CRepr, C::CRepr, D::CRepr, E::CRepr, F::CRepr, G::CRepr)) {
        let (a, b, c, d, e, f, g) = self;
        (a.into_c_repr(), b.into_c_repr(), c.into_c_repr(), d.into_c_repr(), e.into_c_repr(), f.into_c_repr(), g.into_c_repr())
    }

    fn from_c_repr(c: (A::CRepr, B::CRepr, C::CRepr, D::CRepr, E::CRepr, F::CRepr, G::CRepr)) -> (v: (A, B, C, D, E, F, G)) {
        let (a, b, c, d, e, f, g) = c;
        (A::from_c_repr(a), B::from_c_repr(b), C::from_c_repr(c), D::from_c_repr(d), E::from_c_repr(e), F::from_c_repr(f), G::from_c_repr(g))
    }
}

impl<A: ConvRepr, B: ConvRepr, C: ConvRepr, D: ConvRepr, E: ConvRepr, F: ConvRepr, G: ConvRepr, H: ConvRepr> ConvRepr for (A, B, C, D, E, F, G, H) {
    type CRepr = (A::CRepr, B::CRepr, C::CRepr, D::CRepr, E::CRepr, F::CRepr, G::CRepr, H::CRepr);

    open spec fn represents(c: (A::CRepr, B::CRepr, C::CRepr, D::CRepr, E::CRepr, F::CRepr, G::CRepr, H::CRepr), v: (A, B, C, D, E, F, G, H)) -> bool {
        A::represents(c.0, v.0) && B::represents(c.1, v.1) && C::represents(c.2, v.2) && D::represents(c.3, v.3) && E::represents(c.4, v.4) && F::represents(c.5, v.5) && G::represents(c.6, v.6) && H::represents(c.7, v.7)
    }

    open spec fn valid_repr(c: (A::CRepr, B::CRepr, C::CRepr, D::CRepr, E::CRepr, F::CRepr, G::CRepr, H::CRepr)) -> bool {
        A::valid_repr(c.0) && B::valid_repr(c.1) && C::valid_repr(c.2) && D::valid_repr(c.3) && E::valid_repr(c.4) && F::valid_repr(c.5) && G::valid_repr(c.6) && H::valid_repr(c.7)
    }

    fn into_c_repr(self) -> (c: (A::CRepr, B::CRepr, C::CRepr, D::CRepr, E::CRepr, F::CRepr, G::CRepr, H::CRepr)) {
        let (a, b, c, d, e, f, g, h) = self;
        (a.into_c_repr(), b.into_c_repr(), c.into_c_repr(), d.into_c_repr(), e.into_c_repr(), f.into_c_repr(), g.into_c_repr(), h.into_c_repr())
    }

    fn from_c_repr(c: (A::CRepr, B::CRepr, C::CRepr, D::CRepr, E::CRepr, F::CRepr, G::CRepr, H::CRepr)) -> (v: (A, B, C, D, E, F, G, H)) {
        let (a, b, c, d, e, f, g, h) = c;
        (A::from_c_repr(a), B::from_c_repr(b), C::from_c_repr(c), D::from_c_repr(d), E::from_c_repr(e), F::from_c_repr(f), G::from_c_repr(g), H::from_c_repr(h))
    }
}

impl<A: ConvRepr, B: ConvRepr, C: ConvRepr, D: ConvRepr, E: ConvRepr, F: ConvRepr, G: ConvRepr, H: ConvRepr, I: ConvRepr> ConvRepr for (A, B, C, D, E, F, G, H, I) {
    type CRepr = (A::CRepr, B::CRepr, C::CRepr, D::CRepr, E::CRepr, F::CRepr, G::CRepr, H::CRepr, I::CRepr);

    open spec fn represents(c: (A::CRepr, B::CRepr, C::CRepr, D::CRepr, E::CRepr, F::CRepr, G::CRepr, H::CRepr, I::CRepr), v: (A, B, C, D, E, F, G, H, I)) -> bool {
        A::represents(c.0, v.0) && B::represents(c.1, v.1) && C::represents(c.2, v.2) && D::represents(c.3, v.3) && E::represents(c.4, v.4) && F::represents(c.5, v.5) && G::represents(c.6, v.6) && H::represents(c.7, v.7) && I::represents(c.8, v.8)
    }

    open spec fn valid_repr(c: (A::CRepr, B::CRepr, C::CRepr, D::CRepr, E::CRepr, F::CRepr, G::CRepr, H::CRepr, I::CRepr)) -> bool {
        A::valid_repr(c.0) && B::valid_repr(c.1) && C::valid_repr(c.2) && D::valid_repr(c.3) && E::valid_repr(c.4) && F::valid_repr(c.5) && G::valid_repr(c.6) && H::valid_repr(c.7) && I::valid_repr(c.8)
    }

    fn into_c_repr(self) -> (c: (A::CRepr, B::CRepr, C::CRepr, D::CRepr, E::CRepr, F::CRepr, G::CRepr, H::CRepr, I::CRepr)) {
        let (a, b, c, d, e, f, g, h, i) = self;
        (a.into_c_repr(), b.into_c_repr(), c.into_c_repr(), d.into_c_repr(), e.into_c_repr(), f.into_c_repr(), g.into_c_repr(), h.into_c_repr(), i.into_c_repr())
    }

    fn from_c_repr(c: (A::CRepr, B::CRepr, C::CRepr, D::CRepr, E::CRepr, F::CRepr, G::CRepr, H::CRepr, I::CRepr)) -> (v: (A, B, C, D, E, F, G, H, I)) {
        let (a, b, c, d, e, f, g, h, i) = c;
        (A::from_c_repr(a), B::from_c_repr(b), C::from_c_repr(c), D::from_c_repr(d), E::from_c_repr(e), F::from_c_repr(f), G::from_c_repr(g), H::from_c_repr(h), I::from_c_repr(i))
    }
}

impl<A: ConvRepr, B: ConvRepr, C: ConvRepr, D: ConvRepr, E: ConvRepr, F: ConvRepr, G: ConvRepr, H: ConvRepr, I: ConvRepr, J: ConvRepr> ConvRepr for (A, B, C, D, E, F, G, H, I, J) {
    type CRepr = (A::CRepr, B::CRepr, C::CRepr, D::CRepr, E::CRepr, F::CRepr, G::CRepr, H::CRepr, I::CRepr, J::CRepr);

    open spec fn represents(c: (A::CRepr, B::CRepr, C::CRepr, D::CRepr, E::CRepr, F::CRepr, G::CRepr, H::CRepr, I::CRepr, J::CRepr), v: (A, B, C, D, E, F, G, H, I, J)) -> bool {
        A::represents(c.0, v.0) && B::represents(c.1, v.1) && C::represents(c.2, v.2) && D::represents(c.3, v.3) && E::represents(c.4, v.4) && F::represents(c.5, v.5) && G::represents(c.6, v.6) && H::represents(c.7, v.7) && I::represents(c.8, v.8) && J::represents(c.9, v.9)
    }

    open spec fn valid_repr(c: (A::CRepr, B::CRepr, C::CRepr, D::CRepr, E::CRepr, F::CRepr, G::CRepr, H::CRepr, I::CRepr, J::CRepr)) -> bool {
        A::valid_repr(c.0) && B::valid_repr(c.1) && C::valid_repr(c.2) && D::valid_repr(c.3) && E::valid_repr(c.4) && F::valid_repr(c.5) && G::valid_repr(c.6) && H::valid_repr(c.7) && I::valid_repr(c.8) && J::valid_repr(c.9)
    }

    fn into_c_repr(self) -> (c: (A::CRepr, B::CRepr, C::CRepr, D::CRepr, E::CRepr, F::CRepr, G::CRepr, H::CRepr, I::CRepr, J::CRepr)) {
        let (a, b, c, d, e, f, g, h, i, j) = self;
        (a.into_c_repr(), b.into_c_repr(), c.into_c_repr(), d.into_c_repr(), e.into_c_repr(), f.into_c_repr(), g.into_c_repr(), h.into_c_repr(), i.into_c_repr(), j.into_c_repr())
    }

    fn from_c_repr(c: (A::CRepr, B::CRepr, C::CRepr, D::CRepr, E::CRepr, F::CRepr, G::CRepr, H::CRepr, I::CRepr, J::CRepr)) -> (v: (A, B, C, D, E, F, G, H, I, J)) {
        let (a, b, c, d, e, f, g, h, i, j) = c;
        (A::from_c_repr(a), B::from_c_repr(b), C::from_c_repr(c), D::from_c_repr(d), E::from_c_repr(e), F::from_c_repr(f), G::from_c_repr(g), H::from_c_repr(h), I::from_c_repr(i), J::from_c_repr(j))
    }
}

} // verus!
