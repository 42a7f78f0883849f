//! Byte strings and lists that the host hands to the adapter once: arguments,
//! environment variables and preopened directories, and how they are laid out
//! for the guest.

use vstd::prelude::*;
use crate::bytes::push_all;

verus! {

/// A byte string that lives as long as the process.
pub struct WasmStr {
    bytes: Vec<u8>,
}

impl View for WasmStr {
    type V = Seq<u8>;

    closed spec fn view(&self) -> Seq<u8> {
        self.bytes@
    }
}

impl WasmStr {
    /// The string that holds these bytes.
    pub fn new(bytes: Vec<u8>) -> (r: Self)
        ensures
            r@ == bytes@,
    {
        WasmStr { bytes }
    }

    /// The number of bytes.
    pub fn len(&self) -> (r: usize)
        ensures
            r == self@.len(),
    {
        self.bytes.len()
    }

    /// The bytes.
    pub fn as_bytes(&self) -> (r: &Vec<u8>)
        ensures
            r@ == self@,
    {
        &self.bytes
    }
}

/// An environment variable: a key and its value.
pub struct StrTuple {
    key: WasmStr,
    value: WasmStr,
}

impl StrTuple {
    /// The key of the variable.
    pub closed spec fn key(&self) -> Seq<u8> {
        self.key@
    }

    /// The value of the variable.
    pub closed spec fn value(&self) -> Seq<u8> {
        self.value@
    }

    /// The variable as the guest reads it: the key, an equals sign, the value.
    pub open spec fn line(&self) -> Seq<u8> {
        self.key() + seq![EQUALS] + self.value()
    }

    /// The variable with this key and value.
    pub fn new(key: WasmStr, value: WasmStr) -> (r: Self)
        ensures
            r.key() == key@,
            r.value() == value@,
    {
        StrTuple { key, value }
    }

    /// The key.
    pub fn get_key(&self) -> (r: &WasmStr)
        ensures
            r@ == self.key(),
    {
        &self.key
    }

    /// The value.
    pub fn get_value(&self) -> (r: &WasmStr)
        ensures
            r@ == self.value(),
    {
        &self.value
    }
}

/// The byte `=`.
pub const EQUALS: u8 = 61;

/// The list of environment variables as the host hands it over.
pub struct StrTupleList {
    items: Vec<StrTuple>,
}

impl StrTupleList {
    /// The variables, each as the guest reads it.
    pub closed spec fn lines(&self) -> Seq<Seq<u8>> {
        Seq::new(self.items@.len(), |i: int| self.items@[i].line())
    }

    /// The list of these variables.
    pub fn new(items: Vec<StrTuple>) -> (r: Self)
        ensures
            r.lines() == Seq::new(items@.len(), |i: int| items@[i].line()),
    {
        StrTupleList { items }
    }

    /// The number of variables.
    pub fn len(&self) -> (r: usize)
        ensures
            r == self.lines().len(),
    {
        self.items.len()
    }

    /// The bytes that the lines of the variables take when packed, where that
    /// number fits the address space.
    pub fn packed_size(&self) -> (r: Option<usize>)
        ensures
            match r {
                Some(size) => size == packed_len(self.lines()),
                None => packed_len(self.lines()) > usize::MAX,
            },
    {
        assert(lines_of(self.items@) =~= self.lines());
        checked_variables_size(&self.items)
    }

    /// The variables.
    pub fn into_items(self) -> (r: Vec<StrTuple>)
        ensures
            self.lines() == Seq::new(r@.len(), |i: int| r@[i].line()),
    {
        self.items
    }
}

/// A directory that was opened before the guest started: its handle and the
/// path under which the guest knows it.
pub struct Preopen {
    descriptor: u32,
    path: WasmStr,
}

impl Preopen {
    /// The handle of the directory.
    pub closed spec fn descriptor(&self) -> u32 {
        self.descriptor
    }

    /// The path of the directory.
    pub closed spec fn path(&self) -> Seq<u8> {
        self.path@
    }

    /// The preopened directory with this handle and path.
    pub fn new(descriptor: u32, path: WasmStr) -> (r: Self)
        ensures
            r.descriptor() == descriptor,
            r.path() == path@,
    {
        Preopen { descriptor, path }
    }

    /// The handle of the directory.
    pub fn get_descriptor(&self) -> (r: u32)
        ensures
            r == self.descriptor(),
    {
        self.descriptor
    }

    /// The path of the directory.
    pub fn get_path(&self) -> (r: &WasmStr)
        ensures
            r@ == self.path(),
    {
        &self.path
    }
}

/// The list of preopened directories as the host hands it over.
pub struct PreopenList {
    items: Vec<Preopen>,
}

impl PreopenList {
    /// The handles of the directories, in order.
    pub closed spec fn descriptors(&self) -> Seq<u32> {
        Seq::new(self.items@.len(), |i: int| self.items@[i].descriptor())
    }

    /// The paths of the directories, in order.
    pub closed spec fn paths(&self) -> Seq<Seq<u8>> {
        Seq::new(self.items@.len(), |i: int| self.items@[i].path())
    }

    /// The list of these directories.
    pub fn new(items: Vec<Preopen>) -> (r: Self)
        ensures
            r.descriptors() == Seq::new(items@.len(), |i: int| items@[i].descriptor()),
            r.paths() == Seq::new(items@.len(), |i: int| items@[i].path()),
    {
        PreopenList { items }
    }

    /// The number of directories.
    pub fn len(&self) -> (r: usize)
        ensures
            r == self.descriptors().len(),
            r == self.paths().len(),
    {
        self.items.len()
    }

    /// The directories.
    pub fn into_items(self) -> (r: Vec<Preopen>)
        ensures
            self.descriptors() == Seq::new(r@.len(), |i: int| r@[i].descriptor()),
            self.paths() == Seq::new(r@.len(), |i: int| r@[i].path()),
    {
        self.items
    }
}

/// The strings of a list, each by its bytes.
pub open spec fn strings_of(list: Seq<WasmStr>) -> Seq<Seq<u8>> {
    Seq::new(list.len(), |i: int| list[i]@)
}

/// The lines of a list of variables.
pub open spec fn lines_of(list: Seq<StrTuple>) -> Seq<Seq<u8>> {
    Seq::new(list.len(), |i: int| list[i].line())
}

/// The bytes that a list of strings takes in a buffer where each string is
/// followed by a zero byte.
pub open spec fn packed_len(items: Seq<Seq<u8>>) -> nat
    decreases items.len(),
{
    if items.len() == 0 {
        0
    } else {
        packed_len(items.drop_last()) + items.last().len() + 1
    }
}

/// The contents of a buffer that holds the strings of a list in order, each
/// followed by a zero byte.
pub open spec fn packed(items: Seq<Seq<u8>>) -> Seq<u8>
    decreases items.len(),
{
    if items.len() == 0 {
        Seq::empty()
    } else {
        packed(items.drop_last()) + items.last() + seq![0u8]
    }
}

/// Where each string of a list starts in the packed buffer.
pub open spec fn packed_offsets(items: Seq<Seq<u8>>) -> Seq<nat> {
    Seq::new(items.len(), |i: int| packed_len(items.take(i)))
}

/// The packed buffer is as long as `packed_len` says.
pub proof fn lemma_packed_len(items: Seq<Seq<u8>>)
    ensures
        packed(items).len() == packed_len(items),
    decreases items.len(),
{
    if items.len() > 0 {
        lemma_packed_len(items.drop_last());
    }
}

/// A prefix of a list takes no more room than the list.
pub proof fn lemma_packed_len_prefix(items: Seq<Seq<u8>>, n: int)
    requires
        0 <= n <= items.len(),
    ensures
        packed_len(items.take(n)) <= packed_len(items),
    decreases items.len(),
{
    if n == items.len() {
        assert(items.take(n) =~= items);
    } else {
        assert(items.drop_last().take(n) =~= items.take(n));
        lemma_packed_len_prefix(items.drop_last(), n);
    }
}

/// In the packed buffer each string stands at its offset, with a zero byte
/// right behind it.
pub proof fn lemma_packed_holds_each(items: Seq<Seq<u8>>, i: int)
    requires
        0 <= i < items.len(),
    ensures
        packed_offsets(items)[i] + items[i].len() + 1 <= packed(items).len(),
        packed(items).subrange(
            packed_offsets(items)[i] as int,
            packed_offsets(items)[i] as int + items[i].len() as int,
        ) == items[i],
        packed(items)[packed_offsets(items)[i] as int + items[i].len() as int] == 0u8,
    decreases items.len(),
{
    lemma_packed_len(items);
    lemma_packed_len(items.drop_last());
    let front = packed(items.drop_last());
    if i == items.len() - 1 {
        assert(items.take(i) =~= items.drop_last());
        assert(packed(items).subrange(
            front.len() as int,
            front.len() as int + items[i].len() as int,
        ) =~= items[i]);
    } else {
        lemma_packed_holds_each(items.drop_last(), i);
        assert(items.drop_last().take(i) =~= items.take(i));
        let off = packed_offsets(items)[i] as int;
        assert(packed_offsets(items.drop_last())[i] == off);
        let end = off + items[i].len() as int;
        assert(packed(items).subrange(off, end) =~= front.subrange(off, end));
    }
}

/// One step of packing: the list up to and including item `i` is the list up
/// to `i` with item `i` behind it.
pub proof fn lemma_packed_step(items: Seq<Seq<u8>>, i: int)
    requires
        0 <= i < items.len(),
    ensures
        packed_len(items.take(i + 1)) == packed_len(items.take(i)) + items[i].len() + 1,
        packed(items.take(i + 1)) == packed(items.take(i)) + items[i] + seq![0u8],
        packed_len(items.take(i + 1)) <= packed_len(items),
{
    assert(items.take(i + 1).drop_last() =~= items.take(i));
    lemma_packed_len_prefix(items, i + 1);
}

/// Counts the strings of a list and the bytes they take when packed.
pub fn strings_sizes(items: &Vec<WasmStr>) -> (r: (usize, usize))
    requires
        packed_len(strings_of(items@)) <= usize::MAX,
    ensures
        r.0 == items@.len(),
        r.1 == packed_len(strings_of(items@)),
{
    let ghost all = strings_of(items@);
    let mut total: usize = 0;
    let mut i: usize = 0;
    assert(all.take(0) =~= Seq::<Seq<u8>>::empty());
    while i < items.len()
        invariant
            i <= items.len(),
            all == strings_of(items@),
            total == packed_len(all.take(i as int)),
            packed_len(all) <= usize::MAX,
        decreases items.len() - i,
    {
        proof {
            lemma_packed_step(all, i as int);
        }
        total = total + items[i].len() + 1;
        i = i + 1;
    }
    assert(all.take(i as int) =~= all);
    (items.len(), total)
}

/// Packs the strings of a list into one buffer, each followed by a zero byte,
/// and gives the address of each string for a buffer that starts at `base`.
pub fn pack_strings(items: &Vec<WasmStr>, base: usize) -> (r: (Vec<usize>, Vec<u8>))
    requires
        base + packed_len(strings_of(items@)) <= usize::MAX,
    ensures
        r.1@ == packed(strings_of(items@)),
        r.0@.len() == items@.len(),
        forall|i: int|
            0 <= i < items@.len() ==> r.0@[i] == base + packed_offsets(strings_of(items@))[i],
{
    let ghost all = strings_of(items@);
    let mut pointers: Vec<usize> = Vec::new();
    let mut buffer: Vec<u8> = Vec::new();
    let mut i: usize = 0;
    assert(all.take(0) =~= Seq::<Seq<u8>>::empty());
    while i < items.len()
        invariant
            i <= items.len(),
            all == strings_of(items@),
            base + packed_len(all) <= usize::MAX,
            buffer@ == packed(all.take(i as int)),
            buffer@.len() == packed_len(all.take(i as int)),
            pointers@.len() == i,
            forall|j: int| 0 <= j < i ==> pointers@[j] == base + packed_offsets(all)[j],
        decreases items.len() - i,
    {
        proof {
            lemma_packed_step(all, i as int);
            lemma_packed_len(all.take(i + 1));
        }
        pointers.push(base + buffer.len());
        push_all(&mut buffer, items[i].as_bytes());
        buffer.push(0u8);
        i = i + 1;
    }
    assert(all.take(i as int) =~= all);
    (pointers, buffer)
}

/// Counts the variables of a list and the bytes their lines take when packed.
pub fn variables_sizes(items: &Vec<StrTuple>) -> (r: (usize, usize))
    requires
        packed_len(lines_of(items@)) <= usize::MAX,
    ensures
        r.0 == items@.len(),
        r.1 == packed_len(lines_of(items@)),
{
    let ghost all = lines_of(items@);
    let mut total: usize = 0;
    let mut i: usize = 0;
    assert(all.take(0) =~= Seq::<Seq<u8>>::empty());
    while i < items.len()
        invariant
            i <= items.len(),
            all == lines_of(items@),
            total == packed_len(all.take(i as int)),
            packed_len(all) <= usize::MAX,
        decreases items.len() - i,
    {
        proof {
            lemma_packed_step(all, i as int);
        }
        total = total + items[i].get_key().len() + items[i].get_value().len() + 2;
        i = i + 1;
    }
    assert(all.take(i as int) =~= all);
    (items.len(), total)
}

/// Packs the lines of a list of variables into one buffer, each followed by a
/// zero byte, and gives the address of each line for a buffer that starts at
/// `base`.
pub fn pack_variables(items: &Vec<StrTuple>, base: usize) -> (r: (Vec<usize>, Vec<u8>))
    requires
        base + packed_len(lines_of(items@)) <= usize::MAX,
    ensures
        r.1@ == packed(lines_of(items@)),
        r.0@.len() == items@.len(),
        forall|i: int|
            0 <= i < items@.len() ==> r.0@[i] == base + packed_offsets(lines_of(items@))[i],
{
    let ghost all = lines_of(items@);
    let mut pointers: Vec<usize> = Vec::new();
    let mut buffer: Vec<u8> = Vec::new();
    let mut i: usize = 0;
    assert(all.take(0) =~= Seq::<Seq<u8>>::empty());
    while i < items.len()
        invariant
            i <= items.len(),
            all == lines_of(items@),
            base + packed_len(all) <= usize::MAX,
            buffer@ == packed(all.take(i as int)),
            buffer@.len() == packed_len(all.take(i as int)),
            pointers@.len() == i,
            forall|j: int| 0 <= j < i ==> pointers@[j] == base + packed_offsets(all)[j],
        decreases items.len() - i,
    {
        proof {
            lemma_packed_step(all, i as int);
            lemma_packed_len(all.take(i + 1));
        }
        pointers.push(base + buffer.len());
        let ghost before = buffer@;
        push_all(&mut buffer, items[i].get_key().as_bytes());
        buffer.push(EQUALS);
        push_all(&mut buffer, items[i].get_value().as_bytes());
        buffer.push(0u8);
        assert(buffer@ =~= before + all[i as int] + seq![0u8]);
        i = i + 1;
    }
    assert(all.take(i as int) =~= all);
    (pointers, buffer)
}

/// Computes the bytes that the strings of a list take when packed, where
/// that number fits the address space.
pub fn checked_strings_size(items: &Vec<WasmStr>) -> (r: Option<usize>)
    ensures
        match r {
            Some(size) => size == packed_len(strings_of(items@)),
            None => packed_len(strings_of(items@)) > usize::MAX,
        },
{
    let ghost all = strings_of(items@);
    let mut total: usize = 0;
    let mut i: usize = 0;
    assert(all.take(0) =~= Seq::<Seq<u8>>::empty());
    while i < items.len()
        invariant
            i <= items.len(),
            all == strings_of(items@),
            total == packed_len(all.take(i as int)),
        decreases items.len() - i,
    {
        proof {
            lemma_packed_step(all, i as int);
        }
        let with_string: usize = match total.checked_add(items[i].len()) {
            Some(sum) => sum,
            None => {
                return None;
            },
        };
        total = match with_string.checked_add(1) {
            Some(sum) => sum,
            None => {
                return None;
            },
        };
        i = i + 1;
    }
    assert(all.take(i as int) =~= all);
    Some(total)
}

/// Computes the bytes that the lines of a list of variables take when packed,
/// where that number fits the address space.
pub fn checked_variables_size(items: &Vec<StrTuple>) -> (r: Option<usize>)
    ensures
        match r {
            Some(size) => size == packed_len(lines_of(items@)),
            None => packed_len(lines_of(items@)) > usize::MAX,
        },
{
    let ghost all = lines_of(items@);
    let mut total: usize = 0;
    let mut i: usize = 0;
    assert(all.take(0) =~= Seq::<Seq<u8>>::empty());
    while i < items.len()
        invariant
            i <= items.len(),
            all == lines_of(items@),
            total == packed_len(all.take(i as int)),
        decreases items.len() - i,
    {
        proof {
            lemma_packed_step(all, i as int);
        }
        let with_key: usize = match total.checked_add(items[i].get_key().len()) {
            Some(sum) => sum,
            None => {
                return None;
            },
        };
        let with_value: usize = match with_key.checked_add(items[i].get_value().len()) {
            Some(sum) => sum,
            None => {
                return None;
            },
        };
        total = match with_value.checked_add(2) {
            Some(sum) => sum,
            None => {
                return None;
            },
        };
        i = i + 1;
    }
    assert(all.take(i as int) =~= all);
    Some(total)
}

} // verus!
