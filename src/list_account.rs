use vstd::prelude::*;

use core::marker::PhantomData;

use crate::records::{ListRecord, StakeRecord, ValidatorRecord};

verus! {

/// Length in bytes of the tag that starts every list account.
pub const LIST_HEADER_LEN: usize = 8;

/// Whether `data` holds a header followed by a whole, non-zero number of
/// records of `size` bytes.
pub open spec fn list_data_is_valid(data: Seq<u8>, size: nat) -> bool {
    data.len() > LIST_HEADER_LEN && size > 0 && (data.len() - LIST_HEADER_LEN) as int % size as int
        == 0
}

/// How many whole records of `size` bytes follow the header in `data`.
pub open spec fn list_data_len(data: Seq<u8>, size: nat) -> int {
    if data.len() < LIST_HEADER_LEN || size == 0 {
        0
    } else {
        (data.len() - LIST_HEADER_LEN) as int / size as int
    }
}

/// The bytes of the `i`-th record of `size` bytes after the header.
pub open spec fn list_record_bytes(data: Seq<u8>, size: nat, i: int) -> Seq<u8> {
    data.subrange(LIST_HEADER_LEN + i * size, LIST_HEADER_LEN + (i + 1) * size)
}

/// The records laid end to end, each in its stored form.
pub open spec fn encode_records<T: ListRecord>(records: Seq<T>) -> Seq<u8>
    decreases records.len(),
{
    if records.len() == 0 {
        Seq::empty()
    } else {
        encode_records(records.drop_last()) + records.last().spec_encoded()
    }
}

/// A read-only view of a list account's bytes as records of type `T`; each
/// record is decoded when it is read.
#[derive(Debug)]
pub struct ListAccount<'a, T> {
    data: &'a [u8],
    record: PhantomData<T>,
}

impl<'a, T> Clone for ListAccount<'a, T> {
    fn clone(&self) -> (r: Self)
        ensures
            r == *self,
    {
        ListAccount { data: self.data, record: PhantomData }
    }
}

impl<'a, T> Copy for ListAccount<'a, T> {

}

pub type ValidatorList<'a> = ListAccount<'a, ValidatorRecord>;

pub type StakeList<'a> = ListAccount<'a, StakeRecord>;

proof fn lemma_record_in_bounds(i: int, n: int, size: int)
    requires
        0 <= i,
        size > 0,
        0 <= n,
        i < n / size,
    ensures
        0 <= i * size,
        (i + 1) * size <= n,
{
    vstd::arithmetic::div_mod::lemma_fundamental_div_mod(n, size);
    vstd::arithmetic::mul::lemma_mul_inequality(i + 1, n / size, size);
    vstd::arithmetic::mul::lemma_mul_nonnegative(i, size);
    vstd::arithmetic::div_mod::lemma_mod_pos_bound(n, size);
    assert(size * (n / size) == (n / size) * size) by (nonlinear_arith);
}

proof fn lemma_encode_records<T: ListRecord>(records: Seq<T>)
    ensures
        encode_records(records).len() == records.len() * T::spec_size(),
        forall|i: int|
            0 <= i < records.len() ==> encode_records(records).subrange(
                i * T::spec_size(),
                (i + 1) * T::spec_size(),
            ) == (#[trigger] records[i]).spec_encoded(),
    decreases records.len(),
{
    let s = T::spec_size() as int;
    if records.len() > 0 {
        let prefix = records.drop_last();
        lemma_encode_records(prefix);
        records.last().lemma_encoded_len();
        let n = records.len() as int;
        assert((n - 1) * s + s == n * s) by (nonlinear_arith);
        let whole = encode_records(records);
        assert(whole == encode_records(prefix) + records.last().spec_encoded());
        assert forall|i: int| 0 <= i < records.len() implies whole.subrange(i * s, (i + 1) * s)
            == (#[trigger] records[i]).spec_encoded() by {
            if i < n - 1 {
                vstd::arithmetic::mul::lemma_mul_inequality(i + 1, n - 1, s);
                vstd::arithmetic::mul::lemma_mul_nonnegative(i, s);
                assert((i + 1) * s == i * s + s) by (nonlinear_arith);
                assert(prefix[i] == records[i]);
                assert(whole.subrange(i * s, (i + 1) * s) =~= encode_records(prefix).subrange(
                    i * s,
                    (i + 1) * s,
                ));
            } else {
                assert(whole.subrange(i * s, (i + 1) * s) =~= records.last().spec_encoded());
            }
        }
    }
}

/// Records laid end to end after an 8-byte header read back as the same
/// records, and the same bytes less their last one do not read as a list.
/// (An empty list is not covered: a buffer of the header alone is refused.
/// Records one byte wide are not covered either: any length splits into them.)
pub proof fn lemma_list_round_trip<T: ListRecord>(header: Seq<u8>, records: Seq<T>)
    requires
        header.len() == LIST_HEADER_LEN,
        records.len() > 0,
        T::spec_size() > 1,
    ensures
        ({
            let data = header + encode_records(records);
            &&& list_data_is_valid(data, T::spec_size())
            &&& list_data_len(data, T::spec_size()) == records.len()
            &&& forall|i: int, x: T|
                #![trigger x.spec_encoded(), records[i]]
                0 <= i < records.len() && x.spec_encoded() == list_record_bytes(
                    data,
                    T::spec_size(),
                    i,
                ) ==> x == records[i]
            &&& !list_data_is_valid(data.drop_last(), T::spec_size())
        }),
{
    let s = T::spec_size() as int;
    let n = records.len() as int;
    let body = encode_records(records);
    let data = header + body;
    lemma_encode_records(records);
    assert(data.len() - LIST_HEADER_LEN == n * s);
    assert(n * s >= s) by (nonlinear_arith)
        requires
            n >= 1,
            s > 1,
    ;
    vstd::arithmetic::div_mod::lemma_mod_multiples_basic(n, s);
    vstd::arithmetic::div_mod::lemma_div_multiples_vanish(n, s);
    assert(s * n == n * s) by (nonlinear_arith);
    assert forall|i: int, x: T|
        #![trigger x.spec_encoded(), records[i]]
        0 <= i < records.len() && x.spec_encoded() == list_record_bytes(
            data,
            T::spec_size(),
            i,
        ) implies x == records[i] by {
        vstd::arithmetic::mul::lemma_mul_inequality(i + 1, n, s);
        vstd::arithmetic::mul::lemma_mul_nonnegative(i, s);
        assert((i + 1) * s == i * s + s) by (nonlinear_arith);
        assert(list_record_bytes(data, T::spec_size(), i) =~= body.subrange(i * s, (i + 1) * s));
        x.lemma_encoding_injective(&records[i]);
    }
    // n * s - 1 == (n - 1) * s + (s - 1), which leaves s - 1 over
    assert(n * s - 1 == (n - 1) * s + (s - 1)) by (nonlinear_arith);
    vstd::arithmetic::div_mod::lemma_fundamental_div_mod_converse(n * s - 1, s, n - 1, s - 1);
}

impl<'a, T: ListRecord> ListAccount<'a, T> {
    /// The account bytes this list reads, header included.
    pub closed spec fn spec_data(&self) -> Seq<u8> {
        self.data@
    }

    pub open spec fn spec_len(&self) -> int {
        list_data_len(self.spec_data(), T::spec_size())
    }

    pub open spec fn spec_record_bytes(&self, i: int) -> Seq<u8> {
        list_record_bytes(self.spec_data(), T::spec_size(), i)
    }

    /// Reads `data` as a header followed by records of `T`; nothing unless
    /// at least one byte follows the header and the bytes after it split
    /// into whole records.
    pub fn try_from_acc_data(data: &'a [u8]) -> (r: Option<Self>)
        ensures
            r is Some <==> list_data_is_valid(data@, T::spec_size()),
            r matches Some(l) ==> l.spec_data() == data@,
    {
        let size = T::size();
        if data.len() <= LIST_HEADER_LEN {
            return None;
        }
        if (data.len() - LIST_HEADER_LEN) % size != 0 {
            return None;
        }
        Some(ListAccount { data, record: PhantomData })
    }

    /// How many records the list holds.
    pub fn len(&self) -> (r: usize)
        ensures
            r == self.spec_len(),
    {
        let size = T::size();
        if self.data.len() < LIST_HEADER_LEN {
            0
        } else {
            (self.data.len() - LIST_HEADER_LEN) / size
        }
    }

    /// The record at `index`, or nothing past the end.
    pub fn get(&self, index: usize) -> (r: Option<T>)
        ensures
            index < self.spec_len() ==> (r matches Some(x) && x.spec_encoded()
                == self.spec_record_bytes(index as int)),
            index >= self.spec_len() ==> r is None,
    {
        let size = T::size();
        let n = self.len();
        if n <= index {
            return None;
        }
        assert(self.data.len() >= LIST_HEADER_LEN);
        proof {
            lemma_record_in_bounds(
                index as int,
                (self.data@.len() - LIST_HEADER_LEN) as int,
                size as int,
            );
            assert((index as int + 1) * size as int == index as int * size as int + size as int)
                by (nonlinear_arith);
        }
        assert(LIST_HEADER_LEN + index * size + size <= self.data.len());
        let start = LIST_HEADER_LEN + index * size;
        Some(T::decode_at(self.data, start))
    }

    /// Every record of the list, in order.
    pub fn as_slice(&self) -> (r: Vec<T>)
        ensures
            r@.len() == self.spec_len(),
            forall|i: int|
                0 <= i < r@.len() ==> (#[trigger] r@[i]).spec_encoded() == self.spec_record_bytes(
                    i,
                ),
    {
        let n = self.len();
        let mut out: Vec<T> = Vec::new();
        let mut i: usize = 0;
        while i < n
            invariant
                n == self.spec_len(),
                i <= n,
                out@.len() == i,
                forall|j: int|
                    0 <= j < i ==> (#[trigger] out@[j]).spec_encoded() == self.spec_record_bytes(
                        j,
                    ),
            decreases n - i,
        {
            match self.get(i) {
                Some(x) => out.push(x),
                None => {},
            }
            i = i + 1;
        }
        out
    }
}

} // verus!
