//! Host-side numeric containers.
//!
//! Each type here holds, as plain values, what one of the engine's containers
//! holds: a vector of integers, a vector of reals, a list of integer vectors.
//! Positions and lengths are `i64`, as the engine counts them.  A value is
//! built from a host sequence, or read out of the engine through its getters,
//! and converted to a host sequence without loss; the conversion is always a
//! fresh copy.

use vstd::prelude::*;
use crate::error::{Error, Result};
use crate::types::Real;

verus! {

/// A fresh copy of a sequence of integers.
fn copy_ints(src: &Vec<i64>) -> (dst: Vec<i64>)
    ensures
        dst@ == src@,
{
    let mut dst: Vec<i64> = Vec::new();
    let mut i: usize = 0;
    while i < src.len()
        invariant
            i <= src.len(),
            dst@ == src@.take(i as int),
        decreases src.len() - i,
    {
        dst.push(src[i]);
        i += 1;
    }
    dst
}

/// A vector of integers.
pub struct VectorInt {
    items: Vec<i64>,
}

impl View for VectorInt {
    type V = Seq<i64>;

    closed spec fn view(&self) -> Seq<i64> {
        self.items@
    }
}

impl VectorInt {
    #[verifier::type_invariant]
    spec fn bounded(self) -> bool {
        self.items@.len() <= i64::MAX
    }

    /// The empty vector.
    pub fn new() -> (r: Result<Self>)
        ensures
            r is Ok,
            r->Ok_0@ == Seq::<i64>::empty(),
    {
        Ok(VectorInt { items: Vec::new() })
    }

    /// The vector of `n` zeros.
    ///
    /// Fails with `NoMemory` when this machine cannot address `n` elements.
    pub fn with_size(n: i64) -> (r: Result<Self>)
        requires
            0 <= n,
        ensures
            n <= usize::MAX ==> r is Ok && r->Ok_0@ == Seq::new(n as nat, |i: int| 0i64),
            n > usize::MAX ==> r is Err && r->Err_0 == Error::NoMemory,
    {
        if n as u64 > usize::MAX as u64 {
            return Err(Error::NoMemory);
        }
        let mut items: Vec<i64> = Vec::new();
        let mut i: i64 = 0;
        while i < n
            invariant
                0 <= i <= n,
                items@ == Seq::new(i as nat, |k: int| 0i64),
            decreases n - i,
        {
            items.push(0);
            i += 1;
        }
        Ok(VectorInt { items })
    }

    /// The vector that holds the elements of `data`, in order.
    ///
    /// Fails with `NoMemory` when `data` has more elements than the engine
    /// can count.
    pub fn from_slice(data: &[i64]) -> (r: Result<Self>)
        ensures
            data@.len() <= i64::MAX ==> r is Ok && r->Ok_0@ == data@,
            data@.len() > i64::MAX ==> r is Err && r->Err_0 == Error::NoMemory,
    {
        if data.len() as u64 > i64::MAX as u64 {
            return Err(Error::NoMemory);
        }
        let mut items: Vec<i64> = Vec::new();
        let mut i: usize = 0;
        while i < data.len()
            invariant
                i <= data@.len(),
                items@ == data@.take(i as int),
            decreases data@.len() - i,
        {
            items.push(data[i]);
            i += 1;
        }
        Ok(VectorInt { items })
    }

    /// The vector of the `len` elements that `get` hands out for the
    /// positions from 0 on; empty when `len` is not positive.
    ///
    /// `get` is asked once for each position below `len`, in order, and for
    /// no other.  Fails with `NoMemory`, without asking, when this machine
    /// cannot address `len` elements.
    pub fn read<F: Fn(i64) -> i64>(len: i64, get: F) -> (r: Result<Self>)
        requires
            forall|pos: i64| 0 <= pos < len ==> call_requires(get, (pos,)),
        ensures
            len <= usize::MAX ==> r is Ok,
            len > usize::MAX ==> r is Err && r->Err_0 == Error::NoMemory,
            r is Ok ==> r->Ok_0@.len() == (if len > 0 {
                len as int
            } else {
                0
            }),
            r is Ok ==> forall|pos: i64|
                0 <= pos < len ==> call_ensures(get, (pos,), #[trigger] r->Ok_0@[pos as int]),
    {
        let count: i64 = if len > 0 {
            len
        } else {
            0
        };
        if count as u64 > usize::MAX as u64 {
            return Err(Error::NoMemory);
        }
        let mut items: Vec<i64> = Vec::new();
        let mut pos: i64 = 0;
        while pos < count
            invariant
                0 <= pos <= count <= usize::MAX,
                count <= len || count == 0,
                items@.len() == pos,
                forall|k: i64| 0 <= k < len ==> call_requires(get, (k,)),
                forall|k: i64| 0 <= k < pos ==> call_ensures(get, (k,), #[trigger] items@[k as int]),
            decreases count - pos,
        {
            let value = get(pos);
            items.push(value);
            pos += 1;
        }
        Ok(VectorInt { items })
    }

    /// Number of elements.
    pub fn len(&self) -> (n: i64)
        ensures
            n == self@.len(),
    {
        proof {
            use_type_invariant(self);
        }
        self.items.len() as i64
    }

    /// Whether the vector holds no element.
    pub fn is_empty(&self) -> (b: bool)
        ensures
            b <==> self@.len() == 0,
    {
        self.len() == 0
    }

    /// The element at `pos`.
    pub fn get(&self, pos: i64) -> (value: i64)
        requires
            0 <= pos < self@.len(),
        ensures
            value == self@[pos as int],
    {
        let n = self.items.len();
        assert(pos < n);
        self.items[pos as usize]
    }

    /// Replaces the element at `pos`.
    pub fn set(&mut self, pos: i64, value: i64)
        requires
            0 <= pos < old(self)@.len(),
        ensures
            final(self)@ == old(self)@.update(pos as int, value),
    {
        proof {
            use_type_invariant(&*self);
        }
        let n = self.items.len();
        assert(pos < n);
        self.items[pos as usize] = value;
    }

    /// The elements as a host sequence of their own.
    pub fn to_vec(&self) -> (v: Vec<i64>)
        ensures
            v@ == self@,
    {
        copy_ints(&self.items)
    }
}

/// A vector of reals.
pub struct Vector {
    items: Vec<Real>,
}

impl View for Vector {
    type V = Seq<Real>;

    closed spec fn view(&self) -> Seq<Real> {
        self.items@
    }
}

impl Vector {
    #[verifier::type_invariant]
    spec fn bounded(self) -> bool {
        self.items@.len() <= i64::MAX
    }

    /// The empty vector.
    pub fn new() -> (r: Result<Self>)
        ensures
            r is Ok,
            r->Ok_0@ == Seq::<Real>::empty(),
    {
        Ok(Vector { items: Vec::new() })
    }

    /// The vector of `n` zeros.
    ///
    /// Fails with `NoMemory` when this machine cannot address `n` elements.
    pub fn with_size(n: i64) -> (r: Result<Self>)
        requires
            0 <= n,
        ensures
            n <= usize::MAX ==> r is Ok && r->Ok_0@ == Seq::new(n as nat, |i: int| Real { bits: 0 }),
            n > usize::MAX ==> r is Err && r->Err_0 == Error::NoMemory,
    {
        if n as u64 > usize::MAX as u64 {
            return Err(Error::NoMemory);
        }
        let mut items: Vec<Real> = Vec::new();
        let mut i: i64 = 0;
        while i < n
            invariant
                0 <= i <= n,
                items@ == Seq::new(i as nat, |k: int| Real { bits: 0 }),
            decreases n - i,
        {
            items.push(Real::zero());
            i += 1;
        }
        Ok(Vector { items })
    }

    /// The vector that holds the elements of `data`, in order.
    ///
    /// Fails with `NoMemory` when `data` has more elements than the engine
    /// can count.
    pub fn from_slice(data: &[Real]) -> (r: Result<Self>)
        ensures
            data@.len() <= i64::MAX ==> r is Ok && r->Ok_0@ == data@,
            data@.len() > i64::MAX ==> r is Err && r->Err_0 == Error::NoMemory,
    {
        if data.len() as u64 > i64::MAX as u64 {
            return Err(Error::NoMemory);
        }
        let mut items: Vec<Real> = Vec::new();
        let mut i: usize = 0;
        while i < data.len()
            invariant
                i <= data@.len(),
                items@ == data@.take(i as int),
            decreases data@.len() - i,
        {
            items.push(data[i]);
            i += 1;
        }
        Ok(Vector { items })
    }

    /// The vector of the `len` elements that `get` hands out for the
    /// positions from 0 on; empty when `len` is not positive.
    ///
    /// `get` is asked once for each position below `len`, in order, and for
    /// no other.  Fails with `NoMemory`, without asking, when this machine
    /// cannot address `len` elements.
    pub fn read<F: Fn(i64) -> Real>(len: i64, get: F) -> (r: Result<Self>)
        requires
            forall|pos: i64| 0 <= pos < len ==> call_requires(get, (pos,)),
        ensures
            len <= usize::MAX ==> r is Ok,
            len > usize::MAX ==> r is Err && r->Err_0 == Error::NoMemory,
            r is Ok ==> r->Ok_0@.len() == (if len > 0 {
                len as int
            } else {
                0
            }),
            r is Ok ==> forall|pos: i64|
                0 <= pos < len ==> call_ensures(get, (pos,), #[trigger] r->Ok_0@[pos as int]),
    {
        let count: i64 = if len > 0 {
            len
        } else {
            0
        };
        if count as u64 > usize::MAX as u64 {
            return Err(Error::NoMemory);
        }
        let mut items: Vec<Real> = Vec::new();
        let mut pos: i64 = 0;
        while pos < count
            invariant
                0 <= pos <= count <= usize::MAX,
                count <= len || count == 0,
                items@.len() == pos,
                forall|k: i64| 0 <= k < len ==> call_requires(get, (k,)),
                forall|k: i64| 0 <= k < pos ==> call_ensures(get, (k,), #[trigger] items@[k as int]),
            decreases count - pos,
        {
            let value = get(pos);
            items.push(value);
            pos += 1;
        }
        Ok(Vector { items })
    }

    /// Number of elements.
    pub fn len(&self) -> (n: i64)
        ensures
            n == self@.len(),
    {
        proof {
            use_type_invariant(self);
        }
        self.items.len() as i64
    }

    /// Whether the vector holds no element.
    pub fn is_empty(&self) -> (b: bool)
        ensures
            b <==> self@.len() == 0,
    {
        self.len() == 0
    }

    /// The element at `pos`.
    pub fn get(&self, pos: i64) -> (value: Real)
        requires
            0 <= pos < self@.len(),
        ensures
            value == self@[pos as int],
    {
        let n = self.items.len();
        assert(pos < n);
        self.items[pos as usize]
    }

    /// Replaces the element at `pos`.
    pub fn set(&mut self, pos: i64, value: Real)
        requires
            0 <= pos < old(self)@.len(),
        ensures
            final(self)@ == old(self)@.update(pos as int, value),
    {
        proof {
            use_type_invariant(&*self);
        }
        let n = self.items.len();
        assert(pos < n);
        self.items[pos as usize] = value;
    }

    /// The elements as a host sequence of their own.
    pub fn to_vec(&self) -> (v: Vec<Real>)
        ensures
            v@ == self@,
    {
        let mut v: Vec<Real> = Vec::new();
        let mut i: usize = 0;
        while i < self.items.len()
            invariant
                i <= self.items@.len(),
                v@ == self.items@.take(i as int),
            decreases self.items@.len() - i,
        {
            v.push(self.items[i]);
            i += 1;
        }
        v
    }
}

/// Whether a vector has the length that the engine reports as `size`: that
/// many elements, or none if `size` is not positive.
pub open spec fn holds(size: i64, vector: Seq<i64>) -> bool {
    vector.len() == (if size > 0 {
        size as int
    } else {
        0
    })
}

/// Whether `vector` has the length that `size` reports for the vector at
/// position `i` of a list.
pub open spec fn sized_by<S: Fn(i64) -> i64>(size: S, i: i64, vector: Seq<i64>) -> bool {
    exists|n: i64| call_ensures(size, (i,), n) && holds(n, vector)
}

/// A list of integer vectors.
pub struct VectorIntList {
    items: Vec<Vec<i64>>,
}

impl View for VectorIntList {
    type V = Seq<Seq<i64>>;

    closed spec fn view(&self) -> Seq<Seq<i64>> {
        Seq::new(self.items@.len(), |i: int| self.items@[i]@)
    }
}

impl VectorIntList {
    #[verifier::type_invariant]
    spec fn bounded(self) -> bool {
        self.items@.len() <= i64::MAX
    }

    /// The empty list.
    pub fn new() -> (r: Result<Self>)
        ensures
            r is Ok,
            r->Ok_0@ == Seq::<Seq<i64>>::empty(),
    {
        let list = VectorIntList { items: Vec::new() };
        assert(list@ =~= Seq::<Seq<i64>>::empty());
        Ok(list)
    }

    /// The list of the `len` vectors that `size` and `get` describe: vector
    /// `i` has the `size(i)` elements that `get(i, _)` hands out for the
    /// positions from 0 on.  Empty when `len` is not positive, and so is a
    /// vector whose size is not.
    ///
    /// Fails with `NoMemory` when this machine cannot address that many
    /// vectors, or that many elements in one of them.
    pub fn read<S: Fn(i64) -> i64, F: Fn(i64, i64) -> i64>(len: i64, size: S, get: F) -> (r: Result<
        Self,
    >)
        requires
            forall|i: i64| 0 <= i < len ==> call_requires(size, (i,)),
            forall|i: i64, n: i64, pos: i64|
                0 <= i < len && call_ensures(size, (i,), n) && 0 <= pos < n ==> call_requires(
                    get,
                    (i, pos),
                ),
        ensures
            len > usize::MAX ==> r is Err,
            r is Err ==> r->Err_0 == Error::NoMemory,
            r is Err ==> len > usize::MAX || exists|i: i64, n: i64|
                0 <= i < len && call_ensures(size, (i,), n) && n > usize::MAX,
            r is Ok ==> r->Ok_0@.len() == (if len > 0 {
                len as int
            } else {
                0
            }),
            r is Ok ==> forall|i: i64|
                0 <= i < len ==> #[trigger] sized_by(size, i, r->Ok_0@[i as int]),
            r is Ok ==> forall|i: i64, pos: i64|
                0 <= i < len && 0 <= pos < r->Ok_0@[i as int].len() ==> call_ensures(
                    get,
                    (i, pos),
                    #[trigger] r->Ok_0@[i as int][pos as int],
                ),
    {
        let count: i64 = if len > 0 {
            len
        } else {
            0
        };
        if count as u64 > usize::MAX as u64 {
            return Err(Error::NoMemory);
        }
        let mut items: Vec<Vec<i64>> = Vec::new();
        let mut i: i64 = 0;
        while i < count
            invariant
                0 <= i <= count <= usize::MAX,
                count <= len || count == 0,
                items@.len() == i,
                forall|k: i64| 0 <= k < len ==> call_requires(size, (k,)),
                forall|k: i64, n: i64, pos: i64|
                    0 <= k < len && call_ensures(size, (k,), n) && 0 <= pos < n ==> call_requires(
                        get,
                        (k, pos),
                    ),
                forall|k: i64| 0 <= k < i ==> #[trigger] sized_by(size, k, items@[k as int]@),
                forall|k: i64, pos: i64|
                    0 <= k < i && 0 <= pos < items@[k as int]@.len() ==> call_ensures(
                        get,
                        (k, pos),
                        #[trigger] items@[k as int]@[pos as int],
                    ),
            decreases count - i,
        {
            let n = size(i);
            let wanted: i64 = if n > 0 {
                n
            } else {
                0
            };
            if wanted as u64 > usize::MAX as u64 {
                return Err(Error::NoMemory);
            }
            let mut vector: Vec<i64> = Vec::new();
            let mut pos: i64 = 0;
            while pos < wanted
                invariant
                    0 <= pos <= wanted <= usize::MAX,
                    0 <= i < len,
                    vector@.len() == pos,
                    forall|p: i64| 0 <= p < wanted ==> call_requires(get, (i, p)),
                    forall|p: i64|
                        0 <= p < pos ==> call_ensures(get, (i, p), #[trigger] vector@[p as int]),
                decreases wanted - pos,
            {
                let value = get(i, pos);
                vector.push(value);
                pos += 1;
            }
            let ghost before = items@;
            items.push(vector);
            proof {
                assert forall|k: i64| 0 <= k < i + 1 implies #[trigger] sized_by(
                    size,
                    k,
                    items@[k as int]@,
                ) by {
                    if k < i {
                        assert(items@[k as int] == before[k as int]);
                        assert(sized_by(size, k, before[k as int]@));
                    } else {
                        assert(call_ensures(size, (k,), n) && holds(n, items@[k as int]@));
                    }
                }
                assert forall|k: i64, p: i64|
                    0 <= k < i + 1 && 0 <= p < items@[k as int]@.len() implies call_ensures(
                    get,
                    (k, p),
                    #[trigger] items@[k as int]@[p as int],
                ) by {
                    if k < i {
                        assert(items@[k as int] == before[k as int]);
                    }
                }
            }
            i += 1;
        }
        let list = VectorIntList { items };
        proof {
            assert forall|k: i64| 0 <= k < len implies #[trigger] sized_by(
                size,
                k,
                list@[k as int],
            ) by {
                assert(list@[k as int] == items@[k as int]@);
                assert(sized_by(size, k, items@[k as int]@));
            }
        }
        Ok(list)
    }

    /// Number of vectors in the list.
    pub fn len(&self) -> (n: i64)
        ensures
            n == self@.len(),
    {
        proof {
            use_type_invariant(self);
        }
        self.items.len() as i64
    }

    /// Whether the list holds no vector.
    pub fn is_empty(&self) -> (b: bool)
        ensures
            b <==> self@.len() == 0,
    {
        self.len() == 0
    }

    /// The vector at `pos`, as a host sequence of its own.
    pub fn get(&self, pos: i64) -> (v: Vec<i64>)
        requires
            0 <= pos < self@.len(),
        ensures
            v@ == self@[pos as int],
    {
        let n = self.items.len();
        assert(pos < n);
        copy_ints(&self.items[pos as usize])
    }

    /// Every vector of the list, in order, as host sequences of their own.
    pub fn to_vec_of_vecs(&self) -> (v: Vec<Vec<i64>>)
        ensures
            v@.len() == self@.len(),
            forall|i: int| 0 <= i < v@.len() ==> (#[trigger] v@[i])@ == self@[i],
    {
        let n = self.len();
        let mut v: Vec<Vec<i64>> = Vec::new();
        let mut i: i64 = 0;
        while i < n
            invariant
                0 <= i <= n,
                n == self@.len(),
                v@.len() == i,
                forall|k: int| 0 <= k < i ==> (#[trigger] v@[k])@ == self@[k],
            decreases n - i,
        {
            let item = self.get(i);
            v.push(item);
            i += 1;
        }
        v
    }
}

/// An integer vector that is built from a sequence and then converted back
/// gives the sequence again: as long, with every element in its place.  This
/// holds of the empty sequence too.
pub proof fn lemma_int_round_trip(data: Seq<i64>, built: VectorInt, back: Vec<i64>)
    requires
        built@ == data,
        back@ == built@,
    ensures
        back@ == data,
        back@.len() == data.len(),
        forall|i: int| 0 <= i < data.len() ==> back@[i] == data[i],
{
}

/// A real vector that is built from a sequence and then converted back gives
/// the sequence again, bit for bit.  This holds of the empty sequence too.
pub proof fn lemma_real_round_trip(data: Seq<Real>, built: Vector, back: Vec<Real>)
    requires
        built@ == data,
        back@ == built@,
    ensures
        back@ == data,
        back@.len() == data.len(),
        forall|i: int| 0 <= i < data.len() ==> back@[i].bits == data[i].bits,
{
}

} // verus!
