//! The growable device buffer.
//!
//! A `BufVec<T>` mirrors one device storage buffer on the host: an ordered
//! host mirror of elements, a staging byte buffer through which uploads and
//! read-backs travel, and the device byte buffer itself. Both byte buffers
//! are always sized to exactly `capacity * byte_len` bytes, capacity only
//! ever grows, and a read of more elements than the reserved capacity is a
//! capacity-planning bug that the contracts rule out instead of reaching
//! the device.
//!
//! The byte codec is the one of `BufElement`: elements in order, each in
//! its fixed little-endian layout, so a write followed by a read of the
//! same count gives the original elements back bit for bit.

use vstd::prelude::*;

use crate::element::BufElement;
use vstd::arithmetic::mul::lemma_mul_inequality;

verus! {

/// The serialized form of a sequence of elements: each element's bytes, in
/// element order.
pub open spec fn encode_seq<T: BufElement>(s: Seq<T>) -> Seq<u8>
    decreases s.len(),
{
    if s.len() == 0 {
        Seq::empty()
    } else {
        encode_seq(s.drop_last()) + s.last().to_bytes()
    }
}

/// The first `n` elements decoded from a byte buffer.
pub open spec fn decode_n<T: BufElement>(b: Seq<u8>, n: nat) -> Seq<T>
    decreases n,
{
    if n == 0 {
        Seq::empty()
    } else {
        decode_n(b, (n - 1) as nat).push(
            T::of_bytes(
                b.subrange((n - 1) * T::byte_len() as int, n as int * T::byte_len() as int),
            ),
        )
    }
}

/// Encoding `n` elements yields exactly `n * byte_len` bytes.
pub proof fn lemma_encode_seq_len<T: BufElement>(s: Seq<T>)
    ensures
        encode_seq(s).len() == s.len() * T::byte_len(),
    decreases s.len(),
{
    if s.len() == 0 {
    } else {
        lemma_encode_seq_len::<T>(s.drop_last());
        s.last().lemma_codec();
        assert((s.len() - 1) * T::byte_len() + T::byte_len() == s.len() * T::byte_len())
            by (nonlinear_arith);
    }
}

/// Decoding `n` elements yields exactly `n` elements.
pub proof fn lemma_decode_n_len<T: BufElement>(b: Seq<u8>, n: nat)
    ensures
        decode_n::<T>(b, n).len() == n,
    decreases n,
{
    if n > 0 {
        lemma_decode_n_len::<T>(b, (n - 1) as nat);
    }
}

/// Round trip: decoding `s.len()` elements from a byte buffer that starts
/// with the encoding of `s` gives `s` back, whatever follows the encoding.
pub proof fn lemma_decode_encode<T: BufElement>(s: Seq<T>, b: Seq<u8>)
    requires
        s.len() * T::byte_len() <= b.len(),
        b.subrange(0, (s.len() * T::byte_len()) as int) == encode_seq(s),
    ensures
        decode_n::<T>(b, s.len()) == s,
    decreases s.len(),
{
    if s.len() == 0 {
        assert(decode_n::<T>(b, 0) =~= s);
    } else {
        let n = s.len();
        let len = T::byte_len();
        let front = s.drop_last();
        lemma_encode_seq_len::<T>(front);
        lemma_encode_seq_len::<T>(s);
        s.last().lemma_codec();
        assert((n - 1) * len <= n * len && (n - 1) * len + len == n * len) by (nonlinear_arith);
        assert(b.subrange(0, ((n - 1) * len) as int) =~= encode_seq(front)) by {
            assert(encode_seq(s).subrange(0, ((n - 1) * len) as int) =~= encode_seq(front));
        }
        lemma_decode_encode::<T>(front, b);
        assert(b.subrange(((n - 1) * len) as int, (n * len) as int) =~= s.last().to_bytes()) by {
            assert(encode_seq(s).subrange(((n - 1) * len) as int, (n * len) as int)
                =~= s.last().to_bytes());
        }
        assert(decode_n::<T>(b, n) =~= s);
    }
}

/// A fresh zero-filled byte buffer standing in for newly allocated
/// host-visible staging memory of `size` bytes. Whether the buffer is
/// mapped for reading or written through a queue only selects the device
/// API's usage flags; it does not change the bytes.
pub fn create_staging_buffer(_read_only: bool, size: usize) -> (b: Vec<u8>)
    ensures
        b@.len() == size,
        forall|i: int| 0 <= i < size ==> b@[i] == 0u8,
{
    zeroed_bytes(size)
}

/// A fresh zero-filled byte buffer standing in for newly allocated
/// device-local storage memory of `size` bytes.
pub fn create_buffer(_read_only: bool, size: usize) -> (b: Vec<u8>)
    ensures
        b@.len() == size,
        forall|i: int| 0 <= i < size ==> b@[i] == 0u8,
{
    zeroed_bytes(size)
}

fn zeroed_bytes(size: usize) -> (b: Vec<u8>)
    ensures
        b@.len() == size,
        forall|i: int| 0 <= i < size ==> b@[i] == 0u8,
{
    let mut b: Vec<u8> = Vec::new();
    let mut k: usize = 0;
    while k < size
        invariant
            k <= size,
            b@.len() == k,
            forall|i: int| 0 <= i < k ==> b@[i] == 0u8,
        decreases size - k,
    {
        b.push(0);
        k = k + 1;
    }
    b
}

/// A host-mirrored device buffer of fixed-layout elements.
pub struct BufVec<T: BufElement> {
    read_only: bool,
    buffer_capacity: usize,
    values: Vec<T>,
    staging_buffer: Vec<u8>,
    buffer: Vec<u8>,
    mapped: bool,
}

impl<T: BufElement> BufVec<T> {
    /// The host mirror, as a sequence.
    pub closed spec fn view(self) -> Seq<T> {
        self.values@
    }

    /// The reserved element capacity.
    pub closed spec fn spec_capacity(self) -> nat {
        self.buffer_capacity as nat
    }

    /// The staging buffer's bytes.
    pub closed spec fn staging_bytes(self) -> Seq<u8> {
        self.staging_buffer@
    }

    /// The device buffer's bytes.
    pub closed spec fn device_bytes(self) -> Seq<u8> {
        self.buffer@
    }

    /// Whether the staging buffer is currently mapped for host reading.
    pub closed spec fn is_mapped(self) -> bool {
        self.mapped
    }

    /// Staging and device buffers both hold exactly one capacity's worth
    /// of element bytes.
    pub open spec fn wf(self) -> bool {
        &&& self.staging_bytes().len() == self.spec_capacity() * T::byte_len()
        &&& self.device_bytes().len() == self.spec_capacity() * T::byte_len()
    }

    /// Allocates a buffer for `capacity` elements, with an empty host
    /// mirror and zeroed staging and device memory.
    pub fn with_capacity(read_only: bool, capacity: usize) -> (b: Self)
        requires
            capacity * T::byte_len() <= usize::MAX,
        ensures
            b.wf(),
            b@ == Seq::<T>::empty(),
            b.spec_capacity() == capacity,
            !b.is_mapped(),
            b.staging_bytes() =~= Seq::new((capacity * T::byte_len()) as nat, |i: int| 0u8),
            b.device_bytes() =~= Seq::new((capacity * T::byte_len()) as nat, |i: int| 0u8),
    {
        let size = capacity * T::byte_size();
        BufVec {
            read_only,
            buffer_capacity: capacity,
            values: Vec::new(),
            staging_buffer: create_staging_buffer(read_only, size),
            buffer: create_buffer(read_only, size),
            mapped: false,
        }
    }

    /// The device buffer's contents.
    pub fn buffer(&self) -> (b: &Vec<u8>)
        ensures
            b@ == self.device_bytes(),
    {
        &self.buffer
    }

    /// The reserved element capacity.
    pub fn capacity(&self) -> (c: usize)
        ensures
            c == self.spec_capacity(),
    {
        self.buffer_capacity
    }

    /// Elements currently in the host mirror.
    pub fn len(&self) -> (n: usize)
        ensures
            n == self@.len(),
    {
        self.values.len()
    }

    /// Whether the host mirror is empty.
    pub fn is_empty(&self) -> (e: bool)
        ensures
            e == (self@.len() == 0),
    {
        self.values.is_empty()
    }

    /// Appends `value` to the host mirror only — device memory is not
    /// touched — and returns its index.
    pub fn push(&mut self, value: T) -> (index: usize)
        ensures
            final(self)@ == old(self)@.push(value),
            index == old(self)@.len(),
            final(self).spec_capacity() == old(self).spec_capacity(),
            final(self).staging_bytes() == old(self).staging_bytes(),
            final(self).device_bytes() == old(self).device_bytes(),
            final(self).is_mapped() == old(self).is_mapped(),
            final(self).wf() == old(self).wf(),
    {
        let index = self.values.len();
        self.values.push(value);
        index
    }

    /// Empties the host mirror; device memory is not touched.
    pub fn clear(&mut self)
        ensures
            final(self)@ == Seq::<T>::empty(),
            final(self).spec_capacity() == old(self).spec_capacity(),
            final(self).staging_bytes() == old(self).staging_bytes(),
            final(self).device_bytes() == old(self).device_bytes(),
            final(self).is_mapped() == old(self).is_mapped(),
            final(self).wf() == old(self).wf(),
    {
        self.values.clear();
    }

    /// The host mirror's elements.
    pub fn as_slice(&self) -> (s: &[T])
        ensures
            s@ == self@,
    {
        self.values.as_slice()
    }

    /// Grows the reserved capacity to at least `capacity` elements,
    /// reallocating zeroed staging and device memory; whatever the device
    /// held is not preserved across the reallocation, so callers re-upload
    /// after growth. Capacity never shrinks. The host mirror is untouched.
    pub fn reserve(&mut self, capacity: usize)
        requires
            capacity * T::byte_len() <= usize::MAX,
            !old(self).is_mapped(),
        ensures
            final(self)@ == old(self)@,
            final(self).is_mapped() == old(self).is_mapped(),
            capacity <= old(self).spec_capacity() ==> *final(self) == *old(self),
            capacity > old(self).spec_capacity() ==> {
                &&& final(self).spec_capacity() == capacity
                &&& final(self).wf()
                &&& final(self).staging_bytes() =~= Seq::new(
                    (capacity * T::byte_len()) as nat,
                    |i: int| 0u8,
                )
                &&& final(self).device_bytes() =~= Seq::new(
                    (capacity * T::byte_len()) as nat,
                    |i: int| 0u8,
                )
            },
    {
        if capacity > self.buffer_capacity {
            let size = capacity * T::byte_size();
            self.staging_buffer = create_staging_buffer(self.read_only, size);
            self.buffer = create_buffer(self.read_only, size);
            self.buffer_capacity = capacity;
            proof {
                assert(self.staging_buffer@ =~= Seq::new(
                    (capacity * T::byte_len()) as nat,
                    |i: int| 0u8,
                ));
                assert(self.buffer@ =~= Seq::new((capacity * T::byte_len()) as nat, |i: int| 0u8));
            }
        }
    }

    /// Serializes the host mirror into the staging buffer, then copies the
    /// same bytes on into the device buffer. A no-op when the host mirror
    /// is empty. Bytes past the encoded prefix keep their old contents.
    pub fn encode_write(&mut self)
        requires
            old(self).wf(),
            old(self)@.len() <= old(self).spec_capacity(),
            !old(self).is_mapped(),
        ensures
            final(self).wf(),
            final(self)@ == old(self)@,
            final(self).spec_capacity() == old(self).spec_capacity(),
            final(self).is_mapped() == old(self).is_mapped(),
            old(self)@.len() == 0 ==> *final(self) == *old(self),
            old(self)@.len() > 0 ==> {
                &&& final(self).staging_bytes() =~= encode_seq(old(self)@) + old(
                    self,
                ).staging_bytes().skip((old(self)@.len() * T::byte_len()) as int)
                &&& final(self).device_bytes() =~= encode_seq(old(self)@) + old(
                    self,
                ).device_bytes().skip((old(self)@.len() * T::byte_len()) as int)
            },
    {
        if self.values.is_empty() {
            return ;
        }
        proof {
            lemma_mul_inequality(
                self@.len() as int,
                self.spec_capacity() as int,
                T::byte_len() as int,
            );
        }
        let bytes = encode_elements(&self.values);
        copy_prefix(&mut self.staging_buffer, &bytes);
        copy_prefix(&mut self.buffer, &bytes);
    }

    /// Copies the first `len` elements' bytes from the device buffer back
    /// into the staging buffer, readying a host read. Reading more than the
    /// reserved capacity is a capacity-planning error and is ruled out.
    pub fn encode_read(&mut self, len: usize)
        requires
            old(self).wf(),
            len <= old(self).spec_capacity(),
            !old(self).is_mapped(),
        ensures
            final(self).wf(),
            final(self)@ == old(self)@,
            final(self).spec_capacity() == old(self).spec_capacity(),
            final(self).is_mapped() == old(self).is_mapped(),
            final(self).device_bytes() == old(self).device_bytes(),
            final(self).staging_bytes() =~= old(self).device_bytes().take(
                (len * T::byte_len()) as int,
            ) + old(self).staging_bytes().skip((len * T::byte_len()) as int),
    {
        proof {
            lemma_mul_inequality(len as int, self.spec_capacity() as int, T::byte_len() as int);
        }
        let total = self.staging_buffer.len();
        let count = len * T::byte_size();
        let ghost dev = self.buffer@;
        let mut j: usize = 0;
        while j < count
            invariant
                j <= count,
                count <= self.staging_buffer@.len(),
                count <= dev.len(),
                self.buffer@ == dev,
                self.staging_buffer@.len() == old(self).staging_buffer@.len(),
                self.buffer_capacity == old(self).buffer_capacity,
                self.values == old(self).values,
                self.read_only == old(self).read_only,
                self.mapped == old(self).mapped,
                forall|i: int| 0 <= i < j ==> self.staging_buffer@[i] == dev[i],
                forall|i: int| j <= i < self.staging_buffer@.len() ==> self.staging_buffer@[i]
                    == old(self).staging_buffer@[i],
            decreases count - j,
        {
            let b = self.buffer[j];
            self.staging_buffer[j] = b;
            j = j + 1;
        }
    }

    /// Requests that the staging buffer become host-visible and sizes the
    /// host mirror for `len` elements, keeping what it already held and
    /// filling any growth with the fill element. The mapping counts as
    /// valid only after the device has gone idle; in this synchronous
    /// model that wait is part of the call.
    pub fn map_buffer(&mut self, len: usize)
        requires
            !old(self).is_mapped(),
        ensures
            final(self).is_mapped(),
            final(self)@.len() == len,
            final(self)@ == old(self)@.take(vstd::math::min(len as int, old(self)@.len() as int))
                + Seq::new(
                (len as nat - vstd::math::min(len as int, old(self)@.len() as int)) as nat,
                |i: int| T::fill_value(),
            ),
            final(self).spec_capacity() == old(self).spec_capacity(),
            final(self).staging_bytes() == old(self).staging_bytes(),
            final(self).device_bytes() == old(self).device_bytes(),
            final(self).wf() == old(self).wf(),
    {
        self.values.truncate(len);
        while self.values.len() < len
            invariant
                self.values@.len() <= len,
                self.values@ == old(self).values@.take(
                    vstd::math::min(len as int, old(self).values@.len() as int),
                ) + Seq::new(
                    (self.values@.len() - vstd::math::min(
                        len as int,
                        old(self).values@.len() as int,
                    )) as nat,
                    |i: int| T::fill_value(),
                ),
                self.buffer_capacity == old(self).buffer_capacity,
                self.staging_buffer == old(self).staging_buffer,
                self.buffer == old(self).buffer,
                self.read_only == old(self).read_only,
                self.mapped == old(self).mapped,
            decreases len - self.values@.len(),
        {
            self.values.push(T::filler());
            proof {
                assert(self.values@ =~= old(self).values@.take(
                    vstd::math::min(len as int, old(self).values@.len() as int),
                ) + Seq::new(
                    (self.values@.len() - vstd::math::min(
                        len as int,
                        old(self).values@.len() as int,
                    )) as nat,
                    |i: int| T::fill_value(),
                ));
            }
        }
        self.mapped = true;
        proof {
            assert(self.values@ =~= old(self).values@.take(
                vstd::math::min(len as int, old(self).values@.len() as int),
            ) + Seq::new(
                (len as nat - vstd::math::min(len as int, old(self).values@.len() as int)) as nat,
                |i: int| T::fill_value(),
            ));
        }
    }

    /// The host mirror.
    pub fn values(&self) -> (v: &Vec<T>)
        ensures
            v@ == self@,
    {
        &self.values
    }

    /// What a device-side writer (a kernel filling this buffer, or a
    /// queued copy out of another buffer) leaves in the device buffer:
    /// the serialized elements, bytes past them unchanged. The host mirror
    /// and the staging buffer are not involved.
    pub fn device_store(&mut self, data: &Vec<T>)
        requires
            old(self).wf(),
            data@.len() <= old(self).spec_capacity(),
            !old(self).is_mapped(),
        ensures
            final(self).wf(),
            final(self)@ == old(self)@,
            final(self).spec_capacity() == old(self).spec_capacity(),
            final(self).is_mapped() == old(self).is_mapped(),
            final(self).staging_bytes() == old(self).staging_bytes(),
            final(self).device_bytes() =~= encode_seq(data@) + old(self).device_bytes().skip(
                (data@.len() * T::byte_len()) as int,
            ),
    {
        proof {
            lemma_mul_inequality(
                data@.len() as int,
                self.spec_capacity() as int,
                T::byte_len() as int,
            );
        }
        let bytes = encode_elements(data);
        copy_prefix(&mut self.buffer, &bytes);
    }

    /// A queued device-side copy of `src` into the front of this buffer's
    /// device memory.
    pub fn copy_to_buffer(&mut self, src: &Vec<u8>)
        requires
            old(self).wf(),
            src@.len() <= old(self).spec_capacity() * T::byte_len(),
            !old(self).is_mapped(),
        ensures
            final(self).wf(),
            final(self)@ == old(self)@,
            final(self).spec_capacity() == old(self).spec_capacity(),
            final(self).is_mapped() == old(self).is_mapped(),
            final(self).staging_bytes() == old(self).staging_bytes(),
            final(self).device_bytes() =~= src@ + old(self).device_bytes().skip(src@.len() as int),
    {
        copy_prefix(&mut self.buffer, src);
    }

    /// Reads `len` elements out of the mapped staging bytes into the host
    /// mirror — the byte-to-element reinterpretation — then releases the
    /// mapping.
    pub fn read_and_unmap_buffer(&mut self, len: usize)
        requires
            old(self).wf(),
            old(self).is_mapped(),
            len <= old(self).spec_capacity(),
        ensures
            final(self).wf(),
            !final(self).is_mapped(),
            final(self)@ == decode_n::<T>(old(self).staging_bytes(), len as nat),
            final(self)@.len() == len,
            final(self).spec_capacity() == old(self).spec_capacity(),
            final(self).staging_bytes() == old(self).staging_bytes(),
            final(self).device_bytes() == old(self).device_bytes(),
    {
        proof {
            lemma_mul_inequality(len as int, self.spec_capacity() as int, T::byte_len() as int);
            lemma_decode_n_len::<T>(self.staging_buffer@, len as nat);
        }
        self.values.clear();
        let total = self.staging_buffer.len();
        let elem_size = T::byte_size();
        let mut i: usize = 0;
        let mut off: usize = 0;
        while i < len
            invariant
                i <= len,
                off == i * T::byte_len(),
                total == self.staging_buffer@.len(),
                len * T::byte_len() <= self.staging_buffer@.len(),
                self.values@ == decode_n::<T>(self.staging_buffer@, i as nat),
                self.values@.len() == i,
                elem_size == T::byte_len(),
                self.staging_buffer == old(self).staging_buffer,
                self.buffer == old(self).buffer,
                self.buffer_capacity == old(self).buffer_capacity,
                self.read_only == old(self).read_only,
                self.mapped == old(self).mapped,
            decreases len - i,
        {
            proof {
                assert((i + 1) * T::byte_len() <= len * T::byte_len() && i * T::byte_len()
                    + T::byte_len() == (i + 1) * T::byte_len()) by (nonlinear_arith)
                    requires
                        i < len,
                ;
            }
            let v = T::parse_from(&self.staging_buffer, off);
            self.values.push(v);
            i = i + 1;
            off = off + elem_size;
        }
        self.mapped = false;
    }
}

/// Reads the first `n` elements out of a byte buffer: what a kernel bound
/// to that buffer sees.
pub fn parse_elements<T: BufElement>(b: &Vec<u8>, n: usize) -> (r: Vec<T>)
    requires
        n * T::byte_len() <= b@.len(),
    ensures
        r@ == decode_n::<T>(b@, n as nat),
        r@.len() == n,
{
    proof {
        lemma_decode_n_len::<T>(b@, n as nat);
    }
    let total = b.len();
    let elem_size = T::byte_size();
    let mut r: Vec<T> = Vec::new();
    let mut i: usize = 0;
    let mut off: usize = 0;
    while i < n
        invariant
            i <= n,
            off == i * T::byte_len(),
            total == b@.len(),
            n * T::byte_len() <= b@.len(),
            elem_size == T::byte_len(),
            r@ == decode_n::<T>(b@, i as nat),
            r@.len() == i,
        decreases n - i,
    {
        proof {
            assert((i + 1) * T::byte_len() <= n * T::byte_len() && i * T::byte_len()
                + T::byte_len() == (i + 1) * T::byte_len()) by (nonlinear_arith)
                requires
                    i < n,
            ;
        }
        let v = T::parse_from(b, off);
        r.push(v);
        i = i + 1;
        off = off + elem_size;
    }
    r
}

/// Serializes every element of `values`, in order.
pub fn encode_elements<T: BufElement>(values: &Vec<T>) -> (bytes: Vec<u8>)
    ensures
        bytes@ == encode_seq(values@),
        bytes@.len() == values@.len() * T::byte_len(),
{
    let mut bytes: Vec<u8> = Vec::new();
    let mut i: usize = 0;
    while i < values.len()
        invariant
            i <= values@.len(),
            bytes@ == encode_seq(values@.take(i as int)),
        decreases values@.len() - i,
    {
        let v = values[i];
        v.append_to(&mut bytes);
        proof {
            assert(values@.take(i + 1).drop_last() =~= values@.take(i as int));
            assert(values@.take(i + 1).last() == values@[i as int]);
        }
        i = i + 1;
    }
    proof {
        assert(values@.take(values@.len() as int) =~= values@);
        lemma_encode_seq_len::<T>(values@);
    }
    bytes
}

/// Overwrites the first `src.len()` bytes of `dst` with `src`, leaving the
/// rest of `dst` unchanged.
pub(crate) fn copy_prefix(dst: &mut Vec<u8>, src: &Vec<u8>)
    requires
        src@.len() <= old(dst)@.len(),
    ensures
        final(dst)@ =~= src@ + old(dst)@.skip(src@.len() as int),
{
    let count = src.len();
    let mut j: usize = 0;
    while j < count
        invariant
            j <= count,
            count == src@.len(),
            count <= dst@.len(),
            dst@.len() == old(dst)@.len(),
            forall|i: int| 0 <= i < j ==> dst@[i] == src@[i],
            forall|i: int| j <= i < dst@.len() ==> dst@[i] == old(dst)@[i],
        decreases count - j,
    {
        let b = src[j];
        dst[j] = b;
        j = j + 1;
    }
}

} // verus!
