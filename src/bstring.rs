use vstd::prelude::*;
use vstd::string::StringSliceAdditionalSpecFns;
use vstd::pervasive::VecAdditionalExecFns;

verus! {

/// A byte string as the C library lays it out: a 32-bit length and that
/// many bytes.
pub struct BString {
    data: Vec<u8>,
}

impl View for BString {
    type V = Seq<u8>;

    closed spec fn view(&self) -> Seq<u8> {
        self.data@
    }
}

impl BString {
    /// The length fits the C library's 32-bit length field.
    pub closed spec fn wf(&self) -> bool {
        self.data@.len() <= u32::MAX
    }

    /// The byte string holding `bytes`.
    pub fn from_bytes(bytes: &[u8]) -> (r: BString)
        requires
            bytes@.len() <= u32::MAX,
        ensures
            r.wf(),
            r@ == bytes@,
    {
        let mut data: Vec<u8> = Vec::new();
        let mut i: usize = 0;
        while i < bytes.len()
            invariant
                i <= bytes@.len(),
                data@ == bytes@.take(i as int),
            decreases bytes@.len() - i,
        {
            data.push(bytes[i]);
            i = i + 1;
            proof {
                assert(data@ =~= bytes@.take(i as int));
            }
        }
        proof {
            assert(bytes@.take(i as int) =~= bytes@);
        }
        BString { data }
    }

    /// The length field.
    pub fn len(&self) -> (r: u32)
        requires
            self.wf(),
        ensures
            r == self@.len(),
    {
        self.data.len() as u32
    }

    /// The bytes.
    pub fn as_slice(&self) -> (r: &[u8])
        ensures
            r@ == self@,
    {
        self.data.as_slice()
    }
}

/// A string slice to be handed over as a [`BString`].
pub struct BStringStr<'a>(pub &'a str);

impl<'a> BStringStr<'a> {
    /// The byte string holding the slice's UTF-8 bytes. The C library keeps
    /// them NUL-terminated, so the slice holds no NUL.
    pub fn into_raw(self) -> (r: BString)
        requires
            self.0.spec_bytes().len() <= u32::MAX,
            !self.0.spec_bytes().contains(0u8),
        ensures
            r.wf(),
            r@ == self.0.spec_bytes(),
    {
        BString::from_bytes(self.0.as_bytes())
    }

    /// Releases a byte string made by [`BStringStr::into_raw`].
    pub fn free(b: BString) {
    }
}

/// A borrowed view of a byte string owned elsewhere; it never releases it.
pub struct BStringRef<'a> {
    inner: &'a BString,
}

impl<'a> BStringRef<'a> {
    pub closed spec fn spec_inner(&self) -> &'a BString {
        self.inner
    }

    pub fn from_raw(ptr: &'a BString) -> (r: Self)
        ensures
            r.spec_inner() == ptr,
    {
        BStringRef { inner: ptr }
    }

    /// The byte string borrowed.
    pub fn into_raw(self) -> (r: &'a BString)
        ensures
            r == self.spec_inner(),
    {
        self.inner
    }

    /// The bytes of the byte string.
    pub fn as_bytes(&self) -> (r: &[u8])
        ensures
            r@ == self.spec_inner()@,
    {
        self.inner.as_slice()
    }
}

/// A mutable borrowed view of a byte string owned elsewhere; it never
/// releases it, and never changes its length.
pub struct BStringRefMut<'a> {
    inner: &'a mut BString,
}

impl<'a> BStringRefMut<'a> {
    pub closed spec fn spec_bytes(&self) -> Seq<u8> {
        self.inner@
    }

    pub fn from_raw(ptr: &'a mut BString) -> (r: Self)
        ensures
            r.spec_bytes() == old(ptr)@,
    {
        BStringRefMut { inner: ptr }
    }

    /// The byte string borrowed.
    pub fn into_raw(self) -> (r: &'a mut BString)
        ensures
            r@ == self.spec_bytes(),
    {
        self.inner
    }

    /// The bytes of the byte string.
    pub fn as_bytes(&self) -> (r: &[u8])
        ensures
            r@ == self.spec_bytes(),
    {
        self.inner.as_slice()
    }

    /// Overwrites the front of the byte string with as much of `buf` as fits
    /// and returns how many bytes that was.
    pub fn write(&mut self, buf: &[u8]) -> (r: usize)
        ensures
            r == if buf@.len() < old(self).spec_bytes().len() {
                buf@.len()
            } else {
                old(self).spec_bytes().len()
            },
            final(self).spec_bytes() == buf@.take(r as int) + old(self).spec_bytes().skip(r as int),
    {
        let n: usize = if buf.len() < self.inner.data.len() {
            buf.len()
        } else {
            self.inner.data.len()
        };
        let ghost start = self.inner.data@;
        let mut i: usize = 0;
        while i < n
            invariant
                n <= buf@.len(),
                n <= start.len(),
                i <= n,
                self.inner.data@.len() == start.len(),
                self.inner.data@ == buf@.take(i as int) + start.skip(i as int),
            decreases n - i,
        {
            self.inner.data.set(i, buf[i]);
            i = i + 1;
            proof {
                assert(self.inner.data@ =~= buf@.take(i as int) + start.skip(i as int));
            }
        }
        n
    }
}

} // verus!
