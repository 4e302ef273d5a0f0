//! Attribute templates as a PKCS#11 caller hands them in: a list of
//! attribute slots, each with a type, an optional value buffer (absent where
//! the caller passed a null pointer) and a length field (`ulValueLen`).
use vstd::prelude::*;

verus! {

/// Why a value could not be written into a slot.
#[derive(Debug, Clone, Copy, PartialEq, Eq, Structural)]
pub enum Error {
    /// The slot's buffer holds fewer bytes than the value.
    BufTooSmall,
    /// The slot has no buffer (a null `pValue`).
    NullPtrDeref,
}

/// One slot of a template (a `CK_ATTRIBUTE`).
#[derive(Debug)]
pub struct CkRawAttr {
    type_: u64,
    value: Option<Vec<u8>>,
    len: u64,
}

/// What a slot holds: its type, its buffer and its length field.
pub struct RawAttrView {
    pub attr_type: u64,
    pub value: Option<Seq<u8>>,
    pub len: u64,
}

impl RawAttrView {
    /// The number of bytes the slot can take: its length field, bounded by
    /// the size of its buffer (zero without a buffer).
    pub open spec fn capacity(self) -> nat {
        match self.value {
            Some(b) => if self.len <= b.len() { self.len as nat } else { b.len() },
            None => 0,
        }
    }

    /// The bytes that the slot offers as its value: the first `capacity`
    /// bytes of its buffer, or none without a buffer.
    pub open spec fn offered(self) -> Option<Seq<u8>> {
        match self.value {
            Some(b) => Some(b.take(self.capacity() as int)),
            None => None,
        }
    }
}

impl View for CkRawAttr {
    type V = RawAttrView;

    closed spec fn view(&self) -> RawAttrView {
        RawAttrView {
            attr_type: self.type_,
            value: match &self.value {
                Some(b) => Some(b@),
                None => None,
            },
            len: self.len,
        }
    }
}

impl CkRawAttr {
    /// A slot of type `type_` with buffer `value` and length field `len`.
    pub fn new(type_: u64, value: Option<Vec<u8>>, len: u64) -> (r: CkRawAttr)
        ensures
            r@.attr_type == type_,
            r@.len == len,
            r@.value == (match value {
                Some(b) => Some(b@),
                None => None::<Seq<u8>>,
            }),
    {
        CkRawAttr { type_, value, len }
    }

    /// The attribute type that the slot asks for.
    pub fn type_(&self) -> (r: u64)
        ensures
            r == self@.attr_type,
    {
        self.type_
    }

    /// The slot's length field.
    pub fn len(&self) -> (r: u64)
        ensures
            r == self@.len,
    {
        self.len
    }

    /// Sets the slot's length field.
    pub fn set_len(&mut self, len: u64)
        ensures
            final(self)@ == (RawAttrView { len, ..old(self)@ }),
    {
        self.len = len;
    }

    /// The slot's whole buffer, if it has one.
    pub fn buffer(&self) -> (r: Option<&[u8]>)
        ensures
            match r {
                Some(b) => self@.value == Some(b@),
                None => self@.value is None,
            },
    {
        match &self.value {
            Some(b) => Some(b.as_slice()),
            None => None,
        }
    }

    /// The bytes the slot offers as its value.
    pub fn val_bytes(&self) -> (r: Option<&[u8]>)
        ensures
            match r {
                Some(b) => self@.offered() == Some(b@),
                None => self@.offered() is None,
            },
    {
        match &self.value {
            Some(b) => {
                let n: usize = if (self.len as u128) <= (b.len() as u128) {
                    self.len as usize
                } else {
                    b.len()
                };
                let s = b.as_slice();
                Some(&s[0..n])
            },
            None => None,
        }
    }

    /// Writes `src` at the start of the slot's buffer.
    ///
    /// Fails with `NullPtrDeref` without a buffer, and with `BufTooSmall`
    /// where the slot cannot take `src`; the slot is then unchanged.
    pub fn set_val_bytes(&mut self, src: &[u8]) -> (r: Result<(), Error>)
        ensures
            old(self)@.value is None ==> r == Err::<(), Error>(Error::NullPtrDeref)
                && final(self)@ == old(self)@,
            old(self)@.value is Some && old(self)@.capacity() < src@.len() ==> r == Err::<(), Error>(
                Error::BufTooSmall,
            ) && final(self)@ == old(self)@,
            old(self)@.value is Some && src@.len() <= old(self)@.capacity() ==> r is Ok
                && final(self)@ == (RawAttrView {
                    value: Some(src@ + old(self)@.value.unwrap().skip(src@.len() as int)),
                    ..old(self)@
                }),
    {
        let len = self.len;
        match &mut self.value {
            None => Err(Error::NullPtrDeref),
            Some(buf) => {
                let cap: usize = if (len as u128) <= (buf.len() as u128) {
                    len as usize
                } else {
                    buf.len()
                };
                if cap < src.len() {
                    return Err(Error::BufTooSmall);
                }
                let ghost old_buf = buf@;
                let n = src.len();
                let mut i: usize = 0;
                while i < n
                    invariant
                        0 <= i <= n,
                        n == src@.len(),
                        n <= old_buf.len(),
                        buf@.len() == old_buf.len(),
                        buf@ =~= src@.take(i as int) + old_buf.skip(i as int),
                    decreases n - i,
                {
                    buf.set(i, src[i]);
                    i = i + 1;
                }
                assert(buf@ =~= src@ + old_buf.skip(n as int));
                Ok(())
            },
        }
    }
}

/// A template: the slots of one `C_GetAttributeValue` or `C_FindObjectsInit`
/// call, in order.
#[derive(Debug)]
pub struct CkRawAttrTemplate {
    attrs: Vec<CkRawAttr>,
}

impl View for CkRawAttrTemplate {
    type V = Seq<RawAttrView>;

    closed spec fn view(&self) -> Seq<RawAttrView> {
        self.attrs@.map_values(|a: CkRawAttr| a@)
    }
}

impl CkRawAttrTemplate {
    /// The template made of `attrs`, in order.
    pub fn new(attrs: Vec<CkRawAttr>) -> (r: CkRawAttrTemplate)
        ensures
            r@ == attrs@.map_values(|a: CkRawAttr| a@),
    {
        CkRawAttrTemplate { attrs }
    }

    /// The number of slots.
    pub fn len(&self) -> (r: usize)
        ensures
            r == self@.len(),
    {
        self.attrs.len()
    }

    /// The slot at index `i`.
    pub fn get(&self, i: usize) -> (r: &CkRawAttr)
        requires
            i < self@.len(),
        ensures
            r@ == self@[i as int],
    {
        &self.attrs[i]
    }

    /// Sets the length field of the slot at index `i`.
    pub fn set_len(&mut self, i: usize, len: u64)
        requires
            i < old(self)@.len(),
        ensures
            final(self)@ == old(self)@.update(i as int, RawAttrView { len, ..old(self)@[i as int] }),
    {
        self.attrs[i].set_len(len);
        assert(final(self)@ =~= old(self)@.update(i as int, RawAttrView { len, ..old(self)@[i as int] }));
    }

    /// Writes `src` into the slot at index `i`, as `CkRawAttr::set_val_bytes`.
    pub fn set_val_bytes(&mut self, i: usize, src: &[u8]) -> (r: Result<(), Error>)
        requires
            i < old(self)@.len(),
        ensures
            ({
                let a = old(self)@[i as int];
                &&& a.value is None ==> r == Err::<(), Error>(Error::NullPtrDeref) && final(self)@ == old(self)@
                &&& a.value is Some && a.capacity() < src@.len() ==> r == Err::<(), Error>(Error::BufTooSmall)
                    && final(self)@ == old(self)@
                &&& a.value is Some && src@.len() <= a.capacity() ==> r is Ok && final(self)@ == old(self)@.update(
                    i as int,
                    RawAttrView { value: Some(src@ + a.value.unwrap().skip(src@.len() as int)), ..a },
                )
            }),
    {
        let r = self.attrs[i].set_val_bytes(src);
        assert(final(self)@ =~= old(self)@ || final(self)@ =~= old(self)@.update(i as int, final(self)@[i as int]));
        r
    }

    /// The slots, in order.
    pub fn into_attrs(self) -> (r: Vec<CkRawAttr>)
        ensures
            r@.map_values(|a: CkRawAttr| a@) == self@,
    {
        self.attrs
    }
}

} // verus!
