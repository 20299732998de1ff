//! A string of bytes that can grow and shrink but never beyond the capacity
//! it was made with.

use vstd::prelude::*;

verus! {

/// The error of an operation that would have left the string with more
/// bytes than its capacity, or that named a byte the string does not hold.
#[derive(Debug, Clone, Copy, Default, PartialEq, Eq, PartialOrd, Ord, Hash)]
pub struct Overflow;

impl Overflow {
    /// The text that describes the error.
    pub fn message(&self) -> (text: &'static str)
        ensures
            text@ == "Overflow"@,
    {
        "Overflow"
    }
}

/// A string with a fixed capacity. It is meant to hold well-formed UTF-8;
/// that is left to whoever fills it and is not looked at here.
pub struct ConstantSizeString {
    vec: Vec<u8>,
    capacity: usize,
}

impl ConstantSizeString {
    #[verifier::type_invariant]
    spec fn within_capacity(self) -> bool {
        self.vec@.len() <= self.capacity
    }

    /// The bytes of the string.
    pub closed spec fn view(&self) -> Seq<u8> {
        self.vec@
    }

    /// The most bytes that the string can hold.
    pub closed spec fn capacity(&self) -> nat {
        self.capacity as nat
    }

    /// A string that holds the bytes of `vec` and can hold `capacity` bytes,
    /// or the overflow if `vec` is longer than that.
    pub fn new(vec: Vec<u8>, capacity: usize) -> (result: Result<Self, Overflow>)
        ensures
            result is Ok <==> vec@.len() <= capacity,
            result matches Ok(string) ==> string@ == vec@ && string.capacity() == capacity,
    {
        if vec.len() > capacity {
            Err(Overflow)
        } else {
            Ok(ConstantSizeString { vec, capacity })
        }
    }

    /// An empty string that can hold `capacity` bytes.
    pub fn with_capacity(capacity: usize) -> (string: Self)
        ensures
            string@ == Seq::<u8>::empty(),
            string.capacity() == capacity,
    {
        ConstantSizeString { vec: Vec::new(), capacity }
    }

    // A field under a type invariant may only be lent mutably to a call that
    // cannot unwind, so the bytes are swapped out, changed, and put back.
    fn take_bytes(&mut self) -> (bytes: Vec<u8>)
        ensures
            bytes@ == old(self)@,
            final(self)@ == Seq::<u8>::empty(),
            final(self).capacity() == old(self).capacity(),
    {
        let mut bytes: Vec<u8> = Vec::new();
        core::mem::swap(&mut self.vec, &mut bytes);
        bytes
    }

    fn put_bytes(&mut self, bytes: Vec<u8>)
        requires
            bytes@.len() <= old(self).capacity(),
        ensures
            final(self)@ == bytes@,
            final(self).capacity() == old(self).capacity(),
    {
        self.vec = bytes;
    }

    /// The capacity of the string, in bytes.
    pub fn total_space(&self) -> (space: usize)
        ensures
            space == self.capacity(),
    {
        self.capacity
    }

    /// Appends a byte, unless the string is full: then nothing changes and
    /// the overflow is reported.
    pub fn push_byte(&mut self, byte: u8) -> (result: Result<(), Overflow>)
        ensures
            final(self).capacity() == old(self).capacity(),
            result is Ok <==> old(self)@.len() < old(self).capacity(),
            result is Ok ==> final(self)@ == old(self)@.push(byte),
            result is Err ==> final(self)@ == old(self)@,
    {
        if self.vec.len() >= self.capacity {
            return Err(Overflow);
        }
        let mut bytes: Vec<u8> = self.take_bytes();
        bytes.push(byte);
        self.put_bytes(bytes);
        Ok(())
    }

    /// Appends `bytes`. If they do not all fit, none is appended and the
    /// overflow is reported.
    pub fn push_bytes(&mut self, bytes: &[u8]) -> (result: Result<(), Overflow>)
        ensures
            final(self).capacity() == old(self).capacity(),
            result is Ok <==> old(self)@.len() + bytes@.len() <= old(self).capacity(),
            result is Ok ==> final(self)@ == old(self)@ + bytes@,
            result is Err ==> final(self)@ == old(self)@,
    {
        proof {
            use_type_invariant(&*self);
        }
        if bytes.len() > self.capacity - self.vec.len() {
            return Err(Overflow);
        }
        let mut own: Vec<u8> = self.take_bytes();
        let mut k: usize = 0;
        while k < bytes.len()
            invariant
                k <= bytes.len(),
                own@ == old(self)@ + bytes@.take(k as int),
            decreases bytes.len() - k,
        {
            own.push(bytes[k]);
            k += 1;
            assert(own@ =~= old(self)@ + bytes@.take(k as int));
        }
        assert(bytes@.take(k as int) =~= bytes@);
        self.put_bytes(own);
        Ok(())
    }

    /// Removes the last byte and returns it. An empty string gives `None`
    /// and stays as it is.
    pub fn pop_byte(&mut self) -> (byte: Option<u8>)
        ensures
            final(self).capacity() == old(self).capacity(),
            byte is Some <==> old(self)@.len() > 0,
            byte matches Some(b) ==> b == old(self)@.last() && final(self)@ == old(
                self,
            )@.drop_last(),
            byte is None ==> final(self)@ == old(self)@,
    {
        proof {
            use_type_invariant(&*self);
        }
        let mut bytes: Vec<u8> = self.take_bytes();
        let byte: Option<u8> = bytes.pop();
        self.put_bytes(bytes);
        byte
    }

    /// Empties the string.
    pub fn clear(&mut self)
        ensures
            final(self).capacity() == old(self).capacity(),
            final(self)@ == Seq::<u8>::empty(),
    {
        let bytes: Vec<u8> = self.take_bytes();
    }

    /// The length of the string, in bytes.
    pub fn len(&self) -> (len: usize)
        ensures
            len == self@.len(),
            len <= self.capacity(),
    {
        proof {
            use_type_invariant(self);
        }
        self.vec.len()
    }

    /// Whether the string holds no byte.
    pub fn is_empty(&self) -> (empty: bool)
        ensures
            empty <==> self@.len() == 0,
    {
        self.vec.len() == 0
    }

    /// The byte at `index`, or `None` if the string is not that long.
    pub fn get(&self, index: usize) -> (byte: Option<u8>)
        ensures
            byte == if index < self@.len() {
                Some(self@[index as int])
            } else {
                None
            },
    {
        if index < self.vec.len() {
            Some(self.vec[index])
        } else {
            None
        }
    }

    /// Replaces the byte at `index` by `value`. If the string is not that
    /// long, nothing changes and the overflow is reported.
    pub fn set(&mut self, index: usize, value: u8) -> (result: Result<(), Overflow>)
        ensures
            final(self).capacity() == old(self).capacity(),
            result is Ok <==> index < old(self)@.len(),
            result is Ok ==> final(self)@ == old(self)@.update(index as int, value),
            result is Err ==> final(self)@ == old(self)@,
    {
        proof {
            use_type_invariant(&*self);
        }
        if index >= self.vec.len() {
            return Err(Overflow);
        }
        let mut bytes: Vec<u8> = self.take_bytes();
        bytes[index] = value;
        self.put_bytes(bytes);
        Ok(())
    }

    /// A copy of the bytes of the string.
    pub fn to_vec(&self) -> (bytes: Vec<u8>)
        ensures
            bytes@ == self@,
    {
        self.vec.clone()
    }

    /// The bytes of the string.
    pub fn as_slice(&self) -> (bytes: &[u8])
        ensures
            bytes@ == self@,
            bytes@.len() <= self.capacity(),
    {
        proof {
            use_type_invariant(self);
        }
        self.vec.as_slice()
    }
}

impl Default for ConstantSizeString {
    /// An empty string that can hold nothing.
    fn default() -> (string: Self)
        ensures
            string@ == Seq::<u8>::empty(),
            string.capacity() == 0,
    {
        ConstantSizeString::with_capacity(0)
    }
}

impl Clone for ConstantSizeString {
    /// A string with the same bytes and the same capacity.
    fn clone(&self) -> (string: Self)
        ensures
            string@ == self@,
            string.capacity() == self.capacity(),
    {
        proof {
            use_type_invariant(self);
        }
        ConstantSizeString { vec: self.vec.clone(), capacity: self.capacity }
    }
}

} // verus!
