//! A stack of bytes that never grows beyond the capacity it was made with.

use vstd::prelude::*;
use crate::bits::{u16_from_be, u16_of_be, u32_from_be, u32_of_be, u64_from_be, u64_of_be};

verus! {

/// The capacity of the stack that [`Stack::default`] makes.
pub const DEFAULT_STACK_CAPACITY: usize = 4095;

/// The error of an operation that would have left the stack with more bytes
/// than its capacity, or with fewer than none.
#[derive(Debug, Clone, Copy, Default, Hash, PartialEq, Eq, PartialOrd, Ord)]
pub struct StackOverflow;

impl StackOverflow {
    /// The text that describes the error.
    pub fn message(&self) -> (text: &'static str)
        ensures
            text@ == "Stack overflow"@,
    {
        "Stack overflow"
    }
}

/// A stack of bytes: bytes are pushed onto its top and popped from it, last
/// in, first out. It holds at most as many bytes as its capacity, which is
/// set when the stack is made and never changes.
pub struct Stack {
    vec: Vec<u8>,
    capacity: usize,
}

/// `n` zero bytes.
pub open spec fn zeros(n: nat) -> Seq<u8> {
    Seq::new(n, |i: int| 0u8)
}

/// The bytes on a stack of the given capacity after a byte was pushed: the
/// byte is on top if there was space left, and nothing has changed if there
/// was none.
pub open spec fn after_push(bytes: Seq<u8>, capacity: nat, byte: u8) -> Seq<u8> {
    if bytes.len() < capacity {
        bytes.push(byte)
    } else {
        bytes
    }
}

/// The bytes on a stack of the given capacity after `pushes` were pushed,
/// one byte after the other.
pub open spec fn after_pushes(bytes: Seq<u8>, capacity: nat, pushes: Seq<u8>) -> Seq<u8>
    decreases pushes.len(),
{
    if pushes.len() == 0 {
        bytes
    } else {
        after_push(after_pushes(bytes, capacity, pushes.drop_last()), capacity, pushes.last())
    }
}

/// A stack fills up and then takes no more. Of bytes pushed onto an empty
/// stack one after the other, those that fit are on the stack, in order, and
/// every later push finds the stack full and is rejected. So one byte more
/// than the capacity leaves exactly the capacity in use, the overflow being
/// that of the last push.
pub proof fn lemma_stack_fills_up(capacity: nat, pushes: Seq<u8>)
    ensures
        pushes.len() <= capacity ==> after_pushes(Seq::empty(), capacity, pushes) == pushes,
        pushes.len() > capacity ==> after_pushes(Seq::empty(), capacity, pushes) == pushes.take(
            capacity as int,
        ),
        pushes.len() == capacity + 1 ==> after_pushes(
            Seq::empty(),
            capacity,
            pushes.drop_last(),
        ).len() == capacity && after_pushes(Seq::empty(), capacity, pushes).len() == capacity,
    decreases pushes.len(),
{
    if pushes.len() > 0 {
        let earlier = pushes.drop_last();
        lemma_stack_fills_up(capacity, earlier);
        if pushes.len() <= capacity {
            assert(earlier.push(pushes.last()) =~= pushes);
        } else if pushes.len() == capacity + 1 {
            assert(earlier =~= pushes.take(capacity as int));
        } else {
            assert(earlier.take(capacity as int) =~= pushes.take(capacity as int));
        }
    }
}

impl Stack {
    #[verifier::type_invariant]
    spec fn within_capacity(self) -> bool {
        self.vec@.len() <= self.capacity
    }

    /// The bytes on the stack, the top last.
    pub closed spec fn view(&self) -> Seq<u8> {
        self.vec@
    }

    /// The most bytes that the stack can hold.
    pub closed spec fn capacity(&self) -> nat {
        self.capacity as nat
    }

    /// An empty stack that can hold `capacity` bytes.
    pub fn new(capacity: usize) -> (stack: Stack)
        ensures
            stack@ == Seq::<u8>::empty(),
            stack.capacity() == capacity,
    {
        Stack { vec: Vec::new(), capacity }
    }

    // A field under a type invariant may only be lent mutably to a call that
    // cannot unwind, so the bytes are swapped out, changed, and put back.
    fn take_bytes(&mut self) -> (bytes: Vec<u8>)
        ensures
            bytes@ == old(self)@,
            final(self)@ == Seq::<u8>::empty(),
            final(self).capacity() == old(self).capacity(),
    {
        let mut bytes: Vec<u8> = Vec::new();
        core::mem::swap(&mut self.vec, &mut bytes);
        bytes
    }

    fn put_bytes(&mut self, bytes: Vec<u8>)
        requires
            bytes@.len() <= old(self).capacity(),
        ensures
            final(self)@ == bytes@,
            final(self).capacity() == old(self).capacity(),
    {
        self.vec = bytes;
    }

    /// The capacity of the stack, in bytes.
    pub fn total_space(&self) -> (space: usize)
        ensures
            space == self.capacity(),
    {
        self.capacity
    }

    /// How many bytes are on the stack.
    pub fn used_space(&self) -> (space: usize)
        ensures
            space == self@.len(),
            space <= self.capacity(),
    {
        proof {
            use_type_invariant(self);
        }
        self.vec.len()
    }

    /// How many more bytes fit on the stack.
    pub fn space_left(&self) -> (space: usize)
        ensures
            space == self.capacity() - self@.len(),
    {
        proof {
            use_type_invariant(self);
        }
        self.capacity - self.vec.len()
    }

    /// The bytes on the stack, the top last.
    pub fn as_slice(&self) -> (bytes: &[u8])
        ensures
            bytes@ == self@,
            bytes@.len() <= self.capacity(),
    {
        proof {
            use_type_invariant(self);
        }
        self.vec.as_slice()
    }

    /// A copy of the bytes from index `start` up to index `end`, counted
    /// from the bottom of the stack, or `None` if the stack holds no such
    /// range.
    pub fn region(&self, start: usize, end: usize) -> (bytes: Option<Vec<u8>>)
        ensures
            bytes is Some <==> start <= end <= self@.len(),
            bytes matches Some(b) ==> b@ == self@.subrange(start as int, end as int),
    {
        if start > end || end > self.vec.len() {
            return None;
        }
        let mut bytes: Vec<u8> = Vec::new();
        let mut k: usize = start;
        while k < end
            invariant
                start <= k <= end <= self.vec@.len(),
                bytes@ == self.vec@.subrange(start as int, k as int),
            decreases end - k,
        {
            bytes.push(self.vec[k]);
            k += 1;
            assert(bytes@ =~= self.vec@.subrange(start as int, k as int));
        }
        Some(bytes)
    }

    /// Pushes a byte onto the stack, unless the stack is full: then nothing
    /// changes and the overflow is reported.
    pub fn push_byte(&mut self, byte: u8) -> (result: Result<(), StackOverflow>)
        ensures
            final(self).capacity() == old(self).capacity(),
            result is Ok <==> old(self)@.len() < old(self).capacity(),
            final(self)@ == after_push(old(self)@, old(self).capacity(), byte),
    {
        if self.space_left() == 0 {
            return Err(StackOverflow);
        }
        let mut bytes: Vec<u8> = self.take_bytes();
        bytes.push(byte);
        self.put_bytes(bytes);
        Ok(())
    }

    /// Pops the top byte off the stack. An empty stack gives `None` and
    /// stays as it is.
    pub fn pop_byte(&mut self) -> (byte: Option<u8>)
        ensures
            final(self).capacity() == old(self).capacity(),
            byte is Some <==> old(self)@.len() > 0,
            byte matches Some(b) ==> b == old(self)@.last() && final(self)@ == old(
                self,
            )@.drop_last(),
            byte is None ==> final(self)@ == old(self)@,
    {
        proof {
            use_type_invariant(&*self);
        }
        let mut bytes: Vec<u8> = self.take_bytes();
        let byte: Option<u8> = bytes.pop();
        self.put_bytes(bytes);
        byte
    }

    /// Pushes `bytes` onto the stack, the last of them ending on top. If
    /// they do not all fit, none is pushed and the overflow is reported.
    pub fn push_bytes(&mut self, bytes: &[u8]) -> (result: Result<(), StackOverflow>)
        ensures
            final(self).capacity() == old(self).capacity(),
            result is Ok <==> old(self)@.len() + bytes@.len() <= old(self).capacity(),
            result is Ok ==> final(self)@ == old(self)@ + bytes@,
            result is Err ==> final(self)@ == old(self)@,
    {
        if bytes.len() > self.space_left() {
            return Err(StackOverflow);
        }
        let mut own: Vec<u8> = self.take_bytes();
        let mut k: usize = 0;
        while k < bytes.len()
            invariant
                k <= bytes.len(),
                own@ == old(self)@ + bytes@.take(k as int),
            decreases bytes.len() - k,
        {
            own.push(bytes[k]);
            k += 1;
            assert(own@ =~= old(self)@ + bytes@.take(k as int));
        }
        assert(bytes@.take(k as int) =~= bytes@);
        self.put_bytes(own);
        Ok(())
    }

    /// Pushes `bytes` zero bytes onto the stack. If they do not all fit,
    /// none is pushed and the overflow is reported.
    pub fn allocate(&mut self, bytes: usize) -> (result: Result<(), StackOverflow>)
        ensures
            final(self).capacity() == old(self).capacity(),
            result is Ok <==> old(self)@.len() + bytes <= old(self).capacity(),
            result is Ok ==> final(self)@ == old(self)@ + zeros(bytes as nat),
            result is Err ==> final(self)@ == old(self)@,
    {
        if bytes > self.space_left() {
            return Err(StackOverflow);
        }
        let mut own: Vec<u8> = self.take_bytes();
        let mut k: usize = 0;
        while k < bytes
            invariant
                k <= bytes,
                own@ == old(self)@ + zeros(k as nat),
            decreases bytes - k,
        {
            own.push(0);
            k += 1;
            assert(own@ =~= old(self)@ + zeros(k as nat));
        }
        self.put_bytes(own);
        Ok(())
    }

    /// Pops `bytes` bytes off the stack. If the stack holds fewer, none is
    /// popped and the underflow is reported.
    pub fn dealloc(&mut self, bytes: usize) -> (result: Result<(), StackOverflow>)
        ensures
            final(self).capacity() == old(self).capacity(),
            result is Ok <==> bytes <= old(self)@.len(),
            result is Ok ==> final(self)@ == old(self)@.take(old(self)@.len() - bytes),
            result is Err ==> final(self)@ == old(self)@,
    {
        let len: usize = self.used_space();
        if bytes > len {
            return Err(StackOverflow);
        }
        let mut own: Vec<u8> = self.take_bytes();
        own.truncate(len - bytes);
        self.put_bytes(own);
        Ok(())
    }

    /// Pops a 16-bit big-endian value: its low byte is the top of the stack.
    /// A stack with fewer than two bytes gives `None` and stays as it is.
    pub fn pop_u16(&mut self) -> (value: Option<u16>)
        ensures
            final(self).capacity() == old(self).capacity(),
            value is Some <==> old(self)@.len() >= 2,
            value matches Some(v) ==> {
                let rest = old(self)@.len() - 2;
                &&& v == u16_from_be(old(self)@[rest], old(self)@[rest + 1])
                &&& final(self)@ == old(self)@.take(rest)
            },
            value is None ==> final(self)@ == old(self)@,
    {
        let len: usize = self.used_space();
        if len < 2 {
            return None;
        }
        let top: &[u8] = self.as_slice();
        let value: u16 = u16_of_be(top[len - 2], top[len - 1]);
        let popped: Result<(), StackOverflow> = self.dealloc(2);
        Some(value)
    }

    /// Pops a 32-bit big-endian value: its lowest byte is the top of the
    /// stack. A stack with fewer than four bytes gives `None` and stays as
    /// it is.
    pub fn pop_u32(&mut self) -> (value: Option<u32>)
        ensures
            final(self).capacity() == old(self).capacity(),
            value is Some <==> old(self)@.len() >= 4,
            value matches Some(v) ==> {
                let rest = old(self)@.len() - 4;
                &&& v == u32_from_be(
                    old(self)@[rest],
                    old(self)@[rest + 1],
                    old(self)@[rest + 2],
                    old(self)@[rest + 3],
                )
                &&& final(self)@ == old(self)@.take(rest)
            },
            value is None ==> final(self)@ == old(self)@,
    {
        let len: usize = self.used_space();
        if len < 4 {
            return None;
        }
        let top: &[u8] = self.as_slice();
        let value: u32 = u32_of_be(top[len - 4], top[len - 3], top[len - 2], top[len - 1]);
        let popped: Result<(), StackOverflow> = self.dealloc(4);
        Some(value)
    }

    /// Pops a 64-bit big-endian value: its lowest byte is the top of the
    /// stack. A stack with fewer than eight bytes gives `None` and stays as
    /// it is.
    pub fn pop_u64(&mut self) -> (value: Option<u64>)
        ensures
            final(self).capacity() == old(self).capacity(),
            value is Some <==> old(self)@.len() >= 8,
            value matches Some(v) ==> {
                let rest = old(self)@.len() - 8;
                &&& v == u64_from_be(old(self)@.skip(rest))
                &&& final(self)@ == old(self)@.take(rest)
            },
            value is None ==> final(self)@ == old(self)@,
    {
        let len: usize = self.used_space();
        if len < 8 {
            return None;
        }
        let top: &[u8] = self.as_slice();
        let bytes: [u8; 8] = [
            top[len - 8],
            top[len - 7],
            top[len - 6],
            top[len - 5],
            top[len - 4],
            top[len - 3],
            top[len - 2],
            top[len - 1],
        ];
        assert(bytes@ =~= self@.skip(len - 8));
        let value: u64 = u64_of_be(&bytes);
        let popped: Result<(), StackOverflow> = self.dealloc(8);
        Some(value)
    }
}

impl Default for Stack {
    /// An empty stack of the default capacity.
    fn default() -> (stack: Stack)
        ensures
            stack@ == Seq::<u8>::empty(),
            stack.capacity() == DEFAULT_STACK_CAPACITY,
    {
        Stack::new(DEFAULT_STACK_CAPACITY)
    }
}

impl Clone for Stack {
    /// A stack with the same bytes and the same capacity.
    fn clone(&self) -> (stack: Stack)
        ensures
            stack@ == self@,
            stack.capacity() == self.capacity(),
    {
        proof {
            use_type_invariant(self);
        }
        Stack { vec: self.vec.clone(), capacity: self.capacity }
    }
}

} // verus!
