//! Stack functions and data structures
//!
//! A stack is a run of bytes inside a region that the caller lends to it.
//! It grows from `bottom` towards `top_sentinel`, one byte a push.
//!
//! The functions whose names begin with `basino_` are the primitives: they
//! work on a stack that may be absent and answer with a result code. The
//! methods of `StackImpl` call them for a stack that is there and turn the
//! code into a `Result`.
//!
//! In the contracts of the primitives, the stack `s` that is taken out of
//! the `Option` stands for the stack as it was when the call was made, and
//! `final(s)` for the stack as the call leaves it. Each contract also says
//! that the region stays the one that the stack was bound to: the bytes that
//! the caller finds in it when the stack is done with it.
use vstd::prelude::*;

use crate::error::{Error, ErrorKind};
use crate::{ArrayHandle, Stack, RESULT_FAILURE, RESULT_NULL_POINTER, RESULT_OK};

verus! {

/// What a stack is, as mathematics: the bytes of its region and its three
/// cursors, each an index into the region.
pub struct StackState {
    /// The bytes of the region
    pub data: Seq<u8>,
    /// One past the last slot
    pub top_sentinel: int,
    /// The first slot
    pub bottom: int,
    /// The next free slot
    pub top: int,
}

impl StackState {
    /// The stack has at least one slot, its slots lie inside the region, and
    /// the top lies between the bottom and the sentinel.
    pub open spec fn wf(self) -> bool {
        &&& 0 <= self.bottom < self.top_sentinel <= self.data.len()
        &&& self.bottom <= self.top <= self.top_sentinel
    }

    /// The number of bytes the stack can hold.
    pub open spec fn capacity(self) -> int {
        self.top_sentinel - self.bottom
    }

    /// The bytes on the stack, the oldest first.
    pub open spec fn contents(self) -> Seq<u8> {
        self.data.subrange(self.bottom, self.top)
    }

    /// No slot is occupied.
    pub open spec fn is_empty(self) -> bool {
        self.top == self.bottom
    }

    /// No slot is free.
    pub open spec fn is_full(self) -> bool {
        self.top == self.top_sentinel
    }

    /// The stack after it was bound to the slots from `bottom` up to, not
    /// including, `top`: empty. Bounds that leave no slot change nothing.
    pub open spec fn init(self, top: int, bottom: int) -> StackState {
        if bottom >= top {
            self
        } else {
            StackState { data: self.data, top_sentinel: top, bottom: bottom, top: bottom }
        }
    }

    /// The stack after a push of `value`: a full stack stays as it is.
    pub open spec fn push(self, value: u8) -> StackState {
        if self.is_full() {
            self
        } else {
            StackState { data: self.data.update(self.top, value), top: self.top + 1, ..self }
        }
    }

    /// The byte that a pop hands out: the one below the top.
    pub open spec fn popped(self) -> u8 {
        self.data[self.top - 1]
    }

    /// The stack after a pop: an empty stack stays as it is.
    pub open spec fn pop(self) -> StackState {
        if self.is_empty() {
            self
        } else {
            StackState { top: self.top - 1, ..self }
        }
    }

    /// Each of `values`, pushed in turn, finds a free slot.
    pub open spec fn accepts(self, values: Seq<u8>) -> bool
        decreases values.len(),
    {
        values.len() == 0 || (!self.is_full() && self.push(values[0]).accepts(values.drop_first()))
    }

    /// The stack after `values` were pushed in turn.
    pub open spec fn push_all(self, values: Seq<u8>) -> StackState
        decreases values.len(),
    {
        if values.len() == 0 {
            self
        } else {
            self.push(values[0]).push_all(values.drop_first())
        }
    }

    /// Each of `count` pops in a row finds a byte.
    pub open spec fn releases(self, count: nat) -> bool
        decreases count,
    {
        count == 0 || (!self.is_empty() && self.pop().releases((count - 1) as nat))
    }

    /// The bytes that `count` pops in a row hand out, in the order of the pops.
    pub open spec fn popped_all(self, count: nat) -> Seq<u8>
        decreases count,
    {
        if count == 0 {
            Seq::empty()
        } else {
            seq![self.popped()] + self.pop().popped_all((count - 1) as nat)
        }
    }

    /// The stack after `count` pops in a row.
    pub open spec fn pop_all(self, count: nat) -> StackState
        decreases count,
    {
        if count == 0 {
            self
        } else {
            self.pop().pop_all((count - 1) as nat)
        }
    }
}

/// A push onto a stack that is not full puts the value on top of its
/// contents, and a stack is full exactly when it holds as many bytes as it
/// has slots.
pub proof fn lemma_push(stack: StackState, value: u8)
    requires
        stack.wf(),
    ensures
        stack.push(value).wf(),
        stack.is_full() <==> stack.contents().len() == stack.capacity(),
        stack.contents().len() <= stack.capacity(),
        !stack.is_full() ==> stack.push(value).contents() == stack.contents().push(value),
{
    if !stack.is_full() {
        assert(stack.push(value).contents() =~= stack.contents().push(value));
    }
}

/// A pop from a stack that is not empty hands out the newest byte and keeps
/// the others in their order, and a stack is empty exactly when it holds no
/// byte.
pub proof fn lemma_pop(stack: StackState)
    requires
        stack.wf(),
    ensures
        stack.pop().wf(),
        stack.is_empty() <==> stack.contents().len() == 0,
        !stack.is_empty() ==> stack.popped() == stack.contents().last(),
        !stack.is_empty() ==> stack.pop().contents() == stack.contents().drop_last(),
{
    if !stack.is_empty() {
        assert(stack.pop().contents() =~= stack.contents().drop_last());
    }
}

/// A stack with room for them takes every one of `values`: they end up on
/// top of what it held, in the order of the pushes, and nothing else moves.
pub proof fn lemma_push_all(stack: StackState, values: Seq<u8>)
    requires
        stack.wf(),
        stack.contents().len() + values.len() <= stack.capacity(),
    ensures
        stack.accepts(values),
        stack.push_all(values).wf(),
        stack.push_all(values).contents() == stack.contents() + values,
        stack.push_all(values).capacity() == stack.capacity(),
        stack.push_all(values).bottom == stack.bottom,
    decreases values.len(),
{
    if values.len() > 0 {
        let next = stack.push(values[0]);
        lemma_push(stack, values[0]);
        lemma_push_all(next, values.drop_first());
        assert(next.contents() + values.drop_first() =~= stack.contents() + values);
    } else {
        assert(stack.contents() + values =~= stack.contents());
    }
}

/// A stack that holds at least `count` bytes hands out its top `count` bytes,
/// the newest first, and keeps the rest.
pub proof fn lemma_pop_all(stack: StackState, count: nat)
    requires
        stack.wf(),
        count <= stack.contents().len(),
    ensures
        stack.releases(count),
        stack.pop_all(count).wf(),
        stack.popped_all(count) == stack.contents().skip(stack.contents().len() - count).reverse(),
        stack.pop_all(count).contents() == stack.contents().take(stack.contents().len() - count),
        stack.pop_all(count).capacity() == stack.capacity(),
    decreases count,
{
    let held = stack.contents();
    let top_part = held.skip(held.len() - count);
    if count > 0 {
        let next = stack.pop();
        lemma_pop(stack);
        lemma_pop_all(next, (count - 1) as nat);
        let rest = next.contents().skip(next.contents().len() - (count - 1));
        assert(stack.popped_all(count) =~= top_part.reverse()) by {
            assert(top_part.reverse().len() == count);
            assert(rest.reverse().len() == count - 1);
            assert forall|i: int| 0 <= i < count implies stack.popped_all(count)[i]
                == top_part.reverse()[i] by {
                if i > 0 {
                    assert(rest.reverse()[i - 1] == rest[rest.len() - 1 - (i - 1)]);
                }
            }
        }
        assert(next.pop_all((count - 1) as nat).contents() =~= held.take(held.len() - count));
    } else {
        assert(top_part.reverse() =~= Seq::<u8>::empty());
        assert(stack.contents() =~= held.take(held.len() - count));
    }
}

/// A stack that was just bound to `capacity` slots takes exactly `capacity`
/// pushes: each of `values` is accepted and the stack is then full, so that
/// one more push is refused. The pops then hand the values back in the
/// reverse of the order in which they were pushed, and leave the stack empty,
/// so that one more pop is refused.
pub proof fn lemma_fill_and_drain(stack: StackState, top: int, bottom: int, values: Seq<u8>)
    requires
        0 <= bottom < top <= stack.data.len(),
        values.len() == top - bottom,
    ensures
        stack.init(top, bottom).accepts(values),
        stack.init(top, bottom).push_all(values).is_full(),
        stack.init(top, bottom).push_all(values).contents() == values,
        stack.init(top, bottom).push_all(values).releases(values.len()),
        stack.init(top, bottom).push_all(values).popped_all(values.len()) == values.reverse(),
        stack.init(top, bottom).push_all(values).pop_all(values.len()).is_empty(),
{
    let fresh = stack.init(top, bottom);
    assert(fresh.contents() =~= Seq::<u8>::empty());
    lemma_push_all(fresh, values);
    let full = fresh.push_all(values);
    assert(full.contents() =~= values);
    lemma_pop_all(full, values.len());
    assert(values.skip(0) =~= values);
    assert(full.pop_all(values.len()).contents().len() == 0);
}

/// Initialize the stack.
///
/// This binds the stack to the slots of its region from `bottom` up to, not
/// including, `top`, and empties it. The top is a top sentinel, it is one
/// above the last slot. Returns `RESULT_NULL_POINTER` for an absent stack and
/// `RESULT_FAILURE` where `top` is not greater than `bottom`; the stack is
/// then left as it was.
///
/// A `top` that is greater than `bottom` must lie inside the region or one
/// past its end.
pub fn basino_stack_init<'a>(stack: Option<&mut Stack<'a>>, top: usize, bottom: usize) -> (code: u8)
    requires
        stack matches Some(s) ==> (bottom < top ==> top <= s@.data.len()),
    ensures
        stack is None ==> code == RESULT_NULL_POINTER,
        stack matches Some(s) ==> code == (if bottom >= top { RESULT_FAILURE } else { RESULT_OK }),
        stack matches Some(s) ==> final(s)@ == s@.init(top as int, bottom as int),
        stack matches Some(s) ==> final(final(s).data)@ == final(s.data)@,
        stack matches Some(s) ==> (code == RESULT_OK ==> final(s)@.wf() && final(s)@.is_empty()
            && final(s)@.capacity() == top - bottom),
{
    match stack {
        None => RESULT_NULL_POINTER,
        Some(s) => {
            if bottom >= top {
                RESULT_FAILURE
            } else {
                s.top_sentinel = top;
                s.bottom = bottom;
                s.top = bottom;
                RESULT_OK
            }
        },
    }
}

/// Push a value onto the stack
///
/// Writes `value` into the slot at the top and moves the top up by one.
/// Returns `RESULT_NULL_POINTER` for an absent stack and `RESULT_FAILURE` for
/// a full one, which is left as it was.
///
/// The stack must be initialized.
pub fn basino_stack_push<'a>(stack: Option<&mut Stack<'a>>, value: u8) -> (code: u8)
    requires
        stack matches Some(s) ==> s@.wf(),
    ensures
        stack is None ==> code == RESULT_NULL_POINTER,
        stack matches Some(s) ==> code == (if s@.is_full() { RESULT_FAILURE } else { RESULT_OK }),
        stack matches Some(s) ==> final(s)@ == s@.push(value) && final(s)@.wf(),
        stack matches Some(s) ==> final(final(s).data)@ == final(s.data)@,
        stack matches Some(s) ==> (code == RESULT_OK ==> final(s)@.contents()
            == s@.contents().push(value)),
{
    match stack {
        None => RESULT_NULL_POINTER,
        Some(s) => {
            if s.top == s.top_sentinel {
                RESULT_FAILURE
            } else {
                let ghost before = s@;
                s.data[s.top] = value;
                s.top = s.top + 1;
                assert(s@.contents() =~= before.contents().push(value));
                RESULT_OK
            }
        },
    }
}

/// Pop a value from the stack
///
/// Moves the top down by one and returns the byte in that slot. The result
/// code goes to `result`: `RESULT_NULL_POINTER` for an absent stack,
/// `RESULT_FAILURE` for an empty one, which is left as it was. Where the code
/// is not `RESULT_OK` the value returned is 0.
///
/// The stack must be initialized.
pub fn basino_stack_pop<'a>(stack: Option<&mut Stack<'a>>, result: &mut u8) -> (value: u8)
    requires
        stack matches Some(s) ==> s@.wf(),
    ensures
        stack is None ==> *final(result) == RESULT_NULL_POINTER && value == 0,
        stack matches Some(s) ==> *final(result) == (if s@.is_empty() {
            RESULT_FAILURE
        } else {
            RESULT_OK
        }),
        stack matches Some(s) ==> value == (if s@.is_empty() { 0u8 } else { s@.popped() }),
        stack matches Some(s) ==> final(s)@ == s@.pop() && final(s)@.wf(),
        stack matches Some(s) ==> final(final(s).data)@ == final(s.data)@,
        stack matches Some(s) ==> (!s@.is_empty() ==> value == s@.contents().last()
            && final(s)@.contents() == s@.contents().drop_last()),
{
    match stack {
        None => {
            *result = RESULT_NULL_POINTER;
            0
        },
        Some(s) => {
            if s.top == s.bottom {
                *result = RESULT_FAILURE;
                0
            } else {
                let ghost before = s@;
                s.top = s.top - 1;
                *result = RESULT_OK;
                assert(s@.contents() =~= before.contents().drop_last());
                s.data[s.top]
            }
        },
    }
}

/// Get the bottom of the stack: the index of its first slot
pub fn basino_get_basino_stack_bottom<'a>(stack: &Stack<'a>) -> (bottom: usize)
    ensures
        bottom == stack@.bottom,
{
    stack.bottom
}

/// Get the top of the stack: the index of its next free slot
pub fn basino_get_basino_stack_top<'a>(stack: &Stack<'a>) -> (top: usize)
    ensures
        top == stack@.top,
{
    stack.top
}

/// Get the top sentinel of the stack: the index one above its last slot
pub fn basino_get_basino_stack_top_sentinel<'a>(stack: &Stack<'a>) -> (top_sentinel: usize)
    ensures
        top_sentinel == stack@.top_sentinel,
{
    stack.top_sentinel
}

/// What the result code of `basino_stack_init` means.
pub open spec fn init_outcome_of(code: u8) -> Result<(), Error> {
    if code == RESULT_OK {
        Ok(())
    } else if code == RESULT_NULL_POINTER {
        Err(Error { kind: ErrorKind::NullPointer })
    } else if code == RESULT_FAILURE {
        Err(Error { kind: ErrorKind::InvalidArguments })
    } else {
        Err(Error { kind: ErrorKind::Unknown })
    }
}

/// What the result code of `basino_stack_push` means.
pub open spec fn push_outcome_of(code: u8) -> Result<(), Error> {
    if code == RESULT_OK {
        Ok(())
    } else if code == RESULT_NULL_POINTER {
        Err(Error { kind: ErrorKind::NullPointer })
    } else if code == RESULT_FAILURE {
        Err(Error { kind: ErrorKind::StackOverflow })
    } else {
        Err(Error { kind: ErrorKind::Unknown })
    }
}

/// What the result code of `basino_stack_pop` means, for the value that came
/// with it.
pub open spec fn pop_outcome_of(code: u8, value: u8) -> Result<u8, Error> {
    if code == RESULT_OK {
        Ok(value)
    } else if code == RESULT_NULL_POINTER {
        Err(Error { kind: ErrorKind::NullPointer })
    } else if code == RESULT_FAILURE {
        Err(Error { kind: ErrorKind::StackUnderflow })
    } else {
        Err(Error { kind: ErrorKind::Unknown })
    }
}

/// Turn the result code of `basino_stack_init` into a result: 0 is success,
/// 1 an absent stack, 2 invalid arguments, anything else unknown.
pub fn init_outcome(code: u8) -> (outcome: Result<(), Error>)
    ensures
        outcome == init_outcome_of(code),
{
    match code {
        0 => Ok(()),
        1 => Err(Error::new(ErrorKind::NullPointer)),
        2 => Err(Error::new(ErrorKind::InvalidArguments)),
        _ => Err(Error::new(ErrorKind::Unknown)),
    }
}

/// Turn the result code of `basino_stack_push` into a result: 0 is success,
/// 1 an absent stack, 2 a stack overflow, anything else unknown.
pub fn push_outcome(code: u8) -> (outcome: Result<(), Error>)
    ensures
        outcome == push_outcome_of(code),
{
    match code {
        0 => Ok(()),
        1 => Err(Error::new(ErrorKind::NullPointer)),
        2 => Err(Error::new(ErrorKind::StackOverflow)),
        _ => Err(Error::new(ErrorKind::Unknown)),
    }
}

/// Turn the result code of `basino_stack_pop` into a result that holds the
/// popped value: 0 is success, 1 an absent stack, 2 a stack underflow,
/// anything else unknown.
pub fn pop_outcome(code: u8, value: u8) -> (outcome: Result<u8, Error>)
    ensures
        outcome == pop_outcome_of(code, value),
{
    match code {
        0 => Ok(value),
        1 => Err(Error::new(ErrorKind::NullPointer)),
        2 => Err(Error::new(ErrorKind::StackUnderflow)),
        _ => Err(Error::new(ErrorKind::Unknown)),
    }
}

/// Basic functions for a stack
pub trait StackImpl<'a>: Sized {
    /// What the stack is, as mathematics.
    spec fn state(&self) -> StackState;

    /// Create a new Stack in the first `len` bytes of `array`.
    ///
    /// The last of these bytes is kept free as padding at the top sentinel,
    /// so the stack holds `len - 1` bytes. It starts empty. A `len` under 2
    /// leaves no slot and is refused with `InvalidArguments`.
    ///
    /// `len` must not be greater than the length of `array`.
    #[allow(clippy::new_ret_no_self)]
    fn new(array: &'a mut [u8], len: usize) -> (stack: Result<Stack<'a>, Error>)
        requires
            len <= old(array)@.len(),
        ensures
            stack is Ok <==> len >= 2,
            stack matches Ok(s) ==> s@ == (StackState {
                data: old(array)@,
                top_sentinel: len - 1,
                bottom: 0,
                top: 0,
            }) && s@.wf() && s@.is_empty() && s@.capacity() == len - 1,
            stack matches Ok(s) ==> final(array)@ == final(s.data)@,
            stack matches Err(e) ==> e.kind == ErrorKind::InvalidArguments,
            stack is Err ==> final(array)@ == old(array)@,
    ;

    /// Create a new Stack from an ArrayHandle: in the first `handle.len`
    /// bytes of the handle's array.
    ///
    /// `handle.len` must not be greater than the length of the array.
    fn new_from_array_handle(handle: ArrayHandle<'a, u8>) -> (stack: Result<Stack<'a>, Error>)
        requires
            handle.len <= old(handle.ptr)@.len(),
        ensures
            stack is Ok <==> handle.len >= 2,
            stack matches Ok(s) ==> s@ == (StackState {
                data: old(handle.ptr)@,
                top_sentinel: handle.len - 1,
                bottom: 0,
                top: 0,
            }) && s@.wf() && s@.is_empty() && s@.capacity() == handle.len - 1,
            stack matches Ok(s) ==> final(handle.ptr)@ == final(s.data)@,
            stack matches Err(e) ==> e.kind == ErrorKind::InvalidArguments,
            stack is Err ==> final(handle.ptr)@ == old(handle.ptr)@,
    ;

    /// Pop a value from the stack.
    ///
    /// Returns the byte that was pushed last and frees its slot. An empty
    /// stack gives `StackUnderflow` and stays as it is.
    ///
    /// The stack must be initialized.
    fn pop(&mut self) -> (popped: Result<u8, Error>)
        requires
            old(self).state().wf(),
        ensures
            popped is Ok <==> !old(self).state().is_empty(),
            popped is Ok <==> old(self).state().contents().len() > 0,
            popped matches Ok(value) ==> value == old(self).state().contents().last()
                && final(self).state().contents() == old(self).state().contents().drop_last(),
            popped matches Err(e) ==> e.kind == ErrorKind::StackUnderflow,
            final(self).state() == old(self).state().pop(),
            final(self).state().wf(),
    ;

    /// Push a value onto the stack.
    ///
    /// The value goes on top of the stack. A full stack gives
    /// `StackOverflow` and stays as it is.
    ///
    /// The stack must be initialized.
    fn push(&mut self, value: u8) -> (pushed: Result<(), Error>)
        requires
            old(self).state().wf(),
        ensures
            pushed is Ok <==> !old(self).state().is_full(),
            pushed is Ok <==> old(self).state().contents().len() < old(self).state().capacity(),
            pushed is Ok ==> final(self).state().contents()
                == old(self).state().contents().push(value),
            pushed matches Err(e) ==> e.kind == ErrorKind::StackOverflow,
            final(self).state() == old(self).state().push(value),
            final(self).state().wf(),
    ;

    /// Get the size of the stack.
    /// The size is the number of elements
    /// the stack can hold, not the size of the array, nor the number of
    /// elements it holds now.
    ///
    /// The stack must be initialized.
    fn size(&mut self) -> (size: usize)
        requires
            old(self).state().wf(),
        ensures
            size == old(self).state().capacity(),
            final(self).state() == old(self).state(),
    ;
}

impl<'a> StackImpl<'a> for Stack<'a> {
    open spec fn state(&self) -> StackState {
        self@
    }

    fn new(array: &'a mut [u8], len: usize) -> (stack: Result<Stack<'a>, Error>) {
        if len == 0 {
            return Err(Error::new(ErrorKind::InvalidArguments));
        }
        let mut stack = Stack { data: array, top_sentinel: 0, bottom: 0, top: 0 };
        let code: u8 = basino_stack_init(Some(&mut stack), len - 1, 0);
        match init_outcome(code) {
            Ok(()) => Ok(stack),
            Err(e) => Err(e),
        }
    }

    fn new_from_array_handle(handle: ArrayHandle<'a, u8>) -> (stack: Result<Stack<'a>, Error>) {
        Stack::new(handle.ptr, handle.len)
    }

    fn pop(&mut self) -> (popped: Result<u8, Error>)
        ensures
            final(final(self).data)@ == final(old(self).data)@,
    {
        let mut result: u8 = 0;
        let res: u8 = basino_stack_pop(Some(self), &mut result);
        pop_outcome(result, res)
    }

    fn push(&mut self, value: u8) -> (pushed: Result<(), Error>)
        ensures
            final(final(self).data)@ == final(old(self).data)@,
    {
        let code: u8 = basino_stack_push(Some(self), value);
        push_outcome(code)
    }

    fn size(&mut self) -> (size: usize)
        ensures
            final(final(self).data)@ == final(old(self).data)@,
    {
        basino_get_basino_stack_top_sentinel(self) - basino_get_basino_stack_bottom(self)
    }
}

} // verus!
