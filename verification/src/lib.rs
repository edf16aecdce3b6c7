//! A crate to work with custom user stacks, queues and a Tiny BASIC
//! Interpretive Language machine over memory regions that the caller owns
use vstd::prelude::*;

/// Error data types
pub mod error;

/// Interpretive Language functions and data structures
pub mod il;

/// Queue functions and data structures
pub mod queue;

/// Stack functions and data structures
pub mod stack;

use crate::queue::QueueState;
use crate::stack::StackState;

verus! {

/// Result code of every primitive: the call succeeded.
pub const RESULT_OK: u8 = 0;

/// Result code of every primitive: the record to work on was absent.
pub const RESULT_NULL_POINTER: u8 = 1;

/// Result code of every primitive: the failure that belongs to the call
/// (invalid arguments, overflow, underflow, full, empty).
pub const RESULT_FAILURE: u8 = 2;

/// Add two 8-bit unsigned integers together
pub fn basino_add(a: u8, b: u8) -> (sum: u16)
    ensures
        sum == a + b,
{
    a as u16 + b as u16
}

/// Test whether a is greater than b
/// Returns one if a is greater than b
/// Return zero if it isn't
pub fn basino_gt(a: u16, b: u16) -> (greater: u8)
    ensures
        greater == (if a > b { 1u8 } else { 0u8 }),
{
    if a > b {
        1
    } else {
        0
    }
}

/// Test whether a is greater than or equal to b
/// Returns one if a is greater than or equal to b
/// Return zero if it isn't
pub fn basino_gt_eq(a: u16, b: u16) -> (greater_or_equal: u8)
    ensures
        greater_or_equal == (if a >= b { 1u8 } else { 0u8 }),
{
    if a >= b {
        1
    } else {
        0
    }
}

/// The word that opens the report of a test: `SUCCESS` where the test was
/// successful, `FAILURE` where it was a failure.
pub fn test_result_word(test_result: bool) -> (word: &'static str)
    ensures
        word@ == (if test_result { "SUCCESS"@ } else { "FAILURE"@ }),
{
    if test_result {
        "SUCCESS"
    } else {
        "FAILURE"
    }
}

/// A handle to an array to manage lifetimes and concurrency
pub struct ArrayHandle<'a, T> {
    /// The array
    pub ptr: &'a mut [T],
    /// Length of the array
    ///
    /// This is the number of elements the array can hold, not
    /// necessarily the number of bytes.
    pub len: usize,
}

impl<'a, T> ArrayHandle<'a, T> {
    /// Create a new ArrayHandle from an array and its length.
    ///
    /// `ptr` is an array of data of type T;
    /// `len` is the number of elements of type T that it is handed out for.
    pub fn new(ptr: &'a mut [T], len: usize) -> (handle: Self)
        ensures
            handle.ptr@ == old(ptr)@,
            handle.len == len,
            final(ptr)@ == final(handle.ptr)@,
    {
        ArrayHandle { ptr, len }
    }
}

/// The basic stack structure.  Stores the region that holds the stack and
/// the cursors into it.
///
/// The cursors are indices into `data`.  The top sentinel is one above the
/// last slot of the stack.
pub struct Stack<'a> {
    /// The region which holds the data
    pub data: &'a mut [u8],
    /// A sentinel to make comparisons against the top simpler
    pub top_sentinel: usize,
    /// The stack bottom
    pub bottom: usize,
    /// The stack top
    pub top: usize,
}

impl<'a> View for Stack<'a> {
    type V = StackState;

    open spec fn view(&self) -> StackState {
        StackState {
            data: self.data@,
            top_sentinel: self.top_sentinel as int,
            bottom: self.bottom as int,
            top: self.top as int,
        }
    }
}

impl<'a> Stack<'a> {
    /// Is the stack initialized: does it have a slot, do its slots lie
    /// inside its region, and does its top lie between its bottom and its
    /// sentinel? The functions that work on a stack ask for this.
    pub fn is_initialized(&self) -> (initialized: bool)
        ensures
            initialized == self@.wf(),
    {
        self.bottom < self.top_sentinel && self.top_sentinel <= self.data.len() && self.bottom
            <= self.top && self.top <= self.top_sentinel
    }
}

/// The Queue data structure
///
/// The cursors are indices into `queue`.
pub struct QueueObj<'a> {
    /// The region which holds the data
    pub queue: &'a mut [u8],
    /// The start of the queue: its first slot
    pub start: usize,
    /// The end of the queue: its last slot
    pub end: usize,
    /// The current head in the queue
    /// The head is the slot of the current item to be
    /// returned with a get operation.
    pub head: usize,
    /// The slot at which a cursor last went round to the start: the start
    /// itself while none has
    pub last_head: usize,
    /// The current tail of the queue
    /// The tail is the slot where the next item will
    /// be put.
    pub tail: usize,
}

impl<'a> View for QueueObj<'a> {
    type V = QueueState;

    open spec fn view(&self) -> QueueState {
        QueueState {
            data: self.queue@,
            start: self.start as int,
            end: self.end as int,
            head: self.head as int,
            last_head: self.last_head as int,
            tail: self.tail as int,
        }
    }
}

impl<'a> QueueObj<'a> {
    /// Is the queue initialized: do its slots lie inside its region, and
    /// does each cursor lie on a slot? The functions that work on a queue ask
    /// for this.
    pub fn is_initialized(&self) -> (initialized: bool)
        ensures
            initialized == self@.wf(),
    {
        self.start <= self.end && self.end < self.queue.len() && self.start <= self.head
            && self.head <= self.end && self.start <= self.tail && self.tail <= self.end
            && self.start <= self.last_head && self.last_head <= self.end
    }
}

/// Queue data structure with length field.
pub struct Queue<'a> {
    /// The actual queue object
    pub queue: QueueObj<'a>,
    /// Length of the queue: the number of its slots.
    pub queue_len: usize,
}

impl<'a> View for Queue<'a> {
    type V = QueueState;

    open spec fn view(&self) -> QueueState {
        self.queue@
    }
}

impl<'a> Queue<'a> {
    /// The queue object is well formed and `queue_len` counts its slots.
    pub open spec fn wf(&self) -> bool {
        self@.wf() && self.queue_len == self@.slots()
    }
}

} // verus!
