//! Queue functions and data structures
//!
//! A queue is a ring of slots inside a region that the caller lends to it.
//! One slot always stays free, so that a full queue and an empty one can be
//! told apart by the cursors alone.
//!
//! The functions whose names begin with `basino_` are the primitives: they
//! work on a queue that may be absent and answer with a result code. The
//! methods of `QueueImpl` call them for a queue that is there and turn the
//! code into a `Result`.
//!
//! In the contracts of the primitives, the queue `q` that is taken out of
//! the `Option` stands for the queue as it was when the call was made, and
//! `final(q)` for the queue as the call leaves it. Each contract also says
//! that the region stays the one that the queue was bound to: the bytes that
//! the caller finds in it when the queue is done with it.
use vstd::prelude::*;

use crate::{Queue, QueueObj, RESULT_FAILURE, RESULT_NULL_POINTER, RESULT_OK};

verus! {

/// The kinds of errors that can occur working with queues
#[derive(Clone, Copy, Debug, PartialEq, Eq, Structural)]
pub enum ErrorKind {
    /// Queue is empty
    QueueEmpty,
    /// Queue is full
    QueueFull,
    /// An absent queue was passed in as a parameter
    NullPointer,
    /// Invalid arguments were passed into a function.
    /// Example includes trying to initialize a queue with the start
    /// greater than the end.
    InvalidArguments,
    /// An unknown error type
    Unknown,
}

impl ErrorKind {
    /// The text that describes this kind of error, as a sequence of characters.
    pub open spec fn message_text(self) -> Seq<char> {
        match self {
            ErrorKind::QueueEmpty => "The queue is empty"@,
            ErrorKind::QueueFull => "The queue is full"@,
            ErrorKind::NullPointer => "A null pointer was passed in as a parameter"@,
            ErrorKind::InvalidArguments => "Invalid arguments were passed in"@,
            ErrorKind::Unknown => "An unknown error occurred"@,
        }
    }

    /// The text that describes this kind of error.
    pub fn message(&self) -> (text: &'static str)
        ensures
            text@ == self.message_text(),
    {
        match self {
            ErrorKind::QueueEmpty => "The queue is empty",
            ErrorKind::QueueFull => "The queue is full",
            ErrorKind::NullPointer => "A null pointer was passed in as a parameter",
            ErrorKind::InvalidArguments => "Invalid arguments were passed in",
            ErrorKind::Unknown => "An unknown error occurred",
        }
    }
}

/// An error that can occur when working with a queue
#[derive(Clone, Copy, Debug, PartialEq, Eq, Structural)]
pub struct Error {
    /// The kind of the error that occurred, e.g. a full queue
    pub kind: ErrorKind,
}

impl Error {
    /// Create a new Error with a given ErrorKind variant
    pub fn new(kind: ErrorKind) -> (error: Error)
        ensures
            error.kind == kind,
    {
        Error { kind }
    }

    /// The text that describes this error: that of its kind.
    pub fn message(&self) -> (text: &'static str)
        ensures
            text@ == self.kind.message_text(),
    {
        self.kind.message()
    }
}

/// What a queue is, as mathematics: the bytes of its region and its
/// cursors, each an index into the region.
pub struct QueueState {
    /// The bytes of the region
    pub data: Seq<u8>,
    /// The first slot
    pub start: int,
    /// The last slot
    pub end: int,
    /// The slot of the next byte to hand out
    pub head: int,
    /// The slot at which a cursor last went round to the start
    pub last_head: int,
    /// The slot that takes the next byte
    pub tail: int,
}

impl QueueState {
    /// The slots lie inside the region and every cursor lies on a slot.
    pub open spec fn wf(self) -> bool {
        &&& 0 <= self.start <= self.end < self.data.len()
        &&& self.start <= self.head <= self.end
        &&& self.start <= self.tail <= self.end
        &&& self.start <= self.last_head <= self.end
    }

    /// The number of slots. One of them always stays free.
    pub open spec fn slots(self) -> int {
        self.end - self.start + 1
    }

    /// The slot that follows `slot` on the ring.
    pub open spec fn next(self, slot: int) -> int {
        if slot == self.end {
            self.start
        } else {
            slot + 1
        }
    }

    /// The slot that comes before `slot` on the ring.
    pub open spec fn previous(self, slot: int) -> int {
        if slot == self.start {
            self.end
        } else {
            slot - 1
        }
    }

    /// The bytes in the queue, the oldest first: those from the head up to
    /// the tail, going round from the end to the start where the tail lies
    /// below the head.
    pub open spec fn contents(self) -> Seq<u8> {
        if self.head <= self.tail {
            self.data.subrange(self.head, self.tail)
        } else {
            self.data.subrange(self.head, self.end + 1) + self.data.subrange(self.start, self.tail)
        }
    }

    /// No byte waits in the queue.
    pub open spec fn is_empty(self) -> bool {
        self.head == self.tail
    }

    /// One more byte would make the tail run into the head.
    pub open spec fn is_full(self) -> bool {
        self.next(self.tail) == self.head
    }

    /// The queue after it was bound to the slots from `start` to `end`, both
    /// included: empty. A start above the end changes nothing.
    pub open spec fn init(self, start: int, end: int) -> QueueState {
        if start > end {
            self
        } else {
            QueueState {
                data: self.data,
                start: start,
                end: end,
                head: start,
                last_head: start,
                tail: start,
            }
        }
    }

    /// The queue after `value` was put in: the byte stands in the slot at the
    /// tail and the tail has moved to the next slot. Where the tail went round
    /// from the end to the start, the last head marks the end. A full queue
    /// stays as it is.
    pub open spec fn put(self, value: u8) -> QueueState {
        if self.is_full() {
            self
        } else {
            QueueState {
                data: self.data.update(self.tail, value),
                tail: self.next(self.tail),
                last_head: if self.tail == self.end {
                    self.end
                } else {
                    self.last_head
                },
                ..self
            }
        }
    }

    /// The byte that a get hands out: the one at the head.
    pub open spec fn got(self) -> u8 {
        self.data[self.head]
    }

    /// The queue after a get: the head has moved to the next slot. Where the
    /// head went round from the end to the start, the last head marks the
    /// end. An empty queue stays as it is.
    pub open spec fn get(self) -> QueueState {
        if self.is_empty() {
            self
        } else {
            QueueState {
                head: self.next(self.head),
                last_head: if self.head == self.end {
                    self.end
                } else {
                    self.last_head
                },
                ..self
            }
        }
    }

    /// Each of `values`, put in turn, finds a free slot.
    pub open spec fn accepts(self, values: Seq<u8>) -> bool
        decreases values.len(),
    {
        values.len() == 0 || (!self.is_full() && self.put(values[0]).accepts(values.drop_first()))
    }

    /// The queue after `values` were put in turn.
    pub open spec fn put_all(self, values: Seq<u8>) -> QueueState
        decreases values.len(),
    {
        if values.len() == 0 {
            self
        } else {
            self.put(values[0]).put_all(values.drop_first())
        }
    }

    /// Each of `count` gets in a row finds a byte.
    pub open spec fn releases(self, count: nat) -> bool
        decreases count,
    {
        count == 0 || (!self.is_empty() && self.get().releases((count - 1) as nat))
    }

    /// The bytes that `count` gets in a row hand out, in the order of the gets.
    pub open spec fn got_all(self, count: nat) -> Seq<u8>
        decreases count,
    {
        if count == 0 {
            Seq::empty()
        } else {
            seq![self.got()] + self.get().got_all((count - 1) as nat)
        }
    }

    /// The queue after `count` gets in a row.
    pub open spec fn get_all(self, count: nat) -> QueueState
        decreases count,
    {
        if count == 0 {
            self
        } else {
            self.get().get_all((count - 1) as nat)
        }
    }

    /// The queue takes the whole of `values` and is then full, and hands the
    /// same bytes back in the same order and is then empty.
    pub open spec fn fills_and_drains(self, values: Seq<u8>) -> bool {
        &&& self.accepts(values)
        &&& self.put_all(values).is_full()
        &&& self.put_all(values).releases(values.len())
        &&& self.put_all(values).got_all(values.len()) == values
        &&& self.put_all(values).get_all(values.len()).is_empty()
    }

    /// The queue after it was filled with `values` and drained again.
    pub open spec fn fill_and_drain(self, values: Seq<u8>) -> QueueState {
        self.put_all(values).get_all(values.len())
    }

    /// The queue fills and drains with each of `rounds` in turn.
    pub open spec fn repeats(self, rounds: Seq<Seq<u8>>) -> bool
        decreases rounds.len(),
    {
        rounds.len() == 0 || (self.fills_and_drains(rounds[0]) && self.fill_and_drain(
            rounds[0],
        ).repeats(rounds.drop_first()))
    }
}

/// A put into a queue that is not full appends the value to its contents,
/// and a queue is full exactly when it holds one byte less than it has slots.
pub proof fn lemma_put(queue: QueueState, value: u8)
    requires
        queue.wf(),
    ensures
        queue.put(value).wf(),
        queue.is_full() <==> queue.contents().len() == queue.slots() - 1,
        queue.contents().len() <= queue.slots() - 1,
        !queue.is_full() ==> queue.put(value).contents() == queue.contents().push(value),
{
    if !queue.is_full() {
        assert(queue.put(value).contents() =~= queue.contents().push(value));
    }
}

/// A get from a queue that is not empty hands out the oldest byte and keeps
/// the others in their order, and a queue is empty exactly when it holds no
/// byte.
pub proof fn lemma_get(queue: QueueState)
    requires
        queue.wf(),
    ensures
        queue.get().wf(),
        queue.is_empty() <==> queue.contents().len() == 0,
        !queue.is_empty() ==> queue.got() == queue.contents().first(),
        !queue.is_empty() ==> queue.get().contents() == queue.contents().drop_first(),
{
    if !queue.is_empty() {
        assert(queue.get().contents() =~= queue.contents().drop_first());
    }
}

/// A queue with room for them takes every one of `values`: they end up
/// behind what it held, in the order of the puts, and the head stays.
pub proof fn lemma_put_all(queue: QueueState, values: Seq<u8>)
    requires
        queue.wf(),
        queue.contents().len() + values.len() <= queue.slots() - 1,
    ensures
        queue.accepts(values),
        queue.put_all(values).wf(),
        queue.put_all(values).contents() == queue.contents() + values,
        queue.put_all(values).start == queue.start,
        queue.put_all(values).end == queue.end,
        queue.put_all(values).head == queue.head,
    decreases values.len(),
{
    if values.len() > 0 {
        lemma_put(queue, values[0]);
        let next = queue.put(values[0]);
        lemma_put_all(next, values.drop_first());
        assert(next.contents() + values.drop_first() =~= queue.contents() + values);
    } else {
        assert(queue.contents() + values =~= queue.contents());
    }
}

/// A queue that holds at least `count` bytes hands out its oldest `count`
/// bytes, the oldest first, and keeps the rest; the tail stays.
pub proof fn lemma_get_all(queue: QueueState, count: nat)
    requires
        queue.wf(),
        count <= queue.contents().len(),
    ensures
        queue.releases(count),
        queue.get_all(count).wf(),
        queue.got_all(count) == queue.contents().take(count as int),
        queue.get_all(count).contents() == queue.contents().skip(count as int),
        queue.get_all(count).start == queue.start,
        queue.get_all(count).end == queue.end,
        queue.get_all(count).tail == queue.tail,
    decreases count,
{
    if count > 0 {
        lemma_get(queue);
        let next = queue.get();
        lemma_get_all(next, (count - 1) as nat);
        assert(queue.got_all(count) =~= queue.contents().take(count as int));
        assert(next.contents().skip(count - 1) =~= queue.contents().skip(count as int));
    } else {
        assert(queue.contents().take(0) =~= Seq::<u8>::empty());
        assert(queue.contents().skip(0) =~= queue.contents());
    }
}

/// An empty queue, wherever on the ring its cursors stand, takes exactly one
/// byte less than it has slots, hands the bytes back in the order in which
/// they were put, and is then empty again, with both cursors one slot before
/// the one on which they stood.
pub proof fn lemma_fill_and_drain_from(queue: QueueState, values: Seq<u8>)
    requires
        queue.wf(),
        queue.is_empty(),
        values.len() == queue.slots() - 1,
    ensures
        queue.fills_and_drains(values),
        queue.fill_and_drain(values).wf(),
        queue.fill_and_drain(values).start == queue.start,
        queue.fill_and_drain(values).end == queue.end,
        queue.fill_and_drain(values).head == queue.previous(queue.head),
        queue.fill_and_drain(values).tail == queue.previous(queue.tail),
{
    lemma_get(queue);
    lemma_put_all(queue, values);
    let full = queue.put_all(values);
    assert(full.contents() =~= values);
    lemma_put(full, 0);
    lemma_get_all(full, values.len());
    assert(values.take(values.len() as int) =~= values);
    let drained = full.get_all(values.len());
    lemma_get(drained);
}

/// A queue that was just bound to two slots or more takes exactly one byte
/// less than it has slots before the next put is refused, and hands the
/// bytes back in the order in which they were put; the next get is then
/// refused.
pub proof fn lemma_fill_and_drain(queue: QueueState, start: int, end: int, values: Seq<u8>)
    requires
        0 <= start < end < queue.data.len(),
        values.len() == end - start,
    ensures
        queue.init(start, end).is_empty(),
        queue.init(start, end).fills_and_drains(values),
{
    lemma_fill_and_drain_from(queue.init(start, end), values);
}

/// Filling an empty queue and draining it again can be repeated any number
/// of times: every round is taken whole and handed back in its own order,
/// however often the cursors have gone round the ring before it.
pub proof fn lemma_fill_and_drain_repeats(queue: QueueState, rounds: Seq<Seq<u8>>)
    requires
        queue.wf(),
        queue.is_empty(),
        forall|i: int| 0 <= i < rounds.len() ==> (#[trigger] rounds[i]).len() == queue.slots() - 1,
    ensures
        queue.repeats(rounds),
    decreases rounds.len(),
{
    if rounds.len() > 0 {
        lemma_fill_and_drain_from(queue, rounds[0]);
        let rest = rounds.drop_first();
        assert forall|i: int| 0 <= i < rest.len() implies (#[trigger] rest[i]).len()
            == queue.slots() - 1 by {
            assert(rest[i] == rounds[i + 1]);
        }
        lemma_fill_and_drain_repeats(queue.fill_and_drain(rounds[0]), rest);
    }
}

/// Initialize the queue
///
/// This binds the queue to the slots of its region from `start` to `end`,
/// both included, and empties it: head, tail and last head go to `start`.
/// Returns `RESULT_NULL_POINTER` for an absent queue and `RESULT_FAILURE`
/// where `start` is greater than `end`; the queue is then left as it was.
///
/// `end` must lie inside the region.
pub fn basino_queue_init<'a>(queue: Option<&mut QueueObj<'a>>, start: usize, end: usize) -> (code:
    u8)
    requires
        queue matches Some(q) ==> (start <= end ==> end < q@.data.len()),
    ensures
        queue is None ==> code == RESULT_NULL_POINTER,
        queue matches Some(q) ==> code == (if start > end { RESULT_FAILURE } else { RESULT_OK }),
        queue matches Some(q) ==> final(q)@ == q@.init(start as int, end as int),
        queue matches Some(q) ==> final(final(q).queue)@ == final(q.queue)@,
        queue matches Some(q) ==> (code == RESULT_OK ==> final(q)@.wf() && final(q)@.is_empty()
            && final(q)@.slots() == end - start + 1),
{
    match queue {
        None => RESULT_NULL_POINTER,
        Some(q) => {
            if start > end {
                RESULT_FAILURE
            } else {
                q.start = start;
                q.end = end;
                q.head = start;
                q.last_head = start;
                q.tail = start;
                RESULT_OK
            }
        },
    }
}

/// Put an item into the queue
///
/// Writes `value` into the slot at the tail and moves the tail to the next
/// slot, round to the start after the end. Returns `RESULT_NULL_POINTER` for
/// an absent queue and `RESULT_FAILURE` for a full one, which is left as it
/// was.
///
/// The queue must be initialized.
pub fn basino_queue_put<'a>(queue: Option<&mut QueueObj<'a>>, value: u8) -> (code: u8)
    requires
        queue matches Some(q) ==> q@.wf(),
    ensures
        queue is None ==> code == RESULT_NULL_POINTER,
        queue matches Some(q) ==> code == (if q@.is_full() { RESULT_FAILURE } else { RESULT_OK }),
        queue matches Some(q) ==> final(q)@ == q@.put(value) && final(q)@.wf(),
        queue matches Some(q) ==> final(final(q).queue)@ == final(q.queue)@,
        queue matches Some(q) ==> (code == RESULT_OK ==> final(q)@.contents()
            == q@.contents().push(value)),
{
    match queue {
        None => RESULT_NULL_POINTER,
        Some(q) => {
            let next: usize = if q.tail == q.end {
                q.start
            } else {
                q.tail + 1
            };
            if next == q.head {
                RESULT_FAILURE
            } else {
                proof {
                    lemma_put(q@, value);
                }
                q.queue[q.tail] = value;
                if q.tail == q.end {
                    q.last_head = q.end;
                }
                q.tail = next;
                RESULT_OK
            }
        },
    }
}

/// Get an item from the queue
///
/// Returns the byte in the slot at the head and moves the head to the next
/// slot, round to the start after the end. The result code goes to `result`:
/// `RESULT_NULL_POINTER` for an absent queue, `RESULT_FAILURE` for an empty
/// one, which is left as it was. Where the code is not `RESULT_OK` the value
/// returned is 0.
///
/// The queue must be initialized.
pub fn basino_queue_get<'a>(queue: Option<&mut QueueObj<'a>>, result: &mut u8) -> (value: u8)
    requires
        queue matches Some(q) ==> q@.wf(),
    ensures
        queue is None ==> *final(result) == RESULT_NULL_POINTER && value == 0,
        queue matches Some(q) ==> *final(result) == (if q@.is_empty() {
            RESULT_FAILURE
        } else {
            RESULT_OK
        }),
        queue matches Some(q) ==> value == (if q@.is_empty() { 0u8 } else { q@.got() }),
        queue matches Some(q) ==> final(q)@ == q@.get() && final(q)@.wf(),
        queue matches Some(q) ==> final(final(q).queue)@ == final(q.queue)@,
        queue matches Some(q) ==> (!q@.is_empty() ==> value == q@.contents().first()
            && final(q)@.contents() == q@.contents().drop_first()),
{
    match queue {
        None => {
            *result = RESULT_NULL_POINTER;
            0
        },
        Some(q) => {
            if q.head == q.tail {
                *result = RESULT_FAILURE;
                0
            } else {
                proof {
                    lemma_get(q@);
                }
                let value: u8 = q.queue[q.head];
                if q.head == q.end {
                    q.last_head = q.end;
                    q.head = q.start;
                } else {
                    q.head = q.head + 1;
                }
                *result = RESULT_OK;
                value
            }
        },
    }
}

/// Get the start of the queue: the index of its first slot
///
/// The result code goes to `result`: `RESULT_NULL_POINTER` for an absent
/// queue, with 0 returned.
pub fn basino_queue_get_queue_start<'a>(queue: Option<&QueueObj<'a>>, result: &mut u8) -> (start:
    usize)
    ensures
        queue is None ==> *final(result) == RESULT_NULL_POINTER && start == 0,
        queue matches Some(q) ==> *final(result) == RESULT_OK && start == q@.start,
{
    match queue {
        None => {
            *result = RESULT_NULL_POINTER;
            0
        },
        Some(q) => {
            *result = RESULT_OK;
            q.start
        },
    }
}

/// Get the end of the queue: the index of its last slot
///
/// The result code goes to `result`: `RESULT_NULL_POINTER` for an absent
/// queue, with 0 returned.
pub fn basino_queue_get_queue_end<'a>(queue: Option<&QueueObj<'a>>, result: &mut u8) -> (end: usize)
    ensures
        queue is None ==> *final(result) == RESULT_NULL_POINTER && end == 0,
        queue matches Some(q) ==> *final(result) == RESULT_OK && end == q@.end,
{
    match queue {
        None => {
            *result = RESULT_NULL_POINTER;
            0
        },
        Some(q) => {
            *result = RESULT_OK;
            q.end
        },
    }
}

/// Get the current head of the queue: the index of the slot that the next
/// get reads
///
/// The result code goes to `result`: `RESULT_NULL_POINTER` for an absent
/// queue, with 0 returned.
pub fn basino_queue_get_head<'a>(queue: Option<&QueueObj<'a>>, result: &mut u8) -> (head: usize)
    ensures
        queue is None ==> *final(result) == RESULT_NULL_POINTER && head == 0,
        queue matches Some(q) ==> *final(result) == RESULT_OK && head == q@.head,
{
    match queue {
        None => {
            *result = RESULT_NULL_POINTER;
            0
        },
        Some(q) => {
            *result = RESULT_OK;
            q.head
        },
    }
}

/// Get the last head of the queue: the index of the slot at which a cursor
/// last went round to the start
///
/// The result code goes to `result`: `RESULT_NULL_POINTER` for an absent
/// queue, with 0 returned.
pub fn basino_queue_get_last_head<'a>(queue: Option<&QueueObj<'a>>, result: &mut u8) -> (last_head:
    usize)
    ensures
        queue is None ==> *final(result) == RESULT_NULL_POINTER && last_head == 0,
        queue matches Some(q) ==> *final(result) == RESULT_OK && last_head == q@.last_head,
{
    match queue {
        None => {
            *result = RESULT_NULL_POINTER;
            0
        },
        Some(q) => {
            *result = RESULT_OK;
            q.last_head
        },
    }
}

/// Get the current tail of the queue: the index of the slot that the next
/// put writes
///
/// The result code goes to `result`: `RESULT_NULL_POINTER` for an absent
/// queue, with 0 returned.
pub fn basino_queue_get_tail<'a>(queue: Option<&QueueObj<'a>>, result: &mut u8) -> (tail: usize)
    ensures
        queue is None ==> *final(result) == RESULT_NULL_POINTER && tail == 0,
        queue matches Some(q) ==> *final(result) == RESULT_OK && tail == q@.tail,
{
    match queue {
        None => {
            *result = RESULT_NULL_POINTER;
            0
        },
        Some(q) => {
            *result = RESULT_OK;
            q.tail
        },
    }
}

/// What the result code of `basino_queue_init` means.
pub open spec fn init_outcome_of(code: u8) -> Result<(), Error> {
    if code == RESULT_OK {
        Ok(())
    } else if code == RESULT_NULL_POINTER {
        Err(Error { kind: ErrorKind::NullPointer })
    } else if code == RESULT_FAILURE {
        Err(Error { kind: ErrorKind::InvalidArguments })
    } else {
        Err(Error { kind: ErrorKind::Unknown })
    }
}

/// What the result code of `basino_queue_put` means.
pub open spec fn put_outcome_of(code: u8) -> Result<(), Error> {
    if code == RESULT_OK {
        Ok(())
    } else if code == RESULT_NULL_POINTER {
        Err(Error { kind: ErrorKind::NullPointer })
    } else if code == RESULT_FAILURE {
        Err(Error { kind: ErrorKind::QueueFull })
    } else {
        Err(Error { kind: ErrorKind::Unknown })
    }
}

/// What the result code of `basino_queue_get` means, for the value that came
/// with it.
pub open spec fn get_outcome_of(code: u8, value: u8) -> Result<u8, Error> {
    if code == RESULT_OK {
        Ok(value)
    } else if code == RESULT_NULL_POINTER {
        Err(Error { kind: ErrorKind::NullPointer })
    } else if code == RESULT_FAILURE {
        Err(Error { kind: ErrorKind::QueueEmpty })
    } else {
        Err(Error { kind: ErrorKind::Unknown })
    }
}

/// What the result code of a call that reads a cursor means, for the index
/// that came with it.
pub open spec fn cursor_outcome_of(code: u8, index: usize) -> Result<usize, Error> {
    if code == RESULT_OK {
        Ok(index)
    } else if code == RESULT_NULL_POINTER {
        Err(Error { kind: ErrorKind::NullPointer })
    } else {
        Err(Error { kind: ErrorKind::Unknown })
    }
}

/// Turn the result code of `basino_queue_init` into a result: 0 is success,
/// 1 an absent queue, 2 invalid arguments, anything else unknown.
pub fn init_outcome(code: u8) -> (outcome: Result<(), Error>)
    ensures
        outcome == init_outcome_of(code),
{
    match code {
        0 => Ok(()),
        1 => Err(Error::new(ErrorKind::NullPointer)),
        2 => Err(Error::new(ErrorKind::InvalidArguments)),
        _ => Err(Error::new(ErrorKind::Unknown)),
    }
}

/// Turn the result code of `basino_queue_put` into a result: 0 is success,
/// 1 an absent queue, 2 a full queue, anything else unknown.
pub fn put_outcome(code: u8) -> (outcome: Result<(), Error>)
    ensures
        outcome == put_outcome_of(code),
{
    match code {
        0 => Ok(()),
        1 => Err(Error::new(ErrorKind::NullPointer)),
        2 => Err(Error::new(ErrorKind::QueueFull)),
        _ => Err(Error::new(ErrorKind::Unknown)),
    }
}

/// Turn the result code of `basino_queue_get` into a result that holds the
/// value: 0 is success, 1 an absent queue, 2 an empty queue, anything else
/// unknown.
pub fn get_outcome(code: u8, value: u8) -> (outcome: Result<u8, Error>)
    ensures
        outcome == get_outcome_of(code, value),
{
    match code {
        0 => Ok(value),
        1 => Err(Error::new(ErrorKind::NullPointer)),
        2 => Err(Error::new(ErrorKind::QueueEmpty)),
        _ => Err(Error::new(ErrorKind::Unknown)),
    }
}

/// Turn the result code of a call that reads a cursor into a result that
/// holds the index: 0 is success, 1 an absent queue, anything else unknown.
pub fn cursor_outcome(code: u8, index: usize) -> (outcome: Result<usize, Error>)
    ensures
        outcome == cursor_outcome_of(code, index),
{
    match code {
        0 => Ok(index),
        1 => Err(Error::new(ErrorKind::NullPointer)),
        _ => Err(Error::new(ErrorKind::Unknown)),
    }
}

impl<'a> Queue<'a> {
    /// Create a new Queue over the whole of `queue_array`.
    ///
    /// Every byte of the array is a slot: the start is the first and the end
    /// the last. The queue starts empty and holds at most one byte less than
    /// the array has. An empty array has no last slot, so that its end would
    /// lie below its start: it is refused with `InvalidArguments`.
    pub fn new(queue_array: &'a mut [u8]) -> (queue: Result<Queue<'a>, Error>)
        ensures
            queue is Ok <==> old(queue_array)@.len() >= 1,
            queue matches Ok(q) ==> q@ == (QueueState {
                data: old(queue_array)@,
                start: 0,
                end: old(queue_array)@.len() - 1,
                head: 0,
                last_head: 0,
                tail: 0,
            }) && q.queue_len == old(queue_array)@.len() && q.wf() && q@.is_empty(),
            queue matches Ok(q) ==> final(queue_array)@ == final(q.queue.queue)@,
            queue matches Err(e) ==> e.kind == ErrorKind::InvalidArguments,
            queue is Err ==> final(queue_array)@ == old(queue_array)@,
    {
        let len: usize = queue_array.len();
        if len == 0 {
            return Err(Error::new(ErrorKind::InvalidArguments));
        }
        let mut queue = Queue {
            queue: QueueObj {
                queue: queue_array,
                start: 0,
                end: 0,
                head: 0,
                last_head: 0,
                tail: 0,
            },
            queue_len: len,
        };
        let code: u8 = basino_queue_init(Some(&mut queue.queue), 0, len - 1);
        match init_outcome(code) {
            Ok(()) => Ok(queue),
            Err(e) => Err(e),
        }
    }
}

/// Basic functions for a queue
pub trait QueueImpl: Sized {
    /// What the queue is, as mathematics.
    spec fn state(&self) -> QueueState;

    /// Put or enqueue a value in the queue.
    ///
    /// The value goes behind the bytes that wait in the queue. A full queue
    /// gives `QueueFull` and stays as it is.
    ///
    /// The queue must be initialized.
    fn put(&mut self, value: u8) -> (put: Result<(), Error>)
        requires
            old(self).state().wf(),
        ensures
            put is Ok <==> !old(self).state().is_full(),
            put is Ok <==> old(self).state().contents().len() < old(self).state().slots() - 1,
            put is Ok ==> final(self).state().contents()
                == old(self).state().contents().push(value),
            put matches Err(e) ==> e.kind == ErrorKind::QueueFull,
            final(self).state() == old(self).state().put(value),
            final(self).state().wf(),
    ;

    /// Get or dequeue a value from the queue.
    ///
    /// Returns the byte that has waited longest. An empty queue gives
    /// `QueueEmpty` and stays as it is.
    ///
    /// The queue must be initialized.
    fn get(&mut self) -> (got: Result<u8, Error>)
        requires
            old(self).state().wf(),
        ensures
            got is Ok <==> !old(self).state().is_empty(),
            got is Ok <==> old(self).state().contents().len() > 0,
            got matches Ok(value) ==> value == old(self).state().contents().first()
                && final(self).state().contents() == old(self).state().contents().drop_first(),
            got matches Err(e) ==> e.kind == ErrorKind::QueueEmpty,
            final(self).state() == old(self).state().get(),
            final(self).state().wf(),
    ;

    // Debugging functions
    /// Get the start of the queue
    fn get_start(&mut self) -> (start: Result<usize, Error>)
        ensures
            start is Ok,
            start matches Ok(index) ==> index == old(self).state().start,
            final(self).state() == old(self).state(),
    ;

    /// Get the end of the queue
    fn get_end(&mut self) -> (end: Result<usize, Error>)
        ensures
            end is Ok,
            end matches Ok(index) ==> index == old(self).state().end,
            final(self).state() == old(self).state(),
    ;

    /// Get the current head of the queue
    fn get_head(&mut self) -> (head: Result<usize, Error>)
        ensures
            head is Ok,
            head matches Ok(index) ==> index == old(self).state().head,
            final(self).state() == old(self).state(),
    ;

    /// Get the last head of the queue
    fn get_last_head(&mut self) -> (last_head: Result<usize, Error>)
        ensures
            last_head is Ok,
            last_head matches Ok(index) ==> index == old(self).state().last_head,
            final(self).state() == old(self).state(),
    ;

    /// Get the current tail of the queue
    fn get_tail(&mut self) -> (tail: Result<usize, Error>)
        ensures
            tail is Ok,
            tail matches Ok(index) ==> index == old(self).state().tail,
            final(self).state() == old(self).state(),
    ;
}

impl<'a> QueueImpl for Queue<'a> {
    open spec fn state(&self) -> QueueState {
        self@
    }

    fn put(&mut self, value: u8) -> (put: Result<(), Error>)
        ensures
            final(self).queue_len == old(self).queue_len,
            old(self).wf() ==> final(self).wf(),
            final(final(self).queue.queue)@ == final(old(self).queue.queue)@,
    {
        proof {
            lemma_put(self@, value);
        }
        let result: u8 = basino_queue_put(Some(&mut self.queue), value);
        put_outcome(result)
    }

    fn get(&mut self) -> (got: Result<u8, Error>)
        ensures
            final(self).queue_len == old(self).queue_len,
            old(self).wf() ==> final(self).wf(),
            final(final(self).queue.queue)@ == final(old(self).queue.queue)@,
    {
        proof {
            lemma_get(self@);
        }
        let mut result: u8 = 0;
        let res: u8 = basino_queue_get(Some(&mut self.queue), &mut result);
        get_outcome(result, res)
    }

    fn get_start(&mut self) -> (start: Result<usize, Error>)
        ensures
            final(self).queue_len == old(self).queue_len,
            old(self).wf() ==> final(self).wf(),
            final(final(self).queue.queue)@ == final(old(self).queue.queue)@,
    {
        let mut result: u8 = 0;
        let res: usize = basino_queue_get_queue_start(Some(&self.queue), &mut result);
        cursor_outcome(result, res)
    }

    fn get_end(&mut self) -> (end: Result<usize, Error>)
        ensures
            final(self).queue_len == old(self).queue_len,
            old(self).wf() ==> final(self).wf(),
            final(final(self).queue.queue)@ == final(old(self).queue.queue)@,
    {
        let mut result: u8 = 0;
        let res: usize = basino_queue_get_queue_end(Some(&self.queue), &mut result);
        cursor_outcome(result, res)
    }

    fn get_head(&mut self) -> (head: Result<usize, Error>)
        ensures
            final(self).queue_len == old(self).queue_len,
            old(self).wf() ==> final(self).wf(),
            final(final(self).queue.queue)@ == final(old(self).queue.queue)@,
    {
        let mut result: u8 = 0;
        let res: usize = basino_queue_get_head(Some(&self.queue), &mut result);
        cursor_outcome(result, res)
    }

    fn get_last_head(&mut self) -> (last_head: Result<usize, Error>)
        ensures
            final(self).queue_len == old(self).queue_len,
            old(self).wf() ==> final(self).wf(),
            final(final(self).queue.queue)@ == final(old(self).queue.queue)@,
    {
        let mut result: u8 = 0;
        let res: usize = basino_queue_get_last_head(Some(&self.queue), &mut result);
        cursor_outcome(result, res)
    }

    fn get_tail(&mut self) -> (tail: Result<usize, Error>)
        ensures
            final(self).queue_len == old(self).queue_len,
            old(self).wf() ==> final(self).wf(),
            final(final(self).queue.queue)@ == final(old(self).queue.queue)@,
    {
        let mut result: u8 = 0;
        let res: usize = basino_queue_get_tail(Some(&self.queue), &mut result);
        cursor_outcome(result, res)
    }
}

} // verus!
