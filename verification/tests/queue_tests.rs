use rust_basino::queue::{
    basino_queue_get, basino_queue_get_head, basino_queue_get_last_head,
    basino_queue_get_queue_end, basino_queue_get_queue_start, basino_queue_get_tail,
    basino_queue_init, basino_queue_put, cursor_outcome, get_outcome, init_outcome, put_outcome,
    Error, ErrorKind, QueueImpl,
};
use rust_basino::{Queue, QueueObj};

/// The length of the array that the queue tests work on.
const QUEUE_DATA_LEN: usize = 4;

fn blank_queue(queue: &mut [u8]) -> QueueObj<'_> {
    QueueObj { queue, start: 0, end: 0, head: 0, last_head: 0, tail: 0 }
}

#[test]
fn test_queue_init_works() {
    let mut basino_queue_data = [0u8; QUEUE_DATA_LEN];
    let res = Queue::new(&mut basino_queue_data);

    assert!(res.is_ok(), "should initialize queue");
    let queue = res.unwrap();
    assert_eq!(queue.queue_len, QUEUE_DATA_LEN);
    assert_eq!(queue.queue.start, 0);
    assert_eq!(queue.queue.end, QUEUE_DATA_LEN - 1);
    assert_eq!(queue.queue.head, 0);
    assert_eq!(queue.queue.tail, 0);
    assert_eq!(queue.queue.last_head, 0);
}

#[test]
fn test_queue_empty_get_fails() {
    let mut basino_queue_data = [0u8; QUEUE_DATA_LEN];
    let mut queue = Queue::new(&mut basino_queue_data).unwrap();

    let res = queue.get();
    assert!(res.is_err(), "get from empty queue should fail");
    assert_eq!(res, Err(Error::new(ErrorKind::QueueEmpty)));
}

#[test]
fn test_queue_put_works() {
    let mut basino_queue_data = [0u8; QUEUE_DATA_LEN];
    let mut queue = Queue::new(&mut basino_queue_data).unwrap();

    let res = queue.put(5);

    assert!(res.is_ok(), "should put 5 into queue");

    let res = queue.get();

    match res {
        Ok(v) => {
            assert!(v == 5, "get should return 5");
        }
        Err(_e) => {
            panic!("get should be ok and return 5");
        }
    }
}

#[test]
fn test_queue_put_twice_works() {
    let mut basino_queue_data = [0u8; QUEUE_DATA_LEN];
    let mut queue = Queue::new(&mut basino_queue_data).unwrap();

    // First, put both items

    let res = queue.put(5);

    assert!(res.is_ok(), "should put 5 into queue");
    let res = queue.put(3);

    assert!(res.is_ok(), "should put 3 into queue");

    // Now get both items

    let res = queue.get();

    match res {
        Ok(v) => {
            assert!(v == 5, "get should return 5");
        }
        Err(_e) => {
            panic!("get should be ok and return 5");
        }
    }
    let res = queue.get();

    match res {
        Ok(v) => {
            assert!(v == 3, "get should return 3");
        }
        Err(_e) => {
            panic!("get should be ok and return 3");
        }
    }
}

#[test]
fn test_queue_put_fill_works() {
    let mut basino_queue_data = [0u8; QUEUE_DATA_LEN];
    let mut queue = Queue::new(&mut basino_queue_data).unwrap();

    for i in 1..queue.queue_len {
        let res = queue.put((i % 256) as u8);
        assert!(res.is_ok(), "should be able to fill queue");
    }

    let res = queue.put(130_u8);
    assert!(res.is_err(), "last put to full queue should fail");
    match res {
        Err(e) => {
            assert!(e.kind == ErrorKind::QueueFull, "last put should fail with QueueFull error");
        }
        _ => {
            panic!("last put should fail with QueueFull error");
        }
    }
}

#[test]
fn test_queue_put_and_get_fill_works() {
    let mut basino_queue_data = [0u8; QUEUE_DATA_LEN];
    let mut queue = Queue::new(&mut basino_queue_data).unwrap();

    for i in 1..queue.queue_len {
        let _res = queue.put((i % 256) as u8);
    }

    for i in 1..queue.queue_len {
        let res = queue.get();
        assert!(res.unwrap() == ((i % 256) as u8), "should get filled value");
    }
}

#[test]
fn test_queue_put_get_put_fill_works() {
    let mut basino_queue_data = [0u8; QUEUE_DATA_LEN];
    let mut queue = Queue::new(&mut basino_queue_data).unwrap();

    let res = queue.put(0x23_u8);
    assert!(res.is_ok(), "single put of 0x23 should work");

    let res = queue.get();
    assert!(res.is_ok(), "single get should work");
    assert!(res.unwrap() == 0x23, "single get should equal 0x23");

    for i in 1..queue.queue_len {
        let res = queue.put((i % 256) as u8);
        assert!(res.is_ok(), "should be able to fill queue");
    }

    let res = queue.put(130_u8);
    assert!(res.is_err(), "last put to full queue should fail");
}

#[test]
fn test_queue_head_wraps_works() {
    let mut basino_queue_data = [0u8; QUEUE_DATA_LEN];
    let mut queue = Queue::new(&mut basino_queue_data).unwrap();

    // for i in 1..queue.queue_len goes from 1 to (queue.queue_len - 1) inclusive
    // So, if queue.queue_len is 4, this iterates through [1, 2, 3]
    for i in 1..queue.queue_len {
        let res = queue.put((i % 256) as u8);
        assert!(res.is_ok(), "should be able to fill queue");
    }

    for i in 1..queue.queue_len {
        let res = queue.get();
        assert!(res.unwrap() == ((i % 256) as u8), "should be able to get filled values ");
    }

    for i in 1..=2 {
        let res = queue.put(i as u8);
        assert!(res.is_ok(), "should be able to put in 2 more values");
    }

    for i in 1..=2 {
        let res = queue.get();
        assert!(res.unwrap() == (i as u8), "should be able to get values");
    }
}

#[test]
fn test_queue_head_wraps_nonfilled_works() {
    let mut basino_queue_data = [0u8; QUEUE_DATA_LEN];
    let mut queue = Queue::new(&mut basino_queue_data).unwrap();

    for i in 1..=2 {
        let res = queue.put((i % 256) as u8);
        assert!(res.is_ok(), "should be able to fill queue");
    }

    for i in 1..=2 {
        let res = queue.get();
        assert!(res.unwrap() == ((i % 256) as u8), "should be able to get filled values ");
    }

    for i in 1..=2 {
        let res = queue.put(i as u8);
        assert!(res.is_ok(), "should be able to put in 2 more values");
    }

    for i in 1..=2 {
        let res = queue.get();
        assert!(res.unwrap() == (i as u8), "should be able to get values");
    }

    // The queue should now be empty
    let res = queue.get();
    assert!(res.is_err(), "get from empty queue should fail");
}

#[test]
fn test_queue_head_wraps_nonemptied_works() {
    let mut basino_queue_data = [0u8; QUEUE_DATA_LEN];
    let mut queue = Queue::new(&mut basino_queue_data).unwrap();

    // put in two items [1, 2]
    for i in [1, 2] {
        let res = queue.put((i % 256) as u8);
        assert!(res.is_ok(), "should be able to put in two items");
    }

    // Remove one item
    let res = queue.get();
    assert!(res.unwrap() == 1_u8, "should be able to get one item ");

    // Put in two items, [3, 4]
    for i in [3, 4] {
        let res = queue.put(i as u8);
        assert!(res.is_ok(), "should be able to put in 2 more values");
    }

    // Get three items
    for i in [2, 3, 4] {
        let res = queue.get();
        assert!(res.unwrap() == (i as u8), "should be able to get all values");
    }

    // The queue should now be empty
    let res = queue.get();
    assert!(res.is_err(), "get from empty queue should fail");
}

#[test]
fn test_queue_last_head_update() {
    let mut basino_queue_data = [0u8; QUEUE_DATA_LEN];
    let mut queue = Queue::new(&mut basino_queue_data).unwrap();

    for i in 1..=2 {
        let res = queue.put((i % 256) as u8);
        assert!(res.is_ok(), "should be able to fill queue");
    }

    for i in 1..=2 {
        let res = queue.get();
        assert!(res.unwrap() == ((i % 256) as u8), "should be able to get filled values ");
    }

    for i in 1..=2 {
        let res = queue.put(i as u8);
        assert!(res.is_ok(), "should be able to put in 2 more values");
    }

    for i in 1..=2 {
        let res = queue.get();
        assert!(res.unwrap() == (i as u8), "should be able to get values");
    }

    // The queue should now be empty
    let res = queue.get();
    assert!(res.is_err(), "get from empty queue should fail");

    for i in 1..=3 {
        let res = queue.put(i as u8);
        assert!(res.is_ok(), "should be able to put in 3 more values");
    }
}

#[test]
fn test_queue_init_null_queue_fails() {
    let queue_start: usize = 0;
    let len = QUEUE_DATA_LEN;

    let queue_end: usize = queue_start + len - 1;

    let res = basino_queue_init(None, queue_start, queue_end);

    assert!(res == 1, "init should fail with null queue pointer");
    assert_eq!(init_outcome(res), Err(Error::new(ErrorKind::NullPointer)));
}

#[test]
fn test_queue_basino_queue_get_null_queue_fails() {
    let mut result: u8 = 0;
    let _res = basino_queue_get(None, &mut result);

    assert!(result == 1, "get should fail with null queue pointer");
    assert_eq!(get_outcome(result, _res), Err(Error::new(ErrorKind::NullPointer)));
}

#[test]
fn test_queue_basino_queue_put_null_queue_fails() {
    let res = basino_queue_put(None, 5);

    assert!(res == 1, "put should fail with null queue pointer");
    assert_eq!(put_outcome(res), Err(Error::new(ErrorKind::NullPointer)));
}

#[test]
fn test_queue_basino_queue_get_last_head_null_queue_fails() {
    let mut result: u8 = 0;
    let _res = basino_queue_get_last_head(None, &mut result);

    assert!(result == 1, "get_last_head should fail with null queue pointer");
    assert_eq!(cursor_outcome(result, _res), Err(Error::new(ErrorKind::NullPointer)));
}

#[test]
fn test_queue_basino_queue_get_head_null_queue_fails() {
    let mut result: u8 = 0;
    let _res = basino_queue_get_head(None, &mut result);

    assert!(result == 1, "get_head should fail with null queue pointer");
}

#[test]
fn test_queue_basino_queue_get_tail_null_queue_fails() {
    let mut result: u8 = 0;
    let _res = basino_queue_get_tail(None, &mut result);

    assert!(result == 1, "get_tail should fail with null queue pointer");
}

#[test]
fn test_queue_basino_queue_get_queue_start_null_queue_fails() {
    let mut result: u8 = 0;
    let _res = basino_queue_get_queue_start(None, &mut result);

    assert!(result == 1, "get_queue_start should fail with null queue pointer");
}

#[test]
fn test_queue_basino_queue_get_queue_end_null_queue_fails() {
    let mut result: u8 = 0;
    let _res = basino_queue_get_queue_end(None, &mut result);

    assert!(result == 1, "get_queue_end should fail with null queue pointer");
}

// Test the debugging functions

#[test]
fn test_queue_basino_queue_get_last_head_works() {
    let queue_start: usize = 0;
    let mut basino_queue_data = [0u8; QUEUE_DATA_LEN];
    let mut queue = Queue::new(&mut basino_queue_data).unwrap();

    let last_head = queue.get_last_head();

    // no cursor has gone round yet: the last head is the start
    assert!(last_head.unwrap() == queue_start, "get_last_head should return correct value");
}

#[test]
fn test_queue_basino_queue_get_head_works() {
    let queue_start: usize = 0;
    let mut basino_queue_data = [0u8; QUEUE_DATA_LEN];
    let mut queue = Queue::new(&mut basino_queue_data).unwrap();

    let head = queue.get_head();

    assert!(head.unwrap() == queue_start, "get_head should return correct value");
}

#[test]
fn test_queue_basino_queue_get_tail_works() {
    let queue_start: usize = 0;
    let mut basino_queue_data = [0u8; QUEUE_DATA_LEN];
    let mut queue = Queue::new(&mut basino_queue_data).unwrap();

    let tail = queue.get_tail();

    assert!(tail.unwrap() == queue_start, "get_tail should return correct value");
}

#[test]
fn test_queue_basino_queue_get_queue_start_works() {
    let queue_start: usize = 0;
    let mut basino_queue_data = [0u8; QUEUE_DATA_LEN];
    let mut queue = Queue::new(&mut basino_queue_data).unwrap();

    let res = queue.get_start();

    assert!(res.unwrap() == queue_start, "get_start should return correct value");
}

#[test]
fn test_queue_basino_queue_get_queue_end_works() {
    let queue_start: usize = 0;
    let queue_end = queue_start + QUEUE_DATA_LEN - 1;
    let mut basino_queue_data = [0u8; QUEUE_DATA_LEN];
    let mut queue = Queue::new(&mut basino_queue_data).unwrap();

    let res = queue.get_end();

    assert!(res.unwrap() == queue_end, "get_end should return correct value");
}

#[test]
fn test_queue_new_empty_array_fails() {
    let mut none: [u8; 0] = [];
    let res = Queue::new(&mut none);
    assert_eq!(res.err(), Some(Error::new(ErrorKind::InvalidArguments)));
}

#[test]
fn test_queue_of_one_slot_holds_nothing() {
    let mut one = [0u8; 1];
    let mut queue = Queue::new(&mut one).unwrap();
    assert_eq!(queue.queue_len, 1);
    assert_eq!(queue.get_start(), Ok(0));
    assert_eq!(queue.get_end(), Ok(0));
    assert_eq!(queue.put(1), Err(Error::new(ErrorKind::QueueFull)));
    assert_eq!(queue.get(), Err(Error::new(ErrorKind::QueueEmpty)));
}

#[test]
fn test_queue_init_start_gt_end_fails() {
    let mut data = [0u8; QUEUE_DATA_LEN];
    let mut queue = blank_queue(&mut data);
    queue.head = 3;

    let res = basino_queue_init(Some(&mut queue), 2, 1);
    assert_eq!(res, 2);
    assert_eq!(init_outcome(res), Err(Error::new(ErrorKind::InvalidArguments)));
    // the queue is left as it was
    assert_eq!((queue.start, queue.end, queue.head, queue.last_head, queue.tail), (0, 0, 3, 0, 0));

    // a start that is the end is a queue of one slot
    let res = basino_queue_init(Some(&mut queue), 2, 2);
    assert_eq!(res, 0);
    assert_eq!((queue.start, queue.end, queue.head, queue.last_head, queue.tail), (2, 2, 2, 2, 2));
}

#[test]
fn test_queue_init_inside_the_region() {
    let mut data = [0xeeu8; 8];
    {
        let mut queue = blank_queue(&mut data);
        assert_eq!(basino_queue_init(Some(&mut queue), 2, 5), 0);
        assert_eq!(basino_queue_put(Some(&mut queue), 1), 0);
        assert_eq!(basino_queue_put(Some(&mut queue), 2), 0);
        assert_eq!(basino_queue_put(Some(&mut queue), 3), 0);
        assert_eq!(basino_queue_put(Some(&mut queue), 4), 2);
        let mut result: u8 = 0xff;
        assert_eq!(basino_queue_get(Some(&mut queue), &mut result), 1);
        assert_eq!(result, 0);
        // the tail goes round to the start of the queue, not of the region
        assert_eq!(basino_queue_put(Some(&mut queue), 4), 0);
        assert_eq!(queue.tail, 2);
        assert_eq!(queue.head, 3);
    }
    assert_eq!(data, [0xee, 0xee, 1, 2, 3, 4, 0xee, 0xee]);
}

#[test]
fn test_queue_cursors_move_and_wrap() {
    let mut data = [0u8; QUEUE_DATA_LEN];
    let mut queue = Queue::new(&mut data).unwrap();

    queue.put(10).unwrap();
    assert_eq!(queue.get_tail(), Ok(1));
    assert_eq!(queue.get_head(), Ok(0));
    queue.put(11).unwrap();
    queue.put(12).unwrap();
    assert_eq!(queue.get_tail(), Ok(3));
    assert_eq!(queue.get_last_head(), Ok(0));

    assert_eq!(queue.get(), Ok(10));
    assert_eq!(queue.get_head(), Ok(1));

    // the tail stands on the end: this put sends it round to the start
    queue.put(13).unwrap();
    assert_eq!(queue.get_tail(), Ok(0));
    assert_eq!(queue.get_last_head(), Ok(3));
    assert_eq!(queue.put(14), Err(Error::new(ErrorKind::QueueFull)));

    assert_eq!(queue.get(), Ok(11));
    assert_eq!(queue.get(), Ok(12));
    assert_eq!(queue.get_head(), Ok(3));
    // the head stands on the end: this get sends it round to the start
    assert_eq!(queue.get(), Ok(13));
    assert_eq!(queue.get_head(), Ok(0));
    assert_eq!(queue.get_last_head(), Ok(3));
    assert_eq!(queue.get(), Err(Error::new(ErrorKind::QueueEmpty)));
    assert_eq!(queue.get_start(), Ok(0));
    assert_eq!(queue.get_end(), Ok(3));
}

#[test]
fn test_queue_head_wrap_sets_last_head() {
    let mut data = [0u8; 3];
    let mut queue = blank_queue(&mut data);
    assert_eq!(basino_queue_init(Some(&mut queue), 0, 2), 0);
    // bring both cursors to the end without a wrap of the tail
    queue.head = 2;
    queue.tail = 2;
    assert_eq!(basino_queue_put(Some(&mut queue), 7), 0);
    assert_eq!((queue.tail, queue.last_head), (0, 2));
    queue.last_head = 1;
    let mut result: u8 = 0xff;
    assert_eq!(basino_queue_get(Some(&mut queue), &mut result), 7);
    assert_eq!(result, 0);
    assert_eq!((queue.head, queue.last_head), (0, 2));
}

#[test]
fn test_queue_failed_calls_change_nothing() {
    let mut data = [0u8; 3];
    let mut queue = Queue::new(&mut data).unwrap();

    let mut result: u8 = 0xff;
    let value = basino_queue_get(Some(&mut queue.queue), &mut result);
    assert_eq!((value, result), (0, 2));
    assert_eq!((queue.queue.head, queue.queue.tail, queue.queue.last_head), (0, 0, 0));

    queue.put(1).unwrap();
    queue.put(2).unwrap();
    assert_eq!(basino_queue_put(Some(&mut queue.queue), 3), 2);
    assert_eq!((queue.queue.head, queue.queue.tail, queue.queue.last_head), (0, 2, 0));
    assert_eq!(queue.queue.queue[2], 0);
    assert_eq!(queue.queue_len, 3);
}

#[test]
fn test_queue_takes_one_less_than_its_slots() {
    for slots in 2..=40usize {
        let mut data = vec![0u8; slots];
        let mut queue = Queue::new(&mut data).unwrap();

        for i in 0..slots - 1 {
            assert_eq!(queue.put((i * 5 % 253) as u8), Ok(()));
        }
        assert_eq!(queue.put(0), Err(Error::new(ErrorKind::QueueFull)));

        for i in 0..slots - 1 {
            assert_eq!(queue.get(), Ok((i * 5 % 253) as u8));
        }
        assert_eq!(queue.get(), Err(Error::new(ErrorKind::QueueEmpty)));
    }
}

#[test]
fn test_queue_fill_and_drain_repeats() {
    for slots in 1..=9usize {
        let mut data = vec![0u8; slots];
        let mut queue = Queue::new(&mut data).unwrap();

        // each round moves both cursors one slot back, so that they go round
        // the ring several times
        for round in 0..4 * slots {
            let head_before = queue.get_head().unwrap();
            for i in 0..slots - 1 {
                assert_eq!(queue.put((round * 31 + i) as u8), Ok(()));
            }
            assert_eq!(queue.put(0), Err(Error::new(ErrorKind::QueueFull)));
            for i in 0..slots - 1 {
                assert_eq!(queue.get(), Ok((round * 31 + i) as u8));
            }
            assert_eq!(queue.get(), Err(Error::new(ErrorKind::QueueEmpty)));

            let expected = if head_before == 0 { slots - 1 } else { head_before - 1 };
            assert_eq!(queue.get_head(), Ok(expected));
            assert_eq!(queue.get_tail(), Ok(expected));
        }
    }
}

#[test]
fn test_queue_keeps_order_over_mixed_puts_and_gets() {
    let mut data = [0u8; 5];
    let mut queue = Queue::new(&mut data).unwrap();
    let mut next_in: u8 = 0;
    let mut next_out: u8 = 0;
    let mut held: usize = 0;

    for step in 0..200usize {
        if step % 3 != 2 {
            let res = queue.put(next_in);
            if held == 4 {
                assert_eq!(res, Err(Error::new(ErrorKind::QueueFull)));
            } else {
                assert_eq!(res, Ok(()));
                next_in = next_in.wrapping_add(1);
                held += 1;
            }
        }
        if step % 5 != 0 {
            let res = queue.get();
            if held == 0 {
                assert_eq!(res, Err(Error::new(ErrorKind::QueueEmpty)));
            } else {
                assert_eq!(res, Ok(next_out));
                next_out = next_out.wrapping_add(1);
                held -= 1;
            }
        }
    }
}

#[test]
fn test_queue_result_codes() {
    assert_eq!(init_outcome(0), Ok(()));
    assert_eq!(init_outcome(1), Err(Error::new(ErrorKind::NullPointer)));
    assert_eq!(init_outcome(2), Err(Error::new(ErrorKind::InvalidArguments)));
    assert_eq!(init_outcome(3), Err(Error::new(ErrorKind::Unknown)));
    assert_eq!(init_outcome(255), Err(Error::new(ErrorKind::Unknown)));

    assert_eq!(put_outcome(0), Ok(()));
    assert_eq!(put_outcome(1), Err(Error::new(ErrorKind::NullPointer)));
    assert_eq!(put_outcome(2), Err(Error::new(ErrorKind::QueueFull)));
    assert_eq!(put_outcome(3), Err(Error::new(ErrorKind::Unknown)));

    assert_eq!(get_outcome(0, 9), Ok(9));
    assert_eq!(get_outcome(1, 9), Err(Error::new(ErrorKind::NullPointer)));
    assert_eq!(get_outcome(2, 9), Err(Error::new(ErrorKind::QueueEmpty)));
    assert_eq!(get_outcome(3, 9), Err(Error::new(ErrorKind::Unknown)));

    assert_eq!(cursor_outcome(0, 17), Ok(17));
    assert_eq!(cursor_outcome(1, 17), Err(Error::new(ErrorKind::NullPointer)));
    assert_eq!(cursor_outcome(2, 17), Err(Error::new(ErrorKind::Unknown)));
    assert_eq!(cursor_outcome(200, 17), Err(Error::new(ErrorKind::Unknown)));
}

#[test]
fn test_queue_cursor_reads_of_a_queue_object() {
    let mut data = [0u8; 6];
    let mut queue = blank_queue(&mut data);
    assert_eq!(basino_queue_init(Some(&mut queue), 1, 4), 0);
    queue.head = 2;
    queue.tail = 3;
    queue.last_head = 4;

    let mut result: u8 = 0xff;
    assert_eq!(basino_queue_get_queue_start(Some(&queue), &mut result), 1);
    assert_eq!(result, 0);
    result = 0xff;
    assert_eq!(basino_queue_get_queue_end(Some(&queue), &mut result), 4);
    assert_eq!(result, 0);
    result = 0xff;
    assert_eq!(basino_queue_get_head(Some(&queue), &mut result), 2);
    assert_eq!(result, 0);
    result = 0xff;
    assert_eq!(basino_queue_get_tail(Some(&queue), &mut result), 3);
    assert_eq!(result, 0);
    result = 0xff;
    assert_eq!(basino_queue_get_last_head(Some(&queue), &mut result), 4);
    assert_eq!(result, 0);
}

#[test]
fn test_queue_error_messages() {
    assert_eq!(ErrorKind::QueueEmpty.message(), "The queue is empty");
    assert_eq!(ErrorKind::QueueFull.message(), "The queue is full");
    assert_eq!(ErrorKind::NullPointer.message(), "A null pointer was passed in as a parameter");
    assert_eq!(ErrorKind::InvalidArguments.message(), "Invalid arguments were passed in");
    assert_eq!(ErrorKind::Unknown.message(), "An unknown error occurred");
    assert_eq!(Error::new(ErrorKind::QueueFull).message(), "The queue is full");
    assert_eq!(Error::new(ErrorKind::QueueEmpty).kind, ErrorKind::QueueEmpty);
}

#[test]
fn test_queue_is_initialized() {
    let mut none: [u8; 0] = [];
    assert!(!blank_queue(&mut none).is_initialized());

    let mut data = [0u8; 4];
    // a blank queue over a region is a queue of one slot
    assert!(blank_queue(&mut data).is_initialized());

    let mut queue = Queue::new(&mut data).unwrap();
    assert!(queue.queue.is_initialized());
    queue.put(1).unwrap();
    assert!(queue.queue.is_initialized());

    queue.queue.end = 4;
    assert!(!queue.queue.is_initialized());
    queue.queue.end = 3;
    queue.queue.start = 2;
    // the head and the last head lie below the start
    assert!(!queue.queue.is_initialized());
    queue.queue.head = 2;
    queue.queue.last_head = 3;
    queue.queue.tail = 2;
    assert!(queue.queue.is_initialized());
    queue.queue.tail = 4;
    assert!(!queue.queue.is_initialized());
    queue.queue.tail = 3;
    queue.queue.start = 4;
    assert!(!queue.queue.is_initialized());
}
