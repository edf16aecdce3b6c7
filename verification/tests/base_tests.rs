use rust_basino::{basino_add, basino_gt, basino_gt_eq, test_result_word, ArrayHandle};

#[test]
fn test_basino_gt_gt_works() {
    let res = basino_gt(0x1000, 0x0010);
    assert!(res == 1, "0x1000 should be > 0x0010");
}

#[test]
fn test_basino_gt_eq_works() {
    let res = basino_gt(0x1111, 0x1111);
    assert!(res == 0, "0x1111 should not be > 0x1111");
}

#[test]
fn test_basino_gt_lt_works() {
    let res = basino_gt(0x0010, 0x1000);
    assert!(res == 0, "0x0010 should not be > 0x1000");
}

#[test]
fn test_basino_gt_eq_gt_works() {
    let res = basino_gt_eq(0x1000, 0x0010);
    assert!(res == 1, "0x1000 should be >= 0x0010");
}

#[test]
fn test_basino_gt_eq_eq_works() {
    let res = basino_gt_eq(0x1111, 0x1111);
    assert!(res == 1, "0x1111 should be >= 0x1111");
}

#[test]
fn test_basino_gt_eq_lt_works() {
    let res = basino_gt_eq(0x0010, 0x1000);
    assert!(res == 0, "0x0010 should not be >= 0x1000");
}

#[test]
fn test_basino_gt_compares_both_bytes() {
    // the low byte alone would decide the other way
    assert_eq!(basino_gt(0x0200, 0x01ff), 1);
    assert_eq!(basino_gt(0x01ff, 0x0200), 0);
    assert_eq!(basino_gt_eq(0x0200, 0x01ff), 1);
    assert_eq!(basino_gt_eq(0x01ff, 0x0200), 0);
    assert_eq!(basino_gt(0, 0), 0);
    assert_eq!(basino_gt_eq(0, 0), 1);
    assert_eq!(basino_gt(0xffff, 0xfffe), 1);
    assert_eq!(basino_gt_eq(0xfffe, 0xffff), 0);
}

#[test]
fn test_basino_add_works() {
    assert_eq!(basino_add(0, 0), 0);
    assert_eq!(basino_add(1, 2), 3);
    assert_eq!(basino_add(200, 100), 300);
    assert_eq!(basino_add(255, 255), 510);
}

#[test]
fn test_result_word_works() {
    assert_eq!(test_result_word(true), "SUCCESS");
    assert_eq!(test_result_word(false), "FAILURE");
}

#[test]
fn test_array_handle_new_works() {
    let mut arr: [u8; 4] = [1, 2, 3, 4];
    let handle = ArrayHandle::new(&mut arr, 4);
    assert_eq!(handle.len, 4);
    assert_eq!(handle.ptr.len(), 4);
    assert_eq!(handle.ptr[2], 3);

    let mut words: [u16; 4] = [0; 4];
    let handle = ArrayHandle::new(&mut words, 4);
    assert_eq!(handle.len, 4);
}
