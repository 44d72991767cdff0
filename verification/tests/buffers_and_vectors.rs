use leet_rs::buffer::edit_string;
use leet_rs::sort::{ptr_sort_unstable, vec_sort_unstable};
use leet_rs::vec_ops::{vec_drop, vec_get, vec_new, vec_push, vec_set, vec_with_capacity};

fn ascending(a: i64, b: i64) -> i32 {
    if a < b {
        -1
    } else if a > b {
        1
    } else {
        0
    }
}

#[test]
fn new_vector_is_empty() {
    let v = vec_new();
    assert_eq!(v.len(), 0);
}

#[test]
fn with_capacity_fills_with_the_default() {
    let v = vec_with_capacity(3, 9);
    assert_eq!(*v, vec![9, 9, 9]);
}

#[test]
fn with_capacity_zero_is_empty() {
    let v = vec_with_capacity(0, 5);
    assert_eq!(v.len(), 0);
}

#[test]
fn set_through_absent_handle_is_noop() {
    vec_set(None, 0, 1);
}

#[test]
fn set_writes_only_the_given_index() {
    let mut v = vec![1, 2, 3];
    vec_set(Some(&mut v), 1, 20);
    assert_eq!(v, vec![1, 20, 3]);
}

#[test]
fn get_through_absent_handle_returns_default() {
    assert_eq!(vec_get(None, 0, 42), 42);
}

#[test]
fn get_out_of_bounds_returns_default() {
    let v = vec![1, 2, 3];
    assert_eq!(vec_get(Some(&v), 10, 7), 7);
    assert_eq!(vec_get(Some(&v), -1, 7), 7);
}

#[test]
fn get_in_bounds_returns_the_element() {
    let v = vec![10, 20, 30];
    assert_eq!(vec_get(Some(&v), 2, 7), 30);
}

#[test]
fn push_appends_the_sample_element() {
    let mut v = vec![1];
    vec_push(&mut v);
    assert_eq!(v, vec![1, 42]);
}

#[test]
fn construct_then_destroy_vector_never_faults() {
    let v = vec_new();
    vec_drop(v);
}

#[test]
fn sort_with_ascending_comparator() {
    let mut v = vec![5, 3, 4, 1, 2];
    vec_sort_unstable(Some(&mut v), ascending);
    assert_eq!(v, vec![1, 2, 3, 4, 5]);
}

#[test]
fn sort_with_always_equal_comparator_permutes_only() {
    let mut v = vec![5, 3, 4, 1, 2];
    vec_sort_unstable(Some(&mut v), |_a: i64, _b: i64| 0);
    let mut check = v.clone();
    check.sort();
    assert_eq!(check, vec![1, 2, 3, 4, 5]);
}

#[test]
fn sort_through_absent_handle_is_noop() {
    vec_sort_unstable(None, ascending);
}

#[test]
fn raw_buffer_sort_with_ascending_comparator() {
    let mut v = vec![5, 3, 4, 1, 2];
    ptr_sort_unstable(Some(&mut v), ascending);
    assert_eq!(v, vec![1, 2, 3, 4, 5]);
}

#[test]
fn raw_buffer_sort_with_absent_buffer_is_noop() {
    ptr_sort_unstable(None, ascending);
}

#[test]
fn buffer_write_stamps_first_six_bytes_only() {
    let mut buf = vec![0u8; 10];
    edit_string(&mut buf);
    assert_eq!(&buf[0..6], "\u{2764}\u{fe0f}".as_bytes());
    assert_eq!(&buf[6..], &[0u8, 0, 0, 0][..]);
    assert_eq!(buf.len(), 10);
}

#[test]
fn buffer_write_fits_an_exact_buffer() {
    let mut buf = vec![1u8; 6];
    edit_string(&mut buf);
    assert_eq!(buf, vec![0xe2, 0x9d, 0xa4, 0xef, 0xb8, 0x8f]);
}
