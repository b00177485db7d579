use constvec::ConstVec;

fn run() {
    let mut b = ConstVec::<_, 10>::new();
    b.push(20i32);

    match b.pop() {
        Some(n) => assert!(n == 20),
        None => panic!("The vec should contain at least one element!"),
    }

    assert!(b.is_empty());

    match b.pop() {
        Some(_) => panic!("The vector should be empty!"),
        None => {}
    }
}

#[test]
fn it_works() {
    run();
}

#[test]
fn new_is_empty() {
    let v = ConstVec::<u32, 4>::new();
    assert_eq!(v.len(), 0);
    assert_eq!(v.capacity(), 4);
    assert!(v.is_empty());
    assert!(!v.is_not_empty());
    assert!(!v.is_full());
    assert!(v.is_not_full());
}

#[test]
fn pop_from_empty_keeps_length() {
    let mut v = ConstVec::<u8, 3>::new();
    assert_eq!(v.pop(), None);
    assert_eq!(v.len(), 0);
    assert!(v.is_empty());
}

#[test]
fn push_then_pop_round_trip() {
    let mut v = ConstVec::<u64, 5>::new();
    v.push(7);
    v.push(8);
    let before = v.len();
    v.push(42);
    assert_eq!(v.pop(), Some(42));
    assert_eq!(v.len(), before);
}

#[test]
fn capacity_two_fills_and_refuses() {
    let mut v = ConstVec::<i32, 2>::new();
    assert_eq!(v.try_push(1), Ok(()));
    assert!(!v.is_full());
    assert_eq!(v.try_push(2), Ok(()));
    assert!(v.is_full());
    assert!(!v.is_not_full());
    assert_eq!(v.try_push(3), Err(3));
    assert_eq!(v.len(), 2);
    assert_eq!(v.capacity(), 2);
}

#[test]
fn fullness_boundary_at_capacity_five() {
    let mut v = ConstVec::<u16, 5>::new();
    for i in 0..5u16 {
        assert!(!v.is_full());
        assert_eq!(v.try_push(i), Ok(()));
    }
    assert!(v.is_full());
    assert_eq!(v.try_push(99), Err(99));
    assert_eq!(v.len(), 5);
}

#[test]
fn zero_capacity_is_full_and_empty() {
    let mut v = ConstVec::<u8, 0>::new();
    assert!(v.is_empty());
    assert!(v.is_full());
    assert_eq!(v.try_push(5), Err(5));
    assert_eq!(v.len(), 0);
}

#[test]
fn last_in_first_out() {
    let mut v = ConstVec::<char, 4>::new();
    v.push('a');
    v.push('b');
    assert_eq!(v.pop(), Some('b'));
    assert_eq!(v.pop(), Some('a'));
    assert_eq!(v.pop(), None);
}

#[test]
fn clear_twice_is_clear_once() {
    let mut v = ConstVec::<i64, 3>::new();
    v.push(-1);
    v.push(2);
    v.clear();
    assert_eq!(v.len(), 0);
    assert!(v.is_empty());
    v.clear();
    assert_eq!(v.len(), 0);
    assert_eq!(v.pop(), None);
    v.push(9);
    assert_eq!(v.pop(), Some(9));
}

#[test]
fn clear_on_empty() {
    let mut v = ConstVec::<u8, 1>::new();
    v.clear();
    assert_eq!(v.len(), 0);
    assert!(v.is_not_full());
}

#[test]
fn unchecked_push_and_pop() {
    let mut v = ConstVec::<u32, 3>::new();
    v.push_unchecked(10);
    v.push_unchecked(11);
    assert_eq!(v.len(), 2);
    assert_eq!(v.pop_unchecked(), 11);
    assert_eq!(v.pop_unchecked(), 10);
    assert!(v.is_empty());
}

#[test]
fn set_len_restores_popped_slots() {
    let mut v = ConstVec::<u32, 4>::new();
    v.push(1);
    v.push(2);
    v.push(3);
    v.clear();
    v.set_len(2);
    assert_eq!(v.len(), 2);
    assert_eq!(v.pop(), Some(2));
    assert_eq!(v.pop(), Some(1));
}

#[test]
fn push_overwrites_stale_slot() {
    let mut v = ConstVec::<u32, 3>::new();
    v.push(1);
    v.push(2);
    assert_eq!(v.pop(), Some(2));
    v.push(5);
    v.set_len(2);
    assert_eq!(v.pop(), Some(5));
    assert_eq!(v.pop(), Some(1));
}
