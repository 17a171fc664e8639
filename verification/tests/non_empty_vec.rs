use non_empty_continuous::{NonEmptyVec, PositiveUsize};
use non_empty_continuous::range::Bound;

fn positive(n: usize) -> PositiveUsize {
    PositiveUsize::new(n).unwrap()
}

fn from(items: Vec<i32>) -> NonEmptyVec<i32> {
    NonEmptyVec::try_from_vec(items).unwrap()
}

#[test]
fn build_push_and_pop_down_to_one() {
    let mut v = NonEmptyVec::new(10);
    v.push(20);
    v.push(30);
    assert_eq!(v.get_vec(), &vec![10, 20, 30]);
    assert_eq!(v.try_pop(), Some(30));
    assert_eq!(v.get_vec(), &vec![10, 20]);
    assert_eq!(v.try_pop(), Some(20));
    assert_eq!(v.get_vec(), &vec![10]);
    assert_eq!(v.try_pop(), None);
    assert_eq!(v.get_vec(), &vec![10]);
}

#[test]
fn try_from_empty_vec_hands_it_back() {
    let empty: Vec<i32> = Vec::new();
    assert_eq!(NonEmptyVec::try_from_vec(empty), Err(Vec::new()));
}

#[test]
fn try_from_vec_round_trip() {
    let taken = NonEmptyVec::try_from_vec(vec![1, 2, 3]).unwrap();
    assert_eq!(taken.to_vec(), vec![1, 2, 3]);
    let single = NonEmptyVec::try_from_vec(vec![7]).unwrap();
    assert_eq!(single.to_vec(), vec![7]);
}

#[test]
fn try_from_vec_keeps_the_allocation() {
    let items = vec![1, 2, 3];
    let address = items.as_ptr();
    let taken = NonEmptyVec::try_from_vec(items).unwrap();
    assert_eq!(taken.get_vec().as_ptr(), address);
    assert_eq!(taken.to_vec().as_ptr(), address);
}

#[test]
fn try_from_vec_ref_mut_moves_the_items_out() {
    let mut items = vec![4, 5];
    let taken = NonEmptyVec::try_from_vec_ref_mut(&mut items).unwrap();
    assert_eq!(taken.get_vec(), &vec![4, 5]);
    assert!(items.is_empty());
}

#[test]
fn try_from_vec_ref_mut_leaves_an_empty_vec_alone() {
    let mut items: Vec<i32> = Vec::with_capacity(8);
    let capacity = items.capacity();
    assert!(NonEmptyVec::try_from_vec_ref_mut(&mut items).is_none());
    assert!(items.is_empty());
    assert_eq!(items.capacity(), capacity);
}

#[test]
fn from_vec_unchecked_takes_the_items() {
    let v = NonEmptyVec::from_vec_unchecked(vec![1, 2]);
    assert_eq!(v.get_vec(), &vec![1, 2]);
}

#[test]
fn from_arrays() {
    assert_eq!(NonEmptyVec::from_arr([1, 2, 3]).to_vec(), vec![1, 2, 3]);
    assert_eq!(NonEmptyVec::from_array_unchecked([9]).to_vec(), vec![9]);
}

#[test]
fn with_capacity_holds_the_item() {
    let v = NonEmptyVec::with_capacity(5, 16);
    assert_eq!(v.get_vec(), &vec![5]);
    assert!(v.capacity().get() >= 16);
    let w = NonEmptyVec::with_capacity(5, 0);
    assert_eq!(w.get_vec(), &vec![5]);
    assert!(w.capacity().get() >= 1);
    let x = NonEmptyVec::with_exact_capacity(5, positive(4));
    assert_eq!(x.get_vec(), &vec![5]);
    assert!(x.capacity().get() >= 4);
}

#[test]
fn capacity_changes_leave_the_items() {
    let mut v = from(vec![1, 2, 3]);
    v.reserve(10);
    assert!(v.capacity().get() >= 13);
    v.reserve_exact(20);
    assert!(v.capacity().get() >= 23);
    assert!(v.try_reserve(5).is_ok());
    assert!(v.try_reserve_exact(5).is_ok());
    assert_eq!(v.get_vec(), &vec![1, 2, 3]);
    v.shrink_to(4);
    assert!(v.capacity().get() >= 4);
    assert_eq!(v.get_vec(), &vec![1, 2, 3]);
    v.shrink_to_fit();
    assert!(v.capacity().get() >= 3);
    assert_eq!(v.get_vec(), &vec![1, 2, 3]);
}

#[test]
fn try_reserve_hands_on_the_error() {
    let mut v = from(vec![1, 2, 3]);
    assert!(v.try_reserve(usize::MAX).is_err());
    assert!(v.try_reserve_exact(usize::MAX).is_err());
    assert_eq!(v.get_vec(), &vec![1, 2, 3]);
}

#[test]
fn insert_and_append() {
    let mut v = from(vec![1, 4]);
    v.insert(1, 2);
    v.insert(2, 3);
    v.insert(4, 5);
    v.insert(0, 0);
    assert_eq!(v.get_vec(), &vec![0, 1, 2, 3, 4, 5]);
    let mut more = vec![6, 7];
    v.append_vec(&mut more);
    assert!(more.is_empty());
    assert_eq!(v.get_vec(), &vec![0, 1, 2, 3, 4, 5, 6, 7]);
}

#[test]
fn truncate_keeps_a_prefix() {
    let mut v = from(vec![1, 2, 3, 4]);
    v.truncate(positive(9));
    assert_eq!(v.get_vec(), &vec![1, 2, 3, 4]);
    v.truncate(positive(4));
    assert_eq!(v.get_vec(), &vec![1, 2, 3, 4]);
    v.truncate(positive(2));
    assert_eq!(v.get_vec(), &vec![1, 2]);
    v.truncate(positive(1));
    assert_eq!(v.get_vec(), &vec![1]);
}

#[test]
fn guarded_removals_refuse_on_a_single_item() {
    let mut v = NonEmptyVec::new(7);
    assert_eq!(v.try_pop(), None);
    assert_eq!(v.try_remove(0), None);
    assert_eq!(v.try_swap_remove(0), None);
    assert_eq!(v.try_remove(5), None);
    assert_eq!(v.try_swap_remove(5), None);
    assert_eq!(v.get_vec(), &vec![7]);
}

#[test]
fn try_remove_shifts_the_rest() {
    let mut v = from(vec![1, 2, 3, 4]);
    assert_eq!(v.try_remove(1), Some(2));
    assert_eq!(v.get_vec(), &vec![1, 3, 4]);
    assert_eq!(v.try_remove(0), Some(1));
    assert_eq!(v.get_vec(), &vec![3, 4]);
    assert_eq!(v.try_remove(1), Some(4));
    assert_eq!(v.get_vec(), &vec![3]);
    assert_eq!(v.try_remove(0), None);
}

#[test]
fn try_swap_remove_moves_the_last_in() {
    let mut v = from(vec![1, 2, 3, 4]);
    assert_eq!(v.try_swap_remove(0), Some(1));
    assert_eq!(v.get_vec(), &vec![4, 2, 3]);
    assert_eq!(v.try_swap_remove(2), Some(3));
    assert_eq!(v.get_vec(), &vec![4, 2]);
}

#[test]
fn swap_remove_with_a_positive_index() {
    let mut v = from(vec![1, 2, 3, 4]);
    assert_eq!(v.swap_remove(positive(1)), 2);
    assert_eq!(v.get_vec(), &vec![1, 4, 3]);
    assert_eq!(v.swap_remove(positive(2)), 3);
    assert_eq!(v.get_vec(), &vec![1, 4]);
    assert_eq!(v.swap_remove(positive(1)), 4);
    assert_eq!(v.get_vec(), &vec![1]);
}

#[test]
fn unchecked_removals() {
    let mut v = from(vec![1, 2, 3, 4]);
    assert_eq!(v.remove_unchecked(0), 1);
    assert_eq!(v.get_vec(), &vec![2, 3, 4]);
    assert_eq!(v.swap_remove_unchecked(0), 2);
    assert_eq!(v.get_vec(), &vec![4, 3]);
}

#[test]
fn drain_of_the_full_range_is_refused() {
    let mut v = from(vec![1, 2, 3]);
    assert_eq!(v.drain(Bound::Unbounded, Bound::Unbounded), None);
    assert_eq!(v.drain(Bound::Included(0), Bound::Excluded(3)), None);
    assert_eq!(v.drain(Bound::Included(0), Bound::Included(2)), None);
    assert_eq!(v.drain(Bound::Unbounded, Bound::Included(2)), None);
    assert_eq!(v.get_vec(), &vec![1, 2, 3]);
}

#[test]
fn drain_of_a_range_past_both_ends_is_refused() {
    let mut v = from(vec![1, 2, 3]);
    assert_eq!(v.drain(Bound::Included(0), Bound::Included(10)), None);
    assert_eq!(v.get_vec(), &vec![1, 2, 3]);
}

#[test]
fn drain_of_a_part_takes_it_out() {
    let mut v = from(vec![1, 2, 3, 4, 5]);
    assert_eq!(v.drain(Bound::Included(1), Bound::Excluded(3)), Some(vec![2, 3]));
    assert_eq!(v.get_vec(), &vec![1, 4, 5]);
    assert_eq!(v.drain(Bound::Excluded(0), Bound::Unbounded), Some(vec![4, 5]));
    assert_eq!(v.get_vec(), &vec![1]);
    let mut w = from(vec![1, 2, 3]);
    assert_eq!(w.drain(Bound::Unbounded, Bound::Included(1)), Some(vec![1, 2]));
    assert_eq!(w.get_vec(), &vec![3]);
}

#[test]
fn drain_of_an_empty_range_takes_nothing() {
    let mut v = from(vec![1, 2, 3]);
    assert_eq!(v.drain(Bound::Included(0), Bound::Excluded(0)), Some(vec![]));
    assert_eq!(v.drain(Bound::Included(3), Bound::Unbounded), Some(vec![]));
    assert_eq!(v.drain(Bound::Included(1), Bound::Excluded(1)), Some(vec![]));
    assert_eq!(v.get_vec(), &vec![1, 2, 3]);
    let mut single = NonEmptyVec::new(1);
    assert_eq!(single.drain(Bound::Included(0), Bound::Excluded(0)), Some(vec![]));
    assert_eq!(single.drain(Bound::Included(1), Bound::Excluded(1)), Some(vec![]));
    assert_eq!(single.drain(Bound::Included(0), Bound::Included(0)), None);
    assert_eq!(single.get_vec(), &vec![1]);
}

#[test]
fn drain_unchecked_takes_the_range() {
    let mut v = from(vec![1, 2, 3, 4]);
    assert_eq!(v.drain_unchecked(Bound::Included(2), Bound::Unbounded), vec![3, 4]);
    assert_eq!(v.get_vec(), &vec![1, 2]);
}

#[test]
fn split_off_keeps_the_front() {
    let mut v = from(vec![1, 2, 3, 4]);
    assert_eq!(v.split_off(positive(4)), vec![]);
    assert_eq!(v.split_off(positive(1)), vec![2, 3, 4]);
    assert_eq!(v.get_vec(), &vec![1]);
}

#[test]
fn splice_replaces_a_range() {
    let mut v = from(vec![1, 2, 3, 4]);
    assert_eq!(v.splice(Bound::Included(1), Bound::Excluded(3), vec![7, 8, 9]), vec![2, 3]);
    assert_eq!(v.get_vec(), &vec![1, 7, 8, 9, 4]);
    assert_eq!(v.splice(Bound::Unbounded, Bound::Unbounded, vec![5]), vec![1, 7, 8, 9, 4]);
    assert_eq!(v.get_vec(), &vec![5]);
    assert_eq!(v.splice(Bound::Included(1), Bound::Unbounded, vec![]), vec![]);
    assert_eq!(v.get_vec(), &vec![5]);
}

#[test]
fn resize_and_resize_with() {
    let mut v = from(vec![1, 2, 3]);
    v.resize(positive(5), 0);
    assert_eq!(v.get_vec(), &vec![1, 2, 3, 0, 0]);
    v.resize(positive(2), 0);
    assert_eq!(v.get_vec(), &vec![1, 2]);
    let mut next = 10;
    v.resize_with(positive(4), || {
        next += 1;
        next
    });
    assert_eq!(v.get_vec(), &vec![1, 2, 11, 12]);
    v.resize_with(positive(1), || 0);
    assert_eq!(v.get_vec(), &vec![1]);
    v.resize_with(positive(1), || 0);
    assert_eq!(v.get_vec(), &vec![1]);
}

#[test]
fn from_elem_repeats_the_item() {
    assert_eq!(NonEmptyVec::from_elem(7, positive(3)).to_vec(), vec![7, 7, 7]);
    assert_eq!(NonEmptyVec::from_elem(7, positive(1)).to_vec(), vec![7]);
}

#[test]
fn extending() {
    let mut v = from(vec![1, 2, 3]);
    v.extend_from_slice(&[4, 5]);
    assert_eq!(v.get_vec(), &vec![1, 2, 3, 4, 5]);
    v.extend_from_within(Bound::Included(1), Bound::Excluded(3));
    assert_eq!(v.get_vec(), &vec![1, 2, 3, 4, 5, 2, 3]);
    v.extend_from_within(Bound::Included(7), Bound::Unbounded);
    assert_eq!(v.get_vec(), &vec![1, 2, 3, 4, 5, 2, 3]);
    v.extend(vec![8, 9].into_iter());
    assert_eq!(v.get_vec(), &vec![1, 2, 3, 4, 5, 2, 3, 8, 9]);
    v.extend(std::iter::empty());
    assert_eq!(v.get_vec(), &vec![1, 2, 3, 4, 5, 2, 3, 8, 9]);
}

#[test]
fn dedup_keeps_the_first_of_each_run() {
    let mut v = from(vec![1, 1, 2, 2, 2, 1, 3, 3]);
    v.dedup();
    assert_eq!(v.get_vec(), &vec![1, 2, 1, 3]);
    let mut same = from(vec![4, 4, 4]);
    same.dedup();
    assert_eq!(same.get_vec(), &vec![4]);
    let mut single = NonEmptyVec::new(4);
    single.dedup();
    assert_eq!(single.get_vec(), &vec![4]);
}

#[test]
fn dedup_by_compares_with_the_item_kept_last() {
    let mut v = from(vec![1, 2, 3, 7, 8, 20]);
    v.dedup_by(|item: &i32, kept: &i32| *item - *kept <= 1);
    assert_eq!(v.get_vec(), &vec![1, 3, 7, 20]);
    let mut w = from(vec![1, 3, 5, 6]);
    w.dedup_by(|a: &i32, b: &i32| a % 2 == b % 2);
    assert_eq!(w.get_vec(), &vec![1, 6]);
}

#[test]
fn dedup_by_key_compares_keys() {
    let mut v = from(vec![10, 11, 20, 21, 29, 30, 12]);
    v.dedup_by_key(|item: &i32| *item / 10);
    assert_eq!(v.get_vec(), &vec![10, 20, 30, 12]);
}

#[test]
fn mutable_access_keeps_the_length() {
    let mut v = from(vec![1, 2, 3]);
    *v.as_slice_mut().first_mut() = 10;
    *v.as_slice_mut().last_mut() = 30;
    assert_eq!(v.get_vec(), &vec![10, 2, 30]);
    *v.as_slice_mut().get_mut(1) = 20;
    assert_eq!(v.get_vec(), &vec![10, 20, 30]);
    *v.as_slice_mut().get_mut(0) += 1;
    *v.as_slice_mut().get_mut(2) += 1;
    assert_eq!(v.get_vec(), &vec![11, 20, 31]);
    v.get_slice_mut()[1] = 21;
    assert_eq!(v.get_vec(), &vec![11, 21, 31]);
    v.get_slice_mut().reverse();
    assert_eq!(v.get_vec(), &vec![31, 21, 11]);
    let mut single = NonEmptyVec::new(1);
    *single.as_slice_mut().first_mut() = 2;
    *single.as_slice_mut().last_mut() += 1;
    assert_eq!(single.get_vec(), &vec![3]);
}

#[test]
fn boxed_round_trip_keeps_items_and_allocation() {
    let mut v = from(vec![1, 2, 3]);
    v.shrink_to_fit();
    let address = v.get_vec().as_ptr();
    let boxed = v.into_boxed_slice();
    assert_eq!(boxed.as_slice().get_slice(), &[1, 2, 3]);
    assert_eq!(boxed.as_slice().get_slice().as_ptr(), address);
    let back = boxed.into_vec();
    assert_eq!(back.get_vec(), &vec![1, 2, 3]);
    assert_eq!(back.get_vec().as_ptr(), address);
}

#[test]
fn leak_hands_out_the_items() {
    let leaked: &'static mut [i32] = from(vec![1, 2, 3]).leak();
    leaked[0] = 5;
    assert_eq!(leaked, &[5, 2, 3]);
}

#[test]
fn length_stays_positive_through_a_run_of_changes() {
    let mut v = NonEmptyVec::new(0);
    let mut expected = vec![0];
    for step in 0..200usize {
        match step % 7 {
            0 => {
                v.push(step as i32);
                expected.push(step as i32);
            }
            1 => {
                let got = v.try_pop();
                let want = if expected.len() > 1 { expected.pop() } else { None };
                assert_eq!(got, want);
            }
            2 => {
                let at = step % (expected.len() + 1);
                v.insert(at, 1);
                expected.insert(at, 1);
            }
            3 => {
                let at = step % expected.len();
                let got = v.try_remove(at);
                let want = if expected.len() > 1 { Some(expected.remove(at)) } else { None };
                assert_eq!(got, want);
            }
            4 => {
                v.extend(vec![1, 1, 2].into_iter());
                expected.extend(vec![1, 1, 2]);
            }
            5 => {
                v.dedup();
                expected.dedup();
            }
            _ => {
                let _ = v.try_pop();
                if expected.len() > 1 {
                    expected.pop();
                }
                let _ = v.try_pop();
                if expected.len() > 1 {
                    expected.pop();
                }
            }
        }
        assert!(v.as_slice().get_len() >= 1);
        assert_eq!(v.get_vec(), &expected);
    }
}

#[test]
fn std_conversions() {
    let taken = NonEmptyVec::try_from(vec![1, 2, 3]).unwrap();
    assert_eq!(taken.get_vec(), &vec![1, 2, 3]);
    let empty: Vec<i32> = Vec::new();
    assert_eq!(NonEmptyVec::try_from(empty), Err(Vec::new()));
    let back: Vec<i32> = Vec::from(taken);
    assert_eq!(back, vec![1, 2, 3]);
    let again: Result<NonEmptyVec<i32>, Vec<i32>> = back.try_into();
    let plain: Vec<i32> = again.unwrap().into();
    assert_eq!(plain, vec![1, 2, 3]);
}

#[test]
fn reading_as_std_does() {
    let v = from(vec![1, 2, 3]);
    assert_eq!(v[0], 1);
    assert_eq!(v[2], 3);
    let plain: &[i32] = v.as_ref();
    assert_eq!(plain, &[1, 2, 3]);
    let copy = v.clone();
    assert_eq!(copy, v);
    assert!(from(vec![1, 2]) < from(vec![1, 3]));
    let mut seen = Vec::new();
    for item in v {
        seen.push(item);
    }
    assert_eq!(seen, vec![1, 2, 3]);
}

#[test]
fn try_into_array_needs_the_exact_length() {
    assert_eq!(from(vec![1, 2, 3]).try_into_array::<3>(), Ok([1, 2, 3]));
    assert_eq!(from(vec![1, 2, 3]).try_into_array::<2>(), Err(from(vec![1, 2, 3])));
    assert_eq!(from(vec![1, 2, 3]).try_into_array::<4>(), Err(from(vec![1, 2, 3])));
    assert_eq!(from(vec![7]).try_into_array::<1>(), Ok([7]));
}

#[test]
fn asking_for_no_room_always_succeeds() {
    let mut v = from(vec![1, 2, 3]);
    v.shrink_to_fit();
    assert!(v.try_reserve(0).is_ok());
    assert!(v.try_reserve_exact(0).is_ok());
    assert_eq!(v.get_vec(), &vec![1, 2, 3]);
    let mut units = NonEmptyVec::from_elem((), positive(5));
    assert!(units.try_reserve(0).is_ok());
    assert!(units.try_reserve_exact(0).is_ok());
}

#[test]
fn room_for_more_than_can_be_counted_is_never_had() {
    let mut v = from(vec![1, 2, 3]);
    assert!(v.try_reserve_exact(usize::MAX - 2).is_err());
    assert!(v.try_reserve_exact(usize::MAX).is_err());
    assert_eq!(v.get_vec(), &vec![1, 2, 3]);
    let mut units = NonEmptyVec::from_elem((), positive(5));
    assert!(units.try_reserve_exact(usize::MAX - 4).is_err());
    assert!(units.try_reserve_exact(usize::MAX - 5).is_ok());
}
