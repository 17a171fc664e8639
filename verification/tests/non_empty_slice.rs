use non_empty_continuous::{NonEmptyBoxedSlice, NonEmptySlice, NonEmptyVec, PositiveUsize};

fn positive(n: usize) -> PositiveUsize {
    PositiveUsize::new(n).unwrap()
}

#[test]
fn positive_usize_refuses_zero() {
    assert!(PositiveUsize::new(0).is_none());
    assert_eq!(PositiveUsize::new(1).unwrap().get(), 1);
    assert_eq!(PositiveUsize::new(usize::MAX).unwrap().get(), usize::MAX);
    assert_eq!(PositiveUsize::new_unchecked(5).get(), 5);
    assert_eq!(PositiveUsize::new(5), Some(PositiveUsize::new_unchecked(5)));
    assert!(positive(2) < positive(3));
}

#[test]
fn try_from_empty_slice_hands_it_back() {
    let empty: [i32; 0] = [];
    match NonEmptySlice::try_from_slice(&empty[..]) {
        Ok(_) => panic!("an empty slice was taken"),
        Err(slice) => {
            assert!(slice.is_empty());
            assert_eq!(slice.as_ptr(), empty.as_ptr());
        }
    }
}

#[test]
fn try_from_slice_round_trip() {
    let items = [1, 2, 3];
    let view = NonEmptySlice::try_from_slice(&items[..]).unwrap();
    assert_eq!(view.get_slice(), &[1, 2, 3]);
    assert_eq!(view.get_slice().as_ptr(), items.as_ptr());
}

#[test]
fn prefix_and_whole_range() {
    let items = [1, 2, 3];
    let view = NonEmptySlice::try_from_slice(&items[..]).unwrap();
    assert_eq!(view.up_to_inclusive(1).get_slice(), &[1, 2]);
    assert_eq!(view.up_to_inclusive(0).get_slice(), &[1]);
    assert_eq!(view.up_to_inclusive(2).get_slice(), &[1, 2, 3]);
    assert_eq!(view.whole().get_slice(), &[1, 2, 3]);
    assert_eq!(view.whole().get_slice().as_ptr(), items.as_ptr());
}

#[test]
fn lengths() {
    let one = [1];
    let two = [1, 2];
    let three = [1, 2, 3];
    assert!(NonEmptySlice::from_arr(&one).has_just_1_element());
    assert!(!NonEmptySlice::from_arr(&two).has_just_1_element());
    assert!(!NonEmptySlice::from_arr(&three).has_just_1_element());
    assert_eq!(NonEmptySlice::from_arr(&three).len(), positive(3));
    assert_eq!(NonEmptySlice::from_arr(&three).get_len(), 3);
    assert_eq!(NonEmptySlice::from_arr(&one).get_len(), 1);
}

#[test]
fn first_last_and_index() {
    let items = [4, 5, 6];
    let view = NonEmptySlice::from_slice_unchecked(&items[..]);
    assert_eq!(*view.first(), 4);
    assert_eq!(*view.last(), 6);
    assert_eq!(view[1], 5);
    assert_eq!(view[0], 4);
    assert_eq!(view[2], 6);
    let single = [9];
    let view = NonEmptySlice::from_arr(&single);
    assert_eq!(*view.first(), 9);
    assert_eq!(*view.last(), 9);
}

#[test]
fn views_are_copied_freely() {
    let items = [4, 5, 6];
    let view = NonEmptySlice::from_arr(&items);
    let copy = view;
    let clone = view.clone();
    assert_eq!(view.get_slice(), copy.get_slice());
    assert_eq!(view.get_slice(), clone.get_slice());
}

#[test]
fn to_vec_clones_the_items() {
    let items = [String::from("a"), String::from("b")];
    let view = NonEmptySlice::from_arr(&items);
    let owned: NonEmptyVec<String> = view.to_vec();
    assert_eq!(owned.get_vec(), &vec![String::from("a"), String::from("b")]);
}

#[test]
fn repeat_concatenates_copies() {
    let items = [1, 2, 3];
    let view = NonEmptySlice::from_arr(&items);
    assert_eq!(view.repeat(positive(1)).to_vec(), vec![1, 2, 3]);
    assert_eq!(view.repeat(positive(3)).to_vec(), vec![1, 2, 3, 1, 2, 3, 1, 2, 3]);
    assert_eq!(view.repeat(positive(3)).as_slice().get_len(), 9);
    let single = [7];
    assert_eq!(NonEmptySlice::from_arr(&single).repeat(positive(4)).to_vec(), vec![7, 7, 7, 7]);
    for n in 1..6usize {
        let repeated = view.repeat(positive(n)).to_vec();
        assert_eq!(repeated.len(), n * 3);
        assert_eq!(repeated, items.repeat(n));
    }
}

#[test]
fn vec_as_slice_shows_the_items() {
    let v = NonEmptyVec::try_from_vec(vec![1, 2, 3]).unwrap();
    let view = v.as_slice();
    assert_eq!(view.get_slice(), &[1, 2, 3]);
    assert_eq!(view.get_slice().as_ptr(), v.get_vec().as_ptr());
    assert_eq!(view.len().get(), 3);
}

#[test]
fn boxed_slices() {
    let empty: Box<[i32]> = Vec::new().into_boxed_slice();
    assert!(NonEmptyBoxedSlice::try_from_boxed_slice(empty).is_err());
    let boxed = NonEmptyBoxedSlice::try_from_boxed_slice(vec![1, 2].into_boxed_slice()).unwrap();
    assert_eq!(boxed.as_slice().get_slice(), &[1, 2]);
    let plain: Box<[i32]> = boxed.into_boxed_slice();
    assert_eq!(&*plain, &[1, 2]);
    let unchecked = NonEmptyBoxedSlice::from_boxed_slice_unchecked(vec![3].into_boxed_slice());
    assert_eq!(unchecked.into_vec().to_vec(), vec![3]);
}

#[test]
fn try_from_empty_slice_mut_hands_it_back() {
    let mut empty: [i32; 0] = [];
    assert!(NonEmptySlice::try_from_slice_mut(&mut empty[..]).is_err());
}

#[test]
fn writing_through_a_view() {
    let mut items = [1, 2, 3];
    {
        let mut view = NonEmptySlice::try_from_slice_mut(&mut items[..]).ok().unwrap();
        *view.first_mut() = 10;
        *view.last_mut() = 30;
        *view.get_mut(1) = 20;
        *view.get_mut(0) += 1;
        *view.get_mut(2) += 1;
    }
    assert_eq!(items, [11, 20, 31]);
    let mut single = [5];
    {
        let mut view = NonEmptySlice::from_slice_unchecked_mut(&mut single[..]);
        *view.last_mut() = 6;
        assert_eq!(*view.first_mut(), 6);
        *view.first_mut() = 7;
        assert_eq!(*view.get_mut(0), 7);
    }
    assert_eq!(single, [7]);
}

#[test]
fn a_view_to_write_through_is_its_first_item_and_the_rest() {
    let mut items = [1, 2, 3];
    let view = NonEmptySlice::from_slice_unchecked_mut(&mut items[..]);
    assert_eq!(*view.first, 1);
    assert_eq!(view.rest, &[2, 3]);
}
