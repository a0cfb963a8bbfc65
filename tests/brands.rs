use std::marker::PhantomData;
use std::mem::size_of;

use brandy::{
    Brand, BoundBrand, BrandedIndex, BrandedIndices, BrandedVec, FreshBrand, VecWithIndices,
    WithFreshBrand,
};

type BoundVecWithIndices = BoundBrand<VecWithIndices<usize>>;

fn create_data<B: Brand>(fresh: FreshBrand<B>) -> (BoundVecWithIndices, usize) {
    let vec: Vec<usize> = (0..10).collect();
    let branded = BrandedVec::new(fresh, vec);
    let mut indices = branded.indices();
    indices.reverse();
    let before = *branded.at(indices.get(0));
    (BoundBrand::bind((branded, indices)), before)
}

fn use_data<B: Brand>(fresh: FreshBrand<B>, data: BoundVecWithIndices) -> (usize, Vec<usize>) {
    let (branded, indices) = data.substitute(fresh);
    let first = *branded.at(indices.get(0));
    let mut all = Vec::new();
    for k in 0..indices.len() {
        all.push(*branded.at(indices.get(k)));
    }
    (first, all)
}

struct RoundTrip;

impl WithFreshBrand for RoundTrip {
    type Output = (usize, usize, Vec<usize>);

    fn with_fresh_brand(fresh: FreshBrand<impl Brand>) -> Self::Output {
        let (create, use_later) = fresh.split();
        let (bound, before) = create_data(create);
        let (after, all) = use_data(use_later, bound);
        (before, after, all)
    }
}

#[test]
fn transfer_round_trip_keeps_contents() {
    let (before, after, all) = RoundTrip::run();
    assert_eq!(before, 9);
    assert_eq!(after, 9);
    assert_eq!(all, vec![9, 8, 7, 6, 5, 4, 3, 2, 1, 0]);
}

struct Sizes;

impl WithFreshBrand for Sizes {
    type Output = Vec<(usize, usize)>;

    fn with_fresh_brand(fresh: FreshBrand<impl Brand>) -> Self::Output {
        let token = size_of_val(&fresh);
        let (left, right) = fresh.split();
        let halves = size_of_val(&left) + size_of_val(&right);
        let branded = BrandedVec::new(left, vec![1u64, 2, 3]);
        let indices = branded.indices();
        let index = indices.get(1);
        let bound = BoundBrand::<VecWithIndices<u64>>::bind((branded, indices));
        let bound_size = size_of_val(&bound);
        let (again, again_indices) = bound.substitute(right);
        vec![
            (token, 0),
            (halves, 0),
            (size_of_val(&index), size_of::<usize>()),
            (size_of_val(&again), size_of::<Vec<u64>>()),
            (size_of_val(&again_indices), size_of::<Vec<usize>>()),
            (bound_size, size_of::<(Vec<u64>, Vec<usize>)>()),
        ]
    }
}

#[test]
fn brands_cost_no_space() {
    for (got, want) in Sizes::run() {
        assert_eq!(got, want);
    }
}

struct TwoVectors;

impl WithFreshBrand for TwoVectors {
    type Output = (Vec<i32>, Vec<i32>);

    fn with_fresh_brand(fresh: FreshBrand<impl Brand>) -> Self::Output {
        let (a, b) = fresh.split();
        let first = BrandedVec::new(a, vec![1, 2, 3]);
        let second = BrandedVec::new(b, vec![4, 5, 6]);
        let mut from_first = Vec::new();
        let first_indices = first.indices();
        for k in 0..first_indices.len() {
            from_first.push(*first.at(first_indices.get(k)));
        }
        let mut from_second = Vec::new();
        let second_indices = second.indices();
        for k in 0..second_indices.len() {
            from_second.push(*second.at(second_indices.get(k)));
        }
        (from_first, from_second)
    }
}

#[test]
fn split_halves_brand_separate_vectors() {
    let (first, second) = TwoVectors::run();
    assert_eq!(first, vec![1, 2, 3]);
    assert_eq!(second, vec![4, 5, 6]);
}

struct IndexList;

impl WithFreshBrand for IndexList {
    type Output = (usize, Vec<usize>, Vec<usize>, Option<usize>, Option<usize>, usize);

    fn with_fresh_brand(fresh: FreshBrand<impl Brand>) -> Self::Output {
        let (a, b) = fresh.split();
        let branded = BrandedVec::new(a, vec!['a', 'b', 'c', 'd', 'e']);
        let mut indices = branded.indices();
        let len = branded.len();
        let ascending = positions(&indices);
        indices.reverse();
        let descending = positions(&indices);
        let last = indices.pop().map(|i: BrandedIndex<_>| i.get());
        let empty = BrandedVec::<char, _>::new(b, Vec::new());
        let mut none = empty.indices();
        none.reverse();
        let nothing = none.pop().map(|i| i.get());
        (len, ascending, descending, last, nothing, indices.len())
    }
}

fn positions<B: Brand>(indices: &BrandedIndices<B>) -> Vec<usize> {
    (0..indices.len()).map(|k| indices.get(k).get()).collect()
}

#[test]
fn indices_reverse_and_pop() {
    let (len, ascending, descending, last, nothing, left) = IndexList::run();
    assert_eq!(len, 5);
    assert_eq!(ascending, vec![0, 1, 2, 3, 4]);
    assert_eq!(descending, vec![4, 3, 2, 1, 0]);
    assert_eq!(last, Some(0));
    assert_eq!(nothing, None);
    assert_eq!(left, 4);
}

struct Marker;

impl WithFreshBrand for Marker {
    type Output = usize;

    fn with_fresh_brand(fresh: FreshBrand<impl Brand>) -> Self::Output {
        let marker = phantom_of(fresh);
        size_of_val(&marker)
    }
}

fn phantom_of<B: Brand>(fresh: FreshBrand<B>) -> PhantomData<B> {
    fresh.into()
}

#[test]
fn token_becomes_phantom_marker() {
    assert_eq!(Marker::run(), 0);
}

struct Answer;

impl WithFreshBrand for Answer {
    type Output = u32;

    fn with_fresh_brand(fresh: FreshBrand<impl Brand>) -> Self::Output {
        let (_, inner) = fresh.split();
        let branded = BrandedVec::new(inner, vec![40u32, 2]);
        let indices = branded.indices();
        *branded.at(indices.get(0)) + *branded.at(indices.get(1))
    }
}

#[test]
fn run_returns_what_the_computation_returns() {
    assert_eq!(Answer::run(), 42);
}

struct CopiedIndex;

impl WithFreshBrand for CopiedIndex {
    type Output = (usize, usize, char, char);

    fn with_fresh_brand(fresh: FreshBrand<impl Brand>) -> Self::Output {
        let branded = BrandedVec::new(fresh, vec!['x', 'y', 'z']);
        let indices = branded.indices();
        let index = indices.get(2);
        let copy = index;
        let cloned = index.clone();
        (copy.get(), cloned.get(), *branded.at(copy), *branded.at(index))
    }
}

#[test]
fn branded_index_copies_keep_position() {
    assert_eq!(CopiedIndex::run(), (2, 2, 'z', 'z'));
}
