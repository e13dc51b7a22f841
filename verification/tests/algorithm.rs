use framelink::algorithm::{bubble_sort, merge_sort, quick_sort};
use framelink::order::{is_at_most, is_greater, is_less};

fn samples() -> Vec<Vec<i32>> {
    let mut noisy = Vec::new();
    let mut state: u32 = 12345;
    for _ in 0..257 {
        state = state.wrapping_mul(1_103_515_245).wrapping_add(12345);
        noisy.push(((state >> 16) % 2001) as i32 - 1000);
    }
    vec![
        vec![],
        vec![1],
        vec![2, 1],
        vec![1, 2],
        vec![3, 3, 3],
        vec![5, 4, 3, 2, 1],
        vec![1, 2, 3, 4, 5],
        vec![0, -1, i32::MAX, i32::MIN, 0, 7, 7, -1],
        noisy,
    ]
}

fn sorted_copy(input: &[i32]) -> Vec<i32> {
    let mut expected = input.to_vec();
    expected.sort();
    expected
}

#[test]
fn bubble_sort_sorts() {
    for sample in samples() {
        let mut arr = sample.clone();
        bubble_sort(&mut arr);
        assert_eq!(arr, sorted_copy(&sample));
    }
}

#[test]
fn quick_sort_sorts() {
    for sample in samples() {
        let mut arr = sample.clone();
        quick_sort(&mut arr);
        assert_eq!(arr, sorted_copy(&sample));
    }
}

#[test]
fn merge_sort_sorts() {
    for sample in samples() {
        let mut arr = sample.clone();
        merge_sort(&mut arr);
        assert_eq!(arr, sorted_copy(&sample));
    }
}

#[test]
fn exact_result_of_each_sort() {
    let mut a = [3, 1, 2];
    bubble_sort(&mut a);
    assert_eq!(a, [1, 2, 3]);
    let mut b = [9u8, 0, 4, 4];
    quick_sort(&mut b);
    assert_eq!(b, [0, 4, 4, 9]);
    let mut c = ['c', 'a', 'b'];
    merge_sort(&mut c);
    assert_eq!(c, ['a', 'b', 'c']);
}

#[test]
fn sorts_work_on_part_of_a_vector() {
    let mut v = vec![9, 8, 7, 6, 5];
    quick_sort(&mut v[1..4]);
    assert_eq!(v, vec![9, 6, 7, 8, 5]);
    bubble_sort(&mut v[..2]);
    assert_eq!(v, vec![6, 9, 7, 8, 5]);
    merge_sort(&mut v[2..]);
    assert_eq!(v, vec![6, 9, 5, 7, 8]);
}

#[test]
fn sorts_of_strings_go_by_their_order() {
    let mut words = vec!["pear".to_string(), "apple".to_string(), "fig".to_string()];
    bubble_sort(&mut words);
    assert_eq!(words, vec!["apple", "fig", "pear"]);
    let mut words = vec!["pear".to_string(), "apple".to_string(), "fig".to_string()];
    quick_sort(&mut words);
    assert_eq!(words, vec!["apple", "fig", "pear"]);
}

#[test]
fn comparisons_follow_ord() {
    assert!(is_greater(&2, &1));
    assert!(!is_greater(&1, &1));
    assert!(!is_greater(&1, &2));
    assert!(is_less(&1, &2));
    assert!(!is_less(&2, &2));
    assert!(is_at_most(&2, &2));
    assert!(is_at_most(&1, &2));
    assert!(!is_at_most(&3, &2));
}
