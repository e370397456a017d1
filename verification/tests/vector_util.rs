use simple_fps::vector_util::{get_consecutive_somes, get_upto};

#[test]
fn get_upto_clips_long_vectors() {
    let v = vec![1, 2, 3, 4, 5];
    assert_eq!(get_upto(&v, 3), &[1, 2, 3]);
    assert_eq!(get_upto(&v, 5), &[1, 2, 3, 4, 5]);
    assert_eq!(get_upto(&v, 9), &[1, 2, 3, 4, 5]);
    assert_eq!(get_upto(&v, 0), &[] as &[i32]);
}

#[test]
fn consecutive_somes_groups_runs() {
    let v = vec![Some(1), Some(2), None, Some(3), None, None, Some(4), Some(5)];
    let groups = get_consecutive_somes(&v, |n: &i32| n * 10);
    assert_eq!(groups, vec![(0, vec![10, 20]), (3, vec![30]), (6, vec![40, 50])]);
}

#[test]
fn consecutive_somes_of_empty_and_all_none() {
    let empty: Vec<Option<i32>> = Vec::new();
    assert_eq!(get_consecutive_somes(&empty, |n: &i32| *n).len(), 0);
    let nones: Vec<Option<i32>> = vec![None, None, None];
    assert_eq!(get_consecutive_somes(&nones, |n: &i32| *n).len(), 0);
}

#[test]
fn consecutive_somes_single_run_to_the_end() {
    let v = vec![None, Some(7), Some(8)];
    let groups = get_consecutive_somes(&v, |n: &i32| *n);
    assert_eq!(groups, vec![(1, vec![7, 8])]);
}
