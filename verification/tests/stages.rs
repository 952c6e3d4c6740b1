use query_engine::js_array::{JsArray, LocalArrayExtension};
use query_engine::stages::filter::{filter_slots, FilterRun};
use query_engine::stages::group::{group_arguments, group_by_keys};
use query_engine::stages::lookup::{lookup_copy, lookup_plan, LookupTarget};
use query_engine::stages::pick::{count, first, last};

fn values(a: &JsArray<u32>) -> Vec<Option<u32>> {
    a.as_slots().clone()
}

#[test]
fn array_write_past_end_leaves_holes() {
    let mut a = JsArray::from_values(vec![1u32, 2]);
    a.set_index(4, 9);
    assert_eq!(values(&a), vec![Some(1), Some(2), None, None, Some(9)]);
    assert_eq!(a.get_index(2), None);
    assert_eq!(a.get_index(4), Some(9));
    assert_eq!(a.get_index(10), None);
    assert_eq!(a.length(), 5);
}

#[test]
fn array_delete_keeps_length() {
    let mut a = JsArray::from_values(vec![1u32, 2, 3]);
    a.delete_index(1);
    assert_eq!(values(&a), vec![Some(1), None, Some(3)]);
    a.delete_index(7);
    assert_eq!(a.length(), 3);
}

#[test]
fn array_set_length_cuts_pads_and_refuses_negative() {
    let mut a = JsArray::from_values(vec![1u32, 2, 3]);
    a.set_length(-1);
    assert_eq!(values(&a), vec![Some(1), Some(2), Some(3)]);
    a.set_length(1);
    assert_eq!(values(&a), vec![Some(1)]);
    a.set_length(3);
    assert_eq!(values(&a), vec![Some(1), None, None]);
    a.clear();
    assert_eq!(a.length(), 0);
}

#[test]
fn array_collection_load_appends_in_order() {
    let mut a = JsArray::from_values(vec![7u32]);
    a.collection_load(vec![1, 2]);
    assert_eq!(values(&a), vec![Some(7), Some(1), Some(2)]);
}

#[test]
fn array_copy_overwrites_prefix_and_keeps_rest() {
    let mut a = JsArray::from_values(vec![1u32, 2, 3, 4]);
    let b = JsArray::from_slots(vec![Some(8u32), None]);
    a.copy(&b);
    assert_eq!(values(&a), vec![Some(8), None, Some(3), Some(4)]);
    let mut c: JsArray<u32> = JsArray::new();
    c.copy(&JsArray::from_values(vec![5, 6]));
    assert_eq!(values(&c), vec![Some(5), Some(6)]);
}

#[test]
fn filter_keeps_true_verdicts_in_order() {
    let a = JsArray::from_values(vec![1u32, 2, 3, 4, 5]);
    let r = filter_slots(a, &vec![true, false, true, false, true]);
    assert_eq!(values(&r), vec![Some(1), Some(3), Some(5)]);
}

#[test]
fn filter_keeps_everything_or_nothing() {
    let a = JsArray::from_values(vec![1u32, 2, 3]);
    let r = filter_slots(a, &vec![true, true, true]);
    assert_eq!(values(&r), vec![Some(1), Some(2), Some(3)]);
    let a = JsArray::from_values(vec![1u32, 2, 3]);
    let r = filter_slots(a, &vec![false, false, false]);
    assert_eq!(r.length(), 0);
    let e: JsArray<u32> = JsArray::new();
    assert_eq!(filter_slots(e, &vec![]).length(), 0);
}

#[test]
fn filter_run_moves_kept_items_into_freed_slots() {
    let a = JsArray::from_values(vec![10u32, 20, 30, 40]);
    let mut run = FilterRun::new(a);
    assert!(!run.is_done());
    assert_eq!(run.current(), Some(10));
    run.step(false);
    assert_eq!(run.current(), Some(20));
    run.step(true);
    assert_eq!(run.current(), Some(30));
    run.step(false);
    let mid = run.into_array();
    assert_eq!(values(&mid), vec![Some(20), None, None, Some(40)]);
}

#[test]
fn filter_run_finishes_with_kept_length() {
    let a = JsArray::from_values(vec![10u32, 20, 30, 40]);
    let mut run = FilterRun::new(a);
    for keep in [false, true, false, true] {
        run.step(keep);
    }
    assert!(run.is_done());
    assert_eq!(values(&run.finish()), vec![Some(20), Some(40)]);
}

#[test]
fn group_splits_by_key_in_first_seen_order() {
    let items = JsArray::from_values(vec![10u32, 20, 30, 40, 50]);
    let groups = group_by_keys(&items, &vec![7, 3, 7, 9, 3]);
    assert_eq!(groups.len(), 3);
    assert_eq!(groups[0].key, 7);
    assert_eq!(values(&groups[0].items), vec![Some(10), Some(30)]);
    assert_eq!(groups[1].key, 3);
    assert_eq!(values(&groups[1].items), vec![Some(20), Some(50)]);
    assert_eq!(groups[2].key, 9);
    assert_eq!(values(&groups[2].items), vec![Some(40)]);
    let total: usize = groups.iter().map(|g| g.items.length()).sum();
    assert_eq!(total, 5);
}

#[test]
fn group_keeps_holes_and_handles_empty() {
    let items = JsArray::from_slots(vec![None, Some(1u32)]);
    let groups = group_by_keys(&items, &vec![0, 0]);
    assert_eq!(groups.len(), 1);
    assert_eq!(values(&groups[0].items), vec![None, Some(1)]);
    let none: JsArray<u32> = JsArray::new();
    assert!(group_by_keys(&none, &vec![]).is_empty());
}

#[test]
fn group_arguments_by_count() {
    let two = group_arguments(2);
    assert_eq!((two.transform, two.key), (1, Some(0)));
    let one = group_arguments(1);
    assert_eq!((one.transform, one.key), (0, None));
    let three = group_arguments(3);
    assert_eq!((three.transform, three.key), (0, None));
}

#[test]
fn lookup_plan_by_arguments() {
    let p = lookup_plan(3, true);
    assert!(p.scope);
    assert!(matches!(p.target, LookupTarget::Field));
    let p = lookup_plan(2, false);
    assert!(!p.scope);
    assert!(matches!(p.target, LookupTarget::Callback));
}

#[test]
fn lookup_copy_is_a_fresh_equal_array() {
    let c = JsArray::from_slots(vec![Some(1u32), None, Some(3)]);
    let mut copy = lookup_copy(&c);
    assert_eq!(values(&copy), values(&c));
    copy.set_index(0, 5);
    assert_eq!(c.get_index(0), Some(1));
}

#[test]
fn pick_count_first_last() {
    let a = JsArray::from_values(vec![4u32, 5, 6]);
    assert_eq!(count(&a), 3);
    assert_eq!(first(&a), Some(4));
    assert_eq!(last(&a), Some(6));
    let e: JsArray<u32> = JsArray::new();
    assert_eq!(count(&e), 0);
    assert_eq!(first(&e), None);
}
