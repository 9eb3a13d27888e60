use lib::task_priority::TaskPriority;
use lib::types::KernelError;

#[test]
fn new_accepts_min_priority() {
    let priority = TaskPriority::new(TaskPriority::MIN).unwrap();
    assert_eq!(priority.as_u8(), TaskPriority::MIN);
}

#[test]
fn new_accepts_max_priority() {
    let priority = TaskPriority::new(TaskPriority::MAX).unwrap();
    assert_eq!(priority.as_u8(), TaskPriority::MAX);
}

#[test]
fn new_rejects_invalid_priority() {
    let result = TaskPriority::new(TaskPriority::MAX + 1);
    assert_eq!(result, Err(KernelError::InvalidPriority));
}

#[test]
fn default_is_within_supported_bounds() {
    let level = TaskPriority::default().as_u8();
    assert!(level >= TaskPriority::MIN);
    assert!(level <= TaskPriority::MAX);
}

#[test]
fn ordering_matches_fpp_intent() {
    let lower = TaskPriority::new(4).unwrap();
    let higher = TaskPriority::new(8).unwrap();
    assert!(higher > lower);
}

#[test]
fn default_is_the_middle_level() {
    assert_eq!(TaskPriority::default().as_u8(), TaskPriority::DEFAULT_LEVEL);
    assert_eq!(TaskPriority::DEFAULT_LEVEL, 15);
}

#[test]
fn new_accepts_every_level_in_range_and_rejects_all_above() {
    for level in 0..=u8::MAX {
        let result = TaskPriority::new(level);
        if level <= TaskPriority::MAX {
            assert_eq!(result.unwrap().as_u8(), level);
        } else {
            assert_eq!(result, Err(KernelError::InvalidPriority));
        }
    }
}

#[test]
fn level_round_trips_through_new() {
    for level in TaskPriority::MIN..=TaskPriority::MAX {
        let p = TaskPriority::new(level).unwrap();
        assert_eq!(TaskPriority::new(p.as_u8()), Ok(p));
    }
}

#[test]
fn more_urgent_priority_compares_less() {
    let urgent = TaskPriority::new(2).unwrap();
    let relaxed = TaskPriority::new(20).unwrap();
    assert!(urgent < relaxed);
    assert!(!(relaxed < urgent));
    assert_eq!(urgent.partial_cmp(&urgent), Some(core::cmp::Ordering::Equal));
}
