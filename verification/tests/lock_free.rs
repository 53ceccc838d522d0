use kernel_snippets::lock_free::{AtomicCounter, KernelArc, RcuProtected, TreiberStack};

#[test]
fn test_atomic_counter() {
    let mut counter = AtomicCounter::new();
    assert_eq!(counter.get(), 0);
    counter.increment();
    counter.increment();
    assert_eq!(counter.get(), 2);
    counter.decrement();
    assert_eq!(counter.get(), 1);
}

#[test]
fn test_treiber_stack_empty() {
    let mut stack: TreiberStack<u32> = TreiberStack::new();
    assert!(stack.is_empty());
    assert!(stack.pop().is_none());
}

#[test]
fn test_treiber_stack_push_pop() {
    let mut stack = TreiberStack::new();
    stack.push(1u32).unwrap();
    stack.push(2u32).unwrap();
    stack.push(3u32).unwrap();
    // LIFO order
    assert_eq!(stack.pop(), Some(3));
    assert_eq!(stack.pop(), Some(2));
    assert_eq!(stack.pop(), Some(1));
    assert!(stack.is_empty());
}

#[test]
fn test_compare_exchange() {
    let mut counter = AtomicCounter::new();
    // Should succeed: 0 -> 10
    assert!(counter.compare_exchange(0, 10).is_ok());
    assert_eq!(counter.get(), 10);
    // Should fail: 0 != 10
    assert!(counter.compare_exchange(0, 20).is_err());
    assert_eq!(counter.get(), 10);
}

#[test]
fn counter_operations_return_previous_value() {
    let mut counter = AtomicCounter::default();
    assert_eq!(counter.increment(), 0);
    assert_eq!(counter.increment(), 1);
    assert_eq!(counter.decrement(), 2);
    assert_eq!(counter.get(), 1);
}

#[test]
fn counter_wraps_like_a_machine_word() {
    let mut counter = AtomicCounter::new();
    assert_eq!(counter.decrement(), 0);
    assert_eq!(counter.get(), usize::MAX);
    assert_eq!(counter.increment(), usize::MAX);
    assert_eq!(counter.get(), 0);
}

#[test]
fn compare_exchange_reports_previous_and_actual() {
    let mut counter = AtomicCounter::new();
    assert_eq!(counter.compare_exchange(0, 7), Ok(0));
    assert_eq!(counter.compare_exchange(3, 9), Err(7));
    assert_eq!(counter.compare_exchange(7, 9), Ok(7));
    assert_eq!(counter.get(), 9);
}

#[test]
fn push_then_pop_restores_stack() {
    let mut stack = TreiberStack::new();
    stack.push(10u64).unwrap();
    stack.push(20u64).unwrap();
    assert_eq!(stack.push(30u64), Ok(()));
    assert_eq!(stack.pop(), Some(30));
    assert!(!stack.is_empty());
    assert_eq!(stack.pop(), Some(20));
    assert_eq!(stack.pop(), Some(10));
    assert_eq!(stack.pop(), None);
    assert!(stack.is_empty());
}

#[test]
fn kernel_arc_clones_share_the_value() {
    let a = KernelArc::new(vec![1u8, 2, 3]).unwrap();
    let b = a.clone();
    assert_eq!(a.as_ref(), &vec![1u8, 2, 3]);
    assert_eq!(b.as_ref(), a.as_ref());
    drop(a);
    assert_eq!(b.as_ref(), &vec![1u8, 2, 3]);
}

#[test]
fn rcu_replace_returns_old_value_and_publishes_new() {
    let mut rcu = RcuProtected::new(5u32).unwrap();
    assert_eq!(rcu.read(|v| *v * 10), 50);
    let old = rcu.replace(8).unwrap();
    assert_eq!(old, 5);
    assert_eq!(rcu.read(|v| *v + 1), 9);
}

#[test]
fn deep_stack_drops_without_recursion() {
    let mut stack = TreiberStack::new();
    for i in 0..300_000u32 {
        stack.push(i).unwrap();
    }
    assert_eq!(stack.pop(), Some(299_999));
    drop(stack);
}
