use userland::demo::{fktest_counter, heap_test_grow, pingpong_step, select_demo, Demo, PingPongStep};

#[test]
fn entry_argument_selects_program() {
    assert_eq!(select_demo(0), Some(Demo::ForkTest));
    assert_eq!(select_demo(1), Some(Demo::PingPong));
    assert_eq!(select_demo(2), Some(Demo::HeapTest));
    assert_eq!(select_demo(3), None);
}

#[test]
fn fork_test_counters() {
    assert_eq!(fktest_counter(5, 0), 1);
    assert_eq!(fktest_counter(-1, 0), 1);
    assert_eq!(fktest_counter(0, 6), 2);
    assert_eq!(fktest_counter(0, 0), 3);
}

#[test]
fn heap_test_lengths() {
    let mut child = vec![1, 2, 3];
    heap_test_grow(&mut child, 0);
    assert_eq!(child, vec![1, 2, 3]);
    let mut parent = vec![1, 2, 3];
    heap_test_grow(&mut parent, 4);
    assert_eq!(parent, vec![1, 2, 3, 4, 5]);
    let mut failed = vec![1, 2, 3];
    heap_test_grow(&mut failed, -1);
    assert_eq!(failed.len(), 5);
}

#[test]
fn pingpong_counts_to_ten() {
    assert_eq!(pingpong_step(10), PingPongStep::Stop);
    assert_eq!(pingpong_step(0), PingPongStep::Reply { value: 1, last: false });
    assert_eq!(pingpong_step(9), PingPongStep::Reply { value: 10, last: true });
    let mut value = 0;
    let mut messages = 0;
    loop {
        match pingpong_step(value) {
            PingPongStep::Stop => break,
            PingPongStep::Reply { value: v, last } => {
                messages += 1;
                value = v;
                if last {
                    break;
                }
            }
        }
    }
    assert_eq!(value, 10);
    assert_eq!(messages, 10);
}
