use dt_sequences::reward_to_go::rewards_to_go;
use dt_sequences::window::{copy_slots, masked_next, next_sequence, RollingWindow};

#[test]
fn new_window_is_all_zero() {
    let w: RollingWindow<i64> = RollingWindow::new(4, 0);
    assert_eq!(w.capacity(), 4);
    assert_eq!(w.snapshot(), vec![0, 0, 0, 0]);
}

#[test]
fn short_history_is_padded_at_the_front() {
    let mut w: RollingWindow<i64> = RollingWindow::new(4, 0);
    w.push(11);
    assert_eq!(w.snapshot(), vec![0, 0, 0, 11]);
    w.push(12);
    assert_eq!(w.snapshot(), vec![0, 0, 11, 12]);
}

#[test]
fn full_window_keeps_the_most_recent_elements() {
    let capacity: usize = 3;
    let mut w: RollingWindow<usize> = RollingWindow::new(capacity, 0);
    let pushed: Vec<usize> = (100..110).collect();
    for (n, x) in pushed.iter().enumerate() {
        w.push(*x);
        if n + 1 >= capacity {
            let s = w.snapshot();
            assert_eq!(s[capacity - 1], *x);
            for j in 0..capacity {
                assert_eq!(s[j], pushed[n - (capacity - 1 - j)]);
            }
        }
    }
    assert_eq!(w.snapshot(), vec![107, 108, 109]);
    assert_eq!(w.capacity(), 3);
}

#[test]
fn masked_snapshot_zeroes_only_the_last_slot() {
    let mut w: RollingWindow<i64> = RollingWindow::new(3, 0);
    assert_eq!(w.masked_snapshot(), vec![0, 0, 0]);
    for x in [5, 6, 7, 8] {
        w.push(x);
        let plain = w.snapshot();
        let masked = w.masked_snapshot();
        assert_eq!(masked[2], 0);
        assert_eq!(masked[..2], plain[..2]);
    }
    assert_eq!(w.masked_snapshot(), vec![6, 7, 0]);
    // The buffer itself is not masked.
    assert_eq!(w.snapshot(), vec![6, 7, 8]);
}

#[test]
fn snapshot_is_repeatable_and_independent() {
    let mut w: RollingWindow<i64> = RollingWindow::new(2, 0);
    w.push(1);
    let mut first = w.snapshot();
    let second = w.snapshot();
    assert_eq!(first, second);
    first[0] = 99;
    assert_eq!(w.snapshot(), vec![0, 1]);
    w.push(2);
    assert_eq!(second, vec![0, 1]);
    assert_eq!(w.snapshot(), vec![1, 2]);
}

#[test]
fn window_of_one_slot() {
    let mut w: RollingWindow<i64> = RollingWindow::new(1, 0);
    w.push(3);
    w.push(4);
    assert_eq!(w.snapshot(), vec![4]);
    assert_eq!(w.masked_snapshot(), vec![0]);
}

#[test]
fn window_of_real_vectors() {
    let mut w: RollingWindow<[f32; 2]> = RollingWindow::new(2, [0.0, 0.0]);
    w.push([1.5, -2.0]);
    w.push([0.25, 4.0]);
    w.push([3.0, 3.0]);
    assert_eq!(w.snapshot(), vec![[0.25, 4.0], [3.0, 3.0]]);
    assert_eq!(w.masked_snapshot(), vec![[0.25, 4.0], [0.0, 0.0]]);
}

#[test]
fn next_sequence_rotates_and_overwrites() {
    let mut seq = vec![1, 2, 3];
    next_sequence(&mut seq, 4);
    assert_eq!(seq, vec![2, 3, 4]);
    let mut one = vec![String::from("a")];
    next_sequence(&mut one, String::from("b"));
    assert_eq!(one, vec![String::from("b")]);
}

#[test]
fn masked_next_leaves_its_argument() {
    let seq = vec![1, 2, 3];
    assert_eq!(masked_next(&seq, 0), vec![1, 2, 0]);
    assert_eq!(seq, vec![1, 2, 3]);
}

#[test]
fn copy_slots_copies() {
    assert_eq!(copy_slots(&vec![3u8, 1, 2]), vec![3u8, 1, 2]);
    assert_eq!(copy_slots::<u8>(&vec![]), Vec::<u8>::new());
}

#[test]
fn rewards_to_go_is_a_reverse_running_sum() {
    assert_eq!(rewards_to_go(&vec![1, 2, 3]), vec![6i128, 5, 3]);
    assert_eq!(rewards_to_go(&vec![]), Vec::<i128>::new());
    assert_eq!(rewards_to_go(&vec![-4]), vec![-4i128]);
    assert_eq!(rewards_to_go(&vec![5, -7, 0, 2]), vec![0i128, -5, 2, 2]);
}

#[test]
fn rewards_to_go_obeys_its_recurrence() {
    let rewards: Vec<i64> = vec![3, -1, 4, 1, -5, 9, 2, -6];
    let rtg = rewards_to_go(&rewards);
    assert_eq!(rtg.len(), rewards.len());
    assert_eq!(rtg[rewards.len() - 1], rewards[rewards.len() - 1] as i128);
    for i in 0..rewards.len() - 1 {
        assert_eq!(rtg[i], rewards[i] as i128 + rtg[i + 1]);
    }
}

#[test]
fn rewards_to_go_does_not_overflow() {
    let rtg = rewards_to_go(&vec![i64::MAX, i64::MAX, i64::MAX]);
    assert_eq!(rtg, vec![3 * (i64::MAX as i128), 2 * (i64::MAX as i128), i64::MAX as i128]);
    let low = rewards_to_go(&vec![i64::MIN, i64::MIN]);
    assert_eq!(low, vec![2 * (i64::MIN as i128), i64::MIN as i128]);
}
