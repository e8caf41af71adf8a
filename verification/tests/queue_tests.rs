use music_player::queue::Queue;

fn q3() -> Queue {
    let mut q = Queue::new();
    q.push(String::from("a"));
    q.push(String::from("b"));
    q.push(String::from("c"));
    q
}

#[test]
fn new_queue_is_empty() {
    let q = Queue::new();
    assert!(q.is_empty());
    assert_eq!(q.len(), 0);
    assert_eq!(q.current(), None);
}

#[test]
fn from_vec_starts_at_first() {
    let q = Queue::from_vec(vec![String::from("a"), String::from("b")]);
    assert_eq!(q.len(), 2);
    assert_eq!(q.current(), Some(String::from("a")));
}

#[test]
fn push_does_not_move_cursor() {
    let mut q = Queue::new();
    q.push(String::from("a"));
    assert_eq!(q.current(), Some(String::from("a")));
    q.push(String::from("b"));
    assert_eq!(q.current(), Some(String::from("a")));
    assert_eq!(q.len(), 2);
}

#[test]
fn pop_returns_last() {
    let mut q = q3();
    assert_eq!(q.pop(), Some(String::from("c")));
    assert_eq!(q.len(), 2);
    assert_eq!(q.pop(), Some(String::from("b")));
    assert_eq!(q.pop(), Some(String::from("a")));
    assert_eq!(q.pop(), None);
    assert!(q.is_empty());
}

#[test]
fn pop_keeps_cursor_valid() {
    let mut q = q3();
    q.next();
    q.next();
    assert_eq!(q.current(), Some(String::from("c")));
    q.pop();
    assert_eq!(q.current(), Some(String::from("b")));
}

#[test]
fn next_wraps_around() {
    let mut q = q3();
    assert_eq!(q.next(), Some(String::from("b")));
    assert_eq!(q.next(), Some(String::from("c")));
    assert_eq!(q.next(), Some(String::from("a")));
}

#[test]
fn prev_wraps_around() {
    let mut q = q3();
    assert_eq!(q.prev(), Some(String::from("c")));
    assert_eq!(q.prev(), Some(String::from("b")));
    assert_eq!(q.prev(), Some(String::from("a")));
}

#[test]
fn next_on_empty_returns_none() {
    let mut q = Queue::new();
    assert_eq!(q.next(), None);
    assert_eq!(q.prev(), None);
}

#[test]
fn next_cycles_through_every_element_once() {
    let mut q = q3();
    let mut seen = Vec::new();
    for _ in 0..3 {
        seen.push(q.next().unwrap());
    }
    seen.sort();
    assert_eq!(
        seen,
        vec![String::from("a"), String::from("b"), String::from("c")]
    );
    // after len calls the cursor is back at the starting element
    assert_eq!(q.current(), Some(String::from("a")));
}

#[test]
fn prev_cycles_through_every_element_once() {
    let mut q = q3();
    let mut seen = Vec::new();
    for _ in 0..3 {
        seen.push(q.prev().unwrap());
    }
    seen.sort();
    assert_eq!(
        seen,
        vec![String::from("a"), String::from("b"), String::from("c")]
    );
    assert_eq!(q.current(), Some(String::from("a")));
}

#[test]
fn clear_empties_and_resets() {
    let mut q = q3();
    q.next();
    q.clear();
    assert!(q.is_empty());
    assert_eq!(q.current(), None);
}

#[test]
fn tracks_exposes_all() {
    let q = q3();
    let t = q.tracks();
    assert_eq!(
        t,
        &vec![String::from("a"), String::from("b"), String::from("c")]
    );
}

#[test]
fn select_or_push_moves_to_existing() {
    let mut q = q3();
    q.select_or_push(String::from("b"));
    assert_eq!(q.len(), 3);
    assert_eq!(q.current(), Some(String::from("b")));
}

#[test]
fn select_or_push_appends_new() {
    let mut q = q3();
    q.select_or_push(String::from("d"));
    assert_eq!(q.len(), 4);
    assert_eq!(q.current(), Some(String::from("d")));
}

#[test]
fn select_or_push_picks_first_occurrence() {
    let mut q = Queue::from_vec(vec![
        String::from("a"),
        String::from("b"),
        String::from("a"),
    ]);
    q.next();
    q.next();
    q.select_or_push(String::from("a"));
    assert_eq!(q.len(), 3);
    assert_eq!(q.current(), Some(String::from("a")));
    // the cursor is on the first occurrence: one step forward lands on b
    assert_eq!(q.next(), Some(String::from("b")));
}

#[test]
fn select_or_push_is_idempotent() {
    let mut q = q3();
    q.select_or_push(String::from("c"));
    let len_once = q.len();
    let cur_once = q.current();
    q.select_or_push(String::from("c"));
    assert_eq!(q.len(), len_once);
    assert_eq!(q.current(), cur_once);
}
