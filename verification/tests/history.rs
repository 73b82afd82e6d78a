use serial_term::history::HistoryBuffer;

fn chunk(s: &str) -> Vec<u8> {
    s.as_bytes().to_vec()
}

#[test]
fn push_within_capacity_keeps_everything() {
    let mut h = HistoryBuffer::new(4);
    h.push(chunk("a"));
    h.push(chunk("b"));
    assert_eq!(h.len(), 2);
    let rows = h.visible_slice(10);
    assert_eq!(rows, vec![chunk("a"), chunk("b")]);
}

#[test]
fn pushes_beyond_capacity_keep_the_last_n_in_order() {
    let mut h = HistoryBuffer::new(3);
    for s in ["1", "2", "3", "4", "5", "6", "7"] {
        h.push(chunk(s));
    }
    assert_eq!(h.len(), 3);
    assert_eq!(h.capacity(), 3);
    let rows = h.visible_slice(3);
    assert_eq!(rows, vec![chunk("5"), chunk("6"), chunk("7")]);
}

#[test]
fn visible_slice_with_large_k_returns_all_in_order() {
    let mut h = HistoryBuffer::new(8);
    h.push(chunk("x"));
    h.push(chunk("y"));
    h.push(chunk("z"));
    assert_eq!(h.visible_slice(3), vec![chunk("x"), chunk("y"), chunk("z")]);
    assert_eq!(h.visible_slice(50), vec![chunk("x"), chunk("y"), chunk("z")]);
}

#[test]
fn visible_slice_with_small_k_returns_exactly_the_last_k() {
    let mut h = HistoryBuffer::new(8);
    h.push(chunk("x"));
    h.push(chunk("y"));
    h.push(chunk("z"));
    assert_eq!(h.visible_slice(2), vec![chunk("y"), chunk("z")]);
    assert_eq!(h.visible_slice(1), vec![chunk("z")]);
    assert_eq!(h.visible_slice(0), Vec::<Vec<u8>>::new());
}

#[test]
fn capacity_two_scenario() {
    let mut h = HistoryBuffer::new(2);
    h.push(chunk("a"));
    h.push(chunk("b"));
    h.push(chunk("c"));
    assert_eq!(h.len(), 2);
    assert_eq!(h.visible_slice(5), vec![chunk("b"), chunk("c")]);
}

#[test]
fn chunks_are_opaque_bytes() {
    let mut h = HistoryBuffer::new(2);
    h.push(vec![0xFF, 0x00, 0x1B]);
    h.push(Vec::new());
    assert_eq!(h.visible_slice(2), vec![vec![0xFF, 0x00, 0x1B], Vec::new()]);
}
