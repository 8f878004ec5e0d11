use matrix_frontend::span::Span;

fn sp(start: usize, end: usize) -> Span {
    Span { start, end }
}

#[test]
fn test_coalesce_adjacent_spans() {
    let first = sp(1, 2);
    let second = sp(2, 5);
    assert_eq!(first.coalesce_adjacent(second), sp(1, 5));

    let third = sp(2, 5);
    let fourth = sp(1, 5);
    assert_eq!(third.coalesce_adjacent(fourth), sp(1, 5));

    let fifth = sp(1, 2);
    let sixth = sp(3, 5);
    assert_eq!(fifth.coalesce_adjacent(sixth), sp(1, 5));

    let seventh = sp(1, 5);
    let eigth = sp(2, 4);
    assert_eq!(seventh.coalesce_adjacent(eigth), sp(1, 5));
}

#[test]
fn test_coalesce_commutative_and_idempotent() {
    let a = sp(3, 7);
    let b = sp(10, 12);
    assert_eq!(a.coalesce_adjacent(b), b.coalesce_adjacent(a));
    assert_eq!(a.coalesce_adjacent(a), a);
    let c = sp(5, 11);
    assert_eq!(a.coalesce_adjacent(c), c.coalesce_adjacent(a));
    assert_eq!(a.coalesce_adjacent(c), sp(3, 11));
}

#[test]
fn test_span_new_derives_start_from_length() {
    assert_eq!(Span::new(3, 10), sp(7, 10));
    assert_eq!(Span::new(0, 4), sp(4, 4));
    assert_eq!(Span::new(5, 5), sp(0, 5));
}
