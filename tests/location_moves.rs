use gridly::location::{Column, Location, Row};
use gridly::vector::{Columns, Direction, Rows, Vector};

fn loc(r: isize, c: isize) -> Location {
    Location::new(Row(r), Column(c))
}

#[test]
fn origin_is_zero() {
    assert_eq!(Location::origin(), loc(0, 0));
}

#[test]
fn directional_offsets() {
    let l = loc(5, 5);
    assert_eq!(l.above(Rows(2)), loc(3, 5));
    assert_eq!(l.below(Rows(2)), loc(7, 5));
    assert_eq!(l.left(Columns(3)), loc(5, 2));
    assert_eq!(l.right(Columns(3)), loc(5, 8));
    assert_eq!(l.relative(Direction::Up, 1), loc(4, 5));
    assert_eq!(l.relative(Direction::Down, 1), loc(6, 5));
    assert_eq!(l.relative(Direction::Left, 4), loc(5, 1));
    assert_eq!(l.relative(Direction::Right, -1), loc(5, 4));
}

#[test]
fn vector_arithmetic() {
    let v = Vector::new(Rows(2), Columns(-3));
    let mut l = loc(1, 1);
    assert_eq!(l.add(v), loc(3, -2));
    assert_eq!(l.sub(v), loc(-1, 4));
    l.add_assign(v);
    assert_eq!(l, loc(3, -2));
    l.sub_assign(v);
    assert_eq!(l, loc(1, 1));
    assert_eq!(
        Vector::in_direction(Direction::Left, 2),
        Vector::new(Rows(0), Columns(-2))
    );
}


#[test]
fn component_arithmetic() {
    assert_eq!(Row(3).add(Rows(4)), Row(7));
    assert_eq!(Row(3).sub(Rows(4)), Row(-1));
    assert_eq!(Column(-2).add(Columns(5)), Column(3));
    assert_eq!(Column(-2).sub(Columns(5)), Column(-7));
}
