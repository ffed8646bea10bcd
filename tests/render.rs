use rt::color::Color;
use rt::render::assemble_rows;

fn row(v: u8, width: usize) -> Vec<Color> {
    vec![Color { r: v, g: v, b: v }; width]
}

#[test]
fn rows_land_at_their_index_whatever_the_arrival_order() {
    let done = vec![(2, row(30, 2)), (0, row(10, 2)), (3, row(40, 2)), (1, row(20, 2))];
    let img = assemble_rows(2, 4, done).unwrap();
    assert_eq!(img.h(), 4);
    assert_eq!(img.w(), 2);
    for i in 0..4 {
        assert_eq!(img.pixel(i, 0).r as usize, 10 * (i + 1));
        assert_eq!(img.pixel(i, 1).r as usize, 10 * (i + 1));
    }
}

#[test]
fn two_arrival_orders_give_the_same_image() {
    let a = vec![(0, row(1, 3)), (1, row(2, 3)), (2, row(3, 3))];
    let b = vec![(2, row(3, 3)), (0, row(1, 3)), (1, row(2, 3))];
    let ia = assemble_rows(3, 3, a).unwrap();
    let ib = assemble_rows(3, 3, b).unwrap();
    assert_eq!(ia.linearized(), ib.linearized());
    assert_eq!(ia.linearized(), vec![1, 1, 1, 1, 1, 1, 1, 1, 1, 2, 2, 2, 2, 2, 2, 2, 2, 2, 3, 3, 3, 3, 3, 3, 3, 3, 3]);
}

#[test]
fn assemble_single_row() {
    let img = assemble_rows(1, 1, vec![(0, row(7, 1))]).unwrap();
    assert_eq!(img.linearized(), vec![7, 7, 7]);
}

#[test]
fn assemble_rejects_missing_row() {
    assert!(assemble_rows(2, 3, vec![(0, row(1, 2)), (2, row(3, 2))]).is_none());
}

#[test]
fn assemble_rejects_repeated_index() {
    assert!(assemble_rows(2, 2, vec![(0, row(1, 2)), (0, row(2, 2)), (1, row(3, 2))]).is_none());
}

#[test]
fn assemble_rejects_index_past_the_bottom() {
    assert!(assemble_rows(2, 2, vec![(0, row(1, 2)), (2, row(2, 2))]).is_none());
}

#[test]
fn assemble_rejects_wrong_width() {
    assert!(assemble_rows(2, 2, vec![(0, row(1, 2)), (1, row(2, 3))]).is_none());
}

#[test]
fn assemble_rejects_empty_size() {
    assert!(assemble_rows(0, 0, vec![]).is_none());
    assert!(assemble_rows(2, 0, vec![]).is_none());
}
