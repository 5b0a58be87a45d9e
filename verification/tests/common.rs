use tinlib::common::grid::cell_index;
use tinlib::common::{
    CommonError, Coord, CoordEnumerate, CoordEnumerateMut, CoordIter, Size,
};

#[test]
fn test_coord_new() {
    let coord = Coord::new(11, 27);

    assert_eq!(coord.x, 11);
    assert_eq!(coord.y, 27);
}

#[test]
fn test_coord_from_tuple() {
    let tuple = (11usize, 27usize);
    let coord = Coord::from(tuple);

    assert_eq!(coord, Coord::new(11, 27));
}

#[test]
fn test_coord_from_array() {
    let array = [11usize, 27usize];
    let coord = Coord::from(array);

    assert_eq!(coord, Coord::new(11, 27));
}

#[test]
fn test_coorditer_new() {
    let size = Size::new(3, 2);
    let coord = Coord::new(0, 0);
    let iter = CoordIter::new(size);

    assert_eq!(iter.size, size);
    assert_eq!(iter.coord, coord);
}

#[test]
fn test_coorditer_next() {
    let size = Size::new(3, 2);
    let mut iter = CoordIter::new(size);

    assert_eq!(iter.next(), Some(Coord::new(0, 0)));
    assert_eq!(iter.next(), Some(Coord::new(0, 1)));
    assert_eq!(iter.next(), Some(Coord::new(0, 2)));
    assert_eq!(iter.next(), Some(Coord::new(1, 0)));
    assert_eq!(iter.next(), Some(Coord::new(1, 1)));
    assert_eq!(iter.next(), Some(Coord::new(1, 2)));
    assert_eq!(iter.next(), None);
}

#[test]
fn test_coorditer_stays_at_the_end() {
    let mut iter = CoordIter::new(Size::new(1, 1));
    assert_eq!(iter.next(), Some(Coord::new(0, 0)));
    assert_eq!(iter.next(), None);
    assert_eq!(iter.next(), None);
    assert_eq!(iter.coord, Coord::new(1, 0));

    let mut iter = CoordIter::new(Size::new(4, 0));
    assert_eq!(iter.next(), None);
}

#[test]
fn test_coorditer_follows_storage() {
    let size = Size::new(5, 3);
    let mut iter = CoordIter::new(size);
    let mut place = 0usize;
    while let Some(coord) = iter.next() {
        assert_eq!(coord.x * size.width() + coord.y, place);
        place += 1;
    }
    assert_eq!(place, 15);
}

#[test]
fn test_coordenumerate_new_and_next() {
    let items = [1, 2, 3, 4, 5, 6];
    let size = Size::new(3, 2);
    let coorditer = CoordIter::new(size);
    let itemiter = items.iter();
    let mut enumerate = CoordEnumerate::new(coorditer, itemiter);

    assert_eq!(enumerate.next(), Some((Coord::new(0, 0), &1)));
    assert_eq!(enumerate.next(), Some((Coord::new(0, 1), &2)));
    assert_eq!(enumerate.next(), Some((Coord::new(0, 2), &3)));
    assert_eq!(enumerate.next(), Some((Coord::new(1, 0), &4)));
    assert_eq!(enumerate.next(), Some((Coord::new(1, 1), &5)));
    assert_eq!(enumerate.next(), Some((Coord::new(1, 2), &6)));
    assert_eq!(enumerate.next(), None);
}

#[test]
fn test_coordenumerate_ends_with_the_shorter() {
    let items = [1, 2];
    let mut enumerate = CoordEnumerate::new(CoordIter::new(Size::new(3, 2)), items.iter());
    assert_eq!(enumerate.next(), Some((Coord::new(0, 0), &1)));
    assert_eq!(enumerate.next(), Some((Coord::new(0, 1), &2)));
    assert_eq!(enumerate.next(), None);

    let items = [1, 2, 3];
    let mut enumerate = CoordEnumerate::new(CoordIter::new(Size::new(2, 1)), items.iter());
    assert_eq!(enumerate.next(), Some((Coord::new(0, 0), &1)));
    assert_eq!(enumerate.next(), Some((Coord::new(0, 1), &2)));
    assert_eq!(enumerate.next(), None);
    assert_eq!(enumerate.iter.next(), Some(&3));
}

#[test]
fn test_coordenumeratemut_new_and_next() {
    let mut items = [1, 2, 3, 4, 5, 6];
    let size = Size::new(3, 2);
    let coorditer = CoordIter::new(size);
    let itemiter = items.iter_mut();
    let mut enumerate = CoordEnumerateMut::new(coorditer, itemiter);

    assert_eq!(enumerate.next(), Some((Coord::new(0, 0), &mut 1)));
    assert_eq!(enumerate.next(), Some((Coord::new(0, 1), &mut 2)));
    assert_eq!(enumerate.next(), Some((Coord::new(0, 2), &mut 3)));
    assert_eq!(enumerate.next(), Some((Coord::new(1, 0), &mut 4)));
    assert_eq!(enumerate.next(), Some((Coord::new(1, 1), &mut 5)));
    assert_eq!(enumerate.next(), Some((Coord::new(1, 2), &mut 6)));
    assert_eq!(enumerate.next(), None);
}

#[test]
fn test_commonerror_new_invalid_index() {
    let index = 2usize;
    let lenght = 1usize;

    let error = CommonError::new_invalid_index(index, lenght);

    assert!(matches!(
        error,
        CommonError::InvalidIndex { index: i, lenght: l } if i == index && l == lenght
    ));
}

#[test]
fn test_commonerror_new_invalid_coord() {
    let coord = Coord::new(2, 2);
    let size: Size = Size::new(1, 1);

    let error = CommonError::new_invalid_coord(coord, size);

    assert!(matches!(
        error,
        CommonError::InvalidCoord { coord: c, size: s } if c == coord && s == size
    ));
}

#[test]
fn test_size_new() {
    let size = Size::new(80, 48);

    assert_eq!(size.width, 80);
    assert_eq!(size.height, 48);
}

#[test]
fn test_size_width_and_height() {
    let size = Size::new(80, 48);

    assert_eq!(size.width(), 80);
    assert_eq!(size.height(), 48);
}

#[test]
fn test_size_from_tuple() {
    let tuple = (80usize, 48usize);
    let size = Size::from(tuple);

    assert_eq!(size, Size::new(80, 48));
}

#[test]
fn test_size_from_array() {
    let array = [80usize, 48usize];
    let size = Size::from(array);

    assert_eq!(size, Size::new(80, 48));
}

#[test]
fn test_cell_index() {
    let size = Size::new(4, 3);
    assert_eq!(cell_index(size, 12, Coord::new(0, 0)), Some(0));
    assert_eq!(cell_index(size, 12, Coord::new(1, 2)), Some(6));
    assert_eq!(cell_index(size, 12, Coord::new(2, 2)), Some(10));
    // within the size, but its place is past the cells
    assert_eq!(cell_index(size, 12, Coord::new(3, 0)), None);
    assert_eq!(cell_index(size, 12, Coord::new(4, 0)), None);
    assert_eq!(cell_index(size, 12, Coord::new(0, 3)), None);
    assert_eq!(cell_index(size, 5, Coord::new(1, 1)), None);
    assert_eq!(
        cell_index(Size::new(usize::MAX, 2), 10, Coord::new(usize::MAX - 1, 1)),
        None
    );
}
