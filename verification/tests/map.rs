use tinlib::common::{CommonError, Coord, Size};
use tinlib::graphic::{Color, Glyph};
use tinlib::map::{Tile, TileMap, MAP_HEIGHT, MAP_WIDTH};

#[test]
fn test_tile_default() {
    let glyph = Glyph::default();
    let color = Color::default();

    let tile = Tile::new(&glyph, &color);

    assert_eq!(tile.glyph, &glyph);
    assert_eq!(tile.color, &color);
}

#[test]
fn test_tile_debug() {
    let glyph = Glyph::default();
    let color = Color::default();

    let tile = Tile::new(&glyph, &color);

    let expected = format!("Tile {{ glyph: {:?}, color: {:?} }}", &glyph, &color);
    let result = format!("{:?}", tile);

    assert_eq!(result, expected);
}

#[test]
fn test_map_new() {
    let map = TileMap::default();

    assert_eq!(map.tiles.len(), MAP_WIDTH * MAP_HEIGHT);
    assert_eq!(map.tiles.len(), 61440);
}

#[test]
fn test_map_width_height_and_size() {
    let map = TileMap::default();

    assert_eq!(map.width(), MAP_WIDTH);
    assert_eq!(map.height(), MAP_HEIGHT);
    assert_eq!(map.size(), Size::new(MAP_WIDTH, MAP_HEIGHT));
    assert_eq!(map.size(), Size::new(320, 192));
}

#[test]
fn test_map_get_tile() {
    let coord = Coord::new(1, 1);
    let map = TileMap::default();

    let result = map.get_tile(coord);
    assert!(result.is_ok());
    assert!(result.unwrap().is_none());
}

#[test]
fn test_map_get_tile_invalid_coord() {
    let coord = Coord::new(321, 1);
    let map = TileMap::default();

    let error = CommonError::new_invalid_coord(coord, map.size());
    let result = map.get_tile(coord);
    assert!(result.is_err());
    assert_eq!(result.unwrap_err(), error);
}

#[test]
fn test_map_set_tile() {
    let glyph = Glyph::default();
    let color = Color::default();

    let coord = Coord::new(1, 1);
    let mut map = TileMap::default();
    let tile = Tile::new(&glyph, &color);

    let result = map.set_tile(coord, tile);
    assert!(result.is_ok());
    assert_eq!(result.unwrap(), ());

    let result = map.get_tile(coord);
    assert!(result.is_ok());
    let option = result.unwrap();
    assert!(option.is_some());
    assert_eq!(option.unwrap(), tile);
    assert_eq!(map.tiles[321], Some(tile));
    assert_eq!(map.tiles[320], None);
}

#[test]
fn test_map_set_tile_invalid_coord() {
    let glyph = Glyph::default();
    let color = Color::default();

    let coord = Coord::new(321, 1);
    let mut map = TileMap::default();
    let tile = Tile::new(&glyph, &color);

    let error = CommonError::new_invalid_coord(coord, map.size());
    let result = map.set_tile(coord, tile);
    assert!(result.is_err());
    assert_eq!(result.unwrap_err(), error);
}

#[test]
fn test_map_rejects_places_past_the_tiles() {
    let map = TileMap::default();
    assert!(map.is_coord_valid(Coord::new(191, 191)));
    assert!(!map.is_coord_valid(Coord::new(192, 0)));
    assert!(!map.is_coord_valid(Coord::new(0, 192)));
    assert_eq!(
        map.get_tile(Coord::new(200, 0)),
        Err(CommonError::new_invalid_coord(
            Coord::new(200, 0),
            Size::new(320, 192)
        ))
    );
}

#[test]
fn test_map_coords() {
    let map = TileMap::default();

    let mut x = 0usize;
    let mut y = 0usize;
    let mut coords = map.coords();
    let mut count = 0usize;
    while let Some(coord) = coords.next() {
        assert_eq!(coord.x, x);
        assert_eq!(coord.y, y);

        y += 1;
        if y == map.width() {
            y = 0;
            x += 1;
        }
        count += 1;
    }
    assert_eq!(count, 61440);
}

#[test]
fn test_map_iter() {
    let map = TileMap::default();

    for tile in map.iter() {
        assert!(tile.is_none());
    }
}

#[test]
fn test_map_iter_mut() {
    let glyph = Glyph::default();
    let color = Color::default();

    let mut map = TileMap::default();
    let new_tile = Tile::new(&glyph, &color);

    for tile in map.iter_mut() {
        *tile = Some(new_tile);
    }

    for tile in map.iter() {
        assert!(tile.is_some());
        assert_eq!(tile.unwrap(), new_tile);
    }
}

#[test]
fn test_map_enumerate() {
    let map = TileMap::default();
    let mut coorditer = map.coords();
    let mut pixeliter = map.iter();

    let mut enumerate = map.enumerate();
    while let Some((coord, tile)) = enumerate.next() {
        assert_eq!(coord, coorditer.next().unwrap());
        assert_eq!(tile, pixeliter.next().unwrap());
    }
}

#[test]
fn test_map_enumerate_mut() {
    let glyph = Glyph::default();
    let color = Color::default();

    let mut map = TileMap::default();
    let mut coorditer = map.coords();
    let new_tile = Tile::new(&glyph, &color);

    let mut enumerate = map.enumerate_mut();
    while let Some((coord, tile)) = enumerate.next() {
        assert_eq!(coord, coorditer.next().unwrap());
        assert!(tile.is_none());

        *tile = Some(new_tile);
    }

    for tile in map.iter() {
        assert!(tile.is_some());
        assert_eq!(tile.unwrap(), new_tile);
    }
}
