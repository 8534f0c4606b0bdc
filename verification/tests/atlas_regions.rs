use engine::atlas::TextureMap;
use engine::geom::Vec2;
use engine::Rat;

fn as_f64(r: Rat) -> f64 {
    r.num as f64 / r.den as f64
}

#[test]
fn four_by_four_grid_tile() {
    let map = TextureMap::new(4, 4, "spritesheet".to_string());
    let t = map.get_texture(1, 0);
    assert_eq!(as_f64(t.start.x), 0.25);
    assert_eq!(as_f64(t.start.y), 0.0);
    assert_eq!(as_f64(t.size.x), 0.25);
    assert_eq!(as_f64(t.size.y), 0.25);
    assert_eq!(t.texture_name, "spritesheet");
}

#[test]
fn tile_fractions_are_exact() {
    let map = TextureMap::new(3, 5, "terrain".to_string());
    let t = map.get_texture(2, 4);
    assert_eq!((t.start.x.num, t.start.x.den), (2, 3));
    assert_eq!((t.start.y.num, t.start.y.den), (4, 5));
    assert_eq!((t.size.x.num, t.size.x.den), (1, 3));
    assert_eq!((t.size.y.num, t.size.y.den), (1, 5));
}

#[test]
fn custom_region_scales_fractional_tiles() {
    let map = TextureMap::new(4, 1, "ui".to_string());
    let t = map.get_texture_custom(
        Rat::new(2, 1),
        Rat::new(1, 2),
        Rat::new(2, 1),
        Rat::new(1, 2),
    );
    assert_eq!(as_f64(t.start.x), 0.5);
    assert_eq!(as_f64(t.start.y), 0.5);
    assert_eq!(as_f64(t.size.x), 0.5);
    assert_eq!(as_f64(t.size.y), 0.5);
}

#[test]
fn very_custom_region_is_kept_as_given() {
    let map = TextureMap::new(1, 1, "grass".to_string());
    let t = map.get_very_custom(
        Vec2::new(Rat::new(3, 7), Rat::new(-2, 9)),
        Vec2::new(Rat::new(5, 4), Rat::new(1, 6)),
    );
    assert_eq!((t.start.x.num, t.start.x.den), (3, 7));
    assert_eq!((t.start.y.num, t.start.y.den), (-2, 9));
    assert_eq!((t.size.x.num, t.size.x.den), (5, 4));
    assert_eq!((t.size.y.num, t.size.y.den), (1, 6));
    assert_eq!(t.texture_name, "grass");
}
