use engine::atlas::TextureMap;
use engine::geom::Vec2;
use engine::geom::Vec3;
use engine::renderer::Renderer;
use engine::Rat;

fn as_f64(r: Rat) -> f64 {
    r.num as f64 / r.den as f64
}

fn ready_renderer() -> Renderer {
    let mut r = Renderer::new();
    let id = r.register_program();
    assert_eq!(id, 0);
    r.set_viewport(800, 600);
    r
}

fn sprite_map() -> TextureMap {
    TextureMap::new(4, 4, "spritesheet".to_string())
}

#[test]
fn two_quads_one_batch_eight_vertices_then_flush_empties() {
    let mut r = ready_renderer();
    let tex = sprite_map().get_texture(0, 0);
    r.draw_quad(Vec2::from_ints(0, 0), Vec2::from_ints(16, 16), &tex);
    r.draw_quad(Vec2::from_ints(40, 0), Vec2::from_ints(16, 16), &tex);

    let out = r.flush();
    assert_eq!(out.commands.len(), 1);
    assert_eq!(out.commands[0].vertices.len(), 8);
    assert_eq!(out.commands[0].quad_count, 2);
    assert_eq!(out.commands[0].atlas_name, "spritesheet");

    let out2 = r.flush();
    assert_eq!(out2.commands.len(), 0);
}

#[test]
fn default_depth_is_negative_y() {
    let mut r = ready_renderer();
    let tex = sprite_map().get_texture(0, 0);
    r.draw_quad(Vec2::from_ints(0, 10), Vec2::from_ints(16, 16), &tex);
    r.draw_quad(Vec2::from_ints(0, 50), Vec2::from_ints(16, 16), &tex);

    let out = r.flush();
    let verts = &out.commands[0].vertices;
    for k in 0..4 {
        assert_eq!(as_f64(verts[k].z), -10.0);
    }
    for k in 4..8 {
        assert_eq!(as_f64(verts[k].z), -50.0);
    }
}

#[test]
fn quad_corners_and_texture_coordinates() {
    let mut r = ready_renderer();
    let tex = sprite_map().get_texture(1, 0);
    r.draw_quad(Vec2::from_ints(100, 10), Vec2::from_ints(50, 20), &tex);

    let out = r.flush();
    let v = &out.commands[0].vertices;
    // bottom-left
    assert_eq!(as_f64(v[0].x), 75.0);
    assert_eq!(as_f64(v[0].y), 10.0);
    assert_eq!(as_f64(v[0].u), 0.25);
    assert_eq!(as_f64(v[0].v), 0.25);
    // bottom-right
    assert_eq!(as_f64(v[1].x), 125.0);
    assert_eq!(as_f64(v[1].y), 10.0);
    assert_eq!(as_f64(v[1].u), 0.5);
    assert_eq!(as_f64(v[1].v), 0.25);
    // top-left: the texture's top row maps to the quad's top edge
    assert_eq!(as_f64(v[2].x), 75.0);
    assert_eq!(as_f64(v[2].y), 30.0);
    assert_eq!(as_f64(v[2].u), 0.25);
    assert_eq!(as_f64(v[2].v), 0.0);
    // top-right
    assert_eq!(as_f64(v[3].x), 125.0);
    assert_eq!(as_f64(v[3].y), 30.0);
    assert_eq!(as_f64(v[3].u), 0.5);
    assert_eq!(as_f64(v[3].v), 0.0);
    // neutral tint
    assert_eq!(as_f64(v[0].tint_r), 1.0);
    assert_eq!(as_f64(v[0].tint_g), 1.0);
    assert_eq!(as_f64(v[0].tint_b), 1.0);
}

#[test]
fn explicit_depth_and_tint_are_kept() {
    let mut r = ready_renderer();
    let tex = sprite_map().get_texture(0, 0);
    r.draw_quad_with_depth(Vec2::from_ints(0, 10), Vec2::from_ints(8, 8), &tex, Rat::new(7, 1));
    r.draw_quad_with_tint(
        Vec2::from_ints(0, 10),
        Vec2::from_ints(8, 8),
        &tex,
        Vec3::new(Rat::new(1, 2), Rat::new(1, 4), Rat::new(3, 4)),
    );
    let out = r.flush();
    let v = &out.commands[0].vertices;
    assert_eq!(as_f64(v[0].z), 7.0);
    assert_eq!(as_f64(v[4].z), -10.0);
    assert_eq!(as_f64(v[4].tint_r), 0.5);
    assert_eq!(as_f64(v[4].tint_g), 0.25);
    assert_eq!(as_f64(v[4].tint_b), 0.75);
}

#[test]
fn batches_flush_in_first_use_order() {
    let mut r = ready_renderer();
    let a = TextureMap::new(1, 1, "back".to_string()).get_texture(0, 0);
    let b = TextureMap::new(1, 1, "front".to_string()).get_texture(0, 0);
    r.draw_quad(Vec2::from_ints(0, 0), Vec2::from_ints(1, 1), &a);
    r.draw_quad(Vec2::from_ints(0, 0), Vec2::from_ints(1, 1), &b);
    r.draw_quad(Vec2::from_ints(0, 0), Vec2::from_ints(1, 1), &a);
    let out = r.flush();
    assert_eq!(out.commands.len(), 2);
    assert_eq!(out.commands[0].atlas_name, "back");
    assert_eq!(out.commands[0].quad_count, 2);
    assert_eq!(out.commands[1].atlas_name, "front");
    assert_eq!(out.commands[1].quad_count, 1);
}

#[test]
fn ui_layer_is_marked_screen_space() {
    let mut r = ready_renderer();
    let ui = TextureMap::new(4, 1, "ui".to_string()).get_texture(0, 0);
    let world = sprite_map().get_texture(0, 0);
    r.draw_quad(Vec2::from_ints(0, 0), Vec2::from_ints(1, 1), &world);
    r.draw_quad(Vec2::from_ints(0, 0), Vec2::from_ints(1, 1), &ui);
    let out = r.flush();
    assert!(!out.commands[0].is_ui);
    assert!(out.commands[1].is_ui);
}

#[test]
fn quads_beyond_capacity_are_dropped() {
    let mut r = ready_renderer();
    let tex = sprite_map().get_texture(0, 0);
    for _ in 0..11001 {
        r.draw_quad(Vec2::from_ints(0, 0), Vec2::from_ints(1, 1), &tex);
    }
    let out = r.flush();
    assert_eq!(out.commands[0].quad_count, 11000);
    assert_eq!(out.commands[0].vertices.len(), 44000);
}

#[test]
fn index_buffer_is_two_triangles_per_quad() {
    let r = Renderer::new();
    let idx = r.index_data();
    assert_eq!(idx.len(), 66000);
    assert_eq!(&idx[0..12], &[0, 1, 2, 2, 3, 1, 4, 5, 6, 6, 7, 5]);
    assert_eq!(idx[6 * 10999], (4 * 10999) as u16);
}

#[test]
fn camera_rounds_to_whole_units() {
    let mut r = ready_renderer();
    r.set_camera(Vec2::new(Rat::new(5, 2), Rat::new(-5, 2)));
    assert_eq!(r.get_camera(), (3, -3));
    r.set_camera(Vec2::new(Rat::new(7, 3), Rat::new(-7, 3)));
    assert_eq!(r.get_camera(), (2, -2));
    r.set_camera(Vec2::from_ints(10, 20));
    assert_eq!(r.get_camera(), (10, 20));
}

#[test]
fn logical_viewport_preserves_area_and_aspect() {
    let mut r = ready_renderer();
    let (w, h) = r.get_viewport();
    assert_eq!(as_f64(w), 1600.0);
    assert_eq!(as_f64(h), 1200.0);

    r.set_viewport(1920, 1080);
    let (w, h) = r.get_viewport();
    let wf = as_f64(w);
    let hf = as_f64(h);
    let area = 1600.0 * 1200.0;
    assert!((wf * hf - area).abs() / area < 1e-3);
    assert!((wf / hf - 1920.0 / 1080.0).abs() < 1e-3);
}

#[test]
fn flush_reports_uniforms() {
    let mut r = ready_renderer();
    let id = r.register_program();
    assert_eq!(id, 1);
    r.select_program(1);
    r.set_camera(Vec2::from_ints(10, 20));
    r.set_fire_pos(Vec2::from_ints(3, 4));
    r.set_fire_heat(Rat::new(1, 2));

    let out = r.flush();
    assert_eq!(out.selected_program, 1);
    assert_eq!(as_f64(out.fire_pos.x), 3.0);
    assert_eq!(as_f64(out.fire_pos.y), 4.0);
    assert_eq!(as_f64(out.fire_heat), 0.5);

    assert_eq!(as_f64(out.ortho.left), -800.0);
    assert_eq!(as_f64(out.ortho.right), 800.0);
    assert_eq!(as_f64(out.ortho.bottom), -600.0);
    assert_eq!(as_f64(out.ortho.top), 600.0);
    assert_eq!(as_f64(out.ortho.znear), 0.1);
    assert_eq!(as_f64(out.ortho.zfar), 4800.0);

    assert_eq!(as_f64(out.world_translation.x), -10.0);
    assert_eq!(as_f64(out.world_translation.y), -20.0);
    assert_eq!(as_f64(out.world_translation.z), 20.0 - 2.0 * 1200.0);
    assert_eq!(as_f64(out.ui_translation.x), 0.0);
    assert_eq!(as_f64(out.ui_translation.y), 0.0);
    assert_eq!(as_f64(out.ui_translation.z), 0.0);
}
