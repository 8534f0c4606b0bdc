use engine::atlas::TextureMap;
use engine::driver::Engine;
use engine::geom::Vec2;
use engine::key_codes;
use engine::mouse::MouseButton;
use engine::mouse::MouseEventKind;
use engine::mouse::PointerEvent;
use engine::Rat;

#[test]
fn one_full_frame() {
    let mut eng = Engine::new();
    let program = eng.renderer.register_program();
    eng.renderer.select_program(program);

    // Platform events arrive between frames.
    eng.keys.on_key_down(key_codes::W);
    eng.mouse.push_event(PointerEvent {
        kind: MouseEventKind::Down,
        button: MouseButton::Left,
        x: 10,
        y: 20,
    });

    // Frame start: viewport and input snapshot.
    eng.begin_frame(800, 600);
    assert!(eng.keys.key_down(key_codes::W));
    assert!(eng.mouse.state().button_pressed(MouseButton::Left));
    assert_eq!(eng.mouse.state().position(), (10, 20));

    // The world tick draws.
    let tex = TextureMap::new(4, 4, "spritesheet".to_string()).get_texture(0, 0);
    eng.renderer.draw_quad(Vec2::from_ints(0, 0), Vec2::from_ints(16, 16), &tex);

    // Frame end: input edge transition, then flush.
    eng.post_tick();
    assert!(!eng.keys.key_down(key_codes::W));
    assert!(eng.keys.key_pressed(key_codes::W));

    let out = eng.end_frame();
    assert_eq!(out.commands.len(), 1);
    assert_eq!(out.commands[0].quad_count, 1);
    assert_eq!(out.selected_program, 0);

    // A frame with nothing drawn submits nothing.
    eng.begin_frame(800, 600);
    eng.post_tick();
    let out = eng.end_frame();
    assert_eq!(out.commands.len(), 0);
}

#[test]
fn rational_arithmetic_is_exact() {
    let a = Rat::new(1, 2);
    let b = Rat::new(1, 3);
    let sum = a.add(b);
    assert_eq!((sum.num, sum.den), (5, 6));
    let diff = a.sub(b);
    assert_eq!((diff.num, diff.den), (1, 6));
    let c = Rat::from_int(100).sub_half(Rat::from_int(50));
    assert_eq!((c.num, c.den), (150, 2));
    let d = Rat::new(3, 4).mul_int(8);
    assert_eq!((d.num, d.den), (24, 4));
    let e = Rat::new(3, 4).div_int(3);
    assert_eq!((e.num, e.den), (3, 12));
    let f = Rat::new(3, 4).neg();
    assert_eq!((f.num, f.den), (-3, 4));
    let g = Rat::new(3, 4).half();
    assert_eq!((g.num, g.den), (3, 8));
    assert_eq!(Rat::new(1, 2).round(), 1);
    assert_eq!(Rat::new(-1, 2).round(), -1);
    assert_eq!(Rat::new(2, 5).round(), 0);
    assert_eq!(Rat::new(-2, 5).round(), 0);
    assert_eq!(Rat::new(13, 5).round(), 3);
}
