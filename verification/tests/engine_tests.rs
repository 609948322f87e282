use rusty::animation::Animation;
use rusty::asset_manager::AssetManager;
use rusty::gpu::GraphicsContext;
use rusty::gpu::SurfaceConfig;
use rusty::math::Rect;
use rusty::math::Vec2;
use rusty::player::Direction;
use rusty::player::Key;
use rusty::player::KeyEvent;
use rusty::player::Player;
use rusty::scene::Action;
use rusty::scene::Manager;
use rusty::scene::PendingChange;
use rusty::scene::Scene;
use rusty::texture::Texture;
use rusty::ui::Appearence;
use rusty::ui::Label;
use rusty::ui::Style;

fn context() -> GraphicsContext {
    let mut ctx = GraphicsContext::init(SurfaceConfig { width: 800, height: 600 });
    ctx.register_bind_group_layout("transform".to_string());
    ctx.register_bind_group_layout("texture".to_string());
    ctx
}

fn frame(i: i32) -> Rect {
    Rect { x: 33 * i, y: 0, width: 33, height: 36 }
}

#[test]
fn animation_steps_after_the_frame_time_and_keeps_the_remainder() {
    let frames = [frame(0), frame(1), frame(2)];
    let mut animation = Animation::new(&frames, 200);
    assert_eq!(animation.get_frame(), Some(frame(0)));
    assert!(!animation.update(150));
    assert_eq!(animation.get_frame(), Some(frame(0)));
    assert!(animation.update(100));
    assert_eq!(animation.elapsed, 50);
    assert_eq!(animation.get_frame(), Some(frame(1)));
    assert!(animation.update(250));
    assert_eq!(animation.get_frame(), Some(frame(2)));
    assert!(animation.update(201));
    assert_eq!(animation.get_frame(), Some(frame(0)));
}

#[test]
fn animation_reset_rewinds() {
    let frames = [frame(0), frame(1)];
    let mut animation = Animation::new(&frames, 200);
    animation.update(500);
    animation.reset();
    assert_eq!(animation.current_frame, 0);
    assert_eq!(animation.elapsed, 0);
    assert_eq!(animation.get_frame(), Some(frame(0)));
}

#[test]
fn animation_with_no_frames_has_none() {
    let animation = Animation::new(&[], 200);
    assert_eq!(animation.get_frame(), None);
}

#[test]
fn asset_manager_stores_and_replaces_textures() {
    let mut ctx = context();
    let mut manager = AssetManager::new();
    assert_eq!(manager.get_texture(&"panda.png".to_string()), None);
    let a = Texture::empty(&mut ctx);
    let b = Texture::from_image(&mut ctx, 2, 2, vec![0u8; 16]);
    let stored = manager.store_texture("panda.png".to_string(), a);
    assert_eq!(stored, a);
    assert_eq!(manager.get_texture(&"panda.png".to_string()), Some(a));
    manager.store_texture("tree.png".to_string(), b);
    assert_eq!(manager.get_texture(&"panda.png".to_string()), Some(a));
    assert_eq!(manager.get_texture(&"tree.png".to_string()), Some(b));
    manager.store_texture("panda.png".to_string(), b);
    assert_eq!(manager.get_texture(&"panda.png".to_string()), Some(b));
}

struct CountingScene {
    updates: u64,
    events: u64,
}

impl Scene for CountingScene {
    fn update(&mut self, dt: u64) {
        self.updates += dt;
    }

    fn process_event(&mut self, _event: &KeyEvent) {
        self.events += 1;
    }

    fn draw(&self) {}
}

#[test]
fn scene_manager_applies_pending_changes_in_order() {
    let mut manager: Manager<CountingScene> = Manager::new();
    manager.scenes.push(CountingScene { updates: 0, events: 0 });
    manager.scenes.push(CountingScene { updates: 0, events: 0 });
    manager.scenes.push(CountingScene { updates: 0, events: 0 });
    manager.update(16);
    manager.process_event(&KeyEvent { key: Key::Other, pressed: true });
    assert_eq!(manager.scenes[0].updates, 16);
    assert_eq!(manager.scenes[2].events, 1);
    manager.schedule(PendingChange { action: Action::Pop, id: 0 });
    manager.schedule(PendingChange { action: Action::Pop, id: 0 });
    manager.apply_pending_changes();
    assert_eq!(manager.scenes.len(), 1);
    manager.schedule(PendingChange { action: Action::Clear, id: 0 });
    manager.schedule(PendingChange { action: Action::Pop, id: 0 });
    manager.apply_pending_changes();
    assert!(manager.scenes.is_empty());
    assert!(manager.pending_list.is_empty());
}

#[test]
fn label_keeps_text_and_style() {
    let style = Style::default();
    assert_eq!(style.font_size, 16);
    assert_eq!(style.appearence, Appearence::Regular);
    assert_eq!(style.letter_spacing, 0);
    let mut label = Label::new("hello", style);
    assert_eq!(label.text(), "hello");
    label.set_text("bye");
    assert_eq!(label.text(), "bye");
    label.set_style(Style { font_size: 20, ..style });
    assert_eq!(label.style().font_size, 20);
}

#[test]
fn player_walks_in_the_pressed_direction() {
    let mut ctx = context();
    let texture = Texture::empty(&mut ctx);
    let mut player = Player::new(&mut ctx, texture);
    assert_eq!(player.direction, Direction::Idle);
    let before = player.rect.position();
    player.update(&mut ctx, 100);
    assert_eq!(player.rect.position(), before);

    player.process_event(&KeyEvent { key: Key::ArrowRight, pressed: true });
    assert_eq!(player.direction, Direction::Right);
    player.update(&mut ctx, 100);
    assert_eq!(player.rect.position(), Vec2 { x: 20, y: 0 });

    player.process_event(&KeyEvent { key: Key::ArrowUp, pressed: true });
    player.update(&mut ctx, 50);
    assert_eq!(player.rect.position(), Vec2 { x: 20, y: -10 });
}

#[test]
fn player_release_stops_and_rewinds_the_animation() {
    let mut ctx = context();
    let texture = Texture::empty(&mut ctx);
    let mut player = Player::new(&mut ctx, texture);
    player.process_event(&KeyEvent { key: Key::ArrowLeft, pressed: true });
    player.update(&mut ctx, 250);
    assert_eq!(player.animations.left.current_frame, 1);
    player.process_event(&KeyEvent { key: Key::ArrowLeft, pressed: false });
    assert_eq!(player.direction, Direction::Idle);
    assert_eq!(player.animations.left.current_frame, 0);
    assert_eq!(player.animations.left.elapsed, 0);
}

#[test]
fn player_animation_step_sets_the_texture_rect() {
    let mut ctx = context();
    let texture = Texture::empty(&mut ctx);
    let mut player = Player::new(&mut ctx, texture);
    player.process_event(&KeyEvent { key: Key::ArrowRight, pressed: true });
    // One step past the 200 ms frame time: the second frame of the
    // "right" row (y = 72) becomes the texture rect.
    player.update(&mut ctx, 250);
    assert_eq!(player.rect.texture_rect, Rect { x: 33, y: 72, width: 33, height: 36 });
    // Ignored keys change nothing.
    let dir = player.direction;
    player.process_event(&KeyEvent { key: Key::Other, pressed: true });
    assert_eq!(player.direction, dir);
}
