//! The player: a rectangle shape animated from a sprite sheet and steered
//! by arrow keys.
//!
//! Input handling is split from the event source: the host turns raw window
//! events into [`KeyEvent`] values, and everything the player decides from
//! them is verified here.

use vstd::prelude::*;

use crate::animation::Animation;
use crate::color::Color;
use crate::gpu::GraphicsContext;
use crate::math::Rect;
use crate::math::Vec2;
use crate::shape::ctx_after_uniform_write;
use crate::shape::is_initial_rect_mirror;
use crate::shape::RectangleShape;
use crate::texture::Texture;
use crate::transform::Transform;

verus! {

/// The direction the player is walking, if any.
#[derive(Clone, Copy, Debug, PartialEq, Eq, Structural, Default)]
pub enum Direction {
    Left,
    Down,
    Right,
    Up,
    #[default]
    Idle,
}

/// The keys the player reacts to.
#[derive(Clone, Copy, Debug, PartialEq, Eq, Structural)]
pub enum Key {
    ArrowUp,
    ArrowLeft,
    ArrowRight,
    ArrowDown,
    Other,
}

/// One keyboard event: which key, and whether it was pressed or released.
#[derive(Clone, Copy, Debug, PartialEq, Eq, Structural)]
pub struct KeyEvent {
    pub key: Key,
    pub pressed: bool,
}

/// The walking direction an arrow key stands for; `Idle` for any other key.
pub open spec fn key_direction(k: Key) -> Direction {
    match k {
        Key::ArrowUp => Direction::Up,
        Key::ArrowLeft => Direction::Left,
        Key::ArrowRight => Direction::Right,
        Key::ArrowDown => Direction::Down,
        Key::Other => Direction::Idle,
    }
}

/// How far the player moves in `dt` milliseconds at 200 units per second,
/// per direction.
pub open spec fn walk_offset(d: Direction, dt: int) -> (int, int) {
    let s = 200 * dt / 1000;
    match d {
        Direction::Left => (-s, 0int),
        Direction::Down => (0int, s),
        Direction::Right => (s, 0int),
        Direction::Up => (0int, -s),
        Direction::Idle => (0int, 0int),
    }
}

/// One walking animation per direction.
pub struct AnimationSet {
    pub down: Animation,
    pub left: Animation,
    pub up: Animation,
    pub right: Animation,
}

impl AnimationSet {
    /// The animation a direction selects; `Idle` falls back to `down`.
    pub open spec fn get(self, d: Direction) -> Animation {
        match d {
            Direction::Left => self.left,
            Direction::Up => self.up,
            Direction::Right => self.right,
            _ => self.down,
        }
    }

    pub open spec fn wf(self) -> bool {
        self.down.wf() && self.left.wf() && self.up.wf() && self.right.wf()
    }
}

/// One row of the sprite sheet: four 33x36 frames side by side at height
/// `y`.
pub open spec fn sheet_row(y: i32) -> Seq<Rect> {
    seq![
        Rect { x: 0, y, width: 33, height: 36 },
        Rect { x: 33, y, width: 33, height: 36 },
        Rect { x: 66, y, width: 33, height: 36 },
        Rect { x: 99, y, width: 33, height: 36 },
    ]
}

/// A fresh walking animation over sheet row `y`, 200 milliseconds a frame.
pub open spec fn is_fresh_row(a: Animation, y: i32) -> bool {
    a.frames@ == sheet_row(y) && a.current_frame == 0 && a.elapsed == 0 && a.frame_time == 200
}

/// Builds the walking animation over the sheet row at height `y`.
fn sheet_row_animation(y: i32) -> (a: Animation)
    ensures
        is_fresh_row(a, y),
        a.wf(),
{
    let mut frames: Vec<Rect> = Vec::new();
    frames.push(Rect { x: 0, y, width: 33, height: 36 });
    frames.push(Rect { x: 33, y, width: 33, height: 36 });
    frames.push(Rect { x: 66, y, width: 33, height: 36 });
    frames.push(Rect { x: 99, y, width: 33, height: 36 });
    proof {
        assert(frames@ =~= sheet_row(y));
    }
    Animation::new(frames.as_slice(), 200)
}

/// The player: an animated rectangle driven by the keyboard.
pub struct Player {
    pub rect: RectangleShape,
    pub animations: AnimationSet,
    pub current_animation: Direction,
    pub texture: Texture,
    pub direction: Direction,
}

impl Player {
    pub open spec fn wf(self, ctx: GraphicsContext) -> bool {
        &&& self.rect.wf(ctx)
        &&& self.animations.wf()
        &&& self.current_animation != Direction::Idle
    }

    /// Creates the player: a 33x36 rectangle, one walking animation per
    /// direction taken from the sprite sheet's rows, facing down, standing
    /// still.
    pub fn new(ctx: &mut GraphicsContext, texture: Texture) -> (p: Player)
        requires
            old(ctx).has_layout("transform"@),
        ensures
            p.wf(*final(ctx)),
            p.rect.size == (Vec2 { x: 33, y: 36 }),
            p.rect.mesh.transform == Transform::default_spec(),
            p.rect.color == Color(255, 255, 255),
            is_initial_rect_mirror(p.rect.vertices@, Vec2 { x: 33, y: 36 }),
            is_fresh_row(p.animations.down, 0),
            is_fresh_row(p.animations.left, 36),
            is_fresh_row(p.animations.up, 108),
            is_fresh_row(p.animations.right, 72),
            p.current_animation == Direction::Down,
            p.direction == Direction::Idle,
            p.texture == texture,
            final(ctx).buffers@.len() == old(ctx).buffers@.len() + 3,
            forall|k: int|
                0 <= k < old(ctx).buffers@.len() ==> final(ctx).buffers@[k] == old(
                    ctx,
                ).buffers@[k],
            final(ctx).config == old(ctx).config,
            final(ctx).render_pipelines == old(ctx).render_pipelines,
            final(ctx).bind_group_layouts == old(ctx).bind_group_layouts,
            final(ctx).textures == old(ctx).textures,
            final(ctx).commands@.len() == old(ctx).commands@.len() + 4,
            final(ctx).commands@.take(old(ctx).commands@.len() as int) == old(ctx).commands@,
    {
        let rect = RectangleShape::new(ctx, Vec2 { x: 33, y: 36 });
        let animations = AnimationSet {
            down: sheet_row_animation(0),
            left: sheet_row_animation(36),
            up: sheet_row_animation(108),
            right: sheet_row_animation(72),
        };
        Player {
            rect,
            animations,
            current_animation: Direction::Down,
            texture,
            direction: Direction::Idle,
        }
    }

    /// Reacts to one keyboard event. An arrow press starts walking that way
    /// and selects its animation; a release of any arrow rewinds the
    /// current animation and stops walking; other keys change nothing.
    pub fn process_event(&mut self, event: &KeyEvent)
        ensures
            event.key == Key::Other ==> *final(self) == *old(self),
            event.key != Key::Other && !event.pressed ==> {
                &&& final(self).direction == Direction::Idle
                &&& final(self).current_animation == old(self).current_animation
                &&& final(self).animations.get(old(self).current_animation) == (Animation {
                    current_frame: 0,
                    elapsed: 0,
                    ..old(self).animations.get(old(self).current_animation)
                })
                &&& forall|d: Direction|
                    #[trigger] final(self).animations.get(d) == old(self).animations.get(d)
                        || final(self).animations.get(d) == final(self).animations.get(
                        old(self).current_animation,
                    )
                &&& final(self).rect == old(self).rect
                &&& final(self).texture == old(self).texture
            },
            event.key != Key::Other && event.pressed ==> {
                &&& final(self).direction == key_direction(event.key)
                &&& final(self).current_animation == key_direction(event.key)
                &&& final(self).animations == old(self).animations
                &&& final(self).rect == old(self).rect
                &&& final(self).texture == old(self).texture
            },
            old(self).animations.wf() ==> final(self).animations.wf(),
            final(self).current_animation == old(self).current_animation
                || final(self).current_animation == key_direction(event.key),
    {
        let direction = match event.key {
            Key::ArrowUp => Direction::Up,
            Key::ArrowLeft => Direction::Left,
            Key::ArrowRight => Direction::Right,
            Key::ArrowDown => Direction::Down,
            Key::Other => {
                return ;
            },
        };
        if !event.pressed {
            let animation = match self.current_animation {
                Direction::Left => &mut self.animations.left,
                Direction::Up => &mut self.animations.up,
                Direction::Right => &mut self.animations.right,
                _ => &mut self.animations.down,
            };
            animation.reset();
            self.direction = Direction::Idle;
            return ;
        }
        self.current_animation = direction;
        self.direction = direction;
    }

    /// Advances the world by `dt` milliseconds: when walking, the current
    /// animation advances — on a frame step the new frame becomes the
    /// rectangle's texture rect — and the rectangle moves 200 units a
    /// second in the walking direction. Standing still changes nothing.
    pub fn update(&mut self, ctx: &mut GraphicsContext, dt: u64)
        requires
            old(self).wf(*old(ctx)),
            dt <= 10_000_000,
            old(self).rect.mesh.transform.position.x - 2_000_000 >= i32::MIN,
            old(self).rect.mesh.transform.position.x + 2_000_000 <= i32::MAX,
            old(self).rect.mesh.transform.position.y - 2_000_000 >= i32::MIN,
            old(self).rect.mesh.transform.position.y + 2_000_000 <= i32::MAX,
            old(self).animations.get(old(self).current_animation).elapsed + dt <= u64::MAX,
        ensures
            final(self).wf(*final(ctx)),
            old(self).direction == Direction::Idle ==> *final(self) == *old(self) && *final(ctx)
                == *old(ctx),
            old(self).direction != Direction::Idle ==> {
                let anim = old(self).animations.get(old(self).current_animation);
                let offset = walk_offset(old(self).direction, dt as int);
                &&& final(self).direction == old(self).direction
                &&& final(self).current_animation == old(self).current_animation
                &&& final(self).texture == old(self).texture
                &&& final(self).animations.get(old(self).current_animation) == anim.updated(dt)
                &&& forall|d: Direction|
                    #[trigger] final(self).animations.get(d) == old(self).animations.get(d)
                        || final(self).animations.get(d) == anim.updated(dt)
                &&& final(self).rect.mesh.transform.position == (Vec2 {
                    x: (old(self).rect.mesh.transform.position.x + offset.0) as i32,
                    y: (old(self).rect.mesh.transform.position.y + offset.1) as i32,
                })
                &&& final(self).rect.mesh.transform.rotation == old(
                    self,
                ).rect.mesh.transform.rotation
                &&& final(self).rect.size == old(self).rect.size
                &&& (if anim.steps(dt) && anim.updated(dt).current_frame < anim.frames@.len() {
                    final(self).rect.texture_rect == anim.frames@[anim.updated(
                        dt,
                    ).current_frame as int]
                } else {
                    final(self).rect.texture_rect == old(self).rect.texture_rect
                })
                &&& final(ctx).buffers@.len() == old(ctx).buffers@.len()
                &&& final(ctx).same_except_buffers(*old(ctx))
                &&& forall|k: int|
                    0 <= k < old(ctx).buffers@.len() && k != old(self).rect.mesh.buffer && k != old(
                        self,
                    ).rect.mesh.vertex_buffer ==> final(ctx).buffers@[k] == #[trigger] old(
                        ctx,
                    ).buffers@[k]
                &&& final(ctx).commands@.len() >= old(ctx).commands@.len()
                &&& final(ctx).commands@.take(old(ctx).commands@.len() as int) == old(
                    ctx,
                ).commands@
            },
    {
        let offset: Vec2 = match self.direction {
            Direction::Left => Vec2 { x: -((200 * dt / 1000) as i32), y: 0 },
            Direction::Down => Vec2 { x: 0, y: (200 * dt / 1000) as i32 },
            Direction::Right => Vec2 { x: (200 * dt / 1000) as i32, y: 0 },
            Direction::Up => Vec2 { x: 0, y: -((200 * dt / 1000) as i32) },
            Direction::Idle => {
                return ;
            },
        };
        let ghost ctx0 = *ctx;
        let animation = match self.current_animation {
            Direction::Left => &mut self.animations.left,
            Direction::Up => &mut self.animations.up,
            Direction::Right => &mut self.animations.right,
            _ => &mut self.animations.down,
        };
        if animation.update(dt) {
            let frame = animation.get_frame();
            if let Some(frame) = frame {
                self.rect.set_texture_rect(ctx, frame);
            }
        }
        self.rect.move_by(ctx, offset);
        proof {
            assert(ctx.commands@.take(ctx0.commands@.len() as int) =~= ctx0.commands@);
        }
    }
}

} // verus!
