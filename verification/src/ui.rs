//! Widgets: labels with styled text, and buttons backed by a rectangle.

use vstd::prelude::*;

use crate::color::Color;
use crate::gpu::GraphicsContext;
use crate::math::Vec2;
use crate::player::KeyEvent;
use crate::shape::RectangleShape;
use vstd::string::StringExecFns;

verus! {

/// Something that reacts to input events and updates itself once per frame.
pub trait Widget {
    fn process_events(&mut self, event: &KeyEvent);

    fn update(&mut self);
}

/// Text appearance variants.
#[derive(Clone, Copy, Debug, PartialEq, Eq, Structural, Default)]
pub enum Appearence {
    #[default]
    Regular,
    Bold,
    Italic,
    Underlined,
    StrikeThrough,
}

/// How a label's text is rendered.
#[derive(Clone, Copy, Debug, PartialEq, Eq, Structural)]
pub struct Style {
    pub font_size: i32,
    pub color: Color,
    pub appearence: Appearence,
    pub letter_spacing: i32,
}

impl Default for Style {
    fn default() -> (s: Style)
        ensures
            s == (Style {
                font_size: 16,
                color: Color(255, 255, 255),
                appearence: Appearence::Regular,
                letter_spacing: 0,
            }),
    {
        Style {
            font_size: 16,
            color: Color(255, 255, 255),
            appearence: Appearence::Regular,
            letter_spacing: 0,
        }
    }
}

/// A piece of styled text.
pub struct Label {
    pub style: Style,
    pub text: String,
}

impl Label {
    pub fn new(text: &str, style: Style) -> (l: Label)
        ensures
            l.text@ == text@,
            l.style == style,
    {
        Label { style, text: text.to_owned() }
    }

    pub fn set_text(&mut self, text: &str)
        ensures
            final(self).text@ == text@,
            final(self).style == old(self).style,
    {
        self.text = text.to_owned();
    }

    pub fn text(&self) -> (t: &String)
        ensures
            t == &self.text,
    {
        &self.text
    }

    pub fn style(&self) -> (s: &Style)
        ensures
            s == self.style,
    {
        &self.style
    }

    pub fn set_style(&mut self, style: Style)
        ensures
            final(self).style == style,
            final(self).text == old(self).text,
    {
        self.style = style;
    }
}

/// A clickable widget backed by a zero-sized rectangle shape.
pub struct Button {
    pub shape: RectangleShape,
}

impl Button {
    pub fn new(ctx: &mut GraphicsContext, _text: &str) -> (b: Button)
        requires
            old(ctx).has_layout("transform"@),
        ensures
            b.shape.wf(*final(ctx)),
            b.shape.size == (Vec2 { x: 0, y: 0 }),
    {
        Button { shape: RectangleShape::new(ctx, Vec2 { x: 0, y: 0 }) }
    }
}

} // verus!
