use vstd::prelude::*;
use crate::geometry::ScreenPoint;

verus! {

/// A colour, each channel in hundredths: 0 is none of it, 100 all of it.
#[derive(PartialEq, Eq, Structural, Clone, Copy, Debug)]
pub struct Color {
    pub r: u32,
    pub g: u32,
    pub b: u32,
    /// Opacity.
    pub a: u32,
}

impl Color {
    /// A colour that lets nothing show through.
    #[verifier::allow_in_spec]
    pub fn rgb(r: u32, g: u32, b: u32) -> Color
        returns
            (Color { r, g, b, a: 100 }),
    {
        Color { r, g, b, a: 100 }
    }

    /// Black of the given opacity.
    #[verifier::allow_in_spec]
    pub fn shade(a: u32) -> Color
        returns
            (Color { r: 0, g: 0, b: 0, a }),
    {
        Color { r: 0, g: 0, b: 0, a }
    }

    /// The ground of the combat scene.
    #[verifier::allow_in_spec]
    pub fn black() -> Color
        returns
            Color::rgb(0, 0, 0),
    {
        Color::rgb(0, 0, 0)
    }

    /// Texts and borders.
    #[verifier::allow_in_spec]
    pub fn white() -> Color
        returns
            Color::rgb(100, 100, 100),
    {
        Color::rgb(100, 100, 100)
    }

    /// The filled part of the health bar.
    #[verifier::allow_in_spec]
    pub fn red() -> Color
        returns
            Color::rgb(100, 0, 0),
    {
        Color::rgb(100, 0, 0)
    }

    /// The prompt above a character.
    #[verifier::allow_in_spec]
    pub fn green() -> Color
        returns
            Color::rgb(0, 100, 0),
    {
        Color::rgb(0, 100, 0)
    }

    /// The menu entry under the cursor.
    #[verifier::allow_in_spec]
    pub fn yellow() -> Color
        returns
            Color::rgb(100, 100, 0),
    {
        Color::rgb(100, 100, 0)
    }

    /// The other menu entries.
    #[verifier::allow_in_spec]
    pub fn orange() -> Color
        returns
            Color::rgb(100, 50, 0),
    {
        Color::rgb(100, 50, 0)
    }

    /// The empty part of the health bar.
    #[verifier::allow_in_spec]
    pub fn dark_grey() -> Color
        returns
            Color::rgb(20, 20, 20),
    {
        Color::rgb(20, 20, 20)
    }
}

/// The pictures that the scenes draw. The front end loads them; one that it
/// could not load is left out of the plan.
#[derive(PartialEq, Eq, Structural, Clone, Copy, Debug)]
pub enum Texture {
    SansCombat,
    Heart,
    Eilish,
}

/// Width and height of a loaded picture, in whole pixels.
#[derive(PartialEq, Eq, Structural, Clone, Copy, Debug)]
pub struct TextureSize {
    pub width: i32,
    pub height: i32,
}

impl TextureSize {
    /// The middle of the picture, in hundredths of a pixel.
    pub open spec fn middle(self) -> ScreenPoint {
        ScreenPoint { x: (self.width * 50) as i64, y: (self.height * 50) as i64 }
    }

    /// The middle of the picture, in hundredths of a pixel.
    pub fn center(&self) -> (spot: ScreenPoint)
        ensures
            spot == self.middle(),
    {
        ScreenPoint { x: self.width as i64 * 50, y: self.height as i64 * 50 }
    }
}

/// A rectangle on the screen, in hundredths of a pixel.
#[derive(PartialEq, Eq, Structural, Clone, Copy, Debug)]
pub struct Rect {
    pub x: i64,
    pub y: i64,
    pub width: i64,
    pub height: i64,
}

/// One thing for the front end to draw.
#[derive(PartialEq, Eq, Clone, Debug)]
pub enum DrawCommand {
    /// Fill the whole screen.
    Clear { color: Color },
    /// Draw a picture with the point `origin` of it at `position`, scaled by
    /// `scale` hundredths on both axes.
    Picture { texture: Texture, position: ScreenPoint, origin: ScreenPoint, scale: u32 },
    /// Draw the border of a rectangle, `thickness` hundredths of a pixel wide.
    Outline { area: Rect, thickness: u32, color: Color },
    /// Fill a rectangle.
    Fill { area: Rect, color: Color },
    /// Write a text with its top left corner at `position`.
    Text { content: String, position: ScreenPoint, color: Color },
}

/// What a [`DrawCommand`] says, with its text as a sequence of characters.
pub enum DrawOp {
    Clear { color: Color },
    Picture { texture: Texture, position: ScreenPoint, origin: ScreenPoint, scale: u32 },
    Outline { area: Rect, thickness: u32, color: Color },
    Fill { area: Rect, color: Color },
    Text { content: Seq<char>, position: ScreenPoint, color: Color },
}

impl View for DrawCommand {
    type V = DrawOp;

    open spec fn view(&self) -> DrawOp {
        match *self {
            DrawCommand::Clear { color } => DrawOp::Clear { color },
            DrawCommand::Picture { texture, position, origin, scale } => DrawOp::Picture {
                texture,
                position,
                origin,
                scale,
            },
            DrawCommand::Outline { area, thickness, color } => DrawOp::Outline {
                area,
                thickness,
                color,
            },
            DrawCommand::Fill { area, color } => DrawOp::Fill { area, color },
            DrawCommand::Text { content, position, color } => DrawOp::Text {
                content: content@,
                position,
                color,
            },
        }
    }
}

/// What a list of commands says, in the order in which they are carried out.
pub open spec fn plan_view(commands: Seq<DrawCommand>) -> Seq<DrawOp> {
    commands.map_values(|command: DrawCommand| command@)
}

/// Appends a command to a plan.
pub fn put(plan: &mut Vec<DrawCommand>, command: DrawCommand)
    ensures
        plan_view(final(plan)@) == plan_view(old(plan)@).push(command@),
{
    plan.push(command);
    assert(plan_view(plan@) =~= plan_view(old(plan)@).push(command@));
}

} // verus!
