use vstd::prelude::*;

verus! {

/// Width of the window, in pixels.
pub const SCREEN_WIDTH: i32 = 800;

/// Height of the window, in pixels.
pub const SCREEN_HEIGHT: i32 = 600;

/// The scene that the outer dispatcher is showing.
#[derive(PartialEq, Eq, Structural, Clone, Copy, Debug)]
pub enum Scene {
    Boot,
    LoginUsername,
    LoginPassword,
    Menu,
    TransitionToDesktop,
    /// The overworld, to which combat returns.
    Desktop,
    CombatTransition,
    Combat,
    Config,
    KernelPanic,
    AyasofyaInside,
}

/// Language of the interface texts.
#[derive(PartialEq, Eq, Structural, Clone, Copy, Debug)]
pub enum Language {
    English,
    Turkish,
}

/// The way a character sprite faces.
#[derive(PartialEq, Eq, Structural, Clone, Copy, Debug)]
pub enum Direction {
    Front,
    Left,
    Right,
}

} // verus!
