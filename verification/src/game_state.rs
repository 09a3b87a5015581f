use vstd::prelude::*;
use crate::combat::{CombatData, CombatView};
use crate::defs::Scene;
use crate::geometry::Point;

verus! {

/// The state that the scenes share. The front end owns it, moves the
/// protagonist and the characters, and hands it to the scene on display once
/// per frame.
#[derive(Clone, Debug, PartialEq, Eq)]
pub struct GameState {
    /// The scene on display. Combat ends by setting it.
    pub scene: Scene,
    /// The stage of the overworld on which the protagonist stands.
    pub current_stage: u32,
    /// Where the protagonist stands.
    pub player_pos: Point,
    /// Opacity of the black overlay that fades a scene in, in hundredths:
    /// 100 hides the scene, 0 shows it.
    pub fade_alpha: u32,
    pub combat_data: CombatData,
    /// Where the character Eilish stands.
    pub eilish_pos: Point,
    /// Whether her dialogue box is open.
    pub eilish_talking: bool,
    /// Ticks until her dialogue box closes by itself.
    pub eilish_dialogue_timer: u32,
    /// The line that she said last.
    pub eilish_current_dialogue: String,
}

/// What a [`GameState`] holds, with its texts as sequences of characters.
pub struct GameView {
    pub scene: Scene,
    pub current_stage: u32,
    pub player_pos: Point,
    pub fade_alpha: u32,
    pub combat_data: CombatView,
    pub eilish_pos: Point,
    pub eilish_talking: bool,
    pub eilish_dialogue_timer: u32,
    pub eilish_current_dialogue: Seq<char>,
}

impl View for GameState {
    type V = GameView;

    open spec fn view(&self) -> GameView {
        GameView {
            scene: self.scene,
            current_stage: self.current_stage,
            player_pos: self.player_pos,
            fade_alpha: self.fade_alpha,
            combat_data: self.combat_data@,
            eilish_pos: self.eilish_pos,
            eilish_talking: self.eilish_talking,
            eilish_dialogue_timer: self.eilish_dialogue_timer,
            eilish_current_dialogue: self.eilish_current_dialogue@,
        }
    }
}

} // verus!
