use vstd::prelude::*;
use crate::counters::{lowered, ticked};

verus! {

/// Phase of the combat encounter.
#[derive(PartialEq, Eq, Structural, Clone, Copy, Debug)]
pub enum CombatTurn {
    /// The player chooses among Fight, Act and Mercy.
    Menu,
    /// The outcome of an attack is on display.
    Fighting,
    /// The outcome of a check is on display.
    Acting,
    /// The enemy was spared; a confirmation ends the encounter.
    Mercy,
    /// The enemy's turn, which lasts a fixed number of ticks.
    SansTurn,
}

/// Menu entry that attacks.
pub const MENU_FIGHT: usize = 0;

/// Menu entry that checks the enemy.
pub const MENU_ACT: usize = 1;

/// Menu entry that spares the enemy, the last of the menu.
pub const MENU_MERCY: usize = 2;

/// Ticks that the enemy's turn lasts: it ends on the tick that counts past
/// this number (two seconds at 60 ticks a second).
pub const SANS_TURN_TICKS: u32 = 120;

/// Shake of the enemy sprite right after an attack: 10 pixels.
pub const SHAKE_ON_HIT: u32 = 1000;

/// What the shake loses on each tick: half a pixel.
pub const SHAKE_DECAY: u32 = 50;

/// Shown when the encounter opens.
pub const OPENING_TEXT: &'static str = "You feel like you're gonna have a bad time.";

/// Shown after an attack. Every attack misses: no damage is ever dealt.
pub const ATTACK_TEXT: &'static str = "You attacked Sans... MISS!";

/// Shown after a check.
pub const CHECK_TEXT: &'static str =
    "Check: Sans 1 ATK 1 DEF.\nThe easiest enemy. Can only deal 1 damage.";

/// Shown after sparing the enemy.
pub const SPARE_TEXT: &'static str = "You spared Sans.";

/// Shown during the enemy's turn.
pub const LAUGH_TEXT: &'static str = "heh heh heh...";

/// Shown when the enemy's turn is over and the menu returns.
pub const TAUNT_TEXT: &'static str = "You feel your sins crawling on your back.";

/// The keys of one frame, each true only on the frame on which the key went
/// down. A held key reads false from the second frame on.
#[derive(PartialEq, Eq, Structural, Clone, Copy, Debug)]
pub struct CombatInput {
    pub left: bool,
    pub right: bool,
    /// The primary action key.
    pub action: bool,
    /// The alternate action key.
    pub alt_action: bool,
    /// The submit key.
    pub submit: bool,
}

impl CombatInput {
    /// A confirmation: any of the three keys bound to it went down.
    pub open spec fn confirms(self) -> bool {
        self.action || self.alt_action || self.submit
    }

    /// Whether this frame carries a confirmation.
    pub fn confirm(&self) -> (pressed: bool)
        ensures
            pressed == self.confirms(),
    {
        self.action || self.alt_action || self.submit
    }

    /// The input of a frame on which no key went down.
    pub open spec fn idle() -> CombatInput {
        CombatInput { left: false, right: false, action: false, alt_action: false, submit: false }
    }

    /// The input of a frame on which no key went down.
    pub fn none() -> (input: CombatInput)
        ensures
            input == CombatInput::idle(),
    {
        CombatInput { left: false, right: false, action: false, alt_action: false, submit: false }
    }
}

/// State of the combat encounter.
#[derive(Clone, Debug, PartialEq, Eq)]
pub struct CombatData {
    pub player_hp: i32,
    pub player_max_hp: i32,
    /// The enemy's health. No move changes it.
    pub sans_hp: i32,
    pub sans_max_hp: i32,
    pub turn: CombatTurn,
    /// The menu cursor: `MENU_FIGHT`, `MENU_ACT` or `MENU_MERCY`.
    pub menu_selection: usize,
    pub sub_menu_selection: usize,
    /// Shown in the phases `Menu` and `SansTurn`.
    pub dialogue_text: String,
    /// Shown in the other phases.
    pub action_text: String,
    /// Ticks since the enemy's turn began.
    pub timer: u32,
    /// Shake of the enemy sprite, in hundredths of a pixel.
    pub sans_shake: u32,
}

/// What a [`CombatData`] holds, with its texts as sequences of characters.
pub struct CombatView {
    pub player_hp: i32,
    pub player_max_hp: i32,
    pub sans_hp: i32,
    pub sans_max_hp: i32,
    pub turn: CombatTurn,
    pub menu_selection: usize,
    pub sub_menu_selection: usize,
    pub dialogue_text: Seq<char>,
    pub action_text: Seq<char>,
    pub timer: u32,
    pub sans_shake: u32,
}

impl View for CombatData {
    type V = CombatView;

    open spec fn view(&self) -> CombatView {
        CombatView {
            player_hp: self.player_hp,
            player_max_hp: self.player_max_hp,
            sans_hp: self.sans_hp,
            sans_max_hp: self.sans_max_hp,
            turn: self.turn,
            menu_selection: self.menu_selection,
            sub_menu_selection: self.sub_menu_selection,
            dialogue_text: self.dialogue_text@,
            action_text: self.action_text@,
            timer: self.timer,
            sans_shake: self.sans_shake,
        }
    }
}

/// The whole number nearest to `amount / unit`; of two that are equally
/// near, the even one.
pub open spec fn nearest_quotient(amount: int, unit: int) -> int
    recommends
        amount >= 0,
        unit > 0,
{
    let below = amount / unit;
    let rest = amount % unit;
    if 2 * rest < unit || (2 * rest == unit && below % 2 == 0) {
        below
    } else {
        below + 1
    }
}

impl CombatView {
    /// The state in which every encounter begins.
    pub open spec fn initial() -> CombatView {
        CombatView {
            player_hp: 20,
            player_max_hp: 20,
            sans_hp: 1,
            sans_max_hp: 1,
            turn: CombatTurn::Menu,
            menu_selection: MENU_FIGHT,
            sub_menu_selection: 0,
            dialogue_text: OPENING_TEXT@,
            action_text: Seq::empty(),
            timer: 0,
            sans_shake: 0,
        }
    }

    /// What the data model asks of a state: the health lies between zero and
    /// its maximum, and the cursor is on one of the three menu entries.
    pub open spec fn valid(self) -> bool {
        &&& 0 <= self.player_hp <= self.player_max_hp
        &&& self.menu_selection <= MENU_MERCY
    }

    /// Where the menu cursor stands after the keys of one frame: Left moves
    /// it down unless it is on the first entry, then Right moves it up unless
    /// it is on the last one.
    pub open spec fn cursor_after(self, input: CombatInput) -> usize {
        let after_left = if input.left && self.menu_selection > 0 {
            (self.menu_selection - 1) as usize
        } else {
            self.menu_selection
        };
        if input.right && after_left < MENU_MERCY {
            (after_left + 1) as usize
        } else {
            after_left
        }
    }

    /// The move that a confirmation makes with the cursor on `entry`.
    pub open spec fn chosen(self, entry: usize) -> CombatView {
        if entry == MENU_FIGHT {
            CombatView {
                turn: CombatTurn::Fighting,
                timer: 0,
                action_text: ATTACK_TEXT@,
                sans_shake: SHAKE_ON_HIT,
                ..self
            }
        } else if entry == MENU_ACT {
            CombatView { turn: CombatTurn::Acting, action_text: CHECK_TEXT@, ..self }
        } else if entry == MENU_MERCY {
            CombatView { turn: CombatTurn::Mercy, action_text: SPARE_TEXT@, ..self }
        } else {
            self
        }
    }

    /// The state after one frame's transition.
    ///
    /// In `Menu` the cursor moves first, and a confirmation then makes the
    /// move under the cursor. In `Fighting` and `Acting` a confirmation hands
    /// the turn to the enemy. `Mercy` stays until the encounter is left (see
    /// [`CombatView::leaves`]). The enemy's turn counts its ticks and gives
    /// way to the menu on the tick that counts past `SANS_TURN_TICKS`.
    pub open spec fn next(self, input: CombatInput) -> CombatView {
        match self.turn {
            CombatTurn::Menu => {
                let moved = CombatView { menu_selection: self.cursor_after(input), ..self };
                if input.confirms() {
                    moved.chosen(moved.menu_selection)
                } else {
                    moved
                }
            },
            CombatTurn::Fighting | CombatTurn::Acting => {
                if input.confirms() {
                    CombatView {
                        turn: CombatTurn::SansTurn,
                        timer: 0,
                        dialogue_text: LAUGH_TEXT@,
                        ..self
                    }
                } else {
                    self
                }
            },
            CombatTurn::Mercy => self,
            CombatTurn::SansTurn => {
                if ticked(self.timer) > SANS_TURN_TICKS {
                    CombatView {
                        turn: CombatTurn::Menu,
                        timer: ticked(self.timer),
                        dialogue_text: TAUNT_TEXT@,
                        ..self
                    }
                } else {
                    CombatView { timer: ticked(self.timer), ..self }
                }
            },
        }
    }

    /// Whether this frame ends the encounter: only a confirmation in `Mercy`
    /// does.
    pub open spec fn leaves(self, input: CombatInput) -> bool {
        self.turn == CombatTurn::Mercy && input.confirms()
    }

    /// The health that the bar shows: the player's health, held between
    /// zero and the maximum. With no positive maximum the bar is empty.
    pub open spec fn shown_hp(self) -> int {
        if self.player_max_hp <= 0 || self.player_hp <= 0 {
            0
        } else if self.player_hp >= self.player_max_hp {
            self.player_max_hp as int
        } else {
            self.player_hp as int
        }
    }

    /// How much of a bar `width` long is filled: the shown health's share of
    /// the maximum, rounded down.
    pub open spec fn bar_fill(self, width: int) -> int {
        if self.player_max_hp <= 0 {
            0
        } else {
            self.shown_hp() * width / (self.player_max_hp as int)
        }
    }

    /// The shown health in percent of the maximum, as the whole number
    /// nearest to it; of two that are equally near, the even one.
    pub open spec fn hp_percent(self) -> int {
        if self.player_max_hp <= 0 {
            0
        } else {
            nearest_quotient(100 * self.shown_hp(), self.player_max_hp as int)
        }
    }

    /// The state after the shake has decayed by one tick.
    pub open spec fn settled(self) -> CombatView {
        CombatView { sans_shake: lowered(self.sans_shake, SHAKE_DECAY), ..self }
    }
}

impl CombatData {
    /// A fresh encounter: full health, the menu open with its cursor on
    /// Fight, the opening text on display, nothing shaking.
    pub fn new() -> (data: Self)
        ensures
            data@ == CombatView::initial(),
            data@.valid(),
            data.turn == CombatTurn::Menu,
            data.menu_selection == 0,
    {
        CombatData {
            player_hp: 20,
            player_max_hp: 20,
            sans_hp: 1,
            sans_max_hp: 1,
            turn: CombatTurn::Menu,
            menu_selection: 0,
            sub_menu_selection: 0,
            dialogue_text: OPENING_TEXT.to_owned(),
            action_text: String::new(),
            timer: 0,
            sans_shake: 0,
        }
    }

    /// Makes one frame's transition and tells whether it ends the encounter.
    pub fn advance(&mut self, input: &CombatInput) -> (leave: bool)
        ensures
            final(self)@ == old(self)@.next(*input),
            leave == old(self)@.leaves(*input),
    {
        let confirmed = input.confirm();
        match self.turn {
            CombatTurn::Menu => {
                if input.left && self.menu_selection > 0 {
                    self.menu_selection -= 1;
                }
                if input.right && self.menu_selection < MENU_MERCY {
                    self.menu_selection += 1;
                }
                if confirmed {
                    if self.menu_selection == MENU_FIGHT {
                        self.turn = CombatTurn::Fighting;
                        self.timer = 0;
                        self.action_text = ATTACK_TEXT.to_owned();
                        self.sans_shake = SHAKE_ON_HIT;
                    } else if self.menu_selection == MENU_ACT {
                        self.turn = CombatTurn::Acting;
                        self.action_text = CHECK_TEXT.to_owned();
                    } else if self.menu_selection == MENU_MERCY {
                        self.turn = CombatTurn::Mercy;
                        self.action_text = SPARE_TEXT.to_owned();
                    }
                }
                false
            },
            CombatTurn::Fighting | CombatTurn::Acting => {
                if confirmed {
                    self.turn = CombatTurn::SansTurn;
                    self.timer = 0;
                    self.dialogue_text = LAUGH_TEXT.to_owned();
                }
                false
            },
            CombatTurn::Mercy => confirmed,
            CombatTurn::SansTurn => {
                if self.timer < u32::MAX {
                    self.timer += 1;
                }
                if self.timer > SANS_TURN_TICKS {
                    self.turn = CombatTurn::Menu;
                    self.dialogue_text = TAUNT_TEXT.to_owned();
                }
                false
            },
        }
    }

    /// The health that the bar shows, and the maximum that it is a share
    /// of. The maximum is 0 where the bar is empty for want of a positive
    /// one.
    fn bar_share(&self) -> (share: (u64, u64))
        ensures
            share.0 == self@.shown_hp(),
            share.0 <= share.1 <= i32::MAX,
            self.player_max_hp > 0 ==> share.1 == self.player_max_hp,
            self.player_max_hp <= 0 ==> share.1 == 0,
    {
        if self.player_max_hp <= 0 {
            (0, 0)
        } else if self.player_hp <= 0 {
            (0, self.player_max_hp as u64)
        } else if self.player_hp >= self.player_max_hp {
            (self.player_max_hp as u64, self.player_max_hp as u64)
        } else {
            (self.player_hp as u64, self.player_max_hp as u64)
        }
    }

    /// How much of a health bar `width` long is filled.
    pub fn health_fill(&self, width: u32) -> (filled: u32)
        ensures
            filled == self@.bar_fill(width as int),
            filled <= width,
    {
        let (shown, max) = self.bar_share();
        if max == 0 {
            return 0;
        }
        proof {
            assert(shown * width <= max * width) by (nonlinear_arith)
                requires
                    shown <= max,
                    width >= 0,
            ;
            assert(max * width <= 0x8000_0000 * 0x1_0000_0000) by (nonlinear_arith)
                requires
                    max <= 0x8000_0000,
                    width <= 0x1_0000_0000,
                    max >= 0,
                    width >= 0,
            ;
            vstd::arithmetic::div_mod::lemma_div_is_ordered(
                shown * width,
                max * width,
                max as int,
            );
            vstd::arithmetic::div_mod::lemma_div_multiples_vanish(width as int, max as int);
            assert(max * width == width * max) by (nonlinear_arith);
        }
        let scaled: u64 = shown * (width as u64);
        (scaled / max) as u32
    }

    /// The shown health in percent of the maximum, rounded to the nearest
    /// whole number.
    pub fn health_percent(&self) -> (percent: u32)
        ensures
            percent == self@.hp_percent(),
            percent <= 100,
    {
        let (shown, max) = self.bar_share();
        if max == 0 {
            return 0;
        }
        let amount: u64 = 100 * shown;
        let below: u64 = amount / max;
        let rest: u64 = amount % max;
        proof {
            vstd::arithmetic::div_mod::lemma_div_is_ordered(
                amount as int,
                100 * max,
                max as int,
            );
            vstd::arithmetic::div_mod::lemma_div_multiples_vanish(100, max as int);
            vstd::arithmetic::div_mod::lemma_fundamental_div_mod(amount as int, max as int);
            if below == 100 {
                assert(rest == 0) by (nonlinear_arith)
                    requires
                        amount == max * below + rest,
                        below == 100,
                        amount <= 100 * max,
                        rest >= 0,
                ;
            }
        }
        if 2 * rest < max || (2 * rest == max && below % 2 == 0) {
            below as u32
        } else {
            (below + 1) as u32
        }
    }

    /// Lets the shake of the enemy sprite decay by one tick.
    pub fn decay_shake(&mut self)
        ensures
            final(self)@ == old(self)@.settled(),
    {
        if self.sans_shake > SHAKE_DECAY {
            self.sans_shake -= SHAKE_DECAY;
        } else {
            self.sans_shake = 0;
        }
    }
}

/// Whether `needle` occurs somewhere in `text`.
pub open spec fn occurs_in(needle: Seq<char>, text: Seq<char>) -> bool {
    exists|at: int|
        0 <= at && at + needle.len() <= text.len() && #[trigger] text.subrange(
            at,
            at + needle.len(),
        ) == needle
}

/// A confirmation in the menu with the cursor on Fight leads to `Fighting`,
/// sets the shake to 10 pixels, and shows a text that says "MISS".
pub proof fn lemma_fight_chosen(state: CombatView, input: CombatInput)
    requires
        state.turn == CombatTurn::Menu,
        state.menu_selection == MENU_FIGHT,
        input.confirms(),
        !input.right,
    ensures
        state.next(input).turn == CombatTurn::Fighting,
        state.next(input).sans_shake == 1000,
        state.next(input).timer == 0,
        occurs_in("MISS"@, state.next(input).action_text),
{
    reveal_strlit("You attacked Sans... MISS!");
    reveal_strlit("MISS");
    let text = state.next(input).action_text;
    assert(text.subrange(21, 21int + "MISS"@.len()) == "MISS"@);
}

/// No whole number is nearer to `amount / unit` than `nearest_quotient`
/// says, and where two are equally near it names the even one.
pub proof fn lemma_nearest_quotient(amount: int, unit: int)
    requires
        amount >= 0,
        unit > 0,
    ensures
        2 * (amount - nearest_quotient(amount, unit) * unit) <= unit,
        2 * (nearest_quotient(amount, unit) * unit - amount) <= unit,
        2 * (amount - nearest_quotient(amount, unit) * unit) == unit || 2 * (nearest_quotient(
            amount,
            unit,
        ) * unit - amount) == unit ==> nearest_quotient(amount, unit) % 2 == 0,
{
    let below = amount / unit;
    let rest = amount % unit;
    vstd::arithmetic::div_mod::lemma_fundamental_div_mod(amount, unit);
    assert(0 <= rest < unit);
    assert((below + 1) * unit == below * unit + unit) by (nonlinear_arith);
    assert(below * unit == unit * below) by (nonlinear_arith);
}

/// No transition touches the health of either side, and a state that meets
/// the data model still meets it after the transition and after the decay.
pub proof fn lemma_model_is_kept(state: CombatView, input: CombatInput)
    ensures
        state.next(input).player_hp == state.player_hp,
        state.next(input).player_max_hp == state.player_max_hp,
        state.next(input).sans_hp == state.sans_hp,
        state.next(input).sans_max_hp == state.sans_max_hp,
        state.valid() ==> state.next(input).valid(),
        state.valid() ==> state.settled().valid(),
        state.menu_selection <= MENU_MERCY ==> state.next(input).menu_selection <= MENU_MERCY,
{
}

} // verus!
