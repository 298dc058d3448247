//! What the table shows and how it answers to the pointer: the decisions
//! behind buttons, counters, colours and the message board, free of any
//! drawing.

use crate::board::ActionTaken;
use crate::card::Card;
use crate::hand::CardInfo;
use crate::player::Player;
use crate::resource::{CastleResource, ResourceType};
use crate::text::{append_decimal, decimal};
use std::collections::VecDeque;
use vstd::prelude::*;
use vstd::string::StringExecFns;

verus! {

/// The state of a button.
#[derive(PartialEq, Eq, Hash, Copy, Debug, Clone, Structural)]
pub enum ButtonState {
    Normal,
    Hovered,
    Pressed,
    Disabled,
}

impl ButtonState {
    /// The state of a new button.
    pub fn new(enabled: bool) -> (state: ButtonState)
        ensures
            state == if enabled {
                ButtonState::Normal
            } else {
                ButtonState::Disabled
            },
    {
        if enabled {
            ButtonState::Normal
        } else {
            ButtonState::Disabled
        }
    }

    /// Whether the pointer is over the button.
    pub fn is_hovered(&self) -> (hovered: bool)
        ensures
            hovered == (*self == ButtonState::Hovered),
    {
        *self == ButtonState::Hovered
    }

    /// The pointer comes over the button or leaves it. A disabled button
    /// stays disabled.
    pub fn set_hovered(&mut self, hovered: bool)
        ensures
            *final(self) == if *old(self) == ButtonState::Disabled {
                ButtonState::Disabled
            } else if hovered {
                ButtonState::Hovered
            } else {
                ButtonState::Normal
            },
    {
        if *self == ButtonState::Disabled {
            return;
        }
        *self = if hovered {
            ButtonState::Hovered
        } else {
            ButtonState::Normal
        };
    }
}

/// How a button is drawn.
#[derive(PartialEq, Eq, Hash, Copy, Debug, Clone, Structural)]
pub enum ButtonLook {
    Base,
    Hover,
    Disabled,
}

impl ButtonState {
    /// How a button in this state is drawn: a disabled button and one under
    /// the pointer have looks of their own, any other has the plain one.
    pub fn look(&self) -> (look: ButtonLook)
        ensures
            look == match *self {
                ButtonState::Disabled => ButtonLook::Disabled,
                ButtonState::Hovered => ButtonLook::Hover,
                _ => ButtonLook::Base,
            },
    {
        match self {
            ButtonState::Disabled => ButtonLook::Disabled,
            ButtonState::Hovered => ButtonLook::Hover,
            _ => ButtonLook::Base,
        }
    }
}

/// What the screen that a game starts with asks for.
#[derive(PartialEq, Eq, Hash, Copy, Debug, Clone, Structural)]
pub enum StartRequest {
    NewGame,
    ContinueGame,
}

/// The state of the screen that a game starts with.
#[derive(PartialEq, Eq, Hash, Copy, Debug, Clone, Structural)]
pub enum StartGameState {
    Active,
    RequestNewGame,
    RequestGameContinue,
    Inactive,
}

impl StartGameState {
    /// The screen is put away.
    pub fn disable(&mut self)
        ensures
            *final(self) == StartGameState::Inactive,
    {
        *self = StartGameState::Inactive;
    }

    /// Whether the screen is shown.
    pub fn is_active(&self) -> (active: bool)
        ensures
            active == (*self != StartGameState::Inactive),
    {
        *self != StartGameState::Inactive
    }

    /// Whether the screen asks for a match to begin.
    pub fn is_requesting_change(&self) -> (requesting: bool)
        ensures
            requesting == (*self == StartGameState::RequestGameContinue || *self
                == StartGameState::RequestNewGame),
    {
        *self == StartGameState::RequestGameContinue || *self == StartGameState::RequestNewGame
    }

    /// Answers what the screen asks for, if it asks for anything: the
    /// screen is put away, and the match that was asked for is named.
    pub fn take_request(&mut self) -> (request: Option<StartRequest>)
        ensures
            request == match *old(self) {
                StartGameState::RequestGameContinue => Some(StartRequest::ContinueGame),
                StartGameState::RequestNewGame => Some(StartRequest::NewGame),
                _ => None,
            },
            *final(self) == if request.is_some() {
                StartGameState::Inactive
            } else {
                *old(self)
            },
    {
        if !self.is_requesting_change() {
            return None;
        }
        let request = match self {
            StartGameState::RequestGameContinue => StartRequest::ContinueGame,
            _ => StartRequest::NewGame,
        };
        self.disable();
        Some(request)
    }

    /// A mouse button was pressed or released. Once the opening animation
    /// has ended, the left button, held over either of the two buttons of
    /// the screen, asks for a new match.
    pub fn mouse_button(
        &mut self,
        anim_ended: bool,
        lmb_pressed: bool,
        new_game_hovered: bool,
        continue_game_hovered: bool,
    )
        ensures
            *final(self) == if anim_ended && lmb_pressed && (new_game_hovered
                || continue_game_hovered) {
                StartGameState::RequestNewGame
            } else {
                *old(self)
            },
    {
        if anim_ended && lmb_pressed && new_game_hovered {
            *self = StartGameState::RequestNewGame;
        }
        if anim_ended && lmb_pressed && continue_game_hovered {
            *self = StartGameState::RequestNewGame;
        }
    }
}

/// How a shown number moved.
#[derive(Hash, PartialEq, Eq, Copy, Clone, Debug, Structural)]
pub enum UpdateResult {
    NoChange,
    BiggerValue,
    SmallerValue,
}

impl Default for UpdateResult {
    fn default() -> (result: UpdateResult)
        ensures
            result == UpdateResult::NoChange,
    {
        UpdateResult::NoChange
    }
}

/// A number shown on the table.
#[derive(PartialEq, Eq, Copy, Clone, Debug, Structural)]
pub struct PlayerUiValue(pub i32);

impl Default for PlayerUiValue {
    fn default() -> (value: PlayerUiValue)
        ensures
            value.0 == 0,
    {
        PlayerUiValue(0)
    }
}

impl PlayerUiValue {
    /// Shows the new number, and tells how it compares to the one shown before.
    pub fn update(&mut self, new: i32) -> (result: UpdateResult)
        ensures
            final(self).0 == new,
            result == if new == old(self).0 {
                UpdateResult::NoChange
            } else if new > old(self).0 {
                UpdateResult::BiggerValue
            } else {
                UpdateResult::SmallerValue
            },
    {
        if new == self.0 {
            return UpdateResult::NoChange;
        }
        let result = if new > self.0 {
            UpdateResult::BiggerValue
        } else {
            UpdateResult::SmallerValue
        };
        self.0 = new;
        result
    }
}

/// Which number of a player a field of the table shows.
#[derive(PartialEq, Eq, Copy, Clone, Debug, Structural)]
pub enum PlayerTextInterface {
    ResourceAmount(ResourceType),
    ResourceProduction(ResourceType),
    Health,
    Shield,
}

impl Default for PlayerTextInterface {
    fn default() -> (element: PlayerTextInterface)
        ensures
            element == PlayerTextInterface::Shield,
    {
        PlayerTextInterface::Shield
    }
}

impl PlayerTextInterface {
    /// The number of the player that the field shows.
    pub open spec fn spec_value_of(self, player: Player) -> i32 {
        match self {
            PlayerTextInterface::ResourceAmount(res_type) => match res_type {
                ResourceType::Tools => player.resources.tools.amount,
                ResourceType::Magic => player.resources.magic.amount,
                ResourceType::Soldiers => player.resources.soldiers.amount,
            },
            PlayerTextInterface::ResourceProduction(res_type) => match res_type {
                ResourceType::Tools => player.resources.tools.production,
                ResourceType::Magic => player.resources.magic.production,
                ResourceType::Soldiers => player.resources.soldiers.production,
            },
            PlayerTextInterface::Health => player.tower_hp,
            PlayerTextInterface::Shield => player.walls_hp,
        }
    }

    /// The number as the field writes it: a production above zero with a
    /// plus sign before it, any other number plainly.
    pub open spec fn spec_text(self, value: i32) -> Seq<char> {
        match self {
            PlayerTextInterface::ResourceProduction(_) if value > 0 => "+"@ + decimal(value as int),
            _ => decimal(value as int),
        }
    }

    /// The number of the player that the field shows.
    pub fn value_of(&self, player: &Player) -> (value: i32)
        ensures
            value == self.spec_value_of(*player),
    {
        match self {
            PlayerTextInterface::ResourceAmount(res_type) => player.resources.get(*res_type).amount,
            PlayerTextInterface::ResourceProduction(res_type) => player.resources.get(
                *res_type,
            ).production,
            PlayerTextInterface::Health => player.tower_hp,
            PlayerTextInterface::Shield => player.walls_hp,
        }
    }

    /// The number as the field writes it.
    pub fn text(&self, value: i32) -> (text: String)
        ensures
            text@ == self.spec_text(value),
    {
        let mut text = String::new();
        match self {
            PlayerTextInterface::ResourceProduction(_) => {
                if value > 0 {
                    text.append("+");
                }
            },
            _ => {},
        }
        append_decimal(&mut text, value as i64);
        assert(text@ =~= self.spec_text(value));
        text
    }

    /// Brings the field up to date with the player: tells how the number
    /// moved and, where it did move, what the field is to write.
    pub fn update(&self, shown: &mut PlayerUiValue, player: &Player) -> (change: (
        UpdateResult,
        Option<String>,
    ))
        ensures
            final(shown).0 == self.spec_value_of(*player),
            change.0 == if final(shown).0 == old(shown).0 {
                UpdateResult::NoChange
            } else if final(shown).0 > old(shown).0 {
                UpdateResult::BiggerValue
            } else {
                UpdateResult::SmallerValue
            },
            match change.1 {
                Some(text) => change.0 != UpdateResult::NoChange && text@ == self.spec_text(
                    final(shown).0,
                ),
                None => change.0 == UpdateResult::NoChange,
            },
    {
        let new_value: i32 = self.value_of(player);
        let result = shown.update(new_value);
        if result == UpdateResult::NoChange {
            return (result, None);
        }
        (result, Some(self.text(new_value)))
    }
}

/// What is to be done with a card that is being dragged.
#[derive(PartialEq, Eq, Copy, Clone, Debug, Structural)]
pub enum ActionToPerform {
    Use,
    Discard,
    Nothing,
}

impl Default for ActionToPerform {
    fn default() -> (action: ActionToPerform)
        ensures
            action == ActionToPerform::Nothing,
    {
        ActionToPerform::Nothing
    }
}

/// A part of the table onto which a card can be dropped.
#[derive(PartialEq, Eq, Copy, Clone, Debug, Structural)]
pub enum CardDropZone {
    Use,
    Discard,
}

impl Default for CardDropZone {
    fn default() -> (zone: CardDropZone)
        ensures
            zone == CardDropZone::Discard,
    {
        CardDropZone::Discard
    }
}

/// What becomes of a card.
#[derive(PartialEq, Eq, Copy, Clone, Debug, Structural)]
pub enum CardAction {
    ReturnToDeck,
    Use,
    DropIt,
}

impl CardDropZone {
    /// What is to be done with a card dragged over this zone: over the zone
    /// for use, a card that can be played is used and any other left alone;
    /// over the zone for discarding, any card is discarded.
    pub fn drag_over(&self, usable: bool) -> (action: ActionToPerform)
        ensures
            action == match *self {
                CardDropZone::Use => if usable {
                    ActionToPerform::Use
                } else {
                    ActionToPerform::Nothing
                },
                CardDropZone::Discard => ActionToPerform::Discard,
            },
    {
        match self {
            CardDropZone::Use => if usable {
                ActionToPerform::Use
            } else {
                ActionToPerform::Nothing
            },
            CardDropZone::Discard => ActionToPerform::Discard,
        }
    }
}

/// The colour that a card in hand is shown in.
#[derive(PartialEq, Eq, Copy, Clone, Debug, Structural)]
pub enum CardTint {
    /// About to be used.
    Amber,
    /// About to be discarded.
    Red,
    /// Not affordable.
    Dimmed,
    /// As it is.
    White,
}

impl ActionToPerform {
    /// The colour of a dragged card: amber where it is about to be used and
    /// can be, red where it is about to be discarded, dimmed where it
    /// cannot be played, else white.
    pub fn card_color(&self, can_throw: bool) -> (tint: CardTint)
        ensures
            tint == if *self == ActionToPerform::Use && can_throw {
                CardTint::Amber
            } else if *self == ActionToPerform::Discard {
                CardTint::Red
            } else if !can_throw {
                CardTint::Dimmed
            } else {
                CardTint::White
            },
    {
        match (self, can_throw) {
            (ActionToPerform::Use, true) => CardTint::Amber,
            (ActionToPerform::Discard, _) => CardTint::Red,
            (_, false) => CardTint::Dimmed,
            (_, _) => CardTint::White,
        }
    }

    /// What the player has decided when the card is let go: to use it, to
    /// drop it, or nothing.
    pub fn end_drag(&self, card: &Card) -> (taken: Option<ActionTaken>)
        ensures
            match taken {
                Some(ActionTaken::UseCard { card: used }) => *self == ActionToPerform::Use && used@
                    == card@,
                Some(ActionTaken::DropCard { card: dropped }) => *self == ActionToPerform::Discard
                    && dropped@ == card@,
                None => *self == ActionToPerform::Nothing,
            },
    {
        match self {
            ActionToPerform::Use => Some(ActionTaken::UseCard { card: card.clone() }),
            ActionToPerform::Discard => Some(ActionTaken::DropCard { card: card.clone() }),
            ActionToPerform::Nothing => None,
        }
    }
}

impl<'a> CardInfo<'a> {
    /// The colour of the card in hand: dimmed where the player cannot
    /// afford it.
    pub fn color(&self) -> (tint: CardTint)
        ensures
            tint == if self.can_afford {
                CardTint::White
            } else {
                CardTint::Dimmed
            },
    {
        if self.can_afford {
            CardTint::White
        } else {
            CardTint::Dimmed
        }
    }

    /// The path of the picture of the card.
    pub fn image_path(&self) -> (path: String)
        ensures
            path@ == "cards/"@ + decimal(self.card.id as int) + ".png"@,
    {
        self.card.image_path()
    }
}

impl ActionTaken {
    /// The path of the sound that goes with the action.
    pub fn sound_asset(&self) -> (path: String)
        ensures
            path@ == match self {
                ActionTaken::UseCard { card } => card.cost_resource.sound_asset(),
                ActionTaken::DropCard { card } => "snd/card_dismiss.ogg"@,
            },
    {
        match self {
            ActionTaken::UseCard { card } => card.get_sound_asset(),
            ActionTaken::DropCard { card: _ } => String::from_str("snd/card_dismiss.ogg"),
        }
    }
}

impl ResourceType {
    /// The colour that stands for the supply, as a hexadecimal code.
    pub fn base_color(&self) -> (code: &'static str)
        ensures
            code@ == match *self {
                ResourceType::Tools => "#2a9efe"@,
                ResourceType::Magic => "#339820"@,
                ResourceType::Soldiers => "#bb332a"@,
            },
    {
        match self {
            ResourceType::Tools => "#2a9efe",
            ResourceType::Magic => "#339820",
            ResourceType::Soldiers => "#bb332a",
        }
    }
}

/// The colour that a number is shown in once it has moved.
#[derive(PartialEq, Eq, Copy, Clone, Debug, Structural)]
pub enum ValueColor {
    White,
    Red,
    Green,
}

/// Tower and walls of a player as the table shows them.
#[derive(PartialEq, Eq, Copy, Clone, Debug, Structural)]
pub struct PlayerInfo {
    pub tower_hp: i32,
    pub walls_hp: i32,
    pub health_color: ValueColor,
    pub shield_color: ValueColor,
    pub active: bool,
}

impl PlayerInfo {
    /// The colour for a number that went from `shown` to `now`.
    pub open spec fn color_of(shown: i32, now: i32) -> ValueColor {
        if shown == now {
            ValueColor::White
        } else if shown > now {
            ValueColor::Red
        } else {
            ValueColor::Green
        }
    }

    /// Brings what is shown up to date with the player, and tells whether
    /// the picture is to shake. A number that fell turns red, one that rose
    /// green, one that stayed white; but where the tower moved, the walls
    /// are never white: red where they fell, else green. The picture
    /// shakes where tower or walls fell.
    pub fn update_info(&mut self, tower_hp: i32, walls_hp: i32, active: bool) -> (shake: bool)
        ensures
            final(self).tower_hp == tower_hp,
            final(self).walls_hp == walls_hp,
            final(self).active == active,
            final(self).health_color == PlayerInfo::color_of(old(self).tower_hp, tower_hp),
            final(self).shield_color == if old(self).tower_hp != tower_hp && old(self).walls_hp
                == walls_hp {
                ValueColor::Green
            } else {
                PlayerInfo::color_of(old(self).walls_hp, walls_hp)
            },
            shake == (old(self).walls_hp > walls_hp || old(self).tower_hp > tower_hp),
    {
        self.shield_color = if self.walls_hp != walls_hp {
            if self.walls_hp > walls_hp {
                ValueColor::Red
            } else {
                ValueColor::Green
            }
        } else {
            ValueColor::White
        };
        self.health_color = if self.tower_hp != tower_hp {
            if self.tower_hp > tower_hp {
                ValueColor::Red
            } else {
                ValueColor::Green
            }
        } else {
            ValueColor::White
        };
        if self.tower_hp != tower_hp {
            self.shield_color = if self.walls_hp > walls_hp {
                ValueColor::Red
            } else {
                ValueColor::Green
            };
        }
        let shake = self.walls_hp > walls_hp || self.tower_hp > tower_hp;
        self.walls_hp = walls_hp;
        self.tower_hp = tower_hp;
        self.active = active;
        shake
    }

    /// The colours go back to white.
    pub fn game_restarted(&mut self)
        ensures
            *final(self) == (PlayerInfo {
                health_color: ValueColor::White,
                shield_color: ValueColor::White,
                ..*old(self)
            }),
    {
        self.health_color = ValueColor::White;
        self.shield_color = ValueColor::White;
    }
}

/// A supply of a player as the table shows it.
#[derive(PartialEq, Eq, Copy, Clone, Debug, Structural)]
pub struct ResourceInfo {
    pub amount: i32,
    pub production: i32,
}

impl ResourceInfo {
    /// Brings what is shown up to date with the supply, and tells whether
    /// the picture is to shake: where stock or production fell while it was
    /// not the player's turn.
    pub fn update_values(&mut self, resource: &CastleResource, active: bool) -> (shake: bool)
        ensures
            final(self).amount == resource.amount,
            final(self).production == resource.production,
            shake == ((old(self).amount > resource.amount || old(self).production
                > resource.production) && !active),
    {
        let shake = (self.amount > resource.amount || self.production > resource.production)
            && !active;
        self.amount = resource.amount;
        self.production = resource.production;
        shake
    }
}

/// The two cards played last, as the table shows them beside the deck.
#[derive(PartialEq, Debug, Clone)]
pub struct WasteCards {
    pub previous_card: Option<Card>,
    pub last_card: Option<Card>,
    pub cards_played: i32,
}

impl WasteCards {
    /// No card has been played yet.
    pub fn new() -> (waste: WasteCards)
        ensures
            waste.previous_card.is_none(),
            waste.last_card.is_none(),
            waste.cards_played == 0,
    {
        WasteCards { previous_card: None, last_card: None, cards_played: 0 }
    }

    /// A card was played. The first card played is shown in the first
    /// place, the second in the second; from then on the card in the second
    /// place moves to the first and the card played takes the second.
    pub fn card_used(&mut self, card: &Card)
        requires
            old(self).cards_played < i32::MAX,
        ensures
            final(self).cards_played == old(self).cards_played + 1,
            final(self).cards_played == 1 ==> final(self).previous_card.is_some() && final(self).previous_card.unwrap()@ == card@ && final(self).last_card == old(self).last_card,
            final(self).cards_played == 2 ==> final(self).last_card.is_some() && final(self).last_card.unwrap()@ == card@ && final(self).previous_card == old(self).previous_card,
            final(self).cards_played != 1 && final(self).cards_played != 2 ==> final(self).last_card.is_some() && final(self).last_card.unwrap()@ == card@ && final(self).previous_card == old(self).last_card,
    {
        self.cards_played = self.cards_played + 1;
        if self.cards_played == 1 {
            self.previous_card = Some(card.clone());
        } else if self.cards_played == 2 {
            self.last_card = Some(card.clone());
        } else {
            self.previous_card = self.last_card.take();
            self.last_card = Some(card.clone());
        }
    }

    /// The match is over: the count begins anew.
    pub fn game_ended(&mut self)
        ensures
            final(self).cards_played == 0,
            final(self).previous_card == old(self).previous_card,
            final(self).last_card == old(self).last_card,
    {
        self.cards_played = 0;
    }
}

/// How many messages the board keeps.
pub const CONSOLE_LINES: usize = 10;

/// The lines of some messages.
pub open spec fn lines(infos: Seq<String>) -> Seq<Seq<char>> {
    infos.map_values(|info: String| info@)
}

/// The messages, each followed by a line break.
pub open spec fn lines_text(infos: Seq<Seq<char>>) -> Seq<char>
    decreases infos.len(),
{
    if infos.len() == 0 {
        Seq::empty()
    } else {
        lines_text(infos.drop_last()) + infos.last() + "\n"@
    }
}

/// A board of the latest messages.
pub struct Console {
    pub infos: VecDeque<String>,
    pub visible: bool,
}

impl View for Console {
    type V = Seq<Seq<char>>;

    open spec fn view(&self) -> Seq<Seq<char>> {
        lines(self.infos@)
    }
}

impl Console {
    /// An empty board, shown.
    pub fn new() -> (console: Console)
        ensures
            console@.len() == 0,
            console.visible,
    {
        Console { infos: VecDeque::with_capacity(CONSOLE_LINES), visible: true }
    }

    /// Shows the board if it is hidden, hides it if it is shown.
    pub fn switch_visibility(&mut self)
        ensures
            final(self).visible == !old(self).visible,
            final(self)@ == old(self)@,
    {
        self.visible = !self.visible;
    }

    /// Puts a message on the board. A full board loses its oldest message.
    pub fn message(&mut self, msg: &str)
        ensures
            final(self).visible == old(self).visible,
            final(self)@ == (if old(self)@.len() == CONSOLE_LINES {
                old(self)@.drop_first()
            } else {
                old(self)@
            }).push(msg@),
            old(self)@.len() <= CONSOLE_LINES ==> final(self)@.len() <= CONSOLE_LINES,
    {
        let ghost before = self@;
        if self.infos.len() == CONSOLE_LINES {
            self.infos.pop_front();
        }
        let ghost kept = self@;
        assert(kept =~= if before.len() == CONSOLE_LINES {
            before.drop_first()
        } else {
            before
        });
        self.infos.push_back(String::from_str(msg));
        assert(self@ =~= kept.push(msg@));
    }

    /// Takes all messages from the board.
    pub fn clear(&mut self)
        ensures
            final(self)@.len() == 0,
            final(self).visible == old(self).visible,
    {
        self.infos = VecDeque::with_capacity(CONSOLE_LINES);
    }

    /// What the board shows: a heading, then the messages, oldest first,
    /// one to a line.
    pub fn text(&self) -> (text: String)
        ensures
            text@ == "Info:\n"@ + lines_text(self@),
    {
        let mut text = String::from_str("Info:\n");
        let mut i: usize = 0;
        assert(self@.take(0) =~= Seq::<Seq<char>>::empty());
        assert(text@ =~= "Info:\n"@ + lines_text(self@.take(0)));
        while i < self.infos.len()
            invariant
                i <= self.infos@.len(),
                text@ == "Info:\n"@ + lines_text(self@.take(i as int)),
            decreases self.infos@.len() - i,
        {
            text.append(self.infos[i].as_str());
            text.append("\n");
            proof {
                assert(self@.take(i + 1).drop_last() =~= self@.take(i as int));
                assert(self@.take(i + 1).last() == self.infos@[i as int]@);
                assert(text@ =~= "Info:\n"@ + lines_text(self@.take(i + 1)));
            }
            i += 1;
        }
        proof {
            assert(self@.take(i as int) =~= self@);
        }
        text
    }
}

/// What the table says when a match is over.
pub fn result_text(positive: bool) -> (text: String)
    ensures
        text@ == if positive {
            "You win! Press to restart!"@
        } else {
            "You lose! Press to restart!"@
        },
{
    if positive {
        String::from_str("You win! Press to restart!")
    } else {
        String::from_str("You lose! Press to restart!")
    }
}

/// Whether the player has come out of a finished match as the winner, and
/// the path of the sound that tells so: the player has won whose tower has
/// reached its greatest height or still stands.
pub fn end_game(player: &Player) -> (end: (bool, String))
    ensures
        end.0 == (player@.has_max_possible_tower() || player@.is_alive()),
        end.1@ == if end.0 {
            "snd/game_won.ogg"@
        } else {
            "snd/game_lost.ogg"@
        },
{
    let player_won = player.has_max_possible_tower() || player.is_alive();
    let sound = if player_won {
        String::from_str("snd/game_won.ogg")
    } else {
        String::from_str("snd/game_lost.ogg")
    };
    (player_won, sound)
}

/// A number in at least two characters: a single digit gets a zero before it.
pub open spec fn two_digits(n: int) -> Seq<char> {
    if 0 <= n < 10 {
        "0"@ + decimal(n)
    } else {
        decimal(n)
    }
}

/// Minutes and seconds as a clock shows them, each in at least two
/// characters, with a colon between.
pub fn clock_text(minutes: i32, seconds: i32) -> (text: String)
    ensures
        text@ == two_digits(minutes as int) + ":"@ + two_digits(seconds as int),
{
    let mut text = String::new();
    if 0 <= minutes && minutes < 10 {
        text.append("0");
    }
    append_decimal(&mut text, minutes as i64);
    text.append(":");
    if 0 <= seconds && seconds < 10 {
        text.append("0");
    }
    append_decimal(&mut text, seconds as i64);
    assert(text@ =~= two_digits(minutes as int) + ":"@ + two_digits(seconds as int));
    text
}

/// The count of the moves made, in words.
pub fn moves_text(moves: i32) -> (text: String)
    ensures
        text@ == "Moves: "@ + decimal(moves as int),
{
    let mut text = String::from_str("Moves: ");
    append_decimal(&mut text, moves as i64);
    text
}

/// A time in seconds as minutes and seconds, both rounded towards zero.
pub fn split_time_mm_ss(time: i32) -> (split: (i32, i32))
    ensures
        time >= 0 ==> split.0 == time / 60 && split.1 == time % 60,
        time < 0 ==> split.0 == -((-time) / 60) && split.1 == -((-time) % 60),
        split.0 * 60 + split.1 == time,
{
    if time >= 0 {
        (time / 60, time % 60)
    } else {
        let magnitude: i64 = -(time as i64);
        ((-(magnitude / 60)) as i32, (-(magnitude % 60)) as i32)
    }
}

} // verus!
