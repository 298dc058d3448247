//! Numbers, supplies, effects, cards and players in words.

use crate::board::PlayerNumber;
use crate::card::{Card, CardEffect, EffectType};
use crate::player::Player;
use crate::player_resources::PlayerResources;
use crate::resource::{CastleResource, ResourceType};
use vstd::prelude::*;
use vstd::string::StringExecFns;

verus! {

/// The character of a decimal digit.
pub open spec fn digit(d: int) -> char {
    if d == 0 {
        '0'
    } else if d == 1 {
        '1'
    } else if d == 2 {
        '2'
    } else if d == 3 {
        '3'
    } else if d == 4 {
        '4'
    } else if d == 5 {
        '5'
    } else if d == 6 {
        '6'
    } else if d == 7 {
        '7'
    } else if d == 8 {
        '8'
    } else {
        '9'
    }
}

/// A natural number in decimal digits, without leading zeros.
pub open spec fn decimal_nat(n: nat) -> Seq<char>
    decreases n,
{
    if n < 10 {
        seq![digit(n as int)]
    } else {
        decimal_nat(n / 10) + seq![digit((n % 10) as int)]
    }
}

/// An integer in decimal digits, with a minus sign where it is negative.
pub open spec fn decimal(n: int) -> Seq<char> {
    if n < 0 {
        seq!['-'] + decimal_nat((-n) as nat)
    } else {
        decimal_nat(n as nat)
    }
}

/// The absolute value of an integer.
pub open spec fn abs(n: int) -> int {
    if n < 0 {
        -n
    } else {
        n
    }
}

/// The text of one decimal digit.
fn digit_str(d: u64) -> (text: &'static str)
    requires
        d < 10,
    ensures
        text@ == seq![digit(d as int)],
{
    proof {
        reveal_strlit("0");
        reveal_strlit("1");
        reveal_strlit("2");
        reveal_strlit("3");
        reveal_strlit("4");
        reveal_strlit("5");
        reveal_strlit("6");
        reveal_strlit("7");
        reveal_strlit("8");
        reveal_strlit("9");
    }
    let text = if d == 0 {
        "0"
    } else if d == 1 {
        "1"
    } else if d == 2 {
        "2"
    } else if d == 3 {
        "3"
    } else if d == 4 {
        "4"
    } else if d == 5 {
        "5"
    } else if d == 6 {
        "6"
    } else if d == 7 {
        "7"
    } else if d == 8 {
        "8"
    } else {
        "9"
    };
    assert(text@ =~= seq![digit(d as int)]);
    text
}

/// Writes a natural number in decimal digits at the end of the text.
fn append_decimal_nat(text: &mut String, n: u64)
    ensures
        final(text)@ == old(text)@ + decimal_nat(n as nat),
    decreases n,
{
    let ghost before = text@;
    if n >= 10 {
        append_decimal_nat(text, n / 10);
    }
    text.append(digit_str(n % 10));
    assert(text@ =~= before + decimal_nat(n as nat));
}

/// Writes an integer in decimal digits at the end of the text.
pub fn append_decimal(text: &mut String, n: i64)
    ensures
        final(text)@ == old(text)@ + decimal(n as int),
{
    let ghost before = text@;
    if n < 0 {
        proof {
            reveal_strlit("-");
        }
        text.append("-");
        let magnitude: u64 = if n == i64::MIN {
            0x8000_0000_0000_0000u64
        } else {
            (-n) as u64
        };
        append_decimal_nat(text, magnitude);
    } else {
        append_decimal_nat(text, n as u64);
    }
    assert(text@ =~= before + decimal(n as int));
}

/// An integer in decimal digits.
pub fn decimal_string(n: i32) -> (text: String)
    ensures
        text@ == decimal(n as int),
{
    let mut text = String::new();
    append_decimal(&mut text, n as i64);
    assert(text@ =~= decimal(n as int));
    text
}

impl ResourceType {
    /// The name of the supply.
    pub open spec fn text(self) -> Seq<char> {
        match self {
            ResourceType::Magic => "Magic"@,
            ResourceType::Tools => "Tools"@,
            ResourceType::Soldiers => "Soldiers"@,
        }
    }

    /// The name of the supply.
    pub fn as_str(&self) -> (name: &'static str)
        ensures
            name@ == self.text(),
    {
        match self {
            ResourceType::Magic => "Magic",
            ResourceType::Tools => "Tools",
            ResourceType::Soldiers => "Soldiers",
        }
    }

    /// The name of the supply.
    pub fn to_string(&self) -> (name: String)
        ensures
            name@ == self.text(),
    {
        String::from_str(self.as_str())
    }

    /// The path of the sound of a card that costs this supply.
    pub open spec fn sound_asset(self) -> Seq<char> {
        match self {
            ResourceType::Magic => "snd/card_magic.ogg"@,
            ResourceType::Tools => "snd/card_tools.ogg"@,
            ResourceType::Soldiers => "snd/card_soldiers.ogg"@,
        }
    }
}

impl CastleResource {
    /// The name of a kind of supply.
    pub fn resource_name(res_type: &ResourceType) -> (name: String)
        ensures
            name@ == res_type.text(),
    {
        res_type.to_string()
    }

    /// The supply in words: the stock, a comma, and the production in brackets.
    pub open spec fn text(self) -> Seq<char> {
        decimal(self.amount as int) + ",("@ + decimal(self.production as int) + ")"@
    }

    /// Writes the supply at the end of the text.
    pub fn append_to(&self, text: &mut String)
        ensures
            final(text)@ == old(text)@ + self.text(),
    {
        let ghost before = text@;
        append_decimal(text, self.amount as i64);
        text.append(",(");
        append_decimal(text, self.production as i64);
        text.append(")");
        assert(text@ =~= before + self.text());
    }

    /// The supply in words: the stock, a comma, and the production in brackets.
    pub fn to_string(&self) -> (text: String)
        ensures
            text@ == self.text(),
    {
        let mut text = String::new();
        self.append_to(&mut text);
        assert(text@ =~= self.text());
        text
    }
}

impl PlayerResources {
    /// The three supplies in words, one to a line.
    pub open spec fn text(self) -> Seq<char> {
        "Tools: "@ + self.tools.text() + "\nMagic: "@ + self.magic.text() + "\nSoldiers: "@
            + self.soldiers.text()
    }

    /// The three supplies in words, one to a line.
    pub fn print(&self) -> (text: String)
        ensures
            text@ == self.text(),
    {
        let mut text = String::from_str("Tools: ");
        self.tools.append_to(&mut text);
        text.append("\nMagic: ");
        self.magic.append_to(&mut text);
        text.append("\nSoldiers: ");
        self.soldiers.append_to(&mut text);
        text
    }
}

impl Player {
    /// The player in words: tower and walls, then the three supplies.
    pub open spec fn text(self) -> Seq<char> {
        "Player: Life: "@ + decimal(self.tower_hp as int) + "+"@ + decimal(self.walls_hp as int)
            + ", Tools: "@ + self.resources.tools.text() + ", Magic: "@ + self.resources.magic.text()
            + ", Soldiers: "@ + self.resources.soldiers.text()
    }

    /// The player in words: tower and walls, then the three supplies.
    pub fn to_string(&self) -> (text: String)
        ensures
            text@ == self.text(),
    {
        let mut text = String::from_str("Player: Life: ");
        append_decimal(&mut text, self.tower_hp as i64);
        text.append("+");
        append_decimal(&mut text, self.walls_hp as i64);
        text.append(", Tools: ");
        self.resources.tools.append_to(&mut text);
        text.append(", Magic: ");
        self.resources.magic.append_to(&mut text);
        text.append(", Soldiers: ");
        self.resources.soldiers.append_to(&mut text);
        text
    }
}

impl PlayerNumber {
    /// The player's number in words.
    pub open spec fn text(self) -> Seq<char> {
        match self {
            PlayerNumber::First => "First"@,
            PlayerNumber::Second => "Second"@,
        }
    }

    /// The player's number in words.
    pub fn to_string(&self) -> (text: String)
        ensures
            text@ == self.text(),
    {
        match self {
            PlayerNumber::First => String::from_str("First"),
            PlayerNumber::Second => String::from_str("Second"),
        }
    }
}

impl CardEffect {
    /// The words after an effect that is aimed at the opponent.
    pub open spec fn to_enemy(self) -> Seq<char> {
        if self.affects_user {
            Seq::empty()
        } else {
            " to enemy"@
        }
    }

    /// The effect in words, as a card shows it.
    pub open spec fn text(self) -> Seq<char> {
        match self.effect_type {
            EffectType::ProductionChange(resource, amount) => (if amount > 0 {
                "Increase"@
            } else {
                "Decrease"@
            }) + (if self.affects_user {
                Seq::empty()
            } else {
                " enemy"@
            }) + " prod of "@ + resource.text() + " by "@ + decimal(abs(amount as int)),
            EffectType::Damage(amount, ignore_wall) => (if self.affects_user {
                "Takes"@
            } else {
                "Deliver"@
            }) + " "@ + decimal(amount as int) + " damage"@ + (if ignore_wall {
                "(ignores shield)"@
            } else {
                Seq::empty()
            }),
            EffectType::ResourceChange(resource, amount) => (if amount > 0 {
                "Gives"@
            } else {
                "Takes"@
            }) + " "@ + decimal(abs(amount as int)) + " of "@ + resource.text() + (if self.affects_user {
                Seq::empty()
            } else if amount > 0 {
                " to enemy"@
            } else {
                " from enemy"@
            }),
            EffectType::TowerGrowth(growth) => (if growth > 0 {
                "+"@
            } else {
                "-"@
            }) + decimal(growth as int) + " Health"@ + self.to_enemy(),
            EffectType::WallsGrowth(growth) => (if growth > 0 {
                "+"@
            } else {
                "-"@
            }) + decimal(growth as int) + " Shield"@ + self.to_enemy(),
            EffectType::Nothing => Seq::empty(),
        }
    }

    /// Writes the effect in words at the end of the text.
    pub fn append_to(&self, text: &mut String)
        ensures
            final(text)@ == old(text)@ + self.text(),
    {
        let ghost before = text@;
        match self.effect_type {
            EffectType::ProductionChange(resource, amount) => {
                text.append(if amount > 0 { "Increase" } else { "Decrease" });
                if !self.affects_user {
                    text.append(" enemy");
                }
                text.append(" prod of ");
                text.append(resource.as_str());
                text.append(" by ");
                let magnitude: i64 = if amount < 0 { -(amount as i64) } else { amount as i64 };
                append_decimal(text, magnitude);
            },
            EffectType::Damage(amount, ignore_wall) => {
                text.append(if self.affects_user { "Takes" } else { "Deliver" });
                text.append(" ");
                append_decimal(text, amount as i64);
                text.append(" damage");
                if ignore_wall {
                    text.append("(ignores shield)");
                }
            },
            EffectType::ResourceChange(resource, amount) => {
                text.append(if amount > 0 { "Gives" } else { "Takes" });
                text.append(" ");
                let magnitude: i64 = if amount < 0 { -(amount as i64) } else { amount as i64 };
                append_decimal(text, magnitude);
                text.append(" of ");
                text.append(resource.as_str());
                if !self.affects_user {
                    text.append(if amount > 0 { " to enemy" } else { " from enemy" });
                }
            },
            EffectType::TowerGrowth(growth) => {
                text.append(if growth > 0 { "+" } else { "-" });
                append_decimal(text, growth as i64);
                text.append(" Health");
                if !self.affects_user {
                    text.append(" to enemy");
                }
            },
            EffectType::WallsGrowth(growth) => {
                text.append(if growth > 0 { "+" } else { "-" });
                append_decimal(text, growth as i64);
                text.append(" Shield");
                if !self.affects_user {
                    text.append(" to enemy");
                }
            },
            EffectType::Nothing => {},
        }
        assert(text@ =~= before + self.text());
    }

    /// The effect in words, as a card shows it.
    pub fn to_string(&self) -> (text: String)
        ensures
            text@ == self.text(),
    {
        let mut text = String::new();
        self.append_to(&mut text);
        assert(text@ =~= self.text());
        text
    }
}

/// The effects in words, each after a comma and a space.
pub open spec fn effects_text(effects: Seq<CardEffect>) -> Seq<char>
    decreases effects.len(),
{
    if effects.len() == 0 {
        Seq::empty()
    } else {
        effects_text(effects.drop_last()) + ", "@ + effects.last().text()
    }
}

/// The effects in words, each followed by a line break.
pub open spec fn effects_lines(effects: Seq<CardEffect>) -> Seq<char>
    decreases effects.len(),
{
    if effects.len() == 0 {
        Seq::empty()
    } else {
        effects_lines(effects.drop_last()) + effects.last().text() + "\n"@
    }
}

impl Card {
    /// The cost in words; nothing for a card that costs nothing.
    pub open spec fn cost_text(&self) -> Seq<char> {
        if self.cost_amount > 0 {
            "Cost("@ + self.cost_resource.text() + "): "@ + decimal(self.cost_amount as int)
        } else {
            Seq::empty()
        }
    }

    /// The card in words: its cost, then its effects.
    pub open spec fn text(&self) -> Seq<char> {
        self.cost_text() + effects_text(self.effects@)
    }

    /// The card in words: its cost, then its effects, each after a comma
    /// and a space.
    pub fn to_string(&self) -> (text: String)
        ensures
            text@ == self.text(),
    {
        let mut text = String::new();
        if self.cost_amount > 0 {
            text.append("Cost(");
            text.append(self.cost_resource.as_str());
            text.append("): ");
            append_decimal(&mut text, self.cost_amount as i64);
        }
        assert(text@ =~= self.cost_text());
        let mut i: usize = 0;
        while i < self.effects.len()
            invariant
                i <= self.effects.len(),
                text@ == self.cost_text() + effects_text(self.effects@.take(i as int)),
            decreases self.effects.len() - i,
        {
            text.append(", ");
            self.effects[i].append_to(&mut text);
            proof {
                assert(self.effects@.take(i + 1).drop_last() =~= self.effects@.take(i as int));
                assert(text@ =~= self.cost_text() + effects_text(self.effects@.take(i + 1)));
            }
            i += 1;
        }
        proof {
            assert(self.effects@.take(i as int) =~= self.effects@);
        }
        text
    }

    /// What a card shows of its effects: each in words on a line of its own.
    pub fn description(&self) -> (text: String)
        ensures
            text@ == effects_lines(self.effects@),
    {
        let mut text = String::new();
        let mut i: usize = 0;
        assert(self.effects@.take(0) =~= Seq::<CardEffect>::empty());
        while i < self.effects.len()
            invariant
                i <= self.effects.len(),
                text@ == effects_lines(self.effects@.take(i as int)),
            decreases self.effects.len() - i,
        {
            self.effects[i].append_to(&mut text);
            text.append("\n");
            proof {
                assert(self.effects@.take(i + 1).drop_last() =~= self.effects@.take(i as int));
                assert(text@ =~= effects_lines(self.effects@.take(i + 1)));
            }
            i += 1;
        }
        proof {
            assert(self.effects@.take(i as int) =~= self.effects@);
        }
        text
    }

    /// The path of the sound that is played with the card.
    pub fn get_sound_asset(&self) -> (path: String)
        ensures
            path@ == self.cost_resource.sound_asset(),
    {
        match self.cost_resource {
            ResourceType::Magic => String::from_str("snd/card_magic.ogg"),
            ResourceType::Tools => String::from_str("snd/card_tools.ogg"),
            ResourceType::Soldiers => String::from_str("snd/card_soldiers.ogg"),
        }
    }

    /// The path of the picture of the card.
    pub fn image_path(&self) -> (path: String)
        ensures
            path@ == "cards/"@ + decimal(self.id as int) + ".png"@,
    {
        let mut path = String::from_str("cards/");
        append_decimal(&mut path, self.id as i64);
        path.append(".png");
        path
    }
}

} // verus!
