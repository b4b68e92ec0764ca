//! What the terminal makes of what a player types: menu choices and
//! numbers.

use vstd::prelude::*;
use crate::text::same_text;

verus! {

/// What a player does at the main menu.
#[derive(Debug, Clone, Copy, PartialEq, Eq, Structural)]
pub enum MainMenuChoice {
    ViewMarket,
    Trade,
    Travel,
    Help,
    Quit,
}

/// What a player does at the trading menu.
#[derive(Debug, Clone, Copy, PartialEq, Eq, Structural)]
pub enum TradingMenuChoice {
    BuyCargo,
    SellCargo,
    BuyFuel,
    Back,
}

/// What a player picks from a numbered list.
#[derive(Debug, Clone, Copy, PartialEq, Eq, Structural)]
pub enum ListChoice {
    /// The way back.
    Back,
    /// An entry, by its position in the list.
    Entry(usize),
    /// Nothing that the list offers.
    Nothing,
}

/// The game at the terminal.
pub struct TerminalUI;

/// The number that a digit stands for.
pub open spec fn digit_value(c: char) -> Option<nat> {
    if c == '0' {
        Some(0nat)
    } else if c == '1' {
        Some(1nat)
    } else if c == '2' {
        Some(2nat)
    } else if c == '3' {
        Some(3nat)
    } else if c == '4' {
        Some(4nat)
    } else if c == '5' {
        Some(5nat)
    } else if c == '6' {
        Some(6nat)
    } else if c == '7' {
        Some(7nat)
    } else if c == '8' {
        Some(8nat)
    } else if c == '9' {
        Some(9nat)
    } else {
        None
    }
}

/// The number that a run of digits spells; nothing where a character is
/// no digit. The empty run spells nothing at all, which counts as zero.
pub open spec fn digits_value(s: Seq<char>) -> Option<nat>
    decreases s.len(),
{
    if s.len() == 0 {
        Some(0nat)
    } else {
        match (digits_value(s.drop_last()), digit_value(s.last())) {
            (Some(v), Some(d)) => Some(v * 10 + d),
            _ => None,
        }
    }
}

/// A text without the plus sign that may lead it.
pub open spec fn without_sign(s: Seq<char>) -> Seq<char> {
    if s.len() > 0 && s[0] == '+' {
        s.drop_first()
    } else {
        s
    }
}

/// The number that a text spells: digits, with or without a plus sign
/// before them, that make a number that 32 bits hold.
pub open spec fn number_spelt(s: Seq<char>) -> Option<u32> {
    let digits = without_sign(s);
    if digits.len() == 0 {
        None
    } else {
        match digits_value(digits) {
            Some(v) => if v <= u32::MAX {
                Some(v as u32)
            } else {
                None
            },
            None => None,
        }
    }
}

/// A run of digits that goes on from a run that spells a number spells no
/// lesser number.
pub proof fn lemma_digits_grow(s: Seq<char>, n: int)
    requires
        0 <= n <= s.len(),
    ensures
        digits_value(s) is Some ==> digits_value(s.subrange(0, n)) is Some && digits_value(
            s.subrange(0, n),
        )->0 <= digits_value(s)->0,
    decreases s.len() - n,
{
    if n == s.len() {
        assert(s.subrange(0, n) =~= s);
    } else {
        lemma_digits_grow(s, n + 1);
        assert(s.subrange(0, n + 1).drop_last() =~= s.subrange(0, n));
    }
}

/// What a choice from a numbered list of so many entries comes to.
pub open spec fn list_choice_of(s: Seq<char>, entries: nat) -> ListChoice {
    match number_spelt(s) {
        Some(n) => if n == 0 {
            ListChoice::Back
        } else if n <= entries {
            ListChoice::Entry((n - 1) as usize)
        } else {
            ListChoice::Nothing
        },
        None => ListChoice::Nothing,
    }
}

fn value_of_digit(c: char) -> (r: Option<u64>)
    ensures
        match r {
            Some(d) => digit_value(c) == Some(d as nat) && d < 10,
            None => digit_value(c) is None,
        },
{
    if c == '0' {
        Some(0)
    } else if c == '1' {
        Some(1)
    } else if c == '2' {
        Some(2)
    } else if c == '3' {
        Some(3)
    } else if c == '4' {
        Some(4)
    } else if c == '5' {
        Some(5)
    } else if c == '6' {
        Some(6)
    } else if c == '7' {
        Some(7)
    } else if c == '8' {
        Some(8)
    } else if c == '9' {
        Some(9)
    } else {
        None
    }
}

impl TerminalUI {
    /// What a player chose at the main menu, if it was a choice.
    pub fn main_menu_choice(input: &str) -> (r: Option<MainMenuChoice>)
        ensures
            r == if input@ == "1"@ {
                Some(MainMenuChoice::ViewMarket)
            } else if input@ == "2"@ {
                Some(MainMenuChoice::Trade)
            } else if input@ == "3"@ {
                Some(MainMenuChoice::Travel)
            } else if input@ == "4"@ {
                Some(MainMenuChoice::Help)
            } else if input@ == "5"@ {
                Some(MainMenuChoice::Quit)
            } else {
                None
            },
    {
        if same_text(input, "1") {
            Some(MainMenuChoice::ViewMarket)
        } else if same_text(input, "2") {
            Some(MainMenuChoice::Trade)
        } else if same_text(input, "3") {
            Some(MainMenuChoice::Travel)
        } else if same_text(input, "4") {
            Some(MainMenuChoice::Help)
        } else if same_text(input, "5") {
            Some(MainMenuChoice::Quit)
        } else {
            None
        }
    }

    /// What a player chose at the trading menu, if it was a choice.
    pub fn trading_menu_choice(input: &str) -> (r: Option<TradingMenuChoice>)
        ensures
            r == if input@ == "1"@ {
                Some(TradingMenuChoice::BuyCargo)
            } else if input@ == "2"@ {
                Some(TradingMenuChoice::SellCargo)
            } else if input@ == "3"@ {
                Some(TradingMenuChoice::BuyFuel)
            } else if input@ == "4"@ {
                Some(TradingMenuChoice::Back)
            } else {
                None
            },
    {
        if same_text(input, "1") {
            Some(TradingMenuChoice::BuyCargo)
        } else if same_text(input, "2") {
            Some(TradingMenuChoice::SellCargo)
        } else if same_text(input, "3") {
            Some(TradingMenuChoice::BuyFuel)
        } else if same_text(input, "4") {
            Some(TradingMenuChoice::Back)
        } else {
            None
        }
    }

    /// The number that a player typed, if it was one.
    pub fn parse_number(input: &str) -> (r: Option<u32>)
        ensures
            r == number_spelt(input@),
    {
        let length = input.unicode_len();
        let start: usize = if length > 0 && input.get_char(0) == '+' {
            1
        } else {
            0
        };
        if start == length {
            return None;
        }
        let ghost digits = without_sign(input@);
        proof {
            assert(digits =~= input@.subrange(start as int, length as int));
        }
        let mut value: u64 = 0;
        let mut i: usize = start;
        while i < length
            invariant
                start <= i <= length,
                length == input@.len(),
                digits == input@.subrange(start as int, length as int),
                digits == without_sign(input@),
                digits.len() > 0,
                digits_value(digits.subrange(0, i - start)) == Some(value as nat),
                value <= u32::MAX,
            decreases length - i,
        {
            let ghost read = digits.subrange(0, i - start);
            let ghost more = digits.subrange(0, i + 1 - start);
            proof {
                assert(more.drop_last() =~= read);
                assert(more.last() == input@[i as int]);
                lemma_digits_grow(digits, i + 1 - start);
            }
            match value_of_digit(input.get_char(i)) {
                Some(d) => {
                    value = value * 10 + d;
                    if value > u32::MAX as u64 {
                        return None;
                    }
                },
                None => {
                    return None;
                },
            }
            i += 1;
        }
        proof {
            assert(digits.subrange(0, i - start) =~= digits);
        }
        Some(value as u32)
    }

    /// What a player picked from a numbered list of so many entries:
    /// nought leads back, a number up to the length of the list picks an
    /// entry.
    pub fn list_choice(input: &str, entries: usize) -> (r: ListChoice)
        ensures
            r == list_choice_of(input@, entries as nat),
    {
        match Self::parse_number(input) {
            Some(n) => {
                if n == 0 {
                    ListChoice::Back
                } else if n as u64 <= entries as u64 {
                    ListChoice::Entry((n - 1) as usize)
                } else {
                    ListChoice::Nothing
                }
            },
            None => ListChoice::Nothing,
        }
    }

    /// Whether a quantity can be traded: at least one unit, and no more
    /// than the most that can be.
    pub fn is_tradable_quantity(quantity: u32, most: u32) -> (r: bool)
        ensures
            r == (0 < quantity <= most),
    {
        quantity > 0 && quantity <= most
    }
}

} // verus!
