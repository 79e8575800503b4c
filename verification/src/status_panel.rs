//! The status panel's view of a pet.

use vstd::prelude::*;
use vstd::string::*;
use crate::species::PetState;
use crate::text::{decimal, u32_to_decimal};
use crate::xp::{total_xp_for_level, xp_total, lemma_xp_total_monotonic, lemma_max_level_bounds, MAX_LEVEL};

verus! {

/// What the status panel shows of a pet.
#[derive(Debug, Clone, PartialEq, Eq)]
pub struct State {
    pub species_name: String,
    pub level: u32,
    pub xp: u32,
    pub xp_for_next: u32,
    pub mood: String,
    pub muted: bool,
    pub debugging: u8,
    pub patience: u8,
    pub chaos: u8,
    pub wisdom: u8,
    pub snark: u8,
}

impl State {
    /// The panel's view of `pet`; `xp_for_next` is the cumulative XP at
    /// which the pet reaches its next level.
    pub fn new(pet: &PetState) -> (s: Self)
        requires
            pet.level < MAX_LEVEL,
        ensures
            s.species_name == pet.species_name,
            s.level == pet.level,
            s.xp == pet.xp,
            s.xp_for_next == xp_total(pet.level + 1),
            s.mood == pet.mood,
            s.muted == pet.muted,
            s.debugging == pet.stats.debugging,
            s.patience == pet.stats.patience,
            s.chaos == pet.stats.chaos,
            s.wisdom == pet.stats.wisdom,
            s.snark == pet.stats.snark,
    {
        proof {
            lemma_max_level_bounds();
            lemma_xp_total_monotonic(pet.level + 1, MAX_LEVEL as int);
        }
        State {
            species_name: pet.species_name.clone(),
            level: pet.level,
            xp: pet.xp,
            xp_for_next: total_xp_for_level(pet.level + 1),
            mood: pet.mood.clone(),
            muted: pet.muted,
            debugging: pet.stats.debugging,
            patience: pet.stats.patience,
            chaos: pet.stats.chaos,
            wisdom: pet.stats.wisdom,
            snark: pet.stats.snark,
        }
    }
}

/// `n` copies of `c`.
pub open spec fn repeated(c: char, n: nat) -> Seq<char> {
    Seq::new(n, |i: int| c)
}

/// `s` padded with spaces on the right to `width` characters.
pub open spec fn padded_right(s: Seq<char>, width: nat) -> Seq<char> {
    if s.len() >= width {
        s
    } else {
        s + repeated(' ', (width - s.len()) as nat)
    }
}

/// `s` padded with spaces on the left to `width` characters.
pub open spec fn padded_left(s: Seq<char>, width: nat) -> Seq<char> {
    if s.len() >= width {
        s
    } else {
        repeated(' ', (width - s.len()) as nat) + s
    }
}

/// The bar of a stat: a full block for every two points, then dots up to
/// ten places, in brackets.
pub open spec fn stat_bar_text(value: u8) -> Seq<char> {
    "["@ + repeated('\u{2588}', (value / 2) as nat) + repeated('\u{b7}', (10 - value / 2) as nat)
        + "]"@
}

/// The stat's bar (see `stat_bar_text`); a value above 21 has no bar.
pub fn stat_bar(value: u8) -> (s: String)
    requires
        value <= 21,
    ensures
        s@ == stat_bar_text(value),
{
    proof {
        reveal_strlit("[");
        reveal_strlit("]");
        reveal_strlit("\u{2588}");
        reveal_strlit("\u{b7}");
    }
    let filled: u8 = value / 2;
    let mut s = "[".to_owned();
    let mut i: u8 = 0;
    while i < filled
        invariant
            i <= filled,
            filled <= 10,
            s@ == "["@ + repeated('\u{2588}', i as nat),
        decreases filled - i,
    {
        s.append("\u{2588}");
        proof {
            reveal_strlit("\u{2588}");
        }
        assert(s@ =~= "["@ + repeated('\u{2588}', (i + 1) as nat));
        i = i + 1;
    }
    let ghost head = s@;
    let mut j: u8 = 0;
    while j < 10 - filled
        invariant
            j <= 10 - filled,
            filled <= 10,
            s@ == head + repeated('\u{b7}', j as nat),
        decreases 10 - filled - j,
    {
        s.append("\u{b7}");
        proof {
            reveal_strlit("\u{b7}");
        }
        assert(s@ =~= head + repeated('\u{b7}', (j + 1) as nat));
        j = j + 1;
    }
    s.append("]");
    s
}

/// `s` padded with spaces on the right to `width` characters.
fn pad_right(s: &str, width: usize) -> (r: String)
    ensures
        r@ == padded_right(s@, width as nat),
{
    proof {
        reveal_strlit(" ");
    }
    let mut r = s.to_owned();
    let mut n = s.unicode_len();
    while n < width
        invariant
            n <= width || n == s@.len(),
            s@.len() <= n,
            r@ == s@ + repeated(' ', (n - s@.len()) as nat),
        decreases width - n,
    {
        r.append(" ");
        proof {
            reveal_strlit(" ");
        }
        assert(r@ =~= s@ + repeated(' ', (n + 1 - s@.len()) as nat));
        n = n + 1;
    }
    proof {
        if s@.len() >= width {
            assert(r@ =~= s@);
        }
    }
    r
}

/// One row of the stats: the name padded to eight places, the value
/// right-aligned in two, and the value's bar.
pub fn stat_row(name: &str, value: u8) -> (r: (String, String, String))
    requires
        value <= 21,
    ensures
        r.0@ == padded_right(name@, 8),
        r.1@ == padded_left(decimal(value as nat), 2),
        r.2@ == stat_bar_text(value),
{
    proof {
        reveal_strlit(" ");
    }
    let label = pad_right(name, 8);
    let digits = u32_to_decimal(value as u32);
    let number = if value < 10 {
        let mut t = " ".to_owned();
        t.append(digits.as_str());
        assert(decimal(value as nat).len() == 1);
        assert(t@ =~= padded_left(decimal(value as nat), 2));
        t
    } else {
        proof {
            assert(decimal(value as nat).len() >= 2) by {
                assert(decimal((value / 10) as nat).len() >= 1);
            }
        }
        digits
    };
    (label, number, stat_bar(value))
}

impl State {
    /// The panel's first line: a paw and the species name.
    pub fn species_line(&self) -> (s: String)
        ensures
            s@ == "\u{1F43E} "@ + self.species_name@,
    {
        let mut s = "\u{1F43E} ".to_owned();
        s.append(self.species_name.as_str());
        s
    }

    /// The panel's level line: "Level: {level} | XP: {xp}/{xp_for_next}".
    pub fn level_line(&self) -> (s: String)
        ensures
            s@ == "Level: "@ + decimal(self.level as nat) + " | XP: "@ + decimal(self.xp as nat) + "/"@
                + decimal(self.xp_for_next as nat),
    {
        let mut s = "Level: ".to_owned();
        s.append(u32_to_decimal(self.level).as_str());
        s.append(" | XP: ");
        s.append(u32_to_decimal(self.xp).as_str());
        s.append("/");
        s.append(u32_to_decimal(self.xp_for_next).as_str());
        s
    }

    /// The panel's mood line.
    pub fn mood_line(&self) -> (s: String)
        ensures
            s@ == "Mood: "@ + self.mood@,
    {
        let mut s = "Mood: ".to_owned();
        s.append(self.mood.as_str());
        s
    }

    /// Whether the pet listens or is muted.
    pub fn muted_line(&self) -> (s: &'static str)
        ensures
            s@ == (if self.muted {
                "\u{1F507} Muted"@
            } else {
                "\u{1F50A} Listening"@
            }),
    {
        if self.muted {
            "\u{1F507} Muted"
        } else {
            "\u{1F50A} Listening"
        }
    }

    /// The rows of the five stats, in the order Debug, Patience, Chaos,
    /// Wisdom, Snark (see `stat_row`).
    pub fn stat_rows(&self) -> (rows: Vec<(String, String, String)>)
        requires
            self.debugging <= 21,
            self.patience <= 21,
            self.chaos <= 21,
            self.wisdom <= 21,
            self.snark <= 21,
        ensures
            rows@.len() == 5,
            rows@[0].0@ == padded_right("Debug"@, 8) && rows@[0].1@ == padded_left(decimal(self.debugging as nat), 2) && rows@[0].2@ == stat_bar_text(self.debugging),
            rows@[1].0@ == padded_right("Patience"@, 8) && rows@[1].1@ == padded_left(decimal(self.patience as nat), 2) && rows@[1].2@ == stat_bar_text(self.patience),
            rows@[2].0@ == padded_right("Chaos"@, 8) && rows@[2].1@ == padded_left(decimal(self.chaos as nat), 2) && rows@[2].2@ == stat_bar_text(self.chaos),
            rows@[3].0@ == padded_right("Wisdom"@, 8) && rows@[3].1@ == padded_left(decimal(self.wisdom as nat), 2) && rows@[3].2@ == stat_bar_text(self.wisdom),
            rows@[4].0@ == padded_right("Snark"@, 8) && rows@[4].1@ == padded_left(decimal(self.snark as nat), 2) && rows@[4].2@ == stat_bar_text(self.snark),
    {
        let mut rows: Vec<(String, String, String)> = Vec::new();
        rows.push(stat_row("Debug", self.debugging));
        rows.push(stat_row("Patience", self.patience));
        rows.push(stat_row("Chaos", self.chaos));
        rows.push(stat_row("Wisdom", self.wisdom));
        rows.push(stat_row("Snark", self.snark));
        rows
    }
}

} // verus!
