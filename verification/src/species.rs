//! Species, rarity tiers and the pet's persistent state, and how a pet is
//! hatched from the bytes of a digest.

use vstd::prelude::*;
use crate::stats::PersonalityStats;
use crate::text::str_equal;

verus! {

/// Rarity tiers. Probability of each: Common 60%, Uncommon 25%, Rare 10%,
/// Epic 4%, Legendary 1%.
#[derive(Debug, Clone, Copy, PartialEq, Eq, Hash, Structural)]
pub enum RarityTier {
    Common,
    Uncommon,
    Rare,
    Epic,
    Legendary,
}

/// The weight (percent chance) of a tier.
pub open spec fn rarity_weight(r: RarityTier) -> u32 {
    match r {
        RarityTier::Common => 60,
        RarityTier::Uncommon => 25,
        RarityTier::Rare => 10,
        RarityTier::Epic => 4,
        RarityTier::Legendary => 1,
    }
}

impl RarityTier {
    /// The weight (percent chance) of this tier.
    pub fn weight(&self) -> (w: u32)
        ensures
            w == rarity_weight(*self),
    {
        match self {
            RarityTier::Common => 60,
            RarityTier::Uncommon => 25,
            RarityTier::Rare => 10,
            RarityTier::Epic => 4,
            RarityTier::Legendary => 1,
        }
    }
}

/// The name of a tier, as it is stored.
pub open spec fn tier_name(r: RarityTier) -> Seq<char> {
    match r {
        RarityTier::Common => "Common"@,
        RarityTier::Uncommon => "Uncommon"@,
        RarityTier::Rare => "Rare"@,
        RarityTier::Epic => "Epic"@,
        RarityTier::Legendary => "Legendary"@,
    }
}

/// The tier a stored name denotes; unknown names denote Common.
pub open spec fn tier_of_name(s: Seq<char>) -> RarityTier {
    if s == "Uncommon"@ {
        RarityTier::Uncommon
    } else if s == "Rare"@ {
        RarityTier::Rare
    } else if s == "Epic"@ {
        RarityTier::Epic
    } else if s == "Legendary"@ {
        RarityTier::Legendary
    } else {
        RarityTier::Common
    }
}

impl RarityTier {
    /// The name of this tier, as it is stored.
    pub fn name(&self) -> (s: &'static str)
        ensures
            s@ == tier_name(*self),
    {
        match self {
            RarityTier::Common => "Common",
            RarityTier::Uncommon => "Uncommon",
            RarityTier::Rare => "Rare",
            RarityTier::Epic => "Epic",
            RarityTier::Legendary => "Legendary",
        }
    }

    /// The tier a stored name denotes; unknown names give Common.
    pub fn from_name(s: &str) -> (r: Self)
        ensures
            r == tier_of_name(s@),
    {
        if str_equal(s, "Uncommon") {
            RarityTier::Uncommon
        } else if str_equal(s, "Rare") {
            RarityTier::Rare
        } else if str_equal(s, "Epic") {
            RarityTier::Epic
        } else if str_equal(s, "Legendary") {
            RarityTier::Legendary
        } else {
            RarityTier::Common
        }
    }
}

/// Reading back the stored name of a tier gives the tier.
pub proof fn lemma_tier_name_round_trip(r: RarityTier)
    ensures
        tier_of_name(tier_name(r)) == r,
{
    reveal_strlit("Common");
    reveal_strlit("Uncommon");
    reveal_strlit("Rare");
    reveal_strlit("Epic");
    reveal_strlit("Legendary");
    assert("Common"@[0] != "Uncommon"@[0]);
    assert("Common"@[0] != "Rare"@[0]);
    assert("Common"@[0] != "Epic"@[0]);
    assert("Common"@[0] != "Legendary"@[0]);
    assert("Rare"@[0] != "Uncommon"@[0]);
    assert("Epic"@[0] != "Uncommon"@[0]);
    assert("Epic"@[0] != "Rare"@[0]);
    assert("Legendary"@[0] != "Uncommon"@[0]);
    assert("Legendary"@[0] != "Rare"@[0]);
    assert("Legendary"@[0] != "Epic"@[0]);
}

/// The tier weights add up to 100 percent.
pub proof fn lemma_rarity_weights_sum_to_100()
    ensures
        rarity_weight(RarityTier::Common) + rarity_weight(RarityTier::Uncommon) + rarity_weight(
            RarityTier::Rare,
        ) + rarity_weight(RarityTier::Epic) + rarity_weight(RarityTier::Legendary) == 100,
{
}

/// A species of the table.
#[derive(Debug, Clone, Copy)]
pub struct SpeciesDef {
    pub id: &'static str,
    pub name: &'static str,
    pub rarity: RarityTier,
}

/// The species table, organized by rarity tier: six Common, four Uncommon,
/// two Rare and two Epic species. No species is Legendary.
pub open spec fn species_table_spec() -> Seq<SpeciesDef> {
    seq![
        SpeciesDef { id: "void-cat", name: "Void Cat", rarity: RarityTier::Common },
        SpeciesDef { id: "code-hound", name: "Code Hound", rarity: RarityTier::Common },
        SpeciesDef { id: "terminal-turtle", name: "Terminal Turtle", rarity: RarityTier::Common },
        SpeciesDef { id: "pixel-parrot", name: "Pixel Parrot", rarity: RarityTier::Common },
        SpeciesDef { id: "debug-dragon", name: "Debug Dragon", rarity: RarityTier::Common },
        SpeciesDef { id: "rust-fox", name: "Rust Fox", rarity: RarityTier::Common },
        SpeciesDef { id: "schema-spider", name: "Schema Spider", rarity: RarityTier::Uncommon },
        SpeciesDef { id: "cache-crow", name: "Cache Crow", rarity: RarityTier::Uncommon },
        SpeciesDef {
            id: "null-pointer-neko",
            name: "Null Pointer Neko",
            rarity: RarityTier::Uncommon,
        },
        SpeciesDef { id: "lambda-lizard", name: "Lambda Lizard", rarity: RarityTier::Uncommon },
        SpeciesDef {
            id: "recursion-raccoon",
            name: "Recursion Raccoon",
            rarity: RarityTier::Rare,
        },
        SpeciesDef {
            id: "stack-overflow-owl",
            name: "Stack Overflow Owl",
            rarity: RarityTier::Rare,
        },
        SpeciesDef {
            id: "memory-leak-kraken",
            name: "Memory Leak Kraken",
            rarity: RarityTier::Epic,
        },
        SpeciesDef {
            id: "race-condition-chimera",
            name: "Race Condition Chimera",
            rarity: RarityTier::Epic,
        },
    ]
}

/// The species table.
pub fn species_table() -> (t: Vec<SpeciesDef>)
    ensures
        t@ == species_table_spec(),
{
    let t = vec![
        SpeciesDef { id: "void-cat", name: "Void Cat", rarity: RarityTier::Common },
        SpeciesDef { id: "code-hound", name: "Code Hound", rarity: RarityTier::Common },
        SpeciesDef { id: "terminal-turtle", name: "Terminal Turtle", rarity: RarityTier::Common },
        SpeciesDef { id: "pixel-parrot", name: "Pixel Parrot", rarity: RarityTier::Common },
        SpeciesDef { id: "debug-dragon", name: "Debug Dragon", rarity: RarityTier::Common },
        SpeciesDef { id: "rust-fox", name: "Rust Fox", rarity: RarityTier::Common },
        SpeciesDef { id: "schema-spider", name: "Schema Spider", rarity: RarityTier::Uncommon },
        SpeciesDef { id: "cache-crow", name: "Cache Crow", rarity: RarityTier::Uncommon },
        SpeciesDef {
            id: "null-pointer-neko",
            name: "Null Pointer Neko",
            rarity: RarityTier::Uncommon,
        },
        SpeciesDef { id: "lambda-lizard", name: "Lambda Lizard", rarity: RarityTier::Uncommon },
        SpeciesDef {
            id: "recursion-raccoon",
            name: "Recursion Raccoon",
            rarity: RarityTier::Rare,
        },
        SpeciesDef {
            id: "stack-overflow-owl",
            name: "Stack Overflow Owl",
            rarity: RarityTier::Rare,
        },
        SpeciesDef {
            id: "memory-leak-kraken",
            name: "Memory Leak Kraken",
            rarity: RarityTier::Epic,
        },
        SpeciesDef {
            id: "race-condition-chimera",
            name: "Race Condition Chimera",
            rarity: RarityTier::Epic,
        },
    ];
    assert(t@ =~= species_table_spec());
    t
}

/// The persistent state of a pet.
#[derive(Debug, Clone)]
pub struct PetState {
    pub species_id: String,
    pub species_name: String,
    pub pet_name: Option<String>,
    pub rarity_tier: RarityTier,
    pub is_shiny: bool,
    pub level: u32,
    pub xp: u32,
    pub stats: PersonalityStats,
    pub mood: String,
    pub muted: bool,
    pub last_interaction: Option<i64>,
    pub last_sleep: Option<i64>,
    pub created_at: i64,
}

/// The big-endian `u32` formed by the four bytes of `d` from `at`.
pub open spec fn be_u32_at(d: Seq<u8>, at: int) -> int {
    d[at] * 16777216 + d[at + 1] * 65536 + d[at + 2] * 256 + d[at + 3]
}

/// Reads four bytes from `at` as a big-endian `u32` (as `u32::from_be_bytes`).
pub fn be_u32(d: &[u8], at: usize) -> (r: u32)
    requires
        at + 4 <= d@.len(),
    ensures
        r == be_u32_at(d@, at as int),
{
    (d[at] as u32) * 16777216 + (d[at + 1] as u32) * 65536 + (d[at + 2] as u32) * 256 + (d[at
        + 3] as u32)
}

/// The tier that a roll in `0..100` selects.
pub open spec fn rarity_for_roll(roll: int) -> RarityTier {
    if roll < 60 {
        RarityTier::Common
    } else if roll < 85 {
        RarityTier::Uncommon
    } else if roll < 95 {
        RarityTier::Rare
    } else if roll < 99 {
        RarityTier::Epic
    } else {
        RarityTier::Legendary
    }
}

/// Whether a species has tier `r`.
pub open spec fn has_tier(r: RarityTier) -> spec_fn(SpeciesDef) -> bool {
    |s: SpeciesDef| s.rarity == r
}

/// The species of the table with the given tier, in table order.
pub open spec fn species_of_tier(r: RarityTier) -> Seq<SpeciesDef> {
    species_table_spec().filter(has_tier(r))
}

/// The tier that the digest `d` rolls (bytes 0..4).
pub open spec fn rolled_tier(d: Seq<u8>) -> RarityTier {
    rarity_for_roll(be_u32_at(d, 0) % 100)
}

/// The species pool a digest draws from: the species of the rolled tier,
/// or the Common species when that tier has none.
pub open spec fn hatch_pool(d: Seq<u8>) -> Seq<SpeciesDef> {
    if species_of_tier(rolled_tier(d)).len() == 0 {
        species_of_tier(RarityTier::Common)
    } else {
        species_of_tier(rolled_tier(d))
    }
}

/// The species a digest selects: bytes 4..8 index the pool.
pub open spec fn hatched_species(d: Seq<u8>) -> SpeciesDef {
    hatch_pool(d)[be_u32_at(d, 4) % (hatch_pool(d).len() as int)]
}

/// Whether the digest makes the pet shiny (bytes 8..12, 1% chance).
pub open spec fn hatched_shiny(d: Seq<u8>) -> bool {
    be_u32_at(d, 8) % 100 == 0
}

/// Whether `p` is the pet hatched from digest `d` at time `created_at`.
pub open spec fn is_hatched_from(p: PetState, d: Seq<u8>, created_at: i64) -> bool {
    let s = hatched_species(d);
    &&& p.species_id@ == s.id@
    &&& p.species_name@ == s.name@
    &&& p.rarity_tier == s.rarity
    &&& p.pet_name is None
    &&& p.is_shiny == hatched_shiny(d)
    &&& p.level == 1
    &&& p.xp == 0
    &&& p.stats == PersonalityStats::from_seed_spec(d.subrange(12, 17))
    &&& p.mood@ == "neutral"@
    &&& !p.muted
    &&& p.last_interaction is None
    &&& p.last_sleep is None
    &&& p.created_at == created_at
}

/// The species of `table` with tier `r`, in order.
fn filter_tier(table: &Vec<SpeciesDef>, r: RarityTier) -> (v: Vec<SpeciesDef>)
    ensures
        v@ == table@.filter(has_tier(r)),
{
    let ghost pred = has_tier(r);
    let mut v: Vec<SpeciesDef> = Vec::new();
    let mut i: usize = 0;
    while i < table.len()
        invariant
            i <= table.len(),
            pred == has_tier(r),
            v@ == table@.take(i as int).filter(pred),
        decreases table.len() - i,
    {
        proof {
            assert(table@.take(i + 1) =~= table@.take(i as int).push(table@[i as int]));
            table@.take(i as int).lemma_filter_push(table@[i as int], pred);
        }
        let s = table[i];
        if s.rarity == r {
            v.push(s);
        }
        i = i + 1;
    }
    assert(table@.take(table.len() as int) =~= table@);
    v
}

/// The Common tier has species.
proof fn lemma_common_nonempty()
    ensures
        species_of_tier(RarityTier::Common).len() > 0,
{
    let t = species_table_spec();
    t.lemma_filter_contains(has_tier(RarityTier::Common), 0);
}

/// Every digest selects a species of the table.
pub proof fn lemma_hatched_species_in_table(d: Seq<u8>)
    ensures
        species_table_spec().contains(hatched_species(d)),
{
    lemma_common_nonempty();
    let pool = hatch_pool(d);
    let k = be_u32_at(d, 4) % (pool.len() as int);
    assert(pool.contains(pool[k]));
    if species_of_tier(rolled_tier(d)).len() == 0 {
        species_table_spec().lemma_filter_contains_rev(
            has_tier(RarityTier::Common),
            pool[k],
        );
    } else {
        species_table_spec().lemma_filter_contains_rev(
            has_tier(rolled_tier(d)),
            pool[k],
        );
    }
}

/// Hatches the pet that the digest bytes `digest` select, created at
/// `created_at`: the tier comes from bytes 0..4, the species within the
/// tier from bytes 4..8, shininess from bytes 8..12 and the stats from
/// bytes 12..17.
pub fn hatch_from_digest(digest: &[u8], created_at: i64) -> (p: PetState)
    requires
        digest@.len() >= 17,
    ensures
        is_hatched_from(p, digest@, created_at),
        p.stats.in_range(),
{
    let table = species_table();
    let rarity_roll = be_u32(digest, 0) % 100;
    let target = if rarity_roll < 60 {
        RarityTier::Common
    } else if rarity_roll < 85 {
        RarityTier::Uncommon
    } else if rarity_roll < 95 {
        RarityTier::Rare
    } else if rarity_roll < 99 {
        RarityTier::Epic
    } else {
        RarityTier::Legendary
    };
    let matching = filter_tier(&table, target);
    let pick = be_u32(digest, 4) as usize;
    let species = if matching.len() == 0 {
        let common = filter_tier(&table, RarityTier::Common);
        proof {
            lemma_common_nonempty();
        }
        common[pick % common.len()]
    } else {
        matching[pick % matching.len()]
    };
    assert(species == hatched_species(digest@));
    let shiny_roll = be_u32(digest, 8) % 100;
    let seed = vec![digest[12], digest[13], digest[14], digest[15], digest[16]];
    let stats = PersonalityStats::derive_from_seed(seed.as_slice());
    assert(seed@ =~= digest@.subrange(12, 17));
    PetState {
        species_id: species.id.to_owned(),
        species_name: species.name.to_owned(),
        pet_name: None,
        rarity_tier: species.rarity,
        is_shiny: shiny_roll == 0,
        level: 1,
        xp: 0,
        stats,
        mood: "neutral".to_owned(),
        muted: false,
        last_interaction: None,
        last_sleep: None,
        created_at,
    }
}

} // verus!
