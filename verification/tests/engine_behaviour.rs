use open_pets::species::{be_u32, hatch_from_digest};
use open_pets::text::{str_contains, str_equal};
use open_pets::xp::{can_award_xp, checked_xp_to_next_level};
use open_pets::{
    backseat_error_reaction, backseat_success_reaction, encouragement_reaction, generate_reaction,
    species_table, total_xp_for_level, xp_to_next_level, Engine, Event, EventDetails, EventType,
    Memory, MemoryCategory, MemoryStore, Mood, MoodState, PersonalityStats, PetState, RarityTier,
    ReactionMode, TaskSummary,
};

fn pet_with(stats: PersonalityStats, mood: &str) -> PetState {
    PetState {
        species_id: "code-hound".to_string(),
        species_name: "Code Hound".to_string(),
        pet_name: None,
        rarity_tier: RarityTier::Common,
        is_shiny: false,
        level: 1,
        xp: 0,
        stats,
        mood: mood.to_string(),
        muted: false,
        last_interaction: None,
        last_sleep: None,
        created_at: 0,
    }
}

fn plain_stats() -> PersonalityStats {
    PersonalityStats::new(5, 5, 5, 5, 5)
}

// ----- hatching -----

#[test]
fn test_hatch_alice_is_code_hound() {
    // SHA-256("alice") starts 2b d8 06 c9 | 7f 0e 00 af ...
    let pet = Engine::hatch("alice");
    assert_eq!(pet.species_id, "code-hound");
    assert_eq!(pet.species_name, "Code Hound");
    assert_eq!(pet.rarity_tier, RarityTier::Common);
    assert!(!pet.is_shiny);
    assert_eq!(pet.stats, PersonalityStats::new(17, 20, 15, 1, 17));
    assert_eq!(pet.level, 1);
    assert_eq!(pet.xp, 0);
    assert_eq!(pet.mood, "neutral");
}

#[test]
fn test_hatch_uncommon_seed() {
    let pet = Engine::hatch("test-seed-123");
    assert_eq!(pet.species_id, "lambda-lizard");
    assert_eq!(pet.rarity_tier, RarityTier::Uncommon);
    assert_eq!(pet.stats, PersonalityStats::new(3, 7, 7, 1, 5));
}

#[test]
fn test_hatch_empty_seed() {
    let pet = Engine::hatch("");
    assert_eq!(pet.species_id, "terminal-turtle");
    assert_eq!(pet.stats, PersonalityStats::new(6, 6, 17, 15, 18));
}

#[test]
fn test_hatch_same_seed_same_pet_law() {
    let a = Engine::hatch("open-pets");
    let b = Engine::hatch("open-pets");
    assert_eq!(a.species_id, b.species_id);
    assert_eq!(a.species_name, b.species_name);
    assert_eq!(a.rarity_tier, b.rarity_tier);
    assert_eq!(a.is_shiny, b.is_shiny);
    assert_eq!(a.stats, b.stats);
    assert_eq!(a.species_id, "pixel-parrot");
}

#[test]
fn test_hatch_from_digest_legendary_falls_back_to_common() {
    // roll 99 -> Legendary, which has no species; 7 % 6 = 1 -> code-hound;
    // shiny roll 0 -> shiny; stats are bytes % 21.
    let digest: Vec<u8> = vec![0, 0, 0, 99, 0, 0, 0, 7, 0, 0, 0, 0, 21, 22, 41, 20, 0];
    let pet = hatch_from_digest(&digest, 1234);
    assert_eq!(pet.species_id, "code-hound");
    assert_eq!(pet.rarity_tier, RarityTier::Common);
    assert!(pet.is_shiny);
    assert_eq!(pet.stats, PersonalityStats::new(0, 1, 20, 20, 0));
    assert_eq!(pet.created_at, 1234);
    assert_eq!(pet.pet_name, None);
}

#[test]
fn test_hatch_from_digest_epic() {
    // roll 97 -> Epic; 3 % 2 = 1 -> the second Epic species; 101 % 100 != 0.
    let digest: Vec<u8> = vec![0, 0, 0, 97, 0, 0, 0, 3, 0, 0, 0, 101, 1, 2, 3, 4, 5, 99];
    let pet = hatch_from_digest(&digest, 0);
    assert_eq!(pet.species_id, "race-condition-chimera");
    assert_eq!(pet.rarity_tier, RarityTier::Epic);
    assert!(!pet.is_shiny);
    assert_eq!(pet.stats, PersonalityStats::new(1, 2, 3, 4, 5));
}

#[test]
fn test_hatch_from_digest_tier_boundaries() {
    // 59 -> Common, 60 -> Uncommon, 85 -> Rare, 95 -> Epic.
    let mut d: Vec<u8> = vec![0; 17];
    d[3] = 59;
    assert_eq!(hatch_from_digest(&d, 0).rarity_tier, RarityTier::Common);
    d[3] = 60;
    assert_eq!(hatch_from_digest(&d, 0).rarity_tier, RarityTier::Uncommon);
    d[3] = 85;
    assert_eq!(hatch_from_digest(&d, 0).rarity_tier, RarityTier::Rare);
    d[3] = 95;
    assert_eq!(hatch_from_digest(&d, 0).rarity_tier, RarityTier::Epic);
    // 100 % 100 == 0 -> Common again
    d[3] = 100;
    assert_eq!(hatch_from_digest(&d, 0).rarity_tier, RarityTier::Common);
}

#[test]
fn test_be_u32_reads_big_endian() {
    let d: Vec<u8> = vec![1, 2, 3, 4, 5];
    assert_eq!(be_u32(&d, 0), 0x01020304);
    assert_eq!(be_u32(&d, 1), 0x02030405);
}

#[test]
fn test_rarity_weights_sum_to_100() {
    let total: u32 = [
        RarityTier::Common,
        RarityTier::Uncommon,
        RarityTier::Rare,
        RarityTier::Epic,
        RarityTier::Legendary,
    ]
    .iter()
    .map(|r| r.weight())
    .sum();
    assert_eq!(total, 100);
    assert_eq!(RarityTier::Common.weight(), 60);
    assert_eq!(RarityTier::Legendary.weight(), 1);
}

#[test]
fn test_species_tier_counts() {
    let table = species_table();
    let count = |r: RarityTier| table.iter().filter(|s| s.rarity == r).count();
    assert_eq!(table.len(), 14);
    assert_eq!(count(RarityTier::Common), 6);
    assert_eq!(count(RarityTier::Uncommon), 4);
    assert_eq!(count(RarityTier::Rare), 2);
    assert_eq!(count(RarityTier::Epic), 2);
    assert_eq!(count(RarityTier::Legendary), 0);
}

#[test]
fn test_stats_new_caps_at_20() {
    let s = PersonalityStats::new(0, 20, 21, 200, 255);
    assert_eq!(s.debugging, 0);
    assert_eq!(s.patience, 20);
    assert_eq!(s.chaos, 20);
    assert_eq!(s.wisdom, 20);
    assert_eq!(s.snark, 20);
}

#[test]
fn test_stats_from_seed_mod_21() {
    let s = PersonalityStats::derive_from_seed(&[20, 21, 42, 255, 7, 99]);
    assert_eq!(s, PersonalityStats::new(20, 0, 0, 3, 7));
}

// ----- experience -----

#[test]
fn test_xp_step_values() {
    assert_eq!(xp_to_next_level(0), 0);
    assert_eq!(xp_to_next_level(1), 150);
    assert_eq!(xp_to_next_level(2), 400);
    assert_eq!(xp_to_next_level(10), 6000);
}

#[test]
fn test_total_xp_small_levels() {
    assert_eq!(total_xp_for_level(0), 0);
    assert_eq!(total_xp_for_level(1), 0);
    assert_eq!(total_xp_for_level(2), 150);
    assert_eq!(total_xp_for_level(3), 550);
}

#[test]
fn test_award_split_law() {
    let mut once = pet_with(plain_stats(), "neutral");
    let e_once = Engine::award_xp(&mut once, 700, "once");
    let mut twice = pet_with(plain_stats(), "neutral");
    let mut e_twice = Engine::award_xp(&mut twice, 100, "first");
    e_twice.extend(Engine::award_xp(&mut twice, 600, "second"));
    assert_eq!(once.level, twice.level);
    assert_eq!(once.xp, twice.xp);
    assert_eq!(once.level, 3);
    // 700 + 20 (level 2) + 30 (level 3)
    assert_eq!(once.xp, 750);
    let d1: Vec<&str> = e_once.iter().map(|e| e.description.as_str()).collect();
    let d2: Vec<&str> = e_twice.iter().map(|e| e.description.as_str()).collect();
    assert_eq!(d1, d2);
}

#[test]
fn test_award_exact_threshold_levels_up() {
    let mut pet = pet_with(plain_stats(), "neutral");
    let events = Engine::award_xp(&mut pet, 150, "exact");
    assert_eq!(pet.level, 2);
    assert_eq!(pet.xp, 170);
    assert_eq!(events.len(), 1);
    let mut pet2 = pet_with(plain_stats(), "neutral");
    let events2 = Engine::award_xp(&mut pet2, 149, "short");
    assert_eq!(pet2.level, 1);
    assert!(events2.is_empty());
}

#[test]
fn test_award_progress_law() {
    let mut pet = pet_with(plain_stats(), "neutral");
    Engine::award_xp(&mut pet, 1000, "a");
    let before = pet.level;
    let events = Engine::award_xp(&mut pet, 0, "nothing");
    assert!(events.is_empty());
    assert_eq!(pet.level, before);
    assert!(total_xp_for_level(pet.level) <= pet.xp);
    assert!(pet.xp < total_xp_for_level(pet.level + 1));
}

#[test]
fn test_level_up_event_text() {
    let e = Event::level_up(1, 2);
    assert_eq!(e.event_type, EventType::LevelUp);
    assert_eq!(e.description, "Leveled up from 1 to 2! (+20 bonus XP)");
    assert_eq!(e.xp_earned, 20);
    assert_eq!(e.details, EventDetails::Levels { from: 1, to: 2 });
}

#[test]
fn test_mood_and_petted_events() {
    let e = Event::mood_changed("neutral", "happy");
    assert_eq!(e.event_type, EventType::MoodChange);
    assert_eq!(e.description, "Mood changed from neutral to happy");
    assert_eq!(e.xp_earned, 0);
    let p = Event::petted(5);
    assert_eq!(p.event_type, EventType::Petted);
    assert_eq!(p.description, "Pet interaction");
    assert_eq!(p.xp_earned, 5);
    assert_eq!(p.details, EventDetails::Source { source: "petting".to_string() });
}

// ----- mood -----

#[test]
fn test_mood_name_round_trip_law() {
    for m in [
        MoodState::Happy,
        MoodState::Content,
        MoodState::Neutral,
        MoodState::Curious,
        MoodState::Grumpy,
    ] {
        assert_eq!(MoodState::from_str(m.as_str()), m);
    }
}

#[test]
fn test_mood_from_str_ignores_case() {
    assert_eq!(MoodState::from_str("HAPPY"), MoodState::Happy);
    assert_eq!(MoodState::from_str("GrUmPy"), MoodState::Grumpy);
    assert_eq!(MoodState::from_str(""), MoodState::Neutral);
    assert_eq!(MoodState::from_lowercase("HAPPY"), MoodState::Neutral);
    assert_eq!(Mood::new("Curious"), MoodState::Curious);
}

#[test]
fn test_mood_positive_moods() {
    assert!(MoodState::Happy.is_positive());
    assert!(MoodState::Content.is_positive());
    assert!(MoodState::Curious.is_positive());
    assert!(!MoodState::Neutral.is_positive());
    assert!(!MoodState::Grumpy.is_positive());
}

#[test]
fn test_calculate_at_staleness() {
    let mut pet = pet_with(plain_stats(), "happy");
    pet.last_interaction = Some(1000);
    assert_eq!(Mood::calculate_at(&pet, 1000 + 48 * 3600), MoodState::Happy);
    assert_eq!(Mood::calculate_at(&pet, 1000 + 49 * 3600), MoodState::Neutral);
    // a clock behind the interaction counts as no time passed
    assert_eq!(Mood::calculate_at(&pet, 10), MoodState::Happy);
    pet.last_interaction = None;
    assert_eq!(Mood::calculate_at(&pet, 1000), MoodState::Neutral);
}

#[test]
fn test_calculate_at_chaotic_pet_is_content() {
    let mut pet = pet_with(PersonalityStats::new(5, 5, 16, 5, 5), "grumpy");
    pet.last_interaction = Some(500);
    assert_eq!(Mood::calculate_at(&pet, 600), MoodState::Content);
}

#[test]
fn test_apply_interaction_success_lifts_mood() {
    let mut pet = pet_with(plain_stats(), "grumpy");
    Mood::apply_interaction(&mut pet, true, 0, 77);
    assert_eq!(pet.mood, "content");
    assert_eq!(pet.last_interaction, Some(77));
    Mood::apply_interaction(&mut pet, true, 0, 78);
    assert_eq!(pet.mood, "happy");
    Mood::apply_interaction(&mut pet, true, 0, 79);
    assert_eq!(pet.mood, "happy");
}

#[test]
fn test_apply_interaction_failures() {
    let mut pet = pet_with(plain_stats(), "happy");
    Mood::apply_interaction(&mut pet, false, 0, 1);
    assert_eq!(pet.mood, "happy");
    Mood::apply_interaction(&mut pet, false, 2, 2);
    assert_eq!(pet.mood, "curious");
    Mood::apply_interaction(&mut pet, false, 3, 3);
    assert_eq!(pet.mood, "grumpy");
    assert_eq!(pet.last_interaction, Some(3));
}

#[test]
fn test_success_makes_mood_positive_law() {
    let mut pet = pet_with(plain_stats(), "grumpy");
    Mood::apply_interaction(&mut pet, true, 4, 10_000);
    assert!(Mood::calculate_at(&pet, 10_000 + 3600).is_positive());
}

// ----- reactions -----

fn task(name: &str, success: bool, errors: u32) -> TaskSummary {
    TaskSummary::new(name, success, errors)
}

#[test]
fn test_cheerleader_texts() {
    let snarky = pet_with(PersonalityStats::new(0, 0, 0, 0, 11), "neutral");
    let r = generate_reaction(&snarky, &task("ship", true, 0), &ReactionMode::Cheerleader).unwrap();
    assert_eq!(r.text, "'ship'? I mean, sure, you did it.");
    assert_eq!(r.mood_impact, 1);
    assert!(!r.is_technical);
    let kind = pet_with(PersonalityStats::new(0, 0, 0, 0, 10), "neutral");
    let r = generate_reaction(&kind, &task("ship", true, 0), &ReactionMode::Cheerleader).unwrap();
    assert_eq!(r.text, "Great job on ship! That was awesome!");
    assert_eq!(r.mood_impact, 2);
}

#[test]
fn test_backseat_error_texts() {
    let chaotic = pet_with(PersonalityStats::new(0, 0, 16, 0, 0), "neutral");
    let r = backseat_error_reaction(&task("deploy", false, 3), &chaotic);
    assert_eq!(r.text, "3 errors in 'deploy'. Chaos reigns. Good.");
    assert!(!r.is_technical);
    let debugger = pet_with(PersonalityStats::new(11, 0, 15, 0, 0), "neutral");
    let r = backseat_error_reaction(&task("deploy", false, 3), &debugger);
    assert_eq!(r.text, "'deploy' failed 3 times. Check error handling and edge cases.");
    assert!(r.is_technical);
    assert_eq!(r.mood_impact, 1);
    let r = backseat_error_reaction(&task("deploy", false, 12), &pet_with(plain_stats(), "neutral"));
    assert_eq!(r.text, "'deploy' had 12 errors. Something's off.");
    assert!(!r.is_technical);
}

#[test]
fn test_backseat_success_texts() {
    let wise = pet_with(PersonalityStats::new(0, 0, 0, 11, 0), "neutral");
    let r = backseat_success_reaction(&task("lint", true, 0), &wise);
    assert_eq!(r.text, "'lint' completed. Consider adding tests and error handling next time.");
    assert_eq!(r.mood_impact, 0);
    assert!(r.is_technical);
    let r = backseat_success_reaction(&task("lint", true, 0), &pet_with(plain_stats(), "neutral"));
    assert_eq!(r.text, "'lint' done. Looks clean!");
    assert_eq!(r.mood_impact, 1);
}

#[test]
fn test_encouragement_text() {
    let r = encouragement_reaction(&task("build", false, 1), &pet_with(plain_stats(), "neutral"));
    assert_eq!(r.text, "build didn't work out, but you'll get there! Keep going!");
    assert_eq!(r.mood_impact, 0);
}

#[test]
fn test_reaction_mode_choices() {
    let pet = pet_with(plain_stats(), "neutral");
    let fail = task("x", false, 2);
    let ok = task("x", true, 0);
    // Both: backseat on failure, cheering on success
    assert_eq!(
        generate_reaction(&pet, &fail, &ReactionMode::Both).unwrap().text,
        "'x' had 2 errors. Something's off."
    );
    assert_eq!(
        generate_reaction(&pet, &ok, &ReactionMode::Both).unwrap().text,
        "Great job on x! That was awesome!"
    );
    // Cheerleader encourages on failure; Backseat approves on success
    assert_eq!(
        generate_reaction(&pet, &fail, &ReactionMode::Cheerleader).unwrap().text,
        "x didn't work out, but you'll get there! Keep going!"
    );
    assert_eq!(
        generate_reaction(&pet, &ok, &ReactionMode::Backseat).unwrap().text,
        "'x' done. Looks clean!"
    );
    assert!(generate_reaction(&pet, &fail, &ReactionMode::Silent).is_none());
}

#[test]
fn test_reaction_names_task_law() {
    let pets = [
        pet_with(PersonalityStats::new(20, 20, 20, 20, 20), "neutral"),
        pet_with(PersonalityStats::new(0, 0, 0, 0, 0), "neutral"),
    ];
    for pet in pets.iter() {
        for mode in [ReactionMode::Backseat, ReactionMode::Cheerleader, ReactionMode::Both] {
            for success in [true, false] {
                let r = generate_reaction(pet, &task("my_task_name", success, 4), &mode).unwrap();
                assert!(r.text.contains("my_task_name"));
            }
        }
    }
}

// ----- memory -----

#[test]
fn test_memory_prune_ties_drop_earliest() {
    let mut store = MemoryStore::with_max_short_term(1);
    store.add_at("first".to_string(), 2, MemoryCategory::Task, 1);
    store.add_at("second".to_string(), 2, MemoryCategory::Task, 2);
    store.add_at("third".to_string(), 2, MemoryCategory::Task, 3);
    let (promoted, pruned) = store.consolidate();
    assert_eq!(promoted, 0);
    assert_eq!(pruned, 2);
    assert_eq!(store.len(), 1);
    assert_eq!(store.memories()[0].text, "third");
}

#[test]
fn test_memory_prune_lowest_importance_first() {
    let mut store = MemoryStore::with_max_short_term(2);
    store.add_at("a".to_string(), 3, MemoryCategory::Task, 1);
    store.add_at("b".to_string(), 1, MemoryCategory::Task, 2);
    store.add_at("c".to_string(), 3, MemoryCategory::Task, 3);
    store.add_at("d".to_string(), 1, MemoryCategory::Task, 4);
    store.add_at("e".to_string(), 8, MemoryCategory::Milestone, 5);
    let (promoted, pruned) = store.consolidate();
    assert_eq!(promoted, 1);
    assert_eq!(pruned, 2);
    let texts: Vec<&str> = store.memories().iter().map(|m| m.text.as_str()).collect();
    assert_eq!(texts, vec!["a", "c", "e"]);
    assert_eq!(store.short_term().len(), 2);
    assert_eq!(store.consolidated().len(), 1);
    assert!(store.consolidated()[0].consolidated);
}

#[test]
fn test_consolidation_laws_on_values() {
    let mut store = MemoryStore::with_max_short_term(3);
    for i in 0..10u8 {
        store.add_at(format!("m{}", i), i, MemoryCategory::Interaction, i as i64);
    }
    let before = store.len();
    let (promoted, pruned) = store.consolidate();
    // 7, 8, 9 promoted; 7 short-term remain of which 4 are pruned
    assert_eq!(promoted, 3);
    assert_eq!(pruned, 4);
    assert_eq!(store.len(), before - pruned);
    assert!(store.short_term().len() <= 3);
    for m in store.memories() {
        assert!(m.consolidated || m.importance < 7);
    }
    for m in store.consolidated() {
        assert!(m.importance >= 7);
    }
    // consolidating again changes nothing
    assert_eq!(store.consolidate(), (0, 0));
}

#[test]
fn test_consolidate_empty_store() {
    let mut store = MemoryStore::new();
    assert_eq!(store.consolidate(), (0, 0));
    assert!(store.is_empty());
    assert!(store.recent(5).is_empty());
    assert!(store.all().is_empty());
}

#[test]
fn test_memory_ids_increase_from_one() {
    let mut store = MemoryStore::new();
    let id1 = store.add_at("x".to_string(), 1, MemoryCategory::Task, 0).id;
    let id2 = store.add("y".to_string(), 1, MemoryCategory::Task).id;
    assert_eq!(id1, 1);
    assert_eq!(id2, 2);
}

#[test]
fn test_recent_ties_keep_store_order() {
    let mut store = MemoryStore::new();
    store.add_at("a".to_string(), 1, MemoryCategory::Task, 5);
    store.add_at("b".to_string(), 1, MemoryCategory::Task, 9);
    store.add_at("c".to_string(), 1, MemoryCategory::Task, 5);
    let texts: Vec<&str> = store.recent(10).iter().map(|m| m.text.as_str()).collect();
    assert_eq!(texts, vec!["b", "a", "c"]);
    assert_eq!(store.recent(0).len(), 0);
}

#[test]
fn test_all_orders_by_importance_then_recency() {
    let mut store = MemoryStore::new();
    store.add_at("low-old".to_string(), 2, MemoryCategory::Task, 1);
    store.add_at("high".to_string(), 9, MemoryCategory::Task, 2);
    store.add_at("low-new".to_string(), 2, MemoryCategory::Task, 3);
    let texts: Vec<&str> = store.all().iter().map(|m| m.text.as_str()).collect();
    assert_eq!(texts, vec!["high", "low-new", "low-old"]);
}

#[test]
fn test_search_ignores_case() {
    let mut store = MemoryStore::new();
    store.remember_task("Deploy_prod", true, 0);
    store.remember_task("build", false, 2);
    store.remember_error_pattern("deploy timeout");
    assert_eq!(store.search("DEPLOY").len(), 2);
    assert_eq!(store.search("").len(), 3);
    assert_eq!(store.search("nothing").len(), 0);
}

#[test]
fn test_remember_texts_and_importance() {
    let mut store = MemoryStore::new();
    store.remember_task("t", false, 2);
    store.remember_task("u", false, 9);
    store.remember_error_pattern("null deref");
    store.remember_milestone("Level 5!");
    let m: &Vec<Memory> = store.memories();
    assert_eq!(m[0].text, "Task 't' failed with 2 errors");
    assert_eq!(m[0].importance, 7);
    assert_eq!(m[1].importance, 10);
    assert_eq!(m[2].text, "Error pattern: null deref");
    assert_eq!(m[2].importance, 6);
    assert_eq!(m[2].category, MemoryCategory::ErrorPattern);
    assert_eq!(m[3].text, "Level 5!");
    assert_eq!(m[3].importance, 9);
    assert_eq!(m[3].category, MemoryCategory::Milestone);
}

// ----- text helpers -----

#[test]
fn test_decimal_text() {
    let e = Event::level_up(429496728, 429496729);
    assert_eq!(e.description, "Leveled up from 429496728 to 429496729! (+4294967290 bonus XP)");
    let r = backseat_error_reaction(&task("x", false, 0), &pet_with(plain_stats(), "neutral"));
    assert_eq!(r.text, "'x' had 0 errors. Something's off.");
}

#[test]
fn test_case_folding() {
    let mut store = MemoryStore::new();
    store.remember_milestone("\u{c4}rger mit D\u{c9}PLOY");
    store.remember_milestone("plain");
    assert_eq!(store.search("\u{e4}RGER").len(), 1);
    assert_eq!(store.search("d\u{e9}ploy").len(), 1);
    assert!(str_equal("abc", "abc"));
    assert!(!str_equal("abc", "abd"));
    assert!(str_contains("hello world", "o w"));
    assert!(str_contains("hello", ""));
    assert!(!str_contains("he", "hello"));
}

// ----- stored names -----

#[test]
fn test_tier_names_round_trip() {
    for r in [
        RarityTier::Common,
        RarityTier::Uncommon,
        RarityTier::Rare,
        RarityTier::Epic,
        RarityTier::Legendary,
    ] {
        assert_eq!(RarityTier::from_name(r.name()), r);
        assert_eq!(r.name(), format!("{:?}", r));
    }
    assert_eq!(RarityTier::from_name("mythic"), RarityTier::Common);
    assert_eq!(RarityTier::from_name("rare"), RarityTier::Common);
}

#[test]
fn test_category_names_round_trip() {
    for c in [
        MemoryCategory::Task,
        MemoryCategory::ErrorPattern,
        MemoryCategory::UserHabit,
        MemoryCategory::CodeObservation,
        MemoryCategory::Milestone,
        MemoryCategory::Interaction,
    ] {
        assert_eq!(MemoryCategory::from_storage_name(c.storage_name()), c);
    }
    assert_eq!(MemoryCategory::ErrorPattern.storage_name(), "error_pattern");
    assert_eq!(MemoryCategory::from_storage_name("Task"), MemoryCategory::Interaction);
}

#[test]
fn test_restore_reassigns_ids_and_caps() {
    let rows = vec![
        ("b".to_string(), 12u8, MemoryCategory::Milestone),
        ("a".to_string(), 3u8, MemoryCategory::Task),
    ];
    let store = MemoryStore::restore(&rows);
    let m = store.memories();
    assert_eq!(m.len(), 2);
    assert_eq!((m[0].id, m[0].text.as_str(), m[0].importance), (1, "b", 10));
    assert_eq!((m[1].id, m[1].text.as_str(), m[1].importance), (2, "a", 3));
    assert!(!m[0].consolidated && !m[1].consolidated);
    assert_eq!(m[0].category, MemoryCategory::Milestone);
    assert!(MemoryStore::restore(&Vec::new()).is_empty());
}

#[test]
fn test_level_up_bonus_is_earned() {
    let mut pet = pet_with(plain_stats(), "neutral");
    pet.xp = 140;
    let events = Engine::award_xp(&mut pet, 20, "task");
    assert_eq!(pet.level, 2);
    assert_eq!(pet.xp, 180);
    let earned: u32 = events.iter().map(|e| e.xp_earned).sum();
    assert_eq!(pet.xp, 140 + 20 + earned);
}

#[test]
fn test_level_up_bonus_can_climb_further() {
    // 545 XP reaches level 2 (bonus 20), and 565 then reaches level 3
    // (threshold 550), earning 30 more.
    let mut pet = pet_with(plain_stats(), "neutral");
    let events = Engine::award_xp(&mut pet, 545, "task");
    assert_eq!(pet.level, 3);
    assert_eq!(pet.xp, 595);
    assert_eq!(events.len(), 2);
}

#[test]
fn test_can_award_xp_limits() {
    let mut pet = pet_with(plain_stats(), "neutral");
    assert!(can_award_xp(&pet, 5));
    pet.xp = u32::MAX;
    assert!(!can_award_xp(&pet, 1));
    assert!(!can_award_xp(&pet, 0));
    pet.level = 634;
    pet.xp = 0;
    assert!(can_award_xp(&pet, 0));
    // the threshold of level 635 is 4277518750
    assert!(!can_award_xp(&pet, 4_277_518_750));
    pet.level = 635;
    assert!(!can_award_xp(&pet, 0));
}

#[test]
fn test_checked_xp_step() {
    assert_eq!(checked_xp_to_next_level(10), Some(6000));
    assert_eq!(checked_xp_to_next_level(9267), Some(9267 * 100 + 9267 * 9267 * 50));
    assert_eq!(checked_xp_to_next_level(9268), None);
    assert_eq!(checked_xp_to_next_level(u32::MAX), None);
}
