use open_pets::Engine;
use rusqlite::{Connection, ToSql};

#[test]
fn test_db_create_and_migrate() {
    // Use in-memory database for testing
    let conn = Connection::open_in_memory().unwrap();
    conn.execute_batch(
        "CREATE TABLE IF NOT EXISTS pet_state (id INTEGER PRIMARY KEY);
         CREATE TABLE IF NOT EXISTS pet_memory (id INTEGER PRIMARY KEY AUTOINCREMENT, text TEXT);
         CREATE TABLE IF NOT EXISTS pet_config (key TEXT PRIMARY KEY, value TEXT);",
    )
    .unwrap();
}

#[test]
fn test_save_and_load_pet() {
    let pet = Engine::hatch("test-db-persistence");
    let conn = Connection::open_in_memory().unwrap();

    // Create schema
    conn.execute_batch(
        "CREATE TABLE IF NOT EXISTS pet_state (
            id INTEGER PRIMARY KEY CHECK (id = 1),
            species_id TEXT, species_name TEXT, pet_name TEXT,
            rarity_tier TEXT, is_shiny INTEGER, level INTEGER, xp INTEGER,
            stat_debugging INTEGER, stat_patience INTEGER, stat_chaos INTEGER,
            stat_wisdom INTEGER, stat_snark INTEGER, mood TEXT, muted INTEGER,
            last_interaction INTEGER, last_sleep INTEGER, created_at INTEGER
        )",
    )
    .unwrap();

    // Insert
    let rarity = format!("{:?}", pet.rarity_tier);
    let is_shiny = pet.is_shiny as i32;
    let muted = pet.muted as i32;
    let values: [&dyn ToSql; 17] = [
        &pet.species_id,
        &pet.species_name,
        &pet.pet_name,
        &rarity,
        &is_shiny,
        &pet.level,
        &pet.xp,
        &pet.stats.debugging,
        &pet.stats.patience,
        &pet.stats.chaos,
        &pet.stats.wisdom,
        &pet.stats.snark,
        &pet.mood,
        &muted,
        &pet.last_interaction,
        &pet.last_sleep,
        &pet.created_at,
    ];
    conn.execute(
        "INSERT INTO pet_state (id, species_id, species_name, pet_name, rarity_tier,
         is_shiny, level, xp, stat_debugging, stat_patience, stat_chaos,
         stat_wisdom, stat_snark, mood, muted, last_interaction, last_sleep, created_at)
         VALUES (1, ?1, ?2, ?3, ?4, ?5, ?6, ?7, ?8, ?9, ?10, ?11, ?12, ?13, ?14, ?15, ?16, ?17)",
        &values[..],
    )
    .unwrap();

    // Read back
    let loaded_id: String = conn
        .query_row("SELECT species_id FROM pet_state WHERE id = 1", [], |row| row.get(0))
        .unwrap();
    assert_eq!(loaded_id, pet.species_id);
}

#[test]
fn test_config_persistence() {
    let conn = Connection::open_in_memory().unwrap();
    conn.execute_batch("CREATE TABLE IF NOT EXISTS pet_config (key TEXT PRIMARY KEY, value TEXT)")
        .unwrap();

    conn.execute(
        "INSERT OR REPLACE INTO pet_config (key, value) VALUES ('window_x', '100')",
        [],
    )
    .unwrap();

    let val: String = conn
        .query_row("SELECT value FROM pet_config WHERE key = 'window_x'", [], |row| row.get(0))
        .unwrap();
    assert_eq!(val, "100");
}

#[test]
fn test_stored_tier_name_matches_debug_name() {
    let pet = Engine::hatch("test-db-persistence");
    assert_eq!(pet.rarity_tier.name(), format!("{:?}", pet.rarity_tier));
}
