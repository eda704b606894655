use guild_core::cache::GuildCacheMap;
use guild_core::config::{phrase_occurs_in, GuildCache, Trigger};

/// A stand-in for the relational store: per-guild rows held in memory.
struct FakeStore {
    rows: Vec<(i64, String, Vec<String>, Vec<(String, String)>)>,
}

impl FakeStore {
    fn new() -> Self {
        FakeStore { rows: Vec::new() }
    }

    fn write(&mut self, guild_id: i64, prefix: &str, disabled: &[&str], triggers: &[(&str, &str)]) {
        self.rows.retain(|r| r.0 != guild_id);
        self.rows.push((
            guild_id,
            prefix.to_string(),
            disabled.iter().map(|s| s.to_string()).collect(),
            triggers.iter().map(|(p, r)| (p.to_string(), r.to_string())).collect(),
        ));
    }

    fn read(&self, guild_id: i64) -> GuildCache {
        let row = self.rows.iter().find(|r| r.0 == guild_id).expect("row must exist");
        GuildCache::new(
            guild_id,
            row.1.clone(),
            row.2.clone(),
            row.3
                .iter()
                .map(|(p, r)| Trigger { phrase: p.clone(), reply: r.clone() })
                .collect(),
        )
    }
}

#[test]
fn refresh_makes_get_observe_the_latest_committed_write() {
    let mut store = FakeStore::new();
    let mut cache = GuildCacheMap::new();

    store.write(5, "!", &[], &[]);
    cache.update(store.read(5));
    assert_eq!(cache.get(5).unwrap().prefix, "!");

    // A configuration command commits a new prefix, then refreshes.
    store.write(5, "?", &[], &[]);
    cache.update(store.read(5));

    // No stale read after the refresh returns.
    assert_eq!(cache.get(5).unwrap().prefix, "?");
}

#[test]
fn get_misses_until_a_snapshot_is_inserted() {
    let mut cache = GuildCacheMap::new();
    assert!(cache.get(1).is_none());
    cache.insert(GuildCache::new(1, "!".to_string(), Vec::new(), Vec::new()));
    assert!(cache.get(1).is_some());
    assert!(cache.get(2).is_none());
}

#[test]
fn invalidate_drops_only_that_guild() {
    let mut cache = GuildCacheMap::new();
    cache.insert(GuildCache::new(1, "!".to_string(), Vec::new(), Vec::new()));
    cache.insert(GuildCache::new(2, "?".to_string(), Vec::new(), Vec::new()));
    assert!(cache.invalidate(1));
    assert!(!cache.invalidate(1));
    assert!(cache.get(1).is_none());
    assert_eq!(cache.get(2).unwrap().prefix, "?");
}

#[test]
fn get_or_default_fails_open() {
    let mut cache = GuildCacheMap::new();
    cache.insert(GuildCache::new(
        1,
        "$".to_string(),
        vec!["ping".to_string()],
        Vec::new(),
    ));
    let hit = cache.get_or_default(1, "!");
    assert_eq!(hit.prefix, "$");
    assert!(hit.is_command_disabled("ping"));
    // On a miss the caller gets the process-wide defaults: default prefix,
    // no command disabled, no triggers.
    let miss = cache.get_or_default(99, "!");
    assert_eq!(miss.prefix, "!");
    assert!(!miss.is_command_disabled("ping"));
    assert!(miss.triggers.is_empty());
}

#[test]
fn disabled_commands_are_matched_exactly() {
    let cfg = GuildCache::new(
        1,
        "!".to_string(),
        vec!["ping".to_string(), "play".to_string()],
        Vec::new(),
    );
    assert!(cfg.is_command_disabled("ping"));
    assert!(cfg.is_command_disabled("play"));
    assert!(!cfg.is_command_disabled("pin"));
    assert!(!cfg.is_command_disabled("playing"));
    assert!(!cfg.is_command_disabled(""));
}

#[test]
fn trigger_reply_finds_the_exact_phrase() {
    let cfg = GuildCache::new(
        1,
        "!".to_string(),
        Vec::new(),
        vec![
            Trigger { phrase: "hello".to_string(), reply: "world".to_string() },
            Trigger { phrase: "bye".to_string(), reply: "see you".to_string() },
        ],
    );
    assert_eq!(cfg.trigger_reply("hello").unwrap(), "world");
    assert_eq!(cfg.trigger_reply("bye").unwrap(), "see you");
    assert!(cfg.trigger_reply("hell").is_none());
}

#[test]
fn phrase_occurs_only_as_a_whole_word() {
    assert!(phrase_occurs_in("hello there", "hello"));
    assert!(phrase_occurs_in("well hello there", "hello"));
    assert!(phrase_occurs_in("say hello", "hello"));
    assert!(phrase_occurs_in("hello", "hello"));
    assert!(!phrase_occurs_in("hellothere", "hello"));
    assert!(!phrase_occurs_in("ahello there", "hello"));
    assert!(!phrase_occurs_in("hi there", "hello"));
    assert!(phrase_occurs_in("one two three", "two three"));
    assert!(!phrase_occurs_in("one twothree", "two three"));
}

#[test]
fn matching_replies_come_in_trigger_order() {
    let cfg = GuildCache::new(
        1,
        "!".to_string(),
        Vec::new(),
        vec![
            Trigger { phrase: "good".to_string(), reply: "first".to_string() },
            Trigger { phrase: "morning".to_string(), reply: "second".to_string() },
            Trigger { phrase: "night".to_string(), reply: "third".to_string() },
        ],
    );
    let replies = cfg.matching_replies("good morning everyone");
    assert_eq!(replies, vec!["first", "second"]);
    let none = cfg.matching_replies("goodmorning");
    assert!(none.is_empty());
}
