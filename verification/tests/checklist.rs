use std::time::{SystemTime, UNIX_EPOCH};

use backend::checklist::{
    all_daily_quests, daily_quests_in, entry_for, set_enabled, set_entry, set_kill_target,
};
use backend::daily::{DailyQuestEntry, DailyQuestId, WorldMapRegion};
use backend::models::{Bound, Platform};

#[test]
fn an_entry_starts_out_disabled() {
    let entry = DailyQuestEntry::new(DailyQuestId::Odium);
    assert_eq!(entry.id, DailyQuestId::Odium);
    assert_eq!(entry.kill_target, 100);
    assert!(!entry.enabled);
    assert_eq!(entry.last_completed_day, None);
    assert!(!entry.is_completed_today());
}

#[test]
fn completion_is_tracked_by_day() {
    let seconds = || {
        SystemTime::now()
            .duration_since(UNIX_EPOCH)
            .unwrap()
            .as_secs()
    };
    let before = seconds() / 86400;
    let today = DailyQuestEntry::today();
    assert!(before <= today && today <= seconds() / 86400);

    let mut entry = DailyQuestEntry::new(DailyQuestId::Odium);
    entry.last_completed_day = Some(today - 1);
    assert!(!entry.is_completed_today());
    entry.last_completed_day = Some(today);
    assert!(entry.is_completed_on(today));
    assert!(entry.is_completed_today() || DailyQuestEntry::today() != today);
    assert_eq!(DailyQuestEntry::day_of(86399), 0);
    assert_eq!(DailyQuestEntry::day_of(86400), 1);
}

#[test]
fn the_catalog_is_fixed() {
    let all = all_daily_quests();
    assert_eq!(all.len(), 16);
    let mut sorted = all.clone();
    sorted.sort();
    assert_eq!(sorted, all);

    let cernium = DailyQuestId::Cernium.navigation();
    assert_eq!(cernium.region, WorldMapRegion::Grandis);
    assert_eq!(cernium.dropdown_path, vec!["Western Grandis", "Cernium"]);
    assert_eq!(cernium.location_label, "Cernium : Royal Library Section 1");
    assert_eq!(cernium.location_point, (399, 151));
    assert_eq!(cernium.sub_location_label, None);
    assert_eq!(
        DailyQuestId::Limina.bound(),
        Bound {
            x: 34,
            y: 44,
            width: 100,
            height: 38
        }
    );
    assert_eq!(
        DailyQuestId::Cernium.platforms()[0],
        Platform {
            x_start: 14,
            x_end: 153,
            y: 11
        }
    );
    assert_eq!(DailyQuestId::Morass.platforms().len(), 14);
    assert_eq!(DailyQuestId::ShangriLa.label(), "Shangri-La");
    assert_eq!(WorldMapRegion::ArcaneRiver.label(), "Arcane River");
    for id in all {
        assert!(!id.platforms().is_empty());
        assert!(id.bound().width > 0 && id.bound().height > 0);
    }
}

#[test]
fn the_sections_partition_the_quests() {
    let arcane_river = daily_quests_in(WorldMapRegion::ArcaneRiver);
    let grandis = daily_quests_in(WorldMapRegion::Grandis);
    assert_eq!(arcane_river.len(), 9);
    assert_eq!(grandis.len(), 7);
    assert_eq!([arcane_river, grandis].concat(), all_daily_quests());
    assert!(daily_quests_in(WorldMapRegion::Hielo).is_empty());
}

#[test]
fn entries_are_looked_up_and_set() {
    let mut entries = vec![];
    let id = DailyQuestId::Arcana;
    assert_eq!(entry_for(&entries, id), DailyQuestEntry::new(id));

    set_enabled(&mut entries, id, true);
    set_kill_target(&mut entries, DailyQuestId::Limina, 250);
    set_kill_target(&mut entries, id, 300);
    assert_eq!(entries.len(), 2);
    let entry = entry_for(&entries, id);
    assert!(entry.enabled);
    assert_eq!(entry.kill_target, 300);
    let other = entry_for(&entries, DailyQuestId::Limina);
    assert!(!other.enabled);
    assert_eq!(other.kill_target, 250);

    let replaced = DailyQuestEntry {
        last_completed_day: Some(3),
        ..DailyQuestEntry::new(id)
    };
    set_entry(&mut entries, replaced);
    assert_eq!(entries.len(), 2);
    assert_eq!(entry_for(&entries, id), replaced);
}
