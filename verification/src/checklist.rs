//! The checklist of daily quests as a user edits it.

use vstd::prelude::*;

use crate::daily::{DailyQuestEntry, DailyQuestId, WorldMapRegion};

verus! {

/// All daily quests, in the order in which they are run.
pub open spec fn all_quests() -> Seq<DailyQuestId> {
    seq![
        DailyQuestId::VanishingJourney,
        DailyQuestId::ChuChuIsland,
        DailyQuestId::Lachelein,
        DailyQuestId::Arcana,
        DailyQuestId::Morass,
        DailyQuestId::Esfera,
        DailyQuestId::Moonbridge,
        DailyQuestId::LabyrinthOfSuffering,
        DailyQuestId::Limina,
        DailyQuestId::Cernium,
        DailyQuestId::HotelArcus,
        DailyQuestId::Odium,
        DailyQuestId::ShangriLa,
        DailyQuestId::Arteria,
        DailyQuestId::Carcion,
        DailyQuestId::Tallahart,
    ]
}

/// All daily quests, in the order in which they are run.
pub fn all_daily_quests() -> (r: Vec<DailyQuestId>)
    ensures
        r@ == all_quests(),
{
    vec![
        DailyQuestId::VanishingJourney,
        DailyQuestId::ChuChuIsland,
        DailyQuestId::Lachelein,
        DailyQuestId::Arcana,
        DailyQuestId::Morass,
        DailyQuestId::Esfera,
        DailyQuestId::Moonbridge,
        DailyQuestId::LabyrinthOfSuffering,
        DailyQuestId::Limina,
        DailyQuestId::Cernium,
        DailyQuestId::HotelArcus,
        DailyQuestId::Odium,
        DailyQuestId::ShangriLa,
        DailyQuestId::Arteria,
        DailyQuestId::Carcion,
        DailyQuestId::Tallahart,
    ]
}

/// The daily quests of a section of the checklist: those with hunting grounds in `region`.
pub open spec fn section(region: WorldMapRegion) -> Seq<DailyQuestId> {
    all_quests().filter(|id: DailyQuestId| id.spec_navigation().region == region)
}

/// The daily quests with hunting grounds in `region`.
pub fn daily_quests_in(region: WorldMapRegion) -> (r: Vec<DailyQuestId>)
    ensures
        r@ == section(region),
{
    let all = all_daily_quests();
    let mut quests: Vec<DailyQuestId> = Vec::new();
    let mut i: usize = 0;
    let ghost in_region = |id: DailyQuestId| id.spec_navigation().region == region;
    assert(all@.take(0).filter(in_region) == Seq::<DailyQuestId>::empty()) by {
        reveal(Seq::filter);
    }
    while i < all.len()
        invariant
            i <= all.len(),
            in_region == (|id: DailyQuestId| id.spec_navigation().region == region),
            quests@ == all@.take(i as int).filter(in_region),
        decreases all.len() - i,
    {
        assert(all@.take(i + 1).drop_last() == all@.take(i as int));
        assert(all@.take(i + 1).filter(in_region) == {
            let shorter = all@.take(i as int).filter(in_region);
            if in_region(all@[i as int]) {
                shorter.push(all@[i as int])
            } else {
                shorter
            }
        }) by {
            reveal(Seq::filter);
        }
        let id = all[i];
        if id.navigation().region == region {
            quests.push(id);
        }
        i += 1;
    }
    assert(all@.take(i as int) == all@);
    quests
}

/// The position of the first entry for a quest from `from` on.
pub open spec fn position_from(
    entries: Seq<DailyQuestEntry>,
    id: DailyQuestId,
    from: int,
) -> Option<int>
    decreases entries.len() - from,
{
    if 0 <= from < entries.len() {
        if entries[from].id == id {
            Some(from)
        } else {
            position_from(entries, id, from + 1)
        }
    } else {
        None
    }
}

/// The entry for a quest: the first one, or an unconfigured one if there is none.
pub open spec fn lookup(entries: Seq<DailyQuestEntry>, id: DailyQuestId) -> DailyQuestEntry {
    match position_from(entries, id, 0) {
        Some(i) => entries[i],
        None => DailyQuestEntry::unconfigured(id),
    }
}

/// The entries with `entry` in place of the first one for the same quest, or at the end if there
/// is none.
pub open spec fn with_entry(entries: Seq<DailyQuestEntry>, entry: DailyQuestEntry) -> Seq<
    DailyQuestEntry,
> {
    match position_from(entries, entry.id, 0) {
        Some(i) => entries.update(i, entry),
        None => entries.push(entry),
    }
}

fn find_entry(entries: &Vec<DailyQuestEntry>, id: DailyQuestId) -> (r: Option<usize>)
    ensures
        match r {
            Some(i) => i < entries.len() && position_from(entries@, id, 0) == Some(i as int),
            None => position_from(entries@, id, 0) is None,
        },
{
    let mut i: usize = 0;
    while i < entries.len()
        invariant
            i <= entries.len(),
            position_from(entries@, id, 0) == position_from(entries@, id, i as int),
        decreases entries.len() - i,
    {
        if entries[i].id == id {
            return Some(i);
        }
        i += 1;
    }
    None
}

/// The entry for a quest, or an unconfigured one if there is none.
pub fn entry_for(entries: &Vec<DailyQuestEntry>, id: DailyQuestId) -> (r: DailyQuestEntry)
    ensures
        r == lookup(entries@, id),
{
    match find_entry(entries, id) {
        Some(i) => entries[i],
        None => DailyQuestEntry::new(id),
    }
}

/// Replaces the entry for a quest, or adds it if there is none.
pub fn set_entry(entries: &mut Vec<DailyQuestEntry>, entry: DailyQuestEntry)
    ensures
        final(entries)@ == with_entry(old(entries)@, entry),
{
    match find_entry(entries, entry.id) {
        Some(i) => entries.set(i, entry),
        None => entries.push(entry),
    }
}

/// Enables or disables a quest.
pub fn set_enabled(entries: &mut Vec<DailyQuestEntry>, id: DailyQuestId, enabled: bool)
    ensures
        final(entries)@ == with_entry(
            old(entries)@,
            (DailyQuestEntry { enabled, ..lookup(old(entries)@, id) }),
        ),
{
    let mut entry = entry_for(entries, id);
    entry.enabled = enabled;
    set_entry(entries, entry);
}

/// Sets the number of mobs to kill for a quest.
pub fn set_kill_target(entries: &mut Vec<DailyQuestEntry>, id: DailyQuestId, kill_target: u32)
    ensures
        final(entries)@ == with_entry(
            old(entries)@,
            (DailyQuestEntry { kill_target, ..lookup(old(entries)@, id) }),
        ),
{
    let mut entry = entry_for(entries, id);
    entry.kill_target = kill_target;
    set_entry(entries, entry);
}

proof fn position_is_first(entries: Seq<DailyQuestEntry>, id: DailyQuestId, from: int)
    requires
        0 <= from,
    ensures
        match position_from(entries, id, from) {
            Some(i) => {
                &&& from <= i < entries.len()
                &&& entries[i].id == id
                &&& forall|j: int| from <= j < i ==> (#[trigger] entries[j]).id != id
            },
            None => forall|j: int| from <= j < entries.len() ==> (#[trigger] entries[j]).id != id,
        },
    decreases entries.len() - from,
{
    if from < entries.len() && entries[from].id != id {
        position_is_first(entries, id, from + 1);
    }
}

proof fn position_is(entries: Seq<DailyQuestEntry>, id: DailyQuestId, i: int)
    requires
        0 <= i < entries.len(),
        entries[i].id == id,
        forall|j: int| 0 <= j < i ==> (#[trigger] entries[j]).id != id,
    ensures
        position_from(entries, id, 0) == Some(i),
{
    position_is_first(entries, id, 0);
}

/// What is set for a quest is what is looked up for it.
pub proof fn lookup_gives_what_was_set(entries: Seq<DailyQuestEntry>, entry: DailyQuestEntry)
    ensures
        lookup(with_entry(entries, entry), entry.id) == entry,
{
    position_is_first(entries, entry.id, 0);
    let after = with_entry(entries, entry);
    let i = match position_from(entries, entry.id, 0) {
        Some(i) => i,
        None => entries.len() as int,
    };
    assert forall|j: int| 0 <= j < i implies (#[trigger] after[j]).id != entry.id by {
        assert(after[j] == entries[j]);
    }
    position_is(after, entry.id, i);
}

/// Setting the entry for one quest leaves the others alone.
pub proof fn other_quests_are_left_alone(
    entries: Seq<DailyQuestEntry>,
    entry: DailyQuestEntry,
    other: DailyQuestId,
)
    requires
        other != entry.id,
    ensures
        lookup(with_entry(entries, entry), other) == lookup(entries, other),
{
    position_is_first(entries, entry.id, 0);
    position_is_first(entries, other, 0);
    let after = with_entry(entries, entry);
    position_is_first(after, other, 0);
    assert forall|j: int| 0 <= j < entries.len() implies ((#[trigger] after[j]).id == other) == (
    entries[j].id == other) && (entries[j].id == other ==> after[j] == entries[j]) by {}
    match position_from(entries, other, 0) {
        Some(i) => {
            assert forall|j: int| 0 <= j < i implies (#[trigger] after[j]).id != other by {
                assert(entries[j].id != other);
            }
            position_is(after, other, i);
        },
        None => {
            assert forall|j: int| 0 <= j < after.len() implies (#[trigger] after[j]).id != other by {
                if j < entries.len() {
                    assert(entries[j].id != other);
                }
            }
        },
    }
}

/// No quest gets a second entry: as many entries as there were, plus one if there was none.
pub proof fn entries_stay_unique(entries: Seq<DailyQuestEntry>, entry: DailyQuestEntry)
    requires
        forall|i: int, j: int|
            0 <= i < j < entries.len() ==> (#[trigger] entries[i]).id != (#[trigger] entries[j]).id,
    ensures
        ({
            let after = with_entry(entries, entry);
            forall|i: int, j: int|
                0 <= i < j < after.len() ==> (#[trigger] after[i]).id != (#[trigger] after[j]).id
        }),
{
    position_is_first(entries, entry.id, 0);
    let after = with_entry(entries, entry);
    assert forall|i: int, j: int| 0 <= i < j < after.len() implies (#[trigger] after[i]).id != (
    #[trigger] after[j]).id by {
        if j < entries.len() {
            assert(entries[i].id != entries[j].id);
            assert(after[i].id == entries[i].id && after[j].id == entries[j].id);
        } else {
            assert(after[i] == entries[i]);
        }
    }
}

/// Every quest is in the list of all quests, and none is in it twice.
pub proof fn all_quests_are_listed_once(id: DailyQuestId)
    ensures
        all_quests().contains(id),
        all_quests().no_duplicates(),
{
    let all = all_quests();
    let i: int = match id {
        DailyQuestId::VanishingJourney => 0,
        DailyQuestId::ChuChuIsland => 1,
        DailyQuestId::Lachelein => 2,
        DailyQuestId::Arcana => 3,
        DailyQuestId::Morass => 4,
        DailyQuestId::Esfera => 5,
        DailyQuestId::Moonbridge => 6,
        DailyQuestId::LabyrinthOfSuffering => 7,
        DailyQuestId::Limina => 8,
        DailyQuestId::Cernium => 9,
        DailyQuestId::HotelArcus => 10,
        DailyQuestId::Odium => 11,
        DailyQuestId::ShangriLa => 12,
        DailyQuestId::Arteria => 13,
        DailyQuestId::Carcion => 14,
        DailyQuestId::Tallahart => 15,
    };
    assert(all[i] == id);
}

/// A section holds exactly the quests of its region.
pub proof fn section_holds_its_region(id: DailyQuestId, region: WorldMapRegion)
    ensures
        section(region).contains(id) == (id.spec_navigation().region == region),
{
    all_quests_are_listed_once(id);
    let all = all_quests();
    let in_region = |id: DailyQuestId| id.spec_navigation().region == region;
    if in_region(id) {
        all.lemma_filter_contains(in_region, all.index_of(id));
    }
    if section(region).contains(id) {
        all.lemma_filter_pred(in_region, section(region).index_of(id));
    }
}

/// Every quest is in exactly one of the two sections of the checklist.
pub proof fn sections_cover_all_quests(id: DailyQuestId)
    ensures
        section(WorldMapRegion::ArcaneRiver).contains(id) != section(
            WorldMapRegion::Grandis,
        ).contains(id),
{
    section_holds_its_region(id, WorldMapRegion::ArcaneRiver);
    section_holds_its_region(id, WorldMapRegion::Grandis);
}

} // verus!
