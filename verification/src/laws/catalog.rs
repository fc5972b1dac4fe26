//! What is known of the daily quests, how they are listed, and how often detections run.

use vstd::prelude::*;

use std::time::SystemTime;

use crate::checklist::{
    all_quests, lookup, position_from, section, section_holds_its_region, with_entry,
};
use crate::clock::{seconds_at, unix_time, whole_seconds};
use crate::daily::{DailyQuestEntry, DailyQuestId, WorldMapRegion};
use crate::ecs::{DetectionRequest, DetectionTask, Detections};
use crate::models::Platform;
use crate::player::actions::Booster;
use crate::rotator::daily_quest::last_selection;

verus! {

/// The place of a quest in the order in which quests are run.
pub open spec fn turn(id: DailyQuestId) -> int {
    match id {
        DailyQuestId::VanishingJourney => 0,
        DailyQuestId::ChuChuIsland => 1,
        DailyQuestId::Lachelein => 2,
        DailyQuestId::Arcana => 3,
        DailyQuestId::Morass => 4,
        DailyQuestId::Esfera => 5,
        DailyQuestId::Moonbridge => 6,
        DailyQuestId::LabyrinthOfSuffering => 7,
        DailyQuestId::Limina => 8,
        DailyQuestId::Cernium => 9,
        DailyQuestId::HotelArcus => 10,
        DailyQuestId::Odium => 11,
        DailyQuestId::ShangriLa => 12,
        DailyQuestId::Arteria => 13,
        DailyQuestId::Carcion => 14,
        DailyQuestId::Tallahart => 15,
    }
}

/// A quest that was never configured is disabled, takes 100 mobs and was never completed.
pub proof fn unconfigured_quests_are_disabled(id: DailyQuestId)
    ensures
        ({
            let entry = DailyQuestEntry::unconfigured(id);
            &&& entry.id == id
            &&& entry.kill_target == 100
            &&& !entry.enabled
            &&& entry.last_completed_day is None
        }),
{
}

/// Today is the number of whole days since the Unix epoch, by the system clock, or zero before it.
pub proof fn days_are_counted_from_the_epoch(day: u64, time: SystemTime)
    ensures
        seconds_at(time) == match unix_time(time) {
            Some(duration) => whole_seconds(duration),
            None => 0,
        },
        DailyQuestEntry::may_be_today(day) <==> exists|now: SystemTime|
            day * 86400 <= #[trigger] seconds_at(now) < (day + 1) * 86400,
{
    if DailyQuestEntry::may_be_today(day) {
        let now = choose|now: SystemTime| day == #[trigger] seconds_at(now) / 86400;
        assert(day * 86400 <= seconds_at(now) < (day + 1) * 86400);
    }
    if exists|now: SystemTime| day * 86400 <= #[trigger] seconds_at(now) < (day + 1) * 86400 {
        let now = choose|now: SystemTime|
            day * 86400 <= #[trigger] seconds_at(now) < (day + 1) * 86400;
        assert(day == seconds_at(now) / 86400);
    }
}

/// The quests from the first to Limina are on the Arcane River, the last three of these in
/// Tenebris. The others are in Grandis, all of them in its west.
pub proof fn quests_are_in_their_regions(id: DailyQuestId)
    ensures
        ({
            let route = id.spec_navigation();
            &&& route.region == if turn(id) < 9 {
                WorldMapRegion::ArcaneRiver
            } else {
                WorldMapRegion::Grandis
            }
            &&& turn(id) < 6 ==> route.dropdown_path.len() == 1
            &&& turn(id) >= 6 ==> route.dropdown_path.len() == 2
            &&& 6 <= turn(id) < 9 ==> route.dropdown_path[0] == "Tenebris"@
            &&& turn(id) >= 9 ==> route.dropdown_path[0] == "Western Grandis"@
            &&& route.sub_location_label is None
        }),
{
}

/// The last selection on the way to a quest begins with the quest's name, and is that name from the
/// seventh quest on.
pub proof fn last_selections_begin_with_the_name(id: DailyQuestId)
    ensures
        id.name().len() > 0,
        id.name().len() <= last_selection(id).len(),
        last_selection(id).take(id.name().len() as int) == id.name(),
        turn(id) >= 6 ==> last_selection(id) == id.name(),
{
    reveal_strlit("Vanishing Journey");
    reveal_strlit("Chu Chu Island");
    reveal_strlit("Lachelein");
    reveal_strlit("Arcana");
    reveal_strlit("Morass");
    reveal_strlit("Esfera");
    reveal_strlit("Moonbridge");
    reveal_strlit("Labyrinth of Suffering");
    reveal_strlit("Limina");
    reveal_strlit("Cernium");
    reveal_strlit("Hotel Arcus");
    reveal_strlit("Odium");
    reveal_strlit("Shangri-La");
    reveal_strlit("Arteria");
    reveal_strlit("Carcion");
    reveal_strlit("Tallahart");
    reveal_strlit("Lachelein, the Dreaming City");
    reveal_strlit("Arcana, The Mysterious Forest");
    reveal_strlit("Morass, Swamp of Memory");
    reveal_strlit("Esfera, The Origin Sea");
    assert(last_selection(id).take(id.name().len() as int) =~= id.name());
}

/// The names of quests and regions, by their length and how they begin.
pub proof fn names_are_told_apart(one: DailyQuestId, other: DailyQuestId)
    ensures
        one != other ==> one.name() != other.name(),
        WorldMapRegion::MapleWorld.name() == "Maple World"@,
        WorldMapRegion::Grandis.name() == "Grandis"@,
        WorldMapRegion::ArcaneRiver.name() == "Arcane River"@,
        WorldMapRegion::Hielo.name() == "Hielo"@,
{
    if one != other {
        name_begins_so(one);
        name_begins_so(other);
    }
}

/// The length, and the first and second character, of a quest's name.
pub open spec fn beginning(id: DailyQuestId) -> (int, char, char) {
    match id {
        DailyQuestId::VanishingJourney => (17, 'V', 'a'),
        DailyQuestId::ChuChuIsland => (14, 'C', 'h'),
        DailyQuestId::Lachelein => (9, 'L', 'a'),
        DailyQuestId::Arcana => (6, 'A', 'r'),
        DailyQuestId::Morass => (6, 'M', 'o'),
        DailyQuestId::Esfera => (6, 'E', 's'),
        DailyQuestId::Moonbridge => (10, 'M', 'o'),
        DailyQuestId::LabyrinthOfSuffering => (22, 'L', 'a'),
        DailyQuestId::Limina => (6, 'L', 'i'),
        DailyQuestId::Cernium => (7, 'C', 'e'),
        DailyQuestId::HotelArcus => (11, 'H', 'o'),
        DailyQuestId::Odium => (5, 'O', 'd'),
        DailyQuestId::ShangriLa => (10, 'S', 'h'),
        DailyQuestId::Arteria => (7, 'A', 'r'),
        DailyQuestId::Carcion => (7, 'C', 'a'),
        DailyQuestId::Tallahart => (9, 'T', 'a'),
    }
}

proof fn name_begins_so(id: DailyQuestId)
    ensures
        (id.name().len() as int, id.name()[0], id.name()[1]) == beginning(id),
{
    reveal_strlit("Vanishing Journey");
    reveal_strlit("Chu Chu Island");
    reveal_strlit("Lachelein");
    reveal_strlit("Arcana");
    reveal_strlit("Morass");
    reveal_strlit("Esfera");
    reveal_strlit("Moonbridge");
    reveal_strlit("Labyrinth of Suffering");
    reveal_strlit("Limina");
    reveal_strlit("Cernium");
    reveal_strlit("Hotel Arcus");
    reveal_strlit("Odium");
    reveal_strlit("Shangri-La");
    reveal_strlit("Arteria");
    reveal_strlit("Carcion");
    reveal_strlit("Tallahart");
}

/// Where a quest's location is on the world map: to the right of and below the world map title, by
/// this much.
pub open spec fn node(id: DailyQuestId) -> (int, int) {
    match id {
        DailyQuestId::VanishingJourney => (525, 109),
        DailyQuestId::ChuChuIsland => (423, 433),
        DailyQuestId::Lachelein => (545, 420),
        DailyQuestId::Arcana => (468, 422),
        DailyQuestId::Morass => (416, 420),
        DailyQuestId::Esfera => (490, 470),
        DailyQuestId::Moonbridge => (604, 455),
        DailyQuestId::LabyrinthOfSuffering => (262, 453),
        DailyQuestId::Limina => (593, 381),
        DailyQuestId::Cernium => (399, 151),
        DailyQuestId::HotelArcus => (501, 320),
        DailyQuestId::Odium => (426, 288),
        DailyQuestId::ShangriLa => (226, 475),
        DailyQuestId::Arteria => (271, 473),
        DailyQuestId::Carcion => (198, 176),
        DailyQuestId::Tallahart => (192, 468),
    }
}

/// Locations are clicked where they are, which is always within the shown part of the world map.
pub proof fn locations_are_on_the_world_map(id: DailyQuestId)
    ensures
        id.spec_navigation().location_point.0 == node(id).0,
        id.spec_navigation().location_point.1 == node(id).1,
        6 <= node(id).0 < 6 + 630,
        73 <= node(id).1 < 73 + 465,
{
}

/// The left, top, right and bottom edge of the area to hunt in.
pub open spec fn edges(id: DailyQuestId) -> (int, int, int, int) {
    match id {
        DailyQuestId::VanishingJourney => (18, 11, 147, 52),
        DailyQuestId::ChuChuIsland => (25, 7, 135, 41),
        DailyQuestId::Lachelein => (25, 10, 145, 40),
        DailyQuestId::Arcana => (26, 8, 141, 53),
        DailyQuestId::Morass => (3, 15, 206, 65),
        DailyQuestId::Esfera => (13, 20, 155, 70),
        DailyQuestId::Moonbridge => (15, 18, 160, 66),
        DailyQuestId::LabyrinthOfSuffering => (40, 10, 209, 71),
        DailyQuestId::Limina => (34, 44, 134, 82),
        DailyQuestId::Cernium => (12, 17, 153, 61),
        DailyQuestId::HotelArcus => (26, 20, 171, 58),
        DailyQuestId::Odium => (7, 18, 164, 58),
        DailyQuestId::ShangriLa => (4, 11, 178, 60),
        DailyQuestId::Arteria => (7, 31, 160, 75),
        DailyQuestId::Carcion => (7, 15, 174, 60),
        DailyQuestId::Tallahart => (10, 23, 176, 68),
    }
}

/// The area to hunt in lies between its edges.
pub proof fn areas_lie_between_their_edges(id: DailyQuestId)
    ensures
        ({
            let bound = id.spec_bound();
            let (left, top, right, bottom) = edges(id);
            &&& bound.x == left
            &&& bound.y == top
            &&& bound.x + bound.width == right
            &&& bound.y + bound.height == bottom
        }),
{
}

/// How long the first `count` platforms are in total, and how high.
pub open spec fn extent(platforms: Seq<Platform>, count: nat) -> (int, int)
    decreases count,
{
    if count == 0 {
        (0, 0)
    } else {
        let (length, height) = extent(platforms, (count - 1) as nat);
        let platform = platforms[count - 1];
        (length + (platform.x_end - platform.x_start), height + platform.y)
    }
}

/// What is known of a map: how many platforms there are, how long and how high they are in total,
/// and how far they reach to the left, to the right, down and up.
pub struct Shape {
    pub count: int,
    pub length: int,
    pub height: int,
    pub left: int,
    pub right: int,
    pub lowest: int,
    pub highest: int,
}

/// The shape of a quest's map.
pub open spec fn shape(id: DailyQuestId) -> Shape {
    let shape = |count: int, length: int, height: int, left: int, right: int, lowest: int,
        highest: int| Shape { count, length, height, left, right, lowest, highest };
    match id {
        DailyQuestId::VanishingJourney => shape(5, 305, 143, 15, 149, 8, 45),
        DailyQuestId::ChuChuIsland => shape(5, 272, 96, 19, 147, 5, 29),
        DailyQuestId::Lachelein => shape(5, 254, 182, 20, 146, 23, 47),
        DailyQuestId::Arcana => shape(6, 241, 183, 24, 144, 18, 48),
        DailyQuestId::Morass => shape(14, 500, 431, 3, 205, 10, 50),
        DailyQuestId::Esfera => shape(8, 393, 279, 9, 157, 12, 54),
        DailyQuestId::Moonbridge => shape(9, 535, 311, 1, 166, 11, 53),
        DailyQuestId::LabyrinthOfSuffering => shape(10, 511, 362, 39, 193, 11, 60),
        DailyQuestId::Limina => shape(6, 260, 213, 29, 138, 11, 55),
        DailyQuestId::Cernium => shape(8, 367, 270, 14, 154, 11, 47),
        DailyQuestId::HotelArcus => shape(14, 420, 458, 22, 175, 11, 48),
        DailyQuestId::Odium => shape(8, 359, 210, 1, 172, 9, 37),
        DailyQuestId::ShangriLa => shape(12, 493, 398, 1, 186, 10, 49),
        DailyQuestId::Arteria => shape(10, 380, 324, 2, 165, 10, 50),
        DailyQuestId::Carcion => shape(11, 525, 354, 1, 177, 9, 48),
        DailyQuestId::Tallahart => shape(9, 467, 240, 1, 185, 7, 46),
    }
}

/// Whether platforms have the given shape, and each has a length.
pub open spec fn has_shape(platforms: Seq<Platform>, shape: Shape) -> bool {
    &&& platforms.len() == shape.count
    &&& extent(platforms, platforms.len()) == (shape.length, shape.height)
    &&& forall|i: int|
        0 <= i < platforms.len() ==> {
            &&& shape.left <= (#[trigger] platforms[i]).x_start < platforms[i].x_end <= shape.right
            &&& shape.lowest <= platforms[i].y <= shape.highest
        }
    &&& exists|i: int|
        0 <= i < platforms.len() && (#[trigger] platforms[i]).x_start == shape.left
    &&& exists|i: int|
        0 <= i < platforms.len() && (#[trigger] platforms[i]).x_end == shape.right
    &&& exists|i: int| 0 <= i < platforms.len() && (#[trigger] platforms[i]).y == shape.lowest
    &&& exists|i: int| 0 <= i < platforms.len() && (#[trigger] platforms[i]).y == shape.highest
}

/// The map of each quest has its shape.
pub proof fn maps_have_their_shape(id: DailyQuestId)
    ensures
        has_shape(id.spec_platforms(), shape(id)),
{
    reveal_with_fuel(extent, 15);
    let platforms = id.spec_platforms();
    let (left, right, lowest, highest) = match id {
        DailyQuestId::VanishingJourney => (0int, 2int, 4int, 1int),
        DailyQuestId::ChuChuIsland => (4int, 4int, 4int, 0int),
        DailyQuestId::Lachelein => (4int, 3int, 4int, 3int),
        DailyQuestId::Arcana => (2int, 1int, 3int, 0int),
        DailyQuestId::Morass => (13int, 13int, 13int, 0int),
        DailyQuestId::Esfera => (7int, 7int, 7int, 1int),
        DailyQuestId::Moonbridge => (8int, 8int, 8int, 1int),
        DailyQuestId::LabyrinthOfSuffering => (0int, 8int, 9int, 0int),
        DailyQuestId::Limina => (0int, 3int, 3int, 0int),
        DailyQuestId::Cernium => (0int, 4int, 0int, 6int),
        DailyQuestId::HotelArcus => (13int, 13int, 13int, 3int),
        DailyQuestId::Odium => (0int, 0int, 0int, 5int),
        DailyQuestId::ShangriLa => (11int, 11int, 11int, 1int),
        DailyQuestId::Arteria => (0int, 0int, 0int, 9int),
        DailyQuestId::Carcion => (0int, 0int, 0int, 8int),
        DailyQuestId::Tallahart => (8int, 8int, 8int, 3int),
    };
    assert(platforms[left].x_start == shape(id).left);
    assert(platforms[right].x_end == shape(id).right);
    assert(platforms[lowest].y == shape(id).lowest);
    assert(platforms[highest].y == shape(id).highest);
}

/// The ledges of a quest's map from the bottom to the top: where each begins and ends, and how high
/// it is.
pub open spec fn ledges(id: DailyQuestId) -> Seq<(int, int, int)> {
    match id {
        DailyQuestId::VanishingJourney => seq![
            (15, 149, 8),
            (54, 111, 24),
            (15, 53, 33),
            (111, 149, 33),
            (64, 102, 45),
        ],
        DailyQuestId::ChuChuIsland => seq![
            (19, 147, 5),
            (65, 100, 10),
            (74, 92, 23),
            (23, 68, 29),
            (96, 142, 29),
        ],
        DailyQuestId::Lachelein => seq![
            (20, 146, 23),
            (70, 128, 34),
            (51, 65, 37),
            (33, 56, 41),
            (113, 146, 47),
        ],
        DailyQuestId::Arcana => seq![
            (33, 40, 18),
            (53, 126, 18),
            (134, 142, 18),
            (24, 95, 33),
            (52, 125, 48),
            (135, 144, 48),
        ],
        DailyQuestId::Morass => seq![
            (3, 205, 10),
            (67, 79, 17),
            (100, 136, 22),
            (159, 190, 22),
            (75, 86, 23),
            (26, 55, 25),
            (81, 93, 28),
            (89, 100, 33),
            (138, 155, 33),
            (26, 62, 37),
            (71, 77, 41),
            (94, 131, 45),
            (161, 191, 45),
            (26, 56, 50),
        ],
        DailyQuestId::Esfera => seq![
            (9, 157, 12),
            (63, 98, 23),
            (20, 54, 29),
            (110, 146, 29),
            (72, 107, 39),
            (21, 47, 41),
            (36, 71, 52),
            (103, 147, 54),
        ],
        DailyQuestId::Moonbridge => seq![
            (1, 166, 11),
            (4, 40, 24),
            (49, 117, 24),
            (127, 164, 24),
            (9, 77, 38),
            (89, 157, 38),
            (74, 94, 46),
            (36, 72, 53),
            (95, 132, 53),
        ],
        DailyQuestId::LabyrinthOfSuffering => seq![
            (39, 192, 11),
            (39, 59, 26),
            (76, 98, 26),
            (110, 122, 26),
            (133, 155, 26),
            (172, 193, 26),
            (48, 183, 41),
            (39, 70, 60),
            (81, 150, 60),
            (161, 187, 60),
        ],
        DailyQuestId::Limina => seq![
            (29, 138, 11),
            (29, 62, 29),
            (111, 138, 31),
            (29, 67, 42),
            (106, 137, 45),
            (29, 51, 55),
        ],
        DailyQuestId::Cernium => seq![
            (14, 153, 11),
            (19, 62, 27),
            (72, 101, 27),
            (110, 147, 27),
            (129, 154, 43),
            (15, 46, 44),
            (98, 121, 44),
            (52, 92, 47),
        ],
        DailyQuestId::HotelArcus => seq![
            (22, 175, 11),
            (122, 154, 22),
            (32, 49, 24),
            (60, 84, 24),
            (94, 111, 24),
            (160, 169, 29),
            (49, 67, 35),
            (77, 109, 35),
            (121, 137, 35),
            (147, 156, 35),
            (27, 44, 40),
            (55, 80, 48),
            (90, 107, 48),
            (118, 152, 48),
        ],
        DailyQuestId::Odium => seq![
            (1, 172, 9),
            (14, 41, 22),
            (83, 105, 22),
            (53, 75, 23),
            (117, 145, 23),
            (17, 44, 37),
            (58, 98, 37),
            (122, 144, 37),
        ],
        DailyQuestId::ShangriLa => seq![
            (1, 186, 10),
            (14, 51, 24),
            (77, 90, 24),
            (102, 120, 24),
            (132, 168, 24),
            (55, 90, 36),
            (100, 137, 36),
            (147, 172, 36),
            (21, 41, 37),
            (56, 98, 49),
            (112, 125, 49),
            (134, 166, 49),
        ],
        DailyQuestId::Arteria => seq![
            (2, 165, 10),
            (21, 32, 24),
            (132, 150, 24),
            (40, 80, 25),
            (103, 121, 25),
            (120, 159, 33),
            (9, 50, 38),
            (126, 144, 46),
            (19, 31, 49),
            (40, 60, 50),
        ],
        DailyQuestId::Carcion => seq![
            (1, 177, 9),
            (13, 64, 21),
            (118, 169, 22),
            (98, 112, 26),
            (78, 93, 30),
            (18, 72, 33),
            (139, 166, 34),
            (104, 132, 39),
            (58, 99, 44),
            (12, 53, 48),
            (135, 162, 48),
        ],
        DailyQuestId::Tallahart => seq![
            (1, 185, 7),
            (67, 86, 19),
            (102, 122, 19),
            (20, 56, 20),
            (133, 168, 20),
            (33, 87, 32),
            (102, 155, 32),
            (15, 37, 45),
            (72, 116, 46),
        ],
    }
}

/// Whether a platform is the given ledge.
pub open spec fn is_ledge(platform: Platform, ledge: (int, int, int)) -> bool {
    platform.x_start == ledge.0 && platform.x_end == ledge.1 && platform.y == ledge.2
}

/// Where the platform of each ledge of a quest's map is listed.
spec fn listed_at(id: DailyQuestId) -> Seq<int> {
    match id {
        DailyQuestId::VanishingJourney => seq![4, 3, 0, 2, 1],
        DailyQuestId::ChuChuIsland => seq![4, 3, 1, 0, 2],
        DailyQuestId::Lachelein => seq![4, 2, 1, 0, 3],
        DailyQuestId::Arcana => seq![5, 3, 4, 2, 0, 1],
        DailyQuestId::Morass => seq![13, 3, 12, 11, 4, 2, 5, 6, 9, 1, 7, 8, 10, 0],
        DailyQuestId::Esfera => seq![7, 4, 5, 3, 2, 6, 0, 1],
        DailyQuestId::Moonbridge => seq![8, 7, 6, 5, 0, 4, 2, 1, 3],
        DailyQuestId::LabyrinthOfSuffering => seq![9, 4, 5, 6, 7, 8, 3, 0, 1, 2],
        DailyQuestId::Limina => seq![3, 2, 4, 1, 5, 0],
        DailyQuestId::Cernium => seq![0, 1, 2, 3, 4, 7, 5, 6],
        DailyQuestId::HotelArcus => seq![13, 10, 1, 12, 11, 9, 2, 6, 7, 8, 0, 3, 4, 5],
        DailyQuestId::Odium => seq![0, 1, 3, 2, 4, 5, 6, 7],
        DailyQuestId::ShangriLa => seq![11, 7, 8, 9, 10, 6, 5, 4, 0, 1, 2, 3],
        DailyQuestId::Arteria => seq![0, 1, 4, 2, 3, 5, 7, 6, 8, 9],
        DailyQuestId::Carcion => seq![0, 1, 4, 3, 2, 5, 7, 6, 10, 9, 8],
        DailyQuestId::Tallahart => seq![8, 5, 6, 1, 7, 2, 4, 0, 3],
    }
}

/// Where the ledge of each platform of a quest's map is listed.
spec fn ledge_of(id: DailyQuestId) -> Seq<int> {
    match id {
        DailyQuestId::VanishingJourney => seq![2, 4, 3, 1, 0],
        DailyQuestId::ChuChuIsland => seq![3, 2, 4, 1, 0],
        DailyQuestId::Lachelein => seq![3, 2, 1, 4, 0],
        DailyQuestId::Arcana => seq![4, 5, 3, 1, 2, 0],
        DailyQuestId::Morass => seq![13, 9, 5, 1, 4, 6, 7, 10, 11, 8, 12, 3, 2, 0],
        DailyQuestId::Esfera => seq![6, 7, 4, 3, 1, 2, 5, 0],
        DailyQuestId::Moonbridge => seq![4, 7, 6, 8, 5, 3, 2, 1, 0],
        DailyQuestId::LabyrinthOfSuffering => seq![7, 8, 9, 6, 1, 2, 3, 4, 5, 0],
        DailyQuestId::Limina => seq![5, 3, 1, 0, 2, 4],
        DailyQuestId::Cernium => seq![0, 1, 2, 3, 4, 6, 7, 5],
        DailyQuestId::HotelArcus => seq![10, 2, 6, 11, 12, 13, 7, 8, 9, 5, 1, 4, 3, 0],
        DailyQuestId::Odium => seq![0, 1, 3, 2, 4, 5, 6, 7],
        DailyQuestId::ShangriLa => seq![8, 9, 10, 11, 7, 6, 5, 1, 2, 3, 4, 0],
        DailyQuestId::Arteria => seq![0, 1, 3, 4, 2, 5, 7, 6, 8, 9],
        DailyQuestId::Carcion => seq![0, 1, 4, 3, 2, 5, 7, 6, 10, 9, 8],
        DailyQuestId::Tallahart => seq![7, 3, 5, 8, 6, 1, 2, 4, 0],
    }
}

/// The platforms of a quest's map are its ledges, one for each, and there are no others.
pub proof fn platforms_are_the_ledges(id: DailyQuestId)
    ensures
        ({
            let platforms = id.spec_platforms();
            let ledges = ledges(id);
            &&& platforms.len() == ledges.len()
            &&& forall|k: int|
                0 <= k < ledges.len() ==> exists|i: int|
                    0 <= i < platforms.len() && is_ledge(
                        #[trigger] platforms[i],
                        #[trigger] ledges[k],
                    )
            &&& forall|i: int|
                0 <= i < platforms.len() ==> exists|k: int|
                    0 <= k < ledges.len() && is_ledge(
                        #[trigger] platforms[i],
                        #[trigger] ledges[k],
                    )
        }),
{
    let platforms = id.spec_platforms();
    let ledges = ledges(id);
    assert forall|k: int| 0 <= k < ledges.len() implies exists|i: int|
        0 <= i < platforms.len() && is_ledge(#[trigger] platforms[i], #[trigger] ledges[k]) by {
        let i = listed_at(id)[k];
        assert(is_ledge(platforms[i], ledges[k]));
    }
    assert forall|i: int| 0 <= i < platforms.len() implies exists|k: int|
        0 <= k < ledges.len() && is_ledge(#[trigger] platforms[i], #[trigger] ledges[k]) by {
        let k = ledge_of(id)[i];
        assert(is_ledge(platforms[i], ledges[k]));
    }
}

/// All quests are listed in the order in which they are run.
pub proof fn quests_are_listed_in_order(id: DailyQuestId)
    ensures
        all_quests().len() == 16,
        all_quests()[turn(id)] == id,
{
}

/// Whether quests are in the order in which they are run.
pub open spec fn ascending(quests: Seq<DailyQuestId>) -> bool {
    forall|i: int, j: int|
        0 <= i < j < quests.len() ==> turn(#[trigger] quests[i]) < turn(#[trigger] quests[j])
}

proof fn filtering_keeps_ascending(quests: Seq<DailyQuestId>, keep: spec_fn(DailyQuestId) -> bool)
    requires
        ascending(quests),
    ensures
        ascending(quests.filter(keep)),
        forall|i: int|
            0 <= i < quests.filter(keep).len() ==> quests.contains(
                #[trigger] quests.filter(keep)[i],
            ),
    decreases quests.len(),
{
    reveal(Seq::filter);
    if quests.len() > 0 {
        let shorter = quests.drop_last();
        assert forall|i: int, j: int| 0 <= i < j < shorter.len() implies turn(
            #[trigger] shorter[i],
        ) < turn(#[trigger] shorter[j]) by {
            assert(shorter[i] == quests[i] && shorter[j] == quests[j]);
        }
        filtering_keeps_ascending(shorter, keep);
        let kept = shorter.filter(keep);
        let all = quests.filter(keep);
        assert forall|i: int| 0 <= i < kept.len() implies quests.contains(#[trigger] kept[i])
            && turn(kept[i]) < turn(quests.last()) by {
            assert(shorter.contains(kept[i]));
            let k = shorter.index_of(kept[i]);
            assert(quests[k] == kept[i]);
        }
        assert forall|i: int| 0 <= i < all.len() implies quests.contains(#[trigger] all[i]) by {
            if i < kept.len() {
                assert(all[i] == kept[i]);
            } else {
                assert(all[i] == quests[quests.len() - 1]);
            }
        }
    }
}

/// A section lists the quests of its region, each once and in the order in which they are run.
pub proof fn sections_are_in_order(region: WorldMapRegion, id: DailyQuestId)
    ensures
        ascending(section(region)),
        section(region).contains(id) <==> id.spec_navigation().region == region,
{
    section_holds_its_region(id, region);
    let in_region = |id: DailyQuestId| id.spec_navigation().region == region;
    assert(ascending(all_quests()));
    filtering_keeps_ascending(all_quests(), in_region);
}

/// The entry of a quest is the first one for it, or an unconfigured one. Setting it replaces that
/// one in place, or adds it at the end, and leaves all others alone.
pub proof fn entries_are_found_and_replaced(
    entries: Seq<DailyQuestEntry>,
    entry: DailyQuestEntry,
    first: int,
)
    requires
        0 <= first <= entries.len(),
        forall|i: int| 0 <= i < first ==> (#[trigger] entries[i]).id != entry.id,
        first < entries.len() ==> entries[first].id == entry.id,
    ensures
        lookup(entries, entry.id) == if first < entries.len() {
            entries[first]
        } else {
            DailyQuestEntry {
                id: entry.id,
                kill_target: 100,
                enabled: false,
                last_completed_day: None,
            }
        },
        ({
            let after = with_entry(entries, entry);
            &&& after.len() == if first < entries.len() {
                entries.len()
            } else {
                entries.len() + 1
            }
            &&& after[first] == entry
            &&& forall|i: int| 0 <= i < entries.len() && i != first ==> #[trigger] after[i]
                == entries[i]
        }),
{
    first_position(entries, entry.id, first, 0);
}

proof fn first_position(entries: Seq<DailyQuestEntry>, id: DailyQuestId, first: int, from: int)
    requires
        0 <= from <= first <= entries.len(),
        forall|i: int| 0 <= i < first ==> (#[trigger] entries[i]).id != id,
        first < entries.len() ==> entries[first].id == id,
    ensures
        position_from(entries, id, from) == if first < entries.len() {
            Some(first)
        } else {
            None
        },
    decreases first - from,
{
    if from < first {
        first_position(entries, id, first, from + 1);
    }
}

/// How often a detection runs at most: mobs, enemies and portals all the time, the notice about a
/// quest each second, kill counts each second and a half, lie detectors and dialogs each three
/// seconds, the bar of an elite boss each five, and all else each ten seconds.
pub proof fn detections_run_in_intervals(task: DetectionTask)
    ensures
        ({
            let millis = task.spec_repeat_delay_millis();
            &&& millis == 0 <==> task is AutoMob || task is MonsterParkEnemies || task
                is MonsterParkPortals
            &&& millis == 1000 <==> task is DailyQuestComplete
            &&& millis == 1500 <==> task is DailyQuestProgress
            &&& millis == 3000 <==> task is LieDetectorShape || task is LieDetectorVioletta || task
                is EscSettings
            &&& millis == 5000 <==> task is EliteBossBar
            &&& millis == 10000 <==> task is FamiliarEssence || task is BoosterTimer || task
                is HexaBoosterExchange
        }),
{
}

/// A request is for the detection of what it asks about.
pub proof fn requests_ask_for_their_detection(request: DetectionRequest)
    ensures
        ({
            let task = request.spec_task();
            &&& request is Mobs <==> task is AutoMob
            &&& request is MonsterParkEnemies <==> task is MonsterParkEnemies
            &&& request is MonsterParkPortals <==> task is MonsterParkPortals
            &&& request is DailyQuestProgress <==> task is DailyQuestProgress
            &&& request is DailyQuestComplete <==> task is DailyQuestComplete
            &&& request is FamiliarEssence <==> task is FamiliarEssence
            &&& request is LieDetectorShape <==> task is LieDetectorShape
            &&& request is LieDetectorVioletta <==> task is LieDetectorVioletta
            &&& request is EliteBossBar <==> task is EliteBossBar
            &&& request is HexaBoosterExchange <==> task is HexaBoosterExchange
            &&& request is EscSettings <==> task is EscSettings
            &&& request matches DetectionRequest::BoosterTimer(kind) ==> task
                == DetectionTask::BoosterTimer(kind)
        }),
{
}

/// Each kind of booster has a timer of its own.
pub proof fn boosters_have_timers_of_their_own(detections: Detections)
    ensures
        detections.spec_booster_timer(Booster::Generic)
            == detections.generic_booster_timer_visible,
        detections.spec_booster_timer(Booster::Hexa) == detections.hexa_booster_timer_visible,
{
}

} // verus!
