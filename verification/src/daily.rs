//! The daily quest catalog: for each quest how to travel to its hunting ground, the area to hunt
//! in and the platforms of its map.

use vstd::prelude::*;

use crate::clock::{seconds_at, unix_seconds};
use crate::models::{Bound, Platform};
use crate::player::actions::optional_text;

use std::time::SystemTime;

verus! {

/// The number of seconds in a day.
pub const SECONDS_PER_DAY: u64 = 86400;

/// The configuration of a daily quest for one character.
#[derive(Clone, Copy, PartialEq, Eq, Debug, Structural)]
pub struct DailyQuestEntry {
    pub id: DailyQuestId,
    pub kill_target: u32,
    pub enabled: bool,
    /// The day (see [`DailyQuestEntry::today`]) this quest was last completed on, if any.
    pub last_completed_day: Option<u64>,
}

impl DailyQuestEntry {
    /// The entry of a quest that has not been configured yet.
    pub open spec fn unconfigured(id: DailyQuestId) -> DailyQuestEntry {
        DailyQuestEntry { id, kill_target: 100, enabled: false, last_completed_day: None }
    }

    /// Whether `day` is what some state of the system clock makes [`DailyQuestEntry::today`].
    pub open spec fn may_be_today(day: u64) -> bool {
        exists|now: SystemTime| day == #[trigger] seconds_at(now) / SECONDS_PER_DAY
    }

    /// The entry of a quest that has not been configured yet.
    pub fn new(id: DailyQuestId) -> (entry: Self)
        ensures
            entry == DailyQuestEntry::unconfigured(id),
    {
        Self { id, kill_target: 100, enabled: false, last_completed_day: None }
    }

    /// The day a moment belongs to, both counted from the Unix epoch.
    pub fn day_of(unix_seconds: u64) -> (day: u64)
        ensures
            day == unix_seconds as int / 86400,
    {
        unix_seconds / SECONDS_PER_DAY
    }

    /// The current UTC day (days since the Unix epoch).
    ///
    /// Daily quest completion is tracked against this. It does not follow the game server's
    /// actual reset, which may fall at another time than UTC midnight.
    pub fn today() -> (day: u64)
        ensures
            DailyQuestEntry::may_be_today(day),
            day <= u64::MAX / 86400,
    {
        Self::day_of(unix_seconds())
    }

    /// Whether this entry was completed on the given day.
    pub fn is_completed_on(&self, day: u64) -> (r: bool)
        ensures
            r == (self.last_completed_day == Some(day)),
    {
        match self.last_completed_day {
            Some(completed) => completed == day,
            None => false,
        }
    }

    /// Whether this entry was already completed today (see [`DailyQuestEntry::today`]).
    pub fn is_completed_today(&self) -> (r: bool)
        ensures
            exists|day: u64| #[trigger]
                DailyQuestEntry::may_be_today(day) && r == (self.last_completed_day == Some(day)),
            self.last_completed_day is None ==> !r,
    {
        let day: u64 = Self::today();
        self.is_completed_on(day)
    }
}

/// The options of the world map's region dropdown.
#[derive(Clone, Copy, PartialEq, Eq, Default, Debug, Structural)]
pub enum WorldMapRegion {
    #[default]
    MapleWorld,
    Grandis,
    ArcaneRiver,
    Hielo,
}

impl WorldMapRegion {
    /// The text of this option.
    pub open spec fn name(self) -> Seq<char> {
        match self {
            WorldMapRegion::MapleWorld => "Maple World"@,
            WorldMapRegion::Grandis => "Grandis"@,
            WorldMapRegion::ArcaneRiver => "Arcane River"@,
            WorldMapRegion::Hielo => "Hielo"@,
        }
    }

    /// The text of this option.
    pub fn label(self) -> (text: String)
        ensures
            text@ == self.name(),
    {
        match self {
            WorldMapRegion::MapleWorld => "Maple World".to_owned(),
            WorldMapRegion::Grandis => "Grandis".to_owned(),
            WorldMapRegion::ArcaneRiver => "Arcane River".to_owned(),
            WorldMapRegion::Hielo => "Hielo".to_owned(),
        }
    }
}

/// The known daily quests, in the order in which they are run.
#[derive(Clone, Copy, PartialEq, Eq, PartialOrd, Ord, Hash, Debug, Structural)]
pub enum DailyQuestId {
    VanishingJourney,
    ChuChuIsland,
    Lachelein,
    Arcana,
    Morass,
    Esfera,
    Moonbridge,
    LabyrinthOfSuffering,
    Limina,
    Cernium,
    HotelArcus,
    Odium,
    ShangriLa,
    Arteria,
    Carcion,
    Tallahart,
}

/// How to reach a hunting ground through the world map.
#[derive(Debug)]
pub struct DailyQuestNavigation {
    pub region: WorldMapRegion,
    /// What to pick from the dropdowns after the region's, in order.
    pub dropdown_path: Vec<String>,
    pub location_label: String,
    /// The location's node, as an offset from the world map title.
    pub location_point: (i32, i32),
    /// The node to pick in the view that the location's node opens, if it opens one.
    pub sub_location_label: Option<String>,
}

/// What a [`DailyQuestNavigation`] holds.
pub struct DailyQuestNavigationView {
    pub region: WorldMapRegion,
    pub dropdown_path: Seq<Seq<char>>,
    pub location_label: Seq<char>,
    pub location_point: (i32, i32),
    pub sub_location_label: Option<Seq<char>>,
}

impl View for DailyQuestNavigation {
    type V = DailyQuestNavigationView;

    open spec fn view(&self) -> DailyQuestNavigationView {
        DailyQuestNavigationView {
            region: self.region,
            dropdown_path: texts(self.dropdown_path@),
            location_label: self.location_label@,
            location_point: self.location_point,
            sub_location_label: optional_text(self.sub_location_label),
        }
    }
}

impl DailyQuestNavigationView {
    /// The selections of all dropdowns, the region's first.
    pub open spec fn selections(self) -> Seq<Seq<char>> {
        seq![self.region.name()] + self.dropdown_path
    }
}

/// The characters of each of the texts.
pub open spec fn texts(strings: Seq<String>) -> Seq<Seq<char>> {
    strings.map_values(|text: String| text@)
}

/// A copy of the texts.
pub fn owned_texts(strings: &Vec<String>) -> (r: Vec<String>)
    ensures
        texts(r@) == texts(strings@),
        r@ == strings@,
{
    let mut r: Vec<String> = Vec::new();
    let mut i: usize = 0;
    while i < strings.len()
        invariant
            i <= strings.len(),
            r@ == strings@.take(i as int),
        decreases strings.len() - i,
    {
        r.push(strings[i].clone());
        i += 1;
    }
    assert(r@ == strings@);
    r
}

/// A route without a view between the location's node and the teleport.
pub open spec fn route(
    region: WorldMapRegion,
    dropdown_path: Seq<Seq<char>>,
    location_label: Seq<char>,
    location_point: (i32, i32),
) -> DailyQuestNavigationView {
    DailyQuestNavigationView {
        region,
        dropdown_path,
        location_label,
        location_point,
        sub_location_label: None,
    }
}

fn nav(
    region: WorldMapRegion,
    dropdown_path: Vec<String>,
    location_label: &str,
    location_point: (i32, i32),
) -> (r: DailyQuestNavigation)
    ensures
        r@ == route(region, texts(dropdown_path@), location_label@, location_point),
{
    DailyQuestNavigation {
        region,
        dropdown_path,
        location_label: location_label.to_owned(),
        location_point,
        sub_location_label: None,
    }
}

/// The platform from `x_start` to `x_end` at height `y`.
pub open spec fn level(x_start: i32, x_end: i32, y: i32) -> Platform {
    Platform { x_start, x_end, y }
}

fn platform(x_start: i32, x_end: i32, y: i32) -> (r: Platform)
    ensures
        r == level(x_start, x_end, y),
{
    Platform { x_start, x_end, y }
}

impl DailyQuestId {
    /// The quest's name.
    pub open spec fn name(self) -> Seq<char> {
        match self {
            DailyQuestId::VanishingJourney => "Vanishing Journey"@,
            DailyQuestId::ChuChuIsland => "Chu Chu Island"@,
            DailyQuestId::Lachelein => "Lachelein"@,
            DailyQuestId::Arcana => "Arcana"@,
            DailyQuestId::Morass => "Morass"@,
            DailyQuestId::Esfera => "Esfera"@,
            DailyQuestId::Moonbridge => "Moonbridge"@,
            DailyQuestId::LabyrinthOfSuffering => "Labyrinth of Suffering"@,
            DailyQuestId::Limina => "Limina"@,
            DailyQuestId::Cernium => "Cernium"@,
            DailyQuestId::HotelArcus => "Hotel Arcus"@,
            DailyQuestId::Odium => "Odium"@,
            DailyQuestId::ShangriLa => "Shangri-La"@,
            DailyQuestId::Arteria => "Arteria"@,
            DailyQuestId::Carcion => "Carcion"@,
            DailyQuestId::Tallahart => "Tallahart"@,
        }
    }

    /// The route to this quest's hunting ground.
    pub open spec fn spec_navigation(self) -> DailyQuestNavigationView {
        match self {
            DailyQuestId::VanishingJourney => route(
                WorldMapRegion::ArcaneRiver,
                seq!["Vanishing Journey"@],
                "Extinction Zone : Spirit Zone"@,
                (525, 109),
            ),
            DailyQuestId::ChuChuIsland => route(
                WorldMapRegion::ArcaneRiver,
                seq!["Chu Chu Island"@],
                "Slurpy Forest : Bitty-Bobble Forest 1"@,
                (423, 433),
            ),
            DailyQuestId::Lachelein => route(
                WorldMapRegion::ArcaneRiver,
                seq!["Lachelein, the Dreaming City"@],
                "Lachelein Ballroom : Revelation Place 3"@,
                (545, 420),
            ),
            DailyQuestId::Arcana => route(
                WorldMapRegion::ArcaneRiver,
                seq!["Arcana, The Mysterious Forest"@],
                "Arcana : Cavern Lower Path"@,
                (468, 422),
            ),
            DailyQuestId::Morass => route(
                WorldMapRegion::ArcaneRiver,
                seq!["Morass, Swamp of Memory"@],
                "Morass : Shadowdance Hall 4"@,
                (416, 420),
            ),
            DailyQuestId::Esfera => route(
                WorldMapRegion::ArcaneRiver,
                seq!["Esfera, The Origin Sea"@],
                "Esfera : Mirror-touched Sea 3"@,
                (490, 470),
            ),
            DailyQuestId::Moonbridge => route(
                WorldMapRegion::ArcaneRiver,
                seq!["Tenebris"@, "Moonbridge"@],
                "Moonbridge : Void Current 3"@,
                (604, 455),
            ),
            DailyQuestId::LabyrinthOfSuffering => route(
                WorldMapRegion::ArcaneRiver,
                seq!["Tenebris"@, "Labyrinth of Suffering"@],
                "Tenebris : Labyrinth of Suffering Deep Core 1"@,
                (262, 453),
            ),
            DailyQuestId::Limina => route(
                WorldMapRegion::ArcaneRiver,
                seq!["Tenebris"@, "Limina"@],
                "Limina : End of the World 2-6"@,
                (593, 381),
            ),
            DailyQuestId::Cernium => route(
                WorldMapRegion::Grandis,
                seq!["Western Grandis"@, "Cernium"@],
                "Cernium : Royal Library Section 1"@,
                (399, 151),
            ),
            DailyQuestId::HotelArcus => route(
                WorldMapRegion::Grandis,
                seq!["Western Grandis"@, "Hotel Arcus"@],
                "Hotel Arcus : Nostalgic Drive-in Theater 4"@,
                (501, 320),
            ),
            DailyQuestId::Odium => route(
                WorldMapRegion::Grandis,
                seq!["Western Grandis"@, "Odium"@],
                "Odium : Captured Alley 2"@,
                (426, 288),
            ),
            DailyQuestId::ShangriLa => route(
                WorldMapRegion::Grandis,
                seq!["Western Grandis"@, "Shangri-La"@],
                "Shangri-La : Blooming Spring 2"@,
                (226, 475),
            ),
            DailyQuestId::Arteria => route(
                WorldMapRegion::Grandis,
                seq!["Western Grandis"@, "Arteria"@],
                "Empress Road : Southern Outskirts"@,
                (271, 473),
            ),
            DailyQuestId::Carcion => route(
                WorldMapRegion::Grandis,
                seq!["Western Grandis"@, "Carcion"@],
                "Carcion : Giant Coral Colony 3"@,
                (198, 176),
            ),
            DailyQuestId::Tallahart => route(
                WorldMapRegion::Grandis,
                seq!["Western Grandis"@, "Tallahart"@],
                "Tallahart : Silent Ashlands 3"@,
                (192, 468),
            ),
        }
    }

    /// The area to hunt in.
    pub open spec fn spec_bound(self) -> Bound {
        match self {
            DailyQuestId::VanishingJourney => Bound { x: 18, y: 11, width: 129, height: 41 },
            DailyQuestId::ChuChuIsland => Bound { x: 25, y: 7, width: 110, height: 34 },
            DailyQuestId::Lachelein => Bound { x: 25, y: 10, width: 120, height: 30 },
            DailyQuestId::Arcana => Bound { x: 26, y: 8, width: 115, height: 45 },
            DailyQuestId::Morass => Bound { x: 3, y: 15, width: 203, height: 50 },
            DailyQuestId::Esfera => Bound { x: 13, y: 20, width: 142, height: 50 },
            DailyQuestId::Moonbridge => Bound { x: 15, y: 18, width: 145, height: 48 },
            DailyQuestId::LabyrinthOfSuffering => Bound { x: 40, y: 10, width: 169, height: 61 },
            DailyQuestId::Limina => Bound { x: 34, y: 44, width: 100, height: 38 },
            DailyQuestId::Cernium => Bound { x: 12, y: 17, width: 141, height: 44 },
            DailyQuestId::HotelArcus => Bound { x: 26, y: 20, width: 145, height: 38 },
            DailyQuestId::Odium => Bound { x: 7, y: 18, width: 157, height: 40 },
            DailyQuestId::ShangriLa => Bound { x: 4, y: 11, width: 174, height: 49 },
            DailyQuestId::Arteria => Bound { x: 7, y: 31, width: 153, height: 44 },
            DailyQuestId::Carcion => Bound { x: 7, y: 15, width: 167, height: 45 },
            DailyQuestId::Tallahart => Bound { x: 10, y: 23, width: 166, height: 45 },
        }
    }

    /// The platforms of this quest's map.
    pub open spec fn spec_platforms(self) -> Seq<Platform> {
        match self {
            DailyQuestId::VanishingJourney => seq![
                level(15, 53, 33),
                level(64, 102, 45),
                level(111, 149, 33),
                level(54, 111, 24),
                level(15, 149, 8),
            ],
            DailyQuestId::ChuChuIsland => seq![
                level(23, 68, 29),
                level(74, 92, 23),
                level(96, 142, 29),
                level(65, 100, 10),
                level(19, 147, 5),
            ],
            DailyQuestId::Lachelein => seq![
                level(33, 56, 41),
                level(51, 65, 37),
                level(70, 128, 34),
                level(113, 146, 47),
                level(20, 146, 23),
            ],
            DailyQuestId::Arcana => seq![
                level(52, 125, 48),
                level(135, 144, 48),
                level(24, 95, 33),
                level(53, 126, 18),
                level(134, 142, 18),
                level(33, 40, 18),
            ],
            DailyQuestId::Morass => seq![
                level(26, 56, 50),
                level(26, 62, 37),
                level(26, 55, 25),
                level(67, 79, 17),
                level(75, 86, 23),
                level(81, 93, 28),
                level(89, 100, 33),
                level(71, 77, 41),
                level(94, 131, 45),
                level(138, 155, 33),
                level(161, 191, 45),
                level(159, 190, 22),
                level(100, 136, 22),
                level(3, 205, 10),
            ],
            DailyQuestId::Esfera => seq![
                level(36, 71, 52),
                level(103, 147, 54),
                level(72, 107, 39),
                level(110, 146, 29),
                level(63, 98, 23),
                level(20, 54, 29),
                level(21, 47, 41),
                level(9, 157, 12),
            ],
            DailyQuestId::Moonbridge => seq![
                level(9, 77, 38),
                level(36, 72, 53),
                level(74, 94, 46),
                level(95, 132, 53),
                level(89, 157, 38),
                level(127, 164, 24),
                level(49, 117, 24),
                level(4, 40, 24),
                level(1, 166, 11),
            ],
            DailyQuestId::LabyrinthOfSuffering => seq![
                level(39, 70, 60),
                level(81, 150, 60),
                level(161, 187, 60),
                level(48, 183, 41),
                level(39, 59, 26),
                level(76, 98, 26),
                level(110, 122, 26),
                level(133, 155, 26),
                level(172, 193, 26),
                level(39, 192, 11),
            ],
            DailyQuestId::Limina => seq![
                level(29, 51, 55),
                level(29, 67, 42),
                level(29, 62, 29),
                level(29, 138, 11),
                level(111, 138, 31),
                level(106, 137, 45),
            ],
            DailyQuestId::Cernium => seq![
                level(14, 153, 11),
                level(19, 62, 27),
                level(72, 101, 27),
                level(110, 147, 27),
                level(129, 154, 43),
                level(98, 121, 44),
                level(52, 92, 47),
                level(15, 46, 44),
            ],
            DailyQuestId::HotelArcus => seq![
                level(27, 44, 40),
                level(32, 49, 24),
                level(49, 67, 35),
                level(55, 80, 48),
                level(90, 107, 48),
                level(118, 152, 48),
                level(77, 109, 35),
                level(121, 137, 35),
                level(147, 156, 35),
                level(160, 169, 29),
                level(122, 154, 22),
                level(94, 111, 24),
                level(60, 84, 24),
                level(22, 175, 11),
            ],
            DailyQuestId::Odium => seq![
                level(1, 172, 9),
                level(14, 41, 22),
                level(53, 75, 23),
                level(83, 105, 22),
                level(117, 145, 23),
                level(17, 44, 37),
                level(58, 98, 37),
                level(122, 144, 37),
            ],
            DailyQuestId::ShangriLa => seq![
                level(21, 41, 37),
                level(56, 98, 49),
                level(112, 125, 49),
                level(134, 166, 49),
                level(147, 172, 36),
                level(100, 137, 36),
                level(55, 90, 36),
                level(14, 51, 24),
                level(77, 90, 24),
                level(102, 120, 24),
                level(132, 168, 24),
                level(1, 186, 10),
            ],
            DailyQuestId::Arteria => seq![
                level(2, 165, 10),
                level(21, 32, 24),
                level(40, 80, 25),
                level(103, 121, 25),
                level(132, 150, 24),
                level(120, 159, 33),
                level(126, 144, 46),
                level(9, 50, 38),
                level(19, 31, 49),
                level(40, 60, 50),
            ],
            DailyQuestId::Carcion => seq![
                level(1, 177, 9),
                level(13, 64, 21),
                level(78, 93, 30),
                level(98, 112, 26),
                level(118, 169, 22),
                level(18, 72, 33),
                level(104, 132, 39),
                level(139, 166, 34),
                level(135, 162, 48),
                level(12, 53, 48),
                level(58, 99, 44),
            ],
            DailyQuestId::Tallahart => seq![
                level(15, 37, 45),
                level(20, 56, 20),
                level(33, 87, 32),
                level(72, 116, 46),
                level(102, 155, 32),
                level(67, 86, 19),
                level(102, 122, 19),
                level(133, 168, 20),
                level(1, 185, 7),
            ],
        }
    }

    /// The quest's name.
    pub fn label(self) -> (text: String)
        ensures
            text@ == self.name(),
    {
        match self {
            DailyQuestId::VanishingJourney => "Vanishing Journey".to_owned(),
            DailyQuestId::ChuChuIsland => "Chu Chu Island".to_owned(),
            DailyQuestId::Lachelein => "Lachelein".to_owned(),
            DailyQuestId::Arcana => "Arcana".to_owned(),
            DailyQuestId::Morass => "Morass".to_owned(),
            DailyQuestId::Esfera => "Esfera".to_owned(),
            DailyQuestId::Moonbridge => "Moonbridge".to_owned(),
            DailyQuestId::LabyrinthOfSuffering => "Labyrinth of Suffering".to_owned(),
            DailyQuestId::Limina => "Limina".to_owned(),
            DailyQuestId::Cernium => "Cernium".to_owned(),
            DailyQuestId::HotelArcus => "Hotel Arcus".to_owned(),
            DailyQuestId::Odium => "Odium".to_owned(),
            DailyQuestId::ShangriLa => "Shangri-La".to_owned(),
            DailyQuestId::Arteria => "Arteria".to_owned(),
            DailyQuestId::Carcion => "Carcion".to_owned(),
            DailyQuestId::Tallahart => "Tallahart".to_owned(),
        }
    }

    /// The world map route to this quest's hunting ground, which is fixed game content.
    ///
    /// - Pick `region` from the first dropdown, then each entry of `dropdown_path` from the
    ///   dropdown that the pick before it reveals.
    /// - Once there, double-click `location_point`, an offset from the top-left corner of the
    ///   world map title.
    /// - Where that opens another view instead of asking to teleport, double-click
    ///   `sub_location_label` in it.
    pub fn navigation(self) -> (r: DailyQuestNavigation)
        ensures
            r@ == self.spec_navigation(),
    {
        let r = match self {
            DailyQuestId::VanishingJourney => nav(
                WorldMapRegion::ArcaneRiver,
                vec!["Vanishing Journey".to_owned()],
                "Extinction Zone : Spirit Zone",
                (525, 109),
            ),
            DailyQuestId::ChuChuIsland => nav(
                WorldMapRegion::ArcaneRiver,
                vec!["Chu Chu Island".to_owned()],
                "Slurpy Forest : Bitty-Bobble Forest 1",
                (423, 433),
            ),
            DailyQuestId::Lachelein => nav(
                WorldMapRegion::ArcaneRiver,
                vec!["Lachelein, the Dreaming City".to_owned()],
                "Lachelein Ballroom : Revelation Place 3",
                (545, 420),
            ),
            DailyQuestId::Arcana => nav(
                WorldMapRegion::ArcaneRiver,
                vec!["Arcana, The Mysterious Forest".to_owned()],
                "Arcana : Cavern Lower Path",
                (468, 422),
            ),
            DailyQuestId::Morass => nav(
                WorldMapRegion::ArcaneRiver,
                vec!["Morass, Swamp of Memory".to_owned()],
                "Morass : Shadowdance Hall 4",
                (416, 420),
            ),
            DailyQuestId::Esfera => nav(
                WorldMapRegion::ArcaneRiver,
                vec!["Esfera, The Origin Sea".to_owned()],
                "Esfera : Mirror-touched Sea 3",
                (490, 470),
            ),
            DailyQuestId::Moonbridge => nav(
                WorldMapRegion::ArcaneRiver,
                vec!["Tenebris".to_owned(), "Moonbridge".to_owned()],
                "Moonbridge : Void Current 3",
                (604, 455),
            ),
            DailyQuestId::LabyrinthOfSuffering => nav(
                WorldMapRegion::ArcaneRiver,
                vec!["Tenebris".to_owned(), "Labyrinth of Suffering".to_owned()],
                "Tenebris : Labyrinth of Suffering Deep Core 1",
                (262, 453),
            ),
            DailyQuestId::Limina => nav(
                WorldMapRegion::ArcaneRiver,
                vec!["Tenebris".to_owned(), "Limina".to_owned()],
                "Limina : End of the World 2-6",
                (593, 381),
            ),
            DailyQuestId::Cernium => nav(
                WorldMapRegion::Grandis,
                vec!["Western Grandis".to_owned(), "Cernium".to_owned()],
                "Cernium : Royal Library Section 1",
                (399, 151),
            ),
            DailyQuestId::HotelArcus => nav(
                WorldMapRegion::Grandis,
                vec!["Western Grandis".to_owned(), "Hotel Arcus".to_owned()],
                "Hotel Arcus : Nostalgic Drive-in Theater 4",
                (501, 320),
            ),
            DailyQuestId::Odium => nav(
                WorldMapRegion::Grandis,
                vec!["Western Grandis".to_owned(), "Odium".to_owned()],
                "Odium : Captured Alley 2",
                (426, 288),
            ),
            DailyQuestId::ShangriLa => nav(
                WorldMapRegion::Grandis,
                vec!["Western Grandis".to_owned(), "Shangri-La".to_owned()],
                "Shangri-La : Blooming Spring 2",
                (226, 475),
            ),
            DailyQuestId::Arteria => nav(
                WorldMapRegion::Grandis,
                vec!["Western Grandis".to_owned(), "Arteria".to_owned()],
                "Empress Road : Southern Outskirts",
                (271, 473),
            ),
            DailyQuestId::Carcion => nav(
                WorldMapRegion::Grandis,
                vec!["Western Grandis".to_owned(), "Carcion".to_owned()],
                "Carcion : Giant Coral Colony 3",
                (198, 176),
            ),
            DailyQuestId::Tallahart => nav(
                WorldMapRegion::Grandis,
                vec!["Western Grandis".to_owned(), "Tallahart".to_owned()],
                "Tallahart : Silent Ashlands 3",
                (192, 468),
            ),
        };
        assert(r@.dropdown_path =~= self.spec_navigation().dropdown_path);
        r
    }

    /// The area to hunt in on this quest's map.
    pub fn bound(self) -> (r: Bound)
        ensures
            r == self.spec_bound(),
    {
        match self {
            DailyQuestId::VanishingJourney => Bound { x: 18, y: 11, width: 129, height: 41 },
            DailyQuestId::ChuChuIsland => Bound { x: 25, y: 7, width: 110, height: 34 },
            DailyQuestId::Lachelein => Bound { x: 25, y: 10, width: 120, height: 30 },
            DailyQuestId::Arcana => Bound { x: 26, y: 8, width: 115, height: 45 },
            DailyQuestId::Morass => Bound { x: 3, y: 15, width: 203, height: 50 },
            DailyQuestId::Esfera => Bound { x: 13, y: 20, width: 142, height: 50 },
            DailyQuestId::Moonbridge => Bound { x: 15, y: 18, width: 145, height: 48 },
            DailyQuestId::LabyrinthOfSuffering => Bound { x: 40, y: 10, width: 169, height: 61 },
            DailyQuestId::Limina => Bound { x: 34, y: 44, width: 100, height: 38 },
            DailyQuestId::Cernium => Bound { x: 12, y: 17, width: 141, height: 44 },
            DailyQuestId::HotelArcus => Bound { x: 26, y: 20, width: 145, height: 38 },
            DailyQuestId::Odium => Bound { x: 7, y: 18, width: 157, height: 40 },
            DailyQuestId::ShangriLa => Bound { x: 4, y: 11, width: 174, height: 49 },
            DailyQuestId::Arteria => Bound { x: 7, y: 31, width: 153, height: 44 },
            DailyQuestId::Carcion => Bound { x: 7, y: 15, width: 167, height: 45 },
            DailyQuestId::Tallahart => Bound { x: 10, y: 23, width: 166, height: 45 },
        }
    }

    /// The platforms of this quest's map, used to path between them while hunting.
    pub fn platforms(self) -> (r: Vec<Platform>)
        ensures
            r@ == self.spec_platforms(),
    {
        match self {
            DailyQuestId::VanishingJourney => vec![
                platform(15, 53, 33),
                platform(64, 102, 45),
                platform(111, 149, 33),
                platform(54, 111, 24),
                platform(15, 149, 8),
            ],
            DailyQuestId::ChuChuIsland => vec![
                platform(23, 68, 29),
                platform(74, 92, 23),
                platform(96, 142, 29),
                platform(65, 100, 10),
                platform(19, 147, 5),
            ],
            DailyQuestId::Lachelein => vec![
                platform(33, 56, 41),
                platform(51, 65, 37),
                platform(70, 128, 34),
                platform(113, 146, 47),
                platform(20, 146, 23),
            ],
            DailyQuestId::Arcana => vec![
                platform(52, 125, 48),
                platform(135, 144, 48),
                platform(24, 95, 33),
                platform(53, 126, 18),
                platform(134, 142, 18),
                platform(33, 40, 18),
            ],
            DailyQuestId::Morass => vec![
                platform(26, 56, 50),
                platform(26, 62, 37),
                platform(26, 55, 25),
                platform(67, 79, 17),
                platform(75, 86, 23),
                platform(81, 93, 28),
                platform(89, 100, 33),
                platform(71, 77, 41),
                platform(94, 131, 45),
                platform(138, 155, 33),
                platform(161, 191, 45),
                platform(159, 190, 22),
                platform(100, 136, 22),
                platform(3, 205, 10),
            ],
            DailyQuestId::Esfera => vec![
                platform(36, 71, 52),
                platform(103, 147, 54),
                platform(72, 107, 39),
                platform(110, 146, 29),
                platform(63, 98, 23),
                platform(20, 54, 29),
                platform(21, 47, 41),
                platform(9, 157, 12),
            ],
            DailyQuestId::Moonbridge => vec![
                platform(9, 77, 38),
                platform(36, 72, 53),
                platform(74, 94, 46),
                platform(95, 132, 53),
                platform(89, 157, 38),
                platform(127, 164, 24),
                platform(49, 117, 24),
                platform(4, 40, 24),
                platform(1, 166, 11),
            ],
            DailyQuestId::LabyrinthOfSuffering => vec![
                platform(39, 70, 60),
                platform(81, 150, 60),
                platform(161, 187, 60),
                platform(48, 183, 41),
                platform(39, 59, 26),
                platform(76, 98, 26),
                platform(110, 122, 26),
                platform(133, 155, 26),
                platform(172, 193, 26),
                platform(39, 192, 11),
            ],
            DailyQuestId::Limina => vec![
                platform(29, 51, 55),
                platform(29, 67, 42),
                platform(29, 62, 29),
                platform(29, 138, 11),
                platform(111, 138, 31),
                platform(106, 137, 45),
            ],
            DailyQuestId::Cernium => vec![
                platform(14, 153, 11),
                platform(19, 62, 27),
                platform(72, 101, 27),
                platform(110, 147, 27),
                platform(129, 154, 43),
                platform(98, 121, 44),
                platform(52, 92, 47),
                platform(15, 46, 44),
            ],
            DailyQuestId::HotelArcus => vec![
                platform(27, 44, 40),
                platform(32, 49, 24),
                platform(49, 67, 35),
                platform(55, 80, 48),
                platform(90, 107, 48),
                platform(118, 152, 48),
                platform(77, 109, 35),
                platform(121, 137, 35),
                platform(147, 156, 35),
                platform(160, 169, 29),
                platform(122, 154, 22),
                platform(94, 111, 24),
                platform(60, 84, 24),
                platform(22, 175, 11),
            ],
            DailyQuestId::Odium => vec![
                platform(1, 172, 9),
                platform(14, 41, 22),
                platform(53, 75, 23),
                platform(83, 105, 22),
                platform(117, 145, 23),
                platform(17, 44, 37),
                platform(58, 98, 37),
                platform(122, 144, 37),
            ],
            DailyQuestId::ShangriLa => vec![
                platform(21, 41, 37),
                platform(56, 98, 49),
                platform(112, 125, 49),
                platform(134, 166, 49),
                platform(147, 172, 36),
                platform(100, 137, 36),
                platform(55, 90, 36),
                platform(14, 51, 24),
                platform(77, 90, 24),
                platform(102, 120, 24),
                platform(132, 168, 24),
                platform(1, 186, 10),
            ],
            DailyQuestId::Arteria => vec![
                platform(2, 165, 10),
                platform(21, 32, 24),
                platform(40, 80, 25),
                platform(103, 121, 25),
                platform(132, 150, 24),
                platform(120, 159, 33),
                platform(126, 144, 46),
                platform(9, 50, 38),
                platform(19, 31, 49),
                platform(40, 60, 50),
            ],
            DailyQuestId::Carcion => vec![
                platform(1, 177, 9),
                platform(13, 64, 21),
                platform(78, 93, 30),
                platform(98, 112, 26),
                platform(118, 169, 22),
                platform(18, 72, 33),
                platform(104, 132, 39),
                platform(139, 166, 34),
                platform(135, 162, 48),
                platform(12, 53, 48),
                platform(58, 99, 44),
            ],
            DailyQuestId::Tallahart => vec![
                platform(15, 37, 45),
                platform(20, 56, 20),
                platform(33, 87, 32),
                platform(72, 116, 46),
                platform(102, 155, 32),
                platform(67, 86, 19),
                platform(102, 122, 19),
                platform(133, 168, 20),
                platform(1, 185, 7),
            ],
        }
    }
}

/// Every quest's map has platforms, and an area to hunt in that is not empty.
pub proof fn every_quest_can_be_hunted(id: DailyQuestId)
    ensures
        id.spec_platforms().len() > 0,
        id.spec_bound().x >= 0,
        id.spec_bound().y >= 0,
        id.spec_bound().width > 0,
        id.spec_bound().height > 0,
        id.spec_navigation().region == WorldMapRegion::ArcaneRiver || id.spec_navigation().region
            == WorldMapRegion::Grandis,
{
}

/// A quest that was completed on one day counts as completed on that day and no other.
pub proof fn completion_lasts_a_day(seconds: u64, later: u64, entry: DailyQuestEntry)
    requires
        entry.last_completed_day == Some((seconds / SECONDS_PER_DAY) as u64),
        seconds <= later,
    ensures
        entry.last_completed_day == Some((later / SECONDS_PER_DAY) as u64) <==> later < (seconds
            / SECONDS_PER_DAY + 1) * SECONDS_PER_DAY,
{
}

} // verus!
