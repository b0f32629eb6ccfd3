use vstd::prelude::*;

use crate::actor::{clamp_i64, clamp_to_i64};
use crate::text::{decimal_string, format_num, formatted, signed_decimal};
use vstd::string::StringExecFns;

verus! {

pub const MAX_MINERS_PER_MINE: i64 = 10;
pub const MAX_MINES_PER_LAND: i64 = 5;
pub const MAX_LAND_PER_COUNTRY: i64 = 25;
pub const MAX_COUNTRIES_PER_CONTINENT: i64 = 50;
pub const MAX_CONTINENTS_PER_PLANET: i64 = 7;
pub const MAX_PLANETS_PER_SOLAR_SYSTEM: i64 = 8;
pub const MAX_SOLAR_SYSTEMS_PER_GALAXY: i64 = 100;
pub const MAX_GALAXIES_PER_UNIVERSE: i64 = 255;

/// Coins a miner earns per hour.
pub const HOURLY_RATE_PER_MINER: i64 = 10;

/// How many of each unit a mine can hold.
#[derive(Clone, Copy, Debug, PartialEq, Eq, Structural)]
pub struct MaxValues {
    pub miner: i64,
    pub mine: i64,
    pub land: i64,
    pub country: i64,
    pub continent: i64,
    pub planet: i64,
    pub solar_system: i64,
    pub galaxy: i64,
    pub universe: i64,
}

/// `per` units for each container held plus one, within `i64`.
pub open spec fn room(per: i64, held: i64) -> i64 {
    clamp_i64(per * (held + 1))
}

fn room_for(per: i64, held: i64) -> (r: i64)
    requires
        0 <= per <= 255,
    ensures
        r == room(per, held),
{
    let (p, h) = (per as i128, held as i128 + 1);
    assert(-0x100_0000_0000_0000_0000i128 <= p * h <= 0x100_0000_0000_0000_0000i128) by (nonlinear_arith)
        requires
            0 <= p <= 255,
            -0x8000_0000_0000_0000i128 <= h <= 0x8000_0000_0000_0000i128,
    ;
    clamp_to_i64(p * h)
}

/// The room for each unit, given how many of the next larger unit are held
/// (and, for universes, the prestige).
pub open spec fn capacity(
    mines: i64,
    land: i64,
    countries: i64,
    continents: i64,
    planets: i64,
    solar_systems: i64,
    galaxies: i64,
    universes: i64,
    prestige: i64,
) -> MaxValues {
    MaxValues {
        miner: room(MAX_MINERS_PER_MINE, mines),
        mine: room(MAX_MINES_PER_LAND, land),
        land: room(MAX_LAND_PER_COUNTRY, countries),
        country: room(MAX_COUNTRIES_PER_CONTINENT, continents),
        continent: room(MAX_CONTINENTS_PER_PLANET, planets),
        planet: room(MAX_PLANETS_PER_SOLAR_SYSTEM, solar_systems),
        solar_system: room(MAX_SOLAR_SYSTEMS_PER_GALAXY, galaxies),
        galaxy: room(MAX_GALAXIES_PER_UNIVERSE, universes),
        universe: room(1, prestige),
    }
}

fn capacity_of(
    mines: i64,
    land: i64,
    countries: i64,
    continents: i64,
    planets: i64,
    solar_systems: i64,
    galaxies: i64,
    universes: i64,
    prestige: i64,
) -> (r: MaxValues)
    ensures
        r == capacity(mines, land, countries, continents, planets, solar_systems, galaxies, universes, prestige),
{
    MaxValues {
        miner: room_for(MAX_MINERS_PER_MINE, mines),
        mine: room_for(MAX_MINES_PER_LAND, land),
        land: room_for(MAX_LAND_PER_COUNTRY, countries),
        country: room_for(MAX_COUNTRIES_PER_CONTINENT, continents),
        continent: room_for(MAX_CONTINENTS_PER_PLANET, planets),
        planet: room_for(MAX_PLANETS_PER_SOLAR_SYSTEM, solar_systems),
        solar_system: room_for(MAX_SOLAR_SYSTEMS_PER_GALAXY, galaxies),
        galaxy: room_for(MAX_GALAXIES_PER_UNIVERSE, universes),
        universe: room_for(1, prestige),
    }
}

/// One line of a mine's unit summary: "`held/max` label".
pub open spec fn count_line(held: i64, max: i64, label: Seq<char>) -> Seq<char> {
    "`"@ + signed_decimal(held as int) + "/"@ + signed_decimal(max as int) + "` "@ + label
}

fn count_line_text(held: i64, max: i64, label: &str) -> (r: String)
    ensures
        r@ == count_line(held, max, label@),
{
    String::from_str("`").concat(decimal_string(held).as_str()).concat("/").concat(
        decimal_string(max).as_str(),
    ).concat("` ").concat(label)
}

/// The unit summary of a mine holding `held` (miners, mines, land,
/// countries, continents, planets, solar systems, galaxies, universes) with
/// room `m`.
pub open spec fn count_summary(held: Seq<i64>, m: MaxValues) -> Seq<char>
    recommends
        held.len() == 9,
{
    count_line(held[0], m.miner, "miners"@) + "\n        "@ + count_line(held[1], m.mine, "mines"@) + "\n        "@ + count_line(held[2], m.land, "plots of land"@) + "\n        "@ + count_line(held[3], m.country, "countries"@) + "\n        "@ + count_line(held[4], m.continent, "continents"@) + "\n        "@ + count_line(held[5], m.planet, "planets"@) + "\n        "@ + count_line(held[6], m.solar_system, "solar systems"@) + "\n        "@ + count_line(held[7], m.galaxy, "galaxies"@) + "\n        "@ + count_line(held[8], m.universe, "universes"@)
}

fn count_summary_text(held: [i64; 9], m: MaxValues) -> (r: String)
    ensures
        r@ == count_summary(held@, m),
{
    let l0 = count_line_text(held[0], m.miner, "miners");
    let l1 = count_line_text(held[1], m.mine, "mines");
    let l2 = count_line_text(held[2], m.land, "plots of land");
    let l3 = count_line_text(held[3], m.country, "countries");
    let l4 = count_line_text(held[4], m.continent, "continents");
    let l5 = count_line_text(held[5], m.planet, "planets");
    let l6 = count_line_text(held[6], m.solar_system, "solar systems");
    let l7 = count_line_text(held[7], m.galaxy, "galaxies");
    let l8 = count_line_text(held[8], m.universe, "universes");
    l0.concat("\n        ").concat(l1.as_str()).concat("\n        ").concat(l2.as_str()).concat("\n        ").concat(l3.as_str()).concat("\n        ").concat(l4.as_str()).concat("\n        ").concat(l5.as_str()).concat("\n        ").concat(l6.as_str()).concat("\n        ").concat(l7.as_str()).concat("\n        ").concat(l8.as_str())
}

/// A unit's name, in the plural when more than one can be held.
pub open spec fn counted_label(unit: Seq<char>, max: i64) -> Seq<char> {
    if max > 1 {
        unit + "s"@
    } else {
        unit
    }
}

fn counted_label_text(unit: &str, max: i64) -> (r: String)
    ensures
        r@ == counted_label(unit@, max),
{
    if max > 1 {
        String::from_str(unit).concat("s")
    } else {
        String::from_str(unit)
    }
}

/// One line of the mine page: a check mark when the unit is full, else
/// "`held / max` label" with thousands separators.
pub open spec fn fill_line(held: i64, max: i64, label: Seq<char>) -> Seq<char> {
    if held >= max {
        "\u{2705} "@ + label + " full"@
    } else {
        "`"@ + formatted(held as int) + " / "@ + formatted(max as int) + "` "@ + label
    }
}

fn fill_line_text(held: i64, max: i64, label: &str) -> (r: String)
    ensures
        r@ == fill_line(held, max, label@),
{
    if held >= max {
        String::from_str("\u{2705} ").concat(label).concat(" full")
    } else {
        String::from_str("`").concat(format_num(held).as_str()).concat(" / ").concat(
            format_num(max).as_str(),
        ).concat("` ").concat(label)
    }
}

/// Hourly income of `miners` miners.
pub open spec fn income(miners: i64) -> i64 {
    if miners <= 0 {
        0
    } else {
        clamp_i64(miners * HOURLY_RATE_PER_MINER)
    }
}

/// A user's mine: units held, prestige, mined resources and crafted packs.
pub struct GamblingMineRow {
    id: i64,
    miners: i64,
    mines: i64,
    land: i64,
    countries: i64,
    continents: i64,
    planets: i64,
    solar_systems: i64,
    galaxies: i64,
    universes: i64,
    prestige: i64,
    coal: i64,
    iron: i64,
    gold: i64,
    redstone: i64,
    lapis: i64,
    diamonds: i64,
    emeralds: i64,
    tech: i64,
    utility: i64,
    production: i64,
}

impl View for GamblingMineRow {
    type V = Seq<i64>;

    /// The fields, in the order: id, miners, mines, land, countries,
    /// continents, planets, solar systems, galaxies, universes, prestige,
    /// coal, iron, gold, redstone, lapis, diamonds, emeralds, tech, utility,
    /// production.
    closed spec fn view(&self) -> Seq<i64> {
        seq![
            self.id,
            self.miners,
            self.mines,
            self.land,
            self.countries,
            self.continents,
            self.planets,
            self.solar_systems,
            self.galaxies,
            self.universes,
            self.prestige,
            self.coal,
            self.iron,
            self.gold,
            self.redstone,
            self.lapis,
            self.diamonds,
            self.emeralds,
            self.tech,
            self.utility,
            self.production,
        ]
    }
}

/// Position of `id` in a mine row's view.
pub open spec fn id_slot() -> int {
    0
}

/// Position of `miners` in a mine row's view.
pub open spec fn miners_slot() -> int {
    1
}

/// Position of `mines` in a mine row's view.
pub open spec fn mines_slot() -> int {
    2
}

/// Position of `land` in a mine row's view.
pub open spec fn land_slot() -> int {
    3
}

/// Position of `countries` in a mine row's view.
pub open spec fn countries_slot() -> int {
    4
}

/// Position of `continents` in a mine row's view.
pub open spec fn continents_slot() -> int {
    5
}

/// Position of `planets` in a mine row's view.
pub open spec fn planets_slot() -> int {
    6
}

/// Position of `solar_systems` in a mine row's view.
pub open spec fn solar_systems_slot() -> int {
    7
}

/// Position of `galaxies` in a mine row's view.
pub open spec fn galaxies_slot() -> int {
    8
}

/// Position of `universes` in a mine row's view.
pub open spec fn universes_slot() -> int {
    9
}

/// Position of `prestige` in a mine row's view.
pub open spec fn prestige_slot() -> int {
    10
}

/// Position of `coal` in a mine row's view.
pub open spec fn coal_slot() -> int {
    11
}

/// Position of `iron` in a mine row's view.
pub open spec fn iron_slot() -> int {
    12
}

/// Position of `gold` in a mine row's view.
pub open spec fn gold_slot() -> int {
    13
}

/// Position of `redstone` in a mine row's view.
pub open spec fn redstone_slot() -> int {
    14
}

/// Position of `lapis` in a mine row's view.
pub open spec fn lapis_slot() -> int {
    15
}

/// Position of `diamonds` in a mine row's view.
pub open spec fn diamonds_slot() -> int {
    16
}

/// Position of `emeralds` in a mine row's view.
pub open spec fn emeralds_slot() -> int {
    17
}

/// Position of `tech` in a mine row's view.
pub open spec fn tech_slot() -> int {
    18
}

/// Position of `utility` in a mine row's view.
pub open spec fn utility_slot() -> int {
    19
}

/// Position of `production` in a mine row's view.
pub open spec fn production_slot() -> int {
    20
}

impl GamblingMineRow {
    /// An empty mine for user `id`.
    pub fn new(id: i64) -> (r: Self)
        ensures
            r@.len() == 21,
            r@[id_slot()] == id,
            forall|i: int| 1 <= i < 21 ==> r@[i] == 0,
    {
        GamblingMineRow {
            id,
            miners: 0,
            mines: 0,
            land: 0,
            countries: 0,
            continents: 0,
            planets: 0,
            solar_systems: 0,
            galaxies: 0,
            universes: 0,
            prestige: 0,
            coal: 0,
            iron: 0,
            gold: 0,
            redstone: 0,
            lapis: 0,
            diamonds: 0,
            emeralds: 0,
            tech: 0,
            utility: 0,
            production: 0,
        }
    }

    /// Builds a row from stored values, in the order of the view.
    pub fn from_values(values: [i64; 21]) -> (r: Self)
        ensures
            r@ == values@,
    {
        let r = GamblingMineRow {
            id: values[0],
            miners: values[1],
            mines: values[2],
            land: values[3],
            countries: values[4],
            continents: values[5],
            planets: values[6],
            solar_systems: values[7],
            galaxies: values[8],
            universes: values[9],
            prestige: values[10],
            coal: values[11],
            iron: values[12],
            gold: values[13],
            redstone: values[14],
            lapis: values[15],
            diamonds: values[16],
            emeralds: values[17],
            tech: values[18],
            utility: values[19],
            production: values[20],
        };
        assert(r@ =~= values@);
        r
    }

    pub fn id(&self) -> (r: i64)
        ensures
            self@.len() == 21,
            r == self@[id_slot()],
    {
        self.id
    }

    pub fn miners(&self) -> (r: i64)
        ensures
            self@.len() == 21,
            r == self@[miners_slot()],
    {
        self.miners
    }

    pub fn mines(&self) -> (r: i64)
        ensures
            self@.len() == 21,
            r == self@[mines_slot()],
    {
        self.mines
    }

    pub fn land(&self) -> (r: i64)
        ensures
            self@.len() == 21,
            r == self@[land_slot()],
    {
        self.land
    }

    pub fn countries(&self) -> (r: i64)
        ensures
            self@.len() == 21,
            r == self@[countries_slot()],
    {
        self.countries
    }

    pub fn continents(&self) -> (r: i64)
        ensures
            self@.len() == 21,
            r == self@[continents_slot()],
    {
        self.continents
    }

    pub fn planets(&self) -> (r: i64)
        ensures
            self@.len() == 21,
            r == self@[planets_slot()],
    {
        self.planets
    }

    pub fn solar_systems(&self) -> (r: i64)
        ensures
            self@.len() == 21,
            r == self@[solar_systems_slot()],
    {
        self.solar_systems
    }

    pub fn galaxies(&self) -> (r: i64)
        ensures
            self@.len() == 21,
            r == self@[galaxies_slot()],
    {
        self.galaxies
    }

    pub fn universes(&self) -> (r: i64)
        ensures
            self@.len() == 21,
            r == self@[universes_slot()],
    {
        self.universes
    }

    pub fn prestige(&self) -> (r: i64)
        ensures
            self@.len() == 21,
            r == self@[prestige_slot()],
    {
        self.prestige
    }

    pub fn coal(&self) -> (r: i64)
        ensures
            self@.len() == 21,
            r == self@[coal_slot()],
    {
        self.coal
    }

    pub fn iron(&self) -> (r: i64)
        ensures
            self@.len() == 21,
            r == self@[iron_slot()],
    {
        self.iron
    }

    pub fn gold(&self) -> (r: i64)
        ensures
            self@.len() == 21,
            r == self@[gold_slot()],
    {
        self.gold
    }

    pub fn redstone(&self) -> (r: i64)
        ensures
            self@.len() == 21,
            r == self@[redstone_slot()],
    {
        self.redstone
    }

    pub fn lapis(&self) -> (r: i64)
        ensures
            self@.len() == 21,
            r == self@[lapis_slot()],
    {
        self.lapis
    }

    pub fn diamonds(&self) -> (r: i64)
        ensures
            self@.len() == 21,
            r == self@[diamonds_slot()],
    {
        self.diamonds
    }

    pub fn emeralds(&self) -> (r: i64)
        ensures
            self@.len() == 21,
            r == self@[emeralds_slot()],
    {
        self.emeralds
    }

    pub fn tech(&self) -> (r: i64)
        ensures
            self@.len() == 21,
            r == self@[tech_slot()],
    {
        self.tech
    }

    pub fn utility(&self) -> (r: i64)
        ensures
            self@.len() == 21,
            r == self@[utility_slot()],
    {
        self.utility
    }

    pub fn production(&self) -> (r: i64)
        ensures
            self@.len() == 21,
            r == self@[production_slot()],
    {
        self.production
    }

    pub fn miners_mut(&mut self) -> (r: &mut i64)
        ensures
            old(self)@.len() == 21,
            *r == old(self)@[miners_slot()],
            final(self)@ == old(self)@.update(miners_slot(), *final(r)),
    {
        &mut self.miners
    }

    pub fn mines_mut(&mut self) -> (r: &mut i64)
        ensures
            old(self)@.len() == 21,
            *r == old(self)@[mines_slot()],
            final(self)@ == old(self)@.update(mines_slot(), *final(r)),
    {
        &mut self.mines
    }

    pub fn land_mut(&mut self) -> (r: &mut i64)
        ensures
            old(self)@.len() == 21,
            *r == old(self)@[land_slot()],
            final(self)@ == old(self)@.update(land_slot(), *final(r)),
    {
        &mut self.land
    }

    pub fn countries_mut(&mut self) -> (r: &mut i64)
        ensures
            old(self)@.len() == 21,
            *r == old(self)@[countries_slot()],
            final(self)@ == old(self)@.update(countries_slot(), *final(r)),
    {
        &mut self.countries
    }

    pub fn continents_mut(&mut self) -> (r: &mut i64)
        ensures
            old(self)@.len() == 21,
            *r == old(self)@[continents_slot()],
            final(self)@ == old(self)@.update(continents_slot(), *final(r)),
    {
        &mut self.continents
    }

    pub fn planets_mut(&mut self) -> (r: &mut i64)
        ensures
            old(self)@.len() == 21,
            *r == old(self)@[planets_slot()],
            final(self)@ == old(self)@.update(planets_slot(), *final(r)),
    {
        &mut self.planets
    }

    pub fn solar_systems_mut(&mut self) -> (r: &mut i64)
        ensures
            old(self)@.len() == 21,
            *r == old(self)@[solar_systems_slot()],
            final(self)@ == old(self)@.update(solar_systems_slot(), *final(r)),
    {
        &mut self.solar_systems
    }

    pub fn galaxies_mut(&mut self) -> (r: &mut i64)
        ensures
            old(self)@.len() == 21,
            *r == old(self)@[galaxies_slot()],
            final(self)@ == old(self)@.update(galaxies_slot(), *final(r)),
    {
        &mut self.galaxies
    }

    pub fn universes_mut(&mut self) -> (r: &mut i64)
        ensures
            old(self)@.len() == 21,
            *r == old(self)@[universes_slot()],
            final(self)@ == old(self)@.update(universes_slot(), *final(r)),
    {
        &mut self.universes
    }

    pub fn coal_mut(&mut self) -> (r: &mut i64)
        ensures
            old(self)@.len() == 21,
            *r == old(self)@[coal_slot()],
            final(self)@ == old(self)@.update(coal_slot(), *final(r)),
    {
        &mut self.coal
    }

    pub fn iron_mut(&mut self) -> (r: &mut i64)
        ensures
            old(self)@.len() == 21,
            *r == old(self)@[iron_slot()],
            final(self)@ == old(self)@.update(iron_slot(), *final(r)),
    {
        &mut self.iron
    }

    pub fn gold_mut(&mut self) -> (r: &mut i64)
        ensures
            old(self)@.len() == 21,
            *r == old(self)@[gold_slot()],
            final(self)@ == old(self)@.update(gold_slot(), *final(r)),
    {
        &mut self.gold
    }

    pub fn redstone_mut(&mut self) -> (r: &mut i64)
        ensures
            old(self)@.len() == 21,
            *r == old(self)@[redstone_slot()],
            final(self)@ == old(self)@.update(redstone_slot(), *final(r)),
    {
        &mut self.redstone
    }

    pub fn lapis_mut(&mut self) -> (r: &mut i64)
        ensures
            old(self)@.len() == 21,
            *r == old(self)@[lapis_slot()],
            final(self)@ == old(self)@.update(lapis_slot(), *final(r)),
    {
        &mut self.lapis
    }

    pub fn diamonds_mut(&mut self) -> (r: &mut i64)
        ensures
            old(self)@.len() == 21,
            *r == old(self)@[diamonds_slot()],
            final(self)@ == old(self)@.update(diamonds_slot(), *final(r)),
    {
        &mut self.diamonds
    }

    pub fn emeralds_mut(&mut self) -> (r: &mut i64)
        ensures
            old(self)@.len() == 21,
            *r == old(self)@[emeralds_slot()],
            final(self)@ == old(self)@.update(emeralds_slot(), *final(r)),
    {
        &mut self.emeralds
    }

    pub fn tech_mut(&mut self) -> (r: &mut i64)
        ensures
            old(self)@.len() == 21,
            *r == old(self)@[tech_slot()],
            final(self)@ == old(self)@.update(tech_slot(), *final(r)),
    {
        &mut self.tech
    }

    pub fn utility_mut(&mut self) -> (r: &mut i64)
        ensures
            old(self)@.len() == 21,
            *r == old(self)@[utility_slot()],
            final(self)@ == old(self)@.update(utility_slot(), *final(r)),
    {
        &mut self.utility
    }

    pub fn production_mut(&mut self) -> (r: &mut i64)
        ensures
            old(self)@.len() == 21,
            *r == old(self)@[production_slot()],
            final(self)@ == old(self)@.update(production_slot(), *final(r)),
    {
        &mut self.production
    }

    /// Coins the mine earns per hour.
    pub fn hourly(&self) -> (r: i64)
        ensures
            self@.len() == 21,
            r == income(self@[miners_slot()]),
    {
        if self.miners <= 0 {
            return 0;
        }
        let m = self.miners as i128;
        assert(0 < m * 10 <= 10 * 0x8000_0000_0000_0000i128) by (nonlinear_arith)
            requires
                0 < m <= 0x8000_0000_0000_0000i128,
        ;
        clamp_to_i64(m * 10)
    }

    /// How many of each unit the mine can hold.
    pub fn max_values(&self) -> (r: MaxValues)
        ensures
            self@.len() == 21,
            r == capacity(
                self@[mines_slot()],
                self@[land_slot()],
                self@[countries_slot()],
                self@[continents_slot()],
                self@[planets_slot()],
                self@[solar_systems_slot()],
                self@[galaxies_slot()],
                self@[universes_slot()],
                self@[prestige_slot()],
            ),
    {
        capacity_of(
            self.mines,
            self.land,
            self.countries,
            self.continents,
            self.planets,
            self.solar_systems,
            self.galaxies,
            self.universes,
            self.prestige,
        )
    }

    /// The units held against the room for them, one line per unit.
    pub fn units(&self) -> (r: String)
        ensures
            self@.len() == 21,
            r@ == count_summary(
                seq![
                    self@[miners_slot()],
                    self@[mines_slot()],
                    self@[land_slot()],
                    self@[countries_slot()],
                    self@[continents_slot()],
                    self@[planets_slot()],
                    self@[solar_systems_slot()],
                    self@[galaxies_slot()],
                    self@[universes_slot()],
                ],
                capacity(
                    self@[mines_slot()],
                    self@[land_slot()],
                    self@[countries_slot()],
                    self@[continents_slot()],
                    self@[planets_slot()],
                    self@[solar_systems_slot()],
                    self@[galaxies_slot()],
                    self@[universes_slot()],
                    self@[prestige_slot()],
                ),
            ),
    {
        let m = self.max_values();
        let held = [self.miners, self.mines, self.land, self.countries, self.continents, self.planets, self.solar_systems, self.galaxies, self.universes];
        let r = count_summary_text(held, m);
        assert(held@ =~= seq![
            self@[miners_slot()],
            self@[mines_slot()],
            self@[land_slot()],
            self@[countries_slot()],
            self@[continents_slot()],
            self@[planets_slot()],
            self@[solar_systems_slot()],
            self@[galaxies_slot()],
            self@[universes_slot()],
        ]);
        r
    }
}

/// A holder of mining units.
pub trait Mining {
    spec fn miners_held(&self) -> i64;

    fn miners(&self) -> (r: i64)
        ensures
            r == self.miners_held(),
    ;

    spec fn mines_held(&self) -> i64;

    fn mines(&self) -> (r: i64)
        ensures
            r == self.mines_held(),
    ;

    spec fn land_held(&self) -> i64;

    fn land(&self) -> (r: i64)
        ensures
            r == self.land_held(),
    ;

    spec fn countries_held(&self) -> i64;

    fn countries(&self) -> (r: i64)
        ensures
            r == self.countries_held(),
    ;

    spec fn continents_held(&self) -> i64;

    fn continents(&self) -> (r: i64)
        ensures
            r == self.continents_held(),
    ;

    spec fn planets_held(&self) -> i64;

    fn planets(&self) -> (r: i64)
        ensures
            r == self.planets_held(),
    ;

    spec fn solar_systems_held(&self) -> i64;

    fn solar_systems(&self) -> (r: i64)
        ensures
            r == self.solar_systems_held(),
    ;

    spec fn galaxies_held(&self) -> i64;

    fn galaxies(&self) -> (r: i64)
        ensures
            r == self.galaxies_held(),
    ;

    spec fn universes_held(&self) -> i64;

    fn universes(&self) -> (r: i64)
        ensures
            r == self.universes_held(),
    ;

    spec fn prestige_held(&self) -> i64;

    fn prestige(&self) -> (r: i64)
        ensures
            r == self.prestige_held(),
    ;

    /// How many of each unit can be held.
    fn max_values(&self) -> (r: MaxValues)
        ensures
            r == capacity(
                self.mines_held(),
                self.land_held(),
                self.countries_held(),
                self.continents_held(),
                self.planets_held(),
                self.solar_systems_held(),
                self.galaxies_held(),
                self.universes_held(),
                self.prestige_held(),
            ),
    {
        capacity_of(
            self.mines(),
            self.land(),
            self.countries(),
            self.continents(),
            self.planets(),
            self.solar_systems(),
            self.galaxies(),
            self.universes(),
            self.prestige(),
        )
    }

    /// The mine page's summary of units, one line per unit.
    fn units(&self) -> (r: String)
        ensures
            ({
                let m = capacity(
                    self.mines_held(),
                    self.land_held(),
                    self.countries_held(),
                    self.continents_held(),
                    self.planets_held(),
                    self.solar_systems_held(),
                    self.galaxies_held(),
                    self.universes_held(),
                    self.prestige_held(),
                );
                r@ == fill_line(self.miners_held(), m.miner, counted_label("miner"@, m.miner)) + "\n"@ + fill_line(self.mines_held(), m.mine, counted_label("mine"@, m.mine)) + "\n"@ + fill_line(self.land_held(), m.land, "plots of land"@) + "\n"@ + fill_line(self.countries_held(), m.country, "countries"@) + "\n"@ + fill_line(self.continents_held(), m.continent, counted_label("continent"@, m.continent)) + "\n"@ + fill_line(self.planets_held(), m.planet, counted_label("planet"@, m.planet)) + "\n"@ + fill_line(self.solar_systems_held(), m.solar_system, "solar systems"@) + "\n"@ + fill_line(self.galaxies_held(), m.galaxy, "galaxies"@) + "\n"@ + fill_line(self.universes_held(), m.universe, counted_label("universe"@, m.universe))
            }),
    {
        let m = self.max_values();
        let label0 = counted_label_text("miner", m.miner);
        let l0 = fill_line_text(self.miners(), m.miner, label0.as_str());
        let label1 = counted_label_text("mine", m.mine);
        let l1 = fill_line_text(self.mines(), m.mine, label1.as_str());
        let l2 = fill_line_text(self.land(), m.land, "plots of land");
        let l3 = fill_line_text(self.countries(), m.country, "countries");
        let label4 = counted_label_text("continent", m.continent);
        let l4 = fill_line_text(self.continents(), m.continent, label4.as_str());
        let label5 = counted_label_text("planet", m.planet);
        let l5 = fill_line_text(self.planets(), m.planet, label5.as_str());
        let l6 = fill_line_text(self.solar_systems(), m.solar_system, "solar systems");
        let l7 = fill_line_text(self.galaxies(), m.galaxy, "galaxies");
        let label8 = counted_label_text("universe", m.universe);
        let l8 = fill_line_text(self.universes(), m.universe, label8.as_str());
        l0.concat("\n").concat(l1.as_str()).concat("\n").concat(l2.as_str()).concat("\n").concat(l3.as_str()).concat("\n").concat(l4.as_str()).concat("\n").concat(l5.as_str()).concat("\n").concat(l6.as_str()).concat("\n").concat(l7.as_str()).concat("\n").concat(l8.as_str())
    }
}

/// The units of a user's mine, as the mine page shows them.
#[derive(Default)]
pub struct MineRow {
    pub miners: i64,
    pub mines: i64,
    pub land: i64,
    pub countries: i64,
    pub continents: i64,
    pub planets: i64,
    pub solar_systems: i64,
    pub galaxies: i64,
    pub universes: i64,
    pub prestige: i64,
}

impl Mining for MineRow {
    open spec fn miners_held(&self) -> i64 {
        self.miners
    }

    fn miners(&self) -> (r: i64) {
        self.miners
    }

    open spec fn mines_held(&self) -> i64 {
        self.mines
    }

    fn mines(&self) -> (r: i64) {
        self.mines
    }

    open spec fn land_held(&self) -> i64 {
        self.land
    }

    fn land(&self) -> (r: i64) {
        self.land
    }

    open spec fn countries_held(&self) -> i64 {
        self.countries
    }

    fn countries(&self) -> (r: i64) {
        self.countries
    }

    open spec fn continents_held(&self) -> i64 {
        self.continents
    }

    fn continents(&self) -> (r: i64) {
        self.continents
    }

    open spec fn planets_held(&self) -> i64 {
        self.planets
    }

    fn planets(&self) -> (r: i64) {
        self.planets
    }

    open spec fn solar_systems_held(&self) -> i64 {
        self.solar_systems
    }

    fn solar_systems(&self) -> (r: i64) {
        self.solar_systems
    }

    open spec fn galaxies_held(&self) -> i64 {
        self.galaxies
    }

    fn galaxies(&self) -> (r: i64) {
        self.galaxies
    }

    open spec fn universes_held(&self) -> i64 {
        self.universes
    }

    fn universes(&self) -> (r: i64) {
        self.universes
    }

    open spec fn prestige_held(&self) -> i64 {
        self.prestige
    }

    fn prestige(&self) -> (r: i64) {
        self.prestige
    }
}

} // verus!
