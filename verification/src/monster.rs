//! Monster and spawner content: the data a spawned agent starts from, and
//! the generators that draw one at random from the stock lists.

use vstd::prelude::*;
use crate::components::CombatStats;
use crate::geometry::Point;
use crate::rng::rng_roll_dice;

verus! {

/// An RGB color as plain channel values; rendering converts it to whatever
/// the display needs.
#[derive(Clone, Copy, Debug, PartialEq, Eq, Structural)]
pub struct Color {
    pub r: u8,
    pub g: u8,
    pub b: u8,
}

/// Everything needed to spawn one monster: its glyph, name, colors,
/// position and optional combat numbers.
#[derive(Clone, Debug)]
pub struct MonsterSpec {
    pub glyph: char,
    pub name: String,
    pub fg: Color,
    pub bg: Color,
    pub point: Point,
    pub combat_stats: Option<CombatStats>,
}

/// Everything needed to spawn one spawner: its own appearance and combat
/// numbers, plus the spec of what it spawns and how often.
#[derive(Clone, Debug)]
pub struct SpawnerSpec {
    pub glyph: char,
    pub name: String,
    pub fg: Color,
    pub bg: Color,
    pub point: Point,
    pub combat_stats: CombatStats,
    pub spawn_spec: MonsterSpec,
    pub spawn_per: i32,
    pub spawn_max: i32,
}

/// A source of spawnable content, one draw at a time. Each implementation
/// says through its spec functions which values it can hand out, and the
/// positioned draw additionally pins the requested position.
pub trait MonsterGenerator<T> {
    spec fn spec_can_generate(&self, value: T) -> bool;

    spec fn spec_can_generate_at(&self, value: T, x: i32, y: i32) -> bool;

    fn gen_one(&self, rng: &mut rltk::RandomNumberGenerator) -> (r: T)
        ensures
            self.spec_can_generate(r),
    ;

    fn gen_one_with_pos(&self, rng: &mut rltk::RandomNumberGenerator, x: i32, y: i32) -> (r: T)
        ensures
            self.spec_can_generate_at(r, x, y),
    ;
}

pub open spec fn spec_red() -> Color {
    Color { r: 255, g: 0, b: 0 }
}

pub open spec fn spec_black() -> Color {
    Color { r: 0, g: 0, b: 0 }
}

/// The first stock monster, field by field.
pub open spec fn spec_repressionist(m: MonsterSpec) -> bool {
    &&& m.glyph == 'r'
    &&& m.name@ == "Repressionist"@
    &&& m.fg == spec_red()
    &&& m.bg == spec_black()
    &&& m.point == (Point { x: 0, y: 0 })
    &&& m.combat_stats == Some(CombatStats { max_hp: 16, hp: 16, defense: 1, power: 4 })
}

/// The second stock monster, field by field.
pub open spec fn spec_orgy_hunter(m: MonsterSpec) -> bool {
    &&& m.glyph == 'o'
    &&& m.name@ == "Orgy Hunter"@
    &&& m.fg == spec_red()
    &&& m.bg == spec_black()
    &&& m.point == (Point { x: 0, y: 0 })
    &&& m.combat_stats == Some(CombatStats { max_hp: 16, hp: 16, defense: 1, power: 4 })
}

/// Membership in the stock monster list.
pub open spec fn spec_stock_monster(m: MonsterSpec) -> bool {
    spec_repressionist(m) || spec_orgy_hunter(m)
}

/// What every spawnling shares: red on black at the origin, with the weak
/// stat block.
pub open spec fn spec_spawnling(m: MonsterSpec, glyph: char, name: Seq<char>) -> bool {
    &&& m.glyph == glyph
    &&& m.name@ == name
    &&& m.fg == spec_red()
    &&& m.bg == spec_black()
    &&& m.point == (Point { x: 0, y: 0 })
    &&& m.combat_stats == Some(CombatStats { max_hp: 2, hp: 2, defense: 1, power: 1 })
}

/// What every stock spawner shares besides its names and glyphs.
pub open spec fn spec_spawner_common(s: SpawnerSpec) -> bool {
    &&& s.fg == spec_red()
    &&& s.bg == spec_black()
    &&& s.point == (Point { x: 0, y: 0 })
    &&& s.combat_stats == (CombatStats { max_hp: 2, hp: 2, defense: 1, power: 1 })
    &&& s.spawn_max == 5
    &&& s.spawn_per == 1
}

/// The first stock spawner, field by field.
pub open spec fn spec_orc_spawner(s: SpawnerSpec) -> bool {
    &&& s.glyph == 'P'
    &&& s.name@ == "Orc Spawner"@
    &&& spec_spawner_common(s)
    &&& spec_spawnling(s.spawn_spec, 'p', "Orc Spawnling"@)
}

/// The second stock spawner, field by field.
pub open spec fn spec_cow_spawner(s: SpawnerSpec) -> bool {
    &&& s.glyph == 'C'
    &&& s.name@ == "Cow Spawner"@
    &&& spec_spawner_common(s)
    &&& spec_spawnling(s.spawn_spec, 'c', "Cow Spawnling"@)
}

/// Membership in the stock spawner list.
pub open spec fn spec_stock_spawner(s: SpawnerSpec) -> bool {
    spec_orc_spawner(s) || spec_cow_spawner(s)
}

fn red() -> (r: Color)
    ensures
        r == spec_red(),
{
    Color { r: 255, g: 0, b: 0 }
}

fn black() -> (r: Color)
    ensures
        r == spec_black(),
{
    Color { r: 0, g: 0, b: 0 }
}

fn default_monsters() -> (r: Vec<MonsterSpec>)
    ensures
        r@.len() == 2,
        spec_repressionist(r@[0]),
        spec_orgy_hunter(r@[1]),
{
    let mut r: Vec<MonsterSpec> = Vec::new();
    r.push(
        MonsterSpec {
            glyph: 'r',
            name: "Repressionist".to_owned(),
            fg: red(),
            bg: black(),
            point: Point { x: 0, y: 0 },
            combat_stats: Some(CombatStats { max_hp: 16, hp: 16, defense: 1, power: 4 }),
        },
    );
    r.push(
        MonsterSpec {
            glyph: 'o',
            name: "Orgy Hunter".to_owned(),
            fg: red(),
            bg: black(),
            point: Point { x: 0, y: 0 },
            combat_stats: Some(CombatStats { max_hp: 16, hp: 16, defense: 1, power: 4 }),
        },
    );
    r
}

fn spawnling(glyph: char, name: &str) -> (r: MonsterSpec)
    ensures
        spec_spawnling(r, glyph, name@),
{
    MonsterSpec {
        glyph,
        name: name.to_owned(),
        fg: red(),
        bg: black(),
        point: Point { x: 0, y: 0 },
        combat_stats: Some(CombatStats { max_hp: 2, hp: 2, defense: 1, power: 1 }),
    }
}

fn default_spawners() -> (r: Vec<SpawnerSpec>)
    ensures
        r@.len() == 2,
        spec_orc_spawner(r@[0]),
        spec_cow_spawner(r@[1]),
{
    let mut r: Vec<SpawnerSpec> = Vec::new();
    r.push(
        SpawnerSpec {
            glyph: 'P',
            name: "Orc Spawner".to_owned(),
            fg: red(),
            bg: black(),
            point: Point { x: 0, y: 0 },
            combat_stats: CombatStats { max_hp: 2, hp: 2, defense: 1, power: 1 },
            spawn_max: 5,
            spawn_per: 1,
            spawn_spec: spawnling('p', "Orc Spawnling"),
        },
    );
    r.push(
        SpawnerSpec {
            glyph: 'C',
            name: "Cow Spawner".to_owned(),
            fg: red(),
            bg: black(),
            point: Point { x: 0, y: 0 },
            combat_stats: CombatStats { max_hp: 2, hp: 2, defense: 1, power: 1 },
            spawn_max: 5,
            spawn_per: 1,
            spawn_spec: spawnling('c', "Cow Spawnling"),
        },
    );
    r
}

/// Draws from the stock monster list.
pub struct DefaultMonsterGenerator;

impl MonsterGenerator<MonsterSpec> for DefaultMonsterGenerator {
    open spec fn spec_can_generate(&self, value: MonsterSpec) -> bool {
        spec_stock_monster(value)
    }

    open spec fn spec_can_generate_at(&self, value: MonsterSpec, x: i32, y: i32) -> bool {
        exists|m: MonsterSpec|
            spec_stock_monster(m) && value == (MonsterSpec { point: Point { x, y }, ..m })
    }

    fn gen_one(&self, rng: &mut rltk::RandomNumberGenerator) -> MonsterSpec {
        let mut specs = default_monsters();
        let len = (specs.len() - 1) as i32;
        let i = rng_roll_dice(rng, 1, len);
        specs.remove(i as usize)
    }

    fn gen_one_with_pos(&self, rng: &mut rltk::RandomNumberGenerator, x: i32, y: i32)
        -> MonsterSpec {
        let mut drawn = self.gen_one(rng);
        let ghost m0 = drawn;
        drawn.point.x = x;
        drawn.point.y = y;
        proof {
            assert(drawn == (MonsterSpec { point: Point { x, y }, ..m0 }));
        }
        drawn
    }
}

/// Draws from the stock spawner list.
pub struct DefaultSpawnerGenerator;

impl MonsterGenerator<SpawnerSpec> for DefaultSpawnerGenerator {
    open spec fn spec_can_generate(&self, value: SpawnerSpec) -> bool {
        spec_stock_spawner(value)
    }

    open spec fn spec_can_generate_at(&self, value: SpawnerSpec, x: i32, y: i32) -> bool {
        exists|s: SpawnerSpec|
            spec_stock_spawner(s) && value == (SpawnerSpec { point: Point { x, y }, ..s })
    }

    fn gen_one(&self, rng: &mut rltk::RandomNumberGenerator) -> SpawnerSpec {
        let mut specs = default_spawners();
        let len = (specs.len() - 1) as i32;
        let i = rng_roll_dice(rng, 1, len);
        specs.remove(i as usize)
    }

    fn gen_one_with_pos(&self, rng: &mut rltk::RandomNumberGenerator, x: i32, y: i32)
        -> SpawnerSpec {
        let mut drawn = self.gen_one(rng);
        let ghost s0 = drawn;
        drawn.point.x = x;
        drawn.point.y = y;
        proof {
            assert(drawn == (SpawnerSpec { point: Point { x, y }, ..s0 }));
        }
        drawn
    }
}

} // verus!
