use eyes2::creature::Creature;
use eyes2::entity::{move_pos, Cell, Coord, Direction, Entity};
use eyes2::genotype::{new_genotype, BadGenomeError, GilesGenotype, Processor, RandomGenotype};
use eyes2::grass::Grass;
use eyes2::rng::Rand;
use eyes2::settings::Settings;
use eyes2::world::World;

fn test_config() -> Settings {
    Settings {
        size: 10,
        grass_count: 0,
        creature_count: 0,
        grass_rate: 0,
        grass_energy: 50,
        creature_initial_energy: (50, 100),
        creature_idle_energy: 2,
        creature_move_energy: 3,
        creature_move_rate: 0,
        creature_reproduction_energy: 1000,
    }
}

fn giles_creature(coord: Coord, energy: i64, config: Settings, seed: u64) -> Creature {
    Creature {
        id: 0,
        coord,
        code: Processor::Giles(GilesGenotype { energy }),
        config,
        rng: Rand { state: seed },
    }
}

#[test]
fn creature_dies_when_energy_runs_out() {
    // grid size 10, one creature at (5,5) with energy 1, idle cost 2: after
    // one tick the creature is gone and its cell is empty
    let cfg = test_config();
    let mut w = World::new(cfg, 7);
    assert!(w.spawn_creature(giles_creature(Coord { x: 5, y: 5 }, 1, cfg, 11)));
    assert_eq!(w.creature_count(), 1);
    w.tick();
    assert_eq!(w.creature_count(), 0);
    assert!(matches!(w.get_cell(Coord { x: 5, y: 5 }), Cell::Empty));
}

#[test]
fn reproduction_splits_energy_and_places_child_west() {
    // energy 100, idle cost 50, threshold 50: the creature reproduces; the
    // parent keeps (100 - 50) / 2 = 25 at (5,5), the child gets 25 at (4,5)
    let mut cfg = test_config();
    cfg.creature_idle_energy = 50;
    cfg.creature_reproduction_energy = 50;
    let mut w = World::new(cfg, 7);
    assert!(w.spawn_creature(giles_creature(Coord { x: 5, y: 5 }, 100, cfg, 11)));
    w.tick();
    assert_eq!(w.creature_count(), 2);
    assert_eq!(w.creature_coord(1), Some(Coord { x: 5, y: 5 }));
    assert_eq!(w.creature_energy(1), Some(25));
    assert_eq!(w.creature_coord(2), Some(Coord { x: 4, y: 5 }));
    assert_eq!(w.creature_energy(2), Some(25));
    assert!(matches!(w.get_cell(Coord { x: 4, y: 5 }), Cell::Creature(2)));
}

#[test]
fn reproduction_at_west_wall_places_child_east() {
    let mut cfg = test_config();
    cfg.creature_idle_energy = 50;
    cfg.creature_reproduction_energy = 50;
    let mut w = World::new(cfg, 7);
    assert!(w.spawn_creature(giles_creature(Coord { x: 0, y: 5 }, 100, cfg, 11)));
    w.tick();
    assert_eq!(w.creature_count(), 2);
    assert_eq!(w.creature_coord(1), Some(Coord { x: 0, y: 5 }));
    assert_eq!(w.creature_coord(2), Some(Coord { x: 1, y: 5 }));
}

#[test]
fn blocked_move_is_dropped_but_still_charged() {
    // the mover is surrounded by grass on all eight sides, so whatever
    // direction it draws, the destination is occupied: the move is dropped,
    // the coordinate is unchanged, and the move cost is still deducted
    let mut cfg = test_config();
    cfg.creature_move_rate = 1000;
    let mut w = World::new(cfg, 7);
    assert!(w.spawn_creature(giles_creature(Coord { x: 5, y: 5 }, 10, cfg, 11)));
    for dx in -1..=1 {
        for dy in -1..=1 {
            if dx != 0 || dy != 0 {
                w.add_grass(Coord { x: 5 + dx, y: 5 + dy });
            }
        }
    }
    w.tick();
    assert_eq!(w.creature_coord(1), Some(Coord { x: 5, y: 5 }));
    assert!(matches!(w.get_cell(Coord { x: 5, y: 5 }), Cell::Creature(1)));
    // idle cost 2 plus move cost 3
    assert_eq!(w.creature_energy(1), Some(5));
    // the grass ring is untouched
    assert!(matches!(w.get_cell(Coord { x: 4, y: 5 }), Cell::Grass(_)));
}

#[test]
fn free_move_changes_cell_consistently() {
    let mut cfg = test_config();
    cfg.creature_move_rate = 1000;
    let mut w = World::new(cfg, 7);
    assert!(w.spawn_creature(giles_creature(Coord { x: 5, y: 5 }, 10, cfg, 11)));
    w.tick();
    let pos = w.creature_coord(1).unwrap();
    // one step in some compass direction, clamped to the grid
    assert!((pos.x - 5).abs() <= 1 && (pos.y - 5).abs() <= 1);
    assert!(matches!(w.get_cell(pos), Cell::Creature(1)));
    if pos != (Coord { x: 5, y: 5 }) {
        assert!(matches!(w.get_cell(Coord { x: 5, y: 5 }), Cell::Empty));
        assert_eq!(w.creature_energy(1), Some(5));
    }
}

#[test]
fn identical_seeds_give_identical_runs() {
    let mut cfg = test_config();
    cfg.grass_count = 12;
    cfg.creature_count = 6;
    cfg.grass_rate = 300;
    cfg.creature_move_rate = 700;
    cfg.creature_reproduction_energy = 60;
    let proto = new_genotype("giles").unwrap();
    let mut w1 = World::new(cfg, 99);
    let mut w2 = World::new(cfg, 99);
    w1.populate(proto);
    w2.populate(proto);
    for _ in 0..8 {
        w1.tick();
        w2.tick();
    }
    assert_eq!(w1.creature_count(), w2.creature_count());
    for id in 1..40u64 {
        assert_eq!(w1.creature_coord(id), w2.creature_coord(id));
        assert_eq!(w1.creature_energy(id), w2.creature_energy(id));
    }
    for x in 0..10 {
        for y in 0..10 {
            let a = w1.get_cell(Coord { x, y });
            let b = w2.get_cell(Coord { x, y });
            assert_eq!(format!("{:?}", a), format!("{:?}", b));
        }
    }
}

#[test]
fn regrowth_places_one_grass_block() {
    // an all-empty grid with regrowth certain: after one tick exactly one
    // cell holds grass. The seed is far above the roll bound, so a draw that
    // simply handed the state back would place nothing.
    let mut cfg = test_config();
    cfg.grass_rate = 1000;
    let mut w = World::new(cfg, u64::MAX - 3);
    w.tick();
    let mut grass = 0;
    for x in 0..10 {
        for y in 0..10 {
            if matches!(w.get_cell(Coord { x, y }), Cell::Grass(_)) {
                grass += 1;
            }
        }
    }
    assert_eq!(grass, 1);
}

#[test]
fn populate_seeds_the_configured_population() {
    let mut cfg = test_config();
    cfg.grass_count = 5;
    cfg.creature_count = 4;
    let proto = new_genotype("giles").unwrap();
    let mut w = World::new(cfg, 42);
    w.populate(proto);
    // collisions can only lower the counts
    assert!(w.creature_count() <= 4);
    assert!(w.creature_count() >= 1);
    for id in 1..=w.creature_count() {
        let e = w.creature_energy(id).unwrap();
        assert!((50..100).contains(&e));
        let c = w.creature_coord(id).unwrap();
        assert!((0..10).contains(&c.x) && (0..10).contains(&c.y));
    }
}

#[test]
fn eating_adds_energy() {
    let cfg = test_config();
    let mut c = giles_creature(Coord { x: 1, y: 1 }, 7, cfg, 3);
    c.eat(50);
    assert_eq!(c.energy(), 57);
}

#[test]
fn move_pos_clamps_at_edges() {
    assert_eq!(move_pos(Coord { x: 0, y: 0 }, Direction::NorthWest, 10), Coord { x: 0, y: 0 });
    assert_eq!(move_pos(Coord { x: 9, y: 9 }, Direction::SouthEast, 10), Coord { x: 9, y: 9 });
    assert_eq!(move_pos(Coord { x: 5, y: 5 }, Direction::East, 10), Coord { x: 6, y: 5 });
    assert_eq!(move_pos(Coord { x: 5, y: 5 }, Direction::North, 10), Coord { x: 5, y: 4 });
}

#[test]
fn genotype_factory_builds_known_variants() {
    assert_eq!(new_genotype("giles"), Ok(Processor::Giles(GilesGenotype { energy: 0 })));
    assert_eq!(new_genotype("random"), Ok(Processor::Random(RandomGenotype { energy: 0 })));
}

#[test]
fn genotype_factory_rejects_unknown_names() {
    assert_eq!(new_genotype("wobble"), Err(BadGenomeError::InvalidGenome));
    assert_eq!(new_genotype(""), Err(BadGenomeError::InvalidGenome));
}

#[test]
fn entities_expose_kind_identity_and_position() {
    assert!(matches!(Creature::cell_type(5), Cell::Creature(5)));
    assert!(matches!(Grass::cell_type(9), Cell::Grass(9)));
    let cfg = test_config();
    let c = giles_creature(Coord { x: 2, y: 3 }, 10, cfg, 1);
    assert_eq!(c.id(), 0);
    assert_eq!(c.coord(), Coord { x: 2, y: 3 });
    let g = Grass::new(4, Coord { x: 1, y: 8 }, 50);
    assert_eq!(g.id(), 4);
    assert_eq!(g.coord(), Coord { x: 1, y: 8 });
}

#[test]
fn ids_are_unique_and_increase() {
    let mut cfg = test_config();
    cfg.creature_idle_energy = 1;
    cfg.creature_reproduction_energy = 10;
    let mut w = World::new(cfg, 5);
    assert!(w.spawn_creature(giles_creature(Coord { x: 3, y: 3 }, 200, cfg, 8)));
    assert!(w.spawn_creature(giles_creature(Coord { x: 7, y: 7 }, 200, cfg, 9)));
    for _ in 0..6 {
        w.tick();
    }
    let mut seen = vec![];
    for id in 1..200u64 {
        if w.creature_coord(id).is_some() {
            assert!(!seen.contains(&id));
            seen.push(id);
        }
    }
    assert_eq!(seen.len() as u64, w.creature_count());
}
