use clrpg::character::{
    CharacterObj, CharacterStats, CharacterStatus, HealthStat, RegStat, Timestamp,
};
use clrpg::commands::{Init, New, Wait};
use clrpg::dungeon::{create, reset, InitPlan};
use clrpg::error::GameError;
use clrpg::meta::{Meta, MetaStatus};
use clrpg::registry::create_new;
use clrpg::rng::{SessionLock, WordLists};
use clrpg::session::{print_status, run_away, wait_character, WaitOutcome};
use clrpg::store::Fetched;

fn character(name: &str, health: i32) -> CharacterObj {
    CharacterObj {
        id: "abcd1234".to_string(),
        name: name.to_string(),
        status: CharacterStatus::Healthy,
        created: Timestamp { secs: 0, nanos: 0 },
        stats: CharacterStats {
            health: HealthStat { max: 100, curr: health, temp: 0 },
            power: RegStat::new(5),
            block: RegStat::new(6),
            magic: RegStat::new(7),
            faith: RegStat::new(8),
            speed: RegStat::new(9),
        },
    }
}

fn meta(status: MetaStatus, current: Option<&str>) -> Meta {
    Meta { seed: 42, status, current: current.map(|s| s.to_string()) }
}

fn words() -> WordLists {
    WordLists {
        adjectives: vec!["Brave".to_string(), "Sly".to_string()],
        animals: vec!["Fox".to_string(), "Owl".to_string()],
    }
}

fn init_with_seed(seed: u64) -> InitPlan {
    let init = Init { force: false, reset: false, seed: Some(seed) };
    create(&init, &Ok(false)).unwrap()
}

fn wait(name: &str) -> Wait {
    Wait { name: name.to_string() }
}

const PHASES: [MetaStatus; 4] = [
    MetaStatus::HelpWanted,
    MetaStatus::OutsideTheDungeon,
    MetaStatus::InTheDungeon,
    MetaStatus::InCombat,
];

#[test]
fn end_to_end_zog() {
    let plan = init_with_seed(42);
    assert_eq!(plan.seed, 42);
    assert!(!plan.destroy);
    assert_eq!(plan.meta, Meta::new(42));

    let mut lock = SessionLock::new();
    let created = create_new(
        &New { name: Some("Zog".to_string()) },
        &Ok(true),
        &Ok(true),
        &Fetched::Found(plan.meta.clone()),
        &mut lock,
        Fetched::Found(plan.state),
        &vec![],
        &words(),
    );
    assert!(!lock.active());
    assert!(created.checkpoint.is_some());
    let zog = created.result.unwrap();
    assert_eq!(zog.name, "Zog");
    assert!(zog.is_alive());

    let waited = wait_character(&wait("Zog"), &Ok(true), Fetched::Found(zog.clone()), Fetched::Found(plan.meta.clone()));
    let m1 = match waited {
        Ok(WaitOutcome::Waiting { meta, replaced }) => {
            assert_eq!(replaced, None);
            meta
        }
        other => panic!("unexpected {:?}", other),
    };
    assert_eq!(m1.status, MetaStatus::OutsideTheDungeon);
    assert_eq!(m1.current, Some("Zog".to_string()));

    let ran = run_away(&Ok(true), Fetched::Found(m1)).unwrap();
    assert_eq!(ran.name, "Zog");
    assert_eq!(ran.from, MetaStatus::OutsideTheDungeon);
    assert_eq!(ran.meta.current, None);
    assert_eq!(ran.meta.status, MetaStatus::HelpWanted);

    let report = print_status(&Fetched::Found(ran.meta), Fetched::Missing).unwrap();
    assert_eq!(report.phase, MetaStatus::HelpWanted);
    assert!(report.current.is_none());
}

#[test]
fn wait_for_ghost_is_not_found() {
    let plan = init_with_seed(7);
    let before = plan.meta.clone();
    let r = wait_character(&wait("Ghost"), &Ok(true), Fetched::Missing, Fetched::Found(plan.meta.clone()));
    assert_eq!(r, Err(GameError::NotFound("Ghost".to_string())));
    assert_eq!(plan.meta, before);
}

#[test]
fn status_with_deleted_current_is_corrupt() {
    let m = meta(MetaStatus::OutsideTheDungeon, Some("Zog"));
    assert_eq!(print_status(&Fetched::Found(m), Fetched::Missing), Err(GameError::CorruptRecord));
    let m = meta(MetaStatus::InCombat, Some("Zog"));
    let r = print_status(&Fetched::Found(m), Fetched::Malformed("bad".to_string()));
    assert_eq!(r, Err(GameError::CorruptRecord));
}

#[test]
fn status_reports_current_character() {
    let m = meta(MetaStatus::InTheDungeon, Some("Zog"));
    let r = print_status(&Fetched::Found(m), Fetched::Found(character("Zog", 50))).unwrap();
    assert_eq!(r.phase, MetaStatus::InTheDungeon);
    assert_eq!(r.current.unwrap().name, "Zog");
}

#[test]
fn status_without_metadata_is_corrupt_state() {
    assert_eq!(print_status(&Fetched::Missing, Fetched::Missing), Err(GameError::CorruptState));
    let r = print_status(&Fetched::Unreadable("denied".to_string()), Fetched::Missing);
    assert_eq!(r, Err(GameError::IoError("denied".to_string())));
}

#[test]
fn wait_twice_is_idempotent() {
    for phase in PHASES {
        let m = meta(phase, None);
        let zog = character("Zog", 80);
        let first = wait_character(&wait("Zog"), &Ok(true), Fetched::Found(zog.clone()), Fetched::Found(m));
        let m1 = match first {
            Ok(WaitOutcome::Waiting { meta, .. }) => meta,
            other => panic!("unexpected {:?}", other),
        };
        let second = wait_character(&wait("Zog"), &Ok(true), Fetched::Found(zog), Fetched::Found(m1.clone()));
        assert_eq!(second, Ok(WaitOutcome::AlreadyWaiting("Zog".to_string())));
    }
}

#[test]
fn wait_already_waiting_in_any_phase() {
    for phase in PHASES {
        let m = meta(phase, Some("Zog"));
        let r = wait_character(&wait("Zog"), &Ok(true), Fetched::Found(character("Zog", 1)), Fetched::Found(m));
        assert_eq!(r, Ok(WaitOutcome::AlreadyWaiting("Zog".to_string())));
    }
}

#[test]
fn wait_dead_character_fails_in_every_phase() {
    for phase in PHASES {
        for current in [None, Some("Zog"), Some("Other")] {
            let m = meta(phase, current);
            let r = wait_character(&wait("Zog"), &Ok(true), Fetched::Found(character("Zog", 0)), Fetched::Found(m));
            assert_eq!(r, Err(GameError::CharacterDead("Zog".to_string())));
        }
    }
    let r = wait_character(
        &wait("Zog"),
        &Ok(true),
        Fetched::Found(character("Zog", -5)),
        Fetched::Missing,
    );
    assert_eq!(r, Err(GameError::CharacterDead("Zog".to_string())));
}

#[test]
fn wait_replaces_one_still_outside() {
    let m = meta(MetaStatus::OutsideTheDungeon, Some("Other"));
    let r = wait_character(&wait("Zog"), &Ok(true), Fetched::Found(character("Zog", 10)), Fetched::Found(m));
    match r {
        Ok(WaitOutcome::Waiting { meta, replaced }) => {
            assert_eq!(replaced, Some("Other".to_string()));
            assert_eq!(meta.current, Some("Zog".to_string()));
            assert_eq!(meta.status, MetaStatus::OutsideTheDungeon);
            assert_eq!(meta.seed, 42);
        }
        other => panic!("unexpected {:?}", other),
    }
}

#[test]
fn wait_while_another_adventures_fails() {
    for phase in [MetaStatus::InTheDungeon, MetaStatus::InCombat, MetaStatus::HelpWanted] {
        let m = meta(phase, Some("Other"));
        let r = wait_character(&wait("Zog"), &Ok(true), Fetched::Found(character("Zog", 10)), Fetched::Found(m));
        assert_eq!(r, Err(GameError::AlreadyAdventuring("Other".to_string())));
    }
}

#[test]
fn wait_without_session_root() {
    let m = meta(MetaStatus::HelpWanted, None);
    let r = wait_character(&wait("Zog"), &Ok(false), Fetched::Found(character("Zog", 10)), Fetched::Found(m.clone()));
    assert_eq!(r, Err(GameError::NotInitialized));
    let r = wait_character(&wait("Zog"), &Err("io".to_string()), Fetched::Missing, Fetched::Found(m));
    assert_eq!(r, Err(GameError::IoError("io".to_string())));
}

#[test]
fn wait_with_corrupt_metadata() {
    let r = wait_character(&wait("Zog"), &Ok(true), Fetched::Found(character("Zog", 10)), Fetched::Missing);
    assert_eq!(r, Err(GameError::CorruptState));
    let r = wait_character(
        &wait("Zog"),
        &Ok(true),
        Fetched::Found(character("Zog", 10)),
        Fetched::Malformed("eof".to_string()),
    );
    assert_eq!(r, Err(GameError::CorruptState));
}

#[test]
fn run_after_wait_from_every_phase() {
    for phase in PHASES {
        let m = meta(phase, None);
        let m1 = match wait_character(&wait("Zog"), &Ok(true), Fetched::Found(character("Zog", 3)), Fetched::Found(m)) {
            Ok(WaitOutcome::Waiting { meta, .. }) => meta,
            other => panic!("unexpected {:?}", other),
        };
        let ran = run_away(&Ok(true), Fetched::Found(m1)).unwrap();
        assert_eq!(ran.meta, Meta { seed: 42, status: MetaStatus::HelpWanted, current: None });
        assert_eq!(ran.from, MetaStatus::OutsideTheDungeon);
    }
}

#[test]
fn run_reports_phase_fled_from() {
    for phase in [MetaStatus::OutsideTheDungeon, MetaStatus::InTheDungeon, MetaStatus::InCombat] {
        let ran = run_away(&Ok(true), Fetched::Found(meta(phase, Some("Zog")))).unwrap();
        assert_eq!(ran.from, phase);
        assert_eq!(ran.name, "Zog");
        assert_eq!(ran.meta.current, None);
        assert_eq!(ran.meta.status, MetaStatus::HelpWanted);
    }
}

#[test]
fn run_with_no_one_active() {
    for phase in PHASES {
        let r = run_away(&Ok(true), Fetched::Found(meta(phase, None)));
        assert_eq!(r, Err(GameError::NoOneActive));
    }
}

#[test]
fn run_while_help_wanted_is_inconsistent() {
    let r = run_away(&Ok(true), Fetched::Found(meta(MetaStatus::HelpWanted, Some("Zog"))));
    assert_eq!(r, Err(GameError::InvalidTransition));
}

#[test]
fn run_without_session() {
    assert_eq!(run_away(&Ok(false), Fetched::Missing), Err(GameError::NotInitialized));
    assert_eq!(run_away(&Ok(true), Fetched::Missing), Err(GameError::CorruptState));
}

#[test]
fn init_refuses_existing_dungeon() {
    let init = Init { force: false, reset: false, seed: Some(1) };
    assert_eq!(create(&init, &Ok(true)), Err(GameError::DungeonExists));
    let r = create(&init, &Err("denied".to_string()));
    assert_eq!(r, Err(GameError::IoError("denied".to_string())));
}

#[test]
fn init_force_replaces_dungeon() {
    let init = Init { force: true, reset: false, seed: Some(9) };
    let plan = create(&init, &Ok(true)).unwrap();
    assert!(plan.destroy);
    assert_eq!(plan.seed, 9);
    assert_eq!(plan.state, init_with_seed(9).state);
}

#[test]
fn init_without_seed_draws_one() {
    let init = Init { force: false, reset: false, seed: None };
    let plan = create(&init, &Ok(false)).unwrap();
    assert_eq!(plan.meta.seed, plan.seed);
    assert_eq!(plan.state, init_with_seed(plan.seed).state);
}

#[test]
fn reset_replays_stored_seed() {
    let first = init_with_seed(42);
    let mut init = Init { force: false, reset: true, seed: None };
    let plan = reset(&mut init, &Ok(true), Fetched::Found(meta(MetaStatus::InCombat, Some("Zog")))).unwrap();
    assert_eq!(init.seed, Some(42));
    assert!(plan.destroy);
    assert_eq!(plan.state, first.state);
    assert_eq!(plan.meta, Meta::new(42));
}

#[test]
fn reset_failures() {
    let mut init = Init { force: false, reset: true, seed: None };
    assert_eq!(reset(&mut init, &Ok(false), Fetched::Missing), Err(GameError::NotInitialized));
    assert_eq!(reset(&mut init, &Ok(true), Fetched::Missing), Err(GameError::CorruptState));
    assert_eq!(init.seed, None);
    let mut plain = Init { force: false, reset: false, seed: None };
    let r = reset(&mut plain, &Ok(true), Fetched::Found(Meta::new(5)));
    assert_eq!(r, Err(GameError::ResetFailed));
    assert_eq!(plain.seed, Some(5));
}

#[test]
fn status_with_unreadable_record() {
    let m = meta(MetaStatus::InTheDungeon, Some("Zog"));
    let r = print_status(&Fetched::Found(m), Fetched::Unreadable("denied".to_string()));
    assert_eq!(r, Err(GameError::IoError("denied".to_string())));
}
