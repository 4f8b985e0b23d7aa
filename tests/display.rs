use clrpg::character::{CharacterObj, CharacterStats, CharacterStatus, HealthStat, HeartBar, RegStat, Timestamp};
use clrpg::commands::{Door, NarrateSpeed};
use clrpg::error::GameError;
use clrpg::meta::{Meta, MetaStatus};
use clrpg::narration::{line_breaks, process_door, DEFAULT_WRAPPING};
use clrpg::store::{require_char, require_file, require_file_strict, require_root, Fetched};

#[test]
fn hearts_full_health() {
    let h = HealthStat::new(100);
    assert_eq!(h.hearts(), HeartBar { full: 20, bonus: 0, empty: 0 });
}

#[test]
fn hearts_with_bonus_and_loss() {
    let h = HealthStat { max: 100, curr: 42, temp: 10 };
    assert_eq!(h.hearts(), HeartBar { full: 9, bonus: 2, empty: 9 });
    let h = HealthStat { max: 100, curr: 0, temp: 0 };
    assert_eq!(h.hearts(), HeartBar { full: 0, bonus: 0, empty: 20 });
    let h = HealthStat { max: 12, curr: -3, temp: 4 };
    assert_eq!(h.hearts(), HeartBar { full: 0, bonus: 1, empty: 2 });
}

#[test]
fn attribute_value_with_modifiers() {
    let r = RegStat { max: 10, temp: vec![(2, 1), (-3, 1)] };
    assert_eq!(r.current(), 9);
    assert_eq!(RegStat::new(7).current(), 7);
}

#[test]
fn life_string() {
    let mut c = CharacterObj {
        id: "x".to_string(),
        name: "Zog".to_string(),
        status: CharacterStatus::Healthy,
        created: Timestamp { secs: 0, nanos: 0 },
        stats: CharacterStats {
            health: HealthStat::new(100),
            power: RegStat::new(1),
            block: RegStat::new(1),
            magic: RegStat::new(1),
            faith: RegStat::new(1),
            speed: RegStat::new(1),
        },
    };
    assert_eq!(c.get_life_string(), "ALIVE");
    assert_eq!(c.get_name(), "Zog");
    c.stats.health.curr = 0;
    assert!(!c.is_alive());
    assert_eq!(c.get_life_string(), " DEAD");
    assert_eq!(c.status.label(), "HEALTHY");
}

#[test]
fn phase_texts() {
    assert_eq!(MetaStatus::HelpWanted.title(), "* Help Wanted! *");
    assert_eq!(MetaStatus::InCombat.title(), "IN COMBAT");
    assert_eq!(MetaStatus::OutsideTheDungeon.detail(), Some("Preparing for the dive..."));
    assert_eq!(MetaStatus::InTheDungeon.detail(), None);
}

#[test]
fn door_defaults() {
    let n = process_door(&Door { narrate_speed: None, wrapping: None });
    assert_eq!(n.speed, NarrateSpeed::Norm);
    assert_eq!(n.wrapping, DEFAULT_WRAPPING);
    assert_eq!(n.wrapping, 75);
    let n = process_door(&Door { narrate_speed: Some(NarrateSpeed::Fast), wrapping: Some(20) });
    assert_eq!(n.speed, NarrateSpeed::Fast);
    assert_eq!(n.wrapping, 20);
    assert_eq!(NarrateSpeed::Slow.delay_ms(), 80);
    assert_eq!(NarrateSpeed::Norm.delay_ms(), 40);
    assert_eq!(NarrateSpeed::Fast.delay_ms(), 20);
}

#[test]
fn narration_breaks_lines() {
    let words: Vec<String> = ["aaa", "bb", "cccc", "d", ""].iter().map(|s| s.to_string()).collect();
    assert_eq!(line_breaks(&words, 5), vec![false, false, true, false, false]);
    assert_eq!(line_breaks(&words, 0), vec![true; 5]);
    assert_eq!(line_breaks(&words, usize::MAX), vec![false; 5]);
    assert!(line_breaks(&vec![], 5).is_empty());
}

#[test]
fn strict_reads() {
    assert_eq!(require_file_strict(Fetched::Found(3u128)), Ok(3));
    assert_eq!(require_file_strict::<u128>(Fetched::Missing), Err(GameError::CorruptState));
    assert_eq!(
        require_file_strict::<u128>(Fetched::Malformed("x".to_string())),
        Err(GameError::CorruptState)
    );
    assert_eq!(
        require_file_strict::<u128>(Fetched::Unreadable("e".to_string())),
        Err(GameError::IoError("e".to_string()))
    );
}

#[test]
fn lenient_reads_consult_metadata() {
    let sound = Fetched::Found(Meta::new(1));
    assert_eq!(require_file::<u8>(Fetched::Missing, &sound), Err(GameError::CorruptRecord));
    assert_eq!(require_file::<u8>(Fetched::Missing, &Fetched::Missing), Err(GameError::NotInitialized));
    assert_eq!(
        require_file::<u8>(Fetched::Missing, &Fetched::Malformed("m".to_string())),
        Err(GameError::CorruptState)
    );
    assert_eq!(
        require_file::<u8>(Fetched::Malformed("x".to_string()), &Fetched::Unreadable("e".to_string())),
        Err(GameError::IoError("e".to_string()))
    );
    assert_eq!(
        require_file::<u8>(Fetched::Unreadable("r".to_string()), &sound),
        Err(GameError::IoError("r".to_string()))
    );
    assert_eq!(require_file(Fetched::Found(5u8), &Fetched::Missing), Ok(5));
}

#[test]
fn root_and_folder_probes() {
    assert_eq!(require_root(&Ok(true)), Ok(()));
    assert_eq!(require_root(&Ok(false)), Err(GameError::NotInitialized));
    let sound = Fetched::Found(Meta::new(1));
    assert_eq!(require_char(&Ok(true), &Fetched::Missing), Ok(()));
    assert_eq!(require_char(&Ok(false), &sound), Err(GameError::CorruptRecord));
    assert_eq!(require_char(&Err("e".to_string()), &sound), Err(GameError::IoError("e".to_string())));
}

#[test]
fn new_meta_is_idle() {
    let m = Meta::new(9);
    assert_eq!(m.seed, 9);
    assert_eq!(m.status, MetaStatus::OutsideTheDungeon);
    assert_eq!(m.current, None);
}
