use mirabel::base::{MoveDataSync, RawMoveData, SYNC_CTR_DEFAULT};
use mirabel::error::{
    ERR_FEATURE_UNSUPPORTED, ERR_INVALID_INPUT, ERR_INVALID_LEGACY, ERR_INVALID_MOVE,
    ERR_INVALID_OPTIONS, ERR_OK,
};
use mirabel::game::{create_game_methods, MoveCode};
use mirabel::game_init::GameInit;
use mirabel::instance::GameInstance;
use mirabel::nim::{example_metadata, Nim};

fn standard(opts: Option<&str>, state: Option<&str>) -> GameInit {
    GameInit::Standard {
        opts: opts.map(|s| s.to_string()),
        legacy: None,
        state: state.map(|s| s.to_string()),
    }
}

fn code_move(code: u64) -> MoveDataSync<RawMoveData> {
    MoveDataSync { md: RawMoveData { cl: code, data: None }, sync_ctr: SYNC_CTR_DEFAULT }
}

fn created(opts: Option<&str>, state: Option<&str>) -> GameInstance<Nim> {
    let mut g = GameInstance::<Nim>::new(SYNC_CTR_DEFAULT);
    assert_eq!(ERR_OK, g.create(&standard(opts, state)));
    g
}

fn state_of(g: &mut GameInstance<Nim>, player: u8) -> String {
    assert_eq!(ERR_OK, g.export_state(player));
    g.state_str().to_string()
}

fn move_codes(g: &mut GameInstance<Nim>, player: u8) -> Vec<u64> {
    let mut count: u32 = 0;
    assert_eq!(ERR_OK, g.get_concrete_moves(player, &mut count));
    let raw = g.moves_raw();
    assert_eq!(count as usize, raw.len());
    raw.iter()
        .map(|m| {
            assert!(m.data.is_none());
            m.cl
        })
        .collect()
}

#[test]
fn counting_game_scenario() {
    let mut g = created(Some("21 3"), None);
    assert_eq!("A 21", state_of(&mut g, 1));
    assert_eq!(vec![1, 2, 3], move_codes(&mut g, 1));
    assert_eq!(ERR_OK, g.make_move(1, &code_move(3)));
    assert_eq!("B 18", state_of(&mut g, 2));
    assert_eq!(ERR_INVALID_MOVE, g.make_move(2, &code_move(4)));
    assert!(!g.get_last_error().is_empty());
    assert_eq!("can subtract at most 3", g.get_last_error());
    assert_eq!("B 18", state_of(&mut g, 2));
}

#[test]
fn illegal_move_by_wrong_player() {
    let mut g = created(None, None);
    assert_eq!(ERR_INVALID_INPUT, g.is_legal_move(2, &code_move(1)));
    assert_eq!("this player is not to move", g.get_last_error());
    assert_eq!(ERR_INVALID_INPUT, g.is_legal_move(1, &code_move(0)));
    assert_eq!(ERR_OK, g.is_legal_move(1, &code_move(3)));
    assert_eq!("", g.get_last_error());
}

#[test]
fn big_move_refused_by_code_game() {
    let mut g = created(None, None);
    let mov = MoveDataSync { md: RawMoveData { cl: 0, data: Some(vec![]) }, sync_ctr: 0 };
    assert_eq!(ERR_INVALID_INPUT, g.make_move(1, &mov));
    assert_eq!("A 21", state_of(&mut g, 1));
}

#[test]
fn moves_only_for_player_to_move() {
    let mut g = created(Some("2 5"), None);
    assert_eq!(Vec::<u64>::new(), move_codes(&mut g, 2));
    assert_eq!(vec![1, 2], move_codes(&mut g, 1));
}

#[test]
fn clone_compares_equal_and_is_independent() {
    let g = created(Some("10 4"), Some("B 7"));
    let mut c = GameInstance::<Nim>::new(99);
    assert_eq!(ERR_OK, g.clone_to(&mut c));
    assert!(g.compare(&c));
    assert!(c.compare(&g));
    assert_eq!(SYNC_CTR_DEFAULT, c.sync_ctr());
    assert_eq!(ERR_OK, c.make_move(2, &code_move(2)));
    assert!(!g.compare(&c));
    let mut g = g;
    assert_eq!("B 7", state_of(&mut g, 1));
    assert_eq!("A 5", state_of(&mut c, 1));
}

#[test]
fn copy_from_makes_equal() {
    let mut a = created(None, None);
    let b = created(Some("9 2"), Some("b 4"));
    assert!(!a.compare(&b));
    assert_eq!(ERR_OK, a.copy_from(&b));
    assert!(a.compare(&b));
}

#[test]
fn destroy_twice_is_harmless() {
    let mut g = created(None, None);
    assert_eq!(ERR_OK, g.destroy());
    assert_eq!(ERR_OK, g.destroy());
    assert_eq!(SYNC_CTR_DEFAULT, g.sync_ctr());
}

#[test]
fn failed_create_can_be_destroyed() {
    let mut g = GameInstance::<Nim>::new(0);
    assert_eq!(ERR_INVALID_OPTIONS, g.create(&standard(Some("21 0"), None)));
    assert_eq!("maximum subtrahend is zero", g.get_last_error());
    assert_eq!(ERR_OK, g.destroy());
}

#[test]
fn failure_keeps_other_buffers() {
    let mut g = created(None, None);
    assert_eq!(ERR_OK, g.export_state(1));
    assert_eq!(ERR_OK, g.export_options(1));
    assert_eq!(ERR_OK, g.print(1));
    let mut n: u8 = 0;
    assert_eq!(ERR_OK, g.players_to_move(&mut n));
    assert_eq!(1, n);
    assert_eq!(ERR_OK, g.get_move_str(1, &code_move(2)));
    assert_eq!(ERR_OK, g.get_move_data(1, "3"));
    let mut count: u32 = 0;
    assert_eq!(ERR_OK, g.get_concrete_moves(1, &mut count));

    assert_eq!(ERR_INVALID_INPUT, g.import_state(Some("C 3")));
    assert_eq!("invalid player code", g.get_last_error());
    assert_eq!(ERR_INVALID_INPUT, g.get_move_data(1, "x"));
    assert!(!g.get_last_error().is_empty());
    assert_eq!(ERR_INVALID_INPUT, g.get_move_str(1, &MoveDataSync {
        md: RawMoveData { cl: 1, data: Some(vec![7]) },
        sync_ctr: 0,
    }));
    assert!(!g.get_last_error().is_empty());

    assert_eq!("A 21", g.state_str());
    assert_eq!("21 3", g.options_str());
    assert_eq!("A 21\n", g.print_str());
    assert_eq!("2", g.move_str());
    assert_eq!(&[1u8][..], g.players());
    assert_eq!(3, g.moves_raw().len());
    let slot = g.sync_raw().unwrap();
    assert_eq!(3, slot.md.cl);
    assert!(slot.md.data.is_none());
}

#[test]
fn move_text_is_read_and_bounded() {
    let mut g = created(None, None);
    g.set_sync_ctr(5);
    assert_eq!(ERR_OK, g.get_move_data(1, "2"));
    let slot = g.sync_raw().unwrap();
    assert_eq!(2, slot.md.cl);
    assert_eq!(5, slot.sync_ctr);
    assert_eq!(ERR_INVALID_MOVE, g.get_move_data(1, "4"));
    assert_eq!("can subtract at most 3", g.get_last_error());
    assert_eq!(ERR_INVALID_INPUT, g.get_move_data(1, ""));
    assert_eq!("move parsing error: cannot parse integer from empty string", g.get_last_error());
    assert_eq!(ERR_INVALID_INPUT, g.get_move_data(1, "70000"));
    assert_eq!("move parsing error: number too large to fit in target type", g.get_last_error());
    assert_eq!(ERR_OK, g.get_move_data(1, "+1"));
    assert_eq!(1, g.sync_raw().unwrap().md.cl);
}

#[test]
fn move_string_is_decimal() {
    let mut g = created(None, None);
    assert_eq!(ERR_OK, g.get_move_str(1, &code_move(1234567)));
    assert_eq!("1234567", g.move_str());
}

#[test]
fn players_and_results() {
    let mut g = created(Some("3 3"), None);
    let mut n: u8 = 9;
    assert_eq!(ERR_OK, g.get_results(&mut n));
    assert_eq!(0, n);
    assert_eq!(ERR_OK, g.make_move(1, &code_move(3)));
    assert_eq!(ERR_OK, g.players_to_move(&mut n));
    assert_eq!(0, n);
    assert_eq!(ERR_OK, g.get_results(&mut n));
    assert_eq!(1, n);
    assert_eq!(&[2u8][..], g.players());
    assert_eq!(ERR_INVALID_INPUT, g.is_legal_move(2, &code_move(1)));
    assert_eq!("game already over", g.get_last_error());
    let mut count: u8 = 0;
    assert_eq!(ERR_OK, g.player_count(&mut count));
    assert_eq!(2, count);
}

#[test]
fn import_state_forms() {
    let mut g = created(Some("30 4"), None);
    assert_eq!(ERR_OK, g.import_state(Some("  b   12  ")));
    assert_eq!("B 12", state_of(&mut g, 1));
    assert_eq!(ERR_OK, g.import_state(Some(" \t ")));
    assert_eq!("A 30", state_of(&mut g, 1));
    assert_eq!(ERR_OK, g.import_state(Some("B 1")));
    assert_eq!(ERR_OK, g.import_state(None));
    assert_eq!("A 30", state_of(&mut g, 1));
    assert_eq!(ERR_INVALID_INPUT, g.import_state(Some("A")));
    assert_eq!("missing counter value", g.get_last_error());
    assert_eq!(ERR_INVALID_INPUT, g.import_state(Some("AB 3")));
    assert_eq!(ERR_INVALID_INPUT, g.import_state(Some("a 3x")));
    assert_eq!("counter parsing error: invalid digit found in string", g.get_last_error());
    assert_eq!("A 30", state_of(&mut g, 1));
}

#[test]
fn create_forms() {
    let mut g = GameInstance::<Nim>::new(0);
    assert_eq!(ERR_OK, g.create(&GameInit::Default));
    assert_eq!("A 21", state_of(&mut g, 1));
    assert_eq!(ERR_INVALID_INPUT, g.create(&standard(Some(""), None)));
    assert_eq!("missing starting counter", g.get_last_error());
    assert_eq!(ERR_INVALID_INPUT, g.create(&standard(Some("21"), None)));
    assert_eq!("missing maximum subtrahend", g.get_last_error());
    assert_eq!(ERR_INVALID_INPUT, g.create(&standard(Some("x 3"), None)));
    assert_eq!("counter parsing error: invalid digit found in string", g.get_last_error());
    assert_eq!(ERR_INVALID_INPUT, g.create(&standard(Some("7 -1"), None)));
    assert_eq!("subtrahend parsing error: invalid digit found in string", g.get_last_error());
    let legacy = GameInit::Standard { opts: None, legacy: Some("x".to_string()), state: None };
    assert_eq!(ERR_INVALID_LEGACY, g.create(&legacy));
    assert_eq!(ERR_FEATURE_UNSUPPORTED, g.create(&GameInit::Serialized(vec![1, 2])));
    assert_eq!(ERR_OK, g.create(&standard(Some("5 2"), Some("B 3"))));
    assert_eq!("B 3", state_of(&mut g, 1));
    assert_eq!(ERR_OK, g.export_options(1));
    assert_eq!("5 2", g.options_str());
}

#[test]
fn unoffered_features_fail() {
    let mut g = created(None, None);
    assert_eq!(ERR_FEATURE_UNSUPPORTED, g.get_random_move(7));
    assert!(!g.get_last_error().is_empty());
    let mut count: u32 = 0;
    assert_eq!(ERR_FEATURE_UNSUPPORTED, g.get_actions(1, &mut count));
    assert_eq!(ERR_FEATURE_UNSUPPORTED, g.move_to_action(1, &code_move(1), 2));
    assert_eq!(ERR_FEATURE_UNSUPPORTED, g.redact_keep_state(&[1]));
}

#[test]
fn nim_table_entries() {
    let t = create_game_methods::<Nim>(example_metadata());
    assert_eq!("Nim", t.game_name);
    assert_eq!("Standard", t.variant_name);
    assert_eq!("mirabel_rs", t.impl_name);
    assert_eq!(0, t.version.major);
    assert_eq!(1, t.version.minor);
    assert!(t.features.error_strings);
    assert!(t.features.options);
    assert!(t.features.print);
    assert!(!t.features.big_moves);
    assert!(!t.features.random_moves);
    assert!(t.entries.export_options);
    assert!(t.entries.print);
    assert!(t.entries.create && t.entries.destroy && t.entries.get_last_error);
    assert!(!t.entries.get_random_move);
    assert!(!t.entries.get_concrete_move_probabilities);
    assert!(!t.entries.get_actions);
    assert!(!t.entries.move_to_action);
    assert!(!t.entries.redact_keep_state);
}

#[test]
fn move_code_slice() {
    let v = [MoveCode::new(4), MoveCode::new(0), MoveCode::new(u64::MAX)];
    assert_eq!(vec![4, 0, u64::MAX], MoveCode::slice_to_rust(&v));
}
