use mirabel::base::{MoveDataSync, RawMoveData, MOVE_NONE, SYNC_CTR_DEFAULT};
use mirabel::event::{Event, EventAny, EventEnum, EventPayload, EventType, MoveData};
use mirabel::game::{MixedMove, MixedMoveRust, MoveData as _};
use mirabel::sdl_event::{
    sdl_button_mask, SDLEventEnum, SdlMouseButtonEvent, SdlMouseWheelEvent, SDL_BUTTON_LEFT,
    SDL_BUTTON_RIGHT, SDL_BUTTON_X2,
};

fn round_trip(m: MoveData) -> MoveData {
    let raw = m.into_raw();
    MoveData::from_ref(&raw)
}

#[test]
fn empty_variable_move_round_trip() {
    let raw = MoveData::BigMove(vec![]).into_raw();
    assert_eq!(0, raw.cl);
    assert_eq!(Some(vec![]), raw.data);
    match MoveData::from_ref(&raw) {
        MoveData::BigMove(b) => assert!(b.is_empty()),
        MoveData::MoveCode(_) => panic!("empty variable move read as a code"),
    }
}

#[test]
fn codes_and_bytes_round_trip() {
    for code in [0u64, 42, MOVE_NONE] {
        match round_trip(MoveData::MoveCode(code)) {
            MoveData::MoveCode(c) => assert_eq!(code, c),
            MoveData::BigMove(_) => panic!("code read as bytes"),
        }
    }
    match round_trip(MoveData::BigMove(vec![1, 2, 3])) {
        MoveData::BigMove(b) => assert_eq!(vec![1, 2, 3], b),
        MoveData::MoveCode(_) => panic!("bytes read as a code"),
    }
}

#[test]
fn wire_form_of_moves() {
    let raw = MoveData::MoveCode(7).into_raw();
    assert_eq!(7, raw.cl);
    assert!(raw.data.is_none());
    let raw = MoveData::BigMove(vec![9, 8]).into_raw();
    assert_eq!(2, raw.cl);
    match MoveData::from_ref(&RawMoveData { cl: 0, data: None }) {
        MoveData::MoveCode(c) => assert_eq!(0, c),
        MoveData::BigMove(_) => panic!("null payload read as bytes"),
    }
}

#[test]
fn mixed_moves() {
    let m = MixedMove::from_bytes(vec![5]);
    match m.to_mixed() {
        MixedMoveRust::BigMove(b) => assert_eq!(vec![5], b),
        MixedMoveRust::MoveCode(_) => panic!("bytes read as a code"),
    }
    let raw = m.to_raw();
    assert_eq!(1, raw.cl);
    assert_eq!(Some(vec![5]), raw.data);
    let m = MixedMove::from_code(11);
    match m.to_mixed() {
        MixedMoveRust::MoveCode(c) => assert_eq!(11, c),
        MixedMoveRust::BigMove(_) => panic!("code read as bytes"),
    }
    assert!(m.to_raw().data.is_none());
}

#[test]
fn sync_default() {
    let m = MoveDataSync::with_default(42u64);
    assert_eq!(42, m.md);
    assert_eq!(SYNC_CTR_DEFAULT, m.sync_ctr);
}

#[test]
fn game_move_event_reads_back() {
    let e = EventAny::new_game_move(2, MoveDataSync { md: MoveData::BigMove(vec![]), sync_ctr: 9 });
    assert_eq!(EventType::GameMove, e.get_type());
    match e.to_rust() {
        EventEnum::GameMove(m) => {
            assert_eq!(2, m.player);
            assert_eq!(9, m.data.sync_ctr);
            match m.data.md {
                MoveData::BigMove(b) => assert!(b.is_empty()),
                MoveData::MoveCode(_) => panic!("empty variable move read as a code"),
            }
        },
        _ => panic!("wrong event kind"),
    }
}

#[test]
fn events_read_by_tag() {
    let base = Event { type_: EventType::GameUnload, client_id: 3, lobby_id: 4 };
    assert!(EventAny::new(base, EventPayload::GameState { state: None }).is_none());
    let e = EventAny::new(base, EventPayload::Empty).unwrap();
    match e.to_rust() {
        EventEnum::GameUnload(b) => assert_eq!(base, b),
        _ => panic!("wrong event kind"),
    }
    let base = Event { type_: EventType::GameState, client_id: 0, lobby_id: 0 };
    let e = EventAny::new(base, EventPayload::GameState { state: Some("A 3".to_string()) }).unwrap();
    match e.to_rust() {
        EventEnum::GameState(s) => assert_eq!(Some("A 3".to_string()), s.state),
        _ => panic!("wrong event kind"),
    }
    let base = Event { type_: EventType::Other(77), client_id: 0, lobby_id: 0 };
    let e = EventAny::new(base, EventPayload::Empty).unwrap();
    assert!(matches!(e.to_rust(), EventEnum::Unknown));
}

#[test]
fn button_masks() {
    assert_eq!(0b100, sdl_button_mask(SDL_BUTTON_RIGHT));
    assert_eq!(1, sdl_button_mask(SDL_BUTTON_LEFT));
    assert_eq!(0b10000, sdl_button_mask(SDL_BUTTON_X2));
    assert_eq!(1 << 31, sdl_button_mask(32));
}

#[test]
fn pointer_events_to_local() {
    let b = SdlMouseButtonEvent { window_id: 1, which: 0, button: 1, state: 0, clicks: 1, x: 50, y: 70 };
    match SDLEventEnum::MouseButtonUp(b).to_local(20, 30) {
        SDLEventEnum::MouseButtonUp(l) => {
            assert_eq!(30, l.x);
            assert_eq!(40, l.y);
            assert_eq!(1, l.clicks);
        },
        _ => panic!("kind changed"),
    }
    let w = SdlMouseWheelEvent { window_id: 1, which: 0, x: 0, y: 1, direction: 0, mouse_x: i32::MIN, mouse_y: 5 };
    match SDLEventEnum::MouseWheel(w).to_local(1, -10) {
        SDLEventEnum::MouseWheel(l) => {
            assert_eq!(i32::MIN, l.mouse_x);
            assert_eq!(15, l.mouse_y);
            assert_eq!(1, l.y);
        },
        _ => panic!("kind changed"),
    }
    assert_eq!(SDLEventEnum::Unknown(3), SDLEventEnum::Unknown(3).to_local(5, 5));
}

#[test]
fn event_copy_is_independent() {
    let base = Event { type_: EventType::GameState, client_id: 5, lobby_id: 6 };
    let e = EventAny::new(base, EventPayload::GameState { state: Some("B 2".to_string()) }).unwrap();
    let c = e.copy();
    drop(e);
    match c.to_rust() {
        EventEnum::GameState(s) => {
            assert_eq!(base, s.base);
            assert_eq!(Some("B 2".to_string()), s.state);
        },
        _ => panic!("wrong event kind"),
    }
}
