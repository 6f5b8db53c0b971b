use mirabel::error::{ERR_FEATURE_UNSUPPORTED, ERR_OK};
use mirabel::event::{Event, EventAny, EventPayload, EventType};
use mirabel::example_frontend::{example_frontend_methods, Area, Frontend, Point};
use mirabel::frontend::{
    create_frontend_methods, DisplayData, FrontendFeatureFlags, FrontendInstance, Metadata,
    QueueManager, Surface,
};
use mirabel::game::{create_game_methods, GameFeatures, SemVer};
use mirabel::game_init::GameInit;
use mirabel::nim::{example_metadata, Nim};
use mirabel::sdl_event::{
    SDLEventEnum, SdlMouseMotionEvent, SdlWindowEvent, SDL_WINDOWEVENT_SIZE_CHANGED,
};

fn display(fbw: u32, fbh: u32) -> DisplayData {
    DisplayData { x: 20, y: 30, w: 400, h: 300, fbw, fbh }
}

fn resize() -> SDLEventEnum {
    SDLEventEnum::WindowEvent(SdlWindowEvent {
        window_id: 1,
        event: SDL_WINDOWEVENT_SIZE_CHANGED,
        data1: 640,
        data2: 480,
    })
}

fn created() -> FrontendInstance<Frontend> {
    let mut f = FrontendInstance::<Frontend>::new();
    assert_eq!(ERR_OK, f.create(display(800, 600), Some(true)));
    f
}

#[test]
fn surface_created_once_per_resize() {
    let mut f = created();
    assert_eq!(None, f.cached_surface());
    assert_eq!(ERR_OK, f.process_input(resize()));
    assert_eq!(ERR_OK, f.render());
    assert_eq!(ERR_OK, f.render());
    assert_eq!(1, f.surfaces_created());
    assert_eq!(Some(Surface { width: 800, height: 600 }), f.cached_surface());

    f.set_display_data(display(640, 480));
    assert_eq!(ERR_OK, f.render());
    assert_eq!(1, f.surfaces_created());
    assert_eq!(ERR_OK, f.process_input(resize()));
    assert_eq!(None, f.cached_surface());
    assert_eq!(ERR_OK, f.render());
    assert_eq!(ERR_OK, f.render());
    assert_eq!(2, f.surfaces_created());
    assert_eq!(Some(Surface { width: 640, height: 480 }), f.cached_surface());
}

#[test]
fn pointer_input_is_local() {
    let mut f = created();
    let motion = SdlMouseMotionEvent { window_id: 1, which: 0, state: 0, x: 250, y: 70, xrel: 1, yrel: 1 };
    assert_eq!(ERR_OK, f.process_input(SDLEventEnum::MouseMotion(motion)));
    assert_eq!(Some(Point { x: 230, y: 40 }), f.frontend().mouse_location);
    assert_eq!(ERR_OK, f.update());
    assert_eq!(Some(Area { x0: 200, y0: 300, x1: 400, y1: 0 }), f.frontend().highlight_area);
    assert_eq!(0, f.surfaces_created());
}

#[test]
fn events_name_the_game() {
    let mut f = created();
    assert_eq!("No game loaded!", f.frontend().game_name);
    let load = EventAny::new(
        Event { type_: EventType::GameLoadMethods, client_id: 0, lobby_id: 0 },
        EventPayload::GameLoadMethods {
            methods: create_game_methods::<Nim>(example_metadata()),
            init_info: GameInit::Default,
        },
    )
    .unwrap();
    assert_eq!(ERR_OK, f.process_event(load));
    assert_eq!("Loaded game: Nim", f.frontend().game_name);
    let unload = EventAny::new(
        Event { type_: EventType::GameUnload, client_id: 0, lobby_id: 0 },
        EventPayload::Empty,
    )
    .unwrap();
    assert_eq!(ERR_OK, f.process_event(unload));
    assert_eq!("No game loaded!", f.frontend().game_name);
    assert_eq!("", f.get_last_error());
    assert_eq!(ERR_OK, f.destroy());
    assert_eq!(ERR_OK, f.destroy());
}

#[test]
fn chess_is_not_compatible() {
    let mut meta = example_metadata();
    assert_eq!(ERR_OK, FrontendInstance::<Frontend>::is_game_compatible(&create_game_methods::<Nim>(meta)));
    meta = example_metadata();
    meta.game_name = "cHeSs".to_string();
    meta.features = GameFeatures { options: false, random_moves: false, hidden_information: false, print: false };
    assert_eq!(
        ERR_FEATURE_UNSUPPORTED,
        FrontendInstance::<Frontend>::is_game_compatible(&create_game_methods::<Nim>(meta))
    );
}

#[test]
fn frontend_options() {
    let (code, opts) = FrontendInstance::<Frontend>::opts_create();
    assert_eq!(ERR_OK, code);
    let mut opts = opts.unwrap();
    assert!(opts);
    assert_eq!(ERR_OK, FrontendInstance::<Frontend>::opts_display(&mut opts));
    assert_eq!(ERR_OK, FrontendInstance::<Frontend>::opts_destroy(opts));
}

#[test]
fn frontend_table_entries() {
    let meta = |options| Metadata {
        frontend_name: "Example".to_string(),
        version: SemVer { major: 0, minor: 1, patch: 0 },
        features: FrontendFeatureFlags { options },
    };
    let t = create_frontend_methods::<Frontend>(meta(true));
    assert_eq!("Example", t.frontend_name);
    assert!(t.entries.opts_create && t.entries.opts_display && t.entries.opts_destroy);
    assert!(t.entries.render && t.entries.process_input);
    let t = create_frontend_methods::<Frontend>(meta(false));
    assert!(!t.entries.opts_create && !t.entries.opts_display && !t.entries.opts_destroy);
    assert!(t.entries.create && t.entries.is_game_compatible);
}

#[test]
fn outbox_keeps_order() {
    let mut q = QueueManager::new();
    let e1 = EventAny::new(Event { type_: EventType::Other(1), client_id: 1, lobby_id: 0 }, EventPayload::Empty).unwrap();
    let e2 = EventAny::new(Event { type_: EventType::GameUnload, client_id: 2, lobby_id: 0 }, EventPayload::Empty).unwrap();
    q.push(&e1);
    q.push(&e2);
    q.push(&e1);
    let out = q.drain();
    assert_eq!(3, out.len());
    assert_eq!(EventType::Other(1), out[2].get_type());
    assert_eq!(EventType::Other(1), e1.get_type());
    assert_eq!(EventType::Other(1), out[0].get_type());
    assert_eq!(EventType::GameUnload, out[1].get_type());
    assert!(q.drain().is_empty());
}

#[test]
fn runtime_options_need_options() {
    let mut f = created();
    assert_eq!(ERR_OK, f.runtime_opts_display());
    let mut g = FrontendInstance::<Frontend>::new();
    assert_eq!(ERR_OK, g.create(display(10, 10), None));
    assert_ne!(ERR_OK, g.runtime_opts_display());
    assert_eq!("runtime options are missing", g.get_last_error());
    assert_eq!(ERR_OK, g.render());
    assert_eq!("", g.get_last_error());
}

#[test]
fn example_frontend_table() {
    let t = example_frontend_methods();
    assert_eq!("Example", t.frontend_name);
    assert_eq!(SemVer { major: 0, minor: 1, patch: 0 }, t.version);
    assert!(t.features.options);
    assert!(t.entries.opts_create && t.entries.opts_display && t.entries.opts_destroy);
}
