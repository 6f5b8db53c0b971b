//! The frontend side: the capability trait a graphical frontend implements,
//! the per-call context, the method table, and the per-instance bridge.
//!
//! Drawing happens on a surface whose size the bridge decides: it is created
//! lazily at the framebuffer's size when a render asks for it, kept across
//! frames, and dropped when the window's size changes.

use vstd::prelude::*;
use crate::error::{result_code, spec_code_value, Error, ErrorCode, ERR_OK};
use crate::event::{payload_same, EventAny};
use crate::game::{fails_well, GameFeatureFlags, GameMethodsTable, SemVer};
use crate::sdl_event::{spec_to_local, SDLEventEnum};

verus! {

/// Geometry of the frontend's area, in pixels, kept up to date by the host.
#[derive(Clone, Copy, Debug, PartialEq, Eq, Structural)]
pub struct DisplayData {
    /// Origin of the main drawing area in the window.
    pub x: i32,
    pub y: i32,
    /// Size of the main drawing area.
    pub w: u32,
    pub h: u32,
    /// Size of the framebuffer.
    pub fbw: u32,
    pub fbh: u32,
}

/// A drawing surface, by its size.
#[derive(Clone, Copy, Debug, PartialEq, Eq, Structural)]
pub struct Surface {
    pub width: u32,
    pub height: u32,
}

/// A translation that moves the origin to the main drawing area.
#[derive(Clone, Copy, Debug, PartialEq, Eq, Structural)]
pub struct Translation {
    pub dx: i32,
    pub dy: i32,
}

/// Events a frontend sends to the host, in the order sent.
pub struct QueueManager {
    outbox: Vec<EventAny>,
}

impl QueueManager {
    pub closed spec fn events(&self) -> Seq<EventAny> {
        self.outbox@
    }

    pub fn new() -> (r: QueueManager)
        ensures
            r.events().len() == 0,
    {
        QueueManager { outbox: Vec::new() }
    }

    /// Appends a copy of `event` to the queue.
    pub fn push(&mut self, event: &EventAny)
        ensures
            final(self).events().len() == old(self).events().len() + 1,
            final(self).events().take(old(self).events().len() as int) == old(self).events(),
            final(self).events().last().spec_base() == event.spec_base(),
            payload_same(final(self).events().last().spec_payload(), event.spec_payload()),
    {
        self.outbox.push(event.copy());
        assert(final(self).events().take(old(self).events().len() as int) =~= old(self).events());
    }

    /// Hands out every queued event, oldest first, and empties the queue.
    pub fn drain(&mut self) -> (r: Vec<EventAny>)
        ensures
            r@ == old(self).events(),
            final(self).events().len() == 0,
    {
        let mut out: Vec<EventAny> = Vec::new();
        std::mem::swap(&mut out, &mut self.outbox);
        out
    }
}

/// Lazily created drawing surface of the framebuffer's size.
pub struct CanvasManager {
    surface: Option<Surface>,
    created: u64,
    display_data: DisplayData,
}

impl CanvasManager {
    /// The cached surface, if any.
    pub closed spec fn cached(&self) -> Option<Surface> {
        self.surface
    }

    /// The geometry the surface is sized by.
    pub closed spec fn dd(&self) -> DisplayData {
        self.display_data
    }

    /// How many surfaces have been created (held at `u64::MAX`).
    pub closed spec fn created_count(&self) -> u64 {
        self.created
    }

    fn new(display_data: DisplayData, created: u64) -> (r: CanvasManager)
        ensures
            r.cached() is None,
            r.dd() == display_data,
            r.created_count() == created,
    {
        CanvasManager { surface: None, created, display_data }
    }

    /// The surface to draw on: the cached one, or else a new one of the
    /// framebuffer's size, which is then cached.
    pub fn get(&mut self) -> (r: Surface)
        ensures
            final(self).dd() == old(self).dd(),
            final(self).cached() == Some(r),
            old(self).cached() matches Some(s) ==> r == s && final(self).created_count()
                == old(self).created_count(),
            old(self).cached() is None ==> r == (Surface {
                width: old(self).dd().fbw,
                height: old(self).dd().fbh,
            }) && final(self).created_count() == spec_bump(old(self).created_count()),
    {
        match self.surface {
            Some(s) => s,
            None => {
                let s = Surface { width: self.display_data.fbw, height: self.display_data.fbh };
                self.surface = Some(s);
                if self.created < u64::MAX {
                    self.created = self.created + 1;
                }
                s
            },
        }
    }

    /// The geometry the surface is sized by.
    pub fn display_data(&self) -> (r: DisplayData)
        ensures
            r == self.dd(),
    {
        self.display_data
    }

    /// Takes new geometry from the host; the cached surface stays.
    pub fn set_display_data(&mut self, display_data: DisplayData)
        ensures
            final(self).dd() == display_data,
            final(self).cached() == old(self).cached(),
            final(self).created_count() == old(self).created_count(),
    {
        self.display_data = display_data;
    }

    /// Drops the cached surface, so that the next request creates one.
    pub fn drop_surface(&mut self)
        ensures
            final(self).dd() == old(self).dd(),
            final(self).cached() is None,
            final(self).created_count() == old(self).created_count(),
    {
        self.surface = None;
    }

    /// The translation that puts the origin at the main drawing area.
    pub fn matrix(&self) -> (r: Translation)
        ensures
            r == (Translation { dx: self.dd().x, dy: self.dd().y }),
    {
        Translation { dx: self.display_data.x, dy: self.display_data.y }
    }
}

/// How a canvas may change while a frontend method runs: the geometry stays,
/// a cached surface stays, and where none was cached at most one is created,
/// at the framebuffer's size.
pub open spec fn canvas_kept(a: CanvasManager, b: CanvasManager) -> bool {
    &&& b.dd() == a.dd()
    &&& a.cached() is Some ==> b.cached() == a.cached() && b.created_count() == a.created_count()
    &&& b.cached() is None ==> a.cached() is None && b.created_count() == a.created_count()
    &&& (a.cached() is None && b.cached() is Some) ==> b.cached() == Some(
        Surface { width: a.dd().fbw, height: a.dd().fbh },
    ) && b.created_count() == spec_bump(a.created_count())
}

/// One more, held at `u64::MAX`.
pub open spec fn spec_bump(n: u64) -> u64 {
    if n < u64::MAX { (n + 1) as u64 } else { n }
}

/// What a frontend method sees of its instance during one call.
pub struct Context<O> {
    /// The options the frontend was created with.
    pub options: Option<O>,
    pub display_data: DisplayData,
    pub outbox: QueueManager,
    pub canvas: CanvasManager,
}

/// Basic information about a game, read from its method table.
pub struct GameInfo {
    pub game_name: String,
    pub variant_name: String,
    pub impl_name: String,
    pub version: SemVer,
    pub features: GameFeatureFlags,
}

impl GameInfo {
    pub fn new(methods: &GameMethodsTable) -> (r: GameInfo)
        ensures
            r.game_name@ == methods.game_name@,
            r.variant_name@ == methods.variant_name@,
            r.impl_name@ == methods.impl_name@,
            r.version == methods.version,
            r.features == methods.features,
    {
        GameInfo {
            game_name: methods.game_name.clone(),
            variant_name: methods.variant_name.clone(),
            impl_name: methods.impl_name.clone(),
            version: methods.version,
            features: methods.features,
        }
    }
}

/// Capability bits of a frontend's method table.
#[derive(Clone, Copy, Debug, PartialEq, Eq, Structural)]
pub struct FrontendFeatureFlags {
    pub options: bool,
}

/// Static description of a frontend implementation.
pub struct Metadata {
    pub frontend_name: String,
    pub version: SemVer,
    pub features: FrontendFeatureFlags,
}

/// Which entry points a frontend's method table offers.
#[derive(Clone, Copy, Debug, PartialEq, Eq, Structural)]
pub struct FrontendEntries {
    pub opts_create: bool,
    pub opts_display: bool,
    pub opts_destroy: bool,
    pub get_last_error: bool,
    pub create: bool,
    pub destroy: bool,
    pub runtime_opts_display: bool,
    pub process_event: bool,
    pub process_input: bool,
    pub update: bool,
    pub render: bool,
    pub is_game_compatible: bool,
}

/// The exported method table of one frontend implementation.
pub struct FrontendMethodsTable {
    pub frontend_name: String,
    pub version: SemVer,
    pub features: FrontendFeatureFlags,
    pub entries: FrontendEntries,
}

/// The capability a frontend implements; each method is one entry point.
///
/// Every method that fails returns an error whose message is not empty. The
/// option methods fail with `FeatureUnsupported` unless a frontend provides
/// them; the table offers them only where the options feature is declared.
pub trait FrontendMethods: Sized {
    /// Options chosen before the frontend is created.
    type Options;

    fn create(options: Option<&Self::Options>) -> (r: Result<Self, Error>)
        ensures
            fails_well(r),
    ;

    fn runtime_opts_display(&mut self, ctx: &mut Context<Self::Options>) -> (r: Result<(), Error>)
        ensures
            fails_well(r),
            canvas_kept(old(ctx).canvas, final(ctx).canvas),
    ;

    fn process_event(&mut self, ctx: &mut Context<Self::Options>, event: EventAny) -> (r: Result<
        (),
        Error,
    >)
        ensures
            fails_well(r),
            canvas_kept(old(ctx).canvas, final(ctx).canvas),
    ;

    fn process_input(&mut self, ctx: &mut Context<Self::Options>, event: SDLEventEnum) -> (r:
        Result<(), Error>)
        ensures
            fails_well(r),
            canvas_kept(old(ctx).canvas, final(ctx).canvas),
    ;

    fn update(&mut self, ctx: &mut Context<Self::Options>) -> (r: Result<(), Error>)
        ensures
            fails_well(r),
            canvas_kept(old(ctx).canvas, final(ctx).canvas),
    ;

    fn render(&mut self, ctx: &mut Context<Self::Options>) -> (r: Result<(), Error>)
        ensures
            fails_well(r),
            canvas_kept(old(ctx).canvas, final(ctx).canvas),
    ;

    fn is_game_compatible(game: &GameInfo) -> (r: Result<(), ErrorCode>);

    fn opts_create() -> (r: Result<Self::Options, ErrorCode>)
        default_ensures
            r == Err::<Self::Options, ErrorCode>(ErrorCode::FeatureUnsupported),
    {
        Err(ErrorCode::FeatureUnsupported)
    }

    fn opts_display(options: &mut Self::Options) -> (r: Result<(), ErrorCode>)
        default_ensures
            r == Err::<(), ErrorCode>(ErrorCode::FeatureUnsupported),
    {
        Err(ErrorCode::FeatureUnsupported)
    }
}

/// The method table for frontend `F`: the option entry points exactly when
/// the options feature is declared, every other entry point always.
pub fn create_frontend_methods<F: FrontendMethods>(metadata: Metadata) -> (r: FrontendMethodsTable)
    ensures
        r.frontend_name@ == metadata.frontend_name@,
        r.version == metadata.version,
        r.features == metadata.features,
        r.entries == (FrontendEntries {
            opts_create: metadata.features.options,
            opts_display: metadata.features.options,
            opts_destroy: metadata.features.options,
            get_last_error: true,
            create: true,
            destroy: true,
            runtime_opts_display: true,
            process_event: true,
            process_input: true,
            update: true,
            render: true,
            is_game_compatible: true,
        }),
{
    let options = metadata.features.options;
    FrontendMethodsTable {
        frontend_name: metadata.frontend_name,
        version: metadata.version,
        features: metadata.features,
        entries: FrontendEntries {
            opts_create: options,
            opts_display: options,
            opts_destroy: options,
            get_last_error: true,
            create: true,
            destroy: true,
            runtime_opts_display: true,
            process_event: true,
            process_input: true,
            update: true,
            render: true,
            is_game_compatible: true,
        },
    }
}

/// After the cached surface was dropped (`a` holds none), two calls that
/// keep the canvas create at most one surface between them, and a surface
/// created by the first is the one the second finds.
pub proof fn lemma_one_surface_per_resize(a: CanvasManager, b: CanvasManager, c: CanvasManager)
    requires
        a.cached() is None,
        canvas_kept(a, b),
        canvas_kept(b, c),
    ensures
        c.created_count() == a.created_count() || c.created_count() == spec_bump(a.created_count()),
        b.cached() is Some ==> c.cached() == b.cached() && c.created_count() == b.created_count(),
        c.cached() is Some ==> c.cached() == Some(Surface { width: a.dd().fbw, height: a.dd().fbh }),
{
}

/// A canvas that was dropped and then kept: the geometry stays, and either
/// no surface is cached and none was created, or one of the framebuffer's
/// size was created.
pub open spec fn canvas_renewed(a: CanvasManager, b: CanvasManager) -> bool {
    &&& b.dd() == a.dd()
    &&& b.cached() is None ==> b.created_count() == a.created_count()
    &&& b.cached() is Some ==> b.cached() == Some(
        Surface { width: a.dd().fbw, height: a.dd().fbh },
    ) && b.created_count() == spec_bump(a.created_count())
}

/// Bridge-private state of one frontend instance.
pub struct FrontendAux<O> {
    pub error: String,
    pub options: Option<O>,
    pub outbox: QueueManager,
    pub canvas: CanvasManager,
}

/// A frontend instance handle: a slot for the frontend and a slot for the
/// auxiliary state.
pub struct FrontendInstance<F: FrontendMethods> {
    data1: Option<F>,
    data2: Option<FrontendAux<F::Options>>,
}

impl<F: FrontendMethods> FrontendInstance<F> {
    pub closed spec fn user(&self) -> Option<F> {
        self.data1
    }

    pub closed spec fn aux(&self) -> Option<FrontendAux<F::Options>> {
        self.data2
    }

    pub open spec fn is_valid(&self) -> bool {
        self.user() is Some && self.aux() is Some
    }

    pub open spec fn aux_state(&self) -> FrontendAux<F::Options> {
        self.aux()->Some_0
    }

    /// A handle as the host allocates it: both slots empty.
    pub fn new() -> (r: Self)
        ensures
            r.user() is None,
            r.aux() is None,
    {
        FrontendInstance { data1: None, data2: None }
    }

    /// Builds the frontend. The auxiliary state is set up first, so that a
    /// failed creation leaves a handle that reports its error and can be
    /// destroyed.
    pub fn create(&mut self, display_data: DisplayData, options: Option<F::Options>) -> (r: u32)
        ensures
            final(self).aux() is Some,
            (r == ERR_OK) <==> final(self).user() is Some,
            r != ERR_OK ==> final(self).aux_state().error@.len() > 0,
            final(self).aux_state().canvas.dd() == display_data,
            final(self).aux_state().canvas.cached() is None,
            final(self).aux_state().canvas.created_count() == 0,
            final(self).aux_state().outbox.events().len() == 0,
            final(self).aux_state().options == options,
            r == ERR_OK ==> exists|o: Option<&F::Options>, v: Result<F, Error>|
                #![trigger call_ensures(F::create, (o,), v)]
                call_ensures(F::create, (o,), v) && v == Ok::<F, Error>(final(self).user()->Some_0)
                    && (o is None <==> options is None) && (o matches Some(x) ==> options == Some(*x)),
            r != ERR_OK ==> exists|o: Option<&F::Options>, v: Result<F, Error>|
                #![trigger call_ensures(F::create, (o,), v)]
                call_ensures(F::create, (o,), v) && v is Err && r == spec_code_value(v->Err_0.code)
                    && final(self).aux_state().error@ == v->Err_0.message@ && final(self).user() is None
                    && (o is None <==> options is None) && (o matches Some(x) ==> options == Some(*x)),
    {
        self.data1 = None;
        let res = F::create(options.as_ref());
        let mut aux = FrontendAux {
            error: String::new(),
            options,
            outbox: QueueManager::new(),
            canvas: CanvasManager::new(display_data, 0),
        };
        match res {
            Ok(f) => {
                self.data2 = Some(aux);
                self.data1 = Some(f);
                ERR_OK
            },
            Err(e) => {
                let code = e.code.value();
                aux.error = e.message;
                self.data2 = Some(aux);
                code
            },
        }
    }

    /// Frees the frontend and then the auxiliary state, leaving both slots
    /// empty; on a handle whose slots are already empty it does nothing.
    pub fn destroy(&mut self) -> (r: u32)
        ensures
            r == ERR_OK,
            final(self).user() is None,
            final(self).aux() is None,
    {
        self.data1 = None;
        self.data2 = None;
        ERR_OK
    }

    /// The message of the last failure; empty after a success.
    pub fn get_last_error(&self) -> (r: &str)
        requires
            self.aux() is Some,
        ensures
            r@ == self.aux_state().error@,
    {
        self.data2.as_ref().unwrap().error.as_str()
    }

    /// Takes new geometry from the host.
    pub fn set_display_data(&mut self, display_data: DisplayData)
        requires
            old(self).aux() is Some,
        ensures
            final(self).user() == old(self).user(),
            final(self).aux() is Some,
            final(self).aux_state().canvas.dd() == display_data,
            final(self).aux_state().canvas.cached() == old(self).aux_state().canvas.cached(),
            final(self).aux_state().canvas.created_count() == old(
                self,
            ).aux_state().canvas.created_count(),
    {
        let mut aux = self.data2.take().unwrap();
        aux.canvas.set_display_data(display_data);
        self.data2 = Some(aux);
    }

    /// The surface cached for drawing, if any.
    pub fn cached_surface(&self) -> (r: Option<Surface>)
        requires
            self.aux() is Some,
        ensures
            r == self.aux_state().canvas.cached(),
    {
        let aux = self.data2.as_ref().unwrap();
        match &aux.canvas.surface {
            Some(s) => Some(*s),
            None => None,
        }
    }

    /// The frontend in the handle.
    pub fn frontend(&self) -> (r: &F)
        requires
            self.user() is Some,
        ensures
            *r == self.user()->Some_0,
    {
        self.data1.as_ref().unwrap()
    }

    /// How many surfaces have been created for this instance.
    pub fn surfaces_created(&self) -> (r: u64)
        requires
            self.aux() is Some,
        ensures
            r == self.aux_state().canvas.created_count(),
    {
        self.data2.as_ref().unwrap().canvas.created
    }

    /// Hands out the events the frontend sent, oldest first.
    pub fn drain_outbox(&mut self) -> (r: Vec<EventAny>)
        requires
            old(self).aux() is Some,
        ensures
            r@ == old(self).aux_state().outbox.events(),
            final(self).aux() is Some,
            final(self).user() == old(self).user(),
            final(self).aux_state().outbox.events().len() == 0,
    {
        let mut aux = self.data2.take().unwrap();
        let r = aux.outbox.drain();
        self.data2 = Some(aux);
        r
    }

    /// Takes the frontend out and builds the context of one call.
    fn open_call(&mut self) -> (r: (F, Context<F::Options>))
        requires
            old(self).is_valid(),
        ensures
            r.0 == old(self).user()->Some_0,
            r.1.canvas == old(self).aux_state().canvas,
            r.1.outbox == old(self).aux_state().outbox,
            r.1.display_data == old(self).aux_state().canvas.dd(),
    {
        let f = self.data1.take().unwrap();
        let aux = self.data2.take().unwrap();
        let FrontendAux { error, options, outbox, canvas } = aux;
        let display_data = canvas.display_data();
        (f, Context { options, display_data, outbox, canvas })
    }

    /// Puts the frontend and the context back and reports the outcome.
    fn close_call(&mut self, f: F, ctx: Context<F::Options>, res: Result<(), Error>) -> (r: u32)
        requires
            fails_well(res),
        ensures
            final(self).is_valid(),
            final(self).aux_state().canvas == ctx.canvas,
            final(self).aux_state().outbox == ctx.outbox,
            final(self).user() == Some(f),
            final(self).aux_state().options == ctx.options,
            r == ERR_OK <==> res is Ok,
            r == ERR_OK ==> final(self).aux_state().error@.len() == 0,
            r != ERR_OK ==> final(self).aux_state().error@.len() > 0,
            res matches Err(e) ==> r == spec_code_value(e.code) && final(self).aux_state().error@
                == e.message@,
    {
        let Context { options, display_data, outbox, canvas } = ctx;
        let (error, r) = match res {
            Ok(()) => (String::new(), ERR_OK),
            Err(e) => {
                let code = e.code.value();
                (e.message, code)
            },
        };
        self.data1 = Some(f);
        self.data2 = Some(FrontendAux { error, options, outbox, canvas });
        r
    }

    /// Shows the runtime options.
    pub fn runtime_opts_display(&mut self) -> (r: u32)
        requires
            old(self).is_valid(),
        ensures
            final(self).is_valid(),
            r == ERR_OK ==> final(self).aux_state().error@.len() == 0,
            r != ERR_OK ==> final(self).aux_state().error@.len() > 0,
            canvas_kept(old(self).aux_state().canvas, final(self).aux_state().canvas),
    {
        let (mut f, mut ctx) = self.open_call();
        let res = f.runtime_opts_display(&mut ctx);
        self.close_call(f, ctx, res)
    }

    /// Hands an event of the host to the frontend.
    pub fn process_event(&mut self, event: EventAny) -> (r: u32)
        requires
            old(self).is_valid(),
        ensures
            final(self).is_valid(),
            r == ERR_OK ==> final(self).aux_state().error@.len() == 0,
            r != ERR_OK ==> final(self).aux_state().error@.len() > 0,
            canvas_kept(old(self).aux_state().canvas, final(self).aux_state().canvas),
    {
        let (mut f, mut ctx) = self.open_call();
        let res = f.process_event(&mut ctx, event);
        self.close_call(f, ctx, res)
    }

    /// Hands an input event to the frontend, in coordinates relative to the main drawing area; a change of the window's size drops the cached surface first.
    pub fn process_input(&mut self, event: SDLEventEnum) -> (r: u32)
        requires
            old(self).is_valid(),
        ensures
            final(self).is_valid(),
            r == ERR_OK ==> final(self).aux_state().error@.len() == 0,
            r != ERR_OK ==> final(self).aux_state().error@.len() > 0,
            !event.is_size_change_spec() ==> canvas_kept(
                old(self).aux_state().canvas,
                final(self).aux_state().canvas,
            ),
            event.is_size_change_spec() ==> canvas_renewed(
                old(self).aux_state().canvas,
                final(self).aux_state().canvas,
            ),
            exists|f: &mut F, c: &mut Context<F::Options>, v: Result<(), Error>|
                #![trigger call_ensures(F::process_input, (f, c, spec_to_local(event, old(self).aux_state().canvas.dd().x, old(self).aux_state().canvas.dd().y)), v)]
                call_ensures(
                    F::process_input,
                    (
                        f,
                        c,
                        spec_to_local(
                            event,
                            old(self).aux_state().canvas.dd().x,
                            old(self).aux_state().canvas.dd().y,
                        ),
                    ),
                    v,
                ) && *f == old(self).user()->Some_0 && (v is Ok <==> r == ERR_OK),
    {
        let (mut f, mut ctx) = self.open_call();
        let resized = event.is_size_change();
        if resized {
            ctx.canvas.drop_surface();
        }
        let dd = ctx.canvas.display_data();
        let local = event.to_local(dd.x, dd.y);
        let res = f.process_input(&mut ctx, local);
        self.close_call(f, ctx, res)
    }

    /// Lets the frontend update its state.
    pub fn update(&mut self) -> (r: u32)
        requires
            old(self).is_valid(),
        ensures
            final(self).is_valid(),
            r == ERR_OK ==> final(self).aux_state().error@.len() == 0,
            r != ERR_OK ==> final(self).aux_state().error@.len() > 0,
            canvas_kept(old(self).aux_state().canvas, final(self).aux_state().canvas),
    {
        let (mut f, mut ctx) = self.open_call();
        let res = f.update(&mut ctx);
        self.close_call(f, ctx, res)
    }

    /// Lets the frontend draw; the surface is created at the first request and kept across frames.
    pub fn render(&mut self) -> (r: u32)
        requires
            old(self).is_valid(),
        ensures
            final(self).is_valid(),
            r == ERR_OK ==> final(self).aux_state().error@.len() == 0,
            r != ERR_OK ==> final(self).aux_state().error@.len() > 0,
            canvas_kept(old(self).aux_state().canvas, final(self).aux_state().canvas),
    {
        let (mut f, mut ctx) = self.open_call();
        let res = f.render(&mut ctx);
        self.close_call(f, ctx, res)
    }

    /// Whether the frontend can show the game of table `compat_game`.
    pub fn is_game_compatible(compat_game: &GameMethodsTable) -> (r: u32)
        ensures
            r == ERR_OK || exists|c: ErrorCode| r == spec_code_value(c),
    {
        let game = GameInfo::new(compat_game);
        result_code(F::is_game_compatible(&game))
    }

    /// Creates the options of a frontend before it exists.
    pub fn opts_create() -> (r: (u32, Option<F::Options>))
        ensures
            (r.0 == ERR_OK) <==> r.1 is Some,
    {
        match F::opts_create() {
            Ok(o) => (ERR_OK, Some(o)),
            Err(code) => (code.value(), None),
        }
    }

    /// Shows the options of a frontend before it exists.
    pub fn opts_display(options: &mut F::Options) -> (r: u32)
        ensures
            r == ERR_OK || exists|c: ErrorCode| r == spec_code_value(c),
    {
        result_code(F::opts_display(options))
    }

    /// Frees options that `opts_create` made.
    pub fn opts_destroy(options: F::Options) -> (r: u32)
        ensures
            r == ERR_OK,
    {
        ERR_OK
    }
}

} // verus!
