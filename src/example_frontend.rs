//! An example frontend on the bridge: it names the loaded game, follows the
//! pointer, and highlights the half of the drawing area the pointer is over.
//! Drawing itself is done by the host on the surface this frontend asks for.

use vstd::prelude::*;
use vstd::string::*;
use crate::error::{Error, ErrorCode};
use crate::event::{EventAny, EventEnum};
use crate::frontend::{
    canvas_kept, create_frontend_methods, Context, FrontendFeatureFlags,
    FrontendMethods, FrontendMethodsTable, GameInfo, Metadata,
};
use crate::game::SemVer;
use crate::sdl_event::SDLEventEnum;

verus! {

/// A point in the main drawing area.
#[derive(Clone, Copy, Debug, PartialEq, Eq, Structural)]
pub struct Point {
    pub x: i32,
    pub y: i32,
}

/// An axis-aligned area, from one corner to the opposite one.
#[derive(Clone, Copy, Debug, PartialEq, Eq, Structural)]
pub struct Area {
    pub x0: i64,
    pub y0: i64,
    pub x1: i64,
    pub y1: i64,
}

/// Runtime data of the example frontend.
pub struct Frontend {
    pub game_name: String,
    pub mouse_location: Option<Point>,
    pub click_location: Option<Point>,
    pub highlight_area: Option<Area>,
}

pub open spec fn ascii_lower(c: char) -> char {
    if 'A' <= c && c <= 'Z' {
        ((c as u8) + 32) as char
    } else {
        c
    }
}

/// Whether `a` and `b` are equal when ASCII letters are compared without
/// regard to case.
pub open spec fn eq_ignore_ascii_case(a: Seq<char>, b: Seq<char>) -> bool {
    a.len() == b.len() && forall|i: int| 0 <= i < a.len() ==> ascii_lower(#[trigger] a[i]) == ascii_lower(b[i])
}

fn lower(c: char) -> (r: char)
    ensures
        r == ascii_lower(c),
{
    if 'A' <= c && c <= 'Z' {
        ((c as u8) + 32) as char
    } else {
        c
    }
}

/// Compares two texts, ASCII letters without regard to case.
pub fn same_ignoring_ascii_case(a: &str, b: &str) -> (r: bool)
    ensures
        r == eq_ignore_ascii_case(a@, b@),
{
    let n = a.unicode_len();
    if n != b.unicode_len() {
        return false;
    }
    let mut i: usize = 0;
    while i < n
        invariant
            n == a@.len(),
            n == b@.len(),
            i <= n,
            forall|j: int| 0 <= j < i ==> ascii_lower(#[trigger] a@[j]) == ascii_lower(b@[j]),
        decreases n - i,
    {
        if lower(a.get_char(i)) != lower(b.get_char(i)) {
            return false;
        }
        i = i + 1;
    }
    true
}

/// The text shown while no game is loaded.
pub open spec fn no_game_text() -> Seq<char> {
    "No game loaded!"@
}

/// The area highlighted for a pointer at `m` over a drawing area of size
/// `w` by `h`: the half of it that holds the pointer.
pub open spec fn spec_highlight(m: Point, w: u32, h: u32) -> Area {
    let half = (w / 2) as i64;
    Area { x0: half, y0: h as i64, x1: if (m.x as i64) < half { 0 } else { w as i64 }, y1: 0 }
}

impl FrontendMethods for Frontend {
    /// Whether the runtime options are shown.
    type Options = bool;

    fn create(options: Option<&bool>) -> (r: Result<Frontend, Error>)
        ensures
            r matches Ok(f) && f.game_name@ == no_game_text() && f.mouse_location is None
                && f.click_location is None && f.highlight_area is None,
    {
        proof {
            reveal_strlit("No game loaded!");
        }
        Ok(
            Frontend {
                game_name: "No game loaded!".to_owned(),
                mouse_location: None,
                click_location: None,
                highlight_area: None,
            },
        )
    }

    /// Needs the options the frontend was created with; the frontend is
    /// only read.
    fn runtime_opts_display(&mut self, ctx: &mut Context<bool>) -> (r: Result<(), Error>)
        ensures
            r is Ok <==> old(ctx).options is Some,
            r matches Err(e) ==> e.code == ErrorCode::InvalidOptions,
            *final(self) == *old(self),
            final(ctx).canvas == old(ctx).canvas,
    {
        match ctx.options {
            Some(_) => Ok(()),
            None => Err(Error::new(ErrorCode::InvalidOptions, "runtime options are missing")),
        }
    }

    /// A loaded game is named; an unloaded one is forgotten.
    fn process_event(&mut self, ctx: &mut Context<bool>, event: EventAny) -> (r: Result<(), Error>)
        ensures
            r is Ok,
            final(ctx).canvas == old(ctx).canvas,
            event.spec_base().type_ is GameUnload ==> final(self).game_name@ == no_game_text(),
    {
        match event.to_rust() {
            EventEnum::GameLoadMethods(e) => {
                let mut name = "Loaded game: ".to_owned();
                name.append(e.methods.game_name.as_str());
                self.game_name = name;
            },
            EventEnum::GameUnload(_) => {
                proof {
                    reveal_strlit("No game loaded!");
                }
                self.game_name = "No game loaded!".to_owned();
            },
            _ => {},
        }
        Ok(())
    }

    /// Follows the pointer and remembers where it was released.
    fn process_input(&mut self, ctx: &mut Context<bool>, event: SDLEventEnum) -> (r: Result<
        (),
        Error,
    >)
        ensures
            r is Ok,
            final(ctx).canvas == old(ctx).canvas,
            event matches SDLEventEnum::MouseMotion(m) ==> final(self).mouse_location == Some(
                Point { x: m.x, y: m.y },
            ),
            event matches SDLEventEnum::MouseButtonUp(b) ==> final(self).click_location == Some(
                Point { x: b.x, y: b.y },
            ),
    {
        match event {
            SDLEventEnum::MouseMotion(m) => {
                self.mouse_location = Some(Point { x: m.x, y: m.y });
            },
            SDLEventEnum::MouseButtonUp(b) => {
                self.click_location = Some(Point { x: b.x, y: b.y });
            },
            _ => {},
        }
        Ok(())
    }

    /// Highlights the half of the drawing area that holds the pointer.
    fn update(&mut self, ctx: &mut Context<bool>) -> (r: Result<(), Error>)
        ensures
            r is Ok,
            final(ctx).canvas == old(ctx).canvas,
            old(self).mouse_location matches Some(m) ==> final(self).highlight_area == Some(
                spec_highlight(m, old(ctx).display_data.w, old(ctx).display_data.h),
            ),
            old(self).mouse_location is None ==> final(self).highlight_area
                == old(self).highlight_area,
    {
        match self.mouse_location {
            None => Ok(()),
            Some(m) => {
                let w = ctx.display_data.w as i64;
                let half = (ctx.display_data.w / 2) as i64;
                let x1 = if (m.x as i64) < half { 0 } else { w };
                self.highlight_area = Some(
                    Area { x0: half, y0: ctx.display_data.h as i64, x1, y1: 0 },
                );
                Ok(())
            },
        }
    }

    /// Asks for the surface of this frame; the frontend is only read.
    fn render(&mut self, ctx: &mut Context<bool>) -> (r: Result<(), Error>)
        ensures
            r is Ok,
            *final(self) == *old(self),
            canvas_kept(old(ctx).canvas, final(ctx).canvas),
            final(ctx).canvas.cached() is Some,
    {
        let _surface = ctx.canvas.get();
        Ok(())
    }

    /// Any game but chess.
    fn is_game_compatible(game: &GameInfo) -> (r: Result<(), ErrorCode>)
        ensures
            r is Ok <==> !eq_ignore_ascii_case(game.game_name@, "chess"@),
            r matches Err(c) ==> c == ErrorCode::FeatureUnsupported,
    {
        if same_ignoring_ascii_case(game.game_name.as_str(), "chess") {
            Err(ErrorCode::FeatureUnsupported)
        } else {
            Ok(())
        }
    }

    /// Runtime options are shown by default.
    fn opts_create() -> (r: Result<bool, ErrorCode>)
        ensures
            r == Ok::<bool, ErrorCode>(true),
    {
        Ok(true)
    }

    fn opts_display(options: &mut bool) -> (r: Result<(), ErrorCode>)
        ensures
            r is Ok,
            *final(options) == *old(options),
    {
        Ok(())
    }
}

/// The method table of the example frontend, with the options feature.
pub fn example_frontend_methods() -> (r: FrontendMethodsTable)
    ensures
        r.frontend_name@ == "Example"@,
        r.version == (SemVer { major: 0, minor: 1, patch: 0 }),
        r.features == (FrontendFeatureFlags { options: true }),
        r.entries.opts_create && r.entries.opts_display && r.entries.opts_destroy,
{
    proof {
        reveal_strlit("Example");
    }
    create_frontend_methods::<Frontend>(
        Metadata {
            frontend_name: "Example".to_owned(),
            version: SemVer { major: 0, minor: 1, patch: 0 },
            features: FrontendFeatureFlags { options: true },
        },
    )
}

} // verus!
