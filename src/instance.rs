//! The per-instance bridge of the rules-engine side.
//!
//! An instance handle holds two slots: the game object and the bridge's
//! auxiliary state. Each entry point finds both through the handle, calls the
//! game, stores what it produced in the output buffer of its own kind and
//! returns a numeric code; on failure it records the message instead and
//! leaves every output buffer as it was.

use vstd::prelude::*;
use crate::base::{spec_decode, MoveDataSync, RawMoveData, RawMoveDataSync};
use crate::error::{Error, ERR_OK, spec_code_value};
use crate::event::MoveData as SafeMove;
use crate::game::{GameMethods, MoveData};
use crate::game_init::GameInit;

verus! {

/// Bridge-private state of one instance: the last error and one output
/// buffer per kind of query.
pub struct Aux<M> {
    pub error: String,
    pub state_buf: String,
    pub move_str_buf: String,
    pub options_buf: String,
    pub print_buf: String,
    pub player_buf: Vec<u8>,
    pub move_buf: Vec<M>,
    pub sync_buf: Option<MoveDataSync<M>>,
}

/// The output buffers, by kind.
pub enum BufKind {
    State,
    MoveStr,
    Options,
    Print,
    Players,
    Moves,
    Sync,
    /// No buffer at all.
    Nothing,
}

/// The kinds of text buffer.
pub enum TextKind {
    State,
    MoveStr,
    Options,
    Print,
}

impl TextKind {
    pub open spec fn buf_kind(self) -> BufKind {
        match self {
            TextKind::State => BufKind::State,
            TextKind::MoveStr => BufKind::MoveStr,
            TextKind::Options => BufKind::Options,
            TextKind::Print => BufKind::Print,
        }
    }
}

/// The text buffer of kind `k`.
pub open spec fn text_buf<M>(a: Aux<M>, k: TextKind) -> Seq<char> {
    match k {
        TextKind::State => a.state_buf@,
        TextKind::MoveStr => a.move_str_buf@,
        TextKind::Options => a.options_buf@,
        TextKind::Print => a.print_buf@,
    }
}

/// Every output buffer but the one of kind `k` holds the same in `a` and `b`.
pub open spec fn same_except<M>(a: Aux<M>, b: Aux<M>, k: BufKind) -> bool {
    &&& (k !is State ==> a.state_buf@ == b.state_buf@)
    &&& (k !is MoveStr ==> a.move_str_buf@ == b.move_str_buf@)
    &&& (k !is Options ==> a.options_buf@ == b.options_buf@)
    &&& (k !is Print ==> a.print_buf@ == b.print_buf@)
    &&& (k !is Players ==> a.player_buf@ == b.player_buf@)
    &&& (k !is Moves ==> a.move_buf@ == b.move_buf@)
    &&& (k !is Sync ==> a.sync_buf == b.sync_buf)
}

/// Every output buffer is empty.
pub open spec fn empty_buffers<M>(a: Aux<M>) -> bool {
    &&& a.state_buf@.len() == 0
    &&& a.move_str_buf@.len() == 0
    &&& a.options_buf@.len() == 0
    &&& a.print_buf@.len() == 0
    &&& a.player_buf@.len() == 0
    &&& a.move_buf@.len() == 0
    &&& a.sync_buf is None
}

/// Auxiliary state as `create` leaves it: no error and empty buffers.
pub open spec fn fresh_aux<M>(a: Aux<M>) -> bool {
    a.error@.len() == 0 && empty_buffers(a)
}

impl<M> Aux<M> {
    fn new() -> (r: Aux<M>)
        ensures
            fresh_aux(r),
    {
        Aux {
            error: String::new(),
            state_buf: String::new(),
            move_str_buf: String::new(),
            options_buf: String::new(),
            print_buf: String::new(),
            player_buf: Vec::new(),
            move_buf: Vec::new(),
            sync_buf: None,
        }
    }

    /// Records the outcome of a call that produced no output: on success the
    /// error is cleared, on failure it becomes the failure's message and the
    /// failure's code is returned.
    pub fn record<T>(&mut self, res: &Result<T, Error>) -> (r: u32)
        ensures
            res is Ok ==> r == ERR_OK && final(self).error@.len() == 0,
            res matches Err(e) ==> r == spec_code_value(e.code) && final(self).error@ == e.message@,
            same_except(*old(self), *final(self), BufKind::Nothing),
    {
        match res {
            Ok(_) => {
                self.error = String::new();
                ERR_OK
            },
            Err(e) => {
                self.error = e.message.clone();
                e.code.value()
            },
        }
    }

    /// Keeps the text `buf` that a successful call wrote, in the buffer of
    /// kind `kind`; a failed call is recorded and changes no buffer.
    pub fn keep_text(&mut self, kind: TextKind, buf: String, res: &Result<(), Error>) -> (r: u32)
        ensures
            res is Ok ==> r == ERR_OK && final(self).error@.len() == 0 && text_buf(
                *final(self),
                kind,
            ) == buf@ && same_except(*old(self), *final(self), kind.buf_kind()),
            res matches Err(e) ==> r == spec_code_value(e.code) && final(self).error@ == e.message@
                && same_except(*old(self), *final(self), BufKind::Nothing),
    {
        if res.is_ok() {
            match kind {
                TextKind::State => self.state_buf = buf,
                TextKind::MoveStr => self.move_str_buf = buf,
                TextKind::Options => self.options_buf = buf,
                TextKind::Print => self.print_buf = buf,
            }
        }
        self.record(res)
    }

    /// Keeps the player list `buf` of a successful call and writes its
    /// length to `ret_count`; a failed call is recorded and writes nothing.
    pub fn keep_players(&mut self, buf: Vec<u8>, res: &Result<(), Error>, ret_count: &mut u8) -> (r:
        u32)
        requires
            buf@.len() <= 255,
        ensures
            res is Ok ==> r == ERR_OK && final(self).error@.len() == 0 && final(self).player_buf@
                == buf@ && *final(ret_count) as int == buf@.len() && same_except(
                *old(self),
                *final(self),
                BufKind::Players,
            ),
            res matches Err(e) ==> r == spec_code_value(e.code) && final(self).error@ == e.message@
                && same_except(*old(self), *final(self), BufKind::Nothing) && *final(ret_count)
                == *old(ret_count),
    {
        if res.is_ok() {
            *ret_count = buf.len() as u8;
            self.player_buf = buf;
        }
        self.record(res)
    }

    /// Keeps the move list `buf` of a successful call, in order, and writes
    /// its length to `ret_count`; a failed call is recorded and writes
    /// nothing.
    pub fn keep_moves(&mut self, buf: Vec<M>, res: &Result<(), Error>, ret_count: &mut u32) -> (r:
        u32)
        requires
            buf@.len() <= 0xFFFF_FFFF,
        ensures
            res is Ok ==> r == ERR_OK && final(self).error@.len() == 0 && final(self).move_buf@
                == buf@ && *final(ret_count) as int == buf@.len() && same_except(
                *old(self),
                *final(self),
                BufKind::Moves,
            ),
            res matches Err(e) ==> r == spec_code_value(e.code) && final(self).error@ == e.message@
                && same_except(*old(self), *final(self), BufKind::Nothing) && *final(ret_count)
                == *old(ret_count),
    {
        if res.is_ok() {
            *ret_count = buf.len() as u32;
            self.move_buf = buf;
        }
        self.record(res)
    }

    /// Keeps the move a successful call returned in the move slot, paired
    /// with `sync_ctr`; a failed call is recorded and changes no buffer.
    pub fn keep_move(&mut self, res: Result<M, Error>, sync_ctr: u64) -> (r: u32)
        ensures
            res matches Ok(m) ==> r == ERR_OK && final(self).error@.len() == 0
                && final(self).sync_buf == Some(MoveDataSync { md: m, sync_ctr })
                && same_except(*old(self), *final(self), BufKind::Sync),
            res matches Err(e) ==> r == spec_code_value(e.code) && final(self).error@ == e.message@
                && same_except(*old(self), *final(self), BufKind::Nothing),
    {
        match res {
            Ok(md) => {
                self.sync_buf = Some(MoveDataSync { md, sync_ctr });
                self.record(&Ok::<(), Error>(()))
            },
            Err(e) => self.record(&Err::<(), Error>(e)),
        }
    }

    /// Writes the count a successful call returned to `ret_count`; a failed
    /// call is recorded and writes nothing.
    pub fn keep_count(&mut self, res: &Result<u8, Error>, ret_count: &mut u8) -> (r: u32)
        ensures
            res matches Ok(n) ==> r == ERR_OK && final(self).error@.len() == 0 && *final(ret_count)
                == n,
            res matches Err(e) ==> r == spec_code_value(e.code) && final(self).error@ == e.message@
                && *final(ret_count) == *old(ret_count),
            same_except(*old(self), *final(self), BufKind::Nothing),
    {
        match res {
            Ok(n) => {
                *ret_count = *n;
            },
            Err(_) => {},
        }
        self.record(res)
    }
}

/// What an entry point that returned `r` has done to the auxiliary state:
/// on success it cleared the error and changed no buffer but the one of kind
/// `k`; on failure it recorded a non-empty message and changed no buffer.
pub open spec fn reported<M>(r: u32, old_aux: Aux<M>, new_aux: Aux<M>, k: BufKind) -> bool {
    &&& (r == ERR_OK ==> new_aux.error@.len() == 0 && same_except(old_aux, new_aux, k))
    &&& (r != ERR_OK ==> new_aux.error@.len() > 0 && same_except(old_aux, new_aux, BufKind::Nothing))
}

/// After an entry point failed, the last error is not empty, and every output
/// buffer, of whatever kind, holds what it held before the call.
pub proof fn lemma_failure_keeps_buffers<M>(r: u32, a: Aux<M>, b: Aux<M>, k: BufKind)
    requires
        reported(r, a, b, k),
        r != ERR_OK,
    ensures
        b.error@.len() > 0,
        same_except(a, b, BufKind::Nothing),
{
}

/// `b` is a clone of `a`: both slots populated, the counter copied, the game
/// equal, and fresh auxiliary state of its own.
pub open spec fn clone_of<G: GameMethods>(a: GameInstance<G>, b: GameInstance<G>) -> bool {
    &&& b.is_valid()
    &&& b.ctr() == a.ctr()
    &&& b.game_view() == a.game_view()
    &&& fresh_aux(b.aux_state())
}

/// What `compare` reports for two instances with games.
pub open spec fn spec_compare<G: GameMethods>(a: GameInstance<G>, b: GameInstance<G>) -> bool {
    a.game_view() == b.game_view()
}

/// `b` is `a` destroyed: both slots empty, the counter kept.
pub open spec fn destroyed<G: GameMethods>(a: GameInstance<G>, b: GameInstance<G>) -> bool {
    &&& b.user() is None
    &&& b.aux() is None
    &&& b.ctr() == a.ctr()
}

/// A clone compares equal to the instance it was cloned from. The clone is
/// a separate value that owns its game and its auxiliary state, so nothing
/// done to it later can reach the original.
pub proof fn lemma_clone_compares_equal<G: GameMethods>(a: GameInstance<G>, b: GameInstance<G>)
    requires
        a.is_valid(),
        clone_of(a, b),
    ensures
        spec_compare(a, b),
        spec_compare(b, a),
{
}

/// Destroying leaves both slots empty, and destroying again changes nothing.
pub proof fn lemma_destroy_idempotent<G: GameMethods>(
    a: GameInstance<G>,
    b: GameInstance<G>,
    c: GameInstance<G>,
)
    requires
        destroyed(a, b),
        destroyed(b, c),
    ensures
        b.user() is None && b.aux() is None,
        c.user() == b.user(),
        c.aux() == b.aux(),
        c.ctr() == b.ctr(),
{
}

/// An instance handle: a slot for the game and a slot for the auxiliary
/// state, and the synchronization counter that the host manages.
pub struct GameInstance<G: GameMethods> {
    sync_ctr: u64,
    data1: Option<G>,
    data2: Option<Aux<G::Move>>,
}

impl<G: GameMethods> GameInstance<G> {
    /// The game slot.
    pub closed spec fn user(&self) -> Option<G> {
        self.data1
    }

    /// The auxiliary-state slot.
    pub closed spec fn aux(&self) -> Option<Aux<G::Move>> {
        self.data2
    }

    /// The synchronization counter.
    pub closed spec fn ctr(&self) -> u64 {
        self.sync_ctr
    }

    /// Both slots are populated.
    pub open spec fn is_valid(&self) -> bool {
        self.user() is Some && self.aux() is Some
    }

    /// The state of the game in the game slot.
    pub open spec fn game_view(&self) -> G::V {
        self.user()->Some_0@
    }

    /// The auxiliary state in its slot.
    pub open spec fn aux_state(&self) -> Aux<G::Move> {
        self.aux()->Some_0
    }

    /// A game that is populated never stands without its auxiliary state.
    pub open spec fn wf(&self) -> bool {
        self.user() is Some ==> self.aux() is Some
    }

    /// A handle as the host allocates it: both slots empty.
    pub fn new(sync_ctr: u64) -> (r: Self)
        ensures
            r.user() is None,
            r.aux() is None,
            r.ctr() == sync_ctr,
    {
        GameInstance { sync_ctr, data1: None, data2: None }
    }

    pub fn sync_ctr(&self) -> (r: u64)
        ensures
            r == self.ctr(),
    {
        self.sync_ctr
    }

    /// The host advances the counter; slots are not touched.
    pub fn set_sync_ctr(&mut self, sync_ctr: u64)
        ensures
            final(self).ctr() == sync_ctr,
            final(self).user() == old(self).user(),
            final(self).aux() == old(self).aux(),
    {
        self.sync_ctr = sync_ctr;
    }

    /// Builds the game from `init_info`. The auxiliary state is set up first,
    /// so that a failed creation leaves a handle that reports its error and
    /// can be destroyed.
    pub fn create(&mut self, init_info: &GameInit) -> (r: u32)
        ensures
            final(self).wf(),
            final(self).aux() is Some,
            final(self).ctr() == old(self).ctr(),
            (r == ERR_OK) <==> final(self).user() is Some,
            r == ERR_OK ==> fresh_aux(final(self).aux_state()),
            r != ERR_OK ==> final(self).aux_state().error@.len() > 0,
            r == ERR_OK ==> call_ensures(
                G::create,
                (init_info,),
                Ok::<G, Error>(final(self).user()->Some_0),
            ),
            r != ERR_OK ==> exists|e: Error|
                #![trigger call_ensures(G::create, (init_info,), Err::<G, Error>(e))]
                call_ensures(G::create, (init_info,), Err::<G, Error>(e)) && r == spec_code_value(
                    e.code,
                ) && final(self).aux_state().error@ == e.message@,
    {
        let res = G::create(init_info);
        self.create_from(res)
    }

    /// Stores the outcome of a game's creation: on success the game, beside
    /// fresh auxiliary state; on failure no game, and auxiliary state that
    /// holds the failure's message, so that the handle can report it and be
    /// destroyed.
    pub fn create_from(&mut self, res: Result<G, Error>) -> (r: u32)
        ensures
            final(self).wf(),
            final(self).aux() is Some,
            final(self).ctr() == old(self).ctr(),
            res matches Ok(g) ==> r == ERR_OK && final(self).user() == Some(g) && fresh_aux(
                final(self).aux_state(),
            ),
            res matches Err(e) ==> r == spec_code_value(e.code) && r != ERR_OK
                && final(self).user() is None && final(self).aux_state().error@ == e.message@
                && empty_buffers(final(self).aux_state()),
    {
        self.data1 = None;
        let mut aux = Aux::new();
        let r = aux.record(&res);
        self.data2 = Some(aux);
        match res {
            Ok(game) => {
                self.data1 = Some(game);
            },
            Err(_) => {},
        }
        r
    }

    /// The message of the last failure; empty after a success.
    pub fn get_last_error(&self) -> (r: &str)
        requires
            self.aux() is Some,
        ensures
            r@ == self.aux_state().error@,
    {
        self.data2.as_ref().unwrap().error.as_str()
    }

    /// Frees the game and then the auxiliary state, leaving both slots
    /// empty; on a handle whose slots are already empty it does nothing.
    pub fn destroy(&mut self) -> (r: u32)
        ensures
            r == ERR_OK,
            destroyed(*old(self), *final(self)),
    {
        self.data1 = None;
        self.data2 = None;
        ERR_OK
    }

    /// Makes `target` a storage-independent copy of this instance: the
    /// counter is copied, fresh auxiliary state is set up, and the game is
    /// duplicated.
    pub fn clone_to(&self, target: &mut Self) -> (r: u32)
        requires
            self.is_valid(),
        ensures
            r == ERR_OK,
            clone_of(*self, *final(target)),
    {
        target.sync_ctr = self.sync_ctr;
        target.data1 = None;
        target.data2 = Some(Aux::new());
        let game = self.data1.as_ref().unwrap().duplicate();
        target.data1 = Some(game);
        ERR_OK
    }

    /// The game in the handle.
    pub fn game(&self) -> (r: &G)
        requires
            self.user() is Some,
        ensures
            *r == self.user()->Some_0,
    {
        self.data1.as_ref().unwrap()
    }

    /// Whether the two games are in the same state.
    pub fn compare(&self, other: &Self) -> (r: bool)
        requires
            self.user() is Some,
            other.user() is Some,
        ensures
            r == spec_compare(*self, *other),
    {
        self.data1.as_ref().unwrap().equals(other.data1.as_ref().unwrap())
    }

    /// Takes both slots out of a valid handle.
    fn take_both(&mut self) -> (r: (G, Aux<G::Move>))
        requires
            old(self).is_valid(),
        ensures
            r.0 == old(self).user()->Some_0,
            r.1 == old(self).aux_state(),
            final(self).ctr() == old(self).ctr(),
    {
        let game = self.data1.take().unwrap();
        let aux = self.data2.take().unwrap();
        (game, aux)
    }

    /// Puts both slots back into the handle.
    fn put_back(&mut self, game: G, aux: Aux<G::Move>)
        ensures
            final(self).is_valid(),
            final(self).ctr() == old(self).ctr(),
            final(self).user() == Some(game),
            final(self).aux() == Some(aux),
    {
        self.data1 = Some(game);
        self.data2 = Some(aux);
    }

    /// Copies the state of the game of `other` into this one.
    pub fn copy_from(&mut self, other: &Self) -> (r: u32)
        requires
            old(self).is_valid(),
            other.user() is Some,
        ensures
            final(self).is_valid(),
            final(self).ctr() == old(self).ctr(),
            r != ERR_OK ==> final(self).game_view() == old(self).game_view(),
            reported(r, old(self).aux_state(), final(self).aux_state(), BufKind::Nothing),
            r == ERR_OK ==> final(self).game_view() == other.game_view(),
            r == ERR_OK ==> exists|g: &mut G, o: &G, v: Result<(), Error>|
                #![trigger call_ensures(G::copy_from, (g, o), v)]
                call_ensures(G::copy_from, (g, o), v) && *g == old(self).user()->Some_0 && *final(g) == final(self).user()->Some_0 && *o == other.user()->Some_0 && v is Ok,
            r != ERR_OK ==> exists|g: &mut G, o: &G, v: Result<(), Error>|
                #![trigger call_ensures(G::copy_from, (g, o), v)]
                call_ensures(G::copy_from, (g, o), v) && *g == old(self).user()->Some_0 && *final(g) == final(self).user()->Some_0 && *o == other.user()->Some_0 && v is Err && r == spec_code_value(v->Err_0.code)
                    && final(self).aux_state().error@ == v->Err_0.message@,
    {
        let (mut game, mut aux) = self.take_both();
        let res = game.copy_from(other.data1.as_ref().unwrap());
        let r = aux.record(&res);
        self.put_back(game, aux);
        r
    }

    /// Writes the number of players to `ret_count`.
    pub fn player_count(&mut self, ret_count: &mut u8) -> (r: u32)
        requires
            old(self).is_valid(),
        ensures
            final(self).is_valid(),
            final(self).ctr() == old(self).ctr(),
            r != ERR_OK ==> final(self).game_view() == old(self).game_view(),
            reported(r, old(self).aux_state(), final(self).aux_state(), BufKind::Nothing),
            r != ERR_OK ==> *final(ret_count) == *old(ret_count),
            r == ERR_OK ==> exists|g: &mut G, v: Result<u8, Error>|
                #![trigger call_ensures(G::player_count, (g,), v)]
                call_ensures(G::player_count, (g,), v) && *g == old(self).user()->Some_0 && *final(g) == final(self).user()->Some_0 && v is Ok && *final(ret_count) == v->Ok_0,
            r != ERR_OK ==> exists|g: &mut G, v: Result<u8, Error>|
                #![trigger call_ensures(G::player_count, (g,), v)]
                call_ensures(G::player_count, (g,), v) && *g == old(self).user()->Some_0 && *final(g) == final(self).user()->Some_0 && v is Err && r == spec_code_value(v->Err_0.code)
                    && final(self).aux_state().error@ == v->Err_0.message@,
    {
        let (mut game, mut aux) = self.take_both();
        let res = game.player_count();
        let r = aux.keep_count(&res, ret_count);
        self.put_back(game, aux);
        r
    }

    /// Loads a state string; `None` restores the initial state.
    pub fn import_state(&mut self, string: Option<&str>) -> (r: u32)
        requires
            old(self).is_valid(),
        ensures
            final(self).is_valid(),
            final(self).ctr() == old(self).ctr(),
            r != ERR_OK ==> final(self).game_view() == old(self).game_view(),
            reported(r, old(self).aux_state(), final(self).aux_state(), BufKind::Nothing),
            r == ERR_OK ==> exists|g: &mut G, v: Result<(), Error>|
                #![trigger call_ensures(G::import_state, (g, string), v)]
                call_ensures(G::import_state, (g, string), v) && *g == old(self).user()->Some_0 && *final(g) == final(self).user()->Some_0 && v is Ok,
            r != ERR_OK ==> exists|g: &mut G, v: Result<(), Error>|
                #![trigger call_ensures(G::import_state, (g, string), v)]
                call_ensures(G::import_state, (g, string), v) && *g == old(self).user()->Some_0 && *final(g) == final(self).user()->Some_0 && v is Err && r == spec_code_value(v->Err_0.code)
                    && final(self).aux_state().error@ == v->Err_0.message@,
    {
        let (mut game, mut aux) = self.take_both();
        let res = game.import_state(string);
        let r = aux.record(&res);
        self.put_back(game, aux);
        r
    }

    /// Writes the state as seen by `player` into the state buffer.
    pub fn export_state(&mut self, player: u8) -> (r: u32)
        requires
            old(self).is_valid(),
        ensures
            final(self).is_valid(),
            final(self).ctr() == old(self).ctr(),
            r != ERR_OK ==> final(self).game_view() == old(self).game_view(),
            reported(r, old(self).aux_state(), final(self).aux_state(), BufKind::State),
            r == ERR_OK ==> exists|g: &mut G, b: &mut String, v: Result<(), Error>|
                #![trigger call_ensures(G::export_state, (g, player, b), v)]
                call_ensures(G::export_state, (g, player, b), v) && *g == old(self).user()->Some_0 && *final(g) == final(self).user()->Some_0 && (*b)@.len() == 0 && v is Ok && final(self).aux_state().state_buf@ == (*final(b))@,
            r != ERR_OK ==> exists|g: &mut G, b: &mut String, v: Result<(), Error>|
                #![trigger call_ensures(G::export_state, (g, player, b), v)]
                call_ensures(G::export_state, (g, player, b), v) && *g == old(self).user()->Some_0 && *final(g) == final(self).user()->Some_0 && (*b)@.len() == 0 && v is Err && r == spec_code_value(v->Err_0.code)
                    && final(self).aux_state().error@ == v->Err_0.message@,
    {
        let (mut game, mut aux) = self.take_both();
        let mut buf = String::new();
        let res = game.export_state(player, &mut buf);
        let r = aux.keep_text(TextKind::State, buf, &res);
        self.put_back(game, aux);
        r
    }

    /// Writes the options into the options buffer.
    pub fn export_options(&mut self, player: u8) -> (r: u32)
        requires
            old(self).is_valid(),
        ensures
            final(self).is_valid(),
            final(self).ctr() == old(self).ctr(),
            r != ERR_OK ==> final(self).game_view() == old(self).game_view(),
            reported(r, old(self).aux_state(), final(self).aux_state(), BufKind::Options),
            r == ERR_OK ==> exists|g: &mut G, b: &mut String, v: Result<(), Error>|
                #![trigger call_ensures(G::export_options, (g, player, b), v)]
                call_ensures(G::export_options, (g, player, b), v) && *g == old(self).user()->Some_0 && *final(g) == final(self).user()->Some_0 && (*b)@.len() == 0 && v is Ok && final(self).aux_state().options_buf@ == (*final(b))@,
            r != ERR_OK ==> exists|g: &mut G, b: &mut String, v: Result<(), Error>|
                #![trigger call_ensures(G::export_options, (g, player, b), v)]
                call_ensures(G::export_options, (g, player, b), v) && *g == old(self).user()->Some_0 && *final(g) == final(self).user()->Some_0 && (*b)@.len() == 0 && v is Err && r == spec_code_value(v->Err_0.code)
                    && final(self).aux_state().error@ == v->Err_0.message@,
    {
        let (mut game, mut aux) = self.take_both();
        let mut buf = String::new();
        let res = game.export_options(player, &mut buf);
        let r = aux.keep_text(TextKind::Options, buf, &res);
        self.put_back(game, aux);
        r
    }

    /// Writes a printout of the board into the print buffer.
    pub fn print(&mut self, player: u8) -> (r: u32)
        requires
            old(self).is_valid(),
        ensures
            final(self).is_valid(),
            final(self).ctr() == old(self).ctr(),
            r != ERR_OK ==> final(self).game_view() == old(self).game_view(),
            reported(r, old(self).aux_state(), final(self).aux_state(), BufKind::Print),
            r == ERR_OK ==> exists|g: &mut G, b: &mut String, v: Result<(), Error>|
                #![trigger call_ensures(G::print, (g, player, b), v)]
                call_ensures(G::print, (g, player, b), v) && *g == old(self).user()->Some_0 && *final(g) == final(self).user()->Some_0 && (*b)@.len() == 0 && v is Ok && final(self).aux_state().print_buf@ == (*final(b))@,
            r != ERR_OK ==> exists|g: &mut G, b: &mut String, v: Result<(), Error>|
                #![trigger call_ensures(G::print, (g, player, b), v)]
                call_ensures(G::print, (g, player, b), v) && *g == old(self).user()->Some_0 && *final(g) == final(self).user()->Some_0 && (*b)@.len() == 0 && v is Err && r == spec_code_value(v->Err_0.code)
                    && final(self).aux_state().error@ == v->Err_0.message@,
    {
        let (mut game, mut aux) = self.take_both();
        let mut buf = String::new();
        let res = game.print(player, &mut buf);
        let r = aux.keep_text(TextKind::Print, buf, &res);
        self.put_back(game, aux);
        r
    }

    /// Writes the text of `mov` into the move-string buffer.
    pub fn get_move_str(&mut self, player: u8, mov: &RawMoveDataSync) -> (r: u32)
        requires
            old(self).is_valid(),
        ensures
            final(self).is_valid(),
            final(self).ctr() == old(self).ctr(),
            r != ERR_OK ==> final(self).game_view() == old(self).game_view(),
            reported(r, old(self).aux_state(), final(self).aux_state(), BufKind::MoveStr),
            r == ERR_OK ==> exists|g: &mut G, mv: MoveDataSync<SafeMove>, b: &mut String, v: Result<(), Error>|
                #![trigger call_ensures(G::get_move_str, (g, player, mv, b), v)]
                call_ensures(G::get_move_str, (g, player, mv, b), v) && *g == old(self).user()->Some_0 && *final(g) == final(self).user()->Some_0 && mv.md@ == spec_decode(mov.md@) && mv.sync_ctr == mov.sync_ctr && (*b)@.len() == 0 && v is Ok && final(self).aux_state().move_str_buf@ == (*final(b))@,
            r != ERR_OK ==> exists|g: &mut G, mv: MoveDataSync<SafeMove>, b: &mut String, v: Result<(), Error>|
                #![trigger call_ensures(G::get_move_str, (g, player, mv, b), v)]
                call_ensures(G::get_move_str, (g, player, mv, b), v) && *g == old(self).user()->Some_0 && *final(g) == final(self).user()->Some_0 && mv.md@ == spec_decode(mov.md@) && mv.sync_ctr == mov.sync_ctr && (*b)@.len() == 0 && v is Err && r == spec_code_value(v->Err_0.code)
                    && final(self).aux_state().error@ == v->Err_0.message@,
    {
        let (mut game, mut aux) = self.take_both();
        let m = MoveDataSync { md: SafeMove::from_ref(&mov.md), sync_ctr: mov.sync_ctr };
        let mut buf = String::new();
        let res = game.get_move_str(player, m, &mut buf);
        let r = aux.keep_text(TextKind::MoveStr, buf, &res);
        self.put_back(game, aux);
        r
    }

    /// Lists the players to move in the player buffer and writes their number.
    pub fn players_to_move(&mut self, ret_count: &mut u8) -> (r: u32)
        requires
            old(self).is_valid(),
        ensures
            final(self).is_valid(),
            final(self).ctr() == old(self).ctr(),
            r != ERR_OK ==> final(self).game_view() == old(self).game_view(),
            reported(r, old(self).aux_state(), final(self).aux_state(), BufKind::Players),
            r == ERR_OK ==> *final(ret_count) as int == final(self).aux_state().player_buf@.len(),
            r != ERR_OK ==> *final(ret_count) == *old(ret_count),
            r == ERR_OK ==> exists|g: &mut G, b: &mut Vec<u8>, v: Result<(), Error>|
                #![trigger call_ensures(G::players_to_move, (g, b), v)]
                call_ensures(G::players_to_move, (g, b), v) && *g == old(self).user()->Some_0 && *final(g) == final(self).user()->Some_0 && (*b)@.len() == 0 && v is Ok && final(self).aux_state().player_buf@ == (*final(b))@,
            r != ERR_OK ==> exists|g: &mut G, b: &mut Vec<u8>, v: Result<(), Error>|
                #![trigger call_ensures(G::players_to_move, (g, b), v)]
                call_ensures(G::players_to_move, (g, b), v) && *g == old(self).user()->Some_0 && *final(g) == final(self).user()->Some_0 && (*b)@.len() == 0 && v is Err && r == spec_code_value(v->Err_0.code)
                    && final(self).aux_state().error@ == v->Err_0.message@,
    {
        let (mut game, mut aux) = self.take_both();
        let mut buf: Vec<u8> = Vec::new();
        let res = game.players_to_move(&mut buf);
        let r = aux.keep_players(buf, &res, ret_count);
        self.put_back(game, aux);
        r
    }

    /// Lists the winning players in the player buffer and writes their number.
    pub fn get_results(&mut self, ret_count: &mut u8) -> (r: u32)
        requires
            old(self).is_valid(),
        ensures
            final(self).is_valid(),
            final(self).ctr() == old(self).ctr(),
            r != ERR_OK ==> final(self).game_view() == old(self).game_view(),
            reported(r, old(self).aux_state(), final(self).aux_state(), BufKind::Players),
            r == ERR_OK ==> *final(ret_count) as int == final(self).aux_state().player_buf@.len(),
            r != ERR_OK ==> *final(ret_count) == *old(ret_count),
            r == ERR_OK ==> exists|g: &mut G, b: &mut Vec<u8>, v: Result<(), Error>|
                #![trigger call_ensures(G::get_results, (g, b), v)]
                call_ensures(G::get_results, (g, b), v) && *g == old(self).user()->Some_0 && *final(g) == final(self).user()->Some_0 && (*b)@.len() == 0 && v is Ok && final(self).aux_state().player_buf@ == (*final(b))@,
            r != ERR_OK ==> exists|g: &mut G, b: &mut Vec<u8>, v: Result<(), Error>|
                #![trigger call_ensures(G::get_results, (g, b), v)]
                call_ensures(G::get_results, (g, b), v) && *g == old(self).user()->Some_0 && *final(g) == final(self).user()->Some_0 && (*b)@.len() == 0 && v is Err && r == spec_code_value(v->Err_0.code)
                    && final(self).aux_state().error@ == v->Err_0.message@,
    {
        let (mut game, mut aux) = self.take_both();
        let mut buf: Vec<u8> = Vec::new();
        let res = game.get_results(&mut buf);
        let r = aux.keep_players(buf, &res, ret_count);
        self.put_back(game, aux);
        r
    }

    /// Lists the moves of `player` in the move buffer and writes their number.
    pub fn get_concrete_moves(&mut self, player: u8, ret_count: &mut u32) -> (r: u32)
        requires
            old(self).is_valid(),
        ensures
            final(self).is_valid(),
            final(self).ctr() == old(self).ctr(),
            r != ERR_OK ==> final(self).game_view() == old(self).game_view(),
            reported(r, old(self).aux_state(), final(self).aux_state(), BufKind::Moves),
            r == ERR_OK ==> *final(ret_count) as int == final(self).aux_state().move_buf@.len(),
            r != ERR_OK ==> *final(ret_count) == *old(ret_count),
            r == ERR_OK ==> exists|g: &mut G, b: &mut Vec<G::Move>, v: Result<(), Error>|
                #![trigger call_ensures(G::get_concrete_moves, (g, player, b), v)]
                call_ensures(G::get_concrete_moves, (g, player, b), v) && *g == old(self).user()->Some_0 && *final(g) == final(self).user()->Some_0 && (*b)@.len() == 0 && v is Ok && final(self).aux_state().move_buf@ == (*final(b))@,
            r != ERR_OK ==> exists|g: &mut G, b: &mut Vec<G::Move>, v: Result<(), Error>|
                #![trigger call_ensures(G::get_concrete_moves, (g, player, b), v)]
                call_ensures(G::get_concrete_moves, (g, player, b), v) && *g == old(self).user()->Some_0 && *final(g) == final(self).user()->Some_0 && (*b)@.len() == 0 && v is Err && r == spec_code_value(v->Err_0.code)
                    && final(self).aux_state().error@ == v->Err_0.message@,
    {
        let (mut game, mut aux) = self.take_both();
        let mut buf: Vec<G::Move> = Vec::new();
        let res = game.get_concrete_moves(player, &mut buf);
        let r = aux.keep_moves(buf, &res, ret_count);
        self.put_back(game, aux);
        r
    }

    /// Lists the actions `player` can tell apart in the move buffer and writes their number.
    pub fn get_actions(&mut self, player: u8, ret_count: &mut u32) -> (r: u32)
        requires
            old(self).is_valid(),
        ensures
            final(self).is_valid(),
            final(self).ctr() == old(self).ctr(),
            r != ERR_OK ==> final(self).game_view() == old(self).game_view(),
            reported(r, old(self).aux_state(), final(self).aux_state(), BufKind::Moves),
            r == ERR_OK ==> *final(ret_count) as int == final(self).aux_state().move_buf@.len(),
            r != ERR_OK ==> *final(ret_count) == *old(ret_count),
            r == ERR_OK ==> exists|g: &mut G, b: &mut Vec<G::Move>, v: Result<(), Error>|
                #![trigger call_ensures(G::get_actions, (g, player, b), v)]
                call_ensures(G::get_actions, (g, player, b), v) && *g == old(self).user()->Some_0 && *final(g) == final(self).user()->Some_0 && (*b)@.len() == 0 && v is Ok && final(self).aux_state().move_buf@ == (*final(b))@,
            r != ERR_OK ==> exists|g: &mut G, b: &mut Vec<G::Move>, v: Result<(), Error>|
                #![trigger call_ensures(G::get_actions, (g, player, b), v)]
                call_ensures(G::get_actions, (g, player, b), v) && *g == old(self).user()->Some_0 && *final(g) == final(self).user()->Some_0 && (*b)@.len() == 0 && v is Err && r == spec_code_value(v->Err_0.code)
                    && final(self).aux_state().error@ == v->Err_0.message@,
    {
        let (mut game, mut aux) = self.take_both();
        let mut buf: Vec<G::Move> = Vec::new();
        let res = game.get_actions(player, &mut buf);
        let r = aux.keep_moves(buf, &res, ret_count);
        self.put_back(game, aux);
        r
    }

    /// Checks whether `player` may make `mov`.
    pub fn is_legal_move(&mut self, player: u8, mov: &RawMoveDataSync) -> (r: u32)
        requires
            old(self).is_valid(),
        ensures
            final(self).is_valid(),
            final(self).ctr() == old(self).ctr(),
            r != ERR_OK ==> final(self).game_view() == old(self).game_view(),
            reported(r, old(self).aux_state(), final(self).aux_state(), BufKind::Nothing),
            r == ERR_OK ==> exists|g: &mut G, mv: MoveDataSync<SafeMove>, v: Result<(), Error>|
                #![trigger call_ensures(G::is_legal_move, (g, player, mv), v)]
                call_ensures(G::is_legal_move, (g, player, mv), v) && *g == old(self).user()->Some_0 && *final(g) == final(self).user()->Some_0 && mv.md@ == spec_decode(mov.md@) && mv.sync_ctr == mov.sync_ctr && v is Ok,
            r != ERR_OK ==> exists|g: &mut G, mv: MoveDataSync<SafeMove>, v: Result<(), Error>|
                #![trigger call_ensures(G::is_legal_move, (g, player, mv), v)]
                call_ensures(G::is_legal_move, (g, player, mv), v) && *g == old(self).user()->Some_0 && *final(g) == final(self).user()->Some_0 && mv.md@ == spec_decode(mov.md@) && mv.sync_ctr == mov.sync_ctr && v is Err && r == spec_code_value(v->Err_0.code)
                    && final(self).aux_state().error@ == v->Err_0.message@,
    {
        let (mut game, mut aux) = self.take_both();
        let m = MoveDataSync { md: SafeMove::from_ref(&mov.md), sync_ctr: mov.sync_ctr };
        let res = game.is_legal_move(player, m);
        let r = aux.record(&res);
        self.put_back(game, aux);
        r
    }

    /// Makes `mov` for `player`.
    pub fn make_move(&mut self, player: u8, mov: &RawMoveDataSync) -> (r: u32)
        requires
            old(self).is_valid(),
        ensures
            final(self).is_valid(),
            final(self).ctr() == old(self).ctr(),
            r != ERR_OK ==> final(self).game_view() == old(self).game_view(),
            reported(r, old(self).aux_state(), final(self).aux_state(), BufKind::Nothing),
            r == ERR_OK ==> exists|g: &mut G, mv: MoveDataSync<SafeMove>, v: Result<(), Error>|
                #![trigger call_ensures(G::make_move, (g, player, mv), v)]
                call_ensures(G::make_move, (g, player, mv), v) && *g == old(self).user()->Some_0 && *final(g) == final(self).user()->Some_0 && mv.md@ == spec_decode(mov.md@) && mv.sync_ctr == mov.sync_ctr && v is Ok,
            r != ERR_OK ==> exists|g: &mut G, mv: MoveDataSync<SafeMove>, v: Result<(), Error>|
                #![trigger call_ensures(G::make_move, (g, player, mv), v)]
                call_ensures(G::make_move, (g, player, mv), v) && *g == old(self).user()->Some_0 && *final(g) == final(self).user()->Some_0 && mv.md@ == spec_decode(mov.md@) && mv.sync_ctr == mov.sync_ctr && v is Err && r == spec_code_value(v->Err_0.code)
                    && final(self).aux_state().error@ == v->Err_0.message@,
    {
        let (mut game, mut aux) = self.take_both();
        let m = MoveDataSync { md: SafeMove::from_ref(&mov.md), sync_ctr: mov.sync_ctr };
        let res = game.make_move(player, m);
        let r = aux.record(&res);
        self.put_back(game, aux);
        r
    }

    /// Removes what the players outside `players` must not know.
    pub fn redact_keep_state(&mut self, players: &[u8]) -> (r: u32)
        requires
            old(self).is_valid(),
        ensures
            final(self).is_valid(),
            final(self).ctr() == old(self).ctr(),
            r != ERR_OK ==> final(self).game_view() == old(self).game_view(),
            reported(r, old(self).aux_state(), final(self).aux_state(), BufKind::Nothing),
            r == ERR_OK ==> exists|g: &mut G, v: Result<(), Error>|
                #![trigger call_ensures(G::redact_keep_state, (g, players), v)]
                call_ensures(G::redact_keep_state, (g, players), v) && *g == old(self).user()->Some_0 && *final(g) == final(self).user()->Some_0 && v is Ok,
            r != ERR_OK ==> exists|g: &mut G, v: Result<(), Error>|
                #![trigger call_ensures(G::redact_keep_state, (g, players), v)]
                call_ensures(G::redact_keep_state, (g, players), v) && *g == old(self).user()->Some_0 && *final(g) == final(self).user()->Some_0 && v is Err && r == spec_code_value(v->Err_0.code)
                    && final(self).aux_state().error@ == v->Err_0.message@,
    {
        let (mut game, mut aux) = self.take_both();
        let res = game.redact_keep_state(players);
        let r = aux.record(&res);
        self.put_back(game, aux);
        r
    }

    /// Reads the move text `string` of `player` into the move slot.
    pub fn get_move_data(&mut self, player: u8, string: &str) -> (r: u32)
        requires
            old(self).is_valid(),
        ensures
            final(self).is_valid(),
            final(self).ctr() == old(self).ctr(),
            r != ERR_OK ==> final(self).game_view() == old(self).game_view(),
            reported(r, old(self).aux_state(), final(self).aux_state(), BufKind::Sync),
            r == ERR_OK ==> (final(self).aux_state().sync_buf matches Some(m) && m.sync_ctr == old(self).ctr()),
            r == ERR_OK ==> exists|g: &mut G, v: Result<G::Move, Error>|
                #![trigger call_ensures(G::get_move_data, (g, player, string), v)]
                call_ensures(G::get_move_data, (g, player, string), v) && *g == old(self).user()->Some_0 && *final(g) == final(self).user()->Some_0 && v is Ok && final(self).aux_state().sync_buf == Some(MoveDataSync { md: v->Ok_0, sync_ctr: old(self).ctr() }),
            r != ERR_OK ==> exists|g: &mut G, v: Result<G::Move, Error>|
                #![trigger call_ensures(G::get_move_data, (g, player, string), v)]
                call_ensures(G::get_move_data, (g, player, string), v) && *g == old(self).user()->Some_0 && *final(g) == final(self).user()->Some_0 && v is Err && r == spec_code_value(v->Err_0.code)
                    && final(self).aux_state().error@ == v->Err_0.message@,
    {
        let (mut game, mut aux) = self.take_both();
        let res = game.get_move_data(player, string);
        let r = aux.keep_move(res, self.sync_ctr);
        self.put_back(game, aux);
        r
    }

    /// Draws a random move from `seed` into the move slot.
    pub fn get_random_move(&mut self, seed: u64) -> (r: u32)
        requires
            old(self).is_valid(),
        ensures
            final(self).is_valid(),
            final(self).ctr() == old(self).ctr(),
            r != ERR_OK ==> final(self).game_view() == old(self).game_view(),
            reported(r, old(self).aux_state(), final(self).aux_state(), BufKind::Sync),
            r == ERR_OK ==> (final(self).aux_state().sync_buf matches Some(m) && m.sync_ctr == old(self).ctr()),
            r == ERR_OK ==> exists|g: &mut G, v: Result<G::Move, Error>|
                #![trigger call_ensures(G::get_random_move, (g, seed), v)]
                call_ensures(G::get_random_move, (g, seed), v) && *g == old(self).user()->Some_0 && *final(g) == final(self).user()->Some_0 && v is Ok && final(self).aux_state().sync_buf == Some(MoveDataSync { md: v->Ok_0, sync_ctr: old(self).ctr() }),
            r != ERR_OK ==> exists|g: &mut G, v: Result<G::Move, Error>|
                #![trigger call_ensures(G::get_random_move, (g, seed), v)]
                call_ensures(G::get_random_move, (g, seed), v) && *g == old(self).user()->Some_0 && *final(g) == final(self).user()->Some_0 && v is Err && r == spec_code_value(v->Err_0.code)
                    && final(self).aux_state().error@ == v->Err_0.message@,
    {
        let (mut game, mut aux) = self.take_both();
        let res = game.get_random_move(seed);
        let r = aux.keep_move(res, self.sync_ctr);
        self.put_back(game, aux);
        r
    }

    /// Translates `mov` into the action `target_player` sees, in the move slot.
    pub fn move_to_action(&mut self, player: u8, mov: &RawMoveDataSync, target_player: u8) -> (r: u32)
        requires
            old(self).is_valid(),
        ensures
            final(self).is_valid(),
            final(self).ctr() == old(self).ctr(),
            r != ERR_OK ==> final(self).game_view() == old(self).game_view(),
            reported(r, old(self).aux_state(), final(self).aux_state(), BufKind::Sync),
            r == ERR_OK ==> (final(self).aux_state().sync_buf matches Some(m) && m.sync_ctr == old(self).ctr()),
            r == ERR_OK ==> exists|g: &mut G, mv: MoveDataSync<SafeMove>, v: Result<G::Move, Error>|
                #![trigger call_ensures(G::move_to_action, (g, player, mv, target_player), v)]
                call_ensures(G::move_to_action, (g, player, mv, target_player), v) && *g == old(self).user()->Some_0 && *final(g) == final(self).user()->Some_0 && mv.md@ == spec_decode(mov.md@) && mv.sync_ctr == mov.sync_ctr && v is Ok && final(self).aux_state().sync_buf == Some(MoveDataSync { md: v->Ok_0, sync_ctr: old(self).ctr() }),
            r != ERR_OK ==> exists|g: &mut G, mv: MoveDataSync<SafeMove>, v: Result<G::Move, Error>|
                #![trigger call_ensures(G::move_to_action, (g, player, mv, target_player), v)]
                call_ensures(G::move_to_action, (g, player, mv, target_player), v) && *g == old(self).user()->Some_0 && *final(g) == final(self).user()->Some_0 && mv.md@ == spec_decode(mov.md@) && mv.sync_ctr == mov.sync_ctr && v is Err && r == spec_code_value(v->Err_0.code)
                    && final(self).aux_state().error@ == v->Err_0.message@,
    {
        let (mut game, mut aux) = self.take_both();
        let m = MoveDataSync { md: SafeMove::from_ref(&mov.md), sync_ctr: mov.sync_ctr };
        let res = game.move_to_action(player, m, target_player);
        let r = aux.keep_move(res, self.sync_ctr);
        self.put_back(game, aux);
        r
    }

    /// The state buffer.
    pub fn state_str(&self) -> (r: &str)
        requires
            self.aux() is Some,
        ensures
            r@ == self.aux_state().state_buf@,
    {
        self.data2.as_ref().unwrap().state_buf.as_str()
    }

    /// The move-string buffer.
    pub fn move_str(&self) -> (r: &str)
        requires
            self.aux() is Some,
        ensures
            r@ == self.aux_state().move_str_buf@,
    {
        self.data2.as_ref().unwrap().move_str_buf.as_str()
    }

    /// The options buffer.
    pub fn options_str(&self) -> (r: &str)
        requires
            self.aux() is Some,
        ensures
            r@ == self.aux_state().options_buf@,
    {
        self.data2.as_ref().unwrap().options_buf.as_str()
    }

    /// The print buffer.
    pub fn print_str(&self) -> (r: &str)
        requires
            self.aux() is Some,
        ensures
            r@ == self.aux_state().print_buf@,
    {
        self.data2.as_ref().unwrap().print_buf.as_str()
    }

    /// The player buffer.
    pub fn players(&self) -> (r: &[u8])
        requires
            self.aux() is Some,
        ensures
            r@ == self.aux_state().player_buf@,
    {
        self.data2.as_ref().unwrap().player_buf.as_slice()
    }

    /// The move buffer in wire form.
    pub fn moves_raw(&self) -> (r: Vec<RawMoveData>)
        requires
            self.aux() is Some,
        ensures
            r@.len() == self.aux_state().move_buf@.len(),
            forall|i: int|
                0 <= i < r@.len() ==> spec_decode(#[trigger] r@[i]@)
                    == self.aux_state().move_buf@[i].move_value() && r@[i].wf(),
    {
        let moves = &self.data2.as_ref().unwrap().move_buf;
        let mut r: Vec<RawMoveData> = Vec::new();
        let mut i: usize = 0;
        while i < moves.len()
            invariant
                i <= moves@.len(),
                moves@ == self.aux_state().move_buf@,
                r@.len() == i,
                forall|j: int|
                    0 <= j < i ==> spec_decode(#[trigger] r@[j]@) == moves@[j].move_value()
                        && r@[j].wf(),
            decreases moves@.len() - i,
        {
            r.push(moves[i].to_raw());
            i = i + 1;
        }
        r
    }

    /// The move slot in wire form.
    pub fn sync_raw(&self) -> (r: Option<RawMoveDataSync>)
        requires
            self.aux() is Some,
        ensures
            (r is Some) == (self.aux_state().sync_buf is Some),
            r matches Some(m) ==> (self.aux_state().sync_buf matches Some(s)
                && m.sync_ctr == s.sync_ctr && spec_decode(m.md@) == s.md.move_value() && m.md.wf()),
    {
        match &self.data2.as_ref().unwrap().sync_buf {
            Some(s) => Some(MoveDataSync { md: s.md.to_raw(), sync_ctr: s.sync_ctr }),
            None => None,
        }
    }
}

} // verus!
