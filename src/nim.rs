//! An example game on the bridge: misère Nim with one counter.
//!
//! Players A and B take turns subtracting between one and a maximum from a
//! counter; the player to move once the counter reaches zero wins.

use vstd::prelude::*;
use vstd::string::*;
use crate::base::{MoveDataSync, MoveValue};
use crate::error::{Error, ErrorCode};
use crate::event::{opt_str_view, MoveData as SafeMove};
use crate::game::{GameFeatures, GameMethods, Metadata, MoveCode, SemVer};
use crate::game_init::GameInit;
use crate::text::{
    after_token, decimal, find_token, parse_u16, parse_unsigned, token_text, write_decimal,
    ParseError,
};

verus! {

pub const DEFAULT_COUNTER: u16 = 21;

pub const DEFAULT_MAX_SUB: u16 = 3;

/// State of a game of Nim.
#[derive(Clone, Copy, Debug, PartialEq, Eq, Structural)]
pub struct Nim {
    pub counter: u16,
    pub max_sub: u16,
    pub initial_counter: u16,
    /// `false` while A is to move, `true` while B is.
    pub turn: bool,
}

impl View for Nim {
    type V = Nim;

    open spec fn view(&self) -> Nim {
        *self
    }
}

pub open spec fn spec_new(counter: u16, max_sub: u16) -> Nim {
    Nim { counter, max_sub, initial_counter: counter, turn: false }
}

pub open spec fn spec_default() -> Nim {
    spec_new(DEFAULT_COUNTER, DEFAULT_MAX_SUB)
}

/// The initial state under the same options.
pub open spec fn spec_reset(n: Nim) -> Nim {
    Nim { counter: n.initial_counter, turn: false, ..n }
}

pub open spec fn spec_player_id(n: Nim) -> u8 {
    if n.turn { 2 } else { 1 }
}

pub open spec fn spec_player_char(n: Nim) -> char {
    if n.turn { 'B' } else { 'A' }
}

/// The largest amount that may be subtracted now.
pub open spec fn spec_limit(n: Nim) -> u16 {
    if n.max_sub < n.counter { n.max_sub } else { n.counter }
}

/// Why `player` may not make move `m`, if they may not.
pub open spec fn move_error(n: Nim, player: u8, m: MoveValue) -> Option<ErrorCode> {
    if n.counter == 0 {
        Some(ErrorCode::InvalidInput)
    } else {
        match m {
            MoveValue::Bytes(_) => Some(ErrorCode::InvalidInput),
            MoveValue::Code(c) => {
                if c == 0 {
                    Some(ErrorCode::InvalidInput)
                } else if player != spec_player_id(n) {
                    Some(ErrorCode::InvalidInput)
                } else if c > spec_limit(n) as u64 {
                    Some(ErrorCode::InvalidMove)
                } else {
                    None
                }
            },
        }
    }
}

/// The state after subtracting `c` and passing the turn.
pub open spec fn spec_after_move(n: Nim, c: u64) -> Nim {
    Nim { counter: (n.counter - c) as u16, turn: !n.turn, ..n }
}

/// The options text: the initial counter and the maximum, e.g. "21 3".
pub open spec fn options_text(n: Nim) -> Seq<char> {
    decimal(n.initial_counter as nat) + seq![' '] + decimal(n.max_sub as nat)
}

/// The state text: the player to move and the counter, e.g. "B 18".
pub open spec fn state_text(n: Nim) -> Seq<char> {
    seq![spec_player_char(n), ' '] + decimal(n.counter as nat)
}

/// The outcome of reading the options text `s`: a starting counter and a
/// non-zero maximum.
pub open spec fn options_outcome(s: Seq<char>) -> Result<Nim, ErrorCode> {
    match token_text(s, 0) {
        None => Err(ErrorCode::InvalidInput),
        Some(t1) => match parse_unsigned(t1, 0xFFFF) {
            Err(_) => Err(ErrorCode::InvalidInput),
            Ok(c) => match token_text(s, after_token(s, 0)) {
                None => Err(ErrorCode::InvalidInput),
                Some(t2) => match parse_unsigned(t2, 0xFFFF) {
                    Err(_) => Err(ErrorCode::InvalidInput),
                    Ok(m) => if m == 0 {
                        Err(ErrorCode::InvalidOptions)
                    } else {
                        Ok(spec_new(c as u16, m as u16))
                    },
                },
            },
        },
    }
}

/// The turn that a player token names.
pub open spec fn player_token(t: Seq<char>) -> Option<bool> {
    if t == seq!['a'] || t == seq!['A'] {
        Some(false)
    } else if t == seq!['b'] || t == seq!['B'] {
        Some(true)
    } else {
        None
    }
}

/// The outcome of importing state text `s` into `n`: no text, or text
/// without tokens, restores the initial state.
pub open spec fn state_outcome(n: Nim, s: Option<Seq<char>>) -> Result<Nim, ErrorCode> {
    match s {
        None => Ok(spec_reset(n)),
        Some(s) => match token_text(s, 0) {
            None => Ok(spec_reset(n)),
            Some(t1) => match token_text(s, after_token(s, 0)) {
                None => Err(ErrorCode::InvalidInput),
                Some(t2) => match player_token(t1) {
                    None => Err(ErrorCode::InvalidInput),
                    Some(turn) => match parse_unsigned(t2, 0xFFFF) {
                        Err(_) => Err(ErrorCode::InvalidInput),
                        Ok(c) => Ok(Nim { counter: c as u16, turn, ..n }),
                    },
                },
            },
        },
    }
}

/// The outcome of creating a game from `init`.
pub open spec fn create_outcome(init: GameInit) -> Result<Nim, ErrorCode> {
    match init {
        GameInit::Default => Ok(spec_default()),
        GameInit::Serialized(_) => Err(ErrorCode::FeatureUnsupported),
        GameInit::Standard { opts, legacy, state } => {
            if legacy is Some {
                Err(ErrorCode::InvalidLegacy)
            } else {
                let base = match opts {
                    None => Ok(spec_default()),
                    Some(o) => options_outcome(o@),
                };
                match base {
                    Err(e) => Err(e),
                    Ok(n) => state_outcome(n, opt_str_view(state)),
                }
            }
        },
    }
}

/// The outcome of reading move text `s`: a number no larger than the
/// maximum.
pub open spec fn move_text_outcome(n: Nim, s: Seq<char>) -> Result<u64, ErrorCode> {
    match parse_unsigned(s, 0xFFFF) {
        Err(_) => Err(ErrorCode::InvalidInput),
        Ok(m) => if m > n.max_sub {
            Err(ErrorCode::InvalidMove)
        } else {
            Ok(m as u64)
        },
    }
}

/// An error about text that is not a number: `prefix`, then why.
fn parse_error(prefix: &str, e: ParseError) -> (r: Error)
    ensures
        r.code == ErrorCode::InvalidInput,
        r.wf(),
{
    let mut m = prefix.to_owned();
    m.append(": ");
    match e {
        ParseError::Empty => m.append("cannot parse integer from empty string"),
        ParseError::InvalidDigit => m.append("invalid digit found in string"),
        ParseError::PosOverflow => m.append("number too large to fit in target type"),
    }
    proof {
        reveal_strlit(": ");
    }
    Error::from_string(ErrorCode::InvalidInput, m)
}

/// Fails where `mov` is more than `max`.
pub fn sub_too_large(mov: u64, max: u16) -> (r: Result<(), Error>)
    ensures
        r is Ok <==> mov <= max as u64,
        r matches Err(e) ==> e.code == ErrorCode::InvalidMove && e.wf(),
{
    if mov > max as u64 {
        let mut m = "can subtract at most ".to_owned();
        write_decimal(&mut m, max as u64);
        Err(Error::from_string(ErrorCode::InvalidMove, m))
    } else {
        Ok(())
    }
}

impl Nim {
    pub fn new(counter: u16, max_sub: u16) -> (r: Nim)
        ensures
            r == spec_new(counter, max_sub),
    {
        Nim { counter, max_sub, initial_counter: counter, turn: false }
    }

    pub fn default() -> (r: Nim)
        ensures
            r == spec_default(),
    {
        Nim::new(DEFAULT_COUNTER, DEFAULT_MAX_SUB)
    }

    /// Reads options text such as "21 3": the starting counter, then the
    /// maximum that one move may subtract.
    pub fn from_options(opts: &str) -> (r: Result<Nim, Error>)
        ensures
            r matches Ok(n) ==> options_outcome(opts@) == Ok::<Nim, ErrorCode>(n),
            r matches Err(e) ==> options_outcome(opts@) == Err::<Nim, ErrorCode>(e.code) && e.wf(),
    {
        let len = opts.unicode_len();
        let (a1, b1) = match find_token(opts, len, 0) {
            None => {
                return Err(Error::new(ErrorCode::InvalidInput, "missing starting counter"));
            },
            Some(t) => t,
        };
        let counter = match parse_u16(opts, a1, b1) {
            Err(e) => {
                return Err(parse_error("counter parsing error", e));
            },
            Ok(c) => c,
        };
        let (a2, b2) = match find_token(opts, len, b1) {
            None => {
                return Err(Error::new(ErrorCode::InvalidInput, "missing maximum subtrahend"));
            },
            Some(t) => t,
        };
        let max_sub = match parse_u16(opts, a2, b2) {
            Err(e) => {
                return Err(parse_error("subtrahend parsing error", e));
            },
            Ok(m) => m,
        };
        if max_sub == 0 {
            return Err(Error::new(ErrorCode::InvalidOptions, "maximum subtrahend is zero"));
        }
        Ok(Nim::new(counter, max_sub))
    }

    /// Goes back to the initial state under the same options.
    pub fn reset(&mut self)
        ensures
            *final(self) == spec_reset(*old(self)),
    {
        self.counter = self.initial_counter;
        self.turn = false;
    }

    pub fn player_id(&self) -> (r: u8)
        ensures
            r == spec_player_id(*self),
    {
        if self.turn { 2 } else { 1 }
    }

    pub fn player_char(&self) -> (r: char)
        ensures
            r == spec_player_char(*self),
    {
        if self.turn { 'B' } else { 'A' }
    }

    /// Whether `player` may make move `m` now, and why not.
    pub fn check_move(&self, player: u8, m: &SafeMove) -> (r: Result<(), Error>)
        ensures
            r is Ok <==> move_error(*self, player, m@) is None,
            r matches Err(e) ==> move_error(*self, player, m@) == Some(e.code) && e.wf(),
    {
        if self.counter == 0 {
            return Err(Error::new(ErrorCode::InvalidInput, "game already over"));
        }
        let code = match m {
            SafeMove::BigMove(_) => {
                return Err(Error::new(ErrorCode::InvalidInput, "expected a move code"));
            },
            SafeMove::MoveCode(c) => *c,
        };
        if code == 0 {
            return Err(Error::new(ErrorCode::InvalidInput, "need to subtract at least one"));
        }
        if player != self.player_id() {
            return Err(Error::new(ErrorCode::InvalidInput, "this player is not to move"));
        }
        let limit = if self.max_sub < self.counter { self.max_sub } else { self.counter };
        sub_too_large(code, limit)
    }
}

/// Appends the state text of `n` to `buf`.
fn write_state(n: &Nim, buf: &mut String)
    ensures
        final(buf)@ == old(buf)@ + state_text(*n),
{
    if n.turn {
        proof { reveal_strlit("B "); }
        buf.append("B ");
    } else {
        proof { reveal_strlit("A "); }
        buf.append("A ");
    }
    write_decimal(buf, n.counter as u64);
    assert(final(buf)@ =~= old(buf)@ + state_text(*n));
}

impl GameMethods for Nim {
    type Move = MoveCode;

    /// Default options and state, or options and state read from text.
    fn create(init_info: &GameInit) -> (r: Result<Nim, Error>)
        ensures
            r matches Ok(n) ==> create_outcome(*init_info) == Ok::<Nim, ErrorCode>(n),
            r matches Err(e) ==> create_outcome(*init_info) == Err::<Nim, ErrorCode>(e.code),
    {
        match init_info {
            GameInit::Default => Ok(Nim::default()),
            GameInit::Standard { opts, legacy, state } => {
                if legacy.is_some() {
                    return Err(Error::new(ErrorCode::InvalidLegacy, "legacy not supported"));
                }
                let mut g = match opts {
                    None => Nim::default(),
                    Some(o) => match Nim::from_options(o.as_str()) {
                        Ok(n) => n,
                        Err(e) => {
                            return Err(e);
                        },
                    },
                };
                let st = match state {
                    None => None,
                    Some(s) => Some(s.as_str()),
                };
                match g.import_state(st) {
                    Ok(()) => Ok(g),
                    Err(e) => Err(e),
                }
            },
            GameInit::Serialized(_) => Err(
                Error::new(
                    ErrorCode::FeatureUnsupported,
                    "initialization via serialized state unsupported",
                ),
            ),
        }
    }

    fn duplicate(&self) -> (r: Nim) {
        *self
    }

    fn equals(&self, other: &Nim) -> (r: bool) {
        *self == *other
    }

    /// Writes the options as text, e.g. "21 3".
    fn export_options(&mut self, player: u8, str_buf: &mut String) -> (r: Result<(), Error>)
        ensures
            r is Ok,
            *final(self) == *old(self),
            final(str_buf)@ == old(str_buf)@ + options_text(*old(self)),
    {
        write_decimal(str_buf, self.initial_counter as u64);
        proof { reveal_strlit(" "); }
        str_buf.append(" ");
        write_decimal(str_buf, self.max_sub as u64);
        assert(final(str_buf)@ =~= old(str_buf)@ + options_text(*old(self)));
        Ok(())
    }

    fn copy_from(&mut self, other: &Nim) -> (r: Result<(), Error>)
        ensures
            r is Ok,
    {
        *self = *other;
        Ok(())
    }

    fn player_count(&mut self) -> (r: Result<u8, Error>)
        ensures
            r == Ok::<u8, Error>(2),
            *final(self) == *old(self),
    {
        Ok(2)
    }

    /// Reads state text such as "B 18"; no text restores the initial state.
    fn import_state(&mut self, string: Option<&str>) -> (r: Result<(), Error>)
        ensures
            r is Ok ==> state_outcome(*old(self), match string {
                Some(t) => Some(t@),
                None => None,
            }) == Ok::<Nim, ErrorCode>(*final(self)),
            r matches Err(e) ==> state_outcome(*old(self), match string {
                Some(t) => Some(t@),
                None => None,
            }) == Err::<Nim, ErrorCode>(e.code) && *final(self) == *old(self),
    {
        let s = match string {
            None => {
                self.reset();
                return Ok(());
            },
            Some(s) => s,
        };
        let len = s.unicode_len();
        let (a1, b1) = match find_token(s, len, 0) {
            None => {
                self.reset();
                return Ok(());
            },
            Some(t) => t,
        };
        let (a2, b2) = match find_token(s, len, b1) {
            None => {
                return Err(Error::new(ErrorCode::InvalidInput, "missing counter value"));
            },
            Some(t) => t,
        };
        let ghost t1 = s@.subrange(a1 as int, b1 as int);
        assert(token_text(s@, 0) == Some(t1));
        assert(after_token(s@, 0) == b1);
        assert(token_text(s@, b1 as int) == Some(s@.subrange(a2 as int, b2 as int)));
        assert(b1 - a1 != 1 ==> t1.len() != 1);
        assert(b1 - a1 != 1 ==> player_token(t1) is None) by {
            if b1 - a1 != 1 {
                assert(t1.len() != seq!['a'].len());
                assert(t1.len() != seq!['B'].len());
            }
        }
        let turn = if b1 - a1 == 1 {
            let c = s.get_char(a1);
            proof {
                assert(t1 =~= seq![c]);
                assert(seq![c][0] == c);
                assert(seq!['a'][0] == 'a');
                assert(seq!['A'][0] == 'A');
                assert(seq!['b'][0] == 'b');
                assert(seq!['B'][0] == 'B');
                if c == 'a' {
                    assert(t1 =~= seq!['a']);
                } else if c == 'A' {
                    assert(t1 =~= seq!['A']);
                } else if c == 'b' {
                    assert(t1 =~= seq!['b']);
                } else if c == 'B' {
                    assert(t1 =~= seq!['B']);
                }
            }
            if c == 'a' || c == 'A' {
                false
            } else if c == 'b' || c == 'B' {
                true
            } else {
                return Err(Error::new(ErrorCode::InvalidInput, "invalid player code"));
            }
        } else {
            return Err(Error::new(ErrorCode::InvalidInput, "invalid player code"));
        };
        assert(b1 - a1 == 1 ==> s@.subrange(a1 as int, b1 as int) =~= seq![s@[a1 as int]]);
        let counter = match parse_u16(s, a2, b2) {
            Err(e) => {
                return Err(parse_error("counter parsing error", e));
            },
            Ok(c) => c,
        };
        self.turn = turn;
        self.counter = counter;
        Ok(())
    }

    /// Writes the state as text, e.g. "B 18".
    fn export_state(&mut self, player: u8, str_buf: &mut String) -> (r: Result<(), Error>)
        ensures
            r is Ok,
            *final(self) == *old(self),
            final(str_buf)@ == old(str_buf)@ + state_text(*old(self)),
    {
        write_state(self, str_buf);
        Ok(())
    }

    /// The player to move, while the counter is not zero.
    fn players_to_move(&mut self, players: &mut Vec<u8>) -> (r: Result<(), Error>)
        ensures
            r is Ok,
            *final(self) == *old(self),
            final(players)@ == old(players)@ + (if old(self).counter > 0 {
                seq![spec_player_id(*old(self))]
            } else {
                Seq::<u8>::empty()
            }),
    {
        if self.counter > 0 {
            players.push(self.player_id());
        }
        assert(final(players)@ =~= old(players)@ + (if old(self).counter > 0 {
            seq![spec_player_id(*old(self))]
        } else {
            Seq::<u8>::empty()
        }));
        Ok(())
    }

    /// For the player to move, the moves 1 up to the limit, in order.
    fn get_concrete_moves(&mut self, player: u8, moves: &mut Vec<MoveCode>) -> (r: Result<
        (),
        Error,
    >)
        ensures
            r is Ok,
            *final(self) == *old(self),
            final(moves)@.len() == old(moves)@.len() + (if player == spec_player_id(*old(self)) {
                spec_limit(*old(self)) as nat
            } else {
                0
            }),
            forall|i: int| 0 <= i < old(moves)@.len() ==> #[trigger] final(moves)@[i] == old(moves)@[i],
            forall|i: int|
                old(moves)@.len() <= i < final(moves)@.len() ==> (#[trigger] final(moves)@[i]).code
                    == i - old(moves)@.len() + 1,
    {
        if player != self.player_id() {
            return Ok(());
        }
        let limit = if self.max_sub < self.counter { self.max_sub } else { self.counter };
        let ghost start = moves@.len();
        let mut m: u32 = 1;
        while m <= limit as u32
            invariant
                1 <= m <= limit as int + 1,
                limit == spec_limit(*old(self)),
                start == old(moves)@.len(),
                moves@.len() == start + m - 1,
                forall|i: int| 0 <= i < start ==> #[trigger] moves@[i] == old(moves)@[i],
                forall|i: int| start <= i < moves@.len() ==> (#[trigger] moves@[i]).code == i - start + 1,
            decreases limit as int + 1 - m,
        {
            moves.push(MoveCode::new(m as u64));
            m = m + 1;
        }
        Ok(())
    }

    fn is_legal_move(&mut self, player: u8, mov: MoveDataSync<SafeMove>) -> (r: Result<(), Error>)
        ensures
            *final(self) == *old(self),
            r is Ok <==> move_error(*old(self), player, mov.md@) is None,
            r matches Err(e) ==> move_error(*old(self), player, mov.md@) == Some(e.code),
    {
        self.check_move(player, &mov.md)
    }

    /// Subtracts the move and passes the turn, where the move is legal.
    fn make_move(&mut self, player: u8, mov: MoveDataSync<SafeMove>) -> (r: Result<(), Error>)
        ensures
            r is Ok <==> move_error(*old(self), player, mov.md@) is None,
            r matches Err(e) ==> move_error(*old(self), player, mov.md@) == Some(e.code)
                && *final(self) == *old(self),
            r is Ok ==> (mov.md@ matches MoveValue::Code(c) && *final(self) == spec_after_move(
                *old(self),
                c,
            )),
    {
        match self.check_move(player, &mov.md) {
            Err(e) => Err(e),
            Ok(()) => {
                match mov.md {
                    SafeMove::MoveCode(c) => {
                        self.counter = self.counter - c as u16;
                        self.turn = !self.turn;
                    },
                    SafeMove::BigMove(_) => {},
                }
                Ok(())
            },
        }
    }

    /// The winner, the player to move once the counter is zero.
    fn get_results(&mut self, players: &mut Vec<u8>) -> (r: Result<(), Error>)
        ensures
            r is Ok,
            *final(self) == *old(self),
            final(players)@ == old(players)@ + (if old(self).counter == 0 {
                seq![spec_player_id(*old(self))]
            } else {
                Seq::<u8>::empty()
            }),
    {
        if self.counter == 0 {
            players.push(self.player_id());
        }
        assert(final(players)@ =~= old(players)@ + (if old(self).counter == 0 {
            seq![spec_player_id(*old(self))]
        } else {
            Seq::<u8>::empty()
        }));
        Ok(())
    }

    /// Reads a move from its text, a number no larger than the maximum.
    fn get_move_data(&mut self, player: u8, string: &str) -> (r: Result<MoveCode, Error>)
        ensures
            *final(self) == *old(self),
            r matches Ok(m) ==> move_text_outcome(*old(self), string@) == Ok::<u64, ErrorCode>(
                m.code,
            ),
            r matches Err(e) ==> move_text_outcome(*old(self), string@) == Err::<u64, ErrorCode>(
                e.code,
            ),
    {
        let len = string.unicode_len();
        assert(string@.subrange(0, len as int) =~= string@);
        let mov = match parse_u16(string, 0, len) {
            Err(e) => {
                return Err(parse_error("move parsing error", e));
            },
            Ok(m) => m,
        };
        match sub_too_large(mov as u64, self.max_sub) {
            Err(e) => Err(e),
            Ok(()) => Ok(MoveCode::new(mov as u64)),
        }
    }

    /// Writes a move code as a number.
    fn get_move_str(&mut self, player: u8, mov: MoveDataSync<SafeMove>, str_buf: &mut String) -> (r:
        Result<(), Error>)
        ensures
            *final(self) == *old(self),
            r is Ok <==> mov.md@ is Code,
            mov.md@ matches MoveValue::Code(c) ==> final(str_buf)@ == old(str_buf)@ + decimal(
                c as nat,
            ),
    {
        match mov.md {
            SafeMove::MoveCode(c) => {
                write_decimal(str_buf, c);
                Ok(())
            },
            SafeMove::BigMove(_) => Err(
                Error::new(ErrorCode::InvalidInput, "expected a move code"),
            ),
        }
    }

    /// The state text and a line break.
    fn print(&mut self, player: u8, str_buf: &mut String) -> (r: Result<(), Error>)
        ensures
            r is Ok,
            *final(self) == *old(self),
            final(str_buf)@ == old(str_buf)@ + state_text(*old(self)) + seq!['\n'],
    {
        write_state(self, str_buf);
        proof { reveal_strlit("\n"); }
        str_buf.append("\n");
        Ok(())
    }
}

/// Describes Nim: its names, version, and the options and print features.
pub fn example_metadata() -> (r: Metadata)
    ensures
        r.game_name@ == "Nim"@,
        r.variant_name@ == "Standard"@,
        r.impl_name@ == "mirabel_rs"@,
        r.features == (GameFeatures {
            options: true,
            random_moves: false,
            hidden_information: false,
            print: true,
        }),
        r.version == (SemVer { major: 0, minor: 1, patch: 0 }),
{
    proof {
        reveal_strlit("Nim");
        reveal_strlit("Standard");
        reveal_strlit("mirabel_rs");
    }
    Metadata {
        game_name: "Nim".to_owned(),
        variant_name: "Standard".to_owned(),
        impl_name: "mirabel_rs".to_owned(),
        version: SemVer { major: 0, minor: 1, patch: 0 },
        features: GameFeatures {
            options: true,
            random_moves: false,
            hidden_information: false,
            print: true,
        },
    }
}

} // verus!
