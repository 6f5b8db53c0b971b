//! The rules-engine side: the capability trait a game implements, the move
//! wrappers, the method table with its feature flags, and the per-instance
//! bridge that carries every entry point.

use vstd::prelude::*;
use crate::base::{spec_decode, MoveDataSync, MoveValue, RawMoveData};
use crate::error::{Error, ErrorCode};
use crate::event::MoveData as SafeMove;
use crate::game_init::GameInit;

verus! {

/// A semantic version.
#[derive(Clone, Copy, Debug, PartialEq, Eq, Structural)]
pub struct SemVer {
    pub major: u32,
    pub minor: u32,
    pub patch: u32,
}

/// Capability bits of a game's method table.
#[derive(Clone, Copy, Debug, PartialEq, Eq, Structural)]
pub struct GameFeatureFlags {
    pub error_strings: bool,
    pub options: bool,
    pub random_moves: bool,
    pub hidden_information: bool,
    pub print: bool,
    pub big_moves: bool,
}

/// Optional features a game may declare.
#[derive(Clone, Copy, Debug, PartialEq, Eq, Structural)]
pub struct GameFeatures {
    pub options: bool,
    pub random_moves: bool,
    pub hidden_information: bool,
    pub print: bool,
}

impl GameFeatures {
    /// The table's capability bits for these features; the bits that the
    /// bridge itself decides stay unset.
    pub fn feature_flags(&self) -> (r: GameFeatureFlags)
        ensures
            r.options == self.options,
            r.random_moves == self.random_moves,
            r.hidden_information == self.hidden_information,
            r.print == self.print,
            !r.error_strings,
            !r.big_moves,
    {
        GameFeatureFlags {
            error_strings: false,
            options: self.options,
            random_moves: self.random_moves,
            hidden_information: self.hidden_information,
            print: self.print,
            big_moves: false,
        }
    }
}

/// Static description of a game implementation.
pub struct Metadata {
    pub game_name: String,
    pub variant_name: String,
    pub impl_name: String,
    pub version: SemVer,
    pub features: GameFeatures,
}

/// Which entry points a method table offers.
#[derive(Clone, Copy, Debug, PartialEq, Eq, Structural)]
pub struct GameEntries {
    pub get_last_error: bool,
    pub create: bool,
    pub destroy: bool,
    pub clone: bool,
    pub copy_from: bool,
    pub compare: bool,
    pub player_count: bool,
    pub import_state: bool,
    pub export_state: bool,
    pub players_to_move: bool,
    pub get_concrete_moves: bool,
    pub is_legal_move: bool,
    pub make_move: bool,
    pub get_results: bool,
    pub get_move_data: bool,
    pub get_move_str: bool,
    pub export_options: bool,
    pub get_concrete_move_probabilities: bool,
    pub get_random_move: bool,
    pub get_actions: bool,
    pub move_to_action: bool,
    pub redact_keep_state: bool,
    pub print: bool,
}

/// The exported method table of one game implementation.
pub struct GameMethodsTable {
    pub game_name: String,
    pub variant_name: String,
    pub impl_name: String,
    pub version: SemVer,
    pub features: GameFeatureFlags,
    pub entries: GameEntries,
}

/// The entry points a table offers for the capability bits `f`: the
/// mandatory ones always, each optional one exactly when its bit is set.
/// Move probabilities are never offered: this bridge has no entry point for
/// them.
pub open spec fn spec_entries(f: GameFeatureFlags) -> GameEntries {
    GameEntries {
        get_last_error: true,
        create: true,
        destroy: true,
        clone: true,
        copy_from: true,
        compare: true,
        player_count: true,
        import_state: true,
        export_state: true,
        players_to_move: true,
        get_concrete_moves: true,
        is_legal_move: true,
        make_move: true,
        get_results: true,
        get_move_data: true,
        get_move_str: true,
        export_options: f.options,
        get_concrete_move_probabilities: false,
        get_random_move: f.random_moves,
        get_actions: f.hidden_information,
        move_to_action: f.hidden_information,
        redact_keep_state: f.random_moves || f.hidden_information,
        print: f.print,
    }
}

/// A value that stands for a move of a game: a code alone, or a code or bytes.
pub trait MoveData: Sized {
    /// The move this value stands for.
    spec fn move_value(&self) -> MoveValue;

    /// Whether values of this kind may be variable-length moves.
    spec fn spec_big_moves() -> bool;

    fn big_moves() -> (r: bool)
        ensures
            r == Self::spec_big_moves(),
    ;

    /// The safe value of this move.
    fn to_rust(&self) -> (r: SafeMove)
        ensures
            r@ == self.move_value(),
    ;

    /// The wire form of this move.
    fn to_raw(&self) -> (r: RawMoveData)
        ensures
            spec_decode(r@) == self.move_value(),
            r.wf(),
    ;
}

/// A move known to be a fixed code.
#[derive(Clone, Copy, Debug, PartialEq, Eq, Structural)]
pub struct MoveCode {
    pub code: u64,
}

impl MoveCode {
    pub fn new(code: u64) -> (r: MoveCode)
        ensures
            r.code == code,
    {
        MoveCode { code }
    }

    /// The codes of a slice of moves, in order.
    pub fn slice_to_rust(s: &[MoveCode]) -> (r: Vec<u64>)
        ensures
            r@.len() == s@.len(),
            forall|i: int| 0 <= i < s@.len() ==> r@[i] == #[trigger] s@[i].code,
    {
        let mut r: Vec<u64> = Vec::new();
        let mut i: usize = 0;
        while i < s.len()
            invariant
                i <= s@.len(),
                r@.len() == i,
                forall|j: int| 0 <= j < i ==> r@[j] == #[trigger] s@[j].code,
            decreases s@.len() - i,
        {
            r.push(s[i].code);
            i = i + 1;
        }
        r
    }
}

impl MoveData for MoveCode {
    open spec fn move_value(&self) -> MoveValue {
        MoveValue::Code(self.code)
    }

    open spec fn spec_big_moves() -> bool {
        false
    }

    fn big_moves() -> (r: bool) {
        false
    }

    fn to_rust(&self) -> (r: SafeMove) {
        SafeMove::MoveCode(self.code)
    }

    fn to_raw(&self) -> (r: RawMoveData) {
        RawMoveData { cl: self.code, data: None }
    }
}

/// A move that is either a fixed code or variable-length bytes.
pub struct MixedMove {
    pub md: SafeMove,
}

/// The safe value of a [`MixedMove`].
pub enum MixedMoveRust {
    MoveCode(u64),
    BigMove(Vec<u8>),
}

impl MixedMove {
    pub fn from_code(code: u64) -> (r: MixedMove)
        ensures
            r.move_value() == MoveValue::Code(code),
    {
        MixedMove { md: SafeMove::MoveCode(code) }
    }

    pub fn from_bytes(bytes: Vec<u8>) -> (r: MixedMove)
        ensures
            r.move_value() == MoveValue::Bytes(bytes@),
    {
        MixedMove { md: SafeMove::BigMove(bytes) }
    }

    /// The code or the bytes of this move.
    pub fn to_mixed(&self) -> (r: MixedMoveRust)
        ensures
            r matches MixedMoveRust::MoveCode(c) ==> self.move_value() == MoveValue::Code(c),
            r matches MixedMoveRust::BigMove(b) ==> self.move_value() == MoveValue::Bytes(b@),
    {
        match &self.md {
            SafeMove::MoveCode(c) => MixedMoveRust::MoveCode(*c),
            SafeMove::BigMove(b) => MixedMoveRust::BigMove(b.clone()),
        }
    }
}

impl MoveData for MixedMove {
    open spec fn move_value(&self) -> MoveValue {
        self.md@
    }

    open spec fn spec_big_moves() -> bool {
        true
    }

    fn big_moves() -> (r: bool) {
        true
    }

    fn to_rust(&self) -> (r: SafeMove) {
        match &self.md {
            SafeMove::MoveCode(c) => SafeMove::MoveCode(*c),
            SafeMove::BigMove(b) => SafeMove::BigMove(b.clone()),
        }
    }

    fn to_raw(&self) -> (r: RawMoveData) {
        match &self.md {
            SafeMove::MoveCode(c) => RawMoveData { cl: *c, data: None },
            SafeMove::BigMove(b) => {
                let len = b.len() as u64;
                RawMoveData { cl: len, data: Some(b.clone()) }
            },
        }
    }
}


/// What a failing method hands back: an error with a non-empty message.
pub open spec fn fails_well<T>(r: Result<T, Error>) -> bool {
    r matches Err(e) ==> e.wf()
}

/// The capability a game implements; the bridge turns each method into one
/// entry point of the method table.
///
/// Every method that fails returns an error whose message is not empty and
/// leaves the game as it was. The
/// optional methods fail with `FeatureUnsupported` unless a game provides
/// them; the table offers them only where the game declares the feature.
pub trait GameMethods: Sized + View {
    /// The kind of move the game hands out: codes alone, or codes and bytes.
    type Move: MoveData;

    fn create(init_info: &GameInit) -> (r: Result<Self, Error>)
        ensures
            fails_well(r),
    ;

    /// A copy of this game that is equal to it and owns its own storage.
    fn duplicate(&self) -> (r: Self)
        ensures
            r@ == self@,
    ;

    /// Whether two games are in the same state.
    fn equals(&self, other: &Self) -> (r: bool)
        ensures
            r == (self@ == other@),
    ;

    fn copy_from(&mut self, other: &Self) -> (r: Result<(), Error>)
        ensures
            fails_well(r),
            r is Err ==> final(self)@ == old(self)@,
            r is Ok ==> final(self)@ == other@,
    ;

    fn player_count(&mut self) -> (r: Result<u8, Error>)
        ensures
            fails_well(r),
            r is Err ==> final(self)@ == old(self)@,
    ;

    fn import_state(&mut self, string: Option<&str>) -> (r: Result<(), Error>)
        ensures
            fails_well(r),
            r is Err ==> final(self)@ == old(self)@,
    ;

    fn export_state(&mut self, player: u8, str_buf: &mut String) -> (r: Result<(), Error>)
        ensures
            fails_well(r),
            r is Err ==> final(self)@ == old(self)@,
    ;

    fn players_to_move(&mut self, players: &mut Vec<u8>) -> (r: Result<(), Error>)
        ensures
            fails_well(r),
            r is Err ==> final(self)@ == old(self)@,
            old(players)@.len() == 0 ==> final(players)@.len() <= 255,
    ;

    fn get_concrete_moves(&mut self, player: u8, moves: &mut Vec<Self::Move>) -> (r: Result<
        (),
        Error,
    >)
        ensures
            fails_well(r),
            r is Err ==> final(self)@ == old(self)@,
            old(moves)@.len() == 0 ==> final(moves)@.len() <= 0xFFFF_FFFF,
    ;

    fn get_move_data(&mut self, player: u8, string: &str) -> (r: Result<Self::Move, Error>)
        ensures
            fails_well(r),
            r is Err ==> final(self)@ == old(self)@,
    ;

    fn get_move_str(&mut self, player: u8, mov: MoveDataSync<SafeMove>, str_buf: &mut String) -> (r:
        Result<(), Error>)
        ensures
            fails_well(r),
            r is Err ==> final(self)@ == old(self)@,
    ;

    fn is_legal_move(&mut self, player: u8, mov: MoveDataSync<SafeMove>) -> (r: Result<(), Error>)
        ensures
            fails_well(r),
            r is Err ==> final(self)@ == old(self)@,
    ;

    fn make_move(&mut self, player: u8, mov: MoveDataSync<SafeMove>) -> (r: Result<(), Error>)
        ensures
            fails_well(r),
            r is Err ==> final(self)@ == old(self)@,
    ;

    fn get_results(&mut self, players: &mut Vec<u8>) -> (r: Result<(), Error>)
        ensures
            fails_well(r),
            r is Err ==> final(self)@ == old(self)@,
            old(players)@.len() == 0 ==> final(players)@.len() <= 255,
    ;

    /// Offered where the game declares the options feature.
    fn export_options(&mut self, player: u8, str_buf: &mut String) -> (r: Result<(), Error>)
        ensures
            fails_well(r),
            r is Err ==> final(self)@ == old(self)@,
        default_ensures
            r matches Err(e) && e.code == ErrorCode::FeatureUnsupported,
    {
        Err(Error::new(ErrorCode::FeatureUnsupported, "export_options is not implemented"))
    }

    /// Offered where the game declares hidden information.
    fn get_actions(&mut self, player: u8, moves: &mut Vec<Self::Move>) -> (r: Result<(), Error>)
        ensures
            fails_well(r),
            r is Err ==> final(self)@ == old(self)@,
            old(moves)@.len() == 0 ==> final(moves)@.len() <= 0xFFFF_FFFF,
        default_ensures
            r matches Err(e) && e.code == ErrorCode::FeatureUnsupported,
            *final(moves) == *old(moves),
    {
        Err(Error::new(ErrorCode::FeatureUnsupported, "get_actions is not implemented"))
    }

    /// Offered where the game declares hidden information.
    fn move_to_action(&mut self, player: u8, mov: MoveDataSync<SafeMove>, target_player: u8) -> (r:
        Result<Self::Move, Error>)
        ensures
            fails_well(r),
            r is Err ==> final(self)@ == old(self)@,
        default_ensures
            r matches Err(e) && e.code == ErrorCode::FeatureUnsupported,
    {
        Err(Error::new(ErrorCode::FeatureUnsupported, "move_to_action is not implemented"))
    }

    /// Offered where the game declares random moves.
    fn get_random_move(&mut self, seed: u64) -> (r: Result<Self::Move, Error>)
        ensures
            fails_well(r),
            r is Err ==> final(self)@ == old(self)@,
        default_ensures
            r matches Err(e) && e.code == ErrorCode::FeatureUnsupported,
    {
        Err(Error::new(ErrorCode::FeatureUnsupported, "get_random_move is not implemented"))
    }

    /// Offered where the game declares random moves or hidden information.
    fn redact_keep_state(&mut self, players: &[u8]) -> (r: Result<(), Error>)
        ensures
            fails_well(r),
            r is Err ==> final(self)@ == old(self)@,
        default_ensures
            r matches Err(e) && e.code == ErrorCode::FeatureUnsupported,
    {
        Err(Error::new(ErrorCode::FeatureUnsupported, "redact_keep_state is not implemented"))
    }

    /// Offered where the game declares the print feature.
    fn print(&mut self, player: u8, str_buf: &mut String) -> (r: Result<(), Error>)
        ensures
            fails_well(r),
            r is Err ==> final(self)@ == old(self)@,
        default_ensures
            r matches Err(e) && e.code == ErrorCode::FeatureUnsupported,
    {
        Err(Error::new(ErrorCode::FeatureUnsupported, "print is not implemented"))
    }
}

/// The method table for game `G` described by `metadata`: the bridge adds
/// error strings and the move kind of `G` to the declared features, and
/// offers each optional entry point exactly when its feature is declared.
pub fn create_game_methods<G: GameMethods>(metadata: Metadata) -> (r: GameMethodsTable)
    ensures
        r.game_name@ == metadata.game_name@,
        r.variant_name@ == metadata.variant_name@,
        r.impl_name@ == metadata.impl_name@,
        r.version == metadata.version,
        r.features.error_strings,
        r.features.options == metadata.features.options,
        r.features.random_moves == metadata.features.random_moves,
        r.features.hidden_information == metadata.features.hidden_information,
        r.features.print == metadata.features.print,
        r.features.big_moves == G::Move::spec_big_moves(),
        r.entries == spec_entries(r.features),
{
    let mut features = metadata.features.feature_flags();
    features.error_strings = true;
    features.big_moves = G::Move::big_moves();
    let entries = GameEntries {
        get_last_error: true,
        create: true,
        destroy: true,
        clone: true,
        copy_from: true,
        compare: true,
        player_count: true,
        import_state: true,
        export_state: true,
        players_to_move: true,
        get_concrete_moves: true,
        is_legal_move: true,
        make_move: true,
        get_results: true,
        get_move_data: true,
        get_move_str: true,
        export_options: features.options,
        get_concrete_move_probabilities: false,
        get_random_move: features.random_moves,
        get_actions: features.hidden_information,
        move_to_action: features.hidden_information,
        redact_keep_state: features.random_moves || features.hidden_information,
        print: features.print,
    };
    GameMethodsTable {
        game_name: metadata.game_name,
        variant_name: metadata.variant_name,
        impl_name: metadata.impl_name,
        version: metadata.version,
        features,
        entries,
    }
}

} // verus!
