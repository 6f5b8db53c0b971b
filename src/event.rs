//! Events of the frontend side and the safe move value.
//!
//! A wire event carries a type tag and the payload that belongs to it; it is
//! read into [`EventEnum`] by its tag. A wire move is read into [`MoveData`]
//! by whether it carries a payload.

use vstd::prelude::*;
use crate::base::{
    spec_decode, spec_encode, MoveDataSync, MoveValue, RawMoveData, RawMoveDataSync,
};
use crate::game::GameMethodsTable;
use crate::game_init::GameInit;

verus! {

/// Safe value of a move.
#[derive(Clone, Debug)]
pub enum MoveData {
    MoveCode(u64),
    BigMove(Vec<u8>),
}

impl View for MoveData {
    type V = MoveValue;

    open spec fn view(&self) -> MoveValue {
        match self {
            MoveData::MoveCode(c) => MoveValue::Code(*c),
            MoveData::BigMove(b) => MoveValue::Bytes(b@),
        }
    }
}

impl MoveData {
    /// Reads a wire move; a payload, even an empty one, makes it a
    /// variable-length move.
    pub fn from_ref(md: &RawMoveData) -> (r: MoveData)
        ensures
            r@ == spec_decode(md@),
    {
        match &md.data {
            None => MoveData::MoveCode(md.cl),
            Some(bytes) => MoveData::BigMove(bytes.clone()),
        }
    }

    /// Writes the wire form of this move.
    pub fn into_raw(self) -> (r: RawMoveData)
        ensures
            r@ == spec_encode(self@),
            r.wf(),
    {
        match self {
            MoveData::MoveCode(code) => RawMoveData { cl: code, data: None },
            MoveData::BigMove(bytes) => {
                let len = bytes.len() as u64;
                RawMoveData { cl: len, data: Some(bytes) }
            },
        }
    }
}

/// Decoding the encoding of a move gives the move back; an empty
/// variable-length move stays a variable-length move.
pub proof fn lemma_move_round_trip(m: MoveValue)
    ensures
        spec_decode(spec_encode(m)) == m,
        m is Bytes ==> spec_decode(spec_encode(m)) is Bytes,
{
}

/// Tag of an event.
#[derive(Clone, Copy, Debug, PartialEq, Eq, Structural)]
pub enum EventType {
    GameLoadMethods,
    GameUnload,
    GameState,
    GameMove,
    /// Any other event kind, by its host-side number.
    Other(u32),
}

/// Fields that every event has.
#[derive(Clone, Copy, Debug, PartialEq, Eq, Structural)]
pub struct Event {
    pub type_: EventType,
    pub client_id: u32,
    pub lobby_id: u32,
}

/// The event-specific part of a wire event.
pub enum EventPayload {
    Empty,
    GameLoadMethods { methods: GameMethodsTable, init_info: GameInit },
    GameState { state: Option<String> },
    GameMove { player: u8, data: RawMoveDataSync },
}

/// Whether `payload` is the one that an event of type `t` carries.
pub open spec fn payload_fits(t: EventType, payload: EventPayload) -> bool {
    match t {
        EventType::GameLoadMethods => payload is GameLoadMethods,
        EventType::GameUnload => payload is Empty,
        EventType::GameState => payload is GameState,
        EventType::GameMove => payload is GameMove,
        EventType::Other(_) => payload is Empty,
    }
}

/// Two payloads carry the same values.
pub open spec fn payload_same(a: EventPayload, b: EventPayload) -> bool {
    match (a, b) {
        (EventPayload::Empty, EventPayload::Empty) => true,
        (
            EventPayload::GameLoadMethods { methods: m1, init_info: i1 },
            EventPayload::GameLoadMethods { methods: m2, init_info: i2 },
        ) => table_same(m1, m2) && init_same(i1, i2),
        (EventPayload::GameState { state: s1 }, EventPayload::GameState { state: s2 }) => opt_str_view(
            s1,
        ) == opt_str_view(s2),
        (
            EventPayload::GameMove { player: p1, data: d1 },
            EventPayload::GameMove { player: p2, data: d2 },
        ) => p1 == p2 && d1.sync_ctr == d2.sync_ctr && d1.md@ == d2.md@,
        _ => false,
    }
}

pub open spec fn opt_str_view(s: Option<String>) -> Option<Seq<char>> {
    match s {
        Some(t) => Some(t@),
        None => None,
    }
}

/// Two method tables hold the same names, version, bits and entries.
pub open spec fn table_same(a: GameMethodsTable, b: GameMethodsTable) -> bool {
    &&& a.game_name@ == b.game_name@
    &&& a.variant_name@ == b.variant_name@
    &&& a.impl_name@ == b.impl_name@
    &&& a.version == b.version
    &&& a.features == b.features
    &&& a.entries == b.entries
}

/// Two initialization requests ask for the same thing.
pub open spec fn init_same(a: GameInit, b: GameInit) -> bool {
    match (a, b) {
        (GameInit::Default, GameInit::Default) => true,
        (
            GameInit::Standard { opts: o1, legacy: l1, state: s1 },
            GameInit::Standard { opts: o2, legacy: l2, state: s2 },
        ) => opt_str_view(o1) == opt_str_view(o2) && opt_str_view(l1) == opt_str_view(l2)
            && opt_str_view(s1) == opt_str_view(s2),
        (GameInit::Serialized(v1), GameInit::Serialized(v2)) => v1@ == v2@,
        _ => false,
    }
}

fn copy_opt_str(s: &Option<String>) -> (r: Option<String>)
    ensures
        opt_str_view(r) == opt_str_view(*s),
{
    match s {
        Some(t) => Some(t.clone()),
        None => None,
    }
}

fn copy_table(t: &GameMethodsTable) -> (r: GameMethodsTable)
    ensures
        table_same(r, *t),
{
    GameMethodsTable {
        game_name: t.game_name.clone(),
        variant_name: t.variant_name.clone(),
        impl_name: t.impl_name.clone(),
        version: t.version,
        features: t.features,
        entries: t.entries,
    }
}

fn copy_init(i: &GameInit) -> (r: GameInit)
    ensures
        init_same(r, *i),
{
    match i {
        GameInit::Default => GameInit::Default,
        GameInit::Standard { opts, legacy, state } => GameInit::Standard {
            opts: copy_opt_str(opts),
            legacy: copy_opt_str(legacy),
            state: copy_opt_str(state),
        },
        GameInit::Serialized(v) => GameInit::Serialized(v.clone()),
    }
}

fn copy_raw(m: &RawMoveData) -> (r: RawMoveData)
    ensures
        r@ == m@,
{
    match &m.data {
        Some(b) => RawMoveData { cl: m.cl, data: Some(b.clone()) },
        None => RawMoveData { cl: m.cl, data: None },
    }
}

fn copy_payload(p: &EventPayload) -> (r: EventPayload)
    ensures
        payload_same(r, *p),
{
    match p {
        EventPayload::Empty => EventPayload::Empty,
        EventPayload::GameLoadMethods { methods, init_info } => EventPayload::GameLoadMethods {
            methods: copy_table(methods),
            init_info: copy_init(init_info),
        },
        EventPayload::GameState { state } => EventPayload::GameState { state: copy_opt_str(state) },
        EventPayload::GameMove { player, data } => EventPayload::GameMove {
            player: *player,
            data: MoveDataSync { md: copy_raw(&data.md), sync_ctr: data.sync_ctr },
        },
    }
}

/// An owned wire event whose payload agrees with its tag.
pub struct EventAny {
    base: Event,
    payload: EventPayload,
}

impl EventAny {
    pub closed spec fn spec_base(&self) -> Event {
        self.base
    }

    pub closed spec fn spec_payload(&self) -> EventPayload {
        self.payload
    }

    /// The payload agrees with the tag.
    pub open spec fn wf(&self) -> bool {
        payload_fits(self.spec_base().type_, self.spec_payload())
    }

    #[verifier::type_invariant]
    spec fn inv(&self) -> bool {
        payload_fits(self.base.type_, self.payload)
    }

    /// Builds a wire event; refused when the payload does not belong to the
    /// tag.
    pub fn new(base: Event, payload: EventPayload) -> (r: Option<EventAny>)
        ensures
            r is Some <==> payload_fits(base.type_, payload),
            r matches Some(e) ==> e.spec_base() == base && e.spec_payload() == payload && e.wf(),
    {
        let fits = match (&base.type_, &payload) {
            (EventType::GameLoadMethods, EventPayload::GameLoadMethods { .. }) => true,
            (EventType::GameUnload, EventPayload::Empty) => true,
            (EventType::GameState, EventPayload::GameState { .. }) => true,
            (EventType::GameMove, EventPayload::GameMove { .. }) => true,
            (EventType::Other(_), EventPayload::Empty) => true,
            _ => false,
        };
        if fits {
            Some(EventAny { base, payload })
        } else {
            None
        }
    }

    /// A copy of this event that owns its own payload.
    pub fn copy(&self) -> (r: EventAny)
        ensures
            r.spec_base() == self.spec_base(),
            payload_same(r.spec_payload(), self.spec_payload()),
            r.wf(),
    {
        proof {
            use_type_invariant(self);
        }
        EventAny { base: self.base, payload: copy_payload(&self.payload) }
    }

    /// The tag of this event.
    pub fn get_type(&self) -> (r: EventType)
        ensures
            r == self.spec_base().type_,
            self.wf(),
    {
        proof {
            use_type_invariant(self);
        }
        self.base.type_
    }

    /// A move event of `player` that carries a copy of `mov` in wire form.
    pub fn new_game_move(player: u8, mov: MoveDataSync<MoveData>) -> (r: EventAny)
        ensures
            r.wf(),
            r.spec_base().type_ == EventType::GameMove,
            r.spec_base().client_id == 0,
            r.spec_base().lobby_id == 0,
            r.spec_payload() matches EventPayload::GameMove { player: p, data }
                && p == player && data.sync_ctr == mov.sync_ctr && data.md@ == spec_encode(mov.md@)
                && data.md.wf(),
    {
        let data = MoveDataSync { md: mov.md.into_raw(), sync_ctr: mov.sync_ctr };
        EventAny {
            base: Event { type_: EventType::GameMove, client_id: 0, lobby_id: 0 },
            payload: EventPayload::GameMove { player, data },
        }
    }

    /// Reads this event into the safe enum by its tag.
    pub fn to_rust(self) -> (r: EventEnum)
        ensures
            (r is GameLoadMethods) <==> self.spec_base().type_ == EventType::GameLoadMethods,
            (r is GameUnload) <==> self.spec_base().type_ == EventType::GameUnload,
            (r is GameState) <==> self.spec_base().type_ == EventType::GameState,
            (r is GameMove) <==> self.spec_base().type_ == EventType::GameMove,
            (r is Unknown) <==> self.spec_base().type_ is Other,
            r matches EventEnum::GameLoadMethods(e) ==> e.base == self.spec_base()
                && self.spec_payload() == (EventPayload::GameLoadMethods {
                    methods: e.methods,
                    init_info: e.init_info,
                }),
            r matches EventEnum::GameUnload(e) ==> e == self.spec_base(),
            r matches EventEnum::GameState(e) ==> e.base == self.spec_base()
                && self.spec_payload() == (EventPayload::GameState { state: e.state }),
            r matches EventEnum::GameMove(e) ==> e.base == self.spec_base() && (
            self.spec_payload() matches EventPayload::GameMove { player, data }
                && e.player == player && e.data.sync_ctr == data.sync_ctr
                && e.data.md@ == spec_decode(data.md@)),
    {
        proof {
            use_type_invariant(&self);
        }
        let base = self.base;
        match self.payload {
            EventPayload::GameLoadMethods { methods, init_info } => {
                EventEnum::GameLoadMethods(EventGameLoadMethods { base, methods, init_info })
            },
            EventPayload::GameState { state } => {
                EventEnum::GameState(EventGameState { base, state })
            },
            EventPayload::GameMove { player, data } => {
                let md = MoveData::from_ref(&data.md);
                EventEnum::GameMove(
                    EventGameMove { base, player, data: MoveDataSync { md, sync_ctr: data.sync_ctr } },
                )
            },
            EventPayload::Empty => {
                match base.type_ {
                    EventType::GameUnload => EventEnum::GameUnload(base),
                    _ => EventEnum::Unknown,
                }
            },
        }
    }
}

/// An event read into a safe enum.
pub enum EventEnum {
    GameLoadMethods(EventGameLoadMethods),
    GameUnload(Event),
    GameState(EventGameState),
    GameMove(EventGameMove),
    Unknown,
}

/// A game's method table was loaded.
pub struct EventGameLoadMethods {
    pub base: Event,
    pub methods: GameMethodsTable,
    pub init_info: GameInit,
}

/// The state of the current game changed.
pub struct EventGameState {
    pub base: Event,
    pub state: Option<String>,
}

/// A move was made.
pub struct EventGameMove {
    pub base: Event,
    pub player: u8,
    pub data: MoveDataSync<MoveData>,
}

} // verus!
