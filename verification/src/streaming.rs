//! High-level streaming parser built on `comp_cat_rs` streams.
//!
//! [`parse_stream`] wraps the scanner to emit [`ParseEvent`] values: one
//! `Started`, one `EntityScanned` per entity that the [`StreamConfig`]
//! accepts, then one `Completed`.  Each pull runs one [`parse_step`].
use std::sync::Arc;
use comp_cat_rs::effect::io::Io;
use comp_cat_rs::effect::stream::Stream;
use vstd::prelude::*;
use crate::error::Error;
use crate::ifc_type::IfcType;
use crate::scan::{ScannedEntity, ScannedView, scan_all, scan_next, scan_spec};
use vstd::string::StringSliceAdditionalSpecFns;
use crate::text::string_bytes;

verus! {

// ═══════════════════════════════════════════════════════════════════
// ParseEvent
// ═══════════════════════════════════════════════════════════════════

/// Events emitted during a streaming parse.
#[derive(Debug, Clone)]
pub enum ParseEvent {
    /// The parse has started.
    Started {
        /// Total size of the content in bytes.
        file_size: usize,
    },
    /// An entity was scanned.
    EntityScanned {
        /// The scanned entity descriptor.
        entity: ScannedEntity,
    },
    /// The parse has finished.
    Completed {
        /// Number of entities found.
        entity_count: usize,
    },
}

/// A [`ParseEvent`] as plain values.
pub enum EventView {
    Started(int),
    EntityScanned(ScannedView),
    Completed(int),
}

impl View for ParseEvent {
    type V = EventView;

    open spec fn view(&self) -> EventView {
        match self {
            ParseEvent::Started { file_size } => EventView::Started(*file_size as int),
            ParseEvent::EntityScanned { entity } => EventView::EntityScanned(entity@),
            ParseEvent::Completed { entity_count } => EventView::Completed(*entity_count as int),
        }
    }
}

// ═══════════════════════════════════════════════════════════════════
// StreamConfig
// ═══════════════════════════════════════════════════════════════════

/// The views of a sequence of types.
pub open spec fn type_views(v: Seq<IfcType>) -> Seq<(int, Seq<char>)> {
    v.map_values(|t: IfcType| t@)
}

/// A [`StreamConfig`] as plain values.
#[verifier::ext_equal]
pub struct ConfigView {
    pub skip: Seq<(int, Seq<char>)>,
    pub only: Option<Seq<(int, Seq<char>)>>,
}

/// Whether a configuration leaves out entities of type `t`: those in the
/// skip list, and, when an allow list is set, those not in it.
pub open spec fn skips(c: ConfigView, t: (int, Seq<char>)) -> bool {
    c.skip.contains(t) || (c.only matches Some(o) && !o.contains(t))
}

/// Configuration for the streaming parser.
///
/// Construct via [`Default`] and adjust through the builder methods.
#[derive(Debug, Clone)]
pub struct StreamConfig {
    skip_types: Vec<IfcType>,
    only_types: Option<Vec<IfcType>>,
}

impl View for StreamConfig {
    type V = ConfigView;

    closed spec fn view(&self) -> ConfigView {
        ConfigView {
            skip: type_views(self.skip_types@),
            only: match self.only_types {
                Some(v) => Some(type_views(v@)),
                None => None,
            },
        }
    }
}

/// Whether `t` is among `types`.
fn contains_type(types: &Vec<IfcType>, t: &IfcType) -> (r: bool)
    ensures
        r == type_views(types@).contains(t@),
{
    let mut i: usize = 0;
    while i < types.len()
        invariant
            i <= types@.len(),
            forall|j: int| 0 <= j < i ==> (#[trigger] types@[j])@ != t@,
        decreases types@.len() - i,
    {
        if types[i] == *t {
            assert(type_views(types@)[i as int] == t@);
            return true;
        }
        i = i + 1;
    }
    proof {
        if type_views(types@).contains(t@) {
            let k = choose|k: int| 0 <= k < type_views(types@).len() && type_views(types@)[k] == t@;
            assert(types@[k]@ == t@);
        }
    }
    false
}

impl StreamConfig {
    /// Set entity types to skip during scanning.
    pub fn with_skip_types(self, types: Vec<IfcType>) -> (r: Self)
        ensures
            r@ == (ConfigView { skip: type_views(types@), only: self@.only }),
    {
        StreamConfig { skip_types: types, only_types: self.only_types }
    }

    /// Restrict scanning to only these entity types.
    pub fn with_only_types(self, types: Vec<IfcType>) -> (r: Self)
        ensures
            r@ == (ConfigView { skip: self@.skip, only: Some(type_views(types@)) }),
    {
        StreamConfig { skip_types: self.skip_types, only_types: Some(types) }
    }

    /// Whether entities of type `ifc_type` are left out of the stream.
    pub fn should_skip(&self, ifc_type: &IfcType) -> (r: bool)
        ensures
            r == skips(self@, ifc_type@),
    {
        contains_type(&self.skip_types, ifc_type) || match &self.only_types {
            Some(only) => !contains_type(only, ifc_type),
            None => false,
        }
    }
}

/// The types that the default configuration skips.
pub open spec fn default_skip() -> Seq<(int, Seq<char>)> {
    seq![
        IfcType::IfcOwnerHistory@,
        IfcType::IfcPerson@,
        IfcType::IfcOrganization@,
        IfcType::IfcApplication@,
    ]
}

/// The default configuration leaves out exactly owner histories, persons,
/// organizations and applications, and has no allow list.
pub proof fn lemma_default_skips(t: IfcType)
    ensures
        skips(ConfigView { skip: default_skip(), only: None }, t@) <==> (t is IfcOwnerHistory
            || t is IfcPerson || t is IfcOrganization || t is IfcApplication),
{
    crate::ifc_type::lemma_step_spellings();
    if t is Unknown && default_skip().contains(t@) {
        let k = choose|k: int| 0 <= k < default_skip().len() && default_skip()[k] == t@;
        assert(k == 0 || k == 1 || k == 2 || k == 3);
    }
    if !(t is Unknown) && default_skip().contains(t@) {
        let k = choose|k: int| 0 <= k < default_skip().len() && default_skip()[k] == t@;
        assert(k == 0 || k == 1 || k == 2 || k == 3);
    }
    if t is IfcOwnerHistory {
        assert(default_skip()[0] == t@);
    }
    if t is IfcPerson {
        assert(default_skip()[1] == t@);
    }
    if t is IfcOrganization {
        assert(default_skip()[2] == t@);
    }
    if t is IfcApplication {
        assert(default_skip()[3] == t@);
    }
}

impl Default for StreamConfig {
    /// Skip owner histories, persons, organizations and applications; no allow list.
    fn default() -> (r: Self)
        ensures
            r@ == (ConfigView { skip: default_skip(), only: None }),
    {
        let skip_types = vec![
            IfcType::IfcOwnerHistory,
            IfcType::IfcPerson,
            IfcType::IfcOrganization,
            IfcType::IfcApplication,
        ];
        let r = StreamConfig { skip_types, only_types: None };
        assert(type_views(r.skip_types@) =~= default_skip());
        r
    }
}

// ═══════════════════════════════════════════════════════════════════
// The parse as a state machine
// ═══════════════════════════════════════════════════════════════════

/// The state threaded through the stream, as plain values.
#[verifier::ext_equal]
pub struct StateView {
    pub bytes: Seq<u8>,
    pub config: ConfigView,
    pub position: int,
    pub started: bool,
    pub completed: bool,
    pub count: int,
}

/// From a started state, pass over skipped entities to the next accepted
/// one, or to the end.
pub open spec fn advance_spec(s: StateView) -> Option<(EventView, StateView)>
    decreases s.bytes.len() - s.position,
{
    match scan_spec(s.bytes, s.position) {
        None => Some(
            (EventView::Completed(s.count), StateView { completed: true, ..s }),
        ),
        Some((e, next)) => if skips(s.config, e.ifc_type) {
            if s.position < next <= s.bytes.len() {
                advance_spec(StateView { position: next, ..s })
            } else {
                None
            }
        } else {
            Some(
                (
                    EventView::EntityScanned(e),
                    StateView { position: next, count: s.count + 1, ..s },
                ),
            )
        },
    }
}

/// One pull of the stream: `Started` first, then the entities, then
/// `Completed`, then nothing.
pub open spec fn step_spec(s: StateView) -> Option<(EventView, StateView)> {
    if s.completed {
        None
    } else if !s.started {
        Some((EventView::Started(s.bytes.len() as int), StateView { started: true, ..s }))
    } else {
        advance_spec(s)
    }
}

/// How many pulls a state can still answer, at most.
pub open spec fn pulls_left(s: StateView) -> int {
    if s.completed {
        0
    } else {
        2 * (s.bytes.len() - s.position) + if s.started {
            1int
        } else {
            2int
        }
    }
}

/// Every event the stream yields from state `s`, in order.
pub open spec fn events_from(s: StateView) -> Seq<EventView>
    decreases pulls_left(s),
{
    match step_spec(s) {
        None => Seq::empty(),
        Some((ev, s2)) => if 0 <= pulls_left(s2) < pulls_left(s) {
            seq![ev] + events_from(s2)
        } else {
            seq![ev]
        },
    }
}

/// The state a stream over `bytes` with configuration `c` starts in.
pub open spec fn initial_state(bytes: Seq<u8>, c: ConfigView) -> StateView {
    StateView { bytes, config: c, position: 0, started: false, completed: false, count: 0 }
}

/// The entities of `es` that configuration `c` accepts, in order.
pub open spec fn accepted(c: ConfigView, es: Seq<ScannedView>) -> Seq<ScannedView>
    decreases es.len(),
{
    if es.len() == 0 {
        Seq::empty()
    } else if skips(c, es[0].ifc_type) {
        accepted(c, es.drop_first())
    } else {
        seq![es[0]] + accepted(c, es.drop_first())
    }
}

/// One `EntityScanned` event per entity.
pub open spec fn scanned_events(es: Seq<ScannedView>) -> Seq<EventView> {
    es.map_values(|e: ScannedView| EventView::EntityScanned(e))
}

proof fn lemma_advance_progress(s: StateView)
    requires
        s.started,
        !s.completed,
        0 <= s.position <= s.bytes.len(),
        s.bytes.len() <= usize::MAX,
    ensures
        advance_spec(s) matches Some((ev, s2)) ==> 0 <= pulls_left(s2) < pulls_left(s),
    decreases s.bytes.len() - s.position,
{
    match scan_spec(s.bytes, s.position) {
        None => {},
        Some((e, next)) => {
            crate::scan::lemma_scan_progress(s.bytes, s.position);
            if skips(s.config, e.ifc_type) {
                lemma_advance_progress(StateView { position: next, ..s });
            }
        },
    }
}

/// Advancing a started state yields the first entity of the scan chain
/// from its position that the configuration accepts, moving past it and
/// counting it; when there is none, `Completed` with the count so far, at
/// a position where no entity remains.
pub proof fn lemma_advance_first_accepted(s: StateView)
    requires
        s.started,
        !s.completed,
        0 <= s.position <= s.bytes.len(),
        s.bytes.len() <= usize::MAX,
    ensures
        ({
            let acc = accepted(s.config, scan_all(s.bytes, s.position));
            &&& advance_spec(s) is Some
            &&& acc.len() > 0 ==> advance_spec(s) == Some(
                (
                    EventView::EntityScanned(acc[0]),
                    StateView { position: acc[0].end as int, count: s.count + 1, ..s },
                ),
            )
            &&& acc.len() == 0 ==> {
                let (ev, s2) = advance_spec(s).unwrap();
                &&& ev == EventView::Completed(s.count)
                &&& s2 == StateView { completed: true, position: s2.position, ..s }
                &&& s.position <= s2.position <= s.bytes.len()
                &&& scan_spec(s.bytes, s2.position) is None
            }
        }),
    decreases s.bytes.len() - s.position,
{
    let c = s.config;
    let b = s.bytes;
    match scan_spec(b, s.position) {
        None => {
            assert(scan_all(b, s.position) =~= Seq::<ScannedView>::empty());
        },
        Some((e, next)) => {
            crate::scan::lemma_scan_progress(b, s.position);
            let rest = scan_all(b, next);
            assert(scan_all(b, s.position) == seq![e] + rest);
            assert((seq![e] + rest).drop_first() =~= rest);
            assert((seq![e] + rest)[0] == e);
            if skips(c, e.ifc_type) {
                assert(accepted(c, seq![e] + rest) == accepted(c, rest));
                lemma_advance_first_accepted(StateView { position: next, ..s });
            } else {
                assert(accepted(c, seq![e] + rest) == seq![e] + accepted(c, rest));
                assert((seq![e] + accepted(c, rest))[0] == e);
            }
        },
    }
}

proof fn lemma_events_started(s: StateView)
    requires
        s.started,
        !s.completed,
        0 <= s.position <= s.bytes.len(),
        s.bytes.len() <= usize::MAX,
    ensures
        events_from(s) == scanned_events(accepted(s.config, scan_all(s.bytes, s.position)))
            + seq![EventView::Completed(s.count + accepted(s.config, scan_all(s.bytes, s.position)).len())],
    decreases s.bytes.len() - s.position,
{
    let c = s.config;
    let b = s.bytes;
    match scan_spec(b, s.position) {
        None => {
            let s2 = StateView { completed: true, ..s };
            assert(events_from(s2) =~= Seq::<EventView>::empty());
            assert(scan_all(b, s.position) =~= Seq::<ScannedView>::empty());
            assert(scanned_events(accepted(c, scan_all(b, s.position))) =~= Seq::<EventView>::empty());
            assert(events_from(s) =~= seq![EventView::Completed(s.count)]);
        },
        Some((e, next)) => {
            crate::scan::lemma_scan_progress(b, s.position);
            let s1 = StateView { position: next, ..s };
            lemma_events_started(s1);
            let rest = scan_all(b, next);
            assert(scan_all(b, s.position) == seq![e] + rest);
            assert((seq![e] + rest).drop_first() =~= rest);
            assert((seq![e] + rest)[0] == e);
            if skips(c, e.ifc_type) {
                assert(accepted(c, seq![e] + rest) == accepted(c, rest));
                lemma_advance_progress(s1);
                assert(step_spec(s) == step_spec(s1));
                assert(events_from(s) == events_from(s1));
            } else {
                let s2 = StateView { position: next, count: s.count + 1, ..s };
                assert(accepted(c, seq![e] + rest) == seq![e] + accepted(c, rest));
                assert(scanned_events(seq![e] + accepted(c, rest)) =~= seq![EventView::EntityScanned(e)]
                    + scanned_events(accepted(c, rest)));
                lemma_events_started(s2);
                assert(events_from(s) == seq![EventView::EntityScanned(e)] + events_from(s2));
                assert(events_from(s) =~= scanned_events(accepted(c, scan_all(b, s.position)))
                    + seq![EventView::Completed(s.count + accepted(c, scan_all(b, s.position)).len())]);
            }
        },
    }
}

/// The events of a stream: `Started` with the size of the content, one
/// `EntityScanned` per entity that the configuration accepts (in file
/// order), then `Completed` with the number of those entities.
pub proof fn lemma_stream_events(bytes: Seq<u8>, c: ConfigView)
    requires
        bytes.len() <= usize::MAX,
    ensures
        events_from(initial_state(bytes, c)) == seq![EventView::Started(bytes.len() as int)]
            + scanned_events(accepted(c, scan_all(bytes, 0))) + seq![
            EventView::Completed(accepted(c, scan_all(bytes, 0)).len() as int),
        ],
{
    let s0 = initial_state(bytes, c);
    let s1 = StateView { started: true, ..s0 };
    lemma_events_started(s1);
    assert(events_from(s0) == seq![EventView::Started(bytes.len() as int)] + events_from(s1));
    assert(events_from(s0) =~= seq![EventView::Started(bytes.len() as int)] + scanned_events(
        accepted(c, scan_all(bytes, 0)),
    ) + seq![EventView::Completed(accepted(c, scan_all(bytes, 0)).len() as int)]);
}

/// Internal state threaded through the stream unfold.
struct ParseState {
    content: String,
    config: StreamConfig,
    position: usize,
    started: bool,
    completed: bool,
    entity_count: usize,
}

impl ParseState {
    #[verifier::type_invariant]
    spec fn counts_fit(self) -> bool {
        &&& self.entity_count <= self.position <= string_bytes(self.content).len()
        &&& string_bytes(self.content).len() <= usize::MAX
    }

    spec fn view(self) -> StateView {
        StateView {
            bytes: string_bytes(self.content),
            config: self.config@,
            position: self.position as int,
            started: self.started,
            completed: self.completed,
            count: self.entity_count as int,
        }
    }
}

/// Pass over skipped entities to the next accepted one, or to the end.
fn advance_until_accepted(state: ParseState) -> (r: Option<(ParseEvent, ParseState)>)
    ensures
        match advance_spec(state.view()) {
            Some((ev, s)) => r matches Some((e, t)) && e@ == ev && t.view() == s,
            None => r is None,
        },
{
    proof {
        use_type_invariant(&state);
    }
    let ghost start = state.view();
    let ParseState { content, config, position, started, completed, entity_count } = state;
    let mut position = position;
    assert(StateView { position: position as int, ..start } =~= start);
    loop
        invariant
            entity_count <= position <= string_bytes(content).len(),
            string_bytes(content).len() <= usize::MAX,
            start == state.view(),
            advance_spec(start) == advance_spec(StateView { position: position as int, ..start }),
            start.bytes == string_bytes(content),
            start.config == config@,
            start.started == started,
            start.completed == completed,
            start.count == entity_count,
        decreases string_bytes(content).len() - position,
    {
        let bytes = content.as_str().as_bytes();
        assert(bytes@ == string_bytes(content));
        let found = scan_next(bytes, position);
        match found {
            None => {
                let next = ParseState {
                    content,
                    config,
                    position,
                    started,
                    completed: true,
                    entity_count,
                };
                assert(next.view() =~= StateView { position: position as int, completed: true, ..start });
                return Some((ParseEvent::Completed { entity_count }, next));
            },
            Some((entity, next_pos)) => {
                proof {
                    crate::scan::lemma_scan_progress(string_bytes(content), position as int);
                }
                if config.should_skip(entity.ifc_type()) {
                    position = next_pos;
                } else {
                    let next = ParseState {
                        content,
                        config,
                        position: next_pos,
                        started,
                        completed,
                        entity_count: entity_count + 1,
                    };
                    assert(next.view() =~= StateView {
                        position: next_pos as int,
                        count: entity_count + 1,
                        ..start
                    });
                    return Some((ParseEvent::EntityScanned { entity }, next));
                }
            },
        }
    }
}

/// One pull of the event stream.
fn parse_step(state: ParseState) -> (r: Option<(ParseEvent, ParseState)>)
    ensures
        match step_spec(state.view()) {
            Some((ev, s)) => r matches Some((e, t)) && e@ == ev && t.view() == s,
            None => r is None,
        },
{
    proof {
        use_type_invariant(&state);
    }
    if state.completed {
        None
    } else if !state.started {
        let text = state.content.as_str();
        assert(text.spec_bytes() == string_bytes(state.content));
        let file_size = text.len();
        let ghost start = state.view();
        let ParseState { content, config, position, started, completed, entity_count } = state;
        let next = ParseState {
            content,
            config,
            position,
            started: true,
            completed,
            entity_count,
        };
        assert(next.view() =~= StateView { started: true, ..start });
        Some((ParseEvent::Started { file_size }, next))
    } else {
        advance_until_accepted(state)
    }
}

/// What collecting a stream of parse events yields, in order.
pub uninterp spec fn event_stream_items(s: Stream<Error, ParseEvent>) -> Seq<EventView>;

/// `Stream::unfold` from `state`, each pull running [`parse_step`]
/// (lifted with `Io::pure`, so no pull fails): the stream yields the
/// events `parse_step` yields, in order, until it yields `None`.  By
/// `parse_step`'s contract those are [`events_from`] the state.
#[verifier::external_body]
fn unfold_events(state: ParseState) -> (r: Stream<Error, ParseEvent>)
    ensures
        event_stream_items(r) == events_from(state.view()),
{
    Stream::unfold(state, Arc::new(|s: ParseState| Io::pure(parse_step(s))))
}

/// A lazy stream of [`ParseEvent`]s for `content`.
///
/// The stream first emits [`ParseEvent::Started`], then one
/// [`ParseEvent::EntityScanned`] per entity that `config` accepts, in file
/// order, and finally [`ParseEvent::Completed`] with their number.
pub fn parse_stream(content: String, config: StreamConfig) -> (r: Stream<Error, ParseEvent>)
    ensures
        event_stream_items(r) == events_from(initial_state(string_bytes(content), config@)),
        event_stream_items(r) == seq![EventView::Started(string_bytes(content).len() as int)]
            + scanned_events(accepted(config@, scan_all(string_bytes(content), 0))) + seq![
            EventView::Completed(accepted(config@, scan_all(string_bytes(content), 0)).len() as int),
        ],
{
    let n = content.as_str().as_bytes().len();
    assert(n == string_bytes(content).len());
    let ghost b = string_bytes(content);
    let ghost c = config@;
    let state = ParseState {
        content,
        config,
        position: 0,
        started: false,
        completed: false,
        entity_count: 0,
    };
    assert(state.view() =~= initial_state(b, c));
    proof {
        lemma_stream_events(b, c);
    }
    unfold_events(state)
}

} // verus!
