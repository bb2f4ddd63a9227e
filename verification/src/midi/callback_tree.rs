//! The callback tree: callbacks attached to (channel, kind, place) keys, one
//! map level per part of the key.
use vstd::prelude::*;
use std::collections::HashMap;
use crate::midi::event::{MidiEvent, VoiceEvent, parse_midi_event, parsed_midi_event};
use crate::midi::util::{ChannelVoiceKind, CallbackTreeError, voice_kind, voice_place, voice_value};
use crate::pipeweaver_controllers::providers::CallbackProvider;

verus! {

broadcast use vstd::std_specs::hash::group_hash_axioms;

/// The key under which a channel voice kind is stored in a hash map.
pub open spec fn kind_code(kind: ChannelVoiceKind) -> u8 {
    match kind {
        ChannelVoiceKind::Note => 0,
        ChannelVoiceKind::ControlChange => 1,
        ChannelVoiceKind::Other => 2,
    }
}

fn kind_key(kind: ChannelVoiceKind) -> (r: u8)
    ensures
        r == kind_code(kind),
{
    match kind {
        ChannelVoiceKind::Note => 0,
        ChannelVoiceKind::ControlChange => 1,
        ChannelVoiceKind::Other => 2,
    }
}

/// The callbacks of one channel and kind, by place (note or controller
/// number).
#[derive(Clone, Debug)]
pub struct CallbackTreeLeaves<C> {
    callbacks: HashMap<u8, C>,
}

impl<C> View for CallbackTreeLeaves<C> {
    type V = Map<u8, C>;

    closed spec fn view(&self) -> Map<u8, C> {
        self.callbacks@
    }
}

impl<C: Clone> CallbackTreeLeaves<C> {
    /// An empty set of leaves.
    pub fn new() -> (r: Self)
        ensures
            r@ == Map::<u8, C>::empty(),
    {
        CallbackTreeLeaves { callbacks: HashMap::new() }
    }

    /// Attaches `callback` to `place`, replacing any callback there.
    pub fn insert_callback(&mut self, place: u8, callback: C) -> (r: Result<(), CallbackTreeError>)
        ensures
            r is Ok,
            final(self)@ == old(self)@.insert(place, callback),
    {
        self.callbacks.insert(place, callback);
        Ok(())
    }

    /// A clone of the callback at `place`, if there is one.
    pub fn get_if_exists(&self, place: u8) -> (r: Option<C>)
        ensures
            match r {
                Some(c) => self@.contains_key(place) && cloned(self@[place], c),
                None => !self@.contains_key(place),
            },
    {
        match self.callbacks.get(&place) {
            Some(c) => Some(c.clone()),
            None => None,
        }
    }

    /// Detaches the callback at `place`, if there is one.
    pub fn remove_callback(&mut self, place: u8)
        ensures
            final(self)@ == old(self)@.remove(place),
    {
        self.callbacks.remove(&place);
    }
}


/// The callbacks of one channel, by kind and place.
#[derive(Clone, Debug)]
pub struct ChannelVoiceMsgCallbackTree<C> {
    types: HashMap<u8, CallbackTreeLeaves<C>>,
}

impl<C> View for ChannelVoiceMsgCallbackTree<C> {
    type V = Map<(ChannelVoiceKind, u8), C>;

    closed spec fn view(&self) -> Map<(ChannelVoiceKind, u8), C> {
        Map::new(
            |key: (ChannelVoiceKind, u8)|
                self.types@.contains_key(kind_code(key.0)) && self.types@[kind_code(
                    key.0,
                )]@.contains_key(key.1),
            |key: (ChannelVoiceKind, u8)| self.types@[kind_code(key.0)]@[key.1],
        )
    }
}

impl<C: Clone> ChannelVoiceMsgCallbackTree<C> {
    /// An empty tree.
    pub fn new() -> (r: Self)
        ensures
            r@ == Map::<(ChannelVoiceKind, u8), C>::empty(),
    {
        let r = ChannelVoiceMsgCallbackTree { types: HashMap::new() };
        assert(r@ =~= Map::<(ChannelVoiceKind, u8), C>::empty());
        r
    }

    /// Attaches `callback` to (`channel`, `place`), replacing any callback
    /// there.
    pub fn insert_callback(&mut self, channel: ChannelVoiceKind, place: u8, callback: C) -> (r: Result<
        (),
        CallbackTreeError,
    >)
        ensures
            r is Ok,
            final(self)@ == old(self)@.insert((channel, place), callback),
    {
        let code = kind_key(channel);
        let ghost before = self@;
        let r = match self.types.remove(&code) {
            Some(mut next) => {
                let r = next.insert_callback(place, callback);
                self.types.insert(code, next);
                r
            },
            None => {
                let mut next = CallbackTreeLeaves::new();
                let r = next.insert_callback(place, callback);
                self.types.insert(code, next);
                r
            },
        };
        assert(self@ =~= before.insert((channel, place), callback));
        r
    }

    /// A clone of the callback at (`channel`, `place`), if there is one.
    pub fn get_if_exists(&self, channel: ChannelVoiceKind, place: u8) -> (r: Option<C>)
        ensures
            match r {
                Some(c) => self@.contains_key((channel, place)) && cloned(self@[(channel, place)], c),
                None => !self@.contains_key((channel, place)),
            },
    {
        match self.types.get(&kind_key(channel)) {
            Some(next) => next.get_if_exists(place),
            None => None,
        }
    }

    /// Detaches the callback at (`channel`, `place`), if there is one.
    pub fn rm_callback(&mut self, channel: ChannelVoiceKind, place: u8)
        ensures
            final(self)@ == old(self)@.remove((channel, place)),
    {
        let code = kind_key(channel);
        let ghost before = self@;
        match self.types.remove(&code) {
            Some(mut next) => {
                next.remove_callback(place);
                self.types.insert(code, next);
            },
            None => {},
        }
        assert(self@ =~= before.remove((channel, place)));
    }
}


/// Whether an event can carry a callback: a note on, note off or control
/// change on some channel.
pub open spec fn event_valid(event: MidiEvent) -> bool {
    event matches MidiEvent::ChannelVoice { msg, .. } && !(msg is Other)
}

/// Whether an event can be looked up in the tree without failing: anything
/// but a channel voice message of a kind that has no place.
pub open spec fn event_addressable(event: MidiEvent) -> bool {
    !(event matches MidiEvent::ChannelVoice { msg, .. } && msg is Other)
}

/// The key an event is filed under: its channel, its kind and its place.
pub open spec fn event_key(event: MidiEvent) -> Option<(u8, ChannelVoiceKind, u8)> {
    match event {
        MidiEvent::ChannelVoice { channel, msg } => match voice_place(voice_kind(msg), msg) {
            Ok(place) => Some((channel, voice_kind(msg), place)),
            Err(_) => None,
        },
        MidiEvent::Other => None,
    }
}

/// Why an event without a key cannot carry a callback.
pub open spec fn event_key_error(event: MidiEvent) -> CallbackTreeError {
    match event {
        MidiEvent::ChannelVoice { .. } => CallbackTreeError::NoPlaceForKind,
        MidiEvent::Other => CallbackTreeError::NotChannelVoice,
    }
}

/// The value an event hands to the callback it reaches: 127 for a note on, 0
/// for a note off, the controller value of a control change.
pub open spec fn event_value(event: MidiEvent) -> Result<u8, CallbackTreeError> {
    match event {
        MidiEvent::ChannelVoice { msg, .. } => voice_value(voice_kind(msg), msg),
        MidiEvent::Other => Err(CallbackTreeError::NotChannelVoice),
    }
}

/// Whether `event` is a note on, note off or control change.
pub fn is_event_valid(event: MidiEvent) -> (r: bool)
    ensures
        r == event_valid(event),
        r == (event_key(event) is Some),
{
    match event {
        MidiEvent::ChannelVoice { channel: _, msg } => match msg {
            VoiceEvent::NoteOn { .. } | VoiceEvent::NoteOff { .. } | VoiceEvent::ControlChange { .. } => true,
            _ => false,
        },
        _ => false,
    }
}

/// What becomes of the bytes a MIDI port delivered.
#[derive(Clone, Copy, Debug, PartialEq, Eq, Structural)]
pub enum IncomingMidi {
    /// The bytes are not a MIDI message.
    Unparsable,
    /// A MIDI message that carries no callback; it is dropped.
    Ignored,
    /// A note or control change, to dispatch and to remember.
    Accepted(MidiEvent),
}

/// Sorts a decoded message (or its absence) into the three outcomes.
pub fn classify_incoming(parsed: Option<MidiEvent>) -> (r: IncomingMidi)
    ensures
        r == match parsed {
            None => IncomingMidi::Unparsable,
            Some(e) => if event_valid(e) {
                IncomingMidi::Accepted(e)
            } else {
                IncomingMidi::Ignored
            },
        },
{
    match parsed {
        None => IncomingMidi::Unparsable,
        Some(e) => if is_event_valid(e) {
            IncomingMidi::Accepted(e)
        } else {
            IncomingMidi::Ignored
        },
    }
}

/// Decodes the bytes a MIDI port delivered and sorts the message.
pub fn incoming_event(bytes: &[u8]) -> (r: IncomingMidi)
    ensures
        r == match parsed_midi_event(bytes@) {
            None => IncomingMidi::Unparsable,
            Some(e) => if event_valid(e) {
                IncomingMidi::Accepted(e)
            } else {
                IncomingMidi::Ignored
            },
        },
        r matches IncomingMidi::Accepted(MidiEvent::ChannelVoice { channel, .. }) ==> channel < 16,
{
    classify_incoming(parse_midi_event(bytes))
}

/// The whole tree: callbacks by channel, kind and place.
#[derive(Clone, Debug)]
pub struct MidiMsgCallbackTree<C> {
    channels: HashMap<u8, ChannelVoiceMsgCallbackTree<C>>,
}

impl<C> View for MidiMsgCallbackTree<C> {
    type V = Map<(u8, ChannelVoiceKind, u8), C>;

    closed spec fn view(&self) -> Map<(u8, ChannelVoiceKind, u8), C> {
        Map::new(
            |key: (u8, ChannelVoiceKind, u8)|
                self.channels@.contains_key(key.0) && self.channels@[key.0]@.contains_key((key.1, key.2)),
            |key: (u8, ChannelVoiceKind, u8)| self.channels@[key.0]@[(key.1, key.2)],
        )
    }
}

impl<C> MidiMsgCallbackTree<C> {
    /// The callback `event` reaches, if any.
    pub open spec fn lookup(&self, event: MidiEvent) -> Option<C> {
        match event_key(event) {
            Some(k) => if self@.contains_key(k) {
                Some(self@[k])
            } else {
                None
            },
            None => None,
        }
    }
}

impl<C: Clone> MidiMsgCallbackTree<C> {
    /// An empty tree.
    pub fn new() -> (r: Self)
        ensures
            r@ == Map::<(u8, ChannelVoiceKind, u8), C>::empty(),
    {
        let r = MidiMsgCallbackTree { channels: HashMap::new() };
        assert(r@ =~= Map::<(u8, ChannelVoiceKind, u8), C>::empty());
        r
    }

    /// Attaches `callback` to the channel, kind and place of `event`,
    /// replacing any callback there. Fails, changing nothing, for an event
    /// that is not a note or a control change.
    pub fn insert_callback(&mut self, event: &MidiEvent, callback: C) -> (r: Result<(), CallbackTreeError>)
        ensures
            match event_key(*event) {
                Some(k) => r is Ok && final(self)@ == old(self)@.insert(k, callback),
                None => r == Err::<(), CallbackTreeError>(event_key_error(*event)) && final(self)@ == old(self)@,
            },
    {
        match event {
            MidiEvent::ChannelVoice { channel, msg } => {
                let hash_channel = *channel;
                let cvk = ChannelVoiceKind::from(msg);
                let place = match cvk.get_place(*msg) {
                    Ok(p) => p,
                    Err(e) => return Err(e),
                };
                let ghost before = self@;
                match self.channels.remove(&hash_channel) {
                    Some(mut next) => {
                        let r = next.insert_callback(cvk, place, callback);
                        self.channels.insert(hash_channel, next);
                        assert(self@ =~= before.insert((hash_channel, cvk, place), callback));
                        r
                    },
                    None => {
                        let mut next = ChannelVoiceMsgCallbackTree::new();
                        let r = next.insert_callback(cvk, place, callback);
                        self.channels.insert(hash_channel, next);
                        assert(self@ =~= before.insert((hash_channel, cvk, place), callback));
                        r
                    },
                }
            },
            _ => Err(CallbackTreeError::NotChannelVoice),
        }
    }

    /// A clone of the callback `event` reaches, if any.
    pub fn get_if_exists(&self, event: &MidiEvent) -> (r: Option<C>)
        requires
            event_addressable(*event),
        ensures
            match self.lookup(*event) {
                Some(c) => r matches Some(d) && cloned(c, d),
                None => r is None,
            },
    {
        match event {
            MidiEvent::ChannelVoice { channel, msg } => {
                let hash_channel = *channel;
                let cvk = ChannelVoiceKind::from(msg);
                let place = match cvk.get_place(*msg) {
                    Ok(p) => p,
                    Err(_) => return None,
                };
                match self.channels.get(&hash_channel) {
                    Some(next) => next.get_if_exists(cvk, place),
                    None => None,
                }
            },
            _ => None,
        }
    }

    /// Detaches the callback `event` reaches, if any.
    pub fn rm_callback(&mut self, event: &MidiEvent)
        requires
            event_addressable(*event),
        ensures
            final(self)@ == match event_key(*event) {
                Some(k) => old(self)@.remove(k),
                None => old(self)@,
            },
    {
        match event {
            MidiEvent::ChannelVoice { channel, msg } => {
                let hash_channel = *channel;
                let cvk = ChannelVoiceKind::from(msg);
                let place = match cvk.get_place(*msg) {
                    Ok(p) => p,
                    Err(_) => return,
                };
                let ghost before = self@;
                match self.channels.remove(&hash_channel) {
                    Some(mut next) => {
                        next.rm_callback(cvk, place);
                        self.channels.insert(hash_channel, next);
                    },
                    None => {},
                }
                assert(self@ =~= before.remove((hash_channel, cvk, place)));
            },
            _ => {},
        }
    }
}

impl<C: Clone> MidiMsgCallbackTree<C> {
    /// What executing `event` amounts to: the callback it reaches (a clone
    /// of it) together with the value to hand over (127 for a note on, 0 for
    /// a note off, the controller value of a control change), or `None` when
    /// nothing is bound to it or it is not a channel voice message. Fails for
    /// a channel voice message that is not a note or a control change.
    pub fn dispatch(&self, event: &MidiEvent) -> (r: Result<Option<(C, u8)>, CallbackTreeError>)
        ensures
            match event_key(*event) {
                Some(_) => match self.lookup(*event) {
                    Some(c) => r matches Ok(Some((d, v))) && cloned(c, d) && event_value(*event) == Ok::<
                        u8,
                        CallbackTreeError,
                    >(v),
                    None => r matches Ok(None),
                },
                None => match *event {
                    MidiEvent::ChannelVoice { .. } => r matches Err(CallbackTreeError::NoPlaceForKind),
                    MidiEvent::Other => r matches Ok(None),
                },
            },
    {
        match event {
            MidiEvent::ChannelVoice { channel, msg } => {
                let hash_channel = *channel;
                let cvk = ChannelVoiceKind::from(msg);
                let place = match cvk.get_place(*msg) {
                    Ok(p) => p,
                    Err(e) => return Err(e),
                };
                match self.channels.get(&hash_channel) {
                    Some(next) => match next.get_if_exists(cvk, place) {
                        Some(cb) => {
                            let value = match cvk.get_val(*msg) {
                                Ok(v) => v,
                                Err(e) => return Err(e),
                            };
                            Ok(Some((cb, value)))
                        },
                        None => Ok(None),
                    },
                    None => Ok(None),
                }
            },
            _ => Ok(None),
        }
    }
}

impl<C: Clone + CallbackProvider> MidiMsgCallbackTree<C> {
    /// Executes `event`: the callback that [`Self::dispatch`] finds (a clone
    /// of the one bound to the event's key) is called once, with the value
    /// `dispatch` gives (127 for a note on, 0 for a note off, the controller
    /// value of a control change), and nothing is called when it finds none
    /// or fails. Returns whether a callback was called; fails for a channel
    /// voice message that is not a note or a control change.
    pub fn exec(&self, event: &MidiEvent) -> (r: Result<bool, CallbackTreeError>)
        ensures
            r == match event_key(*event) {
                Some(_) => Ok::<bool, CallbackTreeError>(self.lookup(*event) is Some),
                None => match *event {
                    MidiEvent::ChannelVoice { .. } => Err(CallbackTreeError::NoPlaceForKind),
                    MidiEvent::Other => Ok(false),
                },
            },
            r == Ok::<bool, CallbackTreeError>(true) ==> exists|d: C|
                cloned(self.lookup(*event)->0, d) && #[trigger] call_ensures(
                    C::callback,
                    (&d, event_value(*event)->Ok_0),
                    (),
                ),
    {
        match self.dispatch(event) {
            Ok(Some((cb, value))) => {
                cb.callback(value);
                assert(self.lookup(*event) is Some);
                assert(call_ensures(C::callback, (&cb, event_value(*event)->Ok_0), ()));
                Ok(true)
            },
            Ok(None) => Ok(false),
            Err(e) => Err(e),
        }
    }
}


/// Reading back what was written: once `insert_callback(event, callback)`
/// succeeded, `event` reaches `callback`, and every event filed under another
/// key reaches what it reached before.
pub proof fn lemma_lookup_after_insert<C>(
    before: MidiMsgCallbackTree<C>,
    after: MidiMsgCallbackTree<C>,
    event: MidiEvent,
    callback: C,
    other: MidiEvent,
)
    requires
        event_key(event) is Some,
        after@ == before@.insert(event_key(event)->0, callback),
    ensures
        after.lookup(event) == Some(callback),
        event_key(other) != event_key(event) ==> after.lookup(other) == before.lookup(other),
{
}

/// Once the callback of `event` is removed, `event` reaches nothing, and every
/// event filed under another key reaches what it reached before.
pub proof fn lemma_lookup_after_remove<C>(
    before: MidiMsgCallbackTree<C>,
    after: MidiMsgCallbackTree<C>,
    event: MidiEvent,
    other: MidiEvent,
)
    requires
        event_key(event) is Some,
        after@ == before@.remove(event_key(event)->0),
    ensures
        after.lookup(event) is None,
        event_key(other) != event_key(event) ==> after.lookup(other) == before.lookup(other),
{
}

/// A binding does not depend on the value a message carries: the note on and
/// note off of a note, whatever their velocities, and the control changes of
/// a controller, whatever their values, reach the same callback.
pub proof fn lemma_binding_ignores_values<C>(
    tree: MidiMsgCallbackTree<C>,
    channel: u8,
    number: u8,
    v1: u8,
    v2: u8,
    s1: bool,
    s2: bool,
)
    ensures
        tree.lookup(MidiEvent::ChannelVoice { channel, msg: VoiceEvent::NoteOn { note: number, velocity: v1 } })
            == tree.lookup(MidiEvent::ChannelVoice { channel, msg: VoiceEvent::NoteOff { note: number, velocity: v2 } }),
        tree.lookup(MidiEvent::ChannelVoice { channel, msg: VoiceEvent::ControlChange { control: number, value: v1, simple: s1 } })
            == tree.lookup(MidiEvent::ChannelVoice { channel, msg: VoiceEvent::ControlChange { control: number, value: v2, simple: s2 } }),
{
}

/// Notes and control changes are kept apart, as are channels: a note and a
/// control change with the same number, or the same message on two channels,
/// never share a binding.
pub proof fn lemma_bindings_are_separate(channel: u8, other_channel: u8, number: u8, velocity: u8, value: u8)
    ensures
        event_key(MidiEvent::ChannelVoice { channel, msg: VoiceEvent::NoteOn { note: number, velocity } })
            != event_key(MidiEvent::ChannelVoice { channel, msg: VoiceEvent::ControlChange { control: number, value, simple: true } }),
        channel != other_channel ==> event_key(
            MidiEvent::ChannelVoice { channel, msg: VoiceEvent::ControlChange { control: number, value, simple: true } },
        ) != event_key(MidiEvent::ChannelVoice { channel: other_channel, msg: VoiceEvent::ControlChange { control: number, value, simple: true } }),
{
}

/// One call that changes a tree: attaching a callback to a key, or detaching
/// whatever is at a key.
pub enum TreeOp<K, C> {
    Insert(K, C),
    Remove(K),
}

/// The bindings after `op`, starting from `bindings`.
pub open spec fn apply_op<K, C>(bindings: Map<K, C>, op: TreeOp<K, C>) -> Map<K, C> {
    match op {
        TreeOp::Insert(k, c) => bindings.insert(k, c),
        TreeOp::Remove(k) => bindings.remove(k),
    }
}

/// The bindings after `ops`, applied in order to an empty tree.
pub open spec fn replay<K, C>(ops: Seq<TreeOp<K, C>>) -> Map<K, C>
    decreases ops.len(),
{
    if ops.len() == 0 {
        Map::empty()
    } else {
        apply_op(replay(ops.drop_last()), ops.last())
    }
}

/// The callback the last call on `key` in `ops` attached, if that call was
/// an insert; `None` when it was a remove or no call touched `key`.
pub open spec fn last_binding<K, C>(ops: Seq<TreeOp<K, C>>, key: K) -> Option<C>
    decreases ops.len(),
{
    if ops.len() == 0 {
        None
    } else {
        match ops.last() {
            TreeOp::Insert(k, c) => if k == key {
                Some(c)
            } else {
                last_binding(ops.drop_last(), key)
            },
            TreeOp::Remove(k) => if k == key {
                None
            } else {
                last_binding(ops.drop_last(), key)
            },
        }
    }
}

/// After any sequence of inserts and removes on an empty tree, a key holds
/// exactly the callback of the last insert on it, provided no remove of it
/// came later; otherwise it holds nothing.
pub proof fn lemma_replay_holds_last_binding<K, C>(ops: Seq<TreeOp<K, C>>, key: K)
    ensures
        replay(ops).contains_key(key) == (last_binding(ops, key) is Some),
        replay(ops).contains_key(key) ==> replay(ops)[key] == last_binding(ops, key)->0,
    decreases ops.len(),
{
    if ops.len() > 0 {
        lemma_replay_holds_last_binding(ops.drop_last(), key);
    }
}

/// The trees `trees[0]`, ..., `trees[n]` come from an empty tree by the calls
/// `ops[0]`, ..., `ops[n - 1]`, each as its contract states.
pub open spec fn built_by<C>(trees: Seq<ChannelVoiceMsgCallbackTree<C>>, ops: Seq<TreeOp<(ChannelVoiceKind, u8), C>>) -> bool {
    &&& trees.len() == ops.len() + 1
    &&& trees[0]@ == Map::<(ChannelVoiceKind, u8), C>::empty()
    &&& forall|i: int| 0 <= i < ops.len() ==> #[trigger] trees[i + 1]@ == apply_op(trees[i]@, ops[i])
}

/// A tree built from `ChannelVoiceMsgCallbackTree::new` by any sequence of
/// `insert_callback` and `rm_callback` calls holds, at each (kind, place),
/// the callback of the last `insert_callback` there, unless an
/// `rm_callback` there came later; otherwise `get_if_exists` finds nothing
/// there (so nothing at all in a fresh tree).
pub proof fn lemma_tree_holds_last_binding<C>(
    trees: Seq<ChannelVoiceMsgCallbackTree<C>>,
    ops: Seq<TreeOp<(ChannelVoiceKind, u8), C>>,
    key: (ChannelVoiceKind, u8),
)
    requires
        built_by(trees, ops),
    ensures
        trees.last()@ == replay(ops),
        trees.last()@.contains_key(key) == (last_binding(ops, key) is Some),
        trees.last()@.contains_key(key) ==> trees.last()@[key] == last_binding(ops, key)->0,
{
    lemma_trees_follow_replay(trees, ops, ops.len() as int);
    assert(ops.take(ops.len() as int) =~= ops);
    lemma_replay_holds_last_binding(ops, key);
}

proof fn lemma_trees_follow_replay<C>(
    trees: Seq<ChannelVoiceMsgCallbackTree<C>>,
    ops: Seq<TreeOp<(ChannelVoiceKind, u8), C>>,
    j: int,
)
    requires
        built_by(trees, ops),
        0 <= j <= ops.len(),
    ensures
        trees[j]@ == replay(ops.take(j)),
    decreases j,
{
    if j > 0 {
        lemma_trees_follow_replay(trees, ops, j - 1);
        assert(ops.take(j).drop_last() =~= ops.take(j - 1));
        assert(trees[(j - 1) + 1]@ == apply_op(trees[j - 1]@, ops[j - 1]));
    }
}

} // verus!
