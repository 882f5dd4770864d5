//! The status-event relay on the receiver side.
//!
//! The playback process posts status events tagged with a correlation
//! token; the manager keeps a map from token to the message handle the
//! calling context registered for that session, and turns each event into
//! an edit of the referenced message.  Events whose token has no handle
//! yet are dropped, and dropping never disturbs the map.
//!
//! The channels and the HTTP edit itself are driven by the caller; the
//! manager decides, input by input, what the loop does next.

use vstd::prelude::*;

use crate::protocol::{PlayerEvent, TrackInfo};

verus! {

/// Reference to the placeholder status message a session keeps editing.
#[derive(Clone, Copy, Debug, PartialEq, Eq, Structural)]
pub struct MsgHandle {
    pub msg_id: u64,
    pub channel_id: u64,
}

/// A status event together with the correlation token of the session it
/// belongs to.
#[derive(Clone, Debug, PartialEq, Eq)]
pub struct PlayerEventWithToken {
    pub token: String,
    pub event: PlayerEvent,
}

/// The views of a list of strings.
pub open spec fn strs_view(v: Seq<String>) -> Seq<Seq<char>> {
    v.map_values(|p: String| p@)
}

/// The parts joined with the separator between consecutive parts.
pub open spec fn spec_join(parts: Seq<Seq<char>>, sep: Seq<char>) -> Seq<char>
    decreases parts.len(),
{
    if parts.len() == 0 {
        Seq::empty()
    } else if parts.len() == 1 {
        parts[0]
    } else {
        spec_join(parts.drop_last(), sep) + sep + parts.last()
    }
}

/// Join the strings with the separator between consecutive entries.
pub fn join_strings(parts: &Vec<String>, sep: &str) -> (r: String)
    ensures
        r@ == spec_join(strs_view(parts@), sep@),
{
    let ghost all = strs_view(parts@);
    let mut s = String::new();
    let mut i: usize = 0;
    while i < parts.len()
        invariant
            i <= parts@.len(),
            all == strs_view(parts@),
            s@ == spec_join(all.take(i as int), sep@),
        decreases parts@.len() - i,
    {
        if i > 0 {
            s.append(sep);
        }
        s.append(parts[i].as_str());
        proof {
            assert(all.take(i + 1).drop_last() =~= all.take(i as int));
            assert(all.take(i + 1).last() == parts@[i as int]@);
            if i == 0 {
                assert(s@ =~= spec_join(all.take(1), sep@));
            }
        }
        i = i + 1;
    }
    proof {
        assert(all.take(parts@.len() as int) =~= all);
    }
    s
}

/// The rendering of a playing event: its glyph, then title, artist list
/// and album separated by dashes.
pub open spec fn spec_playing_content(info: TrackInfo) -> Seq<char> {
    "▶️ "@ + info.name@ + " - "@ + spec_join(strs_view(info.artists@), ", "@) + " - "@
        + info.album@
}

/// The rendering of a paused event.
pub open spec fn spec_paused_content(info: TrackInfo) -> Seq<char> {
    "⏸️ "@ + info.name@ + " - "@ + spec_join(strs_view(info.artists@), ", "@) + " - "@
        + info.album@
}

/// The rendering of a stopped event: its glyph alone.
pub open spec fn spec_stopped_content() -> Seq<char> {
    "⏹️"@
}

/// The display text for an event, one distinct rendering per case.
pub open spec fn spec_event_content(event: PlayerEvent) -> Seq<char> {
    match event {
        PlayerEvent::Playing(info) => spec_playing_content(info),
        PlayerEvent::Paused(info) => spec_paused_content(info),
        PlayerEvent::Stopped => spec_stopped_content(),
    }
}

/// Display text for a playing track.
pub fn playing_content(info: TrackInfo) -> (r: String)
    ensures
        r@ == spec_playing_content(info),
{
    let mut s = String::from_str("▶️ ");
    s.append(info.name.as_str());
    s.append(" - ");
    let joined = join_strings(&info.artists, ", ");
    s.append(joined.as_str());
    s.append(" - ");
    s.append(info.album.as_str());
    s
}

/// Display text for a paused track.
pub fn paused_content(info: TrackInfo) -> (r: String)
    ensures
        r@ == spec_paused_content(info),
{
    let mut s = String::from_str("⏸️ ");
    s.append(info.name.as_str());
    s.append(" - ");
    let joined = join_strings(&info.artists, ", ");
    s.append(joined.as_str());
    s.append(" - ");
    s.append(info.album.as_str());
    s
}

/// Display text for an event.
pub fn event_content(event: PlayerEvent) -> (r: String)
    ensures
        r@ == spec_event_content(event),
{
    match event {
        PlayerEvent::Playing(info) => playing_content(info),
        PlayerEvent::Paused(info) => paused_content(info),
        PlayerEvent::Stopped => String::from_str("⏹️"),
    }
}

/// The renderings of the three event cases never share their leading
/// glyph, whatever tracks they show.
pub proof fn lemma_renderings_distinct(i1: TrackInfo, i2: TrackInfo)
    ensures
        spec_playing_content(i1).len() > 0,
        spec_paused_content(i2).len() > 0,
        spec_stopped_content().len() > 0,
        spec_playing_content(i1)[0] != spec_paused_content(i2)[0],
        spec_playing_content(i1)[0] != spec_stopped_content()[0],
        spec_paused_content(i2)[0] != spec_stopped_content()[0],
{
    reveal_strlit("▶️ ");
    reveal_strlit("⏸️ ");
    reveal_strlit("⏹️");
    assert(spec_playing_content(i1)[0] == "▶️ "@[0]);
    assert(spec_paused_content(i2)[0] == "⏸️ "@[0]);
}

/// No two entries share a correlation token.
spec fn tokens_unique(s: Seq<(String, MsgHandle)>) -> bool {
    forall|i: int, j: int| 0 <= i < j < s.len() ==> s[i].0@ != s[j].0@
}

/// The mathematical contents of the entry list: token -> handle.
spec fn handle_map(s: Seq<(String, MsgHandle)>) -> Map<Seq<char>, MsgHandle>
    decreases s.len(),
{
    if s.len() == 0 {
        Map::empty()
    } else {
        handle_map(s.drop_last()).insert(s.last().0@, s.last().1)
    }
}

proof fn lemma_handle_contains(s: Seq<(String, MsgHandle)>, k: Seq<char>)
    ensures
        handle_map(s).contains_key(k) <==> exists|i: int| 0 <= i < s.len() && s[i].0@ == k,
    decreases s.len(),
{
    if s.len() > 0 {
        lemma_handle_contains(s.drop_last(), k);
        if s.last().0@ == k {
            assert(s[s.len() - 1].0@ == k);
        } else {
            if exists|i: int| 0 <= i < s.len() && s[i].0@ == k {
                let i = choose|i: int| 0 <= i < s.len() && s[i].0@ == k;
                assert(s.drop_last()[i].0@ == k);
            }
        }
    }
}

proof fn lemma_handle_index(s: Seq<(String, MsgHandle)>, i: int)
    requires
        tokens_unique(s),
        0 <= i < s.len(),
    ensures
        handle_map(s).contains_key(s[i].0@),
        handle_map(s)[s[i].0@] == s[i].1,
    decreases s.len(),
{
    if i < s.len() - 1 {
        assert(tokens_unique(s.drop_last()));
        lemma_handle_index(s.drop_last(), i);
        assert(s.drop_last()[i] == s[i]);
    }
}

proof fn lemma_handle_update(s: Seq<(String, MsgHandle)>, i: int, p: (String, MsgHandle))
    requires
        tokens_unique(s),
        0 <= i < s.len(),
        p.0@ == s[i].0@,
    ensures
        handle_map(s.update(i, p)) == handle_map(s).insert(p.0@, p.1),
        tokens_unique(s.update(i, p)),
    decreases s.len(),
{
    let k = p.0@;
    if i == s.len() - 1 {
        assert(s.update(i, p).drop_last() =~= s.drop_last());
        assert(s.update(i, p).last() == p);
        assert(handle_map(s.update(i, p)) == handle_map(s.drop_last()).insert(k, p.1));
        assert(handle_map(s).insert(k, p.1) =~= handle_map(s.drop_last()).insert(k, p.1));
    } else {
        let dl = s.drop_last();
        assert(tokens_unique(dl));
        lemma_handle_update(dl, i, p);
        assert(s.update(i, p).drop_last() =~= dl.update(i, p));
        assert(s.update(i, p).last() == s.last());
        assert(s.last().0@ != k);
        assert(handle_map(s).insert(k, p.1) =~= handle_map(dl).insert(k, p.1).insert(
            s.last().0@,
            s.last().1,
        ));
    }
}

/// The manager's input channels, as one event type: a side-channel handle
/// registration, a status event, or the cancellation signal.
pub enum ManagerInput {
    Register(String, MsgHandle),
    Event(PlayerEventWithToken),
    Cancelled,
}

/// What the loop does after one input.
pub enum ManagerAction {
    /// Keep reading; nothing to perform (in particular, a dropped event).
    Continue,
    /// Request an edit of the referenced message to the given content.
    Edit(MsgHandle, String),
    /// Cancellation wins: stop the loop.
    Stop,
}

/// The manager: the map from correlation token to the registered message
/// handle.  Inputs are processed one at a time in arrival order.
pub struct PlayerEventsManager {
    msgs: Vec<(String, MsgHandle)>,
}

impl View for PlayerEventsManager {
    type V = Map<Seq<char>, MsgHandle>;

    closed spec fn view(&self) -> Map<Seq<char>, MsgHandle> {
        handle_map(self.msgs@)
    }
}

impl PlayerEventsManager {
    #[verifier::type_invariant]
    spec fn wf(self) -> bool {
        tokens_unique(self.msgs@)
    }

    /// A manager with no handle registered yet.
    pub fn new() -> (m: Self)
        ensures
            m@ == Map::<Seq<char>, MsgHandle>::empty(),
    {
        PlayerEventsManager { msgs: Vec::new() }
    }

    /// Index of the entry registered under `token`, if any.
    fn find_index(&self, token: &String) -> (r: Option<usize>)
        ensures
            match r {
                Some(i) => i < self.msgs@.len() && self.msgs@[i as int].0@ == token@
                    && self@.contains_key(token@) && self@[token@] == self.msgs@[i as int].1,
                None => !self@.contains_key(token@) && forall|j: int|
                    0 <= j < self.msgs@.len() ==> self.msgs@[j].0@ != token@,
            },
    {
        proof {
            use_type_invariant(&*self);
        }
        let n = self.msgs.len();
        let mut i: usize = 0;
        while i < n
            invariant
                i <= n,
                n == self.msgs@.len(),
                tokens_unique(self.msgs@),
                forall|j: int| 0 <= j < i ==> self.msgs@[j].0@ != token@,
            decreases n - i,
        {
            if self.msgs[i].0 == *token {
                proof {
                    lemma_handle_contains(self.msgs@, token@);
                    lemma_handle_index(self.msgs@, i as int);
                }
                return Some(i);
            }
            i = i + 1;
        }
        proof {
            lemma_handle_contains(self.msgs@, token@);
        }
        None
    }

    /// Record the message handle status events for `token` should edit.
    /// A second registration for the same token replaces the first.
    pub fn register(&mut self, token: String, handle: MsgHandle)
        ensures
            final(self)@ == old(self)@.insert(token@, handle),
    {
        proof {
            use_type_invariant(&*self);
        }
        match self.find_index(&token) {
            Some(i) => {
                let ghost s0 = self.msgs@;
                let mut entries: Vec<(String, MsgHandle)> = Vec::new();
                core::mem::swap(&mut entries, &mut self.msgs);
                entries.set(i, (token, handle));
                proof {
                    lemma_handle_update(s0, i as int, entries@[i as int]);
                }
                self.msgs = entries;
            },
            None => {
                let ghost s0 = self.msgs@;
                let mut entries: Vec<(String, MsgHandle)> = Vec::new();
                core::mem::swap(&mut entries, &mut self.msgs);
                entries.push((token, handle));
                proof {
                    assert(entries@.drop_last() =~= s0);
                    assert(tokens_unique(entries@));
                }
                self.msgs = entries;
            },
        }
    }

    /// What a status event leads to: the edit of the registered message
    /// with the event's rendering, or nothing at all when no handle is
    /// registered for the token — the event is dropped, no error is
    /// raised, and the map is left untouched.
    pub fn handle_event(&self, event: PlayerEventWithToken) -> (r: Option<(MsgHandle, String)>)
        ensures
            match r {
                Some((h, c)) => self@.contains_key(event.token@) && h == self@[event.token@]
                    && c@ == spec_event_content(event.event),
                None => !self@.contains_key(event.token@),
            },
    {
        match self.find_index(&event.token) {
            Some(i) => {
                let handle = self.msgs[i].1;
                let content = event_content(event.event);
                Some((handle, content))
            },
            None => None,
        }
    }

    /// One turn of the manager loop.  Registrations update the map, events
    /// are rendered for their registered handle or dropped without any
    /// effect, and cancellation stops the loop at once.
    pub fn step(&mut self, input: ManagerInput) -> (a: ManagerAction)
        ensures
            match input {
                ManagerInput::Register(token, handle) => final(self)@ == old(self)@.insert(
                    token@,
                    handle,
                ) && a is Continue,
                ManagerInput::Event(ev) => final(self)@ == old(self)@ && (if old(
                    self,
                )@.contains_key(ev.token@) {
                    a matches ManagerAction::Edit(h, c) && h == old(self)@[ev.token@] && c@
                        == spec_event_content(ev.event)
                } else {
                    a is Continue
                }),
                ManagerInput::Cancelled => final(self)@ == old(self)@ && a is Stop,
            },
    {
        match input {
            ManagerInput::Register(token, handle) => {
                self.register(token, handle);
                ManagerAction::Continue
            },
            ManagerInput::Event(ev) => {
                match self.handle_event(ev) {
                    Some((handle, content)) => ManagerAction::Edit(handle, content),
                    None => ManagerAction::Continue,
                }
            },
            ManagerInput::Cancelled => ManagerAction::Stop,
        }
    }
}

/// The path, with its correlation-token query, that the playback process
/// posts status events to.
pub fn player_events_path(token: &str) -> (r: String)
    ensures
        r@ == "/api/player_events?token="@ + token@,
{
    let mut s = String::from_str("/api/player_events?token=");
    s.append(token);
    s
}

} // verus!
