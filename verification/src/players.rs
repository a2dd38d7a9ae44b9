//! Players: join/leave detection in server log lines, and the registry of
//! who is online together with a bounded history of join/leave events.
use vstd::prelude::*;
use crate::text::opt_chars;
use crate::clock::Timestamp;
use crate::logs::{ring_push, RingBuffer};
use crate::text::{chars_eq, chars_of};

verus! {

broadcast use vstd::string::group_string_axioms;

// ---------------------------------------------------------------------------
// Detection
// ---------------------------------------------------------------------------

/// Text of the capture group `name` in the leftmost match of the regular
/// expression `pattern` in `line`; `None` when the pattern does not compile,
/// does not match, or the group did not take part in the match.
pub uninterp spec fn regex_named_capture(pattern: Seq<char>, line: Seq<char>) -> Option<Seq<char>>;

/// `regex::Regex::new(pattern)`, then `captures(line)` and the group `name`.
/// The contract names the result; regular-expression matching is not spelled
/// out.
#[verifier::external_body]
fn capture_name(pattern: &str, line: &str) -> (r: Option<String>)
    ensures
        match r {
            Some(s) => regex_named_capture(pattern@, line@) == Some(s@),
            None => regex_named_capture(pattern@, line@) is None,
        },
{
    regex::Regex::new(pattern).ok()?.captures(line)?.name("name").map(|m| m.as_str().to_string())
}

/// Patterns of a player joining, tried in order; each captures `name`.
pub open spec fn join_pattern(i: int) -> Seq<char> {
    if i == 0 {
        "(?i)player\\s+'?(?P<name>[^'\\s]+)'?\\s+has\\s+joined"@
    } else if i == 1 {
        "(?i)player\\s+'?(?P<name>[^'\\s]+)'?\\s+connected"@
    } else if i == 2 {
        "(?i)client\\s+(?P<name>\\S+)\\s+connected"@
    } else {
        "(?i)\\[join\\]\\s+(?P<name>\\S+)"@
    }
}

/// Patterns of a player leaving, tried in order; each captures `name`.
pub open spec fn leave_pattern(i: int) -> Seq<char> {
    if i == 0 {
        "(?i)player\\s+'?(?P<name>[^'\\s]+)'?\\s+has\\s+left"@
    } else if i == 1 {
        "(?i)player\\s+'?(?P<name>[^'\\s]+)'?\\s+disconnected"@
    } else if i == 2 {
        "(?i)client\\s+(?P<name>\\S+)\\s+disconnected"@
    } else {
        "(?i)\\[leave\\]\\s+(?P<name>\\S+)"@
    }
}

/// The name captured by the first of four patterns that captures one.
pub open spec fn first_capture(pattern: spec_fn(int) -> Seq<char>, line: Seq<char>) -> Option<
    Seq<char>,
> {
    match regex_named_capture(pattern(0), line) {
        Some(n) => Some(n),
        None => match regex_named_capture(pattern(1), line) {
            Some(n) => Some(n),
            None => match regex_named_capture(pattern(2), line) {
                Some(n) => Some(n),
                None => regex_named_capture(pattern(3), line),
            },
        },
    }
}

/// The player a line says has joined, if any.
pub fn match_join(line: &str) -> (r: Option<String>)
    ensures
        opt_chars(r) == first_capture(|i: int| join_pattern(i), line@),
{
    let r = capture_name("(?i)player\\s+'?(?P<name>[^'\\s]+)'?\\s+has\\s+joined", line);
    if r.is_some() {
        return r;
    }
    let r = capture_name("(?i)player\\s+'?(?P<name>[^'\\s]+)'?\\s+connected", line);
    if r.is_some() {
        return r;
    }
    let r = capture_name("(?i)client\\s+(?P<name>\\S+)\\s+connected", line);
    if r.is_some() {
        return r;
    }
    capture_name("(?i)\\[join\\]\\s+(?P<name>\\S+)", line)
}

/// The player a line says has left, if any.
pub fn match_leave(line: &str) -> (r: Option<String>)
    ensures
        opt_chars(r) == first_capture(|i: int| leave_pattern(i), line@),
{
    let r = capture_name("(?i)player\\s+'?(?P<name>[^'\\s]+)'?\\s+has\\s+left", line);
    if r.is_some() {
        return r;
    }
    let r = capture_name("(?i)player\\s+'?(?P<name>[^'\\s]+)'?\\s+disconnected", line);
    if r.is_some() {
        return r;
    }
    let r = capture_name("(?i)client\\s+(?P<name>\\S+)\\s+disconnected", line);
    if r.is_some() {
        return r;
    }
    capture_name("(?i)\\[leave\\]\\s+(?P<name>\\S+)", line)
}

/// A join or leave found in a log line.
#[derive(Debug)]
pub enum LineEvent {
    Joined(String),
    Left(String),
}

/// The join or leave a line reports; a join is looked for first.
pub fn detect_player_event(line: &str) -> (r: Option<LineEvent>)
    ensures
        match first_capture(|i: int| join_pattern(i), line@) {
            Some(n) => r matches Some(LineEvent::Joined(p)) && p@ == n,
            None => match first_capture(|i: int| leave_pattern(i), line@) {
                Some(n) => r matches Some(LineEvent::Left(p)) && p@ == n,
                None => r is None,
            },
        },
{
    if let Some(name) = match_join(line) {
        return Some(LineEvent::Joined(name));
    }
    if let Some(name) = match_leave(line) {
        return Some(LineEvent::Left(name));
    }
    None
}

// ---------------------------------------------------------------------------
// Registry
// ---------------------------------------------------------------------------

/// A player currently online.
#[derive(Debug)]
pub struct Player {
    pub name: String,
    pub joined_at: Timestamp,
}

/// Whether an event is a join or a leave.
#[derive(Clone, Copy, Debug, PartialEq, Eq, Structural)]
pub enum PlayerEventKind {
    Joined,
    Left,
}

/// A join or leave, with when it was seen.
#[derive(Debug)]
pub struct PlayerEvent {
    pub player_name: String,
    pub kind: PlayerEventKind,
    pub timestamp: Timestamp,
}

/// Position of the player called `name` in `ps[i..]`, or -1.
pub open spec fn player_index_from(ps: Seq<Player>, name: Seq<char>, i: int) -> int
    decreases ps.len() - i,
{
    if i < 0 || i >= ps.len() {
        -1
    } else if ps[i].name@ == name {
        i
    } else {
        player_index_from(ps, name, i + 1)
    }
}

/// Position of the player called `name`, or -1.
pub open spec fn player_index(ps: Seq<Player>, name: Seq<char>) -> int {
    player_index_from(ps, name, 0)
}

/// A player called `name` is online.
pub open spec fn is_online(ps: Seq<Player>, name: Seq<char>) -> bool {
    exists|i: int| 0 <= i < ps.len() && ps[i].name@ == name
}

/// No two online players share a name.
pub open spec fn distinct_names(ps: Seq<Player>) -> bool {
    forall|i: int, j: int|
        0 <= i < ps.len() && 0 <= j < ps.len() && i != j ==> ps[i].name@ != ps[j].name@
}

/// Where a joining player is recorded: over the existing entry of that name,
/// else after the last entry.
pub open spec fn join_slot(ps: Seq<Player>, name: Seq<char>) -> int {
    let k = player_index(ps, name);
    if k >= 0 {
        k
    } else {
        ps.len() as int
    }
}

/// The online list after `name` leaves.
pub open spec fn after_leave(ps: Seq<Player>, name: Seq<char>) -> Seq<Player> {
    let k = player_index(ps, name);
    if k >= 0 {
        ps.remove(k)
    } else {
        ps
    }
}

/// What `player_index_from` finds.
pub proof fn lemma_player_index_from(ps: Seq<Player>, name: Seq<char>, i: int)
    requires
        0 <= i,
    ensures
        player_index_from(ps, name, i) == -1 || (i <= player_index_from(ps, name, i) < ps.len()
            && ps[player_index_from(ps, name, i)].name@ == name),
        player_index_from(ps, name, i) == -1 ==> forall|k: int|
            i <= k < ps.len() ==> ps[k].name@ != name,
    decreases ps.len() - i,
{
    if i < ps.len() && ps[i].name@ != name {
        lemma_player_index_from(ps, name, i + 1);
    }
}

/// A join of a player who is already online updates that entry: the number
/// of players online does not grow.
pub proof fn law_rejoin_keeps_count(ps: Seq<Player>, name: Seq<char>)
    requires
        is_online(ps, name),
    ensures
        0 <= join_slot(ps, name) < ps.len(),
        ps[join_slot(ps, name)].name@ == name,
{
    lemma_player_index_from(ps, name, 0);
    let i = choose|i: int| 0 <= i < ps.len() && ps[i].name@ == name;
    assert(ps[i].name@ == name);
}

/// A leave takes only that player offline: everyone else online stays online.
pub proof fn law_leave_keeps_others(ps: Seq<Player>, name: Seq<char>, other: Seq<char>)
    requires
        other != name,
        is_online(ps, other),
    ensures
        is_online(after_leave(ps, name), other),
{
    lemma_player_index_from(ps, name, 0);
    let k = player_index(ps, name);
    let i = choose|i: int| 0 <= i < ps.len() && ps[i].name@ == other;
    if k >= 0 {
        assert(i != k);
        let r = ps.remove(k);
        if i < k {
            assert(r[i] == ps[i]);
        } else {
            assert(r[i - 1] == ps[i]);
        }
    }
}

/// Players online and the recent join/leave history.
pub struct PlayerRegistry {
    online: Vec<Player>,
    events: RingBuffer<PlayerEvent>,
}

impl PlayerRegistry {
    /// Players online.
    pub closed spec fn players(&self) -> Seq<Player> {
        self.online@
    }

    /// Recent events, oldest first.
    pub closed spec fn events(&self) -> Seq<PlayerEvent> {
        self.events.items()
    }

    /// How many events are kept.
    pub closed spec fn event_cap(&self) -> nat {
        self.events.cap()
    }

    /// The registry's invariant: online names are distinct.
    pub open spec fn wf(&self) -> bool {
        distinct_names(self.players())
    }

    /// No one online, no history, keeping up to `event_capacity` events.
    pub fn new(event_capacity: usize) -> (r: Self)
        ensures
            r.wf(),
            r.players() == Seq::<Player>::empty(),
            r.events() == Seq::<PlayerEvent>::empty(),
            r.event_cap() == event_capacity,
    {
        PlayerRegistry { online: Vec::new(), events: RingBuffer::new(event_capacity) }
    }

    fn find(&self, name: &str) -> (r: Option<usize>)
        ensures
            match r {
                Some(k) => player_index(self.players(), name@) == k,
                None => player_index(self.players(), name@) == -1,
            },
    {
        let n = chars_of(name);
        let mut i: usize = 0;
        while i < self.online.len()
            invariant
                i <= self.online.len(),
                n@ == name@,
                player_index(self.players(), name@) == player_index_from(
                    self.players(),
                    name@,
                    i as int,
                ),
            decreases self.online.len() - i,
        {
            let pn = chars_of(self.online[i].name.as_str());
            if chars_eq(pn.as_slice(), n.as_slice()) {
                return Some(i);
            }
            i = i + 1;
        }
        None
    }

    /// Records `name` joining at `now`: the player is online (joined at
    /// `now`) and a join event is appended to the history.
    pub fn player_joined(&mut self, name: &str, now: Timestamp)
        requires
            old(self).wf(),
        ensures
            final(self).wf(),
            ({
                let slot = join_slot(old(self).players(), name@);
                &&& final(self).players().len() == (if slot < old(self).players().len() {
                    old(self).players().len()
                } else {
                    old(self).players().len() + 1
                })
                &&& forall|i: int|
                    0 <= i < old(self).players().len() && i != slot ==> final(self).players()[i]
                        == old(self).players()[i]
                &&& final(self).players()[slot].name@ == name@
                &&& final(self).players()[slot].joined_at == now
            }),
            is_online(final(self).players(), name@),
            final(self).events().len() > 0,
            final(self).events() == ring_push(
                old(self).events(),
                old(self).event_cap(),
                final(self).events().last(),
            ),
            final(self).events().last().player_name@ == name@,
            final(self).events().last().kind == PlayerEventKind::Joined,
            final(self).events().last().timestamp == now,
            final(self).event_cap() == old(self).event_cap(),
    {
        proof {
            lemma_player_index_from(self.players(), name@, 0);
        }
        let entry = Player { name: name.to_string(), joined_at: now };
        match self.find(name) {
            Some(k) => {
                self.online.set(k, entry);
            },
            None => {
                self.online.push(entry);
            },
        }
        proof {
            let slot = join_slot(old(self).players(), name@);
            assert(self.players()[slot].name@ == name@);
        }
        self.events.push(
            PlayerEvent { player_name: name.to_string(), kind: PlayerEventKind::Joined, timestamp: now },
        );
    }

    /// Records `name` leaving at `now`: the player is no longer online and a
    /// leave event is appended to the history.
    pub fn player_left(&mut self, name: &str, now: Timestamp)
        requires
            old(self).wf(),
        ensures
            final(self).wf(),
            final(self).players() == after_leave(old(self).players(), name@),
            !is_online(final(self).players(), name@),
            final(self).events().len() > 0,
            final(self).events() == ring_push(
                old(self).events(),
                old(self).event_cap(),
                final(self).events().last(),
            ),
            final(self).events().last().player_name@ == name@,
            final(self).events().last().kind == PlayerEventKind::Left,
            final(self).events().last().timestamp == now,
            final(self).event_cap() == old(self).event_cap(),
    {
        proof {
            lemma_player_index_from(self.players(), name@, 0);
        }
        match self.find(name) {
            Some(k) => {
                let _ = self.online.remove(k);
            },
            None => {},
        }
        self.events.push(
            PlayerEvent { player_name: name.to_string(), kind: PlayerEventKind::Left, timestamp: now },
        );
    }

    /// Everyone goes offline; the history is kept.
    pub fn clear_players(&mut self)
        ensures
            final(self).wf(),
            final(self).players() == Seq::<Player>::empty(),
            final(self).events() == old(self).events(),
            final(self).event_cap() == old(self).event_cap(),
    {
        self.online.clear();
    }

    /// Number of players online.
    pub fn player_count(&self) -> (r: usize)
        ensures
            r == self.players().len(),
    {
        self.online.len()
    }

    /// Players online.
    pub fn get_players(&self) -> (r: Vec<Player>)
        ensures
            r@.len() == self.players().len(),
            forall|i: int|
                0 <= i < r@.len() ==> r@[i].name@ == self.players()[i].name@ && r@[i].joined_at
                    == self.players()[i].joined_at,
    {
        let mut out: Vec<Player> = Vec::new();
        let mut i: usize = 0;
        while i < self.online.len()
            invariant
                i <= self.online.len(),
                out@.len() == i,
                forall|k: int|
                    0 <= k < i ==> out@[k].name@ == self.players()[k].name@ && out@[k].joined_at
                        == self.players()[k].joined_at,
            decreases self.online.len() - i,
        {
            let p = &self.online[i];
            out.push(Player { name: p.name.clone(), joined_at: p.joined_at });
            i = i + 1;
        }
        out
    }

    /// Recent join/leave events, oldest first.
    pub fn get_player_events(&self) -> (r: Vec<PlayerEvent>)
        ensures
            r@.len() == self.events().len(),
            forall|i: int|
                0 <= i < r@.len() ==> r@[i].player_name@ == self.events()[i].player_name@
                    && r@[i].kind == self.events()[i].kind && r@[i].timestamp
                    == self.events()[i].timestamp,
    {
        let mut out: Vec<PlayerEvent> = Vec::new();
        let mut i: usize = 0;
        while i < self.events.len()
            invariant
                i <= self.events().len(),
                out@.len() == i,
                forall|k: int|
                    0 <= k < i ==> out@[k].player_name@ == self.events()[k].player_name@
                        && out@[k].kind == self.events()[k].kind && out@[k].timestamp
                        == self.events()[k].timestamp,
            decreases self.events().len() - i,
        {
            let e = self.events.get(i);
            out.push(
                PlayerEvent {
                    player_name: e.player_name.clone(),
                    kind: e.kind,
                    timestamp: e.timestamp,
                },
            );
            i = i + 1;
        }
        out
    }
}

/// The players listing: who is online, how many, and the recent history.
pub struct PlayersResponse {
    pub online: Vec<Player>,
    pub online_count: usize,
    pub recent_events: Vec<PlayerEvent>,
}

impl PlayerRegistry {
    /// The listing served to clients.
    pub fn players_response(&self) -> (r: PlayersResponse)
        ensures
            r.online_count == r.online@.len(),
            r.online@.len() == self.players().len(),
            forall|i: int|
                0 <= i < r.online@.len() ==> r.online@[i].name@ == self.players()[i].name@
                    && r.online@[i].joined_at == self.players()[i].joined_at,
            r.recent_events@.len() == self.events().len(),
            forall|i: int|
                0 <= i < r.recent_events@.len() ==> r.recent_events@[i].player_name@
                    == self.events()[i].player_name@ && r.recent_events@[i].kind
                    == self.events()[i].kind && r.recent_events@[i].timestamp
                    == self.events()[i].timestamp,
    {
        let online = self.get_players();
        let online_count = online.len();
        let recent_events = self.get_player_events();
        PlayersResponse { online, online_count, recent_events }
    }
}

} // verus!
