use vstd::prelude::*;
use crate::keyed::KeyedList;

verus! {

/// A game session bound to a voice server: where the local client was and
/// the channel that the game asked for.
#[derive(Clone, Copy, Debug, PartialEq, Eq, Structural)]
pub struct GameHandler {
    pub server_id: u64,
    pub own_client_id: u16,
    pub original_channel: u64,
    pub game_channel: u64,
    pub in_game: bool,
}

impl GameHandler {
    /// A session that has not entered the game channel yet.
    pub fn new(server_id: u64, own_client_id: u16, original_channel: u64, game_channel: u64) -> (r:
        GameHandler)
        ensures
            r == (GameHandler { server_id, own_client_id, original_channel, game_channel, in_game: false }),
    {
        GameHandler { server_id, own_client_id, original_channel, game_channel, in_game: false }
    }
}

/// Whether `servers` (pairs of server id and unique identifier) names the
/// identifier `uid` at position `i` and at no earlier position.
pub open spec fn first_with_uid(servers: Seq<(u64, String)>, uid: Seq<char>, i: int) -> bool {
    &&& 0 <= i < servers.len()
    &&& servers[i].1@ == uid
    &&& forall|j: int| 0 <= j < i ==> servers[j].1@ != uid
}

/// The id of the first server, among `servers` (pairs of server id and unique
/// identifier), whose unique identifier is `uid`.
pub fn get_server_by_uid(servers: &Vec<(u64, String)>, uid: &String) -> (r: Option<u64>)
    ensures
        match r {
            Some(id) => exists|i: int| first_with_uid(servers@, uid@, i) && servers@[i].0 == id,
            None => forall|i: int| 0 <= i < servers.len() ==> servers@[i].1@ != uid@,
        },
{
    let mut i: usize = 0;
    while i < servers.len()
        invariant
            i <= servers.len(),
            forall|j: int| 0 <= j < i ==> servers@[j].1@ != uid@,
        decreases servers.len() - i,
    {
        if servers[i].1 == *uid {
            assert(first_with_uid(servers@, uid@, i as int));
            return Some(servers[i].0);
        }
        i += 1;
    }
    None
}

/// Why no game session could be set up for a server.
#[derive(Clone, Copy, Debug, PartialEq, Eq, Structural)]
pub enum GameSetupError {
    /// A session already exists for the server's unique identifier.
    AlreadyExists,
    /// The client is not connected to a server with that identifier.
    NotConnected,
}

/// The game sessions, by server unique identifier.
pub struct GameInstances {
    games: KeyedList<GameHandler>,
}

impl View for GameInstances {
    type V = Map<Seq<char>, GameHandler>;

    closed spec fn view(&self) -> Map<Seq<char>, GameHandler> {
        self.games@
    }
}

impl GameInstances {
    /// The underlying map is well formed.
    pub closed spec fn wf(&self) -> bool {
        self.games.wf()
    }

    /// No session.
    pub fn new() -> (r: GameInstances)
        ensures
            r.wf(),
            r@ == Map::<Seq<char>, GameHandler>::empty(),
    {
        GameInstances { games: KeyedList::new() }
    }

    /// The session of server `uid`, if any.
    pub fn get(&self, uid: &String) -> (r: Option<GameHandler>)
        requires
            self.wf(),
        ensures
            match r {
                Some(g) => self@.contains_key(uid@) && g == self@[uid@],
                None => !self@.contains_key(uid@),
            },
    {
        match self.games.get(uid) {
            Some(g) => Some(*g),
            None => None,
        }
    }

    /// The id of the server for which a new session for `uid` is to be set
    /// up: refused when a session for `uid` exists, or when no server among
    /// `servers` has that identifier.
    pub fn server_for_new_game(&self, servers: &Vec<(u64, String)>, uid: &String) -> (r: Result<
        u64,
        GameSetupError,
    >)
        requires
            self.wf(),
        ensures
            self@.contains_key(uid@) ==> r == Err::<u64, GameSetupError>(GameSetupError::AlreadyExists),
            !self@.contains_key(uid@) ==> match r {
                Ok(id) => exists|i: int| first_with_uid(servers@, uid@, i) && servers@[i].0 == id,
                Err(e) => e == GameSetupError::NotConnected && forall|i: int|
                    0 <= i < servers.len() ==> servers@[i].1@ != uid@,
            },
    {
        if self.games.contains_key(uid) {
            return Err(GameSetupError::AlreadyExists);
        }
        match get_server_by_uid(servers, uid) {
            Some(id) => Ok(id),
            None => Err(GameSetupError::NotConnected),
        }
    }

    /// Records session `g` for server `uid` unless one exists; returns
    /// whether it was recorded.
    pub fn register(&mut self, uid: String, g: GameHandler) -> (r: bool)
        requires
            old(self).wf(),
        ensures
            final(self).wf(),
            r == !old(self)@.contains_key(uid@),
            r ==> final(self)@ == old(self)@.insert(uid@, g),
            !r ==> final(self)@ == old(self)@,
    {
        if self.games.contains_key(&uid) {
            false
        } else {
            self.games.insert(uid, g);
            true
        }
    }
}

} // verus!
