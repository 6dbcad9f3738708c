use vstd::prelude::*;
use crate::keyed::KeyedList;
use crate::protocol::{InitiateParameter, PlayerStateUpdateParameter, SelfStateUpdateParameter};

verus! {

/// The roster that a sequence of player updates leaves behind when applied,
/// in order, to roster `m`: each update replaces the whole entry of its name.
pub open spec fn roster_after(
    m: Map<Seq<char>, PlayerStateUpdateParameter>,
    ps: Seq<PlayerStateUpdateParameter>,
) -> Map<Seq<char>, PlayerStateUpdateParameter>
    decreases ps.len(),
{
    if ps.len() == 0 {
        m
    } else {
        roster_after(m, ps.drop_last()).insert(ps.last().name@, ps.last())
    }
}

/// Whether every entry of a roster is filed under its own player's name.
pub open spec fn roster_keyed_by_name(m: Map<Seq<char>, PlayerStateUpdateParameter>) -> bool {
    forall|k: Seq<char>| #[trigger] m.contains_key(k) ==> m[k].name@ == k
}

/// The state of one game-server instance: its initiation parameters, the
/// local player's state once reported, and the roster of remote players.
pub struct Instance {
    params: InitiateParameter,
    self_state: Option<SelfStateUpdateParameter>,
    roster: KeyedList<PlayerStateUpdateParameter>,
}

impl Instance {
    /// The roster is well formed and files each player under its own name.
    pub closed spec fn wf(&self) -> bool {
        &&& self.roster.wf()
        &&& roster_keyed_by_name(self.roster@)
    }

    /// The initiation parameters.
    pub closed spec fn params_view(&self) -> InitiateParameter {
        self.params
    }

    /// The local player's state, once reported.
    pub closed spec fn self_state_view(&self) -> Option<SelfStateUpdateParameter> {
        self.self_state
    }

    /// The roster, by player name.
    pub closed spec fn roster_view(&self) -> Map<Seq<char>, PlayerStateUpdateParameter> {
        self.roster@
    }

    /// The roster of a well-formed instance is keyed by player name.
    pub proof fn lemma_roster_keyed(&self)
        requires
            self.wf(),
        ensures
            roster_keyed_by_name(self.roster_view()),
    {
    }

    /// A freshly initiated instance: no self state and an empty roster.
    pub fn new(params: InitiateParameter) -> (r: Instance)
        ensures
            r.wf(),
            r.params_view() == params,
            r.self_state_view() is None,
            r.roster_view() == Map::<Seq<char>, PlayerStateUpdateParameter>::empty(),
    {
        Instance { params, self_state: None, roster: KeyedList::new() }
    }

    /// The initiation parameters.
    pub fn params(&self) -> (r: &InitiateParameter)
        ensures
            *r == self.params_view(),
    {
        &self.params
    }

    /// The local player's state, once reported.
    pub fn self_state(&self) -> (r: Option<SelfStateUpdateParameter>)
        ensures
            r == self.self_state_view(),
    {
        self.self_state
    }

    /// Replaces the local player's state.
    pub fn update_self(&mut self, s: SelfStateUpdateParameter)
        requires
            old(self).wf(),
        ensures
            final(self).wf(),
            final(self).params_view() == old(self).params_view(),
            final(self).self_state_view() == Some(s),
            final(self).roster_view() == old(self).roster_view(),
    {
        self.self_state = Some(s);
    }

    /// The state of the player called `name`, if the roster holds one.
    pub fn player(&self, name: &String) -> (r: Option<&PlayerStateUpdateParameter>)
        requires
            self.wf(),
        ensures
            match r {
                Some(p) => self.roster_view().contains_key(name@) && *p == self.roster_view()[name@],
                None => !self.roster_view().contains_key(name@),
            },
    {
        self.roster.get(name)
    }

    /// The number of players in the roster.
    pub fn player_count(&self) -> (r: usize)
        requires
            self.wf(),
        ensures
            r == self.roster_view().dom().len(),
    {
        self.roster.len()
    }

    /// Merges a player update: inserts the player, or replaces the whole
    /// entry of a player of that name.
    pub fn upsert_player(&mut self, p: PlayerStateUpdateParameter)
        requires
            old(self).wf(),
        ensures
            final(self).wf(),
            final(self).params_view() == old(self).params_view(),
            final(self).self_state_view() == old(self).self_state_view(),
            final(self).roster_view() == old(self).roster_view().insert(p.name@, p),
    {
        let name = p.name.clone();
        self.roster.insert(name, p);
    }

    /// Drops the player called `name`; nothing changes if there is none.
    pub fn remove_player(&mut self, name: &String)
        requires
            old(self).wf(),
        ensures
            final(self).wf(),
            final(self).params_view() == old(self).params_view(),
            final(self).self_state_view() == old(self).self_state_view(),
            final(self).roster_view() == old(self).roster_view().remove(name@),
    {
        let _ = self.roster.remove(name);
    }

    /// Overwrites the self state and the whole roster: the new roster holds
    /// the given players, a later entry winning over an earlier one of the
    /// same name.
    pub fn bulk_replace(
        &mut self,
        self_state: SelfStateUpdateParameter,
        players: Vec<PlayerStateUpdateParameter>,
    )
        requires
            old(self).wf(),
        ensures
            final(self).wf(),
            final(self).params_view() == old(self).params_view(),
            final(self).self_state_view() == Some(self_state),
            final(self).roster_view() == roster_after(Map::empty(), players@),
    {
        let ghost all = players@;
        let total = players.len();
        let mut rest = players;
        let mut roster: KeyedList<PlayerStateUpdateParameter> = KeyedList::new();
        let mut k: usize = 0;
        while rest.len() > 0
            invariant
                roster.wf(),
                roster_keyed_by_name(roster@),
                k <= all.len(),
                all.len() == total,
                rest@ == all.subrange(k as int, all.len() as int),
                roster@ == roster_after(Map::empty(), all.subrange(0, k as int)),
            decreases rest.len(),
        {
            let p = rest.remove(0);
            assert(p == all[k as int]);
            assert(all.subrange(0, k + 1).drop_last() =~= all.subrange(0, k as int));
            let name = p.name.clone();
            roster.insert(name, p);
            assert(rest@ =~= all.subrange(k + 1, all.len() as int));
            k += 1;
        }
        assert(all.subrange(0, k as int) =~= all);
        self.roster = roster;
        self.self_state = Some(self_state);
    }
}


/// The store `s1` is `s0` with the instance under `key` changed so that
/// `changed(old instance, new instance)` holds; a store without that
/// instance is left as it was.
pub open spec fn changed_at(
    s0: Map<Seq<char>, Instance>,
    s1: Map<Seq<char>, Instance>,
    key: Seq<char>,
    changed: spec_fn(Instance, Instance) -> bool,
) -> bool {
    if s0.contains_key(key) {
        &&& s1 == s0.insert(key, s1[key])
        &&& s1[key].params_view() == s0[key].params_view()
        &&& changed(s0[key], s1[key])
    } else {
        s1 == s0
    }
}

/// `s1` is `s0` with instance `key` created or replaced by a fresh one.
pub open spec fn initiated(
    s0: Map<Seq<char>, Instance>,
    s1: Map<Seq<char>, Instance>,
    key: Seq<char>,
    params: InitiateParameter,
) -> bool {
    &&& s1 == s0.insert(key, s1[key])
    &&& s1[key].params_view() == params
    &&& s1[key].self_state_view() is None
    &&& s1[key].roster_view() == Map::<Seq<char>, PlayerStateUpdateParameter>::empty()
}

/// `s1` is `s0` with the self state of instance `key` replaced by `st`.
pub open spec fn self_updated(
    s0: Map<Seq<char>, Instance>,
    s1: Map<Seq<char>, Instance>,
    key: Seq<char>,
    st: SelfStateUpdateParameter,
) -> bool {
    changed_at(s0, s1, key, |a: Instance, b: Instance|
        b.self_state_view() == Some(st) && b.roster_view() == a.roster_view())
}

/// `s1` is `s0` with player update `p` merged into the roster of instance `key`.
pub open spec fn player_upserted(
    s0: Map<Seq<char>, Instance>,
    s1: Map<Seq<char>, Instance>,
    key: Seq<char>,
    p: PlayerStateUpdateParameter,
) -> bool {
    changed_at(s0, s1, key, |a: Instance, b: Instance|
        b.self_state_view() == a.self_state_view()
        && b.roster_view() == a.roster_view().insert(p.name@, p))
}

/// `s1` is `s0` with the player called `name` dropped from the roster of
/// instance `key`.
pub open spec fn player_removed(
    s0: Map<Seq<char>, Instance>,
    s1: Map<Seq<char>, Instance>,
    key: Seq<char>,
    name: Seq<char>,
) -> bool {
    changed_at(s0, s1, key, |a: Instance, b: Instance|
        b.self_state_view() == a.self_state_view()
        && b.roster_view() == a.roster_view().remove(name))
}

/// `s1` is `s0` with the self state and the whole roster of instance `key`
/// overwritten.
pub open spec fn bulk_replaced(
    s0: Map<Seq<char>, Instance>,
    s1: Map<Seq<char>, Instance>,
    key: Seq<char>,
    st: SelfStateUpdateParameter,
    players: Seq<PlayerStateUpdateParameter>,
) -> bool {
    changed_at(s0, s1, key, |a: Instance, b: Instance|
        b.self_state_view() == Some(st)
        && b.roster_view() == roster_after(Map::empty(), players))
}

/// The state of every instance, by instance key.
pub struct InstanceStore {
    instances: KeyedList<Instance>,
}

impl View for InstanceStore {
    type V = Map<Seq<char>, Instance>;

    closed spec fn view(&self) -> Map<Seq<char>, Instance> {
        self.instances@
    }
}

impl InstanceStore {
    /// The map is well formed and so is every instance in it.
    pub closed spec fn wf(&self) -> bool {
        &&& self.instances.wf()
        &&& forall|k: Seq<char>| #[trigger] self.instances@.contains_key(k) ==> self.instances@[k].wf()
    }

    /// A store without instances.
    pub fn new() -> (r: InstanceStore)
        ensures
            r.wf(),
            r@ == Map::<Seq<char>, Instance>::empty(),
    {
        InstanceStore { instances: KeyedList::new() }
    }

    /// The number of instances.
    pub fn instance_count(&self) -> (r: usize)
        requires
            self.wf(),
        ensures
            r == self@.dom().len(),
    {
        self.instances.len()
    }

    /// The instance under `key`, if it was initiated.
    pub fn get(&self, key: &String) -> (r: Option<&Instance>)
        requires
            self.wf(),
        ensures
            match r {
                Some(i) => self@.contains_key(key@) && *i == self@[key@] && i.wf(),
                None => !self@.contains_key(key@),
            },
    {
        self.instances.get(key)
    }

    fn put(&mut self, key: &String, inst: Instance)
        requires
            old(self).wf(),
            inst.wf(),
        ensures
            final(self).wf(),
            final(self)@ == old(self)@.insert(key@, inst),
    {
        self.instances.insert(key.clone(), inst);
    }

    /// Creates instance `key`, or replaces it wholesale: the new instance has
    /// the given parameters, no self state and an empty roster.
    pub fn initiate(&mut self, key: &String, params: InitiateParameter)
        requires
            old(self).wf(),
        ensures
            final(self).wf(),
            initiated(old(self)@, final(self)@, key@, params),
    {
        let inst = Instance::new(params);
        self.put(key, inst);
    }

    /// Replaces the local player's state of instance `key`.
    /// An instance that was never initiated is left absent: nothing changes.
    pub fn update_self(&mut self, key: &String, s: SelfStateUpdateParameter)
        requires
            old(self).wf(),
        ensures
            final(self).wf(),
            self_updated(old(self)@, final(self)@, key@, s),
    {
        match self.instances.remove(key) {
            Some(mut inst) => {
                inst.update_self(s);
                self.put(key, inst);
                assert(self@ =~= old(self)@.insert(key@, self@[key@]));
            },
            None => {
                assert(self.instances@ =~= old(self).instances@);
            },
        }
    }

    /// Merges a player update into the roster of instance `key`.
    /// An instance that was never initiated is left absent: nothing changes.
    pub fn upsert_player(&mut self, key: &String, p: PlayerStateUpdateParameter)
        requires
            old(self).wf(),
        ensures
            final(self).wf(),
            player_upserted(old(self)@, final(self)@, key@, p),
    {
        match self.instances.remove(key) {
            Some(mut inst) => {
                inst.upsert_player(p);
                self.put(key, inst);
                assert(self@ =~= old(self)@.insert(key@, self@[key@]));
            },
            None => {
                assert(self.instances@ =~= old(self).instances@);
            },
        }
    }

    /// Drops the player called `name` from the roster of instance `key`.
    /// An instance that was never initiated is left absent: nothing changes.
    pub fn remove_player(&mut self, key: &String, name: &String)
        requires
            old(self).wf(),
        ensures
            final(self).wf(),
            player_removed(old(self)@, final(self)@, key@, name@),
    {
        match self.instances.remove(key) {
            Some(mut inst) => {
                inst.remove_player(name);
                self.put(key, inst);
                assert(self@ =~= old(self)@.insert(key@, self@[key@]));
            },
            None => {
                assert(self.instances@ =~= old(self).instances@);
            },
        }
    }

    /// Overwrites the self state and the whole roster of instance `key`.
    /// An instance that was never initiated is left absent: nothing changes.
    pub fn bulk_replace(&mut self, key: &String, self_state: SelfStateUpdateParameter, players: Vec<PlayerStateUpdateParameter>)
        requires
            old(self).wf(),
        ensures
            final(self).wf(),
            bulk_replaced(old(self)@, final(self)@, key@, self_state, players@),
    {
        match self.instances.remove(key) {
            Some(mut inst) => {
                inst.bulk_replace(self_state, players);
                self.put(key, inst);
                assert(self@ =~= old(self)@.insert(key@, self@[key@]));
            },
            None => {
                assert(self.instances@ =~= old(self).instances@);
            },
        }
    }
}


/// Applying one more update after a sequence is inserting it under its name.
pub proof fn lemma_roster_after_push(
    m: Map<Seq<char>, PlayerStateUpdateParameter>,
    ps: Seq<PlayerStateUpdateParameter>,
    p: PlayerStateUpdateParameter,
)
    ensures
        roster_after(m, ps.push(p)) == roster_after(m, ps).insert(p.name@, p),
{
    assert(ps.push(p).drop_last() =~= ps);
}

/// A player update applied through the store extends the sequence of updates
/// that the instance's roster is the result of: after updates `ps` and then
/// `p`, the roster is what `ps` followed by `p` leaves.
pub proof fn lemma_upsert_extends_sequence(
    s0: Map<Seq<char>, Instance>,
    s1: Map<Seq<char>, Instance>,
    key: Seq<char>,
    start: Map<Seq<char>, PlayerStateUpdateParameter>,
    ps: Seq<PlayerStateUpdateParameter>,
    p: PlayerStateUpdateParameter,
)
    requires
        s0.contains_key(key),
        s0[key].roster_view() == roster_after(start, ps),
        player_upserted(s0, s1, key, p),
    ensures
        s1.contains_key(key),
        s1[key].roster_view() == roster_after(start, ps.push(p)),
{
    lemma_roster_after_push(start, ps, p);
}

/// A roster keyed by name stays so under any sequence of updates.
pub proof fn lemma_roster_after_keyed(
    m: Map<Seq<char>, PlayerStateUpdateParameter>,
    ps: Seq<PlayerStateUpdateParameter>,
)
    requires
        roster_keyed_by_name(m),
    ensures
        roster_keyed_by_name(roster_after(m, ps)),
    decreases ps.len(),
{
    if ps.len() > 0 {
        lemma_roster_after_keyed(m, ps.drop_last());
    }
}

/// Every entry left by a sequence of updates applied to an empty roster is
/// one of the updates.
pub proof fn lemma_roster_after_from_updates(ps: Seq<PlayerStateUpdateParameter>, k: Seq<char>)
    requires
        roster_after(Map::empty(), ps).contains_key(k),
    ensures
        exists|i: int| 0 <= i < ps.len() && ps[i] == roster_after(Map::empty(), ps)[k],
    decreases ps.len(),
{
    if ps.len() > 0 {
        let last = ps.last();
        if k == last.name@ {
            assert(ps[ps.len() - 1] == last);
        } else {
            lemma_roster_after_from_updates(ps.drop_last(), k);
            let i = choose|i: int|
                0 <= i < ps.drop_last().len() && ps.drop_last()[i] == roster_after(
                    Map::empty(),
                    ps.drop_last(),
                )[k];
            assert(ps[i] == ps.drop_last()[i]);
        }
    }
}

/// After any non-empty sequence of updates that all name the same player,
/// applied to a roster keyed by name, the roster holds exactly one entry for
/// that player, and it is the last update.
pub proof fn lemma_last_update_wins(
    m: Map<Seq<char>, PlayerStateUpdateParameter>,
    ps: Seq<PlayerStateUpdateParameter>,
    name: Seq<char>,
)
    requires
        roster_keyed_by_name(m),
        ps.len() > 0,
        forall|i: int| 0 <= i < ps.len() ==> #[trigger] ps[i].name@ == name,
    ensures
        roster_after(m, ps).contains_key(name),
        roster_after(m, ps)[name] == ps.last(),
        forall|k: Seq<char>|
            #[trigger] roster_after(m, ps).contains_key(k) && roster_after(m, ps)[k].name@ == name
                ==> k == name,
{
    assert(ps.last().name@ == name);
    lemma_roster_after_keyed(m, ps);
}

/// Removing a player that an instance's roster does not hold leaves every
/// roster as it was.
pub proof fn lemma_remove_absent_player(
    s0: Map<Seq<char>, Instance>,
    s1: Map<Seq<char>, Instance>,
    key: Seq<char>,
    name: Seq<char>,
)
    requires
        player_removed(s0, s1, key, name),
        s0.contains_key(key) ==> !s0[key].roster_view().contains_key(name),
    ensures
        s1.dom() == s0.dom(),
        forall|k: Seq<char>| #[trigger] s1.contains_key(k) ==> s1[k].roster_view() == s0[k].roster_view(),
        forall|k: Seq<char>| #[trigger] s1.contains_key(k) ==> s1[k].self_state_view() == s0[k].self_state_view(),
{
    if s0.contains_key(key) {
        assert(s0[key].roster_view().remove(name) =~= s0[key].roster_view());
        assert(s1.dom() =~= s0.dom());
    }
}

/// After a bulk update to players `a` and `b` followed by an update of
/// player `c`, the roster of the instance holds `a`, `b` and `c` and nothing
/// else: every state held before the bulk update is gone.
pub proof fn lemma_bulk_then_upsert(
    s0: Map<Seq<char>, Instance>,
    s1: Map<Seq<char>, Instance>,
    s2: Map<Seq<char>, Instance>,
    key: Seq<char>,
    st: SelfStateUpdateParameter,
    a: PlayerStateUpdateParameter,
    b: PlayerStateUpdateParameter,
    c: PlayerStateUpdateParameter,
)
    requires
        s0.contains_key(key),
        bulk_replaced(s0, s1, key, st, seq![a, b]),
        player_upserted(s1, s2, key, c),
        a.name@ != b.name@,
        a.name@ != c.name@,
        b.name@ != c.name@,
    ensures
        s2.contains_key(key),
        s2[key].self_state_view() == Some(st),
        s2[key].roster_view() == map![a.name@ => a, b.name@ => b, c.name@ => c],
        s2[key].roster_view().values() == set![a, b, c],
{
    let ab = seq![a, b];
    assert(ab.drop_last() =~= seq![a]);
    assert(seq![a].drop_last() =~= Seq::<PlayerStateUpdateParameter>::empty());
    let e = Map::<Seq<char>, PlayerStateUpdateParameter>::empty();
    assert(roster_after(e, Seq::<PlayerStateUpdateParameter>::empty()) == e);
    assert(roster_after(e, seq![a]) == e.insert(a.name@, a));
    assert(roster_after(e, ab) == e.insert(a.name@, a).insert(b.name@, b));
    assert(s1.contains_key(key));
    assert(s1[key].roster_view() == roster_after(e, ab));
    assert(s2[key].roster_view() == s1[key].roster_view().insert(c.name@, c));
    let r = s2[key].roster_view();
    assert(r =~= map![a.name@ => a, b.name@ => b, c.name@ => c]);
    assert(r.values() =~= set![a, b, c]) by {
        assert(r.contains_key(a.name@) && r[a.name@] == a);
        assert(r.contains_key(b.name@) && r[b.name@] == b);
        assert(r.contains_key(c.name@) && r[c.name@] == c);
    }
}

/// After a bulk update to `players` followed by an update of player `c`,
/// every entry of the instance's roster is `c` or one of `players`.
pub proof fn lemma_bulk_drops_earlier_players(
    s0: Map<Seq<char>, Instance>,
    s1: Map<Seq<char>, Instance>,
    s2: Map<Seq<char>, Instance>,
    key: Seq<char>,
    st: SelfStateUpdateParameter,
    players: Seq<PlayerStateUpdateParameter>,
    c: PlayerStateUpdateParameter,
)
    requires
        s0.contains_key(key),
        bulk_replaced(s0, s1, key, st, players),
        player_upserted(s1, s2, key, c),
    ensures
        forall|k: Seq<char>| #[trigger] s2[key].roster_view().contains_key(k) ==> {
            ||| s2[key].roster_view()[k] == c
            ||| exists|i: int| 0 <= i < players.len() && players[i] == s2[key].roster_view()[k]
        },
{
    assert forall|k: Seq<char>| #[trigger] s2[key].roster_view().contains_key(k) implies {
        ||| s2[key].roster_view()[k] == c
        ||| exists|i: int| 0 <= i < players.len() && players[i] == s2[key].roster_view()[k]
    } by {
        if k != c.name@ {
            lemma_roster_after_from_updates(players, k);
        }
    }
}

} // verus!
