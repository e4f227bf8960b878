//! Registries owned by the process's composition point: the disconnect
//! watcher, which tracks per remote peer the observers to notify when that
//! peer disappears, and the dispatcher registry, which enforces the
//! single-initialization rule for native callback routing.

use vstd::prelude::*;

use crate::marshal::str_eq;

verus! {

/// The observer tokens registered for `peer`, in registration order, as
/// character sequences.
pub open spec fn spec_callbacks_for(s: Seq<(String, String)>, peer: Seq<char>) -> Seq<Seq<char>>
    decreases s.len(),
{
    if s.len() == 0 {
        Seq::empty()
    } else {
        let rest = spec_callbacks_for(s.drop_first(), peer);
        if s[0].0@ == peer {
            seq![s[0].1@] + rest
        } else {
            rest
        }
    }
}

/// True when no peer/observer pair is registered twice.
pub open spec fn watcher_wf(s: Seq<(String, String)>) -> bool {
    forall|i: int, j: int|
        0 <= i < j < s.len() ==> !(s[i].0@ == s[j].0@ && s[i].1@ == s[j].1@)
}

/// True when the observer `token` is registered for `peer`.
pub open spec fn spec_registered(s: Seq<(String, String)>, peer: Seq<char>, token: Seq<char>) -> bool {
    exists|k: int| 0 <= k < s.len() && s[k].0@ == peer && s[k].1@ == token
}

/// True when `after` is `before` with the observer `token` registered for
/// `peer`: a fresh pair joins the end of the peer's list, a pair already
/// present changes nothing, and no other peer's list changes.
pub open spec fn watcher_added(
    before: Seq<(String, String)>,
    after: Seq<(String, String)>,
    peer: Seq<char>,
    token: Seq<char>,
) -> bool {
    &&& spec_registered(after, peer, token)
    &&& (spec_registered(before, peer, token) ==> after == before)
    &&& (!spec_registered(before, peer, token) ==> spec_callbacks_for(after, peer)
        == spec_callbacks_for(before, peer).push(token))
    &&& forall|q: Seq<char>|
        q != peer ==> spec_callbacks_for(after, q) == spec_callbacks_for(before, q)
}

/// Appending one registration extends that peer's observer list by its
/// token and leaves every other peer's list unchanged.
pub proof fn lemma_callbacks_push(s: Seq<(String, String)>, p: (String, String), peer: Seq<char>)
    ensures
        spec_callbacks_for(s.push(p), peer) == spec_callbacks_for(s, peer) + (if p.0@ == peer {
            seq![p.1@]
        } else {
            Seq::<Seq<char>>::empty()
        }),
    decreases s.len(),
{
    if s.len() == 0 {
        assert(s.push(p).len() == 1);
        assert(s.push(p)[0] == p);
        assert(spec_callbacks_for(s, peer) == Seq::<Seq<char>>::empty());
        assert(s.push(p).drop_first() =~= s);
        assert(spec_callbacks_for(s.push(p), peer) == (if p.0@ == peer {
            seq![p.1@] + Seq::<Seq<char>>::empty()
        } else {
            Seq::<Seq<char>>::empty()
        }));
        assert(spec_callbacks_for(s, peer) + (if p.0@ == peer {
            seq![p.1@]
        } else {
            Seq::<Seq<char>>::empty()
        }) =~= spec_callbacks_for(s.push(p), peer));
    } else {
        lemma_callbacks_push(s.drop_first(), p, peer);
        assert(s.push(p).drop_first() =~= s.drop_first().push(p));
        assert(s.push(p)[0] == s[0]);
        if s[0].0@ == peer {
            assert(spec_callbacks_for(s.push(p), peer) == seq![s[0].1@] + spec_callbacks_for(
                s.drop_first().push(p),
                peer,
            ));
            assert(seq![s[0].1@] + (spec_callbacks_for(s.drop_first(), peer) + (if p.0@ == peer {
                seq![p.1@]
            } else {
                Seq::<Seq<char>>::empty()
            })) =~= (seq![s[0].1@] + spec_callbacks_for(s.drop_first(), peer)) + (if p.0@ == peer {
                seq![p.1@]
            } else {
                Seq::<Seq<char>>::empty()
            }));
        } else {
            assert(spec_callbacks_for(s.push(p), peer) == spec_callbacks_for(
                s.drop_first().push(p),
                peer,
            ));
        }
    }
}

/// An observer token is in a peer's list exactly when that peer/token pair
/// is registered.
pub proof fn lemma_callbacks_contains(s: Seq<(String, String)>, peer: Seq<char>, token: Seq<char>)
    ensures
        spec_callbacks_for(s, peer).contains(token) <==> spec_registered(s, peer, token),
    decreases s.len(),
{
    if s.len() == 0 {
    } else {
        lemma_callbacks_contains(s.drop_first(), peer, token);
        let rest = spec_callbacks_for(s.drop_first(), peer);
        if s[0].0@ == peer {
            let whole = seq![s[0].1@] + rest;
            assert(spec_callbacks_for(s, peer) == whole);
            // List membership implies a registration.
            if whole.contains(token) {
                let k = choose|k: int| 0 <= k < whole.len() && whole[k] == token;
                if k == 0 {
                    assert(s[0].0@ == peer && s[0].1@ == token);
                    assert(spec_registered(s, peer, token));
                } else {
                    assert(rest[k - 1] == token);
                    assert(rest.contains(token));
                    let j = choose|j: int|
                        0 <= j < s.drop_first().len() && s.drop_first()[j].0@ == peer
                            && s.drop_first()[j].1@ == token;
                    assert(s[j + 1].0@ == peer && s[j + 1].1@ == token);
                    assert(spec_registered(s, peer, token));
                }
            }
            // A registration implies list membership.
            if spec_registered(s, peer, token) {
                if s[0].1@ == token {
                    assert(whole[0] == token);
                    assert(whole.contains(token));
                } else {
                    let k = choose|k: int|
                        0 <= k < s.len() && s[k].0@ == peer && s[k].1@ == token;
                    assert(s.drop_first()[k - 1].0@ == peer && s.drop_first()[k - 1].1@
                        == token);
                    assert(spec_registered(s.drop_first(), peer, token));
                    let j = choose|j: int| 0 <= j < rest.len() && rest[j] == token;
                    assert(whole[j + 1] == token);
                    assert(whole.contains(token));
                }
            }
        } else {
            if spec_registered(s, peer, token) {
                let k = choose|k: int|
                    0 <= k < s.len() && s[k].0@ == peer && s[k].1@ == token;
                assert(k != 0);
                assert(s.drop_first()[k - 1].0@ == peer && s.drop_first()[k - 1].1@ == token);
                assert(spec_registered(s.drop_first(), peer, token));
            }
            if spec_registered(s.drop_first(), peer, token) {
                let k = choose|k: int|
                    0 <= k < s.drop_first().len() && s.drop_first()[k].0@ == peer
                        && s.drop_first()[k].1@ == token;
                assert(s[k + 1].0@ == peer && s[k + 1].1@ == token);
                assert(spec_registered(s, peer, token));
            }
        }
    }
}

/// In a well-formed registry each observer appears at most once in a
/// peer's list: one disconnect notifies each observer exactly once.
pub proof fn lemma_callbacks_distinct(s: Seq<(String, String)>, peer: Seq<char>)
    requires
        watcher_wf(s),
    ensures
        forall|i: int, j: int|
            0 <= i < j < spec_callbacks_for(s, peer).len() ==> spec_callbacks_for(s, peer)[i]
                != spec_callbacks_for(s, peer)[j],
    decreases s.len(),
{
    if s.len() == 0 {
    } else {
        assert(watcher_wf(s.drop_first())) by {
            assert forall|i: int, j: int| 0 <= i < j < s.drop_first().len() implies !(
            s.drop_first()[i].0@ == s.drop_first()[j].0@ && s.drop_first()[i].1@
                == s.drop_first()[j].1@) by {
                assert(s.drop_first()[i] == s[i + 1]);
                assert(s.drop_first()[j] == s[j + 1]);
            }
        }
        lemma_callbacks_distinct(s.drop_first(), peer);
        let rest = spec_callbacks_for(s.drop_first(), peer);
        if s[0].0@ == peer {
            let whole = seq![s[0].1@] + rest;
            assert(spec_callbacks_for(s, peer) == whole);
            if rest.contains(s[0].1@) {
                lemma_callbacks_contains(s.drop_first(), peer, s[0].1@);
                let k = choose|k: int|
                    0 <= k < s.drop_first().len() && s.drop_first()[k].0@ == peer
                        && s.drop_first()[k].1@ == s[0].1@;
                assert(s[k + 1].0@ == s[0].0@ && s[k + 1].1@ == s[0].1@);
                assert(false);
            }
            assert forall|i: int, j: int| 0 <= i < j < whole.len() implies whole[i] != whole[j] by {
                if i == 0 {
                    assert(whole[j] == rest[j - 1]);
                    if whole[0] == whole[j] {
                        assert(rest.contains(s[0].1@));
                    }
                } else {
                    assert(whole[i] == rest[i - 1] && whole[j] == rest[j - 1]);
                }
            }
        }
    }
}

/// Registering the same peer/observer pair a second time changes nothing
/// at all: decoding the same remote-object reference twice never earns a
/// duplicate notification.
pub proof fn lemma_registration_idempotent(
    w0: Seq<(String, String)>,
    w1: Seq<(String, String)>,
    w2: Seq<(String, String)>,
    peer: Seq<char>,
    token: Seq<char>,
)
    requires
        watcher_added(w0, w1, peer, token),
        watcher_added(w1, w2, peer, token),
    ensures
        w2 == w1,
{
}

/// Tracks, per remote peer identity, the ordered set of observers to
/// notify when that peer disconnects. Observers are registered by proxy
/// decoding (under the proxy's object identity) and by explicit disconnect
/// registration; registering the same peer/observer pair twice is a no-op,
/// never a fault.
pub struct DisconnectWatcher {
    entries: Vec<(String, String)>,
}

impl View for DisconnectWatcher {
    type V = Seq<(String, String)>;

    closed spec fn view(&self) -> Seq<(String, String)> {
        self.entries@
    }
}

impl DisconnectWatcher {
    /// A registry with no registrations.
    pub fn new() -> (w: DisconnectWatcher)
        ensures
            w@ =~= Seq::<(String, String)>::empty(),
            watcher_wf(w@),
    {
        DisconnectWatcher { entries: Vec::new() }
    }

    /// Registers the observer `token` for the peer `remote`. Registering a
    /// pair already present changes nothing; otherwise the token joins the
    /// end of the peer's list and no other peer's list changes.
    pub fn add(&mut self, remote: &str, token: &str)
        requires
            watcher_wf(old(self)@),
        ensures
            watcher_wf(final(self)@),
            watcher_added(old(self)@, final(self)@, remote@, token@),
    {
        let n = self.entries.len();
        let mut i: usize = 0;
        while i < n
            invariant
                watcher_wf(old(self)@),
                n == self.entries@.len(),
                0 <= i <= n,
                forall|k: int|
                    0 <= k < i ==> !(self.entries@[k].0@ == remote@ && self.entries@[k].1@
                        == token@),
                *self == *old(self),
            decreases n - i,
        {
            if str_eq(self.entries[i].0.as_str(), remote) && str_eq(
                self.entries[i].1.as_str(),
                token,
            ) {
                proof {
                    assert(self.entries@[i as int].0@ == remote@ && self.entries@[i as int].1@
                        == token@);
                    assert(*self == *old(self));
                    assert(self@ == old(self)@);
                    assert(watcher_wf(self@));
                }
                return ;
            }
            i = i + 1;
        }
        let ghost before = self.entries@;
        let pair = (remote.to_owned(), token.to_owned());
        proof {
            lemma_callbacks_push(before, pair, remote@);
            assert forall|q: Seq<char>| q != remote@ implies spec_callbacks_for(
                before.push(pair),
                q,
            ) == spec_callbacks_for(before, q) by {
                lemma_callbacks_push(before, pair, q);
                assert(spec_callbacks_for(before, q) + Seq::<Seq<char>>::empty()
                    =~= spec_callbacks_for(before, q));
            }
            assert(spec_callbacks_for(before, remote@) + seq![pair.1@] =~= spec_callbacks_for(
                before,
                remote@,
            ).push(token@));
        }
        self.entries.push(pair);
        proof {
            assert(self.entries@ == before.push(pair));
            assert(self.entries@[before.len() as int].0@ == remote@ && self.entries@[before.len() as int].1@ == token@);
        }
    }

    /// Delivers a disconnect of the peer `remote`: hands back that peer's
    /// observers, each exactly once, in registration order, and clears the
    /// peer's registrations; every other peer's list is untouched.
    pub fn on_disconnect(&mut self, remote: &str) -> (fired: Vec<String>)
        requires
            watcher_wf(old(self)@),
        ensures
            watcher_wf(final(self)@),
            fired@.map_values(|t: String| t@) == spec_callbacks_for(old(self)@, remote@),
            forall|i: int, j: int| 0 <= i < j < fired@.len() ==> fired@[i]@ != fired@[j]@,
            spec_callbacks_for(final(self)@, remote@) == Seq::<Seq<char>>::empty(),
            forall|q: Seq<char>|
                q != remote@ ==> spec_callbacks_for(final(self)@, q) == spec_callbacks_for(
                    old(self)@,
                    q,
                ),
    {
        let ghost before = self.entries@;
        let mut kept: Vec<(String, String)> = Vec::new();
        let mut fired: Vec<String> = Vec::new();
        let n = self.entries.len();
        let mut i: usize = 0;
        proof {
            assert(before.take(0) =~= Seq::<(String, String)>::empty());
        }
        while i < n
            invariant
                watcher_wf(before),
                n == before.len(),
                *self == *old(self),
                self@ == before,
                0 <= i <= n,
                fired@.map_values(|t: String| t@) == spec_callbacks_for(
                    before.take(i as int),
                    remote@,
                ),
                spec_callbacks_for(kept@, remote@) == Seq::<Seq<char>>::empty(),
                forall|q: Seq<char>|
                    q != remote@ ==> spec_callbacks_for(kept@, q) == spec_callbacks_for(
                        before.take(i as int),
                        q,
                    ),
                watcher_wf(kept@),
                forall|k: int|
                    0 <= k < kept@.len() ==> exists|j: int|
                        0 <= j < i && (#[trigger] kept@[k]).0@ == (#[trigger] before[j]).0@
                            && kept@[k].1@ == before[j].1@,
            decreases n - i,
        {
            let ghost prefix = before.take(i as int);
            let ghost cur = before[i as int];
            proof {
                assert(before.take(i as int + 1) =~= prefix.push(cur));
            }
            let matches_peer = str_eq(self.entries[i].0.as_str(), remote);
            if matches_peer {
                let ghost fired0 = fired@;
                fired.push(self.entries[i].1.clone());
                proof {
                    lemma_callbacks_push(prefix, cur, remote@);
                    assert(fired@.map_values(|t: String| t@) =~= fired0.map_values(
                        |t: String| t@,
                    ).push(cur.1@));
                    assert(spec_callbacks_for(prefix, remote@) + seq![cur.1@]
                        =~= spec_callbacks_for(prefix, remote@).push(cur.1@));
                    assert forall|q: Seq<char>| q != remote@ implies spec_callbacks_for(
                        before.take(i as int + 1),
                        q,
                    ) == spec_callbacks_for(prefix, q) by {
                        lemma_callbacks_push(prefix, cur, q);
                        assert(spec_callbacks_for(prefix, q) + Seq::<Seq<char>>::empty()
                            =~= spec_callbacks_for(prefix, q));
                    }
                }
            } else {
                let p0 = self.entries[i].0.clone();
                let p1 = self.entries[i].1.clone();
                let ghost kept0 = kept@;
                let ghost gpair = (p0, p1);
                kept.push((p0, p1));
                proof {
                    assert(kept@ == kept0.push(gpair));
                    assert(gpair.0@ == cur.0@ && gpair.1@ == cur.1@);
                    lemma_callbacks_push(prefix, cur, remote@);
                    lemma_callbacks_push(kept0, gpair, remote@);
                    assert(spec_callbacks_for(prefix, remote@) + Seq::<Seq<char>>::empty()
                        =~= spec_callbacks_for(prefix, remote@));
                    assert(spec_callbacks_for(kept0, remote@) + Seq::<Seq<char>>::empty()
                        =~= spec_callbacks_for(kept0, remote@));
                    assert forall|q: Seq<char>| q != remote@ implies spec_callbacks_for(
                        kept@,
                        q,
                    ) == spec_callbacks_for(before.take(i as int + 1), q) by {
                        lemma_callbacks_push(prefix, cur, q);
                        lemma_callbacks_push(kept0, gpair, q);
                    }
                    assert forall|k1: int, k2: int|
                        0 <= k1 < k2 < kept@.len() implies !((#[trigger] kept@[k1]).0@
                        == (#[trigger] kept@[k2]).0@ && kept@[k1].1@ == kept@[k2].1@) by {
                        if k2 == kept@.len() - 1 {
                            let j = choose|j: int|
                                0 <= j < i && kept0[k1].0@ == before[j].0@ && kept0[k1].1@
                                    == before[j].1@;
                            assert(!(before[j].0@ == before[i as int].0@ && before[j].1@
                                == before[i as int].1@));
                        }
                    }
                    assert forall|k: int| 0 <= k < kept@.len() implies exists|j: int|
                        0 <= j < i + 1 && (#[trigger] kept@[k]).0@ == (#[trigger] before[j]).0@
                            && kept@[k].1@ == before[j].1@ by {
                        if k == kept@.len() - 1 {
                            assert(kept@[k].0@ == before[i as int].0@ && kept@[k].1@
                                == before[i as int].1@);
                        } else {
                            let j = choose|j: int|
                                0 <= j < i && (#[trigger] kept0[k]).0@ == (#[trigger] before[j]).0@
                                    && kept0[k].1@ == before[j].1@;
                            assert(kept@[k].0@ == before[j].0@ && kept@[k].1@ == before[j].1@);
                        }
                    }
                }
            }
            i = i + 1;
        }
        proof {
            assert(before.take(n as int) =~= before);
            lemma_callbacks_distinct(before, remote@);
            let cb = spec_callbacks_for(before, remote@);
            assert forall|a: int, b: int| 0 <= a < b < fired@.len() implies fired@[a]@
                != fired@[b]@ by {
                assert(fired@.map_values(|t: String| t@)[a] == fired@[a]@);
                assert(fired@.map_values(|t: String| t@)[b] == fired@[b]@);
            }
        }
        self.entries = kept;
        fired
    }
}

/// Routes raw native-stack callbacks to the in-process handler for their
/// kind. One registration per callback kind is allowed for the lifetime of
/// the process; re-registering a kind is a contract violation, not a
/// silent overwrite.
pub struct DispatcherRegistry {
    pub a2dp_set: bool,
    pub gatt_client_set: bool,
    pub gatt_server_set: bool,
}

impl DispatcherRegistry {
    /// A registry with no dispatcher of any kind installed.
    pub fn new() -> (r: DispatcherRegistry)
        ensures
            !r.a2dp_set,
            !r.gatt_client_set,
            !r.gatt_server_set,
    {
        DispatcherRegistry { a2dp_set: false, gatt_client_set: false, gatt_server_set: false }
    }

    /// Installs the A2DP dispatcher kind.
    pub fn set_a2dp(&mut self)
        requires
            !old(self).a2dp_set,
        ensures
            *final(self) == (DispatcherRegistry {
                a2dp_set: true,
                ..*old(self)
            }),
    {
        self.a2dp_set = true;
    }

    /// Installs the GATT client dispatcher kind.
    pub fn set_gatt_client(&mut self)
        requires
            !old(self).gatt_client_set,
        ensures
            *final(self) == (DispatcherRegistry {
                gatt_client_set: true,
                ..*old(self)
            }),
    {
        self.gatt_client_set = true;
    }

    /// Installs the GATT server dispatcher kind.
    pub fn set_gatt_server(&mut self)
        requires
            !old(self).gatt_server_set,
        ensures
            *final(self) == (DispatcherRegistry {
                gatt_server_set: true,
                ..*old(self)
            }),
    {
        self.gatt_server_set = true;
    }
}

} // verus!
