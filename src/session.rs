use vstd::prelude::*;
use vstd::hash_map::StringHashMap;
use crate::hex_id::hex_lower;
use crate::token::{PingToken, PingTokenView, PongToken, PongTokenView};

verus! {

/// A verified ping waiting, on the receiving side, for its pong to be made.
#[derive(Clone, Debug)]
pub struct PingSession {
    pub ping_token: PingToken,
    pub stored_at: u64,
}

/// A verified pong waiting, on the initiating side, to be collected.
#[derive(Clone, Debug)]
pub struct PongSession {
    pub pong_token: PongToken,
    pub stored_at: u64,
}

pub struct PingSessionView {
    pub ping_token: PingTokenView,
    pub stored_at: u64,
}

pub struct PongSessionView {
    pub pong_token: PongTokenView,
    pub stored_at: u64,
}

impl View for PingSession {
    type V = PingSessionView;

    open spec fn view(&self) -> PingSessionView {
        PingSessionView { ping_token: self.ping_token@, stored_at: self.stored_at }
    }
}

impl View for PongSession {
    type V = PongSessionView;

    open spec fn view(&self) -> PongSessionView {
        PongSessionView { pong_token: self.pong_token@, stored_at: self.stored_at }
    }
}

/// The correlation table: pending pings (receiving side), pending pongs
/// (initiating side) and the pings this side has sent and still awaits an
/// answer to. Every namespace is keyed by `ping_id`, the lowercase hex of
/// the token nonce.
///
/// Shared use needs one lock around the store: every operation is a single
/// `&mut self` call, so `take_ping` finds and consumes in one step.
pub struct SessionStore {
    pings: StringHashMap<PingSession>,
    pongs: StringHashMap<PongSession>,
    awaiting: StringHashMap<u64>,
}

impl SessionStore {
    /// Pending ping sessions by ping_id.
    pub closed spec fn pings(&self) -> Map<Seq<char>, PingSession> {
        self.pings@
    }

    /// Pending pong sessions by ping_id.
    pub closed spec fn pongs(&self) -> Map<Seq<char>, PongSession> {
        self.pongs@
    }

    /// Pings sent from this side, by ping_id, with the time they were made.
    pub closed spec fn awaiting(&self) -> Map<Seq<char>, u64> {
        self.awaiting@
    }

    /// Each session sits under the hex of its own nonce; only well-formed
    /// tokens are held, and a ping only once its signature has verified.
    pub open spec fn wf(&self) -> bool {
        &&& forall|k: Seq<char>| #[trigger]
            self.pings().contains_key(k) ==> {
                let t = self.pings()[k].ping_token@;
                &&& t.wf()
                &&& t.self_consistent()
                &&& k == hex_lower(t.nonce)
            }
        &&& forall|k: Seq<char>| #[trigger]
            self.pongs().contains_key(k) ==> {
                let t = self.pongs()[k].pong_token@;
                &&& t.wf()
                &&& k == hex_lower(t.ping_nonce)
            }
    }

    /// An empty store.
    pub fn new() -> (r: SessionStore)
        ensures
            r.wf(),
            r.pings() == Map::<Seq<char>, PingSession>::empty(),
            r.pongs() == Map::<Seq<char>, PongSession>::empty(),
            r.awaiting() == Map::<Seq<char>, u64>::empty(),
    {
        SessionStore {
            pings: StringHashMap::new(),
            pongs: StringHashMap::new(),
            awaiting: StringHashMap::new(),
        }
    }

    /// Admits a verified ping under its own ping_id, replacing any session
    /// already there.
    pub fn store_ping(&mut self, ping_token: PingToken, stored_at: u64)
        requires
            old(self).wf(),
            ping_token@.wf(),
            ping_token@.self_consistent(),
        ensures
            final(self).wf(),
            final(self).pings() == old(self).pings().insert(
                hex_lower(ping_token.nonce@),
                PingSession { ping_token, stored_at },
            ),
            final(self).pongs() == old(self).pongs(),
            final(self).awaiting() == old(self).awaiting(),
    {
        let id = ping_token.ping_id();
        self.pings.insert(id, PingSession { ping_token, stored_at });
        assert(self.pongs() == old(self).pongs());
        assert(forall|k: Seq<char>| #[trigger]
            self.pings().contains_key(k) ==> k == id@ || old(self).pings().contains_key(k));
    }

    /// The pending ping session under `ping_id`, if any, left in place.
    pub fn get_ping(&self, ping_id: &str) -> (r: Option<PingSession>)
        ensures
            match r {
                Some(s) => self.pings().contains_key(ping_id@) && s@ == self.pings()[ping_id@]@,
                None => !self.pings().contains_key(ping_id@),
            },
    {
        match self.pings.get(ping_id) {
            Some(s) => Some(
                PingSession { ping_token: s.ping_token.duplicate(), stored_at: s.stored_at },
            ),
            None => None,
        }
    }

    /// Whether a pending ping session sits under `ping_id`.
    pub fn has_ping(&self, ping_id: &str) -> (r: bool)
        ensures
            r == self.pings().contains_key(ping_id@),
    {
        self.pings.contains_key(ping_id)
    }

    /// Finds and removes the pending ping session under `ping_id` in one step:
    /// of two calls for the same ping_id at most one gets the session.
    pub fn take_ping(&mut self, ping_id: &str) -> (r: Option<PingSession>)
        requires
            old(self).wf(),
        ensures
            final(self).wf(),
            final(self).pings() == old(self).pings().remove(ping_id@),
            final(self).pongs() == old(self).pongs(),
            final(self).awaiting() == old(self).awaiting(),
            match r {
                Some(s) => old(self).pings().contains_key(ping_id@) && s@ == old(
                    self,
                ).pings()[ping_id@]@,
                None => !old(self).pings().contains_key(ping_id@),
            },
    {
        let r = self.get_ping(ping_id);
        self.pings.remove(ping_id);
        assert(self.pongs() == old(self).pongs());
        assert(forall|k: Seq<char>| #[trigger]
            self.pings().contains_key(k) ==> old(self).pings().contains_key(k));
        r
    }

    /// Drops the pending ping session under `ping_id`, if any.
    pub fn remove_ping(&mut self, ping_id: &str)
        requires
            old(self).wf(),
        ensures
            final(self).wf(),
            final(self).pings() == old(self).pings().remove(ping_id@),
            final(self).pongs() == old(self).pongs(),
            final(self).awaiting() == old(self).awaiting(),
    {
        self.pings.remove(ping_id);
        assert(self.pongs() == old(self).pongs());
        assert(forall|k: Seq<char>| #[trigger]
            self.pings().contains_key(k) ==> old(self).pings().contains_key(k));
    }

    /// Admits a verified pong under the ping_id of the ping it answers,
    /// replacing any session already there.
    pub fn store_pong(&mut self, pong_token: PongToken, stored_at: u64)
        requires
            old(self).wf(),
            pong_token@.wf(),
        ensures
            final(self).wf(),
            final(self).pongs() == old(self).pongs().insert(
                hex_lower(pong_token.ping_nonce@),
                PongSession { pong_token, stored_at },
            ),
            final(self).pings() == old(self).pings(),
            final(self).awaiting() == old(self).awaiting(),
    {
        let id = pong_token.ping_id();
        self.pongs.insert(id, PongSession { pong_token, stored_at });
        assert(self.pings() == old(self).pings());
        assert(forall|k: Seq<char>| #[trigger]
            self.pongs().contains_key(k) ==> k == id@ || old(self).pongs().contains_key(k));
    }

    /// The pending pong session under `ping_id`, if any, left in place.
    pub fn get_pong(&self, ping_id: &str) -> (r: Option<PongSession>)
        ensures
            match r {
                Some(s) => self.pongs().contains_key(ping_id@) && s@ == self.pongs()[ping_id@]@,
                None => !self.pongs().contains_key(ping_id@),
            },
    {
        match self.pongs.get(ping_id) {
            Some(s) => Some(
                PongSession { pong_token: s.pong_token.duplicate(), stored_at: s.stored_at },
            ),
            None => None,
        }
    }

    /// Finds and removes the pending pong session under `ping_id` in one step.
    pub fn take_pong(&mut self, ping_id: &str) -> (r: Option<PongSession>)
        requires
            old(self).wf(),
        ensures
            final(self).wf(),
            final(self).pongs() == old(self).pongs().remove(ping_id@),
            final(self).pings() == old(self).pings(),
            final(self).awaiting() == old(self).awaiting(),
            match r {
                Some(s) => old(self).pongs().contains_key(ping_id@) && s@ == old(
                    self,
                ).pongs()[ping_id@]@,
                None => !old(self).pongs().contains_key(ping_id@),
            },
    {
        let r = self.get_pong(ping_id);
        self.pongs.remove(ping_id);
        assert(self.pings() == old(self).pings());
        assert(forall|k: Seq<char>| #[trigger]
            self.pongs().contains_key(k) ==> old(self).pongs().contains_key(k));
        r
    }

    /// Drops the pending pong session under `ping_id`, if any.
    pub fn remove_pong(&mut self, ping_id: &str)
        requires
            old(self).wf(),
        ensures
            final(self).wf(),
            final(self).pongs() == old(self).pongs().remove(ping_id@),
            final(self).pings() == old(self).pings(),
            final(self).awaiting() == old(self).awaiting(),
    {
        self.pongs.remove(ping_id);
        assert(self.pings() == old(self).pings());
        assert(forall|k: Seq<char>| #[trigger]
            self.pongs().contains_key(k) ==> old(self).pongs().contains_key(k));
    }

    /// Records that this side sent the ping `ping_id` at `created_at`.
    pub(crate) fn mark_awaiting(&mut self, ping_id: String, created_at: u64)
        requires
            old(self).wf(),
        ensures
            final(self).wf(),
            final(self).awaiting() == old(self).awaiting().insert(ping_id@, created_at),
            final(self).pings() == old(self).pings(),
            final(self).pongs() == old(self).pongs(),
    {
        self.awaiting.insert(ping_id, created_at);
        assert(self.pings() == old(self).pings());
        assert(self.pongs() == old(self).pongs());
    }

    /// Whether this side sent the ping `ping_id` and has had no answer yet.
    pub fn is_awaiting(&self, ping_id: &str) -> (r: bool)
        ensures
            r == self.awaiting().contains_key(ping_id@),
    {
        self.awaiting.contains_key(ping_id)
    }

    /// Records the answer to a ping this side sent: the ping is no longer
    /// awaited and its pong waits to be collected.
    pub(crate) fn settle(&mut self, pong_token: PongToken, stored_at: u64)
        requires
            old(self).wf(),
            pong_token@.wf(),
        ensures
            final(self).wf(),
            final(self).awaiting() == old(self).awaiting().remove(hex_lower(pong_token.ping_nonce@)),
            final(self).pongs() == old(self).pongs().insert(
                hex_lower(pong_token.ping_nonce@),
                PongSession { pong_token, stored_at },
            ),
            final(self).pings() == old(self).pings(),
    {
        let id = pong_token.ping_id();
        self.awaiting.remove(id.as_str());
        let ghost key = id@;
        self.pongs.insert(id, PongSession { pong_token, stored_at });
        assert(self.pings() == old(self).pings());
        assert(forall|k: Seq<char>| #[trigger]
            self.pongs().contains_key(k) ==> k == key || old(self).pongs().contains_key(k));
    }
}

} // verus!
