//! Per-client request counting for rate limiting.
//!
//! Each client (keyed by its address) has a request count and the moment at
//! which its current counting window ends. Times are nanoseconds of a
//! monotonic clock.

use vstd::prelude::*;

verus! {


/// Entries whose window ended this long ago (nanoseconds) are dropped when
/// the storage is cleaned.
pub const STALE_AFTER_NS: u64 = 1_800_000_000_000;

/// After this many requests the storage schedules a cleaning.
pub const CLEAN_EVERY: usize = 1000;

/// The requests counted for one client.
#[derive(Debug, Clone, PartialEq, Eq)]
pub struct ClientEntry {
    pub ip: String,
    /// Requests counted in the current window.
    pub count: usize,
    /// End of the current window, nanoseconds.
    pub reset_at: u64,
}

/// The answer to one request: how many more requests the client may make
/// in the window (`None` when this request is refused) and the time until
/// the window ends, in nanoseconds.
#[derive(Debug, Clone, Copy, PartialEq, Eq)]
pub struct RateLimitDecision {
    pub remaining: Option<usize>,
    pub reset_ns: u64,
    /// Whether the storage asks to be cleaned now.
    pub clean_scheduled: bool,
}

/// Request counts of all clients seen recently.
pub struct RateLimiterStorage {
    pub clients: Vec<ClientEntry>,
    /// Requests allowed per window.
    pub maxrpm: usize,
    /// Window length, seconds.
    pub reset_interval: usize,
    pub event_count: usize,
}

/// Time from `now` until `deadline`, or zero when it has passed.
pub open spec fn spec_until(deadline: u64, now: u64) -> u64 {
    if deadline > now {
        (deadline - now) as u64
    } else {
        0
    }
}

/// Whether a request of `ip` at `now` opens a new window: the client is
/// unknown or its window has ended.
pub open spec fn spec_fresh(m: Map<Seq<char>, (usize, u64)>, ip: Seq<char>, now: u64) -> bool {
    !m.contains_key(ip) || spec_until(m[ip].1, now) == 0
}

/// Counting a request of `ip` at `now` in the counts `m`, with `maxrpm`
/// requests allowed per window of `interval_ns`: the new counts, the
/// remaining allowance (`None` when refused) and the time until the window
/// ends. A client unknown or whose window has ended starts a new window
/// with a count of zero; a request is then allowed and counted while the
/// count is below `maxrpm`, and refused once it has reached it.
pub open spec fn spec_handle(
    m: Map<Seq<char>, (usize, u64)>,
    ip: Seq<char>,
    now: u64,
    maxrpm: usize,
    interval_ns: u64,
) -> (Map<Seq<char>, (usize, u64)>, Option<usize>, u64) {
    let fresh = spec_fresh(m, ip, now);
    let count: usize = if fresh { 0 } else { m[ip].0 };
    let deadline: u64 = if fresh { (now + interval_ns) as u64 } else { m[ip].1 };
    let wait: u64 = if fresh { interval_ns } else { spec_until(m[ip].1, now) };
    if count >= maxrpm {
        (m.insert(ip, (count, deadline)), None, wait)
    } else {
        (m.insert(ip, ((count + 1) as usize, deadline)), Some((maxrpm - count - 1) as usize), wait)
    }
}

/// A client seen for the first time gets a full window less this request.
pub proof fn lemma_new_client(m: Map<Seq<char>, (usize, u64)>, ip: Seq<char>, now: u64, maxrpm: usize, interval_ns: u64)
    requires
        !m.contains_key(ip),
        maxrpm >= 1,
    ensures
        spec_handle(m, ip, now, maxrpm, interval_ns).1 == Some((maxrpm - 1) as usize),
        spec_handle(m, ip, now, maxrpm, interval_ns).0[ip] == (1usize, (now + interval_ns) as u64),
{
}

/// Within a window each counted request lowers the remaining allowance by one.
pub proof fn lemma_allowance_decreases(m: Map<Seq<char>, (usize, u64)>, ip: Seq<char>, now: u64, maxrpm: usize, interval_ns: u64)
    requires
        m.contains_key(ip),
        m[ip].1 > now,
        m[ip].0 < maxrpm,
    ensures
        spec_handle(m, ip, now, maxrpm, interval_ns).1 == Some((maxrpm - m[ip].0 - 1) as usize),
        spec_handle(m, ip, now, maxrpm, interval_ns).0[ip] == ((m[ip].0 + 1) as usize, m[ip].1),
        spec_handle(m, ip, now, maxrpm, interval_ns).2 == m[ip].1 - now,
{
}

/// A request is refused exactly when the client's window has already
/// counted `maxrpm` requests (or, for a new window, when `maxrpm` is zero);
/// a refused request in a window that has not ended changes no count.
pub proof fn lemma_refusal(m: Map<Seq<char>, (usize, u64)>, ip: Seq<char>, now: u64, maxrpm: usize, interval_ns: u64)
    ensures
        spec_handle(m, ip, now, maxrpm, interval_ns).1 is None <==> (if spec_fresh(m, ip, now) {
            maxrpm == 0
        } else {
            m[ip].0 >= maxrpm
        }),
        spec_handle(m, ip, now, maxrpm, interval_ns).1 is None && !spec_fresh(m, ip, now)
            ==> spec_handle(m, ip, now, maxrpm, interval_ns).0 == m,
{
    if !spec_fresh(m, ip, now) {
        assert(m.insert(ip, m[ip]) =~= m);
    }
}

/// At most `maxrpm` requests pass per window: a count within the limit stays
/// within it, and it grows by one exactly for each allowed request.
pub proof fn lemma_at_most_maxrpm_per_window(
    m: Map<Seq<char>, (usize, u64)>,
    ip: Seq<char>,
    now: u64,
    maxrpm: usize,
    interval_ns: u64,
)
    requires
        m.contains_key(ip) ==> m[ip].0 <= maxrpm,
    ensures
        spec_handle(m, ip, now, maxrpm, interval_ns).0[ip].0 <= maxrpm,
        spec_handle(m, ip, now, maxrpm, interval_ns).0[ip].0 == (if spec_fresh(m, ip, now) {
            0
        } else {
            m[ip].0 as int
        }) + (if spec_handle(m, ip, now, maxrpm, interval_ns).1 is Some {
            1int
        } else {
            0
        }),
{
}

/// Once a client's window has ended, its next request starts a new window.
pub proof fn lemma_window_resets(m: Map<Seq<char>, (usize, u64)>, ip: Seq<char>, now: u64, maxrpm: usize, interval_ns: u64)
    requires
        m.contains_key(ip),
        m[ip].1 <= now,
        maxrpm >= 1,
    ensures
        spec_handle(m, ip, now, maxrpm, interval_ns).0[ip] == (1usize, (now + interval_ns) as u64),
        spec_handle(m, ip, now, maxrpm, interval_ns).1 == Some((maxrpm - 1) as usize),
{
}

/// Counting a request of one client leaves every other client's count alone.
pub proof fn lemma_other_clients_unaffected(
    m: Map<Seq<char>, (usize, u64)>,
    ip: Seq<char>,
    other: Seq<char>,
    now: u64,
    maxrpm: usize,
    interval_ns: u64,
)
    requires
        other != ip,
    ensures
        spec_handle(m, ip, now, maxrpm, interval_ns).0.contains_key(other) == m.contains_key(other),
        m.contains_key(other) ==> spec_handle(m, ip, now, maxrpm, interval_ns).0[other] == m[other],
{
}

/// Selects the key a request is rate limited by: with the right bypass
/// token the `client-ip` header's address (none if absent or unparsable);
/// otherwise the peer address when limiting by peer, else the forwarded
/// address when present and parsable, falling back to the peer address.
pub open spec fn spec_rate_limit_key<A>(
    bypass_header: Option<Seq<char>>,
    bypass_token: Seq<char>,
    use_peer_addr: bool,
    peer: A,
    client_ip: Option<A>,
    forwarded: Option<A>,
) -> Option<A> {
    if bypass_header == Some(bypass_token) {
        client_ip
    } else if use_peer_addr {
        Some(peer)
    } else {
        match forwarded {
            Some(f) => Some(f),
            None => Some(peer),
        }
    }
}

/// See `spec_rate_limit_key`. `bypass_header` is the `bypass-token` header
/// as text, `client_ip` the parsed `client-ip` header and `forwarded` the
/// parsed `x-forwarded-for` (or `forwarded`) header.
pub fn rate_limit_key<A>(
    bypass_header: Option<String>,
    bypass_token: &String,
    use_peer_addr: bool,
    peer: A,
    client_ip: Option<A>,
    forwarded: Option<A>,
) -> (r: Option<A>)
    ensures
        r == spec_rate_limit_key(bypass_header.deep_view(), bypass_token@, use_peer_addr, peer, client_ip, forwarded),
{
    let bypass = match &bypass_header {
        Some(t) => t.eq(bypass_token),
        None => false,
    };
    if bypass {
        client_ip
    } else if use_peer_addr {
        Some(peer)
    } else {
        match forwarded {
            Some(f) => Some(f),
            None => Some(peer),
        }
    }
}

impl RateLimiterStorage {
    /// The counted clients: address to (count, end of window).
    pub open spec fn clients_map(&self) -> Map<Seq<char>, (usize, u64)> {
        Map::new(
            |ip: Seq<char>| exists|i: int| 0 <= i < self.clients@.len() && self.clients@[i].ip@ == ip,
            |ip: Seq<char>| {
                let i = choose|i: int| 0 <= i < self.clients@.len() && self.clients@[i].ip@ == ip;
                (self.clients@[i].count, self.clients@[i].reset_at)
            },
        )
    }

    /// Requests handled since the last scheduled cleaning.
    pub open spec fn events(&self) -> usize {
        self.event_count
    }

    /// Each client appears once.
    pub open spec fn wf(&self) -> bool {
        forall|i: int, j: int|
            0 <= i < j < self.clients@.len() ==> self.clients@[i].ip@ != self.clients@[j].ip@
    }

    proof fn lemma_lookup(&self, i: int)
        requires
            self.wf(),
            0 <= i < self.clients@.len(),
        ensures
            self.clients_map().contains_key(self.clients@[i].ip@),
            self.clients_map()[self.clients@[i].ip@] == (
                self.clients@[i].count,
                self.clients@[i].reset_at,
            ),
    {
        let ip = self.clients@[i].ip@;
        let j = choose|j: int| 0 <= j < self.clients@.len() && self.clients@[j].ip@ == ip;
        if j != i {
            if j < i {
                assert(self.clients@[j].ip@ != self.clients@[i].ip@);
            } else {
                assert(self.clients@[i].ip@ != self.clients@[j].ip@);
            }
        }
    }

    /// An empty storage allowing `maxrpm` requests per window of
    /// `reset_interval` seconds.
    pub fn new(maxrpm: usize, reset_interval: usize) -> (s: Self)
        ensures
            s.wf(),
            s.clients_map() == Map::<Seq<char>, (usize, u64)>::empty(),
            s.maxrpm == maxrpm,
            s.reset_interval == reset_interval,
            s.events() == 0,
    {
        let s = RateLimiterStorage { clients: Vec::new(), maxrpm, reset_interval, event_count: 0 };
        assert(s.clients_map() =~= Map::<Seq<char>, (usize, u64)>::empty());
        s
    }

    fn find(&self, ip: &String) -> (r: Option<usize>)
        requires
            self.wf(),
        ensures
            r is None <==> !self.clients_map().contains_key(ip@),
            r matches Some(i) ==> i < self.clients@.len() && self.clients@[i as int].ip@ == ip@,
    {
        let mut i: usize = 0;
        while i < self.clients.len()
            invariant
                i <= self.clients@.len(),
                forall|k: int| 0 <= k < i ==> self.clients@[k].ip@ != ip@,
            decreases self.clients@.len() - i,
        {
            if self.clients[i].ip.eq(ip) {
                return Some(i);
            }
            i = i + 1;
        }
        None
    }

    /// Counts a request of the client `ip` at `now` and decides on it.
    ///
    /// A client seen for the first time, or whose window has ended, starts a
    /// new window. The request is allowed and counted while the window's
    /// count is below the limit, and refused once the limit is reached.
    pub fn handle(&mut self, ip: String, now: u64) -> (d: RateLimitDecision)
        requires
            old(self).wf(),
            spec_fresh(old(self).clients_map(), ip@, now) ==> now + old(self).reset_interval
                * 1_000_000_000 <= u64::MAX,
        ensures
            final(self).wf(),
            final(self).maxrpm == old(self).maxrpm,
            final(self).reset_interval == old(self).reset_interval,
            d.clean_scheduled == (old(self).events() > CLEAN_EVERY),
            final(self).events() == (if old(self).events() > CLEAN_EVERY {
                0
            } else {
                old(self).events() + 1
            }),
            (final(self).clients_map(), d.remaining, d.reset_ns) == spec_handle(
                old(self).clients_map(),
                ip@,
                now,
                old(self).maxrpm,
                (old(self).reset_interval * 1_000_000_000) as u64,
            ),
    {
        let clean_scheduled = self.event_count > CLEAN_EVERY;
        if clean_scheduled {
            self.event_count = 0;
        } else {
            self.event_count = self.event_count + 1;
        }
        let ghost m = self.clients_map();
        let found = self.find(&ip);
        let mut existing: Option<(usize, usize, u64, u64)> = None;
        if let Some(i) = found {
            proof {
                self.lemma_lookup(i as int);
            }
            let count = self.clients[i].count;
            let reset_at = self.clients[i].reset_at;
            if reset_at > now {
                existing = Some((i, count, reset_at, reset_at - now));
            }
        }
        match existing {
            Some((i, count, reset_at, until)) => {
                if count >= self.maxrpm {
                    proof {
                        assert(m.insert(ip@, m[ip@]) =~= m);
                    }
                    RateLimitDecision { remaining: None, reset_ns: until, clean_scheduled }
                } else {
                    let entry = ClientEntry { ip, count: count + 1, reset_at };
                    self.set_entry(i, entry);
                    RateLimitDecision {
                        remaining: Some(self.maxrpm - (count + 1)),
                        reset_ns: until,
                        clean_scheduled,
                    }
                }
            },
            None => {
                let interval_ns: u64 = (self.reset_interval as u64) * 1_000_000_000;
                let allowed = self.maxrpm > 0;
                let count: usize = if allowed { 1 } else { 0 };
                let entry = ClientEntry { ip, count, reset_at: now + interval_ns };
                match found {
                    Some(i) => self.set_entry(i, entry),
                    None => self.push_entry(entry),
                }
                let remaining = if allowed { Some(self.maxrpm - 1) } else { None };
                RateLimitDecision { remaining, reset_ns: interval_ns, clean_scheduled }
            },
        }
    }

    fn set_entry(&mut self, i: usize, entry: ClientEntry)
        requires
            old(self).wf(),
            i < old(self).clients@.len(),
            old(self).clients@[i as int].ip@ == entry.ip@,
        ensures
            final(self).wf(),
            final(self).clients_map() == old(self).clients_map().insert(
                entry.ip@,
                (entry.count, entry.reset_at),
            ),
            final(self).maxrpm == old(self).maxrpm,
            final(self).reset_interval == old(self).reset_interval,
            final(self).events() == old(self).events(),
    {
        let ghost key = entry.ip@;
        let ghost val = (entry.count, entry.reset_at);
        self.clients.set(i, entry);
        proof {
            let m = self.clients_map();
            let o = old(self).clients_map();
            assert forall|k: Seq<char>| #[trigger] m.contains_key(k) == o.insert(key, val).contains_key(k) by {
                if o.contains_key(k) {
                    let j = choose|j: int| 0 <= j < old(self).clients@.len() && old(self).clients@[j].ip@ == k;
                    assert(self.clients@[j].ip@ == k);
                }
                if m.contains_key(k) {
                    let j = choose|j: int| 0 <= j < self.clients@.len() && self.clients@[j].ip@ == k;
                    assert(old(self).clients@[j].ip@ == k);
                }
            }
            assert forall|k: Seq<char>| #[trigger] m.contains_key(k) implies m[k] == o.insert(key, val)[k] by {
                let j = choose|j: int| 0 <= j < self.clients@.len() && self.clients@[j].ip@ == k;
                self.lemma_lookup(j);
                if k != key {
                    old(self).lemma_lookup(j);
                }
            }
            assert(m =~= o.insert(key, val));
        }
    }

    fn push_entry(&mut self, entry: ClientEntry)
        requires
            old(self).wf(),
            !old(self).clients_map().contains_key(entry.ip@),
        ensures
            final(self).wf(),
            final(self).clients_map() == old(self).clients_map().insert(
                entry.ip@,
                (entry.count, entry.reset_at),
            ),
            final(self).maxrpm == old(self).maxrpm,
            final(self).reset_interval == old(self).reset_interval,
            final(self).events() == old(self).events(),
    {
        let ghost key = entry.ip@;
        let ghost val = (entry.count, entry.reset_at);
        let ghost n = self.clients@.len();
        self.clients.push(entry);
        proof {
            let m = self.clients_map();
            let o = old(self).clients_map();
            assert forall|i: int| 0 <= i < n implies self.clients@[i].ip@ != key by {
                assert(o.contains_key(old(self).clients@[i].ip@));
            }
            assert forall|k: Seq<char>| #[trigger] m.contains_key(k) == o.insert(key, val).contains_key(k) by {
                if o.contains_key(k) {
                    let j = choose|j: int| 0 <= j < old(self).clients@.len() && old(self).clients@[j].ip@ == k;
                    assert(self.clients@[j].ip@ == k);
                }
                if k == key {
                    assert(self.clients@[n as int].ip@ == k);
                }
                if m.contains_key(k) && k != key {
                    let j = choose|j: int| 0 <= j < self.clients@.len() && self.clients@[j].ip@ == k;
                    assert(j < n);
                    assert(old(self).clients@[j].ip@ == k);
                }
            }
            assert forall|k: Seq<char>| #[trigger] m.contains_key(k) implies m[k] == o.insert(key, val)[k] by {
                let j = choose|j: int| 0 <= j < self.clients@.len() && self.clients@[j].ip@ == k;
                self.lemma_lookup(j);
                if k != key {
                    old(self).lemma_lookup(j);
                }
            }
            assert(m =~= o.insert(key, val));
        }
    }

    /// Drops the clients whose window ended `STALE_AFTER_NS` or more before `now`.
    pub fn clean(&mut self, now: u64)
        requires
            old(self).wf(),
        ensures
            final(self).wf(),
            final(self).clients_map() == old(self).clients_map().restrict(
                old(self).clients_map().dom().filter(
                    |ip: Seq<char>| spec_until(now, old(self).clients_map()[ip].1) < STALE_AFTER_NS,
                ),
            ),
            final(self).maxrpm == old(self).maxrpm,
            final(self).reset_interval == old(self).reset_interval,
            final(self).events() == old(self).events(),
    {
        let mut kept: Vec<ClientEntry> = Vec::new();
        let mut rest: Vec<ClientEntry> = Vec::new();
        core::mem::swap(&mut rest, &mut self.clients);
        let ghost orig = rest@;
        let n = rest.len();
        let mut i: usize = 0;
        while i < n
            invariant
                n == orig.len(),
                i <= n,
                rest@ == orig.subrange(i as int, n as int),
                forall|a: int, b: int| 0 <= a < b < orig.len() ==> orig[a].ip@ != orig[b].ip@,
                forall|a: int| 0 <= a < kept@.len() ==> exists|b: int| 0 <= b < i && #[trigger] kept@[a] == orig[b],
                forall|a: int, b: int| 0 <= a < b < kept@.len() ==> kept@[a].ip@ != kept@[b].ip@,
                forall|b: int| 0 <= b < i && spec_until(now, #[trigger] orig[b].reset_at) < STALE_AFTER_NS
                    ==> exists|a: int| 0 <= a < kept@.len() && kept@[a] == orig[b],
                forall|a: int| 0 <= a < kept@.len() ==> spec_until(now, #[trigger] kept@[a].reset_at) < STALE_AFTER_NS,
            decreases n - i,
        {
            let e = rest.remove(0);
            let since = if now > e.reset_at {
                now - e.reset_at
            } else {
                0
            };
            if since < STALE_AFTER_NS {
                proof {
                    assert forall|a: int| 0 <= a < kept@.len() implies kept@[a].ip@ != e.ip@ by {
                        let b = choose|b: int| 0 <= b < i && kept@[a] == orig[b];
                        assert(orig[i as int] == e);
                    }
                }
                let ghost before = kept@;
                kept.push(e);
                proof {
                    assert forall|b: int| 0 <= b < i + 1 && spec_until(now, #[trigger] orig[b].reset_at)
                        < STALE_AFTER_NS implies exists|a: int| 0 <= a < kept@.len() && kept@[a] == orig[b] by {
                        if b < i {
                            let a = choose|a: int| 0 <= a < before.len() && before[a] == orig[b];
                            assert(kept@[a] == orig[b]);
                        } else {
                            assert(kept@[before.len() as int] == orig[b]);
                        }
                    }
                }
            }
            i = i + 1;
        }
        self.clients = kept;
        proof {
            let m = self.clients_map();
            let o = old(self).clients_map();
            assert(old(self).clients@ == orig);
            let keep = o.dom().filter(|ip: Seq<char>| spec_until(now, o[ip].1) < STALE_AFTER_NS);
            assert forall|k: Seq<char>| #[trigger] m.contains_key(k) == o.restrict(keep).contains_key(k) by {
                if m.contains_key(k) {
                    let a = choose|a: int| 0 <= a < self.clients@.len() && self.clients@[a].ip@ == k;
                    let b = choose|b: int| 0 <= b < n && self.clients@[a] == orig[b];
                    old(self).lemma_lookup(b);
                }
                if o.restrict(keep).contains_key(k) {
                    let b = choose|b: int| 0 <= b < orig.len() && orig[b].ip@ == k;
                    old(self).lemma_lookup(b);
                    let a = choose|a: int| 0 <= a < self.clients@.len() && self.clients@[a] == orig[b];
                    assert(self.clients@[a].ip@ == k);
                }
            }
            assert forall|k: Seq<char>| #[trigger] m.contains_key(k) implies m[k] == o.restrict(keep)[k] by {
                let a = choose|a: int| 0 <= a < self.clients@.len() && self.clients@[a].ip@ == k;
                self.lemma_lookup(a);
                let b = choose|b: int| 0 <= b < n && self.clients@[a] == orig[b];
                old(self).lemma_lookup(b);
            }
            assert(m =~= o.restrict(keep));
        }
    }
}

} // verus!
