//! The connection registry: one entry per live bridge session, keyed by the
//! session's dedicated UDP port, plus the monotonically increasing port
//! counter. A port, once handed out, is never handed out again within the
//! life of the process.

use vstd::prelude::*;
use crate::numfmt::be32_of_u16;
use crate::numfmt::push_be32_of_u16;

verus! {

/// One bridge session. The session's UDP socket and its outbound queue live
/// with the I/O layer; the registry tracks the session under its port.
#[derive(Clone, Copy, PartialEq, Eq, Structural, Debug)]
pub struct Connection {
    pub port: u16,
}

/// The mapping a sequence of (port, connection) pairs stands for, later pairs
/// overriding earlier ones.
pub open spec fn map_of(s: Seq<(u16, Connection)>) -> Map<u16, Connection>
    decreases s.len(),
{
    if s.len() == 0 {
        Map::empty()
    } else {
        map_of(s.drop_last()).insert(s.last().0, s.last().1)
    }
}

pub open spec fn keys_distinct(s: Seq<(u16, Connection)>) -> bool {
    forall|i: int, j: int|
        0 <= i < j < s.len() ==> (#[trigger] s[i]).0 != (#[trigger] s[j]).0
}

pub struct Registry {
    next_port: u16,
    conns: Vec<(u16, Connection)>,
    history: Ghost<Seq<u16>>,
}

impl Registry {
    /// The connections currently registered, keyed by port.
    pub closed spec fn contents(self) -> Map<u16, Connection> {
        map_of(self.conns@)
    }

    /// Every port the allocator has handed out, in allocation order.
    pub closed spec fn history(self) -> Seq<u16> {
        self.history@
    }

    pub closed spec fn next(self) -> u16 {
        self.next_port
    }

    pub open spec fn wf(self) -> bool {
        &&& self.keys_ok()
        &&& forall|i: int|
            0 <= i < self.history().len() ==> #[trigger] self.history()[i] < self.next()
        &&& forall|i: int, j: int|
            0 <= i < j < self.history().len()
                ==> #[trigger] self.history()[i] < #[trigger] self.history()[j]
    }

    pub closed spec fn keys_ok(self) -> bool {
        keys_distinct(self.conns@)
    }

    pub fn new(starting_port: u16) -> (r: Registry)
        ensures
            r.wf(),
            r.next() == starting_port,
            r.history() == Seq::<u16>::empty(),
            r.contents() == Map::<u16, Connection>::empty(),
    {
        Registry { next_port: starting_port, conns: Vec::new(), history: Ghost(Seq::empty()) }
    }

    /// Hands out a fresh port and advances the counter. A freed port is never
    /// handed out again.
    pub fn allocate(&mut self) -> (port: u16)
        requires
            old(self).wf(),
            old(self).next() < 0xffff,
        ensures
            final(self).wf(),
            port == old(self).next(),
            final(self).next() == old(self).next() + 1,
            final(self).history() == old(self).history().push(port),
            final(self).contents() == old(self).contents(),
    {
        let port = self.next_port;
        self.next_port = self.next_port + 1;
        proof {
            self.history@ = self.history@.push(port);
            let h0 = old(self).history();
            let h = self.history();
            assert forall|i: int| 0 <= i < h.len() implies #[trigger] h[i] < self.next() by {
                if i < h0.len() {
                    assert(h[i] == h0[i]);
                } else {
                    assert(h[i] == port);
                }
            }
            assert forall|i: int, j: int| 0 <= i < j < h.len() implies #[trigger] h[i]
                < #[trigger] h[j] by {
                if j < h0.len() {
                    assert(h[i] == h0[i] && h[j] == h0[j]);
                } else {
                    assert(h[i] == h0[i] && h[j] == port);
                }
            }
        }
        port
    }

    /// Whether the allocator can still hand out a port.
    pub fn can_allocate(&self) -> (r: bool)
        ensures
            r == (self.next() < 0xffff),
    {
        self.next_port < 0xffff
    }

    /// Registers `conn` under `port`, replacing any entry already there.
    pub fn register(&mut self, port: u16, conn: Connection)
        requires
            old(self).wf(),
        ensures
            final(self).wf(),
            final(self).contents() == old(self).contents().insert(port, conn),
            final(self).next() == old(self).next(),
            final(self).history() == old(self).history(),
    {
        self.unregister(port);
        proof {
            lemma_map_of_dom(self.conns@);
            assert(forall|k: int|
                0 <= k < self.conns@.len() ==> (#[trigger] self.conns@[k]).0 != port);
        }
        let ghost mid = self.conns@;
        self.conns.push((port, conn));
        proof {
            assert(self.conns@.drop_last() =~= mid);
            assert(map_of(self.conns@) == map_of(mid).insert(port, conn));
            assert(old(self).contents().remove(port).insert(port, conn) =~= old(
                self,
            ).contents().insert(port, conn));
        }
    }

    /// Removes the entry under `port`. Removing an absent port is a no-op.
    pub fn unregister(&mut self, port: u16)
        requires
            old(self).wf(),
        ensures
            final(self).wf(),
            final(self).contents() == old(self).contents().remove(port),
            !final(self).contents().dom().contains(port),
            final(self).next() == old(self).next(),
            final(self).history() == old(self).history(),
    {
        let n = self.conns.len();
        let mut i: usize = 0;
        while i < n
            invariant
                old(self).wf(),
                n == self.conns.len(),
                i <= n,
                forall|k: int| 0 <= k < i ==> (#[trigger] self.conns@[k]).0 != port,
                *self == *old(self),
            decreases n - i,
        {
            if self.conns[i].0 == port {
                proof {
                    assert(keys_distinct(self.conns@));
                    lemma_map_of_remove(self.conns@, i as int);
                }
                let ghost pre = self.conns@;
                self.conns.remove(i);
                proof {
                    assert(self.conns@ =~= pre.remove(i as int));
                    assert forall|k: int|
                        0 <= k < self.conns@.len() implies (#[trigger] self.conns@[k]).0
                        != port by {
                        if k < i {
                            assert(self.conns@[k] == pre[k]);
                        } else {
                            assert(self.conns@[k] == pre[k + 1]);
                        }
                    }
                    lemma_map_of_absent(self.conns@, port);
                    assert(self.history() == old(self).history());
                    assert(self.next() == old(self).next());
                    assert(self.wf());
                }
                return ;
            }
            i = i + 1;
        }
        proof {
            lemma_map_of_absent(self.conns@, port);
            assert(old(self).contents().remove(port) =~= old(self).contents());
        }
    }

    /// The number of live sessions.
    pub fn active_count(&self) -> (r: usize)
        requires
            self.wf(),
        ensures
            r == self.contents().dom().len(),
    {
        proof {
            lemma_map_of_card(self.conns@);
        }
        self.conns.len()
    }

    /// Whether a session is registered under `port`.
    pub fn is_registered(&self, port: u16) -> (r: bool)
        requires
            self.wf(),
        ensures
            r == self.contents().dom().contains(port),
    {
        let n = self.conns.len();
        let mut i: usize = 0;
        proof {
            lemma_map_of_dom(self.conns@);
        }
        while i < n
            invariant
                n == self.conns.len(),
                i <= n,
                forall|k: int| 0 <= k < i ==> (#[trigger] self.conns@[k]).0 != port,
                self.contents().dom() =~= Set::new(
                    |p: u16| exists|k: int| 0 <= k < self.conns@.len() && (#[trigger] self.conns@[k]).0 == p,
                ),
            decreases n - i,
        {
            if self.conns[i].0 == port {
                return true;
            }
            i = i + 1;
        }
        false
    }
}

/// Ports are handed out strictly increasing, so no port is ever handed out
/// twice in one process run.
pub proof fn lemma_port_allocation_fresh(r: Registry)
    requires
        r.wf(),
    ensures
        forall|i: int, j: int|
            0 <= i < j < r.history().len() ==> #[trigger] r.history()[i] < #[trigger] r.history()[j],
        forall|i: int, j: int|
            0 <= i < j < r.history().len() ==> #[trigger] r.history()[i] != #[trigger] r.history()[j],
{
}

proof fn lemma_map_of_remove(s: Seq<(u16, Connection)>, i: int)
    requires
        keys_distinct(s),
        0 <= i < s.len(),
    ensures
        map_of(s.remove(i)) == map_of(s).remove(s[i].0),
        keys_distinct(s.remove(i)),
    decreases s.len(),
{
    let t = s.remove(i);
    if i == s.len() - 1 {
        assert(t =~= s.drop_last());
        lemma_map_of_absent(s.drop_last(), s[i].0);
        assert(map_of(s.drop_last()) =~= map_of(s.drop_last()).insert(s[i].0, s[i].1).remove(
            s[i].0,
        ));
    } else {
        lemma_map_of_remove(s.drop_last(), i);
        assert(t.drop_last() =~= s.drop_last().remove(i));
        assert(t.last() == s.last());
        assert(map_of(t) == map_of(t.drop_last()).insert(s.last().0, s.last().1));
        assert(map_of(t) =~= map_of(s).remove(s[i].0));
    }
}

/// A key that appears in no pair is not in the mapping.
proof fn lemma_map_of_absent(s: Seq<(u16, Connection)>, port: u16)
    requires
        forall|k: int| 0 <= k < s.len() ==> (#[trigger] s[k]).0 != port,
    ensures
        !map_of(s).dom().contains(port),
    decreases s.len(),
{
    if s.len() > 0 {
        lemma_map_of_absent(s.drop_last(), port);
    }
}

/// With distinct keys, the mapping holds exactly one entry per pair.
proof fn lemma_map_of_card(s: Seq<(u16, Connection)>)
    requires
        keys_distinct(s),
    ensures
        map_of(s).dom().finite(),
        map_of(s).dom().len() == s.len(),
    decreases s.len(),
{
    if s.len() > 0 {
        lemma_map_of_card(s.drop_last());
        lemma_map_of_absent(s.drop_last(), s.last().0);
    }
}

proof fn lemma_map_of_dom(s: Seq<(u16, Connection)>)
    ensures
        map_of(s).dom() =~= Set::new(
            |p: u16| exists|k: int| 0 <= k < s.len() && (#[trigger] s[k]).0 == p,
        ),
    decreases s.len(),
{
    if s.len() > 0 {
        lemma_map_of_dom(s.drop_last());
        assert forall|p: u16| map_of(s).dom().contains(p) implies exists|k: int|
            0 <= k < s.len() && (#[trigger] s[k]).0 == p by {
            if p == s.last().0 {
                assert(s[s.len() - 1].0 == p);
            } else {
                let k = choose|k: int| 0 <= k < s.drop_last().len() && (#[trigger] s.drop_last()[k]).0 == p;
                assert(s[k].0 == p);
            }
        }
        assert forall|p: u16| (exists|k: int| 0 <= k < s.len() && (#[trigger] s[k]).0 == p)
            implies map_of(s).dom().contains(p) by {
            let k = choose|k: int| 0 <= k < s.len() && (#[trigger] s[k]).0 == p;
            if k < s.len() - 1 {
                assert(s.drop_last()[k].0 == p);
            }
        }
    }
}

} // verus!
