use vstd::prelude::*;

use crate::addr::PeerAddr;

verus! {

/// One live server-side connection: the peer's address and the conn id its
/// tunnel is bound to.
#[derive(Debug, Clone, Copy, PartialEq, Eq, Structural)]
pub struct ConnEntry {
    pub addr: PeerAddr,
    pub conn_id: u32,
}

/// At most one entry per remote address.
pub open spec fn addrs_unique(s: Seq<ConnEntry>) -> bool {
    forall|i: int, j: int|
        0 <= i < s.len() && 0 <= j < s.len() && i != j ==> s[i].addr != s[j].addr
}

/// Some entry maps this address.
pub open spec fn has_addr(s: Seq<ConnEntry>, a: PeerAddr) -> bool {
    exists|i: int| 0 <= i < s.len() && s[i].addr == a
}

/// The index of the entry that maps this address.
pub open spec fn addr_index(s: Seq<ConnEntry>, a: PeerAddr) -> int {
    choose|i: int| 0 <= i < s.len() && s[i].addr == a
}

/// The conn id mapped at this address.
pub open spec fn conn_at(s: Seq<ConnEntry>, a: PeerAddr) -> u32 {
    s[addr_index(s, a)].conn_id
}

/// With unique addresses, an entry's address looks up that entry's conn id.
pub proof fn lemma_conn_at_of_entry(s: Seq<ConnEntry>, i: int)
    requires
        addrs_unique(s),
        0 <= i < s.len(),
    ensures
        has_addr(s, s[i].addr),
        conn_at(s, s[i].addr) == s[i].conn_id,
{
    let a = s[i].addr;
    assert(has_addr(s, a));
    let j = addr_index(s, a);
    assert(0 <= j < s.len() && s[j].addr == a);
    if j != i {
        assert(s[i].addr != s[j].addr);
    }
}

/// The server socket map: the set of live connections, keyed by remote
/// address. Lookup, insertion and removal keep the one-entry-per-address
/// invariant.
#[derive(Debug)]
pub struct SockMap {
    entries: Vec<ConnEntry>,
}

impl View for SockMap {
    type V = Seq<ConnEntry>;

    closed spec fn view(&self) -> Seq<ConnEntry> {
        self.entries@
    }
}

impl SockMap {
    /// Well-formed: no remote address is mapped twice.
    pub open spec fn wf(self) -> bool {
        addrs_unique(self@)
    }

    /// An empty map.
    pub fn new() -> (r: Self)
        ensures
            r.wf(),
            r@ == Seq::<ConnEntry>::empty(),
    {
        let r = SockMap { entries: Vec::new() };
        proof {
            assert(r@ =~= Seq::<ConnEntry>::empty());
        }
        r
    }

    /// How many connections are live.
    pub fn len(&self) -> (r: usize)
        ensures
            r == self@.len(),
    {
        self.entries.len()
    }

    fn position(&self, addr: PeerAddr) -> (r: Option<usize>)
        ensures
            r matches Some(i) ==> i < self@.len() && self@[i as int].addr == addr,
            r is None ==> !has_addr(self@, addr),
    {
        let mut i: usize = 0;
        let n = self.entries.len();
        while i < n
            invariant
                i <= n,
                n == self@.len(),
                forall|j: int| 0 <= j < i ==> self@[j].addr != addr,
            decreases n - i,
        {
            if self.entries[i].addr == addr {
                return Some(i);
            }
            i += 1;
        }
        None
    }

    /// The conn id mapped at `addr`, if the address is live.
    pub fn lookup(&self, addr: PeerAddr) -> (r: Option<u32>)
        requires
            self.wf(),
        ensures
            r is Some <==> has_addr(self@, addr),
            r matches Some(c) ==> c == conn_at(self@, addr),
    {
        match self.position(addr) {
            Some(i) => {
                proof {
                    lemma_conn_at_of_entry(self@, i as int);
                }
                Some(self.entries[i].conn_id)
            },
            None => None,
        }
    }

    /// Map a fresh remote address. Only ever called for an address that is
    /// absent, so the one-entry-per-address invariant is kept.
    pub fn insert_new(&mut self, addr: PeerAddr, conn_id: u32)
        requires
            old(self).wf(),
            !has_addr(old(self)@, addr),
        ensures
            final(self).wf(),
            final(self)@ == old(self)@.push(ConnEntry { addr, conn_id }),
    {
        self.entries.push(ConnEntry { addr, conn_id });
        proof {
            let s = self@;
            let n = s.len() - 1;
            assert forall|i: int, j: int|
                0 <= i < s.len() && 0 <= j < s.len() && i != j implies s[i].addr != s[j].addr by {
                if i < n && j < n {
                    assert(old(self)@[i].addr != old(self)@[j].addr);
                } else if i == n {
                    assert(!(0 <= j < old(self)@.len() && old(self)@[j].addr == addr));
                } else {
                    assert(!(0 <= i < old(self)@.len() && old(self)@[i].addr == addr));
                }
            }
        }
    }

    /// Unmap a remote address: the forwarder's exit step. Afterwards the
    /// address is absent and every other entry is untouched.
    pub fn remove(&mut self, addr: PeerAddr) -> (r: bool)
        requires
            old(self).wf(),
        ensures
            final(self).wf(),
            r <==> has_addr(old(self)@, addr),
            !has_addr(final(self)@, addr),
            forall|a: PeerAddr|
                a != addr ==> (has_addr(final(self)@, a) <==> has_addr(old(self)@, a)),
            forall|a: PeerAddr|
                a != addr && has_addr(old(self)@, a) ==> conn_at(final(self)@, a) == conn_at(
                    old(self)@,
                    a,
                ),
            r ==> final(self)@.len() == old(self)@.len() - 1,
            !r ==> final(self)@ == old(self)@,
    {
        match self.position(addr) {
            Some(i) => {
                self.entries.remove(i);
                proof {
                    let s0 = old(self)@;
                    let s = self@;
                    let k = i as int;
                    s0.remove_ensures(k);
                    assert(has_addr(s0, addr));
                    assert forall|x: int, y: int|
                        0 <= x < s.len() && 0 <= y < s.len() && x != y implies s[x].addr
                        != s[y].addr by {
                        let x0: int = if x < k {
                            x
                        } else {
                            x + 1
                        };
                        let y0: int = if y < k {
                            y
                        } else {
                            y + 1
                        };
                        assert(s[x] == s0[x0] && s[y] == s0[y0]);
                        assert(s0[x0].addr != s0[y0].addr);
                    }
                    assert forall|x: int| 0 <= x < s.len() implies s[x].addr != addr by {
                        let x0: int = if x < k {
                            x
                        } else {
                            x + 1
                        };
                        assert(s[x] == s0[x0]);
                        if s0[x0].addr == addr {
                            assert(s0[x0].addr == s0[k].addr && x0 != k);
                        }
                    }
                    assert(!has_addr(s, addr));
                    assert forall|a: PeerAddr| a != addr && has_addr(s0, a) implies has_addr(s, a)
                        && conn_at(s, a) == conn_at(s0, a) by {
                        let j0 = addr_index(s0, a);
                        assert(0 <= j0 < s0.len() && s0[j0].addr == a);
                        assert(j0 != k);
                        let j: int = if j0 < k {
                            j0
                        } else {
                            j0 - 1
                        };
                        assert(s[j] == s0[j0]);
                        lemma_conn_at_of_entry(s, j);
                        lemma_conn_at_of_entry(s0, j0);
                    }
                    assert forall|a: PeerAddr| a != addr && has_addr(s, a) implies has_addr(
                        s0,
                        a,
                    ) by {
                        let j = addr_index(s, a);
                        assert(0 <= j < s.len() && s[j].addr == a);
                        let j0: int = if j < k {
                            j
                        } else {
                            j + 1
                        };
                        assert(s[j] == s0[j0]);
                    }
                }
                true
            },
            None => false,
        }
    }
}

} // verus!
