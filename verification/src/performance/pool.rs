//! A bounded pool of connections handed out round-robin.
//!
//! A connection enters the pool with its stable identifier, by which it is removed again.
use vstd::prelude::*;

verus! {

/// A pooled connection and its stable identifier.
pub struct PooledConnection<C> {
    pub stable_id: usize,
    pub connection: C,
}

/// `conns` without the connections whose identifier is `id`, in their order.
pub open spec fn without_id<C>(conns: Seq<PooledConnection<C>>, id: usize) -> Seq<
    PooledConnection<C>,
>
    decreases conns.len(),
{
    if conns.len() == 0 {
        Seq::empty()
    } else if conns[0].stable_id == id {
        without_id(conns.drop_first(), id)
    } else {
        seq![conns[0]] + without_id(conns.drop_first(), id)
    }
}

/// The position that a hand-out with counter `index` takes in a pool of `len` connections.
pub open spec fn round_robin_slot(index: u64, len: nat) -> int {
    (index as usize) as int % (len as int)
}

/// Round robin reaches every connection: starting from counter `start`, the next `len`
/// hand-outs (counters `start`, `start + 1`, ...) take every position of a pool of `len`
/// connections, where the counter neither wraps nor exceeds a `usize`.
pub proof fn law_round_robin_reaches_every_connection(start: u64, len: nat, position: int)
    requires
        len > 0,
        start + len <= usize::MAX,
        0 <= position < len,
    ensures
        exists|k: nat| k < len && #[trigger] round_robin_slot((start + k) as u64, len) == position,
{
    let n = len as int;
    let s = start as int;
    let k = ((position - s % n) + n) % n;
    assert(0 <= k < n) by (nonlinear_arith)
        requires
            n > 0,
            k == ((position - s % n) + n) % n,
    ;
    assert((s + k) % n == position) by (nonlinear_arith)
        requires
            n > 0,
            0 <= position < n,
            s >= 0,
            k == ((position - s % n) + n) % n,
    ;
    let idx = (start + k) as u64;
    assert(idx as int == s + k);
    assert((idx as usize) as int == s + k);
    assert(round_robin_slot(idx, len) == position);
}

/// What a pool holds, as the contracts see it.
pub struct PoolState<C> {
    pub connections: Seq<PooledConnection<C>>,
    /// The round-robin counter: the number of hand-outs so far, modulo `u64::MAX + 1`.
    pub current_index: u64,
    pub max_connections: usize,
}

/// Connection pool for managing multiple connections.
pub struct ConnectionPool<C> {
    connections: Vec<PooledConnection<C>>,
    current_index: u64,
    max_connections: usize,
}

impl<C> View for ConnectionPool<C> {
    type V = PoolState<C>;

    closed spec fn view(&self) -> PoolState<C> {
        PoolState {
            connections: self.connections@,
            current_index: self.current_index,
            max_connections: self.max_connections,
        }
    }
}

proof fn lemma_without_id_len<C>(conns: Seq<PooledConnection<C>>, id: usize)
    ensures
        without_id(conns, id).len() <= conns.len(),
        without_id(conns, id).len() < conns.len() <==> exists|i: int|
            0 <= i < conns.len() && #[trigger] conns[i].stable_id == id,
    decreases conns.len(),
{
    if conns.len() > 0 {
        let rest = conns.drop_first();
        lemma_without_id_len(rest, id);
        if exists|i: int| 0 <= i < conns.len() && #[trigger] conns[i].stable_id == id {
            let i = choose|i: int| 0 <= i < conns.len() && #[trigger] conns[i].stable_id == id;
            if i > 0 {
                assert(rest[i - 1].stable_id == id);
            }
        } else {
            assert(conns[0].stable_id != id);
            assert forall|i: int| 0 <= i < rest.len() implies #[trigger] rest[i].stable_id != id by {
                assert(conns[i + 1].stable_id != id);
            }
        }
    }
}

impl<C> ConnectionPool<C> {
    pub fn new(max_connections: usize) -> (p: Self)
        ensures
            p@.connections.len() == 0,
            p@.current_index == 0,
            p@.max_connections == max_connections,
    {
        ConnectionPool {
            connections: Vec::with_capacity(max_connections),
            current_index: 0,
            max_connections,
        }
    }

    /// Adds `connection`, known by `stable_id`, when the pool has room; says whether it did.
    pub fn add_connection(&mut self, connection: C, stable_id: usize) -> (r: bool)
        ensures
            r == (old(self)@.connections.len() < old(self)@.max_connections),
            r ==> final(self)@.connections == old(self)@.connections.push(
                PooledConnection { stable_id, connection },
            ),
            !r ==> final(self)@.connections == old(self)@.connections,
            final(self)@.current_index == old(self)@.current_index,
            final(self)@.max_connections == old(self)@.max_connections,
    {
        if self.connections.len() < self.max_connections {
            self.connections.push(PooledConnection { stable_id, connection });
            true
        } else {
            false
        }
    }

    /// The next connection in round-robin order: the one at the counter's value modulo the
    /// pool's size; the counter then moves on by one. `None`, counter unmoved, when empty.
    pub fn get_connection(&mut self) -> (r: Option<&C>)
        ensures
            final(self)@.connections == old(self)@.connections,
            final(self)@.max_connections == old(self)@.max_connections,
            old(self)@.connections.len() == 0 ==> r is None && final(self)@.current_index == old(self)@.current_index,
            old(self)@.connections.len() > 0 ==> (r matches Some(c) && *c == old(self)@.connections[round_robin_slot(old(self)@.current_index, old(self)@.connections.len())].connection && final(self)@.current_index
                == vstd::wrapping::u64_specs::wrapping_add(old(self)@.current_index, 1)),
    {
        if self.connections.len() == 0 {
            return None;
        }
        let index = self.current_index as usize;
        self.current_index = self.current_index.wrapping_add(1);
        let n = self.connections.len();
        Some(&self.connections[index % n].connection)
    }

    /// Removes every connection known by `connection_id`; says whether any was removed.
    pub fn remove_connection(&mut self, connection_id: usize) -> (r: bool)
        ensures
            final(self)@.connections == without_id(old(self)@.connections, connection_id),
            r == (final(self)@.connections.len() < old(self)@.connections.len()),
            r <==> exists|i: int|
                0 <= i < old(self)@.connections.len() && #[trigger] old(self)@.connections[i].stable_id == connection_id,
            final(self)@.current_index == old(self)@.current_index,
            final(self)@.max_connections == old(self)@.max_connections,
    {
        let ghost orig = self.connections@;
        let initial_len = self.connections.len();
        let mut rest: Vec<PooledConnection<C>> = Vec::new();
        std::mem::swap(&mut rest, &mut self.connections);
        while rest.len() > 0
            invariant
                self.connections@ + without_id(rest@, connection_id) == without_id(
                    orig,
                    connection_id,
                ),
                self.current_index == old(self).current_index,
                self.max_connections == old(self).max_connections,
            decreases rest.len(),
        {
            let ghost before = rest@;
            let conn = rest.remove(0);
            assert(rest@ == before.drop_first());
            if conn.stable_id != connection_id {
                let ghost kept = self.connections@;
                self.connections.push(conn);
                assert(self.connections@ + without_id(rest@, connection_id) =~= kept + (seq![
                    before[0],
                ] + without_id(rest@, connection_id)));
            }
        }
        assert(self.connections@ =~= without_id(orig, connection_id));
        proof {
            lemma_without_id_len(orig, connection_id);
        }
        self.connections.len() < initial_len
    }

    pub fn len(&self) -> (r: usize)
        ensures
            r == self@.connections.len(),
    {
        self.connections.len()
    }

    pub fn is_empty(&self) -> (r: bool)
        ensures
            r == (self@.connections.len() == 0),
    {
        self.connections.len() == 0
    }
}

} // verus!
