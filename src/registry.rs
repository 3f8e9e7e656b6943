use vstd::prelude::*;

use crate::error::ContractError;

verus! {

/// The context of one registered interchain query.
#[derive(Debug, Clone, PartialEq, Eq)]
pub struct InterchainQuery {
    pub zone_id: String,
    pub query_type: String,
    pub query_data: String,
}

/// Zone, query type and query data, as text.
pub type QueryView = (Seq<char>, Seq<char>, Seq<char>);

impl View for InterchainQuery {
    type V = QueryView;

    open spec fn view(&self) -> QueryView {
        (self.zone_id@, self.query_type@, self.query_data@)
    }
}

/// What resolving `id` against the pending queries `m` yields: the query's
/// context, or nothing where no query with that identifier is pending.
pub open spec fn resolve_spec(m: Map<u64, QueryView>, id: u64) -> Option<QueryView> {
    if m.contains_key(id) {
        Some(m[id])
    } else {
        None
    }
}

/// The pending interchain queries, keyed by identifier. Identifiers are
/// handed out from 1 upwards and never reused.
pub struct QueryRegistry {
    next_id: u64,
    records: Vec<(u64, InterchainQuery)>,
    pending: Ghost<Map<u64, QueryView>>,
}

impl View for QueryRegistry {
    type V = Map<u64, QueryView>;

    closed spec fn view(&self) -> Map<u64, QueryView> {
        self.pending@
    }
}

impl QueryRegistry {
    /// The identifier that the next registration receives.
    pub closed spec fn next_id(&self) -> u64 {
        self.next_id
    }

    pub closed spec fn wf(&self) -> bool {
        &&& self.next_id >= 1
        &&& forall|i: int|
            0 <= i < self.records@.len() ==> 1 <= #[trigger] self.records@[i].0 < self.next_id
        &&& forall|i: int, j: int|
            0 <= i < j < self.records@.len() ==> #[trigger] self.records@[i].0
                < #[trigger] self.records@[j].0
        &&& forall|i: int|
            0 <= i < self.records@.len() ==> self.pending@.contains_key(
                #[trigger] self.records@[i].0,
            ) && self.pending@[self.records@[i].0] == self.records@[i].1@
        &&& forall|id: u64|
            #[trigger] self.pending@.contains_key(id) ==> exists|i: int|
                0 <= i < self.records@.len() && #[trigger] self.records@[i].0 == id
    }

    pub fn new() -> (r: QueryRegistry)
        ensures
            r.wf(),
            r@ == Map::<u64, QueryView>::empty(),
            r.next_id() == 1,
    {
        QueryRegistry { next_id: 1, records: Vec::new(), pending: Ghost(Map::empty()) }
    }

    /// Every pending identifier was handed out by an earlier registration.
    pub proof fn lemma_pending_ids_issued(&self, id: u64)
        requires
            self.wf(),
            self@.contains_key(id),
        ensures
            1 <= id < self.next_id(),
    {
        let i = choose|i: int| 0 <= i < self.records@.len() && #[trigger] self.records@[i].0 == id;
        assert(1 <= self.records@[i].0 < self.next_id);
    }

    /// Registers a query and returns its fresh identifier. Fails, leaving the
    /// registry as it was, once the identifiers are used up.
    pub fn register_query(&mut self, zone_id: String, query_type: String, query_data: String) -> (r:
        Result<u64, ContractError>)
        requires
            old(self).wf(),
        ensures
            final(self).wf(),
            old(self).next_id() < u64::MAX ==> r == Ok::<u64, ContractError>(old(self).next_id()),
            old(self).next_id() == u64::MAX ==> (r matches Err(e) && e is RegisterInterchainQueryFailed),
            r matches Ok(id) ==> !old(self)@.contains_key(id) && final(self)@ == old(self)@.insert(
                id,
                (zone_id@, query_type@, query_data@),
            ) && final(self).next_id() == id + 1,
            r is Err ==> final(self)@ == old(self)@ && final(self).next_id() == old(self).next_id(),
    {
        if self.next_id == u64::MAX {
            return Err(
                ContractError::RegisterInterchainQueryFailed(
                    String::from_str("query identifiers are exhausted"),
                ),
            );
        }
        let id = self.next_id;
        let q = InterchainQuery { zone_id, query_type, query_data };
        proof {
            if self.pending@.contains_key(id) {
                self.lemma_pending_ids_issued(id);
            }
        }
        let ghost old_records = self.records@;
        let ghost qv = q@;
        self.records.push((id, q));
        self.pending = Ghost(self.pending@.insert(id, qv));
        self.next_id = id + 1;
        proof {
            assert(self.records@[old_records.len() as int].0 == id);
            assert forall|k: u64| #[trigger] self.pending@.contains_key(k) implies exists|i: int|
                0 <= i < self.records@.len() && #[trigger] self.records@[i].0 == k by {
                if k != id {
                    let i = choose|i: int|
                        0 <= i < old_records.len() && #[trigger] old_records[i].0 == k;
                    assert(self.records@[i].0 == k);
                }
            }
        }
        Ok(id)
    }

    /// Records a query once the remote chain has answered its registration
    /// request: a rejection is reported with its reason and records nothing.
    pub fn register_after_remote(
        &mut self,
        zone_id: String,
        query_type: String,
        query_data: String,
        remote: Result<(), String>,
    ) -> (r: Result<u64, ContractError>)
        requires
            old(self).wf(),
        ensures
            final(self).wf(),
            remote matches Err(reason) ==> r == Err::<u64, ContractError>(
                ContractError::RegisterInterchainQueryFailed(reason),
            ) && final(self)@ == old(self)@ && final(self).next_id() == old(self).next_id(),
            remote is Ok && old(self).next_id() < u64::MAX ==> r == Ok::<u64, ContractError>(
                old(self).next_id(),
            ) && final(self)@ == old(self)@.insert(
                old(self).next_id(),
                (zone_id@, query_type@, query_data@),
            ) && final(self).next_id() == old(self).next_id() + 1,
            remote is Ok && old(self).next_id() == u64::MAX ==> (r matches Err(e)
                && e is RegisterInterchainQueryFailed && final(self)@ == old(self)@),
    {
        match remote {
            Err(reason) => Err(ContractError::RegisterInterchainQueryFailed(reason)),
            Ok(()) => self.register_query(zone_id, query_type, query_data),
        }
    }

    fn find_index(&self, id: u64) -> (r: Option<usize>)
        requires
            self.wf(),
        ensures
            match r {
                Some(i) => i < self.records@.len() && self.records@[i as int].0 == id,
                None => !self@.contains_key(id),
            },
    {
        let mut i: usize = 0;
        while i < self.records.len()
            invariant
                self.wf(),
                i <= self.records@.len(),
                forall|k: int| 0 <= k < i ==> #[trigger] self.records@[k].0 != id,
            decreases self.records@.len() - i,
        {
            if self.records[i].0 == id {
                return Some(i);
            }
            i = i + 1;
        }
        None
    }

    fn remove_at(&mut self, i: usize) -> (r: InterchainQuery)
        requires
            old(self).wf(),
            i < old(self).records@.len(),
        ensures
            final(self).wf(),
            r@ == old(self)@[old(self).records@[i as int].0],
            final(self)@ == old(self)@.remove(old(self).records@[i as int].0),
            final(self).next_id() == old(self).next_id(),
    {
        let ghost old_records = self.records@;
        let ghost id = old_records[i as int].0;
        let (_, q) = self.records.remove(i);
        self.pending = Ghost(self.pending@.remove(id));
        proof {
            assert forall|k: int| 0 <= k < self.records@.len() implies #[trigger] self.records@[k].0
                != id by {
                if k < i {
                    assert(old_records[k].0 < old_records[i as int].0);
                } else {
                    assert(old_records[i as int].0 < old_records[k + 1].0);
                }
            }
            assert forall|a: int, b: int| 0 <= a < b < self.records@.len() implies #[trigger] self.records@[a].0
                < #[trigger] self.records@[b].0 by {
                let a2 = if a < i { a } else { a + 1 };
                let b2 = if b < i { b } else { b + 1 };
                assert(old_records[a2].0 < old_records[b2].0);
            }
            assert forall|k: u64| #[trigger] self.pending@.contains_key(k) implies exists|j: int|
                0 <= j < self.records@.len() && #[trigger] self.records@[j].0 == k by {
                let j = choose|j: int| 0 <= j < old_records.len() && #[trigger] old_records[j].0 == k;
                if j < i {
                    assert(self.records@[j].0 == k);
                } else {
                    assert(self.records@[j - 1].0 == k);
                }
            }
        }
        q
    }

    /// Correlates a reply with its pending query: removes the query and hands
    /// back its context together with the reply's payload.
    pub fn resolve_reply(&mut self, reply_id: u64, payload: Vec<u8>) -> (r: Result<
        (InterchainQuery, Vec<u8>),
        ContractError,
    >)
        requires
            old(self).wf(),
        ensures
            final(self).wf(),
            final(self).next_id() == old(self).next_id(),
            match resolve_spec(old(self)@, reply_id) {
                Some(q) => r matches Ok((q2, p)) && q2@ == q && p == payload && final(self)@
                    == old(self)@.remove(reply_id),
                None => r == Err::<(InterchainQuery, Vec<u8>), ContractError>(
                    ContractError::InvalidReplyID(reply_id),
                ) && final(self)@ == old(self)@,
            },
    {
        match self.find_index(reply_id) {
            Some(i) => {
                let q = self.remove_at(i);
                Ok((q, payload))
            },
            None => Err(ContractError::InvalidReplyID(reply_id)),
        }
    }

    /// Finds the pending query registered with exactly these zone, type and
    /// data; where several match, the one registered first.
    pub fn lookup_registered_query(&self, zone_id: &str, query_type: &str, query_data: &str) -> (r:
        Result<u64, ContractError>)
        requires
            self.wf(),
        ensures
            match r {
                Ok(id) => self@.contains_key(id) && self@[id] == (zone_id@, query_type@, query_data@)
                    && forall|k: u64|
                    #![trigger self@[k]]
                    k < id && self@.contains_key(k) ==> self@[k] != (
                        zone_id@,
                        query_type@,
                        query_data@,
                    ),
                Err(e) => (forall|k: u64| #[trigger] self@.contains_key(k) ==> self@[k] != (
                    zone_id@,
                    query_type@,
                    query_data@,
                )) && (e matches ContractError::InterchainQueryIsNotRegistered {
                    zone_id: z,
                    query_type: t,
                    query_data_json_encoded: d,
                } && z@ == zone_id@ && t@ == query_type@ && d@ == query_data@),
            },
    {
        let zone = zone_id.to_owned();
        let kind = query_type.to_owned();
        let data = query_data.to_owned();
        let ghost want: QueryView = (zone_id@, query_type@, query_data@);
        let mut i: usize = 0;
        while i < self.records.len()
            invariant
                self.wf(),
                i <= self.records@.len(),
                zone@ == zone_id@,
                kind@ == query_type@,
                data@ == query_data@,
                want == (zone_id@, query_type@, query_data@),
                forall|j: int| 0 <= j < i ==> (#[trigger] self.records@[j]).1@ != want,
            decreases self.records@.len() - i,
        {
            let rec = &self.records[i];
            if rec.1.zone_id == zone && rec.1.query_type == kind && rec.1.query_data == data {
                proof {
                    assert forall|k: u64| #![trigger self@[k]]
                        k < rec.0 && self@.contains_key(k) implies self@[k] != want by {
                        let j = choose|j: int|
                            0 <= j < self.records@.len() && #[trigger] self.records@[j].0 == k;
                        if j > i {
                            assert(self.records@[i as int].0 < self.records@[j].0);
                        }
                    }
                }
                return Ok(rec.0);
            }
            i = i + 1;
        }
        proof {
            assert forall|k: u64| #[trigger] self@.contains_key(k) implies self@[k] != want by {
                let j = choose|j: int| 0 <= j < self.records@.len() && #[trigger] self.records@[j].0 == k;
            }
        }
        Err(ContractError::InterchainQueryIsNotRegistered {
            zone_id: zone,
            query_type: kind,
            query_data_json_encoded: data,
        })
    }

    /// Drops a pending query, so that a late reply to it is refused.
    pub fn deregister_query(&mut self, query_id: u64) -> (r: Option<InterchainQuery>)
        requires
            old(self).wf(),
        ensures
            final(self).wf(),
            final(self).next_id() == old(self).next_id(),
            final(self)@ == old(self)@.remove(query_id),
            match resolve_spec(old(self)@, query_id) {
                Some(q) => r matches Some(q2) && q2@ == q,
                None => r is None,
            },
    {
        match self.find_index(query_id) {
            Some(i) => Some(self.remove_at(i)),
            None => {
                assert(self@ =~= self@.remove(query_id));
                None
            },
        }
    }
}

/// A registration followed by the resolution of the identifier it returned
/// yields the zone, type and data that were registered.
pub proof fn law_resolve_returns_registration(
    reg: QueryRegistry,
    zone_id: Seq<char>,
    query_type: Seq<char>,
    query_data: Seq<char>,
)
    requires
        reg.wf(),
        reg.next_id() < u64::MAX,
    ensures
        resolve_spec(reg@.insert(reg.next_id(), (zone_id, query_type, query_data)), reg.next_id())
            == Some((zone_id, query_type, query_data)),
{
}

/// An identifier that no registration has returned (zero, or one not yet
/// handed out) resolves to nothing.
pub proof fn law_unissued_id_unresolvable(reg: QueryRegistry, id: u64)
    requires
        reg.wf(),
        id == 0 || id >= reg.next_id(),
    ensures
        resolve_spec(reg@, id) is None,
{
    if reg@.contains_key(id) {
        reg.lemma_pending_ids_issued(id);
    }
}

/// Once an identifier has been resolved, resolving it again yields nothing.
pub proof fn law_no_second_resolution(m: Map<u64, QueryView>, id: u64)
    ensures
        resolve_spec(m.remove(id), id) is None,
{
}

} // verus!
