//! The resolution orchestrator, and a plain collector of apex records.
//!
//! For each domain the orchestrator runs a fixed plan: `A` at the apex and at
//! `www.`, then `AAAA` at both, then `NS` at the apex; then, for the host named
//! by each `NS` answer, an `A` and an `AAAA` query whose records point at the
//! first stored record of the `NS` response (the anchor).
//!
//! The orchestrator does no I/O itself. Each step hands the caller an
//! [`Action`]: a query to send, a record to store, or the end of the run. The
//! caller performs it and reports the outcome through
//! [`DnsQuery::on_response`] or [`DnsQuery::on_stored`], one step at a time,
//! so that every record is stored before the next one is built.

use crate::dns::message::{ns_hosts, rdata_address, Answer, QueryType, RData, Response};
use crate::dns::record::{address_of, build_records, is_record_of};
use crate::dns::opt_string_view;
use crate::model::domain::Domain;
use crate::model::record::NewRecord;
use vstd::prelude::*;

verus! {

broadcast use vstd::string::group_string_axioms;

/// The number of queries at a domain's apex and `www.` name.
pub const BASE_QUERIES: usize = 5;

/// What the caller is asked to do next.
pub enum Action {
    /// Ask the resolver for `query_type` records at `name`, then call
    /// [`DnsQuery::on_response`] with the response and the time at which the
    /// query was sent.
    Query { name: String, query_type: QueryType },
    /// Append `record` to the store, then call [`DnsQuery::on_stored`]. When
    /// `want_id` holds, the id of the row must be read back right after the
    /// insert, before anything else is written.
    Insert { record: NewRecord, want_id: bool },
    /// Every domain has been processed.
    Done,
}

/// The outcome of an insert.
pub enum Stored {
    /// The row could not be written.
    Failed,
    /// The row was written; its id was not read back.
    Written,
    /// The row was written under this id.
    WrittenAs(i64),
}

#[derive(Clone, Copy, PartialEq, Eq, Structural)]
enum Waiting {
    Start,
    Response,
    Stored,
    Finished,
}

/// The domains that still need resolving: those whose id is not among the
/// `populated` ones, in their order.
pub open spec fn unresolved(domains: Seq<Domain>, populated: Seq<i64>) -> Seq<Domain>
    decreases domains.len(),
{
    if domains.len() == 0 {
        Seq::empty()
    } else {
        let rest = unresolved(domains.drop_first(), populated);
        if populated.contains(domains[0].rowid) {
            rest
        } else {
            seq![domains[0]] + rest
        }
    }
}

/// The name asked at step `stage` of a domain's plan.
pub open spec fn base_name(fqdn: Seq<char>, stage: int) -> Seq<char> {
    if base_is_www(stage) {
        "www."@ + fqdn
    } else {
        fqdn
    }
}

/// Whether step `stage` of a domain's plan asks at the `www.` name.
pub open spec fn base_is_www(stage: int) -> bool {
    stage == 1 || stage == 3
}

/// The record type asked at step `stage` of a domain's plan.
pub open spec fn base_type(stage: int) -> QueryType {
    if stage <= 1 {
        QueryType::A
    } else if stage <= 3 {
        QueryType::AAAA
    } else {
        QueryType::NS
    }
}

/// The record type of a follow-up query: `A` first, then `AAAA`.
pub open spec fn follow_type(aaaa: bool) -> QueryType {
    if aaaa {
        QueryType::AAAA
    } else {
        QueryType::A
    }
}

/// The anchor and the search for it once an `NS` record has been stored: the
/// first row stored for the response gives the anchor when its id is known,
/// and ends the search in any case.
pub open spec fn anchor_after(seeking: bool, anchor: Option<i64>, outcome: Stored) -> (Option<
    i64,
>, bool) {
    if !seeking {
        (anchor, false)
    } else {
        match outcome {
            Stored::Failed => (anchor, true),
            Stored::Written => (anchor, false),
            Stored::WrittenAs(id) => (Some(id), false),
        }
    }
}


/// The follow-up query after `follow` (a host index, and whether the `AAAA`
/// query of that host was the one made) among `n_hosts` hosts: the `AAAA` query
/// of the same host after its `A` query, then the next host; none after the
/// last host's `AAAA` query.
pub open spec fn next_follow_up(follow: (int, bool), n_hosts: int) -> Option<(int, bool)> {
    if !follow.1 {
        Some((follow.0, true))
    } else if follow.0 + 1 < n_hosts {
        Some((follow.0 + 1, false))
    } else {
        None
    }
}


/// The follow-up queries for `n` hosts, in the order in which they are made:
/// the `A` and then the `AAAA` query of each host in turn.
pub open spec fn follow_up_order(n: int) -> Seq<(int, bool)> {
    Seq::new((2 * n) as nat, |j: int| (j / 2, j % 2 == 1))
}

/// Each answer of an `NS` response that names a host gives one host to follow
/// up, in order: `N` such answers give `N` hosts.
pub proof fn lemma_one_host_per_ns_answer(answers: Seq<Answer>)
    requires
        forall|i: int| 0 <= i < answers.len() ==> (#[trigger] rdata_address(answers[i].data)) is Some,
    ensures
        ns_hosts(answers).len() == answers.len(),
        forall|i: int|
            0 <= i < answers.len() ==> ns_hosts(answers)[i] == (#[trigger] rdata_address(
                answers[i].data,
            ))->0,
    decreases answers.len(),
{
    if answers.len() > 0 {
        let init = answers.drop_last();
        assert forall|i: int| 0 <= i < init.len() implies (#[trigger] rdata_address(
            init[i].data,
        )) is Some by {
            assert(init[i] == answers[i]);
        }
        lemma_one_host_per_ns_answer(init);
        assert(rdata_address(answers[answers.len() - 1].data) is Some);
        assert forall|i: int| 0 <= i < answers.len() implies ns_hosts(answers)[i] == (
        #[trigger] rdata_address(answers[i].data))->0 by {
            if i < answers.len() - 1 {
                assert(init[i] == answers[i]);
            }
        }
    }
}

/// Follow-up queries for `n` hosts start with the `A` query of the first host
/// and step through [`follow_up_order`]: `2 * n` queries, one `A` and one
/// `AAAA` query for each host, after which the domain is done.
pub proof fn lemma_follow_ups_cover_hosts(n: int)
    requires
        n > 0,
    ensures
        follow_up_order(n).len() == 2 * n,
        follow_up_order(n)[0] == (0int, false),
        forall|j: int|
            0 <= j < 2 * n - 1 ==> next_follow_up(#[trigger] follow_up_order(n)[j], n) == Some(
                follow_up_order(n)[j + 1],
            ),
        next_follow_up(follow_up_order(n)[2 * n - 1], n) is None,
        forall|h: int|
            0 <= h < n ==> follow_up_order(n)[2 * h] == (h, false) && #[trigger] follow_up_order(
                n,
            )[2 * h + 1] == (h, true),
{
    assert forall|j: int| 0 <= j < 2 * n - 1 implies next_follow_up(
        #[trigger] follow_up_order(n)[j],
        n,
    ) == Some(follow_up_order(n)[j + 1]) by {
        if j % 2 == 0 {
            assert((j + 1) / 2 == j / 2 && (j + 1) % 2 == 1);
        } else {
            assert((j + 1) / 2 == j / 2 + 1 && (j + 1) % 2 == 0);
            assert(j / 2 + 1 < n);
        }
    }
    assert((2 * n - 1) / 2 == n - 1 && (2 * n - 1) % 2 == 1);
    assert forall|h: int| 0 <= h < n implies follow_up_order(n)[2 * h] == (h, false)
        && #[trigger] follow_up_order(n)[2 * h + 1] == (h, true) by {
        assert((2 * h) / 2 == h && (2 * h) % 2 == 0);
        assert((2 * h + 1) / 2 == h && (2 * h + 1) % 2 == 1);
    }
}

/// When every domain already has records, a run has nothing to resolve:
/// [`DnsQuery::process_all`] then ends it at once, with no query and no row.
pub proof fn lemma_populated_store_is_left_alone(domains: Seq<Domain>, populated: Seq<i64>)
    requires
        forall|i: int| 0 <= i < domains.len() ==> populated.contains(#[trigger] domains[i].rowid),
    ensures
        unresolved(domains, populated).len() == 0,
    decreases domains.len(),
{
    if domains.len() > 0 {
        let rest = domains.drop_first();
        assert forall|i: int| 0 <= i < rest.len() implies populated.contains(
            #[trigger] rest[i].rowid,
        ) by {
            assert(rest[i] == domains[i + 1]);
        }
        lemma_populated_store_is_left_alone(rest, populated);
        assert(populated.contains(domains[0].rowid));
    }
}


/// The answers of a series of responses, in order, each with the response code
/// of its response.
pub open spec fn all_answers(responses: Seq<Response>) -> Seq<(Answer, i32)>
    decreases responses.len(),
{
    if responses.len() == 0 {
        Seq::empty()
    } else {
        let last = responses.last();
        all_answers(responses.drop_last()) + last.answers@.map_values(
            |a: Answer| (a, last.response_code),
        )
    }
}

/// Queries of every record type at a domain's apex, collected without links
/// between records.
pub struct Query {
    query_types: Vec<QueryType>,
}

impl Query {
    /// The record types asked, in order.
    pub closed spec fn query_types(&self) -> Seq<QueryType> {
        self.query_types@
    }

    /// Asks `A`, `AAAA` and `NS`, in that order.
    pub fn new() -> (r: Query)
        ensures
            r.query_types() == seq![QueryType::A, QueryType::AAAA, QueryType::NS],
    {
        let query_types = vec![QueryType::A, QueryType::AAAA, QueryType::NS];
        Query { query_types }
    }

    /// The record types to ask at the domain's name, in order.
    pub fn types(&self) -> (r: &Vec<QueryType>)
        ensures
            r@ == self.query_types(),
    {
        &self.query_types
    }

    /// The records of the responses to [`Self::types`] at `domain`'s name, all
    /// answers in order, taken at `query_time`; nothing when no response holds
    /// an answer.
    pub fn query_all(&self, domain: &Domain, responses: &Vec<Response>, query_time: i64) -> (r:
        Option<Vec<NewRecord>>)
        ensures
            r is None <==> all_answers(responses@).len() == 0,
            r matches Some(records) ==> {
                &&& records@.len() == all_answers(responses@).len()
                &&& forall|i: int|
                    0 <= i < records@.len() ==> is_record_of(
                        #[trigger] records@[i],
                        all_answers(responses@)[i].0,
                        domain.rowid,
                        false,
                        None,
                        all_answers(responses@)[i].1,
                        query_time,
                    )
            },
    {
        let mut records: Vec<NewRecord> = Vec::new();
        let mut i: usize = 0;
        while i < responses.len()
            invariant
                i <= responses@.len(),
                records@.len() == all_answers(responses@.take(i as int)).len(),
                forall|k: int|
                    0 <= k < records@.len() ==> is_record_of(
                        #[trigger] records@[k],
                        all_answers(responses@.take(i as int))[k].0,
                        domain.rowid,
                        false,
                        None,
                        all_answers(responses@.take(i as int))[k].1,
                        query_time,
                    ),
            decreases responses@.len() - i,
        {
            let ghost before = records@;
            let ghost done = all_answers(responses@.take(i as int));
            let mut batch = build_records(&responses[i], domain.rowid, false, None, query_time);
            let ghost added = batch@;
            records.append(&mut batch);
            proof {
                let r = responses@[i as int];
                assert(responses@.take(i + 1).drop_last() =~= responses@.take(i as int));
                assert(responses@.take(i + 1).last() == r);
                let now = all_answers(responses@.take(i + 1));
                assert(now == done + r.answers@.map_values(|a: Answer| (a, r.response_code)));
                assert forall|k: int| 0 <= k < records@.len() implies is_record_of(
                    #[trigger] records@[k],
                    now[k].0,
                    domain.rowid,
                    false,
                    None,
                    now[k].1,
                    query_time,
                ) by {
                    if k < before.len() {
                        assert(records@[k] == before[k]);
                        assert(now[k] == done[k]);
                    } else {
                        assert(records@[k] == added[k - before.len()]);
                        assert(now[k] == (r.answers@[k - before.len()], r.response_code));
                    }
                }
            }
            i = i + 1;
        }
        assert(responses@.take(i as int) =~= responses@);
        if records.len() == 0 {
            None
        } else {
            Some(records)
        }
    }
}

/// The orchestrator of a run over a set of domains.
pub struct DnsQuery {
    domains: Vec<Domain>,
    pos: usize,
    stage: usize,
    hosts: Vec<String>,
    follow_host: usize,
    follow_aaaa: bool,
    pending: Vec<NewRecord>,
    anchor: Option<i64>,
    seeking: bool,
    last_time: i64,
    waiting: Waiting,
}

/// Whether `ids` holds `id`.
fn contains_id(ids: &Vec<i64>, id: i64) -> (r: bool)
    ensures
        r == ids@.contains(id),
{
    let mut i: usize = 0;
    while i < ids.len()
        invariant
            i <= ids@.len(),
            forall|k: int| 0 <= k < i ==> ids@[k] != id,
        decreases ids@.len() - i,
    {
        if ids[i] == id {
            return true;
        }
        i = i + 1;
    }
    false
}

/// The record type asked at a step of the plan.
fn stage_type(stage: usize) -> (t: QueryType)
    ensures
        t == base_type(stage as int),
{
    if stage <= 1 {
        QueryType::A
    } else if stage <= 3 {
        QueryType::AAAA
    } else {
        QueryType::NS
    }
}

/// Whether a step of the plan asks at the `www.` name.
fn stage_is_www(stage: usize) -> (b: bool)
    ensures
        b == base_is_www(stage as int),
{
    stage == 1 || stage == 3
}

impl DnsQuery {
    /// The domains of the run, in order.
    pub closed spec fn queue(&self) -> Seq<Domain> {
        self.domains@
    }

    /// The index in [`Self::queue`] of the domain being processed.
    pub closed spec fn position(&self) -> int {
        self.pos as int
    }

    /// The step of the current domain's plan: below [`BASE_QUERIES`] a query at
    /// the apex or `www.` name, at it the follow-up queries.
    pub closed spec fn stage(&self) -> int {
        self.stage as int
    }

    /// The host names found in the current domain's `NS` response.
    pub closed spec fn hosts(&self) -> Seq<Seq<char>> {
        self.hosts@.map_values(|h: String| h@)
    }

    /// The host of the current follow-up query, and whether it is the `AAAA`
    /// one.
    pub closed spec fn follow_up(&self) -> (int, bool) {
        (self.follow_host as int, self.follow_aaaa)
    }

    /// The id that follow-up records of the current domain point at.
    pub closed spec fn anchor(&self) -> Option<i64> {
        self.anchor
    }

    /// The anchor is still to be taken from the next stored `NS` record.
    pub closed spec fn seeking(&self) -> bool {
        self.seeking
    }

    /// The latest query time used so far.
    pub closed spec fn last_time(&self) -> i64 {
        self.last_time
    }

    /// No action has been asked for yet.
    pub closed spec fn is_fresh(&self) -> bool {
        self.waiting == Waiting::Start
    }

    /// The last action was a query.
    pub closed spec fn awaits_response(&self) -> bool {
        self.waiting == Waiting::Response
    }

    /// The last action was an insert.
    pub closed spec fn awaits_stored(&self) -> bool {
        self.waiting == Waiting::Stored
    }

    /// The run is over.
    pub closed spec fn is_finished(&self) -> bool {
        self.waiting == Waiting::Finished
    }

    /// The records of the current response that are still to be handed out.
    pub closed spec fn pending(&self) -> Seq<NewRecord> {
        self.pending@
    }

    /// A pending record of the current step: it belongs to the current domain,
    /// is flagged `www` for a `www.` query only, and points at the anchor
    /// exactly when it comes from a follow-up query.
    pub open spec fn fits_step(&self, r: NewRecord) -> bool {
        &&& r.domain == self.queue()[self.position()].rowid
        &&& r.is_www == (self.stage() < BASE_QUERIES && base_is_www(self.stage()))
        &&& r.parent == (if self.stage() == BASE_QUERIES {
            self.anchor()
        } else {
            None
        })
        &&& r.query_time == self.last_time()
    }

    /// The state is consistent: positions in range, the anchor known during
    /// follow-ups, and every pending record fitting the current step.
    pub closed spec fn wf(&self) -> bool {
        &&& self.pos <= self.domains@.len()
        &&& self.stage <= BASE_QUERIES
        &&& (self.waiting == Waiting::Start ==> self.pos == 0 && self.stage == 0)
        &&& (self.waiting == Waiting::Finished ==> self.pos == self.domains@.len())
        &&& (self.stage == BASE_QUERIES ==> self.anchor is Some && self.follow_host
            < self.hosts@.len())
        &&& (self.seeking ==> self.stage == BASE_QUERIES - 1 && self.anchor is None)
        &&& (self.stage < BASE_QUERIES - 1 ==> self.anchor is None)
        &&& (self.stage == BASE_QUERIES - 1 && self.waiting == Waiting::Response ==> self.anchor is None
            && !self.seeking)
        &&& (self.waiting == Waiting::Response ==> self.pending@.len() == 0)
        &&& (self.pending@.len() > 0 ==> self.waiting == Waiting::Stored)
        &&& (self.waiting == Waiting::Stored || self.waiting == Waiting::Response)
            ==> self.pos < self.domains@.len()
        &&& forall|i: int| 0 <= i < self.pending@.len() ==> self.fits_step(#[trigger] self.pending@[i])
    }

    /// The action asks for the query of the current step.
    pub open spec fn is_current_query(&self, a: Action) -> bool {
        match a {
            Action::Query { name, query_type } => {
                &&& self.awaits_response()
                &&& self.stage() < BASE_QUERIES ==> name@ == base_name(
                    self.queue()[self.position()].fqdn@,
                    self.stage(),
                ) && query_type == base_type(self.stage())
                &&& self.stage() == BASE_QUERIES ==> name@ == self.hosts()[self.follow_up().0]
                    && query_type == follow_type(self.follow_up().1)
            },
            _ => false,
        }
    }

    /// What every action handed out satisfies, given the state after it.
    pub open spec fn action_fits(&self, a: Action) -> bool {
        &&& a is Query ==> self.is_current_query(a)
        &&& a matches Action::Insert { record, want_id } ==> {
            &&& self.awaits_stored()
            &&& self.fits_step(record)
            &&& want_id == self.seeking()
            &&& record.is_www ==> record.parent is None
            &&& record.parent is Some ==> self.stage() == BASE_QUERIES && record.parent
                == self.anchor()
        }
        &&& a is Done <==> self.is_finished()
    }

    /// The state has moved on from step `stage` (with follow-up position
    /// `follow`) of the domain at `pos`, once every record of that step was
    /// handed out: to the next step of the plan, or to the next domain.
    pub open spec fn moved_on(
        &self,
        pos: int,
        stage: int,
        follow: (int, bool),
        n_hosts: int,
        has_anchor: bool,
    ) -> bool {
        let next_domain = self.position() == pos + 1 && (self.is_finished() || self.stage() == 0);
        if stage < BASE_QUERIES - 1 {
            self.position() == pos && self.stage() == stage + 1
        } else if stage == BASE_QUERIES - 1 {
            if has_anchor && n_hosts > 0 {
                self.position() == pos && self.stage() == BASE_QUERIES && self.follow_up() == (
                0int,
                false,
            )
            } else {
                next_domain
            }
        } else {
            match next_follow_up(follow, n_hosts) {
                Some(f) => self.position() == pos && self.stage() == BASE_QUERIES
                    && self.follow_up() == f,
                None => next_domain,
            }
        }
    }

    /// Builds the orchestrator for a run over `domains`, leaving out those
    /// whose id is among `populated`: they already have records.
    pub fn new(domains: Vec<Domain>, populated: &Vec<i64>) -> (r: DnsQuery)
        ensures
            r.wf(),
            r.is_fresh(),
            r.queue() == unresolved(domains@, populated@),
    {
        let ghost all = domains@;
        let mut rest = domains;
        let mut kept: Vec<Domain> = Vec::new();
        while rest.len() > 0
            invariant
                kept@ + unresolved(rest@, populated@) == unresolved(all, populated@),
            decreases rest@.len(),
        {
            let ghost before = rest@;
            let d = rest.remove(0);
            assert(before.drop_first() =~= rest@);
            if !contains_id(populated, d.rowid) {
                assert(kept@.push(d) + unresolved(rest@, populated@) =~= kept@ + unresolved(
                    before,
                    populated@,
                ));
                kept.push(d);
            }
        }
        assert(kept@ =~= unresolved(all, populated@));
        DnsQuery {
            domains: kept,
            pos: 0,
            stage: 0,
            hosts: Vec::new(),
            follow_host: 0,
            follow_aaaa: false,
            pending: Vec::new(),
            anchor: None,
            seeking: false,
            last_time: i64::MIN,
            waiting: Waiting::Start,
        }
    }

    /// Starts the run: the first query of the first domain, or the end when
    /// there is no domain to resolve.
    pub fn process_all(&mut self) -> (r: Action)
        requires
            old(self).wf(),
            old(self).is_fresh(),
        ensures
            final(self).wf(),
            final(self).action_fits(r),
            final(self).queue() == old(self).queue(),
            final(self).last_time() == old(self).last_time(),
            r is Done <==> old(self).queue().len() == 0,
            old(self).queue().len() > 0 ==> r is Query && final(self).position() == 0
                && final(self).stage() == 0,
    {
        self.begin_domain()
    }

    /// The query of type `query_type` for `domain`, at its `www.` name when
    /// `is_www` holds.
    pub fn query_domain(&self, domain: &Domain, query_type: QueryType, is_www: bool) -> (r: Action)
        ensures
            r matches Action::Query { name, query_type: t } && t == query_type && name@ == (if is_www {
                "www."@ + domain.fqdn@
            } else {
                domain.fqdn@
            }),
    {
        if is_www {
            let mut name = String::from_str("www.");
            name.append(domain.fqdn.as_str());
            Action::Query { name, query_type }
        } else {
            Action::Query { name: domain.fqdn.clone(), query_type }
        }
    }

    /// Takes the response to the last query, sent at `query_time`, and builds
    /// its records. Their query time never falls below one used before.
    pub fn on_response(&mut self, response: Response, query_time: i64) -> (r: Action)
        requires
            old(self).wf(),
            old(self).awaits_response(),
        ensures
            final(self).wf(),
            final(self).action_fits(r),
            final(self).queue() == old(self).queue(),
            final(self).last_time() >= old(self).last_time(),
            final(self).last_time() >= query_time,
            final(self).last_time() == old(self).last_time() || final(self).last_time()
                == query_time,
            response.answers@.len() > 0 ==> {
                &&& final(self).position() == old(self).position()
                &&& final(self).stage() == old(self).stage()
                &&& final(self).follow_up() == old(self).follow_up()
                &&& r matches Action::Insert { record, .. } && is_record_of(
                    record,
                    response.answers@[0],
                    old(self).queue()[old(self).position()].rowid,
                    old(self).stage() < BASE_QUERIES && base_is_www(old(self).stage()),
                    if old(self).stage() == BASE_QUERIES {
                        old(self).anchor()
                    } else {
                        None
                    },
                    response.response_code,
                    final(self).last_time(),
                )
                &&& final(self).pending().len() == response.answers@.len() - 1
                &&& forall|i: int|
                    0 <= i < final(self).pending().len() ==> is_record_of(
                        #[trigger] final(self).pending()[i],
                        response.answers@[i + 1],
                        old(self).queue()[old(self).position()].rowid,
                        old(self).stage() < BASE_QUERIES && base_is_www(old(self).stage()),
                        if old(self).stage() == BASE_QUERIES {
                            old(self).anchor()
                        } else {
                            None
                        },
                        response.response_code,
                        final(self).last_time(),
                    )
            },
            response.answers@.len() == 0 ==> !(r is Insert),
            final(self).stage() != BASE_QUERIES - 1 ==> !final(self).seeking(),
            response.answers@.len() > 0 && old(self).stage() == BASE_QUERIES - 1 ==> {
                &&& final(self).hosts() == ns_hosts(response.answers@)
                &&& final(self).seeking()
                &&& final(self).anchor() is None
            },
            final(self).position() == old(self).position() && old(self).stage() == BASE_QUERIES
                ==> final(self).anchor() == old(self).anchor() && final(self).hosts() == old(
                self,
            ).hosts(),
            !(r is Insert) ==> final(self).moved_on(
                old(self).position(),
                old(self).stage(),
                old(self).follow_up(),
                if old(self).stage() == BASE_QUERIES - 1 {
                    ns_hosts(response.answers@).len() as int
                } else {
                    old(self).hosts().len() as int
                },
                old(self).stage() == BASE_QUERIES && old(self).anchor() is Some,
            ),
    {
        let time = if query_time > self.last_time {
            query_time
        } else {
            self.last_time
        };
        self.last_time = time;
        let is_www = self.stage < BASE_QUERIES && stage_is_www(self.stage);
        let parent = if self.stage == BASE_QUERIES {
            self.anchor
        } else {
            None
        };
        let domain = self.domains[self.pos].rowid;
        let records = build_records(&response, domain, is_www, parent, time);
        if self.stage == BASE_QUERIES - 1 {
            self.hosts = Self::name_servers(&response);
            self.seeking = true;
        }
        self.pending = records;
        self.next_insert()
    }

    /// Takes the outcome of the last insert. While the anchor is sought, the
    /// first row stored for the `NS` response gives it.
    pub fn on_stored(&mut self, outcome: Stored) -> (r: Action)
        requires
            old(self).wf(),
            old(self).awaits_stored(),
        ensures
            final(self).wf(),
            final(self).action_fits(r),
            final(self).queue() == old(self).queue(),
            final(self).last_time() == old(self).last_time(),
            old(self).pending().len() > 0 ==> {
                &&& final(self).position() == old(self).position()
                &&& final(self).stage() == old(self).stage()
                &&& final(self).follow_up() == old(self).follow_up()
                &&& r matches Action::Insert { record, .. } && record == old(self).pending()[0]
                &&& final(self).pending() == old(self).pending().drop_first()
            },
            old(self).pending().len() == 0 ==> !(r is Insert),
            final(self).stage() != BASE_QUERIES - 1 ==> !final(self).seeking(),
            final(self).position() == old(self).position() ==> final(self).seeking() == anchor_after(
                old(self).seeking(),
                old(self).anchor(),
                outcome,
            ).1,
            final(self).position() == old(self).position() ==> final(self).anchor() == anchor_after(
                old(self).seeking(),
                old(self).anchor(),
                outcome,
            ).0,
            final(self).position() == old(self).position() ==> final(self).hosts() == old(
                self,
            ).hosts(),
            !(r is Insert) ==> final(self).moved_on(
                old(self).position(),
                old(self).stage(),
                old(self).follow_up(),
                old(self).hosts().len() as int,
                anchor_after(old(self).seeking(), old(self).anchor(), outcome).0 is Some,
            ),
    {
        if self.seeking {
            match outcome {
                Stored::Failed => {},
                Stored::Written => {
                    self.seeking = false;
                },
                Stored::WrittenAs(id) => {
                    self.anchor = Some(id);
                    self.seeking = false;
                },
            }
        }
        self.next_insert()
    }

    /// The host names that the answers of an `NS` response name.
    fn name_servers(response: &Response) -> (r: Vec<String>)
        ensures
            r@.map_values(|h: String| h@) == ns_hosts(response.answers@),
    {
        let mut hosts: Vec<String> = Vec::new();
        let mut i: usize = 0;
        while i < response.answers.len()
            invariant
                i <= response.answers@.len(),
                hosts@.map_values(|h: String| h@) == ns_hosts(response.answers@.take(i as int)),
            decreases response.answers@.len() - i,
        {
            let ghost before = hosts@;
            assert(response.answers@.take(i + 1).drop_last() =~= response.answers@.take(i as int));
            match address_of(&response.answers[i].data) {
                Some(h) => {
                    hosts.push(h);
                    assert(hosts@.map_values(|h: String| h@) =~= before.map_values(|h: String| h@).push(h@));
                },
                None => {},
            }
            i = i + 1;
        }
        assert(response.answers@.take(i as int) =~= response.answers@);
        hosts
    }

    /// Hands out the next pending record, or moves on once there is none.
    fn next_insert(&mut self) -> (r: Action)
        requires
            old(self).pos < old(self).domains@.len(),
            old(self).stage <= BASE_QUERIES,
            old(self).stage == BASE_QUERIES ==> old(self).anchor is Some && old(self).follow_host
                < old(self).hosts@.len(),
            old(self).seeking ==> old(self).stage == BASE_QUERIES - 1 && old(self).anchor is None,
            old(self).stage < BASE_QUERIES - 1 ==> old(self).anchor is None,
            forall|i: int| 0 <= i < old(self).pending@.len() ==> old(self).fits_step(#[trigger] old(self).pending@[i]),
        ensures
            final(self).wf(),
            final(self).action_fits(r),
            final(self).domains == old(self).domains,
            final(self).last_time == old(self).last_time,
            old(self).pending@.len() > 0 ==> {
                &&& r matches Action::Insert { record, .. } && record == old(self).pending@[0]
                &&& final(self).pending@ == old(self).pending@.drop_first()
                &&& final(self).pos == old(self).pos
                &&& final(self).stage == old(self).stage
                &&& final(self).follow_host == old(self).follow_host
                &&& final(self).follow_aaaa == old(self).follow_aaaa
                &&& final(self).anchor == old(self).anchor
                &&& final(self).hosts == old(self).hosts
                &&& final(self).seeking == old(self).seeking
            },
            old(self).pending@.len() == 0 ==> !(r is Insert),
            old(self).pending@.len() == 0 ==> final(self).moved_on(
                old(self).pos as int,
                old(self).stage as int,
                (old(self).follow_host as int, old(self).follow_aaaa),
                old(self).hosts@.len() as int,
                old(self).anchor is Some,
            ),
            old(self).pending@.len() == 0 && final(self).pos == old(self).pos ==> final(self).anchor
                == old(self).anchor && final(self).hosts == old(self).hosts,
    {
        if self.pending.len() > 0 {
            let record = self.pending.remove(0);
            self.waiting = Waiting::Stored;
            assert forall|i: int| 0 <= i < self.pending@.len() implies self.fits_step(
                #[trigger] self.pending@[i],
            ) by {
                assert(self.pending@[i] == old(self).pending@[i + 1]);
            }
            Action::Insert { record, want_id: self.seeking }
        } else {
            self.advance()
        }
    }

    /// Moves on to the next step of the plan, or to the next domain.
    fn advance(&mut self) -> (r: Action)
        requires
            old(self).pos < old(self).domains@.len(),
            old(self).stage <= BASE_QUERIES,
            old(self).stage == BASE_QUERIES ==> old(self).anchor is Some && old(self).follow_host
                < old(self).hosts@.len(),
            old(self).stage < BASE_QUERIES - 1 ==> old(self).anchor is None,
            old(self).pending@.len() == 0,
        ensures
            final(self).wf(),
            final(self).action_fits(r),
            final(self).domains == old(self).domains,
            final(self).last_time == old(self).last_time,
            !(r is Insert),
            final(self).moved_on(
                old(self).pos as int,
                old(self).stage as int,
                (old(self).follow_host as int, old(self).follow_aaaa),
                old(self).hosts@.len() as int,
                old(self).anchor is Some,
            ),
            final(self).pos == old(self).pos ==> final(self).anchor == old(self).anchor
                && final(self).hosts == old(self).hosts,
    {
        self.seeking = false;
        if self.stage < BASE_QUERIES - 1 {
            self.stage = self.stage + 1;
            self.base_query()
        } else if self.stage == BASE_QUERIES - 1 {
            if self.anchor.is_some() && self.hosts.len() > 0 {
                self.stage = BASE_QUERIES;
                self.follow_host = 0;
                self.follow_aaaa = false;
                self.follow_query()
            } else {
                self.next_domain()
            }
        } else if !self.follow_aaaa {
            self.follow_aaaa = true;
            self.follow_query()
        } else if self.follow_host < self.hosts.len() - 1 {
            self.follow_host = self.follow_host + 1;
            self.follow_aaaa = false;
            self.follow_query()
        } else {
            self.next_domain()
        }
    }

    /// Leaves the current domain for the next one.
    fn next_domain(&mut self) -> (r: Action)
        requires
            old(self).pos < old(self).domains@.len(),
        ensures
            final(self).wf(),
            final(self).action_fits(r),
            final(self).domains == old(self).domains,
            final(self).last_time == old(self).last_time,
            final(self).pos == old(self).pos + 1,
            !(r is Insert),
            final(self).pos < final(self).domains@.len() ==> final(self).stage == 0,
    {
        if self.pos < self.domains.len() {
            self.pos = self.pos + 1;
        }
        self.begin_domain()
    }

    /// Starts the domain at the current position, or ends the run after the
    /// last one.
    fn begin_domain(&mut self) -> (r: Action)
        requires
            old(self).pos <= old(self).domains@.len(),
        ensures
            final(self).wf(),
            final(self).action_fits(r),
            final(self).domains == old(self).domains,
            final(self).last_time == old(self).last_time,
            final(self).pos == old(self).pos,
            final(self).pos < final(self).domains@.len() ==> final(self).stage == 0 && r is Query,
            r is Done <==> old(self).pos == old(self).domains@.len(),
            !(r is Insert),
    {
        self.stage = 0;
        self.hosts = Vec::new();
        self.follow_host = 0;
        self.follow_aaaa = false;
        self.pending = Vec::new();
        self.anchor = None;
        self.seeking = false;
        if self.pos < self.domains.len() {
            self.base_query()
        } else {
            self.waiting = Waiting::Finished;
            Action::Done
        }
    }

    /// The query of the current step at the apex or `www.` name.
    fn base_query(&mut self) -> (r: Action)
        requires
            old(self).pos < old(self).domains@.len(),
            old(self).stage < BASE_QUERIES,
            old(self).stage < BASE_QUERIES - 1 ==> old(self).anchor is None,
            !old(self).seeking,
            old(self).stage == BASE_QUERIES - 1 ==> old(self).anchor is None,
            old(self).pending@.len() == 0,
        ensures
            final(self).wf(),
            final(self).action_fits(r),
            r is Query,
            *final(self) == (DnsQuery { waiting: Waiting::Response, ..*old(self) }),
    {
        self.waiting = Waiting::Response;
        let query_type = stage_type(self.stage);
        let is_www = stage_is_www(self.stage);
        self.query_domain(&self.domains[self.pos], query_type, is_www)
    }

    /// The current follow-up query.
    fn follow_query(&mut self) -> (r: Action)
        requires
            old(self).pos < old(self).domains@.len(),
            old(self).stage == BASE_QUERIES,
            old(self).anchor is Some,
            old(self).follow_host < old(self).hosts@.len(),
            !old(self).seeking,
            old(self).pending@.len() == 0,
        ensures
            final(self).wf(),
            final(self).action_fits(r),
            r is Query,
            *final(self) == (DnsQuery { waiting: Waiting::Response, ..*old(self) }),
    {
        self.waiting = Waiting::Response;
        let name = self.hosts[self.follow_host].clone();
        let query_type = if self.follow_aaaa {
            QueryType::AAAA
        } else {
            QueryType::A
        };
        Action::Query { name, query_type }
    }

    /// The id of the domain being processed; none once the run is over.
    pub fn current_domain(&self) -> (r: Option<i64>)
        ensures
            r == (if self.position() < self.queue().len() {
                Some(self.queue()[self.position()].rowid)
            } else {
                None
            }),
    {
        if self.pos < self.domains.len() {
            Some(self.domains[self.pos].rowid)
        } else {
            None
        }
    }

    /// The number of domains in the run.
    pub fn total_domains(&self) -> (r: usize)
        ensures
            r == self.queue().len(),
    {
        self.domains.len()
    }

    /// The address that a record keeps of an answer's data.
    pub fn parse_address(&self, answer: &RData) -> (r: Option<String>)
        ensures
            opt_string_view(r) == rdata_address(*answer),
    {
        address_of(answer)
    }
}

} // verus!
