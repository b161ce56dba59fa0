//! What the store layer computes around its SQL: flag encoding, the
//! running-container filter, and which job query a filter selects.

use vstd::prelude::*;
use crate::api::models::Container;
use crate::text::owned;

verus! {

broadcast use vstd::string::group_string_axioms;

/// How the store keeps a flag: 1 for true, 0 for false.
pub fn flag_value(b: bool) -> (r: i64)
    ensures
        r == (if b { 1int } else { 0int }),
{
    if b {
        1
    } else {
        0
    }
}

/// Whether a container is listed: all are when stopped ones are included,
/// otherwise only those whose status is `running`.
pub open spec fn is_listed(c: Container, include_stopped: bool) -> bool {
    include_stopped || c.status@ == "running"@
}

/// The containers of a client that a listing shows, in store order.
pub open spec fn spec_listed(rows: Seq<Container>, include_stopped: bool) -> Seq<Container> {
    rows.filter(|c: Container| is_listed(c, include_stopped))
}

/// Keeps the containers that a listing shows.
pub fn listed_containers(rows: Vec<Container>, include_stopped: bool) -> (r: Vec<Container>)
    ensures
        r@ == spec_listed(rows@, include_stopped),
{
    let ghost pred = |c: Container| is_listed(c, include_stopped);
    let running = owned("running");
    let mut r: Vec<Container> = Vec::new();
    let mut i: usize = 0;
    assert(rows@.take(0) =~= Seq::<Container>::empty());
    while i < rows.len()
        invariant
            i <= rows@.len(),
            running@ == "running"@,
            pred == (|c: Container| is_listed(c, include_stopped)),
            r@ == rows@.take(i as int).filter(pred),
        decreases rows@.len() - i,
    {
        let c = &rows[i];
        proof {
            assert(rows@.take(i + 1) =~= rows@.take(i as int).push(rows@[i as int]));
            rows@.take(i as int).lemma_filter_push(rows@[i as int], pred);
        }
        if include_stopped || c.status == running {
            r.push(c.copy());
        }
        i = i + 1;
    }
    assert(rows@.take(rows@.len() as int) =~= rows@);
    r
}

/// The columns of an update job, in the order the job queries select them.
pub open spec fn job_columns() -> Seq<char> {
    "SELECT id, client_id, container_name, image, from_digest, to_digest, status, output, started_at, completed_at FROM update_jobs"@
}

/// A listing without stopped containers holds exactly the rows whose status
/// is `running`, in store order: every listed container is running, every
/// running row is listed, and nothing is listed twice more than it is
/// stored. With stopped containers included, every row is listed as stored.
pub proof fn law_listing_filter(rows: Seq<Container>)
    ensures
        forall|i: int|
            0 <= i < spec_listed(rows, false).len() ==> (#[trigger] spec_listed(rows, false)[i]).status@
                == "running"@,
        forall|i: int|
            0 <= i < rows.len() && rows[i].status@ == "running"@ ==> spec_listed(rows, false).contains(
                #[trigger] rows[i],
            ),
        spec_listed(rows, false).len() <= rows.len(),
        spec_listed(rows, true) == rows,
    decreases rows.len(),
{
    let pred = |c: Container| is_listed(c, false);
    assert forall|i: int| 0 <= i < spec_listed(rows, false).len() implies (#[trigger] spec_listed(
        rows,
        false,
    )[i]).status@ == "running"@ by {
        rows.lemma_filter_pred(pred, i);
    }
    assert forall|i: int| 0 <= i < rows.len() && rows[i].status@ == "running"@ implies spec_listed(
        rows,
        false,
    ).contains(#[trigger] rows[i]) by {
        rows.lemma_filter_contains(pred, i);
    }
    rows.lemma_filter_len(pred);
    let all = |c: Container| is_listed(c, true);
    if rows.len() > 0 {
        law_listing_filter(rows.drop_last());
        reveal(Seq::filter);
        assert(rows.filter(all) =~= rows.drop_last().filter(all).push(rows.last()));
        assert(rows.drop_last().push(rows.last()) =~= rows);
    } else {
        reveal(Seq::filter);
        assert(rows.filter(all) =~= rows);
    }
}

/// Listing one more stored row: without stopped containers it is appended
/// exactly when its status is `running`; with them it is always appended.
pub proof fn law_listing_extends(rows: Seq<Container>, c: Container)
    ensures
        spec_listed(rows.push(c), false) == if c.status@ == "running"@ {
            spec_listed(rows, false).push(c)
        } else {
            spec_listed(rows, false)
        },
        spec_listed(rows.push(c), true) == spec_listed(rows, true).push(c),
{
    reveal(Seq::filter);
    assert(rows.push(c).drop_last() =~= rows);
}

/// The query that lists recent jobs, filtered by client and by status when
/// those are given, newest first, one page at a time. Its parameters are the
/// client id, then the status, each when given, then the limit and the offset.
pub open spec fn spec_recent_jobs_sql(by_client: bool, by_status: bool) -> Seq<char> {
    job_columns() + if by_client && by_status {
        " WHERE client_id = ? AND status = ?"@
    } else if by_client {
        " WHERE client_id = ?"@
    } else if by_status {
        " WHERE status = ?"@
    } else {
        Seq::empty()
    } + " ORDER BY started_at DESC LIMIT ? OFFSET ?"@
}

/// Chooses the query for a recent-jobs filter.
pub fn recent_jobs_sql(client_id: Option<&str>, status: Option<&str>) -> (r: String)
    ensures
        r@ == spec_recent_jobs_sql(client_id is Some, status is Some),
{
    let mut q = owned(
        "SELECT id, client_id, container_name, image, from_digest, to_digest, status, output, started_at, completed_at FROM update_jobs",
    );
    let ghost base = q@;
    match (client_id, status) {
        (Some(_), Some(_)) => q.append(" WHERE client_id = ? AND status = ?"),
        (Some(_), None) => q.append(" WHERE client_id = ?"),
        (None, Some(_)) => q.append(" WHERE status = ?"),
        (None, None) => {},
    }
    let ghost mid = q@;
    q.append(" ORDER BY started_at DESC LIMIT ? OFFSET ?");
    proof {
        if client_id is None && status is None {
            assert(mid == base);
            assert(base + Seq::<char>::empty() =~= base);
        }
    }
    q
}

} // verus!
