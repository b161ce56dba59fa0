//! The update endpoints: which containers an update request targets, the jobs
//! it records, the command sent to the agent, and how job listings page.

use vstd::prelude::*;
use crate::api::models::{Client, Container, ServerToAgent, UpdateJob, copy_opt};
use crate::ids::{is_hyphenated_uuid, is_rfc3339_utc, new_uuid, now_rfc3339};
use crate::text::{owned, views};

verus! {

broadcast use vstd::string::group_string_axioms;

/// The containers an update request asks for: all with an update available,
/// or those named.
#[derive(Debug, Clone)]
pub struct TriggerUpdateRequest {
    pub container_names: Option<Vec<String>>,
    pub all: Option<bool>,
}

/// The filter and page of a listing of recent jobs.
#[derive(Debug, Clone)]
pub struct RecentJobsQuery {
    pub client_id: Option<String>,
    pub status: Option<String>,
    pub page: Option<i64>,
    pub per_page: Option<i64>,
}

/// The body of an error answer.
#[derive(Debug, Clone)]
pub struct ApiError {
    pub error: String,
}

/// A store failure, answered with 500 and the failure's text.
pub fn internal_error(message: String) -> (r: (u16, ApiError))
    ensures
        r.0 == 500 && r.1.error == message,
{
    (500, ApiError { error: message })
}

// ---------------------------------------------------------------- targets

/// Whether the request asks for every container with an update.
pub open spec fn wants_all(request: TriggerUpdateRequest) -> bool {
    request.all == Some(true)
}

/// The containers that have an update available, in order.
pub open spec fn spec_with_update(containers: Seq<Container>) -> Seq<Container> {
    containers.filter(|c: Container| c.update_available)
}

/// The containers whose name is among `names`, in order.
pub open spec fn spec_named(containers: Seq<Container>, names: Seq<Seq<char>>) -> Seq<Container> {
    containers.filter(|c: Container| names.contains(c.container_name@))
}

/// The text of the answer to a request that names no containers.
pub open spec fn no_selection_text() -> Seq<char> {
    "Must specify container_names or all=true"@
}

/// The containers an update request targets among a client's running
/// containers: with `all`, those with an update available; otherwise those
/// named; 400 when the request says neither.
pub open spec fn spec_targets(
    containers: Seq<Container>,
    request: TriggerUpdateRequest,
    r: Result<Vec<Container>, (u16, ApiError)>,
) -> bool {
    if wants_all(request) {
        r matches Ok(v) && v@ == spec_with_update(containers)
    } else {
        match request.container_names {
            Some(names) => r matches Ok(v) && v@ == spec_named(containers, views(names@)),
            None => r matches Err((status, body)) && status == 400 && body.error@ == no_selection_text(),
        }
    }
}

fn name_listed(names: &Vec<String>, name: &String) -> (r: bool)
    ensures
        r == views(names@).contains(name@),
{
    let mut i: usize = 0;
    while i < names.len()
        invariant
            i <= names@.len(),
            forall|j: int| 0 <= j < i ==> names@[j]@ != name@,
        decreases names@.len() - i,
    {
        if names[i] == *name {
            assert(views(names@)[i as int] == name@);
            return true;
        }
        i = i + 1;
    }
    assert forall|j: int| 0 <= j < views(names@).len() implies views(names@)[j] != name@ by {
        assert(views(names@)[j] == names@[j]@);
    }
    false
}

/// Chooses the containers that an update request targets.
pub fn select_targets(containers: &Vec<Container>, request: &TriggerUpdateRequest) -> (r: Result<
    Vec<Container>,
    (u16, ApiError),
>)
    ensures
        spec_targets(containers@, *request, r),
{
    let all = match request.all {
        Some(b) => b,
        None => false,
    };
    if !all && request.container_names.is_none() {
        return Err((400, ApiError { error: owned("Must specify container_names or all=true") }));
    }
    let ghost pred = if all {
        |c: Container| c.update_available
    } else {
        |c: Container| views(request.container_names->0@).contains(c.container_name@)
    };
    let mut r: Vec<Container> = Vec::new();
    let mut i: usize = 0;
    assert(containers@.take(0) =~= Seq::<Container>::empty());
    while i < containers.len()
        invariant
            i <= containers@.len(),
            all == wants_all(*request),
            all || request.container_names is Some,
            pred == (if all {
                |c: Container| c.update_available
            } else {
                |c: Container| views(request.container_names->0@).contains(c.container_name@)
            }),
            r@ == containers@.take(i as int).filter(pred),
        decreases containers@.len() - i,
    {
        let c = &containers[i];
        proof {
            assert(containers@.take(i + 1) =~= containers@.take(i as int).push(containers@[i as int]));
            containers@.take(i as int).lemma_filter_push(containers@[i as int], pred);
        }
        let keep = if all {
            c.update_available
        } else {
            match &request.container_names {
                Some(names) => name_listed(names, &c.container_name),
                None => false,
            }
        };
        if keep {
            r.push(c.copy());
        }
        i = i + 1;
    }
    assert(containers@.take(containers@.len() as int) =~= containers@);
    Ok(r)
}

// ---------------------------------------------------------------- jobs

/// A pending job for container `c` of client `client_id`, started at `now`:
/// it moves the container from its current digest to its latest one.
pub open spec fn is_pending_job(job: UpdateJob, client_id: Seq<char>, c: Container, now: Seq<char>) -> bool {
    &&& job.client_id@ == client_id
    &&& job.container_name@ == c.container_name@
    &&& job.image@ == c.image@
    &&& job.from_digest == c.current_digest
    &&& job.to_digest == c.latest_digest
    &&& job.status@ == "pending"@
    &&& job.output is None
    &&& job.started_at@ == now
    &&& job.completed_at is None
}

/// One pending job per target, in order, each with a fresh identifier and
/// all started at `now`.
pub fn update_jobs_at(client_id: &str, targets: &Vec<Container>, now: &str) -> (r: Vec<UpdateJob>)
    ensures
        r@.len() == targets@.len(),
        forall|i: int|
            0 <= i < targets@.len() ==> is_pending_job(#[trigger] r@[i], client_id@, targets@[i], now@)
                && is_hyphenated_uuid(r@[i].id@),
{
    let mut r: Vec<UpdateJob> = Vec::new();
    let mut i: usize = 0;
    while i < targets.len()
        invariant
            i <= targets@.len(),
            r@.len() == i,
            forall|j: int|
                0 <= j < i ==> is_pending_job(#[trigger] r@[j], client_id@, targets@[j], now@)
                    && is_hyphenated_uuid(r@[j].id@),
        decreases targets@.len() - i,
    {
        let c = &targets[i];
        r.push(
            UpdateJob {
                id: new_uuid(),
                client_id: owned(client_id),
                container_name: c.container_name.clone(),
                image: c.image.clone(),
                from_digest: copy_opt(&c.current_digest),
                to_digest: copy_opt(&c.latest_digest),
                status: owned("pending"),
                output: None,
                started_at: owned(now),
                completed_at: None,
            },
        );
        i = i + 1;
    }
    r
}

/// The jobs that an update request records: one pending job per target, all
/// started at the same moment, read from the clock once and written in
/// RFC 3339 form.
pub fn new_update_jobs(client_id: &str, targets: &Vec<Container>) -> (r: Vec<UpdateJob>)
    ensures
        r@.len() == targets@.len(),
        forall|i: int|
            0 <= i < targets@.len() ==> is_pending_job(#[trigger] r@[i], client_id@, targets@[i], r@[0].started_at@)
                && is_hyphenated_uuid(r@[i].id@),
        r@.len() > 0 ==> is_rfc3339_utc(r@[0].started_at@),
{
    let now = now_rfc3339();
    update_jobs_at(client_id, targets, now.as_str())
}

/// The command that an update request sends: nothing when no container is
/// targeted; `UpdateAll` for `all`; otherwise `UpdateContainers` with the
/// targets' names in order.
pub open spec fn spec_update_command(all: bool, targets: Seq<Container>, r: Option<ServerToAgent>) -> bool {
    if targets.len() == 0 {
        r is None
    } else if all {
        r == Some(ServerToAgent::UpdateAll)
    } else {
        r matches Some(ServerToAgent::UpdateContainers { names }) && views(names@) == targets.map_values(
            |c: Container| c.container_name@,
        )
    }
}

/// Chooses the command sent to the agent after the jobs were recorded.
pub fn update_command(request: &TriggerUpdateRequest, targets: &Vec<Container>) -> (r: Option<ServerToAgent>)
    ensures
        spec_update_command(wants_all(*request), targets@, r),
{
    if targets.len() == 0 {
        return None;
    }
    let all = match request.all {
        Some(b) => b,
        None => false,
    };
    if all {
        return Some(ServerToAgent::UpdateAll);
    }
    let mut names: Vec<String> = Vec::new();
    let mut i: usize = 0;
    while i < targets.len()
        invariant
            i <= targets@.len(),
            views(names@) == targets@.take(i as int).map_values(|c: Container| c.container_name@),
        decreases targets@.len() - i,
    {
        let ghost before = views(names@);
        names.push(targets[i].container_name.clone());
        proof {
            let f = |c: Container| c.container_name@;
            assert(targets@.take(i + 1) =~= targets@.take(i as int).push(targets@[i as int]));
            assert(targets@.take(i as int).push(targets@[i as int]).map_values(f) =~= targets@.take(
                i as int,
            ).map_values(f).push(f(targets@[i as int])));
            assert(views(names@) =~= before.push(names@.last()@));
        }
        i = i + 1;
    }
    assert(targets@.take(targets@.len() as int) =~= targets@);
    Some(ServerToAgent::UpdateContainers { names })
}

/// Every job of an update request is for a container that the request
/// targets and that has an update available when the request asks for all.
pub proof fn law_all_targets_have_updates(containers: Seq<Container>, c: Container)
    requires
        spec_with_update(containers).contains(c),
    ensures
        c.update_available,
        containers.contains(c),
{
    let pred = |c: Container| c.update_available;
    let k = choose|k: int| 0 <= k < spec_with_update(containers).len() && spec_with_update(containers)[k] == c;
    containers.lemma_filter_pred(pred, k);
    containers.lemma_filter_contains_rev(pred, c);
}

/// A named update targets only containers that were named.
pub proof fn law_named_targets_were_named(containers: Seq<Container>, names: Seq<Seq<char>>, c: Container)
    requires
        spec_named(containers, names).contains(c),
    ensures
        names.contains(c.container_name@),
        containers.contains(c),
{
    let pred = |c: Container| names.contains(c.container_name@);
    let k = choose|k: int| 0 <= k < spec_named(containers, names).len() && spec_named(containers, names)[k] == c;
    containers.lemma_filter_pred(pred, k);
    containers.lemma_filter_contains_rev(pred, c);
}

/// The command of a named update names exactly the containers that got jobs,
/// in the same order.
pub proof fn law_command_names_the_jobs(
    client_id: Seq<char>,
    targets: Seq<Container>,
    jobs: Seq<UpdateJob>,
    now: Seq<char>,
    command: Option<ServerToAgent>,
)
    requires
        jobs.len() == targets.len(),
        forall|i: int| 0 <= i < targets.len() ==> is_pending_job(#[trigger] jobs[i], client_id, targets[i], now),
        spec_update_command(false, targets, command),
        targets.len() > 0,
    ensures
        command matches Some(ServerToAgent::UpdateContainers { names }) && views(names@) == jobs.map_values(
            |j: UpdateJob| j.container_name@,
        ),
{
    if let Some(ServerToAgent::UpdateContainers { names }) = command {
        assert(views(names@) =~= jobs.map_values(|j: UpdateJob| j.container_name@)) by {
            assert(views(names@) == targets.map_values(|c: Container| c.container_name@));
            assert forall|i: int| 0 <= i < jobs.len() implies views(names@)[i] == jobs.map_values(
                |j: UpdateJob| j.container_name@,
            )[i] by {
                assert(is_pending_job(jobs[i], client_id, targets[i], now));
            }
        }
    }
}

// ---------------------------------------------------------------- lookups

/// Answers `GET /api/jobs/:id`: the job, 404 when there is none, 500 when the
/// store failed.
pub fn job_answer(found: Result<Option<UpdateJob>, String>, job_id: &str) -> (r: Result<UpdateJob, (u16, ApiError)>)
    ensures
        match found {
            Ok(Some(j)) => r == Ok::<UpdateJob, (u16, ApiError)>(j),
            Ok(None) => r matches Err((status, body)) && status == 404 && body.error@ == "Job "@
                + job_id@ + " not found"@,
            Err(e) => r matches Err((status, body)) && status == 500 && body.error == e,
        },
{
    match found {
        Ok(Some(j)) => Ok(j),
        Ok(None) => {
            let mut text = owned("Job ");
            text.append(job_id);
            text.append(" not found");
            Err((404, ApiError { error: text }))
        },
        Err(e) => Err(internal_error(e)),
    }
}

/// The answer to a request about client `client_id`: the client, 404 when
/// there is none, 500 when the store failed.
pub fn client_answer(found: Result<Option<Client>, String>, client_id: &str) -> (r: Result<Client, (u16, ApiError)>)
    ensures
        match found {
            Ok(Some(c)) => r == Ok::<Client, (u16, ApiError)>(c),
            Ok(None) => r matches Err((status, body)) && status == 404 && body.error@
                == "Client "@ + client_id@ + " not found"@,
            Err(e) => r matches Err((status, body)) && status == 500 && body.error == e,
        },
{
    match found {
        Ok(Some(c)) => Ok(c),
        Ok(None) => {
            let mut text = owned("Client ");
            text.append(client_id);
            text.append(" not found");
            Err((404, ApiError { error: text }))
        },
        Err(e) => Err(internal_error(e)),
    }
}

/// Answers `POST /api/clients/:id/check-versions`: 200 when the client exists
/// (the caller then sends `CheckVersions`), 404 or 500 otherwise.
pub fn check_versions_answer(found: Result<Option<Client>, String>, client_id: &str) -> (r: Result<u16, (u16, ApiError)>)
    ensures
        match found {
            Ok(Some(_)) => r == Ok::<u16, (u16, ApiError)>(200),
            Ok(None) => r matches Err((status, body)) && status == 404 && body.error@
                == "Client "@ + client_id@ + " not found"@,
            Err(e) => r matches Err((status, body)) && status == 500 && body.error == e,
        },
{
    match client_answer(found, client_id) {
        Ok(_) => Ok(200),
        Err(e) => Err(e),
    }
}

// ---------------------------------------------------------------- paging

/// The page size of a listing: 50 unless given, at most 200.
pub open spec fn spec_per_page(per_page: Option<i64>) -> int {
    let p = match per_page {
        Some(p) => p as int,
        None => 50,
    };
    if p < 200 {
        p
    } else {
        200
    }
}

/// The page of a listing: 1 unless given, at least 1.
pub open spec fn spec_page(page: Option<i64>) -> int {
    let p = match page {
        Some(p) => p as int,
        None => 1,
    };
    if p > 1 {
        p
    } else {
        1
    }
}

/// The rows skipped before the page.
pub open spec fn spec_offset(page: Option<i64>, per_page: Option<i64>) -> int {
    (spec_page(page) - 1) * spec_per_page(per_page)
}

/// The limit and offset of a page of recent jobs. The offset must fit in an
/// `i64`.
pub fn page_window(query: &RecentJobsQuery) -> (r: (i64, i64))
    requires
        i64::MIN <= spec_offset(query.page, query.per_page) <= i64::MAX,
    ensures
        r.0 == spec_per_page(query.per_page),
        r.1 == spec_offset(query.page, query.per_page),
{
    let requested = match query.per_page {
        Some(p) => p,
        None => 50,
    };
    let per_page = if requested < 200 {
        requested
    } else {
        200
    };
    let asked = match query.page {
        Some(p) => p,
        None => 1,
    };
    let page = if asked > 1 {
        asked
    } else {
        1
    };
    let offset = (page - 1) * per_page;
    (per_page, offset)
}

/// Pages never hold more than 200 jobs, and with a page size that is not
/// negative, consecutive pages follow each other without gap or overlap.
pub proof fn law_pages_tile(page: i64, per_page: Option<i64>)
    requires
        1 <= page < i64::MAX,
        spec_per_page(per_page) >= 0,
    ensures
        spec_per_page(per_page) <= 200,
        spec_offset(Some(page), per_page) >= 0,
        spec_offset(Some((page + 1) as i64), per_page) == spec_offset(Some(page), per_page)
            + spec_per_page(per_page),
{
    let n = spec_per_page(per_page);
    assert((page - 1) * n >= 0) by (nonlinear_arith)
        requires
            page >= 1,
            n >= 0,
    ;
    assert(page * n == (page - 1) * n + n) by (nonlinear_arith);
}

} // verus!
