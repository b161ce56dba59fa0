//! The container endpoints: which containers a listing shows and what a mode
//! change answers.

use vstd::prelude::*;
use crate::api::models::Container;
use crate::text::owned;

verus! {

broadcast use vstd::string::group_string_axioms;

/// The query of a container listing.
#[derive(Debug, Clone)]
pub struct ListContainersQuery {
    pub show_stopped: Option<bool>,
}

/// The new update mode of a container.
#[derive(Debug, Clone)]
pub struct UpdateContainerRequest {
    pub update_mode: String,
}

/// The body of an error answer.
#[derive(Debug, Clone)]
pub struct ApiError {
    pub error: String,
}

/// Whether a listing shows stopped containers: only when asked.
pub fn include_stopped(query: &ListContainersQuery) -> (r: bool)
    ensures
        r == (query.show_stopped == Some(true)),
{
    match query.show_stopped {
        Some(b) => b,
        None => false,
    }
}

/// The first container named `name`, if any.
pub open spec fn spec_find_container(containers: Seq<Container>, name: Seq<char>) -> Option<Container>
    decreases containers.len(),
{
    if containers.len() == 0 {
        None
    } else if containers[0].container_name@ == name {
        Some(containers[0])
    } else {
        spec_find_container(containers.drop_first(), name)
    }
}

/// Finds the first container named `name`.
pub fn find_container(containers: Vec<Container>, name: &str) -> (r: Option<Container>)
    ensures
        r == spec_find_container(containers@, name@),
{
    let key = owned(name);
    let mut i: usize = 0;
    assert(containers@.skip(0) =~= containers@);
    while i < containers.len()
        invariant
            key@ == name@,
            i <= containers@.len(),
            spec_find_container(containers@.skip(i as int), name@) == spec_find_container(
                containers@,
                name@,
            ),
        decreases containers@.len() - i,
    {
        assert(containers@.skip(i as int)[0] == containers@[i as int]);
        assert(containers@.skip(i as int).drop_first() =~= containers@.skip(i + 1));
        if containers[i].container_name == key {
            return Some(containers[i].copy());
        }
        i = i + 1;
    }
    None
}

/// The text of the answer for a container that does not exist.
pub open spec fn container_not_found_text(name: Seq<char>) -> Seq<char> {
    "Container "@ + name + " not found"@
}

/// Answers `PUT /api/clients/:id/containers/:name` from the client's
/// containers read back after the change: the container, or 404.
pub fn updated_container_answer(containers: Vec<Container>, name: &str) -> (r: Result<Container, (u16, ApiError)>)
    ensures
        match spec_find_container(containers@, name@) {
            Some(c) => r == Ok::<Container, (u16, ApiError)>(c),
            None => r matches Err((status, body)) && status == 404 && body.error@
                == container_not_found_text(name@),
        },
{
    match find_container(containers, name) {
        Some(c) => Ok(c),
        None => {
            let mut text = owned("Container ");
            text.append(name);
            text.append(" not found");
            Err((404, ApiError { error: text }))
        },
    }
}

/// A store failure, answered with 500 and the failure's text.
pub fn internal_error(message: String) -> (r: (u16, ApiError))
    ensures
        r.0 == 500 && r.1.error == message,
{
    (500, ApiError { error: message })
}

/// A container that is found is one named `name`, and every container before
/// it has another name.
pub proof fn law_found_container_is_first_named(containers: Seq<Container>, name: Seq<char>)
    ensures
        spec_find_container(containers, name) matches Some(c) ==> c.container_name@ == name
            && containers.contains(c),
        spec_find_container(containers, name) is None ==> forall|i: int|
            0 <= i < containers.len() ==> containers[i].container_name@ != name,
    decreases containers.len(),
{
    if containers.len() > 0 {
        let rest = containers.drop_first();
        law_found_container_is_first_named(rest, name);
        if containers[0].container_name@ != name {
            if let Some(c) = spec_find_container(rest, name) {
                let k = choose|k: int| 0 <= k < rest.len() && rest[k] == c;
                assert(containers[k + 1] == c);
            }
            assert forall|i: int| 0 <= i < containers.len() && spec_find_container(rest, name) is None
                implies containers[i].container_name@ != name by {
                if i > 0 {
                    assert(containers[i] == rest[i - 1]);
                }
            }
        } else {
            assert(containers[0] == containers[0]);
        }
    }
}

} // verus!
