//! A repository, as the organization listing reports it.

use vstd::prelude::*;
use crate::json::{Json, JsonV, get_str_field, get_u32_field, str_field, u32_field, views_of};

verus! {

pub struct Repo {
    id: u32,
    name: String,
}

/// The mathematical image of a [`Repo`].
pub struct RepoV {
    pub id: u32,
    pub name: Seq<char>,
}

impl View for Repo {
    type V = RepoV;

    closed spec fn view(&self) -> RepoV {
        RepoV { id: self.id, name: self.name@ }
    }
}

impl Repo {
    pub fn id(&self) -> (r: u32)
        ensures
            r == self@.id,
    {
        self.id
    }

    pub fn name(&self) -> (r: &String)
        ensures
            r@ == self@.name,
    {
        &self.name
    }
}

/// Whether `j` has the JSON shape of a repository record.
pub open spec fn is_repo_json(j: JsonV) -> bool {
    u32_field(j, "id"@) is Some && str_field(j, "name"@) is Some
}

/// How a decoded repository relates to its JSON record.
pub open spec fn repo_matches_json(r: RepoV, j: JsonV) -> bool {
    Some(r.id) == u32_field(j, "id"@) && Some(r.name) == str_field(j, "name"@)
}

/// Decodes a repository record; `None` exactly when the shape is wrong.
pub fn repo_from_json(j: &Json) -> (r: Option<Repo>)
    ensures
        (r matches Some(rp) ==> is_repo_json(j@) && repo_matches_json(rp@, j@)),
        (r is None ==> !is_repo_json(j@)),
{
    let id = match get_u32_field(j, "id") {
        Some(x) => x,
        None => {
            return None;
        },
    };
    let name = match get_str_field(j, "name") {
        Some(s) => s.clone(),
        None => {
            return None;
        },
    };
    Some(Repo { id: id, name: name })
}

/// Whether `j` is a JSON array of repository records.
pub open spec fn is_repo_list_json(j: JsonV) -> bool {
    match j {
        JsonV::Arr(items) => forall|i: int| 0 <= i < items.len() ==> is_repo_json(#[trigger] items[i]),
        _ => false,
    }
}

/// Decodes an array of repository records, in wire order.
pub fn repos_from_json(j: &Json) -> (r: Option<Vec<Repo>>)
    ensures
        (r matches Some(rs) ==> {
            &&& is_repo_list_json(j@)
            &&& rs@.len() == j@->Arr_0.len()
            &&& (forall|i: int|
                0 <= i < rs@.len() ==> repo_matches_json((#[trigger] rs@[i])@, j@->Arr_0[i]))
        }),
        (r is None ==> !is_repo_list_json(j@)),
{
    match j {
        Json::Arr(items) => {
            let ghost gitems = views_of(items@);
            proof {
                assert(crate::json::json_view(*j)->Arr_0 =~= gitems);
                assert(j@ == JsonV::Arr(gitems));
            }
            let mut rs: Vec<Repo> = Vec::new();
            let mut i: usize = 0;
            while i < items.len()
                invariant
                    *j == Json::Arr(*items),
                    gitems == views_of(items@),
                    j@ == JsonV::Arr(gitems),
                    gitems.len() == items@.len(),
                    i <= items@.len(),
                    rs@.len() == i,
                    forall|k: int| 0 <= k < i ==> is_repo_json(#[trigger] gitems[k]),
                    forall|k: int| 0 <= k < i ==> repo_matches_json((#[trigger] rs@[k])@, gitems[k]),
                decreases items@.len() - i,
            {
                proof {
                    assert(gitems[i as int] == crate::json::json_view(items@[i as int]));
                }
                match repo_from_json(&items[i]) {
                    Some(rp) => {
                        rs.push(rp);
                    },
                    None => {
                        proof {
                            assert(0 <= (i as int) && (i as int) < gitems.len());
                            assert(!is_repo_json(gitems[i as int]));
                            if is_repo_list_json(j@) {
                                assert(is_repo_json(j@->Arr_0[i as int]));
                            }
                        }
                        return None;
                    },
                }
                i = i + 1;
            }
            Some(rs)
        },
        _ => None,
    }
}

} // verus!
