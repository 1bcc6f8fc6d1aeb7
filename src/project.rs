//! The user's project as the server describes it.

use vstd::prelude::*;

use crate::auth::{or_empty, text_or_empty};

verus! {

/// A project and its progress figures.
#[derive(Clone, Debug)]
pub struct ProjectInfo {
    pub id: i32,
    pub name: String,
    pub type_display_name: String,
    pub status_display_name: String,
    pub manager: String,
    pub completion_progress: Option<i32>,
    pub estimated_salt_amount: Option<i32>,
    pub actual_salt_amount: Option<i32>,
}

/// The fields of a project reply, each absent where the reply lacks it.
#[derive(Clone, Debug)]
pub struct ProjectReply {
    pub id: Option<i64>,
    pub name: Option<String>,
    pub type_display_name: Option<String>,
    pub status_display_name: Option<String>,
    pub manager: Option<String>,
    pub completion_progress: Option<i64>,
    pub estimated_salt_amount: Option<i64>,
    pub actual_salt_amount: Option<i64>,
}

/// A 64-bit figure narrowed to 32 bits, as an `as` cast narrows it.
pub open spec fn narrowed(o: Option<i64>) -> Option<i32> {
    match o {
        Some(v) => Some(v as i32),
        None => None,
    }
}

fn narrow(o: Option<i64>) -> (r: Option<i32>)
    ensures
        r == narrowed(o),
{
    match o {
        Some(v) => Some(#[verifier::truncate] (v as i32)),
        None => None,
    }
}

impl ProjectInfo {
    /// The project that a reply describes: absent texts are empty, an absent
    /// id is 0, and the figures are narrowed to 32 bits.
    pub fn from_reply(reply: ProjectReply) -> (r: ProjectInfo)
        ensures
            r.id == (match reply.id {
                Some(v) => v as i32,
                None => 0i32,
            }),
            r.name@ == text_or_empty(reply.name),
            r.type_display_name@ == text_or_empty(reply.type_display_name),
            r.status_display_name@ == text_or_empty(reply.status_display_name),
            r.manager@ == text_or_empty(reply.manager),
            r.completion_progress == narrowed(reply.completion_progress),
            r.estimated_salt_amount == narrowed(reply.estimated_salt_amount),
            r.actual_salt_amount == narrowed(reply.actual_salt_amount),
    {
        let id: i32 = match reply.id {
            Some(v) => #[verifier::truncate] (v as i32),
            None => 0,
        };
        ProjectInfo {
            id,
            name: or_empty(reply.name),
            type_display_name: or_empty(reply.type_display_name),
            status_display_name: or_empty(reply.status_display_name),
            manager: or_empty(reply.manager),
            completion_progress: narrow(reply.completion_progress),
            estimated_salt_amount: narrow(reply.estimated_salt_amount),
            actual_salt_amount: narrow(reply.actual_salt_amount),
        }
    }
}

/// Access to the project of the logged-in user.
pub struct ProjectService {
    api_base_url: String,
    token: String,
}

impl ProjectService {
    pub fn new(api_base_url: String, token: String) -> (r: Self)
        ensures
            r.base_url() == api_base_url@,
            r.session_token() == token@,
    {
        ProjectService { api_base_url, token }
    }

    /// The server's base address.
    pub closed spec fn base_url(&self) -> Seq<char> {
        self.api_base_url@
    }

    /// The access token sent with each request.
    pub closed spec fn session_token(&self) -> Seq<char> {
        self.token@
    }

    /// The address of the user's project.
    pub fn project_url(&self) -> (r: String)
        ensures
            r@ == self.base_url() + "/api/v1/projects/my-project"@,
    {
        self.api_base_url.clone().concat("/api/v1/projects/my-project")
    }

    /// The access token sent with each request.
    pub fn token(&self) -> (r: &str)
        ensures
            r@ == self.session_token(),
    {
        self.token.as_str()
    }
}

} // verus!
