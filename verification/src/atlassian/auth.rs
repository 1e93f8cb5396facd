//! Credentials.

use vstd::prelude::*;

use crate::text::concat;

verus! {

/// The credentials that go with each request.
#[derive(Debug, PartialEq)]
pub enum AtlassianAuth {
    /// User name and API token, as Atlassian Cloud wants them.
    Basic { username: String, api_token: String },
    /// A personal access token, as Server and Data Center want it.
    Pat { personal_token: String },
}

/// What credentials stand for.
#[verifier::ext_equal]
pub enum AuthView {
    Basic { username: Seq<char>, api_token: Seq<char> },
    Pat { personal_token: Seq<char> },
}

impl View for AtlassianAuth {
    type V = AuthView;

    open spec fn view(&self) -> AuthView {
        match self {
            AtlassianAuth::Basic { username, api_token } => AuthView::Basic {
                username: username@,
                api_token: api_token@,
            },
            AtlassianAuth::Pat { personal_token } => AuthView::Pat {
                personal_token: personal_token@,
            },
        }
    }
}

impl DeepView for AtlassianAuth {
    type V = AuthView;

    open spec fn deep_view(&self) -> AuthView {
        self@
    }
}

impl Clone for AtlassianAuth {
    fn clone(&self) -> (copy: Self)
        ensures
            copy@ == self@,
    {
        match self {
            AtlassianAuth::Basic { username, api_token } => AtlassianAuth::Basic {
                username: username.clone(),
                api_token: api_token.clone(),
            },
            AtlassianAuth::Pat { personal_token } => AtlassianAuth::Pat {
                personal_token: personal_token.clone(),
            },
        }
    }
}

impl AtlassianAuth {
    /// The `Authorization` header of a personal access token. User name and API token
    /// go out as HTTP basic authentication instead.
    pub fn bearer_header(&self) -> (header: Option<String>)
        ensures
            header.deep_view() == (match self@ {
                AuthView::Pat { personal_token } => Some("Bearer "@ + personal_token),
                AuthView::Basic { .. } => None,
            }),
    {
        match self {
            AtlassianAuth::Pat { personal_token } => Some(
                concat("Bearer ", personal_token.as_str()),
            ),
            AtlassianAuth::Basic { .. } => None,
        }
    }
}

} // verus!
