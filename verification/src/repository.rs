//! Repository identities and the locations derived from them.

use vstd::prelude::*;
use vstd::string::*;

verus! {

/// The owner and name of a hosted repository, as taken from a request path.
#[derive(Debug, Clone, PartialEq, Eq)]
pub struct RepositoryIdentity {
    pub owner: String,
    pub name: String,
}

/// What a [`RepositoryIdentity`] denotes.
pub struct RepositoryIdentityView {
    pub owner: Seq<char>,
    pub name: Seq<char>,
}

impl View for RepositoryIdentity {
    type V = RepositoryIdentityView;

    open spec fn view(&self) -> RepositoryIdentityView {
        RepositoryIdentityView { owner: self.owner@, name: self.name@ }
    }
}

/// Address of the hosting platform's metadata record of a repository.
pub open spec fn metadata_url_of(id: RepositoryIdentityView) -> Seq<char> {
    "https://api.github.com/repos/"@ + id.owner + "/"@ + id.name
}

/// Address a repository is fetched from: the public address, or the same address
/// with the credential placed in its authority.
pub open spec fn fetch_url_of(id: RepositoryIdentityView, credential: Option<Seq<char>>) -> Seq<
    char,
> {
    match credential {
        Some(token) => "https://"@ + token + "@github.com/"@ + id.owner + "/"@ + id.name,
        None => "https://github.com/"@ + id.owner + "/"@ + id.name,
    }
}

/// Directory that holds the working copy of a repository while it is analysed.
pub open spec fn workspace_path_of(id: RepositoryIdentityView) -> Seq<char> {
    "./repos/"@ + id.owner + "/"@ + id.name
}

impl RepositoryIdentity {
    /// The repository `name` of `owner`.
    pub fn new(owner: String, name: String) -> (id: Self)
        ensures
            id@ == (RepositoryIdentityView { owner: owner@, name: name@ }),
    {
        RepositoryIdentity { owner, name }
    }

    /// The address of the hosting platform's metadata record of the repository.
    pub fn metadata_url(&self) -> (url: String)
        ensures
            url@ == metadata_url_of(self@),
    {
        let mut url = String::from_str("https://api.github.com/repos/");
        url.append(self.owner.as_str());
        url.append("/");
        url.append(self.name.as_str());
        url
    }

    /// The address the repository is fetched from, with `credential` in its authority
    /// where there is one.
    pub fn fetch_url(&self, credential: Option<&str>) -> (url: String)
        ensures
            url@ == fetch_url_of(
                self@,
                match credential {
                    Some(token) => Some(token@),
                    None => None,
                },
            ),
    {
        let mut url = String::from_str("https://");
        match credential {
            Some(token) => {
                url.append(token);
                url.append("@github.com/");
            },
            None => {
                url.append("github.com/");
                proof {
                    reveal_strlit("https://");
                    reveal_strlit("github.com/");
                    reveal_strlit("https://github.com/");
                    assert("https://"@ + "github.com/"@ == "https://github.com/"@);
                }
            },
        }
        url.append(self.owner.as_str());
        url.append("/");
        url.append(self.name.as_str());
        url
    }

    /// The directory that holds the working copy while the repository is analysed. It
    /// is the same for every request for the same repository.
    pub fn workspace_path(&self) -> (path: String)
        ensures
            path@ == workspace_path_of(self@),
    {
        let mut path = String::from_str("./repos/");
        path.append(self.owner.as_str());
        path.append("/");
        path.append(self.name.as_str());
        path
    }
}

} // verus!
