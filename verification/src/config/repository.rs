//! Shared three-part repository identity: forge, owner and repository name.
use vstd::prelude::*;

use crate::proto::RepositoryReference;
use crate::text::{owned, push_all, push_char};

verus! {

/// The forge assumed when none is given.
pub open spec fn spec_default_forge() -> Seq<char> {
    "github.com"@
}

/// The forge assumed when none is given: `github.com`.
pub fn default_forge() -> (r: String)
    ensures
        r@ == spec_default_forge(),
{
    owned("github.com")
}

/// Identity of a repository on a forge.
#[derive(Debug, PartialEq, Eq)]
pub struct RepositoryRef {
    pub forge: String,
    pub owner: String,
    pub repository: String,
}

impl Clone for RepositoryRef {
    fn clone(&self) -> (r: Self)
        ensures
            r == *self,
    {
        RepositoryRef {
            forge: self.forge.clone(),
            owner: self.owner.clone(),
            repository: self.repository.clone(),
        }
    }
}

impl RepositoryRef {
    /// `forge/owner/repository`.
    pub open spec fn spec_display(self) -> Seq<char> {
        self.forge@ + "/"@ + self.owner@ + "/"@ + self.repository@
    }

    /// Renders the identity as `forge/owner/repository`.
    pub fn to_display_string(&self) -> (r: String)
        ensures
            r@ == self.spec_display(),
    {
        let mut r = self.forge.clone();
        push_char(&mut r, '/');
        push_all(&mut r, &self.owner);
        push_char(&mut r, '/');
        push_all(&mut r, &self.repository);
        proof {
            reveal_strlit("/");
            assert(r@ =~= self.spec_display());
        }
        r
    }

    /// The same identity in the service's addressing.
    pub fn to_proto(&self) -> (r: RepositoryReference)
        ensures
            r.forge == self.forge,
            r.owner == self.owner,
            r.repository == self.repository,
    {
        RepositoryReference {
            forge: self.forge.clone(),
            owner: self.owner.clone(),
            repository: self.repository.clone(),
        }
    }
}

} // verus!
