//! Repository records as the listing returns them.
use vstd::prelude::*;
use crate::text::same_text;

verus! {

/// The access level of a repository.
#[derive(Debug, Clone, Copy, PartialEq, Eq, Structural)]
pub enum Visibility {
    Public,
    Private,
    Internal,
}

/// The name the listing service uses for a visibility.
pub open spec fn visibility_name(v: Visibility) -> Seq<char> {
    match v {
        Visibility::Public => "PUBLIC"@,
        Visibility::Private => "PRIVATE"@,
        Visibility::Internal => "INTERNAL"@,
    }
}

impl Visibility {
    /// The visibility that the service names `s`, if any.
    pub fn from_name(s: &str) -> (r: Option<Visibility>)
        ensures
            r matches Some(v) ==> visibility_name(v) == s@,
            r is None ==> forall|v: Visibility| visibility_name(v) != s@,
    {
        if same_text(s, "PUBLIC") {
            Some(Visibility::Public)
        } else if same_text(s, "PRIVATE") {
            Some(Visibility::Private)
        } else if same_text(s, "INTERNAL") {
            Some(Visibility::Internal)
        } else {
            proof {
                assert forall|v: Visibility| visibility_name(v) != s@ by {
                    match v {
                        Visibility::Public => {},
                        Visibility::Private => {},
                        Visibility::Internal => {},
                    }
                }
            }
            None
        }
    }

    /// The name the service uses for this visibility.
    pub fn name(&self) -> (r: &'static str)
        ensures
            r@ == visibility_name(*self),
    {
        match self {
            Visibility::Public => "PUBLIC",
            Visibility::Private => "PRIVATE",
            Visibility::Internal => "INTERNAL",
        }
    }
}

/// One repository of a listing.
#[derive(Debug, Clone)]
pub struct RepositoryRecord {
    pub name: String,
    pub visibility: Visibility,
    pub description: Option<String>,
}

impl RepositoryRecord {
    pub fn new(name: String, visibility: Visibility, description: Option<String>) -> (r: RepositoryRecord)
        ensures
            r.name == name,
            r.visibility == visibility,
            r.description == description,
    {
        RepositoryRecord { name, visibility, description }
    }
}

} // verus!
