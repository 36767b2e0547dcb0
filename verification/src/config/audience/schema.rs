//! Audience providers.

use vstd::prelude::*;
use crate::text::{clone_strings, views};

verus! {

/// A source of the audiences that a token must match. A provider may answer
/// anew on every call; whatever it answers is not empty.
pub trait AudienceProvider: Sync + Send {
    fn get_audiences(&self) -> (audiences: Vec<String>)
        ensures
            audiences@.len() > 0,
    ;
}

/// A provider of a list of audiences that is fixed when it is made.
pub struct StaticAudienceProvider {
    audiences: Vec<String>,
}

impl View for StaticAudienceProvider {
    type V = Seq<Seq<char>>;

    closed spec fn view(&self) -> Seq<Seq<char>> {
        views(self.audiences@)
    }
}

impl StaticAudienceProvider {
    #[verifier::type_invariant]
    spec fn is_not_empty(self) -> bool {
        self.audiences@.len() > 0
    }

    /// A provider of the given audiences, in their order.
    pub fn new(audiences: Vec<String>) -> (provider: Self)
        requires
            audiences@.len() > 0,
        ensures
            provider@ == views(audiences@),
    {
        StaticAudienceProvider { audiences }
    }

    /// A provider of one audience.
    pub fn new_single_aud(audience: &str) -> (provider: Self)
        ensures
            provider@ == seq![audience@],
    {
        let mut audiences: Vec<String> = Vec::new();
        audiences.push(audience.to_string());
        assert(views(audiences@) =~= seq![audience@]);
        StaticAudienceProvider { audiences }
    }
}

impl AudienceProvider for StaticAudienceProvider {
    /// The audiences that the provider was made with, in their order.
    fn get_audiences(&self) -> (audiences: Vec<String>)
        ensures
            views(audiences@) == self@,
    {
        proof {
            use_type_invariant(self);
        }
        clone_strings(&self.audiences)
    }
}

} // verus!
