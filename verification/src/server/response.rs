//! The response headers that tell the upstream service who is calling.

use vstd::prelude::*;
use vstd::string::*;
use crate::server::request::{
    PrincipalAssertion,
    PrincipalView,
    ServiceAssertion,
    ServiceView,
    UserAssertion,
    UserView,
};
use crate::text::{decimal, join, join_strings, u64_to_decimal};

verus! {

/// `envoy_types`' `OkHttpResponseBuilder`: it collects what the proxy is to
/// do with a request that may pass. Nothing inside it is visible here.
#[verifier::external_type_specification]
#[verifier::external_body]
pub struct ExOkHttpResponseBuilder(envoy_types::ext_authz::v3::OkHttpResponseBuilder);

/// The headers that a builder holds for the request that goes upstream: the
/// key and the value of each, in the order in which they were added.
pub uninterp spec fn builder_headers(
    builder: envoy_types::ext_authz::v3::OkHttpResponseBuilder,
) -> Seq<(Seq<char>, Seq<char>)>;

/// `OkHttpResponseBuilder::new`: a builder that holds no header yet.
#[verifier::external_body]
pub(crate) fn new_builder() -> (builder: envoy_types::ext_authz::v3::OkHttpResponseBuilder)
    ensures
        builder_headers(builder) == Seq::<(Seq<char>, Seq<char>)>::empty(),
{
    envoy_types::ext_authz::v3::OkHttpResponseBuilder::new()
}

/// `OkHttpResponseBuilder::add_header`, with no append action: the header is
/// put behind those that the builder holds. The builder keeps it whatever
/// `keep_empty_value` says, which is passed on for the proxy to act on.
#[verifier::external_body]
fn add_header(
    builder: &mut envoy_types::ext_authz::v3::OkHttpResponseBuilder,
    key: String,
    value: &str,
    keep_empty_value: bool,
)
    ensures
        builder_headers(*final(builder)) == builder_headers(*old(builder)).push((key@, value@)),
{
    builder.add_header(key, value, None, keep_empty_value);
}

/// The name of the header for an attribute: every name starts with the same
/// prefix, so that none meets a header of another origin.
pub open spec fn header_name(suffix: Seq<char>) -> Seq<char> {
    "X-Cfzt-Extauthz-"@ + suffix
}

/// The name of the header for an attribute.
pub fn get_header_name(suffix: &str) -> (name: String)
    ensures
        name@ == header_name(suffix@),
{
    "X-Cfzt-Extauthz-".to_string().concat(suffix)
}

fn set_header(
    builder: &mut envoy_types::ext_authz::v3::OkHttpResponseBuilder,
    name: &str,
    value: &str,
)
    ensures
        builder_headers(*final(builder)) == builder_headers(*old(builder)).push(
            (header_name(name@), value@),
        ),
{
    add_header(builder, get_header_name(name), value, false);
}

/// The headers for the custom claims of a user, one for each, in their order.
pub open spec fn custom_headers(custom: Seq<(Seq<char>, Seq<char>)>) -> Seq<
    (Seq<char>, Seq<char>),
> {
    Seq::new(custom.len(), |i: int| (header_name("Custom-"@ + custom[i].0), custom[i].1))
}

/// The headers for a user, in the order in which they are sent.
pub open spec fn user_headers(user: UserView) -> Seq<(Seq<char>, Seq<char>)> {
    seq![
        (header_name("Token-Type"@), "User"@),
        (header_name("Audiences"@), join(user.aud, ","@)),
        (header_name("Email"@), user.email),
        (header_name("Expiry"@), decimal(user.exp as nat)),
        (header_name("Issued-At"@), decimal(user.iat as nat)),
        (header_name("Not-Before"@), decimal(user.nbf as nat)),
        (header_name("Issuer"@), user.iss),
        (header_name("Type"@), user.typ),
        (header_name("Nonce"@), user.nonce),
        (header_name("Subject"@), user.sub),
        (header_name("Country"@), user.country),
    ] + custom_headers(user.custom)
}

/// The headers for a service, in the order in which they are sent. The token
/// type is sent as `User` for a service too.
pub open spec fn service_headers(service: ServiceView) -> Seq<(Seq<char>, Seq<char>)> {
    seq![
        (header_name("Token-Type"@), "User"@),
        (header_name("Audiences"@), join(service.aud, ","@)),
        (header_name("Expiry"@), decimal(service.exp as nat)),
        (header_name("Issued-At"@), decimal(service.iat as nat)),
        (header_name("Issuer"@), service.iss),
        (header_name("Type"@), service.typ),
        (header_name("Common-Name"@), service.common_name),
    ]
}

/// The headers for a principal.
pub open spec fn principal_headers(principal: PrincipalView) -> Seq<(Seq<char>, Seq<char>)> {
    match principal {
        PrincipalView::User(user) => user_headers(user),
        PrincipalView::Service(service) => service_headers(service),
    }
}

/// Something that adds its headers to a response.
pub trait ResponseMutator {
    /// The headers that are added, in order.
    spec fn headers(&self) -> Seq<(Seq<char>, Seq<char>)>;

    /// Puts the headers behind those that the builder holds.
    fn mutate_response(&self, builder: &mut envoy_types::ext_authz::v3::OkHttpResponseBuilder)
        ensures
            builder_headers(*final(builder)) == builder_headers(*old(builder)) + self.headers(),
    ;
}

impl ResponseMutator for UserAssertion {
    open spec fn headers(&self) -> Seq<(Seq<char>, Seq<char>)> {
        user_headers(self@)
    }

    fn mutate_response(&self, builder: &mut envoy_types::ext_authz::v3::OkHttpResponseBuilder) {
        let ghost start = builder_headers(*builder);
        set_header(builder, "Token-Type", "User");
        set_header(builder, "Audiences", join_strings(&self.aud, ",").as_str());
        set_header(builder, "Email", self.email.as_str());
        set_header(builder, "Expiry", u64_to_decimal(self.exp).as_str());
        set_header(builder, "Issued-At", u64_to_decimal(self.iat).as_str());
        set_header(builder, "Not-Before", u64_to_decimal(self.nbf).as_str());
        set_header(builder, "Issuer", self.iss.as_str());
        set_header(builder, "Type", self.typ.as_str());
        set_header(builder, "Nonce", self.nonce.as_str());
        set_header(builder, "Subject", self.sub.as_str());
        set_header(builder, "Country", self.country.as_str());
        let ghost custom = custom_headers(self@.custom);
        let ghost fixed = user_headers(self@).take(11);
        assert(builder_headers(*builder) =~= start + fixed);
        assert(custom.take(0) =~= Seq::<(Seq<char>, Seq<char>)>::empty());
        assert(builder_headers(*builder) =~= start + fixed + custom.take(0));
        let mut i: usize = 0;
        while i < self.custom.len()
            invariant
                i <= self.custom.len(),
                custom == custom_headers(self@.custom),
                custom.len() == self.custom@.len(),
                builder_headers(*builder) == start + fixed + custom.take(i as int),
            decreases self.custom.len() - i,
        {
            let name: String = "Custom-".to_string().concat(self.custom[i].0.as_str());
            set_header(builder, name.as_str(), self.custom[i].1.as_str());
            proof {
                assert(custom[i as int] == (header_name(name@), self.custom@[i as int].1@));
                assert(custom.take(i + 1) =~= custom.take(i as int).push(custom[i as int]));
                assert((start + fixed + custom.take(i as int)).push(custom[i as int]) =~= start
                    + fixed + custom.take(i + 1));
            }
            i = i + 1;
        }
        assert(custom.take(custom.len() as int) =~= custom);
        assert(fixed + custom =~= user_headers(self@));
        assert(start + fixed + custom =~= start + user_headers(self@));
    }
}

impl ResponseMutator for ServiceAssertion {
    open spec fn headers(&self) -> Seq<(Seq<char>, Seq<char>)> {
        service_headers(self@)
    }

    fn mutate_response(&self, builder: &mut envoy_types::ext_authz::v3::OkHttpResponseBuilder) {
        let ghost start = builder_headers(*builder);
        set_header(builder, "Token-Type", "User");
        set_header(builder, "Audiences", join_strings(&self.aud, ",").as_str());
        set_header(builder, "Expiry", u64_to_decimal(self.exp).as_str());
        set_header(builder, "Issued-At", u64_to_decimal(self.iat).as_str());
        set_header(builder, "Issuer", self.iss.as_str());
        set_header(builder, "Type", self.typ.as_str());
        set_header(builder, "Common-Name", self.common_name.as_str());
        assert(builder_headers(*builder) =~= start + service_headers(self@));
    }
}

impl ResponseMutator for PrincipalAssertion {
    open spec fn headers(&self) -> Seq<(Seq<char>, Seq<char>)> {
        principal_headers(self@)
    }

    fn mutate_response(&self, builder: &mut envoy_types::ext_authz::v3::OkHttpResponseBuilder) {
        match self {
            PrincipalAssertion::User(assertion) => assertion.mutate_response(builder),
            PrincipalAssertion::Service(assertion) => assertion.mutate_response(builder),
        }
    }
}

/// The headers for a principal depend on the principal alone: two principals
/// that hold the same values get the same headers, with the same names and
/// in the same order, whatever builder either is written to.
pub proof fn lemma_headers_are_reproducible(
    first: PrincipalAssertion,
    second: PrincipalAssertion,
    before_first: envoy_types::ext_authz::v3::OkHttpResponseBuilder,
    after_first: envoy_types::ext_authz::v3::OkHttpResponseBuilder,
    before_second: envoy_types::ext_authz::v3::OkHttpResponseBuilder,
    after_second: envoy_types::ext_authz::v3::OkHttpResponseBuilder,
)
    requires
        first@ == second@,
        builder_headers(after_first) == builder_headers(before_first) + first.headers(),
        builder_headers(after_second) == builder_headers(before_second) + second.headers(),
    ensures
        first.headers() == second.headers(),
        builder_headers(after_first).skip(builder_headers(before_first).len() as int)
            == builder_headers(after_second).skip(builder_headers(before_second).len() as int),
{
    let added = first.headers();
    assert((builder_headers(before_first) + added).skip(
        builder_headers(before_first).len() as int,
    ) =~= added);
    assert((builder_headers(before_second) + added).skip(
        builder_headers(before_second).len() as int,
    ) =~= added);
}

} // verus!
