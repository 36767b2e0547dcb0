//! Principals, and the parser that builds one from a claims payload.

use vstd::prelude::*;
use vstd::string::*;
use crate::server::claims::{
    claim_views,
    find_claim,
    item_views,
    lookup,
    Claim,
    ClaimShape,
    ClaimValue,
    ClaimView,
    ClaimsPayload,
    PayloadView,
    ShapeView,
    ValueView,
};
use crate::server::json::{payload_view, read_claims};
use crate::server::status::Rejection;
use std::collections::HashMap;
use crate::text::views;

verus! {

/// `envoy_types`' `CheckRequest`: what the proxy sends for one request of a
/// client. Nothing inside it is visible here.
#[verifier::external_type_specification]
#[verifier::external_body]
pub struct ExCheckRequest(envoy_types::ext_authz::v3::pb::CheckRequest);

/// The headers of the client's request that a check request holds, each name
/// with its value; `None` where the check request holds no such request.
pub uninterp spec fn request_headers(request: envoy_types::ext_authz::v3::pb::CheckRequest) -> Option<
    Map<Seq<char>, Seq<char>>,
>;

/// What a map of headers holds: each name with its value.
pub uninterp spec fn header_map(headers: HashMap<String, String>) -> Map<Seq<char>, Seq<char>>;

/// `CheckRequestExt::get_client_headers`: the headers of the client's request
/// inside a check request, `None` where the check request has no attributes,
/// no request among them, or no HTTP part in that. They are named
/// `request_headers`.
#[verifier::external_body]
fn client_headers<'a>(request: &'a envoy_types::ext_authz::v3::pb::CheckRequest) -> (headers:
    Option<&'a HashMap<String, String>>)
    ensures
        match headers {
            Some(found) => request_headers(*request) == Some(header_map(*found)),
            None => request_headers(*request) is None,
        },
{
    envoy_types::ext_authz::v3::CheckRequestExt::get_client_headers(request)
}

/// `HashMap::get` with a string for the key: the value under the key that is
/// equal to `name`, `None` where the map has no such key.
#[verifier::external_body]
pub(crate) fn header_value<'a>(headers: &'a HashMap<String, String>, name: &str) -> (value: Option<
    &'a String,
>)
    ensures
        match value {
            Some(found) => header_map(*headers).contains_key(name@) && header_map(*headers)[name@]
                == found@,
            None => !header_map(*headers).contains_key(name@),
        },
{
    headers.get(name)
}

/// The headers of the client's request. A check request without them is
/// turned down: the proxy is set up wrongly.
pub fn get_headers<'a>(req: &'a envoy_types::ext_authz::v3::pb::CheckRequest) -> (headers: Result<
    &'a HashMap<String, String>,
    Rejection,
>)
    ensures
        match headers {
            Ok(found) => request_headers(*req) == Some(header_map(*found)),
            Err(rejection) => request_headers(*req) is None && rejection
                == Rejection::HeadersNotProvided,
        },
{
    match client_headers(req) {
        Some(headers) => Ok(headers),
        None => Err(Rejection::HeadersNotProvided),
    }
}

/// The claims that a principal is built from.
#[derive(Clone, Copy, Debug, PartialEq, Eq, Structural)]
pub enum ClaimName {
    Aud,
    Email,
    Exp,
    Iat,
    Nbf,
    Iss,
    Type,
    IdentityNonce,
    Sub,
    Country,
    CommonName,
}

/// The type that a claim should have had.
#[derive(Clone, Copy, Debug, PartialEq, Eq, Structural)]
pub enum ClaimType {
    Str,
    Int,
    Array,
    ArrayOfStr,
}

/// Why a payload gives no hint of the principal it describes.
#[derive(Clone, Copy, Debug, PartialEq, Eq, Structural)]
pub enum Malformation {
    NotAnObject,
    SubjectMissing,
    SubjectNotText,
}

/// Why a claims payload was turned down.
#[derive(Clone, Copy, Debug, PartialEq, Eq, Structural)]
pub enum ClaimsError {
    /// The payload is no object, or it has no `sub` claim that is a string.
    MalformedClaims(Malformation),
    /// A claim that the principal needs is absent.
    ClaimMissing(ClaimName),
    /// A claim that the principal needs has another type than it should.
    WrongType(ClaimName, ClaimType),
}

impl ClaimName {
    /// The claim's name in the payload.
    pub open spec fn text(self) -> Seq<char> {
        match self {
            ClaimName::Aud => "aud"@,
            ClaimName::Email => "email"@,
            ClaimName::Exp => "exp"@,
            ClaimName::Iat => "iat"@,
            ClaimName::Nbf => "nbf"@,
            ClaimName::Iss => "iss"@,
            ClaimName::Type => "type"@,
            ClaimName::IdentityNonce => "identity_nonce"@,
            ClaimName::Sub => "sub"@,
            ClaimName::Country => "country"@,
            ClaimName::CommonName => "common_name"@,
        }
    }

    /// The claim's name in the payload.
    pub fn as_str(self) -> (name: &'static str)
        ensures
            name@ == self.text(),
    {
        match self {
            ClaimName::Aud => "aud",
            ClaimName::Email => "email",
            ClaimName::Exp => "exp",
            ClaimName::Iat => "iat",
            ClaimName::Nbf => "nbf",
            ClaimName::Iss => "iss",
            ClaimName::Type => "type",
            ClaimName::IdentityNonce => "identity_nonce",
            ClaimName::Sub => "sub",
            ClaimName::Country => "country",
            ClaimName::CommonName => "common_name",
        }
    }
}

impl ClaimType {
    /// The word for the type in an error message.
    pub open spec fn text(self) -> Seq<char> {
        match self {
            ClaimType::Str => "str"@,
            ClaimType::Int => "int"@,
            ClaimType::Array => "array"@,
            ClaimType::ArrayOfStr => "array of str"@,
        }
    }

    /// The word for the type in an error message.
    pub fn as_str(self) -> (word: &'static str)
        ensures
            word@ == self.text(),
    {
        match self {
            ClaimType::Str => "str",
            ClaimType::Int => "int",
            ClaimType::Array => "array",
            ClaimType::ArrayOfStr => "array of str",
        }
    }
}

impl ClaimsError {
    /// The message of the error. One about a claim names it.
    pub open spec fn message_text(self) -> Seq<char> {
        match self {
            ClaimsError::MalformedClaims(Malformation::NotAnObject) => "invalid claims value"@,
            ClaimsError::MalformedClaims(Malformation::SubjectMissing) => "sub claim missing"@,
            ClaimsError::MalformedClaims(Malformation::SubjectNotText) => "sub claim must be str"@,
            ClaimsError::ClaimMissing(claim) => claim.text() + " claim missing"@,
            ClaimsError::WrongType(claim, expected) => claim.text() + " claim should be "@
                + expected.text(),
        }
    }

    /// The message of the error.
    pub fn message(&self) -> (message: String)
        ensures
            message@ == self.message_text(),
    {
        match *self {
            ClaimsError::MalformedClaims(Malformation::NotAnObject) => String::from_str(
                "invalid claims value",
            ),
            ClaimsError::MalformedClaims(Malformation::SubjectMissing) => String::from_str(
                "sub claim missing",
            ),
            ClaimsError::MalformedClaims(Malformation::SubjectNotText) => String::from_str(
                "sub claim must be str",
            ),
            ClaimsError::ClaimMissing(claim) => String::from_str(claim.as_str()).concat(
                " claim missing",
            ),
            ClaimsError::WrongType(claim, expected) => String::from_str(claim.as_str()).concat(
                " claim should be ",
            ).concat(expected.as_str()),
        }
    }
}

/// A human principal.
pub struct UserAssertion {
    pub aud: Vec<String>,
    pub email: String,
    pub exp: u64,
    pub iat: u64,
    pub nbf: u64,
    pub iss: String,
    pub typ: String,
    pub nonce: String,
    pub sub: String,
    pub country: String,
    /// The claims that a user does not need, each with its value as text, in
    /// the order of the payload.
    pub custom: Vec<(String, String)>,
}

/// A service principal.
pub struct ServiceAssertion {
    pub aud: Vec<String>,
    pub exp: u64,
    pub iat: u64,
    pub iss: String,
    pub typ: String,
    pub common_name: String,
}

/// The principal that a token speaks for.
pub enum PrincipalAssertion {
    User(UserAssertion),
    Service(ServiceAssertion),
}

/// The view of a `UserAssertion`.
pub struct UserView {
    pub aud: Seq<Seq<char>>,
    pub email: Seq<char>,
    pub exp: u64,
    pub iat: u64,
    pub nbf: u64,
    pub iss: Seq<char>,
    pub typ: Seq<char>,
    pub nonce: Seq<char>,
    pub sub: Seq<char>,
    pub country: Seq<char>,
    pub custom: Seq<(Seq<char>, Seq<char>)>,
}

/// The view of a `ServiceAssertion`.
pub struct ServiceView {
    pub aud: Seq<Seq<char>>,
    pub exp: u64,
    pub iat: u64,
    pub iss: Seq<char>,
    pub typ: Seq<char>,
    pub common_name: Seq<char>,
}

/// The view of a `PrincipalAssertion`.
pub enum PrincipalView {
    User(UserView),
    Service(ServiceView),
}

/// The views of a list of pairs of strings.
pub open spec fn pair_views(pairs: Seq<(String, String)>) -> Seq<(Seq<char>, Seq<char>)> {
    Seq::new(pairs.len(), |i: int| (pairs[i].0@, pairs[i].1@))
}

impl View for UserAssertion {
    type V = UserView;

    open spec fn view(&self) -> UserView {
        UserView {
            aud: views(self.aud@),
            email: self.email@,
            exp: self.exp,
            iat: self.iat,
            nbf: self.nbf,
            iss: self.iss@,
            typ: self.typ@,
            nonce: self.nonce@,
            sub: self.sub@,
            country: self.country@,
            custom: pair_views(self.custom@),
        }
    }
}

impl View for ServiceAssertion {
    type V = ServiceView;

    open spec fn view(&self) -> ServiceView {
        ServiceView {
            aud: views(self.aud@),
            exp: self.exp,
            iat: self.iat,
            iss: self.iss@,
            typ: self.typ@,
            common_name: self.common_name@,
        }
    }
}

impl View for PrincipalAssertion {
    type V = PrincipalView;

    open spec fn view(&self) -> PrincipalView {
        match *self {
            PrincipalAssertion::User(user) => PrincipalView::User(user@),
            PrincipalAssertion::Service(service) => PrincipalView::Service(service@),
        }
    }
}

/// The value of a claim that must be there.
pub open spec fn required(claims: Seq<ClaimView>, claim: ClaimName) -> Result<
    ValueView,
    ClaimsError,
> {
    match lookup(claims, claim.text()) {
        Some(value) => Ok(value),
        None => Err(ClaimsError::ClaimMissing(claim)),
    }
}

/// The string of a claim that must be there and be a string.
pub open spec fn required_text(claims: Seq<ClaimView>, claim: ClaimName) -> Result<
    Seq<char>,
    ClaimsError,
> {
    match required(claims, claim) {
        Err(error) => Err(error),
        Ok(value) => if value.shape is Text {
            Ok(value.text)
        } else {
            Err(ClaimsError::WrongType(claim, ClaimType::Str))
        },
    }
}

/// The number of a claim that must be there and be an unsigned integer.
pub open spec fn required_unsigned(claims: Seq<ClaimView>, claim: ClaimName) -> Result<
    u64,
    ClaimsError,
> {
    match required(claims, claim) {
        Err(error) => Err(error),
        Ok(value) => match value.shape {
            ShapeView::Unsigned(n) => Ok(n),
            _ => Err(ClaimsError::WrongType(claim, ClaimType::Int)),
        },
    }
}

/// Whether every item of an array is a string.
pub open spec fn all_text(items: Seq<Option<Seq<char>>>) -> bool {
    forall|i: int| 0 <= i < items.len() ==> (#[trigger] items[i]) is Some
}

/// The strings of an array of strings.
pub open spec fn texts(items: Seq<Option<Seq<char>>>) -> Seq<Seq<char>> {
    Seq::new(items.len(), |i: int| items[i]->0)
}

/// The audiences of a payload: its `aud` claim, which must be an array of
/// strings.
pub open spec fn audiences(claims: Seq<ClaimView>) -> Result<Seq<Seq<char>>, ClaimsError> {
    match required(claims, ClaimName::Aud) {
        Err(error) => Err(error),
        Ok(value) => match value.shape {
            ShapeView::List(items) => if all_text(items) {
                Ok(texts(items))
            } else {
                Err(ClaimsError::WrongType(ClaimName::Aud, ClaimType::ArrayOfStr))
            },
            _ => Err(ClaimsError::WrongType(ClaimName::Aud, ClaimType::Array)),
        },
    }
}

/// Whether a parser's answer is the one that `expected` gives.
pub open spec fn answers<T: View, E>(found: Result<T, E>, expected: Result<T::V, E>) -> bool {
    match found {
        Ok(value) => expected == Ok::<T::V, E>(value@),
        Err(error) => expected == Err::<T::V, E>(error),
    }
}

fn get_required_claim<'a>(object: &'a Vec<Claim>, claim: ClaimName) -> (found: Result<
    &'a ClaimValue,
    ClaimsError,
>)
    ensures
        answers(found, required(claim_views(object@), claim)),
{
    match find_claim(object, claim.as_str()) {
        Some(value) => Ok(value),
        None => Err(ClaimsError::ClaimMissing(claim)),
    }
}

fn get_required_str_claim(object: &Vec<Claim>, claim: ClaimName) -> (found: Result<
    String,
    ClaimsError,
>)
    ensures
        answers(found, required_text(claim_views(object@), claim)),
{
    match get_required_claim(object, claim) {
        Err(error) => Err(error),
        Ok(value) => match value.shape {
            ClaimShape::Text => Ok(value.text.clone()),
            _ => Err(ClaimsError::WrongType(claim, ClaimType::Str)),
        },
    }
}

fn get_required_int_claim(object: &Vec<Claim>, claim: ClaimName) -> (found: Result<
    u64,
    ClaimsError,
>)
    ensures
        found == required_unsigned(claim_views(object@), claim),
{
    match get_required_claim(object, claim) {
        Err(error) => Err(error),
        Ok(value) => match value.shape {
            ClaimShape::Unsigned(n) => Ok(n),
            _ => Err(ClaimsError::WrongType(claim, ClaimType::Int)),
        },
    }
}

/// The strings of an array, where all of its items are strings.
fn collect_texts(items: &Vec<Option<String>>) -> (found: Option<Vec<String>>)
    ensures
        match found {
            Some(list) => all_text(item_views(items@)) && views(list@) == texts(
                item_views(items@),
            ),
            None => !all_text(item_views(items@)),
        },
{
    let mut list: Vec<String> = Vec::new();
    let mut i: usize = 0;
    while i < items.len()
        invariant
            i <= items.len(),
            list@.len() == i,
            forall|j: int| 0 <= j < i ==> (#[trigger] item_views(items@)[j]) is Some,
            forall|j: int| 0 <= j < i ==> list@[j]@ == item_views(items@)[j]->0,
        decreases items.len() - i,
    {
        match &items[i] {
            Some(audience) => {
                list.push(audience.clone());
            },
            None => {
                assert(item_views(items@)[i as int] is None);
                return None;
            },
        }
        i = i + 1;
    }
    assert(views(list@) =~= texts(item_views(items@)));
    Some(list)
}

fn collect_audiences(object: &Vec<Claim>) -> (found: Result<Vec<String>, ClaimsError>)
    ensures
        match found {
            Ok(list) => audiences(claim_views(object@)) == Ok::<Seq<Seq<char>>, ClaimsError>(
                views(list@),
            ),
            Err(error) => audiences(claim_views(object@)) == Err::<Seq<Seq<char>>, ClaimsError>(
                error,
            ),
        },
{
    match get_required_claim(object, ClaimName::Aud) {
        Err(error) => Err(error),
        Ok(value) => match &value.shape {
            ClaimShape::List(items) => match collect_texts(items) {
                Some(list) => Ok(list),
                None => Err(ClaimsError::WrongType(ClaimName::Aud, ClaimType::ArrayOfStr)),
            },
            _ => Err(ClaimsError::WrongType(ClaimName::Aud, ClaimType::Array)),
        },
    }
}

/// The names of the claims that a user is built from.
pub open spec fn user_claim_texts() -> Seq<Seq<char>> {
    seq![
        ClaimName::Aud.text(),
        ClaimName::Email.text(),
        ClaimName::Exp.text(),
        ClaimName::Iat.text(),
        ClaimName::Nbf.text(),
        ClaimName::Iss.text(),
        ClaimName::Type.text(),
        ClaimName::IdentityNonce.text(),
        ClaimName::Sub.text(),
        ClaimName::Country.text(),
    ]
}

/// Whether a user is built from the claim called `name`.
pub open spec fn is_user_claim(name: Seq<char>) -> bool {
    user_claim_texts().contains(name)
}

/// The claims of a payload that a user is not built from, each with its value
/// as text, in the order of the payload.
pub open spec fn custom_claims(claims: Seq<ClaimView>) -> Seq<(Seq<char>, Seq<char>)> {
    claims.filter(|claim: ClaimView| !is_user_claim(claim.name)).map_values(
        |claim: ClaimView| (claim.name, claim.value.text),
    )
}

/// What one more claim at the end of a payload adds to its custom claims.
pub proof fn lemma_custom_claims_push(claims: Seq<ClaimView>, claim: ClaimView)
    ensures
        custom_claims(claims.push(claim)) == if is_user_claim(claim.name) {
            custom_claims(claims)
        } else {
            custom_claims(claims).push((claim.name, claim.value.text))
        },
{
    reveal(Seq::filter);
    let keep = |claim: ClaimView| !is_user_claim(claim.name);
    let pair = |claim: ClaimView| (claim.name, claim.value.text);
    let longer = claims.push(claim);
    assert(longer.drop_last() =~= claims);
    assert(longer.last() == claim);
    if is_user_claim(claim.name) {
        assert(longer.filter(keep) == claims.filter(keep));
    } else {
        assert(longer.filter(keep) == claims.filter(keep).push(claim));
        assert(claims.filter(keep).push(claim).map_values(pair) =~= claims.filter(
            keep,
        ).map_values(pair).push(pair(claim)));
    }
}

/// The user that a payload describes.
pub open spec fn parse_user(claims: Seq<ClaimView>) -> Result<UserView, ClaimsError> {
    let aud = audiences(claims);
    let email = required_text(claims, ClaimName::Email);
    let exp = required_unsigned(claims, ClaimName::Exp);
    let iat = required_unsigned(claims, ClaimName::Iat);
    let nbf = required_unsigned(claims, ClaimName::Nbf);
    let iss = required_text(claims, ClaimName::Iss);
    let typ = required_text(claims, ClaimName::Type);
    let nonce = required_text(claims, ClaimName::IdentityNonce);
    let sub = required_text(claims, ClaimName::Sub);
    let country = required_text(claims, ClaimName::Country);
    if aud is Err {
        Err(aud->Err_0)
    } else if email is Err {
        Err(email->Err_0)
    } else if exp is Err {
        Err(exp->Err_0)
    } else if iat is Err {
        Err(iat->Err_0)
    } else if nbf is Err {
        Err(nbf->Err_0)
    } else if iss is Err {
        Err(iss->Err_0)
    } else if typ is Err {
        Err(typ->Err_0)
    } else if nonce is Err {
        Err(nonce->Err_0)
    } else if sub is Err {
        Err(sub->Err_0)
    } else if country is Err {
        Err(country->Err_0)
    } else {
        Ok(
            UserView {
                aud: aud->Ok_0,
                email: email->Ok_0,
                exp: exp->Ok_0,
                iat: iat->Ok_0,
                nbf: nbf->Ok_0,
                iss: iss->Ok_0,
                typ: typ->Ok_0,
                nonce: nonce->Ok_0,
                sub: sub->Ok_0,
                country: country->Ok_0,
                custom: custom_claims(claims),
            },
        )
    }
}

/// The service that a payload describes.
pub open spec fn parse_service(claims: Seq<ClaimView>) -> Result<ServiceView, ClaimsError> {
    let aud = audiences(claims);
    let exp = required_unsigned(claims, ClaimName::Exp);
    let iat = required_unsigned(claims, ClaimName::Iat);
    let iss = required_text(claims, ClaimName::Iss);
    let typ = required_text(claims, ClaimName::Type);
    let common_name = required_text(claims, ClaimName::CommonName);
    if aud is Err {
        Err(aud->Err_0)
    } else if exp is Err {
        Err(exp->Err_0)
    } else if iat is Err {
        Err(iat->Err_0)
    } else if iss is Err {
        Err(iss->Err_0)
    } else if typ is Err {
        Err(typ->Err_0)
    } else if common_name is Err {
        Err(common_name->Err_0)
    } else {
        Ok(
            ServiceView {
                aud: aud->Ok_0,
                exp: exp->Ok_0,
                iat: iat->Ok_0,
                iss: iss->Ok_0,
                typ: typ->Ok_0,
                common_name: common_name->Ok_0,
            },
        )
    }
}

/// The principal that a payload describes. A payload with an empty `sub`
/// describes a service, one with any other `sub` a user.
pub open spec fn parse_claims(payload: PayloadView) -> Result<PrincipalView, ClaimsError> {
    match payload {
        PayloadView::NotAnObject => Err(ClaimsError::MalformedClaims(Malformation::NotAnObject)),
        PayloadView::Object(claims) => match lookup(claims, ClaimName::Sub.text()) {
            None => Err(ClaimsError::MalformedClaims(Malformation::SubjectMissing)),
            Some(subject) => if !(subject.shape is Text) {
                Err(ClaimsError::MalformedClaims(Malformation::SubjectNotText))
            } else if subject.text.len() == 0 {
                match parse_service(claims) {
                    Ok(service) => Ok(PrincipalView::Service(service)),
                    Err(error) => Err(error),
                }
            } else {
                match parse_user(claims) {
                    Ok(user) => Ok(PrincipalView::User(user)),
                    Err(error) => Err(error),
                }
            },
        },
    }
}

fn user_claim_names() -> (names: Vec<String>)
    ensures
        views(names@) == user_claim_texts(),
{
    let mut names: Vec<String> = Vec::new();
    names.push(String::from_str(ClaimName::Aud.as_str()));
    names.push(String::from_str(ClaimName::Email.as_str()));
    names.push(String::from_str(ClaimName::Exp.as_str()));
    names.push(String::from_str(ClaimName::Iat.as_str()));
    names.push(String::from_str(ClaimName::Nbf.as_str()));
    names.push(String::from_str(ClaimName::Iss.as_str()));
    names.push(String::from_str(ClaimName::Type.as_str()));
    names.push(String::from_str(ClaimName::IdentityNonce.as_str()));
    names.push(String::from_str(ClaimName::Sub.as_str()));
    names.push(String::from_str(ClaimName::Country.as_str()));
    assert(views(names@) =~= user_claim_texts());
    names
}

fn contains_text(names: &Vec<String>, name: &String) -> (found: bool)
    ensures
        found == views(names@).contains(name@),
{
    let mut i: usize = 0;
    while i < names.len()
        invariant
            i <= names.len(),
            forall|j: int| 0 <= j < i ==> views(names@)[j] != name@,
        decreases names.len() - i,
    {
        if names[i] == *name {
            assert(views(names@)[i as int] == name@);
            return true;
        }
        i = i + 1;
    }
    false
}

fn get_custom_claims(object: &Vec<Claim>) -> (custom: Vec<(String, String)>)
    ensures
        pair_views(custom@) == custom_claims(claim_views(object@)),
{
    let known: Vec<String> = user_claim_names();
    let mut custom: Vec<(String, String)> = Vec::new();
    let mut i: usize = 0;
    proof {
        reveal(Seq::filter);
        assert(claim_views(object@).take(0) =~= Seq::<ClaimView>::empty());
        assert(pair_views(custom@) =~= custom_claims(claim_views(object@).take(0)));
    }
    while i < object.len()
        invariant
            i <= object.len(),
            views(known@) == user_claim_texts(),
            pair_views(custom@) == custom_claims(claim_views(object@).take(i as int)),
        decreases object.len() - i,
    {
        let claim: &Claim = &object[i];
        proof {
            let all = claim_views(object@);
            assert(all.take(i + 1) =~= all.take(i as int).push(claim@));
            lemma_custom_claims_push(all.take(i as int), claim@);
        }
        if !contains_text(&known, &claim.name) {
            let ghost before = custom@;
            let pair: (String, String) = (claim.name.clone(), claim.value.text.clone());
            custom.push(pair);
            assert(pair_views(custom@) =~= pair_views(before).push(
                (claim@.name, claim@.value.text),
            ));
        }
        i = i + 1;
    }
    assert(claim_views(object@).take(object.len() as int) =~= claim_views(object@));
    custom
}

impl UserAssertion {
    /// Builds the user that the claims describe.
    pub fn from_claims_object(object: &Vec<Claim>) -> (parsed: Result<Self, ClaimsError>)
        ensures
            answers(parsed, parse_user(claim_views(object@))),
    {
        let aud = match collect_audiences(object) {
            Ok(aud) => aud,
            Err(error) => {
                return Err(error);
            },
        };
        let email = match get_required_str_claim(object, ClaimName::Email) {
            Ok(email) => email,
            Err(error) => {
                return Err(error);
            },
        };
        let exp: u64 = match get_required_int_claim(object, ClaimName::Exp) {
            Ok(exp) => exp,
            Err(error) => {
                return Err(error);
            },
        };
        let iat: u64 = match get_required_int_claim(object, ClaimName::Iat) {
            Ok(iat) => iat,
            Err(error) => {
                return Err(error);
            },
        };
        let nbf: u64 = match get_required_int_claim(object, ClaimName::Nbf) {
            Ok(nbf) => nbf,
            Err(error) => {
                return Err(error);
            },
        };
        let iss = match get_required_str_claim(object, ClaimName::Iss) {
            Ok(iss) => iss,
            Err(error) => {
                return Err(error);
            },
        };
        let typ = match get_required_str_claim(object, ClaimName::Type) {
            Ok(typ) => typ,
            Err(error) => {
                return Err(error);
            },
        };
        let nonce = match get_required_str_claim(object, ClaimName::IdentityNonce) {
            Ok(nonce) => nonce,
            Err(error) => {
                return Err(error);
            },
        };
        let sub = match get_required_str_claim(object, ClaimName::Sub) {
            Ok(sub) => sub,
            Err(error) => {
                return Err(error);
            },
        };
        let country = match get_required_str_claim(object, ClaimName::Country) {
            Ok(country) => country,
            Err(error) => {
                return Err(error);
            },
        };
        let custom = get_custom_claims(object);
        Ok(UserAssertion { aud, email, exp, iat, nbf, iss, typ, nonce, sub, country, custom })
    }
}

impl ServiceAssertion {
    /// Builds the service that the claims describe.
    pub fn from_claims_object(object: &Vec<Claim>) -> (parsed: Result<Self, ClaimsError>)
        ensures
            answers(parsed, parse_service(claim_views(object@))),
    {
        let aud = match collect_audiences(object) {
            Ok(aud) => aud,
            Err(error) => {
                return Err(error);
            },
        };
        let exp: u64 = match get_required_int_claim(object, ClaimName::Exp) {
            Ok(exp) => exp,
            Err(error) => {
                return Err(error);
            },
        };
        let iat: u64 = match get_required_int_claim(object, ClaimName::Iat) {
            Ok(iat) => iat,
            Err(error) => {
                return Err(error);
            },
        };
        let iss = match get_required_str_claim(object, ClaimName::Iss) {
            Ok(iss) => iss,
            Err(error) => {
                return Err(error);
            },
        };
        let typ = match get_required_str_claim(object, ClaimName::Type) {
            Ok(typ) => typ,
            Err(error) => {
                return Err(error);
            },
        };
        let common_name = match get_required_str_claim(object, ClaimName::CommonName) {
            Ok(common_name) => common_name,
            Err(error) => {
                return Err(error);
            },
        };
        Ok(ServiceAssertion { aud, exp, iat, iss, typ, common_name })
    }
}

impl PrincipalAssertion {
    /// Builds the principal that the claims of a validated token describe:
    /// the value is read as a claims payload, and the payload is parsed.
    pub fn from_claims_value(val: &serde_json::Value) -> (parsed: Result<Self, ClaimsError>)
        ensures
            answers(parsed, parse_claims(payload_view(*val))),
    {
        let payload = read_claims(val);
        PrincipalAssertion::from_claims(&payload)
    }

    /// Builds the principal that a claims payload describes, or says why the
    /// payload describes none. Nothing is built from a payload that lacks a
    /// claim of its principal, or holds one of another type.
    pub fn from_claims(payload: &ClaimsPayload) -> (parsed: Result<Self, ClaimsError>)
        ensures
            answers(parsed, parse_claims(payload@)),
    {
        let object = match payload {
            ClaimsPayload::NotAnObject => {
                return Err(ClaimsError::MalformedClaims(Malformation::NotAnObject));
            },
            ClaimsPayload::Object(object) => object,
        };
        let subject = match find_claim(object, ClaimName::Sub.as_str()) {
            None => {
                return Err(ClaimsError::MalformedClaims(Malformation::SubjectMissing));
            },
            Some(subject) => subject,
        };
        match subject.shape {
            ClaimShape::Text => {},
            _ => {
                return Err(ClaimsError::MalformedClaims(Malformation::SubjectNotText));
            },
        }
        if subject.text.as_str().is_empty() {
            match ServiceAssertion::from_claims_object(object) {
                Ok(service) => Ok(PrincipalAssertion::Service(service)),
                Err(error) => Err(error),
            }
        } else {
            match UserAssertion::from_claims_object(object) {
                Ok(user) => Ok(PrincipalAssertion::User(user)),
                Err(error) => Err(error),
            }
        }
    }
}

/// The claims that a user is built from, in the order in which they are read.
pub open spec fn user_claims() -> Seq<ClaimName> {
    seq![
        ClaimName::Aud,
        ClaimName::Email,
        ClaimName::Exp,
        ClaimName::Iat,
        ClaimName::Nbf,
        ClaimName::Iss,
        ClaimName::Type,
        ClaimName::IdentityNonce,
        ClaimName::Sub,
        ClaimName::Country,
    ]
}

/// The claims that a service is built from, in the order in which they are
/// read.
pub open spec fn service_claims() -> Seq<ClaimName> {
    seq![
        ClaimName::Aud,
        ClaimName::Exp,
        ClaimName::Iat,
        ClaimName::Iss,
        ClaimName::Type,
        ClaimName::CommonName,
    ]
}

/// Whether the payload holds the claim, with the type that a principal needs
/// of it: an array of strings for `aud`, an unsigned integer for `exp`, `iat`
/// and `nbf`, a string for the others.
pub open spec fn well_typed(claims: Seq<ClaimView>, claim: ClaimName) -> bool {
    match lookup(claims, claim.text()) {
        None => false,
        Some(value) => match claim {
            ClaimName::Aud => value.shape matches ShapeView::List(items) && all_text(items),
            ClaimName::Exp | ClaimName::Iat | ClaimName::Nbf => value.shape is Unsigned,
            _ => value.shape is Text,
        },
    }
}

/// The text of the claim's value, where the payload holds the claim.
pub open spec fn text_of(claims: Seq<ClaimView>, claim: ClaimName) -> Seq<char> {
    lookup(claims, claim.text())->0.text
}

/// The number that is the claim's value, where the payload holds such a claim.
pub open spec fn unsigned_of(claims: Seq<ClaimView>, claim: ClaimName) -> u64 {
    lookup(claims, claim.text())->0.shape->Unsigned_0
}

/// The strings of the claim's value, where it is an array of strings.
pub open spec fn texts_of(claims: Seq<ClaimView>, claim: ClaimName) -> Seq<Seq<char>> {
    texts(lookup(claims, claim.text())->0.shape->List_0)
}

/// Whether the payload's `sub` is a string, and whether that string is empty.
pub open spec fn subject_is(claims: Seq<ClaimView>, empty: bool) -> bool {
    lookup(claims, ClaimName::Sub.text()) matches Some(subject) && subject.shape is Text && (
    subject.text.len() == 0) == empty
}

/// Whether `pair` is the name and the text of a claim of the payload that a
/// user is not built from.
pub open spec fn kept_from(claims: Seq<ClaimView>, pair: (Seq<char>, Seq<char>)) -> bool {
    exists|i: int|
        0 <= i < claims.len() && !is_user_claim((#[trigger] claims[i]).name) && pair == (
            claims[i].name,
            claims[i].value.text,
        )
}

/// The custom claims of a payload are the claims that a user is not built
/// from: each of those is among them under its own name with its value as
/// text, and nothing else is.
pub proof fn lemma_custom_claims_members(claims: Seq<ClaimView>)
    ensures
        forall|i: int|
            0 <= i < claims.len() && !is_user_claim((#[trigger] claims[i]).name)
                ==> custom_claims(claims).contains((claims[i].name, claims[i].value.text)),
        forall|j: int|
            0 <= j < custom_claims(claims).len() ==> kept_from(
                claims,
                #[trigger] custom_claims(claims)[j],
            ),
    decreases claims.len(),
{
    if claims.len() == 0 {
        reveal(Seq::filter);
        assert(custom_claims(claims).len() == 0);
    } else {
        let front = claims.drop_last();
        let last = claims.last();
        lemma_custom_claims_members(front);
        lemma_custom_claims_push(front, last);
        assert(front.push(last) =~= claims);
        let custom = custom_claims(claims);
        let shorter = custom_claims(front);
        assert forall|i: int|
            0 <= i < claims.len() && !is_user_claim((#[trigger] claims[i]).name) implies custom.contains(
            (claims[i].name, claims[i].value.text),
        ) by {
            let pair = (claims[i].name, claims[i].value.text);
            if i < front.len() {
                assert(front[i] == claims[i]);
                assert(shorter.contains(pair));
                let j = choose|j: int| 0 <= j < shorter.len() && shorter[j] == pair;
                assert(custom[j] == pair);
            } else {
                assert(custom[custom.len() - 1] == pair);
            }
        }
        assert forall|j: int| 0 <= j < custom.len() implies kept_from(
            claims,
            #[trigger] custom[j],
        ) by {
            if j < shorter.len() {
                assert(custom[j] == shorter[j]);
                assert(kept_from(front, shorter[j]));
                let i = choose|i: int|
                    0 <= i < front.len() && !is_user_claim((#[trigger] front[i]).name)
                        && shorter[j] == (front[i].name, front[i].value.text);
                assert(claims[i] == front[i]);
            } else {
                assert(claims[claims.len() - 1] == last);
            }
        }
    }
}

/// Where no two claims of a payload share a name, no two of its custom claims
/// do: they map names to texts.
pub proof fn lemma_custom_claims_are_a_mapping(claims: Seq<ClaimView>)
    requires
        forall|i: int, j: int|
            0 <= i < j < claims.len() ==> (#[trigger] claims[i]).name != (#[trigger] claims[j]).name,
    ensures
        forall|i: int, j: int|
            0 <= i < j < custom_claims(claims).len() ==> (#[trigger] custom_claims(claims)[i]).0 != (
            #[trigger] custom_claims(claims)[j]).0,
    decreases claims.len(),
{
    if claims.len() == 0 {
        reveal(Seq::filter);
        assert(custom_claims(claims).len() == 0);
    } else {
        let front = claims.drop_last();
        let last = claims.last();
        assert forall|i: int, j: int| 0 <= i < j < front.len() implies (#[trigger] front[i]).name != (
        #[trigger] front[j]).name by {
            assert(front[i] == claims[i] && front[j] == claims[j]);
        }
        lemma_custom_claims_are_a_mapping(front);
        lemma_custom_claims_members(front);
        lemma_custom_claims_push(front, last);
        assert(front.push(last) =~= claims);
        let custom = custom_claims(claims);
        let shorter = custom_claims(front);
        assert forall|i: int, j: int| 0 <= i < j < custom.len() implies (#[trigger] custom[i]).0 != (
        #[trigger] custom[j]).0 by {
            if j < shorter.len() {
                assert(custom[i] == shorter[i] && custom[j] == shorter[j]);
            } else {
                assert(custom[i] == shorter[i]);
                assert(kept_from(front, shorter[i]));
                let k = choose|k: int|
                    0 <= k < front.len() && !is_user_claim((#[trigger] front[k]).name)
                        && shorter[i] == (front[k].name, front[k].value.text);
                assert(front[k] == claims[k]);
                assert(claims[k].name != claims[claims.len() - 1].name);
            }
        }
    }
}

/// A payload with a non-empty `sub` that holds every claim of a user with its
/// type is parsed into a user. The user holds the values of exactly those
/// claims, none replaced by a default, and every other claim of the payload
/// is kept among its custom claims, under its own name and as text.
pub proof fn lemma_valid_user_claims_give_that_user(claims: Seq<ClaimView>)
    requires
        subject_is(claims, false),
        forall|i: int| 0 <= i < user_claims().len() ==> well_typed(claims, #[trigger] user_claims()[i]),
    ensures
        parse_claims(PayloadView::Object(claims)) == Ok::<PrincipalView, ClaimsError>(
            PrincipalView::User(
                UserView {
                    aud: texts_of(claims, ClaimName::Aud),
                    email: text_of(claims, ClaimName::Email),
                    exp: unsigned_of(claims, ClaimName::Exp),
                    iat: unsigned_of(claims, ClaimName::Iat),
                    nbf: unsigned_of(claims, ClaimName::Nbf),
                    iss: text_of(claims, ClaimName::Iss),
                    typ: text_of(claims, ClaimName::Type),
                    nonce: text_of(claims, ClaimName::IdentityNonce),
                    sub: text_of(claims, ClaimName::Sub),
                    country: text_of(claims, ClaimName::Country),
                    custom: custom_claims(claims),
                },
            ),
        ),
        forall|i: int|
            0 <= i < claims.len() && !is_user_claim((#[trigger] claims[i]).name)
                ==> custom_claims(claims).contains((claims[i].name, claims[i].value.text)),
{
    let names = user_claims();
    assert(well_typed(claims, names[0]));
    assert(well_typed(claims, names[1]));
    assert(well_typed(claims, names[2]));
    assert(well_typed(claims, names[3]));
    assert(well_typed(claims, names[4]));
    assert(well_typed(claims, names[5]));
    assert(well_typed(claims, names[6]));
    assert(well_typed(claims, names[7]));
    assert(well_typed(claims, names[8]));
    assert(well_typed(claims, names[9]));
    lemma_custom_claims_members(claims);
}

/// A payload whose `sub` is the empty string is never parsed into a user: it
/// gives the service that its claims describe, or the error of that service.
pub proof fn lemma_empty_subject_is_no_user(claims: Seq<ClaimView>)
    requires
        subject_is(claims, true),
    ensures
        !(parse_claims(PayloadView::Object(claims)) matches Ok(PrincipalView::User(_))),
        parse_claims(PayloadView::Object(claims)) == match parse_service(claims) {
            Ok(service) => Ok::<PrincipalView, ClaimsError>(PrincipalView::Service(service)),
            Err(error) => Err::<PrincipalView, ClaimsError>(error),
        },
{
}

/// A payload that lacks a claim of the principal that its `sub` selects is
/// turned down, whatever else it holds.
pub proof fn lemma_missing_claim_fails(claims: Seq<ClaimView>, missing: ClaimName)
    requires
        lookup(claims, missing.text()) is None,
        subject_is(claims, false) && user_claims().contains(missing) || subject_is(claims, true)
            && service_claims().contains(missing),
    ensures
        parse_claims(PayloadView::Object(claims)) is Err,
{
    if subject_is(claims, false) {
        let i = choose|i: int| 0 <= i < user_claims().len() && user_claims()[i] == missing;
    } else {
        let i = choose|i: int| 0 <= i < service_claims().len() && service_claims()[i] == missing;
    }
}

/// A payload for a user that lacks one claim of a user, and holds the others
/// with their types, is turned down with the error that names the missing
/// claim.
pub proof fn lemma_missing_user_claim_is_named(claims: Seq<ClaimView>, missing: ClaimName)
    requires
        subject_is(claims, false),
        user_claims().contains(missing),
        lookup(claims, missing.text()) is None,
        forall|i: int|
            0 <= i < user_claims().len() && user_claims()[i] != missing ==> well_typed(
                claims,
                #[trigger] user_claims()[i],
            ),
    ensures
        parse_claims(PayloadView::Object(claims)) == Err::<PrincipalView, ClaimsError>(
            ClaimsError::ClaimMissing(missing),
        ),
{
    let names = user_claims();
    let at = choose|i: int| 0 <= i < names.len() && names[i] == missing;
    assert(names[0] != missing ==> well_typed(claims, names[0]));
    assert(names[1] != missing ==> well_typed(claims, names[1]));
    assert(names[2] != missing ==> well_typed(claims, names[2]));
    assert(names[3] != missing ==> well_typed(claims, names[3]));
    assert(names[4] != missing ==> well_typed(claims, names[4]));
    assert(names[5] != missing ==> well_typed(claims, names[5]));
    assert(names[6] != missing ==> well_typed(claims, names[6]));
    assert(names[7] != missing ==> well_typed(claims, names[7]));
    assert(names[8] != missing ==> well_typed(claims, names[8]));
    assert(names[9] != missing ==> well_typed(claims, names[9]));
}

/// A payload for a service that lacks one claim of a service, and holds the
/// others with their types, is turned down with the error that names the
/// missing claim.
pub proof fn lemma_missing_service_claim_is_named(claims: Seq<ClaimView>, missing: ClaimName)
    requires
        subject_is(claims, true),
        service_claims().contains(missing),
        lookup(claims, missing.text()) is None,
        forall|i: int|
            0 <= i < service_claims().len() && service_claims()[i] != missing ==> well_typed(
                claims,
                #[trigger] service_claims()[i],
            ),
    ensures
        parse_claims(PayloadView::Object(claims)) == Err::<PrincipalView, ClaimsError>(
            ClaimsError::ClaimMissing(missing),
        ),
{
    let names = service_claims();
    let at = choose|i: int| 0 <= i < names.len() && names[i] == missing;
    assert(names[0] != missing ==> well_typed(claims, names[0]));
    assert(names[1] != missing ==> well_typed(claims, names[1]));
    assert(names[2] != missing ==> well_typed(claims, names[2]));
    assert(names[3] != missing ==> well_typed(claims, names[3]));
    assert(names[4] != missing ==> well_typed(claims, names[4]));
    assert(names[5] != missing ==> well_typed(claims, names[5]));
}

} // verus!
