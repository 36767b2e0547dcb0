//! The claims payload of a validated token, reduced to what the principal
//! parser reads of it.

use vstd::prelude::*;

verus! {

/// The shape of one claim value.
pub enum ClaimShape {
    /// A string.
    Text,
    /// A number that is an unsigned 64-bit integer.
    Unsigned(u64),
    /// An array. Each item is given by its string, or by `None` where it is
    /// not a string.
    List(Vec<Option<String>>),
    /// Anything else: null, a boolean, another number, an object.
    Other,
}

/// One claim value: its shape, and the value as text. The text of a string is
/// the string itself; the text of any other value is its JSON form.
pub struct ClaimValue {
    pub shape: ClaimShape,
    pub text: String,
}

/// A named claim.
pub struct Claim {
    pub name: String,
    pub value: ClaimValue,
}

/// What a validator hands over as claims: an object, whose members are kept
/// in the order in which the object lists them, or some other value.
pub enum ClaimsPayload {
    Object(Vec<Claim>),
    NotAnObject,
}

/// The view of a `ClaimShape`.
pub enum ShapeView {
    Text,
    Unsigned(u64),
    List(Seq<Option<Seq<char>>>),
    Other,
}

/// The view of a `ClaimValue`.
pub struct ValueView {
    pub shape: ShapeView,
    pub text: Seq<char>,
}

/// The view of a `Claim`.
pub struct ClaimView {
    pub name: Seq<char>,
    pub value: ValueView,
}

/// The view of a `ClaimsPayload`.
pub enum PayloadView {
    Object(Seq<ClaimView>),
    NotAnObject,
}

/// The views of the items of an array claim.
pub open spec fn item_views(items: Seq<Option<String>>) -> Seq<Option<Seq<char>>> {
    Seq::new(
        items.len(),
        |i: int|
            match items[i] {
                Some(s) => Some(s@),
                None => None,
            },
    )
}

/// The views of the members of a claims object.
pub open spec fn claim_views(claims: Seq<Claim>) -> Seq<ClaimView> {
    Seq::new(claims.len(), |i: int| claims[i]@)
}

impl View for ClaimShape {
    type V = ShapeView;

    open spec fn view(&self) -> ShapeView {
        match *self {
            ClaimShape::Text => ShapeView::Text,
            ClaimShape::Unsigned(n) => ShapeView::Unsigned(n),
            ClaimShape::List(items) => ShapeView::List(item_views(items@)),
            ClaimShape::Other => ShapeView::Other,
        }
    }
}

impl View for ClaimValue {
    type V = ValueView;

    open spec fn view(&self) -> ValueView {
        ValueView { shape: self.shape@, text: self.text@ }
    }
}

impl View for Claim {
    type V = ClaimView;

    open spec fn view(&self) -> ClaimView {
        ClaimView { name: self.name@, value: self.value@ }
    }
}

impl View for ClaimsPayload {
    type V = PayloadView;

    open spec fn view(&self) -> PayloadView {
        match *self {
            ClaimsPayload::Object(claims) => PayloadView::Object(claim_views(claims@)),
            ClaimsPayload::NotAnObject => PayloadView::NotAnObject,
        }
    }
}

/// The value of the first claim called `name`, if there is one.
pub open spec fn lookup(claims: Seq<ClaimView>, name: Seq<char>) -> Option<ValueView>
    decreases claims.len(),
{
    if claims.len() == 0 {
        None
    } else if claims[0].name == name {
        Some(claims[0].value)
    } else {
        lookup(claims.drop_first(), name)
    }
}

/// When no claim among the first `upto` is called `name`, a lookup may start
/// after them.
pub proof fn lemma_lookup_skip(claims: Seq<ClaimView>, name: Seq<char>, upto: int)
    requires
        0 <= upto <= claims.len(),
        forall|j: int| 0 <= j < upto ==> claims[j].name != name,
    ensures
        lookup(claims, name) == lookup(claims.skip(upto), name),
    decreases upto,
{
    if upto == 0 {
        assert(claims.skip(0) =~= claims);
    } else {
        lemma_lookup_skip(claims.drop_first(), name, upto - 1);
        assert(claims.drop_first().skip(upto - 1) =~= claims.skip(upto));
    }
}

/// Finds the value of the first claim called `name`.
pub fn find_claim<'a>(claims: &'a Vec<Claim>, name: &str) -> (found: Option<&'a ClaimValue>)
    ensures
        match found {
            Some(value) => lookup(claim_views(claims@), name@) == Some(value@),
            None => lookup(claim_views(claims@), name@) is None,
        },
{
    let wanted: String = String::from_str(name);
    let mut i: usize = 0;
    while i < claims.len()
        invariant
            i <= claims.len(),
            wanted@ == name@,
            forall|j: int| 0 <= j < i ==> claim_views(claims@)[j].name != name@,
        decreases claims.len() - i,
    {
        if claims[i].name == wanted {
            proof {
                let all = claim_views(claims@);
                lemma_lookup_skip(all, name@, i as int);
                assert(all.skip(i as int)[0] == all[i as int]);
            }
            return Some(&claims[i].value);
        }
        i = i + 1;
    }
    proof {
        let all = claim_views(claims@);
        lemma_lookup_skip(all, name@, all.len() as int);
    }
    None
}

} // verus!
