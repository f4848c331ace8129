//! The identifier model: custom entities carry a user-chosen `uid` together
//! with a derived SCREAMING_SNAKE_CASE constant name, stock entities carry
//! the engine's raw code.

use heck::ToShoutySnakeCase;
use vstd::prelude::*;

verus! {

/// The mathematical value of a [`UnitIdentifier`].
pub enum IdView {
    Uid { uid: Seq<char>, constant_name: Seq<char> },
    Raw { rawid: Seq<char> },
}

/// The SCREAMING_SNAKE_CASE form of a string, as heck computes it.
pub uninterp spec fn shouty_snake_of(s: Seq<char>) -> Seq<char>;

/// Relies on heck's `ToShoutySnakeCase::to_shouty_snake_case`: the result is a
/// deterministic, total function of the input characters alone.
#[verifier::external_body]
fn to_shouty_snake(s: &str) -> (r: String)
    ensures
        r@ == shouty_snake_of(s@),
{
    s.to_shouty_snake_case()
}

/// A custom identifier is well formed when its cached constant name really is
/// the derived form of its uid; stock identifiers carry nothing derived.
pub open spec fn id_wf(v: IdView) -> bool {
    v matches IdView::Uid { uid, constant_name } ==> constant_name == shouty_snake_of(uid)
}

/// The textual form an identifier contributes to generated code: the bare
/// constant name for a custom identifier, a single-quoted literal of the raw
/// code for a stock one.
pub open spec fn constant_of(v: IdView) -> Seq<char> {
    match v {
        IdView::Uid { constant_name, .. } => constant_name,
        IdView::Raw { rawid } => seq!['\''] + rawid + seq!['\''],
    }
}

/// An identifier for one game entity: either a user-defined ("custom") entity
/// or a pre-existing ("stock") one.
#[derive(Debug, PartialEq, Eq, Hash)]
pub enum UnitIdentifier {
    UID { uid: String, constant_name: String },
    RawID { rawid: String },
}

impl Clone for UnitIdentifier {
    /// A clone is value-equal to the original.
    fn clone(&self) -> (r: Self)
        ensures
            r@ == self@,
    {
        match self {
            UnitIdentifier::UID { uid, constant_name } => UnitIdentifier::UID {
                uid: uid.clone(),
                constant_name: constant_name.clone(),
            },
            UnitIdentifier::RawID { rawid } => UnitIdentifier::RawID { rawid: rawid.clone() },
        }
    }
}

impl View for UnitIdentifier {
    type V = IdView;

    open spec fn view(&self) -> IdView {
        match self {
            UnitIdentifier::UID { uid, constant_name } => IdView::Uid {
                uid: uid@,
                constant_name: constant_name@,
            },
            UnitIdentifier::RawID { rawid } => IdView::Raw { rawid: rawid@ },
        }
    }
}

impl UnitIdentifier {
    /// Builds a custom identifier, deriving and caching the constant name.
    pub fn new_custom(uid: String) -> (r: UnitIdentifier)
        ensures
            r@ == (IdView::Uid { uid: uid@, constant_name: shouty_snake_of(uid@) }),
            id_wf(r@),
    {
        let constant_name = to_shouty_snake(uid.as_str());
        UnitIdentifier::UID { constant_name, uid }
    }

    /// Builds a stock identifier from the engine's raw code.
    pub fn new_stock(rawid: String) -> (r: UnitIdentifier)
        ensures
            r@ == (IdView::Raw { rawid: rawid@ }),
            id_wf(r@),
    {
        UnitIdentifier::RawID { rawid }
    }

    pub fn is_uid(&self) -> (r: bool)
        ensures
            r == (self@ is Uid),
    {
        if let UnitIdentifier::UID { .. } = self {
            true
        } else {
            false
        }
    }

    pub fn is_rawid(&self) -> (r: bool)
        ensures
            r == (self@ is Raw),
    {
        if let UnitIdentifier::RawID { .. } = self {
            true
        } else {
            false
        }
    }

    /// The user-chosen uid of a custom identifier. Calling this on a stock
    /// identifier is a caller fault, ruled out by the precondition.
    pub fn uid(&self) -> (r: &str)
        requires
            self@ is Uid,
        ensures
            r@ == self@->Uid_uid,
    {
        if let UnitIdentifier::UID { uid, .. } = self {
            uid.as_str()
        } else {
            vstd::pervasive::unreached()
        }
    }

    /// The raw engine code of a stock identifier. Calling this on a custom
    /// identifier is a caller fault, ruled out by the precondition.
    pub fn rawid(&self) -> (r: &str)
        requires
            self@ is Raw,
        ensures
            r@ == self@->Raw_rawid,
    {
        if let UnitIdentifier::RawID { rawid } = self {
            rawid.as_str()
        } else {
            vstd::pervasive::unreached()
        }
    }

    /// The textual form to embed in generated code; never fails.
    pub fn constant(&self) -> (r: String)
        ensures
            r@ == constant_of(self@),
    {
        match self {
            UnitIdentifier::UID { constant_name, .. } => constant_name.clone(),
            UnitIdentifier::RawID { rawid } => {
                let mut r = String::new();
                r.push('\'');
                r.push_str(rawid.as_str());
                r.push('\'');
                proof {
                    assert(r@ =~= seq!['\''] + rawid@ + seq!['\'']);
                }
                r
            },
        }
    }
}

/// The constant name of a well-formed custom identifier is a function of its
/// uid alone: two custom identifiers built from equal uid strings agree on
/// `constant_of`, however and whenever each was constructed.
pub proof fn lemma_constant_deterministic(a: IdView, b: IdView)
    requires
        id_wf(a),
        id_wf(b),
        a is Uid,
        b is Uid,
        a->Uid_uid == b->Uid_uid,
    ensures
        constant_of(a) == constant_of(b),
{
}

} // verus!
