//! How a page type describes itself: its identity, its place in the
//! document's structure, and what it is paired with.
//!
//! A document is described by types, one for each kind of page. Each
//! implements [`Object`]; the marker traits say more about its role.

use crate::cache::{cache_entries, entry_at, is_grown, ObjectCache};
use crate::instances::ConcretePageType;
use crate::text::str_eq;
use std::sync::Arc;
use vstd::prelude::*;

verus! {

/// The identity of a page type: a number that no two page types of one
/// document share, and the type's name for messages.
#[derive(Debug, Clone, Copy, PartialEq, Eq)]
pub struct TypeInformation {
    pub id: u64,
    pub ident: &'static str,
}

/// Where a paired object stands relative to its partner in the order of
/// pages.
#[derive(Debug, Clone, Copy, PartialEq, Eq, Structural)]
pub enum PairSequence {
    /// The page before its partner.
    First,
    /// The page after its partner.
    Last,
    /// Not part of a pair.
    Unpaired,
}

impl PairSequence {
    /// The place of the partner: the other end of the pair.
    pub open spec fn partner(self) -> PairSequence {
        match self {
            PairSequence::First => PairSequence::Last,
            PairSequence::Last => PairSequence::First,
            PairSequence::Unpaired => PairSequence::Unpaired,
        }
    }

    /// The place of the partner: the other end of the pair.
    pub fn opposite(self) -> (other: PairSequence)
        ensures
            other == self.partner(),
    {
        match self {
            PairSequence::First => PairSequence::Last,
            PairSequence::Last => PairSequence::First,
            PairSequence::Unpaired => PairSequence::Unpaired,
        }
    }
}

/// How a page of some type is found.
#[derive(Debug, Clone, Copy, PartialEq, Eq, Structural)]
pub enum ObjectType {
    /// The page can be inferred from the pages around it.
    Inferred,
    /// The page has to be classified by what is on it.
    Key,
    /// The document itself.
    Root,
}

/// A rule by which pages are inferred.
#[derive(Debug, Clone, Copy, PartialEq, Eq)]
pub enum Pattern {
    /// Pages of the type `first` are followed by pages of the type `second`.
    Pair { first: TypeInformation, second: TypeInformation },
}

impl TypeInformation {
    /// Two identities agree: the number is the same and the name reads the
    /// same.
    pub open spec fn agrees(self, other: TypeInformation) -> bool {
        self.id == other.id && self.ident@ == other.ident@
    }

    /// Whether two identities agree.
    pub fn same_as(&self, other: &TypeInformation) -> (same: bool)
        ensures
            same == self.agrees(*other),
    {
        self.id == other.id && str_eq(self.ident, other.ident)
    }
}

impl Pattern {
    /// Two rules agree: they are about types whose identities agree.
    pub open spec fn agrees(self, other: Pattern) -> bool {
        match (self, other) {
            (
                Pattern::Pair { first: a, second: b },
                Pattern::Pair { first: c, second: d },
            ) => a.agrees(c) && b.agrees(d),
        }
    }

    /// Whether two rules agree.
    pub fn same_as(&self, other: &Pattern) -> (same: bool)
        ensures
            same == self.agrees(*other),
    {
        match (self, other) {
            (
                Pattern::Pair { first: a, second: b },
                Pattern::Pair { first: c, second: d },
            ) => a.same_as(c) && b.same_as(d),
        }
    }

    /// The rule that pages of `T` are followed by pages of `U`.
    pub fn from_pair<T, U>() -> (pattern: Pattern) where T: PairWith<U>, U: PairWith<T>
        ensures
            pattern == rule_of::<T, U>(),
    {
        Pattern::Pair { first: T::type_info(), second: U::type_info() }
    }

    /// Whether the rule is about the types with the numbers `first` and
    /// `second`, in this order.
    pub open spec fn is_about(self, first: u64, second: u64) -> bool {
        self matches Pattern::Pair { first: a, second: b } && a.id == first && b.id == second
    }

    /// Whether the rule is about pages of `T` followed by pages of `U`. The
    /// types are told apart by their numbers.
    pub fn matches_types<T, U>(&self) -> (matches: bool) where T: Object, U: Object
        ensures
            matches == is_rule_of::<T, U>(*self),
    {
        let first = T::type_info();
        let second = U::type_info();
        self.concerns(first.id, second.id)
    }

    /// Whether the rule is about the types with the numbers `first` and
    /// `second`, in this order.
    pub fn concerns(&self, first: u64, second: u64) -> (matches: bool)
        ensures
            matches == self.is_about(first, second),
    {
        match self {
            Pattern::Pair { first: a, second: b } => a.id == first && b.id == second,
        }
    }
}

/// Two lists of rules agree: they are as long as each other, and each rule
/// agrees with the one at its place in the other list.
pub open spec fn patterns_agree(ours: Seq<Pattern>, theirs: Seq<Pattern>) -> bool {
    &&& ours.len() == theirs.len()
    &&& forall|i: int| 0 <= i < ours.len() ==> (#[trigger] ours[i]).agrees(theirs[i])
}

/// Whether two lists of rules agree.
pub fn same_patterns(ours: &Vec<Pattern>, theirs: &Vec<Pattern>) -> (same: bool)
    ensures
        same == patterns_agree(ours@, theirs@),
{
    if ours.len() != theirs.len() {
        return false;
    }
    let mut i: usize = 0;
    while i < ours.len()
        invariant
            i <= ours.len(),
            ours.len() == theirs.len(),
            forall|k: int| 0 <= k < i ==> (#[trigger] ours@[k]).agrees(theirs@[k]),
        decreases ours.len() - i,
    {
        if !ours[i].same_as(&theirs[i]) {
            return false;
        }
        i += 1;
    }
    true
}

/// Whether `T` and `U` name rules that agree, as the two halves of a pair
/// have to.
pub fn can_pair<T, U>() -> (agree: bool) where T: PairWith<U>, U: PairWith<T>
    ensures
        agree == patterns_agree(
            <T as PairWith<U>>::pair_patterns(),
            <U as PairWith<T>>::pair_patterns(),
        ),
{
    let ours = T::patterns();
    let theirs = U::patterns();
    same_patterns(&ours, &theirs)
}

/// A type that stands for a kind of page of a document.
///
/// The functions say what the type is. They take nothing, and each gives the
/// same answer every time: the answer that the specification function beside
/// it names. An impl that is verified says what that answer is and proves
/// that its function gives it; of an impl that is not, the library takes it
/// on trust that each function always answers the same.
pub trait Object: Sized {
    /// The identity of the type.
    open spec fn type_information() -> TypeInformation {
        arbitrary()
    }

    /// The types whose pages may be children of a page of this type,
    /// metadata first.
    open spec fn child_types() -> Seq<TypeInformation> {
        arbitrary()
    }

    /// The type whose pages are parents of a page of this type, if there is
    /// one.
    open spec fn parent_type() -> Option<TypeInformation> {
        arbitrary()
    }

    /// How a page of this type is found.
    open spec fn kind() -> ObjectType {
        arbitrary()
    }

    /// The identity of the type.
    fn type_info() -> (info: TypeInformation)
        ensures
            info == Self::type_information(),
    ;

    /// The types whose pages may be children of a page of this type,
    /// metadata first.
    fn children() -> (children: Vec<TypeInformation>)
        ensures
            children@ == Self::child_types(),
    ;

    /// The type whose pages are parents of a page of this type, if there is
    /// one.
    fn parent() -> (parent: Option<TypeInformation>)
        ensures
            parent == Self::parent_type(),
    ;

    /// How a page of this type is found.
    fn object_type() -> (kind: ObjectType)
        ensures
            kind == Self::kind(),
    ;

    /// The page type of the parent, from the cache: a type that has a parent
    /// type sees to it that the cache holds the parent's page type under the
    /// parent's number, building it if need be, and returns it; a type
    /// without a parent type returns nothing and leaves the cache alone. The
    /// cache only grows.
    ///
    /// A type with the parent type `P` does this with
    /// `ConcreteObject::from_obj_with_cache::<P>(cache)`.
    fn parent_page(cache: &mut ObjectCache) -> (parent: Option<Arc<ConcretePageType>>)
        ensures
            is_grown(cache_entries(*old(cache)), cache_entries(*final(cache))),
            parent == parent_in(cache_entries(*final(cache)), Self::parent_type()),
            parent is Some <==> Self::parent_type() is Some,
    ;
}

/// What `entries` holds for the parent type `parent`, if a parent type is
/// named and `entries` holds something under its number.
pub open spec fn parent_in(
    entries: Map<u64, Arc<ConcretePageType>>,
    parent: Option<TypeInformation>,
) -> Option<Arc<ConcretePageType>> {
    match parent {
        Some(info) => entry_at(entries, info.id),
        None => None,
    }
}

/// A page of `Self` stands directly before or after a page of `T`.
pub trait PairWith<T: Object>: Object {
    /// On which side of `T` a page of `Self` stands.
    open spec fn pair_sequence() -> PairSequence {
        arbitrary()
    }

    /// The rules that the pair takes part in.
    open spec fn pair_patterns() -> Seq<Pattern> {
        arbitrary()
    }

    /// On which side of `T` a page of `Self` stands.
    fn sequence() -> (sequence: PairSequence)
        ensures
            sequence == Self::pair_sequence(),
    ;

    /// The rules that the pair takes part in.
    fn patterns() -> (patterns: Vec<Pattern>)
        ensures
            patterns@ == Self::pair_patterns(),
    ;
}

/// The rule that pages of `T` are followed by pages of `U`.
pub open spec fn rule_of<T: Object, U: Object>() -> Pattern {
    Pattern::Pair { first: T::type_information(), second: U::type_information() }
}

/// Whether the rule `pattern` is about pages of `T` followed by pages of
/// `U`. Types are told apart by their numbers.
pub open spec fn is_rule_of<T: Object, U: Object>(pattern: Pattern) -> bool {
    pattern.is_about(T::type_information().id, U::type_information().id)
}

/// A rule is about the types it was made from, in their order: the rule for
/// `T` followed by `U` is a rule of `T` and `U`, and unless the two types have
/// the same number, it is not a rule of `U` and `T`.
pub proof fn lemma_rule_is_about_its_types<T: Object, U: Object>()
    ensures
        is_rule_of::<T, U>(rule_of::<T, U>()),
        T::type_information().id != U::type_information().id ==> !is_rule_of::<U, T>(
            rule_of::<T, U>(),
        ),
{
}

/// A page type that cannot be inferred: its pages are classified by what is
/// on them.
pub trait KeyPage: Object {

}

/// A page type whose pages can be inferred from the pages around them.
pub trait InferredPage: Object {

}

/// The type that stands for the document itself.
pub trait Root {

}

/// A page type whose pages have children.
pub trait Parent: Object {

}

/// A page type whose pages have a parent.
pub trait Child: Object {

}

/// The identity of `()`, which stands for "no type".
pub open spec fn unit_type() -> TypeInformation {
    TypeInformation { id: 0, ident: "()" }
}

impl Object for () {
    open spec fn type_information() -> TypeInformation {
        unit_type()
    }

    open spec fn child_types() -> Seq<TypeInformation> {
        Seq::empty()
    }

    open spec fn parent_type() -> Option<TypeInformation> {
        None
    }

    open spec fn kind() -> ObjectType {
        ObjectType::Inferred
    }

    fn type_info() -> (info: TypeInformation) {
        TypeInformation { id: 0, ident: "()" }
    }

    fn children() -> (children: Vec<TypeInformation>) {
        Vec::new()
    }

    fn parent() -> (parent: Option<TypeInformation>) {
        None
    }

    fn object_type() -> (kind: ObjectType) {
        ObjectType::Inferred
    }

    fn parent_page(cache: &mut ObjectCache) -> (parent: Option<Arc<ConcretePageType>>) {
        None
    }
}

impl Parent for () {

}

/// `()` is paired with nothing, whatever type it is asked about.
impl<T: Object> PairWith<T> for () {
    open spec fn pair_sequence() -> PairSequence {
        PairSequence::Unpaired
    }

    open spec fn pair_patterns() -> Seq<Pattern> {
        Seq::empty()
    }

    fn sequence() -> (sequence: PairSequence) {
        PairSequence::Unpaired
    }

    fn patterns() -> (patterns: Vec<Pattern>) {
        Vec::new()
    }
}

} // verus!
