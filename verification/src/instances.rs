//! A document's page types at run time: objects that know their identity,
//! their parent and their children, and the roles they play as pages.
//!
//! Objects are shared by reference count and never change once shared; a
//! parent is built before it is handed out.

use crate::cache::{
    cache_entries, entry_at, enumerate, is_enumeration, is_grown, lookup, remember, ObjectCache,
};
use crate::link::{copy_link, link_target, tie, upgrade, PairLink};
use crate::traits::{parent_in, Object, ObjectType, PairSequence, Pattern, TypeInformation};
use std::sync::Arc;
use vstd::prelude::*;
use vstd::string::*;

verus! {

/// Another reference to the value behind `value`.
///
/// This is `Arc::clone` of the standard library, which returns a pointer to
/// the same allocation: the contract claims that the result stands for the
/// same value as the argument.
#[verifier::external_body]
pub(crate) fn share<T>(value: &Arc<T>) -> (other: Arc<T>)
    ensures
        other == *value,
{
    Arc::clone(value)
}

/// A page type in one of its roles, with the object that plays it.
pub enum ConcretePageType {
    Key(ConcreteKeyPage),
    Inferred(ConcreteInferredPage),
    Pair(ConcretePair),
}

/// The roles of [`ConcretePageType`], without an object.
#[derive(Debug, Clone, Copy, PartialEq, Eq, Structural)]
pub enum ConcretePageTypeIdentifiers {
    Key,
    Inferred,
    Pair,
}

/// A page type at run time.
pub struct ConcreteObject {
    pub parent: Option<Arc<ConcretePageType>>,
    pub children: Vec<Arc<ConcretePageType>>,
    /// The identity of the type that this object stands for.
    pub obj_type: TypeInformation,
    /// The identities of the types whose objects may be children of this
    /// one.
    pub expected_children: Vec<TypeInformation>,
}

/// The object of a page type that has to be classified.
pub struct ConcreteKeyPage(pub Arc<ConcreteObject>);

/// The object of a page type that can be inferred.
pub struct ConcreteInferredPage(pub Arc<ConcreteObject>);

/// One half of a pair of page types.
///
/// A half refers to the other half without keeping it alive: the other half
/// is there for as long as someone holds it.
pub struct ConcretePair {
    pub sequence: PairSequence,
    pub patterns: Arc<Vec<Pattern>>,
    pub inner: Arc<ConcreteObject>,
    /// The link to the other half. A pair made by
    /// [`ConcretePair::bind_pair`] always has one.
    pub pair: Option<PairLink>,
}

impl ConcreteKeyPage {
    /// The key page for the type `T`: the object that the cache holds for
    /// `T`, built and stored first if the cache holds none.
    ///
    /// `T` has to be a type whose pages are classified; `T::object_type()`
    /// tells.
    pub fn new<T: Object>(cache: &mut ObjectCache) -> (page: ConcreteKeyPage)
        requires
            T::kind() is Key,
        ensures
            is_cached_build::<T>(
                cache_entries(*old(cache)),
                cache_entries(*final(cache)),
                page.0,
            ),
    {
        let page_type = ConcreteObject::from_obj_with_cache::<T>(cache);
        ConcreteKeyPage(page_type.inner())
    }

    /// The object that plays the role.
    pub fn inner(&self) -> (object: Arc<ConcreteObject>)
        ensures
            object == self.0,
    {
        share(&self.0)
    }
}

impl ConcreteInferredPage {
    /// The inferred page for the type `T`: the object that the cache holds
    /// for `T`, built and stored first if the cache holds none.
    ///
    /// `T` has to be a type whose pages are inferred; `T::object_type()`
    /// tells.
    pub fn new<T: Object>(cache: &mut ObjectCache) -> (page: ConcreteInferredPage)
        requires
            T::kind() is Inferred,
        ensures
            is_cached_build::<T>(
                cache_entries(*old(cache)),
                cache_entries(*final(cache)),
                page.0,
            ),
    {
        let page_type = ConcreteObject::from_obj_with_cache::<T>(cache);
        ConcreteInferredPage(page_type.inner())
    }

    /// The object that plays the role.
    pub fn inner(&self) -> (object: Arc<ConcreteObject>)
        ensures
            object == self.0,
    {
        share(&self.0)
    }
}

impl ConcretePageType {
    /// The object that plays the role.
    pub open spec fn object(&self) -> Arc<ConcreteObject> {
        match self {
            ConcretePageType::Key(page) => page.0,
            ConcretePageType::Inferred(page) => page.0,
            ConcretePageType::Pair(pair) => pair.inner,
        }
    }

    /// The role.
    pub open spec fn role(&self) -> ConcretePageTypeIdentifiers {
        match self {
            ConcretePageType::Key(_) => ConcretePageTypeIdentifiers::Key,
            ConcretePageType::Inferred(_) => ConcretePageTypeIdentifiers::Inferred,
            ConcretePageType::Pair(_) => ConcretePageTypeIdentifiers::Pair,
        }
    }

    /// The number of the type that the object stands for.
    pub open spec fn type_id(&self) -> u64 {
        self.object().obj_type.id
    }

    /// The object that plays the role.
    pub fn inner(&self) -> (object: Arc<ConcreteObject>)
        ensures
            object == self.object(),
    {
        match self {
            ConcretePageType::Inferred(page) => page.inner(),
            ConcretePageType::Key(page) => page.inner(),
            ConcretePageType::Pair(pair) => share(&pair.inner),
        }
    }

    /// The object that plays the role. Objects do not change once they are
    /// shared, so this is [`ConcretePageType::inner`] under its other name.
    pub fn inner_mut(&self) -> (object: Arc<ConcreteObject>)
        ensures
            object == self.object(),
    {
        self.inner()
    }

    /// The role, without the object.
    pub fn identifier(&self) -> (role: ConcretePageTypeIdentifiers)
        ensures
            role == self.role(),
    {
        match self {
            ConcretePageType::Key(_) => ConcretePageTypeIdentifiers::Key,
            ConcretePageType::Inferred(_) => ConcretePageTypeIdentifiers::Inferred,
            ConcretePageType::Pair(_) => ConcretePageTypeIdentifiers::Pair,
        }
    }

    /// The number of the type of the parent, if the object has a parent.
    pub open spec fn parent_id(&self) -> Option<u64> {
        match self.object().parent {
            Some(parent) => Some(parent.type_id()),
            None => None,
        }
    }

    /// `other` is this page type with the children `children`: the same
    /// role, the same identity, parent and expected children, and for the
    /// half of a pair the same place, patterns and partner.
    pub open spec fn is_with_children(
        &self,
        children: Seq<Arc<ConcretePageType>>,
        other: ConcretePageType,
    ) -> bool {
        &&& other.object().children@ == children
        &&& other.object().parent == self.object().parent
        &&& other.object().obj_type == self.object().obj_type
        &&& other.object().expected_children@ == self.object().expected_children@
        &&& other.role() == self.role()
        &&& match (*self, other) {
            (ConcretePageType::Pair(ours), ConcretePageType::Pair(theirs)) => {
                &&& theirs.sequence == ours.sequence
                &&& theirs.patterns == ours.patterns
                &&& theirs.pair == ours.pair
            },
            _ => true,
        }
    }

    /// This page type with the children `children` in place of its own. The
    /// object is copied; this page type stays as it is.
    pub fn with_children(&self, children: Vec<Arc<ConcretePageType>>) -> (other: ConcretePageType)
        ensures
            self.is_with_children(children@, other),
    {
        let object = self.inner();
        let copy = Arc::new(
            ConcreteObject {
                parent: match &object.parent {
                    Some(parent) => Some(share(parent)),
                    None => None,
                },
                children,
                obj_type: object.obj_type,
                expected_children: copy_types(&object.expected_children),
            },
        );
        match self {
            ConcretePageType::Key(_) => ConcretePageType::Key(ConcreteKeyPage(copy)),
            ConcretePageType::Inferred(_) => ConcretePageType::Inferred(
                ConcreteInferredPage(copy),
            ),
            ConcretePageType::Pair(pair) => ConcretePageType::Pair(
                ConcretePair {
                    sequence: pair.sequence,
                    patterns: share(&pair.patterns),
                    inner: copy,
                    pair: match &pair.pair {
                        Some(link) => Some(copy_link(link)),
                        None => None,
                    },
                },
            ),
        }
    }

    /// The number of the type of the parent, if the object has a parent.
    pub fn parent_type_id(&self) -> (id: Option<u64>)
        ensures
            id == self.parent_id(),
    {
        let object = self.inner();
        match &object.parent {
            Some(parent) => Some(parent.inner().obj_type.id),
            None => None,
        }
    }

    /// The page type for `object`, in the role that `kind` asks for: a key
    /// page for [`ObjectType::Key`], an inferred page otherwise.
    pub fn for_object(kind: ObjectType, object: Arc<ConcreteObject>) -> (page: ConcretePageType)
        ensures
            page.object() == object,
            page.role() == role_for(kind),
    {
        match kind {
            ObjectType::Key => ConcretePageType::Key(ConcreteKeyPage(object)),
            _ => ConcretePageType::Inferred(ConcreteInferredPage(object)),
        }
    }
}

/// Whether one of `children` stands for the type with the number `id`.
pub open spec fn has_child_of_type(children: Seq<Arc<ConcretePageType>>, id: u64) -> bool {
    exists|i: int| 0 <= i < children.len() && (#[trigger] children[i]).type_id() == id
}

/// Whether one of `types` has the number `id`.
pub open spec fn lists_type(types: Seq<TypeInformation>, id: u64) -> bool {
    exists|i: int| 0 <= i < types.len() && (#[trigger] types[i]).id == id
}

/// The role in which an object of a type of this kind is stored.
pub open spec fn role_for(kind: ObjectType) -> ConcretePageTypeIdentifiers {
    if kind is Key {
        ConcretePageTypeIdentifiers::Key
    } else {
        ConcretePageTypeIdentifiers::Inferred
    }
}

/// `object` is a new object for the type `T`: it has no children yet, its
/// identity and the types it expects are those of `T`, and its parent is what
/// `entries` holds for the parent type of `T`, which is there if `T` has a
/// parent type.
pub open spec fn is_fresh_object<T: Object>(
    entries: Map<u64, Arc<ConcretePageType>>,
    object: ConcreteObject,
) -> bool {
    &&& object.parent == parent_in(entries, T::parent_type())
    &&& object.parent is Some <==> T::parent_type() is Some
    &&& object.children@ == Seq::<Arc<ConcretePageType>>::empty()
    &&& object.obj_type == T::type_information()
    &&& object.expected_children@ == T::child_types()
}

/// `page` is a new page type for the type `T`: its object is new, and its
/// role is the one for the kind of `T`.
pub open spec fn is_fresh_page<T: Object>(
    entries: Map<u64, Arc<ConcretePageType>>,
    page: Arc<ConcretePageType>,
) -> bool {
    is_fresh_object::<T>(entries, *page.object()) && page.role() == role_for(T::kind())
}

/// `page` is what asking a cache for the type `T` gives, and `after` is what
/// the cache holds afterwards, if it held `before`. If a page type was stored
/// under the number of `T`, it is that one, and the cache is as it was. Else
/// the parent of `T` is seen to first, which may grow the cache; then `page`
/// is a new page type for `T` with that parent, and it is stored under the
/// number of `T`.
pub open spec fn is_cached_page<T: Object>(
    before: Map<u64, Arc<ConcretePageType>>,
    after: Map<u64, Arc<ConcretePageType>>,
    page: Arc<ConcretePageType>,
) -> bool {
    let id = T::type_information().id;
    if before.contains_key(id) {
        page == before[id] && after == before
    } else {
        exists|with_parent: Map<u64, Arc<ConcretePageType>>|
            {
                &&& #[trigger] is_grown(before, with_parent)
                &&& is_fresh_page::<T>(with_parent, page)
                &&& after == with_parent.insert(id, page)
            }
    }
}

/// `object` is the object of the page type that asking a cache for `T`
/// gives.
pub open spec fn is_cached_build<T: Object>(
    before: Map<u64, Arc<ConcretePageType>>,
    after: Map<u64, Arc<ConcretePageType>>,
    object: Arc<ConcreteObject>,
) -> bool {
    exists|page: Arc<ConcretePageType>|
        #[trigger] is_cached_page::<T>(before, after, page) && page.object() == object
}

/// Whether an object with the children `children`, which expects children of
/// the types `expected`, takes `page` as a further child: it expects the
/// page's type and has no child of that type.
pub open spec fn adoptable(
    children: Seq<Arc<ConcretePageType>>,
    expected: Seq<TypeInformation>,
    page: Arc<ConcretePageType>,
) -> bool {
    lists_type(expected, page.type_id()) && !has_child_of_type(children, page.type_id())
}

/// Those of `pages` that an object with the children `children` takes as
/// further children, in the order of `pages`.
pub open spec fn adopted(
    children: Seq<Arc<ConcretePageType>>,
    expected: Seq<TypeInformation>,
    pages: Seq<(u64, Arc<ConcretePageType>)>,
) -> Seq<Arc<ConcretePageType>>
    decreases pages.len(),
{
    if pages.len() == 0 {
        Seq::empty()
    } else {
        let earlier = adopted(children, expected, pages.drop_last());
        if adoptable(children, expected, pages.last().1) {
            earlier.push(pages.last().1)
        } else {
            earlier
        }
    }
}

/// Those of `pages` whose parent is of the type with the number `id`, in the
/// order of `pages`.
pub open spec fn children_among(pages: Seq<(u64, Arc<ConcretePageType>)>, id: u64) -> Seq<
    Arc<ConcretePageType>,
>
    decreases pages.len(),
{
    if pages.len() == 0 {
        Seq::empty()
    } else {
        let earlier = children_among(pages.drop_last(), id);
        if pages.last().1.parent_id() == Some(id) {
            earlier.push(pages.last().1)
        } else {
            earlier
        }
    }
}

/// Those of `pages` whose parent is of the type with the number `id`, in the
/// order of `pages`.
pub fn find_children(pages: &Vec<(u64, Arc<ConcretePageType>)>, id: u64) -> (children: Vec<
    Arc<ConcretePageType>,
>)
    ensures
        children@ == children_among(pages@, id),
{
    let mut children: Vec<Arc<ConcretePageType>> = Vec::new();
    let mut i: usize = 0;
    while i < pages.len()
        invariant
            i <= pages.len(),
            children@ == children_among(pages@.take(i as int), id),
        decreases pages.len() - i,
    {
        proof {
            assert(pages@.take(i + 1).drop_last() =~= pages@.take(i as int));
            assert(pages@.take(i + 1).last() == pages@[i as int]);
        }
        match pages[i].1.parent_type_id() {
            Some(parent) => {
                if parent == id {
                    children.push(share(&pages[i].1));
                }
            },
            None => {},
        }
        i += 1;
    }
    assert(pages@.take(i as int) =~= pages@);
    children
}

/// The names of `types`, each in double quotes, separated by a comma and a
/// space.
pub open spec fn quoted_names(types: Seq<TypeInformation>) -> Seq<char>
    decreases types.len(),
{
    if types.len() == 0 {
        Seq::empty()
    } else if types.len() == 1 {
        seq!['"'] + types[0].ident@ + seq!['"']
    } else {
        quoted_names(types.drop_last()) + seq![',', ' '] + seq!['"'] + types.last().ident@
            + seq!['"']
    }
}

/// The text that refuses a child of a type that the parent does not expect.
pub open spec fn unexpected_child_text(
    child: TypeInformation,
    parent: TypeInformation,
    expected: Seq<TypeInformation>,
) -> Seq<char> {
    "Child "@ + child.ident@ + " is not allowed for parent "@ + parent.ident@
        + ". Expected children: ["@ + quoted_names(expected) + seq![']']
}

impl ConcreteObject {
    /// The object for the type `T`, without children, under `parent`.
    pub fn from_obj<T: Object>(parent: Option<Arc<ConcretePageType>>) -> (object: ConcreteObject)
        ensures
            object.parent == parent,
            object.children@ == Seq::<Arc<ConcretePageType>>::empty(),
            object.obj_type == T::type_information(),
            object.expected_children@ == T::child_types(),
    {
        ConcreteObject {
            parent,
            children: Vec::new(),
            obj_type: T::type_info(),
            expected_children: T::children(),
        }
    }

    /// A new object for the type `T`. Its parent is the page type of the
    /// parent type of `T`, which `T` takes from the cache or builds there.
    pub fn from_obj_internal<T: Object>(cache: &mut ObjectCache) -> (object: ConcreteObject)
        ensures
            is_grown(cache_entries(*old(cache)), cache_entries(*final(cache))),
            is_fresh_object::<T>(cache_entries(*final(cache)), object),
    {
        let parent = T::parent_page(cache);
        Self::from_obj::<T>(parent)
    }

    /// The page type for `T` from the cache. If the cache holds none under
    /// the number of `T`, a new object is built, with its parent taken from
    /// the cache or built there first; it is stored as a key page or an
    /// inferred page as `T` asks, and returned. The cache only grows, and
    /// holds the page type under the number of `T` afterwards.
    pub fn from_obj_with_cache<T: Object>(cache: &mut ObjectCache) -> (page: Arc<ConcretePageType>)
        ensures
            is_cached_page::<T>(cache_entries(*old(cache)), cache_entries(*final(cache)), page),
            is_grown(cache_entries(*old(cache)), cache_entries(*final(cache))),
            entry_at(cache_entries(*final(cache)), T::type_information().id) == Some(page),
    {
        let info = T::type_info();
        match lookup(cache, info.id) {
            Some(cached) => cached,
            None => {
                let raw = Self::from_obj_internal::<T>(cache);
                let ghost with_parent = cache_entries(*cache);
                let kind = T::object_type();
                let page = Arc::new(ConcretePageType::for_object(kind, Arc::new(raw)));
                remember(cache, info.id, share(&page));
                assert(is_grown(cache_entries(*old(cache)), with_parent));
                page
            },
        }
    }

    /// Takes as children those of `pages` whose type this object expects and
    /// of whose type it has no child yet, in the order of `pages`.
    pub fn adopt(&mut self, pages: &Vec<(u64, Arc<ConcretePageType>)>)
        ensures
            final(self).children@ == old(self).children@ + adopted(
                old(self).children@,
                old(self).expected_children@,
                pages@,
            ),
            final(self).parent == old(self).parent,
            final(self).obj_type == old(self).obj_type,
            final(self).expected_children == old(self).expected_children,
    {
        let mut candidates: Vec<Arc<ConcretePageType>> = Vec::new();
        let mut i: usize = 0;
        while i < pages.len()
            invariant
                i <= pages.len(),
                *self == *old(self),
                candidates@ == adopted(
                    self.children@,
                    self.expected_children@,
                    pages@.take(i as int),
                ),
            decreases pages.len() - i,
        {
            let page = share(&pages[i].1);
            let object = page.inner();
            let id = object.obj_type.id;
            proof {
                assert(pages@.take(i + 1).drop_last() =~= pages@.take(i as int));
                assert(pages@.take(i + 1).last() == pages@[i as int]);
            }
            if !self.holds_child_of_type(id) && self.can_have_child(id) {
                candidates.push(page);
            }
            i += 1;
        }
        assert(pages@.take(i as int) =~= pages@);
        self.children.append(&mut candidates);
    }

    /// Takes as children the page types of `cache` whose type this object
    /// expects and of whose type it has no child yet. They are added in the
    /// order in which the cache hands them out, which is not fixed.
    pub fn collect_children_from_cache(&mut self, cache: &ObjectCache)
        ensures
            exists|pages: Seq<(u64, Arc<ConcretePageType>)>|
                is_enumeration(pages, cache_entries(*cache)) && final(self).children@ == old(
                    self,
                ).children@ + #[trigger] adopted(
                    old(self).children@,
                    old(self).expected_children@,
                    pages,
                ),
            final(self).parent == old(self).parent,
            final(self).obj_type == old(self).obj_type,
            final(self).expected_children == old(self).expected_children,
    {
        let pages = enumerate(cache);
        self.adopt(&pages);
    }

    /// Whether a child of the type with the number `id` is already there.
    fn holds_child_of_type(&self, id: u64) -> (found: bool)
        ensures
            found == has_child_of_type(self.children@, id),
    {
        let mut i: usize = 0;
        while i < self.children.len()
            invariant
                i <= self.children.len(),
                forall|k: int| 0 <= k < i ==> (#[trigger] self.children@[k]).type_id() != id,
            decreases self.children.len() - i,
        {
            let object = self.children[i].inner();
            if object.obj_type.id == id {
                return true;
            }
            i += 1;
        }
        false
    }

    /// Appends the names of the expected children to `text`.
    fn push_quoted_names(&self, text: &mut String)
        ensures
            final(text)@ == old(text)@ + quoted_names(self.expected_children@),
    {
        proof {
            reveal_strlit("\"");
            reveal_strlit(", ");
        }
        let ghost start = text@;
        let mut i: usize = 0;
        while i < self.expected_children.len()
            invariant
                i <= self.expected_children.len(),
                text@ == start + quoted_names(self.expected_children@.take(i as int)),
                "\""@ == seq!['"'],
                ", "@ == seq![',', ' '],
            decreases self.expected_children.len() - i,
        {
            let ghost before = self.expected_children@.take(i as int);
            let ghost after = self.expected_children@.take(i + 1);
            if i > 0 {
                text.append(", ");
            }
            text.append("\"");
            text.append(self.expected_children[i].ident);
            text.append("\"");
            proof {
                assert(after.drop_last() =~= before);
                assert(after.last() == self.expected_children@[i as int]);
                if i == 0 {
                    assert(after[0] == self.expected_children@[0]);
                    assert(before =~= Seq::<TypeInformation>::empty());
                }
                assert(text@ =~= start + quoted_names(after));
            }
            i += 1;
        }
        assert(self.expected_children@.take(i as int) =~= self.expected_children@);
    }

    /// Adds `child`, if this object expects a child of its type and has none
    /// yet.
    ///
    /// A second child of a type is refused first; a child of a type that is
    /// not expected is refused with a text that names the child, the parent
    /// and what the parent expects. A refusal changes nothing.
    pub fn add_child(&mut self, child: Arc<ConcretePageType>) -> (added: Result<(), String>)
        ensures
            final(self).parent == old(self).parent,
            final(self).obj_type == old(self).obj_type,
            final(self).expected_children == old(self).expected_children,
            match added {
                Ok(_) => {
                    &&& !has_child_of_type(old(self).children@, child.type_id())
                    &&& lists_type(old(self).expected_children@, child.type_id())
                    &&& final(self).children@ == old(self).children@.push(child)
                },
                Err(text) => {
                    &&& final(self).children == old(self).children
                    &&& if has_child_of_type(old(self).children@, child.type_id()) {
                        text@ == "Child of this type already exists"@
                    } else {
                        &&& !lists_type(old(self).expected_children@, child.type_id())
                        &&& text@ == unexpected_child_text(
                            child.object().obj_type,
                            old(self).obj_type,
                            old(self).expected_children@,
                        )
                    }
                },
            },
    {
        let child_object = child.inner();
        let child_type = child_object.obj_type;
        if self.holds_child_of_type(child_type.id) {
            return Err(String::from_str("Child of this type already exists"));
        }
        if !self.can_have_child(child_type.id) {
            proof {
                reveal_strlit("]");
            }
            let mut text = String::from_str("Child ");
            text.append(child_type.ident);
            text.append(" is not allowed for parent ");
            text.append(self.obj_type.ident);
            text.append(". Expected children: [");
            self.push_quoted_names(&mut text);
            text.append("]");
            assert(text@ =~= unexpected_child_text(
                child_type,
                self.obj_type,
                self.expected_children@,
            ));
            return Err(text);
        }
        self.children.push(child);
        Ok(())
    }

    /// Adds `child` without asking whether it is expected.
    pub fn add_child_unchecked(&mut self, child: Arc<ConcretePageType>)
        ensures
            final(self).children@ == old(self).children@.push(child),
            final(self).parent == old(self).parent,
            final(self).obj_type == old(self).obj_type,
            final(self).expected_children == old(self).expected_children,
    {
        self.children.push(child);
    }

    /// Whether this object expects children of the type with the number
    /// `child_type_id`.
    pub fn can_have_child(&self, child_type_id: u64) -> (expected: bool)
        ensures
            expected == lists_type(self.expected_children@, child_type_id),
    {
        let mut i: usize = 0;
        while i < self.expected_children.len()
            invariant
                i <= self.expected_children.len(),
                forall|k: int| 0 <= k < i ==> (#[trigger] self.expected_children@[k]).id
                    != child_type_id,
            decreases self.expected_children.len() - i,
        {
            if self.expected_children[i].id == child_type_id {
                return true;
            }
            i += 1;
        }
        false
    }

    /// The types whose objects may be children of this one.
    pub fn get_expected_child_types(&self) -> (types: &[TypeInformation])
        ensures
            types@ == self.expected_children@,
    {
        self.expected_children.as_slice()
    }

    /// The object of the parent, if there is a parent.
    pub fn parent_inner(&self) -> (object: Option<Arc<ConcreteObject>>)
        ensures
            match self.parent {
                Some(parent) => object == Some(parent.object()),
                None => object is None,
            },
    {
        match &self.parent {
            Some(parent) => Some(parent.inner()),
            None => None,
        }
    }
}

impl ConcretePair {
    /// The other half of the pair: the half that this half's link refers
    /// to. `None` for a half that was never bound.
    pub open spec fn partner(&self) -> Option<ConcretePair> {
        match self.pair {
            Some(link) => Some(link_target(link)),
            None => None,
        }
    }

    /// Binds two objects into a pair: `obj_1` stands first, `obj_2` last,
    /// both under the same patterns, and each half is the other's partner.
    /// Neither half keeps the other alive.
    pub fn bind_pair(
        obj_1: Arc<ConcreteObject>,
        obj_2: Arc<ConcreteObject>,
        patterns: Vec<Pattern>,
    ) -> (halves: (Arc<ConcretePair>, Arc<ConcretePair>))
        ensures
            halves.0.sequence == PairSequence::First,
            halves.1.sequence == PairSequence::Last,
            halves.0.inner == obj_1,
            halves.1.inner == obj_2,
            *halves.0.patterns == patterns,
            halves.1.patterns == halves.0.patterns,
            halves.0.partner() == Some(*halves.1),
            halves.1.partner() == Some(*halves.0),
    {
        let patterns = Arc::new(patterns);
        let first = Self::mutate_object_to_pair(obj_1, PairSequence::First, share(&patterns));
        let last = Self::mutate_object_to_pair(obj_2, PairSequence::Last, patterns);
        tie(first, last)
    }

    /// The other half of the pair, if this half was bound and the other half
    /// is still alive. A half that was never bound has none. Of a bound half
    /// the other half comes back as long as someone holds it, and it is the
    /// very half that [`ConcretePair::bind_pair`] returned.
    pub fn get_pair_info(&self) -> (info: Option<Arc<ConcretePair>>)
        ensures
            self.pair is None ==> info is None,
            info matches Some(other) ==> self.partner() == Some(*other),
    {
        match &self.pair {
            Some(link) => upgrade(link),
            None => None,
        }
    }

    /// The object of the other half, if this half was bound and the other
    /// half is still alive. The half knows its partner by itself; the cache
    /// is not asked.
    pub fn get_pair_inner(&self, cache: &ObjectCache) -> (object: Option<Arc<ConcreteObject>>)
        ensures
            self.pair is None ==> object is None,
            object matches Some(inner) ==> self.partner() matches Some(other) && other.inner
                == inner,
    {
        match self.get_pair_info() {
            Some(other) => Some(share(&other.inner)),
            None => None,
        }
    }

    /// The half of a pair that `obj` plays at `sequence`, not yet bound to a
    /// partner.
    pub fn mutate_object_to_pair(
        obj: Arc<ConcreteObject>,
        sequence: PairSequence,
        patterns: Arc<Vec<Pattern>>,
    ) -> (half: ConcretePair)
        ensures
            half == (ConcretePair { sequence, patterns, inner: obj, pair: None }),
    {
        ConcretePair { inner: obj, pair: None, sequence, patterns }
    }
}

/// A copy of a list of page types that shares each of them.
fn share_all(pages: &Vec<Arc<ConcretePageType>>) -> (copy: Vec<Arc<ConcretePageType>>)
    ensures
        copy@ == pages@,
{
    let mut copy: Vec<Arc<ConcretePageType>> = Vec::new();
    let mut i: usize = 0;
    while i < pages.len()
        invariant
            i <= pages.len(),
            copy@ == pages@.take(i as int),
        decreases pages.len() - i,
    {
        copy.push(share(&pages[i]));
        assert(pages@.take(i + 1) =~= pages@.take(i as int).push(pages@[i as int]));
        i += 1;
    }
    assert(pages@.take(i as int) =~= pages@);
    copy
}

/// A copy of a list of type identities.
fn copy_types(types: &Vec<TypeInformation>) -> (copy: Vec<TypeInformation>)
    ensures
        copy@ == types@,
{
    let mut copy: Vec<TypeInformation> = Vec::new();
    let mut i: usize = 0;
    while i < types.len()
        invariant
            i <= types.len(),
            copy@ == types@.take(i as int),
        decreases types.len() - i,
    {
        copy.push(types[i]);
        assert(types@.take(i + 1) =~= types@.take(i as int).push(types@[i as int]));
        i += 1;
    }
    assert(types@.take(i as int) =~= types@);
    copy
}

impl Clone for ConcreteObject {
    /// An object with the same identity, parent and children. The parent and
    /// the children are shared, not copied.
    fn clone(&self) -> (copy: ConcreteObject)
        ensures
            copy.parent == self.parent,
            copy.children@ == self.children@,
            copy.obj_type == self.obj_type,
            copy.expected_children@ == self.expected_children@,
    {
        ConcreteObject {
            parent: match &self.parent {
                Some(parent) => Some(share(parent)),
                None => None,
            },
            children: share_all(&self.children),
            obj_type: self.obj_type,
            expected_children: copy_types(&self.expected_children),
        }
    }
}

impl From<Arc<ConcreteObject>> for ConcreteKeyPage {
    /// The key page that `value` plays.
    fn from(value: Arc<ConcreteObject>) -> (page: ConcreteKeyPage) {
        ConcreteKeyPage(value)
    }
}

impl vstd::std_specs::convert::FromSpecImpl<Arc<ConcreteObject>> for ConcreteKeyPage {
    open spec fn obeys_from_spec() -> bool {
        true
    }

    open spec fn from_spec(value: Arc<ConcreteObject>) -> ConcreteKeyPage {
        ConcreteKeyPage(value)
    }
}

impl From<Arc<ConcreteObject>> for ConcreteInferredPage {
    /// The inferred page that `value` plays.
    fn from(value: Arc<ConcreteObject>) -> (page: ConcreteInferredPage) {
        ConcreteInferredPage(value)
    }
}

impl vstd::std_specs::convert::FromSpecImpl<Arc<ConcreteObject>> for ConcreteInferredPage {
    open spec fn obeys_from_spec() -> bool {
        true
    }

    open spec fn from_spec(value: Arc<ConcreteObject>) -> ConcreteInferredPage {
        ConcreteInferredPage(value)
    }
}

impl Clone for ConcreteKeyPage {
    /// Another key page for the same object.
    fn clone(&self) -> (copy: ConcreteKeyPage)
        ensures
            copy == *self,
    {
        ConcreteKeyPage(share(&self.0))
    }
}

impl Clone for ConcreteInferredPage {
    /// Another inferred page for the same object.
    fn clone(&self) -> (copy: ConcreteInferredPage)
        ensures
            copy == *self,
    {
        ConcreteInferredPage(share(&self.0))
    }
}

impl Clone for ConcretePair {
    /// Another half for the same objects.
    fn clone(&self) -> (copy: ConcretePair)
        ensures
            copy == *self,
    {
        ConcretePair {
            sequence: self.sequence,
            patterns: share(&self.patterns),
            inner: share(&self.inner),
            pair: match &self.pair {
                Some(link) => Some(copy_link(link)),
                None => None,
            },
        }
    }
}

impl Clone for ConcretePageType {
    /// The same role for the same object.
    fn clone(&self) -> (copy: ConcretePageType)
        ensures
            copy == *self,
    {
        match self {
            ConcretePageType::Key(page) => ConcretePageType::Key(page.clone()),
            ConcretePageType::Inferred(page) => ConcretePageType::Inferred(page.clone()),
            ConcretePageType::Pair(pair) => ConcretePageType::Pair(pair.clone()),
        }
    }
}

/// No two of `children` are of the same type.
pub open spec fn has_distinct_types(children: Seq<Arc<ConcretePageType>>) -> bool {
    forall|i: int, j: int|
        0 <= i < j < children.len() ==> (#[trigger] children[i]).type_id() != (
        #[trigger] children[j]).type_id()
}

/// Adding children one by one, with [`ConcreteObject::add_child`], never
/// gives an object two children of one type: a child that is taken is of a
/// type that none of the others has.
pub proof fn lemma_checked_children_stay_distinct(
    children: Seq<Arc<ConcretePageType>>,
    child: Arc<ConcretePageType>,
)
    requires
        has_distinct_types(children),
        !has_child_of_type(children, child.type_id()),
    ensures
        has_distinct_types(children.push(child)),
        has_child_of_type(children.push(child), child.type_id()),
{
    let more = children.push(child);
    assert forall|i: int, j: int| 0 <= i < j < more.len() implies (#[trigger] more[i]).type_id()
        != (#[trigger] more[j]).type_id() by {
        if j == children.len() {
            assert(children[i].type_id() != child.type_id());
        }
    }
    assert(more[children.len() as int].type_id() == child.type_id());
}

/// Two halves that are each other's partner make a pair from either side:
/// the partner of the partner of a half is the half again.
pub proof fn lemma_partner_of_partner(first: ConcretePair, last: ConcretePair)
    requires
        first.partner() == Some(last),
        last.partner() == Some(first),
    ensures
        first.partner()->0.partner() == Some(first),
        last.partner()->0.partner() == Some(last),
{
}

} // verus!
