//! The root of a document's structure: the page types that stand directly
//! under the document.

use crate::cache::{
    cache_entries, empty_cache, entry_at, enumerate, is_enumeration, no_entries, remember,
    ObjectCache,
};
use crate::instances::{
    children_among, find_children, has_child_of_type, is_cached_page, role_for, ConcreteObject,
    ConcretePageType, ConcretePair,
};
use crate::traits::{Object, PairSequence, PairWith, Pattern, TypeInformation};
use std::sync::Arc;
use vstd::prelude::*;
use vstd::string::*;

verus! {

/// The document itself: its children, and the cache in which their objects
/// are built.
pub struct ConcreteRoot {
    pub children: Vec<Arc<ConcretePageType>>,
    pub cache: ObjectCache,
}

/// The text that refuses a second root child of a type.
pub open spec fn second_root_child_text(ident: Seq<char>) -> Seq<char> {
    "Root child of type "@ + ident + " already exists"@
}

/// The text that refuses a pair of which one half is a root child already.
pub open spec fn second_pair_child_text(first: Seq<char>, last: Seq<char>) -> Seq<char> {
    "One of the pair types ("@ + first + ", "@ + last + ") already exists as a root child"@
}

/// What [`ConcreteRoot::validate_root_child`] answers for a type with the
/// identity `info` and a root with the children `children`: a refusal if one
/// of them is of that type.
pub open spec fn is_root_child_verdict(
    children: Seq<Arc<ConcretePageType>>,
    info: TypeInformation,
    verdict: Result<(), String>,
) -> bool {
    match verdict {
        Ok(_) => !has_child_of_type(children, info.id),
        Err(text) => has_child_of_type(children, info.id) && text@ == second_root_child_text(
            info.ident@,
        ),
    }
}

/// `child` is the half of a pair that stands at `sequence` under `patterns`,
/// played by `object` with `partner` as the other half.
pub open spec fn is_pair_child(
    child: ConcretePageType,
    sequence: PairSequence,
    patterns: Seq<Pattern>,
    object: Arc<ConcreteObject>,
    partner: Arc<ConcreteObject>,
) -> bool {
    &&& child matches ConcretePageType::Pair(half)
    &&& half.sequence == sequence
    &&& half.patterns@ == patterns
    &&& half.inner == object
    &&& half.partner() matches Some(other)
    &&& other.inner == partner
}

/// What a cache holds under the key of `pages[at]` once the page type there
/// is connected: the page type with the children that `pages` has for it, if
/// it has any, and else the page type as it was.
pub open spec fn is_connected_at(
    pages: Seq<(u64, Arc<ConcretePageType>)>,
    at: int,
    entries: Map<u64, Arc<ConcretePageType>>,
) -> bool {
    let page = pages[at].1;
    let children = children_among(pages, page.type_id());
    &&& entries.contains_key(pages[at].0)
    &&& if children.len() > 0 {
        page.is_with_children(children, *entries[pages[at].0])
    } else {
        entries[pages[at].0] == page
    }
}

/// `after` is the cache `before` with its page types connected, when `pages`
/// is the order in which the cache handed them out: it has the same keys, and
/// every page type that is the parent of others has them as its children.
pub open spec fn is_connected(
    before: Map<u64, Arc<ConcretePageType>>,
    pages: Seq<(u64, Arc<ConcretePageType>)>,
    after: Map<u64, Arc<ConcretePageType>>,
) -> bool {
    &&& is_enumeration(pages, before)
    &&& after.dom() == before.dom()
    &&& forall|at: int| 0 <= at < pages.len() ==> #[trigger] is_connected_at(pages, at, after)
}

impl ConcreteRoot {
    /// A root without children and with an empty cache.
    pub fn new() -> (root: ConcreteRoot)
        ensures
            root.children@ == Seq::<Arc<ConcretePageType>>::empty(),
            cache_entries(root.cache) == no_entries(),
    {
        ConcreteRoot { children: Vec::new(), cache: empty_cache() }
    }

    /// Whether a child of the type with the number `id` is there.
    pub fn has_child(&self, id: u64) -> (found: bool)
        ensures
            found == has_child_of_type(self.children@, id),
    {
        let mut i: usize = 0;
        while i < self.children.len()
            invariant
                i <= self.children.len(),
                forall|k: int| 0 <= k < i ==> (#[trigger] self.children@[k]).type_id() != id,
            decreases self.children.len() - i,
        {
            let object = self.children[i].inner();
            if object.obj_type.id == id {
                return true;
            }
            i += 1;
        }
        false
    }

    /// Refuses the type with the identity `info` if the root has a child of
    /// that type already.
    pub fn validate(&self, info: TypeInformation) -> (verdict: Result<(), String>)
        ensures
            is_root_child_verdict(self.children@, info, verdict),
    {
        if self.has_child(info.id) {
            let mut text = String::from_str("Root child of type ");
            text.append(info.ident);
            text.append(" already exists");
            Err(text)
        } else {
            Ok(())
        }
    }

    /// Refuses `T` if the root has a child of that type already.
    pub fn validate_root_child<T: Object>(&self) -> (verdict: Result<(), String>)
        ensures
            is_root_child_verdict(self.children@, T::type_information(), verdict),
    {
        self.validate(T::type_info())
    }

    /// Adds the page type for `T` as a child, as a key page or an inferred
    /// page as `T` asks. The object comes from the root's cache and is built
    /// there if need be. A second child of a type is refused, and the root
    /// stays as it is.
    ///
    /// `T` has to be a type of pages, not the type of the document;
    /// `T::object_type()` tells.
    pub fn add_child<T: Object>(&mut self) -> (added: Result<(), String>)
        requires
            !(T::kind() is Root),
        ensures
            is_root_child_verdict(old(self).children@, T::type_information(), added),
            match added {
                Ok(_) => {
                    &&& final(self).children@.len() == old(self).children@.len() + 1
                    &&& final(self).children@.drop_last() == old(self).children@
                    &&& final(self).children@.last().role() == role_for(T::kind())
                    &&& exists|page: Arc<ConcretePageType>|
                        {
                            &&& #[trigger] is_cached_page::<T>(
                                cache_entries(old(self).cache),
                                cache_entries(final(self).cache),
                                page,
                            )
                            &&& final(self).children@.last().object() == page.object()
                        }
                },
                Err(_) => {
                    &&& final(self).children == old(self).children
                    &&& cache_entries(final(self).cache) == cache_entries(old(self).cache)
                },
            },
    {
        let verdict = self.validate_root_child::<T>();
        if verdict.is_err() {
            return verdict;
        }
        let cached = ConcreteObject::from_obj_with_cache::<T>(&mut self.cache);
        let page = ConcretePageType::for_object(T::object_type(), cached.inner());
        self.children.push(Arc::new(page));
        assert(self.children@.drop_last() =~= old(self).children@);
        assert(is_cached_page::<T>(
            cache_entries(old(self).cache),
            cache_entries(self.cache),
            cached,
        ));
        verdict
    }

    /// Gives every page type of the cache its children: a page type whose
    /// type is the parent's type of other page types of the cache is replaced,
    /// in the cache, by a copy that has exactly those as its children. The
    /// children stand in the order in which the cache hands them out, which
    /// is not fixed. Page types without such children stay as they are.
    ///
    /// Only the cache shows the connected page types. An object does not
    /// change once it is shared, so whoever held a page type before still
    /// holds it without the new children: the root's own children stay as
    /// they are, and the parent that a child refers to is the parent as it
    /// was when the child was built. Who wants the connected page type of a
    /// type takes it from the cache.
    pub fn connect_relationships(&mut self)
        ensures
            exists|pages: Seq<(u64, Arc<ConcretePageType>)>| #[trigger]
                is_connected(
                    cache_entries(old(self).cache),
                    pages,
                    cache_entries(final(self).cache),
                ),
            final(self).children == old(self).children,
    {
        let pages = enumerate(&self.cache);
        let ghost before = cache_entries(self.cache);
        let mut i: usize = 0;
        while i < pages.len()
            invariant
                i <= pages.len(),
                is_enumeration(pages@, before),
                self.children == old(self).children,
                cache_entries(self.cache).dom() == before.dom(),
                forall|at: int|
                    0 <= at < i ==> #[trigger] is_connected_at(
                        pages@,
                        at,
                        cache_entries(self.cache),
                    ),
                forall|at: int|
                    i <= at < pages.len() ==> entry_at(
                        cache_entries(self.cache),
                        (#[trigger] pages@[at]).0,
                    ) == Some(pages@[at].1),
            decreases pages.len() - i,
        {
            let key = pages[i].0;
            let page = &pages[i].1;
            let id = page.inner().obj_type.id;
            let children = find_children(&pages, id);
            let ghost earlier = cache_entries(self.cache);
            if children.len() > 0 {
                let connected = Arc::new(page.with_children(children));
                remember(&mut self.cache, key, connected);
                proof {
                    let now = cache_entries(self.cache);
                    assert(now.dom() =~= before.dom());
                    assert forall|at: int| 0 <= at < i implies #[trigger] is_connected_at(
                        pages@,
                        at,
                        now,
                    ) by {
                        assert(is_connected_at(pages@, at, earlier));
                        assert(pages@[at].0 != pages@[i as int].0);
                    }
                    assert forall|at: int| i < at < pages.len() implies entry_at(
                        now,
                        (#[trigger] pages@[at]).0,
                    ) == Some(pages@[at].1) by {
                        assert(pages@[i as int].0 != pages@[at].0);
                    }
                }
            }
            assert(is_connected_at(pages@, i as int, cache_entries(self.cache)));
            i += 1;
        }
        assert(is_connected(before, pages@, cache_entries(self.cache)));
    }

    /// Adds the pair of `T` and `U` as two children, `T` first, under the
    /// patterns of `T`. The objects come from the root's cache and are built
    /// there if need be. If the root has a child of either type already, the
    /// pair is refused and the root stays as it is.
    pub fn add_pair_child<T, U>(&mut self) -> (added: Result<(), String>) where
        T: PairWith<U>,
        U: PairWith<T>,

        ensures
            added is Err <==> has_child_of_type(old(self).children@, T::type_information().id)
                || has_child_of_type(old(self).children@, U::type_information().id),
            match added {
                Ok(_) => {
                    &&& final(self).children@.len() == old(self).children@.len() + 2
                    &&& final(self).children@.take(old(self).children@.len() as int) == old(
                        self,
                    ).children@
                    &&& exists|
                        first: Arc<ConcretePageType>,
                        last: Arc<ConcretePageType>,
                        between: Map<u64, Arc<ConcretePageType>>,
                    |
                        {
                            &&& #[trigger] is_cached_page::<T>(
                                cache_entries(old(self).cache),
                                between,
                                first,
                            )
                            &&& #[trigger] is_cached_page::<U>(
                                between,
                                cache_entries(final(self).cache),
                                last,
                            )
                            &&& is_pair_child(
                                *final(self).children@[old(self).children@.len() as int],
                                PairSequence::First,
                                <T as PairWith<U>>::pair_patterns(),
                                first.object(),
                                last.object(),
                            )
                            &&& is_pair_child(
                                *final(self).children@[old(self).children@.len() as int + 1],
                                PairSequence::Last,
                                <T as PairWith<U>>::pair_patterns(),
                                last.object(),
                                first.object(),
                            )
                        }
                },
                Err(text) => {
                    &&& text@ == second_pair_child_text(
                        T::type_information().ident@,
                        U::type_information().ident@,
                    )
                    &&& final(self).children == old(self).children
                    &&& cache_entries(final(self).cache) == cache_entries(old(self).cache)
                },
            },
    {
        let ours = T::type_info();
        let theirs = U::type_info();
        if self.has_child(ours.id) || self.has_child(theirs.id) {
            let mut text = String::from_str("One of the pair types (");
            text.append(ours.ident);
            text.append(", ");
            text.append(theirs.ident);
            text.append(") already exists as a root child");
            return Err(text);
        }
        let first = ConcreteObject::from_obj_with_cache::<T>(&mut self.cache);
        let ghost between = cache_entries(self.cache);
        let last = ConcreteObject::from_obj_with_cache::<U>(&mut self.cache);
        let halves = ConcretePair::bind_pair(first.inner(), last.inner(), T::patterns());
        self.children.push(Arc::new(ConcretePageType::Pair((*halves.0).clone())));
        self.children.push(Arc::new(ConcretePageType::Pair((*halves.1).clone())));
        proof {
            let n = old(self).children@.len() as int;
            assert(self.children@.take(n) =~= old(self).children@);
            assert(is_cached_page::<T>(cache_entries(old(self).cache), between, first));
            assert(is_cached_page::<U>(between, cache_entries(self.cache), last));
        }
        Ok(())
    }
}

} // verus!
