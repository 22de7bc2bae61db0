//! Building the objects of a document's page types, each once.

use crate::cache::{cache_entries, empty_cache, is_enumeration, no_entries, remember, ObjectCache};
use crate::instances::{
    adopted, is_cached_page, role_for, share, ConcreteObject, ConcretePageType, ConcretePair,
};
use crate::traits::{patterns_agree, Object, PairSequence, PairWith};
use std::sync::Arc;
use vstd::prelude::*;

verus! {

/// Builds page types and remembers what it built, so that a type that is
/// asked for twice is the same object both times.
pub struct ConcreteObjectBuilder {
    cache: ObjectCache,
}

/// `page` is `plain` with further children: its object is the object of
/// `plain`, and has taken as children those of `pages` that it expects and
/// did not have.
pub open spec fn is_related_page(
    plain: Arc<ConcretePageType>,
    pages: Seq<(u64, Arc<ConcretePageType>)>,
    page: Arc<ConcretePageType>,
) -> bool {
    &&& page.object().children@ == plain.object().children@ + adopted(
        plain.object().children@,
        plain.object().expected_children@,
        pages,
    )
    &&& page.object().parent == plain.object().parent
    &&& page.object().obj_type == plain.object().obj_type
    &&& page.object().expected_children@ == plain.object().expected_children@
}

impl ConcreteObjectBuilder {
    /// What the builder has built so far, by the number of the type.
    pub closed spec fn built(&self) -> Map<u64, Arc<ConcretePageType>> {
        cache_entries(self.cache)
    }

    /// A builder that has built nothing.
    pub fn new() -> (builder: ConcreteObjectBuilder)
        ensures
            builder.built() == no_entries(),
    {
        ConcreteObjectBuilder { cache: empty_cache() }
    }

    /// The page type for `T`: the one built before, or a new one.
    pub fn build<T: Object>(&mut self) -> (page: Arc<ConcretePageType>)
        ensures
            is_cached_page::<T>(old(self).built(), final(self).built(), page),
    {
        ConcreteObject::from_obj_with_cache::<T>(&mut self.cache)
    }

    /// The pair of `T` and `U`: the objects of both types, built if need be,
    /// bound with `T` first and `U` last under the patterns of `T`.
    ///
    /// Both types have to name patterns that agree;
    /// [`can_pair`](crate::traits::can_pair) tells whether they do.
    pub fn build_with_pair<T, U>(&mut self) -> (halves: (
        Arc<ConcretePair>,
        Arc<ConcretePair>,
    )) where T: PairWith<U>, U: PairWith<T>
        requires
            patterns_agree(
                <T as PairWith<U>>::pair_patterns(),
                <U as PairWith<T>>::pair_patterns(),
            ),
        ensures
            halves.0.sequence == PairSequence::First,
            halves.1.sequence == PairSequence::Last,
            halves.0.patterns@ == <T as PairWith<U>>::pair_patterns(),
            halves.1.patterns == halves.0.patterns,
            halves.0.partner() == Some(*halves.1),
            halves.1.partner() == Some(*halves.0),
            exists|
                first: Arc<ConcretePageType>,
                last: Arc<ConcretePageType>,
                between: Map<u64, Arc<ConcretePageType>>,
            |
                {
                    &&& #[trigger] is_cached_page::<T>(old(self).built(), between, first)
                    &&& #[trigger] is_cached_page::<U>(between, final(self).built(), last)
                    &&& halves.0.inner == first.object()
                    &&& halves.1.inner == last.object()
                },
    {
        let patterns = T::patterns();
        let first = self.build::<T>();
        let ghost between = self.built();
        let last = self.build::<U>();
        let halves = ConcretePair::bind_pair(first.inner(), last.inner(), patterns);
        assert(is_cached_page::<T>(old(self).built(), between, first));
        assert(is_cached_page::<U>(between, self.built(), last));
        halves
    }

    /// The page type for `T` with the children that the builder has for it:
    /// the page type is built if need be, a copy of its object takes as
    /// children those of the built page types that it expects and does not
    /// have, and the result is stored under the number of `T` in its place.
    pub fn build_with_relationships<T: Object>(&mut self) -> (page: Arc<ConcretePageType>)
        ensures
            exists|
                plain: Arc<ConcretePageType>,
                between: Map<u64, Arc<ConcretePageType>>,
                pages: Seq<(u64, Arc<ConcretePageType>)>,
            |
                {
                    &&& #[trigger] is_cached_page::<T>(old(self).built(), between, plain)
                    &&& is_enumeration(pages, between)
                    &&& #[trigger] is_related_page(plain, pages, page)
                    &&& final(self).built() == between.insert(T::type_information().id, page)
                },
            page.role() == role_for(T::kind()),
    {
        let plain = self.build::<T>();
        let ghost between = self.built();
        let mut object = Self::unwrap_obj(plain.inner());
        object.collect_children_from_cache(&self.cache);
        let ghost pages = choose|pages: Seq<(u64, Arc<ConcretePageType>)>|
            is_enumeration(pages, between) && object.children@ == plain.object().children@
                + #[trigger] adopted(
                plain.object().children@,
                plain.object().expected_children@,
                pages,
            );
        let page = Arc::new(ConcretePageType::for_object(T::object_type(), Arc::new(object)));
        remember(&mut self.cache, T::type_info().id, share(&page));
        assert(is_cached_page::<T>(old(self).built(), between, plain));
        assert(is_related_page(plain, pages, page));
        page
    }

    /// A copy of a shared object, to be changed and shared anew.
    fn unwrap_obj(obj: Arc<ConcreteObject>) -> (object: ConcreteObject)
        ensures
            object.parent == obj.parent,
            object.children@ == obj.children@,
            object.obj_type == obj.obj_type,
            object.expected_children@ == obj.expected_children@,
    {
        (*obj).clone()
    }

    /// What the builder has built so far.
    pub fn get_cache(&self) -> (cache: &ObjectCache)
        ensures
            cache_entries(*cache) == self.built(),
    {
        &self.cache
    }

    /// What the builder has built so far, to be changed: what the caller
    /// leaves in the cache is what the builder has built from then on.
    pub fn get_cache_mut(&mut self) -> (cache: &mut ObjectCache)
        ensures
            cache_entries(*cache) == old(self).built(),
            final(self).built() == cache_entries(*final(cache)),
    {
        &mut self.cache
    }
}

} // verus!
