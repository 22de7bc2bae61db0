//! The configuration of a classification: the page types of a document, its
//! root, and the page to start from.

use crate::builder::ConcreteObjectBuilder;
use crate::cache::{cache_entries, no_entries};
use crate::instances::{is_cached_page, ConcretePageType};
use crate::root::ConcreteRoot;
use crate::traits::{Object, Root};
use std::sync::Arc;
use vstd::prelude::*;

verus! {

/// The structure of a document, as a classification needs it.
pub struct Config {
    /// The page types, in the order in which they were named.
    pub types: Vec<Arc<ConcretePageType>>,
    pub root: ConcreteRoot,
    /// The index of the page from which the classification starts.
    pub offset: usize,
}

/// Collects what a [`Config`] needs.
pub struct ConfigBuilder {
    types: Vec<Arc<ConcretePageType>>,
    root: Option<ConcreteRoot>,
    offset: usize,
}

impl Config {
    /// A builder without page types, without a root, starting at the first
    /// page.
    pub fn builder() -> (builder: ConfigBuilder)
        ensures
            builder.types() == Seq::<Arc<ConcretePageType>>::empty(),
            builder.root() is None,
            builder.offset() == 0,
    {
        ConfigBuilder { types: Vec::new(), root: None, offset: 0 }
    }
}

impl ConfigBuilder {
    /// The page types named so far.
    pub closed spec fn types(&self) -> Seq<Arc<ConcretePageType>> {
        self.types@
    }

    /// The root that was named, if one was.
    pub closed spec fn root(&self) -> Option<ConcreteRoot> {
        self.root
    }

    /// Whether a root was named.
    pub open spec fn has_root(&self) -> bool {
        self.root() is Some
    }

    /// The page from which the classification starts.
    pub closed spec fn offset(&self) -> usize {
        self.offset
    }

    /// Names the page type `T`. Its object is built in a cache of its own: it
    /// has no children, and its parent, if its type has one, is built with
    /// it.
    pub fn with_obj<T: Object>(self) -> (builder: ConfigBuilder)
        ensures
            builder.types().len() == self.types().len() + 1,
            builder.types().drop_last() == self.types(),
            exists|built: Map<u64, Arc<ConcretePageType>>| #[trigger]
                is_cached_page::<T>(no_entries(), built, builder.types().last()),
            builder.root() == self.root(),
            builder.offset() == self.offset(),
    {
        let mut objects = ConcreteObjectBuilder::new();
        let page = objects.build::<T>();
        let ghost built = objects.built();
        let mut builder = self;
        builder.types.push(page);
        assert(builder.types@.drop_last() =~= self.types@);
        assert(is_cached_page::<T>(no_entries(), built, builder.types@.last()));
        builder
    }

    /// Names the document's root. The root starts without children and with
    /// an empty cache; a root that was named before is replaced.
    pub fn with_root<T: Root>(self) -> (builder: ConfigBuilder)
        ensures
            builder.root() matches Some(root) && root.children@ == Seq::<
                Arc<ConcretePageType>,
            >::empty() && cache_entries(root.cache) == no_entries(),
            builder.types() == self.types(),
            builder.offset() == self.offset(),
    {
        let mut builder = self;
        builder.root = Some(ConcreteRoot::new());
        builder
    }

    /// Sets the page from which the classification starts, counted from
    /// zero.
    pub fn set_start(self, offset: usize) -> (builder: ConfigBuilder)
        ensures
            builder.offset() == offset,
            builder.types() == self.types(),
            builder.root() == self.root(),
    {
        let mut builder = self;
        builder.offset = offset;
        builder
    }

    /// Whether a root was named, as [`ConfigBuilder::build`] needs.
    pub fn is_complete(&self) -> (complete: bool)
        ensures
            complete == self.has_root(),
    {
        self.root.is_some()
    }

    /// The configuration, with the page types, the root and the start that
    /// were named. A root has to be named first.
    pub fn build(self) -> (config: Config)
        requires
            self.has_root(),
        ensures
            config.types@ == self.types(),
            Some(config.root) == self.root(),
            config.offset == self.offset(),
    {
        Config { types: self.types, root: self.root.unwrap(), offset: self.offset }
    }
}

} // verus!
