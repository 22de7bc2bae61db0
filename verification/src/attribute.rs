//! What the arguments of a page type's declaration mean.
//!
//! A page type is declared with a list of arguments: its children, its
//! metadata, its parent, its pair and so on. This module turns such a list
//! into the plan of what the declaration stands for. It does not read source
//! text: the caller has the arguments as values, with names of whatever type
//! `N` and pattern expressions of whatever type `P` it works with.

use crate::text::str_eq;
use crate::traits::{ObjectType, PairSequence};
use vstd::prelude::*;
use vstd::string::*;

verus! {

/// The names that an argument can have.
#[derive(Debug, Clone, Copy, PartialEq, Eq, Structural)]
pub enum ArgName {
    Children,
    Metadata,
    Parent,
    Pair,
    PageType,
    Sequence,
    Patterns,
}

/// The argument name that `name` spells, if it spells one.
pub open spec fn arg_name_of(name: Seq<char>) -> Option<ArgName> {
    if name == "children"@ {
        Some(ArgName::Children)
    } else if name == "metadata"@ {
        Some(ArgName::Metadata)
    } else if name == "parent"@ {
        Some(ArgName::Parent)
    } else if name == "pair"@ {
        Some(ArgName::Pair)
    } else if name == "page_type"@ {
        Some(ArgName::PageType)
    } else if name == "sequence"@ {
        Some(ArgName::Sequence)
    } else if name == "patterns"@ {
        Some(ArgName::Patterns)
    } else {
        None
    }
}

/// The kind of page that `value` spells, if it spells one.
pub open spec fn page_type_of(value: Seq<char>) -> Option<ObjectType> {
    if value == "Key"@ {
        Some(ObjectType::Key)
    } else if value == "Inferred"@ {
        Some(ObjectType::Inferred)
    } else {
        None
    }
}

/// The place in a pair that `value` spells, if it spells one.
pub open spec fn sequence_of(value: Seq<char>) -> Option<PairSequence> {
    if value == "First"@ {
        Some(PairSequence::First)
    } else if value == "Last"@ {
        Some(PairSequence::Last)
    } else if value == "None"@ {
        Some(PairSequence::Unpaired)
    } else {
        None
    }
}

/// Reads the name of an argument. A word that is no argument name is
/// refused with `"Unknown argument"`.
pub fn parse_arg_name(name: &str) -> (parsed: Result<ArgName, String>)
    ensures
        match parsed {
            Ok(arg) => arg_name_of(name@) == Some(arg),
            Err(text) => arg_name_of(name@) is None && text@ == "Unknown argument"@,
        },
{
    if str_eq(name, "children") {
        Ok(ArgName::Children)
    } else if str_eq(name, "metadata") {
        Ok(ArgName::Metadata)
    } else if str_eq(name, "parent") {
        Ok(ArgName::Parent)
    } else if str_eq(name, "pair") {
        Ok(ArgName::Pair)
    } else if str_eq(name, "page_type") {
        Ok(ArgName::PageType)
    } else if str_eq(name, "sequence") {
        Ok(ArgName::Sequence)
    } else if str_eq(name, "patterns") {
        Ok(ArgName::Patterns)
    } else {
        Err(String::from_str("Unknown argument"))
    }
}

/// Reads the value of the argument `page_type`. Anything but `Key` and
/// `Inferred` is refused with `"Expected 'Key' or 'Inferred'"`.
pub fn parse_page_type(value: &str) -> (parsed: Result<ObjectType, String>)
    ensures
        match parsed {
            Ok(kind) => page_type_of(value@) == Some(kind),
            Err(text) => page_type_of(value@) is None && text@ == "Expected 'Key' or 'Inferred'"@,
        },
{
    if str_eq(value, "Key") {
        Ok(ObjectType::Key)
    } else if str_eq(value, "Inferred") {
        Ok(ObjectType::Inferred)
    } else {
        Err(String::from_str("Expected 'Key' or 'Inferred'"))
    }
}

/// Reads the value of the argument `sequence`. Anything but `First`, `Last`
/// and `None` is refused with `"Expected 'First', 'Last', or 'None'"`.
pub fn parse_sequence(value: &str) -> (parsed: Result<PairSequence, String>)
    ensures
        match parsed {
            Ok(sequence) => sequence_of(value@) == Some(sequence),
            Err(text) => sequence_of(value@) is None && text@
                == "Expected 'First', 'Last', or 'None'"@,
        },
{
    if str_eq(value, "First") {
        Ok(PairSequence::First)
    } else if str_eq(value, "Last") {
        Ok(PairSequence::Last)
    } else if str_eq(value, "None") {
        Ok(PairSequence::Unpaired)
    } else {
        Err(String::from_str("Expected 'First', 'Last', or 'None'"))
    }
}

/// One argument of a declaration.
#[derive(Debug)]
pub enum ObjectArg<N, P> {
    /// The types of the children.
    Children(Vec<N>),
    /// The types of the metadata.
    Metadata(Vec<N>),
    /// The type of the parent.
    Parent(N),
    /// The type that this type is paired with.
    Pair(N),
    /// How pages of the type are found.
    PageType(ObjectType),
    /// Where the type stands in its pair.
    PairSequence(PairSequence),
    /// The patterns that the pair takes part in.
    Patterns(Vec<P>),
}

/// An [`ObjectArg`] with its lists as sequences.
pub enum ArgView<N, P> {
    Children(Seq<N>),
    Metadata(Seq<N>),
    Parent(N),
    Pair(N),
    PageType(ObjectType),
    PairSequence(PairSequence),
    Patterns(Seq<P>),
}

impl<N, P> View for ObjectArg<N, P> {
    type V = ArgView<N, P>;

    open spec fn view(&self) -> ArgView<N, P> {
        match self {
            ObjectArg::Children(types) => ArgView::Children(types@),
            ObjectArg::Metadata(types) => ArgView::Metadata(types@),
            ObjectArg::Parent(parent) => ArgView::Parent(*parent),
            ObjectArg::Pair(pair) => ArgView::Pair(*pair),
            ObjectArg::PageType(kind) => ArgView::PageType(*kind),
            ObjectArg::PairSequence(sequence) => ArgView::PairSequence(*sequence),
            ObjectArg::Patterns(patterns) => ArgView::Patterns(patterns@),
        }
    }
}

/// The arguments of a declaration, in the order in which they were written.
#[derive(Debug)]
pub struct ObjectArgs<N, P> {
    pub args: Vec<ObjectArg<N, P>>,
}

/// The arguments of a list, each by its view.
pub open spec fn arg_views<N, P>(args: Seq<ObjectArg<N, P>>) -> Seq<ArgView<N, P>> {
    Seq::new(args.len(), |i: int| args[i]@)
}

/// What a declaration stands for, as far as its arguments say.
#[derive(Debug)]
pub struct ObjectPlan<N, P> {
    /// The types of the children.
    pub children: Vec<N>,
    /// The types of the metadata.
    pub metadata: Vec<N>,
    /// The type of the parent, if one was named.
    pub parent: Option<N>,
    /// The type that this type is paired with, if one was named.
    pub pair: Option<N>,
    /// Where the type stands in its pair.
    pub sequence: PairSequence,
    /// The patterns that the pair takes part in.
    pub patterns: Vec<P>,
    /// How pages of the type are found.
    pub page_type: ObjectType,
    /// How often the arguments named children: the type is declared a
    /// parent once for each.
    pub parent_marks: usize,
    /// How often the arguments named a parent: the type is declared a child
    /// once for each.
    pub child_marks: usize,
}

/// An [`ObjectPlan`] with its lists as sequences.
pub struct PlanView<N, P> {
    pub children: Seq<N>,
    pub metadata: Seq<N>,
    pub parent: Option<N>,
    pub pair: Option<N>,
    pub sequence: PairSequence,
    pub patterns: Seq<P>,
    pub page_type: ObjectType,
    pub parent_marks: int,
    pub child_marks: int,
}

impl<N, P> View for ObjectPlan<N, P> {
    type V = PlanView<N, P>;

    open spec fn view(&self) -> PlanView<N, P> {
        PlanView {
            children: self.children@,
            metadata: self.metadata@,
            parent: self.parent,
            pair: self.pair,
            sequence: self.sequence,
            patterns: self.patterns@,
            page_type: self.page_type,
            parent_marks: self.parent_marks as int,
            child_marks: self.child_marks as int,
        }
    }
}

impl<N, P> PlanView<N, P> {
    /// The plan of a declaration without arguments: an inferred page
    /// without relatives.
    pub open spec fn plain() -> PlanView<N, P> {
        PlanView {
            children: Seq::empty(),
            metadata: Seq::empty(),
            parent: None,
            pair: None,
            sequence: PairSequence::Unpaired,
            patterns: Seq::empty(),
            page_type: ObjectType::Inferred,
            parent_marks: 0,
            child_marks: 0,
        }
    }

    /// The plan after one more argument. An argument replaces what an
    /// earlier one of its name said. Naming a pair puts the type first in
    /// it, unless a place was named before.
    pub open spec fn with(self, arg: ArgView<N, P>) -> PlanView<N, P> {
        match arg {
            ArgView::Children(types) => PlanView {
                children: types,
                parent_marks: self.parent_marks + 1,
                ..self
            },
            ArgView::Metadata(types) => PlanView { metadata: types, ..self },
            ArgView::Parent(parent) => PlanView {
                parent: Some(parent),
                child_marks: self.child_marks + 1,
                ..self
            },
            ArgView::Pair(pair) => PlanView {
                pair: Some(pair),
                sequence: if self.sequence is Unpaired {
                    PairSequence::First
                } else {
                    self.sequence
                },
                ..self
            },
            ArgView::PageType(kind) => PlanView { page_type: kind, ..self },
            ArgView::PairSequence(sequence) => PlanView { sequence, ..self },
            ArgView::Patterns(patterns) => PlanView { patterns, ..self },
        }
    }

    /// The plan of a declaration with the arguments `args`.
    pub open spec fn of(args: Seq<ArgView<N, P>>) -> PlanView<N, P>
        decreases args.len(),
    {
        if args.len() == 0 {
            PlanView::plain()
        } else {
            PlanView::of(args.drop_last()).with(args.last())
        }
    }

    /// The types that the declared type expects as children: the metadata
    /// first, then the children.
    pub open spec fn expected_children(self) -> Seq<N> {
        self.metadata + self.children
    }
}

impl<N, P> ObjectPlan<N, P> {
    /// The plan of a declaration without arguments.
    pub fn plain() -> (plan: ObjectPlan<N, P>)
        ensures
            plan@ == PlanView::<N, P>::plain(),
    {
        ObjectPlan {
            children: Vec::new(),
            metadata: Vec::new(),
            parent: None,
            pair: None,
            sequence: PairSequence::Unpaired,
            patterns: Vec::new(),
            page_type: ObjectType::Inferred,
            parent_marks: 0,
            child_marks: 0,
        }
    }

    /// Takes one more argument into the plan.
    pub fn apply(&mut self, arg: ObjectArg<N, P>)
        requires
            old(self).parent_marks < usize::MAX,
            old(self).child_marks < usize::MAX,
        ensures
            final(self)@ == old(self)@.with(arg@),
    {
        match arg {
            ObjectArg::Children(types) => {
                self.children = types;
                self.parent_marks = self.parent_marks + 1;
            },
            ObjectArg::Metadata(types) => {
                self.metadata = types;
            },
            ObjectArg::Parent(parent) => {
                self.parent = Some(parent);
                self.child_marks = self.child_marks + 1;
            },
            ObjectArg::Pair(pair) => {
                self.pair = Some(pair);
                match self.sequence {
                    PairSequence::Unpaired => {
                        self.sequence = PairSequence::First;
                    },
                    _ => {},
                }
            },
            ObjectArg::PageType(kind) => {
                self.page_type = kind;
            },
            ObjectArg::PairSequence(sequence) => {
                self.sequence = sequence;
            },
            ObjectArg::Patterns(patterns) => {
                self.patterns = patterns;
            },
        }
    }

    /// The types that the declared type expects as children: the metadata
    /// first, then the children. The plan gives them up.
    pub fn take_expected_children(&mut self) -> (expected: Vec<N>)
        ensures
            expected@ == old(self)@.expected_children(),
            final(self)@ == (PlanView {
                children: Seq::empty(),
                metadata: Seq::empty(),
                ..old(self)@
            }),
    {
        let mut expected: Vec<N> = Vec::new();
        expected.append(&mut self.metadata);
        expected.append(&mut self.children);
        expected
    }

    /// Whether the declared type is the half of a pair.
    pub fn is_paired(&self) -> (paired: bool)
        ensures
            paired == (self@.pair is Some),
    {
        self.pair.is_some()
    }
}

impl<N, P> ObjectArgs<N, P> {
    /// The plan of the declaration with these arguments.
    pub fn plan(self) -> (plan: ObjectPlan<N, P>)
        ensures
            plan@ == PlanView::of(arg_views(self.args@)),
    {
        let ghost all = arg_views(self.args@);
        let mut plan: ObjectPlan<N, P> = ObjectPlan::plain();
        let total = self.args.len();
        let mut done: usize = 0;
        for arg in it: self.args
            invariant
                it.seq() == self.args@,
                total == self.args@.len(),
                done == it.index(),
                all == arg_views(self.args@),
                plan@ == PlanView::of(all.take(done as int)),
                plan.parent_marks <= done,
                plan.child_marks <= done,
        {
            proof {
                assert(arg@ == all[done as int]);
                assert(all.take(done + 1).drop_last() =~= all.take(done as int));
                assert(all.take(done + 1).last() == all[done as int]);
            }
            plan.apply(arg);
            done += 1;
        }
        assert(all.take(done as int) =~= all);
        plan
    }
}

} // verus!
