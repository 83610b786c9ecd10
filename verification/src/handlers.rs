//! The configuration document with everything it holds, and the two actions
//! on it: switching the current context, and switching the namespace of the
//! current context.
//!
//! The document keeps what it does not understand. At each of its three
//! levels the fields that have no name here are held in `other`, and no step
//! touches them.

use crate::cli::{Action, Args};
use crate::error::Error;
use crate::kubernetes::{get_namespaces, named};
use crate::step::{Next, NextView};
use crate::ui::{
    answer_of, candidates, candidates_of, is_marked, joined, labels_of,
    lemma_picked_label_selects_name, lemma_unmarked_label_is_name, selection, selection_of,
    unmarked, PromptOutput, Selection, SelectionView,
};
use std::collections::HashMap;
use vstd::prelude::*;

verus! {

/// `serde_yaml::Value`, a value of any shape in a YAML document, declared
/// without anything of what is inside: nothing is claimed of such a value. The
/// library never looks into one. It carries them from the document that it is
/// given to the document that it gives back.
#[verifier::external_type_specification]
#[verifier::external_body]
pub struct ExValue(serde_yaml::Value);

/// The settings of a context.
#[derive(Clone, Debug, PartialEq)]
pub struct Context {
    /// The namespace to use; without one, the cluster's default.
    pub namespace: Option<String>,
    /// Every other field of the settings.
    pub other: HashMap<String, serde_yaml::Value>,
}

/// A context under its name.
#[derive(Clone, Debug, PartialEq)]
pub struct ContextEntry {
    pub name: String,
    pub context: Context,
    /// Every other field of the entry.
    pub other: HashMap<String, serde_yaml::Value>,
}

/// The whole document.
#[derive(Clone, Debug, PartialEq)]
pub struct Config {
    /// The name of the context that is in use.
    pub current_context: String,
    /// The contexts, in the order of the document. Two may bear one name: the
    /// first of them is then the one that the name stands for.
    pub contexts: Vec<ContextEntry>,
    /// Every other field of the document.
    pub other: HashMap<String, serde_yaml::Value>,
}

/// A `Context` as a mathematical value.
pub struct ContextView {
    pub namespace: Option<Seq<char>>,
    pub other: Map<String, serde_yaml::Value>,
}

/// A `ContextEntry` as a mathematical value.
pub struct ContextEntryView {
    pub name: Seq<char>,
    pub context: ContextView,
    pub other: Map<String, serde_yaml::Value>,
}

/// A `Config` as a mathematical value.
pub struct ConfigView {
    pub current_context: Seq<char>,
    pub contexts: Seq<ContextEntryView>,
    pub other: Map<String, serde_yaml::Value>,
}

impl View for Context {
    type V = ContextView;

    open spec fn view(&self) -> ContextView {
        ContextView { namespace: self.namespace.deep_view(), other: self.other@ }
    }
}

impl View for ContextEntry {
    type V = ContextEntryView;

    open spec fn view(&self) -> ContextEntryView {
        ContextEntryView { name: self.name@, context: self.context@, other: self.other@ }
    }
}

impl View for Config {
    type V = ConfigView;

    open spec fn view(&self) -> ConfigView {
        ConfigView {
            current_context: self.current_context@,
            contexts: Seq::new(self.contexts@.len(), |i: int| self.contexts@[i]@),
            other: self.other@,
        }
    }
}

impl ContextEntryView {
    /// The entry with `namespace` as its namespace, and nothing else changed.
    pub open spec fn with_namespace(self, namespace: Seq<char>) -> ContextEntryView {
        ContextEntryView {
            context: ContextView { namespace: Some(namespace), ..self.context },
            ..self
        }
    }
}

impl ConfigView {
    /// The names of the contexts, in the order of the document.
    pub open spec fn names(self) -> Seq<Seq<char>> {
        Seq::new(self.contexts.len(), |i: int| self.contexts[i].name)
    }

    /// Whether the entry at `i` is the first that bears `name`.
    pub open spec fn is_first_named(self, name: Seq<char>, i: int) -> bool {
        &&& 0 <= i < self.contexts.len()
        &&& self.contexts[i].name == name
        &&& forall|j: int| 0 <= j < i ==> (#[trigger] self.contexts[j]).name != name
    }

    /// The place of the entry that `name` stands for: the first that bears
    /// it, if any does.
    pub open spec fn first_named(self, name: Seq<char>) -> Option<int> {
        if exists|i: int| self.is_first_named(name, i) {
            Some(choose|i: int| self.is_first_named(name, i))
        } else {
            None
        }
    }

    /// The namespace of the current context: none where no entry bears the
    /// name of the current context, and where that entry has none.
    pub open spec fn current_namespace(self) -> Option<Seq<char>> {
        match self.first_named(self.current_context) {
            Some(i) => self.contexts[i].context.namespace,
            None => None,
        }
    }

    /// The document with `name` as its current context, and nothing else
    /// changed.
    pub open spec fn with_current_context(self, name: Seq<char>) -> ConfigView {
        ConfigView { current_context: name, ..self }
    }

    /// The document with `namespace` as the namespace of the current context,
    /// and nothing else changed. Where no entry bears the name of the current
    /// context, this is the document itself.
    pub open spec fn with_current_namespace(self, namespace: Seq<char>) -> ConfigView {
        match self.first_named(self.current_context) {
            Some(i) => ConfigView {
                contexts: self.contexts.update(i, self.contexts[i].with_namespace(namespace)),
                ..self
            },
            None => self,
        }
    }

    /// Whether `after` holds what this document holds but for the two fields
    /// that can be switched: the same entries under the same names, in the
    /// same order, and at each of the three levels the same other fields.
    pub open spec fn keeps_unknown_fields(self, after: ConfigView) -> bool {
        &&& after.other == self.other
        &&& after.contexts.len() == self.contexts.len()
        &&& forall|i: int|
            0 <= i < self.contexts.len() ==> {
                &&& (#[trigger] after.contexts[i]).name == self.contexts[i].name
                &&& after.contexts[i].other == self.contexts[i].other
                &&& after.contexts[i].context.other == self.contexts[i].context.other
            }
    }

    /// The first step of switching the context. A name that is given becomes
    /// the current context, whether or not an entry bears it, and nobody is
    /// asked. Without one the user is asked to pick among the names of the
    /// contexts, the current one marked.
    pub open spec fn context_step(self, name: Option<Seq<char>>) -> (ConfigView, NextView) {
        match name {
            Some(name) => (self.with_current_context(name), NextView::Store),
            None => (
                self,
                NextView::Prompt(candidates_of(self.names(), Some(self.current_context))),
            ),
        }
    }

    /// The step that takes the user's answer on the context. What was picked
    /// becomes the current context, be it empty; without an answer the run
    /// fails and the document stays as it is.
    pub open spec fn context_answer_step(self, answer: Option<Seq<char>>) -> (
        ConfigView,
        NextView,
    ) {
        match selection_of(answer) {
            SelectionView::Chosen(name) => (self.with_current_context(name), NextView::Store),
            SelectionView::Empty => (self.with_current_context(Seq::empty()), NextView::Store),
            SelectionView::Cancelled => (self, NextView::Fail(Error::SelectionCancelled)),
        }
    }

    /// The first step of switching the namespace. A name that is given becomes
    /// the namespace of the current context, and neither the cluster nor the
    /// user is asked. Without one the cluster is asked for its namespaces.
    pub open spec fn namespace_step(self, name: Option<Seq<char>>) -> (ConfigView, NextView) {
        match name {
            Some(name) => (self.with_current_namespace(name), NextView::Store),
            None => (self, NextView::ListNamespaces),
        }
    }

    /// The step that takes the cluster's listing: the user is asked to pick
    /// among the namespaces, the one marked that is configured now.
    pub open spec fn namespace_listed_step(self, items: Seq<Option<Seq<char>>>) -> (
        ConfigView,
        NextView,
    ) {
        (self, NextView::Prompt(candidates_of(named(items), self.current_namespace())))
    }

    /// The step that takes the user's answer on the namespace. What was
    /// picked becomes the namespace of the current context. Where nothing is
    /// left of the picked line the document stays as it is and the run goes
    /// on; without an answer the document stays as it is and the run fails.
    pub open spec fn namespace_answer_step(self, answer: Option<Seq<char>>) -> (
        ConfigView,
        NextView,
    ) {
        match selection_of(answer) {
            SelectionView::Chosen(name) => (self.with_current_namespace(name), NextView::Store),
            SelectionView::Empty => (self, NextView::Keep),
            SelectionView::Cancelled => (self, NextView::Fail(Error::SelectionCancelled)),
        }
    }
}

impl Config {
    /// The names of the contexts, in the order of the document.
    pub fn context_names(&self) -> (names: Vec<String>)
        ensures
            names.deep_view() == self@.names(),
    {
        let mut names: Vec<String> = Vec::new();
        let mut i: usize = 0;
        while i < self.contexts.len()
            invariant
                i <= self.contexts.len(),
                names.len() == i,
                forall|j: int| 0 <= j < i ==> (#[trigger] names[j])@ == self.contexts[j].name@,
            decreases self.contexts.len() - i,
        {
            names.push(self.contexts[i].name.clone());
            i += 1;
        }
        assert(names.deep_view() =~= self@.names());
        names
    }

    /// Looks an entry up by its name: the place of the first that bears it.
    pub fn find_context(&self, name: &String) -> (found: Option<usize>)
        ensures
            match found {
                Some(i) => self@.first_named(name@) == Some(i as int),
                None => self@.first_named(name@) is None,
            },
    {
        let mut i: usize = 0;
        while i < self.contexts.len()
            invariant
                i <= self.contexts.len(),
                forall|j: int| 0 <= j < i ==> (#[trigger] self@.contexts[j]).name != name@,
            decreases self.contexts.len() - i,
        {
            if self.contexts[i].name == *name {
                assert(self@.is_first_named(name@, i as int));
                return Some(i);
            }
            i += 1;
        }
        None
    }

    /// The namespace of the current context, if it has one.
    pub fn current_namespace(&self) -> (namespace: Option<String>)
        ensures
            namespace.deep_view() == self@.current_namespace(),
    {
        match self.find_context(&self.current_context) {
            Some(i) => self.contexts[i].context.namespace.clone(),
            None => None,
        }
    }

    /// Makes `name` the current context. No entry needs to bear it.
    pub fn set_current_context(&mut self, name: String)
        ensures
            final(self)@ == old(self)@.with_current_context(name@),
    {
        self.current_context = name;
    }

    /// Makes `namespace` the namespace of the current context. Where no entry
    /// bears the name of the current context, nothing changes.
    pub fn set_current_namespace(&mut self, namespace: String)
        ensures
            final(self)@ == old(self)@.with_current_namespace(namespace@),
    {
        match self.find_context(&self.current_context) {
            Some(i) => {
                self.contexts[i].context.namespace = Some(namespace);
                assert(self@.contexts =~= old(self)@.contexts.update(
                    i as int,
                    old(self)@.contexts[i as int].with_namespace(namespace@),
                ));
            },
            None => {},
        }
    }
}

/// Switches the current context: the first step. With a name the document is
/// ready to be stored; without one the user is to be asked.
pub fn handle_context(config: Config, kube_context: &Option<String>) -> (step: (Config, Next))
    ensures
        (step.0@, step.1@) == config@.context_step(kube_context.deep_view()),
{
    let mut config = config;
    match kube_context {
        Some(name) => {
            config.set_current_context(name.clone());
            (config, Next::Store)
        },
        None => {
            let names = config.context_names();
            let input = candidates(&names, Some(&config.current_context));
            (config, Next::Prompt(input))
        },
    }
}

/// Switches the current context: the step that takes the user's answer.
pub fn handle_context_answer(config: Config, answer: Option<String>) -> (step: (Config, Next))
    ensures
        (step.0@, step.1@) == config@.context_answer_step(answer.deep_view()),
{
    let mut config = config;
    match selection(answer) {
        Selection::Chosen(name) => {
            config.set_current_context(name);
            (config, Next::Store)
        },
        Selection::Empty => {
            config.set_current_context(String::new());
            (config, Next::Store)
        },
        Selection::Cancelled => (config, Next::Fail(Error::SelectionCancelled)),
    }
}

/// Switches the namespace of the current context: the first step. With a name
/// the document is ready to be stored; without one the cluster is to be asked
/// for its namespaces.
pub fn handle_namespace(config: Config, kube_namespace: &Option<String>) -> (step: (Config, Next))
    ensures
        (step.0@, step.1@) == config@.namespace_step(kube_namespace.deep_view()),
{
    let mut config = config;
    match kube_namespace {
        Some(name) => {
            config.set_current_namespace(name.clone());
            (config, Next::Store)
        },
        None => (config, Next::ListNamespaces),
    }
}

/// Switches the namespace of the current context: the step that takes the
/// cluster's listing, of each namespace its name, if it has one.
pub fn handle_namespace_listed(config: Config, items: &Vec<Option<String>>) -> (step: (
    Config,
    Next,
))
    ensures
        (step.0@, step.1@) == config@.namespace_listed_step(items.deep_view()),
{
    let current_namespace = config.current_namespace();
    let input = get_namespaces(items, current_namespace.as_ref());
    (config, Next::Prompt(input))
}

/// Switches the namespace of the current context: the step that takes the
/// user's answer.
pub fn handle_namespace_answer(config: Config, answer: Option<String>) -> (step: (Config, Next))
    ensures
        (step.0@, step.1@) == config@.namespace_answer_step(answer.deep_view()),
{
    let mut config = config;
    match selection(answer) {
        Selection::Chosen(name) => {
            config.set_current_namespace(name);
            (config, Next::Store)
        },
        Selection::Empty => (config, Next::Keep),
        Selection::Cancelled => (config, Next::Fail(Error::SelectionCancelled)),
    }
}

/// The first step of the action that the arguments ask for.
pub fn dispatch(config: Config, args: &Args) -> (step: (Config, Next))
    ensures
        (step.0@, step.1@) == match args.action {
            Action::Context => config@.context_step(args.item_name.deep_view()),
            Action::Namespace => config@.namespace_step(args.item_name.deep_view()),
        },
{
    match args.action {
        Action::Context => handle_context(config, &args.item_name),
        Action::Namespace => handle_namespace(config, &args.item_name),
    }
}

/// The step that takes the user's answer, of the action that the arguments
/// ask for.
pub fn dispatch_answer(config: Config, args: &Args, answer: Option<String>) -> (step: (
    Config,
    Next,
))
    ensures
        (step.0@, step.1@) == match args.action {
            Action::Context => config@.context_answer_step(answer.deep_view()),
            Action::Namespace => config@.namespace_answer_step(answer.deep_view()),
        },
{
    match args.action {
        Action::Context => handle_context_answer(config, answer),
        Action::Namespace => handle_namespace_answer(config, answer),
    }
}

/// With a name given, switching the context asks nobody: the document is
/// ready to be stored, its current context is exactly that name, whether or
/// not an entry bears it, and nothing else in it has changed.
pub proof fn lemma_explicit_context(config: ConfigView, name: Seq<char>)
    ensures
        config.context_step(Some(name)).1 == NextView::Store,
        config.context_step(Some(name)).0 == (ConfigView {
            current_context: name,
            contexts: config.contexts,
            other: config.other,
        }),
{
}

/// With a name given, switching the namespace asks nobody: the document is
/// ready to be stored. The entry that the current context stands for has the
/// name as its namespace and is otherwise as it was; every other entry, the
/// current context and the other fields of the document are as they were.
pub proof fn lemma_explicit_namespace(config: ConfigView, namespace: Seq<char>, i: int)
    requires
        0 <= i < config.contexts.len(),
    ensures
        config.namespace_step(Some(namespace)).1 == NextView::Store,
        config.namespace_step(Some(namespace)).0.current_context == config.current_context,
        config.namespace_step(Some(namespace)).0.other == config.other,
        config.namespace_step(Some(namespace)).0.contexts.len() == config.contexts.len(),
        config.is_first_named(config.current_context, i) ==> config.namespace_step(
            Some(namespace),
        ).0.contexts[i] == (ContextEntryView {
            name: config.contexts[i].name,
            context: ContextView {
                namespace: Some(namespace),
                other: config.contexts[i].context.other,
            },
            other: config.contexts[i].other,
        }),
        !config.is_first_named(config.current_context, i) ==> config.namespace_step(
            Some(namespace),
        ).0.contexts[i] == config.contexts[i],
{
}

/// No step loses a field that the library does not understand: whatever is
/// given, named, listed or picked, the document after the step holds the same
/// entries under the same names and the same other fields at every level.
pub proof fn lemma_steps_keep_unknown_fields(
    config: ConfigView,
    name: Option<Seq<char>>,
    items: Seq<Option<Seq<char>>>,
    answer: Option<Seq<char>>,
)
    ensures
        config.keeps_unknown_fields(config.context_step(name).0),
        config.keeps_unknown_fields(config.context_answer_step(answer).0),
        config.keeps_unknown_fields(config.namespace_step(name).0),
        config.keeps_unknown_fields(config.namespace_listed_step(items).0),
        config.keeps_unknown_fields(config.namespace_answer_step(answer).0),
{
}

/// After the namespace of the current context was set, it is the namespace
/// of the current context, provided that an entry bears the name of the
/// current context.
pub proof fn lemma_namespace_is_set(config: ConfigView, namespace: Seq<char>)
    requires
        config.first_named(config.current_context) is Some,
    ensures
        config.with_current_namespace(namespace).current_namespace() == Some(namespace),
{
    let i = config.first_named(config.current_context)->0;
    let after = config.with_current_namespace(namespace);
    assert(config.is_first_named(config.current_context, i));
    assert(after.is_first_named(after.current_context, i));
}

/// Where the user leaves the prompt, or the prompt does not run, the run
/// fails and the document is as it was, in either action.
pub proof fn lemma_cancelled_changes_nothing(config: ConfigView, output: Option<PromptOutput>)
    requires
        output matches Some(report) ==> report.is_abort,
    ensures
        config.context_answer_step(answer_of(output)) == (
            config,
            NextView::Fail(Error::SelectionCancelled),
        ),
        config.namespace_answer_step(answer_of(output)) == (
            config,
            NextView::Fail(Error::SelectionCancelled),
        ),
{
}

/// Where nothing is left of the line that was picked for the namespace, the
/// document is as it was and the run does not fail.
pub proof fn lemma_empty_namespace_changes_nothing(config: ConfigView, line: Seq<char>)
    requires
        unmarked(line).len() == 0,
    ensures
        config.namespace_answer_step(Some(line)) == (config, NextView::Keep),
{
}

/// Picking the label of a context makes that context the current one: the
/// current context whatever its name is, every other context if its name does
/// not itself end in the mark.
pub proof fn lemma_picked_context(config: ConfigView, i: int)
    requires
        0 <= i < config.contexts.len(),
        Some(config.current_context) != Some(config.contexts[i].name) ==> !is_marked(config.contexts[i].name),
    ensures
        config.context_step(None).1 matches NextView::Prompt(text) && text == joined(
            labels_of(config.names(), Some(config.current_context)),
        ),
        config.context_answer_step(
            Some(labels_of(config.names(), Some(config.current_context))[i]),
        ) == (config.with_current_context(config.contexts[i].name), NextView::Store),
{
    lemma_unmarked_label_is_name(config.names()[i], Some(config.current_context));
    if config.contexts[i].name.len() == 0 {
        assert(config.contexts[i].name =~= Seq::<char>::empty());
    }
}

/// Picking the label of a namespace that the cluster listed makes it the
/// namespace of the current context, if its name is not empty: the namespace
/// that is configured now whatever its name is, every other namespace if its
/// name does not itself end in the mark.
pub proof fn lemma_picked_namespace(config: ConfigView, items: Seq<Option<Seq<char>>>, i: int)
    requires
        0 <= i < named(items).len(),
        named(items)[i].len() > 0,
        config.current_namespace() != Some(named(items)[i]) ==> !is_marked(named(items)[i]),
    ensures
        config.namespace_listed_step(items).1 matches NextView::Prompt(text) && text == joined(
            labels_of(named(items), config.current_namespace()),
        ),
        config.namespace_answer_step(
            Some(labels_of(named(items), config.current_namespace())[i]),
        ) == (config.with_current_namespace(named(items)[i]), NextView::Store),
{
    lemma_picked_label_selects_name(named(items), config.current_namespace(), i);
}

} // verus!
