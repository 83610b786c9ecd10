//! The client configuration as the Kubernetes client library lays it out, as
//! far as the two actions read it, and the two actions on it; and where the
//! file lies.
//!
//! Here the current context may be unset, and an entry may come without
//! settings. An entry without settings has no namespace and cannot be given
//! one.

use crate::cli::{Action, Args};
use crate::error::Error;
use crate::kubernetes::{get_namespaces, named};
use crate::step::{Next, NextView};
use crate::ui::{
    answer_of, candidates, candidates_of, is_marked, joined, labels_of,
    lemma_picked_label_selects_name, lemma_unmarked_label_is_name, selection, selection_of,
    unmarked, PromptOutput, Selection, SelectionView,
};
use vstd::prelude::*;

verus! {

/// Where the file lies: at `base`, or, where `relative` is there, below the
/// directory `base` at the path `relative`.
#[derive(Clone, Debug, PartialEq, Eq)]
pub struct KubeconfigPath {
    pub base: String,
    pub relative: Option<String>,
}

/// A `KubeconfigPath` as a mathematical value.
pub struct KubeconfigPathView {
    pub base: Seq<char>,
    pub relative: Option<Seq<char>>,
}

impl View for KubeconfigPath {
    type V = KubeconfigPathView;

    open spec fn view(&self) -> KubeconfigPathView {
        KubeconfigPathView { base: self.base@, relative: self.relative.deep_view() }
    }
}

/// The path of the file below the home directory.
pub open spec fn default_relative_path() -> Seq<char> {
    ".kube/config"@
}

/// Where the file lies, given the path that the environment names for it and
/// the home directory, each as far as it is set. A path that is named wins;
/// else the file is the default one below the home directory; with neither,
/// there is no place to look.
pub open spec fn kubeconfig_path_of(kubeconfig: Option<Seq<char>>, home: Option<Seq<char>>) -> Result<
    KubeconfigPathView,
    Error,
> {
    match kubeconfig {
        Some(path) => Ok(KubeconfigPathView { base: path, relative: None }),
        None => match home {
            Some(home) => Ok(
                KubeconfigPathView { base: home, relative: Some(default_relative_path()) },
            ),
            None => Err(Error::ConfigLocationUnresolvable),
        },
    }
}

/// Finds the file, given the values of the two variables of the environment
/// that say where it is: the path of the file itself, and the home directory.
pub fn get_kubeconfig_path(kubeconfig: Option<String>, home: Option<String>) -> (path: Result<
    KubeconfigPath,
    Error,
>)
    ensures
        match path {
            Ok(path) => kubeconfig_path_of(kubeconfig.deep_view(), home.deep_view()) == Ok::<
                KubeconfigPathView,
                Error,
            >(path@),
            Err(error) => kubeconfig_path_of(kubeconfig.deep_view(), home.deep_view()) == Err::<
                KubeconfigPathView,
                Error,
            >(error),
        },
{
    match kubeconfig {
        Some(path) => Ok(KubeconfigPath { base: path, relative: None }),
        None => match home {
            Some(home) => Ok(
                KubeconfigPath { base: home, relative: Some(".kube/config".to_owned()) },
            ),
            None => Err(Error::ConfigLocationUnresolvable),
        },
    }
}

/// The settings of a context.
#[derive(Clone, Debug, PartialEq, Eq)]
pub struct Context {
    /// The name of the cluster.
    pub cluster: String,
    /// The name of the user.
    pub user: Option<String>,
    /// The namespace to use; without one, the cluster's default.
    pub namespace: Option<String>,
}

/// A context under its name.
#[derive(Clone, Debug, PartialEq, Eq)]
pub struct NamedContext {
    pub name: String,
    pub context: Option<Context>,
}

/// The part of the configuration that the two actions read and write.
#[derive(Clone, Debug, PartialEq, Eq)]
pub struct Kubeconfig {
    /// The name of the context that is in use, if one is.
    pub current_context: Option<String>,
    /// The contexts, in the order of the document. Two may bear one name: the
    /// first of them is then the one that the name stands for.
    pub contexts: Vec<NamedContext>,
}

/// A `Context` as a mathematical value.
pub struct ContextView {
    pub cluster: Seq<char>,
    pub user: Option<Seq<char>>,
    pub namespace: Option<Seq<char>>,
}

/// A `NamedContext` as a mathematical value.
pub struct NamedContextView {
    pub name: Seq<char>,
    pub context: Option<ContextView>,
}

/// A `Kubeconfig` as a mathematical value.
pub struct KubeconfigView {
    pub current_context: Option<Seq<char>>,
    pub contexts: Seq<NamedContextView>,
}

impl View for Context {
    type V = ContextView;

    open spec fn view(&self) -> ContextView {
        ContextView {
            cluster: self.cluster@,
            user: self.user.deep_view(),
            namespace: self.namespace.deep_view(),
        }
    }
}

impl View for NamedContext {
    type V = NamedContextView;

    open spec fn view(&self) -> NamedContextView {
        NamedContextView {
            name: self.name@,
            context: match self.context {
                Some(context) => Some(context@),
                None => None,
            },
        }
    }
}

impl View for Kubeconfig {
    type V = KubeconfigView;

    open spec fn view(&self) -> KubeconfigView {
        KubeconfigView {
            current_context: self.current_context.deep_view(),
            contexts: Seq::new(self.contexts@.len(), |i: int| self.contexts@[i]@),
        }
    }
}

impl NamedContextView {
    /// The namespace of the entry: none where it has no settings.
    pub open spec fn namespace(self) -> Option<Seq<char>> {
        match self.context {
            Some(context) => context.namespace,
            None => None,
        }
    }

    /// The entry with `namespace` as its namespace, and nothing else changed.
    /// An entry without settings is left as it is.
    pub open spec fn with_namespace(self, namespace: Seq<char>) -> NamedContextView {
        match self.context {
            Some(context) => NamedContextView {
                context: Some(ContextView { namespace: Some(namespace), ..context }),
                ..self
            },
            None => self,
        }
    }
}

impl KubeconfigView {
    /// The names of the contexts, in the order of the document.
    pub open spec fn names(self) -> Seq<Seq<char>> {
        Seq::new(self.contexts.len(), |i: int| self.contexts[i].name)
    }

    /// Whether the entry at `i` is the first that bears `name`.
    pub open spec fn is_first_named(self, name: Seq<char>, i: int) -> bool {
        &&& 0 <= i < self.contexts.len()
        &&& self.contexts[i].name == name
        &&& forall|j: int| 0 <= j < i ==> (#[trigger] self.contexts[j]).name != name
    }

    /// The place of the entry that `name` stands for: the first that bears
    /// it, if any does.
    pub open spec fn first_named(self, name: Seq<char>) -> Option<int> {
        if exists|i: int| self.is_first_named(name, i) {
            Some(choose|i: int| self.is_first_named(name, i))
        } else {
            None
        }
    }

    /// The place of the entry of the current context: none where the current
    /// context is unset, and where no entry bears its name.
    pub open spec fn current(self) -> Option<int> {
        match self.current_context {
            Some(name) => self.first_named(name),
            None => None,
        }
    }

    /// The namespace of the current context, if it has one.
    pub open spec fn current_namespace(self) -> Option<Seq<char>> {
        match self.current() {
            Some(i) => self.contexts[i].namespace(),
            None => None,
        }
    }

    /// The document with `name` as its current context, and nothing else
    /// changed.
    pub open spec fn with_current_context(self, name: Seq<char>) -> KubeconfigView {
        KubeconfigView { current_context: Some(name), ..self }
    }

    /// The document with `namespace` as the namespace of the current context,
    /// and nothing else changed. Where the current context has no entry, or
    /// an entry without settings, this is the document itself.
    pub open spec fn with_current_namespace(self, namespace: Seq<char>) -> KubeconfigView {
        match self.current() {
            Some(i) => KubeconfigView {
                contexts: self.contexts.update(i, self.contexts[i].with_namespace(namespace)),
                ..self
            },
            None => self,
        }
    }

    /// The first step of switching the context. A name that is given becomes
    /// the current context, whether or not an entry bears it, and nobody is
    /// asked. Without one the user is asked to pick among the names of the
    /// contexts, the current one marked.
    pub open spec fn context_step(self, name: Option<Seq<char>>) -> (KubeconfigView, NextView) {
        match name {
            Some(name) => (self.with_current_context(name), NextView::Store),
            None => (self, NextView::Prompt(candidates_of(self.names(), self.current_context))),
        }
    }

    /// The step that takes the user's answer on the context. What was picked
    /// becomes the current context, be it empty; without an answer the run
    /// fails and the document stays as it is.
    pub open spec fn context_answer_step(self, answer: Option<Seq<char>>) -> (
        KubeconfigView,
        NextView,
    ) {
        match selection_of(answer) {
            SelectionView::Chosen(name) => (self.with_current_context(name), NextView::Store),
            SelectionView::Empty => (self.with_current_context(Seq::empty()), NextView::Store),
            SelectionView::Cancelled => (self, NextView::Fail(Error::SelectionCancelled)),
        }
    }

    /// The first step of switching the namespace. A name that is given becomes
    /// the namespace of the current context, and neither the cluster nor the
    /// user is asked. Without one the cluster is asked for its namespaces.
    pub open spec fn namespace_step(self, name: Option<Seq<char>>) -> (KubeconfigView, NextView) {
        match name {
            Some(name) => (self.with_current_namespace(name), NextView::Store),
            None => (self, NextView::ListNamespaces),
        }
    }

    /// The step that takes the cluster's listing: the user is asked to pick
    /// among the namespaces, the one marked that is configured now.
    pub open spec fn namespace_listed_step(self, items: Seq<Option<Seq<char>>>) -> (
        KubeconfigView,
        NextView,
    ) {
        (self, NextView::Prompt(candidates_of(named(items), self.current_namespace())))
    }

    /// The step that takes the user's answer on the namespace. What was
    /// picked becomes the namespace of the current context. Where nothing is
    /// left of the picked line the document stays as it is and the run goes
    /// on; without an answer the document stays as it is and the run fails.
    pub open spec fn namespace_answer_step(self, answer: Option<Seq<char>>) -> (
        KubeconfigView,
        NextView,
    ) {
        match selection_of(answer) {
            SelectionView::Chosen(name) => (self.with_current_namespace(name), NextView::Store),
            SelectionView::Empty => (self, NextView::Keep),
            SelectionView::Cancelled => (self, NextView::Fail(Error::SelectionCancelled)),
        }
    }
}

impl Kubeconfig {
    /// The names of the contexts, in the order of the document.
    pub fn context_names(&self) -> (names: Vec<String>)
        ensures
            names.deep_view() == self@.names(),
    {
        let mut names: Vec<String> = Vec::new();
        let mut i: usize = 0;
        while i < self.contexts.len()
            invariant
                i <= self.contexts.len(),
                names.len() == i,
                forall|j: int| 0 <= j < i ==> (#[trigger] names[j])@ == self.contexts[j].name@,
            decreases self.contexts.len() - i,
        {
            names.push(self.contexts[i].name.clone());
            i += 1;
        }
        assert(names.deep_view() =~= self@.names());
        names
    }

    /// Looks an entry up by its name: the place of the first that bears it.
    pub fn find_context(&self, name: &String) -> (found: Option<usize>)
        ensures
            match found {
                Some(i) => self@.first_named(name@) == Some(i as int),
                None => self@.first_named(name@) is None,
            },
    {
        let mut i: usize = 0;
        while i < self.contexts.len()
            invariant
                i <= self.contexts.len(),
                forall|j: int| 0 <= j < i ==> (#[trigger] self@.contexts[j]).name != name@,
            decreases self.contexts.len() - i,
        {
            if self.contexts[i].name == *name {
                assert(self@.is_first_named(name@, i as int));
                return Some(i);
            }
            i += 1;
        }
        None
    }

    /// The place of the entry of the current context.
    pub fn find_current(&self) -> (found: Option<usize>)
        ensures
            match found {
                Some(i) => self@.current() == Some(i as int),
                None => self@.current() is None,
            },
    {
        match &self.current_context {
            Some(name) => self.find_context(name),
            None => None,
        }
    }

    /// The namespace of the current context, if it has one.
    pub fn current_namespace(&self) -> (namespace: Option<String>)
        ensures
            namespace.deep_view() == self@.current_namespace(),
    {
        match self.find_current() {
            Some(i) => match &self.contexts[i].context {
                Some(context) => context.namespace.clone(),
                None => None,
            },
            None => None,
        }
    }

    /// Makes `name` the current context. No entry needs to bear it.
    pub fn set_current_context(&mut self, name: String)
        ensures
            final(self)@ == old(self)@.with_current_context(name@),
    {
        self.current_context = Some(name);
    }
}

/// Makes `namespace` the namespace of the current context. Where the current
/// context has no entry, or an entry without settings, nothing changes.
pub fn set_current_namespace(config: &mut Kubeconfig, namespace: String)
    ensures
        final(config)@ == old(config)@.with_current_namespace(namespace@),
{
    match config.find_current() {
        Some(i) => {
            match &mut config.contexts[i].context {
                Some(context) => {
                    context.namespace = Some(namespace);
                },
                None => {},
            }
            assert(config@.contexts =~= old(config)@.contexts.update(
                i as int,
                old(config)@.contexts[i as int].with_namespace(namespace@),
            ));
        },
        None => {},
    }
}

/// Switches the current context: the first step. With a name the document is
/// ready to be stored; without one the user is to be asked.
pub fn select_context(config: Kubeconfig, kube_context: &Option<String>) -> (step: (
    Kubeconfig,
    Next,
))
    ensures
        (step.0@, step.1@) == config@.context_step(kube_context.deep_view()),
{
    let mut config = config;
    match kube_context {
        Some(name) => {
            config.set_current_context(name.clone());
            (config, Next::Store)
        },
        None => {
            let names = config.context_names();
            let input = candidates(&names, config.current_context.as_ref());
            (config, Next::Prompt(input))
        },
    }
}

/// Switches the current context: the step that takes the user's answer.
pub fn select_context_answer(config: Kubeconfig, answer: Option<String>) -> (step: (
    Kubeconfig,
    Next,
))
    ensures
        (step.0@, step.1@) == config@.context_answer_step(answer.deep_view()),
{
    let mut config = config;
    match selection(answer) {
        Selection::Chosen(name) => {
            config.set_current_context(name);
            (config, Next::Store)
        },
        Selection::Empty => {
            config.set_current_context(String::new());
            (config, Next::Store)
        },
        Selection::Cancelled => (config, Next::Fail(Error::SelectionCancelled)),
    }
}

/// Switches the namespace of the current context: the first step. With a name
/// the document is ready to be stored; without one the cluster is to be asked
/// for its namespaces.
pub fn select_namespace(config: Kubeconfig, kube_namespace: &Option<String>) -> (step: (
    Kubeconfig,
    Next,
))
    ensures
        (step.0@, step.1@) == config@.namespace_step(kube_namespace.deep_view()),
{
    let mut config = config;
    match kube_namespace {
        Some(name) => {
            set_current_namespace(&mut config, name.clone());
            (config, Next::Store)
        },
        None => (config, Next::ListNamespaces),
    }
}

/// Switches the namespace of the current context: the step that takes the
/// cluster's listing, of each namespace its name, if it has one.
pub fn select_namespace_listed(config: Kubeconfig, items: &Vec<Option<String>>) -> (step: (
    Kubeconfig,
    Next,
))
    ensures
        (step.0@, step.1@) == config@.namespace_listed_step(items.deep_view()),
{
    let current_namespace = config.current_namespace();
    let input = get_namespaces(items, current_namespace.as_ref());
    (config, Next::Prompt(input))
}

/// Switches the namespace of the current context: the step that takes the
/// user's answer.
pub fn select_namespace_answer(config: Kubeconfig, answer: Option<String>) -> (step: (
    Kubeconfig,
    Next,
))
    ensures
        (step.0@, step.1@) == config@.namespace_answer_step(answer.deep_view()),
{
    let mut config = config;
    match selection(answer) {
        Selection::Chosen(name) => {
            set_current_namespace(&mut config, name);
            (config, Next::Store)
        },
        Selection::Empty => (config, Next::Keep),
        Selection::Cancelled => (config, Next::Fail(Error::SelectionCancelled)),
    }
}

/// The first step of the action that the arguments ask for.
pub fn dispatch(config: Kubeconfig, args: &Args) -> (step: (Kubeconfig, Next))
    ensures
        (step.0@, step.1@) == match args.action {
            Action::Context => config@.context_step(args.item_name.deep_view()),
            Action::Namespace => config@.namespace_step(args.item_name.deep_view()),
        },
{
    match args.action {
        Action::Context => select_context(config, &args.item_name),
        Action::Namespace => select_namespace(config, &args.item_name),
    }
}

/// The step that takes the user's answer, of the action that the arguments
/// ask for.
pub fn dispatch_answer(config: Kubeconfig, args: &Args, answer: Option<String>) -> (step: (
    Kubeconfig,
    Next,
))
    ensures
        (step.0@, step.1@) == match args.action {
            Action::Context => config@.context_answer_step(answer.deep_view()),
            Action::Namespace => config@.namespace_answer_step(answer.deep_view()),
        },
{
    match args.action {
        Action::Context => select_context_answer(config, answer),
        Action::Namespace => select_namespace_answer(config, answer),
    }
}

/// With a name given, switching the context asks nobody: the document is
/// ready to be stored, its current context is exactly that name, whether or
/// not an entry bears it, and the contexts are as they were.
pub proof fn lemma_explicit_context(config: KubeconfigView, name: Seq<char>)
    ensures
        config.context_step(Some(name)).1 == NextView::Store,
        config.context_step(Some(name)).0 == (KubeconfigView {
            current_context: Some(name),
            contexts: config.contexts,
        }),
{
}

/// With a name given, switching the namespace asks nobody: the document is
/// ready to be stored. The entry that the current context stands for has the
/// name as its namespace, if it has settings, and is otherwise as it was;
/// every other entry and the current context are as they were.
pub proof fn lemma_explicit_namespace(config: KubeconfigView, namespace: Seq<char>, i: int)
    requires
        0 <= i < config.contexts.len(),
    ensures
        config.namespace_step(Some(namespace)).1 == NextView::Store,
        config.namespace_step(Some(namespace)).0.current_context == config.current_context,
        config.namespace_step(Some(namespace)).0.contexts.len() == config.contexts.len(),
        config.current() == Some(i) ==> config.namespace_step(Some(namespace)).0.contexts[i]
            == match config.contexts[i].context {
            Some(context) => NamedContextView {
                name: config.contexts[i].name,
                context: Some(
                    ContextView {
                        cluster: context.cluster,
                        user: context.user,
                        namespace: Some(namespace),
                    },
                ),
            },
            None => config.contexts[i],
        },
        config.current() != Some(i) ==> config.namespace_step(Some(namespace)).0.contexts[i]
            == config.contexts[i],
{
}

/// After the namespace of the current context was set, it is the namespace
/// of the current context, provided that the current context has an entry
/// with settings.
pub proof fn lemma_namespace_is_set(config: KubeconfigView, namespace: Seq<char>)
    requires
        config.current() matches Some(i) && config.contexts[i].context is Some,
    ensures
        config.with_current_namespace(namespace).current_namespace() == Some(namespace),
{
    let name = config.current_context->0;
    let i = config.current()->0;
    let after = config.with_current_namespace(namespace);
    assert(config.is_first_named(name, i));
    assert(after.is_first_named(name, i));
}

/// Where the user leaves the prompt, or the prompt does not run, the run
/// fails and the document is as it was, in either action.
pub proof fn lemma_cancelled_changes_nothing(config: KubeconfigView, output: Option<PromptOutput>)
    requires
        output matches Some(report) ==> report.is_abort,
    ensures
        config.context_answer_step(answer_of(output)) == (
            config,
            NextView::Fail(Error::SelectionCancelled),
        ),
        config.namespace_answer_step(answer_of(output)) == (
            config,
            NextView::Fail(Error::SelectionCancelled),
        ),
{
}

/// Where nothing is left of the line that was picked for the namespace, the
/// document is as it was and the run does not fail.
pub proof fn lemma_empty_namespace_changes_nothing(config: KubeconfigView, line: Seq<char>)
    requires
        unmarked(line).len() == 0,
    ensures
        config.namespace_answer_step(Some(line)) == (config, NextView::Keep),
{
}

/// Picking the label of a context makes that context the current one: the
/// current context whatever its name is, every other context if its name does
/// not itself end in the mark.
pub proof fn lemma_picked_context(config: KubeconfigView, i: int)
    requires
        0 <= i < config.contexts.len(),
        config.current_context != Some(config.contexts[i].name) ==> !is_marked(config.contexts[i].name),
    ensures
        config.context_step(None).1 matches NextView::Prompt(text) && text == joined(
            labels_of(config.names(), config.current_context),
        ),
        config.context_answer_step(Some(labels_of(config.names(), config.current_context)[i]))
            == (config.with_current_context(config.contexts[i].name), NextView::Store),
{
    lemma_unmarked_label_is_name(config.names()[i], config.current_context);
    if config.contexts[i].name.len() == 0 {
        assert(config.contexts[i].name =~= Seq::<char>::empty());
    }
}

/// Picking the label of a namespace that the cluster listed makes it the
/// namespace of the current context, if its name is not empty: the namespace
/// that is configured now whatever its name is, every other namespace if its
/// name does not itself end in the mark.
pub proof fn lemma_picked_namespace(config: KubeconfigView, items: Seq<Option<Seq<char>>>, i: int)
    requires
        0 <= i < named(items).len(),
        named(items)[i].len() > 0,
        config.current_namespace() != Some(named(items)[i]) ==> !is_marked(named(items)[i]),
    ensures
        config.namespace_listed_step(items).1 matches NextView::Prompt(text) && text == joined(
            labels_of(named(items), config.current_namespace()),
        ),
        config.namespace_answer_step(
            Some(labels_of(named(items), config.current_namespace())[i]),
        ) == (config.with_current_namespace(named(items)[i]), NextView::Store),
{
    lemma_picked_label_selects_name(named(items), config.current_namespace(), i);
}

} // verus!
