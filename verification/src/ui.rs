//! The selection protocol: the labels that are put before the user, and the
//! meaning of what comes back.
//!
//! A candidate is shown under its own name. The one that is the current value
//! gets a mark behind its name, a space and an asterisk. The labels go to the
//! prompt as one text, a label per line. Of the line that comes back the
//! mark is taken off again: one mark, the one that was put there. A mark
//! before it belongs to the name.

use vstd::prelude::*;

verus! {

/// The mark behind the label of the current value.
pub open spec fn mark() -> Seq<char> {
    seq![' ', '*']
}

/// Whether a label ends in the mark.
pub open spec fn is_marked(label: Seq<char>) -> bool {
    label.len() >= 2 && label[label.len() - 2] == ' ' && label[label.len() - 1] == '*'
}

/// The label under which `name` is shown while `current` is the current value.
pub open spec fn label_of(name: Seq<char>, current: Option<Seq<char>>) -> Seq<char> {
    if current == Some(name) {
        name + mark()
    } else {
        name
    }
}

/// The labels of `names`, in their order.
pub open spec fn labels_of(names: Seq<Seq<char>>, current: Option<Seq<char>>) -> Seq<Seq<char>> {
    Seq::new(names.len(), |i: int| label_of(names[i], current))
}

/// A label without its mark: without its last two characters where it ends
/// in the mark, else the label itself. No more than one mark is taken off.
pub open spec fn unmarked(label: Seq<char>) -> Seq<char> {
    if is_marked(label) {
        label.subrange(0, label.len() - 2)
    } else {
        label
    }
}

/// The lines as one text, a line feed between each two of them.
pub open spec fn joined(lines: Seq<Seq<char>>) -> Seq<char>
    decreases lines.len(),
{
    if lines.len() == 0 {
        Seq::empty()
    } else if lines.len() == 1 {
        lines[0]
    } else {
        joined(lines.drop_last()) + seq!['\n'] + lines.last()
    }
}

/// The text that goes to the prompt for `names` while `current` is the current
/// value.
pub open spec fn candidates_of(names: Seq<Seq<char>>, current: Option<Seq<char>>) -> Seq<char> {
    joined(labels_of(names, current))
}

/// The label of one candidate: its name, marked if it is the current value.
pub fn label(name: &String, current: Option<&String>) -> (label: String)
    ensures
        label@ == label_of(name@, current.deep_view()),
{
    let mut label = name.clone();
    match current {
        Some(current) => {
            if *name == *current {
                proof {
                    reveal_strlit(" *");
                }
                assert(" *"@ =~= mark());
                label.append(" *");
            }
        },
        None => {},
    }
    label
}

/// The labels of all candidates, in their order.
pub fn labels(names: &Vec<String>, current: Option<&String>) -> (labels: Vec<String>)
    ensures
        labels.deep_view() == labels_of(names.deep_view(), current.deep_view()),
{
    let mut labels: Vec<String> = Vec::new();
    let mut i: usize = 0;
    while i < names.len()
        invariant
            i <= names.len(),
            labels.len() == i,
            forall|j: int|
                0 <= j < i ==> (#[trigger] labels[j])@ == label_of(names[j]@, current.deep_view()),
        decreases names.len() - i,
    {
        labels.push(label(&names[i], current));
        i += 1;
    }
    assert(labels.deep_view() =~= labels_of(names.deep_view(), current.deep_view()));
    labels
}

/// Joins the lines with a line feed between each two of them.
pub fn join_lines(lines: &Vec<String>) -> (text: String)
    ensures
        text@ == joined(lines.deep_view()),
{
    let mut text = String::new();
    let mut i: usize = 0;
    while i < lines.len()
        invariant
            i <= lines.len(),
            text@ == joined(lines.deep_view().take(i as int)),
        decreases lines.len() - i,
    {
        proof {
            reveal_strlit("\n");
            let before = lines.deep_view().take(i as int);
            let after = lines.deep_view().take(i + 1);
            assert(after.drop_last() =~= before);
            assert(after.last() == lines[i as int]@);
            assert("\n"@ =~= seq!['\n']);
            if i == 0 {
                assert(text@ + lines[i as int]@ =~= lines[i as int]@);
            }
        }
        if i > 0 {
            text.append("\n");
        }
        text.append(lines[i].as_str());
        i += 1;
    }
    assert(lines.deep_view().take(lines.len() as int) =~= lines.deep_view());
    text
}

/// The text that goes to the prompt: the labels of all candidates, one per
/// line.
pub fn candidates(names: &Vec<String>, current: Option<&String>) -> (text: String)
    ensures
        text@ == candidates_of(names.deep_view(), current.deep_view()),
{
    let labels = labels(names, current);
    join_lines(&labels)
}

/// Takes the mark off a line that the prompt handed back, if the line ends
/// in one.
pub fn unmark(line: &str) -> (name: String)
    ensures
        name@ == unmarked(line@),
{
    let len: usize = line.unicode_len();
    if len >= 2 && line.get_char(len - 2) == ' ' && line.get_char(len - 1) == '*' {
        line.substring_char(0, len - 2).to_owned()
    } else {
        line.to_owned()
    }
}

/// How the prompt is laid out.
#[derive(Clone, Debug, PartialEq, Eq)]
pub struct PromptOptions {
    /// The part of the screen that the prompt may fill.
    pub height: String,
    /// Whether the user can pick no more than one line.
    pub no_multi: bool,
}

/// The part of the screen that the prompt fills: half of it.
pub open spec fn prompt_height() -> Seq<char> {
    "50%"@
}

/// The layout of every prompt of this library: on half of the screen, and for
/// one line only.
pub fn prompt_options() -> (options: PromptOptions)
    ensures
        options.height@ == prompt_height(),
        options.no_multi,
{
    PromptOptions { height: "50%".to_owned(), no_multi: true }
}

/// What the prompt reported when it ended.
#[derive(Clone, Debug, PartialEq, Eq)]
pub struct PromptOutput {
    /// Whether the user left the prompt without choosing.
    pub is_abort: bool,
    /// The texts of the lines that the user picked.
    pub selected_items: Vec<String>,
}

/// The line that a report stands for: the first picked line of a prompt that
/// ran and was not left. There is none where the prompt did not run, where the
/// user left it, and where no line was picked.
pub open spec fn answer_of(output: Option<PromptOutput>) -> Option<Seq<char>> {
    match output {
        Some(output) => if output.is_abort || output.selected_items@.len() == 0 {
            None
        } else {
            Some(output.selected_items@[0]@)
        },
        None => None,
    }
}

/// Reads the user's answer out of what the prompt reported, `None` standing
/// for a prompt that did not run: the first line that was picked, and no
/// answer where the prompt did not run, where the user left it, and where no
/// line was picked.
pub fn handle_skim(output: Option<PromptOutput>) -> (answer: Option<String>)
    ensures
        answer.deep_view() == answer_of(output),
{
    match output {
        Some(output) => {
            if output.is_abort || output.selected_items.len() == 0 {
                None
            } else {
                Some(output.selected_items[0].clone())
            }
        },
        None => None,
    }
}

/// How a selection ended.
#[derive(Clone, Debug, PartialEq, Eq)]
pub enum Selection {
    /// A line was picked; this is what is left of it without its mark.
    Chosen(String),
    /// A line was picked, and nothing is left of it without its mark.
    Empty,
    /// No line was picked.
    Cancelled,
}

/// A `Selection` with its text as a sequence of characters.
pub enum SelectionView {
    Chosen(Seq<char>),
    Empty,
    Cancelled,
}

impl View for Selection {
    type V = SelectionView;

    open spec fn view(&self) -> SelectionView {
        match self {
            Selection::Chosen(name) => SelectionView::Chosen(name@),
            Selection::Empty => SelectionView::Empty,
            Selection::Cancelled => SelectionView::Cancelled,
        }
    }
}

/// The meaning of an answer.
pub open spec fn selection_of(answer: Option<Seq<char>>) -> SelectionView {
    match answer {
        Some(line) => if unmarked(line).len() == 0 {
            SelectionView::Empty
        } else {
            SelectionView::Chosen(unmarked(line))
        },
        None => SelectionView::Cancelled,
    }
}

/// Tells the three ways apart in which a selection ends.
pub fn selection(answer: Option<String>) -> (selection: Selection)
    ensures
        selection@ == selection_of(answer.deep_view()),
{
    match answer {
        Some(line) => {
            let name = unmark(line.as_str());
            if name.as_str().unicode_len() == 0 {
                Selection::Empty
            } else {
                Selection::Chosen(name)
            }
        },
        None => Selection::Cancelled,
    }
}

/// Of the candidates, those and only those that are the current value get the
/// mark behind their name; every other label is the name itself.
pub proof fn lemma_current_is_marked(names: Seq<Seq<char>>, current: Option<Seq<char>>, i: int)
    requires
        0 <= i < names.len(),
    ensures
        labels_of(names, current).len() == names.len(),
        labels_of(names, current)[i] == names[i] + mark() <==> current == Some(names[i]),
        labels_of(names, current)[i] == names[i] <==> current != Some(names[i]),
{
    assert((names[i] + mark()).len() == names[i].len() + 2);
}

/// The label of the current value without its mark is the name again,
/// whatever the name is.
pub proof fn lemma_unmarked_current_label(name: Seq<char>)
    ensures
        is_marked(label_of(name, Some(name))),
        unmarked(label_of(name, Some(name))) == name,
{
    let marked = name + mark();
    assert(is_marked(marked));
    assert(marked.subrange(0, marked.len() - 2) =~= name);
}

/// A label without its mark is the name again: for the current value
/// whatever its name is, for every other candidate if its name does not
/// itself end in the mark.
pub proof fn lemma_unmarked_label_is_name(name: Seq<char>, current: Option<Seq<char>>)
    requires
        current != Some(name) ==> !is_marked(name),
    ensures
        unmarked(label_of(name, current)) == name,
{
    if current == Some(name) {
        lemma_unmarked_current_label(name);
    }
}

/// A prompt that the user left, or that did not run, ends the selection as
/// cancelled, whatever lines it reports as picked.
pub proof fn lemma_abort_is_cancelled(output: Option<PromptOutput>)
    requires
        output matches Some(report) ==> report.is_abort,
    ensures
        answer_of(output) is None,
        selection_of(answer_of(output)) == SelectionView::Cancelled,
{
}

/// A line of which nothing is left without its mark is no cancellation: it
/// ends the selection as empty.
pub proof fn lemma_empty_is_not_cancelled(line: Seq<char>)
    requires
        unmarked(line).len() == 0,
    ensures
        selection_of(Some(line)) == SelectionView::Empty,
{
}

/// Picking the label of a candidate selects the candidate's name, if the name
/// is not empty: for the current value whatever its name is, for every other
/// candidate if its name does not itself end in the mark.
pub proof fn lemma_picked_label_selects_name(
    names: Seq<Seq<char>>,
    current: Option<Seq<char>>,
    i: int,
)
    requires
        0 <= i < names.len(),
        names[i].len() > 0,
        current != Some(names[i]) ==> !is_marked(names[i]),
    ensures
        selection_of(Some(labels_of(names, current)[i])) == SelectionView::Chosen(names[i]),
{
    lemma_unmarked_label_is_name(names[i], current);
}

} // verus!
