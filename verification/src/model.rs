//! The application state and the messages that change it.
//!
//! Navigation and the evaluator's results arrive as messages in one mailbox.
//! `update` applies one message. It may answer with a follow-up message, to
//! be applied before anything else happens; `dispatch` applies a message
//! and its follow-ups to the end. Requests to the evaluator are not sent
//! from here: they are queued in the `UpdateContext`, whose owner sends
//! them on.

use vstd::prelude::*;
use crate::path::BrowserPath;
use crate::value::{NixValue, ValueView};

verus! {

/// Whether the application is still running.
#[derive(Debug, Clone, Copy, PartialEq, Eq, Structural)]
pub enum RunningState {
    Running,
    /// Final: nothing is applied any more.
    Stopped,
}

/// Why a message could not be applied in full.
#[derive(Debug, Clone, Copy, PartialEq, Eq, Structural)]
pub enum UpdateError {
    /// A request was due, but the evaluator's request queue is gone.
    WorkerGone,
}

/// What the mailbox holds.
#[derive(Debug, PartialEq)]
pub enum Message {
    /// Focus this node, and ask for it unless it is known.
    CurrentPath(BrowserPath),
    /// Step down from the focused node to its child of this name.
    Enter(String),
    /// Step up from the focused node to its parent.
    Back,
    /// Ask for the focused node again.
    Refresh,
    /// Stop the application.
    Quit,
    /// The evaluator's report of a node.
    Data(BrowserPath, NixValue),
}

/// A message as a mathematical value.
pub enum MessageView {
    CurrentPath(Seq<Seq<char>>),
    Enter(Seq<char>),
    Back,
    Refresh,
    Quit,
    Data(Seq<Seq<char>>, ValueView),
}

impl View for Message {
    type V = MessageView;

    open spec fn view(&self) -> MessageView {
        match self {
            Message::CurrentPath(p) => MessageView::CurrentPath(p@),
            Message::Enter(name) => MessageView::Enter(name@),
            Message::Back => MessageView::Back,
            Message::Refresh => MessageView::Refresh,
            Message::Quit => MessageView::Quit,
            Message::Data(p, v) => MessageView::Data(p@, v@),
        }
    }
}

/// The application state as a mathematical value.
pub struct ModelView {
    pub running_state: RunningState,
    pub current_path: Seq<Seq<char>>,
    /// What is known of each node that the evaluator has reported.
    pub values: Map<Seq<Seq<char>>, ValueView>,
}

/// The request queue as a mathematical value.
pub struct ContextView {
    /// Whether requests can still be queued.
    pub connected: bool,
    /// The requests queued and not yet taken, oldest first.
    pub pending: Seq<Seq<Seq<char>>>,
}

/// One known node.
#[derive(Debug)]
struct Entry {
    path: BrowserPath,
    value: NixValue,
}

/// The map that a list of reports amounts to: a later report of a node
/// replaces an earlier one.
pub open spec fn map_of(entries: Seq<(Seq<Seq<char>>, ValueView)>) -> Map<
    Seq<Seq<char>>,
    ValueView,
>
    decreases entries.len(),
{
    if entries.len() == 0 {
        Map::empty()
    } else {
        map_of(entries.drop_last()).insert(entries.last().0, entries.last().1)
    }
}

/// Replacing the last report of a node has the effect of a new report.
proof fn lemma_map_of_update(
    entries: Seq<(Seq<Seq<char>>, ValueView)>,
    i: int,
    p: Seq<Seq<char>>,
    v: ValueView,
)
    requires
        0 <= i < entries.len(),
        entries[i].0 == p,
        forall|j: int| i < j < entries.len() ==> (#[trigger] entries[j]).0 != p,
    ensures
        map_of(entries.update(i, (p, v))) == map_of(entries).insert(p, v),
    decreases entries.len(),
{
    let changed = entries.update(i, (p, v));
    if i == entries.len() - 1 {
        assert(changed.drop_last() =~= entries.drop_last());
    } else {
        assert(changed.drop_last() =~= entries.drop_last().update(i, (p, v)));
        lemma_map_of_update(entries.drop_last(), i, p, v);
    }
}

/// A node of which no report is listed is not in the map.
proof fn lemma_map_of_absent(entries: Seq<(Seq<Seq<char>>, ValueView)>, p: Seq<Seq<char>>)
    requires
        forall|j: int| 0 <= j < entries.len() ==> (#[trigger] entries[j]).0 != p,
    ensures
        !map_of(entries).contains_key(p),
    decreases entries.len(),
{
    if entries.len() > 0 {
        lemma_map_of_absent(entries.drop_last(), p);
    }
}

/// The map holds for a node what its last report says.
proof fn lemma_map_of_last(entries: Seq<(Seq<Seq<char>>, ValueView)>, i: int)
    requires
        0 <= i < entries.len(),
        forall|j: int| i < j < entries.len() ==> (#[trigger] entries[j]).0 != entries[i].0,
    ensures
        map_of(entries).contains_key(entries[i].0),
        map_of(entries)[entries[i].0] == entries[i].1,
    decreases entries.len(),
{
    if i < entries.len() - 1 {
        lemma_map_of_last(entries.drop_last(), i);
    }
}

/// The application state: whether it runs, which node is focused, and what
/// the evaluator has reported so far.
#[derive(Debug)]
pub struct Model {
    running_state: RunningState,
    current_path: BrowserPath,
    entries: Vec<Entry>,
}

impl Model {
    /// The reports held, as pairs of mathematical values.
    closed spec fn reports(&self) -> Seq<(Seq<Seq<char>>, ValueView)> {
        Seq::new(self.entries@.len(), |i: int| (self.entries@[i].path@, self.entries@[i].value@))
    }
}

impl View for Model {
    type V = ModelView;

    closed spec fn view(&self) -> ModelView {
        ModelView {
            running_state: self.running_state,
            current_path: self.current_path@,
            values: map_of(self.reports()),
        }
    }
}

impl Model {
    /// A running application that focuses `root` and knows nothing yet.
    pub fn new(root: BrowserPath) -> (model: Model)
        ensures
            model@ == (ModelView {
                running_state: RunningState::Running,
                current_path: root@,
                values: Map::empty(),
            }),
    {
        let model = Model {
            running_state: RunningState::Running,
            current_path: root,
            entries: Vec::new(),
        };
        model
    }

    /// Whether the application is still running.
    pub fn running_state(&self) -> (r: RunningState)
        ensures
            r == self@.running_state,
    {
        self.running_state
    }

    /// The focused node.
    pub fn current_path(&self) -> (r: &BrowserPath)
        ensures
            r@ == self@.current_path,
    {
        &self.current_path
    }

    /// The index of the last report of `path`, if there is one.
    fn find(&self, path: &BrowserPath) -> (r: Option<usize>)
        ensures
            match r {
                Some(i) => {
                    &&& i < self.entries.len()
                    &&& self.reports()[i as int].0 == path@
                    &&& forall|j: int|
                        i < j < self.reports().len() ==> (#[trigger] self.reports()[j]).0 != path@
                },
                None => forall|j: int|
                    0 <= j < self.reports().len() ==> (#[trigger] self.reports()[j]).0 != path@,
            },
    {
        let mut i: usize = self.entries.len();
        while i > 0
            invariant
                i <= self.entries.len(),
                self.reports().len() == self.entries.len(),
                forall|j: int|
                    i <= j < self.reports().len() ==> (#[trigger] self.reports()[j]).0 != path@,
            decreases i,
        {
            i -= 1;
            if self.entries[i].path.same_as(path) {
                return Some(i);
            }
        }
        None
    }

    /// What the evaluator has reported of `path`, if anything.
    pub fn lookup(&self, path: &BrowserPath) -> (r: Option<&NixValue>)
        ensures
            match r {
                Some(v) => self@.values.contains_key(path@) && self@.values[path@] == v@,
                None => !self@.values.contains_key(path@),
            },
    {
        match self.find(path) {
            Some(i) => {
                proof {
                    lemma_map_of_last(self.reports(), i as int);
                }
                Some(&self.entries[i].value)
            },
            None => {
                proof {
                    lemma_map_of_absent(self.reports(), path@);
                }
                None
            },
        }
    }

    /// Stops the application.
    pub(crate) fn stop(&mut self)
        ensures
            final(self)@ == (ModelView { running_state: RunningState::Stopped, ..old(self)@ }),
    {
        self.running_state = RunningState::Stopped;
    }

    /// Moves the focus.
    pub(crate) fn focus(&mut self, path: BrowserPath)
        ensures
            final(self)@ == (ModelView { current_path: path@, ..old(self)@ }),
    {
        self.current_path = path;
    }

    /// Records a report, in place of an earlier one of the same node.
    pub(crate) fn store(&mut self, path: BrowserPath, value: NixValue)
        ensures
            final(self)@ == (ModelView {
                values: old(self)@.values.insert(path@, value@),
                ..old(self)@
            }),
    {
        let ghost before = self.reports();
        let ghost p = path@;
        let ghost v = value@;
        match self.find(&path) {
            Some(i) => {
                self.entries.set(i, Entry { path, value });
                proof {
                    assert(self.reports() =~= before.update(i as int, (p, v)));
                    lemma_map_of_update(before, i as int, p, v);
                }
            },
            None => {
                self.entries.push(Entry { path, value });
                proof {
                    assert(self.reports().drop_last() =~= before);
                }
            },
        }
    }
}

} // verus!
