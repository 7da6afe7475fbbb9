//! Applying messages to the application state.

use vstd::prelude::*;
use crate::model::{ContextView, Message, MessageView, Model, ModelView, RunningState, UpdateError};
use crate::path::BrowserPath;
use crate::value::NixValue;

verus! {

/// What applying a message leaves behind.
pub struct Outcome {
    pub context: ContextView,
    pub model: ModelView,
    /// The follow-up message, if there is one, or why the message could not
    /// be applied in full.
    pub result: Result<Option<MessageView>, UpdateError>,
}

/// The queue after a request for `path` was due: the request is queued
/// last, if requests can still be queued.
pub open spec fn queue_spec(context: ContextView, path: Seq<Seq<char>>) -> ContextView {
    if context.connected {
        ContextView { pending: context.pending.push(path), ..context }
    } else {
        context
    }
}

/// What a request for `path` comes to: it is queued, or it fails because
/// the evaluator's request queue is gone.
pub open spec fn submit_spec(context: ContextView, model: ModelView, path: Seq<Seq<char>>) -> Outcome {
    Outcome {
        context: queue_spec(context, path),
        model,
        result: if context.connected {
            Ok(None)
        } else {
            Err(UpdateError::WorkerGone)
        },
    }
}

/// What applying `msg` leaves behind.
///
/// Once the application has stopped, no message changes anything. While
/// it runs: `Quit` stops it. `Enter` and `Back` change nothing themselves
/// and are followed by `CurrentPath` for the child or the parent; at the
/// root `Back` does nothing. `CurrentPath` moves the focus and queues a
/// request for the node unless it is known. `Refresh` queues a request for
/// the focused node. `Data` records the report and leaves the focus alone.
pub open spec fn update_spec(context: ContextView, model: ModelView, msg: MessageView) -> Outcome {
    if model.running_state == RunningState::Stopped {
        Outcome { context, model, result: Ok(None) }
    } else {
        match msg {
            MessageView::Quit => Outcome {
                context,
                model: ModelView { running_state: RunningState::Stopped, ..model },
                result: Ok(None),
            },
            MessageView::Enter(name) => Outcome {
                context,
                model,
                result: Ok(Some(MessageView::CurrentPath(model.current_path.push(name)))),
            },
            MessageView::Back => Outcome {
                context,
                model,
                result: if model.current_path.len() > 1 {
                    Ok(Some(MessageView::CurrentPath(model.current_path.drop_last())))
                } else {
                    Ok(None)
                },
            },
            MessageView::CurrentPath(path) => {
                let focused = ModelView { current_path: path, ..model };
                if model.values.contains_key(path) {
                    Outcome { context, model: focused, result: Ok(None) }
                } else {
                    submit_spec(context, focused, path)
                }
            },
            MessageView::Refresh => submit_spec(context, model, model.current_path),
            MessageView::Data(path, value) => Outcome {
                context,
                model: ModelView { values: model.values.insert(path, value), ..model },
                result: Ok(None),
            },
        }
    }
}

/// How many follow-ups a message can have.
pub open spec fn rank(msg: MessageView) -> nat {
    match msg {
        MessageView::Enter(_) => 1,
        MessageView::Back => 1,
        _ => 0,
    }
}

/// What applying `msg` and all its follow-ups leaves behind. The result
/// is `Ok(None)` where all were applied, and the error of the one that
/// was not, which ends the chain.
pub open spec fn dispatch_spec(context: ContextView, model: ModelView, msg: MessageView) -> Outcome
    decreases rank(msg),
{
    let once = update_spec(context, model, msg);
    match once.result {
        Ok(Some(next)) => if rank(next) < rank(msg) {
            dispatch_spec(once.context, once.model, next)
        } else {
            Outcome { result: Ok(None), ..once }
        },
        _ => once,
    }
}

/// What the result of `update` holds.
pub open spec fn follow_up_view(r: Result<Option<Message>, UpdateError>) -> Result<
    Option<MessageView>,
    UpdateError,
> {
    match r {
        Ok(Some(m)) => Ok(Some(m@)),
        Ok(None) => Ok(None),
        Err(e) => Err(e),
    }
}

/// What the result of `dispatch` holds.
pub open spec fn done_view(r: Result<(), UpdateError>) -> Result<Option<MessageView>, UpdateError> {
    match r {
        Ok(_) => Ok(None),
        Err(e) => Err(e),
    }
}

/// The requests that `update` asks for, until their owner takes them and
/// sends them to the evaluator.
#[derive(Debug)]
pub struct UpdateContext {
    connected: bool,
    outbox: Vec<BrowserPath>,
}

impl View for UpdateContext {
    type V = ContextView;

    closed spec fn view(&self) -> ContextView {
        ContextView {
            connected: self.connected,
            pending: Seq::new(self.outbox@.len(), |i: int| self.outbox@[i]@),
        }
    }
}

impl UpdateContext {
    /// A queue that accepts requests and holds none.
    pub fn new() -> (context: UpdateContext)
        ensures
            context@ == (ContextView { connected: true, pending: Seq::empty() }),
    {
        let context = UpdateContext { connected: true, outbox: Vec::new() };
        assert(context@.pending =~= Seq::empty());
        context
    }

    /// Whether requests can still be queued.
    pub fn is_connected(&self) -> (r: bool)
        ensures
            r == self@.connected,
    {
        self.connected
    }

    /// Records that the evaluator's request queue is gone: from now on no
    /// request is queued.
    pub fn disconnect(&mut self)
        ensures
            final(self)@ == (ContextView { connected: false, ..old(self)@ }),
    {
        self.connected = false;
    }

    /// Hands out the queued requests, oldest first, and leaves none queued.
    pub fn take_requests(&mut self) -> (requests: Vec<BrowserPath>)
        ensures
            final(self)@ == (ContextView { pending: Seq::empty(), ..old(self)@ }),
            requests@.len() == old(self)@.pending.len(),
            forall|i: int| 0 <= i < requests@.len() ==> (#[trigger] requests@[i])@ == old(self)@.pending[i],
    {
        let mut requests: Vec<BrowserPath> = Vec::new();
        std::mem::swap(&mut self.outbox, &mut requests);
        assert(self@.pending =~= Seq::empty());
        requests
    }

    /// Queues a request for `path`, if requests can still be queued.
    fn submit(&mut self, path: BrowserPath) -> (r: Result<(), UpdateError>)
        ensures
            final(self)@ == queue_spec(old(self)@, path@),
            r == if old(self)@.connected {
                Ok::<(), UpdateError>(())
            } else {
                Err(UpdateError::WorkerGone)
            },
    {
        if self.connected {
            self.outbox.push(path);
            assert(self@.pending =~= old(self)@.pending.push(path@));
            Ok(())
        } else {
            Err(UpdateError::WorkerGone)
        }
    }

    /// Applies one message. A follow-up message, if one is returned, is
    /// to be applied before anything else.
    pub fn update(&mut self, model: &mut Model, msg: Message) -> (r: Result<
        Option<Message>,
        UpdateError,
    >)
        ensures
            final(self)@ == update_spec(old(self)@, old(model)@, msg@).context,
            final(model)@ == update_spec(old(self)@, old(model)@, msg@).model,
            follow_up_view(r) == update_spec(old(self)@, old(model)@, msg@).result,
    {
        if model.running_state() == RunningState::Stopped {
            return Ok(None);
        }
        match msg {
            Message::Quit => {
                model.stop();
                Ok(None)
            },
            Message::Enter(name) => {
                let child = model.current_path().child(name.as_str());
                Ok(Some(Message::CurrentPath(child)))
            },
            Message::Back => match model.current_path().parent() {
                Some(parent) => Ok(Some(Message::CurrentPath(parent))),
                None => Ok(None),
            },
            Message::CurrentPath(path) => {
                if model.lookup(&path).is_some() {
                    model.focus(path);
                    Ok(None)
                } else {
                    model.focus(path.clone());
                    match self.submit(path) {
                        Ok(_) => Ok(None),
                        Err(e) => Err(e),
                    }
                }
            },
            Message::Refresh => {
                let path = model.current_path().clone();
                match self.submit(path) {
                    Ok(_) => Ok(None),
                    Err(e) => Err(e),
                }
            },
            Message::Data(path, value) => {
                model.store(path, value);
                Ok(None)
            },
        }
    }

    /// Applies a message and then its follow-ups, one after the other,
    /// until one has no follow-up or cannot be applied in full.
    pub fn dispatch(&mut self, model: &mut Model, msg: Message) -> (r: Result<(), UpdateError>)
        ensures
            final(self)@ == dispatch_spec(old(self)@, old(model)@, msg@).context,
            final(model)@ == dispatch_spec(old(self)@, old(model)@, msg@).model,
            done_view(r) == dispatch_spec(old(self)@, old(model)@, msg@).result,
    {
        let ghost goal = dispatch_spec(self@, model@, msg@);
        let mut current = msg;
        loop
            invariant
                goal == dispatch_spec(old(self)@, old(model)@, msg@),
                dispatch_spec(self@, model@, current@) == goal,
            decreases rank(current@),
        {
            match self.update(model, current) {
                Ok(Some(next)) => {
                    current = next;
                },
                Ok(None) => {
                    return Ok(());
                },
                Err(e) => {
                    return Err(e);
                },
            }
        }
    }
}

/// The relay between the evaluator's results and the mailbox: a result
/// becomes a `Data` message; the end of the results ends the relay.
pub fn relay(received: Option<(BrowserPath, NixValue)>) -> (r: Option<Message>)
    ensures
        match received {
            Some((path, value)) => r matches Some(m) && m@ == MessageView::Data(path@, value@),
            None => r is None,
        },
{
    match received {
        Some((path, value)) => Some(Message::Data(path, value)),
        None => None,
    }
}

} // verus!
