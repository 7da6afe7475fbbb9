//! What holds of applying messages: stopping is final, a report never
//! moves the focus, and a chain of follow-ups ends.

use vstd::prelude::*;
use crate::model::{ContextView, MessageView, ModelView, RunningState};
use crate::update::{dispatch_spec, rank, update_spec, Outcome};
use crate::value::ValueView;

verus! {

/// The queue and the state after a sequence of messages from the mailbox,
/// each applied with its follow-ups. A message that cannot be applied in
/// full ends its own chain only.
pub open spec fn apply_all(context: ContextView, model: ModelView, msgs: Seq<MessageView>) -> (
    ContextView,
    ModelView,
)
    decreases msgs.len(),
{
    if msgs.len() == 0 {
        (context, model)
    } else {
        let first = dispatch_spec(context, model, msgs[0]);
        apply_all(first.context, first.model, msgs.drop_first())
    }
}

/// A follow-up always has fewer follow-ups to come than the message it
/// follows: every chain ends, after two messages at most.
pub proof fn lemma_follow_up_ranks(context: ContextView, model: ModelView, msg: MessageView)
    ensures
        update_spec(context, model, msg).result matches Ok(Some(next)) ==> rank(next) < rank(msg),
        rank(msg) <= 1,
{
}

/// A chain is two messages at most: applying a message with its follow-ups
/// is applying the message and then, if it has a follow-up, that one.
pub proof fn lemma_dispatch_two_steps(context: ContextView, model: ModelView, msg: MessageView)
    ensures
        dispatch_spec(context, model, msg) == ({
            let once = update_spec(context, model, msg);
            match once.result {
                Ok(Some(next)) => update_spec(once.context, once.model, next),
                _ => once,
            }
        }),
{
    let once = update_spec(context, model, msg);
    match once.result {
        Ok(Some(next)) => {
            let twice = update_spec(once.context, once.model, next);
            assert(dispatch_spec(once.context, once.model, next) == twice);
        },
        _ => {},
    }
}

/// Once the application has stopped, no message changes anything or has
/// a follow-up.
pub proof fn lemma_stopped_is_final(context: ContextView, model: ModelView, msg: MessageView)
    requires
        model.running_state == RunningState::Stopped,
    ensures
        update_spec(context, model, msg) == (Outcome { context, model, result: Ok(None) }),
        dispatch_spec(context, model, msg) == (Outcome { context, model, result: Ok(None) }),
{
}

/// `Quit` stops a running application, and that is all it does.
pub proof fn lemma_quit_stops(context: ContextView, model: ModelView)
    requires
        model.running_state == RunningState::Running,
    ensures
        update_spec(context, model, MessageView::Quit) == (Outcome {
            context,
            model: ModelView { running_state: RunningState::Stopped, ..model },
            result: Ok(None),
        }),
        dispatch_spec(context, model, MessageView::Quit) == update_spec(
            context,
            model,
            MessageView::Quit,
        ),
{
}

/// After the application has stopped, a whole sequence of messages
/// changes nothing.
pub proof fn lemma_stopped_ignores_all(context: ContextView, model: ModelView, msgs: Seq<MessageView>)
    requires
        model.running_state == RunningState::Stopped,
    ensures
        apply_all(context, model, msgs) == (context, model),
    decreases msgs.len(),
{
    if msgs.len() > 0 {
        lemma_stopped_is_final(context, model, msgs[0]);
        lemma_stopped_ignores_all(context, model, msgs.drop_first());
    }
}

/// `Quit` takes a running application to the stopped state, and no
/// message that comes after it is processed.
pub proof fn lemma_quit_ends_processing(
    context: ContextView,
    model: ModelView,
    later: Seq<MessageView>,
)
    requires
        model.running_state == RunningState::Running,
    ensures
        apply_all(context, model, seq![MessageView::Quit] + later) == (
            context,
            ModelView { running_state: RunningState::Stopped, ..model },
        ),
{
    let msgs = seq![MessageView::Quit] + later;
    lemma_quit_stops(context, model);
    assert(msgs.drop_first() =~= later);
    lemma_stopped_ignores_all(
        context,
        ModelView { running_state: RunningState::Stopped, ..model },
        later,
    );
}

/// Only `Quit` changes whether the application runs, and only from
/// running to stopped.
pub proof fn lemma_only_quit_stops(context: ContextView, model: ModelView, msg: MessageView)
    ensures
        update_spec(context, model, msg).model.running_state != model.running_state ==> {
            &&& msg is Quit
            &&& model.running_state == RunningState::Running
            &&& update_spec(context, model, msg).model.running_state == RunningState::Stopped
        },
{
}

/// A report is recorded for its node, whether that node is still focused
/// or not, and changes nothing else: not the focus, not the queue.
pub proof fn lemma_data_is_recorded(
    context: ContextView,
    model: ModelView,
    path: Seq<Seq<char>>,
    value: ValueView,
)
    requires
        model.running_state == RunningState::Running,
    ensures
        update_spec(context, model, MessageView::Data(path, value)) == (Outcome {
            context,
            model: ModelView { values: model.values.insert(path, value), ..model },
            result: Ok(None),
        }),
        update_spec(context, model, MessageView::Data(path, value)).model.current_path
            == model.current_path,
        update_spec(context, model, MessageView::Data(path, value)).model.values[path] == value,
{
}

/// No message queues more than one request, and none takes a request
/// back: requests leave the queue only when its owner takes them.
pub proof fn lemma_queue_grows_by_one(context: ContextView, model: ModelView, msg: MessageView)
    ensures
        ({
            let after = dispatch_spec(context, model, msg).context;
            &&& after.connected == context.connected
            &&& (after.pending == context.pending || exists|p: Seq<Seq<char>>|
                after.pending == #[trigger] context.pending.push(p))
        }),
{
    let once = update_spec(context, model, msg);
    match once.result {
        Ok(Some(next)) => {
            assert(dispatch_spec(context, model, msg) == dispatch_spec(once.context, once.model, next));
        },
        _ => {},
    }
}

} // verus!
