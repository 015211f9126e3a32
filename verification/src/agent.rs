//! Running an agent on the client side: the parameters of a run, the
//! request that is sent, and the outcome that the events of the run fold
//! into.

use vstd::prelude::*;
use crate::engine::{
    folded, new_messages, not_known, state_after_event, AgentError, EngineView, EventHandler,
    MutationView,
};
use crate::event::Event;
use crate::ids::{AgentId, IdModel, MessageId, RunId, ThreadId};
use crate::json::{json_null, json_text, JsonValue};
use crate::message::{clone_messages, messages_view, Context, Message, Role, Tool};

verus! {

/// How an agent is set up.
#[derive(Debug)]
pub struct AgentConfig {
    pub agent_id: Option<AgentId>,
    pub description: Option<String>,
    pub thread_id: Option<ThreadId>,
    pub initial_messages: Option<Vec<Message>>,
    pub initial_state: Option<JsonValue>,
    pub debug: Option<bool>,
}

impl Default for AgentConfig {
    /// Nothing is set.
    fn default() -> (r: Self)
        ensures
            r.agent_id.is_none(),
            r.description.is_none(),
            r.thread_id.is_none(),
            r.initial_messages.is_none(),
            r.initial_state.is_none(),
            r.debug.is_none(),
    {
        AgentConfig {
            agent_id: None,
            description: None,
            thread_id: None,
            initial_messages: None,
            initial_state: None,
            debug: None,
        }
    }
}

/// The parameters of a run.
#[derive(Debug)]
pub struct RunAgentParams {
    pub run_id: Option<RunId>,
    pub tools: Vec<Tool>,
    pub context: Vec<Context>,
    pub forwarded_props: JsonValue,
    pub messages: Vec<Message>,
    pub state: JsonValue,
}

impl RunAgentParams {
    /// No run identifier, no tools, context or messages; the state and the
    /// forwarded properties are JSON `null`.
    pub fn new() -> (r: Self)
        ensures
            r.run_id.is_none(),
            r.tools@.len() == 0,
            r.context@.len() == 0,
            r.messages@.len() == 0,
            json_text(r.state) == "null"@,
            json_text(r.forwarded_props) == "null"@,
    {
        RunAgentParams {
            run_id: None,
            tools: Vec::new(),
            context: Vec::new(),
            forwarded_props: json_null(),
            messages: Vec::new(),
            state: json_null(),
        }
    }

    pub fn with_run_id(self, run_id: RunId) -> (r: Self)
        ensures
            r == (RunAgentParams { run_id: Some(run_id), ..self }),
    {
        let mut p = self;
        p.run_id = Some(run_id);
        p
    }

    pub fn add_tool(self, tool: Tool) -> (r: Self)
        ensures
            r.tools@ == self.tools@.push(tool),
            r.run_id == self.run_id,
            r.context == self.context,
            r.forwarded_props == self.forwarded_props,
            r.messages == self.messages,
            r.state == self.state,
    {
        let mut p = self;
        p.tools.push(tool);
        p
    }

    pub fn add_context(self, ctx: Context) -> (r: Self)
        ensures
            r.context@ == self.context@.push(ctx),
            r.run_id == self.run_id,
            r.tools == self.tools,
            r.forwarded_props == self.forwarded_props,
            r.messages == self.messages,
            r.state == self.state,
    {
        let mut p = self;
        p.context.push(ctx);
        p
    }

    pub fn with_forwarded_props(self, props: JsonValue) -> (r: Self)
        ensures
            r == (RunAgentParams { forwarded_props: props, ..self }),
    {
        let mut p = self;
        p.forwarded_props = props;
        p
    }

    pub fn with_state(self, state: JsonValue) -> (r: Self)
        ensures
            r == (RunAgentParams { state, ..self }),
    {
        let mut p = self;
        p.state = state;
        p
    }

    pub fn add_message(self, msg: Message) -> (r: Self)
        ensures
            r.messages@ == self.messages@.push(msg),
            r.run_id == self.run_id,
            r.tools == self.tools,
            r.context == self.context,
            r.forwarded_props == self.forwarded_props,
            r.state == self.state,
    {
        let mut p = self;
        p.messages.push(msg);
        p
    }

    /// Adds a user message with the given text and a fresh random
    /// identifier.
    pub fn user(self, content: &str) -> (r: Self)
        ensures
            r.messages@.len() == self.messages@.len() + 1,
            r.messages@.drop_last() == self.messages@,
            r.messages@.last()@.role == Role::User,
            r.messages@.last()@.content == Some(content@),
            r.messages@.last()@.name.is_none(),
            r.messages@.last()@.id.raw.is_none(),
            r.run_id == self.run_id,
            r.tools == self.tools,
            r.context == self.context,
            r.forwarded_props == self.forwarded_props,
            r.state == self.state,
    {
        let mut p = self;
        let ghost before = p.messages@;
        p.messages.push(
            Message::User { id: MessageId::random(), content: content.to_owned(), name: None },
        );
        assert(p.messages@.drop_last() =~= before);
        p
    }
}

/// The request that starts a run.
#[derive(Debug)]
pub struct RunAgentInput {
    pub thread_id: ThreadId,
    pub run_id: RunId,
    pub state: JsonValue,
    pub messages: Vec<Message>,
    pub tools: Vec<Tool>,
    pub context: Vec<Context>,
    pub forwarded_props: JsonValue,
}

impl RunAgentInput {
    pub fn new(
        thread_id: ThreadId,
        run_id: RunId,
        state: JsonValue,
        messages: Vec<Message>,
        tools: Vec<Tool>,
        context: Vec<Context>,
        forwarded_props: JsonValue,
    ) -> (r: Self)
        ensures
            r == (RunAgentInput {
                thread_id,
                run_id,
                state,
                messages,
                tools,
                context,
                forwarded_props,
            }),
    {
        RunAgentInput { thread_id, run_id, state, messages, tools, context, forwarded_props }
    }
}

/// The outcome of a run.
#[derive(Debug)]
pub struct RunAgentResult {
    /// The result that the run finished with; JSON `null` where it had
    /// none.
    pub result: JsonValue,
    /// The messages that the run added, in order.
    pub new_messages: Vec<Message>,
    /// The state at the end of the run.
    pub new_state: JsonValue,
}

/// A copy of a list of tools.
pub fn clone_tools(tools: &Vec<Tool>) -> (r: Vec<Tool>)
    ensures
        r@ == tools@,
{
    let mut out: Vec<Tool> = Vec::new();
    let mut i: usize = 0;
    while i < tools.len()
        invariant
            i <= tools.len(),
            out@ == tools@.subrange(0, i as int),
        decreases tools.len() - i,
    {
        out.push(tools[i].clone());
        assert(out@ =~= tools@.subrange(0, i + 1));
        i += 1;
    }
    assert(tools@.subrange(0, tools@.len() as int) =~= tools@);
    out
}

/// A copy of a list of context entries.
pub fn clone_contexts(context: &Vec<Context>) -> (r: Vec<Context>)
    ensures
        r@ == context@,
{
    let mut out: Vec<Context> = Vec::new();
    let mut i: usize = 0;
    while i < context.len()
        invariant
            i <= context.len(),
            out@ == context@.subrange(0, i as int),
        decreases context.len() - i,
    {
        out.push(context[i].clone());
        assert(out@ =~= context@.subrange(0, i + 1));
        i += 1;
    }
    assert(context@.subrange(0, context@.len() as int) =~= context@);
    out
}

/// The request for a run with the given parameters: a fresh random thread
/// identifier, the run identifier of the parameters or else a fresh random
/// one, and a copy of everything else.
pub fn build_input(params: &RunAgentParams) -> (r: RunAgentInput)
    ensures
        r.thread_id@.raw.is_none(),
        match params.run_id {
            Some(id) => r.run_id == id,
            None => r.run_id@.raw.is_none(),
        },
        r.state == params.state,
        messages_view(r.messages@) == messages_view(params.messages@),
        r.tools@ == params.tools@,
        r.context@ == params.context@,
        r.forwarded_props == params.forwarded_props,
{
    RunAgentInput {
        thread_id: ThreadId::random(),
        run_id: match &params.run_id {
            Some(id) => id.clone(),
            None => RunId::random(),
        },
        state: params.state.clone(),
        messages: clone_messages(&params.messages),
        tools: clone_tools(&params.tools),
        context: clone_contexts(&params.context),
        forwarded_props: params.forwarded_props.clone(),
    }
}

/// Whether folding the events `events` in order can lead from the
/// conversation `from` to the conversation `to`. Each event is folded by
/// the rules of the engine; a message created without a name gets some
/// random identifier.
pub open spec fn reaches(from: EngineView, events: Seq<Event>, to: EngineView) -> bool
    decreases events.len(),
{
    if events.len() == 0 {
        from == to
    } else {
        exists|mid: EngineView, fresh: IdModel, change: MutationView|
            reaches(from, events.drop_last(), mid) && fresh.raw.is_none() && #[trigger] folded(
                mid,
                events.last(),
                fresh,
                to,
                change,
            )
    }
}

/// The conversation that a run with the given parameters starts from: its
/// messages and its state, and JSON `null` as the result so far.
pub open spec fn start_of(params: RunAgentParams) -> EngineView {
    EngineView {
        messages: messages_view(params.messages@),
        state: json_text(params.state),
        result: "null"@,
    }
}

/// Runs the events of a finished stream through the engine, without
/// subscribers.
///
/// Starts from the messages and the state of the parameters, folds each
/// event in order and applies its change. Gives the result of the run,
/// the state at its end, and the messages whose identifier was not among
/// those of the parameters, in order. A state delta that cannot be
/// applied ends the run with its place in the stream and the error.
pub fn run_agent(params: &RunAgentParams, events: &Vec<Event>) -> (r: Result<
    RunAgentResult,
    (usize, AgentError),
>)
    ensures
        r matches Ok(outcome) ==> exists|end: EngineView|
            #![trigger reaches(start_of(*params), events@, end)]
            {
                &&& reaches(start_of(*params), events@, end)
                &&& json_text(outcome.result) == end.result
                &&& json_text(outcome.new_state) == end.state
                &&& messages_view(outcome.new_messages@) == not_known(
                    end.messages,
                    messages_view(params.messages@),
                )
            },
        r matches Err(failure) ==> failure.0 < events@.len() && exists|mid: EngineView|
            #![trigger reaches(start_of(*params), events@.subrange(0, failure.0 as int), mid)]
            {
                &&& reaches(start_of(*params), events@.subrange(0, failure.0 as int), mid)
                &&& state_after_event(mid.state, events@[failure.0 as int]).is_none()
            },
        r matches Err(failure) ==> events@[failure.0 as int] is StateDelta && (failure.1
            is SerializationError || failure.1 is ExecutionError),
{
    let mut handler = EventHandler::new(clone_messages(&params.messages), params.state.clone());
    let ghost start = start_of(*params);
    assert(handler@ == start);
    let mut i: usize = 0;
    assert(events@.subrange(0, 0) =~= Seq::<Event>::empty());
    while i < events.len()
        invariant
            i <= events@.len(),
            start == start_of(*params),
            reaches(start, events@.subrange(0, i as int), handler@),
        decreases events@.len() - i,
    {
        let ghost mid = handler@;
        let ghost upto = events@.subrange(0, i + 1);
        proof {
            assert(upto.drop_last() =~= events@.subrange(0, i as int));
            assert(upto.last() == events@[i as int]);
        }
        match handler.handle_event(&events[i]) {
            Ok(change) => {
                let ghost folded_to = handler@;
                let ghost fresh = choose|fresh: IdModel|
                    fresh.raw.is_none() && #[trigger] folded(
                        mid,
                        events@[i as int],
                        fresh,
                        folded_to,
                        change@,
                    );
                let ghost shown = change@;
                let _ = handler.apply_mutation(change);
                assert(handler@ == folded_to);
                assert(folded(mid, upto.last(), fresh, handler@, shown));
                assert(reaches(start, upto, handler@));
            },
            Err(e) => {
                proof {
                    assert(reaches(start_of(*params), events@.subrange(0, i as int), mid));
                    assert(state_after_event(mid.state, events@[i as int]).is_none());
                }
                return Err((i, e));
            },
        }
        i += 1;
    }
    assert(events@.subrange(0, events@.len() as int) =~= events@);
    let fresh = new_messages(&handler.messages, &params.messages);
    Ok(RunAgentResult { result: handler.result, new_messages: fresh, new_state: handler.state })
}

} // verus!
