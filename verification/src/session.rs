//! A whole session: what to do with each event of it, and which messages go out for the lines
//! that come in.

use vstd::prelude::*;
use vstd::string::*;

use crate::command::ProcessOutput;
use crate::credentials::AmbientCredentialsView;
use crate::invoke::{
    answer_dir, invocation_answer, law_what_an_invocation_is_answered, ExecutableView,
    InvokeParamsView, PathStatus,
};
use crate::json::{parsed_json, Json, JsonView};
use crate::protocol::{
    ResponsePlan, ResponsePlanView, RpcRequestView, INVALID_REQUEST, JSONRPC_VERSION, PARSE_ERROR,
};
use crate::request::{
    handle_line, law_lines, law_requests, line_step, request_step, undecodable_request, LineStep,
    LineStepView, RequestStepView,
};
use crate::text::{is_blank, trimmed};
use crate::transport::{law_messages_are_well_formed, sent_message, MessageView, SendingView};

verus! {

/// What came of reading the input.
#[derive(Debug, PartialEq, Eq)]
pub enum InputEvent {
    /// The input is at its end.
    End,
    /// It could not be read, for the reason that the message gives.
    Failed(String),
    /// A line.
    Line(String),
}

/// What came of reading the input.
pub enum InputEventView {
    End,
    Failed(Seq<char>),
    Line(Seq<char>),
}

impl View for InputEvent {
    type V = InputEventView;

    open spec fn view(&self) -> InputEventView {
        match self {
            InputEvent::End => InputEventView::End,
            InputEvent::Failed(message) => InputEventView::Failed(message@),
            InputEvent::Line(line) => InputEventView::Line(line@),
        }
    }
}

/// What to do next in a session.
#[derive(Debug, PartialEq, Eq)]
pub enum SessionStep {
    /// Read on.
    Continue,
    /// Decode the value as a request, and send the answer to it.
    Decode(Json),
    /// Send the response.
    Send(ResponsePlan),
    /// End the session, with a line in the log where there is a text for it.
    Stop(Option<String>),
}

/// What is to be done next.
pub enum SessionStepView {
    Continue,
    Decode(JsonView),
    Send(ResponsePlanView),
    Stop(Option<Seq<char>>),
}

impl View for SessionStep {
    type V = SessionStepView;

    open spec fn view(&self) -> SessionStepView {
        match self {
            SessionStep::Continue => SessionStepView::Continue,
            SessionStep::Decode(value) => SessionStepView::Decode(value@),
            SessionStep::Send(plan) => SessionStepView::Send(plan@),
            SessionStep::Stop(log) => SessionStepView::Stop(
                match log {
                    Some(text) => Some(text@),
                    None => None,
                },
            ),
        }
    }
}

/// What is to be done once the input was read: the session ends with the input, or where it
/// cannot be read, which is logged; a blank line is passed over.
pub open spec fn input_step(event: InputEventView) -> SessionStepView {
    match event {
        InputEventView::End => SessionStepView::Stop(None),
        InputEventView::Failed(message) => SessionStepView::Stop(
            Some("failed to read stdin: "@ + message),
        ),
        InputEventView::Line(line) => match line_step(line) {
            LineStepView::Skip => SessionStepView::Continue,
            LineStepView::Respond(plan) => SessionStepView::Send(plan),
            LineStepView::Decode(value) => SessionStepView::Decode(value),
        },
    }
}

/// What is to be done once a response was sent: the session ends where it could not be sent,
/// which is logged.
pub open spec fn sent_step(sent: Result<(), Seq<char>>) -> SessionStepView {
    match sent {
        Ok(_) => SessionStepView::Continue,
        Err(message) => SessionStepView::Stop(Some("failed to send response: "@ + message)),
    }
}

/// What to do once the input was read.
pub fn next_input(event: InputEvent) -> (step: SessionStep)
    ensures
        step@ == input_step(event@),
{
    match event {
        InputEvent::End => SessionStep::Stop(None),
        InputEvent::Failed(message) => SessionStep::Stop(
            Some("failed to read stdin: ".to_owned().concat(message.as_str())),
        ),
        InputEvent::Line(line) => match handle_line(line.as_str()) {
            LineStep::Skip => SessionStep::Continue,
            LineStep::Respond(plan) => SessionStep::Send(plan),
            LineStep::Decode(value) => SessionStep::Decode(value),
        },
    }
}

/// What to do once a response was sent, or could not be sent for the reason that the message
/// gives.
pub fn after_send(sent: Result<(), String>) -> (step: SessionStep)
    ensures
        sent is Ok <==> step@ is Continue,
        step@ == sent_step(
            match sent {
                Ok(_) => Ok(()),
                Err(message) => Err(message@),
            },
        ),
{
    match sent {
        Ok(_) => SessionStep::Continue,
        Err(message) => SessionStep::Stop(
            Some("failed to send response: ".to_owned().concat(message.as_str())),
        ),
    }
}

/// What a plugin knows of itself from its start.
pub struct PluginView {
    pub version: Seq<char>,
    pub executable: Option<ExecutableView>,
}

/// A line of input, and all that is looked up for it: each part counts only where it is asked
/// for.
pub struct TurnView {
    pub line: Seq<char>,
    /// What the value on the line is decoded as, or the message that says why it is no request.
    pub request: Result<RpcRequestView, Seq<char>>,
    /// The time.
    pub timestamp: Seq<char>,
    /// What the parameters of the request are decoded as.
    pub params: Result<InvokeParamsView, Seq<char>>,
    /// The credentials in the environment.
    pub ambient: AmbientCredentialsView,
    /// What is under the path that the arguments name.
    pub status: PathStatus,
    /// What comes of the command.
    pub outcome: Result<ProcessOutput, Seq<char>>,
    /// What comes of sending the answer.
    pub sending: SendingView,
}

/// The plan for the answer to a line that holds a JSON value.
pub open spec fn decoded_reply(plugin: PluginView, turn: TurnView) -> ResponsePlanView {
    match turn.request {
        Err(message) => undecodable_request(message),
        Ok(request) => match request_step(request, plugin.version, turn.timestamp) {
            RequestStepView::Respond(plan) => plan,
            RequestStepView::Invoke(id, _) => invocation_answer(
                id,
                turn.params,
                plugin.executable,
                turn.ambient,
                turn.status,
                turn.outcome,
            ),
        },
    }
}

/// The plan for the answer to a line; nothing for a blank line.
pub open spec fn reply(plugin: PluginView, turn: TurnView) -> Option<ResponsePlanView> {
    match line_step(turn.line) {
        LineStepView::Skip => None,
        LineStepView::Respond(plan) => Some(plan),
        LineStepView::Decode(_) => Some(decoded_reply(plugin, turn)),
    }
}

/// The message that goes out for a line; nothing for a blank line, and nothing where the answer
/// cannot be sent.
pub open spec fn turn_message(plugin: PluginView, turn: TurnView) -> Option<MessageView> {
    match reply(plugin, turn) {
        Some(plan) => match sent_message(plan, turn.sending) {
            Ok(message) => Some(message),
            Err(_) => None,
        },
        None => None,
    }
}

/// The messages that go out for the lines of a session: it goes on to the end of the input, or
/// to the first answer that cannot be sent.
pub open spec fn output(plugin: PluginView, turns: Seq<TurnView>) -> Seq<MessageView>
    decreases turns.len(),
{
    if turns.len() == 0 {
        Seq::empty()
    } else if is_blank(turns.first().line) {
        output(plugin, turns.drop_first())
    } else {
        match turn_message(plugin, turns.first()) {
            Some(message) => seq![message] + output(plugin, turns.drop_first()),
            None => Seq::empty(),
        }
    }
}

/// The turns whose lines are not blank, in their order.
pub open spec fn asking(turns: Seq<TurnView>) -> Seq<TurnView> {
    turns.filter(|turn: TurnView| !is_blank(turn.line))
}

/// Every answer can be sent.
pub open spec fn all_sent(plugin: PluginView, turns: Seq<TurnView>) -> bool {
    forall|i: int|
        0 <= i < turns.len() && !is_blank((#[trigger] turns[i]).line) ==> turn_message(
            plugin,
            turns[i],
        ) is Some
}

/// The id that an answer carries: that of the request, or null where the line holds none.
pub open spec fn turn_id(turn: TurnView) -> JsonView {
    if parsed_json(trimmed(turn.line)) is Ok && turn.request is Ok {
        turn.request->Ok_0.id
    } else {
        JsonView::Null
    }
}

/// Every line is answered unless it is blank, with a well formed response that carries the id
/// of its request. A line that is no JSON value is a parse error and one that is no request is
/// an invalid request; these have the id null.
pub proof fn law_replies(plugin: PluginView, turn: TurnView)
    ensures
        reply(plugin, turn) is None <==> is_blank(turn.line),
        reply(plugin, turn) matches Some(plan) ==> {
            &&& plan.response.well_formed()
            &&& plan.response.id == turn_id(turn)
            &&& parsed_json(trimmed(turn.line)) is Err ==> {
                &&& plan.response.error is Some
                &&& plan.response.error->0.code == PARSE_ERROR
            }
            &&& parsed_json(trimmed(turn.line)) is Ok && turn.request is Err ==> {
                &&& plan.response.error is Some
                &&& plan.response.error->0.code == INVALID_REQUEST
            }
        },
{
    law_lines(turn.line);
    if let Ok(request) = turn.request {
        law_requests(request, plugin.version, turn.timestamp);
        law_what_an_invocation_is_answered(
            request.id,
            turn.params,
            plugin.executable,
            turn.ambient,
            turn.status,
            turn.outcome,
        );
    }
}

/// The answer to an invocation of the tool is a pointer to a file, whatever comes of the
/// invocation, wherever there is a directory for the file and the file can be written; the
/// answer to any other request, where it can be sent, is the response itself.
pub proof fn law_invocations_are_answered_by_pointers(
    plugin: PluginView,
    turn: TurnView,
    request: RpcRequestView,
)
    requires
        line_step(turn.line) is Decode,
        turn.request == Ok::<RpcRequestView, Seq<char>>(request),
    ensures
        ({
            let invokes = request.jsonrpc == JSONRPC_VERSION@ && request.method == "invoke"@;
            let dir = answer_dir(turn.params, plugin.executable, turn.status);
            if invokes && dir is Some {
                &&& turn_message(plugin, turn) is Some <==> {
                    &&& turn.sending.encoded is Ok
                    &&& turn.sending.file is Ok
                    &&& turn.sending.written is Ok
                }
                &&& turn_message(plugin, turn) matches Some(message) ==> message.file_transport
                    == Some(turn.sending.file->Ok_0)
            } else {
                turn_message(plugin, turn) matches Some(message) ==> message.file_transport is None
            }
        }),
{
    law_requests(request, plugin.version, turn.timestamp);
    law_what_an_invocation_is_answered(
        request.id,
        turn.params,
        plugin.executable,
        turn.ambient,
        turn.status,
        turn.outcome,
    );
}

/// Where every answer can be sent, so can all but the first.
proof fn lemma_rest_is_sent(plugin: PluginView, turns: Seq<TurnView>)
    requires
        turns.len() > 0,
        all_sent(plugin, turns),
    ensures
        all_sent(plugin, turns.drop_first()),
{
    let rest = turns.drop_first();
    assert forall|i: int| 0 <= i < rest.len() && !is_blank((#[trigger] rest[i]).line) implies
        turn_message(plugin, rest[i]) is Some by {
        assert(rest[i] == turns[i + 1]);
    }
}

/// Where every answer can be sent, one message goes out for each line that is not blank, and
/// they go out in the order of the lines.
pub proof fn law_every_line_is_answered(plugin: PluginView, turns: Seq<TurnView>)
    requires
        all_sent(plugin, turns),
    ensures
        output(plugin, turns).len() == asking(turns).len(),
        forall|i: int|
            0 <= i < asking(turns).len() ==> Some(#[trigger] output(plugin, turns)[i])
                == turn_message(plugin, asking(turns)[i]),
    decreases turns.len(),
{
    reveal_with_fuel(Seq::<_>::filter, 2);
    if turns.len() > 0 {
        let rest = turns.drop_first();
        lemma_rest_is_sent(plugin, turns);
        law_every_line_is_answered(plugin, rest);
        let first = seq![turns.first()];
        assert(turns =~= first + rest);
        Seq::filter_distributes_over_add(
            first,
            rest,
            |turn: TurnView| !is_blank(turn.line),
        );
        if is_blank(turns.first().line) {
            assert(asking(first) =~= Seq::empty());
        } else {
            assert(asking(first) =~= first);
        }
    }
}

/// Lines that are answered, with errors or not, do not touch what goes out for later ones.
pub proof fn law_later_lines_are_answered(
    plugin: PluginView,
    earlier: Seq<TurnView>,
    later: Seq<TurnView>,
)
    requires
        all_sent(plugin, earlier),
    ensures
        output(plugin, earlier + later) == output(plugin, earlier) + output(plugin, later),
    decreases earlier.len(),
{
    if earlier.len() == 0 {
        assert(earlier + later =~= later);
    } else {
        let rest = earlier.drop_first();
        lemma_rest_is_sent(plugin, earlier);
        law_later_lines_are_answered(plugin, rest, later);
        assert((earlier + later).drop_first() =~= rest + later);
        assert(output(plugin, earlier + later) =~= output(plugin, earlier) + output(
            plugin,
            later,
        ));
    }
}

/// Every message that goes out is well formed, whatever comes in.
pub proof fn law_output_is_well_formed(plugin: PluginView, turns: Seq<TurnView>)
    ensures
        forall|i: int|
            0 <= i < output(plugin, turns).len() ==> (#[trigger] output(
                plugin,
                turns,
            )[i]).well_formed(),
    decreases turns.len(),
{
    if turns.len() > 0 {
        let rest = turns.drop_first();
        law_output_is_well_formed(plugin, rest);
        law_replies(plugin, turns.first());
        if let Some(plan) = reply(plugin, turns.first()) {
            law_messages_are_well_formed(plan, turns.first().sending);
            if let Some(message) = turn_message(plugin, turns.first()) {
                let all = seq![message] + output(plugin, rest);
                assert forall|i: int| 0 <= i < all.len() implies (#[trigger] all[i]).well_formed() by {
                    if i > 0 {
                        assert(all[i] == output(plugin, rest)[i - 1]);
                    }
                }
            }
        }
    }
}

/// What a session comes to: the messages on standard output, and the text in the log.
pub struct SessionView {
    pub output: Seq<MessageView>,
    pub log: Option<Seq<char>>,
}

/// A session that ends at a step.
pub open spec fn ended(step: SessionStepView) -> SessionView {
    SessionView {
        output: Seq::empty(),
        log: match step {
            SessionStepView::Stop(log) => log,
            _ => None,
        },
    }
}

/// The event that follows the last line: the input is at its end, or cannot be read.
pub open spec fn last_event(end: Result<(), Seq<char>>) -> InputEventView {
    match end {
        Ok(_) => InputEventView::End,
        Err(message) => InputEventView::Failed(message),
    }
}

/// What the steps of a session come to: each line is read, the request on it is decoded and
/// answered where a step says so, the answer is sent, and the session goes on as the steps say.
/// `end` is what comes after the lines.
pub open spec fn session(
    plugin: PluginView,
    turns: Seq<TurnView>,
    end: Result<(), Seq<char>>,
) -> SessionView
    decreases turns.len(),
{
    if turns.len() == 0 {
        ended(input_step(last_event(end)))
    } else {
        let turn = turns.first();
        let later = session(plugin, turns.drop_first(), end);
        let step = match input_step(InputEventView::Line(turn.line)) {
            SessionStepView::Decode(_) => SessionStepView::Send(decoded_reply(plugin, turn)),
            step => step,
        };
        match step {
            SessionStepView::Continue => later,
            SessionStepView::Send(plan) => {
                let sent = sent_message(plan, turn.sending);
                match sent_step(
                    match sent {
                        Ok(_) => Ok(()),
                        Err(problem) => Err(problem),
                    },
                ) {
                    SessionStepView::Continue => SessionView {
                        output: seq![sent->Ok_0] + later.output,
                        log: later.log,
                    },
                    stop => ended(stop),
                }
            },
            stop => ended(stop),
        }
    }
}

/// The steps of a session put out the messages of its lines, whatever comes after the lines.
/// Where every answer can be sent, the session goes on until the input is at its end or cannot
/// be read, and only the latter is logged.
pub proof fn law_output_follows_the_steps(
    plugin: PluginView,
    turns: Seq<TurnView>,
    end: Result<(), Seq<char>>,
)
    ensures
        session(plugin, turns, end).output == output(plugin, turns),
        all_sent(plugin, turns) ==> session(plugin, turns, end).log == match end {
            Ok(_) => None,
            Err(message) => Some("failed to read stdin: "@ + message),
        },
    decreases turns.len(),
{
    if turns.len() > 0 {
        law_output_follows_the_steps(plugin, turns.drop_first(), end);
        if all_sent(plugin, turns) {
            lemma_rest_is_sent(plugin, turns);
        }
    }
}

/// The first answer that cannot be sent ends the session: what went out before it is all that
/// goes out, no later line is answered, and the reason is logged.
pub proof fn law_a_failed_send_ends_the_session(
    plugin: PluginView,
    earlier: Seq<TurnView>,
    turn: TurnView,
    later: Seq<TurnView>,
    end: Result<(), Seq<char>>,
    problem: Seq<char>,
)
    requires
        all_sent(plugin, earlier),
        reply(plugin, turn) is Some,
        sent_message(reply(plugin, turn)->0, turn.sending) == Err::<MessageView, Seq<char>>(
            problem,
        ),
    ensures
        session(plugin, earlier + seq![turn] + later, end) == (SessionView {
            output: output(plugin, earlier),
            log: Some("failed to send response: "@ + problem),
        }),
    decreases earlier.len(),
{
    let turns = earlier + seq![turn] + later;
    if earlier.len() > 0 {
        let rest = earlier.drop_first();
        lemma_rest_is_sent(plugin, earlier);
        law_a_failed_send_ends_the_session(plugin, rest, turn, later, end, problem);
        assert(turns.drop_first() =~= rest + seq![turn] + later);
    }
}

/// A session stops exactly at the end of its input, where the input cannot be read, and where an
/// answer cannot be sent; each of the two failures is logged with its message, and the end is
/// not. A blank line is passed over, and the value on a line is handed on whole.
pub proof fn law_when_a_session_stops(line: Seq<char>, message: Seq<char>)
    ensures
        input_step(InputEventView::End) == SessionStepView::Stop(None),
        input_step(InputEventView::Failed(message)) == SessionStepView::Stop(
            Some("failed to read stdin: "@ + message),
        ),
        is_blank(line) ==> input_step(InputEventView::Line(line)) == SessionStepView::Continue,
        !is_blank(line) ==> match parsed_json(trimmed(line)) {
            Ok(value) => input_step(InputEventView::Line(line)) == SessionStepView::Decode(value),
            Err(_) => {
                &&& input_step(InputEventView::Line(line)) is Send
                &&& input_step(InputEventView::Line(line))->Send_0.response.id == JsonView::Null
                &&& input_step(InputEventView::Line(line))->Send_0.response.error is Some
                &&& input_step(InputEventView::Line(line))->Send_0.response.error->0.code == -32700
            },
        },
        sent_step(Ok(())) == SessionStepView::Continue,
        sent_step(Err(message)) == SessionStepView::Stop(
            Some("failed to send response: "@ + message),
        ),
{
    law_lines(line);
}

/// What the calls do once the input was read and once a response was sent.
pub proof fn law_next_input_and_after_send(
    event: InputEvent,
    next: SessionStep,
    sent: Result<(), String>,
    after: SessionStep,
)
    requires
        call_ensures(next_input, (event,), next),
        call_ensures(after_send, (sent,), after),
    ensures
        event is End ==> next matches SessionStep::Stop(None),
        event matches InputEvent::Failed(message) ==> (next matches SessionStep::Stop(Some(text))
            && text@ == "failed to read stdin: "@ + message@),
        event matches InputEvent::Line(line) ==> {
            &&& next !is Stop
            &&& next is Continue <==> is_blank(line@)
            &&& next matches SessionStep::Decode(value) ==> parsed_json(trimmed(line@)) == Ok::<
                JsonView,
                Seq<char>,
            >(value@)
            &&& next is Send <==> !is_blank(line@) && parsed_json(trimmed(line@)) is Err
        },
        sent is Ok ==> after is Continue,
        sent matches Err(message) ==> (after matches SessionStep::Stop(Some(text)) && text@
            == "failed to send response: "@ + message@),
{
    if let InputEvent::Line(line) = event {
        law_lines(line@);
    }
}

/// Every part of an event and of a step counts.
pub proof fn law_events_are_seen_whole(event: InputEvent, step: SessionStep)
    ensures
        event is End ==> event@ == InputEventView::End,
        event matches InputEvent::Failed(message) ==> event@ == InputEventView::Failed(message@),
        event matches InputEvent::Line(line) ==> event@ == InputEventView::Line(line@),
        step is Continue ==> step@ == SessionStepView::Continue,
        step matches SessionStep::Decode(value) ==> step@ == SessionStepView::Decode(value@),
        step matches SessionStep::Send(plan) ==> step@ == SessionStepView::Send(plan@),
        step matches SessionStep::Stop(Some(text)) ==> step@ == SessionStepView::Stop(Some(text@)),
        step matches SessionStep::Stop(None) ==> step@ == SessionStepView::Stop(None),
{
}

} // verus!
