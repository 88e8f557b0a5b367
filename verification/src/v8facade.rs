use vstd::prelude::*;
use vstd::pervasive::unreached;
use vstd::string::*;

use crate::function_parameter::FunctionParameter;
use crate::primitive_result::{spec_from_output, PrimitiveResult};
use crate::V8HeapStatistics;

verus! {

/// An exception captured while the engine worked on a request: the thrown
/// value's textual form and the call stack as text. The stack trace is empty
/// for failures with no execution frame, such as a script that does not
/// compile.
pub struct JavaScriptError {
    pub exception: String,
    pub stack_trace: String,
}

/// What the projection reads off one engine-native value before the worker
/// thread releases it: the type tags the engine reports for the value, and the
/// eagerly copied payloads. `string_form` is the value's own textual form,
/// `json_form` is what the engine's JSON-stringify facility printed for it,
/// and `number_bits` is the IEEE-754 bit pattern of its numeric form.
pub struct NativeValue {
    pub is_string: bool,
    pub is_number: bool,
    pub is_big_int: bool,
    pub is_boolean: bool,
    pub is_array: bool,
    pub is_object: bool,

    pub string_form: String,
    pub number_bits: u64,
    pub bigint_value: i64,
    pub bool_value: bool,
    pub json_form: String,
}

/// A successful completion value in its tagged, self-contained form. Array
/// and object values are carried as the JSON text the engine printed for
/// them, never reconstructed member by member.
pub enum JavaScriptResult {
    StringValue(String),
    NumberValue(u64),
    BigIntValue(i64),
    BoolValue(bool),
    ArrayValue(String),
    ObjectValue(String),
}

/// The projection decision order, first match wins: string, then number, then
/// big-integer, then boolean; any other value falls back to its JSON text,
/// classified as an array if the value is array-typed, as an object if it is
/// any other composite, and as a string otherwise (which covers exotic types
/// such as functions and symbols returned directly).
pub open spec fn spec_projected(v: NativeValue) -> JavaScriptResult {
    if v.is_string {
        JavaScriptResult::StringValue(v.string_form)
    } else if v.is_number {
        JavaScriptResult::NumberValue(v.number_bits)
    } else if v.is_big_int {
        JavaScriptResult::BigIntValue(v.bigint_value)
    } else if v.is_boolean {
        JavaScriptResult::BoolValue(v.bool_value)
    } else if v.is_array {
        JavaScriptResult::ArrayValue(v.json_form)
    } else if v.is_object {
        JavaScriptResult::ObjectValue(v.json_form)
    } else {
        JavaScriptResult::StringValue(v.json_form)
    }
}

impl JavaScriptResult {
    /// Projects one engine-native value, already copied into `NativeValue`
    /// form, into the tagged result shape that `spec_projected` lays down.
    pub fn from(value: NativeValue) -> (r: JavaScriptResult)
        ensures
            r == spec_projected(value),
    {
        if value.is_string {
            JavaScriptResult::StringValue(value.string_form)
        } else if value.is_number {
            JavaScriptResult::NumberValue(value.number_bits)
        } else if value.is_big_int {
            JavaScriptResult::BigIntValue(value.bigint_value)
        } else if value.is_boolean {
            JavaScriptResult::BoolValue(value.bool_value)
        } else if value.is_array {
            JavaScriptResult::ArrayValue(value.json_form)
        } else if value.is_object {
            JavaScriptResult::ObjectValue(value.json_form)
        } else {
            JavaScriptResult::StringValue(value.json_form)
        }
    }
}

/// One function-invocation request: the global name to resolve and the
/// decoded arguments to hand to it.
pub struct FunctionCall {
    pub name: String,
    pub arguments: Vec<FunctionParameter>,
}

/// What the actor emits for one request: a completion value, a captured
/// failure, or a reading of the engine's memory counters.
pub enum Output {
    Result(JavaScriptResult),
    Error(JavaScriptError),
    HeapStatistics(V8HeapStatistics),
}

/// The message reported when script text fails to compile: a fixed preamble
/// followed by the engine's own description of the failure.
pub open spec fn spec_compile_error_message(detail: Seq<char>) -> Seq<char> {
    "There was an issue compiling the provided script: "@ + detail
}

/// Builds the compile-failure message around the engine's description.
pub fn compile_error_message(detail: &str) -> (m: String)
    ensures
        m@ == spec_compile_error_message(detail@),
{
    let m = String::from_str("There was an issue compiling the provided script: ");
    m.concat(detail)
}

/// The diagnostic reported when an invocation target does not resolve to a
/// callable: it names the symbol that was looked up and quotes the textual
/// form of whatever the lookup returned instead.
pub open spec fn spec_resolution_error_message(name: Seq<char>, found: Seq<char>) -> Seq<char> {
    "Couldn't resolve function `"@ + name + "`, V8 returned: '"@ + found + "'"@
}

/// Builds the resolution-failure diagnostic for one invocation target.
pub fn resolution_error_message(name: &str, found: &str) -> (m: String)
    ensures
        m@ == spec_resolution_error_message(name@, found@),
{
    let m = String::from_str("Couldn't resolve function `");
    let m = m.concat(name);
    let m = m.concat("`, V8 returned: '");
    let m = m.concat(found);
    m.concat("'")
}

/// How the engine left one evaluate request: the script text failed to
/// compile (no execution occurred), the script threw while running, or it ran
/// to completion with a value.
pub enum ScriptOutcome {
    CompileFailure { message: String },
    Threw { exception: String, stack_trace: String },
    Completed { value: NativeValue },
}

/// How the engine left one invoke request: the target name did not resolve to
/// a callable (with the textual form of whatever the lookup returned), the
/// call threw, or the call returned a value.
pub enum CallOutcome {
    NotCallable { found: String },
    Threw { exception: String, stack_trace: String },
    Completed { value: NativeValue },
}

/// Relates one evaluate outcome to the response emitted for it: a compile
/// failure is reported with the compile-failure message and an empty stack
/// trace, a thrown value is reported verbatim with its stack trace, and a
/// completion value is projected into the tagged result shape.
pub open spec fn evaluate_response(o: ScriptOutcome, out: Output) -> bool {
    match o {
        ScriptOutcome::CompileFailure { message } => {
            &&& out matches Output::Error(e)
            &&& e.exception@ == spec_compile_error_message(message@)
            &&& e.stack_trace@ == Seq::<char>::empty()
        },
        ScriptOutcome::Threw { exception, stack_trace } => out == Output::Error(
            JavaScriptError { exception, stack_trace },
        ),
        ScriptOutcome::Completed { value } => out == Output::Result(spec_projected(value)),
    }
}

/// Converts what the engine did with one evaluate request into the response
/// the caller sees.
pub fn output_of_evaluate(o: ScriptOutcome) -> (out: Output)
    ensures
        evaluate_response(o, out),
        !(out is HeapStatistics),
{
    match o {
        ScriptOutcome::CompileFailure { message } => Output::Error(
            JavaScriptError {
                exception: compile_error_message(message.as_str()),
                stack_trace: String::new(),
            },
        ),
        ScriptOutcome::Threw { exception, stack_trace } => Output::Error(
            JavaScriptError { exception, stack_trace },
        ),
        ScriptOutcome::Completed { value } => Output::Result(JavaScriptResult::from(value)),
    }
}

/// Relates one invoke outcome to the response emitted for it: a target that
/// is not callable is reported with the resolution diagnostic naming it and an
/// empty stack trace, a thrown value is reported verbatim with its stack
/// trace, and a completion value is projected into the tagged result shape.
pub open spec fn invoke_response(name: Seq<char>, o: CallOutcome, out: Output) -> bool {
    match o {
        CallOutcome::NotCallable { found } => {
            &&& out matches Output::Error(e)
            &&& e.exception@ == spec_resolution_error_message(name, found@)
            &&& e.stack_trace@ == Seq::<char>::empty()
        },
        CallOutcome::Threw { exception, stack_trace } => out == Output::Error(
            JavaScriptError { exception, stack_trace },
        ),
        CallOutcome::Completed { value } => out == Output::Result(spec_projected(value)),
    }
}

/// Converts what the engine did with one invoke request into the response the
/// caller sees; `name` is the target the request asked to resolve.
pub fn output_of_invoke(name: &str, o: CallOutcome) -> (out: Output)
    ensures
        invoke_response(name@, o, out),
        !(out is HeapStatistics),
{
    match o {
        CallOutcome::NotCallable { found } => Output::Error(
            JavaScriptError {
                exception: resolution_error_message(name, found.as_str()),
                stack_trace: String::new(),
            },
        ),
        CallOutcome::Threw { exception, stack_trace } => Output::Error(
            JavaScriptError { exception, stack_trace },
        ),
        CallOutcome::Completed { value } => Output::Result(JavaScriptResult::from(value)),
    }
}

/// Extracts the heap-snapshot reading from the paired response to a snapshot
/// request; every other response shape is reported as a failure, with a fixed
/// diagnostic.
pub fn snapshot_of_output(out: Output) -> (r: Result<V8HeapStatistics, String>)
    ensures
        out matches Output::HeapStatistics(s) ==> r == Ok::<V8HeapStatistics, String>(s),
        !(out is HeapStatistics) ==> (r matches Err(e) && e@ == "Couldn't get the heap statistics..."@),
{
    match out {
        Output::HeapStatistics(s) => Ok(s),
        _ => Err(String::from_str("Couldn't get the heap statistics...")),
    }
}

/// Wraps the failure reported when the worker thread is gone: the instance is
/// unusable and every further operation fails loudly instead of hanging. The
/// transport's description becomes the exception text; no script ran, so the
/// stack trace is empty.
pub fn fatal_failure_output(message: String) -> (out: Output)
    ensures
        (out matches Output::Error(e) && e.exception == message && e.stack_trace@ == Seq::<char>::empty()),
{
    Output::Error(JavaScriptError { exception: message, stack_trace: String::new() })
}

/// One request in the actor's mailbox. `blocking` distinguishes the paired
/// synchronous form, whose caller waits for the response, from the
/// callback-carrying form, whose response is flattened into a result record
/// and handed to a completion callback on the worker thread.
pub enum Request {
    Evaluate { source: String, blocking: bool },
    Invoke { call: FunctionCall, blocking: bool },
    HeapSnapshot { blocking: bool },
}

/// The actor's mailbox: a first-in-first-out, single-consumer queue. The two
/// ghost fields record every request ever submitted, in submission order, and
/// how many of them have been taken, so that the contracts can say which
/// submitted request each take yields.
pub struct Mailbox {
    queue: Vec<Request>,
    history: Ghost<Seq<Request>>,
    served: Ghost<nat>,
}

impl Mailbox {
    /// Every request ever submitted, in submission order.
    pub closed spec fn submitted(self) -> Seq<Request> {
        self.history@
    }

    /// How many requests have been taken so far.
    pub closed spec fn served(self) -> nat {
        self.served@
    }

    /// The requests submitted and not yet taken, in submission order.
    pub closed spec fn pending(self) -> Seq<Request> {
        self.queue@
    }

    /// The mailbox invariant: what is pending is exactly the submitted
    /// sequence past its served prefix.
    pub closed spec fn wf(self) -> bool {
        &&& self.served@ + self.queue@.len() == self.history@.len()
        &&& self.queue@ == self.history@.subrange(
            self.served@ as int,
            self.history@.len() as int,
        )
    }

    /// Builds an empty mailbox: nothing submitted, nothing served.
    pub fn new() -> (m: Mailbox)
        ensures
            m.wf(),
            m.submitted() == Seq::<Request>::empty(),
            m.served() == 0,
    {
        let m = Mailbox { queue: Vec::new(), history: Ghost(Seq::empty()), served: Ghost(0) };
        proof {
            assert(m.queue@ == m.history@.subrange(0, m.history@.len() as int));
        }
        m
    }

    /// Appends one request behind everything already pending.
    pub fn submit(&mut self, r: Request)
        requires
            old(self).wf(),
        ensures
            final(self).wf(),
            final(self).submitted() == old(self).submitted().push(r),
            final(self).served() == old(self).served(),
            final(self).pending() == old(self).pending().push(r),
    {
        self.queue.push(r);
        proof {
            self.history@ = self.history@.push(r);
            assert(self.queue@ =~= self.history@.subrange(
                self.served@ as int,
                self.history@.len() as int,
            ));
        }
    }

    /// Takes the request that has waited longest: the n-th take yields the
    /// n-th submitted request, and an empty mailbox yields nothing.
    pub fn take(&mut self) -> (r: Option<Request>)
        requires
            old(self).wf(),
        ensures
            final(self).wf(),
            final(self).submitted() == old(self).submitted(),
            old(self).served() < old(self).submitted().len() ==> {
                &&& r == Some(old(self).submitted()[old(self).served() as int])
                &&& final(self).served() == old(self).served() + 1
            },
            old(self).served() >= old(self).submitted().len() ==> {
                &&& r is None
                &&& *final(self) == *old(self)
            },
    {
        if self.queue.len() > 0 {
            let first = self.queue.remove(0);
            proof {
                self.served@ = self.served@ + 1;
                assert(self.queue@ =~= self.history@.subrange(
                    self.served@ as int,
                    self.history@.len() as int,
                ));
            }
            Some(first)
        } else {
            None
        }
    }
}

/// The ordering law of the mailbox: the requests still pending are exactly
/// the submitted requests past the served prefix, in submission order; so
/// requests are consumed strictly in the order they were submitted.
pub proof fn lemma_mailbox_fifo(m: Mailbox)
    requires
        m.wf(),
    ensures
        m.served() <= m.submitted().len(),
        m.pending() == m.submitted().subrange(m.served() as int, m.submitted().len() as int),
{
}

/// The actor's two states: waiting on the mailbox, or processing one request.
pub enum ActorState {
    Idle,
    Executing,
}

/// What the engine produced for one request, read off the engine before the
/// worker thread releases any engine-native value.
pub enum EngineOutcome {
    Evaluated(ScriptOutcome),
    Invoked(CallOutcome),
    Measured(V8HeapStatistics),
}

/// How one finished request leaves the worker: a paired reply the blocking
/// caller is waiting for, or a flattened record (or snapshot record) handed
/// to the request's completion callback on the worker thread.
pub enum Response {
    Reply(Output),
    Notify(PrimitiveResult),
    NotifySnapshot(V8HeapStatistics),
}

/// The outcome kind the engine can produce for each request kind.
pub open spec fn outcome_matches(req: Request, o: EngineOutcome) -> bool {
    match req {
        Request::Evaluate { .. } => o is Evaluated,
        Request::Invoke { .. } => o is Invoked,
        Request::HeapSnapshot { .. } => o is Measured,
    }
}

/// Relates one evaluate outcome to the flattened record handed to a
/// completion callback for it.
pub open spec fn flattened_evaluate_response(o: ScriptOutcome, r: PrimitiveResult) -> bool {
    exists|out: Output| #[trigger] evaluate_response(o, out) && r == spec_from_output(out)
}

/// Relates one invoke outcome to the flattened record handed to a completion
/// callback for it.
pub open spec fn flattened_invoke_response(
    name: Seq<char>,
    o: CallOutcome,
    r: PrimitiveResult,
) -> bool {
    exists|out: Output| #[trigger] invoke_response(name, o, out) && r == spec_from_output(out)
}

/// Relates a request and its engine outcome to the response the worker emits:
/// a blocking request gets the paired reply, a callback request gets the
/// flattened record, and a heap-snapshot request gets the reading itself.
pub open spec fn response_correct(req: Request, o: EngineOutcome, resp: Response) -> bool {
    match req {
        Request::Evaluate { source, blocking } => {
            &&& o matches EngineOutcome::Evaluated(so)
            &&& if blocking {
                resp matches Response::Reply(out) && evaluate_response(so, out)
            } else {
                resp matches Response::Notify(r) && flattened_evaluate_response(so, r)
            }
        },
        Request::Invoke { call, blocking } => {
            &&& o matches EngineOutcome::Invoked(co)
            &&& if blocking {
                resp matches Response::Reply(out) && invoke_response(call.name@, co, out)
            } else {
                resp matches Response::Notify(r) && flattened_invoke_response(call.name@, co, r)
            }
        },
        Request::HeapSnapshot { blocking } => {
            &&& o matches EngineOutcome::Measured(s)
            &&& if blocking {
                resp == Response::Reply(Output::HeapStatistics(s))
            } else {
                resp == Response::NotifySnapshot(s)
            }
        },
    }
}

/// Packages what the engine did with one request into the response the worker
/// emits for it.
pub fn finish_request(req: &Request, outcome: EngineOutcome) -> (resp: Response)
    requires
        outcome_matches(*req, outcome),
    ensures
        response_correct(*req, outcome, resp),
{
    match req {
        Request::Evaluate { blocking, .. } => match outcome {
            EngineOutcome::Evaluated(so) => {
                let ghost so0 = so;
                let out = output_of_evaluate(so);
                if *blocking {
                    Response::Reply(out)
                } else {
                    let r = PrimitiveResult::from_output(out);
                    proof {
                        assert(evaluate_response(so0, out) && r == spec_from_output(out));
                    }
                    Response::Notify(r)
                }
            },
            _ => unreached(),
        },
        Request::Invoke { call, blocking } => match outcome {
            EngineOutcome::Invoked(co) => {
                let ghost co0 = co;
                let out = output_of_invoke(call.name.as_str(), co);
                if *blocking {
                    Response::Reply(out)
                } else {
                    let r = PrimitiveResult::from_output(out);
                    proof {
                        assert(invoke_response(call.name@, co0, out) && r == spec_from_output(
                            out,
                        ));
                    }
                    Response::Notify(r)
                }
            },
            _ => unreached(),
        },
        Request::HeapSnapshot { blocking } => match outcome {
            EngineOutcome::Measured(s) => if *blocking {
                Response::Reply(Output::HeapStatistics(s))
            } else {
                Response::NotifySnapshot(s)
            },
            _ => unreached(),
        },
    }
}

/// The worker's view of one engine instance: the mailbox it drains and which
/// of its two states it is in. The engine's global scope itself lives behind
/// the boundary; this type carries the decisions the worker makes about it.
pub struct EngineActor {
    pub state: ActorState,
    pub mailbox: Mailbox,
}

impl EngineActor {
    /// A fresh actor: idle, with an empty mailbox.
    pub fn new() -> (a: EngineActor)
        ensures
            a.state is Idle,
            a.mailbox.wf(),
            a.mailbox.submitted() == Seq::<Request>::empty(),
            a.mailbox.served() == 0,
    {
        EngineActor { state: ActorState::Idle, mailbox: Mailbox::new() }
    }

    /// Takes the next request off the mailbox: the actor moves to `Executing`
    /// exactly when a request was pending, and requests leave in submission
    /// order.
    pub fn accept(&mut self) -> (r: Option<Request>)
        requires
            old(self).state is Idle,
            old(self).mailbox.wf(),
        ensures
            final(self).mailbox.wf(),
            final(self).mailbox.submitted() == old(self).mailbox.submitted(),
            old(self).mailbox.served() < old(self).mailbox.submitted().len() ==> {
                &&& r == Some(
                    old(self).mailbox.submitted()[old(self).mailbox.served() as int],
                )
                &&& final(self).mailbox.served() == old(self).mailbox.served() + 1
                &&& final(self).state is Executing
            },
            old(self).mailbox.served() >= old(self).mailbox.submitted().len() ==> {
                &&& r is None
                &&& final(self).state is Idle
                &&& final(self).mailbox.served() == old(self).mailbox.served()
            },
    {
        match self.mailbox.take() {
            Some(req) => {
                self.state = ActorState::Executing;
                Some(req)
            },
            None => None,
        }
    }

    /// Emits the response for the request just executed and goes back to
    /// waiting: the actor returns to `Idle` after every request, whatever the
    /// outcome was.
    pub fn complete(&mut self, req: &Request, outcome: EngineOutcome) -> (resp: Response)
        requires
            old(self).state is Executing,
            old(self).mailbox.wf(),
            outcome_matches(*req, outcome),
        ensures
            final(self).state is Idle,
            final(self).mailbox == old(self).mailbox,
            response_correct(*req, outcome, resp),
    {
        self.state = ActorState::Idle;
        finish_request(req, outcome)
    }

    /// One turn of the worker loop for everything already pending: takes the
    /// requests in submission order, pairs the i-th with the i-th engine
    /// outcome, and emits exactly one response per request, in that same
    /// order, ending idle again.
    pub fn drain(&mut self, outcomes: Vec<EngineOutcome>) -> (responses: Vec<Response>)
        requires
            old(self).state is Idle,
            old(self).mailbox.wf(),
            outcomes@.len() == old(self).mailbox.submitted().len() - old(self).mailbox.served(),
            forall|i: int|
                0 <= i < outcomes@.len() ==> #[trigger] outcome_matches(
                    old(self).mailbox.submitted()[old(self).mailbox.served() + i],
                    outcomes@[i],
                ),
        ensures
            final(self).state is Idle,
            final(self).mailbox.wf(),
            final(self).mailbox.submitted() == old(self).mailbox.submitted(),
            final(self).mailbox.served() == old(self).mailbox.submitted().len(),
            responses@.len() == outcomes@.len(),
            forall|i: int|
                0 <= i < outcomes@.len() ==> #[trigger] response_correct(
                    old(self).mailbox.submitted()[old(self).mailbox.served() + i],
                    outcomes@[i],
                    responses@[i],
                ),
    {
        let mut responses: Vec<Response> = Vec::new();
        let mut outcomes = outcomes;
        let ghost submitted = self.mailbox.submitted();
        let ghost served0 = self.mailbox.served();
        let ghost outcomes0 = outcomes@;
        while outcomes.len() > 0
            invariant
                self.state is Idle,
                self.mailbox.wf(),
                self.mailbox.submitted() == submitted,
                served0 + outcomes0.len() == submitted.len(),
                self.mailbox.served() == served0 + responses@.len(),
                responses@.len() + outcomes@.len() == outcomes0.len(),
                outcomes@ == outcomes0.subrange(responses@.len() as int, outcomes0.len() as int),
                forall|i: int|
                    0 <= i < responses@.len() ==> #[trigger] response_correct(
                        submitted[served0 + i],
                        outcomes0[i],
                        responses@[i],
                    ),
                forall|i: int|
                    0 <= i < outcomes0.len() ==> #[trigger] outcome_matches(
                        submitted[served0 + i],
                        outcomes0[i],
                    ),
            decreases outcomes@.len(),
        {
            proof {
                assert(outcomes@[0] == outcomes0[responses@.len() as int]);
            }
            let outcome = outcomes.remove(0);
            let req = match self.accept() {
                Some(r) => r,
                None => unreached(),
            };
            let resp = self.complete(&req, outcome);
            responses.push(resp);
            proof {
                assert(outcomes@ =~= outcomes0.subrange(
                    responses@.len() as int,
                    outcomes0.len() as int,
                ));
            }
        }
        responses
    }
}

/// The engine reports exactly one concrete runtime type for a value; this is
/// the shape of a value of one of the four primitive types.
pub open spec fn spec_primitive_typed(v: NativeValue) -> bool {
    &&& !v.is_array
    &&& !v.is_object
    &&& (if v.is_string { 1int } else { 0 }) + (if v.is_number { 1int } else { 0 }) + (if v.is_big_int { 1int } else { 0 }) + (if v.is_boolean { 1int } else { 0 }) == 1
}

/// A well-formed script with a primitive completion value — string, number,
/// big-integer or boolean — evaluates to a plain result whose populated
/// variant matches the value's runtime type and carries the value unchanged.
pub proof fn lemma_primitive_completion_round_trips(v: NativeValue, out: Output)
    requires
        spec_primitive_typed(v),
        evaluate_response(ScriptOutcome::Completed { value: v }, out),
    ensures
        v.is_string ==> out == Output::Result(JavaScriptResult::StringValue(v.string_form)),
        v.is_number ==> out == Output::Result(JavaScriptResult::NumberValue(v.number_bits)),
        v.is_big_int ==> out == Output::Result(JavaScriptResult::BigIntValue(v.bigint_value)),
        v.is_boolean ==> out == Output::Result(JavaScriptResult::BoolValue(v.bool_value)),
{
}

/// A script that fails to compile evaluates to an error result whose stack
/// trace is empty: no execution occurred, so there is no frame to report.
pub proof fn lemma_compile_failure_empty_stack_trace(message: String, out: Output)
    requires
        evaluate_response(ScriptOutcome::CompileFailure { message }, out),
    ensures
        out matches Output::Error(e) && e.stack_trace@ == Seq::<char>::empty(),
{
}

/// A thrown value surfaces verbatim: for evaluate and invoke alike, the error
/// result carries the thrown value's textual form as its exception and the
/// captured call stack as its stack trace.
pub proof fn lemma_thrown_value_surfaces(
    exception: String,
    stack_trace: String,
    name: Seq<char>,
    out_eval: Output,
    out_call: Output,
)
    requires
        evaluate_response(
            ScriptOutcome::Threw { exception, stack_trace },
            out_eval,
        ),
        invoke_response(
            name,
            CallOutcome::Threw { exception, stack_trace },
            out_call,
        ),
    ensures
        out_eval == Output::Error(JavaScriptError { exception, stack_trace }),
        out_call == out_eval,
{
}

/// The resolution diagnostic names its target: invoking a name that does not
/// resolve to a callable yields an error result with an empty stack trace
/// whose exception text carries the looked-up name verbatim, right after the
/// fixed preamble.
pub proof fn lemma_resolution_error_names_function(name: Seq<char>, found: String, out: Output)
    requires
        invoke_response(name, CallOutcome::NotCallable { found }, out),
    ensures
        out matches Output::Error(e) && {
            let preamble = "Couldn't resolve function `"@;
            &&& e.stack_trace@ == Seq::<char>::empty()
            &&& e.exception@.len() >= preamble.len() + name.len()
            &&& e.exception@.subrange(
                preamble.len() as int,
                (preamble.len() + name.len()) as int,
            ) == name
        },
{
    let e = out->Error_0;
    let preamble = "Couldn't resolve function `"@;
    let tail = "`, V8 returned: '"@ + found@ + "'"@;
    assert(e.exception@ == preamble + name + tail);
    assert(e.exception@.subrange(preamble.len() as int, (preamble.len() + name.len()) as int) =~= name);
}

/// An array or object completion value comes back as the JSON text the engine
/// printed for it: tagged as an array when the value is array-typed, as an
/// object for any other composite, and as a string for the remaining exotic
/// types.
pub proof fn lemma_composite_completion_is_json(v: NativeValue, out: Output)
    requires
        !v.is_string,
        !v.is_number,
        !v.is_big_int,
        !v.is_boolean,
        evaluate_response(ScriptOutcome::Completed { value: v }, out),
    ensures
        v.is_array ==> out == Output::Result(JavaScriptResult::ArrayValue(v.json_form)),
        !v.is_array && v.is_object ==> out == Output::Result(
            JavaScriptResult::ObjectValue(v.json_form),
        ),
        !v.is_array && !v.is_object ==> out == Output::Result(
            JavaScriptResult::StringValue(v.json_form),
        ),
{
}

} // verus!
