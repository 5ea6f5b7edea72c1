//! The rules of the interpreter's facade, over mathematical values: for each
//! operation the step it starts with, and for each reply the step that
//! follows.

use vstd::prelude::*;
use vstd::string::*;
use vstd::utf8::*;

use crate::createcommand::{distinct_names, has_name, lemma_push, lemma_without, lookup, without};
use crate::error::{
    argument_nul_error, code_nul_error, corruption_error, deleted_error, duplicate_error,
    foreign_error, install_error, missing_error, name_nul_error, null_object_error,
    null_result_error, relay_closed_error, thread_error, too_long_error, unsupported_text,
    variable_error, ErrorView,
};
use crate::foreign::{
    AnswerView, CallView, Goal, PendingView, ReplyView, StepView, TCL_ERROR, TCL_OK,
};
use crate::obj::{lossy_text, ObjView, ValueView};
use crate::postoffice::{
    lemma_response_round_trip, parse_request, parse_response, request_bytes, response_bytes,
    RequestView, ResponseView,
};
use crate::text::{decimal, digit};
use crate::wrappers::{all_countable, countable, objv_of};

verus! {

/// The mathematical value of an interpreter's facade.
pub struct InterpView<C> {
    /// The foreign handle of the interpreter.
    pub handle: usize,
    /// Whether the interpreter is deleted. Nothing brings it back.
    pub deleted: bool,
    /// The registered commands, by name.
    pub commands: Seq<(Seq<char>, C)>,
    /// The name of the variable that ends the event loop.
    pub exit_var_name: Seq<char>,
    /// The thread that made the interpreter, the only one that may call it.
    pub owner: u64,
    /// Whether other threads can have code evaluated over the relay.
    pub relay: bool,
}

/// Whether text is made of ASCII characters other than NUL, so that its
/// bytes are a string for the foreign side.
pub open spec fn plain(text: Seq<char>) -> bool {
    forall|i: int| 0 <= i < text.len() ==> '\u{1}' <= #[trigger] text[i] <= '\u{7f}'
}

/// Whether a facade is well formed: its handle is not null, no two of its
/// commands have the same name, and the name of its variable is plain.
pub open spec fn interp_wf<C>(s: InterpView<C>) -> bool {
    s.handle != 0 && distinct_names(s.commands) && plain(s.exit_var_name)
}

/// The name of the variable that ends the event loop, for a random number.
pub open spec fn sentinel_name(seed: u64) -> Seq<char> {
    "exit_var_"@ + decimal(seed as nat)
}

/// The facade of a new interpreter.
pub open spec fn fresh<C>(handle: usize, owner: u64, seed: u64) -> InterpView<C> {
    InterpView {
        handle,
        deleted: false,
        commands: Seq::empty(),
        exit_var_name: sentinel_name(seed),
        owner,
        relay: false,
    }
}

/// The step that ends an operation with an error.
pub open spec fn refuse<C>(e: ErrorView) -> StepView<C> {
    StepView::Done(Err(e))
}

/// The step that ends an operation with success.
pub open spec fn done<C>(reply: ReplyView) -> StepView<C> {
    StepView::Done(Ok(reply))
}

/// The step that sends a response over the relay.
pub open spec fn respond<C>(response: ResponseView) -> StepView<C> {
    StepView::Call(None, CallView::Respond(response_bytes(response)), PendingView::Responded)
}

/// How work with this goal ends in an error: the caller gets it, the thread
/// that asked over the relay is sent its text, and a bootstrap deletes the
/// interpreter before it gives the error.
pub open spec fn fail<C>(s: InterpView<C>, goal: Goal, e: ErrorView) -> StepView<C> {
    match goal {
        Goal::Relay => respond(ResponseView::Eval(Err(encode_utf8(e.text)))),
        Goal::Boot(_) => if s.deleted {
            refuse(e)
        } else {
            StepView::Call(Some(s.handle), CallView::DeleteInterp, PendingView::Aborting(e))
        },
        _ => refuse(e),
    }
}

/// A call on the interpreter, under a guard. A deleted interpreter is not
/// called: the work fails instead.
pub open spec fn on_interp<C>(
    s: InterpView<C>,
    goal: Goal,
    call: CallView,
    pending: PendingView<C>,
) -> StepView<C> {
    if s.deleted {
        fail(s, goal, deleted_error())
    } else {
        StepView::Call(Some(s.handle), call, pending)
    }
}

/// Why an operation of `thread` is refused before it starts, if it is.
pub open spec fn gate<C>(s: InterpView<C>, thread: u64) -> Option<ErrorView> {
    if s.deleted {
        Some(deleted_error())
    } else if thread != s.owner {
        Some(thread_error())
    } else {
        None
    }
}

/// The code of a call of the bootstrap or of the toolkit's setup.
pub open spec fn script_code(name: Seq<char>, goal: Goal) -> Seq<char> {
    match goal {
        Goal::Boot(k) => if k == 1 {
            "set "@ + name + " false"@
        } else {
            "rename exit {}"@
        },
        Goal::Tk(k) => if k == 1 {
            "package require Tk"@
        } else {
            "bind . <Destroy> { set "@ + name + " true }"@
        },
        _ => Seq::empty(),
    }
}

/// The call of the bootstrap, or of the toolkit's setup, that `goal`
/// counts. The bootstrap initializes the interpreter, sets the variable
/// that ends the event loop to false, and takes away the command that ends
/// the process. The setup initializes the toolkit, loads it, and has the
/// end of the main window set the variable to true.
pub open spec fn script_call<C>(s: InterpView<C>, goal: Goal) -> CallView {
    match goal {
        Goal::Boot(k) => if k == 0 {
            CallView::Init
        } else {
            CallView::Eval(encode_utf8(script_code(s.exit_var_name, goal)))
        },
        Goal::Tk(k) => if k == 0 {
            CallView::InitTk
        } else {
            CallView::Eval(encode_utf8(script_code(s.exit_var_name, goal)))
        },
        _ => CallView::GetResult,
    }
}

/// The goal of the call that follows the one `goal` counts, if one follows.
pub open spec fn next_stage(goal: Goal) -> Option<Goal> {
    match goal {
        Goal::Boot(k) => if k < 2 {
            Some(Goal::Boot((k + 1) as u8))
        } else {
            None
        },
        Goal::Tk(k) => if k < 2 {
            Some(Goal::Tk((k + 1) as u8))
        } else {
            None
        },
        _ => None,
    }
}

/// What follows a call that succeeded: an evaluation fetches its result, a
/// script makes its next call or is done.
pub open spec fn proceed<C>(s: InterpView<C>, goal: Goal) -> StepView<C> {
    match goal {
        Goal::Direct | Goal::Relay => on_interp(
            s,
            goal,
            CallView::GetResult,
            PendingView::ResultObject(goal),
        ),
        _ => match next_stage(goal) {
            Some(next) => on_interp(s, next, script_call(s, next), PendingView::Status(next)),
            None => done(ReplyView::Unit),
        },
    }
}

/// What follows a call that failed: the result object is fetched for the
/// text of the error.
pub open spec fn explain<C>(s: InterpView<C>, goal: Goal) -> StepView<C> {
    on_interp(s, goal, CallView::GetResult, PendingView::ErrorText(goal))
}

/// What follows a status code.
pub open spec fn after_status<C>(s: InterpView<C>, goal: Goal, code: i32) -> StepView<C> {
    if code == TCL_OK {
        proceed(s, goal)
    } else {
        explain(s, goal)
    }
}

/// The error that the interpreter's result object tells.
pub open spec fn error_of(ptr: usize, bytes: Seq<u8>) -> ErrorView {
    if ptr == 0 {
        null_result_error()
    } else {
        foreign_error(lossy_text(bytes))
    }
}

/// The step that counts the reference of a new handle; the handle is the
/// operation's result once the driver has counted it.
pub open spec fn wrap<C>(ptr: usize, bytes: Seq<u8>) -> StepView<C> {
    StepView::Call(None, CallView::IncrRefCount(ptr), PendingView::Wrapped(ObjView { ptr, bytes }))
}

/// What follows the result object of an evaluation: the caller gets a
/// handle of it, the thread that asked over the relay its string form.
pub open spec fn after_result<C>(
    s: InterpView<C>,
    goal: Goal,
    ptr: usize,
    bytes: Seq<u8>,
) -> StepView<C> {
    if ptr == 0 {
        fail(s, goal, null_result_error())
    } else if goal == Goal::Relay {
        respond(ResponseView::Eval(Ok(bytes)))
    } else {
        wrap(ptr, bytes)
    }
}

/// The texts of byte strings.
pub open spec fn lossy_rows(items: Seq<Seq<u8>>) -> Seq<Seq<char>> {
    Seq::new(items.len(), |i: int| lossy_text(items[i]))
}

/// The step that makes a new object of a value.
pub open spec fn create_step<C>(value: ValueView) -> StepView<C> {
    if !countable(value) {
        refuse(too_long_error())
    } else {
        StepView::Call(None, CallView::NewObj(objv_of(seq![value])), PendingView::Created)
    }
}

/// What follows the owning thread's answer to a relayed evaluation: a new
/// object of the result's string form, or the error with the text sent.
pub open spec fn after_relay<C>(bytes: Seq<u8>) -> StepView<C> {
    match parse_response(bytes) {
        Some(ResponseView::Eval(Ok(text))) => create_step(ValueView::Str(text)),
        Some(ResponseView::Eval(Err(text))) => refuse(foreign_error(lossy_text(text))),
        _ => refuse(corruption_error()),
    }
}

/// The first step of an evaluation. The owning thread evaluates; another
/// thread sends the code over the relay, if that is open.
pub open spec fn eval_step<C>(s: InterpView<C>, thread: u64, code: Seq<u8>) -> StepView<C> {
    if s.deleted {
        refuse(deleted_error())
    } else if code.contains(0u8) {
        refuse(code_nul_error())
    } else if thread == s.owner {
        StepView::Call(Some(s.handle), CallView::Eval(code), PendingView::Status(Goal::Direct))
    } else if s.relay {
        StepView::Call(
            None,
            CallView::Relay(request_bytes(RequestView::Eval(code))),
            PendingView::Relayed,
        )
    } else {
        refuse(relay_closed_error())
    }
}

/// The first step of a call with arguments.
pub open spec fn call_step<C>(s: InterpView<C>, thread: u64, args: Seq<ValueView>) -> StepView<C> {
    match gate(s, thread) {
        Some(e) => refuse(e),
        None => if !all_countable(args) {
            refuse(too_long_error())
        } else {
            StepView::Call(
                Some(s.handle),
                CallView::EvalObjv(objv_of(args)),
                PendingView::Status(Goal::Direct),
            )
        },
    }
}

/// The first step of splitting a list.
pub open spec fn splitlist_step<C>(s: InterpView<C>, thread: u64, arg: ValueView) -> StepView<C> {
    match gate(s, thread) {
        Some(e) => refuse(e),
        None => if !countable(arg) {
            refuse(too_long_error())
        } else {
            StepView::Call(
                Some(s.handle),
                CallView::SplitList(objv_of(seq![arg])),
                PendingView::List,
            )
        },
    }
}

/// The first step of reading a boolean.
pub open spec fn getboolean_step<C>(s: InterpView<C>, thread: u64, text: Seq<u8>) -> StepView<C> {
    match gate(s, thread) {
        Some(e) => refuse(e),
        None => if text.contains(0u8) {
            refuse(argument_nul_error())
        } else {
            StepView::Call(Some(s.handle), CallView::GetBoolean(text), PendingView::Boolean)
        },
    }
}

/// The facade once its interpreter is deleted.
pub open spec fn deleted_of<C>(s: InterpView<C>) -> InterpView<C> {
    InterpView { deleted: true, ..s }
}

/// The deletion of the interpreter: the facade after it, and its first step.
pub open spec fn delete_step<C>(s: InterpView<C>, thread: u64) -> (InterpView<C>, StepView<C>) {
    match gate(s, thread) {
        Some(e) => (s, refuse(e)),
        None => (
            deleted_of(s),
            StepView::Call(Some(s.handle), CallView::DeleteInterp, PendingView::Deleting),
        ),
    }
}

/// The end of the facade's last holder: the interpreter is deleted unless
/// it is already.
pub open spec fn teardown_step<C>(s: InterpView<C>) -> (InterpView<C>, StepView<C>) {
    if s.deleted {
        (s, done(ReplyView::Unit))
    } else {
        (
            deleted_of(s),
            StepView::Call(Some(s.handle), CallView::DeleteInterp, PendingView::Deleting),
        )
    }
}

/// The step that reads the variable that ends the event loop.
pub open spec fn poll_step<C>(s: InterpView<C>) -> StepView<C> {
    StepView::Call(
        Some(s.handle),
        CallView::GetVar(encode_utf8(s.exit_var_name)),
        PendingView::ExitVar,
    )
}

/// The first step of the event loop.
pub open spec fn mainloop_step<C>(s: InterpView<C>, thread: u64) -> StepView<C> {
    match gate(s, thread) {
        Some(e) => refuse(e),
        None => poll_step(s),
    }
}

/// The first step of registering a command.
pub open spec fn createcommand_step<C>(
    s: InterpView<C>,
    thread: u64,
    name: Seq<char>,
    cmd: C,
) -> StepView<C> {
    match gate(s, thread) {
        Some(e) => refuse(e),
        None => if encode_utf8(name).contains(0u8) {
            refuse(name_nul_error())
        } else if has_name(s.commands, name) {
            refuse(duplicate_error(name))
        } else {
            StepView::Call(
                Some(s.handle),
                CallView::CreateCommand(encode_utf8(name)),
                PendingView::Creating(name, cmd),
            )
        },
    }
}

/// The first step of unregistering a command.
pub open spec fn deletecommand_step<C>(s: InterpView<C>, thread: u64, name: Seq<char>) -> StepView<
    C,
> {
    match gate(s, thread) {
        Some(e) => refuse(e),
        None => if encode_utf8(name).contains(0u8) {
            refuse(name_nul_error())
        } else if !has_name(s.commands, name) {
            refuse(missing_error(name))
        } else {
            StepView::Call(
                Some(s.handle),
                CallView::DeleteCommand(encode_utf8(name)),
                PendingView::Removing(name),
            )
        },
    }
}

/// The first step of setting the interpreter's result.
pub open spec fn set_result_step<C>(s: InterpView<C>, thread: u64, value: ValueView) -> StepView<
    C,
> {
    match gate(s, thread) {
        Some(e) => refuse(e),
        None => if !countable(value) {
            refuse(too_long_error())
        } else {
            StepView::Call(
                Some(s.handle),
                CallView::SetResult(objv_of(seq![value])),
                PendingView::ResultSet,
            )
        },
    }
}

/// The first step of fetching the interpreter's result.
pub open spec fn get_result_step<C>(s: InterpView<C>, thread: u64) -> StepView<C> {
    match gate(s, thread) {
        Some(e) => refuse(e),
        None => StepView::Call(
            Some(s.handle),
            CallView::GetResult,
            PendingView::ResultObject(Goal::Direct),
        ),
    }
}

/// The first step of the bootstrap of a new interpreter.
pub open spec fn boot_step<C>(handle: usize) -> StepView<C> {
    StepView::Call(Some(handle), CallView::Init, PendingView::Status(Goal::Boot(0)))
}

/// The first step of the toolkit's setup.
pub open spec fn init_tk_step<C>(s: InterpView<C>, thread: u64) -> StepView<C> {
    match gate(s, thread) {
        Some(e) => refuse(e),
        None => StepView::Call(Some(s.handle), CallView::InitTk, PendingView::Status(Goal::Tk(0))),
    }
}

/// The first step of opening the relay on a port.
pub open spec fn open_relay_step<C>(s: InterpView<C>, thread: u64, port: u16) -> StepView<C> {
    match gate(s, thread) {
        Some(e) => refuse(e),
        None => StepView::Call(Some(s.handle), CallView::OpenRelay(port), PendingView::Opening),
    }
}

/// The first step of serving the relay, on the owning thread: `message` is
/// the frame that was read, `None` where the relay had no more. A relayed
/// evaluation runs as one of the owning thread does, and its errors go back
/// as text.
pub open spec fn serve_step<C>(s: InterpView<C>, thread: u64, message: Option<Seq<u8>>) -> StepView<
    C,
> {
    match message {
        None => done(ReplyView::Unit),
        Some(bytes) => if thread != s.owner {
            refuse(thread_error())
        } else {
            match parse_request(bytes) {
                None => refuse(corruption_error()),
                Some(RequestView::Call(_)) => respond(
                    ResponseView::Call(Err(encode_utf8(unsupported_text()))),
                ),
                Some(RequestView::Eval(code)) => if code.contains(0u8) {
                    fail(s, Goal::Relay, code_nul_error())
                } else {
                    on_interp(
                        s,
                        Goal::Relay,
                        CallView::Eval(code),
                        PendingView::Status(Goal::Relay),
                    )
                },
            }
        },
    }
}

/// What follows the variable that ends the event loop: the loop is over
/// where it reads true, and serves one more event where it does not.
pub open spec fn after_exit_var<C>(s: InterpView<C>, ptr: usize, bytes: Seq<u8>) -> StepView<C> {
    if ptr == 0 {
        refuse(variable_error(s.exit_var_name))
    } else if bytes == encode_utf8("true"@) {
        done(ReplyView::Unit)
    } else {
        StepView::Call(None, CallView::DoOneEvent, PendingView::OneEvent)
    }
}

/// What follows the token of a command: the command is in the table where
/// the interpreter installed it, and the table is as it was where it did
/// not.
pub open spec fn after_token<C>(s: InterpView<C>, name: Seq<char>, cmd: C, token: usize) -> (
    InterpView<C>,
    StepView<C>,
) {
    if token == 0 {
        (s, refuse(install_error()))
    } else if has_name(s.commands, name) {
        (s, refuse(duplicate_error(name)))
    } else {
        (InterpView { commands: s.commands.push((name, cmd)), ..s }, done(ReplyView::Unit))
    }
}

/// What follows the removal of a command: it is out of the table, whatever
/// the interpreter said.
pub open spec fn after_removal<C>(s: InterpView<C>, name: Seq<char>, code: i32) -> (
    InterpView<C>,
    StepView<C>,
) {
    (
        InterpView { commands: without(s.commands, name), ..s },
        if code == TCL_OK {
            done(ReplyView::Unit)
        } else {
            refuse(missing_error(name))
        },
    )
}

/// Whether the event loop served the one event that each of its turns has
/// to serve.
pub open spec fn event_served<C>(pending: PendingView<C>, answer: AnswerView) -> bool {
    pending is OneEvent ==> (answer matches AnswerView::Events(n) ==> n == 1)
}

/// The facade with what the foreign side reports of the interpreter's
/// deletion.
pub open spec fn noted<C>(s: InterpView<C>, deleted: bool) -> InterpView<C> {
    InterpView { deleted: s.deleted || deleted, ..s }
}

/// The end of an operation whose reply does not answer what was pending.
pub open spec fn unexpected<C>(s: InterpView<C>) -> (InterpView<C>, StepView<C>) {
    (s, refuse(corruption_error()))
}

/// The facade and the step after the reply `answer` to the call that
/// `pending` came with.
pub open spec fn react<C>(s: InterpView<C>, pending: PendingView<C>, answer: AnswerView) -> (
    InterpView<C>,
    StepView<C>,
) {
    match pending {
        PendingView::Status(goal) => match answer {
            AnswerView::Status(code) => (s, after_status(s, goal, code)),
            _ => unexpected(s),
        },
        PendingView::ErrorText(goal) => match answer {
            AnswerView::Object(ptr, bytes) => (s, fail(s, goal, error_of(ptr, bytes))),
            _ => unexpected(s),
        },
        PendingView::ResultObject(goal) => match answer {
            AnswerView::Object(ptr, bytes) => (s, after_result(s, goal, ptr, bytes)),
            _ => unexpected(s),
        },
        PendingView::Created => match answer {
            AnswerView::Object(ptr, bytes) => (
                s,
                if ptr == 0 {
                    refuse(null_object_error())
                } else {
                    wrap(ptr, bytes)
                },
            ),
            _ => unexpected(s),
        },
        PendingView::Wrapped(obj) => match answer {
            AnswerView::Done => (s, done(ReplyView::Object(obj))),
            _ => unexpected(s),
        },
        PendingView::Boolean => match answer {
            AnswerView::Boolean(code, value) => (
                s,
                if code == TCL_OK {
                    done(ReplyView::Bool(value != 0))
                } else {
                    explain(s, Goal::Direct)
                },
            ),
            _ => unexpected(s),
        },
        PendingView::List => match answer {
            AnswerView::List(code, items) => (
                s,
                if code == TCL_OK {
                    done(ReplyView::List(lossy_rows(items)))
                } else {
                    explain(s, Goal::Direct)
                },
            ),
            _ => unexpected(s),
        },
        PendingView::Deleting => match answer {
            AnswerView::Done => (deleted_of(s), done(ReplyView::Unit)),
            _ => unexpected(s),
        },
        PendingView::Aborting(e) => match answer {
            AnswerView::Done => (deleted_of(s), refuse(e)),
            _ => unexpected(s),
        },
        PendingView::ExitVar => match answer {
            AnswerView::Object(ptr, bytes) => (s, after_exit_var(s, ptr, bytes)),
            _ => unexpected(s),
        },
        PendingView::OneEvent => match answer {
            AnswerView::Events(_) => (
                s,
                if s.deleted {
                    done(ReplyView::Unit)
                } else {
                    poll_step(s)
                },
            ),
            _ => unexpected(s),
        },
        PendingView::Creating(name, cmd) => match answer {
            AnswerView::Token(token) => after_token(s, name, cmd, token),
            _ => unexpected(s),
        },
        PendingView::Removing(name) => match answer {
            AnswerView::Status(code) => after_removal(s, name, code),
            _ => unexpected(s),
        },
        PendingView::Opening => match answer {
            AnswerView::Status(code) => if code == TCL_OK {
                (InterpView { relay: true, ..s }, done(ReplyView::Unit))
            } else {
                (s, explain(s, Goal::Direct))
            },
            _ => unexpected(s),
        },
        PendingView::Relayed => match answer {
            AnswerView::Bytes(bytes) => (s, after_relay(bytes)),
            _ => unexpected(s),
        },
        PendingView::Responded => match answer {
            AnswerView::Done => (s, done(ReplyView::Unit)),
            _ => unexpected(s),
        },
        PendingView::ResultSet => match answer {
            AnswerView::Done => (s, done(ReplyView::Unit)),
            _ => unexpected(s),
        },
    }
}

/// The facade and the step after a reply. `deleted` says whether the
/// foreign side reports the interpreter as deleted. A reply that does not
/// answer what was pending ends the operation.
pub open spec fn resume_step<C>(
    before: InterpView<C>,
    pending: PendingView<C>,
    answer: AnswerView,
    deleted: bool,
) -> (InterpView<C>, StepView<C>) {
    react(noted(before, deleted), pending, answer)
}

/// The words that the closure of a command gets: what the interpreter
/// handed to the command, without the command's own name in front.
pub open spec fn command_words(argv: Seq<Seq<u8>>) -> Seq<Seq<u8>> {
    if argv.len() == 0 {
        argv
    } else {
        argv.subrange(1, argv.len() as int)
    }
}

/// The status code that tells the interpreter how a command's closure
/// ended.
pub open spec fn command_status(ok: bool) -> i32 {
    if ok {
        TCL_OK
    } else {
        TCL_ERROR
    }
}

/// The step that reports what a command's closure gave to the interpreter:
/// the value becomes the interpreter's result, unless the interpreter was
/// deleted meanwhile, which is no failure.
pub open spec fn report_step<C>(s: InterpView<C>, thread: u64, value: ValueView) -> StepView<C> {
    if s.deleted {
        done(ReplyView::Unit)
    } else {
        set_result_step(s, thread, value)
    }
}

/// An evaluation on the owning thread hands the code to the interpreter as
/// it is, fetches the result object where the interpreter reports success,
/// counts one reference for the handle, and gives the handle of that very
/// object, with its string form, as the result.
pub proof fn lemma_eval_gives_result<C>(
    s: InterpView<C>,
    code: Seq<u8>,
    ptr: usize,
    bytes: Seq<u8>,
)
    requires
        !s.deleted,
        !code.contains(0u8),
        ptr != 0,
    ensures
        eval_step(s, s.owner, code) == StepView::Call(
            Some(s.handle),
            CallView::Eval(code),
            PendingView::<C>::Status(Goal::Direct),
        ),
        resume_step(s, PendingView::Status(Goal::Direct), AnswerView::Status(TCL_OK), false) == (
            s,
            StepView::Call(
                Some(s.handle),
                CallView::GetResult,
                PendingView::<C>::ResultObject(Goal::Direct),
            ),
        ),
        resume_step(
            s,
            PendingView::ResultObject(Goal::Direct),
            AnswerView::Object(ptr, bytes),
            false,
        ) == (s, wrap::<C>(ptr, bytes)),
        resume_step(s, PendingView::Wrapped(ObjView { ptr, bytes }), AnswerView::Done, false) == (
            s,
            done::<C>(ReplyView::Object(ObjView { ptr, bytes })),
        ),
{
}

/// An evaluation that the interpreter reports as failed fetches the result
/// object and gives the error with the interpreter's own text.
pub proof fn lemma_eval_gives_error<C>(s: InterpView<C>, status: i32, ptr: usize, bytes: Seq<u8>)
    requires
        !s.deleted,
        status != TCL_OK,
        ptr != 0,
    ensures
        resume_step(s, PendingView::Status(Goal::Direct), AnswerView::Status(status), false) == (
            s,
            StepView::Call(
                Some(s.handle),
                CallView::GetResult,
                PendingView::<C>::ErrorText(Goal::Direct),
            ),
        ),
        resume_step(
            s,
            PendingView::ErrorText(Goal::Direct),
            AnswerView::Object(ptr, bytes),
            false,
        ) == (s, refuse::<C>(foreign_error(lossy_text(bytes)))),
{
}

/// Whether a step asks for a call on the interpreter itself.
pub open spec fn calls_interp<C>(step: StepView<C>) -> bool {
    step matches StepView::Call(Some(_), _, _)
}

/// Every operation on a deleted interpreter ends at once with the error of
/// deletion, asks for no call, and leaves the facade as it is.
pub proof fn lemma_deleted_refuses<C>(
    s: InterpView<C>,
    thread: u64,
    bytes: Seq<u8>,
    args: Seq<ValueView>,
    value: ValueView,
    name: Seq<char>,
    cmd: C,
    port: u16,
)
    requires
        s.deleted,
    ensures
        eval_step(s, thread, bytes) == refuse::<C>(deleted_error()),
        call_step(s, thread, args) == refuse::<C>(deleted_error()),
        splitlist_step(s, thread, value) == refuse::<C>(deleted_error()),
        getboolean_step(s, thread, bytes) == refuse::<C>(deleted_error()),
        delete_step(s, thread) == (s, refuse::<C>(deleted_error())),
        mainloop_step(s, thread) == refuse::<C>(deleted_error()),
        createcommand_step(s, thread, name, cmd) == refuse::<C>(deleted_error()),
        deletecommand_step(s, thread, name) == refuse::<C>(deleted_error()),
        set_result_step(s, thread, value) == refuse::<C>(deleted_error()),
        get_result_step(s, thread) == refuse::<C>(deleted_error()),
        init_tk_step(s, thread) == refuse::<C>(deleted_error()),
        open_relay_step(s, thread, port) == refuse::<C>(deleted_error()),
{
}

/// Only the thread that owns the interpreter has it called: whatever
/// another thread starts, the interpreter is not called for it. Its
/// evaluations go over the relay, and its other operations are refused.
pub proof fn lemma_only_owner_calls<C>(
    s: InterpView<C>,
    thread: u64,
    bytes: Seq<u8>,
    args: Seq<ValueView>,
    value: ValueView,
    name: Seq<char>,
    cmd: C,
    port: u16,
    message: Option<Seq<u8>>,
)
    requires
        thread != s.owner,
    ensures
        !calls_interp(eval_step(s, thread, bytes)),
        !calls_interp(call_step(s, thread, args)),
        !calls_interp(splitlist_step(s, thread, value)),
        !calls_interp(getboolean_step(s, thread, bytes)),
        !calls_interp(delete_step(s, thread).1),
        delete_step(s, thread).0 == s,
        !calls_interp(mainloop_step(s, thread)),
        !calls_interp(createcommand_step(s, thread, name, cmd)),
        !calls_interp(deletecommand_step(s, thread, name)),
        !calls_interp(set_result_step(s, thread, value)),
        !calls_interp(get_result_step(s, thread)),
        !calls_interp(init_tk_step(s, thread)),
        !calls_interp(open_relay_step(s, thread, port)),
        !calls_interp(serve_step(s, thread, message)),
{
}

/// Deletion is for good: no reply brings a deleted interpreter back, and no
/// reply has a deleted interpreter called, whatever was pending. The same
/// holds from the moment the foreign side reports the deletion.
pub proof fn lemma_deleted_stays<C>(
    s: InterpView<C>,
    pending: PendingView<C>,
    answer: AnswerView,
    deleted: bool,
)
    requires
        s.deleted || deleted,
    ensures
        resume_step(s, pending, answer, deleted).0.deleted,
        !calls_interp(resume_step(s, pending, answer, deleted).1),
{
}

/// After `delete` the facade is deleted, so that every operation after it
/// is refused.
pub proof fn lemma_delete_deletes<C>(s: InterpView<C>, thread: u64)
    requires
        gate(s, thread).is_none(),
    ensures
        delete_step(s, thread).0.deleted,
        teardown_step(s).0.deleted,
{
}

/// A command that was registered cannot be registered again: until it is
/// unregistered, a second registration of its name is refused as a
/// duplicate, with no call.
pub proof fn lemma_register_twice<C>(
    s: InterpView<C>,
    thread: u64,
    name: Seq<char>,
    cmd: C,
    again: C,
    token: usize,
)
    requires
        interp_wf(s),
        gate(s, thread).is_none(),
        !encode_utf8(name).contains(0u8),
        after_token(s, name, cmd, token).1 == done::<C>(ReplyView::Unit),
    ensures
        interp_wf(after_token(s, name, cmd, token).0),
        lookup(after_token(s, name, cmd, token).0.commands, name) == Some(
            cmd,
        ),
        createcommand_step(after_token(s, name, cmd, token).0, thread, name, again) == refuse::<C>(
            duplicate_error(name),
        ),
{
    lemma_push(s.commands, name, cmd, name);
}

/// A registration that the interpreter did not install leaves no entry in
/// the table.
pub proof fn lemma_register_failed<C>(s: InterpView<C>, name: Seq<char>, cmd: C, token: usize)
    requires
        after_token(s, name, cmd, token).1 != done::<C>(ReplyView::Unit),
    ensures
        after_token(s, name, cmd, token).0 == s,
{
}

/// A command that was unregistered is gone from the table: its closure is
/// not found, a second removal is refused as missing, and every other
/// command is as before.
pub proof fn lemma_unregister<C>(
    s: InterpView<C>,
    thread: u64,
    name: Seq<char>,
    other: Seq<char>,
    code: i32,
)
    requires
        interp_wf(s),
        gate(s, thread).is_none(),
        !encode_utf8(name).contains(0u8),
    ensures
        interp_wf(after_removal(s, name, code).0),
        !has_name(after_removal(s, name, code).0.commands, name),
        lookup(after_removal(s, name, code).0.commands, name).is_none(),
        deletecommand_step(after_removal(s, name, code).0, thread, name) == refuse::<C>(
            missing_error(name),
        ),
        other != name ==> lookup(
            after_removal(s, name, code).0.commands,
            other,
        ) == lookup(s.commands, other),
{
    lemma_without(s.commands, name, other);
}

/// Whether `pending` belongs to the work on a relayed request.
pub open spec fn relayed_work<C>(pending: PendingView<C>) -> bool {
    pending == PendingView::<C>::Status(Goal::Relay) || pending == PendingView::<C>::ErrorText(
        Goal::Relay,
    ) || pending == PendingView::<C>::ResultObject(Goal::Relay)
}

/// Whether a step sends the answer to a relayed evaluation.
pub open spec fn answers_eval<C>(step: StepView<C>) -> bool {
    exists|outcome: Result<Seq<u8>, Seq<u8>>| step == respond::<C>(ResponseView::Eval(outcome))
}

/// A relayed evaluation is answered: each reply to the work on it either
/// goes on with that work or sends the one answer, which is the answer to
/// an evaluation. The work never ends without an answer, unless the driver
/// hands a reply that answers nothing.
pub proof fn lemma_relay_answers<C>(s: InterpView<C>, pending: PendingView<C>, answer: AnswerView)
    requires
        relayed_work(pending),
        react(s, pending, answer).1 != refuse::<C>(corruption_error()),
    ensures
        answers_eval(react(s, pending, answer).1) || (react(
            s,
            pending,
            answer,
        ).1 matches StepView::Call(Some(_), _, next) && relayed_work(next)),
{
    let step = react(s, pending, answer).1;
    if pending == PendingView::<C>::Status(Goal::Relay) {
        if answer is Status {
            if s.deleted {
                assert(step == respond::<C>(
                    ResponseView::Eval(Err(encode_utf8(deleted_error().text))),
                ));
            }
        }
    } else if pending == PendingView::<C>::ErrorText(Goal::Relay) {
        if let AnswerView::Object(ptr, bytes) = answer {
            assert(step == respond::<C>(
                ResponseView::Eval(Err(encode_utf8(error_of(ptr, bytes).text))),
            ));
        }
    } else {
        if let AnswerView::Object(ptr, bytes) = answer {
            if ptr == 0 {
                assert(step == respond::<C>(
                    ResponseView::Eval(Err(encode_utf8(null_result_error().text))),
                ));
            } else {
                assert(step == respond::<C>(ResponseView::Eval(Ok(bytes))));
            }
        }
    }
}

/// What the owning thread answers is what the asking thread gets: the
/// string form of the result becomes a new object, and the text of an
/// error the error.
pub proof fn lemma_relay_delivers<C>(outcome: Result<Seq<u8>, Seq<u8>>)
    requires
        match outcome {
            Ok(b) => b.len() <= u64::MAX,
            Err(b) => b.len() <= u64::MAX,
        },
    ensures
        after_relay::<C>(response_bytes(ResponseView::Eval(outcome))) == match outcome {
            Ok(text) => create_step::<C>(ValueView::Str(text)),
            Err(text) => refuse::<C>(foreign_error(lossy_text(text))),
        },
{
    lemma_response_round_trip(ResponseView::Eval(outcome));
}

/// Whether the strings of a call can be handed to the foreign side, which
/// ends a string at its first NUL byte.
pub open spec fn call_is_sound(call: CallView) -> bool {
    match call {
        CallView::Eval(bytes) => !bytes.contains(0u8),
        CallView::GetBoolean(bytes) => !bytes.contains(0u8),
        CallView::GetVar(bytes) => !bytes.contains(0u8),
        CallView::CreateCommand(bytes) => !bytes.contains(0u8),
        CallView::DeleteCommand(bytes) => !bytes.contains(0u8),
        _ => true,
    }
}

/// Whether the call of a step, if it has one, can be handed to the foreign
/// side.
pub open spec fn step_is_sound<C>(step: StepView<C>) -> bool {
    step matches StepView::Call(_, call, _) ==> call_is_sound(call)
}

/// The bytes of plain text hold no NUL.
pub proof fn lemma_plain_bytes(text: Seq<char>)
    requires
        plain(text),
    ensures
        !encode_utf8(text).contains(0u8),
{
    assert(is_ascii_chars(text));
    is_ascii_chars_encode_utf8(text);
    let bytes = encode_utf8(text);
    assert forall|i: int| 0 <= i < bytes.len() implies bytes[i] != 0u8 by {
        assert(text[i] as u8 == bytes[i]);
        assert('\u{1}' <= text[i] <= '\u{7f}');
    }
}

/// Plain texts in a row are plain.
pub proof fn lemma_plain_concat(a: Seq<char>, b: Seq<char>)
    requires
        plain(a),
        plain(b),
    ensures
        plain(a + b),
{
    assert forall|i: int| 0 <= i < (a + b).len() implies '\u{1}' <= #[trigger] (a + b)[i]
        <= '\u{7f}' by {
        if i < a.len() {
            assert((a + b)[i] == a[i]);
        } else {
            assert((a + b)[i] == b[i - a.len()]);
        }
    }
}

proof fn lemma_digit_plain(d: nat)
    ensures
        plain(digit(d)),
{
    reveal_strlit("0");
    reveal_strlit("1");
    reveal_strlit("2");
    reveal_strlit("3");
    reveal_strlit("4");
    reveal_strlit("5");
    reveal_strlit("6");
    reveal_strlit("7");
    reveal_strlit("8");
    reveal_strlit("9");
}

proof fn lemma_decimal_plain(n: nat)
    ensures
        plain(decimal(n)),
    decreases n,
{
    lemma_digit_plain(n % 10);
    if n < 10 {
        lemma_digit_plain(n);
    } else {
        lemma_decimal_plain(n / 10);
        lemma_plain_concat(decimal(n / 10), digit(n % 10));
    }
}

/// The name of the variable that ends the event loop is plain, whatever
/// number it was drawn with.
pub proof fn lemma_sentinel_plain(seed: u64)
    ensures
        plain(sentinel_name(seed)),
{
    reveal_strlit("exit_var_");
    lemma_decimal_plain(seed as nat);
    lemma_plain_concat("exit_var_"@, decimal(seed as nat));
}

/// The code of the bootstrap and of the toolkit's setup is plain.
pub proof fn lemma_script_plain(name: Seq<char>, goal: Goal)
    requires
        plain(name),
    ensures
        plain(script_code(name, goal)),
{
    reveal_strlit("set ");
    reveal_strlit(" false");
    reveal_strlit("rename exit {}");
    reveal_strlit("package require Tk");
    reveal_strlit("bind . <Destroy> { set ");
    reveal_strlit(" true }");
    lemma_plain_concat("set "@, name);
    lemma_plain_concat("set "@ + name, " false"@);
    lemma_plain_concat("bind . <Destroy> { set "@, name);
    lemma_plain_concat("bind . <Destroy> { set "@ + name, " true }"@);
}

/// The calls of the bootstrap and of the toolkit's setup can be handed to
/// the foreign side.
pub proof fn lemma_script_sound<C>(s: InterpView<C>, goal: Goal)
    requires
        interp_wf(s),
    ensures
        call_is_sound(script_call(s, goal)),
{
    lemma_script_plain(s.exit_var_name, goal);
    lemma_plain_bytes(script_code(s.exit_var_name, goal));
}

/// Every call that an operation starts with can be handed to the foreign
/// side: none carries a string with a NUL byte in it.
pub proof fn lemma_first_steps_sound<C>(
    s: InterpView<C>,
    thread: u64,
    bytes: Seq<u8>,
    args: Seq<ValueView>,
    value: ValueView,
    name: Seq<char>,
    cmd: C,
    port: u16,
    message: Option<Seq<u8>>,
)
    requires
        interp_wf(s),
    ensures
        step_is_sound(eval_step(s, thread, bytes)),
        step_is_sound(call_step(s, thread, args)),
        step_is_sound(splitlist_step(s, thread, value)),
        step_is_sound(getboolean_step(s, thread, bytes)),
        step_is_sound(delete_step(s, thread).1),
        step_is_sound(teardown_step(s).1),
        step_is_sound(mainloop_step(s, thread)),
        step_is_sound(createcommand_step(s, thread, name, cmd)),
        step_is_sound(deletecommand_step(s, thread, name)),
        step_is_sound(set_result_step(s, thread, value)),
        step_is_sound(get_result_step(s, thread)),
        step_is_sound(init_tk_step(s, thread)),
        step_is_sound(open_relay_step(s, thread, port)),
        step_is_sound(serve_step(s, thread, message)),
        step_is_sound(boot_step::<C>(s.handle)),
        step_is_sound(create_step::<C>(value)),
{
    lemma_plain_bytes(s.exit_var_name);
}

/// Every call that follows a reply can be handed to the foreign side, and
/// the facade stays well formed.
pub proof fn lemma_next_steps_sound<C>(
    s: InterpView<C>,
    pending: PendingView<C>,
    answer: AnswerView,
    deleted: bool,
)
    requires
        interp_wf(s),
    ensures
        interp_wf(resume_step(s, pending, answer, deleted).0),
        step_is_sound(resume_step(s, pending, answer, deleted).1),
{
    let before = noted(s, deleted);
    lemma_plain_bytes(s.exit_var_name);
    match pending {
        PendingView::Status(goal) => {
            match next_stage(goal) {
                Some(next) => {
                    lemma_script_sound(before, next);
                },
                None => {},
            }
        },
        PendingView::Creating(name, cmd) => {
            if !has_name(before.commands, name) {
                lemma_push(before.commands, name, cmd, name);
            }
        },
        PendingView::Removing(name) => {
            lemma_without(before.commands, name, name);
        },
        _ => {},
    }
}

} // verus!
