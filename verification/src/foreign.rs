//! What passes between this crate and the driver that talks to the
//! interpreter: the calls that the driver is asked to make, what it reports
//! back, and the steps of an operation.

use vstd::prelude::*;

use crate::error::{ErrorView, TclError};
use crate::obj::{ObjView, TclObj};
use crate::postoffice::rows;
use crate::preserve::Preserve;
use crate::wrappers::{Objv, ObjvView};

verus! {

/// Status code with which the interpreter reports success.
pub const TCL_OK: i32 = 0;

/// Status code with which the interpreter reports an error.
pub const TCL_ERROR: i32 = 1;

/// A call into the interpreter that the driver is asked to make. Where a
/// step names a guard, the call is made on the interpreter that the guard
/// protects.
#[derive(Debug)]
pub enum ForeignCall {
    /// Run the interpreter's own initialization. Answered by `Status`.
    Init,
    /// Prepare the interpreter for the windowing toolkit. Answered by
    /// `Status`.
    InitTk,
    /// Evaluate code. Answered by `Status`.
    Eval(Vec<u8>),
    /// Build the argument vector and run it as a command. Answered by
    /// `Status`.
    EvalObjv(Objv),
    /// Fetch the interpreter's result object. Answered by `Object`.
    GetResult,
    /// Build the one object of the vector and make it the interpreter's
    /// result. Answered by `Done`.
    SetResult(Objv),
    /// Read text as a boolean. Answered by `Boolean`.
    GetBoolean(Vec<u8>),
    /// Build the one object of the vector and split it as a list. Answered
    /// by `List`.
    SplitList(Objv),
    /// Read a global variable. Answered by `Object`.
    GetVar(Vec<u8>),
    /// Serve one event of the event loop. Answered by `Events`.
    DoOneEvent,
    /// Install the callback of a command under this name. Answered by
    /// `Token`.
    CreateCommand(Vec<u8>),
    /// Remove the command of this name. Answered by `Status`.
    DeleteCommand(Vec<u8>),
    /// Delete the interpreter. Answered by `Done`.
    DeleteInterp,
    /// Build the one object of the vector. Answered by `Object`.
    NewObj(Objv),
    /// Add one to the reference count of the object at this address.
    /// Answered by `Done`.
    IncrRefCount(usize),
    /// Take one from the reference count of the object at this address.
    /// Answered by `Done`.
    DecrRefCount(usize),
    /// Mark the handle at this address as in use, so that it is not
    /// finalized before it is released. Answered by `Done`.
    Preserve(usize),
    /// Take back one mark from the handle at this address. Answered by
    /// `Done`.
    Release(usize),
    /// Open the relay channel on this port of the local host, and have the
    /// event loop report when it can be read. Answered by `Status`.
    OpenRelay(u16),
    /// From another thread: send these bytes over the relay, one sender at a
    /// time, and wait for one frame. Answered by `Bytes` or `Closed`.
    Relay(Vec<u8>),
    /// Send these bytes back over the relay. Answered by `Done`.
    Respond(Vec<u8>),
}

/// The mathematical value of a [`ForeignCall`].
pub enum CallView {
    Init,
    InitTk,
    Eval(Seq<u8>),
    EvalObjv(ObjvView),
    GetResult,
    SetResult(ObjvView),
    GetBoolean(Seq<u8>),
    SplitList(ObjvView),
    GetVar(Seq<u8>),
    DoOneEvent,
    CreateCommand(Seq<u8>),
    DeleteCommand(Seq<u8>),
    DeleteInterp,
    NewObj(ObjvView),
    IncrRefCount(usize),
    DecrRefCount(usize),
    Preserve(usize),
    Release(usize),
    OpenRelay(u16),
    Relay(Seq<u8>),
    Respond(Seq<u8>),
}

impl View for ForeignCall {
    type V = CallView;

    open spec fn view(&self) -> CallView {
        match self {
            ForeignCall::Init => CallView::Init,
            ForeignCall::InitTk => CallView::InitTk,
            ForeignCall::Eval(code) => CallView::Eval(code@),
            ForeignCall::EvalObjv(objv) => CallView::EvalObjv(objv@),
            ForeignCall::GetResult => CallView::GetResult,
            ForeignCall::SetResult(objv) => CallView::SetResult(objv@),
            ForeignCall::GetBoolean(text) => CallView::GetBoolean(text@),
            ForeignCall::SplitList(objv) => CallView::SplitList(objv@),
            ForeignCall::GetVar(name) => CallView::GetVar(name@),
            ForeignCall::DoOneEvent => CallView::DoOneEvent,
            ForeignCall::CreateCommand(name) => CallView::CreateCommand(name@),
            ForeignCall::DeleteCommand(name) => CallView::DeleteCommand(name@),
            ForeignCall::DeleteInterp => CallView::DeleteInterp,
            ForeignCall::NewObj(objv) => CallView::NewObj(objv@),
            ForeignCall::IncrRefCount(ptr) => CallView::IncrRefCount(*ptr),
            ForeignCall::DecrRefCount(ptr) => CallView::DecrRefCount(*ptr),
            ForeignCall::Preserve(ptr) => CallView::Preserve(*ptr),
            ForeignCall::Release(ptr) => CallView::Release(*ptr),
            ForeignCall::OpenRelay(port) => CallView::OpenRelay(*port),
            ForeignCall::Relay(bytes) => CallView::Relay(bytes@),
            ForeignCall::Respond(bytes) => CallView::Respond(bytes@),
        }
    }
}

/// What the driver reports of a call that it made.
#[derive(Debug)]
pub enum ForeignReply {
    /// The call was made; it has no result.
    Done,
    /// The status code of the call.
    Status(i32),
    /// A foreign object: its address, 0 for null, and its string form.
    Object(usize, Vec<u8>),
    /// The status code, and the boolean as the interpreter wrote it.
    Boolean(i32, i32),
    /// The status code, and the string forms of the list's elements.
    List(i32, Vec<Vec<u8>>),
    /// How many events the event loop served.
    Events(i32),
    /// The token of an installed command, 0 where none was installed.
    Token(usize),
    /// One frame, as it was read from the relay.
    Bytes(Vec<u8>),
    /// The relay has ended.
    Closed,
}

/// The mathematical value of a [`ForeignReply`].
pub enum AnswerView {
    Done,
    Status(i32),
    Object(usize, Seq<u8>),
    Boolean(i32, i32),
    List(i32, Seq<Seq<u8>>),
    Events(i32),
    Token(usize),
    Bytes(Seq<u8>),
    Closed,
}

impl View for ForeignReply {
    type V = AnswerView;

    open spec fn view(&self) -> AnswerView {
        match self {
            ForeignReply::Done => AnswerView::Done,
            ForeignReply::Status(code) => AnswerView::Status(*code),
            ForeignReply::Object(ptr, bytes) => AnswerView::Object(*ptr, bytes@),
            ForeignReply::Boolean(code, value) => AnswerView::Boolean(*code, *value),
            ForeignReply::List(code, items) => AnswerView::List(*code, rows(items@)),
            ForeignReply::Events(n) => AnswerView::Events(*n),
            ForeignReply::Token(token) => AnswerView::Token(*token),
            ForeignReply::Bytes(bytes) => AnswerView::Bytes(bytes@),
            ForeignReply::Closed => AnswerView::Closed,
        }
    }
}

/// What an operation gives back when it succeeds.
#[derive(Debug)]
pub enum Reply {
    /// Nothing but its success.
    Unit,
    /// A handle of a foreign object.
    Object(TclObj),
    /// A boolean.
    Bool(bool),
    /// The elements of a list, as text.
    List(Vec<String>),
}

/// The mathematical value of a [`Reply`].
pub enum ReplyView {
    Unit,
    Object(ObjView),
    Bool(bool),
    List(Seq<Seq<char>>),
}

/// The texts that a vector of strings holds.
pub open spec fn texts(items: Seq<String>) -> Seq<Seq<char>> {
    Seq::new(items.len(), |i: int| items[i]@)
}

impl View for Reply {
    type V = ReplyView;

    open spec fn view(&self) -> ReplyView {
        match self {
            Reply::Unit => ReplyView::Unit,
            Reply::Object(obj) => ReplyView::Object(obj@),
            Reply::Bool(b) => ReplyView::Bool(*b),
            Reply::List(items) => ReplyView::List(texts(items@)),
        }
    }
}

/// What the result of the interpreter's work is for.
#[derive(Clone, Copy, Debug, PartialEq, Eq, Structural)]
pub enum Goal {
    /// It goes to the caller of the operation.
    Direct,
    /// It goes back over the relay, to the thread that asked.
    Relay,
    /// It decides whether the bootstrap goes on; the number counts the
    /// bootstrap's calls.
    Boot(u8),
    /// It decides whether the toolkit's setup goes on; the number counts
    /// the setup's calls.
    Tk(u8),
}

/// What an operation waits for, and how it goes on from there. The driver
/// hands it back, unchanged, with the reply to the call that it came with.
#[derive(Debug)]
pub enum Pending<C> {
    /// The status of a call.
    Status(Goal),
    /// The result object, for the text of an error.
    ErrorText(Goal),
    /// The result object of an evaluation.
    ResultObject(Goal),
    /// A new object.
    Created,
    /// The count of the reference that this handle holds.
    Wrapped(TclObj),
    /// A boolean.
    Boolean,
    /// The elements of a list.
    List,
    /// The end of the interpreter.
    Deleting,
    /// The end of an interpreter whose bootstrap failed with this error.
    Aborting(TclError),
    /// The variable that says whether the event loop is to end.
    ExitVar,
    /// One turn of the event loop.
    OneEvent,
    /// The token of the command that is being registered, with its name
    /// and closure.
    Creating(String, C),
    /// The removal of the command of this name.
    Removing(String),
    /// The relay channel.
    Opening,
    /// The answer of the owning thread.
    Relayed,
    /// The sending of an answer.
    Responded,
    /// The setting of the result.
    ResultSet,
}

/// The mathematical value of a [`Pending`].
pub enum PendingView<C> {
    Status(Goal),
    ErrorText(Goal),
    ResultObject(Goal),
    Created,
    Wrapped(ObjView),
    Boolean,
    List,
    Deleting,
    Aborting(ErrorView),
    ExitVar,
    OneEvent,
    Creating(Seq<char>, C),
    Removing(Seq<char>),
    Opening,
    Relayed,
    Responded,
    ResultSet,
}

impl<C> View for Pending<C> {
    type V = PendingView<C>;

    open spec fn view(&self) -> PendingView<C> {
        match self {
            Pending::Status(goal) => PendingView::Status(*goal),
            Pending::ErrorText(goal) => PendingView::ErrorText(*goal),
            Pending::ResultObject(goal) => PendingView::ResultObject(*goal),
            Pending::Created => PendingView::Created,
            Pending::Wrapped(obj) => PendingView::Wrapped(obj@),
            Pending::Boolean => PendingView::Boolean,
            Pending::List => PendingView::List,
            Pending::Deleting => PendingView::Deleting,
            Pending::Aborting(e) => PendingView::Aborting(e@),
            Pending::ExitVar => PendingView::ExitVar,
            Pending::OneEvent => PendingView::OneEvent,
            Pending::Creating(name, cmd) => PendingView::Creating(name@, *cmd),
            Pending::Removing(name) => PendingView::Removing(name@),
            Pending::Opening => PendingView::Opening,
            Pending::Relayed => PendingView::Relayed,
            Pending::Responded => PendingView::Responded,
            Pending::ResultSet => PendingView::ResultSet,
        }
    }
}

/// One step of an operation.
#[derive(Debug)]
pub enum Step<C> {
    /// The driver is to make this call and to come back with the reply and
    /// what is pending. Where there is a guard, the call is made on the
    /// handle that it protects, between the calls of [`Preserve::acquire`]
    /// and [`Preserve::release`].
    Call(Option<Preserve>, ForeignCall, Pending<C>),
    /// The operation has ended, with this result.
    Done(Result<Reply, TclError>),
}

/// The mathematical value of a [`Step`]. A guard stands as the handle that
/// it protects.
pub enum StepView<C> {
    Call(Option<usize>, CallView, PendingView<C>),
    Done(Result<ReplyView, ErrorView>),
}

/// The handle that a guard protects, if there is a guard.
pub open spec fn guard_view(guard: Option<Preserve>) -> Option<usize> {
    match guard {
        Some(g) => Some(g@),
        None => None,
    }
}

/// The mathematical value of a result.
pub open spec fn result_view(r: Result<Reply, TclError>) -> Result<ReplyView, ErrorView> {
    match r {
        Ok(reply) => Ok(reply@),
        Err(e) => Err(e@),
    }
}

impl<C> View for Step<C> {
    type V = StepView<C>;

    open spec fn view(&self) -> StepView<C> {
        match self {
            Step::Call(guard, call, pending) => StepView::Call(guard_view(*guard), call@, pending@),
            Step::Done(r) => StepView::Done(result_view(*r)),
        }
    }
}

/// What a call adds to the reference count of the object at `ptr`.
pub open spec fn refcount_delta(call: CallView, ptr: usize) -> int {
    match call {
        CallView::IncrRefCount(p) => if p == ptr {
            1
        } else {
            0
        },
        CallView::DecrRefCount(p) => if p == ptr {
            -1int
        } else {
            0
        },
        _ => 0,
    }
}

impl TclObj {
    /// The call that counts the reference that a new handle of the object at
    /// `ptr` holds. The driver makes it when the handle is made.
    pub fn acquire(ptr: usize) -> (call: ForeignCall)
        ensures
            call@ == CallView::IncrRefCount(ptr),
    {
        ForeignCall::IncrRefCount(ptr)
    }

    /// Gives the handle up. The driver makes the call that comes back: it
    /// gives the handle's reference back to the foreign side, once.
    pub fn release(self) -> (call: ForeignCall)
        ensures
            call@ == CallView::DecrRefCount(self@.ptr),
    {
        ForeignCall::DecrRefCount(self.as_ptr())
    }
}

/// What a run of calls adds to the reference count of the object at `ptr`.
pub open spec fn net_refs(calls: Seq<CallView>, ptr: usize) -> int
    decreases calls.len(),
{
    if calls.len() == 0 {
        0
    } else {
        net_refs(calls.drop_last(), ptr) + refcount_delta(calls.last(), ptr)
    }
}

/// What two runs of calls add, one after the other, is the sum of what each
/// adds.
pub proof fn lemma_net_refs_concat(a: Seq<CallView>, b: Seq<CallView>, ptr: usize)
    ensures
        net_refs(a + b, ptr) == net_refs(a, ptr) + net_refs(b, ptr),
    decreases b.len(),
{
    if b.len() == 0 {
        assert(a + b == a);
    } else {
        assert((a + b).drop_last() == a + b.drop_last());
        assert((a + b).last() == b.last());
        lemma_net_refs_concat(a, b.drop_last(), ptr);
    }
}

/// Making a handle and giving it up leaves every reference count as it was.
pub proof fn lemma_wrap_release(obj: ObjView, ptr: usize)
    ensures
        net_refs(seq![CallView::IncrRefCount(obj.ptr), CallView::DecrRefCount(obj.ptr)], ptr) == 0,
{
    reveal_with_fuel(net_refs, 3);
}

/// Making two handles of one object and giving both up, in whatever order,
/// leaves the object's reference count as it was, and touches that of no
/// other object.
pub proof fn lemma_wrap_twice_release_twice(first: ObjView, second: ObjView, ptr: usize)
    requires
        first.ptr == second.ptr,
    ensures
        net_refs(
            seq![
                CallView::IncrRefCount(first.ptr),
                CallView::IncrRefCount(second.ptr),
                CallView::DecrRefCount(first.ptr),
                CallView::DecrRefCount(second.ptr),
            ],
            ptr,
        ) == 0,
        net_refs(
            seq![
                CallView::IncrRefCount(first.ptr),
                CallView::IncrRefCount(second.ptr),
                CallView::DecrRefCount(second.ptr),
                CallView::DecrRefCount(first.ptr),
            ],
            ptr,
        ) == 0,
{
    reveal_with_fuel(net_refs, 5);
}

/// How many marks a call adds to the handle at `ptr`.
pub open spec fn hold_delta(call: CallView, ptr: usize) -> int {
    match call {
        CallView::Preserve(p) => if p == ptr {
            1
        } else {
            0
        },
        CallView::Release(p) => if p == ptr {
            -1int
        } else {
            0
        },
        _ => 0,
    }
}

/// How many marks a run of calls adds to the handle at `ptr`.
pub open spec fn net_holds(calls: Seq<CallView>, ptr: usize) -> int
    decreases calls.len(),
{
    if calls.len() == 0 {
        0
    } else {
        net_holds(calls.drop_last(), ptr) + hold_delta(calls.last(), ptr)
    }
}

impl Preserve {
    /// The call that marks the guarded handle as in use. The driver makes
    /// it before the call that the guard came with.
    pub fn acquire(&self) -> (call: ForeignCall)
        ensures
            call@ == CallView::Preserve(self@),
    {
        ForeignCall::Preserve(self.as_ptr())
    }

    /// Gives the guard up. The driver makes the call that comes back, after
    /// the call that the guard came with: it takes the guard's mark back,
    /// once.
    pub fn release(self) -> (call: ForeignCall)
        ensures
            call@ == CallView::Release(self@),
    {
        ForeignCall::Release(self.as_ptr())
    }
}

/// Whether a call is none of a guard's own.
pub open spec fn holds_nothing(call: CallView) -> bool {
    !(call is Preserve) && !(call is Release)
}

/// A guard holds its handle for the call that it came with, and no longer:
/// the handle has one mark more while the call is made, and as many as
/// before once the guard is given up. No other handle is touched.
pub proof fn lemma_guard_holds(handle: usize, call: CallView, ptr: usize)
    requires
        holds_nothing(call),
    ensures
        net_holds(seq![CallView::Preserve(handle), call], handle) == 1,
        net_holds(seq![CallView::Preserve(handle), call, CallView::Release(handle)], ptr) == 0,
        ptr != handle ==> net_holds(seq![CallView::Preserve(handle), call], ptr) == 0,
{
    reveal_with_fuel(net_holds, 4);
}

} // verus!
