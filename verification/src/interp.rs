//! The facade of one interpreter: what each operation asks of the foreign
//! side, step by step.

use rand::Rng;
use vstd::prelude::*;
use vstd::string::*;
use vstd::utf8::*;

use crate::createcommand::{lookup, without, Registry};
use crate::error::{corruption_error, creation_error, deleted_error, ErrorKind, TclError};
use crate::foreign::{
    texts, ForeignCall, ForeignReply, Goal, Pending, PendingView, Reply, Step, TCL_OK,
};
use crate::machine::{
    after_exit_var, after_relay, after_result, after_status, boot_step, call_step, create_step,
    createcommand_step, delete_step, deletecommand_step, deleted_of, error_of, eval_step,
    event_served, explain, fail, fresh, gate, get_result_step, getboolean_step, init_tk_step,
    interp_wf, lemma_sentinel_plain, lossy_rows, mainloop_step, noted, on_interp, open_relay_step,
    poll_step, proceed, react, refuse, respond, resume_step, script_call, serve_step,
    set_result_step, splitlist_step, teardown_step, wrap, InterpView,
};
use crate::obj::{lossy_text, text_of, values_view, TclObj, Value, ValueView};
use crate::postoffice::{rows, TclRequest, TclResponse};
use crate::preserve::Preserve;
use crate::text::{bytes_eq, has_nul, push_decimal};
use crate::wrappers::Objv;

verus! {

/// Calls `rand::random::<u64>()`. Nothing is known of the number.
#[verifier::external_body]
fn random_seed() -> u64 {
    rand::random::<u64>()
}

/// Calls `gen_range` on `rand::thread_rng()`: a number from `low` up to,
/// and not with, `high`. The call panics where `low` is not below `high`.
#[verifier::external_body]
fn random_between(low: u16, high: u16) -> (n: u16)
    requires
        low < high,
    ensures
        low <= n < high,
{
    rand::thread_rng().gen_range(low, high)
}

/// The lowest port that the relay is opened on.
pub const RELAY_PORT_LOW: u16 = 1024;

/// The port below which the relay is opened.
pub const RELAY_PORT_HIGH: u16 = 8096;

/// The facade of one interpreter. It is `Live` until it is deleted, and
/// deleted for good after that. The commands that closures of type `C` were
/// registered for are in its table.
#[derive(Debug)]
pub struct TclInterp<C> {
    handle: usize,
    deleted: bool,
    commands: Registry<C>,
    exit_var_name: String,
    owner: u64,
    relay: bool,
}

impl<C> View for TclInterp<C> {
    type V = InterpView<C>;

    closed spec fn view(&self) -> InterpView<C> {
        InterpView {
            handle: self.handle,
            deleted: self.deleted,
            commands: self.commands@,
            exit_var_name: self.exit_var_name@,
            owner: self.owner,
            relay: self.relay,
        }
    }
}

/// The bytes of a text.
fn bytes_of(text: &str) -> (bytes: Vec<u8>)
    ensures
        bytes@ == encode_utf8(text@),
{
    text.as_bytes_vec()
}

/// The texts of byte strings.
fn texts_of(items: &Vec<Vec<u8>>) -> (out: Vec<String>)
    ensures
        texts(out@) == lossy_rows(rows(items@)),
{
    let mut out: Vec<String> = Vec::new();
    let mut i: usize = 0;
    while i < items.len()
        invariant
            i <= items.len(),
            out@.len() == i,
            forall|j: int| 0 <= j < i ==> (#[trigger] out@[j])@ == lossy_text(items@[j]@),
        decreases items.len() - i,
    {
        out.push(text_of(items[i].as_slice()));
        i += 1;
    }
    assert(texts(out@) =~= lossy_rows(rows(items@)));
    out
}

/// The step that sends a response over the relay.
fn respond_with<C>(response: TclResponse) -> (step: Step<C>)
    ensures
        step@ == respond::<C>(response@),
{
    Step::Call(None, ForeignCall::Respond(response.encode()), Pending::Responded)
}

/// The step that counts the reference of a new handle of the object at
/// `ptr`.
fn wrap_object<C>(ptr: usize, bytes: Vec<u8>) -> (step: Step<C>)
    requires
        ptr != 0,
    ensures
        step@ == wrap::<C>(ptr, bytes@),
{
    match TclObj::new(ptr, bytes) {
        Ok(obj) => Step::Call(None, TclObj::acquire(ptr), Pending::Wrapped(obj)),
        Err(e) => Step::Done(Err(e)),
    }
}

impl TclObj {
    /// The first step of making a new object of `value`. The handle of the
    /// object is the result of the operation.
    pub fn create<C>(value: &Value) -> (step: Step<C>)
        ensures
            step@ == create_step::<C>(value@),
    {
        match Objv::single(value) {
            Ok(objv) => Step::Call(None, ForeignCall::NewObj(objv), Pending::Created),
            Err(e) => Step::Done(Err(e)),
        }
    }

    /// The first step of making a new, empty object.
    pub fn empty<C>() -> (step: Step<C>)
        ensures
            step@ == create_step::<C>(ValueView::Str(Seq::empty())),
    {
        let value = Value::Str(Vec::new());
        TclObj::create(&value)
    }
}

impl<C> TclInterp<C> {
    /// Whether the facade is well formed: its handle is not null, no two of
    /// its commands have the same name, and the name of its variable is
    /// plain.
    pub open spec fn wf(&self) -> bool {
        interp_wf(self@)
    }

    /// The facade of the interpreter that was made at `handle` by the thread
    /// `owner`, with the first step of its bootstrap. A null handle is
    /// refused. The name of the variable that ends the event loop is drawn
    /// at random.
    pub fn new(handle: usize, owner: u64) -> (r: Result<(TclInterp<C>, Step<C>), TclError>)
        ensures
            match r {
                Ok((interp, step)) => handle != 0 && interp.wf() && step@ == boot_step::<C>(handle)
                    && exists|seed: u64| interp@ == fresh::<C>(handle, owner, seed),
                Err(e) => handle == 0 && e@ == creation_error(),
            },
    {
        let seed = random_seed();
        Self::with_sentinel(handle, owner, seed)
    }

    /// As [`TclInterp::new`], with the number that names the variable.
    pub fn with_sentinel(handle: usize, owner: u64, seed: u64) -> (r: Result<
        (TclInterp<C>, Step<C>),
        TclError,
    >)
        ensures
            match r {
                Ok((interp, step)) => handle != 0 && interp.wf() && step@ == boot_step::<C>(handle)
                    && interp@ == fresh::<C>(handle, owner, seed),
                Err(e) => handle == 0 && e@ == creation_error(),
            },
    {
        if handle == 0 {
            return Err(TclError::creation());
        }
        let mut exit_var_name = String::from_str("exit_var_");
        push_decimal(seed, &mut exit_var_name);
        proof {
            lemma_sentinel_plain(seed);
        }
        let interp = TclInterp {
            handle,
            deleted: false,
            commands: Registry::new(),
            exit_var_name,
            owner,
            relay: false,
        };
        let step = Step::Call(
            Some(Preserve::new(handle)),
            ForeignCall::Init,
            Pending::Status(Goal::Boot(0)),
        );
        Ok((interp, step))
    }

    /// Whether the interpreter is deleted.
    pub fn deleted(&self) -> (deleted: bool)
        ensures
            deleted == self@.deleted,
    {
        self.deleted
    }

    /// Whether `thread` is the thread that owns the interpreter.
    pub fn is_main_thread(&self, thread: u64) -> (owner: bool)
        ensures
            owner == (thread == self@.owner),
    {
        thread == self.owner
    }

    /// The name of the variable that ends the event loop.
    pub fn exit_var_name(&self) -> (name: &str)
        ensures
            name@ == self@.exit_var_name,
    {
        self.exit_var_name.as_str()
    }

    /// A guard on the interpreter's handle, for a call that uses it. None is
    /// made of a deleted interpreter.
    pub fn interp_ptr(&self) -> (r: Result<Preserve, TclError>)
        ensures
            match r {
                Ok(guard) => !self@.deleted && guard@ == self@.handle,
                Err(e) => self@.deleted && e@ == deleted_error(),
            },
    {
        if self.deleted {
            Err(TclError::deleted())
        } else {
            Ok(Preserve::new(self.handle))
        }
    }

    /// The closure of the command named `name`, for the callback that the
    /// interpreter runs the command with.
    pub fn find_command(&self, name: &str) -> (cmd: Option<&C>)
        requires
            self.wf(),
        ensures
            match cmd {
                Some(c) => lookup(self@.commands, name@) == Some(*c),
                None => lookup(self@.commands, name@).is_none(),
            },
    {
        self.commands.find(name)
    }

    /// Takes the command named `name` out of the table: the interpreter has
    /// removed it, on request or at its own end. The closure comes back to
    /// be dropped.
    pub fn command_deleted(&mut self, name: &str) -> (cmd: Option<C>)
        requires
            old(self).wf(),
        ensures
            final(self).wf(),
            final(self)@ == (InterpView {
                commands: without(old(self)@.commands, name@),
                ..old(self)@
            }),
            cmd == lookup(old(self)@.commands, name@),
    {
        self.commands.remove(name)
    }

    /// Notes that the foreign side reports the interpreter as deleted.
    pub fn mark_deleted(&mut self)
        ensures
            final(self)@ == deleted_of(old(self)@),
    {
        self.deleted = true;
    }

    /// Why an operation of `thread` is refused before it starts, if it is.
    fn gate(&self, thread: u64) -> (r: Option<TclError>)
        ensures
            match r {
                Some(e) => gate(self@, thread) == Some(e@),
                None => gate(self@, thread).is_none(),
            },
    {
        if self.deleted {
            Some(TclError::deleted())
        } else if thread != self.owner {
            Some(TclError::wrong_thread())
        } else {
            None
        }
    }

    /// How work with this goal ends in an error.
    fn fail_with(&self, goal: Goal, e: TclError) -> (step: Step<C>)
        ensures
            step@ == fail(self@, goal, e@),
    {
        match goal {
            Goal::Relay => {
                let text = bytes_of(e.0.as_str());
                respond_with(TclResponse::Eval(Err(text)))
            },
            Goal::Boot(_) => {
                if self.deleted {
                    Step::Done(Err(e))
                } else {
                    Step::Call(
                        Some(Preserve::new(self.handle)),
                        ForeignCall::DeleteInterp,
                        Pending::Aborting(e),
                    )
                }
            },
            _ => Step::Done(Err(e)),
        }
    }

    /// A call on the interpreter, under a guard, unless it is deleted.
    fn on_interp(&self, goal: Goal, call: ForeignCall, pending: Pending<C>) -> (step: Step<C>)
        ensures
            step@ == on_interp(self@, goal, call@, pending@),
    {
        match self.interp_ptr() {
            Ok(guard) => Step::Call(Some(guard), call, pending),
            Err(e) => self.fail_with(goal, e),
        }
    }

    /// The call of the bootstrap, or of the setup, that `goal` counts.
    fn script_call(&self, goal: Goal) -> (call: ForeignCall)
        requires
            goal is Boot || goal is Tk,
        ensures
            call@ == script_call(self@, goal),
    {
        match goal {
            Goal::Boot(k) => {
                if k == 0 {
                    ForeignCall::Init
                } else if k == 1 {
                    let mut code = String::from_str("set ");
                    code.append(self.exit_var_name.as_str());
                    code.append(" false");
                    ForeignCall::Eval(bytes_of(code.as_str()))
                } else {
                    ForeignCall::Eval(bytes_of("rename exit {}"))
                }
            },
            Goal::Tk(k) => {
                if k == 0 {
                    ForeignCall::InitTk
                } else if k == 1 {
                    ForeignCall::Eval(bytes_of("package require Tk"))
                } else {
                    let mut code = String::from_str("bind . <Destroy> { set ");
                    code.append(self.exit_var_name.as_str());
                    code.append(" true }");
                    ForeignCall::Eval(bytes_of(code.as_str()))
                }
            },
            _ => ForeignCall::GetResult,
        }
    }

    /// What follows a call that succeeded.
    fn proceed(&self, goal: Goal) -> (step: Step<C>)
        ensures
            step@ == proceed(self@, goal),
    {
        match goal {
            Goal::Direct | Goal::Relay => {
                self.on_interp(goal, ForeignCall::GetResult, Pending::ResultObject(goal))
            },
            Goal::Boot(k) => {
                if k < 2 {
                    let next = Goal::Boot(k + 1);
                    self.on_interp(next, self.script_call(next), Pending::Status(next))
                } else {
                    Step::Done(Ok(Reply::Unit))
                }
            },
            Goal::Tk(k) => {
                if k < 2 {
                    let next = Goal::Tk(k + 1);
                    self.on_interp(next, self.script_call(next), Pending::Status(next))
                } else {
                    Step::Done(Ok(Reply::Unit))
                }
            },
        }
    }

    /// What follows a call that failed.
    fn explain(&self, goal: Goal) -> (step: Step<C>)
        ensures
            step@ == explain(self@, goal),
    {
        self.on_interp(goal, ForeignCall::GetResult, Pending::ErrorText(goal))
    }

    /// What follows a status code.
    fn check_statuscode(&self, goal: Goal, code: i32) -> (step: Step<C>)
        ensures
            step@ == after_status(self@, goal, code),
    {
        if code == TCL_OK {
            self.proceed(goal)
        } else {
            self.explain(goal)
        }
    }

    /// What follows the result object that tells an error.
    fn get_error(&self, goal: Goal, ptr: usize, bytes: &Vec<u8>) -> (step: Step<C>)
        ensures
            step@ == fail(self@, goal, error_of(ptr, bytes@)),
    {
        if ptr == 0 {
            self.fail_with(goal, TclError::null_result())
        } else {
            let text = text_of(bytes.as_slice());
            self.fail_with(goal, TclError(text, ErrorKind::ForeignError))
        }
    }

    /// What follows the result object of an evaluation.
    fn take_result(&self, goal: Goal, ptr: usize, bytes: Vec<u8>) -> (step: Step<C>)
        ensures
            step@ == after_result(self@, goal, ptr, bytes@),
    {
        if ptr == 0 {
            self.fail_with(goal, TclError::null_result())
        } else {
            match goal {
                Goal::Relay => respond_with(TclResponse::Eval(Ok(bytes))),
                _ => wrap_object(ptr, bytes),
            }
        }
    }

    /// The step that reads the variable that ends the event loop.
    fn poll(&self) -> (step: Step<C>)
        ensures
            step@ == poll_step(self@),
    {
        Step::Call(
            Some(Preserve::new(self.handle)),
            ForeignCall::GetVar(bytes_of(self.exit_var_name.as_str())),
            Pending::ExitVar,
        )
    }

    /// What follows the variable that ends the event loop.
    fn check_exit_var(&self, ptr: usize, bytes: &Vec<u8>) -> (step: Step<C>)
        ensures
            step@ == after_exit_var(self@, ptr, bytes@),
    {
        if ptr == 0 {
            Step::Done(Err(TclError::variable(self.exit_var_name.as_str())))
        } else if bytes_eq(bytes.as_slice(), "true".as_bytes()) {
            Step::Done(Ok(Reply::Unit))
        } else {
            Step::Call(None, ForeignCall::DoOneEvent, Pending::OneEvent)
        }
    }

    /// What follows the owning thread's answer to a relayed evaluation.
    fn take_relayed(bytes: &Vec<u8>) -> (step: Step<C>)
        ensures
            step@ == after_relay::<C>(bytes@),
    {
        match TclResponse::decode(bytes.as_slice()) {
            Ok(TclResponse::Eval(Ok(text))) => {
                let value = Value::Str(text);
                TclObj::create(&value)
            },
            Ok(TclResponse::Eval(Err(text))) => {
                let message = text_of(text.as_slice());
                Step::Done(Err(TclError(message, ErrorKind::ForeignError)))
            },
            Ok(_) => Step::Done(Err(TclError::corruption())),
            Err(e) => Step::Done(Err(e)),
        }
    }

    /// Evaluates code. On the owning thread the interpreter is called; from
    /// another thread the code goes over the relay, if that is open.
    pub fn eval(&self, thread: u64, code: &str) -> (step: Step<C>)
        ensures
            step@ == eval_step(self@, thread, encode_utf8(code@)),
    {
        let bytes = bytes_of(code);
        if self.deleted {
            Step::Done(Err(TclError::deleted()))
        } else if has_nul(bytes.as_slice()) {
            Step::Done(Err(TclError::code_nul()))
        } else if thread == self.owner {
            Step::Call(
                Some(Preserve::new(self.handle)),
                ForeignCall::Eval(bytes),
                Pending::Status(Goal::Direct),
            )
        } else if self.relay {
            let request = TclRequest::Eval(bytes);
            Step::Call(None, ForeignCall::Relay(request.encode()), Pending::Relayed)
        } else {
            Step::Done(Err(TclError::relay_closed()))
        }
    }

    /// Calls the command that the first argument names with the others,
    /// without parsing them.
    pub fn call(&self, thread: u64, args: &Vec<Value>) -> (step: Step<C>)
        ensures
            step@ == call_step(self@, thread, values_view(args@)),
    {
        if let Some(e) = self.gate(thread) {
            return Step::Done(Err(e));
        }
        match Objv::new(args) {
            Ok(objv) => Step::Call(
                Some(Preserve::new(self.handle)),
                ForeignCall::EvalObjv(objv),
                Pending::Status(Goal::Direct),
            ),
            Err(e) => Step::Done(Err(e)),
        }
    }

    /// Splits a list into its elements.
    pub fn splitlist(&self, thread: u64, arg: &Value) -> (step: Step<C>)
        ensures
            step@ == splitlist_step(self@, thread, arg@),
    {
        if let Some(e) = self.gate(thread) {
            return Step::Done(Err(e));
        }
        match Objv::single(arg) {
            Ok(objv) => Step::Call(
                Some(Preserve::new(self.handle)),
                ForeignCall::SplitList(objv),
                Pending::List,
            ),
            Err(e) => Step::Done(Err(e)),
        }
    }

    /// Reads text as a boolean of the interpreter.
    pub fn getboolean(&self, thread: u64, s: &str) -> (step: Step<C>)
        ensures
            step@ == getboolean_step(self@, thread, encode_utf8(s@)),
    {
        if let Some(e) = self.gate(thread) {
            return Step::Done(Err(e));
        }
        let bytes = bytes_of(s);
        if has_nul(bytes.as_slice()) {
            Step::Done(Err(TclError::argument_nul()))
        } else {
            Step::Call(
                Some(Preserve::new(self.handle)),
                ForeignCall::GetBoolean(bytes),
                Pending::Boolean,
            )
        }
    }

    /// Deletes the interpreter. The facade is deleted from here on.
    pub fn delete(&mut self, thread: u64) -> (step: Step<C>)
        ensures
            final(self)@ == delete_step(old(self)@, thread).0,
            step@ == delete_step(old(self)@, thread).1,
    {
        if let Some(e) = self.gate(thread) {
            return Step::Done(Err(e));
        }
        self.deleted = true;
        Step::Call(Some(Preserve::new(self.handle)), ForeignCall::DeleteInterp, Pending::Deleting)
    }

    /// Ends the facade when its last holder lets go of it: the interpreter
    /// is deleted unless it is already.
    pub fn teardown(&mut self) -> (step: Step<C>)
        ensures
            final(self)@ == teardown_step(old(self)@).0,
            step@ == teardown_step(old(self)@).1,
    {
        if self.deleted {
            Step::Done(Ok(Reply::Unit))
        } else {
            self.deleted = true;
            Step::Call(
                Some(Preserve::new(self.handle)),
                ForeignCall::DeleteInterp,
                Pending::Deleting,
            )
        }
    }

    /// Runs the event loop until the interpreter is deleted or the variable
    /// that ends the loop reads true.
    pub fn mainloop(&self, thread: u64) -> (step: Step<C>)
        ensures
            step@ == mainloop_step(self@, thread),
    {
        if let Some(e) = self.gate(thread) {
            return Step::Done(Err(e));
        }
        self.poll()
    }

    /// Registers `cmd` as the command `name`.
    pub fn createcommand(&self, thread: u64, name: &str, cmd: C) -> (step: Step<C>)
        ensures
            step@ == createcommand_step(self@, thread, name@, cmd),
    {
        if let Some(e) = self.gate(thread) {
            return Step::Done(Err(e));
        }
        let bytes = bytes_of(name);
        if has_nul(bytes.as_slice()) {
            Step::Done(Err(TclError::name_nul()))
        } else if self.commands.contains(name) {
            Step::Done(Err(TclError::duplicate(name)))
        } else {
            Step::Call(
                Some(Preserve::new(self.handle)),
                ForeignCall::CreateCommand(bytes),
                Pending::Creating(String::from_str(name), cmd),
            )
        }
    }

    /// Unregisters the command `name`.
    pub fn deletecommand(&self, thread: u64, name: &str) -> (step: Step<C>)
        ensures
            step@ == deletecommand_step(self@, thread, name@),
    {
        if let Some(e) = self.gate(thread) {
            return Step::Done(Err(e));
        }
        let bytes = bytes_of(name);
        if has_nul(bytes.as_slice()) {
            Step::Done(Err(TclError::name_nul()))
        } else if !self.commands.contains(name) {
            Step::Done(Err(TclError::missing(name)))
        } else {
            Step::Call(
                Some(Preserve::new(self.handle)),
                ForeignCall::DeleteCommand(bytes),
                Pending::Removing(String::from_str(name)),
            )
        }
    }

    /// Makes `value` the result of the interpreter.
    pub fn set_result(&self, thread: u64, value: &Value) -> (step: Step<C>)
        ensures
            step@ == set_result_step(self@, thread, value@),
    {
        if let Some(e) = self.gate(thread) {
            return Step::Done(Err(e));
        }
        match Objv::single(value) {
            Ok(objv) => Step::Call(
                Some(Preserve::new(self.handle)),
                ForeignCall::SetResult(objv),
                Pending::ResultSet,
            ),
            Err(e) => Step::Done(Err(e)),
        }
    }

    /// Fetches a handle of the interpreter's result.
    pub fn get_result(&self, thread: u64) -> (step: Step<C>)
        ensures
            step@ == get_result_step(self@, thread),
    {
        if let Some(e) = self.gate(thread) {
            return Step::Done(Err(e));
        }
        Step::Call(
            Some(Preserve::new(self.handle)),
            ForeignCall::GetResult,
            Pending::ResultObject(Goal::Direct),
        )
    }

    /// Prepares the interpreter for the windowing toolkit.
    pub fn init_tk(&self, thread: u64) -> (step: Step<C>)
        ensures
            step@ == init_tk_step(self@, thread),
    {
        if let Some(e) = self.gate(thread) {
            return Step::Done(Err(e));
        }
        Step::Call(
            Some(Preserve::new(self.handle)),
            ForeignCall::InitTk,
            Pending::Status(Goal::Tk(0)),
        )
    }

    /// Opens the relay, on a port drawn at random, so that other threads can
    /// have code evaluated.
    pub fn init_threads(&self, thread: u64) -> (step: Step<C>)
        ensures
            exists|port: u16|
                RELAY_PORT_LOW <= port < RELAY_PORT_HIGH && step@ == open_relay_step(
                    self@,
                    thread,
                    port,
                ),
    {
        let port = random_between(RELAY_PORT_LOW, RELAY_PORT_HIGH);
        self.open_relay(thread, port)
    }

    /// As [`TclInterp::init_threads`], on the given port.
    pub fn open_relay(&self, thread: u64, port: u16) -> (step: Step<C>)
        ensures
            step@ == open_relay_step(self@, thread, port),
    {
        if let Some(e) = self.gate(thread) {
            return Step::Done(Err(e));
        }
        Step::Call(Some(Preserve::new(self.handle)), ForeignCall::OpenRelay(port), Pending::Opening)
    }

    /// Serves the relay, on the owning thread, when the event loop reports
    /// it as readable: `message` is the frame that was read, `None` where
    /// the relay had no more.
    pub fn serve(&self, thread: u64, message: Option<&[u8]>) -> (step: Step<C>)
        ensures
            step@ == serve_step(
                self@,
                thread,
                match message {
                    Some(bytes) => Some(bytes@),
                    None => None,
                },
            ),
    {
        let bytes = match message {
            Some(bytes) => bytes,
            None => {
                return Step::Done(Ok(Reply::Unit));
            },
        };
        if thread != self.owner {
            return Step::Done(Err(TclError::wrong_thread()));
        }
        match TclRequest::decode(bytes) {
            Err(e) => Step::Done(Err(e)),
            Ok(TclRequest::Call(_)) => {
                let text = bytes_of("This request is not supported across threads");
                respond_with(TclResponse::Call(Err(text)))
            },
            Ok(TclRequest::Eval(code)) => {
                if has_nul(code.as_slice()) {
                    self.fail_with(Goal::Relay, TclError::code_nul())
                } else {
                    self.on_interp(
                        Goal::Relay,
                        ForeignCall::Eval(code),
                        Pending::Status(Goal::Relay),
                    )
                }
            },
        }
    }

    /// The end of an operation whose reply does not answer what was pending.
    fn unexpected() -> (step: Step<C>)
        ensures
            step@ == refuse::<C>(corruption_error()),
    {
        Step::Done(Err(TclError::corruption()))
    }

    /// What follows a reply that leaves the facade as it is.
    fn react_still(&self, pending: Pending<C>, reply: ForeignReply) -> (step: Step<C>)
        requires
            !(pending is Deleting || pending is Aborting || pending is Creating
                || pending is Removing || pending is Opening),
        ensures
            react(self@, pending@, reply@) == (self@, step@),
    {
        match pending {
            Pending::Status(goal) => match reply {
                ForeignReply::Status(code) => self.check_statuscode(goal, code),
                _ => Self::unexpected(),
            },
            Pending::ErrorText(goal) => match reply {
                ForeignReply::Object(ptr, bytes) => self.get_error(goal, ptr, &bytes),
                _ => Self::unexpected(),
            },
            Pending::ResultObject(goal) => match reply {
                ForeignReply::Object(ptr, bytes) => self.take_result(goal, ptr, bytes),
                _ => Self::unexpected(),
            },
            Pending::Created => match reply {
                ForeignReply::Object(ptr, bytes) => {
                    if ptr == 0 {
                        Step::Done(Err(TclError::null_object()))
                    } else {
                        wrap_object(ptr, bytes)
                    }
                },
                _ => Self::unexpected(),
            },
            Pending::Wrapped(obj) => match reply {
                ForeignReply::Done => Step::Done(Ok(Reply::Object(obj))),
                _ => Self::unexpected(),
            },
            Pending::Boolean => match reply {
                ForeignReply::Boolean(code, value) => {
                    if code == TCL_OK {
                        Step::Done(Ok(Reply::Bool(value != 0)))
                    } else {
                        self.explain(Goal::Direct)
                    }
                },
                _ => Self::unexpected(),
            },
            Pending::List => match reply {
                ForeignReply::List(code, items) => {
                    if code == TCL_OK {
                        Step::Done(Ok(Reply::List(texts_of(&items))))
                    } else {
                        self.explain(Goal::Direct)
                    }
                },
                _ => Self::unexpected(),
            },
            Pending::ExitVar => match reply {
                ForeignReply::Object(ptr, bytes) => self.check_exit_var(ptr, &bytes),
                _ => Self::unexpected(),
            },
            Pending::OneEvent => match reply {
                ForeignReply::Events(_) => {
                    if self.deleted {
                        Step::Done(Ok(Reply::Unit))
                    } else {
                        self.poll()
                    }
                },
                _ => Self::unexpected(),
            },
            Pending::Relayed => match reply {
                ForeignReply::Bytes(bytes) => Self::take_relayed(&bytes),
                _ => Self::unexpected(),
            },
            Pending::Responded => match reply {
                ForeignReply::Done => Step::Done(Ok(Reply::Unit)),
                _ => Self::unexpected(),
            },
            _ => match reply {
                ForeignReply::Done => Step::Done(Ok(Reply::Unit)),
                _ => Self::unexpected(),
            },
        }
    }

    /// What follows the end of the interpreter.
    fn react_deleted(&mut self, failure: Option<TclError>, reply: ForeignReply) -> (step: Step<C>)
        ensures
            match failure {
                Some(e) => react(old(self)@, PendingView::Aborting(e@), reply@) == (
                    final(self)@,
                    step@,
                ),
                None => react(old(self)@, PendingView::Deleting, reply@) == (final(self)@, step@),
            },
    {
        match reply {
            ForeignReply::Done => {
                self.deleted = true;
                match failure {
                    Some(e) => Step::Done(Err(e)),
                    None => Step::Done(Ok(Reply::Unit)),
                }
            },
            _ => Self::unexpected(),
        }
    }

    /// What follows the token of a command that is being registered.
    fn react_created(&mut self, name: String, cmd: C, reply: ForeignReply) -> (step: Step<C>)
        requires
            old(self).wf(),
        ensures
            final(self).wf(),
            react(old(self)@, PendingView::Creating(name@, cmd), reply@) == (final(self)@, step@),
    {
        match reply {
            ForeignReply::Token(token) => {
                if token == 0 {
                    Step::Done(Err(TclError::install()))
                } else if self.commands.contains(name.as_str()) {
                    Step::Done(Err(TclError::duplicate(name.as_str())))
                } else {
                    self.commands.insert(name, cmd);
                    Step::Done(Ok(Reply::Unit))
                }
            },
            _ => Self::unexpected(),
        }
    }

    /// What follows the removal of a command.
    fn react_removed(&mut self, name: String, reply: ForeignReply) -> (step: Step<C>)
        requires
            old(self).wf(),
        ensures
            final(self).wf(),
            react(old(self)@, PendingView::<C>::Removing(name@), reply@) == (final(self)@, step@),
    {
        match reply {
            ForeignReply::Status(code) => {
                let _ = self.commands.remove(name.as_str());
                if code == TCL_OK {
                    Step::Done(Ok(Reply::Unit))
                } else {
                    Step::Done(Err(TclError::missing(name.as_str())))
                }
            },
            _ => Self::unexpected(),
        }
    }

    /// What follows the opening of the relay.
    fn react_opened(&mut self, reply: ForeignReply) -> (step: Step<C>)
        ensures
            react(old(self)@, PendingView::<C>::Opening, reply@) == (final(self)@, step@),
    {
        match reply {
            ForeignReply::Status(code) => {
                if code == TCL_OK {
                    self.relay = true;
                    Step::Done(Ok(Reply::Unit))
                } else {
                    self.explain(Goal::Direct)
                }
            },
            _ => Self::unexpected(),
        }
    }

    /// Goes on with an operation: `pending` is what the last step came
    /// with, `reply` what the driver reports of the call, and `deleted`
    /// whether the foreign side now reports the interpreter as deleted.
    pub fn resume(&mut self, pending: Pending<C>, reply: ForeignReply, deleted: bool) -> (step:
        Step<C>)
        requires
            old(self).wf(),
            event_served(pending@, reply@),
        ensures
            final(self).wf(),
            final(self)@ == resume_step(old(self)@, pending@, reply@, deleted).0,
            step@ == resume_step(old(self)@, pending@, reply@, deleted).1,
    {
        if deleted {
            self.deleted = true;
        }
        assert(self@ == noted(old(self)@, deleted));
        match pending {
            Pending::Deleting => self.react_deleted(None, reply),
            Pending::Aborting(e) => self.react_deleted(Some(e), reply),
            Pending::Creating(name, cmd) => self.react_created(name, cmd, reply),
            Pending::Removing(name) => self.react_removed(name, reply),
            Pending::Opening => self.react_opened(reply),
            _ => self.react_still(pending, reply),
        }
    }
}

} // verus!
