use std::collections::{HashMap, VecDeque};
use std::sync::{Arc, Mutex};

use tclinterp::{
    command_args, command_result, BuildOp, ErrorKind, ForeignCall, ForeignReply, Objv, Pending,
    Preserve, Reply, Step, TclError, TclInterp, TclObj, ToTclObj, Value,
};

// A stand-in for the interpreter and the driver that the tests run the facade
// against. It knows a handful of commands, counts the calls that reach it, and
// keeps the reference counts of the objects that it hands out.

type Cmd = Arc<dyn Fn(&Vec<Vec<u8>>) -> Result<Value, Value> + Send + Sync>;

const OWNER: u64 = 1;
const HANDLE: usize = 0x1000;

struct Objects {
    next: usize,
    strings: HashMap<usize, Vec<u8>>,
    counts: HashMap<usize, i64>,
}

impl Objects {
    fn make(&mut self, bytes: Vec<u8>) -> usize {
        self.next += 8;
        self.strings.insert(self.next, bytes);
        self.counts.insert(self.next, 0);
        self.next
    }
}

struct Shared {
    core: Mutex<TclInterp<Cmd>>,
    objects: Mutex<Objects>,
}

// A thread that does not own the interpreter, as far as the tests need one:
// the code that it wants evaluated, one piece after the other, and what came
// of it so far.
struct Caller {
    thread: u64,
    codes: VecDeque<String>,
    results: Vec<Result<String, TclError>>,
}

struct Foreign {
    shared: Arc<Shared>,
    calls: usize,
    deleted: bool,
    fail_eval: bool,
    result: Vec<u8>,
    vars: HashMap<Vec<u8>, Vec<u8>>,
    installed: Vec<Vec<u8>>,
    timers: Vec<Vec<Vec<u8>>>,
    ran: usize,
    relay_open: bool,
    inbox: VecDeque<Vec<u8>>,
    outbox: VecDeque<Vec<u8>>,
    callers: Vec<Caller>,
    in_flight: Option<(usize, Pending<Cmd>)>,
    refuse_install: bool,
    holds: HashMap<usize, i64>,
    doomed: Vec<usize>,
    freed: Vec<usize>,
}

fn needs_braces(word: &[u8]) -> bool {
    word.is_empty() || word.iter().any(|b| b" \t\n{}\"\\[]$;".contains(b))
}

fn format_list(words: &[Vec<u8>]) -> Vec<u8> {
    let mut out = Vec::new();
    for (i, word) in words.iter().enumerate() {
        if i > 0 {
            out.push(b' ');
        }
        if needs_braces(word) {
            out.push(b'{');
            out.extend_from_slice(word);
            out.push(b'}');
        } else {
            out.extend_from_slice(word);
        }
    }
    out
}

fn parse_list(text: &[u8]) -> Option<Vec<Vec<u8>>> {
    let mut words = Vec::new();
    let mut i = 0;
    while i < text.len() {
        if text[i].is_ascii_whitespace() {
            i += 1;
        } else if text[i] == b'{' {
            let mut depth = 1;
            let start = i + 1;
            i += 1;
            while i < text.len() && depth > 0 {
                if text[i] == b'{' {
                    depth += 1;
                } else if text[i] == b'}' {
                    depth -= 1;
                }
                i += 1;
            }
            if depth > 0 {
                return None;
            }
            words.push(text[start..i - 1].to_vec());
        } else {
            let start = i;
            while i < text.len() && !text[i].is_ascii_whitespace() {
                i += 1;
            }
            words.push(text[start..i].to_vec());
        }
    }
    Some(words)
}

fn build(objv: &Objv) -> Vec<Vec<u8>> {
    let mut stack: Vec<Vec<u8>> = Vec::new();
    for op in objv.ops() {
        match op {
            BuildOp::Str(bytes) => stack.push(bytes.clone()),
            BuildOp::Bytes(bytes) => stack.push(bytes.clone()),
            BuildOp::List(n) => {
                let items = stack.split_off(stack.len() - n);
                stack.push(format_list(&items));
            }
        }
    }
    assert_eq!(stack.len() as i32, objv.len());
    stack
}

impl Foreign {
    fn new(shared: Arc<Shared>) -> Foreign {
        Foreign {
            shared,
            calls: 0,
            deleted: false,
            fail_eval: false,
            result: Vec::new(),
            vars: HashMap::new(),
            installed: Vec::new(),
            timers: Vec::new(),
            ran: 0,
            relay_open: false,
            inbox: VecDeque::new(),
            outbox: VecDeque::new(),
            callers: Vec::new(),
            in_flight: None,
            refuse_install: false,
            holds: HashMap::new(),
            doomed: Vec::new(),
            freed: Vec::new(),
        }
    }

    fn object(&mut self, bytes: Vec<u8>) -> ForeignReply {
        let ptr = self.shared.objects.lock().unwrap().make(bytes.clone());
        ForeignReply::Object(ptr, bytes)
    }

    fn run(&mut self, words: Vec<Vec<u8>>) -> i32 {
        if self.fail_eval {
            self.result = b"it failed".to_vec();
            return 1;
        }
        if words.is_empty() {
            self.result = Vec::new();
            return 0;
        }
        let name = words[0].clone();
        if self.installed.contains(&name) {
            let text = String::from_utf8(name).unwrap();
            let cmd = {
                let core = self.shared.core.lock().unwrap();
                core.find_command(&text).cloned()
            };
            let cmd = cmd.expect("an installed command is in the table");
            let args = command_args(&words);
            let result = cmd(&args);
            self.ran += 1;
            let (status, step) = {
                let core = self.shared.core.lock().unwrap();
                command_result(&core, OWNER, &result)
            };
            self.drive(step).expect("Could not set result from command");
            return status;
        }
        match name.as_slice() {
            b"format" if words.len() == 3 && words[1] == b"%s" => {
                self.result = words[2].clone();
                0
            }
            b"return" if words.len() == 2 => {
                self.result = words[1].clone();
                0
            }
            b"set" if words.len() == 3 => {
                self.vars.insert(words[1].clone(), words[2].clone());
                self.result = words[2].clone();
                0
            }
            b"rename" | b"package" | b"bind" => {
                self.result = Vec::new();
                0
            }
            b"list" => {
                self.result = format_list(&words[1..]);
                0
            }
            b"after" if words.len() >= 3 => {
                self.timers.push(words[2..].to_vec());
                self.result = b"after#0".to_vec();
                0
            }
            b"destroy" => {
                self.delete_interp();
                self.result = Vec::new();
                0
            }
            _ => {
                let mut text = b"invalid command name \"".to_vec();
                text.extend_from_slice(&name);
                text.push(b'"');
                self.result = text;
                1
            }
        }
    }

    // Marks a handle, or takes a mark back. A handle that was to be freed is
    // freed when its last mark goes.
    fn hold(&mut self, call: ForeignCall) {
        match call {
            ForeignCall::Preserve(ptr) => *self.holds.entry(ptr).or_insert(0) += 1,
            ForeignCall::Release(ptr) => {
                let marks = self.holds.get_mut(&ptr).expect("the handle was never held");
                assert!(*marks > 0);
                *marks -= 1;
                if *marks == 0 && self.doomed.contains(&ptr) {
                    self.doomed.retain(|p| *p != ptr);
                    self.freed.push(ptr);
                }
            }
            other => panic!("unexpected call {:?}", other),
        }
    }

    // Frees a handle, now or when nobody holds it any more.
    fn eventually_free(&mut self, ptr: usize) {
        if self.holds.get(&ptr).copied().unwrap_or(0) > 0 {
            self.doomed.push(ptr);
        } else {
            self.freed.push(ptr);
        }
    }

    fn delete_interp(&mut self) {
        if !self.deleted {
            self.eventually_free(HANDLE);
        }
        self.deleted = true;
        let names: Vec<Vec<u8>> = self.installed.drain(..).collect();
        for name in names {
            let text = String::from_utf8(name).unwrap();
            let cmd = self.shared.core.lock().unwrap().command_deleted(&text);
            assert!(cmd.is_some());
        }
    }

    // Lets the other threads run until each of them waits or is done. The
    // relay takes one request at a time: who finds it taken waits.
    fn run_callers(&mut self) {
        if let Some((at, pending)) = self.in_flight.take() {
            match self.outbox.pop_front() {
                Some(frame) => {
                    let step = self.shared.core.lock().unwrap().resume(
                        pending,
                        ForeignReply::Bytes(frame),
                        false,
                    );
                    let result = self.drive_elsewhere(step).map(|reply| object(reply).to_string());
                    self.callers[at].results.push(result);
                }
                None => {
                    self.in_flight = Some((at, pending));
                    return;
                }
            }
        }
        for at in 0..self.callers.len() {
            while let Some(code) = self.callers[at].codes.pop_front() {
                let thread = self.callers[at].thread;
                let step = self.shared.core.lock().unwrap().eval(thread, &code);
                match step {
                    Step::Call(None, ForeignCall::Relay(bytes), pending) => {
                        assert!(self.relay_open);
                        self.inbox.push_back(bytes);
                        self.in_flight = Some((at, pending));
                        return;
                    }
                    other => {
                        let result =
                            self.drive_elsewhere(other).map(|reply| object(reply).to_string());
                        self.callers[at].results.push(result);
                    }
                }
            }
        }
    }

    // What a thread that does not own the interpreter does with a step, once
    // the relay has answered.
    fn drive_elsewhere(&mut self, mut step: Step<Cmd>) -> Result<Reply, TclError> {
        loop {
            match step {
                Step::Done(result) => return result,
                Step::Call(guard, call, pending) => {
                    assert!(guard.is_none());
                    let reply = match call {
                        ForeignCall::NewObj(_) | ForeignCall::IncrRefCount(_) => {
                            self.calls -= 1;
                            self.perform(None, call)
                        }
                        other => panic!("unexpected call {:?}", other),
                    };
                    step = self.shared.core.lock().unwrap().resume(pending, reply, false);
                }
            }
        }
    }

    fn one_event(&mut self) -> i32 {
        self.run_callers();
        if let Some(frame) = self.inbox.pop_front() {
            let step = self.shared.core.lock().unwrap().serve(OWNER, Some(&frame));
            self.drive(step).unwrap();
            self.run_callers();
            return 1;
        }
        if self.timers.is_empty() {
            return 0;
        }
        let script = self.timers.remove(0);
        self.run(script);
        1
    }

    fn perform(&mut self, guard: Option<&Preserve>, call: ForeignCall) -> ForeignReply {
        self.calls += 1;
        if let Some(guard) = guard {
            assert_eq!(guard.as_ptr(), HANDLE);
            assert!(!self.deleted, "a deleted interpreter was called");
            assert!(!self.freed.contains(&HANDLE));
        }
        match call {
            ForeignCall::Init | ForeignCall::InitTk => {
                assert!(guard.is_some());
                ForeignReply::Status(if self.fail_eval { 1 } else { 0 })
            }
            ForeignCall::Eval(code) => {
                assert!(guard.is_some());
                assert!(!code.contains(&0));
                let words = parse_list(&code).unwrap();
                ForeignReply::Status(self.run(words))
            }
            ForeignCall::EvalObjv(objv) => {
                assert!(guard.is_some());
                let words = build(&objv);
                ForeignReply::Status(self.run(words))
            }
            ForeignCall::GetResult => {
                let bytes = self.result.clone();
                self.object(bytes)
            }
            ForeignCall::SetResult(objv) => {
                let mut built = build(&objv);
                assert_eq!(built.len(), 1);
                self.result = built.remove(0);
                ForeignReply::Done
            }
            ForeignCall::GetBoolean(text) => match text.as_slice() {
                b"1" | b"true" | b"yes" | b"on" => ForeignReply::Boolean(0, 1),
                b"0" | b"false" | b"no" | b"off" => ForeignReply::Boolean(0, 0),
                _ => {
                    let mut message = b"expected boolean value but got \"".to_vec();
                    message.extend_from_slice(&text);
                    message.push(b'"');
                    self.result = message;
                    ForeignReply::Boolean(1, 0)
                }
            },
            ForeignCall::SplitList(objv) => {
                let built = build(&objv);
                assert_eq!(built.len(), 1);
                match parse_list(&built[0]) {
                    Some(items) => ForeignReply::List(0, items),
                    None => {
                        self.result = b"unmatched open brace in list".to_vec();
                        ForeignReply::List(1, Vec::new())
                    }
                }
            }
            ForeignCall::GetVar(name) => match self.vars.get(&name).cloned() {
                Some(value) => self.object(value),
                None => ForeignReply::Object(0, Vec::new()),
            },
            ForeignCall::DoOneEvent => {
                assert!(guard.is_none());
                ForeignReply::Events(self.one_event())
            }
            ForeignCall::CreateCommand(name) => {
                if self.refuse_install {
                    ForeignReply::Token(0)
                } else {
                    self.installed.push(name);
                    ForeignReply::Token(0x2000 + self.installed.len())
                }
            }
            ForeignCall::DeleteCommand(name) => {
                if let Some(at) = self.installed.iter().position(|n| *n == name) {
                    self.installed.remove(at);
                    let text = String::from_utf8(name).unwrap();
                    let cmd = self.shared.core.lock().unwrap().command_deleted(&text);
                    assert!(cmd.is_some());
                    ForeignReply::Status(0)
                } else {
                    ForeignReply::Status(-1)
                }
            }
            ForeignCall::DeleteInterp => {
                self.delete_interp();
                ForeignReply::Done
            }
            ForeignCall::NewObj(objv) => {
                let mut built = build(&objv);
                assert_eq!(built.len(), 1);
                self.object(built.remove(0))
            }
            ForeignCall::IncrRefCount(ptr) => {
                *self.shared.objects.lock().unwrap().counts.get_mut(&ptr).unwrap() += 1;
                ForeignReply::Done
            }
            ForeignCall::DecrRefCount(ptr) => {
                *self.shared.objects.lock().unwrap().counts.get_mut(&ptr).unwrap() -= 1;
                ForeignReply::Done
            }
            ForeignCall::OpenRelay(port) => {
                assert!((1024..8096).contains(&port));
                self.relay_open = true;
                ForeignReply::Status(0)
            }
            ForeignCall::Respond(bytes) => {
                self.outbox.push_back(bytes);
                ForeignReply::Done
            }
            ForeignCall::Preserve(_) | ForeignCall::Release(_) => {
                self.hold(call);
                ForeignReply::Done
            }
            ForeignCall::Relay(_) => panic!("the owning thread does not use the relay"),
        }
    }

    fn drive(&mut self, mut step: Step<Cmd>) -> Result<Reply, TclError> {
        loop {
            match step {
                Step::Done(result) => return result,
                Step::Call(guard, call, pending) => {
                    let held = self.holds.get(&HANDLE).copied().unwrap_or(0);
                    if let Some(guard) = &guard {
                        self.hold(guard.acquire());
                        assert_eq!(self.holds[&HANDLE], held + 1);
                    }
                    let reply = self.perform(guard.as_ref(), call);
                    if let Some(guard) = guard {
                        self.hold(guard.release());
                    }
                    assert_eq!(self.holds.get(&HANDLE).copied().unwrap_or(0), held);
                    if let (Pending::OneEvent, ForeignReply::Events(n)) = (&pending, &reply) {
                        assert_eq!(*n, 1);
                    }
                    let deleted = self.deleted;
                    step = self.shared.core.lock().unwrap().resume(pending, reply, deleted);
                }
            }
        }
    }

    fn eval(&mut self, code: &str) -> Result<TclObj, TclError> {
        let step = self.shared.core.lock().unwrap().eval(OWNER, code);
        self.drive(step).map(object)
    }

    fn call(&mut self, words: &[&str]) -> Result<TclObj, TclError> {
        let args: Vec<Value> = words.iter().map(|word| word.to_tcl_obj()).collect();
        let step = self.shared.core.lock().unwrap().call(OWNER, &args);
        self.drive(step).map(object)
    }

    fn splitlist(&mut self, arg: &str) -> Result<Vec<String>, TclError> {
        let step = self.shared.core.lock().unwrap().splitlist(OWNER, &arg.to_tcl_obj());
        self.drive(step).map(|reply| match reply {
            Reply::List(items) => items,
            other => panic!("unexpected reply {:?}", other),
        })
    }

    fn getboolean(&mut self, text: &str) -> Result<bool, TclError> {
        let step = self.shared.core.lock().unwrap().getboolean(OWNER, text);
        self.drive(step).map(|reply| match reply {
            Reply::Bool(value) => value,
            other => panic!("unexpected reply {:?}", other),
        })
    }

    fn delete(&mut self) -> Result<(), TclError> {
        let step = self.shared.core.lock().unwrap().delete(OWNER);
        self.drive(step).map(unit)
    }

    fn mainloop(&mut self) -> Result<(), TclError> {
        let step = self.shared.core.lock().unwrap().mainloop(OWNER);
        self.drive(step).map(unit)
    }

    fn createcommand(&mut self, name: &str, cmd: Cmd) -> Result<(), TclError> {
        let step = self.shared.core.lock().unwrap().createcommand(OWNER, name, cmd);
        self.drive(step).map(unit)
    }

    fn deletecommand(&mut self, name: &str) -> Result<(), TclError> {
        let step = self.shared.core.lock().unwrap().deletecommand(OWNER, name);
        self.drive(step).map(unit)
    }

    fn init_threads(&mut self) -> Result<(), TclError> {
        let step = self.shared.core.lock().unwrap().init_threads(OWNER);
        self.drive(step).map(unit)
    }

    fn deleted(&self) -> bool {
        self.shared.core.lock().unwrap().deleted()
    }

    fn registered(&self, name: &str) -> bool {
        self.shared.core.lock().unwrap().find_command(name).is_some()
    }

    fn exit_var_name(&self) -> String {
        self.shared.core.lock().unwrap().exit_var_name().to_owned()
    }

    fn count(&self, ptr: usize) -> i64 {
        self.shared.objects.lock().unwrap().counts[&ptr]
    }
}

fn object(reply: Reply) -> TclObj {
    match reply {
        Reply::Object(obj) => obj,
        other => panic!("unexpected reply {:?}", other),
    }
}

fn unit(reply: Reply) {
    match reply {
        Reply::Unit => {}
        other => panic!("unexpected reply {:?}", other),
    }
}

// Makes an interpreter as a program does: the foreign handle first, then the
// bootstrap.
fn new_interp() -> Result<Foreign, TclError> {
    let (core, step) = TclInterp::<Cmd>::new(HANDLE, OWNER)?;
    let shared = Arc::new(Shared {
        core: Mutex::new(core),
        objects: Mutex::new(Objects { next: 0x8000, strings: HashMap::new(), counts: HashMap::new() }),
    });
    let mut foreign = Foreign::new(shared);
    foreign.drive(step)?;
    Ok(foreign)
}

// Starts a thread that wants these pieces of code evaluated, in this order.
fn spawn(interp: &mut Foreign, thread: u64, codes: &[&str]) -> usize {
    interp.callers.push(Caller {
        thread,
        codes: codes.iter().map(|code| code.to_string()).collect(),
        results: Vec::new(),
    });
    interp.callers.len() - 1
}

// Waits for a thread and takes what came of its code.
fn join(interp: &mut Foreign, at: usize) -> Vec<Result<String, TclError>> {
    assert!(interp.callers[at].codes.is_empty());
    assert!(interp.in_flight.is_none());
    interp.callers[at].results.drain(..).collect()
}

fn value_text(value: &str) -> Value {
    value.to_tcl_obj()
}

#[test]
fn test_preserve() {
    let mut interp = new_interp().unwrap();
    let ptr = 0x7000;

    let data = Preserve::new(ptr);
    interp.hold(data.acquire());

    interp.eventually_free(ptr);
    assert_eq!(interp.freed.len(), 0);
    interp.hold(data.release());
    assert_eq!(interp.freed.len(), 1);
    assert_eq!(interp.freed, vec![ptr]);
}

#[test]
fn deletion_waits_for_the_guard() {
    let mut interp = new_interp().unwrap();
    let step = interp.shared.core.lock().unwrap().delete(OWNER);
    match step {
        Step::Call(Some(guard), ForeignCall::DeleteInterp, pending) => {
            interp.hold(guard.acquire());
            let reply = interp.perform(Some(&guard), ForeignCall::DeleteInterp);
            assert!(interp.deleted);
            assert!(interp.freed.is_empty());
            interp.hold(guard.release());
            assert_eq!(interp.freed, vec![HANDLE]);
            let step = interp.shared.core.lock().unwrap().resume(pending, reply, true);
            unit(interp.drive(step).unwrap());
        }
        other => panic!("unexpected step {}", describe(&other)),
    }
}

#[test]
fn calls_on_the_interpreter_are_guarded() {
    let mut interp = new_interp().unwrap();
    interp.eval("return 1").unwrap();
    interp.call(&["list", "a"]).unwrap();
    assert_eq!(interp.holds[&HANDLE], 0);
    assert!(interp.freed.is_empty());
}

#[test]
fn lib_test_new() {
    assert!(new_interp().is_ok());
}

#[test]
fn lib_test_call() {
    assert_eq!(
        new_interp()
            .unwrap()
            .call(&["format", "%s", "hello, world"])
            .unwrap()
            .to_string(),
        "hello, world"
    );
}

#[test]
fn lib_test_delete() {
    let mut interp = new_interp().unwrap();
    assert!(!interp.deleted());
    interp.delete().unwrap();
    assert!(interp.deleted());

    let err = interp.call(&["format", "%s", "test123"]).unwrap_err();
    assert_eq!(err.0, "Tried to use interpreter after deletion");
}

#[test]
fn lib_test_eval() {
    assert_eq!(
        new_interp()
            .unwrap()
            .eval("format %s {42}")
            .unwrap()
            .to_string(),
        "42"
    );
}

#[test]
fn lib_test_splitlist() {
    let mut interp = new_interp().unwrap();

    let l1 = interp
        .call(&["list", "a", "b", "c and d"])
        .unwrap()
        .to_string();

    let mut l1_parts = interp.splitlist(&l1 as &str).unwrap();
    l1_parts.insert(0, "list".to_owned());

    let words: Vec<&str> = l1_parts.iter().map(|s| s as &str).collect();
    let l2 = interp.call(&words).unwrap();

    assert_eq!(l1.to_string(), l2.to_string());
}

#[test]
fn createcommand_test_createcommand_data() {
    let mut interp = new_interp().unwrap();
    let data = "bar".to_string();
    interp
        .createcommand("foo", Arc::new(move |_args| Ok(value_text(&data))))
        .unwrap();
    assert_eq!(interp.eval("foo").unwrap().to_string(), "bar");
}

#[test]
fn createcommand_test_createcommand_args() {
    let mut interp = new_interp().unwrap();
    let data = "unused";
    interp
        .createcommand(
            "ham",
            Arc::new(move |args| {
                assert_eq!(data, "unused");
                let words: Vec<String> = args
                    .iter()
                    .map(|s| String::from_utf8(s.clone()).unwrap())
                    .collect();
                Ok(value_text(&words.join(" ")))
            }),
        )
        .unwrap();
    assert_eq!(
        interp
            .eval("ham spam ham spam spam ham ham spam")
            .unwrap()
            .to_string(),
        "spam ham spam spam ham ham spam"
    );
}

#[test]
fn test_deletecommand() {
    let mut interp = new_interp().unwrap();
    interp
        .createcommand("foo", Arc::new(|_| Ok(value_text("hi"))))
        .unwrap();

    assert!(interp.registered("foo"));
    assert!(interp.eval("foo").is_ok());
    interp.deletecommand("foo").unwrap();
    assert!(!interp.registered("foo"));
    assert!(interp.eval("foo").is_err());
}

#[test]
fn test_init_threads_once() {
    let mut interp = new_interp().unwrap();
    interp.init_threads().unwrap();

    let child1 = spawn(&mut interp, 2, &["format %s 4", "format %s 2"]);

    let name = interp.exit_var_name();
    interp.call(&["after", "100", "set", &name, "true"]).unwrap();
    interp.mainloop().unwrap();

    let mut parts = join(&mut interp, child1);
    let b = parts.pop().unwrap().unwrap();
    let a = parts.pop().unwrap().unwrap();
    let res = a + &b;
    assert_eq!(res.to_string(), "42");
}

#[test]
fn test_init_threads_twice() {
    let mut interp = new_interp().unwrap();
    interp.init_threads().unwrap();

    let child1 = spawn(&mut interp, 2, &["format %s 42"]);
    let child2 = spawn(&mut interp, 3, &["format %s 69"]);

    let name = interp.exit_var_name();
    interp.call(&["after", "100", "set", &name, "true"]).unwrap();
    interp.mainloop().unwrap();

    let res = join(&mut interp, child1).pop().unwrap().unwrap();
    assert_eq!(res.to_string(), "42");

    let res = join(&mut interp, child2).pop().unwrap().unwrap();
    assert_eq!(res.to_string(), "69");
}

#[test]
fn eval_returns_literal() {
    let mut interp = new_interp().unwrap();
    assert_eq!(interp.eval("return 42").unwrap().to_string(), "42");
}

#[test]
fn eval_hands_code_to_the_interpreter_unchanged() {
    let (core, _) = TclInterp::<Cmd>::with_sentinel(HANDLE, OWNER, 7).unwrap();
    match core.eval(OWNER, "return 42") {
        Step::Call(Some(guard), ForeignCall::Eval(code), Pending::Status(_)) => {
            assert_eq!(guard.as_ptr(), HANDLE);
            assert_eq!(code, b"return 42".to_vec());
        }
        other => panic!("unexpected step {}", describe(&other)),
    }
}

fn describe(step: &Step<Cmd>) -> String {
    match step {
        Step::Done(result) => format!("Done({:?})", result),
        Step::Call(guard, call, _) => format!("Call({:?}, {:?})", guard, call),
    }
}

#[test]
fn new_refuses_null_handle() {
    let err = match TclInterp::<Cmd>::new(0, OWNER) {
        Ok(_) => panic!("a null handle was taken"),
        Err(err) => err,
    };
    assert_eq!(err.kind(), ErrorKind::CreationFailed);
    assert_eq!(err.0, "Tcl_CreateInterp() returned NULL");
}

#[test]
fn sentinel_name_is_decimal() {
    let (core, _) = TclInterp::<Cmd>::with_sentinel(HANDLE, OWNER, 0).unwrap();
    assert_eq!(core.exit_var_name(), "exit_var_0");
    let (core, _) = TclInterp::<Cmd>::with_sentinel(HANDLE, OWNER, 907).unwrap();
    assert_eq!(core.exit_var_name(), "exit_var_907");
    let (core, _) = TclInterp::<Cmd>::with_sentinel(HANDLE, OWNER, u64::MAX).unwrap();
    assert_eq!(core.exit_var_name(), "exit_var_18446744073709551615");
}

#[test]
fn sentinel_names_differ() {
    let a = new_interp().unwrap().exit_var_name();
    let b = new_interp().unwrap().exit_var_name();
    let c = new_interp().unwrap().exit_var_name();
    assert!(a.starts_with("exit_var_"));
    assert!(a != b || b != c);
}

#[test]
fn bootstrap_runs_init_then_sentinel_then_exit() {
    let (core, mut step) = TclInterp::<Cmd>::with_sentinel(HANDLE, OWNER, 5).unwrap();
    let shared = Arc::new(Shared {
        core: Mutex::new(core),
        objects: Mutex::new(Objects { next: 0, strings: HashMap::new(), counts: HashMap::new() }),
    });
    let mut seen = Vec::new();
    loop {
        match step {
            Step::Done(result) => {
                unit(result.unwrap());
                break;
            }
            Step::Call(guard, call, pending) => {
                assert_eq!(guard.unwrap().as_ptr(), HANDLE);
                seen.push(format!("{:?}", call));
                step = shared.core.lock().unwrap().resume(pending, ForeignReply::Status(0), false);
            }
        }
    }
    assert_eq!(
        seen,
        vec![
            "Init".to_string(),
            format!("Eval({:?})", b"set exit_var_5 false".to_vec()),
            format!("Eval({:?})", b"rename exit {}".to_vec()),
        ]
    );
}

#[test]
fn bootstrap_sets_sentinel_to_false() {
    let interp = new_interp().unwrap();
    let name = interp.exit_var_name().into_bytes();
    assert_eq!(interp.vars.get(&name), Some(&b"false".to_vec()));
}

#[test]
fn bootstrap_failure_deletes_the_interpreter() {
    let (core, step) = TclInterp::<Cmd>::new(HANDLE, OWNER).unwrap();
    let shared = Arc::new(Shared {
        core: Mutex::new(core),
        objects: Mutex::new(Objects { next: 0, strings: HashMap::new(), counts: HashMap::new() }),
    });
    let mut foreign = Foreign::new(shared);
    foreign.fail_eval = true;
    foreign.result = b"no init script".to_vec();
    let err = foreign.drive(step).unwrap_err();
    assert_eq!(err.kind(), ErrorKind::ForeignError);
    assert_eq!(err.0, "no init script");
    assert!(foreign.deleted);
    assert!(foreign.deleted());
}

#[test]
fn init_tk_runs_its_script() {
    let mut interp = new_interp().unwrap();
    let name = interp.exit_var_name();
    let mut step = interp.shared.core.lock().unwrap().init_tk(OWNER);
    let mut seen = Vec::new();
    loop {
        match step {
            Step::Done(result) => {
                unit(result.unwrap());
                break;
            }
            Step::Call(guard, call, pending) => {
                seen.push(format!("{:?}", call));
                let reply = interp.perform(guard.as_ref(), call);
                step = interp.shared.core.lock().unwrap().resume(pending, reply, false);
            }
        }
    }
    assert_eq!(
        seen,
        vec![
            "InitTk".to_string(),
            format!("Eval({:?})", b"package require Tk".to_vec()),
            format!(
                "Eval({:?})",
                format!("bind . <Destroy> {{ set {} true }}", name).into_bytes()
            ),
        ]
    );
}

#[test]
fn every_operation_is_refused_after_delete() {
    let mut interp = new_interp().unwrap();
    interp.delete().unwrap();
    let calls = interp.calls;

    let errors = vec![
        interp.eval("return 1").unwrap_err(),
        interp.call(&["list"]).unwrap_err(),
        interp.splitlist("a b").unwrap_err(),
        interp.getboolean("true").unwrap_err(),
        interp.delete().unwrap_err(),
        interp.mainloop().unwrap_err(),
        interp.createcommand("foo", Arc::new(|_| Ok(value_text("x")))).unwrap_err(),
        interp.deletecommand("foo").unwrap_err(),
        interp.init_threads().unwrap_err(),
    ];
    for err in errors {
        assert_eq!(err.kind(), ErrorKind::InterpreterDeleted);
        assert_eq!(err.0, "Tried to use interpreter after deletion");
    }
    let core = interp.shared.core.lock().unwrap();
    let more = vec![
        core.init_tk(OWNER),
        core.get_result(OWNER),
        core.set_result(OWNER, &value_text("x")),
        core.eval(2, "return 1"),
    ];
    drop(core);
    for step in more {
        let err = interp.drive(step).unwrap_err();
        assert_eq!(err.kind(), ErrorKind::InterpreterDeleted);
    }
    assert!(interp.shared.core.lock().unwrap().interp_ptr().is_err());
    assert_eq!(interp.calls, calls);
}

#[test]
fn deletion_by_the_interpreter_is_noticed() {
    let mut interp = new_interp().unwrap();
    let err = interp.eval("destroy .").unwrap_err();
    assert_eq!(err.kind(), ErrorKind::InterpreterDeleted);
    assert!(interp.deleted());
    let calls = interp.calls;
    assert_eq!(interp.eval("return 1").unwrap_err().kind(), ErrorKind::InterpreterDeleted);
    assert_eq!(interp.calls, calls);
}

#[test]
fn mark_deleted_is_final() {
    let interp = new_interp().unwrap();
    interp.shared.core.lock().unwrap().mark_deleted();
    assert!(interp.deleted());
}

#[test]
fn teardown_deletes_once() {
    let mut interp = new_interp().unwrap();
    let step = interp.shared.core.lock().unwrap().teardown();
    unit(interp.drive(step).unwrap());
    assert!(interp.deleted);
    let calls = interp.calls;
    let step = interp.shared.core.lock().unwrap().teardown();
    unit(interp.drive(step).unwrap());
    assert_eq!(interp.calls, calls);
}

#[test]
fn eval_refuses_nul() {
    let mut interp = new_interp().unwrap();
    let calls = interp.calls;
    let err = interp.eval("return \0").unwrap_err();
    assert_eq!(err.kind(), ErrorKind::InvalidArgument);
    assert_eq!(err.0, "code must not contain NUL bytes.");
    assert_eq!(interp.calls, calls);
}

#[test]
fn eval_gives_the_interpreters_error() {
    let mut interp = new_interp().unwrap();
    let err = interp.eval("nonesuch 1 2").unwrap_err();
    assert_eq!(err.kind(), ErrorKind::ForeignError);
    assert_eq!(err.0, "invalid command name \"nonesuch\"");
}

#[test]
fn null_result_is_an_error() {
    let (mut core, _) = TclInterp::<Cmd>::with_sentinel(HANDLE, OWNER, 1).unwrap();
    let step = core.resume(
        Pending::ResultObject(tclinterp::Goal::Direct),
        ForeignReply::Object(0, Vec::new()),
        false,
    );
    match step {
        Step::Done(Err(err)) => {
            assert_eq!(err.kind(), ErrorKind::ForeignObjectNull);
            assert_eq!(err.0, "Tcl_GetObjResult() returned NULL");
        }
        other => panic!("unexpected step {}", describe(&other)),
    }
}

#[test]
fn unexpected_reply_ends_the_operation() {
    let (mut core, _) = TclInterp::<Cmd>::with_sentinel(HANDLE, OWNER, 1).unwrap();
    let step = core.resume(Pending::Boolean, ForeignReply::Done, false);
    match step {
        Step::Done(Err(err)) => assert_eq!(err.kind(), ErrorKind::ProtocolCorruption),
        other => panic!("unexpected step {}", describe(&other)),
    }
}

#[test]
fn getboolean_reads_booleans() {
    let mut interp = new_interp().unwrap();
    assert_eq!(interp.getboolean("yes").unwrap(), true);
    assert_eq!(interp.getboolean("0").unwrap(), false);
    let err = interp.getboolean("maybe").unwrap_err();
    assert_eq!(err.kind(), ErrorKind::ForeignError);
    assert_eq!(err.0, "expected boolean value but got \"maybe\"");
    let err = interp.getboolean("a\0b").unwrap_err();
    assert_eq!(err.kind(), ErrorKind::InvalidArgument);
    assert_eq!(err.0, "Argument must not contain NUL bytes.");
}

#[test]
fn splitlist_refuses_what_is_no_list() {
    let mut interp = new_interp().unwrap();
    assert_eq!(
        interp.splitlist("a {b c} d").unwrap(),
        vec!["a".to_string(), "b c".to_string(), "d".to_string()]
    );
    let err = interp.splitlist("a {b").unwrap_err();
    assert_eq!(err.kind(), ErrorKind::ForeignError);
    assert_eq!(err.0, "unmatched open brace in list");
}

#[test]
fn list_round_trip_with_special_characters() {
    let mut interp = new_interp().unwrap();
    let items = ["", "a b", "{x}", "semi;colon", "tab\there", "plain"];
    let mut words = vec!["list"];
    words.extend_from_slice(&items);
    let l1 = interp.call(&words).unwrap().to_string();
    let parts = interp.splitlist(&l1).unwrap();
    assert_eq!(parts, items.iter().map(|s| s.to_string()).collect::<Vec<_>>());
    let mut again = vec!["list".to_string()];
    again.extend(parts);
    let again: Vec<&str> = again.iter().map(|s| s as &str).collect();
    assert_eq!(interp.call(&again).unwrap().to_string(), l1);
}

#[test]
fn call_builds_nested_lists() {
    let mut interp = new_interp().unwrap();
    let args = vec![
        value_text("list"),
        Value::List(vec![value_text("a"), Value::List(vec![value_text("b c"), value_text("d")])]),
        Value::Bytes(vec![b'e']),
    ];
    let step = interp.shared.core.lock().unwrap().call(OWNER, &args);
    let text = object(interp.drive(step).unwrap()).to_string();
    assert_eq!(text, "{a {{b c} d}} e");
}

#[test]
fn command_runs_once_and_gives_its_result() {
    let mut interp = new_interp().unwrap();
    let runs = Arc::new(Mutex::new(0));
    let counter = runs.clone();
    interp
        .createcommand(
            "foo",
            Arc::new(move |_| {
                *counter.lock().unwrap() += 1;
                Ok(value_text("from the closure"))
            }),
        )
        .unwrap();
    assert_eq!(interp.eval("foo").unwrap().to_string(), "from the closure");
    assert_eq!(*runs.lock().unwrap(), 1);
    assert_eq!(interp.ran, 1);
}

#[test]
fn command_cannot_be_registered_twice() {
    let mut interp = new_interp().unwrap();
    interp.createcommand("foo", Arc::new(|_| Ok(value_text("1")))).unwrap();
    let calls = interp.calls;
    let err = interp
        .createcommand("foo", Arc::new(|_| Ok(value_text("2"))))
        .unwrap_err();
    assert_eq!(err.kind(), ErrorKind::DuplicateCommand);
    assert_eq!(err.0, "Command with name \"foo\" already exists.");
    assert_eq!(interp.calls, calls);
    assert_eq!(interp.eval("foo").unwrap().to_string(), "1");
    interp.deletecommand("foo").unwrap();
    interp.createcommand("foo", Arc::new(|_| Ok(value_text("2")))).unwrap();
    assert_eq!(interp.eval("foo").unwrap().to_string(), "2");
}

#[test]
fn command_name_must_not_hold_nul() {
    let mut interp = new_interp().unwrap();
    let err = interp
        .createcommand("fo\0o", Arc::new(|_| Ok(value_text("1"))))
        .unwrap_err();
    assert_eq!(err.kind(), ErrorKind::InvalidArgument);
    assert_eq!(err.0, "name must not contain NUL bytes.");
    let err = interp.deletecommand("fo\0o").unwrap_err();
    assert_eq!(err.0, "name must not contain NUL bytes.");
}

#[test]
fn failed_install_leaves_no_entry() {
    let mut interp = new_interp().unwrap();
    interp.refuse_install = true;
    let err = interp
        .createcommand("foo", Arc::new(|_| Ok(value_text("1"))))
        .unwrap_err();
    assert_eq!(err.kind(), ErrorKind::ForeignObjectNull);
    assert_eq!(err.0, "Tcl_CreateCommand returned NULL");
    assert!(!interp.registered("foo"));
}

#[test]
fn unknown_command_cannot_be_unregistered() {
    let mut interp = new_interp().unwrap();
    let calls = interp.calls;
    let err = interp.deletecommand("foo").unwrap_err();
    assert_eq!(err.kind(), ErrorKind::NoSuchCommand);
    assert_eq!(err.0, "Command with name \"foo\" does not exist.");
    assert_eq!(interp.calls, calls);
}

#[test]
fn unregistered_command_is_unknown_to_eval() {
    let mut interp = new_interp().unwrap();
    interp.createcommand("foo", Arc::new(|_| Ok(value_text("1")))).unwrap();
    interp.createcommand("bar", Arc::new(|_| Ok(value_text("2")))).unwrap();
    interp.deletecommand("foo").unwrap();
    let err = interp.eval("foo").unwrap_err();
    assert_eq!(err.0, "invalid command name \"foo\"");
    assert!(!interp.registered("foo"));
    assert!(interp.registered("bar"));
    assert_eq!(interp.eval("bar").unwrap().to_string(), "2");
}

#[test]
fn failing_command_reports_an_error() {
    let mut interp = new_interp().unwrap();
    interp
        .createcommand("foo", Arc::new(|_| Err(value_text("went wrong"))))
        .unwrap();
    let err = interp.eval("foo").unwrap_err();
    assert_eq!(err.kind(), ErrorKind::ForeignError);
    assert_eq!(err.0, "went wrong");
}

#[test]
fn command_that_deletes_the_interpreter_sets_no_result() {
    let interp = new_interp().unwrap();
    interp.shared.core.lock().unwrap().mark_deleted();
    let core = interp.shared.core.lock().unwrap();
    let (status, step) = command_result(&core, OWNER, &Ok(value_text("late")));
    assert_eq!(status, tclinterp::TCL_OK);
    match step {
        Step::Done(Ok(Reply::Unit)) => {}
        other => panic!("unexpected step {}", describe(&other)),
    }
    let (status, _) = command_result(&core, OWNER, &Err(value_text("late")));
    assert_eq!(status, tclinterp::TCL_ERROR);
}

#[test]
fn callback_skips_the_command_name() {
    let (core, _) = TclInterp::<Cmd>::with_sentinel(HANDLE, OWNER, 1).unwrap();
    let argv = vec![b"cmd".to_vec(), b"x".to_vec(), b"y z".to_vec()];
    assert_eq!(command_args(&argv), vec![b"x".to_vec(), b"y z".to_vec()]);
    assert_eq!(command_args(&Vec::new()), Vec::<Vec<u8>>::new());
    let echo = |args: &Vec<Vec<u8>>| -> Result<Value, Value> {
        Ok(Value::Str(args.concat()))
    };
    let (status, step) = tclinterp::cmd_callback(&core, OWNER, &echo, &argv);
    assert_eq!(status, 0);
    match step {
        Step::Call(Some(_), ForeignCall::SetResult(objv), Pending::ResultSet) => {
            assert_eq!(build(&objv), vec![b"xy z".to_vec()]);
        }
        other => panic!("unexpected step {}", describe(&other)),
    }
}

#[test]
fn deleting_the_interpreter_empties_the_table() {
    let mut interp = new_interp().unwrap();
    interp.createcommand("foo", Arc::new(|_| Ok(value_text("1")))).unwrap();
    interp.createcommand("bar", Arc::new(|_| Ok(value_text("2")))).unwrap();
    interp.delete().unwrap();
    assert!(!interp.registered("foo"));
    assert!(!interp.registered("bar"));
}

#[test]
fn handles_count_their_references() {
    let mut interp = new_interp().unwrap();
    let first = interp.eval("return 42").unwrap();
    let ptr = first.as_ptr();
    assert_eq!(interp.count(ptr), 1);

    let bytes = first.as_bytes().to_vec();
    let before = interp.count(ptr);
    let a = TclObj::new(ptr, bytes.clone()).unwrap();
    interp.perform(None, TclObj::acquire(ptr));
    let b = TclObj::new(ptr, bytes).unwrap();
    interp.perform(None, TclObj::acquire(ptr));
    assert_eq!(interp.count(ptr), before + 2);
    let call = a.release();
    interp.perform(None, call);
    let call = b.release();
    interp.perform(None, call);
    assert_eq!(interp.count(ptr), before);

    let call = first.release();
    interp.perform(None, call);
    assert_eq!(interp.count(ptr), 0);
}

#[test]
fn handle_of_null_is_refused() {
    let err = TclObj::new(0, Vec::new()).unwrap_err();
    assert_eq!(err.kind(), ErrorKind::ForeignObjectNull);
}

#[test]
fn new_objects_are_made_from_bytes() {
    let mut interp = new_interp().unwrap();
    let data = b"some bytes".to_vec();
    let step = TclObj::create::<Cmd>(&Value::Bytes(data.clone()));
    drop(data);
    let obj = object(interp.drive(step).unwrap());
    assert_eq!(obj.as_bytes(), b"some bytes");
    assert_eq!(interp.count(obj.as_ptr()), 1);
    let step = TclObj::empty::<Cmd>();
    let obj = object(interp.drive(step).unwrap());
    assert_eq!(obj.to_string(), "");
}

#[test]
fn text_of_bytes_that_are_no_utf8() {
    let obj = TclObj::new(8, vec![b'a', 0xff, b'b']).unwrap();
    assert_eq!(obj.to_string(), "a\u{fffd}b");
    assert_eq!(obj.as_bytes(), &[b'a', 0xff, b'b']);
}

#[test]
fn mainloop_ends_when_the_sentinel_is_true() {
    let mut interp = new_interp().unwrap();
    let name = interp.exit_var_name();
    interp.call(&["after", "10", "set", "other", "1"]).unwrap();
    interp.call(&["after", "20", "set", &name, "true"]).unwrap();
    interp.mainloop().unwrap();
    assert_eq!(interp.vars.get(&b"other".to_vec()), Some(&b"1".to_vec()));
    assert!(!interp.deleted());
}

#[test]
fn mainloop_ends_when_the_interpreter_is_deleted() {
    let mut interp = new_interp().unwrap();
    interp.call(&["after", "10", "destroy", "."]).unwrap();
    interp.mainloop().unwrap();
    assert!(interp.deleted());
}

#[test]
fn mainloop_needs_its_sentinel() {
    let mut interp = new_interp().unwrap();
    let name = interp.exit_var_name();
    interp.vars.clear();
    let err = interp.mainloop().unwrap_err();
    assert_eq!(err.kind(), ErrorKind::ForeignObjectNull);
    assert_eq!(err.0, format!("Could not get variable with name \"{}\"", name));
}

#[test]
fn other_threads_are_refused_without_relay() {
    let mut interp = new_interp().unwrap();
    let calls = interp.calls;
    let step = interp.shared.core.lock().unwrap().eval(2, "return 1");
    let err = interp.drive(step).unwrap_err();
    assert_eq!(err.kind(), ErrorKind::InvalidArgument);
    assert_eq!(err.0, "Can not call methods from other threads before init_threads()");
    let mut core = interp.shared.core.lock().unwrap();
    let steps = vec![
        core.call(2, &vec![value_text("list")]),
        core.splitlist(2, &value_text("a")),
        core.getboolean(2, "1"),
        core.delete(2),
        core.mainloop(2),
        core.deletecommand(2, "foo"),
        core.init_threads(2),
        core.init_tk(2),
    ];
    drop(core);
    for step in steps {
        let err = interp.drive(step).unwrap_err();
        assert_eq!(err.kind(), ErrorKind::InvalidArgument);
        assert_eq!(
            err.0,
            "This method can only be called from the thread that owns the interpreter"
        );
    }
    assert_eq!(interp.calls, calls);
    assert!(!interp.deleted());
    assert!(interp.shared.core.lock().unwrap().is_main_thread(OWNER));
    assert!(!interp.shared.core.lock().unwrap().is_main_thread(2));
}

#[test]
fn relayed_errors_come_back_as_text() {
    let mut interp = new_interp().unwrap();
    interp.init_threads().unwrap();
    let child = spawn(&mut interp, 2, &["nonesuch"]);
    let name = interp.exit_var_name();
    interp.call(&["after", "100", "set", &name, "true"]).unwrap();
    interp.mainloop().unwrap();
    let err = join(&mut interp, child).pop().unwrap().unwrap_err();
    assert_eq!(err.kind(), ErrorKind::ForeignError);
    assert_eq!(err.0, "invalid command name \"nonesuch\"");
}

#[test]
fn relay_serves_requests_in_order() {
    let mut interp = new_interp().unwrap();
    interp.init_threads().unwrap();
    let request = tclinterp::TclRequest::Eval(b"format %s 42".to_vec()).encode();
    let step = interp.shared.core.lock().unwrap().serve(OWNER, Some(&request));
    unit(interp.drive(step).unwrap());
    let request = tclinterp::TclRequest::Eval(b"format %s 69".to_vec()).encode();
    let step = interp.shared.core.lock().unwrap().serve(OWNER, Some(&request));
    unit(interp.drive(step).unwrap());
    let first = tclinterp::TclResponse::decode(&interp.outbox.pop_front().unwrap()).unwrap();
    let second = tclinterp::TclResponse::decode(&interp.outbox.pop_front().unwrap()).unwrap();
    assert_eq!(
        format!("{:?}", first),
        format!("{:?}", tclinterp::TclResponse::Eval(Ok(b"42".to_vec())))
    );
    assert_eq!(
        format!("{:?}", second),
        format!("{:?}", tclinterp::TclResponse::Eval(Ok(b"69".to_vec())))
    );
    assert!(interp.outbox.is_empty());
}

#[test]
fn relay_end_of_stream_is_no_error() {
    let mut interp = new_interp().unwrap();
    let calls = interp.calls;
    let step = interp.shared.core.lock().unwrap().serve(OWNER, None);
    unit(interp.drive(step).unwrap());
    assert_eq!(interp.calls, calls);
}

#[test]
fn relay_refuses_corrupt_requests() {
    let mut interp = new_interp().unwrap();
    let step = interp.shared.core.lock().unwrap().serve(OWNER, Some(&[1, 0, 0]));
    let err = interp.drive(step).unwrap_err();
    assert_eq!(err.kind(), ErrorKind::ProtocolCorruption);
}

#[test]
fn relay_answers_calls_that_it_does_not_carry() {
    let mut interp = new_interp().unwrap();
    interp.init_threads().unwrap();
    let request = tclinterp::TclRequest::Call(vec![b"list".to_vec()]).encode();
    let step = interp.shared.core.lock().unwrap().serve(OWNER, Some(&request));
    unit(interp.drive(step).unwrap());
    let frame = interp.outbox.pop_front().unwrap();
    match tclinterp::TclResponse::decode(&frame).unwrap() {
        tclinterp::TclResponse::Call(Err(text)) => {
            assert_eq!(text, b"This request is not supported across threads".to_vec())
        }
        other => panic!("unexpected response {:?}", other),
    }
}

#[test]
fn relay_answers_after_deletion() {
    let mut interp = new_interp().unwrap();
    interp.init_threads().unwrap();
    interp.delete().unwrap();
    let calls = interp.calls;
    let request = tclinterp::TclRequest::Eval(b"return 1".to_vec()).encode();
    let step = interp.shared.core.lock().unwrap().serve(OWNER, Some(&request));
    unit(interp.drive(step).unwrap());
    assert_eq!(interp.calls, calls + 1);
    let frame = interp.outbox.pop_front().unwrap();
    match tclinterp::TclResponse::decode(&frame).unwrap() {
        tclinterp::TclResponse::Eval(Err(text)) => {
            assert_eq!(text, b"Tried to use interpreter after deletion".to_vec())
        }
        other => panic!("unexpected response {:?}", other),
    }
}

#[test]
fn relayed_reply_of_the_wrong_kind_is_corruption() {
    let (mut core, _) = TclInterp::<Cmd>::with_sentinel(HANDLE, OWNER, 1).unwrap();
    let frame = tclinterp::TclResponse::Call(Ok(Vec::new())).encode();
    match core.resume(Pending::Relayed, ForeignReply::Bytes(frame), false) {
        Step::Done(Err(err)) => assert_eq!(err.kind(), ErrorKind::ProtocolCorruption),
        other => panic!("unexpected step {}", describe(&other)),
    }
    match core.resume(Pending::Relayed, ForeignReply::Closed, false) {
        Step::Done(Err(err)) => assert_eq!(err.kind(), ErrorKind::ProtocolCorruption),
        other => panic!("unexpected step {}", describe(&other)),
    }
}

#[test]
fn relay_port_is_in_range() {
    let (core, _) = TclInterp::<Cmd>::with_sentinel(HANDLE, OWNER, 1).unwrap();
    for _ in 0..200 {
        match core.init_threads(OWNER) {
            Step::Call(Some(_), ForeignCall::OpenRelay(port), Pending::Opening) => {
                assert!(1024 <= port && port < 8096);
            }
            other => panic!("unexpected step {}", describe(&other)),
        }
    }
}

#[test]
fn too_long_argument_vectors_are_counted() {
    let objv = Objv::new(&vec![value_text("a"), Value::List(vec![value_text("b")])]).unwrap();
    assert_eq!(objv.len(), 2);
    assert_eq!(
        format!("{:?}", objv.ops()),
        format!(
            "{:?}",
            vec![BuildOp::Str(vec![b'a']), BuildOp::Str(vec![b'b']), BuildOp::List(1)]
        )
    );
    let single = Objv::single(&Value::List(Vec::new())).unwrap();
    assert_eq!(single.len(), 1);
    assert_eq!(build(&single), vec![Vec::<u8>::new()]);
}
