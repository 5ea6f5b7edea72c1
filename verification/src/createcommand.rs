//! The table of the commands that closures were registered for, and the
//! callback that runs a closure when the interpreter runs its command.

use vstd::prelude::*;

use crate::foreign::{Reply, Step, TCL_ERROR, TCL_OK};
use crate::interp::TclInterp;
use crate::machine::{command_status, command_words, report_step};
use crate::obj::{Value, ValueView};
use crate::postoffice::rows;
use crate::text::str_eq;

verus! {

/// A registered command: its name and the closure that runs it.
#[derive(Debug)]
pub struct CommandData<C> {
    pub name: String,
    pub cmd: C,
}

/// The registered commands. No two have the same name.
#[derive(Debug)]
pub struct Registry<C> {
    entries: Vec<CommandData<C>>,
}

/// Whether a command named `name` is among `commands`.
pub open spec fn has_name<C>(commands: Seq<(Seq<char>, C)>, name: Seq<char>) -> bool {
    exists|i: int| 0 <= i < commands.len() && (#[trigger] commands[i]).0 == name
}

/// Whether no two of `commands` have the same name.
pub open spec fn distinct_names<C>(commands: Seq<(Seq<char>, C)>) -> bool {
    forall|i: int, j: int|
        0 <= i < commands.len() && 0 <= j < commands.len() && i != j ==> (#[trigger] commands[i]).0
            != (#[trigger] commands[j]).0
}

/// Where the command named `name` stands among `commands`.
pub open spec fn index_of<C>(commands: Seq<(Seq<char>, C)>, name: Seq<char>) -> int {
    choose|i: int| 0 <= i < commands.len() && (#[trigger] commands[i]).0 == name
}

/// `commands` without the command named `name`.
pub open spec fn without<C>(commands: Seq<(Seq<char>, C)>, name: Seq<char>) -> Seq<
    (Seq<char>, C),
> {
    if has_name(commands, name) {
        commands.remove(index_of(commands, name))
    } else {
        commands
    }
}

/// The closure of the command named `name`, if one is among `commands`.
pub open spec fn lookup<C>(commands: Seq<(Seq<char>, C)>, name: Seq<char>) -> Option<C> {
    if has_name(commands, name) {
        Some(commands[index_of(commands, name)].1)
    } else {
        None
    }
}

/// After a command was taken out, none of its name is left, and the others
/// are all there.
pub proof fn lemma_without<C>(commands: Seq<(Seq<char>, C)>, name: Seq<char>, other: Seq<char>)
    requires
        distinct_names(commands),
    ensures
        !has_name(without(commands, name), name),
        distinct_names(without(commands, name)),
        other != name ==> has_name(without(commands, name), other) == has_name(commands, other),
        other != name ==> lookup(without(commands, name), other) == lookup(commands, other),
{
    let rest = without(commands, name);
    if has_name(commands, name) {
        let k = index_of(commands, name);
        assert forall|i: int| 0 <= i < rest.len() implies (#[trigger] rest[i]).0 != name by {
            if i < k {
                assert(rest[i] == commands[i]);
            } else {
                assert(rest[i] == commands[i + 1]);
            }
        }
        assert forall|i: int, j: int|
            0 <= i < rest.len() && 0 <= j < rest.len() && i != j implies (#[trigger] rest[i]).0 != (
        #[trigger] rest[j]).0 by {
            let a = if i < k {
                i
            } else {
                i + 1
            };
            let b = if j < k {
                j
            } else {
                j + 1
            };
            assert(rest[i] == commands[a]);
            assert(rest[j] == commands[b]);
        }
        if other != name {
            if has_name(commands, other) {
                let m = index_of(commands, other);
                let m2 = if m < k {
                    m
                } else {
                    m - 1
                };
                assert(rest[m2] == commands[m]);
                assert(has_name(rest, other));
                let r = index_of(rest, other);
                let r2 = if r < k {
                    r
                } else {
                    r + 1
                };
                assert(rest[r] == commands[r2]);
                assert(r2 == m);
            }
            if has_name(rest, other) {
                let r = index_of(rest, other);
                let r2 = if r < k {
                    r
                } else {
                    r + 1
                };
                assert(rest[r] == commands[r2]);
                assert(has_name(commands, other));
            }
        }
    }
}

/// A command that was put in is there, under its name, and the others are
/// as before.
pub proof fn lemma_push<C>(commands: Seq<(Seq<char>, C)>, name: Seq<char>, cmd: C, other: Seq<char>)
    requires
        distinct_names(commands),
        !has_name(commands, name),
    ensures
        distinct_names(commands.push((name, cmd))),
        has_name(commands.push((name, cmd)), name),
        lookup(commands.push((name, cmd)), name) == Some(cmd),
        other != name ==> has_name(commands.push((name, cmd)), other) == has_name(commands, other),
{
    let all = commands.push((name, cmd));
    assert(all[commands.len() as int] == (name, cmd));
    assert forall|i: int, j: int|
        0 <= i < all.len() && 0 <= j < all.len() && i != j implies (#[trigger] all[i]).0 != (
    #[trigger] all[j]).0 by {
        if i < commands.len() {
            assert(all[i] == commands[i]);
        }
        if j < commands.len() {
            assert(all[j] == commands[j]);
        }
    }
    let k = index_of(all, name);
    assert(k == commands.len());
    if other != name {
        if has_name(commands, other) {
            let m = index_of(commands, other);
            assert(all[m] == commands[m]);
        }
        if has_name(all, other) {
            let m = index_of(all, other);
            assert(all[m] == commands[m]);
        }
    }
}

impl<C> View for Registry<C> {
    type V = Seq<(Seq<char>, C)>;

    closed spec fn view(&self) -> Seq<(Seq<char>, C)> {
        Seq::new(self.entries@.len(), |i: int| (self.entries@[i].name@, self.entries@[i].cmd))
    }
}

impl<C> Registry<C> {
    /// Whether no two commands of the table have the same name.
    pub open spec fn wf(&self) -> bool {
        distinct_names(self@)
    }

    /// A table without commands.
    pub fn new() -> (table: Registry<C>)
        ensures
            table@ == Seq::<(Seq<char>, C)>::empty(),
            table.wf(),
    {
        Registry { entries: Vec::new() }
    }

    /// The number of commands.
    pub fn len(&self) -> (n: usize)
        ensures
            n == self@.len(),
    {
        self.entries.len()
    }

    /// Where the command named `name` stands, if it is in the table.
    fn position(&self, name: &str) -> (at: Option<usize>)
        ensures
            match at {
                Some(i) => i < self@.len() && self@[i as int].0 == name@,
                None => !has_name(self@, name@),
            },
    {
        let mut i: usize = 0;
        while i < self.entries.len()
            invariant
                i <= self.entries@.len(),
                forall|j: int| 0 <= j < i ==> (#[trigger] self@[j]).0 != name@,
            decreases self.entries.len() - i,
        {
            if str_eq(self.entries[i].name.as_str(), name) {
                assert(self@[i as int].0 == name@);
                return Some(i);
            }
            assert(self@[i as int].0 != name@);
            i += 1;
        }
        None
    }

    /// Whether a command named `name` is in the table.
    pub fn contains(&self, name: &str) -> (held: bool)
        ensures
            held == has_name(self@, name@),
    {
        self.position(name).is_some()
    }

    /// The closure of the command named `name`.
    pub fn find(&self, name: &str) -> (cmd: Option<&C>)
        requires
            self.wf(),
        ensures
            match cmd {
                Some(c) => lookup(self@, name@) == Some(*c),
                None => lookup(self@, name@).is_none(),
            },
    {
        match self.position(name) {
            Some(i) => {
                assert(has_name(self@, name@));
                assert(index_of(self@, name@) == i);
                Some(&self.entries[i].cmd)
            },
            None => None,
        }
    }

    /// Puts a command into the table.
    pub fn insert(&mut self, name: String, cmd: C)
        requires
            old(self).wf(),
            !has_name(old(self)@, name@),
        ensures
            final(self)@ == old(self)@.push((name@, cmd)),
            final(self).wf(),
    {
        proof {
            lemma_push(self@, name@, cmd, name@);
        }
        self.entries.push(CommandData { name, cmd });
        assert(self@ =~= old(self)@.push((name@, cmd)));
    }

    /// Takes the command named `name` out of the table, and hands back its
    /// closure: `None` where no such command is in it.
    pub fn remove(&mut self, name: &str) -> (cmd: Option<C>)
        requires
            old(self).wf(),
        ensures
            final(self)@ == without(old(self)@, name@),
            final(self).wf(),
            cmd == lookup(old(self)@, name@),
    {
        proof {
            lemma_without(self@, name@, name@);
        }
        match self.position(name) {
            Some(i) => {
                assert(has_name(self@, name@));
                assert(index_of(self@, name@) == i);
                let entry = self.entries.remove(i);
                assert(self@ =~= old(self)@.remove(i as int));
                Some(entry.cmd)
            },
            None => None,
        }
    }
}

/// The words that the closure of a command gets: `argv` without the name
/// of the command, which the interpreter puts in front.
pub fn command_args(argv: &Vec<Vec<u8>>) -> (args: Vec<Vec<u8>>)
    ensures
        rows(args@) == command_words(rows(argv@)),
{
    let mut args: Vec<Vec<u8>> = Vec::new();
    let mut i: usize = 1;
    while i < argv.len()
        invariant
            1 <= i,
            i <= argv.len() || i == 1,
            args@.len() == i - 1,
            forall|j: int| 0 <= j < args@.len() ==> (#[trigger] args@[j])@ == argv@[j + 1]@,
        decreases argv.len() - i,
    {
        args.push(argv[i].clone());
        i += 1;
    }
    proof {
        let words = command_words(rows(argv@));
        if argv@.len() == 0 {
            assert(words.len() == 0);
        } else {
            assert(words.len() == argv@.len() - 1);
            assert forall|j: int| 0 <= j < words.len() implies rows(args@)[j] == words[j] by {
                assert(words[j] == rows(argv@)[j + 1]);
            }
        }
        assert(rows(args@) =~= words);
    }
    args
}

/// The value that a closure gave, whether it succeeded or failed.
pub open spec fn given(result: Result<Value, Value>) -> ValueView {
    match result {
        Ok(value) => value@,
        Err(value) => value@,
    }
}

/// What the callback makes of the result of a closure: the status code for
/// the interpreter, and the step that makes the value the interpreter's
/// result. An interpreter that the closure deleted is left alone.
pub fn command_result<C>(interp: &TclInterp<C>, thread: u64, result: &Result<Value, Value>) -> (out:
    (i32, Step<C>))
    ensures
        out.0 == command_status(result is Ok),
        out.1@ == report_step(interp@, thread, given(*result)),
{
    let (status, value) = match result {
        Ok(value) => (TCL_OK, value),
        Err(value) => (TCL_ERROR, value),
    };
    if interp.deleted() {
        (status, Step::Done(Ok(Reply::Unit)))
    } else {
        (status, interp.set_result(thread, value))
    }
}

/// The callback of a command: runs the closure on the command's words and
/// reports its result.
pub fn cmd_callback<C, F>(interp: &TclInterp<C>, thread: u64, cmd: &F, argv: &Vec<Vec<u8>>) -> (out:
    (i32, Step<C>)) where F: Fn(&Vec<Vec<u8>>) -> Result<Value, Value>
    requires
        forall|args: &Vec<Vec<u8>>|
            rows(args@) == command_words(rows(argv@)) ==> call_requires(*cmd, (args,)),
    ensures
        exists|args: &Vec<Vec<u8>>, result: Result<Value, Value>|
            rows(args@) == command_words(rows(argv@)) && call_ensures(*cmd, (args,), result)
                && out.0 == command_status(result is Ok) && out.1@ == report_step(
                interp@,
                thread,
                given(result),
            ),
{
    let args = command_args(argv);
    let result = cmd(&args);
    command_result(interp, thread, &result)
}

} // verus!
