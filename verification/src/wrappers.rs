//! Argument vectors: values laid out as the flat program by which the driver
//! builds the foreign objects.

use vstd::prelude::*;

use crate::error::{too_long_error, TclError};
use crate::obj::{values_view, Value, ValueView};

verus! {

/// One instruction of a build program. The driver runs a program on a stack
/// of foreign objects.
#[derive(Debug)]
pub enum BuildOp {
    /// Push a new string object with these bytes.
    Str(Vec<u8>),
    /// Push a new byte array object with these bytes.
    Bytes(Vec<u8>),
    /// Replace the topmost objects, this many, by the list of them.
    List(usize),
}

/// The mathematical value of a [`BuildOp`].
pub enum BuildOpView {
    Str(Seq<u8>),
    Bytes(Seq<u8>),
    List(nat),
}

impl View for BuildOp {
    type V = BuildOpView;

    open spec fn view(&self) -> BuildOpView {
        match self {
            BuildOp::Str(b) => BuildOpView::Str(b@),
            BuildOp::Bytes(b) => BuildOpView::Bytes(b@),
            BuildOp::List(n) => BuildOpView::List(*n as nat),
        }
    }
}

/// The views of the instructions of a program, in order.
pub open spec fn ops_view(ops: Seq<BuildOp>) -> Seq<BuildOpView> {
    Seq::new(ops.len(), |i: int| ops[i]@)
}

/// The program that builds `v`: its items first, then the instruction that
/// gathers them.
pub open spec fn plan_of(v: ValueView) -> Seq<BuildOpView>
    decreases v, 0nat,
{
    match v {
        ValueView::Str(b) => seq![BuildOpView::Str(b)],
        ValueView::Bytes(b) => seq![BuildOpView::Bytes(b)],
        ValueView::List(items) => plan_of_first(items, items.len()).push(
            BuildOpView::List(items.len()),
        ),
    }
}

/// The program that builds the first `n` of `items`, one after the other.
pub open spec fn plan_of_first(items: Seq<ValueView>, n: nat) -> Seq<BuildOpView>
    decreases items, n,
{
    if 0 < n <= items.len() {
        plan_of_first(items, (n - 1) as nat) + plan_of(items[n - 1])
    } else {
        Seq::empty()
    }
}

/// Whether the foreign side can count the items of every list in `v`.
pub open spec fn countable(v: ValueView) -> bool
    decreases v,
{
    match v {
        ValueView::List(items) => items.len() <= i32::MAX && forall|i: int|
            0 <= i < items.len() ==> countable(#[trigger] items[i]),
        _ => true,
    }
}

/// Whether the foreign side can count `items` and the items of every list in
/// them.
pub open spec fn all_countable(items: Seq<ValueView>) -> bool {
    countable(ValueView::List(items))
}

/// What one instruction makes of a stack, `None` where the stack holds too
/// few objects.
pub open spec fn apply(op: BuildOpView, stack: Seq<ValueView>) -> Option<Seq<ValueView>> {
    match op {
        BuildOpView::Str(b) => Some(stack.push(ValueView::Str(b))),
        BuildOpView::Bytes(b) => Some(stack.push(ValueView::Bytes(b))),
        BuildOpView::List(n) => if n <= stack.len() {
            Some(
                stack.subrange(0, stack.len() - n).push(
                    ValueView::List(stack.subrange(stack.len() - n, stack.len() as int)),
                ),
            )
        } else {
            None
        },
    }
}

/// What a program makes of a stack.
pub open spec fn run(ops: Seq<BuildOpView>, stack: Seq<ValueView>) -> Option<Seq<ValueView>>
    decreases ops.len(),
{
    if ops.len() == 0 {
        Some(stack)
    } else {
        match run(ops.drop_last(), stack) {
            Some(s) => apply(ops.last(), s),
            None => None,
        }
    }
}

/// Running two programs in a row is running the second on what the first
/// left.
pub proof fn lemma_run_concat(a: Seq<BuildOpView>, b: Seq<BuildOpView>, stack: Seq<ValueView>)
    ensures
        run(a + b, stack) == match run(a, stack) {
            Some(s) => run(b, s),
            None => None,
        },
    decreases b.len(),
{
    if b.len() == 0 {
        assert(a + b == a);
    } else {
        assert((a + b).drop_last() == a + b.drop_last());
        assert((a + b).last() == b.last());
        lemma_run_concat(a, b.drop_last(), stack);
    }
}

/// The program of a value leaves that value on top of the stack, and the
/// stack below it as it was.
pub proof fn lemma_plan_builds(v: ValueView, stack: Seq<ValueView>)
    ensures
        run(plan_of(v), stack) == Some(stack.push(v)),
    decreases v, 0nat,
{
    match v {
        ValueView::Str(b) => {
            let p = plan_of(v);
            assert(p.drop_last() == Seq::<BuildOpView>::empty());
            assert(run(p.drop_last(), stack) == Some(stack));
        },
        ValueView::Bytes(b) => {
            let p = plan_of(v);
            assert(p.drop_last() == Seq::<BuildOpView>::empty());
            assert(run(p.drop_last(), stack) == Some(stack));
        },
        ValueView::List(items) => {
            let first = plan_of_first(items, items.len());
            let p = plan_of(v);
            lemma_plan_builds_first(items, items.len(), stack);
            assert(p.drop_last() == first);
            let s = stack + items.subrange(0, items.len() as int);
            assert(items.subrange(0, items.len() as int) == items);
            assert(s.subrange(0, s.len() - items.len()) == stack);
            assert(s.subrange(s.len() - items.len(), s.len() as int) == items);
        },
    }
}

/// The program of the first `n` items leaves them on the stack, in order.
pub proof fn lemma_plan_builds_first(items: Seq<ValueView>, n: nat, stack: Seq<ValueView>)
    requires
        n <= items.len(),
    ensures
        run(plan_of_first(items, n), stack) == Some(stack + items.subrange(0, n as int)),
    decreases items, n,
{
    if n == 0 {
        assert(stack + items.subrange(0, 0) == stack);
    } else {
        let before = plan_of_first(items, (n - 1) as nat);
        let s = stack + items.subrange(0, n - 1);
        lemma_plan_builds_first(items, (n - 1) as nat, stack);
        lemma_plan_builds(items[n - 1], s);
        lemma_run_concat(before, plan_of(items[n - 1]), stack);
        assert(s.push(items[n - 1]) == stack + items.subrange(0, n as int));
    }
}

/// An argument vector: the program that builds its objects, and how many
/// objects the program leaves.
#[derive(Debug)]
pub struct Objv {
    ops: Vec<BuildOp>,
    count: usize,
}

/// The mathematical value of an [`Objv`].
pub struct ObjvView {
    pub ops: Seq<BuildOpView>,
    pub count: nat,
}

impl View for Objv {
    type V = ObjvView;

    closed spec fn view(&self) -> ObjvView {
        ObjvView { ops: ops_view(self.ops@), count: self.count as nat }
    }
}

/// The argument vector of `items`.
pub open spec fn objv_of(items: Seq<ValueView>) -> ObjvView {
    ObjvView { ops: plan_of_first(items, items.len()), count: items.len() }
}

/// Appends the program of `value` to `ops`, and says whether `value` is
/// countable. Where it is not, `ops` is left with a part of the program.
fn push_plan(value: &Value, ops: &mut Vec<BuildOp>) -> (ok: bool)
    ensures
        ok == countable(value@),
        ok ==> ops_view(final(ops)@) == ops_view(old(ops)@) + plan_of(value@),
    decreases value,
{
    match value {
        Value::Str(b) => {
            ops.push(BuildOp::Str(b.clone()));
            assert(ops_view(ops@) =~= ops_view(old(ops)@) + plan_of(value@));
            true
        },
        Value::Bytes(b) => {
            ops.push(BuildOp::Bytes(b.clone()));
            assert(ops_view(ops@) =~= ops_view(old(ops)@) + plan_of(value@));
            true
        },
        Value::List(items) => {
            let ghost views = value@->List_0;
            assert(views =~= values_view(items@));
            if items.len() > i32::MAX as usize {
                return false;
            }
            let mut i: usize = 0;
            while i < items.len()
                invariant
                    i <= items.len(),
                    *value == Value::List(*items),
                    value@ == ValueView::List(views),
                    views == values_view(items@),
                    ops_view(ops@) == ops_view(old(ops)@) + plan_of_first(views, i as nat),
                    forall|j: int| 0 <= j < i ==> countable(#[trigger] views[j]),
                decreases items.len() - i,
            {
                assert(decreases_to!(*items => items[i as int]));
                assert(decreases_to!(*value => *items));
                let ok = push_plan(&items[i], ops);
                if !ok {
                    assert(!countable(views[i as int]));
                    return false;
                }
                assert(ops_view(ops@) =~= ops_view(old(ops)@) + plan_of_first(
                    views,
                    (i + 1) as nat,
                ));
                i += 1;
            }
            let ghost before = ops@;
            ops.push(BuildOp::List(items.len()));
            assert(ops_view(ops@) =~= ops_view(before).push(BuildOpView::List(items.len() as nat)));
            assert(ops_view(ops@) =~= ops_view(old(ops)@) + plan_of(value@));
            true
        },
    }
}

impl Objv {
    #[verifier::type_invariant]
    spec fn inv(self) -> bool {
        self.count <= i32::MAX
    }

    /// The argument vector of `args`. It is refused where `args`, or a list
    /// in them, has more items than the foreign side can count.
    pub fn new(args: &Vec<Value>) -> (r: Result<Objv, TclError>)
        ensures
            match r {
                Ok(objv) => all_countable(values_view(args@)) && objv@ == objv_of(
                    values_view(args@),
                ),
                Err(e) => !all_countable(values_view(args@)) && e@ == too_long_error(),
            },
    {
        let ghost views = values_view(args@);
        if args.len() > i32::MAX as usize {
            return Err(TclError::too_long());
        }
        let mut ops: Vec<BuildOp> = Vec::new();
        let mut i: usize = 0;
        while i < args.len()
            invariant
                i <= args.len(),
                views == values_view(args@),
                ops_view(ops@) == plan_of_first(views, i as nat),
                forall|j: int| 0 <= j < i ==> countable(#[trigger] views[j]),
            decreases args.len() - i,
        {
            let ghost before = ops@;
            let ok = push_plan(&args[i], &mut ops);
            if !ok {
                assert(!countable(views[i as int]));
                return Err(TclError::too_long());
            }
            i += 1;
        }
        Ok(Objv { ops, count: args.len() })
    }

    /// The argument vector of the one value `arg`.
    pub fn single(arg: &Value) -> (r: Result<Objv, TclError>)
        ensures
            match r {
                Ok(objv) => countable(arg@) && objv@ == objv_of(seq![arg@]),
                Err(e) => !countable(arg@) && e@ == too_long_error(),
            },
    {
        let mut ops: Vec<BuildOp> = Vec::new();
        let ok = push_plan(arg, &mut ops);
        if !ok {
            return Err(TclError::too_long());
        }
        proof {
            let items = seq![arg@];
            assert(plan_of_first(items, 0) == Seq::<BuildOpView>::empty());
            assert(plan_of_first(items, 1) =~= plan_of(arg@));
        }
        Ok(Objv { ops, count: 1 })
    }

    /// The number of objects in the vector, as the foreign side counts.
    pub fn len(&self) -> (n: i32)
        ensures
            n == self@.count,
    {
        proof {
            use_type_invariant(self);
        }
        self.count as i32
    }

    /// The program that builds the objects of the vector.
    pub fn ops(&self) -> (ops: &Vec<BuildOp>)
        ensures
            ops_view(ops@) == self@.ops,
    {
        &self.ops
    }
}

/// The program of an argument vector builds its values, in order, and
/// nothing else.
pub proof fn lemma_objv_builds(items: Seq<ValueView>)
    ensures
        run(objv_of(items).ops, Seq::empty()) == Some(items),
{
    lemma_plan_builds_first(items, items.len(), Seq::empty());
    assert(Seq::<ValueView>::empty() + items.subrange(0, items.len() as int) == items);
}

} // verus!
