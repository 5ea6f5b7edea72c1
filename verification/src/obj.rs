//! Handles of foreign objects, and the values that become foreign objects.

use vstd::prelude::*;
use vstd::slice::slice_to_vec;
use vstd::string::*;
use vstd::utf8::*;

use crate::error::{null_object_error, TclError};

verus! {

/// The text that `String::from_utf8_lossy` makes of bytes.
pub uninterp spec fn lossy_text(bytes: Seq<u8>) -> Seq<char>;

/// Calls `String::from_utf8_lossy`: the bytes as text, with a replacement
/// character wherever they are no UTF-8. On bytes that are UTF-8 this is the
/// text that they encode.
#[verifier::external_body]
pub(crate) fn text_of(bytes: &[u8]) -> (text: String)
    ensures
        text@ == lossy_text(bytes@),
        valid_utf8(bytes@) ==> text@ == decode_utf8(bytes@),
{
    String::from_utf8_lossy(bytes).into_owned()
}

/// A foreign object as the driver reports it: its address, 0 for null, and
/// the bytes of its string form.
pub struct ObjView {
    pub ptr: usize,
    pub bytes: Seq<u8>,
}

/// A handle of a foreign object. Who holds it holds one reference to the
/// object: the handle is made together with the increment of the foreign
/// reference count, see [`TclObj::acquire`], and is given up by
/// [`TclObj::release`], which asks for the one decrement.
#[derive(Debug)]
pub struct TclObj {
    ptr: usize,
    bytes: Vec<u8>,
}

impl View for TclObj {
    type V = ObjView;

    closed spec fn view(&self) -> ObjView {
        ObjView { ptr: self.ptr, bytes: self.bytes@ }
    }
}

impl TclObj {
    #[verifier::type_invariant]
    spec fn inv(self) -> bool {
        self.ptr != 0
    }

    /// Wraps the foreign object at `ptr`, whose string form is `bytes`. A
    /// null pointer is refused.
    pub fn new(ptr: usize, bytes: Vec<u8>) -> (r: Result<TclObj, TclError>)
        ensures
            match r {
                Ok(obj) => ptr != 0 && obj@ == (ObjView { ptr, bytes: bytes@ }),
                Err(e) => ptr == 0 && e@ == null_object_error(),
            },
    {
        if ptr == 0 {
            Err(TclError::null_object())
        } else {
            Ok(TclObj { ptr, bytes })
        }
    }

    /// The address of the foreign object, never null.
    pub fn as_ptr(&self) -> (ptr: usize)
        ensures
            ptr == self@.ptr,
            ptr != 0,
    {
        proof {
            use_type_invariant(self);
        }
        self.ptr
    }

    /// The bytes of the object's string form.
    pub fn as_bytes(&self) -> (bytes: &[u8])
        ensures
            bytes@ == self@.bytes,
    {
        self.bytes.as_slice()
    }

    /// The object's string form as text.
    pub fn to_string(&self) -> (text: String)
        ensures
            text@ == lossy_text(self@.bytes),
            valid_utf8(self@.bytes) ==> text@ == decode_utf8(self@.bytes),
    {
        text_of(self.bytes.as_slice())
    }
}

/// A value that is to become a foreign object.
#[derive(Debug)]
pub enum Value {
    /// A string, copied as it is.
    Str(Vec<u8>),
    /// A byte array.
    Bytes(Vec<u8>),
    /// A list of values.
    List(Vec<Value>),
}

/// The mathematical value of a [`Value`].
pub enum ValueView {
    Str(Seq<u8>),
    Bytes(Seq<u8>),
    List(Seq<ValueView>),
}

impl View for Value {
    type V = ValueView;

    open spec fn view(&self) -> ValueView
        decreases self,
    {
        match self {
            Value::Str(b) => ValueView::Str(b@),
            Value::Bytes(b) => ValueView::Bytes(b@),
            Value::List(items) => ValueView::List(
                Seq::new(
                    items.len() as nat,
                    |i: int|
                        if 0 <= i < items.len() {
                            items[i].view()
                        } else {
                            ValueView::Str(Seq::empty())
                        },
                ),
            ),
        }
    }
}

/// The views of the values of a vector, in order.
pub open spec fn values_view(items: Seq<Value>) -> Seq<ValueView> {
    Seq::new(items.len(), |i: int| items[i]@)
}

/// What can be handed to the interpreter as an argument.
pub trait ToTclObj: Sized {
    /// The value that `self` stands for.
    spec fn tcl_value(self) -> ValueView;

    /// The value that the foreign side is to make an object of.
    fn to_tcl_obj(self) -> (value: Value)
        ensures
            value@ == self.tcl_value(),
    ;
}

impl ToTclObj for Value {
    open spec fn tcl_value(self) -> ValueView {
        self@
    }

    fn to_tcl_obj(self) -> (value: Value) {
        self
    }
}

impl ToTclObj for &str {
    open spec fn tcl_value(self) -> ValueView {
        ValueView::Str(self.spec_bytes())
    }

    fn to_tcl_obj(self) -> (value: Value) {
        Value::Str(self.as_bytes_vec())
    }
}

impl ToTclObj for &[u8] {
    open spec fn tcl_value(self) -> ValueView {
        ValueView::Bytes(self@)
    }

    fn to_tcl_obj(self) -> (value: Value) {
        Value::Bytes(slice_to_vec(self))
    }
}

impl ToTclObj for &TclObj {
    open spec fn tcl_value(self) -> ValueView {
        ValueView::Str(self@.bytes)
    }

    fn to_tcl_obj(self) -> (value: Value) {
        Value::Str(slice_to_vec(self.as_bytes()))
    }
}

} // verus!
