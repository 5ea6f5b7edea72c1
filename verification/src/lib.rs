//! The decision core of a layer that lets many call sites, on any thread,
//! drive one embedded, single-threaded Tcl interpreter.
//!
//! The crate never calls the interpreter itself. Every operation of
//! [`TclInterp`] answers with a [`Step`]: either the result, or the one
//! foreign call that the thread owning the interpreter has to make next,
//! together with the state to come back with. A driver performs the call and
//! hands the reply to [`TclInterp::resume`], until the operation is done.

pub mod channel;
pub mod createcommand;
pub mod error;
pub mod foreign;
pub mod frame;
pub mod interp;
pub mod machine;
pub mod obj;
pub mod postoffice;
pub mod preserve;
pub mod text;
pub mod wrappers;

pub use crate::channel::{ChannelHandlerMask, ChannelOption, TranslationMode};
pub use crate::createcommand::{cmd_callback, command_args, command_result, CommandData, Registry};
pub use crate::error::{ErrorKind, ErrorView, TclError};
pub use crate::foreign::{ForeignCall, ForeignReply, Goal, Pending, Reply, Step, TCL_ERROR, TCL_OK};
pub use crate::frame::{Frame, FrameView};
pub use crate::interp::TclInterp;
pub use crate::obj::{TclObj, ToTclObj, Value};
pub use crate::postoffice::{TclRequest, TclResponse};
pub use crate::preserve::Preserve;
pub use crate::wrappers::{BuildOp, Objv};
