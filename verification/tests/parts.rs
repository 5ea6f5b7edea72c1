use tclinterp::channel::{client_options, TCL_EXCEPTION, TCL_READABLE, TCL_WRITABLE};
use tclinterp::text::{bytes_eq, has_nul, push_decimal, str_eq};
use tclinterp::{
    BuildOp, ChannelHandlerMask, ChannelOption, ErrorKind, Objv, Preserve, Registry, TclError,
    TclObj, ToTclObj, TranslationMode, Value,
};

#[test]
fn guard_keeps_its_pointer() {
    let data = Preserve::new(0x5150);
    assert_eq!(data.as_ptr(), 0x5150);
    let other = Preserve::new(8);
    assert_eq!(other.as_ptr(), 8);
    assert_eq!(data.as_ptr(), 0x5150);
    assert_eq!(format!("{:?}", data.acquire()), "Preserve(20816)");
    assert_eq!(format!("{:?}", data.release()), "Release(20816)");
}

#[test]
fn error_new_carries_foreign_text() {
    let err = TclError::new("can't read \"x\": no such variable");
    assert_eq!(err.0, "can't read \"x\": no such variable");
    assert_eq!(err.1, ErrorKind::ForeignError);
    assert_eq!(err.kind(), ErrorKind::ForeignError);
    assert_eq!(err.to_string(), "can't read \"x\": no such variable");
}

#[test]
fn error_kinds_and_texts() {
    let cases = vec![
        (
            TclError::deleted(),
            ErrorKind::InterpreterDeleted,
            "Tried to use interpreter after deletion",
        ),
        (
            TclError::wrong_thread(),
            ErrorKind::InvalidArgument,
            "This method can only be called from the thread that owns the interpreter",
        ),
        (
            TclError::relay_closed(),
            ErrorKind::InvalidArgument,
            "Can not call methods from other threads before init_threads()",
        ),
        (TclError::code_nul(), ErrorKind::InvalidArgument, "code must not contain NUL bytes."),
        (
            TclError::argument_nul(),
            ErrorKind::InvalidArgument,
            "Argument must not contain NUL bytes.",
        ),
        (TclError::name_nul(), ErrorKind::InvalidArgument, "name must not contain NUL bytes."),
        (TclError::too_long(), ErrorKind::InvalidArgument, "Too many list elements."),
        (TclError::creation(), ErrorKind::CreationFailed, "Tcl_CreateInterp() returned NULL"),
        (TclError::null_object(), ErrorKind::ForeignObjectNull, "Tried to wrap a NULL object"),
        (
            TclError::null_result(),
            ErrorKind::ForeignObjectNull,
            "Tcl_GetObjResult() returned NULL",
        ),
        (TclError::install(), ErrorKind::ForeignObjectNull, "Tcl_CreateCommand returned NULL"),
        (
            TclError::duplicate("a b"),
            ErrorKind::DuplicateCommand,
            "Command with name \"a b\" already exists.",
        ),
        (TclError::missing("x"), ErrorKind::NoSuchCommand, "Command with name \"x\" does not exist."),
        (
            TclError::variable("exit_var_3"),
            ErrorKind::ForeignObjectNull,
            "Could not get variable with name \"exit_var_3\"",
        ),
        (TclError::corruption(), ErrorKind::ProtocolCorruption, "Corrupt message"),
        (TclError::with_kind(ErrorKind::NoSuchCommand, "text"), ErrorKind::NoSuchCommand, "text"),
        (TclError::naming(ErrorKind::ForeignError, "<", "n", ">"), ErrorKind::ForeignError, "<n>"),
    ];
    for (err, kind, text) in cases {
        assert_eq!(err.kind(), kind);
        assert_eq!(err.0, text);
    }
}

#[test]
fn channel_options_are_spelled_for_the_interpreter() {
    let (name, value) = ChannelOption::Blocking(false).setting();
    assert_eq!((name.as_str(), value.as_str()), ("-blocking", "false"));
    let (name, value) = ChannelOption::Blocking(true).setting();
    assert_eq!((name.as_str(), value.as_str()), ("-blocking", "true"));
    let (name, value) = ChannelOption::TranslationMode(TranslationMode::Binary).setting();
    assert_eq!((name.as_str(), value.as_str()), ("-translation", "binary"));
}

#[test]
fn client_channels_do_not_block_and_are_binary() {
    assert_eq!(
        client_options(),
        vec![
            ChannelOption::Blocking(false),
            ChannelOption::TranslationMode(TranslationMode::Binary)
        ]
    );
}

#[test]
fn channel_masks() {
    assert_eq!(ChannelHandlerMask::readable().bits(), TCL_READABLE);
    assert_eq!(ChannelHandlerMask::writable().bits(), TCL_WRITABLE);
    assert_eq!(ChannelHandlerMask::exception().bits(), TCL_EXCEPTION);
    assert_eq!((TCL_READABLE, TCL_WRITABLE, TCL_EXCEPTION), (2, 4, 8));
    let both = ChannelHandlerMask::readable().union(ChannelHandlerMask::exception());
    assert_eq!(both.bits(), 10);
    assert!(both.contains(ChannelHandlerMask::readable()));
    assert!(both.contains(ChannelHandlerMask::exception()));
    assert!(!both.contains(ChannelHandlerMask::writable()));
    assert!(!ChannelHandlerMask::readable().contains(both));
}

#[test]
fn text_helpers() {
    assert!(bytes_eq(b"abc", b"abc"));
    assert!(!bytes_eq(b"abc", b"abd"));
    assert!(!bytes_eq(b"abc", b"ab"));
    assert!(bytes_eq(b"", b""));
    assert!(str_eq("grüße", "grüße"));
    assert!(!str_eq("a", "b"));
    assert!(has_nul(b"a\0b"));
    assert!(has_nul(b"\0"));
    assert!(!has_nul(b"ab"));
    assert!(!has_nul(b""));
}

#[test]
fn decimal_text() {
    let cases = [
        (0u64, "0"),
        (7, "7"),
        (10, "10"),
        (1234567890, "1234567890"),
        (u64::MAX, "18446744073709551615"),
    ];
    for (n, text) in cases {
        let mut out = String::from("n=");
        push_decimal(n, &mut out);
        assert_eq!(out, format!("n={}", text));
    }
}

#[test]
fn registry_keeps_names_apart() {
    let mut table: Registry<u32> = Registry::new();
    assert_eq!(table.len(), 0);
    assert!(!table.contains("a"));
    table.insert("a".to_string(), 1);
    table.insert("b".to_string(), 2);
    table.insert("c".to_string(), 3);
    assert_eq!(table.len(), 3);
    assert_eq!(table.find("b"), Some(&2));
    assert_eq!(table.find("d"), None);
    assert_eq!(table.remove("b"), Some(2));
    assert_eq!(table.remove("b"), None);
    assert_eq!(table.len(), 2);
    assert!(!table.contains("b"));
    assert_eq!(table.find("a"), Some(&1));
    assert_eq!(table.find("c"), Some(&3));
    assert_eq!(table.remove("zzz"), None);
    assert_eq!(table.len(), 2);
}

#[test]
fn values_of_strings_and_bytes() {
    match "hi".to_tcl_obj() {
        Value::Str(bytes) => assert_eq!(bytes, b"hi".to_vec()),
        other => panic!("unexpected value {:?}", other),
    }
    let raw: &[u8] = &[0, 159, 146, 150];
    match raw.to_tcl_obj() {
        Value::Bytes(bytes) => assert_eq!(bytes, vec![0, 159, 146, 150]),
        other => panic!("unexpected value {:?}", other),
    }
    let obj = TclObj::new(64, b"from an object".to_vec()).unwrap();
    match (&obj).to_tcl_obj() {
        Value::Str(bytes) => assert_eq!(bytes, b"from an object".to_vec()),
        other => panic!("unexpected value {:?}", other),
    }
    match Value::List(vec![Value::Str(vec![1])]).to_tcl_obj() {
        Value::List(items) => assert_eq!(items.len(), 1),
        other => panic!("unexpected value {:?}", other),
    }
}

#[test]
fn programs_build_items_before_their_list() {
    let args = vec![
        Value::Str(b"cmd".to_vec()),
        Value::List(vec![
            Value::Bytes(vec![1, 2]),
            Value::List(Vec::new()),
            Value::Str(b"x".to_vec()),
        ]),
    ];
    let objv = Objv::new(&args).unwrap();
    assert_eq!(objv.len(), 2);
    let expected = vec![
        BuildOp::Str(b"cmd".to_vec()),
        BuildOp::Bytes(vec![1, 2]),
        BuildOp::List(0),
        BuildOp::Str(b"x".to_vec()),
        BuildOp::List(3),
    ];
    assert_eq!(format!("{:?}", objv.ops()), format!("{:?}", expected));
    let none = Objv::new(&Vec::new()).unwrap();
    assert_eq!(none.len(), 0);
    assert!(none.ops().is_empty());
}

#[test]
fn handles_keep_pointer_and_bytes() {
    let obj = TclObj::new(0x40, vec![104, 105]).unwrap();
    assert_eq!(obj.as_ptr(), 0x40);
    assert_eq!(obj.as_bytes(), b"hi");
    assert_eq!(obj.to_string(), "hi");
    assert_eq!(format!("{:?}", TclObj::acquire(0x40)), "IncrRefCount(64)");
    assert_eq!(format!("{:?}", obj.release()), "DecrRefCount(64)");
}

#[test]
fn handles_read_utf8() {
    let obj = TclObj::new(0x40, "grüße ✓".as_bytes().to_vec()).unwrap();
    assert_eq!(obj.to_string(), "grüße ✓");
}
