use jni_high::types::{ArgPassing, BridgeType, CallbackConversion, JavaType, Primitive, ResultReading};
use jni_high::{compile_dex, BridgeError, BridgeResult, BridgeResultExt};
use std::path::PathBuf;

fn chars(s: &str) -> Vec<char> {
    s.chars().collect()
}

#[test]
fn type_text_is_read_without_spaces() {
    assert_eq!(BridgeType::from_text(&chars("bool")), Some(BridgeType::Bool));
    assert_eq!(BridgeType::from_text(&chars("& str")), Some(BridgeType::BorrowedStr));
    assert_eq!(BridgeType::from_text(&chars("Option < String >")), Some(BridgeType::OptionString));
    assert_eq!(BridgeType::from_text(&chars("( )")), Some(BridgeType::Unit));
    assert_eq!(BridgeType::from_text(&chars("u32")), None);
    assert_eq!(BridgeType::from_text(&chars("Option<&str>")), None);
}

#[test]
fn every_rust_type_name_reads_back() {
    let all = [
        BridgeType::Bool,
        BridgeType::I8,
        BridgeType::I16,
        BridgeType::I32,
        BridgeType::I64,
        BridgeType::F32,
        BridgeType::F64,
        BridgeType::Char,
        BridgeType::BorrowedStr,
        BridgeType::OwnedString,
        BridgeType::OptionString,
        BridgeType::Unit,
    ];
    for t in all {
        assert_eq!(BridgeType::from_text(&chars(t.rust_type_name())), Some(t));
        let h = t.callback_handler_type();
        assert_ne!(h, BridgeType::BorrowedStr);
        assert_eq!(h.jni_sig_char(), t.jni_sig_char());
    }
}

#[test]
fn jni_descriptors() {
    assert_eq!(BridgeType::Bool.jni_sig_char(), "Z");
    assert_eq!(BridgeType::I8.jni_sig_char(), "B");
    assert_eq!(BridgeType::I16.jni_sig_char(), "S");
    assert_eq!(BridgeType::I32.jni_sig_char(), "I");
    assert_eq!(BridgeType::I64.jni_sig_char(), "J");
    assert_eq!(BridgeType::F32.jni_sig_char(), "F");
    assert_eq!(BridgeType::F64.jni_sig_char(), "D");
    assert_eq!(BridgeType::Char.jni_sig_char(), "C");
    assert_eq!(BridgeType::BorrowedStr.jni_sig_char(), "Ljava/lang/String;");
    assert_eq!(BridgeType::OptionString.jni_sig_char(), "Ljava/lang/String;");
    assert_eq!(BridgeType::Unit.jni_sig_char(), "V");
}

#[test]
fn descriptor_and_java_type_agree() {
    let all = [
        BridgeType::Bool,
        BridgeType::I8,
        BridgeType::I16,
        BridgeType::I32,
        BridgeType::I64,
        BridgeType::F32,
        BridgeType::F64,
        BridgeType::Char,
        BridgeType::BorrowedStr,
        BridgeType::OwnedString,
        BridgeType::OptionString,
        BridgeType::Unit,
    ];
    for t in all {
        for u in all {
            assert_eq!(t.jni_sig_char() == u.jni_sig_char(), t.java_type() == u.java_type());
        }
        assert_eq!(t.java_type() == JavaType::Object, t.jni_sig_char() == "Ljava/lang/String;");
        if t.java_type() != JavaType::Object {
            assert_eq!(t.jni_sig_char().len(), 1);
        }
    }
}

#[test]
fn values_travel_as_the_descriptor_declares() {
    assert_eq!(BridgeType::Bool.arg_passing(), ArgPassing::Value(Primitive::Boolean));
    assert_eq!(BridgeType::Char.arg_passing(), ArgPassing::Value(Primitive::Char));
    assert_eq!(BridgeType::BorrowedStr.arg_passing(), ArgPassing::NewString);
    assert_eq!(BridgeType::OwnedString.arg_passing(), ArgPassing::NewString);
    assert_eq!(BridgeType::OptionString.arg_passing(), ArgPassing::NullableString);
    assert_eq!(BridgeType::I64.result_reading(), ResultReading::Value(Primitive::Long));
    assert_eq!(BridgeType::Unit.result_reading(), ResultReading::Value(Primitive::Void));
    assert_eq!(BridgeType::BorrowedStr.result_reading(), ResultReading::Refused);
    assert_eq!(BridgeType::OwnedString.result_reading(), ResultReading::ReadString);
    assert_eq!(BridgeType::OptionString.result_reading(), ResultReading::ReadOptionalString);
    let all = [
        BridgeType::Bool,
        BridgeType::I8,
        BridgeType::I16,
        BridgeType::I32,
        BridgeType::I64,
        BridgeType::F32,
        BridgeType::F64,
        BridgeType::Char,
        BridgeType::BorrowedStr,
        BridgeType::OwnedString,
        BridgeType::OptionString,
        BridgeType::Unit,
    ];
    for t in all {
        if let JavaType::Primitive(p) = t.java_type() {
            assert_eq!(t.arg_passing(), ArgPassing::Value(p));
            assert_eq!(t.result_reading(), ResultReading::Value(p));
        }
        assert_eq!(t.is_return_type(), t.result_reading() != ResultReading::Refused);
    }
}

#[test]
fn java_types_and_conversions() {
    assert_eq!(BridgeType::Bool.java_type(), JavaType::Primitive(Primitive::Boolean));
    assert_eq!(BridgeType::OwnedString.java_type(), JavaType::Object);
    assert_eq!(BridgeType::Unit.return_type(), JavaType::Primitive(Primitive::Void));
    assert_eq!(BridgeType::Bool.callback_conversion(), CallbackConversion::NonZero);
    assert_eq!(BridgeType::F32.callback_conversion(), CallbackConversion::NumericCast);
    assert_eq!(BridgeType::Char.callback_conversion(), CallbackConversion::Utf16Unit);
    assert_eq!(BridgeType::BorrowedStr.callback_conversion(), CallbackConversion::ReadString);
    assert_eq!(BridgeType::OptionString.callback_conversion(), CallbackConversion::ReadOptionalString);
    assert!(!BridgeType::BorrowedStr.is_return_type());
    assert!(BridgeType::OwnedString.is_return_type());
}

#[test]
fn compile_dex_is_not_implemented() {
    let r = compile_dex(&PathBuf::from("A.java"), &PathBuf::from("out.dex"));
    assert_eq!(
        r,
        Err("jni-high-build: compile_dex is not yet implemented; supply a pre-compiled .dex file".to_string())
    );
}

#[test]
fn error_messages() {
    assert_eq!(BridgeError::ContextNotInitialized.message(), "AndroidContext not initialized");
    assert_eq!(BridgeError::VmNotAvailable.message(), "JVM not available (app paused?)");
    assert_eq!(BridgeError::ClassNotFound("a.B".into()).message(), "Java class not found: a.B");
    assert_eq!(
        BridgeError::JavaException { class: "java.lang.X".into(), message: "boom".into() }.message(),
        "Java exception java.lang.X: boom"
    );
    assert_eq!(BridgeError::CallbackPanic.message(), "Rust panic in JNI callback");
    assert_eq!(BridgeError::NullPointer { context: "ctx" }.message(), "Null pointer in ctx");
    let io = BridgeError::Io(std::io::Error::new(std::io::ErrorKind::Other, "disk full"));
    assert_eq!(io.message(), "I/O error: disk full");
    let jni: BridgeError = jni::errors::Error::JavaException.into();
    assert_eq!(jni.message(), "JNI error: Java exception was thrown");
}

#[test]
fn jni_error_is_wrapped_and_unwrapped() {
    let e: BridgeError = jni::errors::Error::WrongObjectType.into();
    match e {
        BridgeError::Jni(inner) => {
            assert_eq!(inner.message(), jni::errors::Error::WrongObjectType.to_string());
            assert!(matches!(inner.into_inner(), jni::errors::Error::WrongObjectType));
        }
        _ => panic!("expected a JNI error"),
    }
}

#[test]
fn log_err_passes_over_success_and_backgrounded_app() {
    let ok: BridgeResult<i32> = Ok(1);
    assert!(ok.log_err("tag").is_none());
    let paused: BridgeResult<()> = Err(BridgeError::VmNotAvailable);
    assert!(paused.log_err("tag").is_none());
    let failed: BridgeResult<()> = Err(BridgeError::ContextNotInitialized);
    let rep = failed.log_err("pick_dir").unwrap();
    assert_eq!(rep.tag, "pick_dir");
    assert!(matches!(rep.error, BridgeError::ContextNotInitialized));
}
