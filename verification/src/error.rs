//! The error model of the bridge.
use vstd::prelude::*;

verus! {

#[verifier::external_type_specification]
#[verifier::external_body]
pub struct ExJniSysError(jni::errors::Error);

#[verifier::external_type_specification]
#[verifier::external_body]
pub struct ExIoError(std::io::Error);

/// Opaque wrapper around `jni::errors::Error`: users do not need `jni` as a direct dependency.
#[derive(Debug)]
pub struct JniError(pub(crate) jni::errors::Error);

impl JniError {
    /// The wrapper of `e`.
    pub closed spec fn wrapping(e: jni::errors::Error) -> JniError {
        JniError(e)
    }

    /// The wrapped JNI error.
    pub closed spec fn inner(self) -> jni::errors::Error {
        self.0
    }

    /// The wrapped JNI error.
    pub fn into_inner(self) -> (r: jni::errors::Error)
        ensures
            r == self.inner(),
    {
        self.0
    }

    /// The text of the wrapped JNI error, as its `Display` writes it.
    pub fn message(&self) -> (r: String)
        ensures
            r@ == jni_display(self.inner()),
    {
        jni_error_text(&self.0)
    }
}

/// Wrapping a JNI error and taking it back out gives the same error.
pub proof fn lemma_inner_of_wrapping(e: jni::errors::Error)
    ensures
        JniError::wrapping(e).inner() == e,
{
}

/// Everything that can go wrong when crossing the bridge.
#[derive(Debug)]
pub enum BridgeError {
    /// `AndroidContext::init` was never called.
    ContextNotInitialized,
    /// `vm_as_ptr()` returned null: the app is paused or stopped and JNI calls are unsafe here.
    VmNotAvailable,
    /// The Java class was not found in the DEX or on the system classpath.
    ClassNotFound(String),
    /// JNI returned an error.
    Jni(JniError),
    /// A Java exception was thrown and captured.
    JavaException { class: String, message: String },
    /// A Rust panic occurred inside a JNI callback.
    CallbackPanic,
    /// A value was null where a non-null one was expected.
    NullPointer { context: &'static str },
    /// An I/O error (e.g. writing the DEX file for the `DexClassLoader` fallback).
    Io(std::io::Error),
}

/// The result of a bridge call.
pub type BridgeResult<T> = Result<T, BridgeError>;

impl From<jni::errors::Error> for BridgeError {
    fn from(e: jni::errors::Error) -> (r: Self) {
        BridgeError::Jni(JniError(e))
    }
}

impl vstd::std_specs::convert::FromSpecImpl<jni::errors::Error> for BridgeError {
    open spec fn obeys_from_spec() -> bool {
        true
    }

    open spec fn from_spec(e: jni::errors::Error) -> BridgeError {
        BridgeError::Jni(JniError::wrapping(e))
    }
}

/// What `<jni::errors::Error as Display>::fmt` writes for an error: the message of its
/// variant, formatted from the variant's fields alone.
pub uninterp spec fn jni_display(e: jni::errors::Error) -> Seq<char>;

/// Calls `<jni::errors::Error as Display>::fmt` through `to_string`; the text is named by
/// `jni_display`.
#[verifier::external_body]
fn jni_error_text(e: &jni::errors::Error) -> (r: String)
    ensures
        r@ == jni_display(*e),
{
    e.to_string()
}

/// Calls `<std::io::Error as Display>::fmt` through `to_string`; nothing is stated of the text.
#[verifier::external_body]
fn io_error_text(e: &std::io::Error) -> String {
    e.to_string()
}

/// The message of an error whose text is fixed by its fields alone.
pub open spec fn spec_fixed_message(e: BridgeError) -> Option<Seq<char>> {
    match e {
        BridgeError::ContextNotInitialized => Some("AndroidContext not initialized"@),
        BridgeError::VmNotAvailable => Some("JVM not available (app paused?)"@),
        BridgeError::ClassNotFound(name) => Some("Java class not found: "@ + name@),
        BridgeError::JavaException { class, message } => Some("Java exception "@ + class@ + ": "@ + message@),
        BridgeError::CallbackPanic => Some("Rust panic in JNI callback"@),
        BridgeError::NullPointer { context } => Some("Null pointer in "@ + context@),
        BridgeError::Jni(_) | BridgeError::Io(_) => None,
    }
}

/// The prefix of the message of an error that wraps another library's error.
pub open spec fn spec_message_prefix(e: BridgeError) -> Seq<char> {
    match e {
        BridgeError::Jni(_) => "JNI error: "@,
        BridgeError::Io(_) => "I/O error: "@,
        _ => Seq::empty(),
    }
}

impl BridgeError {
    /// The human-readable message of this error.
    pub fn message(&self) -> (r: String)
        ensures
            spec_fixed_message(*self) matches Some(m) ==> r@ == m,
            *self matches BridgeError::Jni(j) ==> r@ == "JNI error: "@ + jni_display(j.inner()),
            spec_fixed_message(*self) is None ==> exists|t: Seq<char>| r@ == spec_message_prefix(*self) + t,
    {
        let mut s = String::new();
        match self {
            BridgeError::ContextNotInitialized => s.append("AndroidContext not initialized"),
            BridgeError::VmNotAvailable => s.append("JVM not available (app paused?)"),
            BridgeError::ClassNotFound(name) => {
                s.append("Java class not found: ");
                s.append(name.as_str());
            },
            BridgeError::Jni(e) => {
                s.append("JNI error: ");
                let t = e.message();
                s.append(t.as_str());
                assert(s@ == spec_message_prefix(*self) + t@);
            },
            BridgeError::JavaException { class, message } => {
                s.append("Java exception ");
                s.append(class.as_str());
                s.append(": ");
                s.append(message.as_str());
            },
            BridgeError::CallbackPanic => s.append("Rust panic in JNI callback"),
            BridgeError::NullPointer { context } => {
                s.append("Null pointer in ");
                s.append(context);
            },
            BridgeError::Io(e) => {
                s.append("I/O error: ");
                let t = io_error_text(e);
                s.append(t.as_str());
                assert(s@ == spec_message_prefix(*self) + t@);
            },
        }
        s
    }

    /// Whether this is `VmNotAvailable`, the error of a backgrounded app.
    pub fn is_vm_not_available(&self) -> (r: bool)
        ensures
            r == (*self is VmNotAvailable),
    {
        matches!(self, BridgeError::VmNotAvailable)
    }
}

/// An error that is to be logged, with the tag of the place it came from.
#[derive(Debug)]
pub struct ErrorReport {
    pub tag: String,
    pub error: BridgeError,
}

/// The error of a result that is worth reporting: none for success and none for
/// `VmNotAvailable`, which only means that the app is in the background.
pub open spec fn spec_reportable<T>(r: Result<T, BridgeError>) -> Option<BridgeError> {
    match r {
        Ok(_) => None,
        Err(e) => if e is VmNotAvailable { None } else { Some(e) },
    }
}

/// Reporting of bridge results.
pub trait BridgeResultExt: Sized {
    /// The error of `self` that is to be logged.
    spec fn reportable(self) -> Option<BridgeError>;

    /// The error to log under `tag`, silently passing over `VmNotAvailable` (app is backgrounded).
    fn log_err(self, tag: &str) -> (r: Option<ErrorReport>)
        ensures
            r is None <==> self.reportable() is None,
            r matches Some(rep) ==> self.reportable() == Some(rep.error) && rep.tag@ == tag@,
    ;
}

impl<T> BridgeResultExt for Result<T, BridgeError> {
    open spec fn reportable(self) -> Option<BridgeError> {
        spec_reportable(self)
    }

    fn log_err(self, tag: &str) -> (r: Option<ErrorReport>) {
        match self {
            Ok(_) => None,
            Err(e) => if e.is_vm_not_available() {
                None
            } else {
                Some(ErrorReport { tag: String::from_str(tag), error: e })
            },
        }
    }
}

/// `log_err` reports every error except `VmNotAvailable`, and it reports it as it is:
/// success and a paused app give nothing to report, any other error is reported unchanged.
pub proof fn lemma_log_err_reports_every_other_error<T>(r: Result<T, BridgeError>)
    ensures
        r is Ok ==> r.reportable() is None,
        r matches Err(e) ==> (e is VmNotAvailable ==> r.reportable() is None),
        r matches Err(e) ==> (!(e is VmNotAvailable) ==> r.reportable() == Some(e)),
{
}

} // verus!
