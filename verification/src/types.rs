//! The types that may cross the bridge, and what each becomes on either side.
use vstd::prelude::*;
use crate::text::eq_str;

verus! {

/// Canonical representation of the types supported by the bridge.
#[derive(Debug, Clone, Copy, PartialEq, Eq, Structural)]
pub enum BridgeType {
    Bool,
    I8,
    I16,
    I32,
    I64,
    F32,
    F64,
    Char,
    /// `&str`: input-only string.
    BorrowedStr,
    /// `String`.
    OwnedString,
    /// `Option<String>`.
    OptionString,
    /// `()`: void return.
    Unit,
}

/// JNI primitive kinds, as in `jni::signature::Primitive`.
#[derive(Debug, Clone, Copy, PartialEq, Eq, Structural)]
pub enum Primitive {
    Boolean,
    Byte,
    Char,
    Short,
    Int,
    Long,
    Float,
    Double,
    Void,
}

/// JNI value kinds, as in `jni::signature::JavaType` (arrays do not cross this bridge).
#[derive(Debug, Clone, Copy, PartialEq, Eq, Structural)]
pub enum JavaType {
    Primitive(Primitive),
    Object,
}

/// How a raw JNI callback argument becomes the value handed to a Rust handler.
#[derive(Debug, Clone, Copy, PartialEq, Eq, Structural)]
pub enum CallbackConversion {
    /// `jboolean` compared against zero.
    NonZero,
    /// A numeric cast to the Rust type of the parameter.
    NumericCast,
    /// A UTF-16 unit widened to `char`, with `char::REPLACEMENT_CHARACTER` for surrogates.
    Utf16Unit,
    /// A `JString` read into an owned `String`.
    ReadString,
    /// A nullable `JString`: `None` for null, else the owned `String`.
    ReadOptionalString,
    /// Nothing is passed.
    NoValue,
}

/// How a Rust argument is handed to a Java static method.
#[derive(Debug, Clone, Copy, PartialEq, Eq, Structural)]
pub enum ArgPassing {
    /// As the JNI value of this primitive kind (`bool` as `jboolean`, `char` as its UTF-16 unit).
    Value(Primitive),
    /// As a new Java string made from the Rust string.
    NewString,
    /// As a new Java string for `Some`, as null for `None`.
    NullableString,
}

/// How the result of a Java static method becomes the Rust result.
#[derive(Debug, Clone, Copy, PartialEq, Eq, Structural)]
pub enum ResultReading {
    /// Read as the JNI value of this primitive kind (`char` from its UTF-16 unit, with
    /// `char::REPLACEMENT_CHARACTER` for surrogates; `Void` gives `()`).
    Value(Primitive),
    /// The returned `java.lang.String` read into an owned `String`.
    ReadString,
    /// `None` for a null reference, else the returned string.
    ReadOptionalString,
    /// The type cannot be a result: the generated code is a compile error.
    Refused,
}

/// The text (spaces removed) of each supported Rust type, in the order they are tried.
pub open spec fn spec_from_text(t: Seq<char>) -> Option<BridgeType> {
    if t == "bool"@ {
        Some(BridgeType::Bool)
    } else if t == "i8"@ {
        Some(BridgeType::I8)
    } else if t == "i16"@ {
        Some(BridgeType::I16)
    } else if t == "i32"@ {
        Some(BridgeType::I32)
    } else if t == "i64"@ {
        Some(BridgeType::I64)
    } else if t == "f32"@ {
        Some(BridgeType::F32)
    } else if t == "f64"@ {
        Some(BridgeType::F64)
    } else if t == "char"@ {
        Some(BridgeType::Char)
    } else if t == "&str"@ {
        Some(BridgeType::BorrowedStr)
    } else if t == "String"@ {
        Some(BridgeType::OwnedString)
    } else if t == "Option<String>"@ {
        Some(BridgeType::OptionString)
    } else if t == "()"@ {
        Some(BridgeType::Unit)
    } else {
        None
    }
}

/// Removes every space from `t`.
pub open spec fn without_spaces(t: Seq<char>) -> Seq<char>
    decreases t.len(),
{
    if t.len() == 0 {
        t
    } else if t.last() == ' ' {
        without_spaces(t.drop_last())
    } else {
        without_spaces(t.drop_last()).push(t.last())
    }
}

/// `t` without its spaces.
pub fn strip_spaces(t: &Vec<char>) -> (s: Vec<char>)
    ensures
        s@ == without_spaces(t@),
{
    let mut s: Vec<char> = Vec::new();
    let mut i: usize = 0;
    while i < t.len()
        invariant
            i <= t.len(),
            s@ == without_spaces(t@.subrange(0, i as int)),
        decreases t.len() - i,
    {
        assert(t@.subrange(0, i + 1).drop_last() =~= t@.subrange(0, i as int));
        if t[i] != ' ' {
            s.push(t[i]);
        }
        i = i + 1;
    }
    assert(t@.subrange(0, t.len() as int) =~= t@);
    s
}

impl BridgeType {
    /// JNI descriptor of this type.
    pub open spec fn spec_jni_sig(self) -> Seq<char> {
        match self {
            BridgeType::Bool => "Z"@,
            BridgeType::I8 => "B"@,
            BridgeType::I16 => "S"@,
            BridgeType::I32 => "I"@,
            BridgeType::I64 => "J"@,
            BridgeType::F32 => "F"@,
            BridgeType::F64 => "D"@,
            BridgeType::Char => "C"@,
            BridgeType::BorrowedStr | BridgeType::OwnedString | BridgeType::OptionString => "Ljava/lang/String;"@,
            BridgeType::Unit => "V"@,
        }
    }

    /// The Rust type as it is written in a generated signature.
    pub open spec fn spec_rust_name(self) -> Seq<char> {
        match self {
            BridgeType::Bool => "bool"@,
            BridgeType::I8 => "i8"@,
            BridgeType::I16 => "i16"@,
            BridgeType::I32 => "i32"@,
            BridgeType::I64 => "i64"@,
            BridgeType::F32 => "f32"@,
            BridgeType::F64 => "f64"@,
            BridgeType::Char => "char"@,
            BridgeType::BorrowedStr => "&str"@,
            BridgeType::OwnedString => "String"@,
            BridgeType::OptionString => "Option<String>"@,
            BridgeType::Unit => "()"@,
        }
    }

    /// The JNI value kind of this type.
    pub open spec fn spec_java_type(self) -> JavaType {
        match self {
            BridgeType::Bool => JavaType::Primitive(Primitive::Boolean),
            BridgeType::I8 => JavaType::Primitive(Primitive::Byte),
            BridgeType::I16 => JavaType::Primitive(Primitive::Short),
            BridgeType::I32 => JavaType::Primitive(Primitive::Int),
            BridgeType::I64 => JavaType::Primitive(Primitive::Long),
            BridgeType::F32 => JavaType::Primitive(Primitive::Float),
            BridgeType::F64 => JavaType::Primitive(Primitive::Double),
            BridgeType::Char => JavaType::Primitive(Primitive::Char),
            BridgeType::BorrowedStr | BridgeType::OwnedString | BridgeType::OptionString => JavaType::Object,
            BridgeType::Unit => JavaType::Primitive(Primitive::Void),
        }
    }

    /// The type a callback handler receives for a parameter of this type.
    pub open spec fn spec_callback_handler_type(self) -> BridgeType {
        match self {
            BridgeType::BorrowedStr | BridgeType::OwnedString => BridgeType::OwnedString,
            BridgeType::OptionString => BridgeType::OptionString,
            other => other,
        }
    }

    /// How a raw callback argument of this type is converted.
    pub open spec fn spec_callback_conversion(self) -> CallbackConversion {
        match self {
            BridgeType::Bool => CallbackConversion::NonZero,
            BridgeType::I8 | BridgeType::I16 | BridgeType::I32 | BridgeType::I64
            | BridgeType::F32 | BridgeType::F64 => CallbackConversion::NumericCast,
            BridgeType::Char => CallbackConversion::Utf16Unit,
            BridgeType::BorrowedStr | BridgeType::OwnedString => CallbackConversion::ReadString,
            BridgeType::OptionString => CallbackConversion::ReadOptionalString,
            BridgeType::Unit => CallbackConversion::NoValue,
        }
    }

    /// How an argument of this type is passed.
    pub open spec fn spec_arg_passing(self) -> ArgPassing {
        match self {
            BridgeType::Bool => ArgPassing::Value(Primitive::Boolean),
            BridgeType::I8 => ArgPassing::Value(Primitive::Byte),
            BridgeType::I16 => ArgPassing::Value(Primitive::Short),
            BridgeType::I32 => ArgPassing::Value(Primitive::Int),
            BridgeType::I64 => ArgPassing::Value(Primitive::Long),
            BridgeType::F32 => ArgPassing::Value(Primitive::Float),
            BridgeType::F64 => ArgPassing::Value(Primitive::Double),
            BridgeType::Char => ArgPassing::Value(Primitive::Char),
            BridgeType::BorrowedStr | BridgeType::OwnedString => ArgPassing::NewString,
            BridgeType::OptionString => ArgPassing::NullableString,
            BridgeType::Unit => ArgPassing::Value(Primitive::Void),
        }
    }

    /// How a result of this type is read.
    pub open spec fn spec_result_reading(self) -> ResultReading {
        match self {
            BridgeType::Bool => ResultReading::Value(Primitive::Boolean),
            BridgeType::I8 => ResultReading::Value(Primitive::Byte),
            BridgeType::I16 => ResultReading::Value(Primitive::Short),
            BridgeType::I32 => ResultReading::Value(Primitive::Int),
            BridgeType::I64 => ResultReading::Value(Primitive::Long),
            BridgeType::F32 => ResultReading::Value(Primitive::Float),
            BridgeType::F64 => ResultReading::Value(Primitive::Double),
            BridgeType::Char => ResultReading::Value(Primitive::Char),
            BridgeType::BorrowedStr => ResultReading::Refused,
            BridgeType::OwnedString => ResultReading::ReadString,
            BridgeType::OptionString => ResultReading::ReadOptionalString,
            BridgeType::Unit => ResultReading::Value(Primitive::Void),
        }
    }

    /// Whether this type may be the result of a bridged static method.
    pub open spec fn spec_is_return_type(self) -> bool {
        self != BridgeType::BorrowedStr
    }

    /// Reads a type from its text, as the macro sees it: spaces are dropped first.
    pub fn from_text(t: &Vec<char>) -> (r: Option<BridgeType>)
        ensures
            r == spec_from_text(without_spaces(t@)),
    {
        let s = strip_spaces(t);
        Self::from_compact_text(&s)
    }

    /// Reads a type from its text with spaces already removed.
    pub fn from_compact_text(s: &Vec<char>) -> (r: Option<BridgeType>)
        ensures
            r == spec_from_text(s@),
    {
        if eq_str(s, "bool") {
            Some(BridgeType::Bool)
        } else if eq_str(s, "i8") {
            Some(BridgeType::I8)
        } else if eq_str(s, "i16") {
            Some(BridgeType::I16)
        } else if eq_str(s, "i32") {
            Some(BridgeType::I32)
        } else if eq_str(s, "i64") {
            Some(BridgeType::I64)
        } else if eq_str(s, "f32") {
            Some(BridgeType::F32)
        } else if eq_str(s, "f64") {
            Some(BridgeType::F64)
        } else if eq_str(s, "char") {
            Some(BridgeType::Char)
        } else if eq_str(s, "&str") {
            Some(BridgeType::BorrowedStr)
        } else if eq_str(s, "String") {
            Some(BridgeType::OwnedString)
        } else if eq_str(s, "Option<String>") {
            Some(BridgeType::OptionString)
        } else if eq_str(s, "()") {
            Some(BridgeType::Unit)
        } else {
            None
        }
    }

    /// JNI descriptor character(s) for this type.
    pub fn jni_sig_char(&self) -> (r: &'static str)
        ensures
            r@ == self.spec_jni_sig(),
    {
        match self {
            BridgeType::Bool => "Z",
            BridgeType::I8 => "B",
            BridgeType::I16 => "S",
            BridgeType::I32 => "I",
            BridgeType::I64 => "J",
            BridgeType::F32 => "F",
            BridgeType::F64 => "D",
            BridgeType::Char => "C",
            BridgeType::BorrowedStr | BridgeType::OwnedString | BridgeType::OptionString => "Ljava/lang/String;",
            BridgeType::Unit => "V",
        }
    }

    /// The Rust type of this bridge type, as written in a generated signature.
    pub fn rust_type_name(&self) -> (r: &'static str)
        ensures
            r@ == self.spec_rust_name(),
    {
        match self {
            BridgeType::Bool => "bool",
            BridgeType::I8 => "i8",
            BridgeType::I16 => "i16",
            BridgeType::I32 => "i32",
            BridgeType::I64 => "i64",
            BridgeType::F32 => "f32",
            BridgeType::F64 => "f64",
            BridgeType::Char => "char",
            BridgeType::BorrowedStr => "&str",
            BridgeType::OwnedString => "String",
            BridgeType::OptionString => "Option<String>",
            BridgeType::Unit => "()",
        }
    }

    /// The JNI value kind used in method signatures (arguments and return).
    pub fn java_type(&self) -> (r: JavaType)
        ensures
            r == self.spec_java_type(),
    {
        match self {
            BridgeType::Bool => JavaType::Primitive(Primitive::Boolean),
            BridgeType::I8 => JavaType::Primitive(Primitive::Byte),
            BridgeType::I16 => JavaType::Primitive(Primitive::Short),
            BridgeType::I32 => JavaType::Primitive(Primitive::Int),
            BridgeType::I64 => JavaType::Primitive(Primitive::Long),
            BridgeType::F32 => JavaType::Primitive(Primitive::Float),
            BridgeType::F64 => JavaType::Primitive(Primitive::Double),
            BridgeType::Char => JavaType::Primitive(Primitive::Char),
            BridgeType::BorrowedStr | BridgeType::OwnedString | BridgeType::OptionString => JavaType::Object,
            BridgeType::Unit => JavaType::Primitive(Primitive::Void),
        }
    }

    /// The JNI value kind of a method's result (the same mapping as for arguments).
    pub fn return_type(&self) -> (r: JavaType)
        ensures
            r == self.spec_java_type(),
    {
        self.java_type()
    }

    /// The Rust type a callback handler receives for a parameter of this type:
    /// strings are always delivered owned.
    pub fn callback_handler_type(&self) -> (r: BridgeType)
        ensures
            r == self.spec_callback_handler_type(),
    {
        match self {
            BridgeType::BorrowedStr | BridgeType::OwnedString => BridgeType::OwnedString,
            BridgeType::OptionString => BridgeType::OptionString,
            other => *other,
        }
    }

    /// How a raw callback argument of this type becomes the handler's value.
    pub fn callback_conversion(&self) -> (r: CallbackConversion)
        ensures
            r == self.spec_callback_conversion(),
    {
        match self {
            BridgeType::Bool => CallbackConversion::NonZero,
            BridgeType::I8 | BridgeType::I16 | BridgeType::I32 | BridgeType::I64
            | BridgeType::F32 | BridgeType::F64 => CallbackConversion::NumericCast,
            BridgeType::Char => CallbackConversion::Utf16Unit,
            BridgeType::BorrowedStr | BridgeType::OwnedString => CallbackConversion::ReadString,
            BridgeType::OptionString => CallbackConversion::ReadOptionalString,
            BridgeType::Unit => CallbackConversion::NoValue,
        }
    }

    /// How an argument of this type is handed to a Java static method.
    pub fn arg_passing(&self) -> (r: ArgPassing)
        ensures
            r == self.spec_arg_passing(),
    {
        match self {
            BridgeType::Bool => ArgPassing::Value(Primitive::Boolean),
            BridgeType::I8 => ArgPassing::Value(Primitive::Byte),
            BridgeType::I16 => ArgPassing::Value(Primitive::Short),
            BridgeType::I32 => ArgPassing::Value(Primitive::Int),
            BridgeType::I64 => ArgPassing::Value(Primitive::Long),
            BridgeType::F32 => ArgPassing::Value(Primitive::Float),
            BridgeType::F64 => ArgPassing::Value(Primitive::Double),
            BridgeType::Char => ArgPassing::Value(Primitive::Char),
            BridgeType::BorrowedStr | BridgeType::OwnedString => ArgPassing::NewString,
            BridgeType::OptionString => ArgPassing::NullableString,
            BridgeType::Unit => ArgPassing::Value(Primitive::Void),
        }
    }

    /// How a Java result of this type becomes the Rust result.
    pub fn result_reading(&self) -> (r: ResultReading)
        ensures
            r == self.spec_result_reading(),
    {
        match self {
            BridgeType::Bool => ResultReading::Value(Primitive::Boolean),
            BridgeType::I8 => ResultReading::Value(Primitive::Byte),
            BridgeType::I16 => ResultReading::Value(Primitive::Short),
            BridgeType::I32 => ResultReading::Value(Primitive::Int),
            BridgeType::I64 => ResultReading::Value(Primitive::Long),
            BridgeType::F32 => ResultReading::Value(Primitive::Float),
            BridgeType::F64 => ResultReading::Value(Primitive::Double),
            BridgeType::Char => ResultReading::Value(Primitive::Char),
            BridgeType::BorrowedStr => ResultReading::Refused,
            BridgeType::OwnedString => ResultReading::ReadString,
            BridgeType::OptionString => ResultReading::ReadOptionalString,
            BridgeType::Unit => ResultReading::Value(Primitive::Void),
        }
    }

    /// Whether a value of this type can be returned from Java (`&str` cannot).
    pub fn is_return_type(&self) -> (r: bool)
        ensures
            r == self.spec_is_return_type(),
    {
        !matches!(self, BridgeType::BorrowedStr)
    }
}

/// Every bridge type is read back from the Rust type that the generated code writes for it.
pub proof fn lemma_rust_name_reads_back(t: BridgeType)
    ensures
        spec_from_text(t.spec_rust_name()) == Some(t),
{
    reveal_strlit("bool");
    reveal_strlit("i8");
    reveal_strlit("i16");
    reveal_strlit("i32");
    reveal_strlit("i64");
    reveal_strlit("f32");
    reveal_strlit("f64");
    reveal_strlit("char");
    reveal_strlit("&str");
    reveal_strlit("String");
    reveal_strlit("Option<String>");
    reveal_strlit("()");
    assert("i32"@[1] != "i16"@[1]);
    assert("i64"@[1] != "i16"@[1]);
    assert("i64"@[1] != "i32"@[1]);
    assert("f32"@[0] != "i16"@[0]);
    assert("f32"@[0] != "i32"@[0]);
    assert("f32"@[0] != "i64"@[0]);
    assert("f64"@[0] != "i16"@[0]);
    assert("f64"@[0] != "i32"@[0]);
    assert("f64"@[0] != "i64"@[0]);
    assert("f64"@[1] != "f32"@[1]);
    assert("char"@[0] != "bool"@[0]);
    assert("&str"@[0] != "bool"@[0]);
    assert("&str"@[0] != "char"@[0]);
    assert("()"@[0] != "i8"@[0]);
    match t {
        BridgeType::Bool => {
            assert(spec_from_text("bool"@) == Some(BridgeType::Bool));
        }
        BridgeType::I8 => {
            assert(spec_from_text("i8"@) == Some(BridgeType::I8));
        }
        BridgeType::I16 => {
            assert(spec_from_text("i16"@) == Some(BridgeType::I16));
        }
        BridgeType::I32 => {
            assert(spec_from_text("i32"@) == Some(BridgeType::I32));
        }
        BridgeType::I64 => {
            assert(spec_from_text("i64"@) == Some(BridgeType::I64));
        }
        BridgeType::F32 => {
            assert(spec_from_text("f32"@) == Some(BridgeType::F32));
        }
        BridgeType::F64 => {
            assert(spec_from_text("f64"@) == Some(BridgeType::F64));
        }
        BridgeType::Char => {
            assert(spec_from_text("char"@) == Some(BridgeType::Char));
        }
        BridgeType::BorrowedStr => {
            assert(spec_from_text("&str"@) == Some(BridgeType::BorrowedStr));
        }
        BridgeType::OwnedString => {
            assert(spec_from_text("String"@) == Some(BridgeType::OwnedString));
        }
        BridgeType::OptionString => {
            assert("Option<String>"@.len() == 14);
            assert(spec_from_text("Option<String>"@) == Some(BridgeType::OptionString));
        }
        BridgeType::Unit => {
            assert(spec_from_text("()"@) == Some(BridgeType::Unit));
        }
    }
}

/// A callback handler never receives a borrowed string, and what it receives has the
/// same JNI descriptor as the declared parameter.
pub proof fn lemma_handler_type_is_owned(t: BridgeType)
    ensures
        t.spec_callback_handler_type() != BridgeType::BorrowedStr,
        t.spec_callback_handler_type().spec_jni_sig() == t.spec_jni_sig(),
        t.spec_callback_handler_type().spec_java_type() == t.spec_java_type(),
{
}

/// The JNI descriptor and the JNI value kind of a bridge type agree: two types have the
/// same descriptor exactly when they have the same kind, strings are the objects, and a
/// primitive's descriptor is one character.
pub proof fn lemma_descriptor_matches_java_type(t: BridgeType, u: BridgeType)
    ensures
        (t.spec_jni_sig() == u.spec_jni_sig()) <==> (t.spec_java_type() == u.spec_java_type()),
        (t.spec_java_type() is Object) <==> t.spec_jni_sig() == "Ljava/lang/String;"@,
        (t.spec_java_type() is Primitive) ==> t.spec_jni_sig().len() == 1,
{
    reveal_strlit("Z");
    reveal_strlit("B");
    reveal_strlit("S");
    reveal_strlit("I");
    reveal_strlit("J");
    reveal_strlit("F");
    reveal_strlit("D");
    reveal_strlit("C");
    reveal_strlit("V");
    reveal_strlit("Ljava/lang/String;");
    assert("Ljava/lang/String;"@.len() == 18);
    if t.spec_jni_sig() == u.spec_jni_sig() {
        assert(t.spec_jni_sig().len() == u.spec_jni_sig().len());
        assert(t.spec_jni_sig()[0] == u.spec_jni_sig()[0]);
    }
}

/// Arguments and results travel as the kind the descriptor declares: a type of primitive
/// kind is passed and read as a value of that kind, a string type is passed as a Java
/// string, and exactly the types that cannot be results are refused as results.
pub proof fn lemma_values_match_descriptor(t: BridgeType)
    ensures
        t.spec_java_type() matches JavaType::Primitive(p) ==> t.spec_arg_passing() == ArgPassing::Value(p),
        t.spec_java_type() is Object ==> (t.spec_arg_passing() is NewString || t.spec_arg_passing() is NullableString),
        t.spec_java_type() matches JavaType::Primitive(p) ==> (t.spec_is_return_type() ==> t.spec_result_reading() == ResultReading::Value(p)),
        t.spec_is_return_type() && t.spec_java_type() is Object ==> (t.spec_result_reading() is ReadString || t.spec_result_reading() is ReadOptionalString),
        !t.spec_is_return_type() <==> t.spec_result_reading() is Refused,
        t.spec_arg_passing() is NullableString <==> t.spec_result_reading() is ReadOptionalString,
{
}

/// A callback handler receives the declared type of each parameter, except that a borrowed
/// string is delivered as an owned `String`: a `String` stays a `String`, an
/// `Option<String>` stays optional, and every other type is handed over as declared.
pub proof fn lemma_handler_receives_declared_type(t: BridgeType)
    ensures
        t != BridgeType::BorrowedStr ==> t.spec_callback_handler_type() == t,
        BridgeType::BorrowedStr.spec_callback_handler_type() == BridgeType::OwnedString,
        BridgeType::OwnedString.spec_callback_handler_type() == BridgeType::OwnedString,
{
}

/// How each raw callback argument is converted, by the kind of its type: only `bool` is
/// compared against zero, exactly the six numeric types are cast, `char` is widened from
/// its UTF-16 unit, the two plain string types are read, `Option<String>` is read as
/// nullable, and `()` passes nothing.
pub proof fn lemma_callback_conversion_by_kind(t: BridgeType)
    ensures
        (t.spec_callback_conversion() is NonZero) <==> t == BridgeType::Bool,
        (t.spec_callback_conversion() is NumericCast) <==> (t == BridgeType::I8 || t == BridgeType::I16
            || t == BridgeType::I32 || t == BridgeType::I64 || t == BridgeType::F32 || t == BridgeType::F64),
        (t.spec_callback_conversion() is Utf16Unit) <==> t == BridgeType::Char,
        (t.spec_callback_conversion() is ReadString) <==> (t == BridgeType::BorrowedStr || t == BridgeType::OwnedString),
        (t.spec_callback_conversion() is ReadOptionalString) <==> t == BridgeType::OptionString,
        (t.spec_callback_conversion() is NoValue) <==> t == BridgeType::Unit,
{
}

/// Each type travels as the JNI primitive its descriptor names: `Z` is a boolean, `B` a
/// byte, `S` a short, `I` an int, `J` a long, `F` a float, `D` a double, `C` a char, `V`
/// void, and the string descriptor an object. The JNI kind, the way an argument is passed
/// and the way a result is read all follow the descriptor.
pub proof fn lemma_kind_named_by_descriptor(t: BridgeType)
    ensures
        t.spec_jni_sig() == "Z"@ <==> t.spec_java_type() == JavaType::Primitive(Primitive::Boolean),
        t.spec_jni_sig() == "B"@ <==> t.spec_java_type() == JavaType::Primitive(Primitive::Byte),
        t.spec_jni_sig() == "S"@ <==> t.spec_java_type() == JavaType::Primitive(Primitive::Short),
        t.spec_jni_sig() == "I"@ <==> t.spec_java_type() == JavaType::Primitive(Primitive::Int),
        t.spec_jni_sig() == "J"@ <==> t.spec_java_type() == JavaType::Primitive(Primitive::Long),
        t.spec_jni_sig() == "F"@ <==> t.spec_java_type() == JavaType::Primitive(Primitive::Float),
        t.spec_jni_sig() == "D"@ <==> t.spec_java_type() == JavaType::Primitive(Primitive::Double),
        t.spec_jni_sig() == "C"@ <==> t.spec_java_type() == JavaType::Primitive(Primitive::Char),
        t.spec_jni_sig() == "V"@ <==> t.spec_java_type() == JavaType::Primitive(Primitive::Void),
        t.spec_jni_sig() == "Ljava/lang/String;"@ <==> t.spec_java_type() == JavaType::Object,
        t.spec_java_type() matches JavaType::Primitive(p) ==> t.spec_arg_passing() == ArgPassing::Value(p),
        t.spec_java_type() matches JavaType::Primitive(p) ==> t.spec_result_reading() == ResultReading::Value(p),
{
    reveal_strlit("Z");
    reveal_strlit("B");
    reveal_strlit("S");
    reveal_strlit("I");
    reveal_strlit("J");
    reveal_strlit("F");
    reveal_strlit("D");
    reveal_strlit("C");
    reveal_strlit("V");
    reveal_strlit("Ljava/lang/String;");
    assert("Ljava/lang/String;"@.len() == 18);
    let d = t.spec_jni_sig();
    assert(d == "Z"@ ==> d[0] == 'Z');
    assert(d == "B"@ ==> d[0] == 'B');
    assert(d == "S"@ ==> d[0] == 'S');
    assert(d == "I"@ ==> d[0] == 'I');
    assert(d == "J"@ ==> d[0] == 'J');
    assert(d == "F"@ ==> d[0] == 'F');
    assert(d == "D"@ ==> d[0] == 'D');
    assert(d == "C"@ ==> d[0] == 'C');
    assert(d == "V"@ ==> d[0] == 'V');
}

/// Each Rust type is written with the descriptor of its JNI primitive: `bool` is `Z`, `i8`
/// `B`, `i16` `S`, `i32` `I`, `i64` `J`, `f32` `F`, `f64` `D`, `char` `C`, `()` `V`, and the
/// three string types `Ljava/lang/String;`.
pub proof fn lemma_descriptor_of_rust_type(t: BridgeType)
    ensures
        t.spec_rust_name() == "bool"@ ==> t.spec_jni_sig() == "Z"@,
        t.spec_rust_name() == "i8"@ ==> t.spec_jni_sig() == "B"@,
        t.spec_rust_name() == "i16"@ ==> t.spec_jni_sig() == "S"@,
        t.spec_rust_name() == "i32"@ ==> t.spec_jni_sig() == "I"@,
        t.spec_rust_name() == "i64"@ ==> t.spec_jni_sig() == "J"@,
        t.spec_rust_name() == "f32"@ ==> t.spec_jni_sig() == "F"@,
        t.spec_rust_name() == "f64"@ ==> t.spec_jni_sig() == "D"@,
        t.spec_rust_name() == "char"@ ==> t.spec_jni_sig() == "C"@,
        t.spec_rust_name() == "()"@ ==> t.spec_jni_sig() == "V"@,
        (t.spec_rust_name() == "&str"@ || t.spec_rust_name() == "String"@ || t.spec_rust_name() == "Option<String>"@)
            ==> t.spec_jni_sig() == "Ljava/lang/String;"@,
{
    // The accepted text of each type is its Rust name, and text decides the type.
    lemma_rust_name_reads_back(t);
    reveal_strlit("bool");
    reveal_strlit("i8");
    reveal_strlit("i16");
    reveal_strlit("i32");
    reveal_strlit("i64");
    reveal_strlit("f32");
    reveal_strlit("f64");
    reveal_strlit("char");
    reveal_strlit("&str");
    reveal_strlit("String");
    reveal_strlit("Option<String>");
    reveal_strlit("()");
    assert("i32"@[1] != "i16"@[1]);
    assert("i64"@[1] != "i16"@[1]);
    assert("i64"@[1] != "i32"@[1]);
    assert("f32"@[0] != "i16"@[0]);
    assert("f32"@[0] != "i32"@[0]);
    assert("f32"@[0] != "i64"@[0]);
    assert("f64"@[0] != "i16"@[0]);
    assert("f64"@[0] != "i32"@[0]);
    assert("f64"@[0] != "i64"@[0]);
    assert("f64"@[1] != "f32"@[1]);
    assert("char"@[0] != "bool"@[0]);
    assert("&str"@[0] != "bool"@[0]);
    assert("&str"@[0] != "char"@[0]);
    assert("()"@[0] != "i8"@[0]);
    assert("Option<String>"@.len() == 14);
}

/// Only a supported type's own Rust name is read as that type: whatever text is accepted
/// is exactly the Rust name of the type it is read as.
pub proof fn lemma_only_own_name_is_read(s: Seq<char>)
    ensures
        spec_from_text(s) matches Some(t) ==> s == t.spec_rust_name(),
{
}

} // verus!
