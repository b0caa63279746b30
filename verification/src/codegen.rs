//! The plan of the code that `android_bridge!` generates for each bridged class.
//!
//! For every class the plan fixes the names of the generated items, the Java
//! method each static method calls, the JNI signatures, and the types and
//! conversions of every parameter; the tokens themselves are written from it.
use vstd::prelude::*;
use crate::parse::{
    BridgeBlock, BridgeBlockV, BridgeClass, BridgeClassV, BridgeMethod, BridgeMethodV,
    CallbackMethod, CallbackMethodV, MethodParam, StaticMethod, StaticMethodV, TypeSpan,
    classes_view, methods_view,
};
use crate::text::{append_chars, append_str, copy_chars, string_of, lower_camel, lowercase, to_lower_camel, to_lowercase, to_uppercase, uppercase};
use crate::tokens::{Tok, lit_str, lit_str_at, span_text, span_text_of};
use crate::types::{BridgeType, spec_from_text, strip_spaces, without_spaces};

verus! {

/// Why no code can be generated for a block.
#[derive(Debug, Clone, Copy, PartialEq, Eq, Structural)]
pub enum PlanError {
    /// Tokens `start .. end` name a type that cannot cross the bridge.
    UnsupportedType { start: usize, end: usize },
    /// The `#[java_name("...")]` string at token `at` holds a NUL character.
    NulInJavaName { at: usize },
}

/// A parameter of a generated function: its name's token and its bridge type.
#[derive(Debug, Clone, Copy, PartialEq, Eq, Structural)]
pub struct ParamPlan {
    pub name: usize,
    pub ty: BridgeType,
}

/// The plan of one Rust function that calls a Java static method.
#[derive(Debug)]
pub struct StaticPlan {
    /// Token of the Rust name.
    pub rust_name: usize,
    /// The Java method called.
    pub java_name: Vec<char>,
    /// The Activity is not passed as first argument.
    pub no_activity: bool,
    pub params: Vec<ParamPlan>,
    pub ret: BridgeType,
    /// JNI method descriptor.
    pub signature: Vec<char>,
}

/// The plan of one callback that Java calls into Rust.
#[derive(Debug)]
pub struct CallbackPlan {
    /// Token of the Rust name.
    pub rust_name: usize,
    /// The name the native method is registered under.
    pub java_name: Vec<char>,
    pub params: Vec<ParamPlan>,
    pub ret: BridgeType,
    /// JNI method descriptor of the native method.
    pub signature: Vec<char>,
    /// Name of the generated `extern "system"` function.
    pub extern_fn: Vec<char>,
    /// Name of the static that holds the handler.
    pub handler: Vec<char>,
    /// Name of the generated handler setter.
    pub setter: Vec<char>,
}

/// The plan of one bridged class.
#[derive(Debug)]
pub struct ClassPlan {
    /// Token of the Rust name.
    pub rust_name: usize,
    /// The Java class name, as written in `java_name`.
    pub java_class: Vec<char>,
    /// Name of the hidden module that holds the class's statics.
    pub module: Vec<char>,
    pub statics: Vec<StaticPlan>,
    pub callbacks: Vec<CallbackPlan>,
}

/// The plan of everything a block generates.
#[derive(Debug)]
pub struct BridgePlan {
    /// Tokens `dex_start .. dex_end` are the DEX expression.
    pub dex_start: usize,
    pub dex_end: usize,
    pub classes: Vec<ClassPlan>,
}

/// Model of a static method plan.
pub struct StaticPlanV {
    pub rust_name: usize,
    pub java_name: Seq<char>,
    pub no_activity: bool,
    pub params: Seq<ParamPlan>,
    pub ret: BridgeType,
    pub signature: Seq<char>,
}

/// Model of a callback plan.
pub struct CallbackPlanV {
    pub rust_name: usize,
    pub java_name: Seq<char>,
    pub params: Seq<ParamPlan>,
    pub ret: BridgeType,
    pub signature: Seq<char>,
    pub extern_fn: Seq<char>,
    pub handler: Seq<char>,
    pub setter: Seq<char>,
}

/// Model of a class plan.
pub struct ClassPlanV {
    pub rust_name: usize,
    pub java_class: Seq<char>,
    pub module: Seq<char>,
    pub statics: Seq<StaticPlanV>,
    pub callbacks: Seq<CallbackPlanV>,
}

/// Model of a block plan.
pub struct BridgePlanV {
    pub dex_start: usize,
    pub dex_end: usize,
    pub classes: Seq<ClassPlanV>,
}

impl View for StaticPlan {
    type V = StaticPlanV;

    open spec fn view(&self) -> StaticPlanV {
        StaticPlanV {
            rust_name: self.rust_name,
            java_name: self.java_name@,
            no_activity: self.no_activity,
            params: self.params@,
            ret: self.ret,
            signature: self.signature@,
        }
    }
}

impl View for CallbackPlan {
    type V = CallbackPlanV;

    open spec fn view(&self) -> CallbackPlanV {
        CallbackPlanV {
            rust_name: self.rust_name,
            java_name: self.java_name@,
            params: self.params@,
            ret: self.ret,
            signature: self.signature@,
            extern_fn: self.extern_fn@,
            handler: self.handler@,
            setter: self.setter@,
        }
    }
}

/// The models of a sequence of static plans.
pub open spec fn statics_view(s: Seq<StaticPlan>) -> Seq<StaticPlanV> {
    s.map_values(|p: StaticPlan| p@)
}

/// The models of a sequence of callback plans.
pub open spec fn callbacks_view(s: Seq<CallbackPlan>) -> Seq<CallbackPlanV> {
    s.map_values(|p: CallbackPlan| p@)
}

impl View for ClassPlan {
    type V = ClassPlanV;

    open spec fn view(&self) -> ClassPlanV {
        ClassPlanV {
            rust_name: self.rust_name,
            java_class: self.java_class@,
            module: self.module@,
            statics: statics_view(self.statics@),
            callbacks: callbacks_view(self.callbacks@),
        }
    }
}

/// The models of a sequence of class plans.
pub open spec fn class_plans_view(s: Seq<ClassPlan>) -> Seq<ClassPlanV> {
    s.map_values(|p: ClassPlan| p@)
}

impl View for BridgePlan {
    type V = BridgePlanV;

    open spec fn view(&self) -> BridgePlanV {
        BridgePlanV { dex_start: self.dex_start, dex_end: self.dex_end, classes: class_plans_view(self.classes@) }
    }
}

// ---- What the plan is ----------------------------------------------------------

/// The text of the identifier at token `i` (empty when there is none).
pub open spec fn ident_text(toks: Seq<Tok>, i: usize) -> Seq<char> {
    if i < toks.len() {
        match toks[i as int] {
            Tok::Ident { text } => text@,
            _ => Seq::empty(),
        }
    } else {
        Seq::empty()
    }
}

/// The value of the string literal at token `i` (empty when there is none).
pub open spec fn lit_value(toks: Seq<Tok>, i: usize) -> Seq<char> {
    match lit_str(toks, i as int) {
        Some(v) => v,
        None => Seq::empty(),
    }
}

/// The bridge type written in tokens `start .. end`: their text, spaces removed.
pub open spec fn type_of(toks: Seq<Tok>, start: usize, end: usize) -> Option<BridgeType> {
    spec_from_text(without_spaces(span_text(toks, start as int, end as int)))
}

/// The bridge types of the parameters; the first unsupported one is the error.
pub open spec fn spec_param_plans(toks: Seq<Tok>, ps: Seq<MethodParam>) -> Result<Seq<ParamPlan>, PlanError>
    decreases ps.len(),
{
    if ps.len() == 0 {
        Ok(Seq::empty())
    } else {
        match spec_param_plans(toks, ps.drop_last()) {
            Err(e) => Err(e),
            Ok(r) => match type_of(toks, ps.last().ty_start, ps.last().ty_end) {
                None => Err(PlanError::UnsupportedType { start: ps.last().ty_start, end: ps.last().ty_end }),
                Some(t) => Ok(r.push(ParamPlan { name: ps.last().name, ty: t })),
            },
        }
    }
}

/// The JNI descriptors of the parameters, one after the other.
pub open spec fn params_sig(ps: Seq<ParamPlan>) -> Seq<char>
    decreases ps.len(),
{
    if ps.len() == 0 {
        Seq::empty()
    } else {
        params_sig(ps.drop_last()) + ps.last().ty.spec_jni_sig()
    }
}

/// The result type written after `->`, `()` when none is.
pub open spec fn spec_ret_type(toks: Seq<Tok>, ret: Option<TypeSpan>) -> Result<BridgeType, PlanError> {
    match ret {
        None => Ok(BridgeType::Unit),
        Some(sp) => match type_of(toks, sp.start, sp.end) {
            None => Err(PlanError::UnsupportedType { start: sp.start, end: sp.end }),
            Some(t) => Ok(t),
        },
    }
}

/// The JNI descriptor of the Activity, the first argument of a static method unless
/// `#[no_activity]` is given.
pub open spec fn activity_sig() -> Seq<char> {
    "Landroid/app/Activity;"@
}

/// The descriptor of a bridged static method.
pub open spec fn static_signature(no_activity: bool, ps: Seq<ParamPlan>, ret: BridgeType) -> Seq<char> {
    "("@ + (if no_activity { Seq::empty() } else { activity_sig() }) + params_sig(ps) + ")"@ + ret.spec_jni_sig()
}

/// The descriptor of a native callback method.
pub open spec fn callback_signature(ps: Seq<ParamPlan>, ret: BridgeType) -> Seq<char> {
    "("@ + params_sig(ps) + ")"@ + ret.spec_jni_sig()
}

/// The Java method a static method calls: the `#[java_name]` string, else the
/// lowerCamelCase form of the Rust name.
pub open spec fn spec_static_java_name(toks: Seq<Tok>, m: StaticMethodV) -> Result<Seq<char>, PlanError> {
    match m.java_name_override {
        Some(t) => if lit_value(toks, t).contains('\0') {
            Err(PlanError::NulInJavaName { at: t })
        } else {
            Ok(lit_value(toks, t))
        },
        None => Ok(lower_camel(ident_text(toks, m.rust_name))),
    }
}

/// The plan of a static method.
pub open spec fn spec_static_plan(toks: Seq<Tok>, m: StaticMethodV) -> Result<StaticPlanV, PlanError> {
    match spec_static_java_name(toks, m) {
        Err(e) => Err(e),
        Ok(jn) => match spec_ret_type(toks, m.ret_ty) {
            Err(e) => Err(e),
            Ok(ret) => match spec_param_plans(toks, m.params) {
                Err(e) => Err(e),
                Ok(ps) => Ok(StaticPlanV {
                    rust_name: m.rust_name,
                    java_name: jn,
                    no_activity: m.no_activity,
                    params: ps,
                    ret,
                    signature: static_signature(m.no_activity, ps, ret),
                }),
            },
        },
    }
}

/// The static methods of a class, in order.
pub open spec fn statics_of(ms: Seq<BridgeMethodV>) -> Seq<StaticMethodV>
    decreases ms.len(),
{
    if ms.len() == 0 {
        Seq::empty()
    } else {
        match ms.last() {
            BridgeMethodV::Static(s) => statics_of(ms.drop_last()).push(s),
            BridgeMethodV::Callback(_) => statics_of(ms.drop_last()),
        }
    }
}

/// The callback methods of a class, in order.
pub open spec fn callbacks_of(ms: Seq<BridgeMethodV>) -> Seq<CallbackMethodV>
    decreases ms.len(),
{
    if ms.len() == 0 {
        Seq::empty()
    } else {
        match ms.last() {
            BridgeMethodV::Static(_) => callbacks_of(ms.drop_last()),
            BridgeMethodV::Callback(c) => callbacks_of(ms.drop_last()).push(c),
        }
    }
}

/// The plans of the static methods; the first failure is the error.
pub open spec fn spec_static_plans(toks: Seq<Tok>, ms: Seq<StaticMethodV>) -> Result<Seq<StaticPlanV>, PlanError>
    decreases ms.len(),
{
    if ms.len() == 0 {
        Ok(Seq::empty())
    } else {
        match spec_static_plans(toks, ms.drop_last()) {
            Err(e) => Err(e),
            Ok(r) => match spec_static_plan(toks, ms.last()) {
                Err(e) => Err(e),
                Ok(p) => Ok(r.push(p)),
            },
        }
    }
}

/// The parameter types of every callback, callback after callback.
pub open spec fn spec_callback_params(toks: Seq<Tok>, cs: Seq<CallbackMethodV>) -> Result<Seq<Seq<ParamPlan>>, PlanError>
    decreases cs.len(),
{
    if cs.len() == 0 {
        Ok(Seq::empty())
    } else {
        match spec_callback_params(toks, cs.drop_last()) {
            Err(e) => Err(e),
            Ok(r) => match spec_param_plans(toks, cs.last().params) {
                Err(e) => Err(e),
                Ok(ps) => Ok(r.push(ps)),
            },
        }
    }
}

/// The result types of every callback.
pub open spec fn spec_callback_rets(toks: Seq<Tok>, cs: Seq<CallbackMethodV>) -> Result<Seq<BridgeType>, PlanError>
    decreases cs.len(),
{
    if cs.len() == 0 {
        Ok(Seq::empty())
    } else {
        match spec_callback_rets(toks, cs.drop_last()) {
            Err(e) => Err(e),
            Ok(r) => match spec_ret_type(toks, cs.last().ret_ty) {
                Err(e) => Err(e),
                Ok(t) => Ok(r.push(t)),
            },
        }
    }
}

/// The plan of a callback of the class whose lowercased name is `class_lower`.
pub open spec fn callback_plan(toks: Seq<Tok>, class_lower: Seq<char>, c: CallbackMethodV, ps: Seq<ParamPlan>, ret: BridgeType) -> CallbackPlanV {
    let name = ident_text(toks, c.rust_name);
    CallbackPlanV {
        rust_name: c.rust_name,
        java_name: lower_camel(name),
        params: ps,
        ret,
        signature: callback_signature(ps, ret),
        extern_fn: "__"@ + class_lower + "_"@ + name + "_native"@,
        handler: "HANDLER_"@ + uppercase(name),
        setter: "set_"@ + name,
    }
}

/// The plans of the callbacks. Every parameter type is checked before any result type.
pub open spec fn spec_callback_plans(toks: Seq<Tok>, class_lower: Seq<char>, cs: Seq<CallbackMethodV>) -> Result<Seq<CallbackPlanV>, PlanError> {
    match spec_callback_params(toks, cs) {
        Err(e) => Err(e),
        Ok(pss) => match spec_callback_rets(toks, cs) {
            Err(e) => Err(e),
            Ok(rets) => Ok(Seq::new(cs.len(), |i: int| callback_plan(toks, class_lower, cs[i], pss[i], rets[i]))),
        },
    }
}

/// The plan of a class: its callbacks are checked before its static methods.
pub open spec fn spec_class_plan(toks: Seq<Tok>, c: BridgeClassV) -> Result<ClassPlanV, PlanError> {
    let lower = lowercase(ident_text(toks, c.rust_name));
    match spec_callback_plans(toks, lower, callbacks_of(c.methods)) {
        Err(e) => Err(e),
        Ok(cbs) => match spec_static_plans(toks, statics_of(c.methods)) {
            Err(e) => Err(e),
            Ok(sts) => Ok(ClassPlanV {
                rust_name: c.rust_name,
                java_class: lit_value(toks, c.java_name),
                module: "__jni_high_"@ + lower,
                statics: sts,
                callbacks: cbs,
            }),
        },
    }
}

/// The plans of the classes; the first failure is the error.
pub open spec fn spec_class_plans(toks: Seq<Tok>, cs: Seq<BridgeClassV>) -> Result<Seq<ClassPlanV>, PlanError>
    decreases cs.len(),
{
    if cs.len() == 0 {
        Ok(Seq::empty())
    } else {
        match spec_class_plans(toks, cs.drop_last()) {
            Err(e) => Err(e),
            Ok(r) => match spec_class_plan(toks, cs.last()) {
                Err(e) => Err(e),
                Ok(p) => Ok(r.push(p)),
            },
        }
    }
}

/// The plan of a parsed block.
pub open spec fn spec_plan(toks: Seq<Tok>, b: BridgeBlockV) -> Result<BridgePlanV, PlanError> {
    match spec_class_plans(toks, b.classes) {
        Err(e) => Err(e),
        Ok(cs) => Ok(BridgePlanV { dex_start: b.dex_start, dex_end: b.dex_end, classes: cs }),
    }
}

// ---- Building the plan -----------------------------------------------------------

/// The text of the identifier at token `i`.
fn ident_text_of(toks: &Vec<Tok>, i: usize) -> (r: Vec<char>)
    ensures
        r@ == ident_text(toks@, i),
{
    if i < toks.len() {
        match &toks[i] {
            Tok::Ident { text } => copy_chars(text),
            _ => Vec::new(),
        }
    } else {
        Vec::new()
    }
}

/// The value of the string literal at token `i`.
fn lit_value_of(toks: &Vec<Tok>, i: usize) -> (r: Vec<char>)
    ensures
        r@ == lit_value(toks@, i),
{
    match lit_str_at(toks, i) {
        Some(v) => v,
        None => Vec::new(),
    }
}

/// The text of tokens `start .. end` with spaces removed, as an unsupported type is reported.
pub fn type_text(toks: &Vec<Tok>, start: usize, end: usize) -> (r: Vec<char>)
    ensures
        r@ == without_spaces(span_text(toks@, start as int, end as int)),
{
    if start <= end && end <= toks.len() {
        let t = span_text_of(toks, start, end);
        strip_spaces(&t)
    } else {
        assert(span_text(toks@, start as int, end as int) =~= Seq::<char>::empty());
        strip_spaces(&Vec::new())
    }
}

/// The message reported for a plan error: an unsupported type is named by its text
/// without spaces; a NUL in a Java name names the string.
pub open spec fn spec_plan_message(toks: Seq<Tok>, e: PlanError) -> Seq<char> {
    match e {
        PlanError::UnsupportedType { start, end } =>
            "unsupported bridge type `"@ + without_spaces(span_text(toks, start as int, end as int)) + "`"@,
        PlanError::NulInJavaName { at } => "jni-high codegen: embedded null in string `"@ + lit_value(toks, at) + "`"@,
    }
}

impl PlanError {
    /// The message reported for this error; `toks` is the input the plan was made from.
    pub fn message(&self, toks: &Vec<Tok>) -> (r: String)
        ensures
            r@ == spec_plan_message(toks@, *self),
    {
        let mut out: Vec<char> = Vec::new();
        match *self {
            PlanError::UnsupportedType { start, end } => {
                append_str(&mut out, "unsupported bridge type `");
                let t = type_text(toks, start, end);
                append_chars(&mut out, &t);
                append_str(&mut out, "`");
            },
            PlanError::NulInJavaName { at } => {
                append_str(&mut out, "jni-high codegen: embedded null in string `");
                let v = lit_value_of(toks, at);
                append_chars(&mut out, &v);
                append_str(&mut out, "`");
            },
        }
        assert(out@ =~= spec_plan_message(toks@, *self));
        string_of(&out)
    }
}

/// The bridge type written in tokens `start .. end`.
pub fn type_of_span(toks: &Vec<Tok>, start: usize, end: usize) -> (r: Option<BridgeType>)
    ensures
        r == type_of(toks@, start, end),
{
    let t = type_text(toks, start, end);
    BridgeType::from_compact_text(&t)
}

/// A failure among the first `k` parameters is the failure of the whole list.
proof fn lemma_param_plans_prefix_err(toks: Seq<Tok>, ps: Seq<MethodParam>, k: int)
    requires
        0 <= k <= ps.len(),
        spec_param_plans(toks, ps.take(k)) is Err,
    ensures
        spec_param_plans(toks, ps) == spec_param_plans(toks, ps.take(k)),
    decreases ps.len() - k,
{
    if k < ps.len() {
        assert(ps.take(k + 1).drop_last() =~= ps.take(k));
        lemma_param_plans_prefix_err(toks, ps, k + 1);
    } else {
        assert(ps.take(k) =~= ps);
    }
}

/// The bridge types of the parameters (see `spec_param_plans`).
fn param_plans(toks: &Vec<Tok>, ps: &Vec<MethodParam>) -> (r: Result<Vec<ParamPlan>, PlanError>)
    ensures
        r matches Ok(v) ==> spec_param_plans(toks@, ps@) == Ok::<_, PlanError>(v@),
        r matches Err(e) ==> spec_param_plans(toks@, ps@) == Err::<Seq<ParamPlan>, _>(e),
{
    let mut out: Vec<ParamPlan> = Vec::new();
    let mut i: usize = 0;
    assert(ps@.take(0) =~= Seq::<MethodParam>::empty());
    while i < ps.len()
        invariant
            i <= ps.len(),
            spec_param_plans(toks@, ps@.take(i as int)) == Ok::<_, PlanError>(out@),
        decreases ps.len() - i,
    {
        let p = ps[i];
        assert(ps@.take(i + 1).drop_last() =~= ps@.take(i as int));
        assert(ps@.take(i + 1).last() == p);
        match type_of_span(toks, p.ty_start, p.ty_end) {
            None => {
                proof {
                    lemma_param_plans_prefix_err(toks@, ps@, i + 1);
                }
                return Err(PlanError::UnsupportedType { start: p.ty_start, end: p.ty_end });
            },
            Some(t) => {
                out.push(ParamPlan { name: p.name, ty: t });
            },
        }
        i = i + 1;
    }
    assert(ps@.take(ps.len() as int) =~= ps@);
    Ok(out)
}

/// Appends the JNI descriptors of the parameters to `out`.
fn append_params_sig(out: &mut Vec<char>, ps: &Vec<ParamPlan>)
    ensures
        final(out)@ == old(out)@ + params_sig(ps@),
{
    let mut i: usize = 0;
    let ghost start = out@;
    assert(ps@.take(0) =~= Seq::<ParamPlan>::empty());
    assert(start + params_sig(ps@.take(0)) =~= start);
    while i < ps.len()
        invariant
            i <= ps.len(),
            out@ == start + params_sig(ps@.take(i as int)),
        decreases ps.len() - i,
    {
        assert(ps@.take(i + 1).drop_last() =~= ps@.take(i as int));
        append_str(out, ps[i].ty.jni_sig_char());
        assert(out@ =~= start + params_sig(ps@.take(i + 1)));
        i = i + 1;
    }
    assert(ps@.take(ps.len() as int) =~= ps@);
}

/// The result type after `->` (see `spec_ret_type`).
fn ret_type(toks: &Vec<Tok>, ret: Option<TypeSpan>) -> (r: Result<BridgeType, PlanError>)
    ensures
        r == spec_ret_type(toks@, ret),
{
    match ret {
        None => Ok(BridgeType::Unit),
        Some(sp) => match type_of_span(toks, sp.start, sp.end) {
            None => Err(PlanError::UnsupportedType { start: sp.start, end: sp.end }),
            Some(t) => Ok(t),
        },
    }
}

/// Whether `v` holds a NUL character.
fn has_nul(v: &Vec<char>) -> (r: bool)
    ensures
        r == v@.contains('\0'),
{
    let mut i: usize = 0;
    while i < v.len()
        invariant
            i <= v.len(),
            forall|j: int| 0 <= j < i ==> v@[j] != '\0',
        decreases v.len() - i,
    {
        if v[i] == '\0' {
            assert(v@[i as int] == '\0');
            return true;
        }
        i = i + 1;
    }
    false
}

/// The descriptor of a bridged static method (see `static_signature`).
pub fn static_signature_of(no_activity: bool, ps: &Vec<ParamPlan>, ret: BridgeType) -> (r: Vec<char>)
    ensures
        r@ == static_signature(no_activity, ps@, ret),
{
    let mut out: Vec<char> = Vec::new();
    append_str(&mut out, "(");
    if !no_activity {
        append_str(&mut out, "Landroid/app/Activity;");
    }
    append_params_sig(&mut out, ps);
    append_str(&mut out, ")");
    append_str(&mut out, ret.jni_sig_char());
    assert(out@ =~= static_signature(no_activity, ps@, ret));
    out
}

/// The descriptor of a native callback method (see `callback_signature`).
pub fn callback_signature_of(ps: &Vec<ParamPlan>, ret: BridgeType) -> (r: Vec<char>)
    ensures
        r@ == callback_signature(ps@, ret),
{
    let mut out: Vec<char> = Vec::new();
    append_str(&mut out, "(");
    append_params_sig(&mut out, ps);
    append_str(&mut out, ")");
    append_str(&mut out, ret.jni_sig_char());
    assert(out@ =~= callback_signature(ps@, ret));
    out
}

/// The plan of a static method (see `spec_static_plan`).
fn static_plan(toks: &Vec<Tok>, m: &StaticMethod) -> (r: Result<StaticPlan, PlanError>)
    ensures
        r matches Ok(p) ==> spec_static_plan(toks@, m@) == Ok::<_, PlanError>(p@),
        r matches Err(e) ==> spec_static_plan(toks@, m@) == Err::<StaticPlanV, _>(e),
{
    let java_name = match m.java_name_override {
        Some(t) => {
            let v = lit_value_of(toks, t);
            if has_nul(&v) {
                return Err(PlanError::NulInJavaName { at: t });
            }
            v
        },
        None => {
            let n = ident_text_of(toks, m.rust_name);
            to_lower_camel(&n)
        },
    };
    let ret = match ret_type(toks, m.ret_ty) {
        Err(e) => return Err(e),
        Ok(t) => t,
    };
    let params = match param_plans(toks, &m.params) {
        Err(e) => return Err(e),
        Ok(ps) => ps,
    };
    let signature = static_signature_of(m.no_activity, &params, ret);
    Ok(StaticPlan { rust_name: m.rust_name, java_name, no_activity: m.no_activity, params, ret, signature })
}

/// The plan of a callback (see `callback_plan`).
fn build_callback_plan(toks: &Vec<Tok>, class_lower: &Vec<char>, c: &CallbackMethod, params: Vec<ParamPlan>, ret: BridgeType) -> (r: CallbackPlan)
    ensures
        r@ == callback_plan(toks@, class_lower@, c@, params@, ret),
{
    let name = ident_text_of(toks, c.rust_name);
    let java_name = to_lower_camel(&name);
    let signature = callback_signature_of(&params, ret);
    let mut extern_fn: Vec<char> = Vec::new();
    append_str(&mut extern_fn, "__");
    append_chars(&mut extern_fn, class_lower);
    append_str(&mut extern_fn, "_");
    append_chars(&mut extern_fn, &name);
    append_str(&mut extern_fn, "_native");
    let mut handler: Vec<char> = Vec::new();
    append_str(&mut handler, "HANDLER_");
    let upper = to_uppercase(&name);
    append_chars(&mut handler, &upper);
    let mut setter: Vec<char> = Vec::new();
    append_str(&mut setter, "set_");
    append_chars(&mut setter, &name);
    assert(extern_fn@ =~= "__"@ + class_lower@ + "_"@ + name@ + "_native"@);
    assert(handler@ =~= "HANDLER_"@ + uppercase(name@));
    assert(setter@ =~= "set_"@ + name@);
    CallbackPlan { rust_name: c.rust_name, java_name, params, ret, signature, extern_fn, handler, setter }
}

/// The callback methods among `ms`, in order, by index.
fn callback_indices(ms: &Vec<BridgeMethod>) -> (r: Vec<usize>)
    ensures
        r@.len() == callbacks_of(methods_view(ms@)).len(),
        forall|k: int| 0 <= k < r@.len() ==> r@[k] < ms@.len() && (ms@[r@[k] as int] matches BridgeMethod::Callback(c)
            && c@ == callbacks_of(methods_view(ms@))[k]),
{
    let mut out: Vec<usize> = Vec::new();
    let mut i: usize = 0;
    assert(methods_view(ms@).take(0) =~= Seq::<BridgeMethodV>::empty());
    while i < ms.len()
        invariant
            i <= ms.len(),
            out@.len() == callbacks_of(methods_view(ms@).take(i as int)).len(),
            forall|k: int| 0 <= k < out@.len() ==> out@[k] < i && (ms@[out@[k] as int] matches BridgeMethod::Callback(c)
                && c@ == callbacks_of(methods_view(ms@).take(i as int))[k]),
        decreases ms.len() - i,
    {
        let ghost prev = methods_view(ms@).take(i as int);
        assert(methods_view(ms@).take(i + 1).drop_last() =~= prev);
        assert(methods_view(ms@).take(i + 1).last() == ms@[i as int]@);
        if let BridgeMethod::Callback(_) = &ms[i] {
            out.push(i);
        }
        i = i + 1;
    }
    assert(methods_view(ms@).take(ms.len() as int) =~= methods_view(ms@));
    out
}

/// The static methods among `ms`, in order, by index.
fn static_indices(ms: &Vec<BridgeMethod>) -> (r: Vec<usize>)
    ensures
        r@.len() == statics_of(methods_view(ms@)).len(),
        forall|k: int| 0 <= k < r@.len() ==> r@[k] < ms@.len() && (ms@[r@[k] as int] matches BridgeMethod::Static(s)
            && s@ == statics_of(methods_view(ms@))[k]),
{
    let mut out: Vec<usize> = Vec::new();
    let mut i: usize = 0;
    assert(methods_view(ms@).take(0) =~= Seq::<BridgeMethodV>::empty());
    while i < ms.len()
        invariant
            i <= ms.len(),
            out@.len() == statics_of(methods_view(ms@).take(i as int)).len(),
            forall|k: int| 0 <= k < out@.len() ==> out@[k] < i && (ms@[out@[k] as int] matches BridgeMethod::Static(s)
                && s@ == statics_of(methods_view(ms@).take(i as int))[k]),
        decreases ms.len() - i,
    {
        let ghost prev = methods_view(ms@).take(i as int);
        assert(methods_view(ms@).take(i + 1).drop_last() =~= prev);
        assert(methods_view(ms@).take(i + 1).last() == ms@[i as int]@);
        if let BridgeMethod::Static(_) = &ms[i] {
            out.push(i);
        }
        i = i + 1;
    }
    assert(methods_view(ms@).take(ms.len() as int) =~= methods_view(ms@));
    out
}

/// A failure among the first `k` static methods is the failure of them all.
proof fn lemma_static_plans_prefix_err(toks: Seq<Tok>, ms: Seq<StaticMethodV>, k: int)
    requires
        0 <= k <= ms.len(),
        spec_static_plans(toks, ms.take(k)) is Err,
    ensures
        spec_static_plans(toks, ms) == spec_static_plans(toks, ms.take(k)),
    decreases ms.len() - k,
{
    if k < ms.len() {
        assert(ms.take(k + 1).drop_last() =~= ms.take(k));
        lemma_static_plans_prefix_err(toks, ms, k + 1);
    } else {
        assert(ms.take(k) =~= ms);
    }
}

/// A failure among the parameters of the first `k` callbacks is the failure of them all.
proof fn lemma_callback_params_prefix_err(toks: Seq<Tok>, cs: Seq<CallbackMethodV>, k: int)
    requires
        0 <= k <= cs.len(),
        spec_callback_params(toks, cs.take(k)) is Err,
    ensures
        spec_callback_params(toks, cs) == spec_callback_params(toks, cs.take(k)),
    decreases cs.len() - k,
{
    if k < cs.len() {
        assert(cs.take(k + 1).drop_last() =~= cs.take(k));
        lemma_callback_params_prefix_err(toks, cs, k + 1);
    } else {
        assert(cs.take(k) =~= cs);
    }
}

/// A failure among the result types of the first `k` callbacks is the failure of them all.
proof fn lemma_callback_rets_prefix_err(toks: Seq<Tok>, cs: Seq<CallbackMethodV>, k: int)
    requires
        0 <= k <= cs.len(),
        spec_callback_rets(toks, cs.take(k)) is Err,
    ensures
        spec_callback_rets(toks, cs) == spec_callback_rets(toks, cs.take(k)),
    decreases cs.len() - k,
{
    if k < cs.len() {
        assert(cs.take(k + 1).drop_last() =~= cs.take(k));
        lemma_callback_rets_prefix_err(toks, cs, k + 1);
    } else {
        assert(cs.take(k) =~= cs);
    }
}

/// A failure among the first `k` classes is the failure of them all.
proof fn lemma_class_plans_prefix_err(toks: Seq<Tok>, cs: Seq<BridgeClassV>, k: int)
    requires
        0 <= k <= cs.len(),
        spec_class_plans(toks, cs.take(k)) is Err,
    ensures
        spec_class_plans(toks, cs) == spec_class_plans(toks, cs.take(k)),
    decreases cs.len() - k,
{
    if k < cs.len() {
        assert(cs.take(k + 1).drop_last() =~= cs.take(k));
        lemma_class_plans_prefix_err(toks, cs, k + 1);
    } else {
        assert(cs.take(k) =~= cs);
    }
}

/// A copy of a parameter list.
fn copy_params(v: &Vec<ParamPlan>) -> (r: Vec<ParamPlan>)
    ensures
        r@ == v@,
{
    let mut r: Vec<ParamPlan> = Vec::new();
    let mut i: usize = 0;
    while i < v.len()
        invariant
            i <= v.len(),
            r@ == v@.take(i as int),
        decreases v.len() - i,
    {
        r.push(v[i]);
        assert(v@.take(i + 1) =~= v@.take(i as int).push(v@[i as int]));
        i = i + 1;
    }
    assert(v@.take(v.len() as int) =~= v@);
    r
}

/// The models of a sequence of parameter lists.
pub open spec fn param_lists_view(s: Seq<Vec<ParamPlan>>) -> Seq<Seq<ParamPlan>> {
    s.map_values(|v: Vec<ParamPlan>| v@)
}

/// The plans of a class's callbacks (see `spec_callback_plans`).
fn callback_plans(toks: &Vec<Tok>, class_lower: &Vec<char>, ms: &Vec<BridgeMethod>) -> (r: Result<Vec<CallbackPlan>, PlanError>)
    ensures
        r matches Ok(v) ==> spec_callback_plans(toks@, class_lower@, callbacks_of(methods_view(ms@))) == Ok::<_, PlanError>(callbacks_view(v@)),
        r matches Err(e) ==> spec_callback_plans(toks@, class_lower@, callbacks_of(methods_view(ms@))) == Err::<Seq<CallbackPlanV>, _>(e),
{
    let ghost cbs = callbacks_of(methods_view(ms@));
    let idx = callback_indices(ms);
    // Every parameter of every callback first.
    let mut pss: Vec<Vec<ParamPlan>> = Vec::new();
    let mut k: usize = 0;
    assert(cbs.take(0) =~= Seq::<CallbackMethodV>::empty());
    assert(param_lists_view(pss@) =~= Seq::empty());
    while k < idx.len()
        invariant
            k <= idx.len(),
            idx@.len() == cbs.len(),
            cbs == callbacks_of(methods_view(ms@)),
            forall|j: int| 0 <= j < idx@.len() ==> idx@[j] < ms@.len() && (ms@[idx@[j] as int] matches BridgeMethod::Callback(c)
                && c@ == cbs[j]),
            pss@.len() == k,
            spec_callback_params(toks@, cbs.take(k as int)) == Ok::<_, PlanError>(param_lists_view(pss@)),
        decreases idx.len() - k,
    {
        assert(cbs.take(k + 1).drop_last() =~= cbs.take(k as int));
        assert(cbs.take(k + 1).last() == cbs[k as int]);
        let m = &ms[idx[k]];
        match m {
            BridgeMethod::Callback(cb) => {
                match param_plans(toks, &cb.params) {
                    Err(e) => {
                        proof {
                            assert(cb@.params == cb.params@);
                            assert(spec_callback_params(toks@, cbs.take(k + 1)) == Err::<Seq<Seq<ParamPlan>>, PlanError>(e));
                            lemma_callback_params_prefix_err(toks@, cbs, k + 1);
                            assert(spec_callback_params(toks@, cbs) == Err::<Seq<Seq<ParamPlan>>, PlanError>(e));
                            assert(spec_callback_plans(toks@, class_lower@, cbs) == Err::<Seq<CallbackPlanV>, PlanError>(e));
                        }
                        return Err(e);
                    },
                    Ok(ps) => {
                        let ghost before = pss@;
                        pss.push(ps);
                        assert(param_lists_view(pss@) =~= param_lists_view(before).push(pss@[k as int]@));
                    },
                }
            },
            BridgeMethod::Static(_) => {
                assert(false);
            },
        }
        k = k + 1;
    }
    assert(cbs.take(cbs.len() as int) =~= cbs);
    // Then every result type.
    let mut rets: Vec<BridgeType> = Vec::new();
    let mut k: usize = 0;
    while k < idx.len()
        invariant
            k <= idx.len(),
            idx@.len() == cbs.len(),
            forall|j: int| 0 <= j < idx@.len() ==> idx@[j] < ms@.len() && (ms@[idx@[j] as int] matches BridgeMethod::Callback(c)
                && c@ == cbs[j]),
            rets@.len() == k,
            pss@.len() == cbs.len(),
            cbs == callbacks_of(methods_view(ms@)),
            spec_callback_params(toks@, cbs) == Ok::<_, PlanError>(param_lists_view(pss@)),
            spec_callback_rets(toks@, cbs.take(k as int)) == Ok::<_, PlanError>(rets@),
        decreases idx.len() - k,
    {
        assert(cbs.take(k + 1).drop_last() =~= cbs.take(k as int));
        assert(cbs.take(k + 1).last() == cbs[k as int]);
        let m = &ms[idx[k]];
        match m {
            BridgeMethod::Callback(cb) => {
                match ret_type(toks, cb.ret_ty) {
                    Err(e) => {
                        proof {
                            lemma_callback_rets_prefix_err(toks@, cbs, k + 1);
                        }
                        return Err(e);
                    },
                    Ok(t) => {
                        rets.push(t);
                    },
                }
            },
            BridgeMethod::Static(_) => {
                assert(false);
            },
        }
        k = k + 1;
    }
    assert(cbs.take(cbs.len() as int) =~= cbs);
    // Then the plans.
    let ghost pv = param_lists_view(pss@);
    let mut out: Vec<CallbackPlan> = Vec::new();
    let mut k: usize = 0;
    while k < idx.len()
        invariant
            k <= idx.len(),
            idx@.len() == cbs.len(),
            pss@.len() == cbs.len(),
            rets@.len() == cbs.len(),
            pv == param_lists_view(pss@),
            out@.len() == k,
            cbs == callbacks_of(methods_view(ms@)),
            spec_callback_params(toks@, cbs) == Ok::<_, PlanError>(pv),
            spec_callback_rets(toks@, cbs) == Ok::<_, PlanError>(rets@),
            forall|j: int| 0 <= j < idx@.len() ==> idx@[j] < ms@.len() && (ms@[idx@[j] as int] matches BridgeMethod::Callback(c)
                && c@ == cbs[j]),
            callbacks_view(out@) == Seq::new(k as nat, |i: int| callback_plan(toks@, class_lower@, cbs[i], pv[i], rets@[i])),
        decreases idx.len() - k,
    {
        let m = &ms[idx[k]];
        match m {
            BridgeMethod::Callback(cb) => {
                let ps = copy_params(&pss[k]);
                assert(ps@ == pv[k as int]);
                let p = build_callback_plan(toks, class_lower, cb, ps, rets[k]);
                assert(p@ == callback_plan(toks@, class_lower@, cbs[k as int], pv[k as int], rets@[k as int]));
                let ghost before = out@;
                let ghost pview = p@;
                out.push(p);
                assert(callbacks_view(out@) =~= callbacks_view(before).push(pview));
                assert(Seq::new((k + 1) as nat, |i: int| callback_plan(toks@, class_lower@, cbs[i], pv[i], rets@[i]))
                    =~= Seq::new(k as nat, |i: int| callback_plan(toks@, class_lower@, cbs[i], pv[i], rets@[i])).push(pview));
                assert(callbacks_view(out@) =~= Seq::new((k + 1) as nat, |i: int| callback_plan(toks@, class_lower@, cbs[i], pv[i], rets@[i])));
            },
            BridgeMethod::Static(_) => {
                assert(false);
            },
        }
        k = k + 1;
    }
    Ok(out)
}

/// The plans of a class's static methods (see `spec_static_plans`).
fn static_plans(toks: &Vec<Tok>, ms: &Vec<BridgeMethod>) -> (r: Result<Vec<StaticPlan>, PlanError>)
    ensures
        r matches Ok(v) ==> spec_static_plans(toks@, statics_of(methods_view(ms@))) == Ok::<_, PlanError>(statics_view(v@)),
        r matches Err(e) ==> spec_static_plans(toks@, statics_of(methods_view(ms@))) == Err::<Seq<StaticPlanV>, _>(e),
{
    let ghost sts = statics_of(methods_view(ms@));
    let idx = static_indices(ms);
    let mut out: Vec<StaticPlan> = Vec::new();
    let mut k: usize = 0;
    assert(sts.take(0) =~= Seq::<StaticMethodV>::empty());
    assert(statics_view(out@) =~= Seq::empty());
    while k < idx.len()
        invariant
            k <= idx.len(),
            idx@.len() == sts.len(),
            forall|j: int| 0 <= j < idx@.len() ==> idx@[j] < ms@.len() && (ms@[idx@[j] as int] matches BridgeMethod::Static(s)
                && s@ == sts[j]),
            out@.len() == k,
            sts == statics_of(methods_view(ms@)),
            spec_static_plans(toks@, sts.take(k as int)) == Ok::<_, PlanError>(statics_view(out@)),
        decreases idx.len() - k,
    {
        assert(sts.take(k + 1).drop_last() =~= sts.take(k as int));
        assert(sts.take(k + 1).last() == sts[k as int]);
        let m = &ms[idx[k]];
        match m {
            BridgeMethod::Static(st) => {
                match static_plan(toks, st) {
                    Err(e) => {
                        proof {
                            assert(spec_static_plans(toks@, sts.take(k + 1)) == Err::<Seq<StaticPlanV>, PlanError>(e));
                            lemma_static_plans_prefix_err(toks@, sts, k + 1);
                        }
                        return Err(e);
                    },
                    Ok(p) => {
                        let ghost before = out@;
                        out.push(p);
                        assert(statics_view(out@) =~= statics_view(before).push(out@[k as int]@));
                    },
                }
            },
            BridgeMethod::Callback(_) => {
                assert(false);
            },
        }
        k = k + 1;
    }
    assert(sts.take(sts.len() as int) =~= sts);
    Ok(out)
}

/// The plan of a class (see `spec_class_plan`).
fn class_plan(toks: &Vec<Tok>, c: &BridgeClass) -> (r: Result<ClassPlan, PlanError>)
    ensures
        r matches Ok(p) ==> spec_class_plan(toks@, c@) == Ok::<_, PlanError>(p@),
        r matches Err(e) ==> spec_class_plan(toks@, c@) == Err::<ClassPlanV, _>(e),
{
    let name = ident_text_of(toks, c.rust_name);
    let lower = to_lowercase(&name);
    let callbacks = match callback_plans(toks, &lower, &c.methods) {
        Err(e) => return Err(e),
        Ok(v) => v,
    };
    let statics = match static_plans(toks, &c.methods) {
        Err(e) => return Err(e),
        Ok(v) => v,
    };
    let java_class = lit_value_of(toks, c.java_name);
    let mut module: Vec<char> = Vec::new();
    append_str(&mut module, "__jni_high_");
    append_chars(&mut module, &lower);
    assert(module@ =~= "__jni_high_"@ + lower@);
    Ok(ClassPlan { rust_name: c.rust_name, java_class, module, statics, callbacks })
}

/// Plans the code for a parsed block (see `spec_plan`).
pub fn plan(toks: &Vec<Tok>, b: &BridgeBlock) -> (r: Result<BridgePlan, PlanError>)
    ensures
        r matches Ok(p) ==> spec_plan(toks@, b@) == Ok::<_, PlanError>(p@),
        r matches Err(e) ==> spec_plan(toks@, b@) == Err::<BridgePlanV, _>(e),
{
    let ghost cs = classes_view(b.classes@);
    let mut out: Vec<ClassPlan> = Vec::new();
    let mut i: usize = 0;
    assert(cs.take(0) =~= Seq::<BridgeClassV>::empty());
    assert(class_plans_view(out@) =~= Seq::empty());
    while i < b.classes.len()
        invariant
            i <= b.classes.len(),
            cs == classes_view(b.classes@),
            out@.len() == i,
            spec_class_plans(toks@, cs.take(i as int)) == Ok::<_, PlanError>(class_plans_view(out@)),
        decreases b.classes.len() - i,
    {
        assert(cs.take(i + 1).drop_last() =~= cs.take(i as int));
        assert(cs.take(i + 1).last() == b.classes@[i as int]@);
        match class_plan(toks, &b.classes[i]) {
            Err(e) => {
                proof {
                    lemma_class_plans_prefix_err(toks@, cs, i + 1);
                }
                return Err(e);
            },
            Ok(p) => {
                let ghost before = out@;
                out.push(p);
                assert(class_plans_view(out@) =~= class_plans_view(before).push(out@[i as int]@));
            },
        }
        i = i + 1;
    }
    assert(cs.take(cs.len() as int) =~= cs);
    Ok(BridgePlan { dex_start: b.dex_start, dex_end: b.dex_end, classes: out })
}

// ---- Laws of the plan ----------------------------------------------------------------

/// Every parameter gets a plan, in order, with its own name and the type its tokens spell.
pub proof fn lemma_param_plans_each(toks: Seq<Tok>, ps: Seq<MethodParam>, pp: Seq<ParamPlan>)
    requires
        spec_param_plans(toks, ps) == Ok::<_, PlanError>(pp),
    ensures
        pp.len() == ps.len(),
        forall|j: int| 0 <= j < ps.len() ==> pp[j].name == ps[j].name
            && type_of(toks, ps[j].ty_start, ps[j].ty_end) == Some(pp[j].ty),
    decreases ps.len(),
{
    if ps.len() > 0 {
        let r = spec_param_plans(toks, ps.drop_last()).unwrap();
        lemma_param_plans_each(toks, ps.drop_last(), r);
        assert(pp == r.push(ParamPlan { name: ps.last().name, ty: pp.last().ty }));
    }
}

/// Every static method gets a plan, in order.
pub proof fn lemma_static_plans_each(toks: Seq<Tok>, ms: Seq<StaticMethodV>, ps: Seq<StaticPlanV>)
    requires
        spec_static_plans(toks, ms) == Ok::<_, PlanError>(ps),
    ensures
        ps.len() == ms.len(),
        forall|j: int| 0 <= j < ms.len() ==> spec_static_plan(toks, ms[j]) == Ok::<_, PlanError>(ps[j]),
    decreases ms.len(),
{
    if ms.len() > 0 {
        let r = spec_static_plans(toks, ms.drop_last()).unwrap();
        lemma_static_plans_each(toks, ms.drop_last(), r);
        assert forall|j: int| 0 <= j < ms.len() implies spec_static_plan(toks, ms[j]) == Ok::<_, PlanError>(ps[j]) by {
            if j < ms.len() - 1 {
                assert(ms.drop_last()[j] == ms[j]);
            }
        }
    }
}

/// Every callback's parameters are planned, in order.
proof fn lemma_callback_params_each(toks: Seq<Tok>, cs: Seq<CallbackMethodV>, pss: Seq<Seq<ParamPlan>>)
    requires
        spec_callback_params(toks, cs) == Ok::<_, PlanError>(pss),
    ensures
        pss.len() == cs.len(),
        forall|j: int| 0 <= j < cs.len() ==> spec_param_plans(toks, cs[j].params) == Ok::<_, PlanError>(pss[j]),
    decreases cs.len(),
{
    if cs.len() > 0 {
        let r = spec_callback_params(toks, cs.drop_last()).unwrap();
        lemma_callback_params_each(toks, cs.drop_last(), r);
        assert forall|j: int| 0 <= j < cs.len() implies spec_param_plans(toks, cs[j].params) == Ok::<_, PlanError>(pss[j]) by {
            if j < cs.len() - 1 {
                assert(cs.drop_last()[j] == cs[j]);
            }
        }
    }
}

/// Every callback's result type is read, in order.
proof fn lemma_callback_rets_each(toks: Seq<Tok>, cs: Seq<CallbackMethodV>, rets: Seq<BridgeType>)
    requires
        spec_callback_rets(toks, cs) == Ok::<_, PlanError>(rets),
    ensures
        rets.len() == cs.len(),
        forall|j: int| 0 <= j < cs.len() ==> spec_ret_type(toks, cs[j].ret_ty) == Ok::<_, PlanError>(rets[j]),
    decreases cs.len(),
{
    if cs.len() > 0 {
        let r = spec_callback_rets(toks, cs.drop_last()).unwrap();
        lemma_callback_rets_each(toks, cs.drop_last(), r);
        assert forall|j: int| 0 <= j < cs.len() implies spec_ret_type(toks, cs[j].ret_ty) == Ok::<_, PlanError>(rets[j]) by {
            if j < cs.len() - 1 {
                assert(cs.drop_last()[j] == cs[j]);
            }
        }
    }
}

/// Every class gets a plan, in order.
proof fn lemma_class_plans_each(toks: Seq<Tok>, cs: Seq<BridgeClassV>, ps: Seq<ClassPlanV>)
    requires
        spec_class_plans(toks, cs) == Ok::<_, PlanError>(ps),
    ensures
        ps.len() == cs.len(),
        forall|j: int| 0 <= j < cs.len() ==> spec_class_plan(toks, cs[j]) == Ok::<_, PlanError>(ps[j]),
    decreases cs.len(),
{
    if cs.len() > 0 {
        let r = spec_class_plans(toks, cs.drop_last()).unwrap();
        lemma_class_plans_each(toks, cs.drop_last(), r);
        assert forall|j: int| 0 <= j < cs.len() implies spec_class_plan(toks, cs[j]) == Ok::<_, PlanError>(ps[j]) by {
            if j < cs.len() - 1 {
                assert(cs.drop_last()[j] == cs[j]);
            }
        }
    }
}

/// A static method calls the Java method named by `#[java_name]`, else the lowerCamelCase
/// form of its Rust name; its parameters keep their order and types; and its descriptor
/// puts the Activity first unless `#[no_activity]` is given, which is the only difference
/// to the descriptor of the same parameters without an Activity.
pub proof fn lemma_static_method_call(toks: Seq<Tok>, m: StaticMethodV, p: StaticPlanV)
    requires
        spec_static_plan(toks, m) == Ok::<_, PlanError>(p),
    ensures
        p.rust_name == m.rust_name,
        p.no_activity == m.no_activity,
        m.java_name_override matches Some(t) ==> p.java_name == lit_value(toks, t),
        m.java_name_override is None ==> p.java_name == lower_camel(ident_text(toks, m.rust_name)),
        spec_param_plans(toks, m.params) == Ok::<_, PlanError>(p.params),
        spec_ret_type(toks, m.ret_ty) == Ok::<_, PlanError>(p.ret),
        !m.no_activity ==> p.signature == seq!['('] + activity_sig() + callback_signature(p.params, p.ret).skip(1),
        !m.no_activity ==> p.signature.take(23) == "(Landroid/app/Activity;"@,
        m.no_activity ==> p.signature == callback_signature(p.params, p.ret),
{
    reveal_strlit("(");
    reveal_strlit("Landroid/app/Activity;");
    reveal_strlit("(Landroid/app/Activity;");
    let tail = params_sig(p.params) + ")"@ + p.ret.spec_jni_sig();
    assert(callback_signature(p.params, p.ret) =~= "("@ + tail);
    assert(callback_signature(p.params, p.ret).skip(1) =~= tail);
    if !m.no_activity {
        assert(p.signature =~= seq!['('] + activity_sig() + tail);
        assert(p.signature.take(23) =~= "(Landroid/app/Activity;"@);
    } else {
        assert(p.signature =~= callback_signature(p.params, p.ret));
    }
}

/// A planned block plans every class in order; each class gets one Rust function per
/// static method and one native method per callback, in source order. Each callback is
/// registered under the lowerCamelCase form of its name with the descriptor of its
/// parameters and result, and gets its `extern` function, handler static and setter,
/// named after the class and the callback.
pub proof fn lemma_plan_covers_block(toks: Seq<Tok>, b: BridgeBlockV, p: BridgePlanV)
    requires
        spec_plan(toks, b) == Ok::<_, PlanError>(p),
    ensures
        p.dex_start == b.dex_start,
        p.dex_end == b.dex_end,
        p.classes.len() == b.classes.len(),
        forall|i: int| #![trigger p.classes[i]] 0 <= i < b.classes.len() ==> {
            let c = b.classes[i];
            let cp = p.classes[i];
            let lower = lowercase(ident_text(toks, c.rust_name));
            &&& cp.rust_name == c.rust_name
            &&& cp.java_class == lit_value(toks, c.java_name)
            &&& cp.module == "__jni_high_"@ + lower
            &&& cp.statics.len() == statics_of(c.methods).len()
            &&& (forall|j: int| 0 <= j < cp.statics.len() ==> spec_static_plan(toks, statics_of(c.methods)[j]) == Ok::<_, PlanError>(#[trigger] cp.statics[j]))
            &&& cp.callbacks.len() == callbacks_of(c.methods).len()
            &&& (forall|j: int| #![trigger cp.callbacks[j]] 0 <= j < cp.callbacks.len() ==> {
                let cb = callbacks_of(c.methods)[j];
                let name = ident_text(toks, cb.rust_name);
                let q = cp.callbacks[j];
                &&& q.rust_name == cb.rust_name
                &&& q.java_name == lower_camel(name)
                &&& spec_param_plans(toks, cb.params) == Ok::<_, PlanError>(q.params)
                &&& spec_ret_type(toks, cb.ret_ty) == Ok::<_, PlanError>(q.ret)
                &&& q.signature == callback_signature(q.params, q.ret)
                &&& q.extern_fn == "__"@ + lower + "_"@ + name + "_native"@
                &&& q.handler == "HANDLER_"@ + uppercase(name)
                &&& q.setter == "set_"@ + name
            })
        },
{
    let cps = spec_class_plans(toks, b.classes).unwrap();
    lemma_class_plans_each(toks, b.classes, cps);
    assert forall|i: int| #![trigger p.classes[i]] 0 <= i < b.classes.len() implies {
        let c = b.classes[i];
        let cp = p.classes[i];
        let lower = lowercase(ident_text(toks, c.rust_name));
        &&& cp.rust_name == c.rust_name
        &&& cp.java_class == lit_value(toks, c.java_name)
        &&& cp.module == "__jni_high_"@ + lower
        &&& cp.statics.len() == statics_of(c.methods).len()
        &&& (forall|j: int| 0 <= j < cp.statics.len() ==> spec_static_plan(toks, statics_of(c.methods)[j]) == Ok::<_, PlanError>(#[trigger] cp.statics[j]))
        &&& cp.callbacks.len() == callbacks_of(c.methods).len()
        &&& (forall|j: int| #![trigger cp.callbacks[j]] 0 <= j < cp.callbacks.len() ==> {
            let cb = callbacks_of(c.methods)[j];
            let name = ident_text(toks, cb.rust_name);
            let q = cp.callbacks[j];
            &&& q.rust_name == cb.rust_name
            &&& q.java_name == lower_camel(name)
            &&& spec_param_plans(toks, cb.params) == Ok::<_, PlanError>(q.params)
            &&& spec_ret_type(toks, cb.ret_ty) == Ok::<_, PlanError>(q.ret)
            &&& q.signature == callback_signature(q.params, q.ret)
            &&& q.extern_fn == "__"@ + lower + "_"@ + name + "_native"@
            &&& q.handler == "HANDLER_"@ + uppercase(name)
            &&& q.setter == "set_"@ + name
        })
    } by {
        let c = b.classes[i];
        let lower = lowercase(ident_text(toks, c.rust_name));
        let cbs = callbacks_of(c.methods);
        let pss = spec_callback_params(toks, cbs).unwrap();
        let rets = spec_callback_rets(toks, cbs).unwrap();
        lemma_callback_params_each(toks, cbs, pss);
        lemma_callback_rets_each(toks, cbs, rets);
        let sts = spec_static_plans(toks, statics_of(c.methods)).unwrap();
        lemma_static_plans_each(toks, statics_of(c.methods), sts);
    }
}

/// Prefix and suffix around a name tell names apart: different names give different items.
proof fn lemma_framed_names_differ(pre: Seq<char>, post: Seq<char>, n1: Seq<char>, n2: Seq<char>)
    requires
        n1 != n2,
    ensures
        pre + n1 + post != pre + n2 + post,
{
    let a = pre + n1 + post;
    let b = pre + n2 + post;
    assert(a.len() == pre.len() + n1.len() + post.len());
    assert(b.len() == pre.len() + n2.len() + post.len());
    if a == b {
        assert(n1.len() == n2.len());
        assert(a.subrange(pre.len() as int, (pre.len() + n1.len()) as int) =~= n1);
        assert(b.subrange(pre.len() as int, (pre.len() + n2.len()) as int) =~= n2);
    }
}

/// Within a planned class, two callbacks with different names get different `extern`
/// functions and different setters.
pub proof fn lemma_callback_items_distinct(toks: Seq<Tok>, b: BridgeBlockV, p: BridgePlanV, i: int, j: int, k: int)
    requires
        spec_plan(toks, b) == Ok::<_, PlanError>(p),
        0 <= i < p.classes.len(),
        0 <= j < p.classes[i].callbacks.len(),
        0 <= k < p.classes[i].callbacks.len(),
        ident_text(toks, p.classes[i].callbacks[j].rust_name) != ident_text(toks, p.classes[i].callbacks[k].rust_name),
    ensures
        p.classes[i].callbacks[j].extern_fn != p.classes[i].callbacks[k].extern_fn,
        p.classes[i].callbacks[j].setter != p.classes[i].callbacks[k].setter,
{
    lemma_plan_covers_block(toks, b, p);
    let c = b.classes[i];
    let cp = p.classes[i];
    let lower = lowercase(ident_text(toks, c.rust_name));
    let qj = cp.callbacks[j];
    let qk = cp.callbacks[k];
    let nj = ident_text(toks, qj.rust_name);
    let nk = ident_text(toks, qk.rust_name);
    assert(qj.extern_fn == "__"@ + lower + "_"@ + nj + "_native"@);
    assert(qk.extern_fn == "__"@ + lower + "_"@ + nk + "_native"@);
    lemma_framed_names_differ("__"@ + lower + "_"@, "_native"@, nj, nk);
    lemma_framed_names_differ("set_"@, Seq::empty(), nj, nk);
    assert("set_"@ + nj + Seq::empty() =~= "set_"@ + nj);
    assert("set_"@ + nk + Seq::empty() =~= "set_"@ + nk);
}

/// The native method of callback `j` of class `i`: it is registered under the
/// lowerCamelCase form of the callback's name, its `extern` function is
/// `__<class in lowercase>_<name>_native`, each parameter has the type its tokens spell,
/// and its descriptor is `(` + the parameters' descriptors + `)` + the result's descriptor,
/// `V` when no result is written.
pub proof fn lemma_callback_native_entry(toks: Seq<Tok>, b: BridgeBlockV, p: BridgePlanV, i: int, j: int)
    requires
        spec_plan(toks, b) == Ok::<_, PlanError>(p),
        0 <= i < b.classes.len(),
        0 <= j < callbacks_of(b.classes[i].methods).len(),
    ensures
        ({
            let cb = callbacks_of(b.classes[i].methods)[j];
            let q = p.classes[i].callbacks[j];
            let name = ident_text(toks, cb.rust_name);
            let lower = lowercase(ident_text(toks, b.classes[i].rust_name));
            &&& q.java_name == lower_camel(name)
            &&& q.extern_fn == "__"@ + lower + "_"@ + name + "_native"@
            &&& q.params.len() == cb.params.len()
            &&& (forall|k: int| 0 <= k < cb.params.len() ==> q.params[k].name == cb.params[k].name
                && type_of(toks, cb.params[k].ty_start, cb.params[k].ty_end) == Some(#[trigger] q.params[k].ty))
            &&& (cb.ret_ty matches Some(sp) ==> type_of(toks, sp.start, sp.end) == Some(q.ret))
            &&& q.signature == "("@ + params_sig(q.params) + ")"@
                + (if cb.ret_ty is None { "V"@ } else { q.ret.spec_jni_sig() })
        }),
{
    lemma_plan_covers_block(toks, b, p);
    let cb = callbacks_of(b.classes[i].methods)[j];
    let q = p.classes[i].callbacks[j];
    assert(p.classes[i].callbacks.len() == callbacks_of(b.classes[i].methods).len());
    lemma_param_plans_each(toks, cb.params, q.params);
}

} // verus!
