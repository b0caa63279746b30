use jni_high::codegen::{plan, type_text, BridgePlan, PlanError};
use jni_high::parse::{parse_block, BridgeBlock, BridgeMethod, ParseError, ParseErrorKind};
use jni_high::tokens::{lit_str_at, Delim, Tok};
use jni_high::types::BridgeType;
use proc_macro2::{Delimiter, Spacing, TokenStream, TokenTree};

fn flatten(ts: TokenStream, out: &mut Vec<Tok>) {
    for tt in ts {
        match tt {
            TokenTree::Ident(i) => out.push(Tok::Ident { text: i.to_string().chars().collect() }),
            TokenTree::Punct(p) => out.push(Tok::Punct { ch: p.as_char(), joint: p.spacing() == Spacing::Joint }),
            TokenTree::Literal(l) => {
                let text = l.to_string();
                out.push(Tok::Lit { text: text.chars().collect() });
            }
            TokenTree::Group(g) => {
                let delim = match g.delimiter() {
                    Delimiter::Parenthesis => Delim::Paren,
                    Delimiter::Brace => Delim::Brace,
                    Delimiter::Bracket => Delim::Bracket,
                    Delimiter::None => Delim::Invisible,
                };
                out.push(Tok::Open { delim });
                flatten(g.stream(), out);
                out.push(Tok::Close { delim });
            }
        }
    }
}

fn toks(src: &str) -> Vec<Tok> {
    let mut out = Vec::new();
    flatten(src.parse::<TokenStream>().unwrap(), &mut out);
    out
}

fn s(v: &[char]) -> String {
    v.iter().collect()
}

fn ident(t: &[Tok], i: usize) -> String {
    match &t[i] {
        Tok::Ident { text } => s(text),
        _ => panic!("token {i} is not an identifier"),
    }
}

fn parse(src: &str) -> (Vec<Tok>, Result<BridgeBlock, ParseError>) {
    let t = toks(src);
    let r = parse_block(&t);
    (t, r)
}

fn planned(src: &str) -> (Vec<Tok>, BridgePlan) {
    let (t, b) = parse(src);
    let p = plan(&t, &b.unwrap()).unwrap();
    (t, p)
}

const FILE_PICKER: &str = r#"
    dex = include_bytes!(concat!(env!("OUT_DIR"), "/file_picker.dex")),

    class FilePicker {
        java_name = "CediniaFilePicker",

        static fn launch_pick_directory(start_path: &str, is_include: bool);
        static fn open_url(url: &str);

        #[no_activity]
        static fn are_enabled() -> bool;

        callback fn on_directory_picked(path: String, is_include: bool);
    }
"#;

#[test]
fn parses_the_file_picker_block() {
    let (t, b) = parse(FILE_PICKER);
    let b = b.unwrap();
    assert_eq!(ident(&t, b.dex_start), "include_bytes");
    assert!(matches!(&t[b.dex_end], Tok::Punct { ch: ',', .. }));
    assert_eq!(b.classes.len(), 1);
    let c = &b.classes[0];
    assert_eq!(ident(&t, c.rust_name), "FilePicker");
    assert_eq!(c.methods.len(), 4);
    match &c.methods[0] {
        BridgeMethod::Static(m) => {
            assert!(!m.no_activity);
            assert_eq!(ident(&t, m.rust_name), "launch_pick_directory");
            assert_eq!(m.params.len(), 2);
            assert_eq!(ident(&t, m.params[0].name), "start_path");
            assert_eq!(s(&type_text(&t, m.params[0].ty_start, m.params[0].ty_end)), "&str");
            assert!(m.ret_ty.is_none());
        }
        _ => panic!("expected a static method"),
    }
    match &c.methods[2] {
        BridgeMethod::Static(m) => {
            assert!(m.no_activity);
            let r = m.ret_ty.unwrap();
            assert_eq!(s(&type_text(&t, r.start, r.end)), "bool");
        }
        _ => panic!("expected a static method"),
    }
    assert!(matches!(&c.methods[3], BridgeMethod::Callback(cb) if cb.params.len() == 2));
}

#[test]
fn plans_the_file_picker_class() {
    let (t, p) = planned(FILE_PICKER);
    assert_eq!(p.classes.len(), 1);
    let c = &p.classes[0];
    assert_eq!(s(&c.module), "__jni_high_filepicker");
    assert_eq!(s(&c.java_class), "CediniaFilePicker");
    assert_eq!(c.statics.len(), 3);
    let launch = &c.statics[0];
    assert_eq!(ident(&t, launch.rust_name), "launch_pick_directory");
    assert_eq!(s(&launch.java_name), "launchPickDirectory");
    assert_eq!(s(&launch.signature), "(Landroid/app/Activity;Ljava/lang/String;Z)V");
    assert_eq!(launch.params[0].ty, BridgeType::BorrowedStr);
    assert_eq!(launch.params[1].ty, BridgeType::Bool);
    assert_eq!(launch.ret, BridgeType::Unit);
    let enabled = &c.statics[2];
    assert!(enabled.no_activity);
    assert_eq!(s(&enabled.java_name), "areEnabled");
    assert_eq!(s(&enabled.signature), "()Z");
    assert_eq!(enabled.ret, BridgeType::Bool);
    assert_eq!(c.callbacks.len(), 1);
    let cb = &c.callbacks[0];
    assert_eq!(s(&cb.java_name), "onDirectoryPicked");
    assert_eq!(s(&cb.signature), "(Ljava/lang/String;Z)V");
    assert_eq!(s(&cb.extern_fn), "__filepicker_on_directory_picked_native");
    assert_eq!(s(&cb.handler), "HANDLER_ON_DIRECTORY_PICKED");
    assert_eq!(s(&cb.setter), "set_on_directory_picked");
    assert_eq!(cb.params[0].ty, BridgeType::OwnedString);
}

#[test]
fn plans_several_classes_sharing_one_dex() {
    let (_, p) = planned(
        r#"dex = include_bytes!("locale.dex"),
        class Locale {
            java_name = "com.example.AppLocale",
            #[no_activity]
            static fn language_tag() -> String;
            #[no_activity]
            static fn country_code() -> Option<String>;
            #[no_activity]
            static fn preferred_hour_format() -> i32;
        }
        class DeviceInfo {
            java_name = "com.example.AppDeviceInfo",
            #[no_activity]
            static fn sdk_version() -> i32;
        }"#,
    );
    assert_eq!(p.classes.len(), 2);
    assert_eq!(s(&p.classes[0].java_class), "com.example.AppLocale");
    assert_eq!(s(&p.classes[0].statics[0].signature), "()Ljava/lang/String;");
    assert_eq!(p.classes[0].statics[1].ret, BridgeType::OptionString);
    assert_eq!(s(&p.classes[0].statics[2].signature), "()I");
    assert_eq!(s(&p.classes[1].module), "__jni_high_deviceinfo");
    assert_eq!(s(&p.classes[1].statics[0].java_name), "sdkVersion");
}

#[test]
fn java_name_attribute_overrides_the_method_name() {
    let (_, p) = planned(
        r#"dex = D, class H { java_name = "H"
            #[java_name("doIt")] static fn run(a: i32, b: i64) -> f64; }"#,
    );
    let m = &p.classes[0].statics[0];
    assert_eq!(s(&m.java_name), "doIt");
    assert_eq!(s(&m.signature), "(Landroid/app/Activity;IJ)D");
}

#[test]
fn other_attributes_are_ignored() {
    let (_, p) = planned(r#"dex = D, class H { java_name = "H", #[doc = "x"] #[allow(dead_code)] static fn f(c: char); }"#);
    let m = &p.classes[0].statics[0];
    assert!(!m.no_activity);
    assert_eq!(s(&m.signature), "(Landroid/app/Activity;C)V");
}

#[test]
fn every_type_has_its_descriptor() {
    let (_, p) = planned(
        r#"dex = D, class H { java_name = "H",
            #[no_activity] static fn f(a: bool, b: i8, c: i16, d: i32, e: i64, f: f32, g: f64, h: char, i: &str, j: String, k: Option<String>) -> (); }"#,
    );
    assert_eq!(s(&p.classes[0].statics[0].signature), "(ZBSIJFDCLjava/lang/String;Ljava/lang/String;Ljava/lang/String;)V");
}

#[test]
fn commas_between_methods_and_classes_are_optional() {
    let (_, p) = planned(r#"dex = D,, class A { java_name = "A" ,, static fn f(); , } , class B { java_name = "B" }"#);
    assert_eq!(p.classes.len(), 2);
    assert_eq!(p.classes[0].statics.len(), 1);
    assert_eq!(p.classes[1].statics.len(), 0);
}

#[test]
fn empty_block_has_no_classes() {
    let (_, p) = planned("dex = D,");
    assert_eq!(p.classes.len(), 0);
}

fn parse_err(src: &str) -> ParseError {
    match parse(src).1 {
        Err(e) => e,
        Ok(_) => panic!("expected a parse error for {src}"),
    }
}

#[test]
fn block_must_start_with_dex() {
    let e = parse_err(r#"dax = D, class A { java_name = "A" }"#);
    assert_eq!(e, ParseError { at: 0, kind: ParseErrorKind::ExpectedDex });
}

#[test]
fn dex_needs_an_expression_and_a_comma() {
    assert_eq!(parse_err("dex = , class A {}").kind, ParseErrorKind::ExpectedExpr);
    assert_eq!(parse_err("dex = D").kind, ParseErrorKind::ExpectedPunct(','));
    assert_eq!(parse_err("dex D,").kind, ParseErrorKind::ExpectedPunct('='));
}

#[test]
fn class_keyword_and_java_name_are_required() {
    assert_eq!(parse_err(r#"dex = D, struct A { java_name = "A" }"#).kind, ParseErrorKind::KeywordAsIdent);
    assert_eq!(parse_err(r#"dex = D, klass A { java_name = "A" }"#).kind, ParseErrorKind::ExpectedClass);
    assert_eq!(parse_err(r#"dex = D, class A { name = "A" }"#).kind, ParseErrorKind::ExpectedJavaName);
    assert_eq!(parse_err(r#"dex = D, class A { java_name = A }"#).kind, ParseErrorKind::ExpectedStrLit);
    assert_eq!(parse_err(r#"dex = D, class A ( java_name = "A" )"#).kind, ParseErrorKind::ExpectedGroup(Delim::Brace));
}

#[test]
fn methods_are_static_or_callback() {
    let e = parse_err(r#"dex = D, class A { java_name = "A", dynamic fn f(); }"#);
    assert_eq!(e.kind, ParseErrorKind::ExpectedStaticOrCallback);
    let e = parse_err(r#"dex = D, class A { java_name = "A", static f(); }"#);
    assert_eq!(e.kind, ParseErrorKind::ExpectedFn);
    let e = parse_err(r#"dex = D, class A { java_name = "A", static fn f() }"#);
    assert_eq!(e.kind, ParseErrorKind::ExpectedPunct(';'));
    let e = parse_err(r#"dex = D, class A { java_name = "A", static fn type(); }"#);
    assert_eq!(e.kind, ParseErrorKind::KeywordAsIdent);
}

#[test]
fn parameters_need_a_name_and_a_type() {
    assert_eq!(parse_err(r#"dex = D, class A { java_name = "A", static fn f(x); }"#).kind, ParseErrorKind::ExpectedPunct(':'));
    assert_eq!(parse_err(r#"dex = D, class A { java_name = "A", static fn f(x: ); }"#).kind, ParseErrorKind::ExpectedType);
    assert_eq!(parse_err(r#"dex = D, class A { java_name = "A", static fn f() -> ; }"#).kind, ParseErrorKind::ExpectedType);
}

#[test]
fn java_name_attribute_needs_one_string() {
    let k = |src: &str| parse_err(src).kind;
    assert_eq!(k(r#"dex = D, class A { java_name = "A", #[java_name] static fn f(); }"#), ParseErrorKind::ExpectedAttrArgs);
    assert_eq!(k(r#"dex = D, class A { java_name = "A", #[java_name = g] static fn f(); }"#), ParseErrorKind::ExpectedStrLit);
    assert_eq!(k(r#"dex = D, class A { java_name = "A", #[java_name = "g" "h"] static fn f(); }"#), ParseErrorKind::UnexpectedToken);
    assert_eq!(k(r#"dex = D, class A { java_name = "A", #[java_name(g)] static fn f(); }"#), ParseErrorKind::ExpectedStrLit);
    assert_eq!(k(r#"dex = D, class A { java_name = "A", #[java_name("g", "h")] static fn f(); }"#), ParseErrorKind::UnexpectedToken);
}

#[test]
fn unsupported_types_are_reported_with_their_text() {
    let (t, b) = parse(r#"dex = D, class A { java_name = "A", static fn f(x: Vec < u8 >); }"#);
    match plan(&t, &b.unwrap()) {
        Err(PlanError::UnsupportedType { start, end }) => assert_eq!(s(&type_text(&t, start, end)), "Vec<u8>"),
        _ => panic!("expected an unsupported type"),
    }
}

#[test]
fn callback_parameters_are_checked_before_static_methods() {
    let (t, b) = parse(r#"dex = D, class A { java_name = "A", static fn f(x: u16); callback fn g(y: u32); }"#);
    match plan(&t, &b.unwrap()) {
        Err(PlanError::UnsupportedType { start, end }) => assert_eq!(s(&type_text(&t, start, end)), "u32"),
        _ => panic!("expected an unsupported type"),
    }
}

#[test]
fn callback_results_are_checked_after_all_callback_parameters() {
    let (t, b) = parse(r#"dex = D, class A { java_name = "A", callback fn g() -> u8; callback fn h(y: u64); }"#);
    match plan(&t, &b.unwrap()) {
        Err(PlanError::UnsupportedType { start, end }) => assert_eq!(s(&type_text(&t, start, end)), "u64"),
        _ => panic!("expected an unsupported type"),
    }
}

#[test]
fn nul_in_java_name_is_refused() {
    let (t, b) = parse(r#"dex = D, class A { java_name = "A", #[java_name("a\0b")] static fn f(); }"#);
    assert!(matches!(plan(&t, &b.unwrap()), Err(PlanError::NulInJavaName { .. })));
}

#[test]
fn callback_with_result_type_has_it_in_its_descriptor() {
    let (_, p) = planned(r#"dex = D, class Cb { java_name = "Cb", callback fn on_value(v: Option<String>, c: char) -> i32; }"#);
    let cb = &p.classes[0].callbacks[0];
    assert_eq!(s(&cb.signature), "(Ljava/lang/String;C)I");
    assert_eq!(cb.ret, BridgeType::I32);
    assert_eq!(s(&cb.java_name), "onValue");
}

#[test]
fn parse_errors_have_messages() {
    let msg = |src: &str| {
        let (t, r) = parse(src);
        match r {
            Err(e) => e.message(&t),
            Ok(_) => panic!("expected a parse error for {src}"),
        }
    };
    assert_eq!(msg(r#"dax = D,"#), "expected `dex = <expr>`");
    assert_eq!(msg("dex = D"), "expected `,`");
    assert_eq!(msg("dex = , class A {}"), "expected an expression");
    assert_eq!(msg(r#"dex = D, struct A { java_name = "A" }"#), "expected identifier, found keyword `struct`");
    assert_eq!(msg(r#"dex = D, klass A { java_name = "A" }"#), "expected `class <Name> { ... }`");
    assert_eq!(msg(r#"dex = D, class A { name = "A" }"#), "expected `java_name = \"...\"`");
    assert_eq!(msg(r#"dex = D, class A ( java_name = "A" )"#), "expected curly braces");
    assert_eq!(
        msg(r#"dex = D, class A { java_name = "A", dynamic fn f(); }"#),
        "expected `static` or `callback`, got `dynamic`"
    );
    assert_eq!(msg(r#"dex = D, class A { java_name = "A", static fn f(x: ); }"#), "expected type");
    assert_eq!(
        msg(r#"dex = D, class A { java_name = "A", #[java_name] static fn f(); }"#),
        "expected attribute arguments in parentheses: #[java_name(...)]"
    );
    assert_eq!(msg(r#"dex = D, class A { java_name = "A", #[java_name(g)] static fn f(); }"#), "expected string literal");
}

#[test]
fn plan_errors_have_messages() {
    let (t, b) = parse(r#"dex = D, class A { java_name = "A", static fn f(x: Vec < u8 >); }"#);
    let e = plan(&t, &b.unwrap()).unwrap_err();
    assert_eq!(e.message(&t), "unsupported bridge type `Vec<u8>`");
    let (t, b) = parse(r#"dex = D, class A { java_name = "A", #[java_name("a\0b")] static fn f(); }"#);
    let e = plan(&t, &b.unwrap()).unwrap_err();
    assert_eq!(e.message(&t), "jni-high codegen: embedded null in string `a\0b`");
}

#[test]
fn names_groups_and_the_end_of_input() {
    let e = parse_err(r#"dex = D, class { java_name = "A" }"#);
    assert_eq!(e, ParseError { at: 5, kind: ParseErrorKind::ExpectedIdent });
    let e = parse_err("dex = D, class A");
    assert_eq!(e, ParseError { at: 6, kind: ParseErrorKind::ExpectedGroup(Delim::Brace) });
    let e = parse_err(r#"dex = D, class A { java_name = "A", static fn f; }"#);
    assert_eq!(e.kind, ParseErrorKind::ExpectedGroup(Delim::Paren));
    let t = toks(r#"dex = D, class A { java_name = "A", static fn f; }"#);
    assert_eq!(parse_block(&t).unwrap_err().message(&t), "expected parentheses");
    // A group left open: the expression never ends.
    let t = vec![
        Tok::Ident { text: "dex".chars().collect() },
        Tok::Punct { ch: '=', joint: false },
        Tok::Open { delim: Delim::Paren },
        Tok::Ident { text: "D".chars().collect() },
    ];
    let e = parse_block(&t).unwrap_err();
    assert_eq!(e, ParseError { at: 4, kind: ParseErrorKind::UnexpectedEnd });
    assert_eq!(e.message(&t), "unexpected end of input");
}

#[test]
fn callbacks_of_a_class_get_their_own_items() {
    let (_, p) = planned(r#"dex = D, class Pick { java_name = "Pick", callback fn on_a(); callback fn on_b(x: i32); }"#);
    let cbs = &p.classes[0].callbacks;
    assert_eq!(s(&cbs[0].extern_fn), "__pick_on_a_native");
    assert_eq!(s(&cbs[1].extern_fn), "__pick_on_b_native");
    assert_eq!(s(&cbs[0].setter), "set_on_a");
    assert_eq!(s(&cbs[1].setter), "set_on_b");
    assert_ne!(cbs[0].extern_fn, cbs[1].extern_fn);
    assert_eq!(s(&cbs[1].signature), "(I)V");
}

#[test]
fn java_name_attribute_may_be_written_with_equals() {
    let src = r#"
        dex = D,
        class Locale {
            java_name = "com.example.bridge.Locale",

            #[java_name = "getPreferredHourFormat"]
            #[no_activity]
            static fn preferred_hour_format() -> i32;
        }
    "#;
    let (t, b) = parse(src);
    let b = b.unwrap();
    match &b.classes[0].methods[0] {
        BridgeMethod::Static(m) => {
            assert!(m.no_activity);
            assert_eq!(ident(&t, m.rust_name), "preferred_hour_format");
            let lit = m.java_name_override.expect("a Java name");
            assert_eq!(s(&lit_str_at(&t, lit).expect("a string literal")), "getPreferredHourFormat");
            assert!(m.params.is_empty());
            assert!(m.ret_ty.is_some());
        }
        _ => panic!("expected a static method"),
    }
    let (_, p) = planned(src);
    let m = &p.classes[0].statics[0];
    assert_eq!(s(&m.java_name), "getPreferredHourFormat");
    assert_eq!(s(&m.signature), "()I");
    assert_eq!(m.ret, BridgeType::I32);
}

#[test]
fn dex_expression_keeps_turbofish_arguments_together() {
    let (t, b) = parse(r#"dex = load::<Vec<u8>, B>(x), class A { java_name = "A" }"#);
    let b = b.unwrap();
    assert!(matches!(t[b.dex_end], Tok::Punct { ch: ',', .. }));
    assert_eq!(ident(&t, b.dex_end + 2), "A");
    assert_eq!(b.classes.len(), 1);
    // Without `::` a `<` is a comparison, and the comma ends the expression.
    let (t, b) = parse("dex = a < b, c");
    let e = b.unwrap_err();
    assert_eq!(e.kind, ParseErrorKind::ExpectedClass);
    assert_eq!(ident(&t, e.at), "c");
}

#[test]
fn string_literal_values_resolve_escapes() {
    let t = toks(r#"dex = D, "a\tb" r"raw\n" 'c' 7"#);
    assert_eq!(s(&lit_str_at(&t, 4).unwrap()), "a\tb");
    assert_eq!(s(&lit_str_at(&t, 5).unwrap()), "raw\\n");
    assert!(lit_str_at(&t, 6).is_none());
    assert!(lit_str_at(&t, 7).is_none());
    assert!(lit_str_at(&t, 0).is_none());
    assert!(lit_str_at(&t, 99).is_none());
}

#[test]
fn closures_and_leading_colons_in_attributes() {
    let (t, b) = parse(r#"dex = D, class A { java_name = "A", #[some_attr = |a, b| a + b] static fn f(); }"#);
    let b = b.unwrap();
    match &b.classes[0].methods[0] {
        BridgeMethod::Static(m) => {
            assert_eq!(ident(&t, m.rust_name), "f");
            assert!(!m.no_activity);
            assert!(m.java_name_override.is_none());
        }
        _ => panic!("expected a static method"),
    }
    let (_, b) = parse(r#"dex = D, class A { java_name = "A", #[::foo] #[::no_activity] static fn f(); }"#);
    match &b.unwrap().classes[0].methods[0] {
        BridgeMethod::Static(m) => assert!(!m.no_activity),
        _ => panic!("expected a static method"),
    }
    let (t, b) = parse(r#"dex = move |a, b| a, class A { java_name = "A" }"#);
    let b = b.unwrap();
    assert_eq!(b.classes.len(), 1);
    assert!(matches!(t[b.dex_end], Tok::Punct { ch: ',', .. }));
    assert_eq!(b.dex_end, 9);
}
