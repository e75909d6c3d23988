use pformat_macro::ErrorKind;
use pformat_macro::FormatArgs;
use pformat_macro::FormatStr;
use pformat_macro::PFormatArgs;
use pformat_macro::PFormatArgsAST;

fn no_args() -> FormatArgs {
    FormatArgs::from(None::<(Vec<String>, proc_macro2::Span)>)
}

fn args_of(texts: Vec<&str>) -> FormatArgs {
    let texts: Vec<String> = texts.into_iter().map(|t| t.to_string()).collect();
    FormatArgs::from(Some((texts, proc_macro2::Span::call_site())))
}

fn model(format: &str, args: FormatArgs) -> Result<PFormatArgs, pformat_macro::ExpandError> {
    PFormatArgs::try_from(PFormatArgsAST { fmt: FormatStr::from(format.to_string()), args })
}

#[test]
fn test_pformat_args_plain_string() {
    let produced = model("Hello World!", no_args()).unwrap();
    assert_eq!(format!("{}", produced.render(&vec![])), "Hello World!")
}

#[test]
fn test_pformat_args() {
    let produced = model("Hello, {}. 1 + 1 = {} for sure!", args_of(vec!["\"Bob\"", "3"])).unwrap();
    let displayed = vec!["Bob".to_string(), "3".to_string()];
    assert_eq!(
        format!("{}", produced.render(&displayed)),
        "Hello, Bob. 1 + 1 = 3 for sure!"
    )
}

#[test]
fn test_empty_string() {
    let produced = model("", no_args()).unwrap();
    assert_eq!(format!("{}", produced.render(&vec![])), "")
}

#[test]
fn test_split_no_marker() {
    let pieces = FormatStr::from("abc".to_string()).split_into_pieces();
    assert_eq!(pieces, vec!["abc".to_string()]);
}

#[test]
fn test_split_empty() {
    let pieces = FormatStr::from("".to_string()).split_into_pieces();
    assert_eq!(pieces, vec!["".to_string()]);
}

#[test]
fn test_split_markers_at_ends() {
    let pieces = FormatStr::from("{}x{}".to_string()).split_into_pieces();
    assert_eq!(pieces, vec!["".to_string(), "x".to_string(), "".to_string()]);
}

#[test]
fn test_split_overlapping_brace() {
    let pieces = FormatStr::from("{{}".to_string()).split_into_pieces();
    assert_eq!(pieces, vec!["{".to_string(), "".to_string()]);
}

#[test]
fn test_too_many_arguments() {
    let err = model("{}", args_of(vec!["1", "2"])).unwrap_err();
    assert_eq!(err.kind, ErrorKind::TooManyArgs);
    assert_eq!(
        err.message(),
        "too many format arguments passed (more than parameters)"
    );
}

#[test]
fn test_too_many_arguments_no_placeholder() {
    let err = model("", args_of(vec!["1"])).unwrap_err();
    assert_eq!(err.kind, ErrorKind::TooManyArgs);
}

#[test]
fn test_too_few_arguments() {
    let err = model("{} {}", args_of(vec!["1"])).unwrap_err();
    assert_eq!(err.kind, ErrorKind::TooFewArgs);
    assert_eq!(
        err.message(),
        "too few format arguments passed (fewer than parameters)"
    );
}

#[test]
fn test_format_not_a_literal() {
    let expr = syn::parse_str::<syn::Expr>("some_variable").unwrap();
    let err = pformat_macro::format_from_expr(&expr).unwrap_err();
    assert_eq!(err.kind, ErrorKind::NotStringLiteral);
    assert_eq!(err.message(), "format must be a constant string literal");
}

#[test]
fn test_format_not_a_literal_other_shapes() {
    for text in ["1 + 1", "format()", "b\"bytes\"", "'c'"] {
        let expr = syn::parse_str::<syn::Expr>(text).unwrap();
        let err = pformat_macro::format_from_expr(&expr).unwrap_err();
        assert_eq!(err.kind, ErrorKind::NotStringLiteral);
    }
}

#[test]
fn test_format_from_string_literal() {
    let expr = syn::parse_str::<syn::Expr>("\"hi {}\"").unwrap();
    let fmt = pformat_macro::format_from_expr(&expr).unwrap();
    let pieces = fmt.split_into_pieces();
    assert_eq!(pieces, vec!["hi ".to_string(), "".to_string()]);
}

#[test]
fn test_argument_idents() {
    let a = pformat_macro::Argument::new(12);
    assert_eq!(a.name_ident(), "arg12");
    assert_eq!(a.type_ident(), "T12");
}

#[test]
fn test_expand_no_arguments_exact() {
    let produced = model("", no_args()).unwrap();
    let code = pformat_macro::expand(&produced);
    let expected = "{ use std::fmt::Display; use std::fmt::Formatter; use std::fmt::Result; use std::format_args; struct CompiledFormat<> { pieces: [&'static str; 1], } impl<> Display for CompiledFormat<> { fn fmt(&self, f: &mut Formatter<'_>) -> Result { f.write_str(self.pieces[0])?; Ok(()) } } CompiledFormat { pieces: [\"\", ], } }";
    assert_eq!(code, expected);
}

#[test]
fn test_expand_two_arguments_parses_and_names_fields() {
    let produced = model("Hello, {}. 1 + 1 = {} for sure!", args_of(vec!["\"Bob\"", "3"])).unwrap();
    let code = pformat_macro::expand(&produced);
    assert!(code.parse::<proc_macro2::TokenStream>().is_ok());
    assert!(code.contains("struct CompiledFormat<T0: Display, T1: Display, >"));
    assert!(code.contains("arg0: T0, arg1: T1, pieces: [&'static str; 3],"));
    assert!(code.contains("arg0: \"Bob\", arg1: 3,"));
    assert!(code.contains("pieces: [\"Hello, \", \". 1 + 1 = \", \" for sure!\", ]"));
}

#[test]
fn test_expand_escapes_segments() {
    let produced = model("x\"y\\z\n{}", args_of(vec!["1"])).unwrap();
    let code = pformat_macro::expand(&produced);
    assert!(code.contains("pieces: [\"x\\\"y\\\\z\\n\", \"\", ]"));
    assert!(code.parse::<proc_macro2::TokenStream>().is_ok());
}

#[test]
fn test_format_args_accessors() {
    let args = args_of(vec!["1", "2", "3"]);
    assert_eq!(args.len(), 3);
    assert!(args.span().is_some());
    assert_eq!(args.into_args(), vec!["1".to_string(), "2".to_string(), "3".to_string()]);
    let none = no_args();
    assert_eq!(none.len(), 0);
    assert!(none.span().is_none());
    assert_eq!(none.into_args(), Vec::<String>::new());
}

#[test]
fn test_render_twice_is_identical() {
    let produced = model("a{}b", args_of(vec!["7"])).unwrap();
    let displayed = vec!["7".to_string()];
    let first = produced.render(&displayed);
    let second = produced.render(&displayed);
    assert_eq!(first, second);
    assert_eq!(first, "a7b");
}

#[test]
fn test_argument_ident_lists() {
    let exprs = vec!["1".to_string(), "2".to_string()];
    let arguments = pformat_macro::generator::Arguments::new(&exprs);
    assert_eq!(arguments.len(), 2);
    assert_eq!(arguments.name_idents(), vec!["arg0".to_string(), "arg1".to_string()]);
    assert_eq!(arguments.type_idents(), vec!["T0".to_string(), "T1".to_string()]);
    let generics = pformat_macro::generator::StructGenericArguments::new(arguments);
    assert_eq!(generics.generics(), vec!["T0".to_string(), "T1".to_string()]);
    assert_eq!(generics.generate(), "T0, T1, ");
    assert_eq!(generics.generate_params(), "T0: Display, T1: Display, ");
}
