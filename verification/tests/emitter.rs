use zap::config::{Casing, Config, Parameter, Prim, Ty, YieldType};
use zap::output::typescript::client::ClientOutput;
use zap::output::typescript::{lower_ty, ConfigProvider, Output};
use zap::text::decimal_string;

fn config_with(casing: Casing) -> Config<'static> {
    Config {
        tydecls: vec![],
        evdecls: vec![],
        fndecls: vec![],
        typescript: true,
        casing,
        yield_type: YieldType::Yield,
    }
}

fn number<'src>() -> Ty<'src> {
    Ty::Prim(Prim::Number)
}

#[test]
fn emitter_starts_empty_and_collects_appended_text() {
    let config = config_with(Casing::Camel);
    let mut out = ClientOutput::new(&config);
    assert_eq!(out.as_str(), "");
    out.push("a");
    out.push("");
    out.push("bc");
    assert_eq!(out.as_str(), "abc");
}

#[test]
fn emitter_reads_the_description_it_was_made_over() {
    let config = config_with(Casing::Snake);
    let out = ClientOutput::new(&config);
    assert_eq!(out.get_config().casing, Casing::Snake);
    assert!(out.get_config().typescript);
}

#[test]
fn lines_are_indented_by_the_nesting_depth() {
    let config = config_with(Casing::Camel);
    let mut out = ClientOutput::new(&config);
    out.push_line("zero");
    out.indent();
    out.push_line("one");
    out.indent();
    out.push_line("two");
    out.push_indent();
    out.push("|");
    out.dedent();
    out.dedent();
    out.push_indent();
    out.push_line("back");
    assert_eq!(out.as_str(), "zero\n\tone\n\t\ttwo\n\t\t|back\n");
}

#[test]
fn file_header_names_the_role() {
    let config = config_with(Casing::Camel);
    let mut out = ClientOutput::new(&config);
    out.push_file_header("Client");
    out.indent();
    out.push_file_header("Server");
    assert_eq!(
        out.as_str(),
        "// Client generated by Zap\n\t// Server generated by Zap\n"
    );
}

#[test]
fn scaffold_lines_are_fixed() {
    let config = config_with(Casing::Pascal);
    let mut out = ClientOutput::new(&config);
    out.push_iter_type();
    out.push_event_loop();
    assert_eq!(
        out.as_str(),
        "type Iter<T> = IterableFunction<T>;\nexport declare const SendEvents: () => void;\n"
    );
}

#[test]
fn primitive_types_lower_to_their_names() {
    assert_eq!(lower_ty(&Ty::Prim(Prim::Number)), "number");
    assert_eq!(lower_ty(&Ty::Prim(Prim::String)), "string");
    assert_eq!(lower_ty(&Ty::Prim(Prim::Boolean)), "boolean");
    assert_eq!(lower_ty(&Ty::Prim(Prim::Buffer)), "buffer");
    assert_eq!(lower_ty(&Ty::Prim(Prim::Unknown)), "unknown");
}

#[test]
fn composite_types_lower_through_their_elements() {
    assert_eq!(lower_ty(&Ty::Opt(Box::new(number()))), "(number | undefined)");
    assert_eq!(lower_ty(&Ty::Arr(Box::new(number()))), "number[]");
    assert_eq!(
        lower_ty(&Ty::Dict(Box::new(Ty::Prim(Prim::String)), Box::new(number()))),
        "Map<string, number>"
    );
    assert_eq!(lower_ty(&Ty::Tuple(vec![])), "[]");
    assert_eq!(lower_ty(&Ty::Tuple(vec![number()])), "[number]");
    assert_eq!(
        lower_ty(&Ty::Tuple(vec![number(), Ty::Prim(Prim::Boolean), Ty::Ref("Score")])),
        "[number, boolean, Score]"
    );
    assert_eq!(lower_ty(&Ty::Ref("Score")), "Score");
    assert_eq!(lower_ty(&Ty::Lit("ready")), "\"ready\"");
}

#[test]
fn nested_types_lower_recursively() {
    let ty = Ty::Arr(Box::new(Ty::Opt(Box::new(Ty::Dict(
        Box::new(Ty::Lit("key")),
        Box::new(Ty::Tuple(vec![
            Ty::Arr(Box::new(number())),
            Ty::Opt(Box::new(Ty::Ref("Score"))),
        ])),
    )))));
    assert_eq!(
        lower_ty(&ty),
        "(Map<\"key\", [number[], (Score | undefined)]> | undefined)[]"
    );
}

#[test]
fn push_ty_appends_the_lowered_type() {
    let config = config_with(Casing::Camel);
    let mut out = ClientOutput::new(&config);
    out.push("x: ");
    out.push_ty(&Ty::Opt(Box::new(number())));
    assert_eq!(out.as_str(), "x: (number | undefined)");
}

#[test]
fn parameters_are_positional_and_comma_separated() {
    let config = config_with(Casing::Camel);
    let mut out = ClientOutput::new(&config);
    out.push_parameters(&[]);
    assert_eq!(out.as_str(), "");

    let parameters = vec![
        Parameter { name: None, ty: number() },
        Parameter { name: Some("who"), ty: Ty::Ref("Name") },
        Parameter { name: None, ty: Ty::Prim(Prim::Boolean) },
    ];
    out.push_parameters(&parameters);
    assert_eq!(out.as_str(), "value: number, who: Name, value3: boolean");
}

#[test]
fn first_unnamed_parameter_has_the_bare_value_name() {
    let parameters = vec![
        Parameter { name: None, ty: number() },
        Parameter { name: None, ty: number() },
    ];

    let pascal = config_with(Casing::Pascal);
    let mut out = ClientOutput::new(&pascal);
    out.push_parameters(&parameters);
    assert_eq!(out.as_str(), "Value: number, Value2: number");

    let snake = config_with(Casing::Snake);
    let mut out = ClientOutput::new(&snake);
    out.push_parameters(&parameters);
    assert_eq!(out.as_str(), "value: number, value2: number");
}

#[test]
fn decimal_numerals_have_no_leading_zeros() {
    assert_eq!(decimal_string(0), "0");
    assert_eq!(decimal_string(7), "7");
    assert_eq!(decimal_string(9), "9");
    assert_eq!(decimal_string(10), "10");
    assert_eq!(decimal_string(12), "12");
    assert_eq!(decimal_string(100), "100");
    assert_eq!(decimal_string(1234567890), "1234567890");
    assert_eq!(decimal_string(usize::MAX), format!("{}", usize::MAX));
}

#[test]
fn one_parameter_is_named_by_its_position() {
    let config = config_with(Casing::Camel);
    let mut out = ClientOutput::new(&config);
    out.push_parameter(0, &Parameter { name: None, ty: number() });
    out.push("|");
    out.push_parameter(1, &Parameter { name: None, ty: number() });
    out.push("|");
    out.push_parameter(41, &Parameter { name: None, ty: number() });
    out.push("|");
    out.push_parameter(41, &Parameter { name: Some("answer"), ty: number() });
    assert_eq!(
        out.as_str(),
        "value: number|value2: number|value42: number|answer: number"
    );
}
