use type_reflect::inflect::Inflection;
use type_reflect::emitter::{run_pipeline, Emitter};
use type_reflect::numtext::usize_to_string;
use type_reflect::schema::{
    Enum, EnumCase, EnumType, Entity, NamedField, PrimitiveKind, Struct, Type,
    TypeFieldsDefinition,
};
use type_reflect::semantics::{
    validate_enum, validate_type, JsonValue, VError, ValueKind,
};
use type_reflect::ts_format::TSFormat;
use type_reflect::references::check_references;
use type_reflect::schema::GenError;
use type_reflect::ts_source::{formatted, from_source};
use type_reflect::ts_type::to_ts_type;
use type_reflect::ts_validation::untagged::unit_case_validation;
use type_reflect::ts_validation::validation::{array_validation, tuple_validation, type_validation};

fn num() -> JsonValue {
    JsonValue::Num { nonzero: true }
}

fn text(s: &str) -> JsonValue {
    JsonValue::Text(s.to_string())
}

fn obj(entries: Vec<(&str, JsonValue)>) -> JsonValue {
    JsonValue::Obj(entries.into_iter().map(|(k, v)| (k.to_string(), v)).collect())
}

fn arr(items: Vec<JsonValue>) -> JsonValue {
    JsonValue::Arr(items)
}

fn field(name: &str, type_: Type, inflection: Inflection) -> NamedField {
    NamedField {
        name: name.to_string(),
        type_,
        inflection,
    }
}

fn case(name: &str, type_: TypeFieldsDefinition, inflection: Inflection) -> EnumCase {
    EnumCase {
        name: name.to_string(),
        type_,
        inflection,
    }
}

fn rectangle() -> Struct {
    Struct {
        name: "Rectangle".to_string(),
        fields: vec![
            field(
                "width",
                Type::Primitive(PrimitiveKind::Float),
                Inflection::Unchanged,
            ),
            field(
                "height",
                Type::Primitive(PrimitiveKind::Float),
                Inflection::Unchanged,
            ),
        ],
    }
}

fn camel_untagged_shape() -> (Vec<Entity>, usize) {
    let inflection = Inflection::Camel;
    let shape = Enum {
        name: "Shape".to_string(),
        cases: vec![
            case(
                "Circle",
                TypeFieldsDefinition::Named(vec![field(
                    "radius",
                    Type::Primitive(PrimitiveKind::Float),
                    Inflection::Unchanged,
                )]),
                inflection,
            ),
            case(
                "Square",
                TypeFieldsDefinition::Named(vec![field(
                    "side",
                    Type::Primitive(PrimitiveKind::Float),
                    Inflection::Unchanged,
                )]),
                inflection,
            ),
            case(
                "Rectangle",
                TypeFieldsDefinition::Tuple(vec![Type::Named("Rectangle".to_string())]),
                inflection,
            ),
            case(
                "Scale",
                TypeFieldsDefinition::Tuple(vec![Type::Primitive(PrimitiveKind::Float)]),
                inflection,
            ),
            case(
                "ScaledRectangle",
                TypeFieldsDefinition::Tuple(vec![
                    Type::Named("Rectangle".to_string()),
                    Type::Primitive(PrimitiveKind::Float),
                ]),
                inflection,
            ),
            case("Null", TypeFieldsDefinition::Unit, inflection),
        ],
        inflection,
        enum_type: EnumType::Untagged,
    };
    let env = vec![Entity::Struct(rectangle()), Entity::Enum(shape)];
    (env, 1)
}

#[test]
fn test_validation() {
    let (env, shape_idx) = camel_untagged_shape();
    let shape = match &env[shape_idx] {
        Entity::Enum(e) => e,
        _ => panic!("expected the Shape enum"),
    };

    // Validates a Null variant: "null"
    assert_eq!(validate_enum(&env, shape, &text("null")), Ok(5));

    // Validates a Circle variant: {circle: {radius: 5.0}}
    let v = obj(vec![("circle", obj(vec![("radius", num())]))]);
    assert_eq!(validate_enum(&env, shape, &v), Ok(0));

    // Validates a Rectangle variant: {rectangle: {width: 5, height: 5}}
    let v = obj(vec![("rectangle", obj(vec![("width", num()), ("height", num())]))]);
    assert_eq!(validate_enum(&env, shape, &v), Ok(2));

    // Validates a Scale variant: {scale: 2.0}
    let v = obj(vec![("scale", num())]);
    assert_eq!(validate_enum(&env, shape, &v), Ok(3));

    // Validates a ScaledRectangle variant:
    // {scaledRectangle: [{width: 5, height: 5}, 2.0]}
    let v = obj(vec![(
        "scaledRectangle",
        arr(vec![obj(vec![("width", num()), ("height", num())]), num()]),
    )]);
    assert_eq!(validate_enum(&env, shape, &v), Ok(4));

    // Doesn't validate an incorrect ScaledRectangle variant:
    // {circle: [{width: 5, height: 5}, 2.0]}
    let v = obj(vec![(
        "circle",
        arr(vec![obj(vec![("width", num()), ("height", num())]), num()]),
    )]);
    assert!(validate_enum(&env, shape, &v).is_err());

    // A record with no wrapper key fails with no-case-matched.
    let v = obj(vec![("unrelated", num())]);
    assert_eq!(validate_enum(&env, shape, &v), Err(VError::NoCaseMatched));
}

#[test]
fn tuple_arity_is_enforced() {
    let env: Vec<Entity> = vec![];
    let two = Type::Tuple(vec![
        Type::Primitive(PrimitiveKind::Float),
        Type::Primitive(PrimitiveKind::Float),
    ]);
    // Three elements against a two-member tuple fail.
    assert_eq!(
        validate_type(&env, &two, &arr(vec![num(), num(), num()])),
        Err(VError::LengthMismatch {
            expected: 2,
            found: 3
        })
    );
    // Two elements of the right types succeed.
    assert_eq!(validate_type(&env, &two, &arr(vec![num(), num()])), Ok(()));
}

#[test]
fn runtime_error_kinds() {
    let env: Vec<Entity> = vec![];
    // Type mismatch on a primitive, naming expected and observed kinds.
    assert_eq!(
        validate_type(&env, &Type::Primitive(PrimitiveKind::Float), &text("x")),
        Err(VError::TypeMismatch {
            expected: ValueKind::Number,
            found: ValueKind::Text
        })
    );
    // Missing required field on a struct.
    let env = vec![Entity::Struct(rectangle())];
    assert_eq!(
        validate_type(
            &env,
            &Type::Named("Rectangle".to_string()),
            &obj(vec![("width", num())])
        ),
        Err(VError::MissingField)
    );
    // An optional field may be absent.
    let opt = Entity::Struct(Struct {
        name: "Holder".to_string(),
        fields: vec![field(
            "extra",
            Type::Optional(Box::new(Type::Primitive(PrimitiveKind::Int))),
            Inflection::Unchanged,
        )],
    });
    let env = vec![opt];
    assert_eq!(
        validate_type(&env, &Type::Named("Holder".to_string()), &obj(vec![])),
        Ok(())
    );
    // Unrecognized tag on a complex enum; no-case-matched on a simple one.
    let simple = Enum {
        name: "Color".to_string(),
        cases: vec![
            case("Red", TypeFieldsDefinition::Unit, Inflection::Upper),
            case("Green", TypeFieldsDefinition::Unit, Inflection::Upper),
        ],
        inflection: Inflection::Upper,
        enum_type: EnumType::Simple,
    };
    let env: Vec<Entity> = vec![];
    assert_eq!(validate_enum(&env, &simple, &text("RED")), Ok(0));
    assert_eq!(validate_enum(&env, &simple, &text("GREEN")), Ok(1));
    assert_eq!(
        validate_enum(&env, &simple, &text("BLUE")),
        Err(VError::NoCaseMatched)
    );
    let complex = Enum {
        name: "Color".to_string(),
        cases: vec![case("Red", TypeFieldsDefinition::Unit, Inflection::Upper)],
        inflection: Inflection::Upper,
        enum_type: EnumType::Complex {
            case_key: "kind".to_string(),
            content_key: Some("data".to_string()),
        },
    };
    assert_eq!(
        validate_enum(&env, &complex, &obj(vec![("kind", text("BLUE"))])),
        Err(VError::UnrecognizedTag)
    );
}

#[test]
fn emitted_fragments_are_exact() {
    // A named reference delegates: the fragment's size is independent of the
    // referenced entity's definition, so nesting cannot inflate it.
    let r = type_validation("input.items[i]", &Type::Named("A".to_string()));
    assert_eq!(r.as_str(), "A.validate(input.items[i]);\n");

    // The array rule wraps the element validation in a loop.
    let r = array_validation("input.items", &Type::Named("A".to_string()));
    assert_eq!(
        r.as_str(),
        "if (!Array.isArray(input.items)) {\nthrow new Error(`Error parsing input.items: expected: Array, found: ${typeof input.items}`);\n}\nfor (let i = 0; i < input.items.length; i++) {\nA.validate(input.items[i]);\n}\n"
    );

    // The tuple rule checks the exact length before the member validations.
    let r = tuple_validation(
        "input",
        &vec![
            Type::Primitive(PrimitiveKind::Boolean),
            Type::Primitive(PrimitiveKind::Text),
        ],
    );
    assert_eq!(
        r.as_str(),
        "if (!Array.isArray(input)) {\nthrow new Error(`Error parsing input: expected: Array, found: ${typeof input}`);\n}\nif (input.length !== 2) {\nthrow new Error(`Error parsing input: expected: Array of length 2, found: length ${input.length}`);\n}\nif (typeof input[0] !== 'boolean') {\nthrow new Error(`Error parsing input[0]: expected: boolean, found: ${typeof input[0]}`);\n}\nif (typeof input[1] !== 'string') {\nthrow new Error(`Error parsing input[1]: expected: string, found: ${typeof input[1]}`);\n}\n"
    );

    // A unit case test compares against the exact literal.
    let r = unit_case_validation("NULL", "Shape");
    assert_eq!(
        r.as_str(),
        "if (input === 'NULL') {\nreturn input as Shape;\n}\n"
    );

    // A simple enum declaration, exactly.
    let color = Enum {
        name: "Color".to_string(),
        cases: vec![
            case("Red", TypeFieldsDefinition::Unit, Inflection::Upper),
            case("Green", TypeFieldsDefinition::Unit, Inflection::Upper),
        ],
        inflection: Inflection::Upper,
        enum_type: EnumType::Simple,
    };
    let r = type_reflect::type_script::enum_type::emit_simple_enum_type(&color);
    assert_eq!(
        r.as_str(),
        "\nexport enum Color {\n  Red = \"RED\",\n  Green = \"GREEN\",\n}\n"
    );
}

#[test]
fn dangling_reference_is_rejected_at_generation_time() {
    let holder = Entity::Struct(Struct {
        name: "Holder".to_string(),
        fields: vec![field(
            "items",
            Type::Array(Box::new(Type::Named("Missing".to_string()))),
            Inflection::Unchanged,
        )],
    });
    let entities = vec![holder];
    let r = check_references(&entities);
    assert!(
        matches!(r, Err(GenError::UnresolvedReference { ref entity_name, ref reference }) if entity_name == "Holder" && reference == "Missing")
    );

    let rect = Entity::Struct(rectangle());
    let holder = Entity::Struct(Struct {
        name: "Holder".to_string(),
        fields: vec![field(
            "items",
            Type::Array(Box::new(Type::Named("Rectangle".to_string()))),
            Inflection::Unchanged,
        )],
    });
    let entities = vec![rect, holder];
    assert!(check_references(&entities).is_ok());
}

#[test]
fn nested_reference_stays_linear() {
    // A struct holding a list of itself: the emitted validator delegates to
    // the struct's own validator instead of inlining it, so the fragment's
    // size is fixed however deep the data nests.
    let a = Struct {
        name: "A".to_string(),
        fields: vec![field(
            "children",
            Type::Array(Box::new(Type::Named("A".to_string()))),
            Inflection::Unchanged,
        )],
    };
    let v = type_reflect::ts_validation::struct_validation(&a);
    assert_eq!(
        v.as_str(),
        "export namespace A {
export function validate(input: any): A {
if (!isRecord(input)) {
throw new Error(`Error parsing A: expected: Record, found: ${typeof input}`);
}
if (input.children === undefined) {
throw new Error(`Error parsing input: missing required field: children`);
}
if (!Array.isArray(input.children)) {
throw new Error(`Error parsing input.children: expected: Array, found: ${typeof input.children}`);
}
for (let i = 0; i < input.children.length; i++) {
A.validate(input.children[i]);
}
return input as A;
}
}
"
    );
}

#[test]
fn untagged_declaration_order_breaks_ties() {
    // When two wrapper keys are present at once, the first declared case
    // wins: declaration order is the documented disambiguation priority.
    let (env, shape_idx) = camel_untagged_shape();
    let shape = match &env[shape_idx] {
        Entity::Enum(e) => e,
        _ => panic!("expected the Shape enum"),
    };
    let v = obj(vec![
        (
            "scaledRectangle",
            arr(vec![obj(vec![("width", num()), ("height", num())]), num()]),
        ),
        ("scale", num()),
    ]);
    // Scale is declared before ScaledRectangle, so it wins even though the
    // other wrapper key is present too.
    assert_eq!(validate_enum(&env, shape, &v), Ok(3));
}

#[test]
fn untagged_enum_without_cases_is_never() {
    let empty = Enum {
        name: "Nothing".to_string(),
        cases: vec![],
        inflection: Inflection::Unchanged,
        enum_type: EnumType::Untagged,
    };
    let r = type_reflect::type_script::enum_type::emit_enum_type(&empty).unwrap();
    assert_eq!(r.as_str(), "export type Nothing = never;\n");
}

#[test]
fn type_text_shapes() {
    assert_eq!(
        to_ts_type(&Type::Primitive(PrimitiveKind::Text)).as_str(),
        "string"
    );
    assert_eq!(
        to_ts_type(&Type::Array(Box::new(Type::Primitive(PrimitiveKind::Int)))).as_str(),
        "number[]"
    );
    assert_eq!(
        to_ts_type(&Type::Array(Box::new(Type::Optional(Box::new(
            Type::Primitive(PrimitiveKind::Int)
        )))))
        .as_str(),
        "(number | undefined)[]"
    );
    assert_eq!(
        to_ts_type(&Type::Tuple(vec![
            Type::Named("Rectangle".to_string()),
            Type::Primitive(PrimitiveKind::Float),
        ]))
        .as_str(),
        "[Rectangle, number]"
    );
    assert_eq!(
        to_ts_type(&Type::Optional(Box::new(Type::Primitive(
            PrimitiveKind::Boolean
        ))))
        .as_str(),
        "boolean | undefined"
    );
}

#[test]
fn decimal_rendering() {
    assert_eq!(usize_to_string(0).as_str(), "0");
    assert_eq!(usize_to_string(9).as_str(), "9");
    assert_eq!(usize_to_string(10).as_str(), "10");
    assert_eq!(usize_to_string(137).as_str(), "137");
}

#[test]
fn pipeline_withholds_dangling_reference() {
    let holder = Entity::Struct(Struct {
        name: "Holder".to_string(),
        fields: vec![field(
            "items",
            Type::Array(Box::new(Type::Named("Missing".to_string()))),
            Inflection::Unchanged,
        )],
    });
    let rect = Entity::Struct(rectangle());
    let entities = vec![holder, rect];
    let emitters = vec![Emitter::TypeScript, Emitter::TSValidation];
    let (output, errors) = run_pipeline(&emitters, &entities);
    assert_eq!(errors.len(), 1);
    assert!(
        matches!(errors[0], GenError::UnresolvedReference { ref entity_name, ref reference } if entity_name == "Holder" && reference == "Missing")
    );
    assert!(output.contains("export type Rectangle"));
    assert!(!output.contains("Holder"));
}

#[test]
fn leading_byte_order_mark_is_stripped() {
    let ts = from_source("\u{feff}let a = 1; let b = 2;".to_string()).unwrap();
    let output = formatted(&ts, None).unwrap();
    assert_eq!(output.as_str(), "let a = 1;\nlet b = 2;\n");
}

#[test]
fn canonical_text_comes_back_unchanged() {
    let ts = from_source("let a = 1;\n".to_string()).unwrap();
    let output = formatted(&ts, None).unwrap();
    assert_eq!(output.as_str(), "let a = 1;\n");
}

#[test]
fn test_format_source_from_string() {
    let ts = from_source("let a = 1; let b = 2;".to_string()).unwrap();

    let output = formatted(&ts, None).unwrap();

    println!("output:");
    println!("{}", output);

    assert_eq!(output.as_str(), "let a = 1;\nlet b = 2;\n");
}

#[test]
fn source_that_does_not_parse_is_rejected() {
    assert!(from_source("let a = (".to_string()).is_err());
}

#[test]
fn formatter_options_are_applied() {
    let fmt = TSFormat {
        tab_size: 2,
        line_width: 80,
    };
    let out = fmt
        .format("const  t  =  5 ;\n".to_string())
        .unwrap()
        .expect("the text is not canonical, so new text comes back");
    assert_eq!(out.as_str(), "const t = 5;\n");
}
