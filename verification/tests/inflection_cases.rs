use type_reflect::emitter::{run_pipeline, Emitter};
use type_reflect::inflect::{inflect, Inflection};
use type_reflect::schema::{
    EnumCase, EnumType, Entity, GenError, NamedField, PrimitiveKind, Type, TypeFieldsDefinition,
};
use type_reflect::semantics::validate_enum;
use type_reflect::ts_format::TSFormat;

use type_reflect::schema::{Enum, Struct};
use type_reflect::semantics::JsonValue;

fn num() -> JsonValue {
    JsonValue::Num { nonzero: true }
}

fn text(s: &str) -> JsonValue {
    JsonValue::Text(s.to_string())
}

fn obj(entries: Vec<(&str, JsonValue)>) -> JsonValue {
    JsonValue::Obj(entries.into_iter().map(|(k, v)| (k.to_string(), v)).collect())
}

fn arr(items: Vec<JsonValue>) -> JsonValue {
    JsonValue::Arr(items)
}

fn field(name: &str, type_: Type, inflection: Inflection) -> NamedField {
    NamedField {
        name: name.to_string(),
        type_,
        inflection,
    }
}

fn rectangle(inflection: Inflection) -> Struct {
    Struct {
        name: "Rectangle".to_string(),
        fields: vec![
            field("width", Type::Primitive(PrimitiveKind::Float), inflection),
            field("height", Type::Primitive(PrimitiveKind::Float), inflection),
        ],
    }
}

fn case(name: &str, type_: TypeFieldsDefinition, inflection: Inflection) -> EnumCase {
    EnumCase {
        name: name.to_string(),
        type_,
        inflection,
    }
}

/// The tagged `Shape` schema: cases Circle{radius}, Square{side},
/// Rectangle(Rectangle), ScaledRectangle(Rectangle, u32), Null.
fn tagged_shape(inflection: Inflection) -> (Vec<Entity>, usize) {
    let shape = Enum {
        name: "Shape".to_string(),
        cases: vec![
            case(
                "Circle",
                TypeFieldsDefinition::Named(vec![field(
                    "radius",
                    Type::Primitive(PrimitiveKind::Float),
                    Inflection::Unchanged,
                )]),
                inflection,
            ),
            case(
                "Square",
                TypeFieldsDefinition::Named(vec![field(
                    "side",
                    Type::Primitive(PrimitiveKind::Float),
                    Inflection::Unchanged,
                )]),
                inflection,
            ),
            case(
                "Rectangle",
                TypeFieldsDefinition::Tuple(vec![Type::Named("Rectangle".to_string())]),
                inflection,
            ),
            case(
                "ScaledRectangle",
                TypeFieldsDefinition::Tuple(vec![
                    Type::Named("Rectangle".to_string()),
                    Type::Primitive(PrimitiveKind::UnsignedInt),
                ]),
                inflection,
            ),
            case("Null", TypeFieldsDefinition::Unit, inflection),
        ],
        inflection,
        enum_type: EnumType::Complex {
            case_key: "_case".to_string(),
            content_key: Some("data".to_string()),
        },
    };
    let env = vec![
        Entity::Struct(rectangle(Inflection::Unchanged)),
        Entity::Enum(shape),
    ];
    (env, 1)
}

/// The untagged `Shape` schema: cases Circle{radius}, Square{side},
/// Rectangle(Rectangle), Scale(f32), ScaledRectangle(Rectangle, f32), Null.
fn untagged_shape(inflection: Inflection) -> (Vec<Entity>, usize) {
    let shape = Enum {
        name: "Shape".to_string(),
        cases: vec![
            case(
                "Circle",
                TypeFieldsDefinition::Named(vec![field(
                    "radius",
                    Type::Primitive(PrimitiveKind::Float),
                    Inflection::Unchanged,
                )]),
                inflection,
            ),
            case(
                "Square",
                TypeFieldsDefinition::Named(vec![field(
                    "side",
                    Type::Primitive(PrimitiveKind::Float),
                    Inflection::Unchanged,
                )]),
                inflection,
            ),
            case(
                "Rectangle",
                TypeFieldsDefinition::Tuple(vec![Type::Named("Rectangle".to_string())]),
                inflection,
            ),
            case(
                "Scale",
                TypeFieldsDefinition::Tuple(vec![Type::Primitive(PrimitiveKind::Float)]),
                inflection,
            ),
            case(
                "ScaledRectangle",
                TypeFieldsDefinition::Tuple(vec![
                    Type::Named("Rectangle".to_string()),
                    Type::Primitive(PrimitiveKind::Float),
                ]),
                inflection,
            ),
            case("Null", TypeFieldsDefinition::Unit, inflection),
        ],
        inflection,
        enum_type: EnumType::Untagged,
    };
    let env = vec![
        Entity::Struct(rectangle(Inflection::Unchanged)),
        Entity::Enum(shape),
    ];
    (env, 1)
}

const SCREAMING: Inflection = Inflection::ScreamingSnake;

#[test]
fn test_screaming_snake() {
    let (env, shape_idx) = tagged_shape(SCREAMING);
    let emitters = vec![
        Emitter::TypeScript,
        Emitter::TSValidation,
        Emitter::Format(TSFormat {
            tab_size: 2,
            line_width: 80,
        }),
    ];
    let (output, errors) = run_pipeline(&emitters, &env);
    assert!(errors.is_empty());
    assert!(output.contains("export const ShapeCaseKey"));
    assert!(output.contains("\"CIRCLE\""));
    assert!(output.contains("\"SCALED_RECTANGLE\""));
    assert!(output.contains("export namespace Shape"));

    let shape = match &env[shape_idx] {
        Entity::Enum(e) => e,
        _ => panic!("expected the Shape enum"),
    };

    // Validates a Null variant: {_case: "NULL"}
    let v = obj(vec![("_case", text("NULL"))]);
    assert_eq!(validate_enum(&env, shape, &v), Ok(4));

    // Validates a Circle variant: {_case: "CIRCLE", data: {radius: 1.7}}
    let v = obj(vec![
        ("_case", text("CIRCLE")),
        ("data", obj(vec![("radius", num())])),
    ]);
    assert_eq!(validate_enum(&env, shape, &v), Ok(0));

    // Validates a Rectangle variant: {_case: "RECTANGLE", data: {width: 1, height: 2}}
    let v = obj(vec![
        ("_case", text("RECTANGLE")),
        ("data", obj(vec![("width", num()), ("height", num())])),
    ]);
    assert_eq!(validate_enum(&env, shape, &v), Ok(2));

    // Validates a ScaledRectangle variant:
    // {_case: "SCALED_RECTANGLE", data: [{width: 1, height: 2}, 0.5]}
    let v = obj(vec![
        ("_case", text("SCALED_RECTANGLE")),
        (
            "data",
            arr(vec![obj(vec![("width", num()), ("height", num())]), num()]),
        ),
    ]);
    assert_eq!(validate_enum(&env, shape, &v), Ok(3));

    // Doesn't validate an incorrect ScaledRectangle variant:
    // {_case: "CIRCLE", data: [{width: 1, height: 2}, 0.5]} — the payload
    // shape of a different case, under the matched case's tag.
    let v = obj(vec![
        ("_case", text("CIRCLE")),
        (
            "data",
            arr(vec![obj(vec![("width", num()), ("height", num())]), num()]),
        ),
    ]);
    assert!(validate_enum(&env, shape, &v).is_err());
}

#[test]
fn test_untagged_screaming_snake() {
    let (env, shape_idx) = untagged_shape(SCREAMING);
    let emitters = vec![
        Emitter::TypeScript,
        Emitter::TSValidation,
        Emitter::Format(TSFormat {
            tab_size: 2,
            line_width: 60,
        }),
    ];
    let (output, errors) = run_pipeline(&emitters, &env);
    assert!(errors.is_empty());
    assert!(output.contains("'NULL'"));
    assert!(output.contains("SCALED_RECTANGLE?: "));

    let shape = match &env[shape_idx] {
        Entity::Enum(e) => e,
        _ => panic!("expected the Shape enum"),
    };

    // Validates a Null variant: "NULL"
    assert_eq!(validate_enum(&env, shape, &text("NULL")), Ok(5));

    // Validates a Circle variant: {CIRCLE: {radius: 1.7}}
    let v = obj(vec![("CIRCLE", obj(vec![("radius", num())]))]);
    assert_eq!(validate_enum(&env, shape, &v), Ok(0));

    // Validates a Rectangle variant: {RECTANGLE: {width: 1, height: 2}}
    let v = obj(vec![("RECTANGLE", obj(vec![("width", num()), ("height", num())]))]);
    assert_eq!(validate_enum(&env, shape, &v), Ok(2));

    // Validates a ScaledRectangle variant:
    // {SCALED_RECTANGLE: [{width: 1, height: 2}, 0.5]}
    let v = obj(vec![(
        "SCALED_RECTANGLE",
        arr(vec![obj(vec![("width", num()), ("height", num())]), num()]),
    )]);
    assert_eq!(validate_enum(&env, shape, &v), Ok(4));

    // Doesn't validate an incorrect ScaledRectangle variant:
    // {CIRCLE: [{width: 1, height: 2}, 0.5]}
    let v = obj(vec![(
        "CIRCLE",
        arr(vec![obj(vec![("width", num()), ("height", num())]), num()]),
    )]);
    assert!(validate_enum(&env, shape, &v).is_err());
}

#[test]
fn inflect_is_pure_and_changes_case() {
    let a = inflect("ScaledRectangle", Inflection::ScreamingSnake);
    let b = inflect("ScaledRectangle", Inflection::ScreamingSnake);
    assert_eq!(a, b);
    assert_eq!(a.as_str(), "SCALED_RECTANGLE");
    assert_eq!(inflect("FooBar", Inflection::Snake).as_str(), "foo_bar");
    assert_eq!(inflect("FooBar", Inflection::Camel).as_str(), "fooBar");
    assert_eq!(inflect("foo_bar", Inflection::Pascal).as_str(), "FooBar");
    assert_eq!(inflect("FooBar", Inflection::Kebab).as_str(), "foo-bar");
    assert_eq!(inflect("FooBar", Inflection::Unchanged).as_str(), "FooBar");
    assert_eq!(inflect("FooBar", Inflection::Lower).as_str(), "foobar");
    assert_eq!(inflect("FooBar", Inflection::Upper).as_str(), "FOOBAR");
}

#[test]
fn complex_without_content_key_is_rejected() {
    let e = type_reflect::schema::Enum {
        name: "Shape".to_string(),
        cases: vec![
            EnumCase {
                name: "Null".to_string(),
                type_: TypeFieldsDefinition::Unit,
                inflection: Inflection::ScreamingSnake,
            },
            EnumCase {
                name: "Scale".to_string(),
                type_: TypeFieldsDefinition::Tuple(vec![Type::Primitive(PrimitiveKind::Float)]),
                inflection: Inflection::ScreamingSnake,
            },
        ],
        inflection: Inflection::ScreamingSnake,
        enum_type: EnumType::Complex {
            case_key: "_case".to_string(),
            content_key: None,
        },
    };
    let r = type_reflect::type_script::enum_type::emit_enum_type(&e);
    assert!(
        matches!(r, Err(GenError::MissingContentKey { ref enum_name, ref case_name }) if enum_name == "Shape" && case_name == "Scale")
    );
    let r = type_reflect::ts_validation::enum_type::emit_enum_type(&e);
    assert!(matches!(r, Err(GenError::MissingContentKey { .. })));
}

#[test]
fn untagged_duplicate_wrapper_key_is_rejected() {
    // Two payload-bearing cases whose names inflect to the same wrapper key.
    let e = type_reflect::schema::Enum {
        name: "Shape".to_string(),
        cases: vec![
            EnumCase {
                name: "FooBar".to_string(),
                type_: TypeFieldsDefinition::Tuple(vec![Type::Primitive(PrimitiveKind::Float)]),
                inflection: Inflection::ScreamingSnake,
            },
            EnumCase {
                name: "foo_bar".to_string(),
                type_: TypeFieldsDefinition::Tuple(vec![Type::Primitive(PrimitiveKind::Int)]),
                inflection: Inflection::ScreamingSnake,
            },
        ],
        inflection: Inflection::ScreamingSnake,
        enum_type: EnumType::Untagged,
    };
    let r = type_reflect::type_script::enum_type::emit_enum_type(&e);
    assert!(
        matches!(r, Err(GenError::DuplicateWrapperKey { ref enum_name, ref key }) if enum_name == "Shape" && key == "FOO_BAR")
    );
    let r = type_reflect::ts_validation::enum_type::emit_enum_type(&e);
    assert!(matches!(r, Err(GenError::DuplicateWrapperKey { .. })));
}

#[test]
fn pipeline_withholds_failing_entity() {
    let good = Entity::Struct(type_reflect::schema::Struct {
        name: "Point".to_string(),
        fields: vec![NamedField {
            name: "x".to_string(),
            type_: Type::Primitive(PrimitiveKind::Float),
            inflection: Inflection::Unchanged,
        }],
    });
    let bad = Entity::Enum(type_reflect::schema::Enum {
        name: "Broken".to_string(),
        cases: vec![EnumCase {
            name: "Payload".to_string(),
            type_: TypeFieldsDefinition::Tuple(vec![Type::Primitive(PrimitiveKind::Int)]),
            inflection: Inflection::Unchanged,
        }],
        inflection: Inflection::Unchanged,
        enum_type: EnumType::Complex {
            case_key: "kind".to_string(),
            content_key: None,
        },
    });
    let entities = vec![bad, good];
    let emitters = vec![Emitter::TypeScript, Emitter::TSValidation];
    let (output, errors) = run_pipeline(&emitters, &entities);
    assert_eq!(errors.len(), 1);
    assert!(matches!(errors[0], GenError::MissingContentKey { .. }));
    assert!(output.contains("export type Point"));
    assert!(output.contains("export function isRecord"));
    assert!(!output.contains("Broken"));
}
