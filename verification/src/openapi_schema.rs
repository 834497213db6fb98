//! Schemas of Rust types: the basic schema types and the `SchemaGenerator` trait with its
//! implementations for the primitive and collection types.
use vstd::prelude::*;
use crate::openapi_builder::{is_plain_object, is_plain_schema, plain_object};
use crate::openapi_spec::{Schema, SchemaObject};

verus! {

/// Schema type for basic type classification.
#[derive(Debug, Clone, Copy, PartialEq, Eq, Structural)]
pub enum SchemaType {
    String,
    Integer,
    Number,
    Boolean,
    Array,
    Object,
}

impl SchemaType {
    /// The OpenAPI type name.
    pub open spec fn name_spec(self) -> Seq<char> {
        match self {
            SchemaType::String => "string"@,
            SchemaType::Integer => "integer"@,
            SchemaType::Number => "number"@,
            SchemaType::Boolean => "boolean"@,
            SchemaType::Array => "array"@,
            SchemaType::Object => "object"@,
        }
    }

    /// The OpenAPI type name.
    pub fn as_str(&self) -> (s: &'static str)
        ensures
            s@ == self.name_spec(),
    {
        proof {
            reveal_strlit("string");
            reveal_strlit("integer");
            reveal_strlit("number");
            reveal_strlit("boolean");
            reveal_strlit("array");
            reveal_strlit("object");
        }
        match self {
            SchemaType::String => "string",
            SchemaType::Integer => "integer",
            SchemaType::Number => "number",
            SchemaType::Boolean => "boolean",
            SchemaType::Array => "array",
            SchemaType::Object => "object",
        }
    }
}

/// Types that can give their OpenAPI schema.
pub trait SchemaGenerator {
    /// Whether `s` is the OpenAPI schema of the type. An implementation that does not say
    /// what its schema is allows any schema.
    open spec fn is_schema_of_type(s: Schema) -> bool {
        true
    }

    /// The OpenAPI schema of the type.
    fn schema() -> (s: Schema)
        ensures
            Self::is_schema_of_type(s),
    ;

    /// The schema's name, for component references; by default there is none.
    fn schema_name() -> (n: Option<String>)
        default_ensures
            n is None,
    {
        None
    }
}

/// A schema marked nullable: an inline schema gets `nullable: true`, a reference is kept.
pub open spec fn nullable_schema(s: Schema) -> Schema {
    match s {
        Schema::Object(o) => Schema::Object(SchemaObject { nullable: Some(true), ..o }),
        other => other,
    }
}

impl SchemaGenerator for String {
    open spec fn is_schema_of_type(s: Schema) -> bool {
        is_plain_schema(s, "string"@, None)
    }

    fn schema() -> (s: Schema)
        ensures
            is_plain_schema(s, "string"@, None),
    {
        Schema::Object(plain_object("string", None))
    }
}

impl SchemaGenerator for &str {
    open spec fn is_schema_of_type(s: Schema) -> bool {
        is_plain_schema(s, "string"@, None)
    }

    fn schema() -> (s: Schema)
        ensures
            is_plain_schema(s, "string"@, None),
    {
        <String as SchemaGenerator>::schema()
    }
}

impl SchemaGenerator for i32 {
    open spec fn is_schema_of_type(s: Schema) -> bool {
        is_plain_schema(s, "integer"@, Some("int32"@))
    }

    fn schema() -> (s: Schema)
        ensures
            is_plain_schema(s, "integer"@, Some("int32"@)),
    {
        Schema::Object(plain_object("integer", Some("int32")))
    }
}

impl SchemaGenerator for i64 {
    open spec fn is_schema_of_type(s: Schema) -> bool {
        is_plain_schema(s, "integer"@, Some("int64"@))
    }

    fn schema() -> (s: Schema)
        ensures
            is_plain_schema(s, "integer"@, Some("int64"@)),
    {
        Schema::Object(plain_object("integer", Some("int64")))
    }
}

impl SchemaGenerator for u32 {
    open spec fn is_schema_of_type(s: Schema) -> bool {
        is_plain_schema(s, "integer"@, Some("int32"@))
    }

    fn schema() -> (s: Schema)
        ensures
            is_plain_schema(s, "integer"@, Some("int32"@)),
    {
        Schema::Object(plain_object("integer", Some("int32")))
    }
}

impl SchemaGenerator for u64 {
    open spec fn is_schema_of_type(s: Schema) -> bool {
        is_plain_schema(s, "integer"@, Some("int64"@))
    }

    fn schema() -> (s: Schema)
        ensures
            is_plain_schema(s, "integer"@, Some("int64"@)),
    {
        Schema::Object(plain_object("integer", Some("int64")))
    }
}

impl SchemaGenerator for bool {
    open spec fn is_schema_of_type(s: Schema) -> bool {
        is_plain_schema(s, "boolean"@, None)
    }

    fn schema() -> (s: Schema)
        ensures
            is_plain_schema(s, "boolean"@, None),
    {
        Schema::Object(plain_object("boolean", None))
    }
}

impl<T: SchemaGenerator> SchemaGenerator for Vec<T> {
    open spec fn is_schema_of_type(s: Schema) -> bool {
        &&& s matches Schema::Object(o) && is_plain_object(
            SchemaObject { items: None, ..o },
            "array"@,
            None,
        )
        &&& s->Object_0.items matches Some(b) && T::is_schema_of_type(*b)
    }

    /// An array schema whose items are the element type's schema.
    fn schema() -> (s: Schema)
        ensures
            s matches Schema::Object(o) && is_plain_object(
                SchemaObject { items: None, ..o },
                "array"@,
                None,
            ) && o.items is Some,
    {
        let mut o = plain_object("array", None);
        o.items = Some(Box::new(T::schema()));
        Schema::Object(o)
    }
}

impl<T: SchemaGenerator> SchemaGenerator for Option<T> {
    open spec fn is_schema_of_type(s: Schema) -> bool {
        exists|t: Schema| #[trigger] T::is_schema_of_type(t) && s == nullable_schema(t)
    }

    /// The inner type's schema, marked nullable when it is inline.
    fn schema() -> (s: Schema)
        ensures
            s matches Schema::Object(o) ==> o.nullable == Some(true),
    {
        let s = T::schema();
        let ghost t = s;
        assert(T::is_schema_of_type(t));
        match s {
            Schema::Object(o) => {
                let mut o = o;
                o.nullable = Some(true);
                Schema::Object(o)
            },
            other => other,
        }
    }
}

impl<K: SchemaGenerator, V: SchemaGenerator> SchemaGenerator for std::collections::HashMap<K, V> {
    open spec fn is_schema_of_type(s: Schema) -> bool {
        is_plain_schema(s, "object"@, None)
    }

    fn schema() -> (s: Schema)
        ensures
            is_plain_schema(s, "object"@, None),
    {
        Schema::Object(plain_object("object", None))
    }
}

} // verus!
