use rustboot::openapi_builder::{
    array, integer, reference, string, OpenApiBuilder, OperationBuilder, PathItemBuilder,
};
use rustboot::openapi_schema::{SchemaGenerator, SchemaType};
use rustboot::openapi_spec::{
    OpenApiSpec, Parameter, ParameterLocation, Response, Schema, SecurityScheme, Tag,
};
use rustboot::strmap::StrMap;
use rustboot::swagger_ui::{generate_swagger_ui_html, SwaggerUiConfig};

#[test]
fn test_openapi_builder() {
    let spec = OpenApiBuilder::new()
        .title("Test API")
        .version("1.0.0")
        .description("A test API specification")
        .server("https://api.example.com", Some("Production server".to_string()))
        .tag("users", Some("User management endpoints".to_string()))
        .build();
    assert_eq!(spec.info.title, "Test API");
    assert_eq!(spec.info.version, "1.0.0");
    assert_eq!(spec.info.description, Some("A test API specification".to_string()));
    assert_eq!(spec.servers.len(), 1);
    assert_eq!(spec.servers[0].url, "https://api.example.com");
    assert_eq!(spec.tags.len(), 1);
    assert_eq!(spec.tags[0].name, "users");
}

#[test]
fn test_path_builder() {
    let operation = OperationBuilder::new()
        .tag("users")
        .summary("Get user by ID")
        .operation_id("getUserById")
        .response(
            "200",
            Response {
                description: "User found".to_string(),
                content: StrMap::new(),
                headers: StrMap::new(),
            },
        )
        .build();
    let path_item = PathItemBuilder::new().get(operation).build();
    assert!(path_item.get.is_some());
    let get_op = path_item.get.unwrap();
    assert_eq!(get_op.tags, vec!["users"]);
    assert_eq!(get_op.summary, Some("Get user by ID".to_string()));
    assert_eq!(get_op.operation_id, Some("getUserById".to_string()));
}

#[test]
fn test_schema_primitives() {
    let string_schema = <String as SchemaGenerator>::schema();
    if let Schema::Object(obj) = string_schema {
        assert_eq!(obj.schema_type, Some("string".to_string()));
    } else {
        panic!("Expected object schema");
    }
    let int_schema = <i64 as SchemaGenerator>::schema();
    if let Schema::Object(obj) = int_schema {
        assert_eq!(obj.schema_type, Some("integer".to_string()));
        assert_eq!(obj.format, Some("int64".to_string()));
    } else {
        panic!("Expected object schema");
    }
    let bool_schema = <bool as SchemaGenerator>::schema();
    if let Schema::Object(obj) = bool_schema {
        assert_eq!(obj.schema_type, Some("boolean".to_string()));
    } else {
        panic!("Expected object schema");
    }
}

#[test]
fn test_schema_array() {
    let array_schema = <Vec<String> as SchemaGenerator>::schema();
    if let Schema::Object(obj) = array_schema {
        assert_eq!(obj.schema_type, Some("array".to_string()));
        assert!(obj.items.is_some());
    } else {
        panic!("Expected object schema");
    }
}

#[test]
fn test_schema_option() {
    let optional_schema = <Option<String> as SchemaGenerator>::schema();
    if let Schema::Object(obj) = optional_schema {
        assert_eq!(obj.nullable, Some(true));
    } else {
        panic!("Expected object schema");
    }
}

#[test]
fn test_security_scheme_api_key() {
    let scheme = SecurityScheme::ApiKey {
        location: ParameterLocation::Header,
        name: "X-API-Key".to_string(),
        description: Some("API key authentication".to_string()),
    };
    let spec = OpenApiBuilder::new().title("API").version("1.0.0").security_scheme("api_key", scheme).build();
    assert!(spec.components.is_some());
    let components = spec.components.unwrap();
    assert!(components.security_schemes.contains_key("api_key"));
}

#[test]
fn test_swagger_ui_html_generation() {
    let config = SwaggerUiConfig::new("/swagger-ui", "/api-docs/openapi.json").title("My API Documentation");
    let html = generate_swagger_ui_html(&config);
    assert!(html.contains("<!DOCTYPE html>"));
    assert!(html.contains("My API Documentation"));
    assert!(html.contains("/api-docs/openapi.json"));
    assert!(html.contains("swagger-ui-bundle.js"));
}

#[test]
fn swagger_ui_page_pieces() {
    let html = generate_swagger_ui_html(&SwaggerUiConfig::default());
    assert!(html.contains("<title>API Documentation</title>"));
    assert!(html.contains("url: \"/api-docs/openapi.json\","));
    assert!(html.contains("html { box-sizing: border-box;"));
    assert!(html.ends_with("</html>"));
}

#[test]
fn schema_constructors() {
    match reference("User") {
        Schema::Ref { reference } => assert_eq!(reference, "#/components/schemas/User"),
        _ => panic!("expected a reference"),
    }
    match array(string()) {
        Schema::Object(o) => {
            assert_eq!(o.schema_type.as_deref(), Some("array"));
            assert!(matches!(o.items.as_deref(), Some(Schema::Object(_))));
        }
        _ => panic!("expected an object"),
    }
    match integer() {
        Schema::Object(o) => assert_eq!(o.format.as_deref(), Some("int64")),
        _ => panic!("expected an object"),
    }
    assert_eq!(SchemaType::Boolean.as_str(), "boolean");
    assert_eq!(SchemaType::Array.as_str(), "array");
}

#[test]
fn spec_add_schema_and_path() {
    let mut spec = OpenApiBuilder::new().schema("User", string()).build();
    spec.add_schema("Id".to_string(), integer());
    let c = spec.components.as_ref().unwrap();
    assert_eq!(c.schemas.len(), 2);
    spec.add_path(
        "/users/{id}".to_string(),
        PathItemBuilder::new()
            .parameter(Parameter {
                name: "id".to_string(),
                location: ParameterLocation::Path,
                description: None,
                required: Some(true),
                deprecated: None,
                schema: Some(<u64 as SchemaGenerator>::schema()),
            })
            .build(),
    );
    spec.add_tag(Tag { name: "users".to_string(), description: None, external_docs: None });
    assert_eq!(spec.paths.len(), 1);
    assert!(spec.paths.contains_key("/users/{id}"));
    assert_eq!(spec.tags.len(), 1);
    assert_eq!(spec.openapi, "3.0.3");
    let fresh = OpenApiSpec::new(spec.info.clone());
    assert_eq!(fresh.paths.len(), 0);
}
