//! The OpenAPI 3.0 document model: the specification root, its metadata, paths and
//! operations, and reusable components. Maps keep their entries in insertion order.
use vstd::prelude::*;
use crate::strmap::StrMap;
use crate::text::owned;

verus! {

/// OpenAPI specification root object.
#[derive(Debug)]
pub struct OpenApiSpec {
    /// OpenAPI version
    pub openapi: String,
    /// API metadata
    pub info: Info,
    /// Available servers for the API
    pub servers: Vec<Server>,
    /// Available paths and operations
    pub paths: StrMap<PathItem>,
    /// Reusable components
    pub components: Option<Components>,
    /// Security requirements
    pub security: Vec<StrMap<Vec<String>>>,
    /// Tags for grouping operations
    pub tags: Vec<Tag>,
    /// External documentation
    pub external_docs: Option<ExternalDocumentation>,
}

/// API metadata.
#[derive(Debug, Clone)]
pub struct Info {
    /// API title
    pub title: String,
    /// API description
    pub description: Option<String>,
    /// Terms of service URL
    pub terms_of_service: Option<String>,
    /// Contact information
    pub contact: Option<Contact>,
    /// License information
    pub license: Option<License>,
    /// API version
    pub version: String,
}

/// Contact information.
#[derive(Debug, Clone)]
pub struct Contact {
    /// Contact name
    pub name: Option<String>,
    /// Contact URL
    pub url: Option<String>,
    /// Contact email
    pub email: Option<String>,
}

/// License information.
#[derive(Debug, Clone)]
pub struct License {
    /// License name
    pub name: String,
    /// License URL
    pub url: Option<String>,
}

/// Server information.
#[derive(Debug, Clone)]
pub struct Server {
    /// Server URL
    pub url: String,
    /// Server description
    pub description: Option<String>,
    /// Server variables
    pub variables: StrMap<ServerVariable>,
}

/// Server variable.
#[derive(Debug, Clone)]
pub struct ServerVariable {
    /// Default value
    pub default: String,
    /// Possible values
    pub enum_values: Vec<String>,
    /// Description
    pub description: Option<String>,
}

/// Path item: the operations of a path.
#[derive(Debug)]
pub struct PathItem {
    pub get: Option<Operation>,
    pub post: Option<Operation>,
    pub put: Option<Operation>,
    pub delete: Option<Operation>,
    pub patch: Option<Operation>,
    pub head: Option<Operation>,
    pub options: Option<Operation>,
    /// Description
    pub description: Option<String>,
    /// Parameters applicable to all operations
    pub parameters: Vec<Parameter>,
}

/// A path item without operations, description or parameters.
pub open spec fn is_empty_path_item(p: PathItem) -> bool {
    &&& p.get is None
    &&& p.post is None
    &&& p.put is None
    &&& p.delete is None
    &&& p.patch is None
    &&& p.head is None
    &&& p.options is None
    &&& p.description is None
    &&& p.parameters@.len() == 0
}

impl Default for PathItem {
    fn default() -> (p: Self)
        ensures
            is_empty_path_item(p),
    {
        PathItem {
            get: None,
            post: None,
            put: None,
            delete: None,
            patch: None,
            head: None,
            options: None,
            description: None,
            parameters: Vec::new(),
        }
    }
}

/// Operation object.
#[derive(Debug)]
pub struct Operation {
    /// Tags for grouping
    pub tags: Vec<String>,
    /// Operation summary
    pub summary: Option<String>,
    /// Operation description
    pub description: Option<String>,
    /// Operation ID (unique)
    pub operation_id: Option<String>,
    /// Parameters
    pub parameters: Vec<Parameter>,
    /// Request body
    pub request_body: Option<RequestBody>,
    /// Responses, by status
    pub responses: StrMap<Response>,
    /// Security requirements
    pub security: Vec<StrMap<Vec<String>>>,
    /// Deprecated flag
    pub deprecated: Option<bool>,
}

/// Parameter object.
#[derive(Debug)]
pub struct Parameter {
    /// Parameter name
    pub name: String,
    /// Parameter location (query, header, path, cookie)
    pub location: ParameterLocation,
    /// Description
    pub description: Option<String>,
    /// Required flag
    pub required: Option<bool>,
    /// Deprecated flag
    pub deprecated: Option<bool>,
    /// Schema
    pub schema: Option<Schema>,
}

/// Parameter location.
#[derive(Debug, Clone, Copy, PartialEq, Eq, Structural)]
pub enum ParameterLocation {
    Query,
    Header,
    Path,
    Cookie,
}

/// Request body object.
#[derive(Debug)]
pub struct RequestBody {
    /// Description
    pub description: Option<String>,
    /// Content, by media type
    pub content: StrMap<MediaType>,
    /// Required flag
    pub required: Option<bool>,
}

/// Media type object.
#[derive(Debug)]
pub struct MediaType {
    /// Schema
    pub schema: Option<Schema>,
    /// Example value
    pub example: Option<serde_json::Value>,
    /// Examples
    pub examples: StrMap<Example>,
}

/// Example object.
#[derive(Debug, Clone)]
pub struct Example {
    /// Summary
    pub summary: Option<String>,
    /// Description
    pub description: Option<String>,
    /// Example value
    pub value: Option<serde_json::Value>,
}

/// Response object.
#[derive(Debug)]
pub struct Response {
    /// Description
    pub description: String,
    /// Content, by media type
    pub content: StrMap<MediaType>,
    /// Headers
    pub headers: StrMap<Header>,
}

/// Header object.
#[derive(Debug)]
pub struct Header {
    /// Description
    pub description: Option<String>,
    /// Required flag
    pub required: Option<bool>,
    /// Schema
    pub schema: Option<Schema>,
}

/// Components object: reusable schemas, responses, parameters and security schemes.
#[derive(Debug)]
pub struct Components {
    /// Reusable schemas
    pub schemas: StrMap<Schema>,
    /// Reusable responses
    pub responses: StrMap<Response>,
    /// Reusable parameters
    pub parameters: StrMap<Parameter>,
    /// Security schemes
    pub security_schemes: StrMap<SecurityScheme>,
}

/// Components without entries.
pub open spec fn is_empty_components(c: Components) -> bool {
    &&& c.schemas@ == Map::<Seq<char>, Schema>::empty()
    &&& c.responses@ == Map::<Seq<char>, Response>::empty()
    &&& c.parameters@ == Map::<Seq<char>, Parameter>::empty()
    &&& c.security_schemes@ == Map::<Seq<char>, SecurityScheme>::empty()
}

impl Default for Components {
    fn default() -> (c: Self)
        ensures
            is_empty_components(c),
    {
        Components {
            schemas: StrMap::new(),
            responses: StrMap::new(),
            parameters: StrMap::new(),
            security_schemes: StrMap::new(),
        }
    }
}

/// Security scheme object.
#[derive(Debug, Clone)]
pub enum SecurityScheme {
    ApiKey { location: ParameterLocation, name: String, description: Option<String> },
    Http { scheme: String, bearer_format: Option<String>, description: Option<String> },
    OAuth2 { flows: OAuthFlows, description: Option<String> },
    OpenIdConnect { open_id_connect_url: String, description: Option<String> },
}

/// OAuth flows.
#[derive(Debug, Clone)]
pub struct OAuthFlows {
    pub implicit: Option<OAuthFlow>,
    pub password: Option<OAuthFlow>,
    pub client_credentials: Option<OAuthFlow>,
    pub authorization_code: Option<OAuthFlow>,
}

impl Default for OAuthFlows {
    fn default() -> (f: Self)
        ensures
            f.implicit is None,
            f.password is None,
            f.client_credentials is None,
            f.authorization_code is None,
    {
        OAuthFlows { implicit: None, password: None, client_credentials: None, authorization_code: None }
    }
}

/// OAuth flow.
#[derive(Debug, Clone)]
pub struct OAuthFlow {
    pub authorization_url: Option<String>,
    pub token_url: Option<String>,
    pub refresh_url: Option<String>,
    pub scopes: StrMap<String>,
}

/// Schema object: a reference to a component schema, or an inline schema.
#[derive(Debug)]
pub enum Schema {
    /// Reference to a component schema
    Ref { reference: String },
    /// Inline schema
    Object(SchemaObject),
}

/// Schema object definition (a JSON Schema subset).
#[derive(Debug)]
pub struct SchemaObject {
    /// Schema type
    pub schema_type: Option<String>,
    /// Format (e.g., "int32", "date-time")
    pub format: Option<String>,
    /// Description
    pub description: Option<String>,
    /// Nullable flag
    pub nullable: Option<bool>,
    /// Properties (for object type)
    pub properties: StrMap<Schema>,
    /// Required properties
    pub required: Vec<String>,
    /// Items (for array type)
    pub items: Option<Box<Schema>>,
    /// Enum values
    pub enum_values: Vec<serde_json::Value>,
    /// Default value
    pub default: Option<serde_json::Value>,
    /// Example value
    pub example: Option<serde_json::Value>,
    /// AllOf (composition)
    pub all_of: Vec<Schema>,
    /// OneOf (composition)
    pub one_of: Vec<Schema>,
    /// AnyOf (composition)
    pub any_of: Vec<Schema>,
}

/// Tag object.
#[derive(Debug, Clone)]
pub struct Tag {
    /// Tag name
    pub name: String,
    /// Description
    pub description: Option<String>,
    /// External documentation
    pub external_docs: Option<ExternalDocumentation>,
}

/// External documentation.
#[derive(Debug, Clone)]
pub struct ExternalDocumentation {
    /// URL
    pub url: String,
    /// Description
    pub description: Option<String>,
}

/// The components after adding a schema: the spec's components, or empty ones, with the
/// schema set under `name`.
pub open spec fn with_schema(before: Option<Components>, after: Components, name: Seq<char>, schema: Schema) -> bool {
    match before {
        Some(c) => {
            &&& after.schemas@ == c.schemas@.insert(name, schema)
            &&& after.responses == c.responses
            &&& after.parameters == c.parameters
            &&& after.security_schemes == c.security_schemes
        },
        None => {
            &&& after.schemas@ == Map::<Seq<char>, Schema>::empty().insert(name, schema)
            &&& after.responses@ == Map::<Seq<char>, Response>::empty()
            &&& after.parameters@ == Map::<Seq<char>, Parameter>::empty()
            &&& after.security_schemes@ == Map::<Seq<char>, SecurityScheme>::empty()
        },
    }
}

/// The components after adding a security scheme, as `with_schema` does for schemas.
pub open spec fn with_security_scheme(
    before: Option<Components>,
    after: Components,
    name: Seq<char>,
    scheme: SecurityScheme,
) -> bool {
    match before {
        Some(c) => {
            &&& after.security_schemes@ == c.security_schemes@.insert(name, scheme)
            &&& after.schemas == c.schemas
            &&& after.responses == c.responses
            &&& after.parameters == c.parameters
        },
        None => {
            &&& after.security_schemes@ == Map::<Seq<char>, SecurityScheme>::empty().insert(
                name,
                scheme,
            )
            &&& after.schemas@ == Map::<Seq<char>, Schema>::empty()
            &&& after.responses@ == Map::<Seq<char>, Response>::empty()
            &&& after.parameters@ == Map::<Seq<char>, Parameter>::empty()
        },
    }
}

/// Takes the spec's components, or empty ones.
pub(crate) fn take_components(components: &mut Option<Components>) -> (c: Components)
    ensures
        *final(components) is None,
        match *old(components) {
            Some(x) => c == x,
            None => is_empty_components(c),
        },
{
    match components.take() {
        Some(c) => c,
        None => Components::default(),
    }
}

impl OpenApiSpec {
    /// A specification of OpenAPI version 3.0.3 for `info`, with nothing else.
    pub fn new(info: Info) -> (s: Self)
        ensures
            s.openapi@ == "3.0.3"@,
            s.info == info,
            s.servers@.len() == 0,
            s.paths@ == Map::<Seq<char>, PathItem>::empty(),
            s.components is None,
            s.security@.len() == 0,
            s.tags@.len() == 0,
            s.external_docs is None,
    {
        OpenApiSpec {
            openapi: owned("3.0.3"),
            info,
            servers: Vec::new(),
            paths: StrMap::new(),
            components: None,
            security: Vec::new(),
            tags: Vec::new(),
            external_docs: None,
        }
    }

    /// Sets the item of `path`.
    pub fn add_path(&mut self, path: String, item: PathItem)
        ensures
            final(self).paths@ == old(self).paths@.insert(path@, item),
            *final(self) == (OpenApiSpec { paths: final(self).paths, ..*old(self) }),
    {
        self.paths.insert(path, item);
    }

    /// Sets the component schema `name`, creating the components if there are none.
    pub fn add_schema(&mut self, name: String, schema: Schema)
        ensures
            final(self).components matches Some(c) && with_schema(
                old(self).components,
                c,
                name@,
                schema,
            ),
            *final(self) == (OpenApiSpec { components: final(self).components, ..*old(self) }),
    {
        let mut c = take_components(&mut self.components);
        c.schemas.insert(name, schema);
        self.components = Some(c);
    }

    /// Adds a tag at the end.
    pub fn add_tag(&mut self, tag: Tag)
        ensures
            final(self).tags@ == old(self).tags@.push(tag),
            *final(self) == (OpenApiSpec { tags: final(self).tags, ..*old(self) }),
    {
        self.tags.push(tag);
    }
}

} // verus!
