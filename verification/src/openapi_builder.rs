//! Fluent builders for OpenAPI specifications, path items and operations, and the
//! constructors of common schemas.
use vstd::prelude::*;
use crate::openapi_spec::{
    is_empty_path_item, take_components, with_schema, with_security_scheme, Contact, Info,
    License, OpenApiSpec, Operation, Parameter, PathItem, RequestBody, Response, Schema,
    SchemaObject, SecurityScheme, Server, Tag,
};
use crate::security_headers::opt_view;
use crate::strmap::StrMap;
use crate::text::{owned, push_str};

verus! {

/// Whether `o` is an inline schema of type `ty` and format `format` with nothing else set.
pub open spec fn is_plain_object(o: SchemaObject, ty: Seq<char>, format: Option<Seq<char>>) -> bool {
    &&& opt_view(o.schema_type) == Some(ty)
    &&& opt_view(o.format) == format
    &&& o.description is None
    &&& o.nullable is None
    &&& o.properties@ == Map::<Seq<char>, Schema>::empty()
    &&& o.required@.len() == 0
    &&& o.items is None
    &&& o.enum_values@.len() == 0
    &&& o.default is None
    &&& o.example is None
    &&& o.all_of@.len() == 0
    &&& o.one_of@.len() == 0
    &&& o.any_of@.len() == 0
}

/// Whether `s` is an inline schema of type `ty` and format `format` with nothing else set.
pub open spec fn is_plain_schema(s: Schema, ty: Seq<char>, format: Option<Seq<char>>) -> bool {
    s matches Schema::Object(o) && is_plain_object(o, ty, format)
}

/// An inline schema of type `ty` and format `format` with nothing else set.
pub fn plain_object(ty: &str, format: Option<&str>) -> (o: SchemaObject)
    ensures
        is_plain_object(
            o,
            ty@,
            match format {
                Some(f) => Some(f@),
                None => None,
            },
        ),
{
    SchemaObject {
        schema_type: Some(owned(ty)),
        format: match format {
            Some(f) => Some(owned(f)),
            None => None,
        },
        description: None,
        nullable: None,
        properties: StrMap::new(),
        required: Vec::new(),
        items: None,
        enum_values: Vec::new(),
        default: None,
        example: None,
        all_of: Vec::new(),
        one_of: Vec::new(),
        any_of: Vec::new(),
    }
}

/// The string schema.
pub fn string() -> (s: Schema)
    ensures
        is_plain_schema(s, "string"@, None),
{
    Schema::Object(plain_object("string", None))
}

/// The 64-bit integer schema.
pub fn integer() -> (s: Schema)
    ensures
        is_plain_schema(s, "integer"@, Some("int64"@)),
{
    Schema::Object(plain_object("integer", Some("int64")))
}

/// The double-precision number schema.
pub fn number() -> (s: Schema)
    ensures
        is_plain_schema(s, "number"@, Some("double"@)),
{
    Schema::Object(plain_object("number", Some("double")))
}

/// The boolean schema.
pub fn boolean() -> (s: Schema)
    ensures
        is_plain_schema(s, "boolean"@, None),
{
    Schema::Object(plain_object("boolean", None))
}

/// The schema of arrays of `items`.
pub fn array(items: Schema) -> (s: Schema)
    ensures
        s matches Schema::Object(o) && is_plain_object(
            SchemaObject { items: None, ..o },
            "array"@,
            None,
        ) && o.items == Some(Box::new(items)),
{
    let mut o = plain_object("array", None);
    o.items = Some(Box::new(items));
    Schema::Object(o)
}

/// The object schema.
pub fn object() -> (s: Schema)
    ensures
        is_plain_schema(s, "object"@, None),
{
    Schema::Object(plain_object("object", None))
}

/// A reference to the component schema `name`.
pub fn reference(name: &str) -> (s: Schema)
    ensures
        s matches Schema::Ref { reference } && reference@ == "#/components/schemas/"@ + name@,
{
    let mut r = owned("#/components/schemas/");
    push_str(&mut r, name);
    Schema::Ref { reference: r }
}

/// Builder of OpenAPI specifications.
#[derive(Debug)]
pub struct OpenApiBuilder {
    spec: OpenApiSpec,
}

impl OpenApiBuilder {
    /// The specification being built.
    pub closed spec fn view(&self) -> OpenApiSpec {
        self.spec
    }

    /// A builder of a specification titled `API`, version `1.0.0`.
    pub fn new() -> (b: Self)
        ensures
            b@.openapi@ == "3.0.3"@,
            b@.info.title@ == "API"@,
            b@.info.version@ == "1.0.0"@,
            b@.info.description is None,
            b@.info.terms_of_service is None,
            b@.info.contact is None,
            b@.info.license is None,
            b@.servers@.len() == 0,
            b@.paths@ == Map::<Seq<char>, PathItem>::empty(),
            b@.components is None,
            b@.security@.len() == 0,
            b@.tags@.len() == 0,
            b@.external_docs is None,
    {
        OpenApiBuilder {
            spec: OpenApiSpec::new(
                Info {
                    title: owned("API"),
                    description: None,
                    terms_of_service: None,
                    contact: None,
                    license: None,
                    version: owned("1.0.0"),
                },
            ),
        }
    }

    /// Sets the title.
    pub fn title(self, title: &str) -> (b: Self)
        ensures
            b@.info.title@ == title@,
            b@.info == (Info { title: b@.info.title, ..self@.info }),
            b@ == (OpenApiSpec { info: b@.info, ..self@ }),
    {
        let mut b = self;
        b.spec.info.title = owned(title);
        b
    }

    /// Sets the version.
    pub fn version(self, version: &str) -> (b: Self)
        ensures
            b@.info.version@ == version@,
            b@.info == (Info { version: b@.info.version, ..self@.info }),
            b@ == (OpenApiSpec { info: b@.info, ..self@ }),
    {
        let mut b = self;
        b.spec.info.version = owned(version);
        b
    }

    /// Sets the description.
    pub fn description(self, description: &str) -> (b: Self)
        ensures
            opt_view(b@.info.description) == Some(description@),
            b@.info == (Info { description: b@.info.description, ..self@.info }),
            b@ == (OpenApiSpec { info: b@.info, ..self@ }),
    {
        let mut b = self;
        b.spec.info.description = Some(owned(description));
        b
    }

    /// Sets the terms of service URL.
    pub fn terms_of_service(self, url: &str) -> (b: Self)
        ensures
            opt_view(b@.info.terms_of_service) == Some(url@),
            b@.info == (Info { terms_of_service: b@.info.terms_of_service, ..self@.info }),
            b@ == (OpenApiSpec { info: b@.info, ..self@ }),
    {
        let mut b = self;
        b.spec.info.terms_of_service = Some(owned(url));
        b
    }

    /// Sets the contact.
    pub fn contact(self, name: &str, email: Option<String>, url: Option<String>) -> (b: Self)
        ensures
            b@.info.contact matches Some(c) && opt_view(c.name) == Some(name@) && c.email
                == email && c.url == url,
            b@.info == (Info { contact: b@.info.contact, ..self@.info }),
            b@ == (OpenApiSpec { info: b@.info, ..self@ }),
    {
        let mut b = self;
        b.spec.info.contact = Some(Contact { name: Some(owned(name)), email, url });
        b
    }

    /// Sets the license.
    pub fn license(self, name: &str, url: Option<String>) -> (b: Self)
        ensures
            b@.info.license matches Some(l) && l.name@ == name@ && l.url == url,
            b@.info == (Info { license: b@.info.license, ..self@.info }),
            b@ == (OpenApiSpec { info: b@.info, ..self@ }),
    {
        let mut b = self;
        b.spec.info.license = Some(License { name: owned(name), url });
        b
    }

    /// Adds a server at the end.
    pub fn server(self, url: &str, description: Option<String>) -> (b: Self)
        ensures
            b@.servers@.len() == self@.servers@.len() + 1,
            b@.servers@.drop_last() == self@.servers@,
            b@.servers@.last().url@ == url@,
            b@.servers@.last().description == description,
            b@.servers@.last().variables@ == Map::<Seq<char>, crate::openapi_spec::ServerVariable>::empty(),
            b@ == (OpenApiSpec { servers: b@.servers, ..self@ }),
    {
        let mut b = self;
        let ghost before = b.spec.servers@;
        b.spec.servers.push(Server { url: owned(url), description, variables: StrMap::new() });
        assert(b.spec.servers@.drop_last() =~= before);
        b
    }

    /// Adds a tag at the end.
    pub fn tag(self, name: &str, description: Option<String>) -> (b: Self)
        ensures
            b@.tags@.len() == self@.tags@.len() + 1,
            b@.tags@.drop_last() == self@.tags@,
            b@.tags@.last().name@ == name@,
            b@.tags@.last().description == description,
            b@.tags@.last().external_docs is None,
            b@ == (OpenApiSpec { tags: b@.tags, ..self@ }),
    {
        let mut b = self;
        let ghost before = b.spec.tags@;
        b.spec.tags.push(Tag { name: owned(name), description, external_docs: None });
        assert(b.spec.tags@.drop_last() =~= before);
        b
    }

    /// Sets the item of `path`.
    pub fn path(self, path: &str, item: PathItem) -> (b: Self)
        ensures
            b@.paths@ == self@.paths@.insert(path@, item),
            b@ == (OpenApiSpec { paths: b@.paths, ..self@ }),
    {
        let mut b = self;
        b.spec.add_path(owned(path), item);
        b
    }

    /// Sets the component schema `name`.
    pub fn schema(self, name: &str, schema: Schema) -> (b: Self)
        ensures
            b@.components matches Some(c) && with_schema(
                self@.components,
                c,
                name@,
                schema,
            ),
            b@ == (OpenApiSpec { components: b@.components, ..self@ }),
    {
        let mut b = self;
        b.spec.add_schema(owned(name), schema);
        b
    }

    /// Sets the security scheme `name`.
    pub fn security_scheme(self, name: &str, scheme: SecurityScheme) -> (b: Self)
        ensures
            b@.components matches Some(c) && with_security_scheme(
                self@.components,
                c,
                name@,
                scheme,
            ),
            b@ == (OpenApiSpec { components: b@.components, ..self@ }),
    {
        let mut b = self;
        let mut c = take_components(&mut b.spec.components);
        c.security_schemes.insert(owned(name), scheme);
        b.spec.components = Some(c);
        b
    }

    /// The specification built.
    pub fn build(self) -> (s: OpenApiSpec)
        ensures
            s == self@,
    {
        self.spec
    }
}

impl Default for OpenApiBuilder {
    fn default() -> (b: Self)
        ensures
            b@.info.title@ == "API"@,
            b@.info.version@ == "1.0.0"@,
            b@.paths@ == Map::<Seq<char>, PathItem>::empty(),
            b@.components is None,
    {
        Self::new()
    }
}

/// Builder of path items.
#[derive(Debug)]
pub struct PathItemBuilder {
    item: PathItem,
}

impl Default for PathItemBuilder {
    fn default() -> (b: Self)
        ensures
            is_empty_path_item(b@),
    {
        PathItemBuilder { item: PathItem::default() }
    }
}

impl PathItemBuilder {
    /// The path item being built.
    pub closed spec fn view(&self) -> PathItem {
        self.item
    }

    /// A builder of an empty path item.
    pub fn new() -> (b: Self)
        ensures
            is_empty_path_item(b@),
    {
        Self::default()
    }

    /// Sets the GET operation.
    pub fn get(self, operation: Operation) -> (b: Self)
        ensures
            b@ == (PathItem { get: Some(operation), ..self@ }),
    {
        let mut b = self;
        b.item.get = Some(operation);
        b
    }

    /// Sets the POST operation.
    pub fn post(self, operation: Operation) -> (b: Self)
        ensures
            b@ == (PathItem { post: Some(operation), ..self@ }),
    {
        let mut b = self;
        b.item.post = Some(operation);
        b
    }

    /// Sets the PUT operation.
    pub fn put(self, operation: Operation) -> (b: Self)
        ensures
            b@ == (PathItem { put: Some(operation), ..self@ }),
    {
        let mut b = self;
        b.item.put = Some(operation);
        b
    }

    /// Sets the DELETE operation.
    pub fn delete(self, operation: Operation) -> (b: Self)
        ensures
            b@ == (PathItem { delete: Some(operation), ..self@ }),
    {
        let mut b = self;
        b.item.delete = Some(operation);
        b
    }

    /// Sets the PATCH operation.
    pub fn patch(self, operation: Operation) -> (b: Self)
        ensures
            b@ == (PathItem { patch: Some(operation), ..self@ }),
    {
        let mut b = self;
        b.item.patch = Some(operation);
        b
    }

    /// Sets the HEAD operation.
    pub fn head(self, operation: Operation) -> (b: Self)
        ensures
            b@ == (PathItem { head: Some(operation), ..self@ }),
    {
        let mut b = self;
        b.item.head = Some(operation);
        b
    }

    /// Sets the OPTIONS operation.
    pub fn options(self, operation: Operation) -> (b: Self)
        ensures
            b@ == (PathItem { options: Some(operation), ..self@ }),
    {
        let mut b = self;
        b.item.options = Some(operation);
        b
    }

    /// Adds a parameter at the end.
    pub fn parameter(self, parameter: Parameter) -> (b: Self)
        ensures
            b@.parameters@ == self@.parameters@.push(parameter),
            b@ == (PathItem { parameters: b@.parameters, ..self@ }),
    {
        let mut b = self;
        b.item.parameters.push(parameter);
        b
    }

    /// The path item built.
    pub fn build(self) -> (p: PathItem)
        ensures
            p == self@,
    {
        self.item
    }
}

/// Builder of operations.
#[derive(Debug)]
pub struct OperationBuilder {
    operation: Operation,
}

/// An operation with nothing set.
pub open spec fn is_empty_operation(o: Operation) -> bool {
    &&& o.tags@.len() == 0
    &&& o.summary is None
    &&& o.description is None
    &&& o.operation_id is None
    &&& o.parameters@.len() == 0
    &&& o.request_body is None
    &&& o.responses@ == Map::<Seq<char>, Response>::empty()
    &&& o.security@.len() == 0
    &&& o.deprecated is None
}

impl OperationBuilder {
    /// The operation being built.
    pub closed spec fn view(&self) -> Operation {
        self.operation
    }

    /// A builder of an operation with nothing set.
    pub fn new() -> (b: Self)
        ensures
            is_empty_operation(b@),
    {
        OperationBuilder {
            operation: Operation {
                tags: Vec::new(),
                summary: None,
                description: None,
                operation_id: None,
                parameters: Vec::new(),
                request_body: None,
                responses: StrMap::new(),
                security: Vec::new(),
                deprecated: None,
            },
        }
    }

    /// Adds a tag at the end.
    pub fn tag(self, tag: &str) -> (b: Self)
        ensures
            b@.tags@.map_values(|t: String| t@) == self@.tags@.map_values(
                |t: String| t@,
            ).push(tag@),
            b@ == (Operation { tags: b@.tags, ..self@ }),
    {
        let mut b = self;
        let ghost before = b.operation.tags@;
        let t = owned(tag);
        b.operation.tags.push(t);
        assert(b.operation.tags@.map_values(|t: String| t@) =~= before.map_values(|t: String| t@).push(
            tag@,
        ));
        b
    }

    /// Sets the summary.
    pub fn summary(self, summary: &str) -> (b: Self)
        ensures
            opt_view(b@.summary) == Some(summary@),
            b@ == (Operation { summary: b@.summary, ..self@ }),
    {
        let mut b = self;
        b.operation.summary = Some(owned(summary));
        b
    }

    /// Sets the description.
    pub fn description(self, description: &str) -> (b: Self)
        ensures
            opt_view(b@.description) == Some(description@),
            b@ == (Operation { description: b@.description, ..self@ }),
    {
        let mut b = self;
        b.operation.description = Some(owned(description));
        b
    }

    /// Sets the operation ID.
    pub fn operation_id(self, id: &str) -> (b: Self)
        ensures
            opt_view(b@.operation_id) == Some(id@),
            b@ == (Operation { operation_id: b@.operation_id, ..self@ }),
    {
        let mut b = self;
        b.operation.operation_id = Some(owned(id));
        b
    }

    /// Adds a parameter at the end.
    pub fn parameter(self, parameter: Parameter) -> (b: Self)
        ensures
            b@.parameters@ == self@.parameters@.push(parameter),
            b@ == (Operation { parameters: b@.parameters, ..self@ }),
    {
        let mut b = self;
        b.operation.parameters.push(parameter);
        b
    }

    /// Sets the request body.
    pub fn request_body(self, body: RequestBody) -> (b: Self)
        ensures
            b@ == (Operation { request_body: Some(body), ..self@ }),
    {
        let mut b = self;
        b.operation.request_body = Some(body);
        b
    }

    /// Sets the response of `status`.
    pub fn response(self, status: &str, response: Response) -> (b: Self)
        ensures
            b@.responses@ == self@.responses@.insert(status@, response),
            b@ == (Operation { responses: b@.responses, ..self@ }),
    {
        let mut b = self;
        b.operation.responses.insert(owned(status), response);
        b
    }

    /// Marks the operation deprecated.
    pub fn deprecated(self) -> (b: Self)
        ensures
            b@ == (Operation { deprecated: Some(true), ..self@ }),
    {
        let mut b = self;
        b.operation.deprecated = Some(true);
        b
    }

    /// The operation built.
    pub fn build(self) -> (o: Operation)
        ensures
            o == self@,
    {
        self.operation
    }
}

impl Default for OperationBuilder {
    fn default() -> (b: Self)
        ensures
            is_empty_operation(b@),
    {
        Self::new()
    }
}

} // verus!
