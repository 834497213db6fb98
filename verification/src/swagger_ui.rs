//! Swagger UI: its configuration and the HTML page that serves it.
use vstd::prelude::*;
use crate::text::{owned, push_str};

verus! {

/// Swagger UI configuration.
#[derive(Debug, Clone)]
pub struct SwaggerUiConfig {
    /// Path to serve Swagger UI (e.g., "/swagger-ui")
    pub path: String,
    /// URL to the OpenAPI spec (e.g., "/api-docs/openapi.json")
    pub spec_url: String,
    /// Page title
    pub title: String,
}

impl Default for SwaggerUiConfig {
    /// Served at `/swagger-ui`, reading `/api-docs/openapi.json`, titled
    /// `API Documentation`.
    fn default() -> (c: Self)
        ensures
            c.path@ == "/swagger-ui"@,
            c.spec_url@ == "/api-docs/openapi.json"@,
            c.title@ == "API Documentation"@,
    {
        SwaggerUiConfig {
            path: owned("/swagger-ui"),
            spec_url: owned("/api-docs/openapi.json"),
            title: owned("API Documentation"),
        }
    }
}

impl SwaggerUiConfig {
    /// Served at `path`, reading the specification at `spec_url`, titled
    /// `API Documentation`.
    pub fn new(path: &str, spec_url: &str) -> (c: Self)
        ensures
            c.path@ == path@,
            c.spec_url@ == spec_url@,
            c.title@ == "API Documentation"@,
    {
        SwaggerUiConfig { path: owned(path), spec_url: owned(spec_url), title: owned("API Documentation") }
    }

    /// Sets the page title.
    pub fn title(self, title: &str) -> (c: Self)
        ensures
            c.title@ == title@,
            c.path == self.path,
            c.spec_url == self.spec_url,
    {
        let mut c = self;
        c.title = owned(title);
        c
    }
}

/// The Swagger UI page for a title and a specification URL: the page loads Swagger UI
/// from unpkg and points it at the URL.
pub open spec fn swagger_ui_page(title: Seq<char>, spec_url: Seq<char>) -> Seq<char> {
    "<!DOCTYPE html>\n<html lang=\"en\">\n<head>\n    <meta charset=\"UTF-8\">\n    <title>"@ + title + "</title>\n    <link rel=\"stylesheet\" type=\"text/css\" href=\"https://unpkg.com/swagger-ui-dist@5/swagger-ui.css\">\n    <style>\n        html { box-sizing: border-box; overflow: -moz-scrollbars-vertical; overflow-y: scroll; }\n        *, *:before, *:after { box-sizing: inherit; }\n        body { margin:0; padding:0; }\n    </style>\n</head>\n<body>\n    <div id=\"swagger-ui\"></div>\n    <script src=\"https://unpkg.com/swagger-ui-dist@5/swagger-ui-bundle.js\"></script>\n    <script src=\"https://unpkg.com/swagger-ui-dist@5/swagger-ui-standalone-preset.js\"></script>\n    <script>\n        window.onload = function() {\n            const ui = SwaggerUIBundle({\n                url: \""@ + spec_url + "\",\n                dom_id: '#swagger-ui',\n                deepLinking: true,\n                presets: [\n                    SwaggerUIBundle.presets.apis,\n                    SwaggerUIStandalonePreset\n                ],\n                plugins: [\n                    SwaggerUIBundle.plugins.DownloadUrl\n                ],\n                layout: \"StandaloneLayout\"\n            });\n            window.ui = ui;\n        };\n    </script>\n</body>\n</html>"@
}

/// The Swagger UI page of the configuration (see `swagger_ui_page`).
pub fn generate_swagger_ui_html(config: &SwaggerUiConfig) -> (html: String)
    ensures
        html@ == swagger_ui_page(config.title@, config.spec_url@),
{
    let mut html = owned("<!DOCTYPE html>\n<html lang=\"en\">\n<head>\n    <meta charset=\"UTF-8\">\n    <title>");
    push_str(&mut html, config.title.as_str());
    push_str(&mut html, "</title>\n    <link rel=\"stylesheet\" type=\"text/css\" href=\"https://unpkg.com/swagger-ui-dist@5/swagger-ui.css\">\n    <style>\n        html { box-sizing: border-box; overflow: -moz-scrollbars-vertical; overflow-y: scroll; }\n        *, *:before, *:after { box-sizing: inherit; }\n        body { margin:0; padding:0; }\n    </style>\n</head>\n<body>\n    <div id=\"swagger-ui\"></div>\n    <script src=\"https://unpkg.com/swagger-ui-dist@5/swagger-ui-bundle.js\"></script>\n    <script src=\"https://unpkg.com/swagger-ui-dist@5/swagger-ui-standalone-preset.js\"></script>\n    <script>\n        window.onload = function() {\n            const ui = SwaggerUIBundle({\n                url: \"");
    push_str(&mut html, config.spec_url.as_str());
    push_str(&mut html, "\",\n                dom_id: '#swagger-ui',\n                deepLinking: true,\n                presets: [\n                    SwaggerUIBundle.presets.apis,\n                    SwaggerUIStandalonePreset\n                ],\n                plugins: [\n                    SwaggerUIBundle.plugins.DownloadUrl\n                ],\n                layout: \"StandaloneLayout\"\n            });\n            window.ui = ui;\n        };\n    </script>\n</body>\n</html>");
    html
}

} // verus!
