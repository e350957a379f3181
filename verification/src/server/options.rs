//! The options for setting up all server integrations.
use vstd::prelude::*;

verus! {

/// The options for setting up all server integrations.
#[derive(Debug, Clone)]
pub struct ServerOptions {
    /// The location on the filesystem of your JavaScript bundle.
    pub js_bundle: String,
    /// The location on the filesystem of your Wasm bundle.
    pub wasm_bundle: String,
    /// The location on the filesystem of your JS bundle converted from your
    /// Wasm bundle.
    pub wasm_js_bundle: String,
    /// The location of the JS interop snippets to be served as static files.
    pub snippets: String,
}

impl Default for ServerOptions {
    fn default() -> (r: Self)
        ensures
            r.js_bundle@ == "dist/pkg/perseus_engine.js"@,
            r.wasm_bundle@ == "dist/pkg/perseus_engine_bg.wasm"@,
            r.wasm_js_bundle@ == "dist/pkg/perseus_engine_bg.wasm.js"@,
            r.snippets@ == "dist/pkg/snippets"@,
    {
        ServerOptions {
            js_bundle: "dist/pkg/perseus_engine.js".to_owned(),
            wasm_bundle: "dist/pkg/perseus_engine_bg.wasm".to_owned(),
            wasm_js_bundle: "dist/pkg/perseus_engine_bg.wasm.js".to_owned(),
            snippets: "dist/pkg/snippets".to_owned(),
        }
    }
}

} // verus!
