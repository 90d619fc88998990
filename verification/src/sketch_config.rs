//! Build configuration for a sketch: board target extras, library
//! dependencies, compiler flags and plugin manifests. Plain immutable
//! data, consumed by sketch construction and by the toolchain.

use vstd::prelude::*;

verus! {

/// A plugin to make available to the sketch build: where to fetch it,
/// how to patch it, and what it contributes to the build.
#[derive(Debug, Clone)]
pub struct PluginManifest {
    pub name: String,
    pub version: String,
    pub depends: String,
    pub needs_devices: String,
    pub uri: String,
    pub patch_uri: String,
    pub defaults: u8,
    pub incdirs: Vec<String>,
    pub sources: Vec<String>,
    pub linkdirs: Vec<String>,
    pub linklibs: Vec<String>,
}

/// Everything the toolchain needs to know about a sketch build beyond
/// the source path.
#[derive(Debug, Clone)]
pub struct SketchConfig {
    pub extra_board_uris: Vec<String>,
    pub legacy_libs: Vec<String>,
    pub plugins: Vec<PluginManifest>,
    pub extra_compile_defs: Vec<String>,
    pub extra_compile_opts: Vec<String>,
}

impl Default for PluginManifest {
    /// A manifest with every field empty.
    fn default() -> (r: Self)
        ensures
            r.name@.len() == 0,
            r.version@.len() == 0,
            r.depends@.len() == 0,
            r.needs_devices@.len() == 0,
            r.uri@.len() == 0,
            r.patch_uri@.len() == 0,
            r.defaults == 0,
            r.incdirs@.len() == 0,
            r.sources@.len() == 0,
            r.linkdirs@.len() == 0,
            r.linklibs@.len() == 0,
    {
        PluginManifest {
            name: String::new(),
            version: String::new(),
            depends: String::new(),
            needs_devices: String::new(),
            uri: String::new(),
            patch_uri: String::new(),
            defaults: 0,
            incdirs: Vec::new(),
            sources: Vec::new(),
            linkdirs: Vec::new(),
            linklibs: Vec::new(),
        }
    }
}

impl Default for SketchConfig {
    /// A configuration that adds nothing to the build.
    fn default() -> (r: Self)
        ensures
            r.extra_board_uris@.len() == 0,
            r.legacy_libs@.len() == 0,
            r.plugins@.len() == 0,
            r.extra_compile_defs@.len() == 0,
            r.extra_compile_opts@.len() == 0,
    {
        SketchConfig {
            extra_board_uris: Vec::new(),
            legacy_libs: Vec::new(),
            plugins: Vec::new(),
            extra_compile_defs: Vec::new(),
            extra_compile_opts: Vec::new(),
        }
    }
}

} // verus!
