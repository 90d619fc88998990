//! Firmware sketches: a source path, a build configuration, a generated
//! identity, and a write-once compiled flag that only the toolchain flips.

use vstd::prelude::*;
use vstd::string::StrSliceExecFns;

use crate::sketch_config::SketchConfig;
use crate::uuid::Uuid;

verus! {

/// Does a path name a sketch source file, that is, end in `.ino`?
/// Resolving a directory to the sketch file inside it is up to the
/// embedding I/O layer.
pub open spec fn is_sketch_source(s: Seq<char>) -> bool {
    &&& s.len() >= 4
    &&& s[s.len() - 4] == '.'
    &&& s[s.len() - 3] == 'i'
    &&& s[s.len() - 2] == 'n'
    &&& s[s.len() - 1] == 'o'
}

/// One unit of firmware: source, build configuration, identity, and
/// whether a toolchain has successfully compiled it.
#[derive(Debug)]
pub struct Sketch {
    source: String,
    config: SketchConfig,
    compiled: bool,
    uuid: Uuid,
}

impl Sketch {
    /// The sketch's source path.
    pub closed spec fn spec_source(&self) -> Seq<char> {
        self.source@
    }

    /// Whether a toolchain has compiled this sketch.
    pub closed spec fn spec_compiled(&self) -> bool {
        self.compiled
    }

    /// The sketch's identity.
    pub closed spec fn spec_uuid(&self) -> Uuid {
        self.uuid
    }

    /// The sketch's build configuration.
    pub closed spec fn spec_config(&self) -> SketchConfig {
        self.config
    }

    /// Create an uncompiled sketch from a path to a sketch source file.
    /// Fails exactly when the path does not name a sketch file; a fresh
    /// identity is drawn for the sketch.
    pub fn new(source: String, config: SketchConfig) -> (r: Option<Sketch>)
        ensures
            (r is Some) <==> is_sketch_source(source@),
            r is Some ==> r->0.spec_source() == source@,
            r is Some ==> r->0.spec_config() == config,
            r is Some ==> !r->0.spec_compiled(),
            r is Some ==> r->0.spec_uuid().has_v4_markers(),
    {
        let n = source.as_str().unicode_len();
        if n < 4 {
            return None;
        }
        let dot = source.as_str().get_char(n - 4);
        let ci = source.as_str().get_char(n - 3);
        let cn = source.as_str().get_char(n - 2);
        let co = source.as_str().get_char(n - 1);
        if dot == '.' && ci == 'i' && cn == 'n' && co == 'o' {
            Some(Sketch { source, config, compiled: false, uuid: Uuid::generate() })
        } else {
            None
        }
    }

    /// The path the sketch was created from.
    pub fn source(&self) -> (r: &String)
        ensures
            r@ == self.spec_source(),
    {
        &self.source
    }

    /// Whether a toolchain has compiled this sketch.
    pub fn compiled(&self) -> (r: bool)
        ensures
            r == self.spec_compiled(),
    {
        self.compiled
    }

    /// The sketch's identity.
    pub fn uuid(&self) -> (r: Uuid)
        ensures
            r == self.spec_uuid(),
    {
        self.uuid
    }

    /// The sketch's build configuration.
    pub fn config(&self) -> (r: &SketchConfig)
        ensures
            *r == self.spec_config(),
    {
        &self.config
    }

    /// Record a successful compilation. Only the toolchain calls this;
    /// nothing else can flip the compiled flag.
    pub(crate) fn mark_compiled(&mut self)
        ensures
            final(self).spec_compiled(),
            final(self).spec_source() == old(self).spec_source(),
            final(self).spec_config() == old(self).spec_config(),
            final(self).spec_uuid() == old(self).spec_uuid(),
    {
        self.compiled = true;
    }
}

} // verus!
