use vstd::prelude::*;

use crate::error::Error;

verus! {

/// Tagged union of the textual shading languages a pipeline description can
/// carry. Immutable once attached to a description.
#[derive(Clone, Debug)]
pub enum ShaderStageCode {
    Wgsl(String),
}

impl ShaderStageCode {
    /// The module text, whatever the language tag.
    pub open spec fn source(self) -> Seq<char> {
        match self {
            ShaderStageCode::Wgsl(s) => s@,
        }
    }

    /// Whether two stage codes hold the same module text.
    pub fn same_source(&self, other: &ShaderStageCode) -> (r: bool)
        ensures
            r == (self.source() == other.source()),
    {
        match (self, other) {
            (ShaderStageCode::Wgsl(a), ShaderStageCode::Wgsl(b)) => *a == *b,
        }
    }
}

/// An ordered sequence of 32 bit binary instruction words together with the
/// entry point they were compiled for. One shot: handed to exactly one
/// backend shader object and not persisted.
#[derive(Clone, Debug)]
pub struct CompiledShaderBinary {
    pub words: Vec<u32>,
    pub entry_point: String,
}

/// Whether the front end parses the module text into a structured module.
pub uninterp spec fn wgsl_parse_ok(source: Seq<char>) -> bool;

/// Whether the structured module of the text passes validation against the
/// full capability set.
pub uninterp spec fn wgsl_valid(source: Seq<char>) -> bool;

/// Whether the validated module of the text lowers to binary instruction
/// words.
pub uninterp spec fn spv_emit_ok(source: Seq<char>) -> bool;

/// The binary instruction words the back end emits for the module of the
/// text.
pub uninterp spec fn spv_words(source: Seq<char>) -> Seq<u32>;

/// Whether every translation step accepts the module text, so that compiling
/// it yields `spv_words` of it.
pub open spec fn translates(source: Seq<char>) -> bool {
    wgsl_parse_ok(source) && wgsl_valid(source) && spv_emit_ok(source)
}

#[verifier::external_type_specification]
#[verifier::external_body]
pub struct ExModule(naga::Module);

#[verifier::external_type_specification]
#[verifier::external_body]
pub struct ExModuleInfo(naga::valid::ModuleInfo);

/// A structured module, carrying the text it was parsed from. Values of
/// this type exist only as results of the parse step.
pub struct ParsedModule {
    module: naga::Module,
    source: String,
}

impl ParsedModule {
    /// The text this module was parsed from.
    pub closed spec fn spec_source(self) -> Seq<char> {
        self.source@
    }
}

/// A validated module with its validation info, carrying the text it came
/// from. Values of this type exist only as results of the validation step.
pub struct ValidatedModule {
    module: naga::Module,
    info: naga::valid::ModuleInfo,
    source: String,
}

impl ValidatedModule {
    /// The text this module was parsed and validated from.
    pub closed spec fn spec_source(self) -> Seq<char> {
        self.source@
    }
}

/// Relies on naga::front::wgsl::parse_str: whether the text parses, and the
/// structured module it parses to, depend on the text alone.
#[verifier::external_body]
fn parse_wgsl(source: &str) -> (r: Result<ParsedModule, String>)
    ensures
        r is Ok <==> wgsl_parse_ok(source@),
        r matches Ok(m) ==> m.spec_source() == source@,
{
    match naga::front::wgsl::parse_str(source) {
        Ok(module) => Ok(ParsedModule { module, source: source.to_owned() }),
        Err(e) => Err(format!("{e}")),
    }
}

/// Relies on naga::valid::Validator::validate, configured with all validation
/// flags and all capabilities (the broadest set the backend profile
/// supports): whether a module validates depends on the module alone, hence
/// on the text it was parsed from.
#[verifier::external_body]
fn validate_wgsl(parsed: ParsedModule) -> (r: Result<ValidatedModule, String>)
    ensures
        r is Ok <==> wgsl_valid(parsed.spec_source()),
        r matches Ok(v) ==> v.spec_source() == parsed.spec_source(),
{
    let mut validator = naga::valid::Validator::new(
        naga::valid::ValidationFlags::all(),
        naga::valid::Capabilities::all(),
    );
    match validator.validate(&parsed.module) {
        Ok(info) => Ok(ValidatedModule { module: parsed.module, info, source: parsed.source }),
        Err(e) => Err(format!("{e}")),
    }
}

/// Relies on naga::back::spv::write_vec, with default options and no
/// per-pipeline options: the emitted instruction words depend on the module
/// and its validation info alone, hence on the text they came from.
#[verifier::external_body]
fn emit_spv(validated: &ValidatedModule) -> (r: Result<Vec<u32>, String>)
    ensures
        r is Ok <==> spv_emit_ok(validated.spec_source()),
        r matches Ok(words) ==> words@ == spv_words(validated.spec_source()),
{
    naga::back::spv::write_vec(
        &validated.module,
        &validated.info,
        &naga::back::spv::Options::default(),
        None,
    )
        .map_err(|e| format!("{e}"))
}

/// Compiles one textual shader module to binary instruction words.
///
/// The three steps are hard gates: a text that does not parse is reported as
/// a parse error and is never validated; a module that does not validate is
/// reported as a validation error and is never lowered; no partial output
/// escapes a failed step.
pub fn code_to_spv(code: &ShaderStageCode) -> (r: Result<Vec<u32>, Error>)
    ensures
        r is Ok <==> translates(code.source()),
        r matches Ok(words) ==> words@ == spv_words(code.source()),
        !wgsl_parse_ok(code.source()) ==> (r matches Err(e) && e is WgslParse),
        wgsl_parse_ok(code.source()) && !wgsl_valid(code.source()) ==> (r matches Err(e)
            && e is WgslValidation),
        wgsl_parse_ok(code.source()) && wgsl_valid(code.source()) && !spv_emit_ok(code.source())
            ==> (r matches Err(e) && e is SpvError),
{
    let source: &String = match code {
        ShaderStageCode::Wgsl(s) => s,
    };
    let parsed = match parse_wgsl(source.as_str()) {
        Ok(p) => p,
        Err(message) => {
            return Err(Error::WgslParse(message));
        },
    };
    let validated = match validate_wgsl(parsed) {
        Ok(v) => v,
        Err(message) => {
            return Err(Error::WgslValidation(message));
        },
    };
    match emit_spv(&validated) {
        Ok(words) => Ok(words),
        Err(message) => Err(Error::SpvError(message)),
    }
}

} // verus!
