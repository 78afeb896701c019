//! The step catalog: the fixed set of named verification steps and the
//! translation of each into a command line.
//!
//! Every step is a pure, total command template over a project token, an
//! artifact name and optional flags. Commands are emitted both as token lists
//! and as single space-joined strings; a step that accepts optional flags
//! substitutes an empty flag segment when none are given, so the emitted
//! command has a stable argument count either way.

use vstd::prelude::*;
use crate::text::has_space;
use crate::text::join_spaces;
use crate::text::lemma_split_of_join;
use crate::text::spec_join;
use crate::text::spec_split;
use crate::text::views_of;

verus! {

/// One named verification operation.
#[derive(Clone, Copy, PartialEq, Eq, Structural, Debug)]
pub enum StepKind {
    /// Compiles the submitted sources down to LLVM bitcode.
    LlvmBitcodeGeneration,
    /// Runs the symbolic-execution engine on the generated bitcode.
    SymbolicExecution,
    /// Runs the verifier on the generated bitcode, with optional extra flags.
    ProgramVerification,
    /// Runs the fuzzer on the generated bitcode for a fixed duration.
    ProgramFuzzing,
    /// Emits the per-project source file back out of the mounted directory.
    SourceCodeRestoration,
    /// Lists the shared uploaded-sources directory.
    UploadedSourcesListing,
}

/// A catalog entry: a step kind together with whether the step consumes
/// caller-supplied flags.
#[derive(Clone, Copy, PartialEq, Eq, Structural, Debug)]
pub struct StepDefinition {
    pub kind: StepKind,
    pub accepts_flags: bool,
}

/// Which step kinds consume caller-supplied flags.
pub open spec fn spec_accepts_flags(kind: StepKind) -> bool {
    kind == StepKind::ProgramVerification
}

impl StepDefinition {
    /// A catalog entry carries the flag-acceptance that its kind documents.
    pub open spec fn wf(self) -> bool {
        self.accepts_flags == spec_accepts_flags(self.kind)
    }
}

/// Catalog entry for LLVM bitcode generation.
pub fn llvm_bitcode_generation_cmd_provider() -> (s: StepDefinition)
    ensures
        s.kind == StepKind::LlvmBitcodeGeneration,
        s.wf(),
{
    StepDefinition { kind: StepKind::LlvmBitcodeGeneration, accepts_flags: false }
}

/// Catalog entry for symbolic execution.
pub fn symbolic_execution_cmd_provider() -> (s: StepDefinition)
    ensures
        s.kind == StepKind::SymbolicExecution,
        s.wf(),
{
    StepDefinition { kind: StepKind::SymbolicExecution, accepts_flags: false }
}

/// Catalog entry for program verification; the one step that accepts flags.
pub fn program_verification_cmd_provider() -> (s: StepDefinition)
    ensures
        s.kind == StepKind::ProgramVerification,
        s.wf(),
{
    StepDefinition { kind: StepKind::ProgramVerification, accepts_flags: true }
}

/// Catalog entry for program fuzzing.
pub fn program_fuzzing_cmd_provider() -> (s: StepDefinition)
    ensures
        s.kind == StepKind::ProgramFuzzing,
        s.wf(),
{
    StepDefinition { kind: StepKind::ProgramFuzzing, accepts_flags: false }
}

/// Catalog entry for source code restoration.
pub fn source_code_restoration_cmd_provider() -> (s: StepDefinition)
    ensures
        s.kind == StepKind::SourceCodeRestoration,
        s.wf(),
{
    StepDefinition { kind: StepKind::SourceCodeRestoration, accepts_flags: false }
}

/// Catalog entry for the uploaded-sources listing.
pub fn uploaded_sources_listing_cmd_provider() -> (s: StepDefinition)
    ensures
        s.kind == StepKind::UploadedSourcesListing,
        s.wf(),
{
    StepDefinition { kind: StepKind::UploadedSourcesListing, accepts_flags: false }
}

/// The flag segment of a command: the flags when present, empty otherwise.
pub open spec fn spec_flag_segment(flags: Option<Seq<char>>) -> Seq<char> {
    match flags {
        Some(f) => f,
        None => Seq::empty(),
    }
}

/// The command of one step, as the exact list of argument tokens. Steps that
/// take no flags ignore the `flags` argument entirely; program verification
/// keeps an (empty) token in the flag position when flags are absent.
pub open spec fn spec_command_tokens(
    kind: StepKind,
    project_token: Seq<char>,
    artifact_name: Seq<char>,
    flags: Option<Seq<char>>,
) -> Seq<Seq<char>> {
    match kind {
        StepKind::LlvmBitcodeGeneration => seq![
            "/usr/local/bin/generate-llvm-bitcode"@,
            project_token,
            artifact_name,
        ],
        StepKind::SymbolicExecution => seq![
            "/usr/local/bin/run-symbolic-execution"@,
            project_token,
            artifact_name,
        ],
        StepKind::ProgramVerification => seq![
            "/usr/local/bin/verify"@,
            project_token,
            artifact_name,
            "multisig_plain"@,
            Seq::empty(),
            spec_flag_segment(flags),
        ],
        StepKind::ProgramFuzzing => seq![
            "/usr/local/bin/verify"@,
            project_token,
            artifact_name,
            "multisig_plain"@,
            "5"@,
            Seq::empty(),
        ],
        StepKind::SourceCodeRestoration => seq![
            "cat"@,
            "/safepkt-ink/examples/source/src/lib.rs"@,
        ],
        StepKind::UploadedSourcesListing => seq!["/usr/local/bin/list-uploaded-sources"@],
    }
}

/// The command of one step as a single space-joined string.
pub open spec fn spec_command(
    kind: StepKind,
    project_token: Seq<char>,
    artifact_name: Seq<char>,
    flags: Option<Seq<char>>,
) -> Seq<char> {
    spec_join(spec_command_tokens(kind, project_token, artifact_name, flags))
}

/// The view of optional flags.
pub open spec fn spec_flags(flags: Option<&str>) -> Option<Seq<char>> {
    match flags {
        Some(f) => Some(f@),
        None => None,
    }
}

/// The command's token count is invariant with respect to whether flags are
/// present or absent, for every step of the catalog: steps that accept flags
/// substitute an empty flag segment, and the rest ignore flags.
pub proof fn lemma_token_count_flag_invariant(
    kind: StepKind,
    project_token: Seq<char>,
    artifact_name: Seq<char>,
    flags: Option<Seq<char>>,
)
    ensures
        spec_command_tokens(kind, project_token, artifact_name, flags).len()
            == spec_command_tokens(kind, project_token, artifact_name, None).len(),
{
}

/// No fixed token of any catalog command contains a space.
pub proof fn lemma_fixed_tokens_space_free()
    ensures
        !has_space("/usr/local/bin/generate-llvm-bitcode"@),
        !has_space("/usr/local/bin/run-symbolic-execution"@),
        !has_space("/usr/local/bin/verify"@),
        !has_space("multisig_plain"@),
        !has_space("5"@),
        !has_space("cat"@),
        !has_space("/safepkt-ink/examples/source/src/lib.rs"@),
        !has_space("/usr/local/bin/list-uploaded-sources"@),
{
    reveal_strlit("/usr/local/bin/generate-llvm-bitcode");
    reveal_strlit("/usr/local/bin/run-symbolic-execution");
    reveal_strlit("/usr/local/bin/verify");
    reveal_strlit("multisig_plain");
    reveal_strlit("5");
    reveal_strlit("cat");
    reveal_strlit("/safepkt-ink/examples/source/src/lib.rs");
    reveal_strlit("/usr/local/bin/list-uploaded-sources");
}

/// Every token of every catalog command is space-free, provided the project
/// token, the artifact name and the flags are: the command is safe to
/// tokenize by splitting on single spaces.
pub proof fn lemma_command_tokens_space_free(
    kind: StepKind,
    project_token: Seq<char>,
    artifact_name: Seq<char>,
    flags: Option<Seq<char>>,
)
    requires
        !has_space(project_token),
        !has_space(artifact_name),
        flags is Some ==> !has_space(flags->0),
    ensures
        forall|i: int|
            0 <= i < spec_command_tokens(kind, project_token, artifact_name, flags).len()
                ==> !has_space(
                #[trigger] spec_command_tokens(kind, project_token, artifact_name, flags)[i],
            ),
{
    lemma_fixed_tokens_space_free();
    assert(!has_space(Seq::<char>::empty()));
}

/// Splitting a catalog command string on single spaces recovers exactly its
/// argument tokens, whether or not flags are present.
pub proof fn lemma_command_safe_to_tokenize(
    kind: StepKind,
    project_token: Seq<char>,
    artifact_name: Seq<char>,
    flags: Option<Seq<char>>,
)
    requires
        !has_space(project_token),
        !has_space(artifact_name),
        flags is Some ==> !has_space(flags->0),
    ensures
        spec_split(spec_command(kind, project_token, artifact_name, flags))
            == spec_command_tokens(kind, project_token, artifact_name, flags),
{
    lemma_command_tokens_space_free(kind, project_token, artifact_name, flags);
    lemma_split_of_join(spec_command_tokens(kind, project_token, artifact_name, flags));
}

/// The command of one step, as the exact list of argument tokens.
pub fn command_tokens(
    step: &StepDefinition,
    project_token: &str,
    artifact_name: &str,
    flags: Option<&str>,
) -> (r: Vec<String>)
    ensures
        views_of(r@) == spec_command_tokens(step.kind, project_token@, artifact_name@, spec_flags(flags)),
{
    let mut tokens: Vec<String> = Vec::new();
    match step.kind {
        StepKind::LlvmBitcodeGeneration => {
            tokens.push(String::from_str("/usr/local/bin/generate-llvm-bitcode"));
            tokens.push(project_token.to_owned());
            tokens.push(artifact_name.to_owned());
        },
        StepKind::SymbolicExecution => {
            tokens.push(String::from_str("/usr/local/bin/run-symbolic-execution"));
            tokens.push(project_token.to_owned());
            tokens.push(artifact_name.to_owned());
        },
        StepKind::ProgramVerification => {
            tokens.push(String::from_str("/usr/local/bin/verify"));
            tokens.push(project_token.to_owned());
            tokens.push(artifact_name.to_owned());
            tokens.push(String::from_str("multisig_plain"));
            tokens.push(String::new());
            match flags {
                Some(f) => tokens.push(f.to_owned()),
                None => tokens.push(String::new()),
            }
        },
        StepKind::ProgramFuzzing => {
            tokens.push(String::from_str("/usr/local/bin/verify"));
            tokens.push(project_token.to_owned());
            tokens.push(artifact_name.to_owned());
            tokens.push(String::from_str("multisig_plain"));
            tokens.push(String::from_str("5"));
            tokens.push(String::new());
        },
        StepKind::SourceCodeRestoration => {
            tokens.push(String::from_str("cat"));
            tokens.push(String::from_str("/safepkt-ink/examples/source/src/lib.rs"));
        },
        StepKind::UploadedSourcesListing => {
            tokens.push(String::from_str("/usr/local/bin/list-uploaded-sources"));
        },
    }
    proof {
        assert(views_of(tokens@) =~~= spec_command_tokens(
            step.kind,
            project_token@,
            artifact_name@,
            spec_flags(flags),
        ));
    }
    tokens
}

/// The command of one step as a single space-joined string: the catalog's
/// command template.
pub fn command_template(
    step: &StepDefinition,
    project_token: &str,
    artifact_name: &str,
    flags: Option<&str>,
) -> (r: String)
    ensures
        r@ == spec_command(step.kind, project_token@, artifact_name@, spec_flags(flags)),
{
    let tokens = command_tokens(step, project_token, artifact_name, flags);
    join_spaces(&tokens)
}

} // verus!
