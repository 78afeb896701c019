use verification_runtime::join_spaces;
use verification_runtime::split_spaces;
use verification_runtime::step::command_template;
use verification_runtime::step::command_tokens;
use verification_runtime::step::llvm_bitcode_generation_cmd_provider;
use verification_runtime::step::program_fuzzing_cmd_provider;
use verification_runtime::step::program_verification_cmd_provider;
use verification_runtime::step::source_code_restoration_cmd_provider;
use verification_runtime::step::symbolic_execution_cmd_provider;
use verification_runtime::step::uploaded_sources_listing_cmd_provider;

#[test]
fn program_verification_without_flags_keeps_empty_segments() {
    let step = program_verification_cmd_provider();
    let command = command_template(&step, "abc123", "abc123.bc", None);
    assert_eq!(command, "/usr/local/bin/verify abc123 abc123.bc multisig_plain  ");
}

#[test]
fn program_verification_with_flags_fills_the_flag_segment() {
    let step = program_verification_cmd_provider();
    let command = command_template(&step, "abc123", "abc123.bc", Some("--unwind=4"));
    assert_eq!(command, "/usr/local/bin/verify abc123 abc123.bc multisig_plain  --unwind=4");
}

#[test]
fn program_fuzzing_always_carries_the_fixed_duration_token() {
    let step = program_fuzzing_cmd_provider();
    let with_flags = command_tokens(&step, "abc123", "abc123.bc", Some("--ignored"));
    let without = command_tokens(&step, "abc123", "abc123.bc", None);
    assert_eq!(with_flags, without);
    assert!(with_flags.iter().any(|t| t == "5"));
    let command = command_template(&step, "abc123", "abc123.bc", None);
    assert_eq!(command, "/usr/local/bin/verify abc123 abc123.bc multisig_plain 5 ");
}

#[test]
fn token_count_is_invariant_in_the_flags_for_every_step() {
    let steps = vec![
        llvm_bitcode_generation_cmd_provider(),
        symbolic_execution_cmd_provider(),
        program_verification_cmd_provider(),
        program_fuzzing_cmd_provider(),
        source_code_restoration_cmd_provider(),
        uploaded_sources_listing_cmd_provider(),
    ];
    for step in steps {
        let with_flags = command_tokens(&step, "t", "t.bc", Some("-x"));
        let without = command_tokens(&step, "t", "t.bc", None);
        assert_eq!(with_flags.len(), without.len());
    }
}

#[test]
fn bitcode_generation_and_symbolic_execution_consume_token_and_artifact() {
    let generation = llvm_bitcode_generation_cmd_provider();
    let command = command_template(&generation, "abc123", "abc123.bc", None);
    assert_eq!(command, "/usr/local/bin/generate-llvm-bitcode abc123 abc123.bc");

    let execution = symbolic_execution_cmd_provider();
    let command = command_template(&execution, "abc123", "abc123.bc", None);
    assert_eq!(command, "/usr/local/bin/run-symbolic-execution abc123 abc123.bc");
}

#[test]
fn restoration_and_listing_ignore_every_input() {
    let restoration = source_code_restoration_cmd_provider();
    let command = command_template(&restoration, "abc123", "abc123.bc", Some("-x"));
    assert_eq!(command, "cat /safepkt-ink/examples/source/src/lib.rs");

    let listing = uploaded_sources_listing_cmd_provider();
    let command = command_template(&listing, "abc123", "abc123.bc", Some("-x"));
    assert_eq!(command, "/usr/local/bin/list-uploaded-sources");
}

#[test]
fn only_program_verification_accepts_flags() {
    assert!(program_verification_cmd_provider().accepts_flags);
    assert!(!llvm_bitcode_generation_cmd_provider().accepts_flags);
    assert!(!symbolic_execution_cmd_provider().accepts_flags);
    assert!(!program_fuzzing_cmd_provider().accepts_flags);
    assert!(!source_code_restoration_cmd_provider().accepts_flags);
    assert!(!uploaded_sources_listing_cmd_provider().accepts_flags);
}

#[test]
fn splitting_recovers_joined_tokens_including_empty_ones() {
    let tokens = vec![
        String::from("a"),
        String::from(""),
        String::from("b"),
        String::from(""),
    ];
    let joined = join_spaces(&tokens);
    assert_eq!(joined, "a  b ");
    assert_eq!(split_spaces(&joined), tokens);
}

#[test]
fn splitting_the_empty_string_yields_one_empty_token() {
    assert_eq!(split_spaces(""), vec![String::new()]);
}
