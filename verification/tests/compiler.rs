use tcr_deploy::address::Address;
use tcr_deploy::compile::Solc;
use tcr_deploy::invocation::{judge_exit, BuildError, CompileError, CompilerInvocation};
use tcr_deploy::libraries::{Binding, LibraryRegistry};
use tcr_deploy::plan::{compile_contracts, compile_libraries};
use tcr_deploy::text::{contains_bytes, join};

fn strings(list: &[&str]) -> Vec<String> {
    list.iter().map(|s| s.to_string()).collect()
}

fn numbered(first: u8) -> Address {
    let mut bytes = [0u8; 20];
    for i in 0..20 {
        bytes[i] = first + i as u8;
    }
    Address::new(bytes)
}

#[test]
fn command_runs_solc_in_the_source_root() {
    let command = CompilerInvocation::new("../tcr").bin().add_source("A.sol").execute().unwrap();
    assert_eq!(command.program, "solc");
    assert_eq!(command.working_dir, "../tcr");
    assert_eq!(command.arguments, strings(&["--bin", "A.sol"]));
}

#[test]
fn arguments_come_in_the_fixed_order() {
    let command = CompilerInvocation::new("root")
        .add_source("contracts/A.sol")
        .overwrite()
        .output_dir("build")
        .add_library_address("DLL", numbered(1))
        .link()
        .add_mapping("dll", "installed_contracts/dll/contracts")
        .allow_path("/abs/one")
        .abi()
        .bin()
        .allow_path("/abs/two")
        .add_source("contracts/B.sol")
        .execute()
        .unwrap();
    assert_eq!(
        command.arguments,
        strings(&[
            "--bin",
            "--abi",
            "--allow-paths",
            "/abs/one,/abs/two",
            "dll=installed_contracts/dll/contracts",
            "--libraries",
            "DLL:0x0102030405060708090a0b0c0d0e0f1011121314",
            "-o",
            "build",
            "--overwrite",
            "contracts/A.sol",
            "contracts/B.sol",
        ])
    );
}

#[test]
fn abi_alone_is_enough() {
    let command = CompilerInvocation::new("r").abi().add_source("A.sol").execute().unwrap();
    assert_eq!(command.arguments, strings(&["--abi", "A.sol"]));
}

#[test]
fn link_without_libraries_is_refused() {
    let result = CompilerInvocation::new("r").bin().abi().link().add_source("A.sol").execute();
    assert_eq!(result, Err(BuildError::LinkWithoutLibraries));
}

#[test]
fn link_without_libraries_is_reported_first() {
    let result = CompilerInvocation::new("r").link().execute();
    assert_eq!(result, Err(BuildError::LinkWithoutLibraries));
}

#[test]
fn link_with_emptied_libraries_is_refused() {
    let result = CompilerInvocation::new("r")
        .bin()
        .add_source("A.sol")
        .add_library_address("DLL", numbered(1))
        .libraries(Vec::new())
        .link()
        .execute();
    assert_eq!(result, Err(BuildError::LinkWithoutLibraries));
}

#[test]
fn no_source_files_is_refused() {
    let result = CompilerInvocation::new("r").bin().execute();
    assert_eq!(result, Err(BuildError::NoSourceFiles));
}

#[test]
fn no_output_kind_is_refused() {
    let result = CompilerInvocation::new("r").add_source("A.sol").execute();
    assert_eq!(result, Err(BuildError::NoOutputRequested));
}

#[test]
fn libraries_without_link_are_not_passed() {
    let command = CompilerInvocation::new("r")
        .bin()
        .add_library_address("DLL", numbered(1))
        .add_source("A.sol")
        .execute()
        .unwrap();
    assert_eq!(command.arguments, strings(&["--bin", "A.sol"]));
}

#[test]
fn same_calls_make_the_same_arguments() {
    let build = || {
        CompilerInvocation::new("../tcr")
            .bin()
            .abi()
            .overwrite()
            .link()
            .allow_path("/abs/installed_contracts")
            .add_mapping("dll", "installed_contracts/dll/contracts")
            .add_mapping("tokens", "installed_contracts/tokens/contracts")
            .add_library_address("DLL", numbered(1))
            .add_library_address("AttributeStore", numbered(40))
            .output_dir("build")
            .add_source("contracts/PLCRVoting.sol")
            .add_source("contracts/Registry.sol")
            .execute()
            .unwrap()
    };
    let first = build();
    let second = build();
    assert_eq!(first, second);
    assert_eq!(first.arguments, second.arguments);
    assert_eq!(first.arguments.len(), 13);
}

#[test]
fn executing_twice_gives_the_same_command() {
    let invocation = CompilerInvocation::new("r").bin().add_source("A.sol").add_source("B.sol");
    assert_eq!(invocation.execute(), invocation.execute());
}

#[test]
fn mapping_a_prefix_again_replaces_its_path() {
    let command = CompilerInvocation::new("r")
        .bin()
        .add_mapping("dll", "old/path")
        .add_mapping("tokens", "t")
        .add_mapping("dll", "new/path")
        .add_source("A.sol")
        .execute()
        .unwrap();
    assert_eq!(command.arguments, strings(&["--bin", "dll=new/path", "tokens=t", "A.sol"]));
}

#[test]
fn binding_a_library_again_replaces_its_address() {
    let invocation = CompilerInvocation::new("r")
        .add_library_address("DLL", numbered(1))
        .add_library_address("AttributeStore", numbered(2))
        .add_library_address("DLL", numbered(3));
    assert_eq!(
        invocation.library_bindings(),
        vec![Binding::new("DLL", numbered(3)), Binding::new("AttributeStore", numbered(2))]
    );
}

#[test]
fn several_libraries_are_joined_by_commas() {
    let command = CompilerInvocation::new("r")
        .bin()
        .link()
        .add_library_address("DLL", Address::new([0xab; 20]))
        .add_library_address("AttributeStore", Address::new([0x01; 20]))
        .add_source("A.sol")
        .execute()
        .unwrap();
    assert_eq!(
        command.arguments,
        strings(&[
            "--bin",
            "--libraries",
            "DLL:0xabababababababababababababababababababab,AttributeStore:0x0101010101010101010101010101010101010101",
            "A.sol",
        ])
    );
}

#[test]
fn library_pass_is_binary_only() {
    let mut compiler = Solc::new("../tcr");
    compiler.set_output_dir("build");
    let command = compile_libraries(&compiler, "/abs/tcr/installed_contracts").execute().unwrap();
    assert_eq!(command.program, "solc");
    assert_eq!(command.working_dir, "../tcr");
    assert_eq!(
        command.arguments,
        strings(&[
            "--bin",
            "--allow-paths",
            "/abs/tcr/installed_contracts",
            "-o",
            "build",
            "--overwrite",
            "installed_contracts/dll/contracts/DLL.sol",
            "installed_contracts/attrstore/contracts/AttributeStore.sol",
        ])
    );
}

#[test]
fn linked_pass_takes_the_registry_bindings() {
    let mut compiler = Solc::new("../tcr");
    compiler.set_output_dir("build");
    let mut registry = LibraryRegistry::new();
    registry.bind("DLL", Address::new([0x11; 20])).unwrap();
    registry.bind("AttributeStore", Address::new([0x22; 20])).unwrap();
    let invocation = compile_contracts(&compiler, &registry, "/abs/tcr/installed_contracts");
    assert_eq!(
        invocation.library_bindings(),
        vec![
            Binding::new("DLL", Address::new([0x11; 20])),
            Binding::new("AttributeStore", Address::new([0x22; 20])),
        ]
    );
    let command = invocation.execute().unwrap();
    assert_eq!(
        command.arguments,
        strings(&[
            "--bin",
            "--abi",
            "--allow-paths",
            "/abs/tcr/installed_contracts",
            "dll=installed_contracts/dll/contracts",
            "attrstore=installed_contracts/attrstore/contracts",
            "tokens=installed_contracts/tokens/contracts",
            "--libraries",
            "DLL:0x1111111111111111111111111111111111111111,AttributeStore:0x2222222222222222222222222222222222222222",
            "-o",
            "build",
            "--overwrite",
            "contracts/PLCRVoting.sol",
            "contracts/Parameterizer.sol",
            "contracts/Registry.sol",
        ])
    );
}

#[test]
fn linked_pass_without_libraries_is_refused() {
    let mut compiler = Solc::new("../tcr");
    compiler.set_output_dir("build");
    let registry = LibraryRegistry::new();
    let result = compile_contracts(&compiler, &registry, "/abs").execute();
    assert_eq!(result, Err(BuildError::LinkWithoutLibraries));
}

#[test]
fn exit_zero_is_success() {
    assert_eq!(judge_exit(Some(0), b""), Ok(()));
    assert_eq!(judge_exit(Some(0), b"Warning: unused variable"), Ok(()));
}

#[test]
fn kept_output_is_success() {
    let stderr = b"solc: refusing to overwrite existing file \"build/DLL.bin\" (use --overwrite).";
    assert_eq!(judge_exit(Some(1), stderr), Ok(()));
    assert_eq!(judge_exit(Some(1), b"error: refusing to overwrite build/DLL.bin"), Ok(()));
    assert_eq!(judge_exit(Some(1), b"refusing to overwrite"), Ok(()));
    assert_eq!(judge_exit(Some(2), b"refusing to overwrite"), Ok(()));
    assert_eq!(judge_exit(Some(-7), b"x\nrefusing to overwrite\ny"), Ok(()));
}

fn exited(status: i32, stderr: &[u8]) -> Result<(), CompileError> {
    Err(CompileError::Exited { status, stderr: stderr.to_vec() })
}

#[test]
fn notice_in_other_letters_is_no_notice() {
    assert_eq!(judge_exit(Some(1), b"REfusing to overwrite"), exited(1, b"REfusing to overwrite"));
    let printed = b"Refusing to overwrite existing file \"build/DLL.bin\"";
    assert_eq!(judge_exit(Some(1), printed), exited(1, printed));
    assert_eq!(judge_exit(Some(1), b"refusing to Overwrite"), exited(1, b"refusing to Overwrite"));
    assert_eq!(
        judge_exit(Some(1), b"refusing  to overwrite"),
        exited(1, b"refusing  to overwrite")
    );
}

#[test]
fn other_failures_are_failures() {
    assert_eq!(
        judge_exit(Some(1), b"Error: Source file not found"),
        exited(1, b"Error: Source file not found")
    );
    assert_eq!(judge_exit(Some(1), b""), exited(1, b""));
    assert_eq!(judge_exit(Some(-1), b"refusing to"), exited(-1, b"refusing to"));
    assert_eq!(judge_exit(Some(101), b"panicked"), exited(101, b"panicked"));
}

#[test]
fn failure_keeps_the_error_output() {
    let verdict = judge_exit(Some(3), b"Error: Expected ';'");
    match verdict {
        Err(CompileError::Exited { status, stderr }) => {
            assert_eq!(status, 3);
            assert_eq!(stderr, b"Error: Expected ';'".to_vec());
        }
        other => panic!("the run counts as {:?}", other),
    }
    let error = CompileError::Exited { status: 3, stderr: b"abc".to_vec() };
    assert_eq!(error.copy(), error);
}

#[test]
fn run_without_status_has_failed() {
    assert_eq!(judge_exit(None, b""), Err(CompileError::Interrupted { stderr: Vec::new() }));
    assert_eq!(
        judge_exit(None, b"refusing to overwrite"),
        Err(CompileError::Interrupted { stderr: b"refusing to overwrite".to_vec() })
    );
}

#[test]
fn search_compares_byte_for_byte() {
    assert!(contains_bytes(b"abc refusing to overwrite xyz", b"refusing to overwrite"));
    assert!(contains_bytes(b"abc", b""));
    assert!(contains_bytes(b"", b""));
    assert!(contains_bytes(b"xxabc", b"abc"));
    assert!(contains_bytes(b"abcxx", b"abc"));
    assert!(contains_bytes(b"aabab", b"abab"));
    assert!(!contains_bytes(b"ab", b"abc"));
    assert!(!contains_bytes(b"", b"a"));
    assert!(!contains_bytes(b"abc REFUSING to Overwrite xyz", b"refusing to overwrite"));
    assert!(!contains_bytes(b"refusing  to overwrite", b"refusing to overwrite"));
    assert!(!contains_bytes(b"a[c", b"a{c"));
    assert!(!contains_bytes(b"Abc", b"abc"));
}

#[test]
fn join_puts_the_separator_between() {
    assert_eq!(join(&strings(&[]), ","), "");
    assert_eq!(join(&strings(&["a"]), ","), "a");
    assert_eq!(join(&strings(&["a", "b", "c"]), ", "), "a, b, c");
    assert_eq!(join(&strings(&["", ""]), ","), ",");
}
