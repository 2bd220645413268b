use tcr_deploy::address::Address;
use tcr_deploy::compile::{ArtifactFault, FileRead};
use tcr_deploy::hex::HexFault;
use tcr_deploy::invocation::CompileError;
use tcr_deploy::libraries::Binding;
use tcr_deploy::plan::{constructor, Stage, Unit};
use tcr_deploy::registry::{
    deploy, Action, DeployError, Deployment, DeploymentError, Event, Parameters, RegistryInfo,
    Step,
};
use tcr_deploy::request::{Argument, DeploymentFault};
use tcr_deploy::Config;

fn scenario_params() -> Parameters {
    Parameters {
        min_deposit: 10,
        apply_stage_length: 0,
        commit_stage_length: 600,
        reveal_stage_length: 600,
        dispensation_percentage: 50,
        vote_quorum: 50,
        p_min_deposit: 100,
        p_apply_stage_length: 1200,
        p_commit_stage_length: 1200,
        p_reveal_stage_length: 1200,
        p_dispensation_percentage: 50,
        p_vote_quorum: 50,
    }
}

fn at(byte: u8) -> Address {
    Address::new([byte; 20])
}

fn account() -> Address {
    at(0xee)
}

fn fresh_run() -> Deployment {
    let config = Config::new(scenario_params(), "../tcr", None);
    Deployment::new(&config, "/abs/tcr/installed_contracts", account())
}

fn exited_well() -> Event {
    Event::CompilerExited { status: Some(0), stderr: Vec::new() }
}

fn file(text: &str) -> Event {
    Event::FileRead(FileRead::Contents(text.as_bytes().to_vec()))
}

fn rejected(cause: &str) -> Event {
    Event::Rejected { cause: cause.to_string() }
}

fn confirmed(address: Address) -> Event {
    Event::Confirmed { contract_address: Some(address) }
}

fn run_with_libraries() -> (Deployment, Action) {
    let mut run = fresh_run();
    deploy(&mut run, Event::Start);
    deploy(&mut run, exited_well());
    deploy(&mut run, file("aa"));
    deploy(&mut run, confirmed(at(0x11)));
    deploy(&mut run, file("bb"));
    let action = deploy(&mut run, confirmed(at(0x22)));
    (run, action)
}

fn run_up_to_parameterizer() -> Deployment {
    let (mut run, _) = run_with_libraries();
    deploy(&mut run, exited_well());
    deploy(&mut run, file("01"));
    deploy(&mut run, file("[token]"));
    deploy(&mut run, confirmed(at(0x33)));
    deploy(&mut run, file("02"));
    deploy(&mut run, file("[voting]"));
    deploy(&mut run, confirmed(at(0x44)));
    deploy(&mut run, file("03"));
    let action = deploy(&mut run, file("[parameterizer]"));
    assert!(matches!(action, Action::Submit(_)));
    assert_eq!(run.step(), Step::Deploying(Unit::Parameterizer));
    run
}

fn path_of(action: &Action) -> String {
    match action {
        Action::ReadFile { path } => path.clone(),
        other => panic!("no file is asked for: {:?}", other),
    }
}

#[test]
fn run_without_build_dir_uses_build() {
    let mut run = fresh_run();
    let action = deploy(&mut run, Event::Start);
    match action {
        Action::RunCompiler(command) => {
            let at = command.arguments.iter().position(|a| a == "-o").unwrap();
            assert_eq!(command.arguments[at + 1], "build");
        }
        other => panic!("the compiler is not run: {:?}", other),
    }
    let action = deploy(&mut run, exited_well());
    assert_eq!(path_of(&action), "../tcr/build/DLL.bin");
}

#[test]
fn run_with_build_dir_uses_it() {
    let config = Config::new(scenario_params(), "/src/tcr", Some("out"));
    let mut run = Deployment::new(&config, "/abs", account());
    deploy(&mut run, Event::Start);
    let action = deploy(&mut run, exited_well());
    assert_eq!(path_of(&action), "/src/tcr/out/DLL.bin");
}

#[test]
fn run_begins_with_the_library_pass() {
    let mut run = fresh_run();
    assert_eq!(run.step(), Step::Idle);
    assert_eq!(run.stage(), Stage::CompileLibraries);
    let action = deploy(&mut run, Event::Start);
    match action {
        Action::RunCompiler(command) => {
            assert_eq!(command.program, "solc");
            assert_eq!(command.working_dir, "../tcr");
            assert_eq!(
                command.arguments,
                vec![
                    "--bin",
                    "--allow-paths",
                    "/abs/tcr/installed_contracts",
                    "-o",
                    "build",
                    "--overwrite",
                    "installed_contracts/dll/contracts/DLL.sol",
                    "installed_contracts/attrstore/contracts/AttributeStore.sol",
                ]
            );
        }
        other => panic!("the compiler is not run: {:?}", other),
    }
    assert_eq!(run.step(), Step::CompilingLibraries);
}

#[test]
fn libraries_deploy_one_after_the_other() {
    let mut run = fresh_run();
    deploy(&mut run, Event::Start);
    let action = deploy(&mut run, exited_well());
    assert_eq!(path_of(&action), "../tcr/build/DLL.bin");
    assert_eq!(run.stage(), Stage::DeployLibraries);
    let action = deploy(&mut run, file("6001"));
    match action {
        Action::Submit(request) => {
            assert_eq!(request.from, account());
            assert_eq!(request.bytecode, vec![0x60, 0x01]);
            assert_eq!(request.interface, None);
            assert!(request.arguments.is_empty());
            assert_eq!(request.gas, 1_000_000);
            assert_eq!(request.confirmations, 0);
        }
        other => panic!("nothing is sent: {:?}", other),
    }
    assert_eq!(run.libraries().len(), 0);
    let action = deploy(&mut run, confirmed(at(0x11)));
    assert_eq!(path_of(&action), "../tcr/build/AttributeStore.bin");
    assert_eq!(run.libraries().address_of("DLL"), Some(at(0x11)));
    assert_eq!(run.libraries().address_of("AttributeStore"), None);
    let action = deploy(&mut run, file("6002"));
    assert!(matches!(action, Action::Submit(_)));
    assert_eq!(run.step(), Step::Deploying(Unit::AttributeStore));
}

#[test]
fn linked_pass_gets_exactly_the_two_bindings() {
    let (run, action) = run_with_libraries();
    assert_eq!(
        run.libraries().to_link_bindings(),
        vec![Binding::new("DLL", at(0x11)), Binding::new("AttributeStore", at(0x22))]
    );
    assert_eq!(run.step(), Step::CompilingContracts);
    assert_eq!(run.stage(), Stage::CompileLinkedContracts);
    match action {
        Action::RunCompiler(command) => {
            assert_eq!(
                command.arguments,
                vec![
                    "--bin",
                    "--abi",
                    "--allow-paths",
                    "/abs/tcr/installed_contracts",
                    "dll=installed_contracts/dll/contracts",
                    "attrstore=installed_contracts/attrstore/contracts",
                    "tokens=installed_contracts/tokens/contracts",
                    "--libraries",
                    "DLL:0x1111111111111111111111111111111111111111,AttributeStore:0x2222222222222222222222222222222222222222",
                    "-o",
                    "build",
                    "--overwrite",
                    "contracts/PLCRVoting.sol",
                    "contracts/Parameterizer.sol",
                    "contracts/Registry.sol",
                ]
            );
        }
        other => panic!("the compiler is not run: {:?}", other),
    }
}

#[test]
fn kept_output_lets_the_linked_pass_count() {
    let (mut run, _) = run_with_libraries();
    let stderr = b"refusing to overwrite existing file \"build/Registry.bin\"".to_vec();
    let action = deploy(&mut run, Event::CompilerExited { status: Some(1), stderr });
    assert_eq!(path_of(&action), "../tcr/build/EIP20.bin");
    assert_eq!(run.step(), Step::Reading(Unit::Token));
    assert_eq!(run.stage(), Stage::DeployContracts);
}

#[test]
fn notice_in_other_letters_fails_the_pass() {
    let (mut run, _) = run_with_libraries();
    let stderr = b"Refusing to overwrite existing file \"build/Registry.bin\"".to_vec();
    let action =
        deploy(&mut run, Event::CompilerExited { status: Some(1), stderr: stderr.clone() });
    assert_eq!(
        action,
        Action::Stop(DeployError::Compile {
            stage: Stage::CompileLinkedContracts,
            error: CompileError::Exited { status: 1, stderr },
        })
    );
    assert_eq!(run.step(), Step::CompilingContracts);
    let mut run = fresh_run();
    deploy(&mut run, Event::Start);
    let stderr = b"REfusing to overwrite".to_vec();
    let action =
        deploy(&mut run, Event::CompilerExited { status: Some(1), stderr: stderr.clone() });
    assert_eq!(
        action,
        Action::Stop(DeployError::Compile {
            stage: Stage::CompileLibraries,
            error: CompileError::Exited { status: 1, stderr },
        })
    );
    assert_eq!(run.step(), Step::CompilingLibraries);
    assert_eq!(run.libraries().len(), 0);
}

#[test]
fn contracts_deploy_in_order_with_earlier_addresses() {
    let (mut run, _) = run_with_libraries();
    deploy(&mut run, exited_well());
    let action = deploy(&mut run, file("0a"));
    assert_eq!(path_of(&action), "../tcr/build/EIP20.abi");
    let action = deploy(&mut run, file("[token]"));
    match action {
        Action::Submit(request) => {
            assert_eq!(request.bytecode, vec![0x0a]);
            assert_eq!(request.interface, Some(b"[token]".to_vec()));
            assert_eq!(
                request.arguments,
                vec![
                    Argument::Number(1_000_000),
                    Argument::Text("TestCoin".to_string()),
                    Argument::Number(0),
                    Argument::Text("TEST".to_string()),
                ]
            );
            assert_eq!(request.gas, 4_500_000);
            assert_eq!(request.from, account());
            assert_eq!(request.confirmations, 0);
        }
        other => panic!("nothing is sent: {:?}", other),
    }
    let action = deploy(&mut run, confirmed(at(0x33)));
    assert_eq!(path_of(&action), "../tcr/build/PLCRVoting.bin");
    let action = deploy(&mut run, file("0b"));
    assert_eq!(path_of(&action), "../tcr/build/PLCRVoting.abi");
    let action = deploy(&mut run, file("[voting]"));
    match action {
        Action::Submit(request) => {
            assert_eq!(request.bytecode, vec![0x0b]);
            assert_eq!(request.arguments, vec![Argument::Address(at(0x33))]);
        }
        other => panic!("nothing is sent: {:?}", other),
    }
    let action = deploy(&mut run, confirmed(at(0x44)));
    assert_eq!(path_of(&action), "../tcr/build/Parameterizer.bin");
    deploy(&mut run, file("0c"));
    let action = deploy(&mut run, file("[parameterizer]"));
    match action {
        Action::Submit(request) => {
            assert_eq!(
                request.arguments,
                vec![
                    Argument::Address(at(0x33)),
                    Argument::Address(at(0x44)),
                    Argument::Number(10),
                    Argument::Number(100),
                    Argument::Number(0),
                    Argument::Number(1200),
                    Argument::Number(600),
                    Argument::Number(1200),
                    Argument::Number(600),
                    Argument::Number(1200),
                    Argument::Number(50),
                    Argument::Number(50),
                    Argument::Number(50),
                    Argument::Number(50),
                ]
            );
        }
        other => panic!("nothing is sent: {:?}", other),
    }
    let action = deploy(&mut run, confirmed(at(0x55)));
    assert_eq!(path_of(&action), "../tcr/build/Registry.bin");
    let action = deploy(&mut run, file("0d"));
    assert_eq!(path_of(&action), "../tcr/build/Registry.abi");
    let action = deploy(&mut run, file("[registry]"));
    match action {
        Action::Submit(request) => {
            assert_eq!(request.bytecode, vec![0x0d]);
            assert_eq!(request.interface, Some(b"[registry]".to_vec()));
            assert_eq!(
                request.arguments,
                vec![
                    Argument::Address(at(0x33)),
                    Argument::Address(at(0x44)),
                    Argument::Address(at(0x55)),
                    Argument::Text("awesome test registry".to_string()),
                ]
            );
        }
        other => panic!("nothing is sent: {:?}", other),
    }
    let action = deploy(&mut run, confirmed(at(0x66)));
    let info = RegistryInfo { registry: at(0x66), token: at(0x33), voting: at(0x44) };
    assert_eq!(action, Action::Done(info));
    assert_eq!(run.step(), Step::Finished);
    assert_eq!(run.failure(), None);
    assert_eq!(deploy(&mut run, Event::Start), Action::Done(info));
    assert_eq!(deploy(&mut run, rejected("late")), Action::Done(info));
}

#[test]
fn named_gas_limit_is_used_for_contracts() {
    let config = Config::new(scenario_params(), "../tcr", None).with_gas_limit(2_000_000);
    let mut run = Deployment::new(&config, "/abs", account());
    deploy(&mut run, Event::Start);
    deploy(&mut run, exited_well());
    let action = deploy(&mut run, file("aa"));
    match action {
        Action::Submit(request) => assert_eq!(request.gas, 1_000_000),
        other => panic!("nothing is sent: {:?}", other),
    }
    deploy(&mut run, confirmed(at(1)));
    deploy(&mut run, file("bb"));
    deploy(&mut run, confirmed(at(2)));
    deploy(&mut run, exited_well());
    deploy(&mut run, file("cc"));
    let action = deploy(&mut run, file("[]"));
    match action {
        Action::Submit(request) => assert_eq!(request.gas, 2_000_000),
        other => panic!("nothing is sent: {:?}", other),
    }
}

#[test]
fn rejected_parameterizer_stops_the_run() {
    let mut run = run_up_to_parameterizer();
    let action = deploy(&mut run, rejected("RPC error: insufficient funds"));
    let error = DeployError::Deployment(DeploymentError {
        unit: Unit::Parameterizer,
        fault: DeploymentFault::Rejected { cause: "RPC error: insufficient funds".to_string() },
    });
    assert_eq!(action, Action::Stop(error.copy()));
    assert_eq!(run.failure(), Some(error.copy()));
    assert_eq!(run.step(), Step::Deploying(Unit::Parameterizer));
    let later = [
        Event::Start,
        exited_well(),
        file("04"),
        file("[registry]"),
        confirmed(at(0x55)),
        rejected("another cause"),
        Event::CompilerNotStarted { cause: "No such file or directory".to_string() },
    ];
    for event in later {
        let action = deploy(&mut run, event);
        assert_eq!(action, Action::Stop(error.copy()));
        assert_eq!(run.step(), Step::Deploying(Unit::Parameterizer));
    }
    assert_eq!(run.libraries().len(), 2);
}

#[test]
fn confirmation_without_address_stops_the_run() {
    let mut run = run_up_to_parameterizer();
    let action = deploy(&mut run, Event::Confirmed { contract_address: None });
    let error = DeployError::Deployment(DeploymentError {
        unit: Unit::Parameterizer,
        fault: DeploymentFault::NoAddress,
    });
    assert_eq!(action, Action::Stop(error));
}

#[test]
fn library_that_fails_to_deploy_stops_the_run() {
    let mut run = fresh_run();
    deploy(&mut run, Event::Start);
    deploy(&mut run, exited_well());
    deploy(&mut run, file("aa"));
    let action = deploy(&mut run, rejected("Transport error: connection refused"));
    let error = DeployError::Deployment(DeploymentError {
        unit: Unit::Dll,
        fault: DeploymentFault::Rejected {
            cause: "Transport error: connection refused".to_string(),
        },
    });
    assert_eq!(action, Action::Stop(error));
    assert_eq!(
        run.failure(),
        Some(DeployError::Deployment(DeploymentError {
            unit: Unit::Dll,
            fault: DeploymentFault::Rejected {
                cause: "Transport error: connection refused".to_string(),
            },
        }))
    );
    assert_eq!(run.libraries().len(), 0);
    let mut run = fresh_run();
    deploy(&mut run, Event::Start);
    deploy(&mut run, exited_well());
    deploy(&mut run, file("aa"));
    let action = deploy(&mut run, Event::Confirmed { contract_address: None });
    let error = DeployError::Deployment(DeploymentError {
        unit: Unit::Dll,
        fault: DeploymentFault::NoAddress,
    });
    assert_eq!(action, Action::Stop(error));
}

#[test]
fn failed_library_pass_stops_the_run() {
    let mut run = fresh_run();
    deploy(&mut run, Event::Start);
    let stderr = b"Error: Source file not found".to_vec();
    let action =
        deploy(&mut run, Event::CompilerExited { status: Some(1), stderr: stderr.clone() });
    let error = DeployError::Compile {
        stage: Stage::CompileLibraries,
        error: CompileError::Exited { status: 1, stderr },
    };
    assert_eq!(action, Action::Stop(error.copy()));
    assert_eq!(run.step(), Step::CompilingLibraries);
    assert_eq!(run.libraries().len(), 0);
    assert_eq!(deploy(&mut run, exited_well()), Action::Stop(error.copy()));
    assert_eq!(deploy(&mut run, file("aa")), Action::Stop(error));
}

#[test]
fn compiler_that_does_not_start_stops_the_run() {
    let mut run = fresh_run();
    deploy(&mut run, Event::Start);
    let cause = "No such file or directory (os error 2)".to_string();
    let action = deploy(&mut run, Event::CompilerNotStarted { cause: cause.clone() });
    assert_eq!(
        action,
        Action::Stop(DeployError::Compile {
            stage: Stage::CompileLibraries,
            error: CompileError::NotStarted { cause },
        })
    );
    let (mut run, _) = run_with_libraries();
    let action =
        deploy(&mut run, Event::CompilerExited { status: None, stderr: b"Killed".to_vec() });
    assert_eq!(
        action,
        Action::Stop(DeployError::Compile {
            stage: Stage::CompileLinkedContracts,
            error: CompileError::Interrupted { stderr: b"Killed".to_vec() },
        })
    );
}

#[test]
fn artifact_that_cannot_be_loaded_stops_the_run() {
    let mut run = fresh_run();
    deploy(&mut run, Event::Start);
    deploy(&mut run, exited_well());
    let action = deploy(&mut run, Event::FileRead(FileRead::Missing));
    assert_eq!(
        action,
        Action::Stop(DeployError::Artifact { unit: Unit::Dll, fault: ArtifactFault::Missing })
    );
    let (mut run, _) = run_with_libraries();
    deploy(&mut run, exited_well());
    let action = deploy(&mut run, file("0g"));
    assert_eq!(
        action,
        Action::Stop(DeployError::Artifact {
            unit: Unit::Token,
            fault: ArtifactFault::NotHex(HexFault::InvalidCharacter { found: 'g', position: 1 }),
        })
    );
    let (mut run, _) = run_with_libraries();
    deploy(&mut run, exited_well());
    deploy(&mut run, file("00"));
    let cause = "Permission denied (os error 13)".to_string();
    let action = deploy(&mut run, Event::FileRead(FileRead::Unreadable { cause: cause.clone() }));
    assert_eq!(
        action,
        Action::Stop(DeployError::Artifact {
            unit: Unit::Token,
            fault: ArtifactFault::Unreadable { cause },
        })
    );
}

#[test]
fn event_that_answers_nothing_stops_the_run() {
    let mut run = fresh_run();
    let action = deploy(&mut run, exited_well());
    assert_eq!(action, Action::Stop(DeployError::Unexpected { step: Step::Idle }));
    let mut run = fresh_run();
    deploy(&mut run, Event::Start);
    let action = deploy(&mut run, confirmed(at(1)));
    assert_eq!(action, Action::Stop(DeployError::Unexpected { step: Step::CompilingLibraries }));
    let mut run = fresh_run();
    deploy(&mut run, Event::Start);
    deploy(&mut run, exited_well());
    let action = deploy(&mut run, Event::Start);
    assert_eq!(
        action,
        Action::Stop(DeployError::Unexpected { step: Step::Reading(Unit::Dll) })
    );
}

#[test]
fn constructor_of_a_library_takes_nothing() {
    let none: Vec<Address> = Vec::new();
    assert!(constructor(Unit::Dll, &none, &scenario_params()).is_empty());
    assert!(constructor(Unit::AttributeStore, &none, &scenario_params()).is_empty());
}

#[test]
fn units_name_their_artifacts() {
    assert_eq!(Unit::Dll.name(), "DLL");
    assert_eq!(Unit::Dll.bin_name(), "DLL.bin");
    assert_eq!(Unit::Token.abi_name(), "EIP20.abi");
    assert_eq!(Unit::Voting.bin_name(), "PLCRVoting.bin");
    assert_eq!(Unit::Parameterizer.abi_name(), "Parameterizer.abi");
    assert_eq!(Unit::Registry.bin_name(), "Registry.bin");
    assert!(Unit::AttributeStore.library());
    assert!(!Unit::Token.library());
}

#[test]
fn rejection_out_of_turn_is_unexpected() {
    let mut run = fresh_run();
    deploy(&mut run, Event::Start);
    let action = deploy(&mut run, rejected("no creation was sent"));
    assert_eq!(action, Action::Stop(DeployError::Unexpected { step: Step::CompilingLibraries }));
}

#[test]
fn empty_cause_is_kept_as_it_is() {
    let mut run = run_up_to_parameterizer();
    let action = deploy(&mut run, rejected(""));
    assert_eq!(
        action,
        Action::Stop(DeployError::Deployment(DeploymentError {
            unit: Unit::Parameterizer,
            fault: DeploymentFault::Rejected { cause: String::new() },
        }))
    );
}
