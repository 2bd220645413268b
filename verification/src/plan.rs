//! What is deployed, in which order, and how each part is compiled and constructed.
use vstd::prelude::*;
use vstd::string::*;
use crate::address::Address;
use crate::compile::Solc;
use crate::invocation::{CompilerInvocation, InvocationView};
use crate::keyed::put;
use crate::libraries::LibraryRegistry;
use crate::registry::Parameters;
use crate::request::{
    no_arguments, push_address, push_number, push_text, Argument, ArgumentView,
};

verus! {

/// The four stages of a run, in the order in which they are gone through.
#[derive(Clone, Copy, Debug, PartialEq, Eq)]
pub enum Stage {
    CompileLibraries,
    DeployLibraries,
    CompileLinkedContracts,
    DeployContracts,
}

/// The libraries and contracts of a registry, in the order in which they are deployed.
#[derive(Clone, Copy, Debug, PartialEq, Eq)]
pub enum Unit {
    Dll,
    AttributeStore,
    Token,
    Voting,
    Parameterizer,
    Registry,
}

impl Unit {
    /// Libraries are deployed without an interface and without constructor arguments.
    pub open spec fn is_library(self) -> bool {
        self == Unit::Dll || self == Unit::AttributeStore
    }

    /// The name under which the compiler writes the unit's artifacts.
    pub open spec fn name_text(self) -> Seq<char> {
        match self {
            Unit::Dll => "DLL"@,
            Unit::AttributeStore => "AttributeStore"@,
            Unit::Token => "EIP20"@,
            Unit::Voting => "PLCRVoting"@,
            Unit::Parameterizer => "Parameterizer"@,
            Unit::Registry => "Registry"@,
        }
    }

    /// The file that holds the unit's bytecode.
    pub open spec fn bin_text(self) -> Seq<char> {
        self.name_text() + ".bin"@
    }

    /// The file that holds the unit's interface description.
    pub open spec fn abi_text(self) -> Seq<char> {
        self.name_text() + ".abi"@
    }

    /// How many contracts must be on the chain before this unit is constructed.
    pub open spec fn needs(self) -> nat {
        match self {
            Unit::Voting => 1,
            Unit::Parameterizer => 2,
            Unit::Registry => 3,
            _ => 0,
        }
    }

    /// The stage in which the unit is deployed.
    pub open spec fn stage(self) -> Stage {
        if self.is_library() {
            Stage::DeployLibraries
        } else {
            Stage::DeployContracts
        }
    }

    /// Whether the unit is a library.
    pub fn library(self) -> (library: bool)
        ensures
            library == self.is_library(),
    {
        match self {
            Unit::Dll => true,
            Unit::AttributeStore => true,
            _ => false,
        }
    }

    /// The name under which the compiler writes the unit's artifacts.
    pub fn name(self) -> (name: &'static str)
        ensures
            name@ == self.name_text(),
    {
        match self {
            Unit::Dll => "DLL",
            Unit::AttributeStore => "AttributeStore",
            Unit::Token => "EIP20",
            Unit::Voting => "PLCRVoting",
            Unit::Parameterizer => "Parameterizer",
            Unit::Registry => "Registry",
        }
    }

    /// The file that holds the unit's bytecode.
    pub fn bin_name(self) -> (file: String)
        ensures
            file@ == self.bin_text(),
    {
        let mut file = String::from_str(self.name());
        file.append(".bin");
        file
    }

    /// The file that holds the unit's interface description.
    pub fn abi_name(self) -> (file: String)
        ensures
            file@ == self.abi_text(),
    {
        let mut file = String::from_str(self.name());
        file.append(".abi");
        file
    }
}

/// Where the installed package `package` keeps its contracts, relative to the sources.
pub open spec fn package_path(package: Seq<char>) -> Seq<char> {
    "installed_contracts/"@ + package + "/contracts"@
}

fn package_dir(package: &str) -> (path: String)
    ensures
        path@ == package_path(package@),
{
    let mut path = String::from_str("installed_contracts/");
    path.append(package);
    path.append("/contracts");
    path
}

/// The first compiler pass: the two libraries, binary output only,
/// existing output replaced.
pub open spec fn library_pass(
    root: Seq<char>,
    output_dir: Seq<char>,
    allowed: Seq<Seq<char>>,
    packages_dir: Seq<char>,
) -> InvocationView {
    InvocationView {
        root,
        output_dir: Some(output_dir),
        bin: true,
        abi: false,
        overwrite: true,
        link: false,
        allow_paths: allowed.push(packages_dir),
        mappings: Seq::empty(),
        libraries: Seq::empty(),
        sources: seq![
            "installed_contracts/dll/contracts/DLL.sol"@,
            "installed_contracts/attrstore/contracts/AttributeStore.sol"@,
        ],
    }
}

/// The import prefixes of the installed packages and where each keeps its contracts.
pub open spec fn package_mappings() -> Seq<(Seq<char>, Seq<char>)> {
    put(
        put(
            put(Seq::empty(), "dll"@, package_path("dll"@)),
            "attrstore"@,
            package_path("attrstore"@),
        ),
        "tokens"@,
        package_path("tokens"@),
    )
}

/// The second compiler pass: the contracts, binary and interface output,
/// linked against the libraries at the addresses given.
pub open spec fn linked_pass(
    root: Seq<char>,
    output_dir: Seq<char>,
    allowed: Seq<Seq<char>>,
    packages_dir: Seq<char>,
    libraries: Seq<(Seq<char>, Address)>,
) -> InvocationView {
    InvocationView {
        root,
        output_dir: Some(output_dir),
        bin: true,
        abi: true,
        overwrite: true,
        link: true,
        allow_paths: allowed.push(packages_dir),
        mappings: package_mappings(),
        libraries,
        sources: seq![
            "contracts/PLCRVoting.sol"@,
            "contracts/Parameterizer.sol"@,
            "contracts/Registry.sol"@,
        ],
    }
}

/// The invocation of the first compiler pass. `packages_dir` is the
/// absolute path of the installed packages, which the compiler may read.
pub fn compile_libraries(compiler: &Solc, packages_dir: &str) -> (invocation: CompilerInvocation)
    requires
        compiler.output_text() is Some,
    ensures
        invocation@ == library_pass(
            compiler.root_text(),
            compiler.output_text().unwrap(),
            compiler.allowed(),
            packages_dir@,
        ),
        invocation.valid(),
{
    let invocation = compiler.compile().bin().allow_path(packages_dir).add_source(
        "installed_contracts/dll/contracts/DLL.sol",
    ).add_source("installed_contracts/attrstore/contracts/AttributeStore.sol").overwrite();
    proof {
        let wanted = library_pass(
            compiler.root_text(),
            compiler.output_text().unwrap(),
            compiler.allowed(),
            packages_dir@,
        );
        assert(invocation@.allow_paths =~= wanted.allow_paths);
        assert(invocation@.sources =~= wanted.sources);
    }
    invocation
}

/// The invocation of the second compiler pass, with the addresses that
/// `libraries` holds.
pub fn compile_contracts(
    compiler: &Solc,
    libraries: &LibraryRegistry,
    packages_dir: &str,
) -> (invocation: CompilerInvocation)
    requires
        compiler.output_text() is Some,
        libraries.valid(),
    ensures
        invocation@ == linked_pass(
            compiler.root_text(),
            compiler.output_text().unwrap(),
            compiler.allowed(),
            packages_dir@,
            libraries@,
        ),
        invocation.valid(),
{
    let invocation = compiler.compile().bin().abi().overwrite().link().allow_path(packages_dir);
    let invocation = invocation.add_mapping("dll", package_dir("dll").as_str());
    let invocation = invocation.add_mapping("attrstore", package_dir("attrstore").as_str());
    let invocation = invocation.add_mapping("tokens", package_dir("tokens").as_str());
    let invocation = invocation.libraries(libraries.to_link_bindings());
    let invocation = invocation.add_source("contracts/PLCRVoting.sol").add_source(
        "contracts/Parameterizer.sol",
    ).add_source("contracts/Registry.sol");
    proof {
        let wanted = linked_pass(
            compiler.root_text(),
            compiler.output_text().unwrap(),
            compiler.allowed(),
            packages_dir@,
            libraries@,
        );
        assert(invocation@.allow_paths =~= wanted.allow_paths);
        assert(invocation@.sources =~= wanted.sources);
    }
    invocation
}

/// The supply of the token that is deployed for the registry.
pub const TOKEN_SUPPLY: u64 = 1_000_000;

/// The arguments with which a unit is constructed, given the contracts
/// deployed before it in order: token, voting, parameterizer.
pub open spec fn constructor_arguments(
    unit: Unit,
    contracts: Seq<Address>,
    params: Parameters,
) -> Seq<ArgumentView> {
    match unit {
        Unit::Dll => Seq::empty(),
        Unit::AttributeStore => Seq::empty(),
        Unit::Token => seq![
            ArgumentView::Number(TOKEN_SUPPLY),
            ArgumentView::Text("TestCoin"@),
            ArgumentView::Number(0),
            ArgumentView::Text("TEST"@),
        ],
        Unit::Voting => seq![ArgumentView::Address(contracts[0])],
        Unit::Parameterizer => seq![
            ArgumentView::Address(contracts[0]),
            ArgumentView::Address(contracts[1]),
            ArgumentView::Number(params.min_deposit as u64),
            ArgumentView::Number(params.p_min_deposit as u64),
            ArgumentView::Number(params.apply_stage_length as u64),
            ArgumentView::Number(params.p_apply_stage_length as u64),
            ArgumentView::Number(params.commit_stage_length as u64),
            ArgumentView::Number(params.p_commit_stage_length as u64),
            ArgumentView::Number(params.reveal_stage_length as u64),
            ArgumentView::Number(params.p_reveal_stage_length as u64),
            ArgumentView::Number(params.dispensation_percentage as u64),
            ArgumentView::Number(params.p_dispensation_percentage as u64),
            ArgumentView::Number(params.vote_quorum as u64),
            ArgumentView::Number(params.p_vote_quorum as u64),
        ],
        Unit::Registry => seq![
            ArgumentView::Address(contracts[0]),
            ArgumentView::Address(contracts[1]),
            ArgumentView::Address(contracts[2]),
            ArgumentView::Text("awesome test registry"@),
        ],
    }
}

/// The arguments with which `unit` is constructed.
pub fn constructor(unit: Unit, contracts: &Vec<Address>, params: &Parameters) -> (list: Vec<
    Argument,
>)
    requires
        contracts.len() >= unit.needs(),
    ensures
        crate::request::argument_views(list@) == constructor_arguments(unit, contracts@, *params),
{
    let mut list = no_arguments();
    match unit {
        Unit::Dll => {},
        Unit::AttributeStore => {},
        Unit::Token => {
            push_number(&mut list, TOKEN_SUPPLY);
            push_text(&mut list, "TestCoin");
            push_number(&mut list, 0);
            push_text(&mut list, "TEST");
        },
        Unit::Voting => {
            push_address(&mut list, contracts[0]);
        },
        Unit::Parameterizer => {
            push_address(&mut list, contracts[0]);
            push_address(&mut list, contracts[1]);
            push_number(&mut list, params.min_deposit as u64);
            push_number(&mut list, params.p_min_deposit as u64);
            push_number(&mut list, params.apply_stage_length as u64);
            push_number(&mut list, params.p_apply_stage_length as u64);
            push_number(&mut list, params.commit_stage_length as u64);
            push_number(&mut list, params.p_commit_stage_length as u64);
            push_number(&mut list, params.reveal_stage_length as u64);
            push_number(&mut list, params.p_reveal_stage_length as u64);
            push_number(&mut list, params.dispensation_percentage as u64);
            push_number(&mut list, params.p_dispensation_percentage as u64);
            push_number(&mut list, params.vote_quorum as u64);
            push_number(&mut list, params.p_vote_quorum as u64);
        },
        Unit::Registry => {
            push_address(&mut list, contracts[0]);
            push_address(&mut list, contracts[1]);
            push_address(&mut list, contracts[2]);
            push_text(&mut list, "awesome test registry");
        },
    }
    proof {
        assert(crate::request::argument_views(list@) =~= constructor_arguments(
            unit,
            contracts@,
            *params,
        ));
    }
    list
}

} // verus!
