//! Compile, link and deploy a token-curated registry and its libraries.
use vstd::prelude::*;
use vstd::string::*;
use crate::address::Address;
use crate::registry::Parameters;
use crate::request::{
    copy_bytes, no_arguments, CreationRequest, DeploymentFault, DeploymentFaultView,
};

pub mod address;
pub mod compile;
pub mod hex;
pub mod invocation;
pub mod keyed;
pub mod libraries;
pub mod listing;
pub mod plan;
pub mod registry;
pub mod request;
pub mod text;

verus! {

/// The most gas a contract creation may spend when the configuration names no limit.
pub const DEFAULT_GAS_LIMIT: u64 = 4_500_000;

/// The most gas a library creation may spend.
pub const LIBRARY_GAS_LIMIT: u64 = 1_000_000;

/// Name of the build-output directory used when a configuration names none.
pub open spec fn default_build_dir() -> Seq<char> {
    "build"@
}

/// What one deployment run is given: the registry's parameters and where the
/// contract sources and the compiler output lie.
#[derive(Debug)]
pub struct Config {
    params: Parameters,
    tcr_dir: String,
    compiler_build_dir: Option<String>,
    gas_limit: Option<u64>,
}

impl Config {
    /// The registry's parameters.
    pub closed spec fn parameters(&self) -> Parameters {
        self.params
    }

    /// The directory that holds the contract sources.
    pub closed spec fn source_dir(&self) -> Seq<char> {
        self.tcr_dir@
    }

    /// The directory for compiler output, relative to the sources, if one is named.
    pub closed spec fn named_build_dir(&self) -> Option<Seq<char>> {
        match self.compiler_build_dir {
            Some(dir) => Some(dir@),
            None => None,
        }
    }

    /// The gas limit, if one is named.
    pub closed spec fn named_gas_limit(&self) -> Option<u64> {
        self.gas_limit
    }

    /// The directory for compiler output: the one named, or `build`.
    pub open spec fn build_dir(&self) -> Seq<char> {
        match self.named_build_dir() {
            Some(dir) => dir,
            None => default_build_dir(),
        }
    }

    /// The gas limit for contract creations: the one named, or the default.
    pub open spec fn gas(&self) -> u64 {
        match self.named_gas_limit() {
            Some(limit) => limit,
            None => DEFAULT_GAS_LIMIT,
        }
    }

    /// A configuration with no gas limit named.
    pub fn new(params: Parameters, tcr_dir: &str, compiler_build_dir: Option<&str>) -> (config:
        Config)
        ensures
            config.parameters() == params,
            config.source_dir() == tcr_dir@,
            config.named_build_dir() == match compiler_build_dir {
                Some(dir) => Some(dir@),
                None => None,
            },
            config.named_gas_limit() is None,
    {
        Config {
            params,
            tcr_dir: String::from_str(tcr_dir),
            compiler_build_dir: match compiler_build_dir {
                Some(dir) => Some(String::from_str(dir)),
                None => None,
            },
            gas_limit: None,
        }
    }

    /// The same configuration with the gas limit named.
    pub fn with_gas_limit(self, limit: u64) -> (config: Config)
        ensures
            config.parameters() == self.parameters(),
            config.source_dir() == self.source_dir(),
            config.named_build_dir() == self.named_build_dir(),
            config.named_gas_limit() == Some(limit),
    {
        let mut config = self;
        config.gas_limit = Some(limit);
        config
    }

    /// The directory for compiler output, relative to the sources.
    pub fn compiler_build_dir(&self) -> (dir: &str)
        ensures
            dir@ == self.build_dir(),
    {
        match &self.compiler_build_dir {
            None => "build",
            Some(dir) => dir.as_str(),
        }
    }

    /// The directory that holds the contract sources.
    pub fn tcr_dir(&self) -> (dir: &str)
        ensures
            dir@ == self.source_dir(),
    {
        self.tcr_dir.as_str()
    }

    /// The gas limit for contract creations.
    pub fn gas_limit(&self) -> (limit: u64)
        ensures
            limit == self.gas(),
    {
        match self.gas_limit {
            Some(limit) => limit,
            None => DEFAULT_GAS_LIMIT,
        }
    }

    /// The registry's parameters.
    pub fn params(&self) -> (params: Parameters)
        ensures
            params == self.parameters(),
    {
        self.params
    }
}

/// A library on the chain: its code and where it was deployed.
#[derive(Debug)]
pub struct Library {
    bytecode: Vec<u8>,
    address: Address,
}

impl Library {
    /// The code of the library.
    pub closed spec fn code(&self) -> Seq<u8> {
        self.bytecode@
    }

    /// Where the library was deployed.
    pub closed spec fn deployed_at(&self) -> Address {
        self.address
    }

    /// The transaction that creates a library from `bytecode`: no
    /// constructor arguments, no interface, no confirmations to wait for,
    /// and a look at the chain every second.
    pub fn creation_request(bytecode: &Vec<u8>, from: Address, gas: u64) -> (request:
        CreationRequest)
        ensures
            request@ == library_creation(bytecode@, from, gas),
    {
        CreationRequest {
            from,
            bytecode: copy_bytes(bytecode),
            interface: None,
            arguments: no_arguments(),
            gas,
            confirmations: 0,
            poll_seconds: 1,
        }
    }

    /// The library that a confirmed creation made, from the contract address
    /// in its receipt. A receipt that names no contract is refused.
    pub fn deploy(bytecode: Vec<u8>, contract_address: Option<Address>) -> (result: Result<
        Library,
        DeploymentFault,
    >)
        ensures
            match result {
                Ok(library) => contract_address == Some(library.deployed_at()) && library.code()
                    == bytecode@,
                Err(fault) => contract_address is None && fault@
                    == DeploymentFaultView::NoAddress,
            },
    {
        match contract_address {
            Some(address) => Ok(Library { bytecode, address }),
            None => Err(DeploymentFault::NoAddress),
        }
    }

    /// Where the library was deployed.
    pub fn address(&self) -> (address: Address)
        ensures
            address == self.deployed_at(),
    {
        self.address
    }

    /// The code of the library.
    pub fn bytecode(&self) -> (code: &Vec<u8>)
        ensures
            code@ == self.code(),
    {
        &self.bytecode
    }
}

/// The creation of a library as plain values.
pub open spec fn library_creation(bytecode: Seq<u8>, from: Address, gas: u64) -> request::CreationView {
    request::CreationView {
        from,
        bytecode,
        interface: None,
        arguments: Seq::empty(),
        gas,
        confirmations: 0,
        poll_seconds: 1,
    }
}

} // verus!
