//! What is asked of the chain: contract creations, calls and queries, as plain values.
use vstd::prelude::*;
use vstd::string::*;
use crate::address::Address;

verus! {

/// One argument of a constructor or of a contract function.
#[derive(Debug, PartialEq, Eq)]
pub enum Argument {
    /// An account or contract address.
    Address(Address),
    /// An unsigned number.
    Number(u64),
    /// A text.
    Text(String),
    /// A digest of thirty-two bytes.
    Hash([u8; 32]),
}

/// An `Argument` as a plain value.
pub enum ArgumentView {
    Address(Address),
    Number(u64),
    Text(Seq<char>),
    Hash(Seq<u8>),
}

impl View for Argument {
    type V = ArgumentView;

    open spec fn view(&self) -> ArgumentView {
        match self {
            Argument::Address(address) => ArgumentView::Address(*address),
            Argument::Number(number) => ArgumentView::Number(*number),
            Argument::Text(text) => ArgumentView::Text(text@),
            Argument::Hash(digest) => ArgumentView::Hash(digest@),
        }
    }
}

/// The arguments held by a sequence of `Argument`s, in order.
pub open spec fn argument_views(held: Seq<Argument>) -> Seq<ArgumentView> {
    Seq::new(held.len(), |i: int| held[i]@)
}

/// Adds an address to the end of an argument list.
pub fn push_address(list: &mut Vec<Argument>, address: Address)
    ensures
        argument_views(final(list)@) == argument_views(old(list)@).push(
            ArgumentView::Address(address),
        ),
{
    list.push(Argument::Address(address));
    proof {
        assert(argument_views(list@) =~= argument_views(old(list)@).push(
            ArgumentView::Address(address),
        ));
    }
}

/// Adds a number to the end of an argument list.
pub fn push_number(list: &mut Vec<Argument>, number: u64)
    ensures
        argument_views(final(list)@) == argument_views(old(list)@).push(
            ArgumentView::Number(number),
        ),
{
    list.push(Argument::Number(number));
    proof {
        assert(argument_views(list@) =~= argument_views(old(list)@).push(
            ArgumentView::Number(number),
        ));
    }
}

/// Adds a text to the end of an argument list.
pub fn push_text(list: &mut Vec<Argument>, text: &str)
    ensures
        argument_views(final(list)@) == argument_views(old(list)@).push(ArgumentView::Text(text@)),
{
    list.push(Argument::Text(String::from_str(text)));
    proof {
        assert(argument_views(list@) =~= argument_views(old(list)@).push(
            ArgumentView::Text(text@),
        ));
    }
}

/// Adds a digest to the end of an argument list.
pub fn push_hash(list: &mut Vec<Argument>, digest: [u8; 32])
    ensures
        argument_views(final(list)@) == argument_views(old(list)@).push(
            ArgumentView::Hash(digest@),
        ),
{
    list.push(Argument::Hash(digest));
    proof {
        assert(argument_views(list@) =~= argument_views(old(list)@).push(
            ArgumentView::Hash(digest@),
        ));
    }
}

/// An empty argument list.
pub fn no_arguments() -> (list: Vec<Argument>)
    ensures
        argument_views(list@) == Seq::<ArgumentView>::empty(),
{
    let list: Vec<Argument> = Vec::new();
    proof {
        assert(argument_views(list@) =~= Seq::<ArgumentView>::empty());
    }
    list
}

/// A transaction that creates a contract.
#[derive(Debug, PartialEq, Eq)]
pub struct CreationRequest {
    /// The account that pays.
    pub from: Address,
    /// The code to deploy.
    pub bytecode: Vec<u8>,
    /// The interface description, for a contract that is called later.
    pub interface: Option<Vec<u8>>,
    /// The constructor arguments, in order.
    pub arguments: Vec<Argument>,
    /// The most gas to spend.
    pub gas: u64,
    /// How many blocks must follow before the creation counts as confirmed.
    pub confirmations: u64,
    /// The seconds between two looks at the chain while waiting.
    pub poll_seconds: u64,
}

/// A `CreationRequest` as plain values.
pub struct CreationView {
    pub from: Address,
    pub bytecode: Seq<u8>,
    pub interface: Option<Seq<u8>>,
    pub arguments: Seq<ArgumentView>,
    pub gas: u64,
    pub confirmations: u64,
    pub poll_seconds: u64,
}

impl View for CreationRequest {
    type V = CreationView;

    open spec fn view(&self) -> CreationView {
        CreationView {
            from: self.from,
            bytecode: self.bytecode@,
            interface: match self.interface {
                Some(interface) => Some(interface@),
                None => None,
            },
            arguments: argument_views(self.arguments@),
            gas: self.gas,
            confirmations: self.confirmations,
            poll_seconds: self.poll_seconds,
        }
    }
}

/// Why a creation did not go through.
#[derive(Debug, PartialEq, Eq)]
pub enum DeploymentFault {
    /// The transaction was refused, or its confirmation failed; `cause` is
    /// what was reported of it.
    Rejected { cause: String },
    /// The transaction was confirmed and its receipt names no contract.
    NoAddress,
}

/// A `DeploymentFault` as a plain value.
pub enum DeploymentFaultView {
    Rejected { cause: Seq<char> },
    NoAddress,
}

impl View for DeploymentFault {
    type V = DeploymentFaultView;

    open spec fn view(&self) -> DeploymentFaultView {
        match self {
            DeploymentFault::Rejected { cause } => DeploymentFaultView::Rejected { cause: cause@ },
            DeploymentFault::NoAddress => DeploymentFaultView::NoAddress,
        }
    }
}

impl DeploymentFault {
    /// A second value that says the same.
    pub fn copy(&self) -> (fault: DeploymentFault)
        ensures
            fault@ == self@,
    {
        match self {
            DeploymentFault::Rejected { cause } => DeploymentFault::Rejected {
                cause: cause.clone(),
            },
            DeploymentFault::NoAddress => DeploymentFault::NoAddress,
        }
    }
}

/// Copies a byte string.
pub fn copy_bytes(bytes: &Vec<u8>) -> (copy: Vec<u8>)
    ensures
        copy@ == bytes@,
{
    let mut copy: Vec<u8> = Vec::new();
    let mut i: usize = 0;
    while i < bytes.len()
        invariant
            i <= bytes.len(),
            copy@ == bytes@.take(i as int),
        decreases bytes.len() - i,
    {
        copy.push(bytes[i]);
        proof {
            assert(bytes@.take(i as int).push(bytes@[i as int]) =~= bytes@.take(i as int + 1));
        }
        i = i + 1;
    }
    proof {
        assert(bytes@.take(bytes.len() as int) =~= bytes@);
    }
    copy
}

} // verus!
