//! Applying for a listing in a deployed registry, call by call.
use vstd::prelude::*;
use vstd::string::*;
use vstd::utf8::encode_utf8;
use crate::address::Address;
use crate::registry::RegistryInfo;
use crate::request::{
    argument_views, no_arguments, push_address, push_hash, push_number, push_text, Argument,
    ArgumentView,
};

verus! {

/// The SHA3-256 digest of a byte string: thirty-two bytes.
pub uninterp spec fn sha3_256(data: Seq<u8>) -> Seq<u8>;

/// Calls `tiny_keccak::sha3_256`. The contract gives the result its name:
/// the digest depends on the bytes alone.
#[verifier::external_body]
fn digest(data: &[u8]) -> (out: [u8; 32])
    ensures
        out@ == sha3_256(data@),
{
    tiny_keccak::sha3_256(data)
}

/// The key under which a listing is kept: the digest of its name as UTF-8.
pub fn listing_key(name: &str) -> (key: [u8; 32])
    ensures
        key@ == sha3_256(encode_utf8(name@)),
{
    digest(name.as_bytes())
}

/// The most gas an application may spend.
pub const APPLY_GAS_LIMIT: u64 = 1_000_000;

/// A call of a contract function, or a query of one.
#[derive(Debug, PartialEq, Eq)]
pub struct Call {
    /// The contract that is called.
    pub contract: Address,
    /// The name of the function.
    pub function: String,
    /// The arguments, in order.
    pub arguments: Vec<Argument>,
    /// The account that calls.
    pub from: Address,
    /// The most gas to spend; the client's own limit if none is named.
    pub gas: Option<u64>,
    /// How many blocks must follow before the call counts as confirmed.
    pub confirmations: u64,
}

/// A `Call` as plain values.
pub struct CallView {
    pub contract: Address,
    pub function: Seq<char>,
    pub arguments: Seq<ArgumentView>,
    pub from: Address,
    pub gas: Option<u64>,
    pub confirmations: u64,
}

impl View for Call {
    type V = CallView;

    open spec fn view(&self) -> CallView {
        CallView {
            contract: self.contract,
            function: self.function@,
            arguments: argument_views(self.arguments@),
            from: self.from,
            gas: self.gas,
            confirmations: self.confirmations,
        }
    }
}

/// What an application is waiting for.
#[derive(Clone, Copy, Debug, PartialEq, Eq)]
pub enum ListingStep {
    /// Nothing yet: the application has not begun.
    Idle,
    /// The confirmation that the registry may spend the deposit.
    Approving,
    /// The confirmation of the application itself.
    Applying,
    /// The confirmation of the status update.
    Updating,
    /// The answer to whether the listing is whitelisted.
    Asking,
    /// Nothing more: the answer is in.
    Finished { whitelisted: bool },
}

/// Why an application stopped.
#[derive(Debug, PartialEq, Eq)]
pub enum ListingError {
    /// The call or query that was waited for at this step did not go
    /// through; `cause` is what was reported of it.
    Rejected { step: ListingStep, cause: String },
    /// What was reported does not answer what the application was waiting for.
    Unexpected { step: ListingStep },
}

/// A `ListingError` as a plain value.
pub enum ListingErrorView {
    Rejected { step: ListingStep, cause: Seq<char> },
    Unexpected { step: ListingStep },
}

impl View for ListingError {
    type V = ListingErrorView;

    open spec fn view(&self) -> ListingErrorView {
        match self {
            ListingError::Rejected { step, cause } => ListingErrorView::Rejected {
                step: *step,
                cause: cause@,
            },
            ListingError::Unexpected { step } => ListingErrorView::Unexpected { step: *step },
        }
    }
}

impl ListingError {
    /// A second value that says the same.
    pub fn copy(&self) -> (error: ListingError)
        ensures
            error@ == self@,
    {
        match self {
            ListingError::Rejected { step, cause } => ListingError::Rejected {
                step: *step,
                cause: cause.clone(),
            },
            ListingError::Unexpected { step } => ListingError::Unexpected { step: *step },
        }
    }
}

/// What the reason held in an application says, if it holds one.
pub open spec fn listing_reason(failure: Option<ListingError>) -> Option<ListingErrorView> {
    match failure {
        Some(error) => Some(error@),
        None => None,
    }
}

/// What happened outside since the last step of an application.
#[derive(Debug, PartialEq, Eq)]
pub enum ListingEvent {
    /// The application is to begin.
    Start,
    /// The call was confirmed.
    Confirmed,
    /// The call or query did not go through; `cause` is what was reported of it.
    Rejected { cause: String },
    /// The query was answered.
    Answered { whitelisted: bool },
}

/// A `ListingEvent` as a plain value.
pub enum ListingEventView {
    Start,
    Confirmed,
    Rejected { cause: Seq<char> },
    Answered { whitelisted: bool },
}

impl View for ListingEvent {
    type V = ListingEventView;

    open spec fn view(&self) -> ListingEventView {
        match self {
            ListingEvent::Start => ListingEventView::Start,
            ListingEvent::Confirmed => ListingEventView::Confirmed,
            ListingEvent::Rejected { cause } => ListingEventView::Rejected { cause: cause@ },
            ListingEvent::Answered { whitelisted } => ListingEventView::Answered {
                whitelisted: *whitelisted,
            },
        }
    }
}

/// What is to be done outside before the next step of an application.
#[derive(Debug, PartialEq, Eq)]
pub enum ListingAction {
    /// Send this call, wait for its confirmation and report it.
    Call(Call),
    /// Ask this without sending a transaction and report the answer.
    Query(Call),
    /// Nothing: the application went through, and this is the answer.
    Done { whitelisted: bool },
    /// Nothing: the application has stopped for this reason.
    Stop(ListingError),
}

/// A `ListingAction` as a plain value.
pub enum ListingActionView {
    Call(CallView),
    Query(CallView),
    Done { whitelisted: bool },
    Stop(ListingErrorView),
}

impl View for ListingAction {
    type V = ListingActionView;

    open spec fn view(&self) -> ListingActionView {
        match self {
            ListingAction::Call(call) => ListingActionView::Call(call@),
            ListingAction::Query(call) => ListingActionView::Query(call@),
            ListingAction::Done { whitelisted } => ListingActionView::Done {
                whitelisted: *whitelisted,
            },
            ListingAction::Stop(error) => ListingActionView::Stop(error@),
        }
    }
}

/// An application as plain values.
pub struct ListingView {
    pub info: RegistryInfo,
    pub account: Address,
    pub name: Seq<char>,
    pub deposit: u32,
    pub key: Seq<u8>,
    pub step: ListingStep,
    pub failure: Option<ListingErrorView>,
}

/// How far an application has come, as a number that only grows.
pub open spec fn listing_progress(step: ListingStep) -> nat {
    match step {
        ListingStep::Idle => 0,
        ListingStep::Approving => 1,
        ListingStep::Applying => 2,
        ListingStep::Updating => 3,
        ListingStep::Asking => 4,
        ListingStep::Finished { .. } => 5,
    }
}

impl ListingView {
    /// The application as it begins.
    pub open spec fn initial(
        info: RegistryInfo,
        account: Address,
        name: Seq<char>,
        deposit: u32,
        key: Seq<u8>,
    ) -> ListingView {
        ListingView { info, account, name, deposit, key, step: ListingStep::Idle, failure: None }
    }

    /// The call that lets the registry spend the deposit.
    pub open spec fn approval(self) -> CallView {
        CallView {
            contract: self.info.token,
            function: "approve"@,
            arguments: seq![
                ArgumentView::Address(self.info.registry),
                ArgumentView::Number(self.deposit as u64),
            ],
            from: self.account,
            gas: None,
            confirmations: 0,
        }
    }

    /// The application itself: key, deposit and name.
    pub open spec fn application(self) -> CallView {
        CallView {
            contract: self.info.registry,
            function: "apply"@,
            arguments: seq![
                ArgumentView::Hash(self.key),
                ArgumentView::Number(self.deposit as u64),
                ArgumentView::Text(self.name),
            ],
            from: self.account,
            gas: Some(APPLY_GAS_LIMIT),
            confirmations: 0,
        }
    }

    /// A call of the registry function `function` with the key alone.
    pub open spec fn keyed(self, function: Seq<char>) -> CallView {
        CallView {
            contract: self.info.registry,
            function,
            arguments: seq![ArgumentView::Hash(self.key)],
            from: self.account,
            gas: None,
            confirmations: 0,
        }
    }

    /// The application stopped for `error`, where it stands.
    pub open spec fn failed(self, error: ListingErrorView) -> (ListingView, ListingActionView) {
        (ListingView { failure: Some(error), ..self }, ListingActionView::Stop(error))
    }

    /// One step of an application: the application after `event`, and what
    /// is to be done next. Each call is sent only after the one before it
    /// was confirmed. A call or query that is reported as rejected stops the
    /// application with the step and the cause that was reported.
    pub open spec fn step(self, event: ListingEventView) -> (ListingView, ListingActionView) {
        if let Some(error) = self.failure {
            (self, ListingActionView::Stop(error))
        } else {
            match (self.step, event) {
                (ListingStep::Idle, ListingEventView::Start) => (
                    ListingView { step: ListingStep::Approving, ..self },
                    ListingActionView::Call(self.approval()),
                ),
                (ListingStep::Approving, ListingEventView::Confirmed) => (
                    ListingView { step: ListingStep::Applying, ..self },
                    ListingActionView::Call(self.application()),
                ),
                (ListingStep::Applying, ListingEventView::Confirmed) => (
                    ListingView { step: ListingStep::Updating, ..self },
                    ListingActionView::Call(self.keyed("updateStatus"@)),
                ),
                (ListingStep::Updating, ListingEventView::Confirmed) => (
                    ListingView { step: ListingStep::Asking, ..self },
                    ListingActionView::Query(self.keyed("isWhitelisted"@)),
                ),
                (ListingStep::Asking, ListingEventView::Answered { whitelisted }) => (
                    ListingView { step: ListingStep::Finished { whitelisted }, ..self },
                    ListingActionView::Done { whitelisted },
                ),
                (ListingStep::Finished { whitelisted }, _) => (
                    self,
                    ListingActionView::Done { whitelisted },
                ),
                (ListingStep::Idle, _) => self.failed(
                    ListingErrorView::Unexpected { step: self.step },
                ),
                (_, ListingEventView::Rejected { cause }) => self.failed(
                    ListingErrorView::Rejected { step: self.step, cause },
                ),
                _ => self.failed(ListingErrorView::Unexpected { step: self.step }),
            }
        }
    }
}

/// One application for a listing: what it was given and how far it has come.
#[derive(Debug)]
pub struct Listing {
    info: RegistryInfo,
    account: Address,
    name: String,
    deposit: u32,
    key: [u8; 32],
    step: ListingStep,
    failure: Option<ListingError>,
}

impl View for Listing {
    type V = ListingView;

    closed spec fn view(&self) -> ListingView {
        ListingView {
            info: self.info,
            account: self.account,
            name: self.name@,
            deposit: self.deposit,
            key: self.key@,
            step: self.step,
            failure: listing_reason(self.failure),
        }
    }
}

impl Listing {
    /// An application under a key that is already at hand.
    pub fn with_key(
        info: RegistryInfo,
        account: Address,
        name: &str,
        deposit: u32,
        key: [u8; 32],
    ) -> (listing: Listing)
        ensures
            listing@ == ListingView::initial(info, account, name@, deposit, key@),
    {
        Listing {
            info,
            account,
            name: String::from_str(name),
            deposit,
            key,
            step: ListingStep::Idle,
            failure: None,
        }
    }

    /// An application for `name` with `deposit`, under the digest of the name.
    pub fn new(info: RegistryInfo, account: Address, name: &str, deposit: u32) -> (listing:
        Listing)
        ensures
            listing@ == ListingView::initial(
                info,
                account,
                name@,
                deposit,
                sha3_256(encode_utf8(name@)),
            ),
    {
        Listing::with_key(info, account, name, deposit, listing_key(name))
    }

    /// What the application is waiting for.
    pub fn step(&self) -> (step: ListingStep)
        ensures
            step == self@.step,
    {
        self.step
    }

    /// The key under which the listing is kept.
    pub fn key(&self) -> (key: [u8; 32])
        ensures
            key@ == self@.key,
    {
        self.key
    }

    fn fail(&mut self, error: ListingError) -> (action: ListingAction)
        ensures
            final(self)@ == old(self)@.failed(error@).0,
            action@ == old(self)@.failed(error@).1,
    {
        let reported = error.copy();
        self.failure = Some(error);
        ListingAction::Stop(reported)
    }

    fn approval(&self) -> (call: Call)
        ensures
            call@ == self@.approval(),
    {
        let mut arguments = no_arguments();
        push_address(&mut arguments, self.info.registry);
        push_number(&mut arguments, self.deposit as u64);
        proof {
            assert(argument_views(arguments@) =~= self@.approval().arguments);
        }
        Call {
            contract: self.info.token,
            function: String::from_str("approve"),
            arguments,
            from: self.account,
            gas: None,
            confirmations: 0,
        }
    }

    fn application(&self) -> (call: Call)
        ensures
            call@ == self@.application(),
    {
        let mut arguments = no_arguments();
        push_hash(&mut arguments, self.key);
        push_number(&mut arguments, self.deposit as u64);
        push_text(&mut arguments, self.name.as_str());
        proof {
            assert(argument_views(arguments@) =~= self@.application().arguments);
        }
        Call {
            contract: self.info.registry,
            function: String::from_str("apply"),
            arguments,
            from: self.account,
            gas: Some(APPLY_GAS_LIMIT),
            confirmations: 0,
        }
    }

    fn keyed(&self, function: &str) -> (call: Call)
        ensures
            call@ == self@.keyed(function@),
    {
        let mut arguments = no_arguments();
        push_hash(&mut arguments, self.key);
        Call {
            contract: self.info.registry,
            function: String::from_str(function),
            arguments,
            from: self.account,
            gas: None,
            confirmations: 0,
        }
    }
}

/// Takes an application one step further: `event` says what happened
/// outside since the last step, and the result says what is to be done
/// next. The application begins with `ListingEvent::Start`.
pub fn add_listing(listing: &mut Listing, event: ListingEvent) -> (action: ListingAction)
    ensures
        final(listing)@ == old(listing)@.step(event@).0,
        action@ == old(listing)@.step(event@).1,
{
    match &listing.failure {
        Some(error) => {
            return ListingAction::Stop(error.copy());
        },
        None => {},
    }
    let step = listing.step;
    match step {
        ListingStep::Finished { whitelisted } => ListingAction::Done { whitelisted },
        ListingStep::Idle => match event {
            ListingEvent::Start => {
                listing.step = ListingStep::Approving;
                ListingAction::Call(listing.approval())
            },
            _ => listing.fail(ListingError::Unexpected { step }),
        },
        ListingStep::Approving => match event {
            ListingEvent::Confirmed => {
                let call = listing.application();
                listing.step = ListingStep::Applying;
                ListingAction::Call(call)
            },
            ListingEvent::Rejected { cause } => listing.fail(
                ListingError::Rejected { step, cause },
            ),
            _ => listing.fail(ListingError::Unexpected { step }),
        },
        ListingStep::Applying => match event {
            ListingEvent::Confirmed => {
                let call = listing.keyed("updateStatus");
                listing.step = ListingStep::Updating;
                ListingAction::Call(call)
            },
            ListingEvent::Rejected { cause } => listing.fail(
                ListingError::Rejected { step, cause },
            ),
            _ => listing.fail(ListingError::Unexpected { step }),
        },
        ListingStep::Updating => match event {
            ListingEvent::Confirmed => {
                let call = listing.keyed("isWhitelisted");
                listing.step = ListingStep::Asking;
                ListingAction::Query(call)
            },
            ListingEvent::Rejected { cause } => listing.fail(
                ListingError::Rejected { step, cause },
            ),
            _ => listing.fail(ListingError::Unexpected { step }),
        },
        ListingStep::Asking => match event {
            ListingEvent::Answered { whitelisted } => {
                listing.step = ListingStep::Finished { whitelisted };
                ListingAction::Done { whitelisted }
            },
            ListingEvent::Rejected { cause } => listing.fail(
                ListingError::Rejected { step, cause },
            ),
            _ => listing.fail(ListingError::Unexpected { step }),
        },
    }
}

/// An application that has stopped stays stopped, and sends nothing more.
pub proof fn lemma_stopped_listing_stays(listing: ListingView, event: ListingEventView)
    requires
        listing.failure is Some,
    ensures
        listing.step(event).0 == listing,
        listing.step(event).1 == ListingActionView::Stop(listing.failure.unwrap()),
{
}

/// No call is sent before the one before it was confirmed: a step sends a
/// call only on the start or on a confirmation, and takes the application
/// exactly one step forward when it does.
pub proof fn lemma_calls_wait_for_confirmation(listing: ListingView, event: ListingEventView)
    requires
        listing.step(event).1 is Call || listing.step(event).1 is Query,
    ensures
        event == ListingEventView::Start || event == ListingEventView::Confirmed,
        listing_progress(listing.step(event).0.step) == listing_progress(listing.step) + 1,
        listing.failure is None,
{
}

/// A rejected call or query stops the application for exactly the cause
/// that was reported, at the step that was waiting for it.
pub proof fn lemma_rejected_call_keeps_its_cause(listing: ListingView, cause: Seq<char>)
    requires
        listing.failure is None,
        listing.step != ListingStep::Idle,
        !(listing.step is Finished),
    ensures
        ({
            let error = ListingErrorView::Rejected { step: listing.step, cause };
            let after = listing.step(ListingEventView::Rejected { cause });
            after.0.failure == Some(error) && after.1 == ListingActionView::Stop(error)
        }),
{
}

} // verus!
