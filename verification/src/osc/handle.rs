//! The lazy handle: a client that comes into being on first use.
//!
//! Nothing is bound when a handle is made. Every operation asks for the
//! client first. The first caller that asks is told to create it; callers
//! that ask meanwhile are told to wait; once a client is installed every
//! caller gets that same client, for as long as the handle lives.

use crate::error::Error;
use crate::osc::client::{begin, probe_message, Action, Exchange, Operation, OscClient};
use crate::osc::value::{values_view, MessageView, OscValue};
use vstd::prelude::*;

verus! {

/// What a handle holds.
#[derive(Clone, Copy, Debug, PartialEq, Eq)]
pub enum HandleState {
    /// No client yet, and nobody is creating one.
    Uninitialized,
    /// A caller is creating the client.
    Initializing,
    /// The client, created once and kept.
    Ready(OscClient),
}

/// What a caller that asks for the client is told.
#[derive(Clone, Copy, Debug, PartialEq, Eq)]
pub enum Access {
    /// Here is the client.
    Ready(OscClient),
    /// There is none: create it, and report with [`OscHandle::created`].
    Create,
    /// Another caller is creating it: ask again when it has reported.
    Wait,
}

/// The state after a caller has asked for the client, and the answer.
pub open spec fn access(state: HandleState) -> (HandleState, Access) {
    match state {
        HandleState::Uninitialized => (HandleState::Initializing, Access::Create),
        HandleState::Initializing => (HandleState::Initializing, Access::Wait),
        HandleState::Ready(client) => (state, Access::Ready(client)),
    }
}

/// The state after a creation has been reported: a client that is there
/// stays; otherwise a created client is installed, and a failure leaves the
/// handle empty, so that a later caller tries again.
pub open spec fn settle(state: HandleState, outcome: Result<OscClient, Error>) -> HandleState {
    match state {
        HandleState::Ready(_) => state,
        _ => match outcome {
            Ok(client) => HandleState::Ready(client),
            Err(_) => HandleState::Uninitialized,
        },
    }
}

/// The state after `n` callers in a row have asked for the client.
pub open spec fn after_accesses(state: HandleState, n: nat) -> HandleState
    decreases n,
{
    if n == 0 {
        state
    } else {
        after_accesses(access(state).0, (n - 1) as nat)
    }
}

/// Whether `first` is how an operation through a handle in the given state
/// begins: with a client there, as the client's own operation begins; without
/// one, with the answer that the accessor gives and the arguments handed
/// back.
pub open spec fn begins(
    first: Result<(Exchange, Action), (Access, Vec<OscValue>)>,
    state: HandleState,
    operation: Operation,
    addr: Seq<char>,
    args: Vec<OscValue>,
) -> bool {
    match access(state).1 {
        Access::Ready(client) => first matches Ok(f) && (f.0@, f.1@) == begin(
            client,
            operation,
            MessageView { addr, args: values_view(args@) },
        ) && f.0@.wf(),
        answer => first matches Err(back) && back.0 == answer && back.1 == args,
    }
}

/// A client that defers the creation of its socket until it is first used.
#[derive(Debug)]
pub struct OscHandle {
    state: HandleState,
}

impl View for OscHandle {
    type V = HandleState;

    closed spec fn view(&self) -> HandleState {
        self.state
    }
}

impl OscHandle {
    /// A handle without a client. No socket is opened.
    pub fn new() -> (handle: OscHandle)
        ensures
            handle@ is Uninitialized,
    {
        OscHandle { state: HandleState::Uninitialized }
    }

    /// Whether the client has been created.
    pub fn initialized(&self) -> (r: bool)
        ensures
            r == (self@ is Ready),
    {
        match self.state {
            HandleState::Ready(_) => true,
            _ => false,
        }
    }

    /// Asks for the client. The first caller on an empty handle is told to
    /// create it, and the handle remembers that a creation is under way.
    pub fn client(&mut self) -> (answer: Access)
        ensures
            (final(self)@, answer) == access(old(self)@),
    {
        match self.state {
            HandleState::Uninitialized => {
                self.state = HandleState::Initializing;
                Access::Create
            },
            HandleState::Initializing => Access::Wait,
            HandleState::Ready(client) => Access::Ready(client),
        }
    }

    /// Reports how the creation went. The result is the client that the
    /// handle now holds, or the error that left it empty.
    pub fn created(&mut self, outcome: Result<OscClient, Error>) -> (r: Result<OscClient, Error>)
        ensures
            final(self)@ == settle(old(self)@, outcome),
            match old(self)@ {
                HandleState::Ready(client) => r == Ok::<OscClient, Error>(client),
                _ => r == outcome,
            },
    {
        match self.state {
            HandleState::Ready(client) => Ok(client),
            _ => match outcome {
                Ok(client) => {
                    self.state = HandleState::Ready(client);
                    Ok(client)
                },
                Err(e) => {
                    self.state = HandleState::Uninitialized;
                    Err(e)
                },
            },
        }
    }

    fn start(&mut self, operation: Operation, addr: &str, args: Vec<OscValue>) -> (first: Result<
        (Exchange, Action),
        (Access, Vec<OscValue>),
    >)
        ensures
            final(self)@ == access(old(self)@).0,
            begins(first, old(self)@, operation, addr@, args),
    {
        match self.client() {
            Access::Ready(client) => Ok(
                match operation {
                    Operation::Send => client.send(addr, args),
                    Operation::Query => client.query(addr, args),
                    Operation::QueryAll => client.query_all(addr, args),
                },
            ),
            answer => Err((answer, args)),
        }
    }

    /// Sends one message through the handle's client. Like every operation
    /// of the handle it asks for the client first, as [`OscHandle::client`]
    /// does: on a handle that holds the client the send begins; otherwise
    /// the caller is told to create the client or to wait, and gets the
    /// arguments back to call again.
    pub fn send(&mut self, addr: &str, args: Vec<OscValue>) -> (first: Result<
        (Exchange, Action),
        (Access, Vec<OscValue>),
    >)
        ensures
            final(self)@ == access(old(self)@).0,
            begins(first, old(self)@, Operation::Send, addr@, args),
    {
        self.start(Operation::Send, addr, args)
    }

    /// Queries for one reply through the handle's client, asking for the
    /// client first.
    pub fn query(&mut self, addr: &str, args: Vec<OscValue>) -> (first: Result<
        (Exchange, Action),
        (Access, Vec<OscValue>),
    >)
        ensures
            final(self)@ == access(old(self)@).0,
            begins(first, old(self)@, Operation::Query, addr@, args),
    {
        self.start(Operation::Query, addr, args)
    }

    /// Begins a collecting query through the handle's client, asking for the
    /// client first.
    pub fn query_all(&mut self, addr: &str, args: Vec<OscValue>) -> (first: Result<
        (Exchange, Action),
        (Access, Vec<OscValue>),
    >)
        ensures
            final(self)@ == access(old(self)@).0,
            begins(first, old(self)@, Operation::QueryAll, addr@, args),
    {
        self.start(Operation::QueryAll, addr, args)
    }

    /// Begins the connection probe through the handle's client, asking for
    /// the client first.
    pub fn test_connection(&mut self) -> (first: Result<(Exchange, Action), Access>)
        ensures
            final(self)@ == access(old(self)@).0,
            match access(old(self)@).1 {
                Access::Ready(client) => first matches Ok(f) && (f.0@, f.1@) == begin(
                    client,
                    Operation::Query,
                    probe_message(),
                ) && f.0@.wf(),
                answer => first == Err::<(Exchange, Action), Access>(answer),
            },
    {
        match self.client() {
            Access::Ready(client) => Ok(client.test_connection()),
            answer => Err(answer),
        }
    }
}

impl Default for OscHandle {
    fn default() -> (handle: OscHandle)
        ensures
            handle@ is Uninitialized,
    {
        OscHandle::new()
    }
}

/// The first operation on a new handle is what sets the creation of the
/// client going: it is answered with `Create`, whichever operation it is, and
/// once the creation is reported as done the same operation begins on the
/// client that was created.
pub proof fn lemma_first_use_creates(client: OscClient)
    ensures
        access(HandleState::Uninitialized) == (HandleState::Initializing, Access::Create),
        settle(access(HandleState::Uninitialized).0, Ok(client)) == HandleState::Ready(client),
        access(HandleState::Ready(client)) == (HandleState::Ready(client), Access::Ready(client)),
{
}

/// Once a handle holds a client it holds that client for good: however many
/// callers ask, each is given the same client, and no report of a creation
/// replaces it.
pub proof fn lemma_ready_stays(client: OscClient, n: nat, outcome: Result<OscClient, Error>)
    ensures
        after_accesses(HandleState::Ready(client), n) == HandleState::Ready(client),
        access(after_accesses(HandleState::Ready(client), n)).1 == Access::Ready(client),
        settle(HandleState::Ready(client), outcome) == HandleState::Ready(client),
    decreases n,
{
    if n > 0 {
        lemma_ready_stays(client, (n - 1) as nat, outcome);
    }
}

/// On an empty handle exactly one caller is told to create the client: the
/// first. However many ask before the creation is reported, each is told to
/// wait.
pub proof fn lemma_one_creator(n: nat)
    ensures
        access(HandleState::Uninitialized).1 is Create,
        access(after_accesses(access(HandleState::Uninitialized).0, n)).1 is Wait,
{
    lemma_waiting(n);
}

/// While a creation is under way the handle stays as it is.
pub proof fn lemma_waiting(n: nat)
    ensures
        after_accesses(HandleState::Initializing, n) == HandleState::Initializing,
    decreases n,
{
    if n > 0 {
        lemma_waiting((n - 1) as nat);
    }
}

/// Asking for the client never creates one by itself: without a report of a
/// creation, the handle holds no client after any number of accesses.
pub proof fn lemma_nothing_before_creation(n: nat)
    ensures
        !(after_accesses(HandleState::Uninitialized, n) is Ready),
    decreases n,
{
    if n > 0 {
        lemma_waiting((n - 1) as nat);
    }
}

/// A creation that succeeded while the handle was waiting for it installs
/// its client; one that failed leaves the handle empty, so that the next
/// caller is told to create again.
pub proof fn lemma_creation_settles(outcome: Result<OscClient, Error>)
    ensures
        match outcome {
            Ok(client) => settle(HandleState::Initializing, outcome) == HandleState::Ready(client),
            Err(_) => access(settle(HandleState::Initializing, outcome)).1 is Create,
        },
{
}

} // verus!
