//! Where the patterns come from: the list kept by this program, or a
//! calibration program that sends them.

use vstd::prelude::*;

pub mod internal;
pub mod resolve;

verus! {

/// The programs that can send patterns over TCP.
#[derive(Debug, Clone, Copy, PartialEq, Eq, Structural)]
pub enum TcpGeneratorInterface {
    Resolve,
}

/// Who makes the patterns.
#[derive(Debug, Clone, Copy, PartialEq, Eq, Structural)]
pub enum GeneratorType {
    Internal,
    External,
}

/// How an outside program hands its patterns over.
#[derive(Debug, Clone, Copy, PartialEq, Eq, Structural)]
pub enum GeneratorInterface {
    Tcp(TcpGeneratorInterface),
}

/// The outside programs that patterns are taken from.
#[derive(Debug, Clone, Copy, PartialEq, Eq, Structural)]
pub enum GeneratorClient {
    Resolve,
}

/// What the client of an outside program can be told.
#[derive(Debug, Clone, Copy, PartialEq, Eq, Structural)]
pub enum GeneratorClientCmd {
    Shutdown,
}

/// The outside program in use, and whether it is listened to.
#[derive(Debug, Clone, Copy, PartialEq, Eq, Structural)]
pub struct GeneratorState {
    pub client: GeneratorClient,
    pub listening: bool,
}

/// An interface, and whether it is listened on.
#[derive(Debug, Clone, Copy, PartialEq, Eq, Structural)]
pub struct GeneratorInfo {
    pub interface: GeneratorInterface,
    pub listening: bool,
}

impl Default for TcpGeneratorInterface {
    fn default() -> (r: TcpGeneratorInterface)
        ensures
            r == TcpGeneratorInterface::Resolve,
    {
        TcpGeneratorInterface::Resolve
    }
}

impl Default for GeneratorType {
    fn default() -> (r: GeneratorType)
        ensures
            r == GeneratorType::Internal,
    {
        GeneratorType::Internal
    }
}

impl Default for GeneratorClient {
    fn default() -> (r: GeneratorClient)
        ensures
            r == GeneratorClient::Resolve,
    {
        GeneratorClient::Resolve
    }
}

impl Default for GeneratorState {
    fn default() -> (r: GeneratorState)
        ensures
            r == (GeneratorState { client: GeneratorClient::Resolve, listening: false }),
    {
        GeneratorState { client: GeneratorClient::Resolve, listening: false }
    }
}

impl Default for GeneratorInfo {
    fn default() -> (r: GeneratorInfo)
        ensures
            r == (GeneratorInfo {
                interface: GeneratorInterface::Tcp(TcpGeneratorInterface::Resolve),
                listening: false,
            }),
    {
        GeneratorInfo {
            interface: GeneratorInterface::Tcp(TcpGeneratorInterface::Resolve),
            listening: false,
        }
    }
}

impl GeneratorType {
    /// The name that the kind is shown under.
    pub open spec fn name(self) -> Seq<char> {
        match self {
            GeneratorType::Internal => "Internal"@,
            GeneratorType::External => "External"@,
        }
    }

    /// The name that the kind is shown under.
    pub fn as_ref(&self) -> (r: &'static str)
        ensures
            r@ == self.name(),
    {
        match self {
            GeneratorType::Internal => "Internal",
            GeneratorType::External => "External",
        }
    }

    pub fn is_internal(&self) -> (r: bool)
        ensures
            r == (*self == GeneratorType::Internal),
    {
        match self {
            GeneratorType::Internal => true,
            GeneratorType::External => false,
        }
    }

    pub fn is_external(&self) -> (r: bool)
        ensures
            r == (*self == GeneratorType::External),
    {
        match self {
            GeneratorType::Internal => false,
            GeneratorType::External => true,
        }
    }
}

impl GeneratorState {
    /// A state that was stored is taken up again: nothing is listened to yet.
    pub fn initial_setup(&mut self)
        ensures
            *final(self) == (GeneratorState { listening: false, ..*old(self) }),
    {
        self.listening = false;
    }
}

impl GeneratorClient {
    /// The interface that the program speaks.
    pub open spec fn spec_interface(self) -> GeneratorInterface {
        match self {
            GeneratorClient::Resolve => GeneratorInterface::Tcp(TcpGeneratorInterface::Resolve),
        }
    }

    /// The name that the program is shown under.
    pub fn as_ref(&self) -> (r: &'static str)
        ensures
            r@ == "Resolve"@,
    {
        match self {
            GeneratorClient::Resolve => "Resolve",
        }
    }

    /// The interface that the program speaks.
    pub fn interface(&self) -> (r: GeneratorInterface)
        ensures
            r == self.spec_interface(),
    {
        match self {
            GeneratorClient::Resolve => GeneratorInterface::Tcp(TcpGeneratorInterface::Resolve),
        }
    }
}

impl GeneratorInterface {
    /// The program that speaks the interface.
    pub open spec fn spec_client(self) -> GeneratorClient {
        match self {
            GeneratorInterface::Tcp(TcpGeneratorInterface::Resolve) => GeneratorClient::Resolve,
        }
    }

    /// The program that speaks the interface.
    pub fn client(&self) -> (r: GeneratorClient)
        ensures
            r == self.spec_client(),
    {
        match self {
            GeneratorInterface::Tcp(tcp_interface) => match tcp_interface {
                TcpGeneratorInterface::Resolve => GeneratorClient::Resolve,
            },
        }
    }
}

/// A program and its interface name each other.
pub proof fn lemma_client_interface_round_trip(client: GeneratorClient, interface: GeneratorInterface)
    ensures
        client.spec_interface().spec_client() == client,
        interface.spec_client().spec_interface() == interface,
{
}

} // verus!
