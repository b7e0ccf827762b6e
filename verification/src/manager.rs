//! The manager's settings, the typed builder that gathers them, and the
//! manager's own state: the jobs it keeps.
use vstd::prelude::*;

use crate::job::EscalonJob;

verus! {

/// The id of this node among its peers.
#[derive(Clone, Debug)]
pub struct Id(pub String);

/// No id set yet.
pub struct NoId;

/// An IP address, version 4 (four octets) or version 6 (eight segments).
#[derive(Clone, Copy, Debug)]
pub enum IpAddress {
    V4([u8; 4]),
    V6([u16; 8]),
}

/// The address this node listens on.
#[derive(Clone, Copy, Debug)]
pub struct Addr(pub IpAddress);

/// No address set yet.
pub struct NoAddr;

/// The port this node listens on.
#[derive(Clone, Copy, Debug)]
pub struct Port(pub u16);

/// No port set yet.
pub struct NoPort;

/// No job-distribution functions set yet.
pub struct NoFunctions;

/// The user's context, handed to every job run and status report.
#[derive(Clone, Debug)]
pub struct Context<T>(pub T);

/// Gathers a manager's settings; each type parameter records whether its
/// setting has been given, so that only a complete builder can build.
pub struct EscalonJobsManagerBuilder<I, A, P, C, F> {
    id: I,
    addr: A,
    port: P,
    context: C,
    functions: F,
}

/// The state of a job manager: the jobs it keeps, in the order they were
/// added, and its settings.
pub struct EscalonJobsManager<T> {
    pub jobs: Vec<EscalonJob>,
    pub context: Context<T>,
    pub id: Id,
    pub addr: Addr,
    pub port: Port,
}

impl<T> View for EscalonJobsManager<T> {
    type V = Seq<EscalonJob>;

    open spec fn view(&self) -> Seq<EscalonJob> {
        self.jobs@
    }
}

impl<I, A, P, C, F> EscalonJobsManagerBuilder<I, A, P, C, F> {
    /// The id setting as given so far.
    pub closed spec fn id_part(self) -> I {
        self.id
    }

    /// The address setting as given so far.
    pub closed spec fn addr_part(self) -> A {
        self.addr
    }

    /// The port setting as given so far.
    pub closed spec fn port_part(self) -> P {
        self.port
    }

    /// The context held by the builder.
    pub closed spec fn context_part(self) -> C {
        self.context
    }

    /// The job-distribution functions as given so far.
    pub closed spec fn functions_part(self) -> F {
        self.functions
    }

    /// Sets the node's id; every other setting is kept.
    pub fn set_id(self, id: String) -> (r: EscalonJobsManagerBuilder<Id, A, P, C, F>)
        ensures
            r.id_part() == Id(id),
            r.addr_part() == self.addr_part(),
            r.port_part() == self.port_part(),
            r.context_part() == self.context_part(),
            r.functions_part() == self.functions_part(),
    {
        EscalonJobsManagerBuilder {
            id: Id(id),
            addr: self.addr,
            port: self.port,
            context: self.context,
            functions: self.functions,
        }
    }

    /// Sets the address to listen on; every other setting is kept.
    pub fn set_addr(self, addr: IpAddress) -> (r: EscalonJobsManagerBuilder<I, Addr, P, C, F>)
        ensures
            r.id_part() == self.id_part(),
            r.addr_part() == Addr(addr),
            r.port_part() == self.port_part(),
            r.context_part() == self.context_part(),
            r.functions_part() == self.functions_part(),
    {
        EscalonJobsManagerBuilder {
            id: self.id,
            addr: Addr(addr),
            port: self.port,
            context: self.context,
            functions: self.functions,
        }
    }

    /// Sets the port to listen on; every other setting is kept.
    pub fn set_port(self, port: u16) -> (r: EscalonJobsManagerBuilder<I, A, Port, C, F>)
        ensures
            r.id_part() == self.id_part(),
            r.addr_part() == self.addr_part(),
            r.port_part() == Port(port),
            r.context_part() == self.context_part(),
            r.functions_part() == self.functions_part(),
    {
        EscalonJobsManagerBuilder {
            id: self.id,
            addr: self.addr,
            port: Port(port),
            context: self.context,
            functions: self.functions,
        }
    }

    /// Sets the functions that hand jobs over to and take them from peers;
    /// every other setting is kept.
    pub fn set_functions<G>(self, functions: G) -> (r: EscalonJobsManagerBuilder<I, A, P, C, G>)
        ensures
            r.id_part() == self.id_part(),
            r.addr_part() == self.addr_part(),
            r.port_part() == self.port_part(),
            r.context_part() == self.context_part(),
            r.functions_part() == functions,
    {
        EscalonJobsManagerBuilder {
            id: self.id,
            addr: self.addr,
            port: self.port,
            context: self.context,
            functions: functions,
        }
    }
}

impl<T> EscalonJobsManagerBuilder<NoId, NoAddr, NoPort, Context<T>, NoFunctions> {
    /// A builder that holds the user's context and no setting yet.
    pub fn new(context: T) -> (r: Self)
        ensures
            r.context_part() == Context(context),
    {
        EscalonJobsManagerBuilder {
            id: NoId,
            addr: NoAddr,
            port: NoPort,
            context: Context(context),
            functions: NoFunctions,
        }
    }
}

impl<T, F> EscalonJobsManagerBuilder<Id, Addr, Port, Context<T>, F> {
    /// A manager with the builder's settings and no job yet, and the
    /// builder's job-distribution functions.
    pub fn build(self) -> (r: (EscalonJobsManager<T>, F))
        ensures
            r.0@ == Seq::<EscalonJob>::empty(),
            r.0.id == self.id_part(),
            r.0.addr == self.addr_part(),
            r.0.port == self.port_part(),
            r.0.context == self.context_part(),
            r.1 == self.functions_part(),
    {
        let manager = EscalonJobsManager {
            jobs: Vec::new(),
            context: self.context,
            id: self.id,
            addr: self.addr,
            port: self.port,
        };
        (manager, self.functions)
    }
}

} // verus!
