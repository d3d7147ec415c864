//! The operations of the control surface.
//!
//! Every operation is one exchange: a command with its attribute groups in a
//! fixed order, and a reply of a known shape. An [`IpvsClient`] lays the
//! exchange out as an [`Exchange`]; the caller runs it as a transaction to its
//! end, and lets the exchange read the records that it returned.

use vstd::prelude::*;
use crate::error::Error;
use crate::family::{resolve, resolves_to, subsystem, subsystem_name, unknown_family, CtrlAttr};
use crate::message::{NLM_F_ACK, NLM_F_DUMP, NLM_F_REQUEST};
use crate::model::{Destination, DestinationExtended, Service, ServiceExtended};
use crate::transaction::{Transaction, TransactionView};

verus! {

/// What a request asks the subsystem to do.
#[derive(Clone, Copy, Debug, PartialEq, Eq, Structural)]
pub enum Command {
    /// Create a service.
    NewService,
    /// Change a service.
    SetService,
    /// Delete a service.
    DelService,
    /// Report services.
    GetService,
    /// Create a destination of a service.
    NewDest,
    /// Change a destination of a service.
    SetDest,
    /// Delete a destination of a service.
    DelDest,
    /// Report the destinations of a service.
    GetDest,
}

/// One attribute group of a request: the object it describes.
#[derive(Clone, Copy, Debug, PartialEq, Eq)]
pub enum Group {
    Service(Service),
    Destination(Destination),
}

/// A request to the subsystem.
#[derive(Clone, Debug, PartialEq, Eq)]
pub struct Request {
    /// The number of the family that the request is addressed to.
    pub family_id: u16,
    /// What is asked.
    pub command: Command,
    /// Whether every entry is asked for instead of one.
    pub dump: bool,
    /// The attribute groups, in the order in which they are sent.
    pub groups: Vec<Group>,
}

impl Request {
    /// The flags of the header that the request is sent under: every request
    /// wants an acknowledgement, and a dump says so.
    pub open spec fn header_flags(self) -> u16 {
        if self.dump {
            NLM_F_REQUEST | NLM_F_ACK | NLM_F_DUMP
        } else {
            NLM_F_REQUEST | NLM_F_ACK
        }
    }

    /// Computes [`Request::header_flags`].
    pub fn flags(&self) -> (flags: u16)
        ensures
            flags == self.header_flags(),
    {
        if self.dump {
            NLM_F_REQUEST | NLM_F_ACK | NLM_F_DUMP
        } else {
            NLM_F_REQUEST | NLM_F_ACK
        }
    }
}

/// One record of a reply: a service or a destination, never both.
#[derive(Clone, Copy, Debug, PartialEq, Eq)]
pub enum Record {
    Service(ServiceExtended),
    Destination(DestinationExtended),
}

/// The shape of the reply that an operation calls for.
#[derive(Clone, Copy, Debug, PartialEq, Eq, Structural)]
pub enum Expectation {
    /// Nothing is read from the reply. Whatever it holds is dropped.
    Nothing,
    /// Exactly one record, and that a service.
    Service,
    /// Exactly one record, and that a destination.
    Destination,
    /// Any number of records, all of them services.
    Services,
    /// Any number of records, all of them destinations.
    Destinations,
}

impl Expectation {
    /// Whether the records have the shape that is called for.
    pub open spec fn accepts(self, records: Seq<Record>) -> bool {
        match self {
            Expectation::Nothing => true,
            Expectation::Service => records.len() == 1 && records[0] is Service,
            Expectation::Destination => records.len() == 1 && records[0] is Destination,
            Expectation::Services => forall|i: int|
                0 <= i < records.len() ==> #[trigger] records[i] is Service,
            Expectation::Destinations => forall|i: int|
                0 <= i < records.len() ==> #[trigger] records[i] is Destination,
        }
    }
}

/// What an operation returns.
#[derive(Clone, Debug, PartialEq, Eq)]
pub enum Reply {
    /// The operation was carried out and returns nothing.
    Nothing,
    /// The one service that the reply held.
    Service(ServiceExtended),
    /// The one destination that the reply held.
    Destination(DestinationExtended),
    /// The services that the reply held, in its order.
    Services(Vec<ServiceExtended>),
    /// The destinations that the reply held, in its order.
    Destinations(Vec<DestinationExtended>),
}

impl Reply {
    /// Whether this is what the records say to an operation with that
    /// expectation: the records themselves, unchanged and in their order.
    pub open spec fn renders(self, expect: Expectation, records: Seq<Record>) -> bool {
        match self {
            Reply::Nothing => expect is Nothing,
            Reply::Service(service) => {
                &&& expect is Service
                &&& records == seq![Record::Service(service)]
            },
            Reply::Destination(destination) => {
                &&& expect is Destination
                &&& records == seq![Record::Destination(destination)]
            },
            Reply::Services(services) => {
                &&& expect is Services
                &&& records == services@.map_values(|s: ServiceExtended| Record::Service(s))
            },
            Reply::Destinations(destinations) => {
                &&& expect is Destinations
                &&& records == destinations@.map_values(
                    |d: DestinationExtended| Record::Destination(d),
                )
            },
        }
    }
}

/// One operation, laid out: what is sent and what is expected back.
#[derive(Clone, Debug, PartialEq, Eq)]
pub struct Exchange {
    /// The request.
    pub request: Request,
    /// The shape of the reply.
    pub expect: Expectation,
}

impl Exchange {
    /// Whether the exchange is laid out exactly like this.
    pub open spec fn consists_of(
        self,
        family_id: u16,
        command: Command,
        dump: bool,
        groups: Seq<Group>,
        expect: Expectation,
    ) -> bool {
        &&& self.request.family_id == family_id
        &&& self.request.command == command
        &&& self.request.dump == dump
        &&& self.request.groups@ == groups
        &&& self.expect == expect
    }

    /// The exchange as a transaction to run: it starts by asking for the
    /// request to be sent.
    pub fn begin(&self) -> (t: Transaction<Record>)
        ensures
            t@ == TransactionView::<Record>::start(self.request.dump),
    {
        Transaction::new(self.request.dump)
    }

    /// Reads the records that the exchange returned.
    ///
    /// Records of the shape that the operation calls for are handed out as
    /// they are. Any other reply is a violation of the protocol, and is
    /// reported as such: a record is never taken for one of another variant.
    pub fn conclude(&self, records: Vec<Record>) -> (r: Result<Reply, Error>)
        ensures
            r is Ok <==> self.expect.accepts(records@),
            r is Ok ==> r->Ok_0.renders(self.expect, records@),
            r is Err ==> r->Err_0 == Error::Protocol,
    {
        match self.expect {
            Expectation::Nothing => Ok(Reply::Nothing),
            Expectation::Service => {
                if records.len() != 1 {
                    return Err(Error::Protocol);
                }
                match records[0] {
                    Record::Service(service) => {
                        assert(records@ =~= seq![Record::Service(service)]);
                        Ok(Reply::Service(service))
                    },
                    Record::Destination(_) => Err(Error::Protocol),
                }
            },
            Expectation::Destination => {
                if records.len() != 1 {
                    return Err(Error::Protocol);
                }
                match records[0] {
                    Record::Destination(destination) => {
                        assert(records@ =~= seq![Record::Destination(destination)]);
                        Ok(Reply::Destination(destination))
                    },
                    Record::Service(_) => Err(Error::Protocol),
                }
            },
            Expectation::Services => {
                let mut services: Vec<ServiceExtended> = Vec::new();
                let mut i: usize = 0;
                while i < records.len()
                    invariant
                        self.expect is Services,
                        i <= records.len(),
                        services@.len() == i,
                        forall|j: int|
                            0 <= j < i ==> records@[j] == Record::Service(#[trigger] services@[j]),
                    decreases records.len() - i,
                {
                    match records[i] {
                        Record::Service(service) => services.push(service),
                        Record::Destination(_) => {
                            return Err(Error::Protocol);
                        },
                    }
                    i += 1;
                }
                assert(records@ =~= services@.map_values(
                    |s: ServiceExtended| Record::Service(s),
                ));
                Ok(Reply::Services(services))
            },
            Expectation::Destinations => {
                let mut destinations: Vec<DestinationExtended> = Vec::new();
                let mut i: usize = 0;
                while i < records.len()
                    invariant
                        self.expect is Destinations,
                        i <= records.len(),
                        destinations@.len() == i,
                        forall|j: int|
                            0 <= j < i ==> records@[j] == Record::Destination(
                                #[trigger] destinations@[j],
                            ),
                    decreases records.len() - i,
                {
                    match records[i] {
                        Record::Destination(destination) => destinations.push(destination),
                        Record::Service(_) => {
                            return Err(Error::Protocol);
                        },
                    }
                    i += 1;
                }
                assert(records@ =~= destinations@.map_values(
                    |d: DestinationExtended| Record::Destination(d),
                ));
                Ok(Reply::Destinations(destinations))
            },
        }
    }
}

/// An update hands out exactly one record: where the reading of a reply
/// succeeds for an operation that expects one service, the reply held that
/// one service and nothing else, and it is handed out as it came. The same
/// holds of one destination.
pub proof fn lemma_update_returns_one_record(records: Seq<Record>, reply: Reply)
    requires
        reply.renders(Expectation::Service, records) || reply.renders(
            Expectation::Destination,
            records,
        ),
    ensures
        records.len() == 1,
        reply is Service || reply is Destination,
        reply is Service ==> records[0] == Record::Service(reply->Service_0),
        reply is Destination ==> records[0] == Record::Destination(reply->Destination_0),
{
}

/// An update of a service returns the service it was changed into: where the
/// peer answers with the one record of a service that has the identity of
/// `to`, the reading succeeds, and what it hands out is that record, under the
/// identity of `to`.
pub proof fn lemma_update_returns_the_changed_service(
    to: Service,
    reported: ServiceExtended,
    reply: Reply,
)
    requires
        reported.service.identity() == to.identity(),
        reply.renders(Expectation::Service, seq![Record::Service(reported)]),
    ensures
        Expectation::Service.accepts(seq![Record::Service(reported)]),
        reply == Reply::Service(reported),
        reply->Service_0.service.identity() == to.identity(),
{
    let records = seq![Record::Service(reported)];
    assert(records[0] == Record::Service(reported));
}

/// An update of a destination returns the destination it was changed into:
/// where the peer answers with the one record of a destination that has the
/// identity of `to`, the reading succeeds, and what it hands out is that
/// record, under the identity of `to`.
pub proof fn lemma_update_returns_the_changed_destination(
    to: Destination,
    reported: DestinationExtended,
    reply: Reply,
)
    requires
        reported.destination.identity() == to.identity(),
        reply.renders(Expectation::Destination, seq![Record::Destination(reported)]),
    ensures
        Expectation::Destination.accepts(seq![Record::Destination(reported)]),
        reply == Reply::Destination(reported),
        reply->Destination_0.destination.identity() == to.identity(),
{
    let records = seq![Record::Destination(reported)];
    assert(records[0] == Record::Destination(reported));
}

/// A listing hands out every record: where the reading of a reply succeeds
/// for an operation that expects services, there are as many services as the
/// reply held records, and each is the record at its place.
pub proof fn lemma_listing_returns_every_record(records: Seq<Record>, reply: Reply)
    requires
        reply.renders(Expectation::Services, records),
    ensures
        reply is Services,
        reply->Services_0@.len() == records.len(),
        forall|i: int|
            0 <= i < records.len() ==> records[i] == Record::Service(
                #[trigger] reply->Services_0@[i],
            ),
{
}

/// A session with the subsystem: the number of its family, found once when
/// the session is opened.
#[derive(Clone, Copy, Debug, PartialEq, Eq)]
pub struct IpvsClient {
    family_id: u16,
}

impl IpvsClient {
    /// The number of the subsystem's family. It never changes.
    pub closed spec fn family(self) -> u16 {
        self.family_id
    }

    /// Opens a session from the attributes of the control family's reply to
    /// [`subsystem_query`](crate::family::subsystem_query).
    ///
    /// The session is addressed by the first identifier that stands right
    /// behind the subsystem's name. Without one the subsystem is absent, and
    /// there is no session.
    pub fn new(reply: &Vec<CtrlAttr>) -> (r: Result<IpvsClient, Error>)
        ensures
            match r {
                Ok(client) => resolves_to(reply@, subsystem(), client.family()),
                Err(error) => error == Error::NotFound && unknown_family(reply@, subsystem()),
            },
    {
        match resolve(subsystem_name(), reply) {
            Ok(family_id) => Ok(IpvsClient { family_id }),
            Err(error) => Err(error),
        }
    }

    /// The number of the subsystem's family.
    pub fn family_id(&self) -> (id: u16)
        ensures
            id == self.family(),
    {
        self.family_id
    }

    fn exchange(&self, command: Command, dump: bool, groups: Vec<Group>, expect: Expectation) -> (e:
        Exchange)
        ensures
            e.consists_of(self.family(), command, dump, groups@, expect),
    {
        Exchange { request: Request { family_id: self.family_id, command, dump, groups }, expect }
    }

    /// Creates the service. Nothing is read from the reply.
    pub fn create_service(&self, svc: &Service) -> (e: Exchange)
        ensures
            e.consists_of(
                self.family(),
                Command::NewService,
                false,
                seq![Group::Service(*svc)],
                Expectation::Nothing,
            ),
    {
        let mut groups = Vec::new();
        groups.push(Group::Service(*svc));
        self.exchange(Command::NewService, false, groups, Expectation::Nothing)
    }

    /// Deletes the service. Nothing is read from the reply.
    pub fn delete_service(&self, svc: &Service) -> (e: Exchange)
        ensures
            e.consists_of(
                self.family(),
                Command::DelService,
                false,
                seq![Group::Service(*svc)],
                Expectation::Nothing,
            ),
    {
        let mut groups = Vec::new();
        groups.push(Group::Service(*svc));
        self.exchange(Command::DelService, false, groups, Expectation::Nothing)
    }

    /// Changes the service `svc` into `to`: the service as it is now comes
    /// first, the one it is to become second. The reply holds one service: the
    /// one that resulted.
    pub fn update_service(&self, svc: &Service, to: &Service) -> (e: Exchange)
        ensures
            e.consists_of(
                self.family(),
                Command::SetService,
                false,
                seq![Group::Service(*svc), Group::Service(*to)],
                Expectation::Service,
            ),
    {
        let mut groups = Vec::new();
        groups.push(Group::Service(*svc));
        groups.push(Group::Service(*to));
        assert(groups@ =~= seq![Group::Service(*svc), Group::Service(*to)]);
        self.exchange(Command::SetService, false, groups, Expectation::Service)
    }

    /// Reports every service, with its counters.
    pub fn get_all_services(&self) -> (e: Exchange)
        ensures
            e.consists_of(
                self.family(),
                Command::GetService,
                true,
                Seq::<Group>::empty(),
                Expectation::Services,
            ),
    {
        self.exchange(Command::GetService, true, Vec::new(), Expectation::Services)
    }

    /// Creates the destination `dst` of the service `svc`. Nothing is read
    /// from the reply.
    pub fn create_destination(&self, svc: &Service, dst: &Destination) -> (e: Exchange)
        ensures
            e.consists_of(
                self.family(),
                Command::NewDest,
                false,
                seq![Group::Service(*svc), Group::Destination(*dst)],
                Expectation::Nothing,
            ),
    {
        let mut groups = Vec::new();
        groups.push(Group::Service(*svc));
        groups.push(Group::Destination(*dst));
        assert(groups@ =~= seq![Group::Service(*svc), Group::Destination(*dst)]);
        self.exchange(Command::NewDest, false, groups, Expectation::Nothing)
    }

    /// Takes the destination out of scheduling and leaves it in place: the
    /// change of `dst` into itself with a weight of zero. New connections no
    /// longer go to it; those it has go on. The reply holds one destination,
    /// as that of any other change does.
    pub fn disable_destination(&self, svc: &Service, dst: &Destination) -> (e: Exchange)
        ensures
            e.consists_of(
                self.family(),
                Command::SetDest,
                false,
                seq![
                    Group::Service(*svc),
                    Group::Destination(*dst),
                    Group::Destination(dst.disabled()),
                ],
                Expectation::Destination,
            ),
    {
        let other = dst.to_disabled();
        self.update_destination(svc, dst, &other)
    }

    /// Deletes the destination `dst` of the service `svc`, whether or not
    /// connections still run through it. Nothing is read from the reply.
    pub fn delete_destination(&self, svc: &Service, dst: &Destination) -> (e: Exchange)
        ensures
            e.consists_of(
                self.family(),
                Command::DelDest,
                false,
                seq![Group::Service(*svc), Group::Destination(*dst)],
                Expectation::Nothing,
            ),
    {
        let mut groups = Vec::new();
        groups.push(Group::Service(*svc));
        groups.push(Group::Destination(*dst));
        assert(groups@ =~= seq![Group::Service(*svc), Group::Destination(*dst)]);
        self.exchange(Command::DelDest, false, groups, Expectation::Nothing)
    }

    /// Changes the destination `dst` of the service `svc` into `to`: the
    /// service comes first, then the destination as it is now, then the one it
    /// is to become. The reply holds one destination: the one that resulted.
    pub fn update_destination(&self, svc: &Service, dst: &Destination, to: &Destination) -> (e:
        Exchange)
        ensures
            e.consists_of(
                self.family(),
                Command::SetDest,
                false,
                seq![Group::Service(*svc), Group::Destination(*dst), Group::Destination(*to)],
                Expectation::Destination,
            ),
    {
        let mut groups = Vec::new();
        groups.push(Group::Service(*svc));
        groups.push(Group::Destination(*dst));
        groups.push(Group::Destination(*to));
        assert(groups@ =~= seq![
            Group::Service(*svc),
            Group::Destination(*dst),
            Group::Destination(*to),
        ]);
        self.exchange(Command::SetDest, false, groups, Expectation::Destination)
    }

    /// Reports every destination of the service `svc`, with its counters.
    pub fn get_all_destinations(&self, svc: &Service) -> (e: Exchange)
        ensures
            e.consists_of(
                self.family(),
                Command::GetDest,
                true,
                seq![Group::Service(*svc)],
                Expectation::Destinations,
            ),
    {
        let mut groups = Vec::new();
        groups.push(Group::Service(*svc));
        self.exchange(Command::GetDest, true, groups, Expectation::Destinations)
    }
}

} // verus!
