use ipvs::client::{Command, Exchange, Group, IpvsClient, Record, Reply, Request};
use ipvs::error::Error;
use ipvs::family::CtrlAttr;
use ipvs::message::{Message, Payload, NLM_F_MULTIPART};
use ipvs::model::{
    Address, AddressFamily, Destination, DestinationExtended, Flags, ForwardTypeFull, Netmask,
    Protocol, Scheduler, Service, ServiceExtended, Stats64,
};
use ipvs::transaction::{Action, Event};

/// A stand-in for the kernel: a table of services with their destinations,
/// which answers requests with the datagrams that the kernel would send.
struct Peer {
    services: Vec<(Service, Vec<Destination>)>,
    /// How many records go into one message of a dump.
    records_per_message: usize,
    /// How many messages go into one datagram of a dump.
    messages_per_datagram: usize,
}

const EEXIST: i32 = 17;
const ENOENT: i32 = 2;
const ESRCH: i32 = 3;
const EINVAL: i32 = 22;

fn no_traffic() -> Stats64 {
    Stats64 {
        connections: 0,
        incoming_packets: 0,
        outgoing_packets: 0,
        incoming_bytes: 0,
        outgoing_bytes: 0,
        connection_rate: 0,
        incoming_packet_rate: 0,
        outgoing_packet_rate: 0,
        incoming_byte_rate: 0,
        outgoing_byte_rate: 0,
    }
}

fn report_service(service: &Service) -> Record {
    Record::Service(ServiceExtended { service: *service, stats64: no_traffic() })
}

fn report_destination(destination: &Destination) -> Record {
    Record::Destination(DestinationExtended {
        destination: *destination,
        active_connections: 0,
        inactive_connections: 0,
        persistent_connections: 0,
        stats64: no_traffic(),
    })
}

fn ack() -> Vec<Vec<Message<Record>>> {
    vec![vec![Message { length: 36, flags: 0, payload: Payload::Error(0) }]]
}

fn refuse(errno: i32) -> Vec<Vec<Message<Record>>> {
    vec![vec![Message { length: 36, flags: 0, payload: Payload::Error(-errno) }]]
}

fn one(record: Record) -> Vec<Vec<Message<Record>>> {
    let mut datagrams =
        vec![vec![Message { length: 120, flags: 0, payload: Payload::Data(vec![record]) }]];
    datagrams.extend(ack());
    datagrams
}

impl Peer {
    fn new(records_per_message: usize, messages_per_datagram: usize) -> Peer {
        Peer { services: Vec::new(), records_per_message, messages_per_datagram }
    }

    fn find(&self, service: &Service) -> Option<usize> {
        self.services.iter().position(|(known, _)| known.key() == service.key())
    }

    fn dump(&self, records: Vec<Record>) -> Vec<Vec<Message<Record>>> {
        let mut messages: Vec<Message<Record>> = records
            .chunks(self.records_per_message)
            .map(|chunk| Message {
                length: 20 + 100 * chunk.len() as u32,
                flags: NLM_F_MULTIPART,
                payload: Payload::Data(chunk.to_vec()),
            })
            .collect();
        messages.push(Message { length: 20, flags: NLM_F_MULTIPART, payload: Payload::Done });
        messages.chunks(self.messages_per_datagram).map(|chunk| chunk.to_vec()).collect()
    }

    fn answer(&mut self, request: &Request) -> Vec<Vec<Message<Record>>> {
        match (request.command, request.groups.as_slice()) {
            (Command::GetService, []) => {
                self.dump(self.services.iter().map(|(service, _)| report_service(service)).collect())
            },
            (Command::NewService, [Group::Service(service)]) => match self.find(service) {
                Some(_) => refuse(EEXIST),
                None => {
                    self.services.push((*service, Vec::new()));
                    ack()
                },
            },
            (Command::DelService, [Group::Service(service)]) => match self.find(service) {
                Some(at) => {
                    self.services.remove(at);
                    ack()
                },
                None => refuse(ESRCH),
            },
            (Command::SetService, [Group::Service(service), Group::Service(to)]) => {
                match self.find(service) {
                    Some(at) => {
                        self.services[at].0 = *to;
                        one(report_service(to))
                    },
                    None => refuse(ESRCH),
                }
            },
            (Command::GetDest, [Group::Service(service)]) => match self.find(service) {
                Some(at) => self.dump(self.services[at].1.iter().map(report_destination).collect()),
                None => refuse(ESRCH),
            },
            (Command::NewDest, [Group::Service(service), Group::Destination(destination)]) => {
                match self.find(service) {
                    Some(at) => {
                        let known = &mut self.services[at].1;
                        if known.iter().any(|d| d.key() == destination.key()) {
                            refuse(EEXIST)
                        } else {
                            known.push(*destination);
                            ack()
                        }
                    },
                    None => refuse(ESRCH),
                }
            },
            (Command::DelDest, [Group::Service(service), Group::Destination(destination)]) => {
                match self.find(service) {
                    Some(at) => {
                        let known = &mut self.services[at].1;
                        match known.iter().position(|d| d.key() == destination.key()) {
                            Some(which) => {
                                known.remove(which);
                                ack()
                            },
                            None => refuse(ENOENT),
                        }
                    },
                    None => refuse(ESRCH),
                }
            },
            (
                Command::SetDest,
                [Group::Service(service), Group::Destination(destination), Group::Destination(to)],
            ) => match self.find(service) {
                Some(at) => {
                    let known = &mut self.services[at].1;
                    match known.iter().position(|d| d.key() == destination.key()) {
                        Some(which) => {
                            known[which] = *to;
                            one(report_destination(to))
                        },
                        None => refuse(ENOENT),
                    }
                },
                None => refuse(ESRCH),
            },
            _ => refuse(EINVAL),
        }
    }

    /// Carries one exchange out: does whatever its transaction asks for, with
    /// the answer of the table in place of what a socket would receive.
    fn carry_out(&mut self, exchange: Exchange) -> Result<Reply, Error> {
        let mut incoming = self.answer(&exchange.request).into_iter();
        let mut datagram: Vec<(usize, Message<Record>)> = Vec::new();
        let mut transaction = exchange.begin();
        let mut action = transaction.action();
        loop {
            action = match action {
                Action::Send => transaction.step(Event::Sent),
                Action::Receive => {
                    let messages = incoming.next().expect("the peer has sent everything it has");
                    let mut len = 0;
                    datagram.clear();
                    for message in messages {
                        let length = message.length as usize;
                        datagram.push((len, message));
                        len += length;
                    }
                    transaction.step(Event::Datagram(len))
                },
                Action::Decode(offset) => {
                    match datagram.iter().find(|(start, _)| *start == offset) {
                        Some((_, message)) => transaction.step(Event::Message(message.clone())),
                        None => transaction.step(Event::Malformed),
                    }
                },
                Action::Stop => break,
            };
        }
        let records = transaction.outcome().expect("the exchange is over")?;
        exchange.conclude(records)
    }
}

fn client() -> IpvsClient {
    let reply = vec![CtrlAttr::FamilyName("IPVS".to_string()), CtrlAttr::FamilyId(37)];
    IpvsClient::new(&reply).unwrap()
}

fn service(port: u16) -> Service {
    Service {
        address: Address::V4([127, 0, 0, 1]),
        netmask: Netmask::new(32, AddressFamily::IPv4).unwrap(),
        scheduler: Scheduler::RoundRobin,
        flags: Flags(0),
        port: Some(port),
        fw_mark: None,
        persistence_timeout: None,
        family: AddressFamily::IPv4,
        protocol: Protocol::TCP,
    }
}

fn destination(port: u16, weight: u32) -> Destination {
    Destination {
        address: Address::V4([127, 0, 0, 1]),
        fwd_method: ForwardTypeFull::Masquerade,
        weight,
        upper_threshold: None,
        lower_threshold: None,
        port,
        family: AddressFamily::IPv4,
    }
}

fn services(reply: Result<Reply, Error>) -> Vec<ServiceExtended> {
    match reply {
        Ok(Reply::Services(services)) => services,
        other => panic!("a listing of services was expected, not {:?}", other),
    }
}

fn destinations(reply: Result<Reply, Error>) -> Vec<DestinationExtended> {
    match reply {
        Ok(Reply::Destinations(destinations)) => destinations,
        other => panic!("a listing of destinations was expected, not {:?}", other),
    }
}

#[test]
fn a_destination_is_created_listed_disabled_and_deleted() {
    let client = client();
    let mut peer = Peer::new(1, 1);
    let svc = service(33);
    let dst = destination(1234, 1);

    assert_eq!(peer.carry_out(client.create_service(&svc)), Ok(Reply::Nothing));
    assert_eq!(peer.carry_out(client.create_destination(&svc, &dst)), Ok(Reply::Nothing));

    let listed = destinations(peer.carry_out(client.get_all_destinations(&svc)));
    assert_eq!(listed.len(), 1);
    assert_eq!(listed[0].destination, dst);
    assert_eq!(listed[0].destination.weight, 1);
    assert_eq!(listed[0].stats64, no_traffic());
    assert_eq!(listed[0].active_connections, 0);
    assert_eq!(listed[0].inactive_connections, 0);
    assert_eq!(listed[0].persistent_connections, 0);

    match peer.carry_out(client.disable_destination(&svc, &dst)) {
        Ok(Reply::Destination(disabled)) => {
            assert_eq!(disabled.destination.weight, 0);
            assert_eq!(disabled.destination.key(), dst.key());
            assert_eq!(disabled.destination, Destination { weight: 0, ..dst });
        },
        other => panic!("one destination was expected, not {:?}", other),
    }
    let listed = destinations(peer.carry_out(client.get_all_destinations(&svc)));
    assert_eq!(listed.len(), 1);
    assert_eq!(listed[0].destination.weight, 0);
    assert_eq!(listed[0].destination.key(), dst.key());
    assert_eq!(listed[0].destination, Destination { weight: 0, ..dst });

    assert_eq!(peer.carry_out(client.delete_destination(&svc, &dst)), Ok(Reply::Nothing));
    assert_eq!(destinations(peer.carry_out(client.get_all_destinations(&svc))), vec![]);
}

#[test]
fn a_created_service_is_listed_exactly_once() {
    let client = client();
    let mut peer = Peer::new(2, 2);
    for port in [55, 44, 66, 77, 88] {
        assert_eq!(peer.carry_out(client.create_service(&service(port))), Ok(Reply::Nothing));
    }
    let created =
        Service { scheduler: Scheduler::WeightedRoundRobin, flags: Flags(1), ..service(33) };
    assert_eq!(peer.carry_out(client.create_service(&created)), Ok(Reply::Nothing));

    let listed = services(peer.carry_out(client.get_all_services()));
    assert_eq!(listed.len(), 6);
    let found: Vec<&ServiceExtended> =
        listed.iter().filter(|entry| entry.service.key() == created.key()).collect();
    assert_eq!(found.len(), 1);
    assert_eq!(found[0].service, created);
}

#[test]
fn a_service_cannot_be_created_twice() {
    let client = client();
    let mut peer = Peer::new(1, 1);
    assert_eq!(peer.carry_out(client.create_service(&service(33))), Ok(Reply::Nothing));
    assert_eq!(peer.carry_out(client.create_service(&service(33))), Err(Error::Peer(17)));
    assert_eq!(services(peer.carry_out(client.get_all_services())).len(), 1);
}

#[test]
fn a_deleted_service_is_no_longer_listed() {
    let client = client();
    let mut peer = Peer::new(3, 1);
    for port in [33, 44, 55] {
        assert_eq!(peer.carry_out(client.create_service(&service(port))), Ok(Reply::Nothing));
    }
    assert_eq!(peer.carry_out(client.delete_service(&service(44))), Ok(Reply::Nothing));
    let listed = services(peer.carry_out(client.get_all_services()));
    assert_eq!(listed.len(), 2);
    assert!(listed.iter().all(|entry| entry.service.key() != service(44).key()));
    assert_eq!(peer.carry_out(client.delete_service(&service(44))), Err(Error::Peer(3)));
}

#[test]
fn a_deleted_destination_is_no_longer_listed() {
    let client = client();
    let mut peer = Peer::new(1, 3);
    let svc = service(33);
    assert_eq!(peer.carry_out(client.create_service(&svc)), Ok(Reply::Nothing));
    for port in [1234, 2345, 3456] {
        let created = peer.carry_out(client.create_destination(&svc, &destination(port, 1)));
        assert_eq!(created, Ok(Reply::Nothing));
    }
    let deleted = peer.carry_out(client.delete_destination(&svc, &destination(2345, 1)));
    assert_eq!(deleted, Ok(Reply::Nothing));
    let listed = destinations(peer.carry_out(client.get_all_destinations(&svc)));
    let ports: Vec<u16> = listed.iter().map(|entry| entry.destination.port).collect();
    assert_eq!(ports, vec![1234, 3456]);
}

#[test]
fn an_update_returns_the_service_it_was_changed_into() {
    let client = client();
    let mut peer = Peer::new(1, 1);
    let svc = service(33);
    let to = Service { scheduler: Scheduler::LeastConnection, port: Some(34), ..svc };
    assert_eq!(peer.carry_out(client.create_service(&svc)), Ok(Reply::Nothing));
    match peer.carry_out(client.update_service(&svc, &to)) {
        Ok(Reply::Service(updated)) => {
            assert_eq!(updated.service.key(), to.key());
            assert_ne!(updated.service.key(), svc.key());
            assert_eq!(updated.service, to);
        },
        other => panic!("one service was expected, not {:?}", other),
    }
}

#[test]
fn an_update_returns_the_destination_it_was_changed_into() {
    let client = client();
    let mut peer = Peer::new(1, 1);
    let svc = service(33);
    let dst = destination(1234, 1);
    let to = Destination { weight: 8, lower_threshold: Some(2), ..dst };
    assert_eq!(peer.carry_out(client.create_service(&svc)), Ok(Reply::Nothing));
    assert_eq!(peer.carry_out(client.create_destination(&svc, &dst)), Ok(Reply::Nothing));
    match peer.carry_out(client.update_destination(&svc, &dst, &to)) {
        Ok(Reply::Destination(updated)) => {
            assert_eq!(updated.destination.key(), to.key());
            assert_eq!(updated.destination.weight, 8);
            assert_eq!(updated.destination.fwd_method, to.fwd_method);
            assert_eq!(updated.destination, to);
        },
        other => panic!("one destination was expected, not {:?}", other),
    }
    let listed = destinations(peer.carry_out(client.get_all_destinations(&svc)));
    assert_eq!(listed.len(), 1);
    assert_eq!(listed[0].destination, to);
}

#[test]
fn an_update_of_an_unknown_destination_is_refused() {
    let client = client();
    let mut peer = Peer::new(1, 1);
    let svc = service(33);
    assert_eq!(peer.carry_out(client.create_service(&svc)), Ok(Reply::Nothing));
    let update = client.update_destination(&svc, &destination(1234, 1), &destination(1234, 2));
    assert_eq!(peer.carry_out(update), Err(Error::Peer(2)));
    let disable = client.disable_destination(&svc, &destination(1234, 1));
    assert_eq!(peer.carry_out(disable), Err(Error::Peer(2)));
}

#[test]
fn an_update_of_an_unknown_service_is_refused() {
    let client = client();
    let mut peer = Peer::new(1, 1);
    let update = peer.carry_out(client.update_service(&service(33), &service(34)));
    assert_eq!(update, Err(Error::Peer(3)));
}

#[test]
fn a_disabled_destination_stays_listed_with_weight_zero() {
    let client = client();
    let mut peer = Peer::new(2, 1);
    let svc = service(33);
    assert_eq!(peer.carry_out(client.create_service(&svc)), Ok(Reply::Nothing));
    for port in [1234, 2345, 3456] {
        let created = peer.carry_out(client.create_destination(&svc, &destination(port, 4)));
        assert_eq!(created, Ok(Reply::Nothing));
    }
    assert!(peer.carry_out(client.disable_destination(&svc, &destination(2345, 4))).is_ok());
    let listed = destinations(peer.carry_out(client.get_all_destinations(&svc)));
    let weights: Vec<(u16, u32)> =
        listed.iter().map(|entry| (entry.destination.port, entry.destination.weight)).collect();
    assert_eq!(weights, vec![(1234, 4), (2345, 0), (3456, 4)]);
}

#[test]
fn a_listing_is_the_same_however_the_peer_splits_it() {
    let client = client();
    let mut listings = Vec::new();
    for (records_per_message, messages_per_datagram) in [(1, 1), (1, 4), (3, 1), (2, 2), (7, 9)] {
        let mut peer = Peer::new(records_per_message, messages_per_datagram);
        for port in [10, 20, 30, 40, 50, 60, 70] {
            assert_eq!(peer.carry_out(client.create_service(&service(port))), Ok(Reply::Nothing));
        }
        listings.push(services(peer.carry_out(client.get_all_services())));
    }
    let ports: Vec<Option<u16>> = listings[0].iter().map(|entry| entry.service.port).collect();
    assert_eq!(
        ports,
        vec![Some(10), Some(20), Some(30), Some(40), Some(50), Some(60), Some(70)]
    );
    for listing in &listings {
        assert_eq!(listing, &listings[0]);
    }
}

#[test]
fn the_destinations_of_an_unknown_service_are_refused() {
    let client = client();
    let mut peer = Peer::new(1, 1);
    let listing = peer.carry_out(client.get_all_destinations(&service(33)));
    assert_eq!(listing, Err(Error::Peer(3)));
}
