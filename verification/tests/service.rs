use bytes::Bytes;
use futures::executor::block_on;
use futures::future::{ready, Ready};
use interledger::packet::{Address, Fulfill, Prepare, Reject, Timestamp};
use interledger::service::{
    incoming_service_fn, outgoing_service_fn, Account, IncomingRequest, IncomingService,
    OutgoingRequest, OutgoingService, WrappedService,
};
use interledger::username::Username;
use uuid::Uuid;

type Reply = Ready<Result<Fulfill, Reject>>;

#[derive(Clone, Debug)]
struct TestAccount {
    id: u128,
    username: Username,
    ilp_address: Address,
}

impl Account for TestAccount {
    fn id(&self) -> Uuid {
        Uuid::from_u128(self.id)
    }

    fn username(&self) -> &Username {
        &self.username
    }

    fn ilp_address(&self) -> &Address {
        &self.ilp_address
    }

    fn asset_scale(&self) -> u8 {
        9
    }

    fn asset_code(&self) -> &str {
        "XRP"
    }
}

fn account(id: u128) -> TestAccount {
    TestAccount {
        id,
        username: Username { name: "alice".to_string() },
        ilp_address: Address { text: "g.alice".to_string() },
    }
}

fn prepare(amount: u64) -> Prepare {
    Prepare::new(
        "g.bob",
        amount,
        &[1; 32],
        Timestamp { secs: 100, nanos: 5 },
        Bytes::copy_from_slice(&[8, 9]),
    )
}

fn incoming(amount: u64) -> IncomingRequest<TestAccount> {
    IncomingRequest { prepare: prepare(amount), from: account(1) }
}

fn outgoing(amount: u64) -> OutgoingRequest<TestAccount> {
    incoming(amount).into_outgoing(account(2))
}

fn reply(text: String) -> Reply {
    ready(Ok(Fulfill { fulfillment: Bytes::new(), data: Bytes::from(text) }))
}

fn text_of(result: Result<Fulfill, Reject>) -> String {
    String::from_utf8(result.unwrap().data.to_vec()).unwrap()
}

#[derive(Clone)]
struct Counter {
    handled: u64,
}

impl IncomingService<TestAccount> for Counter {
    type Future = Reply;

    fn handle_request(&mut self, request: IncomingRequest<TestAccount>) -> Reply {
        self.handled += 1;
        reply(format!("{} of {}", self.handled, request.prepare.amount()))
    }
}

impl OutgoingService<TestAccount> for Counter {
    type Future = Reply;

    fn send_request(&mut self, request: OutgoingRequest<TestAccount>) -> Reply {
        self.handled += 1;
        reply(format!("{} sent {}", self.handled, request.prepare.amount()))
    }
}

#[test]
fn outgoing_request_keeps_the_incoming_one() {
    let request = incoming(42).into_outgoing(account(2));
    assert_eq!(request.original_amount, 42);
    assert_eq!(request.prepare.amount(), 42);
    assert_eq!(request.prepare.destination.text, "g.bob");
    assert_eq!(&request.prepare.execution_condition[..], &[1u8; 32][..]);
    assert_eq!(request.prepare.expires_at, Timestamp { secs: 100, nanos: 5 });
    assert_eq!(&request.prepare.data[..], &[8u8, 9][..]);
    assert_eq!(request.from.id(), Uuid::from_u128(1));
    assert_eq!(request.to.id(), Uuid::from_u128(2));
}

#[test]
fn original_amount_stays_when_the_packet_changes() {
    let mut request = outgoing(42);
    request.prepare.amount = 7;
    assert_eq!(request.original_amount, 42);
    assert_eq!(request.prepare.amount(), 7);
}

#[test]
fn requests_are_shown_packet_first() {
    let request = incoming(3);
    assert_eq!(
        format!("{:?}", request),
        format!("IncomingRequest {{ prepare: {:?}, from: {:?} }}", prepare(3), account(1))
    );
    let request = outgoing(3);
    assert_eq!(
        format!("{:?}", request),
        format!(
            "OutgoingRequest {{ prepare: {:?}, original_amount: 3, to: {:?}, from: {:?} }}",
            prepare(3),
            account(2),
            account(1)
        )
    );
}

#[test]
fn cloned_requests_say_the_same() {
    let request = incoming(3);
    assert_eq!(format!("{:?}", request.clone()), format!("{:?}", request));
    let request = outgoing(4);
    assert_eq!(format!("{:?}", request.clone()), format!("{:?}", request));
}

#[test]
fn packets_are_cloned_field_by_field() {
    let reject = Reject {
        code: "T01".to_string(),
        triggered_by: Some(Address { text: "g.c".to_string() }),
        message: "busy".to_string(),
        data: Bytes::copy_from_slice(&[4]),
    };
    assert_eq!(format!("{:?}", reject.clone()), format!("{:?}", reject));
    let fulfill = Fulfill { fulfillment: Bytes::copy_from_slice(&[1]), data: Bytes::new() };
    assert_eq!(format!("{:?}", fulfill.clone()), format!("{:?}", fulfill));
}

#[test]
fn service_fn_calls_the_handler_for_each_request() {
    let mut seen: Vec<u64> = vec![];
    let mut service = incoming_service_fn(|request: IncomingRequest<TestAccount>| {
        seen.push(request.prepare.amount());
        reply(format!("got {}", request.prepare.amount()))
    });
    assert_eq!(text_of(block_on(service.handle_request(incoming(1)))), "got 1");
    assert_eq!(text_of(block_on(service.handle_request(incoming(2)))), "got 2");
    assert_eq!(seen, vec![1, 2]);

    let mut service = outgoing_service_fn(|request: OutgoingRequest<TestAccount>| {
        reply(format!("{} to {}", request.original_amount, request.to.id))
    });
    assert_eq!(text_of(block_on(service.send_request(outgoing(6)))), "6 to 2");
    assert_eq!(text_of(block_on(service.clone().send_request(outgoing(7)))), "7 to 2");
}

#[test]
fn handler_can_reject() {
    let mut service = incoming_service_fn(|request: IncomingRequest<TestAccount>| -> Reply {
        ready(Err(Reject {
            code: "F02".to_string(),
            triggered_by: None,
            message: request.from.username().name.clone(),
            data: Bytes::new(),
        }))
    });
    let reject = block_on(service.handle_request(incoming(1))).unwrap_err();
    assert_eq!(reject.code, "F02");
    assert_eq!(reject.message, "alice");
}

#[test]
fn function_can_return_immediately() {
    let mut service = IncomingService::wrap(
        Counter { handled: 0 },
        |_request: IncomingRequest<TestAccount>, _next: Counter| reply("no".to_string()),
    );
    assert_eq!(text_of(block_on(service.handle_request(incoming(1)))), "no");
}

#[test]
fn function_can_change_the_request_and_pass_it_on() {
    let mut service = WrappedService::wrap_incoming(
        Counter { handled: 0 },
        |mut request: IncomingRequest<TestAccount>, mut next: Counter| {
            request.prepare.amount += 1;
            next.handle_request(request)
        },
    );
    assert_eq!(text_of(block_on(service.handle_request(incoming(1)))), "1 of 2");

    let mut service = WrappedService::wrap_outgoing(
        Counter { handled: 0 },
        |mut request: OutgoingRequest<TestAccount>, mut next: Counter| {
            request.prepare.amount *= 2;
            next.send_request(request)
        },
    );
    assert_eq!(text_of(block_on(service.send_request(outgoing(5)))), "1 sent 10");
}

#[test]
fn function_is_given_a_clone_of_the_inner_service_each_time() {
    let mut service = OutgoingService::wrap(
        Counter { handled: 10 },
        |request: OutgoingRequest<TestAccount>, mut next: Counter| next.send_request(request),
    );
    assert_eq!(text_of(block_on(service.send_request(outgoing(1)))), "11 sent 1");
    assert_eq!(text_of(block_on(service.send_request(outgoing(2)))), "11 sent 2");
    let mut copy = service.clone();
    assert_eq!(text_of(block_on(copy.send_request(outgoing(3)))), "11 sent 3");
}

#[test]
fn chain_runs_outside_in() {
    let doubled = IncomingService::wrap(
        Counter { handled: 0 },
        |mut request: IncomingRequest<TestAccount>, mut next: Counter| {
            request.prepare.amount *= 2;
            next.handle_request(request)
        },
    );
    let mut service = IncomingService::wrap(
        doubled,
        |mut request: IncomingRequest<TestAccount>, mut next| {
            request.prepare.amount += 1;
            IncomingService::handle_request(&mut next, request)
        },
    );
    assert_eq!(text_of(block_on(service.handle_request(incoming(3)))), "1 of 8");
}
