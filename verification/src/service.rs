//! The abstraction that the components of a node share.
//!
//! Every component is a service that takes a request and returns a future of
//! its result, so that services can be reused and combined into different
//! bundles of functionality. Requests hold ILP Prepare packets and the accounts
//! these come from and go to, and the result is an ILP Fulfill or Reject packet.
//! Implementations of stores can attach more information to the accounts, which
//! are passed along the chain of services.
//!
//! Some bundles, each service passing requests on to the next:
//!
//! - SPSP sender: SPSP client, validator, router, outgoing HTTP.
//! - Connector: HTTP server, validator, router, balance and exchange rate,
//!   validator, outgoing HTTP.
//! - STREAM receiver: HTTP server, validator, STREAM receiver.

use crate::external::octets;
use crate::packet::{Address, Fulfill, Prepare, Reject};
use crate::username::Username;
use core::future::Future;
use std::fmt::Debug;
use std::marker::PhantomData;
use std::sync::Arc;
use uuid::Uuid;
use vstd::prelude::*;

verus! {

/// The base trait that the account types of other services extend.
///
/// It only assumes that an account has an ID that can be compared with others.
/// Each service can ask for more details, and stores implement these traits for
/// the type that they load from the database.
pub trait Account: Clone + Send + Sized + Debug {
    /// The ID of the account.
    fn id(&self) -> Uuid;

    /// The name of the account.
    fn username(&self) -> &Username;

    /// The ILP address of the account.
    fn ilp_address(&self) -> &Address;

    /// The number of decimal places of the account's amounts.
    fn asset_scale(&self) -> u8;

    /// The asset that the account's amounts are in.
    fn asset_code(&self) -> &str;
}

/// An incoming Prepare packet, or an outgoing one before the next hop is set.
#[derive(Debug)]
pub struct IncomingRequest<A: Account> {
    /// The packet of the request.
    pub prepare: Prepare,
    /// The account which the request originates from.
    pub from: A,
}

/// A Prepare packet with the incoming and outgoing accounts set.
#[derive(Debug)]
pub struct OutgoingRequest<A: Account> {
    /// The packet of the request.
    pub prepare: Prepare,
    /// The amount attached to the packet by its original sender.
    pub original_amount: u64,
    /// The account which the packet is being sent to.
    pub to: A,
    /// The account which the request originates from.
    pub from: A,
}

impl<A: Account> Clone for IncomingRequest<A> {
    fn clone(&self) -> (copy: Self)
        ensures
            copy.prepare.same_as(self.prepare),
            copy.prepare.destination.text@ == self.prepare.destination.text@,
            copy.prepare.amount == self.prepare.amount,
            octets(copy.prepare.execution_condition) == octets(self.prepare.execution_condition),
            copy.prepare.expires_at == self.prepare.expires_at,
            octets(copy.prepare.data) == octets(self.prepare.data),
            cloned(self.from, copy.from),
    {
        IncomingRequest { prepare: self.prepare.clone(), from: self.from.clone() }
    }
}

impl<A: Account> Clone for OutgoingRequest<A> {
    fn clone(&self) -> (copy: Self)
        ensures
            copy.prepare.same_as(self.prepare),
            copy.prepare.destination.text@ == self.prepare.destination.text@,
            copy.prepare.amount == self.prepare.amount,
            octets(copy.prepare.execution_condition) == octets(self.prepare.execution_condition),
            copy.prepare.expires_at == self.prepare.expires_at,
            octets(copy.prepare.data) == octets(self.prepare.data),
            copy.original_amount == self.original_amount,
            cloned(self.to, copy.to),
            cloned(self.from, copy.from),
    {
        OutgoingRequest {
            prepare: self.prepare.clone(),
            original_amount: self.original_amount,
            to: self.to.clone(),
            from: self.from.clone(),
        }
    }
}

impl<A> IncomingRequest<A> where A: Account {
    /// Sets the account that the packet goes to.
    pub fn into_outgoing(self, to: A) -> (request: OutgoingRequest<A>)
        ensures
            request == (OutgoingRequest {
                prepare: self.prepare,
                original_amount: self.prepare.amount,
                to,
                from: self.from,
            }),
    {
        OutgoingRequest {
            original_amount: self.prepare.amount(),
            prepare: self.prepare,
            to,
            from: self.from,
        }
    }
}

/// A service that handles incoming requests.
pub trait IncomingService<A: Account> {
    /// The future of the packet that answers a request.
    type Future: Future<Output = Result<Fulfill, Reject>> + Send + 'static;

    /// Whether the service can be given the request. Unless a service says
    /// otherwise, it can be given any.
    open spec fn can_handle(&self, request: IncomingRequest<A>) -> bool {
        true
    }

    /// Whether the service can return the reply to the request, and be `after`
    /// thereafter. Unless a service says otherwise, any reply is possible.
    open spec fn handles(
        &self,
        request: IncomingRequest<A>,
        reply: Self::Future,
        after: &Self,
    ) -> bool {
        true
    }

    /// Receives a request, changes it and passes it to the next service. Or, if
    /// the packet was meant for this service, returns the packet that answers it.
    fn handle_request(&mut self, request: IncomingRequest<A>) -> (reply: Self::Future)
        requires
            old(self).can_handle(request),
        ensures
            old(self).handles(request, reply, final(self)),
    ;

    /// Wraps this service such that the function is called to handle each
    /// request. That function can return immediately, change the request before
    /// passing it on, and handle the result of calling this service.
    fn wrap<F, R>(self, f: F) -> (service: WrappedService<F, Self, A>) where
        F: Fn(IncomingRequest<A>, Self) -> R,
        R: Future<Output = Result<Fulfill, Reject>> + Send + 'static,
        Self: Clone + Sized,

        ensures
            service.function() == f,
            service.inner() == self,
    {
        WrappedService { f, inner: Arc::new(self), account_type: PhantomData }
    }
}

/// A service that sends outgoing requests.
pub trait OutgoingService<A: Account> {
    /// The future of the packet that answers a request.
    type Future: Future<Output = Result<Fulfill, Reject>> + Send + 'static;

    /// Whether the service can be given the request. Unless a service says
    /// otherwise, it can be given any.
    open spec fn can_send(&self, request: OutgoingRequest<A>) -> bool {
        true
    }

    /// Whether the service can return the reply to the request, and be `after`
    /// thereafter. Unless a service says otherwise, any reply is possible.
    open spec fn sends(
        &self,
        request: OutgoingRequest<A>,
        reply: Self::Future,
        after: &Self,
    ) -> bool {
        true
    }

    /// Receives a request, changes it and passes it to the next service. Or, if
    /// the packet was meant for this service, returns the packet that answers it.
    fn send_request(&mut self, request: OutgoingRequest<A>) -> (reply: Self::Future)
        requires
            old(self).can_send(request),
        ensures
            old(self).sends(request, reply, final(self)),
    ;

    /// Wraps this service such that the function is called to handle each
    /// request. That function can return immediately, change the request before
    /// passing it on, and handle the result of calling this service.
    fn wrap<F, R>(self, f: F) -> (service: WrappedService<F, Self, A>) where
        F: Fn(OutgoingRequest<A>, Self) -> R,
        R: Future<Output = Result<Fulfill, Reject>> + Send + 'static,
        Self: Clone + Sized,

        ensures
            service.function() == f,
            service.inner() == self,
    {
        WrappedService { f, inner: Arc::new(self), account_type: PhantomData }
    }
}

/// The base trait of stores, which can load an account by its ID.
pub trait AccountStore {
    /// The type of the accounts.
    type Account: Account;

    /// The future of the accounts.
    type AccountsFuture: Future<Output = Result<Vec<Self::Account>, ()>> + Send;

    /// The future of the ID of an account.
    type AccountIdFuture: Future<Output = Result<Uuid, ()>> + Send;

    /// Loads the accounts which correspond to the IDs.
    fn get_accounts(&self, account_ids: Vec<Uuid>) -> Self::AccountsFuture;

    /// Loads the ID of the account which corresponds to the name.
    fn get_account_id_from_username(&self, username: &Username) -> Self::AccountIdFuture;
}

/// A store that keeps the ILP address of the node.
///
/// When an account is added as a parent, the node asks it for a configuration.
/// The parent returns the address that it has assigned to the node, and the node
/// sets its own address to that.
pub trait AddressStore: Clone {
    /// The future of a change.
    type ChangeFuture: Future<Output = Result<(), ()>> + Send;

    /// Saves the address in the database and in memory, where it can be read
    /// without delay.
    fn set_ilp_address(&self, ilp_address: Address) -> Self::ChangeFuture;

    /// Resets the address to `local.host`.
    fn clear_ilp_address(&self) -> Self::ChangeFuture;

    /// The address, from memory.
    fn get_ilp_address(&self) -> Address;
}

/// Creates an incoming service that calls the handler for each request.
pub fn incoming_service_fn<A, B, F>(handler: F) -> (service: ServiceFn<F, A>) where
    A: Account,
    F: FnMut(IncomingRequest<A>) -> B,

    ensures
        service.function() == handler,
{
    ServiceFn { handler, account_type: PhantomData }
}

/// Creates an outgoing service that calls the handler for each request.
pub fn outgoing_service_fn<A, B, F>(handler: F) -> (service: ServiceFn<F, A>) where
    A: Account,
    F: FnMut(OutgoingRequest<A>) -> B,

    ensures
        service.function() == handler,
{
    ServiceFn { handler, account_type: PhantomData }
}

/// A service created by [`incoming_service_fn`] or [`outgoing_service_fn`].
///
/// A reply is whatever the handler may return for the request. The handler stays
/// the same function: what it remembers of earlier requests shows in what it
/// returns, and nowhere else.
pub struct ServiceFn<F, A> {
    handler: F,
    account_type: PhantomData<A>,
}

impl<F, A> ServiceFn<F, A> {
    /// The function that is called on every request.
    pub closed spec fn function(&self) -> F {
        self.handler
    }
}

impl<F: Clone, A: Clone> Clone for ServiceFn<F, A> {
    fn clone(&self) -> (copy: Self)
        ensures
            cloned(self.function(), copy.function()),
    {
        ServiceFn { handler: self.handler.clone(), account_type: PhantomData }
    }
}

impl<F, A, B> IncomingService<A> for ServiceFn<F, A> where
    A: Account,
    B: Future<Output = Result<Fulfill, Reject>> + Send + Unpin + 'static,
    F: FnMut(IncomingRequest<A>) -> B,
 {
    type Future = B;

    open spec fn can_handle(&self, request: IncomingRequest<A>) -> bool {
        call_requires(self.function(), (request,))
    }

    open spec fn handles(&self, request: IncomingRequest<A>, reply: B, after: &Self) -> bool {
        &&& call_ensures(self.function(), (request,), reply)
        &&& after == self
    }

    fn handle_request(&mut self, request: IncomingRequest<A>) -> (reply: B)
        ensures
            call_ensures(old(self).function(), (request,), reply),
            final(self).function() == old(self).function(),
    {
        (self.handler)(request)
    }
}

impl<F, A, B> OutgoingService<A> for ServiceFn<F, A> where
    A: Account,
    B: Future<Output = Result<Fulfill, Reject>> + Send + Unpin + 'static,
    F: FnMut(OutgoingRequest<A>) -> B,
 {
    type Future = B;

    open spec fn can_send(&self, request: OutgoingRequest<A>) -> bool {
        call_requires(self.function(), (request,))
    }

    open spec fn sends(&self, request: OutgoingRequest<A>, reply: B, after: &Self) -> bool {
        &&& call_ensures(self.function(), (request,), reply)
        &&& after == self
    }

    fn send_request(&mut self, request: OutgoingRequest<A>) -> (reply: B)
        ensures
            call_ensures(old(self).function(), (request,), reply),
            final(self).function() == old(self).function(),
    {
        (self.handler)(request)
    }
}

/// A service that wraps another one with a function that will be called on every
/// request.
///
/// This wraps services without the boilerplate of defining a new struct and
/// implementing [`IncomingService`] or [`OutgoingService`] every time.
pub struct WrappedService<F, I, A> {
    f: F,
    inner: Arc<I>,
    account_type: PhantomData<A>,
}

impl<F, I, A> WrappedService<F, I, A> {
    /// The function that is called on every request.
    pub closed spec fn function(&self) -> F {
        self.f
    }

    /// The service that the function is given a clone of.
    pub closed spec fn inner(&self) -> I {
        *self.inner
    }
}

impl<F: Clone, I: Clone, A: Clone> Clone for WrappedService<F, I, A> {
    fn clone(&self) -> (copy: Self)
        ensures
            cloned(self.function(), copy.function()),
            copy.inner() == self.inner(),
    {
        WrappedService { f: self.f.clone(), inner: self.inner.clone(), account_type: PhantomData }
    }
}

impl<F, IO, A, R> WrappedService<F, IO, A> where
    F: Fn(IncomingRequest<A>, IO) -> R,
    IO: IncomingService<A> + Clone,
    A: Account,
    R: Future<Output = Result<Fulfill, Reject>> + Send + 'static,
 {
    /// Wraps the service such that the function is called to handle each
    /// request. That function can return immediately, change the request before
    /// passing it on, and handle the result of calling the inner service.
    pub fn wrap_incoming(inner: IO, f: F) -> (service: Self)
        ensures
            service.function() == f,
            service.inner() == inner,
    {
        WrappedService { f, inner: Arc::new(inner), account_type: PhantomData }
    }
}

impl<F, IO, A, R> IncomingService<A> for WrappedService<F, IO, A> where
    F: Fn(IncomingRequest<A>, IO) -> R,
    IO: IncomingService<A> + Clone,
    A: Account,
    R: Future<Output = Result<Fulfill, Reject>> + Send + 'static,
 {
    type Future = R;

    open spec fn can_handle(&self, request: IncomingRequest<A>) -> bool {
        forall|next: IO| #[trigger]
            cloned(self.inner(), next) ==> call_requires(self.function(), (request, next))
    }

    open spec fn handles(&self, request: IncomingRequest<A>, reply: R, after: &Self) -> bool {
        &&& exists|next: IO| #[trigger]
            cloned(self.inner(), next) && call_ensures(self.function(), (request, next), reply)
        &&& after == self
    }

    fn handle_request(&mut self, request: IncomingRequest<A>) -> (reply: R)
        ensures
            exists|next: IO| #[trigger]
                cloned(old(self).inner(), next) && call_ensures(
                    old(self).function(),
                    (request, next),
                    reply,
                ),
            final(self).function() == old(self).function(),
            final(self).inner() == old(self).inner(),
    {
        let next = (*self.inner).clone();
        assert(cloned(self.inner(), next));
        (self.f)(request, next)
    }
}

impl<F, IO, A, R> WrappedService<F, IO, A> where
    F: Fn(OutgoingRequest<A>, IO) -> R,
    IO: OutgoingService<A> + Clone,
    A: Account,
    R: Future<Output = Result<Fulfill, Reject>> + Send + 'static,
 {
    /// Wraps the service such that the function is called to handle each
    /// request. That function can return immediately, change the request before
    /// passing it on, and handle the result of calling the inner service.
    pub fn wrap_outgoing(inner: IO, f: F) -> (service: Self)
        ensures
            service.function() == f,
            service.inner() == inner,
    {
        WrappedService { f, inner: Arc::new(inner), account_type: PhantomData }
    }
}

impl<F, IO, A, R> OutgoingService<A> for WrappedService<F, IO, A> where
    F: Fn(OutgoingRequest<A>, IO) -> R,
    IO: OutgoingService<A> + Clone,
    A: Account,
    R: Future<Output = Result<Fulfill, Reject>> + Send + 'static,
 {
    type Future = R;

    open spec fn can_send(&self, request: OutgoingRequest<A>) -> bool {
        forall|next: IO| #[trigger]
            cloned(self.inner(), next) ==> call_requires(self.function(), (request, next))
    }

    open spec fn sends(&self, request: OutgoingRequest<A>, reply: R, after: &Self) -> bool {
        &&& exists|next: IO| #[trigger]
            cloned(self.inner(), next) && call_ensures(self.function(), (request, next), reply)
        &&& after == self
    }

    fn send_request(&mut self, request: OutgoingRequest<A>) -> (reply: R)
        ensures
            exists|next: IO| #[trigger]
                cloned(old(self).inner(), next) && call_ensures(
                    old(self).function(),
                    (request, next),
                    reply,
                ),
            final(self).function() == old(self).function(),
            final(self).inner() == old(self).inner(),
    {
        let next = (*self.inner).clone();
        assert(cloned(self.inner(), next));
        (self.f)(request, next)
    }
}

/// A service made from a function can be given exactly the requests that the
/// function can be given.
pub proof fn law_handler_decides_which_incoming_requests<F, A, B>(
    service: ServiceFn<F, A>,
    request: IncomingRequest<A>,
) where
    A: Account,
    B: Future<Output = Result<Fulfill, Reject>> + Send + Unpin + 'static,
    F: FnMut(IncomingRequest<A>) -> B,

    ensures
        service.can_handle(request) <==> call_requires(service.function(), (request,)),
{
}

/// Whatever holds of everything that the function may return for the request as
/// it came holds of the reply of the service made from it, and the service goes
/// on with the same function.
pub proof fn law_handler_decides_incoming_reply<F, A, B>(
    service: ServiceFn<F, A>,
    request: IncomingRequest<A>,
    reply: B,
    after: ServiceFn<F, A>,
    property: spec_fn(B) -> bool,
) where
    A: Account,
    B: Future<Output = Result<Fulfill, Reject>> + Send + Unpin + 'static,
    F: FnMut(IncomingRequest<A>) -> B,

    requires
        service.handles(request, reply, &after),
        forall|returned: B| #[trigger]
            call_ensures(service.function(), (request,), returned) ==> property(returned),
    ensures
        property(reply),
        after.function() == service.function(),
{
}

/// A wrapped service can be given exactly the requests that its function can be
/// given together with any clone of the inner service.
pub proof fn law_function_decides_which_incoming_requests<F, IO, A, R>(
    service: WrappedService<F, IO, A>,
    request: IncomingRequest<A>,
) where
    F: Fn(IncomingRequest<A>, IO) -> R,
    IO: IncomingService<A> + Clone,
    A: Account,
    R: Future<Output = Result<Fulfill, Reject>> + Send + 'static,

    ensures
        service.can_handle(request) <==> forall|next: IO| #[trigger]
            cloned(service.inner(), next) ==> call_requires(service.function(), (request, next)),
{
}

/// A service made from a function can be given exactly the requests that the
/// function can be given.
pub proof fn law_handler_decides_which_outgoing_requests<F, A, B>(
    service: ServiceFn<F, A>,
    request: OutgoingRequest<A>,
) where
    A: Account,
    B: Future<Output = Result<Fulfill, Reject>> + Send + Unpin + 'static,
    F: FnMut(OutgoingRequest<A>) -> B,

    ensures
        service.can_send(request) <==> call_requires(service.function(), (request,)),
{
}

/// Whatever holds of everything that the function may return for the request as
/// it came holds of the reply of the service made from it, and the service goes
/// on with the same function.
pub proof fn law_handler_decides_outgoing_reply<F, A, B>(
    service: ServiceFn<F, A>,
    request: OutgoingRequest<A>,
    reply: B,
    after: ServiceFn<F, A>,
    property: spec_fn(B) -> bool,
) where
    A: Account,
    B: Future<Output = Result<Fulfill, Reject>> + Send + Unpin + 'static,
    F: FnMut(OutgoingRequest<A>) -> B,

    requires
        service.sends(request, reply, &after),
        forall|returned: B| #[trigger]
            call_ensures(service.function(), (request,), returned) ==> property(returned),
    ensures
        property(reply),
        after.function() == service.function(),
{
}

/// A wrapped service can be given exactly the requests that its function can be
/// given together with any clone of the inner service.
pub proof fn law_function_decides_which_outgoing_requests<F, IO, A, R>(
    service: WrappedService<F, IO, A>,
    request: OutgoingRequest<A>,
) where
    F: Fn(OutgoingRequest<A>, IO) -> R,
    IO: OutgoingService<A> + Clone,
    A: Account,
    R: Future<Output = Result<Fulfill, Reject>> + Send + 'static,

    ensures
        service.can_send(request) <==> forall|next: IO| #[trigger]
            cloned(service.inner(), next) ==> call_requires(service.function(), (request, next)),
{
}

/// A wrapped service is made up of its function and its inner service, so it
/// does not matter in which of the ways it was wrapped.
pub proof fn law_wrapped_service_is_its_parts<F, I, A>(
    left: WrappedService<F, I, A>,
    right: WrappedService<F, I, A>,
)
    requires
        left.function() == right.function(),
        left.inner() == right.inner(),
    ensures
        left == right,
{
}

/// Whatever holds of everything that the function returns for a request, with
/// whichever clone of the inner service it is given, holds of the wrapped service's reply. So a
/// function that returns immediately decides the reply on its own.
pub proof fn law_function_decides_incoming_reply<F, IO, A, R>(
    service: WrappedService<F, IO, A>,
    request: IncomingRequest<A>,
    reply: R,
    after: WrappedService<F, IO, A>,
    property: spec_fn(R) -> bool,
) where
    F: Fn(IncomingRequest<A>, IO) -> R,
    IO: IncomingService<A> + Clone,
    A: Account,
    R: Future<Output = Result<Fulfill, Reject>> + Send + 'static,

    requires
        service.handles(request, reply, &after),
        forall|next: IO, returned: R|
            cloned(service.inner(), next) && #[trigger] call_ensures(
                service.function(),
                (request, next),
                returned,
            ) ==> property(returned),
    ensures
        property(reply),
{
}

/// A wrapped service whose function changes the request and passes it on
/// replies as the inner service does to the changed request, and with no change
/// as the inner service does to the request itself, given that a clone of the
/// inner service is as good as the service.
pub proof fn law_passed_on_incoming_request_is_answered_by_inner<F, IO, A, R>(
    service: WrappedService<F, IO, A>,
    request: IncomingRequest<A>,
    reply: R,
    after: WrappedService<F, IO, A>,
    change: spec_fn(IncomingRequest<A>) -> IncomingRequest<A>,
) where
    F: Fn(IncomingRequest<A>, IO) -> R,
    IO: IncomingService<A, Future = R> + Clone,
    A: Account,
    R: Future<Output = Result<Fulfill, Reject>> + Send + 'static,

    requires
        service.handles(request, reply, &after),
        forall|next: IO| #[trigger] cloned(service.inner(), next) ==> next == service.inner(),
        forall|next: IO, returned: R| #[trigger]
            call_ensures(service.function(), (request, next), returned) ==> exists|then: IO|
                #[trigger] next.handles(change(request), returned, &then),
    ensures
        exists|then: IO| #[trigger] service.inner().handles(change(request), reply, &then),
{
}

/// Handling a request leaves a wrapped service as it was, so that each further
/// request meets the same function and the same inner service.
pub proof fn law_incoming_request_leaves_wrapped_service<F, IO, A, R>(
    service: WrappedService<F, IO, A>,
    request: IncomingRequest<A>,
    reply: R,
    after: WrappedService<F, IO, A>,
) where
    F: Fn(IncomingRequest<A>, IO) -> R,
    IO: IncomingService<A> + Clone,
    A: Account,
    R: Future<Output = Result<Fulfill, Reject>> + Send + 'static,

    requires
        service.handles(request, reply, &after),
    ensures
        after.function() == service.function(),
        after.inner() == service.inner(),
        forall|later: IncomingRequest<A>| after.can_handle(later) == service.can_handle(later),
{
}

/// In a chain of two functions that change the request and pass it on, the
/// function that was wrapped around last changes the request first.
pub proof fn law_incoming_chain_runs_outside_in<F, G, IO, A, R>(
    outer: WrappedService<F, WrappedService<G, IO, A>, A>,
    request: IncomingRequest<A>,
    reply: R,
    after: WrappedService<F, WrappedService<G, IO, A>, A>,
    outer_change: spec_fn(IncomingRequest<A>) -> IncomingRequest<A>,
    inner_change: spec_fn(IncomingRequest<A>) -> IncomingRequest<A>,
) where
    F: Fn(IncomingRequest<A>, WrappedService<G, IO, A>) -> R,
    G: Fn(IncomingRequest<A>, IO) -> R + Clone,
    IO: IncomingService<A, Future = R> + Clone,
    A: Account,
    R: Future<Output = Result<Fulfill, Reject>> + Send + 'static,

    requires
        outer.handles(request, reply, &after),
        forall|next: WrappedService<G, IO, A>| #[trigger]
            cloned(outer.inner(), next) ==> next == outer.inner(),
        forall|next: IO| #[trigger]
            cloned(outer.inner().inner(), next) ==> next == outer.inner().inner(),
        forall|next: WrappedService<G, IO, A>, returned: R| #[trigger]
            call_ensures(outer.function(), (request, next), returned) ==> exists|
                then: WrappedService<G, IO, A>,
            | #[trigger] next.handles(outer_change(request), returned, &then),
        forall|next: IO, returned: R| #[trigger]
            call_ensures(
                outer.inner().function(),
                (outer_change(request), next),
                returned,
            ) ==> exists|then: IO| #[trigger]
                next.handles(inner_change(outer_change(request)), returned, &then),
    ensures
        exists|then: IO| #[trigger]
            outer.inner().inner().handles(inner_change(outer_change(request)), reply, &then),
{
    law_passed_on_incoming_request_is_answered_by_inner(
        outer,
        request,
        reply,
        after,
        outer_change,
    );
    let then = choose|then: WrappedService<G, IO, A>| #[trigger]
        outer.inner().handles(outer_change(request), reply, &then);
    law_passed_on_incoming_request_is_answered_by_inner(
        outer.inner(),
        outer_change(request),
        reply,
        then,
        inner_change,
    );
}

/// Whatever holds of everything that the function returns for a request, with
/// whichever clone of the inner service it is given, holds of the wrapped service's reply. So a
/// function that returns immediately decides the reply on its own.
pub proof fn law_function_decides_outgoing_reply<F, IO, A, R>(
    service: WrappedService<F, IO, A>,
    request: OutgoingRequest<A>,
    reply: R,
    after: WrappedService<F, IO, A>,
    property: spec_fn(R) -> bool,
) where
    F: Fn(OutgoingRequest<A>, IO) -> R,
    IO: OutgoingService<A> + Clone,
    A: Account,
    R: Future<Output = Result<Fulfill, Reject>> + Send + 'static,

    requires
        service.sends(request, reply, &after),
        forall|next: IO, returned: R|
            cloned(service.inner(), next) && #[trigger] call_ensures(
                service.function(),
                (request, next),
                returned,
            ) ==> property(returned),
    ensures
        property(reply),
{
}

/// A wrapped service whose function changes the request and passes it on
/// replies as the inner service does to the changed request, and with no change
/// as the inner service does to the request itself, given that a clone of the
/// inner service is as good as the service.
pub proof fn law_passed_on_outgoing_request_is_answered_by_inner<F, IO, A, R>(
    service: WrappedService<F, IO, A>,
    request: OutgoingRequest<A>,
    reply: R,
    after: WrappedService<F, IO, A>,
    change: spec_fn(OutgoingRequest<A>) -> OutgoingRequest<A>,
) where
    F: Fn(OutgoingRequest<A>, IO) -> R,
    IO: OutgoingService<A, Future = R> + Clone,
    A: Account,
    R: Future<Output = Result<Fulfill, Reject>> + Send + 'static,

    requires
        service.sends(request, reply, &after),
        forall|next: IO| #[trigger] cloned(service.inner(), next) ==> next == service.inner(),
        forall|next: IO, returned: R| #[trigger]
            call_ensures(service.function(), (request, next), returned) ==> exists|then: IO|
                #[trigger] next.sends(change(request), returned, &then),
    ensures
        exists|then: IO| #[trigger] service.inner().sends(change(request), reply, &then),
{
}

/// Handling a request leaves a wrapped service as it was, so that each further
/// request meets the same function and the same inner service.
pub proof fn law_outgoing_request_leaves_wrapped_service<F, IO, A, R>(
    service: WrappedService<F, IO, A>,
    request: OutgoingRequest<A>,
    reply: R,
    after: WrappedService<F, IO, A>,
) where
    F: Fn(OutgoingRequest<A>, IO) -> R,
    IO: OutgoingService<A> + Clone,
    A: Account,
    R: Future<Output = Result<Fulfill, Reject>> + Send + 'static,

    requires
        service.sends(request, reply, &after),
    ensures
        after.function() == service.function(),
        after.inner() == service.inner(),
        forall|later: OutgoingRequest<A>| after.can_send(later) == service.can_send(later),
{
}

/// In a chain of two functions that change the request and pass it on, the
/// function that was wrapped around last changes the request first.
pub proof fn law_outgoing_chain_runs_outside_in<F, G, IO, A, R>(
    outer: WrappedService<F, WrappedService<G, IO, A>, A>,
    request: OutgoingRequest<A>,
    reply: R,
    after: WrappedService<F, WrappedService<G, IO, A>, A>,
    outer_change: spec_fn(OutgoingRequest<A>) -> OutgoingRequest<A>,
    inner_change: spec_fn(OutgoingRequest<A>) -> OutgoingRequest<A>,
) where
    F: Fn(OutgoingRequest<A>, WrappedService<G, IO, A>) -> R,
    G: Fn(OutgoingRequest<A>, IO) -> R + Clone,
    IO: OutgoingService<A, Future = R> + Clone,
    A: Account,
    R: Future<Output = Result<Fulfill, Reject>> + Send + 'static,

    requires
        outer.sends(request, reply, &after),
        forall|next: WrappedService<G, IO, A>| #[trigger]
            cloned(outer.inner(), next) ==> next == outer.inner(),
        forall|next: IO| #[trigger]
            cloned(outer.inner().inner(), next) ==> next == outer.inner().inner(),
        forall|next: WrappedService<G, IO, A>, returned: R| #[trigger]
            call_ensures(outer.function(), (request, next), returned) ==> exists|
                then: WrappedService<G, IO, A>,
            | #[trigger] next.sends(outer_change(request), returned, &then),
        forall|next: IO, returned: R| #[trigger]
            call_ensures(
                outer.inner().function(),
                (outer_change(request), next),
                returned,
            ) ==> exists|then: IO| #[trigger]
                next.sends(inner_change(outer_change(request)), returned, &then),
    ensures
        exists|then: IO| #[trigger]
            outer.inner().inner().sends(inner_change(outer_change(request)), reply, &then),
{
    law_passed_on_outgoing_request_is_answered_by_inner(
        outer,
        request,
        reply,
        after,
        outer_change,
    );
    let then = choose|then: WrappedService<G, IO, A>| #[trigger]
        outer.inner().sends(outer_change(request), reply, &then);
    law_passed_on_outgoing_request_is_answered_by_inner(
        outer.inner(),
        outer_change(request),
        reply,
        then,
        inner_change,
    );
}

} // verus!
