//! Clients addressed by handles: a handle is the position at which a
//! client was created, and stays valid for the registry's lifetime.
use crate::client::{EventView, OutgoingRequest, PosthogClient, PosthogClientConfig};
use vstd::prelude::*;

verus! {

/// Why an operation on the registry failed.
#[derive(Debug, Clone, Copy, PartialEq, Eq, Structural)]
pub enum ClientError {
    /// No client was created under the handle.
    HandleNotFound,
    /// The registry holds as many clients as it was allowed.
    CapacityReached,
    /// The transport failed or reported no success.
    TransportError,
}

/// A client as the registry sees it: configuration and pending events.
pub type ClientView = ((Seq<char>, Seq<char>), Seq<EventView>);

/// The registry's clients, by handle.
pub struct ClientRegistry {
    clients: Vec<PosthogClient>,
    capacity: usize,
}

/// Capturing `e` on handle `h` changes that client's buffer alone.
pub open spec fn captured(s: Seq<ClientView>, h: int, e: EventView) -> Seq<ClientView> {
    s.update(h, (s[h].0, s[h].1.push(e)))
}

/// Flushing handle `h` empties that client's buffer alone.
pub open spec fn flushed(s: Seq<ClientView>, h: int) -> Seq<ClientView> {
    s.update(h, (s[h].0, Seq::empty()))
}

/// Events captured in turn on one handle come out of its buffer in the
/// order of capture, after whatever was pending; from an empty buffer the
/// batch is exactly those events.
pub proof fn lemma_capture_order(s: Seq<ClientView>, h: int, e1: EventView, e2: EventView, e3: EventView)
    requires
        0 <= h < s.len(),
    ensures
        captured(captured(captured(s, h, e1), h, e2), h, e3)[h].1 == s[h].1 + seq![e1, e2, e3],
        s[h].1.len() == 0 ==> captured(captured(captured(s, h, e1), h, e2), h, e3)[h].1 == seq![e1, e2, e3],
{
    let r = captured(captured(captured(s, h, e1), h, e2), h, e3);
    assert(r[h].1 =~= s[h].1 + seq![e1, e2, e3]);
    assert(s[h].1.len() == 0 ==> s[h].1 + seq![e1, e2, e3] =~= seq![e1, e2, e3]);
}

/// After a flush the buffer is empty, and flushing again at once changes
/// nothing and sends an envelope with an empty `batch`.
pub proof fn lemma_drain(s: Seq<ClientView>, h: int)
    requires
        0 <= h < s.len(),
    ensures
        flushed(s, h)[h].1.len() == 0,
        flushed(flushed(s, h), h) == flushed(s, h),
        crate::client::batch_value(flushed(s, h)[h].0.0, false, flushed(s, h)[h].1) == crate::json::json_object_of(
            seq![
                ("api_key"@, crate::json::json_string_of(s[h].0.0)),
                ("historical_migration"@, crate::json::json_bool_of(false)),
                ("batch"@, crate::json::json_array_of(Seq::empty())),
            ],
        ),
{
    assert(flushed(flushed(s, h), h) =~= flushed(s, h));
    let evs = flushed(s, h)[h].1;
    assert(evs.map_values(|e: EventView| crate::client::event_value(e)) =~= Seq::<serde_json::Value>::empty());
}

/// Capturing on or flushing one handle leaves every other client as it was.
pub proof fn lemma_handle_isolation(s: Seq<ClientView>, a: int, b: int, e: EventView)
    requires
        0 <= a < s.len(),
        0 <= b < s.len(),
        a != b,
    ensures
        captured(s, a, e)[b] == s[b],
        flushed(s, a)[b] == s[b],
{
}

impl View for ClientRegistry {
    type V = Seq<ClientView>;

    closed spec fn view(&self) -> Seq<ClientView> {
        self.clients@.map_values(|c: PosthogClient| (c.config_view(), c.buffer()))
    }
}

impl ClientRegistry {
    /// The most clients this registry will create.
    pub closed spec fn capacity_spec(&self) -> nat {
        self.capacity as nat
    }

    /// An empty registry that will create up to `capacity` clients.
    pub fn new(capacity: usize) -> (r: ClientRegistry)
        ensures
            r@ == Seq::<ClientView>::empty(),
            r.capacity_spec() == capacity,
    {
        let r = ClientRegistry { clients: Vec::new(), capacity };
        assert(r@ =~= Seq::<ClientView>::empty());
        r
    }

    /// The number of clients created so far.
    pub fn len(&self) -> (r: usize)
        ensures
            r == self@.len(),
    {
        self.clients.len()
    }

    /// Creates a client with an empty buffer under the next handle, unless
    /// the capacity is reached.
    pub fn create_client(&mut self, config: PosthogClientConfig) -> (r: Result<usize, ClientError>)
        ensures
            final(self).capacity_spec() == old(self).capacity_spec(),
            old(self)@.len() < old(self).capacity_spec() ==> {
                &&& r == Ok::<usize, ClientError>(old(self)@.len() as usize)
                &&& final(self)@ == old(self)@.push((config@, Seq::<EventView>::empty()))
            },
            old(self)@.len() >= old(self).capacity_spec() ==> {
                &&& r == Err::<usize, ClientError>(ClientError::CapacityReached)
                &&& final(self)@ == old(self)@
            },
    {
        let n = self.clients.len();
        if n >= self.capacity {
            return Err(ClientError::CapacityReached);
        }
        let c = PosthogClient::new(config);
        self.clients.push(c);
        assert(self@ =~= old(self)@.push((config@, Seq::<EventView>::empty())));
        Ok(n)
    }

    /// Appends `event` to the buffer of the client under `handle`.
    pub fn capture(&mut self, handle: usize, event: crate::client::PosthogEvent) -> (r: Result<(), ClientError>)
        ensures
            final(self).capacity_spec() == old(self).capacity_spec(),
            handle < old(self)@.len() ==> {
                &&& r is Ok
                &&& final(self)@ == captured(old(self)@, handle as int, event@)
            },
            handle >= old(self)@.len() ==> {
                &&& r == Err::<(), ClientError>(ClientError::HandleNotFound)
                &&& final(self)@ == old(self)@
            },
    {
        if handle >= self.clients.len() {
            return Err(ClientError::HandleNotFound);
        }
        let ghost e = event@;
        self.clients[handle].capture(event);
        assert(self@ =~= captured(old(self)@, handle as int, e));
        Ok(())
    }

    /// Drains the buffer of the client under `handle` and gives the batch
    /// request to send.
    pub fn flush(&mut self, handle: usize) -> (r: Result<OutgoingRequest, ClientError>)
        ensures
            final(self).capacity_spec() == old(self).capacity_spec(),
            handle < old(self)@.len() ==> {
                &&& final(self)@ == flushed(old(self)@, handle as int)
                &&& r matches Ok(req) && {
                    &&& req.url@ == old(self)@[handle as int].0.1 + "/batch"@
                    &&& req.method@ == "POST"@
                    &&& req.content_type matches Some(c) && c@ == "application/json"@
                    &&& req.body@ == crate::client::batch_text(old(self)@[handle as int].0.0, false, old(self)@[handle as int].1)
                }
            },
            handle >= old(self)@.len() ==> {
                &&& r == Err::<OutgoingRequest, ClientError>(ClientError::HandleNotFound)
                &&& final(self)@ == old(self)@
            },
    {
        if handle >= self.clients.len() {
            return Err(ClientError::HandleNotFound);
        }
        let req = self.clients[handle].flush();
        assert(self@ =~= flushed(old(self)@, handle as int));
        Ok(req)
    }
}

} // verus!
