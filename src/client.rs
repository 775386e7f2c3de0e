//! The buffering client: events are kept in order of capture and sent as
//! one batch when flushed.
use crate::json::{
    entries_view, json_array, json_array_of, json_bool, json_bool_of, json_object, json_object_of, json_string,
    json_string_of, json_text, value_text,
};
use crate::properties::{Entries, Properties};
use vstd::prelude::*;
use vstd::string::StringExecFns;

verus! {

/// An event as names and values: its name and its properties.
pub type EventView = (Seq<char>, Entries);

/// Where and as whom a client sends.
pub struct PosthogClientConfig {
    api_key: String,
    host: String,
}

impl View for PosthogClientConfig {
    type V = (Seq<char>, Seq<char>);

    closed spec fn view(&self) -> (Seq<char>, Seq<char>) {
        (self.api_key@, self.host@)
    }
}

impl PosthogClientConfig {
    pub fn new(api_key: String, host: String) -> (r: PosthogClientConfig)
        ensures
            r@ == (api_key@, host@),
    {
        PosthogClientConfig { api_key, host }
    }

    pub fn api_key(&self) -> (r: &String)
        ensures
            r@ == self@.0,
    {
        &self.api_key
    }

    pub fn host(&self) -> (r: &String)
        ensures
            r@ == self@.1,
    {
        &self.host
    }
}

/// A named event with its properties.
pub struct PosthogEvent {
    event: String,
    properties: Properties,
}

impl View for PosthogEvent {
    type V = EventView;

    closed spec fn view(&self) -> EventView {
        (self.event@, self.properties@)
    }
}

/// The views of a list of events.
pub open spec fn events_view(v: Seq<PosthogEvent>) -> Seq<EventView> {
    v.map_values(|e: PosthogEvent| e@)
}

/// The JSON object of one event: its name and its properties.
pub open spec fn event_value(e: EventView) -> serde_json::Value {
    json_object_of(seq![("event"@, json_string_of(e.0)), ("properties"@, json_object_of(e.1))])
}

/// The JSON object of a batch envelope.
pub open spec fn batch_value(api_key: Seq<char>, historical_migration: bool, events: Seq<EventView>) -> serde_json::Value {
    json_object_of(
        seq![
            ("api_key"@, json_string_of(api_key)),
            ("historical_migration"@, json_bool_of(historical_migration)),
            ("batch"@, json_array_of(events.map_values(|e: EventView| event_value(e)))),
        ],
    )
}

/// The JSON text of a batch envelope.
pub open spec fn batch_text(api_key: Seq<char>, historical_migration: bool, events: Seq<EventView>) -> Seq<char> {
    json_text(batch_value(api_key, historical_migration, events))
}

impl PosthogEvent {
    pub fn new(event: String, properties: Properties) -> (r: PosthogEvent)
        ensures
            r@ == (event@, properties@),
    {
        PosthogEvent { event, properties }
    }

    pub fn event(&self) -> (r: &String)
        ensures
            r@ == self@.0,
    {
        &self.event
    }

    pub fn properties(&self) -> (r: &Properties)
        ensures
            r@ == self@.1,
    {
        &self.properties
    }

    /// The JSON object of this event.
    pub fn into_value(self) -> (r: serde_json::Value)
        ensures
            r == event_value(self@),
    {
        let PosthogEvent { event, properties } = self;
        let ghost name = event@;
        let ghost props = properties@;
        let props_value = json_object(properties.into_entries());
        let mut members: Vec<(String, serde_json::Value)> = Vec::new();
        members.push((<String as StringExecFns>::from_str("event"), json_string(event)));
        members.push((<String as StringExecFns>::from_str("properties"), props_value));
        assert(entries_view(members@) =~= seq![("event"@, json_string_of(name)), ("properties"@, json_object_of(props))]);
        json_object(members)
    }

    /// The JSON text of this event.
    pub fn to_json(self) -> (r: String)
        ensures
            r@ == json_text(event_value(self@)),
    {
        value_text(&self.into_value())
    }
}

/// The body of one batch request.
pub struct BatchBody {
    pub api_key: String,
    pub historical_migration: bool,
    pub batch: Vec<PosthogEvent>,
}

impl BatchBody {
    /// The JSON object of the envelope.
    pub fn into_value(self) -> (r: serde_json::Value)
        ensures
            r == batch_value(self.api_key@, self.historical_migration, events_view(self.batch@)),
    {
        let BatchBody { api_key, historical_migration, batch } = self;
        let ghost key = api_key@;
        let ghost evs = events_view(batch@);
        let ghost all = evs.map_values(|e: EventView| event_value(e));
        let n: usize = batch.len();
        let mut rest = batch;
        let mut items: Vec<serde_json::Value> = Vec::new();
        let mut k: usize = 0;
        while rest.len() > 0
            invariant
                0 <= k <= n,
                n == evs.len(),
                rest@.len() == n - k,
                events_view(rest@) =~= evs.subrange(k as int, n as int),
                all == evs.map_values(|e: EventView| event_value(e)),
                items@ =~= all.subrange(0, k as int),
            decreases rest@.len(),
        {
            let ghost before = rest@;
            assert(events_view(before)[0] == evs[k as int]);
            let e = rest.remove(0);
            assert(events_view(rest@) =~= events_view(before).subrange(1, before.len() as int));
            items.push(e.into_value());
            k = k + 1;
        }
        assert(all.subrange(0, n as int) =~= all);
        let mut members: Vec<(String, serde_json::Value)> = Vec::new();
        members.push((<String as StringExecFns>::from_str("api_key"), json_string(api_key)));
        members.push((<String as StringExecFns>::from_str("historical_migration"), json_bool(historical_migration)));
        members.push((<String as StringExecFns>::from_str("batch"), json_array(items)));
        assert(entries_view(members@) =~= seq![
            ("api_key"@, json_string_of(key)),
            ("historical_migration"@, json_bool_of(historical_migration)),
            ("batch"@, json_array_of(all)),
        ]);
        json_object(members)
    }

    /// The JSON text of the envelope: `api_key`, `historical_migration`,
    /// and the events in order.
    pub fn to_json(self) -> (r: String)
        ensures
            r@ == batch_text(self.api_key@, self.historical_migration, events_view(self.batch@)),
    {
        value_text(&self.into_value())
    }
}

/// A request for the transport to perform.
pub struct OutgoingRequest {
    pub url: String,
    pub method: String,
    pub content_type: Option<String>,
    pub body: String,
}

/// A client with its configuration and the events captured since the last
/// flush.
pub struct PosthogClient {
    config: PosthogClientConfig,
    event_buffer: Vec<PosthogEvent>,
}

impl PosthogClient {
    pub closed spec fn config_view(&self) -> (Seq<char>, Seq<char>) {
        self.config@
    }

    /// The events waiting to be sent, oldest first.
    pub closed spec fn buffer(&self) -> Seq<EventView> {
        events_view(self.event_buffer@)
    }

    /// A client with an empty buffer.
    pub fn new(config: PosthogClientConfig) -> (r: PosthogClient)
        ensures
            r.config_view() == config@,
            r.buffer() == Seq::<EventView>::empty(),
    {
        let r = PosthogClient { config, event_buffer: Vec::new() };
        assert(r.buffer() =~= Seq::<EventView>::empty());
        r
    }

    pub fn config(&self) -> (r: &PosthogClientConfig)
        ensures
            r@ == self.config_view(),
    {
        &self.config
    }

    /// The number of events waiting to be sent.
    pub fn pending(&self) -> (r: usize)
        ensures
            r == self.buffer().len(),
    {
        self.event_buffer.len()
    }

    /// Appends `event` to the buffer.
    pub fn capture(&mut self, event: PosthogEvent)
        ensures
            final(self).config_view() == old(self).config_view(),
            final(self).buffer() == old(self).buffer().push(event@),
    {
        self.event_buffer.push(event);
        assert(self.buffer() =~= old(self).buffer().push(event@));
    }

    /// Takes every buffered event, in order, into a batch envelope and
    /// leaves the buffer empty.
    pub fn drain_batch(&mut self) -> (r: BatchBody)
        ensures
            final(self).config_view() == old(self).config_view(),
            final(self).buffer() == Seq::<EventView>::empty(),
            r.api_key@ == old(self).config_view().0,
            !r.historical_migration,
            events_view(r.batch@) == old(self).buffer(),
    {
        let mut events: Vec<PosthogEvent> = Vec::new();
        std::mem::swap(&mut events, &mut self.event_buffer);
        assert(self.buffer() =~= Seq::<EventView>::empty());
        BatchBody { api_key: self.config.api_key.clone(), historical_migration: false, batch: events }
    }

    /// Drains the buffer and gives the batch request to send: a POST of the
    /// envelope to `{host}/batch` as `application/json`.
    pub fn flush(&mut self) -> (r: OutgoingRequest)
        ensures
            final(self).config_view() == old(self).config_view(),
            final(self).buffer() == Seq::<EventView>::empty(),
            r.url@ == old(self).config_view().1 + "/batch"@,
            r.method@ == "POST"@,
            r.content_type matches Some(c) && c@ == "application/json"@,
            r.body@ == batch_text(old(self).config_view().0, false, old(self).buffer()),
    {
        let body = self.drain_batch();
        let text = body.to_json();
        let mut url = self.config.host.clone();
        url.append("/batch");
        OutgoingRequest {
            url,
            method: <String as StringExecFns>::from_str("POST"),
            content_type: Some(<String as StringExecFns>::from_str("application/json")),
            body: text,
        }
    }
}

} // verus!
