//! An analytics event capture client: property merging, event and batch
//! encoding, a buffering client and a registry of client handles.
pub mod capture;
pub mod client;
pub mod host;
pub mod json;
pub mod properties;
pub mod registry;

pub use capture::{capture, capture_body, capture_properties, decode_or, default_properties, send_event};
pub use client::{BatchBody, OutgoingRequest, PosthogClient, PosthogClientConfig, PosthogEvent};
pub use host::{add, HttpResponse};
pub use json::{json_array, json_bool, json_object, json_string, parse_properties, value_text};
pub use properties::{merge_json_values, Properties};
pub use registry::{ClientError, ClientRegistry};
