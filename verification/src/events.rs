use vstd::prelude::*;
use crate::strutil::str_eq;

verus! {

/// Event-type name of the keyed ref-update state events.
pub const REF_EVENT_TYPE: &'static str = "org.gitmatrix.refs";

/// Event-type name of the pack-announcement message events.
pub const PACK_EVENT_TYPE: &'static str = "org.gitmatrix.pack";

/// Body of a ref-update state event: the object id the ref points at.
pub struct RefEventContent {
    pub sha: String,
}

/// Body of a pack-announcement message event: the locator of the uploaded blob.
pub struct PackEventContent {
    pub content_uri: String,
}

/// A pack blob as raw bytes.
pub struct PackFile {
    pub content: Vec<u8>,
}

/// The closed set of event bodies the timeline scan distinguishes.  Any body
/// that does not decode to one of the two known shapes is `Unrecognized` and
/// is skipped by every scan, never fatal.
pub enum EventBody {
    RefUpdate { sha: String },
    PackAnnouncement { content_uri: String },
    Unrecognized,
}

/// One room timeline event as the scans see it: the state key (present only
/// on state events) and the decoded body.
pub struct TimelineEvent {
    pub state_key: Option<String>,
    pub body: EventBody,
}

/// The declarative selection a timeline sync asks for: events of the given
/// custom types, scoped to exactly one room.
pub struct SyncFilter {
    pub room_id: String,
    pub types: Vec<String>,
}

impl SyncFilter {
    /// A filter over one room and the given event-type names.
    pub fn new(room_id: String, types: Vec<String>) -> (r: SyncFilter)
        ensures
            r.room_id@ == room_id@,
            r.types == types,
    {
        SyncFilter { room_id, types }
    }
}

/// Declares serde_json's JSON value type so that raw event bodies can be
/// carried through signatures; the value stays opaque to the proofs.
#[verifier::external_type_specification]
#[verifier::external_body]
pub struct ExValue(serde_json::Value);

/// What the string-valued field lookup yields on a given JSON value and key:
/// the field's characters where the value is an object and the field holds a
/// string, `None` otherwise.  The outcome depends on the value and key alone.
pub uninterp spec fn json_string_field_of(v: serde_json::Value, key: Seq<char>) -> Option<
    Seq<char>,
>;

/// Reads one string-valued field of a JSON object, if present.
///
/// Relies on serde_json::Value::get (field lookup on an object, `None` on any
/// other shape or a missing key) and serde_json::Value::as_str (`None` unless
/// the field holds a string).  Both are deterministic reads of the value, so
/// the outcome is named by `json_string_field_of`.
#[verifier::external_body]
fn json_string_field(v: &serde_json::Value, key: &str) -> (r: Option<String>)
    ensures
        r is Some <==> json_string_field_of(*v, key@) is Some,
        r matches Some(s) ==> Some(s@) == json_string_field_of(*v, key@),
{
    match v.get(key) {
        Some(f) => f.as_str().map(|s| s.to_owned()),
        None => None,
    }
}

/// Decodes one raw room event into the closed `TimelineEvent` shape.
///
/// A ref-update body comes exactly from a state event of the ref event type
/// whose body holds a `sha` string; a pack announcement exactly from an
/// event of the pack event type whose body holds a `content_uri` string.
/// Everything else, a missing or non-string field included, decodes to
/// `Unrecognized`, never a failure.
pub fn decode_event(event_type: &str, state_key: Option<String>, content: &serde_json::Value)
    -> (r: TimelineEvent)
    ensures
        r.state_key == state_key,
        r.body is RefUpdate ==> event_type@ == REF_EVENT_TYPE@ && state_key is Some,
        r.body is PackAnnouncement ==> event_type@ == PACK_EVENT_TYPE@,
        event_type@ != REF_EVENT_TYPE@ && event_type@ != PACK_EVENT_TYPE@ ==> r.body is Unrecognized,
        event_type@ == REF_EVENT_TYPE@ && state_key is Some
            && json_string_field_of(*content, "sha"@) is Some
            ==> (r.body matches EventBody::RefUpdate { sha }
                && Some(sha@) == json_string_field_of(*content, "sha"@)),
        event_type@ == REF_EVENT_TYPE@
            && !(state_key is Some && json_string_field_of(*content, "sha"@) is Some)
            ==> r.body is Unrecognized,
        event_type@ == PACK_EVENT_TYPE@
            && json_string_field_of(*content, "content_uri"@) is Some
            ==> (r.body matches EventBody::PackAnnouncement { content_uri }
                && Some(content_uri@) == json_string_field_of(*content, "content_uri"@)),
        event_type@ == PACK_EVENT_TYPE@
            && json_string_field_of(*content, "content_uri"@) is None
            ==> r.body is Unrecognized,
{
    proof {
        reveal_strlit("org.gitmatrix.refs");
        reveal_strlit("org.gitmatrix.pack");
        assert(REF_EVENT_TYPE@[14] != PACK_EVENT_TYPE@[14]);
    }
    let body = if str_eq(event_type, REF_EVENT_TYPE) {
        if state_key.is_some() {
            match json_string_field(content, "sha") {
                Some(sha) => EventBody::RefUpdate { sha },
                None => EventBody::Unrecognized,
            }
        } else {
            EventBody::Unrecognized
        }
    } else if str_eq(event_type, PACK_EVENT_TYPE) {
        match json_string_field(content, "content_uri") {
            Some(content_uri) => EventBody::PackAnnouncement { content_uri },
            None => EventBody::Unrecognized,
        }
    } else {
        EventBody::Unrecognized
    };
    TimelineEvent { state_key, body }
}

} // verus!
