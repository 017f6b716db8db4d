use vstd::prelude::*;
use crate::events::{EventBody, TimelineEvent};
use crate::urlwrap::{UrlParts, url_parts_of, parse_url};

verus! {

/// A pack blob as raw bytes, as the backend builds and consumes it.
pub struct Pack {
    pub content: Vec<u8>,
}

/// Where an announced pack blob lives: the media server and the media id,
/// split out of a locator of the form `scheme://server/mediaId`.
pub struct Locator {
    pub server_name: String,
    pub media_id: String,
}

/// The mathematical shadow of a `Locator`.
pub ghost struct LocatorModel {
    pub server_name: Seq<char>,
    pub media_id: Seq<char>,
}

impl View for Locator {
    type V = LocatorModel;

    open spec fn view(&self) -> LocatorModel {
        LocatorModel { server_name: self.server_name@, media_id: self.media_id@ }
    }
}

pub open spec fn loc_views(ls: Seq<Locator>) -> Seq<LocatorModel> {
    ls.map_values(|l: Locator| l@)
}

/// What a content locator denotes: its host as the server name and its
/// first path segment as the media id, `None` where either is missing or
/// the locator does not parse.
pub open spec fn spec_locator(uri: Seq<char>) -> Option<LocatorModel> {
    match url_parts_of(uri) {
        None => None,
        Some(p) => match p.host {
            None => None,
            Some(h) => match p.segments {
                None => None,
                Some(segs) => if segs.len() >= 1 {
                    Some(LocatorModel { server_name: h, media_id: segs[0] })
                } else {
                    None
                },
            },
        },
    }
}

/// Splits a content locator into server name and media id.
pub fn parse_locator(uri: &str) -> (r: Option<Locator>)
    ensures
        r matches Some(loc) ==> Some(loc@) == spec_locator(uri@),
        r is None ==> spec_locator(uri@) is None,
{
    match parse_url(uri) {
        Ok(parts) => {
            let UrlParts { scheme: _, host, port: _, segments } = parts;
            match (host, segments) {
                (Some(h), Some(segs)) => {
                    if segs.len() >= 1 {
                        proof {
                            assert(segs@.map_values(|s: String| s@)[0] == segs@[0]@);
                        }
                        Some(Locator { server_name: h, media_id: segs[0].clone() })
                    } else {
                        None
                    }
                },
                _ => None,
            }
        },
        Err(_) => None,
    }
}

/// The content uri an event announces, if it is a pack announcement.
pub open spec fn pack_uri(e: TimelineEvent) -> Option<Seq<char>> {
    match e.body {
        EventBody::PackAnnouncement { content_uri } => Some(content_uri@),
        _ => None,
    }
}

/// The download plan of a timeline: the locators of its well-formed pack
/// announcements, newest first, mirroring the ref scan's direction;
/// malformed announcements and unparsable locators are skipped.
pub open spec fn spec_fetch_plan(events: Seq<TimelineEvent>) -> Seq<LocatorModel>
    decreases events.len(),
{
    if events.len() == 0 {
        Seq::empty()
    } else {
        let head = match pack_uri(events.last()) {
            Some(uri) => match spec_locator(uri) {
                Some(loc) => seq![loc],
                None => Seq::<LocatorModel>::empty(),
            },
            None => Seq::<LocatorModel>::empty(),
        };
        head + spec_fetch_plan(events.drop_last())
    }
}

/// Derives the download plan from a timeline in arrival order.
pub fn fetch_plan(events: &Vec<TimelineEvent>) -> (r: Vec<Locator>)
    ensures
        loc_views(r@) == spec_fetch_plan(events@),
{
    let mut plan: Vec<Locator> = Vec::new();
    let mut i: usize = events.len();
    proof {
        assert(events@.take(i as int) =~= events@);
        assert(loc_views(plan@) =~= Seq::<LocatorModel>::empty());
    }
    while i > 0
        invariant
            i <= events@.len(),
            loc_views(plan@) + spec_fetch_plan(events@.take(i as int)) == spec_fetch_plan(
                events@,
            ),
        decreases i,
    {
        i -= 1;
        let ghost taken = events@.take(i as int + 1);
        let ghost plan_old = plan@;
        let e = &events[i];
        match &e.body {
            EventBody::PackAnnouncement { content_uri } => {
                match parse_locator(content_uri.as_str()) {
                    Some(loc) => {
                        plan.push(loc);
                    },
                    None => {},
                }
            },
            _ => {},
        }
        proof {
            assert(taken.drop_last() =~= events@.take(i as int));
            assert(taken.last() == events@[i as int]);
            assert(loc_views(plan@) + spec_fetch_plan(events@.take(i as int))
                =~= loc_views(plan_old) + spec_fetch_plan(taken));
        }
    }
    proof {
        assert(events@.take(0) =~= Seq::<TimelineEvent>::empty());
        assert(loc_views(plan@) + spec_fetch_plan(events@.take(0)) =~= loc_views(plan@));
    }
    plan
}

/// Law: the messaging substrate, modelled as a keyed blob store, hands an
/// uploaded pack back unchanged: storing bytes under a locator and reading
/// that locator yields byte-for-byte the same content.
pub proof fn lemma_upload_download_round_trip(
    store: Map<Seq<char>, Seq<u8>>,
    uri: Seq<char>,
    bytes: Seq<u8>,
)
    ensures
        store.insert(uri, bytes)[uri] == bytes,
{
}

/// Where one push stands: the steps run strictly in the order build pack,
/// upload blob, announce it, look the source ref up, publish the ref.
pub enum PushPhase {
    AwaitPack,
    AwaitUpload,
    AwaitAnnounce,
    AwaitRefId,
    AwaitPublish,
    Complete,
    Aborted,
}

/// One push of `src` to `dst`, driven as a state machine: the caller
/// performs each returned action and hands the outcome back as an event.
pub struct PushExchange {
    pub src: String,
    pub dst: String,
    pub phase: PushPhase,
}

/// The outcome of one performed push action.
pub enum PushEvent {
    Packed { bytes: Vec<u8> },
    Uploaded { content_uri: String },
    Announced,
    RefResolved { object_id: String },
    RefPublished,
    Failed { message: String },
}

/// The next piece of outside work one push asks for.
pub enum PushAction {
    BuildPack { src: String },
    UploadPack { bytes: Vec<u8> },
    AnnouncePack { content_uri: String },
    ResolveRef { src: String },
    PublishRef { dst: String, object_id: String },
    ReportOk { dst: String },
    ReportError { dst: String, message: String },
}

/// Starts a push: the first step is always building the pack for `src`.
pub fn push_start(src: String, dst: String) -> (r: (PushExchange, PushAction))
    ensures
        r.0.src@ == src@,
        r.0.dst@ == dst@,
        r.0.phase is AwaitPack,
        (r.1 matches PushAction::BuildPack { src: s } && s@ == src@),
{
    let action = PushAction::BuildPack { src: src.clone() };
    (PushExchange { src, dst, phase: PushPhase::AwaitPack }, action)
}

/// Advances a push by one completed step.  Each phase accepts exactly the
/// event of its own step and asks for the next step's action, so that the
/// upload precedes the announcement and the announcement precedes the ref
/// update; the pack bytes, locator and object id pass through unchanged.
/// A failure event aborts from any phase and reports the error against the
/// destination ref; so does an event that does not belong to the phase.
pub fn push_step(m: &mut PushExchange, ev: PushEvent) -> (a: PushAction)
    ensures
        final(m).src == old(m).src,
        final(m).dst == old(m).dst,
        ev matches PushEvent::Packed { bytes } ==> (old(m).phase is AwaitPack ==> (
            final(m).phase is AwaitUpload
            && (a matches PushAction::UploadPack { bytes: b } && b == bytes))),
        ev matches PushEvent::Uploaded { content_uri } ==> (old(m).phase is AwaitUpload ==> (
            final(m).phase is AwaitAnnounce
            && (a matches PushAction::AnnouncePack { content_uri: u } && u == content_uri))),
        old(m).phase is AwaitAnnounce && ev is Announced ==> (
            final(m).phase is AwaitRefId
            && (a matches PushAction::ResolveRef { src } && src@ == old(m).src@)),
        ev matches PushEvent::RefResolved { object_id } ==> (old(m).phase is AwaitRefId ==> (
            final(m).phase is AwaitPublish
            && (a matches PushAction::PublishRef { dst, object_id: oid }
                && dst@ == old(m).dst@ && oid == object_id))),
        old(m).phase is AwaitPublish && ev is RefPublished ==> (
            final(m).phase is Complete
            && (a matches PushAction::ReportOk { dst } && dst@ == old(m).dst@)),
        ev matches PushEvent::Failed { message } ==> (
            final(m).phase is Aborted
            && (a matches PushAction::ReportError { dst, message: msg }
                && dst@ == old(m).dst@ && msg == message)),
        !(old(m).phase is AwaitPack && ev is Packed)
            && !(old(m).phase is AwaitUpload && ev is Uploaded)
            && !(old(m).phase is AwaitAnnounce && ev is Announced)
            && !(old(m).phase is AwaitRefId && ev is RefResolved)
            && !(old(m).phase is AwaitPublish && ev is RefPublished)
            && !(ev is Failed) ==> (
            final(m).phase is Aborted
            && (a matches PushAction::ReportError { dst, message: _ }
                && dst@ == old(m).dst@)),
{
    match (&m.phase, ev) {
        (PushPhase::AwaitPack, PushEvent::Packed { bytes }) => {
            m.phase = PushPhase::AwaitUpload;
            PushAction::UploadPack { bytes }
        },
        (PushPhase::AwaitUpload, PushEvent::Uploaded { content_uri }) => {
            m.phase = PushPhase::AwaitAnnounce;
            PushAction::AnnouncePack { content_uri }
        },
        (PushPhase::AwaitAnnounce, PushEvent::Announced) => {
            m.phase = PushPhase::AwaitRefId;
            PushAction::ResolveRef { src: m.src.clone() }
        },
        (PushPhase::AwaitRefId, PushEvent::RefResolved { object_id }) => {
            m.phase = PushPhase::AwaitPublish;
            PushAction::PublishRef { dst: m.dst.clone(), object_id }
        },
        (PushPhase::AwaitPublish, PushEvent::RefPublished) => {
            m.phase = PushPhase::Complete;
            PushAction::ReportOk { dst: m.dst.clone() }
        },
        (_, PushEvent::Failed { message }) => {
            m.phase = PushPhase::Aborted;
            PushAction::ReportError { dst: m.dst.clone(), message }
        },
        (_, _) => {
            m.phase = PushPhase::Aborted;
            PushAction::ReportError {
                dst: m.dst.clone(),
                message: "unexpected step outcome during push".to_owned(),
            }
        },
    }
}

/// Where one fetch stands: downloading the next planned blob, writing the
/// blob just downloaded, or finished.
pub enum FetchPhase {
    Downloading,
    Writing,
    Complete,
    Aborted,
}

/// One fetch, driven as a state machine over the download plan: every
/// planned blob is downloaded and written in plan order; a download or
/// write failure aborts the whole fetch.
pub struct FetchExchange {
    pub plan: Vec<Locator>,
    pub next: usize,
    pub phase: FetchPhase,
}

/// The outcome of one performed fetch action.
pub enum FetchEvent {
    Downloaded { bytes: Vec<u8> },
    Written,
    Failed { message: String },
}

/// The next piece of outside work one fetch asks for.
pub enum FetchAction {
    Download { server_name: String, media_id: String },
    WritePack { bytes: Vec<u8> },
    Finish,
    Abort { message: String },
}

/// A fetch machine that is still running points inside its plan.
pub open spec fn fetch_wf(m: FetchExchange) -> bool {
    (m.phase is Downloading || m.phase is Writing) ==> m.next < m.plan@.len()
}

/// Starts a fetch over a timeline: the plan is the timeline's announced
/// locators, and the first action downloads the newest one, or finishes at
/// once when nothing was announced.
pub fn fetch_start(events: &Vec<TimelineEvent>) -> (r: (FetchExchange, FetchAction))
    ensures
        loc_views(r.0.plan@) == spec_fetch_plan(events@),
        fetch_wf(r.0),
        spec_fetch_plan(events@).len() == 0 ==> r.0.phase is Complete && r.1 is Finish,
        spec_fetch_plan(events@).len() > 0 ==> (
            r.0.phase is Downloading && r.0.next == 0
            && (r.1 matches FetchAction::Download { server_name, media_id }
                && server_name@ == spec_fetch_plan(events@)[0].server_name
                && media_id@ == spec_fetch_plan(events@)[0].media_id)),
{
    let plan = fetch_plan(events);
    if plan.len() == 0 {
        (FetchExchange { plan, next: 0, phase: FetchPhase::Complete }, FetchAction::Finish)
    } else {
        let action = FetchAction::Download {
            server_name: plan[0].server_name.clone(),
            media_id: plan[0].media_id.clone(),
        };
        proof {
            assert(loc_views(plan@)[0] == plan@[0]@);
        }
        (FetchExchange { plan, next: 0, phase: FetchPhase::Downloading }, action)
    }
}

/// Advances a fetch by one completed step.  A downloaded blob is written
/// out exactly as it arrived; once written, the next planned blob is
/// downloaded, until the plan is exhausted.  Any failure, and any event
/// that does not belong to the phase, aborts the whole fetch.
pub fn fetch_step(m: &mut FetchExchange, ev: FetchEvent) -> (a: FetchAction)
    requires
        fetch_wf(*old(m)),
    ensures
        fetch_wf(*final(m)),
        final(m).plan == old(m).plan,
        ev matches FetchEvent::Downloaded { bytes } ==> (old(m).phase is Downloading ==> (
            final(m).phase is Writing && final(m).next == old(m).next
            && (a matches FetchAction::WritePack { bytes: b } && b == bytes))),
        old(m).phase is Writing && ev is Written && old(m).next + 1 < old(m).plan@.len() ==> (
            final(m).phase is Downloading && final(m).next == old(m).next + 1
            && (a matches FetchAction::Download { server_name, media_id }
                && server_name@ == loc_views(old(m).plan@)[old(m).next + 1].server_name
                && media_id@ == loc_views(old(m).plan@)[old(m).next + 1].media_id)),
        old(m).phase is Writing && ev is Written && old(m).next + 1 == old(m).plan@.len() ==> (
            final(m).phase is Complete && a is Finish),
        ev matches FetchEvent::Failed { message } ==> (
            final(m).phase is Aborted
            && (a matches FetchAction::Abort { message: msg } && msg == message)),
        !(old(m).phase is Downloading && ev is Downloaded)
            && !(old(m).phase is Writing && ev is Written)
            && !(ev is Failed) ==> (final(m).phase is Aborted && a is Abort),
{
    match (&m.phase, ev) {
        (FetchPhase::Downloading, FetchEvent::Downloaded { bytes }) => {
            m.phase = FetchPhase::Writing;
            FetchAction::WritePack { bytes }
        },
        (FetchPhase::Writing, FetchEvent::Written) => {
            let n = m.plan.len();
            proof {
                assert(m.phase is Writing);
                assert(m.next < m.plan@.len());
            }
            let i = m.next + 1;
            if i < n {
                m.next = i;
                m.phase = FetchPhase::Downloading;
                proof {
                    assert(loc_views(m.plan@)[i as int] == m.plan@[i as int]@);
                }
                FetchAction::Download {
                    server_name: m.plan[i].server_name.clone(),
                    media_id: m.plan[i].media_id.clone(),
                }
            } else {
                m.phase = FetchPhase::Complete;
                FetchAction::Finish
            }
        },
        (_, FetchEvent::Failed { message }) => {
            m.phase = FetchPhase::Aborted;
            FetchAction::Abort { message }
        },
        (_, _) => {
            m.phase = FetchPhase::Aborted;
            FetchAction::Abort { message: "unexpected step outcome during fetch".to_owned() }
        },
    }
}

} // verus!
