//! Reference classifier: turns a raw textual reference into one of three
//! typed work items, or a classification error.
//!
//! The reference text is parsed as a URL by the `url` crate; everything after
//! that — reading the path segments as an invite code, a chat/item pair, or a
//! bare channel alias — is verified here.

use vstd::prelude::*;

use crate::text::{parse_i32, spec_parse_i32};
use crate::types::{LinkRecord, Source};

verus! {

/// The `/`-separated path segments of a reference text, when it parses as a
/// URL whose path can be split; what the `url` crate extracts.
pub uninterp spec fn link_path_segments(raw: Seq<char>) -> Option<Seq<Seq<char>>>;

/// Relies on `url::Url::parse` and `url::Url::path_segments`: the WHATWG
/// parse of the reference text and the `/`-separated pieces of its path.
/// Both depend on the reference text alone; the result is nothing when the
/// text is not a URL or the URL's path cannot be split into segments.
#[verifier::external_body]
fn url_path_segments(raw: &str) -> (r: Option<Vec<String>>)
    ensures
        match r {
            Some(v) => link_path_segments(raw@) == Some(v@.map_values(|s: String| s@)),
            None => link_path_segments(raw@) is None,
        },
{
    match url::Url::parse(raw) {
        Ok(u) => u.path_segments().map(|split| split.map(|seg| seg.to_string()).collect()),
        Err(_) => None,
    }
}

/// Why a reference failed to classify; such a reference is permanently dead.
#[derive(Debug, Clone, Copy, PartialEq, Eq, Structural)]
pub enum ClassifyError {
    /// The text is not a URL, or its path has no segments to split.
    NotAUrl,
    /// The first path segment is missing or empty.
    EmptyName,
    /// A second path segment exists but is not an item number.
    NotItemNumber,
}

/// Work item: fetch one item from an aliased destination.
#[derive(Debug, Clone)]
pub struct ChatMessage {
    pub username: String,
    pub msg_id: i32,
    pub source: Source,
}

/// Work item: accept an invite.
#[derive(Debug, Clone)]
pub struct Invite {
    pub invite_link: String,
    pub invite_code: String,
    pub source: Source,
}

/// Work item: an alias that may be a joinable channel.
#[derive(Debug, Clone)]
pub struct MaybeChannel {
    pub username: String,
    pub source: Source,
}

/// A classified reference.
#[derive(Debug, Clone)]
pub enum LinkParse {
    ChatMessage(ChatMessage),
    Invite(Invite),
    MaybeChannel(MaybeChannel),
}

impl LinkParse {
    /// The lineage tag the work item carries.
    pub fn source(&self) -> (s: Source)
        ensures
            s == self.spec_source(),
    {
        match self {
            LinkParse::ChatMessage(cm) => cm.source,
            LinkParse::Invite(i) => i.source,
            LinkParse::MaybeChannel(mc) => mc.source,
        }
    }

    pub open spec fn spec_source(&self) -> Source {
        match self {
            LinkParse::ChatMessage(cm) => cm.source,
            LinkParse::Invite(i) => i.source,
            LinkParse::MaybeChannel(mc) => mc.source,
        }
    }
}

/// The segment list has a usable first segment.
pub open spec fn first_segment_ok(segs: Seq<Seq<char>>) -> bool {
    segs.len() >= 1 && segs[0].len() > 0
}

/// What classifying a segment list must yield: an invite for a leading `+`,
/// a chat/item pair when a second segment is an item number, a bare channel
/// alias otherwise, and the precise error in every remaining case.
pub open spec fn classification_of(
    segs: Seq<Seq<char>>,
    raw: Seq<char>,
    source: Source,
    r: Result<LinkParse, ClassifyError>,
) -> bool {
    &&& (!first_segment_ok(segs) ==> r == Err::<LinkParse, ClassifyError>(
        ClassifyError::EmptyName,
    ))
    &&& (first_segment_ok(segs) && segs[0][0] == '+' ==> {
        &&& r matches Ok(LinkParse::Invite(inv))
        &&& inv.invite_code@ == segs[0]
        &&& inv.invite_link@ == raw
        &&& inv.source == source
    })
    &&& (first_segment_ok(segs) && segs[0][0] != '+' && segs.len() == 1 ==> {
        &&& r matches Ok(LinkParse::MaybeChannel(mc))
        &&& mc.username@ == segs[0]
        &&& mc.source == source
    })
    &&& (first_segment_ok(segs) && segs[0][0] != '+' && segs.len() >= 2 ==> match spec_parse_i32(
        segs[1],
    ) {
        Some(mid) => {
            &&& r matches Ok(LinkParse::ChatMessage(cm))
            &&& cm.username@ == segs[0]
            &&& cm.msg_id == mid
            &&& cm.source == source
        },
        None => r == Err::<LinkParse, ClassifyError>(ClassifyError::NotItemNumber),
    })
}

/// Classify an already-split segment list.
///
/// Extra segments after the second are ignored, as the remote deep-link
/// format allows trailing parts.
pub fn classify_segments(segs: &Vec<String>, raw: &String, source: Source) -> (r: Result<
    LinkParse,
    ClassifyError,
>)
    ensures
        classification_of(segs@.map_values(|s: String| s@), raw@, source, r),
{
    if segs.len() == 0 {
        return Err(ClassifyError::EmptyName);
    }
    let first = &segs[0];
    if first.as_str().unicode_len() == 0 {
        return Err(ClassifyError::EmptyName);
    }
    if first.as_str().get_char(0) == '+' {
        return Ok(
            LinkParse::Invite(
                Invite { invite_link: raw.clone(), invite_code: first.clone(), source },
            ),
        );
    }
    if segs.len() >= 2 {
        match parse_i32(segs[1].as_str()) {
            Some(mid) => Ok(
                LinkParse::ChatMessage(ChatMessage { username: first.clone(), msg_id: mid, source }),
            ),
            None => Err(ClassifyError::NotItemNumber),
        }
    } else {
        Ok(LinkParse::MaybeChannel(MaybeChannel { username: first.clone(), source }))
    }
}

/// Classify a raw reference text.
///
/// The text is parsed as a URL; the path segments decide the work item.
/// Malformed input yields a classification error, never a panic.
pub fn classify(raw: &String, source: Source) -> (r: Result<LinkParse, ClassifyError>)
    ensures
        match link_path_segments(raw@) {
            None => r == Err::<LinkParse, ClassifyError>(ClassifyError::NotAUrl),
            Some(vsegs) => classification_of(vsegs, raw@, source, r),
        },
{
    match url_path_segments(raw.as_str()) {
        None => Err(ClassifyError::NotAUrl),
        Some(segs) => classify_segments(&segs, raw, source),
    }
}

impl LinkParse {
    /// Classify a stored reference row, tagging the work item with the row's
    /// lineage.
    pub fn from_model(link: &LinkRecord) -> (r: Result<LinkParse, ClassifyError>)
        ensures
            match link_path_segments(link.link@) {
                None => r == Err::<LinkParse, ClassifyError>(ClassifyError::NotAUrl),
                Some(vsegs) => classification_of(
                    vsegs,
                    link.link@,
                    (Source { ty: crate::types::SourceType::Link, id: link.id as i64 }),
                    r,
                ),
            },
    {
        let source = Source::from_link(link);
        classify(&link.link, source)
    }
}

} // verus!
