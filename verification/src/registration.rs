//! What the pipeline is told that this backend offers.

use vstd::prelude::*;
use crate::text::join;

verus! {

/// Lower is preferred; ahead of the backends of integrated graphics.
pub const PRIORITY: i32 = 5;

/// How many codecs are offered.
pub const OFFERS: usize = 5;

/// A codec that is offered.
pub struct Offer {
    pub codec_id: String,
    pub decode: bool,
    pub encode: bool,
    pub priority: i32,
}

/// The name of offer `i`.
pub open spec fn offer_name(i: int) -> Seq<char> {
    if i == 0 {
        "h264"@
    } else if i == 1 {
        "hevc"@
    } else if i == 2 {
        "av1"@
    } else if i == 3 {
        "vp9"@
    } else {
        "mpeg2video"@
    }
}

/// Whether an offer is offer `i`: everything can be decoded, and the first two can be
/// encoded.
pub open spec fn is_offer(o: Offer, i: int) -> bool {
    &&& o.codec_id@ == offer_name(i)
    &&& o.decode
    &&& o.encode == (i < 2)
    &&& o.priority == PRIORITY
}

fn offer(codec_id: &str, encode: bool) -> (o: Offer)
    ensures
        o.codec_id@ == codec_id@,
        o.decode,
        o.encode == encode,
        o.priority == PRIORITY,
{
    Offer { codec_id: String::from_str(codec_id), decode: true, encode, priority: PRIORITY }
}

/// What is offered: nothing but a line for the log where the driver cannot be loaded.
pub fn register(load_error: Option<String>) -> (r: Result<Vec<Offer>, String>)
    ensures
        match load_error {
            Some(e) => r matches Err(line) && line@
                == "oxideav-nvidia: library unavailable, skipping registration: "@ + e@,
            None => r matches Ok(v) && v@.len() == OFFERS && forall|i: int|
                0 <= i < OFFERS ==> is_offer(#[trigger] v@[i], i),
        },
{
    if let Some(e) = load_error {
        return Err(
            join("oxideav-nvidia: library unavailable, skipping registration: ", e.as_str()),
        );
    }
    let mut v: Vec<Offer> = Vec::new();
    v.push(offer("h264", true));
    v.push(offer("hevc", true));
    v.push(offer("av1", false));
    v.push(offer("vp9", false));
    v.push(offer("mpeg2video", false));
    Ok(v)
}

/// What is offered: five codecs can be decoded, H.264 and HEVC can be encoded too, and each
/// is preferred to the backends of integrated graphics.
pub proof fn offers_by_name(v: Seq<Offer>)
    requires
        v.len() == OFFERS,
        forall|i: int| 0 <= i < OFFERS ==> is_offer(#[trigger] v[i], i),
    ensures
        v.len() == 5,
        v[0].codec_id@ == "h264"@ && v[0].encode,
        v[1].codec_id@ == "hevc"@ && v[1].encode,
        v[2].codec_id@ == "av1"@ && !v[2].encode,
        v[3].codec_id@ == "vp9"@ && !v[3].encode,
        v[4].codec_id@ == "mpeg2video"@ && !v[4].encode,
        forall|i: int| 0 <= i < 5 ==> (#[trigger] v[i]).decode && v[i].priority == 5,
{
}

} // verus!
