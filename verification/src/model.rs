//! Plain-data records of what the foreign layer reports.
//!
//! The decoding session itself lives behind an opaque foreign interface;
//! everything this layer ever reads from it is a handful of plain values:
//! error records, dimensions, channel sets, strides, and sample buffers.
//! These types carry exactly those values, as raw as the foreign layer hands
//! them out (dimensions as C integers, buffers possibly absent), so that the
//! chain built over them can be verified against hostile reports too.

use vstd::prelude::*;

use crate::error::ErrorRecord;
use crate::kinds::Channel;
use crate::kinds::DecoderSettings;

verus! {

/// What the foreign layer reports for one colour channel of a decoded
/// raster: geometry as raw C integers, the byte width of one sample, and the
/// read-only sample buffer — absent when the foreign layer produced none.
pub struct PlaneData {
    pub channel: Channel,
    pub width: i32,
    pub height: i32,
    pub stride: i32,
    pub channel_bytes: i32,
    pub samples: Option<Vec<u8>>,
}

/// One decoded raster: the channels the foreign decoder produced.
pub struct Raster {
    pub channels: Vec<PlaneData>,
}

/// One image recorded in the container: its reported geometry, and the
/// raster the foreign decoder yields for each settings combination it can
/// produce from this source.
pub struct ImageSource {
    pub width: i32,
    pub height: i32,
    pub rasters: Vec<(DecoderSettings, Raster)>,
}

/// The container as one successful foreign read leaves it.
pub struct Container {
    pub primary: Option<ImageSource>,
}

/// What the foreign open sequence reported: the read call's error record,
/// and the container content, meaningful when the record's code is zero.
pub struct ReadReport {
    pub record: ErrorRecord,
    pub container: Container,
}

/// The raster recorded for `settings`: the first entry whose settings match.
/// The foreign decoder is deterministic for a given source and settings, so
/// one entry per combination describes it fully.
pub open spec fn find_raster(
    entries: Seq<(DecoderSettings, Raster)>,
    settings: DecoderSettings,
) -> Option<Raster>
    decreases entries.len(),
{
    if entries.len() == 0 {
        None
    } else if entries[0].0 == settings {
        Some(entries[0].1)
    } else {
        find_raster(entries.drop_first(), settings)
    }
}

/// The data recorded for `channel`: the first entry that names it.
pub open spec fn find_channel(channels: Seq<PlaneData>, channel: Channel) -> Option<PlaneData>
    decreases channels.len(),
{
    if channels.len() == 0 {
        None
    } else if channels[0].channel == channel {
        Some(channels[0])
    } else {
        find_channel(channels.drop_first(), channel)
    }
}

/// One step of the raster search: what `find_raster` yields on the tail that
/// starts at `i`.
pub proof fn lemma_find_raster_skip(
    entries: Seq<(DecoderSettings, Raster)>,
    settings: DecoderSettings,
    i: int,
)
    requires
        0 <= i < entries.len(),
    ensures
        find_raster(entries.skip(i), settings) == (if entries[i].0 == settings {
            Some(entries[i].1)
        } else {
            find_raster(entries.skip(i + 1), settings)
        }),
{
    let s = entries.skip(i);
    assert(s[0] == entries[i]);
    assert(s.drop_first() =~= entries.skip(i + 1));
}

/// One step of the channel search: what `find_channel` yields on the tail
/// that starts at `i`.
pub proof fn lemma_find_channel_skip(channels: Seq<PlaneData>, channel: Channel, i: int)
    requires
        0 <= i < channels.len(),
    ensures
        find_channel(channels.skip(i), channel) == (if channels[i].channel == channel {
            Some(channels[i])
        } else {
            find_channel(channels.skip(i + 1), channel)
        }),
{
    let s = channels.skip(i);
    assert(s[0] == channels[i]);
    assert(s.drop_first() =~= channels.skip(i + 1));
}

} // verus!
