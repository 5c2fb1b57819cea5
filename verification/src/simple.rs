//! The resource chain: Context, ImageHandle, Image, Plane, Pixels.
//!
//! Ownership is tree-shaped and borrowing is exclusive and nested: a handle
//! borrows its context, a decoded image borrows its handle, a plane borrows
//! its image, and a pixel view borrows its plane. Each navigation method
//! takes the parent mutably, so no two live views contend for one resource,
//! and no child can outlive the resource it reads from. The values behind
//! the chain are the plain records of `crate::model`, so releasing a link
//! frees nothing foreign here — it merely ends the borrow.

use vstd::bytes::spec_u32_from_le_bytes;
use vstd::bytes::u32_from_le_bytes;
use vstd::pervasive::unreached;
use vstd::prelude::*;
use vstd::slice::slice_subrange;

use crate::dims::dim_to_usize;
use crate::error::ErrorRecord;
use crate::error::HeifError;
use crate::error::check_error;
use crate::kinds::Channel;
use crate::kinds::DecoderSettings;
use crate::model::Container;
use crate::model::ImageSource;
use crate::model::PlaneData;
use crate::model::Raster;
use crate::model::ReadReport;
use crate::model::find_channel;
use crate::model::find_raster;
use crate::model::lemma_find_channel_skip;
use crate::model::lemma_find_raster_skip;

verus! {

/// The code in the diagnostic reported when the container records no
/// primary image.
pub const NO_PRIMARY_IMAGE_CODE: i32 = 1;

/// The code in the diagnostic reported when the decoder cannot produce the
/// requested settings combination from the source.
pub const UNSUPPORTED_SETTINGS_CODE: i32 = 2;

/// One open decoding session: the root of the resource chain, holding the
/// session content for its entire lifetime.
pub struct Context {
    container: Container,
}

impl View for Context {
    type V = Container;

    closed spec fn view(&self) -> Container {
        self.container
    }
}

/// A reference to one image within the session. Holding it borrows the
/// context exclusively, so the session cannot be dropped or reopened while
/// the handle is alive.
pub struct ImageHandle<'c> {
    source: &'c ImageSource,
}

impl<'c> View for ImageHandle<'c> {
    type V = ImageSource;

    closed spec fn view(&self) -> ImageSource {
        *self.source
    }
}

/// One decoded raster. It borrows the handle it was decoded from
/// exclusively, so the handle (and with it the session) stays put for the
/// image's whole life.
pub struct Image<'h> {
    raster: &'h Raster,
}

impl<'h> View for Image<'h> {
    type V = Raster;

    closed spec fn view(&self) -> Raster {
        *self.raster
    }
}

/// One channel's geometry inside a decoded image, exclusively borrowing the
/// image. Width, height and the byte width of one sample are fetched and
/// checked once, at selection time, and stay fixed for the plane's life.
pub struct Plane<'i> {
    raster: &'i Raster,
    channel: Channel,
    width: usize,
    height: usize,
    channel_bytes: usize,
}

impl<'i> Plane<'i> {
    /// The raster this plane reads from.
    pub closed spec fn spec_raster(&self) -> Raster {
        *self.raster
    }

    /// The channel this plane selects.
    pub closed spec fn spec_channel(&self) -> Channel {
        self.channel
    }

    /// The width cached at selection time.
    pub closed spec fn spec_width(&self) -> usize {
        self.width
    }

    /// The height cached at selection time.
    pub closed spec fn spec_height(&self) -> usize {
        self.height
    }

    /// The byte width of one sample, cached at selection time.
    pub closed spec fn spec_channel_bytes(&self) -> usize {
        self.channel_bytes
    }

    /// The raster records the selected channel, and the cached geometry is
    /// exactly what it records there.
    #[verifier::type_invariant]
    spec fn inv(&self) -> bool {
        match find_channel(self.raster.channels@, self.channel) {
            Some(cd) => cd.width >= 0 && cd.height >= 0 && cd.channel_bytes >= 0 && self.width
                == cd.width as usize && self.height == cd.height as usize && self.channel_bytes
                == cd.channel_bytes as usize,
            None => false,
        }
    }
}

impl Context {
    /// Opens a session over what the foreign allocator and read call
    /// reported: no session at all is an allocation failure, a non-zero read
    /// record is bridged to `Decode` verbatim, and a clean read yields the
    /// context holding the container.
    pub fn open(session: Option<ReadReport>) -> (r: Result<Context, HeifError>)
        ensures
            session is None ==> r == Err::<Context, HeifError>(HeifError::Allocation),
            session matches Some(rep) ==> {
                &&& rep.record.code != 0 ==> (r matches Err(
                    HeifError::Decode { code, subcode, message },
                ) && code == rep.record.code && subcode == rep.record.subcode && message
                    == rep.record.message)
                &&& rep.record.code == 0 ==> (r matches Ok(ctx) && ctx@ == rep.container)
            },
    {
        match session {
            None => Err(HeifError::Allocation),
            Some(rep) => match check_error(rep.record) {
                Err(e) => Err(e),
                Ok(()) => Ok(Context { container: rep.container }),
            },
        }
    }

    /// Looks up the container's designated primary image. A container that
    /// records none yields a `Decode` failure carrying
    /// `NO_PRIMARY_IMAGE_CODE` — never a dangling handle.
    pub fn get_primary_image<'s>(&'s mut self) -> (r: Result<ImageHandle<'s>, HeifError>)
        ensures
            *final(self) == *old(self),
            old(self)@.primary matches Some(src) ==> (r matches Ok(h) && h@ == src),
            old(self)@.primary is None ==> (r matches Err(
                HeifError::Decode { code, subcode, message },
            ) && code == NO_PRIMARY_IMAGE_CODE && subcode == 0 && message@
                == "no primary image recorded"@),
    {
        match &self.container.primary {
            Some(src) => Ok(ImageHandle { source: src }),
            None => {
                let record = ErrorRecord {
                    code: NO_PRIMARY_IMAGE_CODE,
                    subcode: 0,
                    message: String::from_str("no primary image recorded"),
                };
                match check_error(record) {
                    Err(e) => Err(e),
                    Ok(()) => unreached(),
                }
            },
        }
    }
}

impl<'c> ImageHandle<'c> {
    /// The addressed image's width as the foreign layer reports it, checked
    /// against the host's size type.
    pub fn width(&self) -> (r: Result<usize, HeifError>)
        ensures
            self@.width >= 0 ==> r == Ok::<usize, HeifError>(self@.width as usize),
            self@.width < 0 ==> r == Err::<usize, HeifError>(HeifError::Range),
    {
        dim_to_usize(self.source.width)
    }

    /// The addressed image's height as the foreign layer reports it, checked
    /// against the host's size type.
    pub fn height(&self) -> (r: Result<usize, HeifError>)
        ensures
            self@.height >= 0 ==> r == Ok::<usize, HeifError>(self@.height as usize),
            self@.height < 0 ==> r == Err::<usize, HeifError>(HeifError::Range),
    {
        dim_to_usize(self.source.height)
    }

    /// Decodes the addressed image under `settings`. A combination the
    /// decoder cannot produce from this source yields a `Decode` failure
    /// carrying `UNSUPPORTED_SETTINGS_CODE`.
    pub fn decode<'s>(&'s mut self, settings: DecoderSettings) -> (r: Result<
        Image<'s>,
        HeifError,
    >)
        ensures
            *final(self) == *old(self),
            find_raster(old(self)@.rasters@, settings) matches Some(ra) ==> (r matches Ok(img)
                && img@ == ra),
            find_raster(old(self)@.rasters@, settings) is None ==> (r matches Err(
                HeifError::Decode { code, subcode, message },
            ) && code == UNSUPPORTED_SETTINGS_CODE && subcode == 0 && message@
                == "no raster recorded for the requested settings"@),
    {
        let src: &ImageSource = self.source;
        let n = src.rasters.len();
        let mut i: usize = 0;
        proof {
            assert(src.rasters@.skip(0) =~= src.rasters@);
        }
        while i < n
            invariant
                *self == *old(self),
                src == old(self).source,
                n == src.rasters@.len(),
                i <= n,
                find_raster(src.rasters@, settings) == find_raster(
                    src.rasters@.skip(i as int),
                    settings,
                ),
            decreases n - i,
        {
            proof {
                lemma_find_raster_skip(src.rasters@, settings, i as int);
            }
            let entry = &src.rasters[i];
            if entry.0 == settings {
                return Ok(Image { raster: &entry.1 });
            }
            i += 1;
        }
        proof {
            assert(src.rasters@.skip(n as int) =~= Seq::<(DecoderSettings, Raster)>::empty());
        }
        let record = ErrorRecord {
            code: UNSUPPORTED_SETTINGS_CODE,
            subcode: 0,
            message: String::from_str("no raster recorded for the requested settings"),
        };
        match check_error(record) {
            Err(e) => Err(e),
            Ok(()) => unreached(),
        }
    }
}

impl<'h> Image<'h> {
    /// Selects one channel of the decoded raster. A channel the raster does
    /// not contain is `NoSuchChannel`; a reported dimension or sample byte
    /// width that does not fit the host's size type is `Range`. Geometry is
    /// cached in the plane at selection time and never re-queried.
    pub fn plane<'s>(&'s mut self, channel: Channel) -> (r: Result<Plane<'s>, HeifError>)
        ensures
            *final(self) == *old(self),
            find_channel(old(self)@.channels@, channel) is None ==> (r matches Err(e) && e
                == HeifError::NoSuchChannel),
            find_channel(old(self)@.channels@, channel) matches Some(cd) ==> {
                &&& (cd.width < 0 || cd.height < 0 || cd.channel_bytes < 0) ==> (r matches Err(e)
                    && e == HeifError::Range)
                &&& (cd.width >= 0 && cd.height >= 0 && cd.channel_bytes >= 0) ==> (r matches Ok(p)
                    && p.spec_raster() == old(self)@ && p.spec_channel() == channel
                    && p.spec_width() == cd.width as usize && p.spec_height() == cd.height as usize
                    && p.spec_channel_bytes() == cd.channel_bytes as usize)
            },
    {
        let ra: &Raster = self.raster;
        let n = ra.channels.len();
        let mut i: usize = 0;
        proof {
            assert(ra.channels@.skip(0) =~= ra.channels@);
        }
        while i < n
            invariant
                *self == *old(self),
                ra == old(self).raster,
                n == ra.channels@.len(),
                i <= n,
                find_channel(ra.channels@, channel) == find_channel(
                    ra.channels@.skip(i as int),
                    channel,
                ),
            decreases n - i,
        {
            proof {
                lemma_find_channel_skip(ra.channels@, channel, i as int);
            }
            let cd = &ra.channels[i];
            if cd.channel == channel {
                let width = match dim_to_usize(cd.width) {
                    Ok(w) => w,
                    Err(e) => return Err(e),
                };
                let height = match dim_to_usize(cd.height) {
                    Ok(h) => h,
                    Err(e) => return Err(e),
                };
                let channel_bytes = match dim_to_usize(cd.channel_bytes) {
                    Ok(b) => b,
                    Err(e) => return Err(e),
                };
                return Ok(Plane { raster: ra, channel, width, height, channel_bytes });
            }
            i += 1;
        }
        proof {
            assert(ra.channels@.skip(n as int) =~= Seq::<PlaneData>::empty());
        }
        Err(HeifError::NoSuchChannel)
    }
}

impl<'i> Plane<'i> {
    /// Cached width, constant for the plane's life.
    pub fn width(&self) -> (r: usize)
        ensures
            r == self.spec_width(),
    {
        self.width
    }

    /// Cached height, constant for the plane's life.
    pub fn height(&self) -> (r: usize)
        ensures
            r == self.spec_height(),
    {
        self.height
    }

    /// The foreign layer's buffer contract for this plane: when the channel
    /// records a buffer and its stride fits the host's size type, the stride
    /// covers one row and the buffer covers `height` rows of `stride` bytes.
    /// The foreign decoder promises this of every buffer it hands out; a
    /// record that breaks it is a foreign contract breach, not a recoverable
    /// input, so a pixel view is only formed under it.
    pub open spec fn buffer_contract(&self) -> bool {
        match find_channel(self.spec_raster().channels@, self.spec_channel()) {
            Some(cd) => match cd.samples {
                Some(buf) => cd.stride >= 0 ==> {
                    &&& cd.stride as int >= self.spec_width() as int
                    &&& buf@.len() >= cd.stride as int * self.spec_height() as int
                },
                None => true,
            },
            None => true,
        }
    }

    /// Obtains the read-only sample buffer and its row stride. A channel
    /// whose buffer the foreign layer did not produce is `BufferUnavailable`
    /// — never an empty-but-valid view; a stride that does not fit the
    /// host's size type is `Range`. Every view obtained here satisfies
    /// `stride >= width`.
    pub fn pixels<'s>(&'s mut self) -> (r: Result<Pixels<'i, 's>, HeifError>)
        requires
            old(self).buffer_contract(),
        ensures
            *final(self) == *old(self),
            find_channel(
                old(self).spec_raster().channels@,
                old(self).spec_channel(),
            ) matches Some(cd) ==> {
                &&& cd.samples is None ==> (r matches Err(e) && e == HeifError::BufferUnavailable)
                &&& cd.samples matches Some(buf) ==> {
                    &&& cd.stride < 0 ==> (r matches Err(e) && e == HeifError::Range)
                    &&& cd.stride >= 0 ==> (r matches Ok(px) && px.spec_plane() == *old(self)
                        && px.spec_stride() == cd.stride as usize && px.spec_data() == buf@)
                }
            },
            r matches Ok(px) ==> px.spec_stride() >= old(self).spec_width(),
    {
        let channel = self.channel;
        let ra: &Raster = self.raster;
        let n = ra.channels.len();
        let mut i: usize = 0;
        proof {
            assert(ra.channels@.skip(0) =~= ra.channels@);
        }
        while i < n
            invariant
                *self == *old(self),
                ra == old(self).raster,
                channel == old(self).channel,
                n == ra.channels@.len(),
                i <= n,
                old(self).buffer_contract(),
                find_channel(ra.channels@, channel) == find_channel(
                    ra.channels@.skip(i as int),
                    channel,
                ),
            decreases n - i,
        {
            proof {
                lemma_find_channel_skip(ra.channels@, channel, i as int);
            }
            let cd = &ra.channels[i];
            if cd.channel == channel {
                proof {
                    use_type_invariant(&*self);
                }
                match &cd.samples {
                    None => return Err(HeifError::BufferUnavailable),
                    Some(buf) => {
                        let stride = match dim_to_usize(cd.stride) {
                            Ok(s) => s,
                            Err(e) => return Err(e),
                        };
                        if stride < self.width {
                            return unreached();
                        }
                        return Ok(Pixels { plane: &*self, stride, data: buf.as_slice() });
                    },
                }
            }
            i += 1;
        }
        proof {
            assert(ra.channels@.skip(n as int) =~= Seq::<PlaneData>::empty());
            use_type_invariant(&*self);
            assert(false);
        }
        unreached()
    }
}

/// A read-only view of one channel's sample buffer, exclusively borrowing
/// its plane. Rows are `stride` bytes apart, and reads are zero-copy views
/// of the buffer, valid exactly as long as the chain above them.
pub struct Pixels<'i, 'p> {
    plane: &'p Plane<'i>,
    stride: usize,
    data: &'p [u8],
}

impl<'i, 'p> Pixels<'i, 'p> {
    /// The plane this view reads.
    pub closed spec fn spec_plane(&self) -> Plane<'i> {
        *self.plane
    }

    /// The row stride in bytes.
    pub closed spec fn spec_stride(&self) -> usize {
        self.stride
    }

    /// The sample buffer.
    pub closed spec fn spec_data(&self) -> Seq<u8> {
        self.data@
    }

    /// Width, borrowed from the plane.
    pub open spec fn spec_width(&self) -> usize {
        self.spec_plane().spec_width()
    }

    /// Height, borrowed from the plane.
    pub open spec fn spec_height(&self) -> usize {
        self.spec_plane().spec_height()
    }

    /// The byte width of one sample, borrowed from the plane.
    pub open spec fn spec_channel_bytes(&self) -> usize {
        self.spec_plane().spec_channel_bytes()
    }

    /// The stride covers one row of samples, and the buffer covers `height`
    /// rows of `stride` bytes.
    #[verifier::type_invariant]
    spec fn inv(&self) -> bool {
        &&& self.stride >= self.plane.width
        &&& self.data@.len() >= self.stride as int * self.plane.height as int
    }

    /// One row: exactly `stride` bytes starting at `y * stride`. Requesting
    /// a row at or past `height` is a caller fault, distinct from a bad-input
    /// `Err`: below the precondition it faults rather than read out of range.
    pub fn get_row(&self, y: usize) -> (r: &[u8])
        requires
            y < self.spec_height(),
        ensures
            r@.len() == self.spec_stride(),
            r@ == self.spec_data().subrange(
                y as int * self.spec_stride() as int,
                y as int * self.spec_stride() as int + self.spec_stride() as int,
            ),
    {
        let len = self.data.len();
        proof {
            use_type_invariant(&*self);
            assert(y as int * self.stride as int + self.stride as int <= len as int)
                by (nonlinear_arith)
                requires
                    y as int + 1 <= self.plane.height as int,
                    self.stride as int >= 0,
                    self.stride as int * self.plane.height as int <= len as int,
            ;
        }
        if y >= self.plane.height {
            return unreached();
        }
        let start = y * self.stride;
        let end = start + self.stride;
        slice_subrange(self.data, start, end)
    }

    /// The packed value at one coordinate: four bytes, least significant
    /// first, starting at `stride * y + channel_bytes * x`, where
    /// `channel_bytes` is the byte width the foreign layer reported for the
    /// channel. Coordinates at or past the plane's geometry are a caller
    /// fault, and the four bytes read must lie within one row.
    pub fn get_four(&self, x: usize, y: usize) -> (r: u32)
        requires
            x < self.spec_width(),
            y < self.spec_height(),
            x as int * self.spec_channel_bytes() as int + 4 <= self.spec_stride() as int,
        ensures
            r == spec_u32_from_le_bytes(
                self.spec_data().subrange(
                    y as int * self.spec_stride() as int + x as int * self.spec_channel_bytes()
                        as int,
                    y as int * self.spec_stride() as int + x as int * self.spec_channel_bytes()
                        as int + 4,
                ),
            ),
    {
        let len = self.data.len();
        proof {
            use_type_invariant(&*self);
            assert(0 <= y as int * self.stride as int && 0 <= x as int
                * self.plane.channel_bytes as int && y as int * self.stride as int + x as int
                * self.plane.channel_bytes as int + 4 <= len as int) by (nonlinear_arith)
                requires
                    y as int + 1 <= self.plane.height as int,
                    x as int * self.plane.channel_bytes as int + 4 <= self.stride as int,
                    self.stride as int * self.plane.height as int <= len as int,
                    self.stride as int >= 0,
                    x as int >= 0,
                    y as int >= 0,
                    self.plane.channel_bytes as int >= 0,
            ;
        }
        if x >= self.plane.width {
            return unreached();
        }
        if y >= self.plane.height {
            return unreached();
        }
        let start = y * self.stride + x * self.plane.channel_bytes;
        let four = slice_subrange(self.data, start, start + 4);
        u32_from_le_bytes(four)
    }
}

/// Selecting the same channel from the same image twice yields planes with
/// identical geometry: any two planes over equal rasters and equal channels
/// — however and whenever obtained — carry equal width and height, because
/// each plane's cached geometry is pinned to the channel's record in the
/// raster. The body computes nothing; the contract is the statement, proved
/// of every pair of planes that exists.
pub fn lemma_plane_selection_idempotent<'a, 'b>(p1: &Plane<'a>, p2: &Plane<'b>)
    requires
        p1.spec_raster() == p2.spec_raster(),
        p1.spec_channel() == p2.spec_channel(),
    ensures
        p1.spec_width() == p2.spec_width(),
        p1.spec_height() == p2.spec_height(),
{
    proof {
        use_type_invariant(&*p1);
        use_type_invariant(&*p2);
    }
}

/// Every pixel view that exists satisfies the buffer invariant: its stride
/// covers the plane's width, and its buffer covers `height` rows of
/// `stride` bytes — so a row of `stride` bytes never reaches out of range.
/// The body computes nothing; the contract is the statement, proved of
/// every pixel view that exists.
pub fn lemma_pixels_invariant<'i, 'p>(px: &Pixels<'i, 'p>)
    ensures
        px.spec_stride() >= px.spec_width(),
        px.spec_data().len() >= px.spec_stride() as int * px.spec_height() as int,
{
    proof {
        use_type_invariant(&*px);
    }
}

/// For every session whose read reported success, whose container records a
/// primary image, and whose primary source records a raster for `settings`,
/// the whole chain succeeds: every context `open` may hand out satisfies the
/// success condition of `get_primary_image`, and every handle that lookup
/// may hand out satisfies the success condition of `decode` — so opening,
/// looking up the primary image, and decoding all yield `Ok`.
pub proof fn lemma_chain_succeeds<'c>(rep: ReadReport, settings: DecoderSettings)
    requires
        rep.record.code == 0,
        rep.container.primary matches Some(src) && find_raster(src.rasters@, settings) is Some,
    ensures
        forall|ctx: Context| #![trigger ctx@] ctx@ == rep.container ==> ctx@.primary is Some,
        forall|h: ImageHandle<'c>| #![trigger h@]
            (rep.container.primary matches Some(src) && h@ == src) ==> find_raster(
                h@.rasters@,
                settings,
            ) is Some,
{
}

} // verus!
