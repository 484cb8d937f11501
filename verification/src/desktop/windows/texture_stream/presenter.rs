//! Presenting frames through a pool of textures.
use crate::desktop::windows::texture_stream;
use crate::desktop::windows::texture_stream::targets;
use crate::desktop::windows::texture_stream::targets::DrawTarget;
use crate::desktop::windows::texture_stream::targets::Found;
use crate::desktop::windows::texture_stream::targets::Reclaimed;
use crate::desktop::windows::texture_stream::texture_error;
use crate::error;
use crate::error::Error;
use crate::error::Failure;
use crate::latch::Latch;
use crate::text;
use vstd::prelude::*;

verus! {

/// How many textures a pool holds.
pub const MAX_TEXTURES: u32 = 4;

/// A native call on the way to a texture stream or a frame on it.
#[derive(Clone, Copy, Debug, PartialEq, Eq, Structural)]
pub enum NativeStep {
    QueryTextureStreams,
    QueryAdapter,
    QueryDeviceIdentity,
    CreateStream,
    QueryTextureMutex,
    AcquireTexture,
    ReleaseTexture,
    RetireTexture,
    AllocateTexture,
}

impl NativeStep {
    /// What the call is to do.
    pub open spec fn purpose(self) -> Seq<char> {
        match self {
            NativeStep::QueryTextureStreams => "query WebView2 TextureStream support"@,
            NativeStep::QueryAdapter => "query the WebView2 render adapter"@,
            NativeStep::QueryDeviceIdentity => "query the D3D11 device identity"@,
            NativeStep::CreateStream => "create the WebView2 texture stream"@,
            NativeStep::QueryTextureMutex => "query the WebView2 texture mutex"@,
            NativeStep::AcquireTexture => "acquire the WebView2 texture"@,
            NativeStep::ReleaseTexture => "release the WebView2 texture"@,
            NativeStep::RetireTexture => "retire an old WebView2 video texture"@,
            NativeStep::AllocateTexture => "allocate a WebView2 video texture"@,
        }
    }

    /// The error of the call, by what it said.
    pub fn error(self, detail: &str) -> (error: Error)
        ensures
            error@ == texture_stream::texture_failure(self.purpose(), detail@),
    {
        let context = match self {
            NativeStep::QueryTextureStreams => "query WebView2 TextureStream support",
            NativeStep::QueryAdapter => "query the WebView2 render adapter",
            NativeStep::QueryDeviceIdentity => "query the D3D11 device identity",
            NativeStep::CreateStream => "create the WebView2 texture stream",
            NativeStep::QueryTextureMutex => "query the WebView2 texture mutex",
            NativeStep::AcquireTexture => "acquire the WebView2 texture",
            NativeStep::ReleaseTexture => "release the WebView2 texture",
            NativeStep::RetireTexture => "retire an old WebView2 video texture",
            NativeStep::AllocateTexture => "allocate a WebView2 video texture",
        };
        texture_error(context, detail)
    }
}

/// The UTF-16 units of a character.
pub open spec fn units(c: char) -> Seq<u16> {
    let code = c as int;
    if code < 0x1_0000 {
        seq![code as u16]
    } else {
        seq![
            (0xd800 + (code - 0x1_0000) / 0x400) as u16,
            (0xdc00 + (code - 0x1_0000) % 0x400) as u16,
        ]
    }
}

/// The UTF-16 units of a text.
pub open spec fn utf16(text: Seq<char>) -> Seq<u16>
    decreases text.len(),
{
    if text.len() == 0 {
        Seq::empty()
    } else {
        utf16(text.drop_last()) + units(text.last())
    }
}

/// Adds the UTF-16 units of a character to a list.
fn push_units(list: &mut Vec<u16>, c: char)
    ensures
        final(list)@ == old(list)@ + units(c),
{
    let ghost earlier = list@;
    let code: u32 = c as u32;
    if code < 0x1_0000 {
        list.push(code as u16);
    } else {
        list.push((0xd800 + (code - 0x1_0000) / 0x400) as u16);
        list.push((0xdc00 + (code - 0x1_0000) % 0x400) as u16);
    }
    assert(list@ =~= earlier + units(c));
}

/// A text as the system takes it: in UTF-16, with a zero behind it.
pub fn wide(value: &str) -> (list: Vec<u16>)
    ensures
        list@ == utf16(value@).push(0),
{
    let letters = text::characters(value);
    let mut list: Vec<u16> = Vec::new();
    let mut i: usize = 0;
    while i < letters.len()
        invariant
            i <= letters@.len(),
            letters@ == value@,
            list@ == utf16(value@.take(i as int)),
        decreases letters@.len() - i,
    {
        let c = letters[i];
        proof {
            assert(value@.take(i + 1).drop_last() =~= value@.take(i as int));
            assert(value@.take(i + 1).last() == c);
        }
        push_units(&mut list, c);
        i = i + 1;
    }
    assert(value@.take(i as int) =~= value@);
    list.push(0);
    list
}

/// A step on the way to a texture stream.
#[derive(Debug)]
pub enum SetupStep {
    QueryTextureStreams,
    QueryAdapter,
    /// Make a device on that adapter.
    MakeDevice,
    QueryDeviceIdentity,
    /// Create the stream of a name, for the device.
    CreateStream { name: Vec<u16> },
    /// Let the page of an origin read the stream, and perhaps send textures
    /// back.
    AllowOrigin { origin: Vec<u16>, allow_web_texture: bool },
}

/// What a [`SetupStep`] says.
pub enum Setup {
    QueryTextureStreams,
    QueryAdapter,
    MakeDevice,
    QueryDeviceIdentity,
    CreateStream { name: Seq<u16> },
    AllowOrigin { origin: Seq<u16>, allow_web_texture: bool },
}

impl View for SetupStep {
    type V = Setup;

    open spec fn view(&self) -> Setup {
        match self {
            SetupStep::QueryTextureStreams => Setup::QueryTextureStreams,
            SetupStep::QueryAdapter => Setup::QueryAdapter,
            SetupStep::MakeDevice => Setup::MakeDevice,
            SetupStep::QueryDeviceIdentity => Setup::QueryDeviceIdentity,
            SetupStep::CreateStream { name } => Setup::CreateStream { name: name@ },
            SetupStep::AllowOrigin { origin, allow_web_texture } => Setup::AllowOrigin {
                origin: origin@,
                allow_web_texture: *allow_web_texture,
            },
        }
    }
}

/// What each step says.
pub open spec fn setups(list: Seq<SetupStep>) -> Seq<Setup> {
    list.map_values(|step: SetupStep| step@)
}

/// A page may read the stream, and not send textures back.
pub open spec fn reader(origin: Seq<char>) -> Setup {
    Setup::AllowOrigin { origin: utf16(origin).push(0), allow_web_texture: false }
}

/// The steps to a texture stream, in order. Behind them it can be read by the
/// page of the application, in development and in every form in which it is
/// shipped.
pub open spec fn setting_up(stream_id: Seq<char>) -> Seq<Setup> {
    seq![
        Setup::QueryTextureStreams,
        Setup::QueryAdapter,
        Setup::MakeDevice,
        Setup::QueryDeviceIdentity,
        Setup::CreateStream { name: utf16(stream_id).push(0) },
        reader("http://localhost:1420"@),
        reader("http://tauri.localhost"@),
        reader("https://tauri.localhost"@),
        reader("tauri://localhost"@),
    ]
}

/// The failure of a step to a texture stream; `None` for one that may fail.
pub open spec fn setup_failure(step: Setup, detail: Seq<char>) -> Option<Failure> {
    match step {
        Setup::QueryTextureStreams => Some(
            texture_stream::texture_failure(NativeStep::QueryTextureStreams.purpose(), detail),
        ),
        Setup::QueryAdapter => Some(
            texture_stream::texture_failure(NativeStep::QueryAdapter.purpose(), detail),
        ),
        Setup::MakeDevice => Some(Failure::Pipeline(detail)),
        Setup::QueryDeviceIdentity => Some(
            texture_stream::texture_failure(NativeStep::QueryDeviceIdentity.purpose(), detail),
        ),
        Setup::CreateStream { .. } => Some(
            texture_stream::texture_failure(NativeStep::CreateStream.purpose(), detail),
        ),
        Setup::AllowOrigin { .. } => None,
    }
}

/// Takes note of how a step to a texture stream went. The first that fails
/// ends the way, but for an origin that cannot be allowed.
pub fn setup_step_taken(step: &SetupStep, outcome: Result<(), String>) -> (result: Result<
    (),
    Error,
>)
    ensures
        match outcome {
            Ok(_) => result is Ok,
            Err(detail) => error::answers(result, setup_failure(step@, detail@)),
        },
{
    match outcome {
        Ok(_) => Ok(()),
        Err(detail) => match step {
            SetupStep::QueryTextureStreams => Err(
                NativeStep::QueryTextureStreams.error(detail.as_str()),
            ),
            SetupStep::QueryAdapter => Err(NativeStep::QueryAdapter.error(detail.as_str())),
            SetupStep::MakeDevice => Err(Error::Pipeline(detail)),
            SetupStep::QueryDeviceIdentity => Err(
                NativeStep::QueryDeviceIdentity.error(detail.as_str()),
            ),
            SetupStep::CreateStream { .. } => Err(NativeStep::CreateStream.error(detail.as_str())),
            SetupStep::AllowOrigin { .. } => Ok(()),
        },
    }
}

fn allow_reader(origin: &str) -> (step: SetupStep)
    ensures
        step@ == reader(origin@),
{
    SetupStep::AllowOrigin { origin: wide(origin), allow_web_texture: false }
}

/// What a frame must have before it can be copied.
#[derive(Clone, Copy, Debug, PartialEq, Eq, Structural)]
pub enum SampleNeed {
    Buffer,
    Memory,
    DeviceMemory,
    Mapping,
    Texture,
}

/// The failure of a frame that lacks something.
pub open spec fn sample_failure(need: SampleNeed) -> Failure {
    match need {
        SampleNeed::Buffer => Failure::Pipeline("Windows video sample has no buffer"@),
        SampleNeed::Memory => Failure::Pipeline("Windows video sample has no D3D11 memory"@),
        SampleNeed::DeviceMemory => Failure::Pipeline(
            "Windows video sample did not negotiate D3D11Memory"@,
        ),
        SampleNeed::Mapping => Failure::Pipeline("could not map GStreamer D3D11 memory"@),
        SampleNeed::Texture => Failure::Pipeline("GStreamer returned no D3D11 texture"@),
    }
}

/// What a frame must have, in the order in which it is looked for.
pub open spec fn sample_needs() -> Seq<SampleNeed> {
    seq![
        SampleNeed::Buffer,
        SampleNeed::Memory,
        SampleNeed::DeviceMemory,
        SampleNeed::Mapping,
        SampleNeed::Texture,
    ]
}

/// What a frame must have, in the order in which it is looked for.
pub fn needs() -> (list: Vec<SampleNeed>)
    ensures
        list@ == sample_needs(),
{
    let mut list: Vec<SampleNeed> = Vec::new();
    list.push(SampleNeed::Buffer);
    list.push(SampleNeed::Memory);
    list.push(SampleNeed::DeviceMemory);
    list.push(SampleNeed::Mapping);
    list.push(SampleNeed::Texture);
    assert(list@ =~= sample_needs());
    list
}

/// Takes note of whether a frame has what it must.
pub fn need_met(need: SampleNeed, met: bool) -> (result: Result<(), Error>)
    ensures
        error::answers(
            result,
            if met {
                None
            } else {
                Some(sample_failure(need))
            },
        ),
{
    if met {
        return Ok(());
    }
    match need {
        SampleNeed::Buffer => Err(Error::pipeline("Windows video sample has no buffer")),
        SampleNeed::Memory => Err(Error::pipeline("Windows video sample has no D3D11 memory")),
        SampleNeed::DeviceMemory => Err(
            Error::pipeline("Windows video sample did not negotiate D3D11Memory"),
        ),
        SampleNeed::Mapping => Err(Error::pipeline("could not map GStreamer D3D11 memory")),
        SampleNeed::Texture => Err(Error::pipeline("GStreamer returned no D3D11 texture")),
    }
}

/// A step of copying a frame to a texture.
#[derive(Clone, Copy, Debug, PartialEq, Eq, Structural)]
pub enum CopyStep {
    QueryMutex,
    /// Take the texture from the web view.
    Acquire { key: u64, timeout_ms: u32 },
    LockDevice,
    CopyWhole,
    CopyPart { subresource: u32 },
    Flush,
    UnlockDevice,
    /// Give the texture back.
    Release { key: u64 },
}

/// The steps that copy a frame, in order. Only a part of a larger texture is
/// copied when the frame lies in one.
pub open spec fn copying(subresource: u32) -> Seq<CopyStep> {
    seq![
        CopyStep::QueryMutex,
        CopyStep::Acquire { key: 0, timeout_ms: 1_000 },
        CopyStep::LockDevice,
        if subresource == 0 {
            CopyStep::CopyWhole
        } else {
            CopyStep::CopyPart { subresource }
        },
        CopyStep::Flush,
        CopyStep::UnlockDevice,
        CopyStep::Release { key: 0 },
    ]
}

/// The call behind a step, when it is one that can fail.
pub open spec fn fallible(step: CopyStep) -> Option<NativeStep> {
    match step {
        CopyStep::QueryMutex => Some(NativeStep::QueryTextureMutex),
        CopyStep::Acquire { .. } => Some(NativeStep::AcquireTexture),
        CopyStep::Release { .. } => Some(NativeStep::ReleaseTexture),
        _ => None,
    }
}

/// Whatever fails, the device is unlocked again: nothing can fail from its
/// lock up to its unlock, and both are always among the steps. A texture that
/// was acquired is released for the same reason.
pub proof fn locks_are_undone(subresource: u32, at: int)
    requires
        0 <= at < copying(subresource).len(),
    ensures
        copying(subresource)[1] is Acquire,
        copying(subresource)[2] == CopyStep::LockDevice,
        copying(subresource)[5] == CopyStep::UnlockDevice,
        copying(subresource)[6] is Release,
        2 <= at <= 5 ==> fallible(copying(subresource)[at]) is None,
{
}

/// The steps that copy a frame.
pub fn copy_sample(subresource: u32) -> (steps: Vec<CopyStep>)
    ensures
        steps@ == copying(subresource),
{
    let mut steps: Vec<CopyStep> = Vec::new();
    steps.push(CopyStep::QueryMutex);
    steps.push(CopyStep::Acquire { key: 0, timeout_ms: 1_000 });
    steps.push(CopyStep::LockDevice);
    if subresource == 0 {
        steps.push(CopyStep::CopyWhole);
    } else {
        steps.push(CopyStep::CopyPart { subresource });
    }
    steps.push(CopyStep::Flush);
    steps.push(CopyStep::UnlockDevice);
    steps.push(CopyStep::Release { key: 0 });
    assert(steps@ =~= copying(subresource));
    steps
}

/// Takes note of how a step went. The steps that cannot fail are not asked.
pub fn copy_step_taken(step: CopyStep, outcome: Result<(), String>) -> (result: Result<(), Error>)
    ensures
        match (outcome, fallible(step)) {
            (Err(detail), Some(call)) => error::fails(
                result,
                texture_stream::texture_failure(call.purpose(), detail@),
            ),
            _ => result is Ok,
        },
{
    match outcome {
        Ok(_) => Ok(()),
        Err(detail) => match step {
            CopyStep::QueryMutex => Err(NativeStep::QueryTextureMutex.error(detail.as_str())),
            CopyStep::Acquire { .. } => Err(NativeStep::AcquireTexture.error(detail.as_str())),
            CopyStep::Release { .. } => Err(NativeStep::ReleaseTexture.error(detail.as_str())),
            _ => Ok(()),
        },
    }
}

/// A call of the job that presents a frame.
#[derive(Clone, Copy, Debug, PartialEq, Eq, Structural)]
pub enum PresentCall {
    /// Give the texture the time at which it is to be seen.
    SetTimestamp { nanoseconds: u64 },
    PresentTexture,
}

/// The calls that present a frame, in order.
pub open spec fn presenting(timestamp_ns: u64) -> Seq<PresentCall> {
    seq![PresentCall::SetTimestamp { nanoseconds: timestamp_ns }, PresentCall::PresentTexture]
}

/// The job that presents a frame. It is dispatched once, and all of its calls
/// are made in it, on the thread of the web view.
#[derive(Debug)]
pub struct Presentation<T, R> {
    pub target: DrawTarget<T, R>,
    pub calls: Vec<PresentCall>,
    /// How many of the calls have succeeded.
    pub taken: usize,
}

/// What a [`Presentation`] holds.
pub struct Showing<T, R> {
    pub target: DrawTarget<T, R>,
    pub calls: Seq<PresentCall>,
    pub taken: int,
}

impl<T, R> View for Presentation<T, R> {
    type V = Showing<T, R>;

    open spec fn view(&self) -> Showing<T, R> {
        Showing { target: self.target, calls: self.calls@, taken: self.taken as int }
    }
}

impl<T, R> Presentation<T, R> {
    /// The call that is to be made next; `None` when all are made.
    pub fn next(&self) -> (call: Option<PresentCall>)
        ensures
            call == if self.taken < self.calls@.len() {
                Some(self.calls@[self.taken as int])
            } else {
                None
            },
    {
        if self.taken < self.calls.len() {
            Some(self.calls[self.taken])
        } else {
            None
        }
    }
}

/// What follows a call of the job that presents a frame.
#[derive(Debug)]
pub enum Presented<T, R> {
    /// The next call.
    Next(Presentation<T, R>),
    /// The textures that the web view has given back are to be reclaimed.
    Reclaim,
    /// Nothing; the texture is free again.
    Returned,
}

/// What a [`Presented`] says.
pub enum Following<T, R> {
    Next(Showing<T, R>),
    Reclaim,
    Returned,
}

impl<T, R> View for Presented<T, R> {
    type V = Following<T, R>;

    open spec fn view(&self) -> Following<T, R> {
        match self {
            Presented::Next(job) => Following::Next(job@),
            Presented::Reclaim => Following::Reclaim,
            Presented::Returned => Following::Returned,
        }
    }
}

/// The free textures behind a call of the job, and what follows it. The first
/// call that fails ends the job, and its texture is free again.
pub open spec fn behind_present_call<T, R>(
    free: Seq<DrawTarget<T, R>>,
    job: Showing<T, R>,
    success: bool,
) -> (Seq<DrawTarget<T, R>>, Following<T, R>) {
    if !success {
        (free.push(job.target), Following::Returned)
    } else if job.taken + 1 < job.calls.len() {
        (free, Following::Next(Showing { taken: job.taken + 1, ..job }))
    } else {
        (free, Following::Reclaim)
    }
}

/// A frame gets its time first and is presented then. When both calls succeed,
/// its texture stays with the web view and the free ones are reclaimed; when
/// either fails, the texture is free again, once, and nothing is reclaimed.
pub proof fn frames_are_shown_or_returned<T, R>(
    free: Seq<DrawTarget<T, R>>,
    target: DrawTarget<T, R>,
    timestamp_ns: u64,
    timed: bool,
    shown: bool,
)
    ensures
        ({
            let job = Showing { target, calls: presenting(timestamp_ns), taken: 0 };
            let (first, following) = behind_present_call(free, job, timed);
            &&& job.calls[0] == PresentCall::SetTimestamp { nanoseconds: timestamp_ns }
            &&& !timed ==> first == free.push(target) && following is Returned
            &&& timed ==> {
                &&& first == free
                &&& following matches Following::Next(rest)
                &&& rest.calls[rest.taken] == PresentCall::PresentTexture
                &&& behind_present_call(first, rest, shown) == if shown {
                    (free, Following::<T, R>::Reclaim)
                } else {
                    (free.push(target), Following::<T, R>::Returned)
                }
            }
        }),
{
}

/// A call of the job that makes a pool.
#[derive(Clone, Copy, Debug, PartialEq, Eq, Structural)]
pub enum PoolCall {
    /// Close the texture at this place among those of the old pool.
    Retire { at: usize },
    Allocate { width: u32, height: u32 },
}

/// The job that makes a pool: it closes the textures of the old one, and then
/// makes its own. The first call that fails ends it.
#[derive(Debug)]
pub struct PoolJob<T, R> {
    pub width: u32,
    pub height: u32,
    pub old: Vec<DrawTarget<T, R>>,
    /// How many textures of the old pool are closed.
    pub retired: usize,
    pub made: Vec<DrawTarget<T, R>>,
}

impl<T, R> PoolJob<T, R> {
    /// No more is closed than there was, and no more made than a pool holds.
    pub open spec fn well_formed(self) -> bool {
        self.retired <= self.old@.len() && self.made@.len() <= MAX_TEXTURES
    }

    /// The call that is to be made next; `None` when the pool is complete.
    pub open spec fn upcoming(self) -> Option<PoolCall> {
        if self.retired < self.old@.len() {
            Some(PoolCall::Retire { at: self.retired })
        } else if self.made@.len() < MAX_TEXTURES {
            Some(PoolCall::Allocate { width: self.width, height: self.height })
        } else {
            None
        }
    }

    /// The call that is to be made next; `None` when the pool is complete.
    pub fn next(&self) -> (call: Option<PoolCall>)
        ensures
            call == self.upcoming(),
    {
        if self.retired < self.old.len() {
            Some(PoolCall::Retire { at: self.retired })
        } else if self.made.len() < MAX_TEXTURES as usize {
            Some(PoolCall::Allocate { width: self.width, height: self.height })
        } else {
            None
        }
    }

    /// Takes note of how a texture of the old pool was closed.
    pub fn texture_retired(&mut self, outcome: Result<(), String>) -> (result: Result<(), Error>)
        requires
            old(self).well_formed(),
            old(self).upcoming() is Some,
            old(self).upcoming()->0 is Retire,
        ensures
            final(self).well_formed(),
            match outcome {
                Ok(_) => result is Ok && final(self).retired == old(self).retired + 1,
                Err(detail) => error::fails(
                    result,
                    texture_stream::texture_failure(
                        NativeStep::RetireTexture.purpose(),
                        detail@,
                    ),
                ) && final(self).retired == old(self).retired,
            },
            final(self).old@ == old(self).old@,
            final(self).made@ == old(self).made@,
            final(self).width == old(self).width,
            final(self).height == old(self).height,
    {
        let count: usize = self.old.len();
        assert(self.retired < count);
        match outcome {
            Ok(_) => {
                self.retired = self.retired + 1;
                Ok(())
            },
            Err(detail) => Err(NativeStep::RetireTexture.error(detail.as_str())),
        }
    }

    /// Takes note of how a texture was made, and of what was found behind it.
    pub fn texture_allocated(&mut self, outcome: Result<(T, Found<R>), String>) -> (result: Result<
        (),
        Error,
    >)
        requires
            old(self).well_formed(),
            old(self).upcoming() is Some,
            old(self).upcoming()->0 is Allocate,
        ensures
            final(self).well_formed(),
            match outcome {
                Err(detail) => error::fails(
                    result,
                    texture_stream::texture_failure(
                        NativeStep::AllocateTexture.purpose(),
                        detail@,
                    ),
                ) && final(self).made@ == old(self).made@,
                Ok((texture, found)) => match targets::target_failure(found) {
                    Some(failure) => error::fails(result, failure)
                        && final(self).made@ == old(self).made@,
                    None => result is Ok && final(self).made@ == old(self).made@.push(
                        DrawTarget { texture, resource: found->resource },
                    ),
                },
            },
            final(self).old@ == old(self).old@,
            final(self).retired == old(self).retired,
            final(self).width == old(self).width,
            final(self).height == old(self).height,
    {
        match outcome {
            Err(detail) => Err(NativeStep::AllocateTexture.error(detail.as_str())),
            Ok((texture, found)) => match targets::draw_target(texture, found) {
                Err(error) => Err(error),
                Ok(target) => {
                    self.made.push(target);
                    Ok(())
                },
            },
        }
    }
}

/// A complete pool has as many textures as a pool holds, and none of the old
/// one is left open.
pub proof fn pools_are_complete<T, R>(job: PoolJob<T, R>)
    requires
        job.well_formed(),
        job.upcoming() is None,
    ensures
        job.made@.len() == MAX_TEXTURES,
        job.retired == job.old@.len(),
{
}

/// A job for the thread of the web view.
#[derive(Clone, Copy, Debug, PartialEq, Eq, Structural)]
pub enum UiJob {
    MakePool,
    Reclaim,
    Present,
}

/// The pool of textures of a stream.
pub struct TextureStreamPresenter<T, R> {
    /// The textures that a frame can be copied to.
    pub free: Vec<DrawTarget<T, R>>,
    /// The size for which the pool was made.
    pub texture_size: Option<(u32, u32)>,
    pub pool_pending: Latch,
    pub reclaim_pending: Latch,
}

/// What comes of asking for a texture.
#[derive(Debug)]
pub enum Acquired<T, R> {
    /// A texture to copy a frame to.
    Target(DrawTarget<T, R>),
    /// None; a pool of this size is to be made.
    MakePool { width: u32, height: u32 },
    /// None; those that the web view has given back are to be reclaimed.
    Reclaim,
    /// None; what is needed is under way.
    Wait,
}

/// A side of a texture, at least one.
pub open spec fn side(pixels: u32) -> u32 {
    if pixels > 1 { pixels } else { 1 }
}

/// A texture for a frame of a size was asked for. Frames of another size than
/// the pool was made for need a new pool, which is made once at a time; without
/// a free texture those that the web view has given back are reclaimed, once at
/// a time.
pub open spec fn acquires<T, R>(
    before: TextureStreamPresenter<T, R>,
    after: TextureStreamPresenter<T, R>,
    width: u32,
    height: u32,
    acquired: Acquired<T, R>,
) -> bool {
    &&& after.texture_size == before.texture_size
    &&& if before.texture_size != Some((side(width), side(height))) {
        &&& acquired == if before.pool_pending.pending {
            Acquired::<T, R>::Wait
        } else {
            Acquired::<T, R>::MakePool { width: side(width), height: side(height) }
        }
        &&& after.pool_pending.pending
        &&& after.free@ == before.free@
        &&& after.reclaim_pending == before.reclaim_pending
    } else if before.free@.len() > 0 {
        &&& acquired == Acquired::<T, R>::Target(before.free@.last())
        &&& after.free@ == before.free@.drop_last()
        &&& after.pool_pending == before.pool_pending
        &&& after.reclaim_pending == before.reclaim_pending
    } else {
        &&& acquired == if before.reclaim_pending.pending {
            Acquired::<T, R>::Wait
        } else {
            Acquired::<T, R>::Reclaim
        }
        &&& after.reclaim_pending.pending
        &&& after.free@ == before.free@
        &&& after.pool_pending == before.pool_pending
    }
}

impl<T, R> TextureStreamPresenter<T, R> {
    /// A stream without textures, and the steps that its native side takes.
    pub fn new(stream_id: &str) -> (made: (TextureStreamPresenter<T, R>, Vec<SetupStep>))
        ensures
            made.0.free@.len() == 0,
            made.0.texture_size is None,
            !made.0.pool_pending.pending,
            !made.0.reclaim_pending.pending,
            setups(made.1@) == setting_up(stream_id@),
    {
        let mut steps: Vec<SetupStep> = Vec::new();
        steps.push(SetupStep::QueryTextureStreams);
        steps.push(SetupStep::QueryAdapter);
        steps.push(SetupStep::MakeDevice);
        steps.push(SetupStep::QueryDeviceIdentity);
        steps.push(SetupStep::CreateStream { name: wide(stream_id) });
        steps.push(allow_reader("http://localhost:1420"));
        steps.push(allow_reader("http://tauri.localhost"));
        steps.push(allow_reader("https://tauri.localhost"));
        steps.push(allow_reader("tauri://localhost"));
        assert(setups(steps@) =~= setting_up(stream_id@));
        let presenter = TextureStreamPresenter {
            free: Vec::new(),
            texture_size: None,
            pool_pending: Latch::new(),
            reclaim_pending: Latch::new(),
        };
        (presenter, steps)
    }

    /// Asks for a texture for a frame of a size. Frames of another size than
    /// the pool was made for need a new pool.
    pub fn acquire(&mut self, width: u32, height: u32) -> (acquired: Acquired<T, R>)
        ensures
            acquires(*old(self), *final(self), width, height, acquired),
    {
        let width: u32 = if width > 1 {
            width
        } else {
            1
        };
        let height: u32 = if height > 1 {
            height
        } else {
            1
        };
        if !targets::same_size(self.texture_size, Some((width, height))) {
            return if self.pool_pending.request() {
                Acquired::MakePool { width, height }
            } else {
                Acquired::Wait
            };
        }
        match self.free.pop() {
            Some(target) => Acquired::Target(target),
            None => {
                if self.reclaim_pending.request() {
                    Acquired::Reclaim
                } else {
                    Acquired::Wait
                }
            },
        }
    }

    /// The job that presents a frame at a time. Nothing is called before the job
    /// runs.
    pub fn present(&self, target: DrawTarget<T, R>, timestamp_ns: u64) -> (job: Presentation<T, R>)
        ensures
            job@ == (Showing { target, calls: presenting(timestamp_ns), taken: 0 }),
    {
        let mut calls: Vec<PresentCall> = Vec::new();
        calls.push(PresentCall::SetTimestamp { nanoseconds: timestamp_ns });
        calls.push(PresentCall::PresentTexture);
        assert(calls@ =~= presenting(timestamp_ns));
        Presentation { target, calls, taken: 0 }
    }

    /// Takes note of how the next call of the job went.
    pub fn present_call_done(&mut self, job: Presentation<T, R>, success: bool) -> (following:
        Presented<T, R>)
        requires
            job.taken < job.calls@.len(),
        ensures
            (final(self).free@, following@) == behind_present_call(
                old(self).free@,
                job@,
                success,
            ),
            final(self).texture_size == old(self).texture_size,
            final(self).pool_pending == old(self).pool_pending,
            final(self).reclaim_pending == old(self).reclaim_pending,
    {
        let count: usize = job.calls.len();
        let Presentation { target, calls, taken } = job;
        if !success {
            self.free.push(target);
            Presented::Returned
        } else if taken + 1 < count {
            Presented::Next(Presentation { target, calls, taken: taken + 1 })
        } else {
            Presented::Reclaim
        }
    }

    /// Takes note of whether a job could be dispatched, which is what the caller
    /// is answered. What is not dispatched can be asked for again; the texture
    /// of a frame is lost with its job.
    pub fn dispatched(&mut self, job: UiJob, outcome: Result<(), Error>) -> (result: Result<
        (),
        Error,
    >)
        ensures
            result == outcome,
            final(self).free@ == old(self).free@,
            final(self).texture_size == old(self).texture_size,
            final(self).pool_pending.pending == (old(self).pool_pending.pending && !(outcome is Err
                && job == UiJob::MakePool)),
            final(self).reclaim_pending.pending == (old(self).reclaim_pending.pending && !(
            outcome is Err && job == UiJob::Reclaim)),
    {
        if outcome.is_err() {
            match job {
                UiJob::MakePool => self.pool_pending.release(),
                UiJob::Reclaim => self.reclaim_pending.release(),
                UiJob::Present => {},
            }
        }
        outcome
    }

    /// Starts to make a pool: gives up the textures of the old one, which are
    /// to be closed.
    pub fn create_pool(&mut self, width: u32, height: u32) -> (job: PoolJob<T, R>)
        ensures
            job.width == width,
            job.height == height,
            job.old@ == old(self).free@,
            job.retired == 0,
            job.made@.len() == 0,
            job.well_formed(),
            final(self).free@.len() == 0,
            final(self).texture_size == old(self).texture_size,
            final(self).pool_pending == old(self).pool_pending,
            final(self).reclaim_pending == old(self).reclaim_pending,
    {
        let mut old_targets: Vec<DrawTarget<T, R>> = Vec::new();
        std::mem::swap(&mut self.free, &mut old_targets);
        PoolJob { width, height, old: old_targets, retired: 0, made: Vec::new() }
    }

    /// Takes note of a complete pool, or of the call that ended its making.
    /// Either way a pool can be asked for again.
    pub fn pool_made(&mut self, job: PoolJob<T, R>, outcome: Result<(), Error>) -> (result: Result<
        (),
        Error,
    >)
        ensures
            result == outcome,
            if outcome is Ok {
                &&& final(self).free@ == job.made@
                &&& final(self).texture_size == Some((job.width, job.height))
            } else {
                &&& final(self).free@ == old(self).free@
                &&& final(self).texture_size == old(self).texture_size
            },
            !final(self).pool_pending.pending,
            final(self).reclaim_pending == old(self).reclaim_pending,
    {
        self.pool_pending.release();
        if outcome.is_ok() {
            self.texture_size = Some((job.width, job.height));
            self.free = job.made;
        }
        outcome
    }

    /// Takes back a texture that the web view has given back.
    pub fn reclaim(
        &mut self,
        target: Result<DrawTarget<T, R>, Error>,
        actual: Option<(u32, u32)>,
    ) -> (reclaimed: Reclaimed<T, R>)
        ensures
            match target {
                Err(error) => reclaimed == Reclaimed::<T, R>::Failed(error)
                    && final(self).free@ == old(self).free@,
                Ok(target) => if actual == old(self).texture_size {
                    reclaimed == Reclaimed::<T, R>::Kept
                        && final(self).free@ == old(self).free@.push(target)
                } else {
                    reclaimed == Reclaimed::Close(target)
                        && final(self).free@ == old(self).free@
                },
            },
            final(self).texture_size == old(self).texture_size,
            final(self).pool_pending == old(self).pool_pending,
            final(self).reclaim_pending == old(self).reclaim_pending,
    {
        targets::reclaim_available(&mut self.free, self.texture_size, target, actual)
    }

    /// Takes note that reclaiming has ended.
    pub fn reclaim_ended(&mut self)
        ensures
            !final(self).reclaim_pending.pending,
            final(self).free@ == old(self).free@,
            final(self).texture_size == old(self).texture_size,
            final(self).pool_pending == old(self).pool_pending,
    {
        self.reclaim_pending.release();
    }
}

/// The units of a character give its code back: one unit is the code, and two
/// are a pair of surrogates that hold what lies beyond the first plane.
pub proof fn units_give_the_character_back(c: char)
    ensures
        ({
            let list = units(c);
            &&& c as int <= 0xffff ==> list.len() == 1 && list[0] == c as int
            &&& c as int > 0xffff ==> {
                &&& list.len() == 2
                &&& 0xd800 <= list[0] < 0xdc00
                &&& 0xdc00 <= list[1] < 0xe000
                &&& 0x1_0000 + (list[0] - 0xd800) * 0x400 + (list[1] - 0xdc00) == c as int
            }
        }),
{
}

/// The units of a text are those of its characters, in their order.
pub proof fn units_follow_the_text(text: Seq<char>, more: Seq<char>)
    ensures
        utf16(Seq::empty()).len() == 0,
        text.len() == 1 ==> utf16(text) == units(text[0]),
        utf16(text + more) == utf16(text) + utf16(more),
    decreases more.len(),
{
    if text.len() == 1 {
        assert(text.drop_last() =~= Seq::empty());
        assert(utf16(text.drop_last()) + units(text[0]) =~= units(text[0]));
    }
    if more.len() == 0 {
        assert(text + more =~= text);
        assert(utf16(text) + utf16(more) =~= utf16(text));
    } else {
        let rest = more.drop_last();
        let last = units(more.last());
        units_follow_the_text(text, rest);
        assert((text + more).drop_last() =~= text + rest);
        assert((text + more).last() == more.last());
        assert(utf16(text + more) == utf16(text + rest) + last);
        assert(utf16(more) == utf16(rest) + last);
        assert((utf16(text) + utf16(rest)) + last =~= utf16(text) + (utf16(rest) + last));
    }
}

/// A stream is set up step by step, on the device of the web view's adapter,
/// under its name; then the pages of the application, and no others, may read
/// it, and none may send textures back.
pub proof fn streams_are_set_up_in_order(stream_id: Seq<char>, at: int)
    requires
        5 <= at < setting_up(stream_id).len(),
    ensures
        ({
            let steps = setting_up(stream_id);
            let reads = |origin: Seq<char>|
                Setup::AllowOrigin { origin: utf16(origin).push(0), allow_web_texture: false };
            &&& steps.len() == 9
            &&& steps[0] is QueryTextureStreams
            &&& steps[1] is QueryAdapter
            &&& steps[2] is MakeDevice
            &&& steps[3] is QueryDeviceIdentity
            &&& steps[4] == Setup::CreateStream { name: utf16(stream_id).push(0) }
            &&& steps[5] == reads("http://localhost:1420"@)
            &&& steps[6] == reads("http://tauri.localhost"@)
            &&& steps[7] == reads("https://tauri.localhost"@)
            &&& steps[8] == reads("tauri://localhost"@)
            &&& steps[at] is AllowOrigin && !steps[at]->allow_web_texture
        }),
{
}

/// Each native call that fails says what it was to do.
pub proof fn failed_calls_say_their_purpose()
    ensures
        NativeStep::QueryTextureStreams.purpose() == "query WebView2 TextureStream support"@,
        NativeStep::QueryAdapter.purpose() == "query the WebView2 render adapter"@,
        NativeStep::QueryDeviceIdentity.purpose() == "query the D3D11 device identity"@,
        NativeStep::CreateStream.purpose() == "create the WebView2 texture stream"@,
        NativeStep::QueryTextureMutex.purpose() == "query the WebView2 texture mutex"@,
        NativeStep::AcquireTexture.purpose() == "acquire the WebView2 texture"@,
        NativeStep::ReleaseTexture.purpose() == "release the WebView2 texture"@,
        NativeStep::RetireTexture.purpose() == "retire an old WebView2 video texture"@,
        NativeStep::AllocateTexture.purpose() == "allocate a WebView2 video texture"@,
{
}

/// An origin that cannot be allowed stops nothing; every other step that fails
/// does, and says why.
pub proof fn only_origins_may_fail(step: Setup, detail: Seq<char>)
    ensures
        setup_failure(step, detail) is None <==> step is AllowOrigin,
        step is MakeDevice ==> setup_failure(step, detail) == Some(Failure::Pipeline(detail)),
        step is QueryTextureStreams ==> setup_failure(step, detail) == Some(
            Failure::Pipeline(
                "failed to "@ + NativeStep::QueryTextureStreams.purpose() + ": "@ + detail,
            ),
        ),
        step is QueryAdapter ==> setup_failure(step, detail) == Some(
            Failure::Pipeline("failed to "@ + NativeStep::QueryAdapter.purpose() + ": "@ + detail),
        ),
        step is QueryDeviceIdentity ==> setup_failure(step, detail) == Some(
            Failure::Pipeline(
                "failed to "@ + NativeStep::QueryDeviceIdentity.purpose() + ": "@ + detail,
            ),
        ),
        step is CreateStream ==> setup_failure(step, detail) == Some(
            Failure::Pipeline("failed to "@ + NativeStep::CreateStream.purpose() + ": "@ + detail),
        ),
{
}

/// A frame is taken apart from the outside: its buffer, the memory in it, that
/// this is memory of the device, its mapping, and the texture. What is missing
/// is named.
pub proof fn frames_are_taken_apart_in_order()
    ensures
        sample_needs().len() == 5,
        sample_needs()[0] == SampleNeed::Buffer,
        sample_needs()[1] == SampleNeed::Memory,
        sample_needs()[2] == SampleNeed::DeviceMemory,
        sample_needs()[3] == SampleNeed::Mapping,
        sample_needs()[4] == SampleNeed::Texture,
        sample_failure(SampleNeed::Buffer) == Failure::Pipeline(
            "Windows video sample has no buffer"@,
        ),
        sample_failure(SampleNeed::Memory) == Failure::Pipeline(
            "Windows video sample has no D3D11 memory"@,
        ),
        sample_failure(SampleNeed::DeviceMemory) == Failure::Pipeline(
            "Windows video sample did not negotiate D3D11Memory"@,
        ),
        sample_failure(SampleNeed::Mapping) == Failure::Pipeline(
            "could not map GStreamer D3D11 memory"@,
        ),
        sample_failure(SampleNeed::Texture) == Failure::Pipeline(
            "GStreamer returned no D3D11 texture"@,
        ),
{
}

/// A frame is copied once and under the lock, the part that it lies in and no
/// other, and flushed before the device is unlocked; the texture goes back by
/// the key by which it was taken, within a second.
pub proof fn frames_are_copied_under_the_lock(subresource: u32, at: int)
    requires
        0 <= at < copying(subresource).len(),
    ensures
        ({
            let steps = copying(subresource);
            &&& steps.len() == 7
            &&& steps[0] == CopyStep::QueryMutex
            &&& steps[1] == CopyStep::Acquire { key: 0, timeout_ms: 1_000 }
            &&& subresource == 0 ==> steps[3] == CopyStep::CopyWhole
            &&& subresource != 0 ==> steps[3] == CopyStep::CopyPart { subresource }
            &&& steps[at] is CopyWhole || steps[at] is CopyPart ==> at == 3
            &&& steps[4] == CopyStep::Flush
            &&& steps[6] == CopyStep::Release { key: 0 }
            &&& fallible(steps[0]) == Some(NativeStep::QueryTextureMutex)
            &&& fallible(steps[1]) == Some(NativeStep::AcquireTexture)
            &&& fallible(steps[6]) == Some(NativeStep::ReleaseTexture)
        }),
{
}

/// No texture is made while one of the old pool is open: the old ones are
/// closed first, each once and in their order, and then new ones of the size
/// that was asked for are made until the pool is complete.
pub proof fn old_textures_go_first<T, R>(job: PoolJob<T, R>)
    requires
        job.well_formed(),
    ensures
        job.retired < job.old@.len() <==> job.upcoming() is Some && job.upcoming()->0 is Retire,
        job.upcoming() matches Some(PoolCall::Retire { at }) ==> at == job.retired,
        job.upcoming() matches Some(PoolCall::Allocate { width, height }) ==> {
            &&& job.retired == job.old@.len()
            &&& width == job.width
            &&& height == job.height
            &&& job.made@.len() < MAX_TEXTURES
        },
{
}

/// A side with pixels keeps them; one without gets one.
pub proof fn sides_are_never_empty(pixels: u32)
    ensures
        pixels >= 1 ==> side(pixels) == pixels,
        pixels == 0 ==> side(pixels) == 1,
{
}

/// The steps of a list stay at their places and say what they are.
pub proof fn steps_say_what_they_are(list: Seq<SetupStep>, at: int)
    requires
        0 <= at < list.len(),
    ensures
        setups(list).len() == list.len(),
        match list[at] {
            SetupStep::QueryTextureStreams => setups(list)[at] is QueryTextureStreams,
            SetupStep::QueryAdapter => setups(list)[at] is QueryAdapter,
            SetupStep::MakeDevice => setups(list)[at] is MakeDevice,
            SetupStep::QueryDeviceIdentity => setups(list)[at] is QueryDeviceIdentity,
            SetupStep::CreateStream { name } => setups(list)[at] == Setup::CreateStream {
                name: name@,
            },
            SetupStep::AllowOrigin { origin, allow_web_texture } => setups(list)[at]
                == Setup::AllowOrigin { origin: origin@, allow_web_texture },
        },
{
}

/// A job shows its texture, its calls and how far it has come; what follows a
/// call is shown as it is.
pub proof fn jobs_show_their_fields<T, R>(job: Presentation<T, R>, following: Presented<T, R>)
    ensures
        job@.target == job.target,
        job@.calls == job.calls@,
        job@.taken == job.taken,
        following matches Presented::Next(next) ==> following@ == Following::Next(next@),
        following is Reclaim ==> following@ is Reclaim,
        following is Returned ==> following@ is Returned,
{
}

/// A texture is handed out only for frames of the size of the pool; it was free
/// and is free no more. While there is one, nothing else is answered for such a
/// frame.
pub proof fn handed_out_textures_are_not_free<T, R>(
    before: TextureStreamPresenter<T, R>,
    after: TextureStreamPresenter<T, R>,
    width: u32,
    height: u32,
    acquired: Acquired<T, R>,
)
    requires
        acquires(before, after, width, height, acquired),
        width >= 1,
        height >= 1,
    ensures
        acquired is Target <==> before.texture_size == Some((width, height)) && before.free@.len()
            > 0,
        acquired matches Acquired::Target(target) ==> before.free@ == after.free@.push(target),
        !(acquired is Target) ==> after.free@ == before.free@,
        after.texture_size == before.texture_size,
{
    if let Acquired::Target(target) = acquired {
        assert(before.free@ =~= after.free@.push(target));
    }
}

/// A pool is asked for only for frames of another size, of exactly their size,
/// and while none is under way; given-back textures are reclaimed only when none
/// is free, and while that is not under way. Whoever finds it under way waits.
pub proof fn needs_are_asked_for_once<T, R>(
    before: TextureStreamPresenter<T, R>,
    after: TextureStreamPresenter<T, R>,
    width: u32,
    height: u32,
    acquired: Acquired<T, R>,
)
    requires
        acquires(before, after, width, height, acquired),
        width >= 1,
        height >= 1,
    ensures
        acquired is MakePool <==> before.texture_size != Some((width, height))
            && !before.pool_pending.pending,
        acquired matches Acquired::MakePool { width: w, height: h } ==> w == width && h == height,
        acquired is MakePool ==> after.pool_pending.pending,
        acquired is Reclaim <==> before.texture_size == Some((width, height)) && before.free@.len()
            == 0 && !before.reclaim_pending.pending,
        acquired is Reclaim ==> after.reclaim_pending.pending,
        before.pool_pending.pending ==> after.pool_pending.pending,
        before.reclaim_pending.pending ==> after.reclaim_pending.pending,
        after.pool_pending.pending && !before.pool_pending.pending ==> acquired is MakePool,
        after.reclaim_pending.pending && !before.reclaim_pending.pending ==> acquired is Reclaim,
{
}

} // verus!
