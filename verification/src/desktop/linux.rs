//! Requests on Linux, and which of its two engines answers them.
use crate::desktop::access;
use crate::desktop::linux_gstreamer;
use crate::desktop::linux_gstreamer::GstCall;
use crate::desktop::linux_gstreamer::NativePlayer;
use crate::desktop::linux_mpv;
use crate::desktop::linux_mpv::MpvCall;
use crate::desktop::linux_mpv::MpvPlayer;
use crate::desktop::linux_mpv::RenderLog;
use crate::desktop::linux_surface;
use crate::desktop::linux_surface::SurfaceCall;
use crate::desktop::linux_surface::SurfaceHost;
use crate::desktop::unavailable_linux_backend;
use crate::error;
use crate::error::Error;
use crate::error::Failure;
use crate::models;
use crate::models::NativeControlRequest;
use crate::models::NativeLayoutRequest;
use crate::models::NativeOpenRequest;
use crate::models::NativePlaybackSnapshot;
use crate::models::NativeSessionRequest;
use crate::text;
use vstd::prelude::*;

verus! {

/// An engine.
#[derive(Clone, Copy, Debug, PartialEq, Eq, Structural)]
pub enum Backend {
    Gstreamer,
    Mpv,
}

/// The engines that are part of the build.
#[derive(Clone, Copy, Debug, PartialEq, Eq, Structural)]
pub struct Runtimes {
    pub gstreamer: bool,
    pub mpv: bool,
}

impl Runtimes {
    /// Whether an engine is part of the build.
    pub open spec fn has(self, backend: Backend) -> bool {
        match backend {
            Backend::Gstreamer => self.gstreamer,
            Backend::Mpv => self.mpv,
        }
    }
}

/// The engine for a request: the one that it names, and GStreamer where it
/// names none.
pub open spec fn choice(runtimes: Runtimes, requested: Option<Seq<char>>) -> Result<
    Backend,
    Failure,
> {
    match requested {
        None => if runtimes.gstreamer {
            Ok(Backend::Gstreamer)
        } else {
            Err(
                Failure::RuntimeUnavailable(
                    "the default gstreamer backend was not compiled; request 'mpv' explicitly or enable gstreamer-runtime"@,
                ),
            )
        },
        Some(name) => if name == "gstreamer"@ {
            if runtimes.gstreamer {
                Ok(Backend::Gstreamer)
            } else {
                Err(
                    Failure::RuntimeUnavailable(
                        "the gstreamer backend was not compiled; enable gstreamer-runtime"@,
                    ),
                )
            }
        } else if name == "mpv"@ {
            if runtimes.mpv {
                Ok(Backend::Mpv)
            } else {
                Err(
                    Failure::RuntimeUnavailable(
                        "the mpv backend was not compiled; enable mpv-runtime"@,
                    ),
                )
            }
        } else {
            Err(
                Failure::InvalidRequest(
                    "backend '"@ + name + "' is not available on Linux"@,
                ),
            )
        },
    }
}

/// The name in a request, as characters.
pub open spec fn name_in(requested: Option<&str>) -> Option<Seq<char>> {
    match requested {
        Some(name) => Some(name@),
        None => None,
    }
}

/// The engine was given, or the failure.
pub open spec fn chooses(result: Result<Backend, Error>, expected: Result<Backend, Failure>) -> bool {
    match expected {
        Ok(backend) => result == Ok::<Backend, Error>(backend),
        Err(failure) => error::fails(result, failure),
    }
}

/// Chooses the engine for a request.
pub fn select_backend(runtimes: Runtimes, requested: Option<&str>) -> (result: Result<
    Backend,
    Error,
>)
    ensures
        chooses(result, choice(runtimes, name_in(requested))),
{
    match requested {
        None => if runtimes.gstreamer {
            Ok(Backend::Gstreamer)
        } else {
            Err(
                Error::runtime(
                    "the default gstreamer backend was not compiled; request 'mpv' explicitly or enable gstreamer-runtime",
                ),
            )
        },
        Some(name) => if text::same(name, "gstreamer") {
            if runtimes.gstreamer {
                Ok(Backend::Gstreamer)
            } else {
                Err(
                    Error::runtime(
                        "the gstreamer backend was not compiled; enable gstreamer-runtime",
                    ),
                )
            }
        } else if text::same(name, "mpv") {
            if runtimes.mpv {
                Ok(Backend::Mpv)
            } else {
                Err(Error::runtime("the mpv backend was not compiled; enable mpv-runtime"))
            }
        } else {
            Err(
                Error::InvalidRequest(
                    text::enclose("backend '", name, "' is not available on Linux"),
                ),
            )
        },
    }
}

/// A chosen engine is part of the build.
pub proof fn chosen_backends_are_compiled(runtimes: Runtimes, requested: Option<Seq<char>>)
    ensures
        choice(runtimes, requested) matches Ok(backend) ==> runtimes.has(backend),
{
}

/// mpv plays only for those who ask for it.
pub proof fn mpv_is_never_the_default(runtimes: Runtimes, requested: Option<Seq<char>>)
    ensures
        choice(runtimes, requested) == Ok::<Backend, Failure>(Backend::Mpv) ==> requested == Some(
            "mpv"@,
        ),
{
}

/// The players on Linux, and the engine that requests go to.
pub struct LinuxDesktop {
    pub runtimes: Runtimes,
    pub active: Option<Backend>,
    pub gstreamer: Option<NativePlayer>,
    pub mpv: Option<MpvPlayer>,
}

impl LinuxDesktop {
    /// Nothing open.
    pub fn new(runtimes: Runtimes) -> (desktop: LinuxDesktop)
        ensures
            desktop.runtimes == runtimes,
            desktop.active is None,
            desktop.gstreamer is None,
            desktop.mpv is None,
            desktop.well_formed(),
    {
        LinuxDesktop { runtimes, active: None, gstreamer: None, mpv: None }
    }

    /// Whether an engine has a player.
    pub open spec fn has_player(self, backend: Backend) -> bool {
        match backend {
            Backend::Gstreamer => self.gstreamer is Some,
            Backend::Mpv => self.mpv is Some,
        }
    }

    /// Requests go only to an engine that is part of the build and has a
    /// player.
    pub open spec fn well_formed(self) -> bool {
        self.active matches Some(backend) ==> self.runtimes.has(backend) && self.has_player(
            backend,
        )
    }

    /// Where requests go, or why they are turned away.
    pub open spec fn route(self) -> Result<Backend, Failure> {
        match self.active {
            Some(backend) => Ok(backend),
            None => Err(Failure::InvalidRequest("native player is not open"@)),
        }
    }

    /// Which engine serves a request, or why none does.
    pub open spec fn engine(self) -> Result<Backend, Failure> {
        match self.active {
            Some(backend) => if self.runtimes.has(backend) {
                Ok(backend)
            } else {
                Err(unavailable_linux_backend::missing())
            },
            None => Err(Failure::InvalidRequest("native player is not open"@)),
        }
    }

    /// The session that the engine in use plays.
    pub open spec fn session(self) -> Option<Seq<char>> {
        match self.active {
            None => None,
            Some(Backend::Gstreamer) => linux_gstreamer::session::active_session(self.gstreamer),
            Some(Backend::Mpv) => linux_mpv::session::active_session(self.mpv),
        }
    }
}

/// The engine that requests go to.
pub fn active_backend(desktop: &LinuxDesktop) -> (result: Result<Backend, Error>)
    ensures
        chooses(result, desktop.route()),
{
    match desktop.active {
        Some(backend) => Ok(backend),
        None => Err(access::not_open()),
    }
}

/// What an open request asks of the engines: first to close one, when another
/// plays, and then to open the source.
#[derive(Clone, Copy, Debug, PartialEq, Eq, Structural)]
pub struct OpenPlan {
    pub close: Option<Backend>,
    pub requested: Backend,
}

/// The plan to open a source on an engine: another engine that plays has to go.
pub open spec fn planned(active: Option<Backend>, requested: Backend) -> OpenPlan {
    OpenPlan {
        requested,
        close: if active == Some(requested) {
            None
        } else {
            active
        },
    }
}

/// Plans an open request.
pub fn open(desktop: &LinuxDesktop, payload: &NativeOpenRequest) -> (result: Result<
    OpenPlan,
    Error,
>)
    ensures
        match choice(desktop.runtimes, models::optional(payload.backend)) {
            Err(failure) => error::fails(result, failure),
            Ok(requested) => result == Ok::<OpenPlan, Error>(planned(desktop.active, requested)),
        },
{
    let name = match &payload.backend {
        Some(name) => Some(name.as_str()),
        None => None,
    };
    let requested = match select_backend(desktop.runtimes, name) {
        Ok(requested) => requested,
        Err(error) => return Err(error),
    };
    let close = match desktop.active {
        Some(active) => if active == requested {
            None
        } else {
            Some(active)
        },
        None => None,
    };
    Ok(OpenPlan { close, requested })
}

/// Calls on one of the engines.
#[derive(Debug)]
pub enum EngineCalls {
    Gstreamer(Vec<GstCall>),
    Mpv(Vec<MpvCall>),
}

/// What [`EngineCalls`] say.
pub enum Talk {
    Gstreamer(Seq<linux_gstreamer::Call>),
    Mpv(Seq<linux_mpv::Call>),
}

impl View for EngineCalls {
    type V = Talk;

    open spec fn view(&self) -> Talk {
        match self {
            EngineCalls::Gstreamer(list) => Talk::Gstreamer(linux_gstreamer::calls(list@)),
            EngineCalls::Mpv(list) => Talk::Mpv(linux_mpv::calls(list@)),
        }
    }
}

/// The calls that make room for another engine. GStreamer is put to rest; mpv
/// is given up by [`replaced`], and its engine taken down.
pub fn force_close(desktop: &LinuxDesktop, backend: Backend) -> (calls: EngineCalls)
    ensures
        calls@ == match backend {
            Backend::Gstreamer => Talk::Gstreamer(
                linux_gstreamer::session::parking(desktop.gstreamer is Some),
            ),
            Backend::Mpv => Talk::Mpv(Seq::empty()),
        },
{
    match backend {
        Backend::Gstreamer => EngineCalls::Gstreamer(
            linux_gstreamer::session::force_close(&desktop.gstreamer),
        ),
        Backend::Mpv => {
            let list: Vec<MpvCall> = Vec::new();
            assert(linux_mpv::calls(list@) =~= Seq::empty());
            EngineCalls::Mpv(list)
        },
    }
}

/// Room was made: no request reaches the engine that was in use, unless it is
/// the one that was asked for. GStreamer is at rest, and mpv given up, when it
/// was its turn to go.
pub open spec fn makes_room(before: LinuxDesktop, after: LinuxDesktop, plan: OpenPlan) -> bool {
    &&& after.runtimes == before.runtimes
    &&& after.active == if before.active == Some(plan.requested) {
        before.active
    } else {
        None
    }
    &&& linux_gstreamer::in_slot(after.gstreamer) == if plan.close == Some(Backend::Gstreamer)
        && before.gstreamer is Some {
        Some(linux_gstreamer::session::parked(before.gstreamer->0@))
    } else {
        linux_gstreamer::in_slot(before.gstreamer)
    }
    &&& after.mpv == if plan.close == Some(Backend::Mpv) {
        None
    } else {
        before.mpv
    }
}

/// Takes note that room was made, or that it could not be made. Once the old
/// player is gone, no request may reach it, even if its replacement never
/// opens.
pub fn replaced(desktop: &mut LinuxDesktop, plan: OpenPlan, outcome: Result<(), Error>) -> (result:
    Result<(), Error>)
    ensures
        result == outcome,
        match outcome {
            Err(_) => *final(desktop) == *old(desktop),
            Ok(_) => makes_room(*old(desktop), *final(desktop), plan),
        },
        old(desktop).well_formed() && plan.close != Some(plan.requested)
            ==> final(desktop).well_formed(),
{
    if outcome.is_ok() {
        match plan.close {
            Some(Backend::Gstreamer) => {
                linux_gstreamer::session::park_player(&mut desktop.gstreamer);
            },
            Some(Backend::Mpv) => {
                let _ = linux_mpv::session::force_close(&mut desktop.mpv);
            },
            None => {},
        }
        if desktop.active != Some(plan.requested) {
            desktop.active = None;
        }
    }
    outcome
}

/// The engine is in use once it opened the source.
pub open spec fn in_use(before: LinuxDesktop, requested: Backend, success: bool) -> LinuxDesktop {
    LinuxDesktop {
        active: if success {
            Some(requested)
        } else {
            before.active
        },
        ..before
    }
}

/// Takes note of how the engine opened the source. From then on requests go
/// to it.
pub fn opened(
    desktop: &mut LinuxDesktop,
    requested: Backend,
    result: Result<NativePlaybackSnapshot, Error>,
) -> (answer: Result<NativePlaybackSnapshot, Error>)
    ensures
        answer == result,
        *final(desktop) == in_use(*old(desktop), requested, result is Ok),
        old(desktop).well_formed() && (result is Ok ==> old(desktop).runtimes.has(requested)
            && old(desktop).has_player(requested)) ==> final(desktop).well_formed(),
{
    if result.is_ok() {
        desktop.active = Some(requested);
    }
    result
}

/// A control request was turned away and nothing changed, or the engine in
/// use took it.
pub open spec fn controls(
    before: LinuxDesktop,
    after: LinuxDesktop,
    payload: NativeControlRequest,
    result: Result<EngineCalls, Error>,
) -> bool {
    &&& after.runtimes == before.runtimes
    &&& after.active == before.active
    &&& after.mpv == before.mpv
    &&& match before.engine() {
        Err(failure) => error::fails(result, failure) && after.gstreamer == before.gstreamer,
        Ok(Backend::Gstreamer) => match result {
            Ok(EngineCalls::Gstreamer(list)) => linux_gstreamer::session::controls(
                before.gstreamer,
                after.gstreamer,
                payload,
                Ok(list),
            ),
            Ok(EngineCalls::Mpv(_)) => false,
            Err(error) => linux_gstreamer::session::controls(
                before.gstreamer,
                after.gstreamer,
                payload,
                Err(error),
            ),
        },
        Ok(Backend::Mpv) => after.gstreamer == before.gstreamer
            && match linux_mpv::session::controlled(before.mpv, payload) {
            Ok(call) => result matches Ok(calls) && calls@ == Talk::Mpv(seq![call]),
            Err(failure) => error::fails(result, failure),
        },
    }
}

/// The calls for a control request. A snapshot of the engine follows them.
pub fn control(desktop: &mut LinuxDesktop, payload: &NativeControlRequest) -> (result: Result<
    EngineCalls,
    Error,
>)
    ensures
        controls(*old(desktop), *final(desktop), *payload, result),
{
    match active_backend(desktop) {
        Err(error) => Err(error),
        Ok(Backend::Gstreamer) => {
            if !desktop.runtimes.gstreamer {
                return unavailable_linux_backend::unavailable();
            }
            match linux_gstreamer::session::control(&mut desktop.gstreamer, payload) {
                Ok(list) => Ok(EngineCalls::Gstreamer(list)),
                Err(error) => Err(error),
            }
        },
        Ok(Backend::Mpv) => {
            if !desktop.runtimes.mpv {
                return unavailable_linux_backend::unavailable();
            }
            match linux_mpv::session::control(&desktop.mpv, payload) {
                Ok(call) => {
                    let ghost said = call@;
                    let mut list: Vec<MpvCall> = Vec::new();
                    list.push(call);
                    assert(linux_mpv::calls(list@) =~= seq![said]);
                    Ok(EngineCalls::Mpv(list))
                },
                Err(error) => Err(error),
            }
        },
    }
}

/// Why a request is turned away before an engine sees it; `None` when it is
/// let through.
pub open spec fn turned_away(desktop: LinuxDesktop, requested: Seq<char>) -> Option<Failure> {
    match desktop.engine() {
        Err(failure) => Some(failure),
        Ok(_) => access::refusal(desktop.session(), requested),
    }
}

/// The calls for a layout request.
pub fn layout(
    desktop: &LinuxDesktop,
    host: &SurfaceHost,
    has_parent: bool,
    visible: bool,
    payload: &NativeLayoutRequest,
) -> (result: Result<Vec<SurfaceCall>, Error>)
    ensures
        match turned_away(*desktop, payload.session_key@) {
            Some(failure) => error::fails(result, failure),
            None => linux_surface::places(
                result,
                *host,
                has_parent,
                visible,
                linux_surface::placed(payload.x, payload.y, payload.width, payload.height),
            ),
        },
{
    match active_backend(desktop) {
        Err(error) => Err(error),
        Ok(Backend::Gstreamer) => {
            if !desktop.runtimes.gstreamer {
                return unavailable_linux_backend::unavailable();
            }
            linux_gstreamer::session::layout(
                &desktop.gstreamer,
                host,
                has_parent,
                visible,
                payload,
            )
        },
        Ok(Backend::Mpv) => {
            if !desktop.runtimes.mpv {
                return unavailable_linux_backend::unavailable();
            }
            linux_mpv::session::layout(&desktop.mpv, host, has_parent, visible, payload)
        },
    }
}

/// Lets a request for a snapshot through, to the engine in use.
pub fn stats(desktop: &LinuxDesktop, payload: &NativeSessionRequest) -> (result: Result<
    Backend,
    Error,
>)
    ensures
        match turned_away(*desktop, payload.session_key@) {
            Some(failure) => error::fails(result, failure),
            None => result == Ok::<Backend, Error>(desktop.active->0),
        },
{
    let backend = match active_backend(desktop) {
        Err(error) => return Err(error),
        Ok(backend) => backend,
    };
    let answer = match backend {
        Backend::Gstreamer => {
            if !desktop.runtimes.gstreamer {
                return unavailable_linux_backend::unavailable();
            }
            linux_gstreamer::session::stats(&desktop.gstreamer, payload)
        },
        Backend::Mpv => {
            if !desktop.runtimes.mpv {
                return unavailable_linux_backend::unavailable();
            }
            linux_mpv::session::stats(&desktop.mpv, payload)
        },
    };
    match answer {
        Ok(_) => Ok(backend),
        Err(error) => Err(error),
    }
}

/// The calls that put the engine in use to rest.
pub open spec fn resting(desktop: LinuxDesktop, backend: Backend) -> Talk {
    match backend {
        Backend::Gstreamer => Talk::Gstreamer(
            linux_gstreamer::session::parking(desktop.gstreamer is Some),
        ),
        Backend::Mpv => Talk::Mpv(linux_mpv::session::parking(desktop.mpv is Some)),
    }
}

/// The calls for a close request. The engine is put to rest whatever session
/// the request names: nothing may go on sounding.
pub fn close(desktop: &LinuxDesktop, payload: &NativeSessionRequest) -> (result: Result<
    EngineCalls,
    Error,
>)
    ensures
        match desktop.route() {
            Err(failure) => error::fails(result, failure),
            Ok(backend) => result matches Ok(calls) && calls@ == resting(*desktop, backend),
        },
{
    match active_backend(desktop) {
        Err(error) => Err(error),
        Ok(Backend::Gstreamer) => Ok(
            EngineCalls::Gstreamer(linux_gstreamer::session::close(&desktop.gstreamer, payload)),
        ),
        Ok(Backend::Mpv) => Ok(
            EngineCalls::Mpv(linux_mpv::session::close(&desktop.mpv, payload)),
        ),
    }
}

/// Takes note that the engine is at rest, or that it could not be put there.
/// At rest, it gets no more requests.
pub fn closed(desktop: &mut LinuxDesktop, log: &mut RenderLog, outcome: Result<(), Error>) -> (result:
    Result<(), Error>)
    ensures
        result == outcome,
        final(desktop).runtimes == old(desktop).runtimes,
        outcome is Err ==> *final(desktop) == *old(desktop) && *final(log) == *old(log),
        outcome is Ok ==> {
            &&& final(desktop).active is None
            &&& linux_gstreamer::in_slot(final(desktop).gstreamer) == if old(desktop).active
                == Some(Backend::Gstreamer) && old(desktop).gstreamer is Some {
                Some(linux_gstreamer::session::parked(old(desktop).gstreamer->0@))
            } else {
                linux_gstreamer::in_slot(old(desktop).gstreamer)
            }
            &&& linux_mpv::in_slot(final(desktop).mpv) == if old(desktop).active == Some(
                Backend::Mpv,
            ) && old(desktop).mpv is Some {
                Some(linux_mpv::session::parked(old(desktop).mpv->0@))
            } else {
                linux_mpv::in_slot(old(desktop).mpv)
            }
            &&& final(log).presented_frames == old(log).presented_frames
            &&& final(log).error == if old(desktop).active == Some(Backend::Mpv)
                && old(desktop).mpv is Some {
                None
            } else {
                old(log).error
            }
        },
        old(desktop).well_formed() ==> final(desktop).well_formed(),
{
    if outcome.is_ok() {
        match desktop.active {
            Some(Backend::Gstreamer) => {
                linux_gstreamer::session::park_player(&mut desktop.gstreamer);
            },
            Some(Backend::Mpv) => {
                linux_mpv::session::park_player(&mut desktop.mpv, log);
            },
            None => {},
        }
        desktop.active = None;
    }
    outcome
}

/// Without an engine in use every request is turned away, whatever session it
/// names.
pub proof fn nothing_open_answers_nothing(desktop: LinuxDesktop, requested: Seq<char>)
    requires
        desktop.active is None,
    ensures
        desktop.route() == Err::<Backend, Failure>(
            Failure::InvalidRequest("native player is not open"@),
        ),
        turned_away(desktop, requested) == Some(
            Failure::InvalidRequest("native player is not open"@),
        ),
{
}

/// When an engine made room for another that then failed to open, no request
/// reaches either of them.
pub proof fn failed_replacements_answer_nothing(
    before: LinuxDesktop,
    plan: OpenPlan,
    room: LinuxDesktop,
    requested: Seq<char>,
)
    requires
        before.active != Some(plan.requested),
        makes_room(before, room, plan),
    ensures
        ({
            let after = in_use(room, plan.requested, false);
            after.active is None && turned_away(after, requested) == Some(
                Failure::InvalidRequest("native player is not open"@),
            )
        }),
{
}

/// A source that replaces one on the same engine leaves the engine in use,
/// even when it fails to open: there is no other that requests could go to.
pub proof fn failed_reloads_stay_in_use(before: LinuxDesktop, plan: OpenPlan, room: LinuxDesktop)
    requires
        before.active == Some(plan.requested),
        plan.close is None,
        makes_room(before, room, plan),
    ensures
        in_use(room, plan.requested, false).active == before.active,
        linux_gstreamer::in_slot(room.gstreamer) == linux_gstreamer::in_slot(before.gstreamer),
        room.mpv == before.mpv,
{
}

/// A request of another session than the open one fails and changes nothing.
pub proof fn stale_requests_change_nothing(
    before: LinuxDesktop,
    after: LinuxDesktop,
    payload: NativeControlRequest,
    result: Result<EngineCalls, Error>,
)
    requires
        controls(before, after, payload, result),
        before.session() != Some(payload.session_key@),
    ensures
        result is Err,
        after == before,
{
}

/// A request gets the engine that it names, and GStreamer where it names none,
/// exactly where that engine is compiled; otherwise it is said what to do.
pub proof fn named_backends_are_chosen(runtimes: Runtimes, name: Seq<char>)
    ensures
        runtimes.gstreamer ==> choice(runtimes, None) == Ok::<Backend, Failure>(
            Backend::Gstreamer,
        ) && choice(runtimes, Some("gstreamer"@)) == Ok::<Backend, Failure>(Backend::Gstreamer),
        runtimes.mpv ==> choice(runtimes, Some("mpv"@)) == Ok::<Backend, Failure>(Backend::Mpv),
        !runtimes.gstreamer ==> choice(runtimes, None) == Err::<Backend, Failure>(
            Failure::RuntimeUnavailable(
                "the default gstreamer backend was not compiled; request 'mpv' explicitly or enable gstreamer-runtime"@,
            ),
        ),
        !runtimes.gstreamer ==> choice(runtimes, Some("gstreamer"@)) == Err::<Backend, Failure>(
            Failure::RuntimeUnavailable(
                "the gstreamer backend was not compiled; enable gstreamer-runtime"@,
            ),
        ),
        !runtimes.mpv ==> choice(runtimes, Some("mpv"@)) == Err::<Backend, Failure>(
            Failure::RuntimeUnavailable("the mpv backend was not compiled; enable mpv-runtime"@),
        ),
        name != "gstreamer"@ && name != "mpv"@ ==> choice(runtimes, Some(name)) == Err::<
            Backend,
            Failure,
        >(Failure::InvalidRequest("backend '"@ + name + "' is not available on Linux"@)),
{
    reveal_strlit("gstreamer");
    reveal_strlit("mpv");
    assert("gstreamer"@.len() != "mpv"@.len());
}

/// A request is let through exactly when an engine is in use that is compiled,
/// and whose player has the session that the request names.
pub proof fn only_the_open_session_is_let_through(desktop: LinuxDesktop, requested: Seq<char>)
    ensures
        turned_away(desktop, requested) is None <==> match desktop.active {
            None => false,
            Some(Backend::Gstreamer) => desktop.runtimes.gstreamer && (
            desktop.gstreamer matches Some(player) && player.session_key@ == requested),
            Some(Backend::Mpv) => desktop.runtimes.mpv && (desktop.mpv matches Some(player)
                && player.session_key@ == requested),
        },
        desktop.active matches Some(backend) ==> desktop.route() == Ok::<Backend, Failure>(backend),
{
}

/// Only the engine in use is asked: the other player stays as it is, and the
/// calls are for the engine that is in use.
pub proof fn requests_go_to_the_engine_in_use(
    before: LinuxDesktop,
    after: LinuxDesktop,
    payload: NativeControlRequest,
    result: Result<EngineCalls, Error>,
)
    requires
        controls(before, after, payload, result),
    ensures
        after.active == before.active,
        after.runtimes == before.runtimes,
        after.mpv == before.mpv,
        before.active != Some(Backend::Gstreamer) ==> after.gstreamer == before.gstreamer,
        result matches Ok(calls) ==> {
            &&& before.active == Some(Backend::Gstreamer) ==> calls is Gstreamer
            &&& before.active == Some(Backend::Mpv) ==> calls is Mpv
            &&& before.active is Some
        },
        before.active == Some(Backend::Mpv) && before.runtimes.mpv ==> match result {
            Ok(EngineCalls::Mpv(list)) => {
                &&& list@.len() == 1
                &&& linux_mpv::session::controlled(before.mpv, payload) == Ok::<
                    linux_mpv::Call,
                    Failure,
                >(list@[0]@)
            },
            Ok(EngineCalls::Gstreamer(_)) => false,
            Err(error) => linux_mpv::session::controlled(before.mpv, payload) == Err::<
                linux_mpv::Call,
                Failure,
            >(error@),
        },
{
    if let Ok(EngineCalls::Mpv(list)) = result {
        assert(linux_mpv::calls(list@).len() == list@.len());
        if list@.len() == 1 {
            assert(linux_mpv::calls(list@)[0] == list@[0]@);
        }
    }
}

/// Closing silences the engine in use and hides its picture; without a player
/// there is nothing to do.
pub proof fn closing_silences_the_engine(desktop: LinuxDesktop)
    ensures
        desktop.gstreamer is Some ==> (resting(desktop, Backend::Gstreamer) matches Talk::Gstreamer(
            list,
        ) && list[0] == linux_gstreamer::Call::SetState(linux_gstreamer::EngineState::Ready)
            && list.contains(linux_gstreamer::Call::HideWidget)),
        desktop.mpv is Some ==> (resting(desktop, Backend::Mpv) matches Talk::Mpv(list) && list[0]
            == linux_mpv::Call::Stop && list.contains(linux_mpv::Call::HideWidget)),
        desktop.gstreamer is None ==> (resting(desktop, Backend::Gstreamer)
            matches Talk::Gstreamer(list) && list.len() == 0),
        desktop.mpv is None ==> (resting(desktop, Backend::Mpv) matches Talk::Mpv(list)
            && list.len() == 0),
{
    let first = linux_gstreamer::session::parking(true);
    let second = linux_mpv::session::parking(true);
    assert(first[1] == linux_gstreamer::Call::HideWidget);
    assert(second[1] == linux_mpv::Call::HideWidget);
}

/// To make room, GStreamer is put to rest and keeps its player, while mpv is
/// given up; the engine that was not to go keeps its player as it is.
pub proof fn room_is_made_for_another(before: LinuxDesktop, after: LinuxDesktop, plan: OpenPlan)
    requires
        makes_room(before, after, plan),
    ensures
        plan.close == Some(Backend::Mpv) ==> after.mpv is None,
        plan.close != Some(Backend::Mpv) ==> after.mpv == before.mpv,
        plan.close != Some(Backend::Gstreamer) ==> linux_gstreamer::in_slot(after.gstreamer)
            == linux_gstreamer::in_slot(before.gstreamer),
        plan.close == Some(Backend::Gstreamer) && before.gstreamer is Some ==> {
            &&& after.gstreamer is Some
            &&& after.gstreamer->0@.session_key.len() == 0
            &&& after.gstreamer->0@.tracks.len() == 0
        },
        after.active is Some ==> after.active == Some(plan.requested) && after.active
            == before.active,
{
}

/// An engine that opened is in use; one that failed changes nothing.
pub proof fn opened_engines_are_in_use(before: LinuxDesktop, requested: Backend)
    ensures
        in_use(before, requested, true).active == Some(requested),
        in_use(before, requested, true).gstreamer == before.gstreamer,
        in_use(before, requested, true).mpv == before.mpv,
        in_use(before, requested, true).runtimes == before.runtimes,
        in_use(before, requested, false) == before,
{
}

/// The answer is exactly the engine that was chosen, or the failure; and a name
/// is taken as it is written.
pub proof fn answers_give_the_choice(
    result: Result<Backend, Error>,
    backend: Backend,
    failure: Failure,
    name: &str,
)
    ensures
        chooses(result, Ok(backend)) <==> result == Ok::<Backend, Error>(backend),
        chooses(result, Err(failure)) <==> (result matches Err(error) && error@ == failure),
        name_in(Some(name)) == Some(name@),
        name_in(None) is None,
{
}

/// Requests to an engine that is not compiled are told so.
pub proof fn missing_engines_say_so(desktop: LinuxDesktop, requested: Seq<char>)
    requires
        desktop.active is Some,
        !desktop.runtimes.has(desktop.active->0),
    ensures
        desktop.engine() == Err::<Backend, Failure>(
            Failure::RuntimeUnavailable("the requested Linux playback backend was not compiled"@),
        ),
        turned_away(desktop, requested) == Some(
            Failure::RuntimeUnavailable("the requested Linux playback backend was not compiled"@),
        ),
        desktop.runtimes.has(Backend::Gstreamer) == desktop.runtimes.gstreamer,
        desktop.runtimes.has(Backend::Mpv) == desktop.runtimes.mpv,
{
}

/// The calls say to which engine they go, and what.
pub proof fn talks_say_what_they_are(talk: EngineCalls)
    ensures
        talk matches EngineCalls::Gstreamer(list) ==> talk@ == Talk::Gstreamer(
            linux_gstreamer::calls(list@),
        ),
        talk matches EngineCalls::Mpv(list) ==> talk@ == Talk::Mpv(linux_mpv::calls(list@)),
{
}

/// Exactly the other engine has to go, and only when it plays; the source is
/// opened on the engine that was asked for.
pub proof fn only_the_other_engine_goes(active: Option<Backend>, requested: Backend)
    ensures
        planned(active, requested).requested == requested,
        planned(active, requested).close is Some <==> active is Some && active->0 != requested,
        planned(active, requested).close matches Some(backend) ==> active == Some(backend),
{
}

} // verus!
