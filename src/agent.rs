//! The agent's decisions: from its state and an event (discovery finished, a
//! configure event, a signal) to its next state and the requests to send.
use crate::capability::Capability;
use crate::client::Client;
use crate::protocol::{
    configured, issue, lemma_push, no_objects, receive_configure, run, valid, Layer, Objects,
    Request,
};
use vstd::prelude::*;

verus! {

/// Width of the pixel buffer, in pixels.
pub const BUFFER_WIDTH: i32 = 1;

/// Height of the pixel buffer, in pixels.
pub const BUFFER_HEIGHT: i32 = 1;

/// Bytes per ARGB8888 pixel.
pub const BYTES_PER_PIXEL: i32 = 4;

/// Where the agent is in its life.
#[derive(Clone, Copy, Debug, PartialEq, Eq, Structural)]
pub enum Phase {
    /// Capabilities are being discovered; nothing is created yet.
    Discovering,
    /// The surface is created and committed; no configure has arrived.
    AwaitingConfigure,
    /// A configure was acknowledged; the buffer is not attached yet.
    Configured,
    /// The surface is ready; signals are handled.
    Ready,
    /// Everything is destroyed; only the final round-trip remains.
    Stopped,
}

/// A signal from the outside, in arrival order.
#[derive(Clone, Copy, Debug, PartialEq, Eq, Structural)]
pub enum Signal {
    Toggle,
    Terminate,
}

/// A status line the agent reports.
#[derive(Clone, Copy, Debug, PartialEq, Eq, Structural)]
pub enum Status {
    Activated,
    Deactivated,
    Quitting,
}

impl Status {
    /// The line printed for this status.
    pub fn label(&self) -> (r: &'static str)
        ensures
            r@ == match *self {
                Status::Activated => "activated"@,
                Status::Deactivated => "deactivated"@,
                Status::Quitting => "quitting"@,
            },
    {
        match self {
            Status::Activated => "activated",
            Status::Deactivated => "deactivated",
            Status::Quitting => "quitting",
        }
    }
}

/// Why setup cannot go on.
#[derive(Clone, Copy, Debug, PartialEq, Eq, Structural)]
pub enum SetupError {
    /// The compositor answered the first commit with no configure event.
    ConfigureMissing,
}

/// The requests of one transition and the status line it reports.
#[derive(Debug)]
pub struct Step {
    pub requests: Vec<Request>,
    pub status: Status,
}

/// The agent's state: its phase and the protocol objects it holds.
#[derive(Clone, Copy, Debug)]
pub struct Agent {
    pub phase: Phase,
    pub objects: Objects,
}

/// All four capabilities are bound.
pub open spec fn all_bound(o: Objects) -> bool {
    o.compositor && o.shm && o.layer_shell && o.inhibit_manager
}

/// `o` with all four capabilities bound.
pub open spec fn with_capabilities(o: Objects) -> Objects {
    Objects { compositor: true, shm: true, layer_shell: true, inhibit_manager: true, ..o }
}

/// The anchoring surface's setup: a 1x1 layer surface anchored top-left that
/// reserves no screen space, then the commit that asks for a configure.
pub open spec fn setup_requests(layer: Layer) -> Seq<Request> {
    seq![
        Request::CreateSurface,
        Request::GetLayerSurface { layer },
        Request::SetSize { width: 1, height: 1 },
        Request::SetAnchor { top: true, bottom: false, left: true, right: false },
        Request::SetExclusiveZone { zone: 0 },
        Request::Commit,
    ]
}

/// The pixel buffer's setup: a pool of width * height * 4 bytes, one buffer over
/// all of it, the pool dropped at once, the buffer attached and committed.
pub open spec fn buffer_requests() -> Seq<Request> {
    seq![
        Request::CreatePool { size: (BUFFER_WIDTH * BUFFER_HEIGHT * BYTES_PER_PIXEL) as i32 },
        Request::CreateBuffer {
            offset: 0,
            width: BUFFER_WIDTH,
            height: BUFFER_HEIGHT,
            stride: (BUFFER_WIDTH * BYTES_PER_PIXEL) as i32,
        },
        Request::DestroyPool,
        Request::Attach,
        Request::Commit,
    ]
}

/// The destroy requests of shutdown, after the inhibitor's: children before the
/// objects they reference, then the capability handles.
pub open spec fn teardown_requests() -> Seq<Request> {
    seq![
        Request::DestroyLayerSurface,
        Request::DestroySurface,
        Request::DestroyBuffer,
        Request::ReleaseCapabilities,
    ]
}

/// The requests a signal causes.
pub open spec fn signal_requests(a: Agent, s: Signal) -> Seq<Request> {
    match s {
        Signal::Toggle => if a.objects.inhibitor {
            seq![Request::DestroyInhibitor]
        } else {
            seq![Request::CreateInhibitor]
        },
        Signal::Terminate => if a.objects.inhibitor {
            seq![Request::DestroyInhibitor] + teardown_requests()
        } else {
            teardown_requests()
        },
    }
}

/// The status line a signal causes.
pub open spec fn signal_status(a: Agent, s: Signal) -> Status {
    match s {
        Signal::Toggle => if a.objects.inhibitor {
            Status::Deactivated
        } else {
            Status::Activated
        },
        Signal::Terminate => Status::Quitting,
    }
}

/// The agent after a signal.
pub open spec fn after_signal(a: Agent, s: Signal) -> Agent {
    Agent {
        phase: if s == Signal::Terminate {
            Phase::Stopped
        } else {
            a.phase
        },
        objects: run(a.objects, signal_requests(a, s)),
    }
}

impl Agent {
    /// The objects that exist in each phase.
    pub open spec fn wf(&self) -> bool {
        let o = self.objects;
        match self.phase {
            Phase::Discovering => o == no_objects(),
            Phase::AwaitingConfigure => all_bound(o) && o.surface && o.layer_surface && !o.pool
                && !o.buffer && !o.inhibitor && o.last_configure is None,
            Phase::Configured => all_bound(o) && o.surface && o.layer_surface && !o.pool
                && !o.buffer && !o.inhibitor && configured(o),
            Phase::Ready => all_bound(o) && o.surface && o.layer_surface && o.buffer && !o.pool
                && configured(o),
            Phase::Stopped => !o.surface && !o.layer_surface && !o.buffer && !o.pool
                && !o.inhibitor && !o.layer_shell && !o.inhibit_manager,
        }
    }

    /// The surface exists, so a configure event for it can arrive.
    pub open spec fn spec_accepts_configure(&self) -> bool {
        self.phase == Phase::AwaitingConfigure || self.phase == Phase::Configured || self.phase
            == Phase::Ready
    }

    /// An agent that has bound and created nothing.
    pub fn new() -> (r: Agent)
        ensures
            r.phase == Phase::Discovering,
            r.objects == no_objects(),
            r.wf(),
    {
        Agent { phase: Phase::Discovering, objects: Objects::none() }
    }

    /// Whether signals are being handled.
    pub fn is_running(&self) -> (r: bool)
        ensures
            r == (self.phase == Phase::Ready),
    {
        self.phase == Phase::Ready
    }

    /// Whether a configure event may be handed to `on_configure`.
    pub fn accepts_configure(&self) -> (r: bool)
        ensures
            r == self.spec_accepts_configure(),
    {
        match self.phase {
            Phase::AwaitingConfigure | Phase::Configured | Phase::Ready => true,
            _ => false,
        }
    }

    /// Ends discovery. When a capability is unbound it is returned, the first in
    /// table order, and nothing is created. Otherwise the anchoring surface is created
    /// and committed, and a configure event is awaited.
    pub fn start(&mut self, client: &Client, layer: Layer) -> (r: Result<Vec<Request>, Capability>)
        requires
            old(self).wf(),
            old(self).phase == Phase::Discovering,
        ensures
            final(self).wf(),
            match r {
                Ok(v) => {
                    &&& client.spec_first_missing() is None
                    &&& v@ == setup_requests(layer)
                    &&& valid(with_capabilities(old(self).objects), v@)
                    &&& final(self).objects == run(with_capabilities(old(self).objects), v@)
                    &&& final(self).phase == Phase::AwaitingConfigure
                },
                Err(c) => client.spec_first_missing() == Some(c) && *final(self) == *old(self),
            },
    {
        match client.first_missing() {
            Some(c) => {
                return Err(c);
            },
            None => {},
        }
        self.objects.compositor = true;
        self.objects.shm = true;
        self.objects.layer_shell = true;
        self.objects.inhibit_manager = true;
        let ghost start = self.objects;
        let mut out: Vec<Request> = Vec::new();
        issue(&mut out, &mut self.objects, Request::CreateSurface, Ghost(start));
        issue(&mut out, &mut self.objects, Request::GetLayerSurface { layer }, Ghost(start));
        issue(
            &mut out,
            &mut self.objects,
            Request::SetSize { width: 1, height: 1 },
            Ghost(start),
        );
        issue(
            &mut out,
            &mut self.objects,
            Request::SetAnchor { top: true, bottom: false, left: true, right: false },
            Ghost(start),
        );
        issue(&mut out, &mut self.objects, Request::SetExclusiveZone { zone: 0 }, Ghost(start));
        issue(&mut out, &mut self.objects, Request::Commit, Ghost(start));
        self.phase = Phase::AwaitingConfigure;
        assert(out@ =~= setup_requests(layer));
        Ok(out)
    }

    /// Handles a configure event: its serial is acknowledged at once, so no commit
    /// can follow before it.
    pub fn on_configure(&mut self, serial: u32) -> (r: Vec<Request>)
        requires
            old(self).wf(),
            old(self).spec_accepts_configure(),
        ensures
            final(self).wf(),
            r@ == seq![Request::AckConfigure { serial }],
            valid(receive_configure(old(self).objects, serial), r@),
            final(self).objects == run(receive_configure(old(self).objects, serial), r@),
            final(self).phase == if old(self).phase == Phase::AwaitingConfigure {
                Phase::Configured
            } else {
                old(self).phase
            },
    {
        self.objects.last_configure = Some(serial);
        self.objects.acked = false;
        let ghost start = self.objects;
        let mut out: Vec<Request> = Vec::new();
        issue(&mut out, &mut self.objects, Request::AckConfigure { serial }, Ghost(start));
        if self.phase == Phase::AwaitingConfigure {
            self.phase = Phase::Configured;
        }
        assert(out@ =~= seq![Request::AckConfigure { serial }]);
        out
    }

    /// Finishes setup once the first configure is acknowledged: a 1x1 pixel buffer is
    /// attached and committed, and the inhibitor starts inactive. Without a configure
    /// nothing is sent and setup cannot go on.
    pub fn finish_setup(&mut self) -> (r: Result<Step, SetupError>)
        requires
            old(self).wf(),
            old(self).phase == Phase::AwaitingConfigure || old(self).phase == Phase::Configured,
        ensures
            final(self).wf(),
            match r {
                Ok(step) => {
                    &&& old(self).phase == Phase::Configured
                    &&& step.requests@ == buffer_requests()
                    &&& step.status == Status::Deactivated
                    &&& valid(old(self).objects, step.requests@)
                    &&& final(self).objects == run(old(self).objects, step.requests@)
                    &&& final(self).phase == Phase::Ready
                    &&& !final(self).objects.inhibitor
                },
                Err(e) => {
                    &&& old(self).phase == Phase::AwaitingConfigure
                    &&& e == SetupError::ConfigureMissing
                    &&& *final(self) == *old(self)
                },
            },
    {
        if self.phase == Phase::AwaitingConfigure {
            return Err(SetupError::ConfigureMissing);
        }
        let stride: i32 = BUFFER_WIDTH * BYTES_PER_PIXEL;
        let size: i32 = BUFFER_HEIGHT * stride;
        let ghost start = self.objects;
        let mut out: Vec<Request> = Vec::new();
        issue(&mut out, &mut self.objects, Request::CreatePool { size }, Ghost(start));
        issue(
            &mut out,
            &mut self.objects,
            Request::CreateBuffer { offset: 0, width: BUFFER_WIDTH, height: BUFFER_HEIGHT, stride },
            Ghost(start),
        );
        issue(&mut out, &mut self.objects, Request::DestroyPool, Ghost(start));
        issue(&mut out, &mut self.objects, Request::Attach, Ghost(start));
        issue(&mut out, &mut self.objects, Request::Commit, Ghost(start));
        self.phase = Phase::Ready;
        assert(out@ =~= buffer_requests());
        Ok(Step { requests: out, status: Status::Deactivated })
    }

    /// Handles a signal. A toggle creates the inhibitor when there is none and
    /// destroys it otherwise. Termination destroys the inhibitor first, if there is
    /// one, then the layer surface, the surface and the buffer, and releases the
    /// capability handles.
    pub fn on_signal(&mut self, s: Signal) -> (r: Step)
        requires
            old(self).wf(),
            old(self).phase == Phase::Ready,
        ensures
            final(self).wf(),
            r.requests@ == signal_requests(*old(self), s),
            r.status == signal_status(*old(self), s),
            valid(old(self).objects, r.requests@),
            *final(self) == after_signal(*old(self), s),
    {
        let ghost start = self.objects;
        let ghost before = *self;
        let mut out: Vec<Request> = Vec::new();
        let active = self.objects.inhibitor;
        let status = match s {
            Signal::Toggle => {
                if active {
                    issue(&mut out, &mut self.objects, Request::DestroyInhibitor, Ghost(start));
                    Status::Deactivated
                } else {
                    issue(&mut out, &mut self.objects, Request::CreateInhibitor, Ghost(start));
                    Status::Activated
                }
            },
            Signal::Terminate => {
                if active {
                    issue(&mut out, &mut self.objects, Request::DestroyInhibitor, Ghost(start));
                }
                issue(&mut out, &mut self.objects, Request::DestroyLayerSurface, Ghost(start));
                issue(&mut out, &mut self.objects, Request::DestroySurface, Ghost(start));
                issue(&mut out, &mut self.objects, Request::DestroyBuffer, Ghost(start));
                issue(&mut out, &mut self.objects, Request::ReleaseCapabilities, Ghost(start));
                self.phase = Phase::Stopped;
                Status::Quitting
            },
        };
        assert(out@ =~= signal_requests(before, s));
        Step { requests: out, status }
    }
}

/// Toggling twice from inactive reports "activated" then "deactivated" and returns
/// the agent to the state it started in, with no inhibitor left.
pub proof fn toggle_twice_restores(a: Agent)
    requires
        a.wf(),
        a.phase == Phase::Ready,
        !a.objects.inhibitor,
    ensures
        seq![
            signal_status(a, Signal::Toggle),
            signal_status(after_signal(a, Signal::Toggle), Signal::Toggle),
        ] == seq![Status::Activated, Status::Deactivated],
        after_signal(a, Signal::Toggle).objects.inhibitor,
        after_signal(after_signal(a, Signal::Toggle), Signal::Toggle) == a,
        !after_signal(after_signal(a, Signal::Toggle), Signal::Toggle).objects.inhibitor,
{
    let e = Seq::<Request>::empty();
    lemma_push(a.objects, e, Request::CreateInhibitor);
    assert(seq![Request::CreateInhibitor] =~= e.push(Request::CreateInhibitor));
    let b = after_signal(a, Signal::Toggle);
    lemma_push(b.objects, e, Request::DestroyInhibitor);
    assert(seq![Request::DestroyInhibitor] =~= e.push(Request::DestroyInhibitor));
}

/// Termination destroys the inhibitor, when there is one, before the surface, and
/// sends no inhibitor destroy when there is none. Every request of it is accepted,
/// and afterwards neither the inhibitor nor the surface exists.
pub proof fn terminate_destroys_inhibitor_first(a: Agent)
    requires
        a.wf(),
        a.phase == Phase::Ready,
    ensures
        valid(a.objects, signal_requests(a, Signal::Terminate)),
        a.objects.inhibitor ==> signal_requests(a, Signal::Terminate)[0]
            == Request::DestroyInhibitor,
        !a.objects.inhibitor ==> forall|i: int|
            0 <= i < signal_requests(a, Signal::Terminate).len() ==> #[trigger] signal_requests(
                a,
                Signal::Terminate,
            )[i] != Request::DestroyInhibitor,
        forall|i: int, j: int|
            0 <= i < signal_requests(a, Signal::Terminate).len() && 0 <= j < signal_requests(
                a,
                Signal::Terminate,
            ).len() && #[trigger] signal_requests(a, Signal::Terminate)[i]
                == Request::DestroyInhibitor && #[trigger] signal_requests(a, Signal::Terminate)[j]
                == Request::DestroySurface ==> i < j,
        !after_signal(a, Signal::Terminate).objects.inhibitor,
        !after_signal(a, Signal::Terminate).objects.surface,
{
    let o = a.objects;
    let s0 = if o.inhibitor {
        seq![Request::DestroyInhibitor]
    } else {
        Seq::<Request>::empty()
    };
    if o.inhibitor {
        lemma_push(o, Seq::empty(), Request::DestroyInhibitor);
        assert(s0 =~= Seq::<Request>::empty().push(Request::DestroyInhibitor));
    }
    let s1 = s0.push(Request::DestroyLayerSurface);
    let s2 = s1.push(Request::DestroySurface);
    let s3 = s2.push(Request::DestroyBuffer);
    let s4 = s3.push(Request::ReleaseCapabilities);
    lemma_push(o, s0, Request::DestroyLayerSurface);
    lemma_push(o, s1, Request::DestroySurface);
    lemma_push(o, s2, Request::DestroyBuffer);
    lemma_push(o, s3, Request::ReleaseCapabilities);
    assert(signal_requests(a, Signal::Terminate) =~= s4);
}

} // verus!
