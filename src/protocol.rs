//! The protocol objects the agent owns, the requests it sends about them, and the
//! rules under which the compositor accepts each request.
use vstd::prelude::*;

verus! {

/// The stacking layer of the anchoring surface.
#[derive(Clone, Copy, Debug, PartialEq, Eq, Structural)]
pub enum Layer {
    Background,
    Bottom,
    Top,
    Overlay,
}

/// A request to the compositor.
#[derive(Clone, Copy, Debug, PartialEq, Eq, Structural)]
pub enum Request {
    /// Create the base surface from the compositor capability.
    CreateSurface,
    /// Give the base surface the layer role, on an output the compositor chooses.
    GetLayerSurface { layer: Layer },
    SetSize { width: u32, height: u32 },
    SetAnchor { top: bool, bottom: bool, left: bool, right: bool },
    SetExclusiveZone { zone: i32 },
    /// Ask the compositor to apply the base surface's pending state.
    Commit,
    AckConfigure { serial: u32 },
    /// Create a shared-memory pool over a fresh anonymous region of `size` bytes.
    CreatePool { size: i32 },
    /// Create an ARGB8888 buffer in the pool.
    CreateBuffer { offset: i32, width: i32, height: i32, stride: i32 },
    DestroyPool,
    /// Attach the buffer to the base surface at offset (0, 0).
    Attach,
    /// Create the idle inhibitor on the base surface.
    CreateInhibitor,
    DestroyInhibitor,
    DestroyLayerSurface,
    DestroySurface,
    DestroyBuffer,
    /// Release the layer-shell and idle-inhibit manager handles.
    ReleaseCapabilities,
}

/// Which protocol objects exist, and the configure handshake's progress.
#[derive(Clone, Copy, Debug)]
pub struct Objects {
    pub compositor: bool,
    pub shm: bool,
    pub layer_shell: bool,
    pub inhibit_manager: bool,
    pub surface: bool,
    pub layer_surface: bool,
    pub pool: bool,
    pub buffer: bool,
    pub inhibitor: bool,
    /// The serial of the most recently received configure event.
    pub last_configure: Option<u32>,
    /// Whether that serial has been acknowledged.
    pub acked: bool,
}

/// A configure event has arrived and is not acknowledged yet.
pub open spec fn pending_ack(o: Objects) -> bool {
    o.last_configure is Some && !o.acked
}

/// The surface has acknowledged a configure and has none outstanding.
pub open spec fn configured(o: Objects) -> bool {
    o.last_configure is Some && o.acked
}

/// Whether the compositor accepts `r` from a client whose objects are `o`.
pub open spec fn allowed(o: Objects, r: Request) -> bool {
    match r {
        Request::CreateSurface => o.compositor && !o.surface,
        Request::GetLayerSurface { .. } => o.layer_shell && o.surface && !o.layer_surface,
        Request::SetSize { .. } => o.layer_surface,
        Request::SetAnchor { .. } => o.layer_surface,
        Request::SetExclusiveZone { .. } => o.layer_surface,
        Request::Commit => o.surface && !pending_ack(o),
        Request::AckConfigure { serial } => o.layer_surface && o.last_configure == Some(serial),
        Request::CreatePool { .. } => o.shm && !o.pool,
        Request::CreateBuffer { .. } => o.pool && !o.buffer,
        Request::DestroyPool => o.pool,
        Request::Attach => o.surface && o.buffer,
        Request::CreateInhibitor => o.inhibit_manager && o.surface && configured(o) && !o.inhibitor,
        Request::DestroyInhibitor => o.inhibitor,
        Request::DestroyLayerSurface => o.layer_surface,
        Request::DestroySurface => o.surface && !o.layer_surface && !o.inhibitor,
        Request::DestroyBuffer => o.buffer,
        Request::ReleaseCapabilities => !o.layer_surface && !o.inhibitor,
    }
}

/// The objects after the compositor has processed `r`.
pub open spec fn apply(o: Objects, r: Request) -> Objects {
    match r {
        Request::CreateSurface => Objects { surface: true, ..o },
        Request::GetLayerSurface { .. } => Objects { layer_surface: true, ..o },
        Request::AckConfigure { .. } => Objects { acked: true, ..o },
        Request::CreatePool { .. } => Objects { pool: true, ..o },
        Request::CreateBuffer { .. } => Objects { buffer: true, ..o },
        Request::DestroyPool => Objects { pool: false, ..o },
        Request::CreateInhibitor => Objects { inhibitor: true, ..o },
        Request::DestroyInhibitor => Objects { inhibitor: false, ..o },
        Request::DestroyLayerSurface => Objects { layer_surface: false, ..o },
        Request::DestroySurface => Objects { surface: false, ..o },
        Request::DestroyBuffer => Objects { buffer: false, ..o },
        Request::ReleaseCapabilities => Objects { layer_shell: false, inhibit_manager: false, ..o },
        _ => o,
    }
}

/// The objects after a configure event carrying `serial` has arrived.
pub open spec fn receive_configure(o: Objects, serial: u32) -> Objects {
    Objects { last_configure: Some(serial), acked: false, ..o }
}

/// The objects after the requests `s`, in order.
pub open spec fn run(o: Objects, s: Seq<Request>) -> Objects
    decreases s.len(),
{
    if s.len() == 0 {
        o
    } else {
        apply(run(o, s.drop_last()), s.last())
    }
}

/// Every request of `s` is accepted in the state the ones before it leave.
pub open spec fn valid(o: Objects, s: Seq<Request>) -> bool
    decreases s.len(),
{
    if s.len() == 0 {
        true
    } else {
        valid(o, s.drop_last()) && allowed(run(o, s.drop_last()), s.last())
    }
}

/// The objects of a client that has created nothing and bound nothing.
pub open spec fn no_objects() -> Objects {
    Objects {
        compositor: false,
        shm: false,
        layer_shell: false,
        inhibit_manager: false,
        surface: false,
        layer_surface: false,
        pool: false,
        buffer: false,
        inhibitor: false,
        last_configure: None,
        acked: false,
    }
}

impl Objects {
    pub fn none() -> (r: Objects)
        ensures
            r == no_objects(),
    {
        Objects {
            compositor: false,
            shm: false,
            layer_shell: false,
            inhibit_manager: false,
            surface: false,
            layer_surface: false,
            pool: false,
            buffer: false,
            inhibitor: false,
            last_configure: None,
            acked: false,
        }
    }

    /// Records that the compositor processed `r`.
    pub fn apply(&mut self, r: Request)
        ensures
            *final(self) == apply(*old(self), r),
    {
        match r {
            Request::CreateSurface => self.surface = true,
            Request::GetLayerSurface { .. } => self.layer_surface = true,
            Request::AckConfigure { .. } => self.acked = true,
            Request::CreatePool { .. } => self.pool = true,
            Request::CreateBuffer { .. } => self.buffer = true,
            Request::DestroyPool => self.pool = false,
            Request::CreateInhibitor => self.inhibitor = true,
            Request::DestroyInhibitor => self.inhibitor = false,
            Request::DestroyLayerSurface => self.layer_surface = false,
            Request::DestroySurface => self.surface = false,
            Request::DestroyBuffer => self.buffer = false,
            Request::ReleaseCapabilities => {
                self.layer_shell = false;
                self.inhibit_manager = false;
            },
            _ => {},
        }
    }
}

/// Appends `r` to the requests `out` sent since the objects were `start`.
pub(crate) fn issue(
    out: &mut Vec<Request>,
    objects: &mut Objects,
    r: Request,
    Ghost(start): Ghost<Objects>,
)
    requires
        valid(start, old(out)@),
        run(start, old(out)@) == *old(objects),
        allowed(*old(objects), r),
    ensures
        final(out)@ == old(out)@.push(r),
        *final(objects) == apply(*old(objects), r),
        valid(start, final(out)@),
        run(start, final(out)@) == *final(objects),
{
    proof {
        assert(old(out)@.push(r).drop_last() =~= old(out)@);
    }
    out.push(r);
    objects.apply(r);
}

/// Running and checking one more request.
pub proof fn lemma_push(o: Objects, s: Seq<Request>, r: Request)
    ensures
        run(o, s.push(r)) == apply(run(o, s), r),
        valid(o, s.push(r)) == (valid(o, s) && allowed(run(o, s), r)),
{
    assert(s.push(r).drop_last() =~= s);
}

/// A shared-memory pool may be destroyed as soon as its buffer exists: the buffer
/// stays alive and can still be attached to the surface.
pub proof fn buffer_outlives_pool(o: Objects)
    requires
        o.pool,
        o.buffer,
        o.surface,
    ensures
        allowed(o, Request::DestroyPool),
        apply(o, Request::DestroyPool).buffer,
        !apply(o, Request::DestroyPool).pool,
        allowed(apply(o, Request::DestroyPool), Request::Attach),
{
}

/// In a request sequence the compositor accepts, no commit is sent while a received
/// configure serial is still unacknowledged.
pub proof fn commit_only_after_ack(o: Objects, s: Seq<Request>)
    requires
        valid(o, s),
    ensures
        forall|i: int|
            0 <= i < s.len() && s[i] == Request::Commit ==> !pending_ack(
                #[trigger] run(o, s.take(i)),
            ),
    decreases s.len(),
{
    if s.len() > 0 {
        let p = s.drop_last();
        commit_only_after_ack(o, p);
        assert forall|i: int|
            0 <= i < s.len() && s[i] == Request::Commit implies !pending_ack(
                #[trigger] run(o, s.take(i)),
            ) by {
            if i < s.len() - 1 {
                assert(s.take(i) =~= p.take(i));
                assert(p[i] == s[i]);
            } else {
                assert(s.take(i) =~= p);
            }
        }
    }
}

} // verus!
