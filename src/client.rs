//! The bound capability handles.
use crate::capability::Capability;
use vstd::prelude::*;
use wayland_client::protocol::wl_compositor::WlCompositor;
use wayland_client::protocol::wl_shm::WlShm;
use wayland_protocols::wp::idle_inhibit::zv1::client::zwp_idle_inhibit_manager_v1::ZwpIdleInhibitManagerV1;
use wayland_protocols_wlr::layer_shell::v1::client::zwlr_layer_shell_v1::ZwlrLayerShellV1;

verus! {

#[verifier::external_type_specification]
#[verifier::external_body]
pub struct ExWlCompositor(WlCompositor);

#[verifier::external_type_specification]
#[verifier::external_body]
pub struct ExWlShm(WlShm);

#[verifier::external_type_specification]
#[verifier::external_body]
pub struct ExZwpIdleInhibitManagerV1(ZwpIdleInhibitManagerV1);

#[verifier::external_type_specification]
#[verifier::external_body]
pub struct ExZwlrLayerShellV1(ZwlrLayerShellV1);

/// Relies on the generated `zwlr_layer_shell_v1.destroy` request, which queues the
/// request and returns, or returns at once when the connection is gone.
pub assume_specification[ ZwlrLayerShellV1::destroy ](s: &ZwlrLayerShellV1);

/// Relies on the generated `zwp_idle_inhibit_manager_v1.destroy` request, which
/// queues the request and returns, or returns at once when the connection is gone.
pub assume_specification[ ZwpIdleInhibitManagerV1::destroy ](s: &ZwpIdleInhibitManagerV1);

/// The capability handles bound during discovery; each is bound at most once.
pub struct Client {
    pub compositor: Option<WlCompositor>,
    pub inhibit_manager: Option<ZwpIdleInhibitManagerV1>,
    pub wl_shm: Option<WlShm>,
    pub layer_shell: Option<ZwlrLayerShellV1>,
}

impl Client {
    /// Whether a handle for `c` is held.
    pub open spec fn bound(&self, c: Capability) -> bool {
        match c {
            Capability::Compositor => self.compositor is Some,
            Capability::IdleInhibitManager => self.inhibit_manager is Some,
            Capability::LayerShell => self.layer_shell is Some,
            Capability::Shm => self.wl_shm is Some,
        }
    }

    /// The first capability, in table order, that is not bound.
    pub open spec fn spec_first_missing(&self) -> Option<Capability> {
        if !self.bound(Capability::Compositor) {
            Some(Capability::Compositor)
        } else if !self.bound(Capability::IdleInhibitManager) {
            Some(Capability::IdleInhibitManager)
        } else if !self.bound(Capability::LayerShell) {
            Some(Capability::LayerShell)
        } else if !self.bound(Capability::Shm) {
            Some(Capability::Shm)
        } else {
            None
        }
    }

    /// A client with nothing bound.
    pub fn new() -> (r: Self)
        ensures
            r.compositor is None,
            r.inhibit_manager is None,
            r.wl_shm is None,
            r.layer_shell is None,
    {
        Self { compositor: None, inhibit_manager: None, wl_shm: None, layer_shell: None }
    }

    /// The first capability, in table order, that discovery left unbound.
    pub fn first_missing(&self) -> (r: Option<Capability>)
        ensures
            r == self.spec_first_missing(),
    {
        if self.compositor.is_none() {
            Some(Capability::Compositor)
        } else if self.inhibit_manager.is_none() {
            Some(Capability::IdleInhibitManager)
        } else if self.layer_shell.is_none() {
            Some(Capability::LayerShell)
        } else if self.wl_shm.is_none() {
            Some(Capability::Shm)
        } else {
            None
        }
    }

    /// Releases the handles that need an explicit destroy request: the layer shell
    /// and the idle-inhibit manager. The compositor and shared-memory handles stay.
    pub fn destroy_all(&mut self)
        ensures
            final(self).layer_shell is None,
            final(self).inhibit_manager is None,
            final(self).compositor == old(self).compositor,
            final(self).wl_shm == old(self).wl_shm,
    {
        if let Some(layer_shell) = self.layer_shell.take() {
            layer_shell.destroy();
        }
        if let Some(inhibit_manager) = self.inhibit_manager.take() {
            inhibit_manager.destroy();
        }
    }
}

} // verus!
