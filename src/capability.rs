//! Capability discovery: which advertised globals are bound, and at which version.
use vstd::prelude::*;
use wayland_client::protocol::wl_compositor::WlCompositor;
use wayland_client::protocol::wl_shm::WlShm;
use wayland_client::Proxy;
use wayland_protocols::wp::idle_inhibit::zv1::client::zwp_idle_inhibit_manager_v1::ZwpIdleInhibitManagerV1;
use wayland_protocols_wlr::layer_shell::v1::client::zwlr_layer_shell_v1::ZwlrLayerShellV1;

verus! {

/// A server capability the agent needs, listed in the order it checks them.
#[derive(Clone, Copy, Debug, PartialEq, Eq, Structural)]
pub enum Capability {
    Compositor,
    IdleInhibitManager,
    LayerShell,
    Shm,
}

/// One row of the requirement table.
#[derive(Clone, Copy, Debug, PartialEq, Eq, Structural)]
pub struct Requirement {
    /// The lowest advertised version that is usable.
    pub minimum_version: u32,
    /// The highest version the agent binds.
    pub bind_version: u32,
}

pub open spec fn spec_requirement(c: Capability) -> Requirement {
    match c {
        Capability::Compositor => Requirement { minimum_version: 6, bind_version: 6 },
        Capability::IdleInhibitManager => Requirement { minimum_version: 1, bind_version: 1 },
        Capability::LayerShell => Requirement { minimum_version: 4, bind_version: 4 },
        Capability::Shm => Requirement { minimum_version: 2, bind_version: 2 },
    }
}

/// The protocol interface name under which a capability is advertised.
pub open spec fn interface_name(c: Capability) -> Seq<char> {
    match c {
        Capability::Compositor => "wl_compositor"@,
        Capability::IdleInhibitManager => "zwp_idle_inhibit_manager_v1"@,
        Capability::LayerShell => "zwlr_layer_shell_v1"@,
        Capability::Shm => "wl_shm"@,
    }
}

pub open spec fn min_u32(a: u32, b: u32) -> u32 {
    if a <= b {
        a
    } else {
        b
    }
}

/// Whether an advertisement of interface `c` at `version` is usable, and at which
/// version it is bound.
pub open spec fn bind_version_for(c: Capability, version: u32) -> Option<u32> {
    if version >= spec_requirement(c).minimum_version {
        Some(min_u32(version, spec_requirement(c).bind_version))
    } else {
        None
    }
}

/// The capability an interface name stands for, if any.
pub open spec fn capability_named(interface: Seq<char>) -> Option<Capability> {
    if interface == interface_name(Capability::Compositor) {
        Some(Capability::Compositor)
    } else if interface == interface_name(Capability::IdleInhibitManager) {
        Some(Capability::IdleInhibitManager)
    } else if interface == interface_name(Capability::LayerShell) {
        Some(Capability::LayerShell)
    } else if interface == interface_name(Capability::Shm) {
        Some(Capability::Shm)
    } else {
        None
    }
}

/// What one advertisement yields: the capability and the version to bind, or nothing.
pub open spec fn spec_match(interface: Seq<char>, version: u32) -> Option<(Capability, u32)> {
    match capability_named(interface) {
        Some(c) => match bind_version_for(c, version) {
            Some(v) => Some((c, v)),
            None => None,
        },
        None => None,
    }
}

/// The requirement table row of a capability.
pub fn requirement(c: Capability) -> (r: Requirement)
    ensures
        r == spec_requirement(c),
{
    match c {
        Capability::Compositor => Requirement { minimum_version: 6, bind_version: 6 },
        Capability::IdleInhibitManager => Requirement { minimum_version: 1, bind_version: 1 },
        Capability::LayerShell => Requirement { minimum_version: 4, bind_version: 4 },
        Capability::Shm => Requirement { minimum_version: 2, bind_version: 2 },
    }
}

/// Relies on `<WlCompositor as Proxy>::interface()`: its name is the protocol's "wl_compositor".
#[verifier::external_body]
fn compositor_interface() -> (r: &'static str)
    ensures
        r@ == interface_name(Capability::Compositor),
{
    WlCompositor::interface().name
}

/// Relies on `<ZwpIdleInhibitManagerV1 as Proxy>::interface()`: its name is the
/// protocol's "zwp_idle_inhibit_manager_v1".
#[verifier::external_body]
fn idle_inhibit_manager_interface() -> (r: &'static str)
    ensures
        r@ == interface_name(Capability::IdleInhibitManager),
{
    ZwpIdleInhibitManagerV1::interface().name
}

/// Relies on `<ZwlrLayerShellV1 as Proxy>::interface()`: its name is the protocol's
/// "zwlr_layer_shell_v1".
#[verifier::external_body]
fn layer_shell_interface() -> (r: &'static str)
    ensures
        r@ == interface_name(Capability::LayerShell),
{
    ZwlrLayerShellV1::interface().name
}

/// Relies on `<WlShm as Proxy>::interface()`: its name is the protocol's "wl_shm".
#[verifier::external_body]
fn shm_interface() -> (r: &'static str)
    ensures
        r@ == interface_name(Capability::Shm),
{
    WlShm::interface().name
}

/// The interface name under which `c` is advertised.
pub fn interface_of(c: Capability) -> (r: &'static str)
    ensures
        r@ == interface_name(c),
{
    match c {
        Capability::Compositor => compositor_interface(),
        Capability::IdleInhibitManager => idle_inhibit_manager_interface(),
        Capability::LayerShell => layer_shell_interface(),
        Capability::Shm => shm_interface(),
    }
}

fn same_name(a: &str, b: &str) -> (r: bool)
    ensures
        r == (a@ == b@),
{
    let x = a.to_owned();
    let y = b.to_owned();
    x == y
}

/// Looks an advertised interface name up in the requirement table.
pub fn capability_of(interface: &str) -> (r: Option<Capability>)
    ensures
        r == capability_named(interface@),
{
    if same_name(interface, compositor_interface()) {
        Some(Capability::Compositor)
    } else if same_name(interface, idle_inhibit_manager_interface()) {
        Some(Capability::IdleInhibitManager)
    } else if same_name(interface, layer_shell_interface()) {
        Some(Capability::LayerShell)
    } else if same_name(interface, shm_interface()) {
        Some(Capability::Shm)
    } else {
        None
    }
}

/// Decides one registry advertisement: the capability it provides and the version to
/// bind it at, or `None` when the interface is not required or its version is too old.
pub fn match_global(interface: &str, version: u32) -> (r: Option<(Capability, u32)>)
    ensures
        r == spec_match(interface@, version),
{
    match capability_of(interface) {
        Some(c) => {
            let req = requirement(c);
            if version >= req.minimum_version {
                let v = if version <= req.bind_version {
                    version
                } else {
                    req.bind_version
                };
                Some((c, v))
            } else {
                None
            }
        },
        None => None,
    }
}

/// Binding by the requirement table: an advertisement of a required interface is
/// bound exactly when its version reaches the row's minimum, and then at the smaller
/// of the advertised version and the row's bind version.
pub proof fn binding_follows_requirement(c: Capability, version: u32)
    ensures
        spec_match(interface_name(c), version) is Some <==> version
            >= spec_requirement(c).minimum_version,
        version >= spec_requirement(c).minimum_version ==> spec_match(interface_name(c), version)
            == Some((c, min_u32(version, spec_requirement(c).bind_version))),
{
    reveal_strlit("wl_compositor");
    reveal_strlit("zwp_idle_inhibit_manager_v1");
    reveal_strlit("zwlr_layer_shell_v1");
    reveal_strlit("wl_shm");
    assert(interface_name(Capability::Compositor).len() == 13);
    assert(interface_name(Capability::IdleInhibitManager).len() == 27);
    assert(interface_name(Capability::LayerShell).len() == 19);
    assert(interface_name(Capability::Shm).len() == 6);
    assert(capability_named(interface_name(c)) == Some(c));
}

/// One registry advertisement of a global service.
#[derive(Debug)]
pub struct Global {
    /// The server's numeric name for the global.
    pub name: u32,
    pub interface: String,
    pub version: u32,
}

/// A decision to bind global `name` as `capability` at `version`.
#[derive(Clone, Copy, Debug, PartialEq, Eq, Structural)]
pub struct Binding {
    pub name: u32,
    pub capability: Capability,
    pub version: u32,
}

/// The first advertisement at or after index `i` that provides `c` usably.
pub open spec fn first_binding(gs: Seq<Global>, c: Capability, i: int) -> Option<Binding>
    decreases gs.len() - i,
{
    if i < 0 || i >= gs.len() {
        None
    } else {
        match spec_match(gs[i].interface@, gs[i].version) {
            Some((d, v)) if d == c => Some(Binding { name: gs[i].name, capability: c, version: v }),
            _ => first_binding(gs, c, i + 1),
        }
    }
}

pub open spec fn option_seq(o: Option<Binding>) -> Seq<Binding> {
    match o {
        Some(b) => seq![b],
        None => Seq::empty(),
    }
}

/// The bindings made from a burst of advertisements: for each capability in table
/// order, its first usable advertisement, if any. A capability is bound once and
/// never replaced by a later advertisement.
pub open spec fn selection(gs: Seq<Global>) -> Seq<Binding> {
    option_seq(first_binding(gs, Capability::Compositor, 0)) + option_seq(
        first_binding(gs, Capability::IdleInhibitManager, 0),
    ) + option_seq(first_binding(gs, Capability::LayerShell, 0)) + option_seq(
        first_binding(gs, Capability::Shm, 0),
    )
}

fn find_binding(globals: &Vec<Global>, c: Capability) -> (r: Option<Binding>)
    ensures
        r == first_binding(globals@, c, 0),
{
    let mut i: usize = 0;
    while i < globals.len()
        invariant
            i <= globals@.len(),
            first_binding(globals@, c, 0) == first_binding(globals@, c, i as int),
        decreases globals@.len() - i,
    {
        let g = &globals[i];
        match match_global(g.interface.as_str(), g.version) {
            Some((d, v)) => {
                if d == c {
                    return Some(Binding { name: g.name, capability: c, version: v });
                }
            },
            None => {},
        }
        i = i + 1;
    }
    None
}

/// `c` as a one-element sequence when nothing provides it usably.
pub open spec fn missing_seq(c: Capability, o: Option<Binding>) -> Seq<Capability> {
    match o {
        Some(_) => Seq::empty(),
        None => seq![c],
    }
}

/// The capabilities, in table order, that no advertisement provides usably.
pub open spec fn missing(gs: Seq<Global>) -> Seq<Capability> {
    missing_seq(Capability::Compositor, first_binding(gs, Capability::Compositor, 0))
        + missing_seq(
        Capability::IdleInhibitManager,
        first_binding(gs, Capability::IdleInhibitManager, 0),
    ) + missing_seq(Capability::LayerShell, first_binding(gs, Capability::LayerShell, 0))
        + missing_seq(Capability::Shm, first_binding(gs, Capability::Shm, 0))
}

fn push_found(out: &mut Vec<Binding>, lack: &mut Vec<Capability>, c: Capability, o: Option<Binding>)
    ensures
        final(out)@ == old(out)@ + option_seq(o),
        final(lack)@ == old(lack)@ + missing_seq(c, o),
{
    match o {
        Some(b) => {
            out.push(b);
            assert(final(out)@ =~= old(out)@ + option_seq(o));
            assert(old(lack)@ + missing_seq(c, o) =~= old(lack)@);
        },
        None => {
            lack.push(c);
            assert(old(out)@ + option_seq(o) =~= old(out)@);
            assert(final(lack)@ =~= old(lack)@ + missing_seq(c, o));
        },
    }
}

/// Chooses what to bind from the advertisements received during discovery: one
/// binding per capability, in table order, or the capabilities that nothing
/// provides usably.
pub fn select(globals: &Vec<Global>) -> (r: Result<Vec<Binding>, Vec<Capability>>)
    ensures
        match r {
            Ok(v) => missing(globals@).len() == 0 && v@ == selection(globals@),
            Err(m) => m@.len() > 0 && m@ == missing(globals@),
        },
{
    let mut out: Vec<Binding> = Vec::new();
    let mut lack: Vec<Capability> = Vec::new();
    push_found(
        &mut out,
        &mut lack,
        Capability::Compositor,
        find_binding(globals, Capability::Compositor),
    );
    push_found(
        &mut out,
        &mut lack,
        Capability::IdleInhibitManager,
        find_binding(globals, Capability::IdleInhibitManager),
    );
    push_found(
        &mut out,
        &mut lack,
        Capability::LayerShell,
        find_binding(globals, Capability::LayerShell),
    );
    push_found(&mut out, &mut lack, Capability::Shm, find_binding(globals, Capability::Shm));
    assert(out@ =~= selection(globals@));
    assert(lack@ =~= missing(globals@));
    if lack.len() == 0 {
        Ok(out)
    } else {
        Err(lack)
    }
}

} // verus!
