use wib::agent::{Agent, Phase, SetupError, Signal, Status};
use wib::capability::{
    interface_of, match_global, requirement, select, Binding, Capability, Global, Requirement,
};
use wib::client::Client;
use wib::protocol::{Layer, Objects, Request};

fn global(name: u32, interface: &str, version: u32) -> Global {
    Global { name, interface: interface.to_string(), version }
}

fn all_four() -> Vec<Global> {
    vec![
        global(1, "wl_compositor", 6),
        global(2, "wl_seat", 9),
        global(3, "wl_shm", 2),
        global(4, "zwlr_layer_shell_v1", 4),
        global(5, "zwp_idle_inhibit_manager_v1", 1),
    ]
}

fn objects_with_surface() -> Objects {
    Objects {
        compositor: true,
        shm: true,
        layer_shell: true,
        inhibit_manager: true,
        surface: true,
        layer_surface: true,
        pool: false,
        buffer: false,
        inhibitor: false,
        last_configure: None,
        acked: false,
    }
}

fn ready_agent() -> Agent {
    let mut objects = objects_with_surface();
    objects.buffer = true;
    objects.last_configure = Some(11);
    objects.acked = true;
    Agent { phase: Phase::Ready, objects }
}

fn teardown() -> Vec<Request> {
    vec![
        Request::DestroyLayerSurface,
        Request::DestroySurface,
        Request::DestroyBuffer,
        Request::ReleaseCapabilities,
    ]
}

#[test]
fn binds_each_capability_at_its_minimum() {
    assert_eq!(match_global("wl_compositor", 6), Some((Capability::Compositor, 6)));
    assert_eq!(
        match_global("zwp_idle_inhibit_manager_v1", 1),
        Some((Capability::IdleInhibitManager, 1))
    );
    assert_eq!(match_global("zwlr_layer_shell_v1", 4), Some((Capability::LayerShell, 4)));
    assert_eq!(match_global("wl_shm", 2), Some((Capability::Shm, 2)));
}

#[test]
fn newer_versions_bind_at_the_bind_version() {
    assert_eq!(match_global("wl_compositor", 7), Some((Capability::Compositor, 6)));
    assert_eq!(match_global("zwlr_layer_shell_v1", 5), Some((Capability::LayerShell, 4)));
    assert_eq!(match_global("wl_shm", 3), Some((Capability::Shm, 2)));
    assert_eq!(
        match_global("zwp_idle_inhibit_manager_v1", u32::MAX),
        Some((Capability::IdleInhibitManager, 1))
    );
}

#[test]
fn versions_below_the_minimum_are_ignored() {
    assert_eq!(match_global("wl_compositor", 5), None);
    assert_eq!(match_global("zwp_idle_inhibit_manager_v1", 0), None);
    assert_eq!(match_global("zwlr_layer_shell_v1", 3), None);
    assert_eq!(match_global("wl_shm", 1), None);
}

#[test]
fn unknown_interfaces_are_ignored() {
    assert_eq!(match_global("wl_seat", 9), None);
    assert_eq!(match_global("", 1), None);
    assert_eq!(match_global("wl_compositor_", 6), None);
    assert_eq!(match_global("wl_shm\u{0}", 2), None);
}

#[test]
fn requirement_table_rows() {
    assert_eq!(
        requirement(Capability::Compositor),
        Requirement { minimum_version: 6, bind_version: 6 }
    );
    assert_eq!(
        requirement(Capability::IdleInhibitManager),
        Requirement { minimum_version: 1, bind_version: 1 }
    );
    assert_eq!(
        requirement(Capability::LayerShell),
        Requirement { minimum_version: 4, bind_version: 4 }
    );
    assert_eq!(requirement(Capability::Shm), Requirement { minimum_version: 2, bind_version: 2 });
}

#[test]
fn interface_names_come_from_the_protocol() {
    assert_eq!(interface_of(Capability::Compositor), "wl_compositor");
    assert_eq!(interface_of(Capability::IdleInhibitManager), "zwp_idle_inhibit_manager_v1");
    assert_eq!(interface_of(Capability::LayerShell), "zwlr_layer_shell_v1");
    assert_eq!(interface_of(Capability::Shm), "wl_shm");
}

#[test]
fn select_binds_all_four_in_table_order() {
    let r = select(&all_four());
    assert_eq!(
        r,
        Ok(vec![
            Binding { name: 1, capability: Capability::Compositor, version: 6 },
            Binding { name: 5, capability: Capability::IdleInhibitManager, version: 1 },
            Binding { name: 4, capability: Capability::LayerShell, version: 4 },
            Binding { name: 3, capability: Capability::Shm, version: 2 },
        ])
    );
}

#[test]
fn select_keeps_the_first_usable_advertisement() {
    let mut gs = all_four();
    gs.insert(0, global(9, "wl_compositor", 4));
    gs.push(global(10, "wl_compositor", 7));
    gs.push(global(11, "wl_shm", 3));
    let r = select(&gs).unwrap();
    assert_eq!(r[0], Binding { name: 1, capability: Capability::Compositor, version: 6 });
    assert_eq!(r[3], Binding { name: 3, capability: Capability::Shm, version: 2 });
    assert_eq!(r.len(), 4);
}

#[test]
fn missing_idle_inhibit_is_named() {
    let gs: Vec<Global> = all_four()
        .into_iter()
        .filter(|g| g.interface != "zwp_idle_inhibit_manager_v1")
        .collect();
    assert_eq!(select(&gs), Err(vec![Capability::IdleInhibitManager]));
}

#[test]
fn too_old_layer_shell_counts_as_missing() {
    let mut gs = all_four();
    gs[3].version = 3;
    assert_eq!(select(&gs), Err(vec![Capability::LayerShell]));
}

#[test]
fn nothing_advertised_misses_everything() {
    assert_eq!(
        select(&Vec::new()),
        Err(vec![
            Capability::Compositor,
            Capability::IdleInhibitManager,
            Capability::LayerShell,
            Capability::Shm,
        ])
    );
}

#[test]
fn empty_client_misses_the_compositor_first() {
    let client = Client::new();
    assert_eq!(client.first_missing(), Some(Capability::Compositor));
    let mut agent = Agent::new();
    assert_eq!(agent.start(&client, Layer::Overlay), Err(Capability::Compositor));
    assert_eq!(agent.phase, Phase::Discovering);
    assert!(!agent.objects.surface);
    assert!(!agent.is_running());
}

#[test]
fn destroy_all_on_an_empty_client() {
    let mut client = Client::new();
    client.destroy_all();
    assert!(client.layer_shell.is_none());
    assert!(client.inhibit_manager.is_none());
    assert!(client.compositor.is_none());
    assert!(client.wl_shm.is_none());
}

#[test]
fn setup_waits_for_a_configure() {
    let mut agent = Agent { phase: Phase::AwaitingConfigure, objects: objects_with_surface() };
    assert!(agent.accepts_configure());
    assert_eq!(agent.finish_setup().unwrap_err(), SetupError::ConfigureMissing);
    assert_eq!(agent.phase, Phase::AwaitingConfigure);
    assert_eq!(agent.on_configure(42), vec![Request::AckConfigure { serial: 42 }]);
    assert_eq!(agent.phase, Phase::Configured);
    assert_eq!(agent.objects.last_configure, Some(42));
    assert!(agent.objects.acked);
}

#[test]
fn setup_attaches_a_one_pixel_buffer() {
    let mut agent = Agent { phase: Phase::AwaitingConfigure, objects: objects_with_surface() };
    agent.on_configure(3);
    let step = agent.finish_setup().unwrap();
    assert_eq!(
        step.requests,
        vec![
            Request::CreatePool { size: 4 },
            Request::CreateBuffer { offset: 0, width: 1, height: 1, stride: 4 },
            Request::DestroyPool,
            Request::Attach,
            Request::Commit,
        ]
    );
    assert_eq!(step.status, Status::Deactivated);
    assert_eq!(step.status.label(), "deactivated");
    assert!(agent.is_running());
    assert!(agent.objects.buffer);
    assert!(!agent.objects.pool);
    assert!(!agent.objects.inhibitor);
}

#[test]
fn buffer_survives_pool_destruction() {
    let mut objects = objects_with_surface();
    objects.pool = true;
    objects.buffer = true;
    objects.apply(Request::DestroyPool);
    assert!(!objects.pool);
    assert!(objects.buffer);
    assert!(objects.surface);
}

#[test]
fn a_later_configure_is_acknowledged_while_ready() {
    let mut agent = ready_agent();
    assert_eq!(agent.on_configure(99), vec![Request::AckConfigure { serial: 99 }]);
    assert_eq!(agent.phase, Phase::Ready);
    assert_eq!(agent.objects.last_configure, Some(99));
    assert!(agent.objects.acked);
}

#[test]
fn toggling_twice_returns_to_inactive() {
    let mut agent = ready_agent();
    let first = agent.on_signal(Signal::Toggle);
    assert_eq!(first.requests, vec![Request::CreateInhibitor]);
    assert_eq!(first.status, Status::Activated);
    assert_eq!(first.status.label(), "activated");
    assert!(agent.objects.inhibitor);
    let second = agent.on_signal(Signal::Toggle);
    assert_eq!(second.requests, vec![Request::DestroyInhibitor]);
    assert_eq!(second.status, Status::Deactivated);
    assert!(!agent.objects.inhibitor);
    assert!(agent.is_running());
}

#[test]
fn terminating_while_active_destroys_the_inhibitor_first() {
    let mut agent = ready_agent();
    agent.on_signal(Signal::Toggle);
    let step = agent.on_signal(Signal::Terminate);
    let mut expected = vec![Request::DestroyInhibitor];
    expected.extend(teardown());
    assert_eq!(step.requests, expected);
    assert_eq!(step.status, Status::Quitting);
    assert_eq!(step.status.label(), "quitting");
    assert_eq!(agent.phase, Phase::Stopped);
    assert!(!agent.is_running());
    assert!(!agent.accepts_configure());
    assert!(!agent.objects.inhibitor);
    assert!(!agent.objects.surface);
    assert!(!agent.objects.layer_shell);
    assert!(!agent.objects.inhibit_manager);
}

#[test]
fn terminating_while_inactive_skips_the_inhibitor() {
    let mut agent = ready_agent();
    let step = agent.on_signal(Signal::Terminate);
    assert_eq!(step.requests, teardown());
    assert!(!step.requests.contains(&Request::DestroyInhibitor));
    assert_eq!(step.status, Status::Quitting);
    assert_eq!(agent.phase, Phase::Stopped);
}

#[test]
fn an_odd_number_of_toggles_activates() {
    let mut agent = ready_agent();
    let mut last = Status::Deactivated;
    for _ in 0..5 {
        last = agent.on_signal(Signal::Toggle).status;
    }
    assert_eq!(last, Status::Activated);
    assert!(agent.objects.inhibitor);
}
