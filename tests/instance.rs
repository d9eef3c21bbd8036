use lilv::instance::{EntryPoints, Hook, Instance, MAX_RUN_FRAMES};

fn chunks(mut c: lilv::instance::FrameChunks) -> Vec<u32> {
    let mut v = Vec::new();
    while let Some(n) = c.next_chunk() {
        v.push(n);
    }
    v
}

const FULL: EntryPoints = EntryPoints { has_activate: true, has_deactivate: true };
const BARE: EntryPoints = EntryPoints { has_activate: false, has_deactivate: false };

#[test]
fn three_port_unit_runs_once() {
    let mut inst = Instance::new(BARE, 3);
    assert_eq!(inst.port_count(), 3);
    for i in 0..3 {
        assert_eq!(inst.connect_port(i), Some(i as u32));
    }
    assert!(inst.all_ports_connected());
    let (active, hook) = inst.activate();
    assert_eq!(hook, None);
    assert_eq!(chunks(active.run(1)), vec![1]);
    assert_eq!(active.release_hooks(), vec![Hook::Cleanup]);
}

#[test]
fn out_of_range_port_is_refused() {
    let mut inst = Instance::new(FULL, 2);
    assert_eq!(inst.connect_port(2), None);
    assert_eq!(inst.connect_port(usize::MAX), None);
    assert!(!inst.all_ports_connected());
    assert_eq!(inst.connect_port(1), Some(1));
    assert!(!inst.all_ports_connected());
}

#[test]
fn activation_cycle_twice() {
    let mut inst = Instance::new(FULL, 1);
    inst.connect_port(0);
    let (a1, h1) = inst.activate();
    assert_eq!(h1, Some(Hook::Activate));
    let (d, h2) = a1.deactivate();
    assert_eq!(h2, Some(Hook::Deactivate));
    assert!(d.all_ports_connected());
    let (mut a2, h3) = d.activate();
    assert_eq!(h3, Some(Hook::Activate));
    assert!(a2.instance().all_ports_connected());
    assert_eq!(a2.instance_mut().connect_port(0), Some(0));
    assert_eq!(chunks(a2.run(64)), vec![64]);
}

#[test]
fn release_calls_cleanup_once() {
    let inst = Instance::new(FULL, 0);
    assert_eq!(inst.release_hooks(), vec![Hook::Cleanup]);
    let (active, _) = inst.activate();
    assert_eq!(active.release_hooks(), vec![Hook::Deactivate, Hook::Cleanup]);
    let (active_bare, _) = Instance::new(BARE, 0).activate();
    assert_eq!(active_bare.release_hooks(), vec![Hook::Cleanup]);
    let (back, h) = active_bare.deactivate();
    assert_eq!(h, None);
    assert_eq!(back.release_hooks(), vec![Hook::Cleanup]);
}

#[test]
fn run_is_chunked() {
    let (active, _) = Instance::new(BARE, 0).activate();
    assert_eq!(chunks(active.run(0)), vec![0]);
    assert_eq!(chunks(active.run(MAX_RUN_FRAMES as usize)), vec![MAX_RUN_FRAMES]);
    if usize::BITS > 32 {
        let n = MAX_RUN_FRAMES as usize * 2 + 5;
        assert_eq!(chunks(active.run(n)), vec![MAX_RUN_FRAMES, MAX_RUN_FRAMES, 5]);
    }
}
