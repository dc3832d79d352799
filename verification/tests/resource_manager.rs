use std::sync::Arc;

use litecraft_resources::cache::CacheEntry;
use litecraft_resources::clock::split_nanos;
use litecraft_resources::clock::TimeParts;
use litecraft_resources::resource::ResourceId;
use litecraft_resources::resource_manager::ResourceManager;
use litecraft_resources::resource_manager::WindowSize;
use litecraft_resources::settings::Settings;
use litecraft_resources::texture_manager::DecodeMessage;
use litecraft_resources::texture_manager::LoadFailure;
use litecraft_resources::texture_manager::PixelData;

fn manager(threads: usize) -> ResourceManager<u32, String> {
    let settings = Settings::new(threads, 800, 600, "assets".to_string());
    ResourceManager::new(Arc::new(settings))
}

fn id(ns: &str, path: &str) -> ResourceId {
    ResourceId::new(ns.to_string(), path.to_string())
}

#[test]
fn new_manager_takes_size_and_pool_from_settings() {
    let rm = manager(2);
    assert_eq!(rm.pool_size(), 2);
    assert_eq!(rm.width(), 800);
    assert_eq!(rm.height(), 600);
    assert_eq!(rm.size(), WindowSize { width: 800, height: 600 });
    assert_eq!(rm.settings().loader_threads(), 2);
    assert_eq!(rm.settings().asset_root(), "assets");
    assert_eq!(rm.textures().len(), 0);
    assert_eq!(rm.shaders().len(), 0);
}

#[test]
fn size_setters_update_in_memory_state() {
    let mut rm = manager(1);
    rm.set_width(1024);
    assert_eq!(rm.width(), 1024);
    assert_eq!(rm.height(), 600);
    rm.set_height(768);
    assert_eq!(rm.height(), 768);
    rm.set_size(WindowSize { width: 320, height: 200 });
    assert_eq!(rm.size(), WindowSize { width: 320, height: 200 });
}

#[test]
fn shader_store_deduplicates_by_id() {
    let mut rm = manager(1);
    let s = id("minecraft", "shaders/quad.vsh");
    assert!(rm.shader(&s).is_none());
    assert!(rm.store_shader(&s, "compiled-v1".to_string()));
    assert!(!rm.store_shader(&s, "compiled-v2".to_string()));
    assert_eq!(rm.shader(&s), Some(&"compiled-v1".to_string()));
    assert_eq!(rm.shaders().len(), 1);
}

#[test]
fn time_is_near_zero_at_start_and_monotonic() {
    let rm = manager(1);
    let t1 = rm.time();
    assert_eq!(t1.secs, 0);
    let t2 = rm.time();
    assert!((t2.secs, t2.subsec_nanos) >= (t1.secs, t1.subsec_nanos));
    assert!(t2.subsec_nanos < 1_000_000_000);
}

#[test]
fn split_nanos_is_exact() {
    assert_eq!(split_nanos(0), TimeParts { secs: 0, subsec_nanos: 0 });
    assert_eq!(split_nanos(999_999_999), TimeParts { secs: 0, subsec_nanos: 999_999_999 });
    assert_eq!(split_nanos(1_500_000_000), TimeParts { secs: 1, subsec_nanos: 500_000_000 });
    assert_eq!(
        split_nanos(61_000_000_007),
        TimeParts { secs: 61, subsec_nanos: 7 }
    );
}

#[test]
fn two_loader_threads_dedup_and_complete() {
    // loader_threads = 2; request A, B and a duplicate of A: exactly two
    // pending entries, one job each; after both jobs finish and one tick,
    // both report ready handles.
    let mut rm = manager(2);
    let a = id("minecraft", "textures/a.png");
    let b = id("minecraft", "textures/b.png");

    let job_a = rm.load_texture(&a).expect("job for a");
    let job_b = rm.load_texture(&b).expect("job for b");
    assert!(rm.load_texture(&a).is_none(), "duplicate request must not submit a second job");

    assert_eq!(rm.textures().len(), 2);
    assert!(matches!(rm.textures().get(&a), Some(CacheEntry::Pending)));
    assert!(matches!(rm.textures().get(&b), Some(CacheEntry::Pending)));

    let pool = rm.worker_pool();
    for job in [job_a, job_b] {
        pool.execute(move || {
            let pixels = PixelData {
                width: job.location.len() as u32,
                height: 1,
                rgba: Vec::new(),
            };
            job.results
                .send(DecodeMessage { id: job.id, payload: Ok(pixels) })
                .expect("send result");
        });
    }
    pool.join();

    let msgs = rm.poll_decoded();
    assert_eq!(msgs.len(), 2);
    let mut completed: Vec<(ResourceId, Result<u32, LoadFailure>)> = Vec::new();
    for msg in msgs {
        match msg.payload {
            Ok(pixels) => completed.push((msg.id, Ok(pixels.width))),
            Err(failure) => completed.push((msg.id, Err(failure))),
        }
    }
    rm.tick(completed);

    let loc_a = "assets/minecraft/textures/a.png".len() as u32;
    let loc_b = "assets/minecraft/textures/b.png".len() as u32;
    match rm.textures().get(&a) {
        Some(CacheEntry::Ready(w)) => assert_eq!(*w, loc_a),
        other => panic!("a not ready: {:?}", other.is_some()),
    }
    match rm.textures().get(&b) {
        Some(CacheEntry::Ready(w)) => assert_eq!(*w, loc_b),
        other => panic!("b not ready: {:?}", other.is_some()),
    }
    assert_eq!(rm.textures().len(), 2);
}

#[test]
fn facade_tick_with_no_messages_is_a_noop() {
    let mut rm = manager(1);
    let a = id("minecraft", "textures/a.png");
    let _ = rm.load_texture(&a);
    let msgs = rm.poll_decoded();
    assert!(msgs.is_empty());
    rm.tick(Vec::new());
    assert!(matches!(rm.textures().get(&a), Some(CacheEntry::Pending)));
    assert_eq!(rm.textures().len(), 1);
}
