use litecraft_resources::cache::CacheEntry;
use litecraft_resources::resource::ResourceId;
use litecraft_resources::texture_manager::LoadFailure;
use litecraft_resources::texture_manager::TextureManager;

fn id(ns: &str, path: &str) -> ResourceId {
    ResourceId::new(ns.to_string(), path.to_string())
}

#[test]
fn load_inserts_pending_and_returns_job() {
    let mut tm: TextureManager<u32> = TextureManager::new();
    let a = id("minecraft", "textures/dirt.png");
    let job = tm.load(&a, "assets");
    let job = job.expect("first load must submit a job");
    assert!(job.id.matches(&a));
    assert_eq!(job.location, "assets/minecraft/textures/dirt.png");
    assert_eq!(tm.len(), 1);
    assert!(matches!(tm.get(&a), Some(CacheEntry::Pending)));
}

#[test]
fn duplicate_load_is_coalesced() {
    let mut tm: TextureManager<u32> = TextureManager::new();
    let a = id("minecraft", "textures/dirt.png");
    assert!(tm.load(&a, "assets").is_some());
    assert!(tm.load(&a, "assets").is_none());
    assert!(tm.load(&a, "assets").is_none());
    assert_eq!(tm.len(), 1);
    assert!(matches!(tm.get(&a), Some(CacheEntry::Pending)));
}

#[test]
fn reload_of_ready_entry_is_noop() {
    let mut tm: TextureManager<u32> = TextureManager::new();
    let a = id("minecraft", "textures/dirt.png");
    assert!(tm.load(&a, "assets").is_some());
    tm.apply(&a, Ok(11));
    assert!(matches!(tm.get(&a), Some(CacheEntry::Ready(11))));
    assert!(tm.load(&a, "assets").is_none());
    assert!(matches!(tm.get(&a), Some(CacheEntry::Ready(11))));
    assert_eq!(tm.len(), 1);
}

#[test]
fn late_result_never_overwrites_ready_entry() {
    let mut tm: TextureManager<u32> = TextureManager::new();
    let a = id("minecraft", "textures/dirt.png");
    assert!(tm.load(&a, "assets").is_some());
    tm.apply(&a, Ok(11));
    tm.apply(&a, Ok(99));
    tm.apply(&a, Err(LoadFailure::Decode));
    assert!(matches!(tm.get(&a), Some(CacheEntry::Ready(11))));
}

#[test]
fn result_for_unknown_id_is_discarded() {
    let mut tm: TextureManager<u32> = TextureManager::new();
    let a = id("minecraft", "textures/dirt.png");
    tm.apply(&a, Ok(11));
    assert_eq!(tm.len(), 0);
    assert!(tm.get(&a).is_none());
}

#[test]
fn failed_decode_removes_entry_and_allows_retry() {
    let mut tm: TextureManager<u32> = TextureManager::new();
    let a = id("minecraft", "textures/dirt.png");
    assert!(tm.load(&a, "assets").is_some());
    tm.apply(&a, Err(LoadFailure::Resolution));
    assert!(tm.get(&a).is_none());
    assert_eq!(tm.len(), 0);
    assert!(tm.load(&a, "assets").is_some());
    assert!(matches!(tm.get(&a), Some(CacheEntry::Pending)));
}

#[test]
fn failure_for_one_id_isolates_others() {
    let mut tm: TextureManager<u32> = TextureManager::new();
    let x = id("minecraft", "textures/x.png");
    let y = id("minecraft", "textures/y.png");
    let z = id("minecraft", "textures/z.png");
    assert!(tm.load(&x, "assets").is_some());
    assert!(tm.load(&y, "assets").is_some());
    assert!(tm.load(&z, "assets").is_some());
    tm.apply(&z, Ok(3));
    tm.apply(&x, Err(LoadFailure::Decode));
    assert!(tm.get(&x).is_none());
    assert!(matches!(tm.get(&y), Some(CacheEntry::Pending)));
    assert!(matches!(tm.get(&z), Some(CacheEntry::Ready(3))));
    assert_eq!(tm.len(), 2);
}

#[test]
fn empty_tick_changes_nothing() {
    let mut tm: TextureManager<u32> = TextureManager::new();
    let a = id("minecraft", "textures/a.png");
    let b = id("minecraft", "textures/b.png");
    assert!(tm.load(&a, "assets").is_some());
    assert!(tm.load(&b, "assets").is_some());
    tm.apply(&b, Ok(7));
    tm.tick(Vec::new());
    assert_eq!(tm.len(), 2);
    assert!(matches!(tm.get(&a), Some(CacheEntry::Pending)));
    assert!(matches!(tm.get(&b), Some(CacheEntry::Ready(7))));
}

#[test]
fn completion_order_does_not_matter() {
    let a = id("minecraft", "textures/a.png");
    let b = id("minecraft", "textures/b.png");

    let mut first: TextureManager<u32> = TextureManager::new();
    assert!(first.load(&a, "assets").is_some());
    assert!(first.load(&b, "assets").is_some());
    first.tick(vec![(a.clone(), Ok(1)), (b.clone(), Ok(2))]);

    let mut second: TextureManager<u32> = TextureManager::new();
    assert!(second.load(&a, "assets").is_some());
    assert!(second.load(&b, "assets").is_some());
    second.tick(vec![(b.clone(), Ok(2)), (a.clone(), Ok(1))]);

    assert!(matches!(first.get(&a), Some(CacheEntry::Ready(1))));
    assert!(matches!(first.get(&b), Some(CacheEntry::Ready(2))));
    assert!(matches!(second.get(&a), Some(CacheEntry::Ready(1))));
    assert!(matches!(second.get(&b), Some(CacheEntry::Ready(2))));
    assert_eq!(first.len(), 2);
    assert_eq!(second.len(), 2);
}

#[test]
fn handoff_channel_carries_messages_to_drain() {
    let mut tm: TextureManager<u32> = TextureManager::new();
    let a = id("minecraft", "textures/a.png");
    let b = id("minecraft", "textures/b.png");
    let job_a = tm.load(&a, "assets").expect("job for a");
    let job_b = tm.load(&b, "assets").expect("job for b");

    job_a
        .results
        .send(litecraft_resources::texture_manager::DecodeMessage {
            id: job_a.id,
            payload: Err(LoadFailure::Decode),
        })
        .expect("send a");
    job_b
        .results
        .send(litecraft_resources::texture_manager::DecodeMessage {
            id: job_b.id,
            payload: Ok(litecraft_resources::texture_manager::PixelData {
                width: 2,
                height: 1,
                rgba: vec![0, 1, 2, 3, 4, 5, 6, 7],
            }),
        })
        .expect("send b");

    let msgs = tm.drain_incoming();
    assert_eq!(msgs.len(), 2);
    let mut completed: Vec<(ResourceId, Result<u32, LoadFailure>)> = Vec::new();
    for msg in msgs {
        match msg.payload {
            Ok(pixels) => completed.push((msg.id, Ok(pixels.width))),
            Err(failure) => completed.push((msg.id, Err(failure))),
        }
    }
    tm.tick(completed);
    assert!(tm.get(&a).is_none());
    assert!(matches!(tm.get(&b), Some(CacheEntry::Ready(2))));
}

#[test]
fn drain_budget_is_one_message_per_entry() {
    let mut tm: TextureManager<u32> = TextureManager::new();
    let a = id("minecraft", "textures/a.png");
    let b = id("minecraft", "textures/b.png");
    assert!(tm.load(&a, "assets").is_some());
    assert!(tm.load(&b, "assets").is_some());
    let tx = tm.result_sender();
    for _ in 0..3 {
        tx.send(litecraft_resources::texture_manager::DecodeMessage {
            id: a.clone(),
            payload: Err(LoadFailure::Decode),
        })
        .expect("send");
    }
    assert_eq!(tm.drain_incoming().len(), 2);
    assert_eq!(tm.drain_incoming().len(), 1);
    assert_eq!(tm.drain_incoming().len(), 0);
}
