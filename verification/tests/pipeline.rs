use drag_n_drop::TexHandle;
use drag_n_drop::events::FileDragAndDrop;
use drag_n_drop::events::UserAddedTexture;
use drag_n_drop::events::file_drag_and_drop_listener;
use drag_n_drop::ingest::add_dropped_file;
use drag_n_drop::ingest::ingest_texture;
use drag_n_drop::path::TexPath;
use drag_n_drop::registry::TexHandleQueue;

fn path(s: &str) -> TexPath {
    TexPath::new(s.as_bytes().to_vec())
}

fn dropped(s: &str) -> FileDragAndDrop {
    FileDragAndDrop::DroppedFile { path_buf: path(s) }
}

fn tex(s: &str) -> UserAddedTexture {
    UserAddedTexture(path(s))
}

#[test]
fn listener_translates_drops_in_order() {
    let events = vec![
        dropped("a.png"),
        FileDragAndDrop::HoveredFile { path_buf: path("b.png") },
        FileDragAndDrop::HoveredFileCanceled,
        dropped("c.jpg"),
    ];
    let sent = file_drag_and_drop_listener(&events);
    assert_eq!(sent.len(), 2);
    assert_eq!(sent[0].0.as_bytes(), &b"a.png".to_vec());
    assert_eq!(sent[1].0.as_bytes(), &b"c.jpg".to_vec());
}

#[test]
fn hover_only_batch_produces_no_events() {
    let events = vec![
        FileDragAndDrop::HoveredFile { path_buf: path("b.png") },
        FileDragAndDrop::HoveredFileCanceled,
    ];
    let sent = file_drag_and_drop_listener(&events);
    assert_eq!(sent.len(), 0);
}

#[test]
fn repeated_drops_are_not_deduplicated_by_listener() {
    let events = vec![dropped("same.png"), dropped("same.png")];
    let sent = file_drag_and_drop_listener(&events);
    assert_eq!(sent.len(), 2);
}

#[test]
fn ingest_batch_assigns_sequential_indices() {
    let mut queue = TexHandleQueue::new();
    queue.insert(0, TexHandle { id: 100 });
    queue.insert(1, TexHandle { id: 101 });

    let events = vec![tex("a.png"), tex("b.jpg"), tex("c.jpeg")];
    let handles = vec![
        TexHandle { id: 7 },
        TexHandle { id: 8 },
        TexHandle { id: 9 },
    ];
    let trace = add_dropped_file(&events, &handles, &mut queue);

    assert_eq!(queue.count(), 5);
    assert_eq!(trace.len(), 3);
    assert_eq!(trace[0].index, 2);
    assert_eq!(trace[1].index, 3);
    assert_eq!(trace[2].index, 4);
    assert!(trace[0].supported);
    assert!(trace[1].supported);
    assert!(trace[2].supported);
    assert_eq!(queue.get(0), Some(TexHandle { id: 100 }));
    assert_eq!(queue.get(1), Some(TexHandle { id: 101 }));
    assert_eq!(queue.get(2), Some(TexHandle { id: 7 }));
    assert_eq!(queue.get(3), Some(TexHandle { id: 8 }));
    assert_eq!(queue.get(4), Some(TexHandle { id: 9 }));
}

#[test]
fn same_path_in_two_cycles_gets_two_entries() {
    let mut queue = TexHandleQueue::new();

    let first = add_dropped_file(&vec![tex("dup.png")], &vec![TexHandle { id: 1 }], &mut queue);
    let second = add_dropped_file(&vec![tex("dup.png")], &vec![TexHandle { id: 1 }], &mut queue);

    assert_eq!(first[0].index, 0);
    assert_eq!(second[0].index, 1);
    assert_ne!(first[0].index, second[0].index);
    assert_eq!(queue.count(), 2);
    assert_eq!(queue.get(0), Some(TexHandle { id: 1 }));
    assert_eq!(queue.get(1), Some(TexHandle { id: 1 }));
}

#[test]
fn unsupported_extension_is_still_ingested() {
    let mut queue = TexHandleQueue::new();
    let trace = add_dropped_file(&vec![tex("texture.bmp")], &vec![TexHandle { id: 5 }], &mut queue);

    assert_eq!(trace.len(), 1);
    assert!(!trace[0].supported);
    assert_eq!(trace[0].index, 0);
    assert_eq!(queue.count(), 1);
    assert_eq!(queue.get(0), Some(TexHandle { id: 5 }));
}

#[test]
fn single_ingest_reports_next_index() {
    let mut queue = TexHandleQueue::new();
    queue.insert(0, TexHandle { id: 42 });
    let rec = ingest_texture(&tex("more.png"), TexHandle { id: 43 }, &mut queue);
    assert_eq!(rec.index, 1);
    assert!(rec.supported);
    assert_eq!(queue.count(), 2);
}

#[test]
fn registry_lookup_misses_unassigned_index() {
    let mut queue = TexHandleQueue::new();
    queue.insert(0, TexHandle { id: 1 });
    assert_eq!(queue.get(0), Some(TexHandle { id: 1 }));
    assert_eq!(queue.get(5), None);
}

#[test]
fn registry_clone_and_default() {
    let mut queue = TexHandleQueue::default();
    assert_eq!(queue.count(), 0);
    queue.insert(0, TexHandle { id: 9 });
    let copy = queue.clone();
    assert_eq!(copy.count(), 1);
    assert_eq!(copy.get(0), Some(TexHandle { id: 9 }));
}
