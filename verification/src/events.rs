use vstd::prelude::*;
use crate::path::TexPath;

verus! {

/// A raw window notification about a drag-and-drop gesture, as the
/// windowing collaborator reports it: a file dropped on the window, a file
/// hovering over it, or a hover that was cancelled.
#[derive(Clone, Debug)]
pub enum FileDragAndDrop {
    DroppedFile { path_buf: TexPath },
    HoveredFile { path_buf: TexPath },
    HoveredFileCanceled,
}

/// Event carrying a texture the user dropped onto the window, consumed by
/// ingestion in a later cycle.
#[derive(Clone, Debug)]
pub struct UserAddedTexture(pub TexPath);

impl View for UserAddedTexture {
    type V = Seq<u8>;

    open spec fn view(&self) -> Seq<u8> {
        self.0@
    }
}

/// The paths of the dropped-file notifications of a batch, in arrival
/// order; hover notifications contribute nothing.
pub open spec fn dropped_paths(evs: Seq<FileDragAndDrop>) -> Seq<Seq<u8>>
    decreases evs.len(),
{
    if evs.len() == 0 {
        Seq::empty()
    } else {
        let rest = dropped_paths(evs.drop_last());
        match evs.last() {
            FileDragAndDrop::DroppedFile { path_buf } => rest.push(path_buf@),
            _ => rest,
        }
    }
}

/// The paths carried by a batch of translated texture events, in order.
pub open spec fn sent_paths(sent: Seq<UserAddedTexture>) -> Seq<Seq<u8>> {
    sent.map_values(|t: UserAddedTexture| t@)
}

/// Translate one cycle's raw drag-and-drop notifications: every dropped
/// file becomes one `UserAddedTexture` event carrying its path unchanged,
/// in arrival order and without deduplication; hover notifications are
/// silently discarded. The path is not validated here: that is deferred to
/// ingestion.
pub fn file_drag_and_drop_listener(events: &Vec<FileDragAndDrop>) -> (sent: Vec<UserAddedTexture>)
    ensures
        sent_paths(sent@) == dropped_paths(events@),
{
    let n = events.len();
    let mut sent: Vec<UserAddedTexture> = Vec::new();
    let mut i: usize = 0;
    proof {
        assert(events@.subrange(0, 0) =~= Seq::<FileDragAndDrop>::empty());
        assert(sent_paths(sent@) =~= dropped_paths(events@.subrange(0, 0)));
    }
    while i < n
        invariant
            i <= n,
            n == events@.len(),
            sent_paths(sent@) == dropped_paths(events@.subrange(0, i as int)),
        decreases n - i,
    {
        let ghost pre = events@.subrange(0, i as int);
        let ghost pre1 = events@.subrange(0, i as int + 1);
        proof {
            assert(pre1.drop_last() =~= pre);
            assert(pre1.last() == events@[i as int]);
        }
        match &events[i] {
            FileDragAndDrop::DroppedFile { path_buf } => {
                let ghost old_sent = sent@;
                sent.push(UserAddedTexture(path_buf.clone()));
                proof {
                    assert(sent_paths(sent@) =~= sent_paths(old_sent).push(path_buf@));
                }
            },
            _ => {},
        }
        i = i + 1;
    }
    proof {
        assert(events@.subrange(0, n as int) =~= events@);
    }
    sent
}

/// Translating batches piecewise: the paths emitted for `a + b` are those
/// emitted for `a` followed by those emitted for `b`.
pub proof fn lemma_dropped_paths_concat(a: Seq<FileDragAndDrop>, b: Seq<FileDragAndDrop>)
    ensures
        dropped_paths(a + b) == dropped_paths(a) + dropped_paths(b),
    decreases b.len(),
{
    if b.len() == 0 {
        assert(a + b =~= a);
        assert(dropped_paths(a) + dropped_paths(b) =~= dropped_paths(a));
    } else {
        lemma_dropped_paths_concat(a, b.drop_last());
        assert((a + b).drop_last() =~= a + b.drop_last());
        assert((a + b).last() == b.last());
        match b.last() {
            FileDragAndDrop::DroppedFile { path_buf } => {
                assert((dropped_paths(a) + dropped_paths(b.drop_last())).push(path_buf@)
                    =~= dropped_paths(a) + dropped_paths(b.drop_last()).push(path_buf@));
            },
            _ => {},
        }
    }
}

/// A hover notification never produces a texture event: a batch with a
/// hovered-file or hover-cancelled notification spliced in translates to
/// exactly the events of the batch without it.
pub proof fn lemma_hover_produces_no_event(
    pre: Seq<FileDragAndDrop>,
    ev: FileDragAndDrop,
    post: Seq<FileDragAndDrop>,
)
    requires
        !(ev is DroppedFile),
    ensures
        dropped_paths(pre + seq![ev] + post) == dropped_paths(pre + post),
{
    lemma_dropped_paths_concat(pre + seq![ev], post);
    lemma_dropped_paths_concat(pre, seq![ev]);
    lemma_dropped_paths_concat(pre, post);
    assert(seq![ev].drop_last() =~= Seq::<FileDragAndDrop>::empty());
    assert(dropped_paths(seq![ev].drop_last()) == Seq::<Seq<u8>>::empty());
    assert(seq![ev].last() == ev);
    assert(dropped_paths(seq![ev]) =~= Seq::<Seq<u8>>::empty());
    assert(dropped_paths(pre) + Seq::<Seq<u8>>::empty() =~= dropped_paths(pre));
}

} // verus!
