use vstd::prelude::*;

verus! {

/// Whether a key event is a press or a release.
#[derive(Clone, Copy, Debug, PartialEq, Eq, Structural)]
pub enum ButtonState {
    Pressed,
    Released,
}

/// The keys the swap controller distinguishes: the ten digit keys, and one
/// variant standing for every other key on the keyboard.
#[derive(Clone, Copy, Debug, PartialEq, Eq, Structural)]
pub enum KeyCode {
    Key1,
    Key2,
    Key3,
    Key4,
    Key5,
    Key6,
    Key7,
    Key8,
    Key9,
    Key0,
    Other,
}

/// One keyboard notification of a cycle's batch: the key, if the window
/// layer could identify one, and whether it was pressed or released.
#[derive(Clone, Copy, Debug, PartialEq, Eq, Structural)]
pub struct KeyboardInput {
    pub key_code: Option<KeyCode>,
    pub state: ButtonState,
}

/// A live shader material, of which the render system owns at most one per
/// scene; the swap controller writes only its current-texture index.
#[derive(Clone, Copy, Debug, PartialEq, Eq, Structural)]
pub struct ShaderMaterialInstance {
    pub current_tex: usize,
}

/// The texture index a digit key selects: key "1" selects index 1, ...,
/// key "0" selects index 0. Every other key selects nothing.
pub open spec fn key_digit(k: KeyCode) -> Option<usize> {
    match k {
        KeyCode::Key1 => Some(1usize),
        KeyCode::Key2 => Some(2usize),
        KeyCode::Key3 => Some(3usize),
        KeyCode::Key4 => Some(4usize),
        KeyCode::Key5 => Some(5usize),
        KeyCode::Key6 => Some(6usize),
        KeyCode::Key7 => Some(7usize),
        KeyCode::Key8 => Some(8usize),
        KeyCode::Key9 => Some(9usize),
        KeyCode::Key0 => Some(0usize),
        KeyCode::Other => None,
    }
}

/// The texture index a key event selects: the digit of a pressed digit
/// key. A release, an unidentified key or a non-digit key selects nothing
/// and instead halts the batch it stands in.
pub open spec fn selected_digit(ev: KeyboardInput) -> Option<usize> {
    match ev.state {
        ButtonState::Pressed => match ev.key_code {
            Some(k) => key_digit(k),
            None => None,
        },
        ButtonState::Released => None,
    }
}

/// The current-texture index after one cycle's keyboard batch is applied to
/// a material whose index starts at `start`. A pressed digit key becomes the
/// new index and processing continues; anything else stops the whole
/// remaining batch, so the index reached so far stands.
pub open spec fn apply_key_batch(start: usize, evs: Seq<KeyboardInput>) -> usize
    decreases evs.len(),
{
    if evs.len() == 0 {
        start
    } else {
        match selected_digit(evs[0]) {
            Some(d) => apply_key_batch(d, evs.drop_first()),
            None => start,
        }
    }
}

impl ShaderMaterialInstance {
    /// Point the material at the texture registered under `idx`. The index
    /// is not checked against the registry: selecting an index with no
    /// backing handle is the material system's concern.
    pub fn set_current_tex(&mut self, idx: usize)
        ensures
            final(self).current_tex == idx,
    {
        self.current_tex = idx;
    }
}

/// The texture index a single key event selects, or `None` for any event
/// that instead stops the batch.
fn pressed_digit(ev: &KeyboardInput) -> (r: Option<usize>)
    ensures
        r == selected_digit(*ev),
{
    match ev.state {
        ButtonState::Pressed => match ev.key_code {
            Some(k) => match k {
                KeyCode::Key1 => Some(1),
                KeyCode::Key2 => Some(2),
                KeyCode::Key3 => Some(3),
                KeyCode::Key4 => Some(4),
                KeyCode::Key5 => Some(5),
                KeyCode::Key6 => Some(6),
                KeyCode::Key7 => Some(7),
                KeyCode::Key8 => Some(8),
                KeyCode::Key9 => Some(9),
                KeyCode::Key0 => Some(0),
                KeyCode::Other => None,
            },
            None => None,
        },
        ButtonState::Released => None,
    }
}

/// Apply one cycle's keyboard batch, in arrival order, to a material: each
/// pressed digit key swaps the material to that index, and the first event
/// that is not a pressed digit key stops the remaining batch.
pub fn apply_keyboard_batch(mat: &mut ShaderMaterialInstance, key_evr: &Vec<KeyboardInput>)
    ensures
        final(mat).current_tex == apply_key_batch(old(mat).current_tex, key_evr@),
{
    let n = key_evr.len();
    let mut i: usize = 0;
    proof {
        assert(key_evr@.subrange(0, n as int) =~= key_evr@);
    }
    while i < n
        invariant
            i <= n,
            n == key_evr@.len(),
            apply_key_batch(old(mat).current_tex, key_evr@) == apply_key_batch(
                mat.current_tex,
                key_evr@.subrange(i as int, n as int),
            ),
        decreases n - i,
    {
        let ghost rest = key_evr@.subrange(i as int, n as int);
        proof {
            assert(rest.drop_first() =~= key_evr@.subrange(i as int + 1, n as int));
            assert(rest[0] == key_evr@[i as int]);
        }
        match pressed_digit(&key_evr[i]) {
            Some(d) => {
                mat.set_current_tex(d);
            },
            None => {
                return ;
            },
        }
        i = i + 1;
    }
    proof {
        assert(key_evr@.subrange(n as int, n as int).len() == 0);
    }
}

/// Consume one cycle's keyboard batch and, when exactly one live material
/// instance exists, swap its current texture to each pressed digit key in
/// order; with zero or several instances nothing is touched for the cycle.
pub fn swap_tex_to_idx_2d(shader_mats: &mut Vec<ShaderMaterialInstance>, key_evr: &Vec<KeyboardInput>)
    ensures
        old(shader_mats)@.len() != 1 ==> final(shader_mats)@ == old(shader_mats)@,
        old(shader_mats)@.len() == 1 ==> {
            &&& final(shader_mats)@.len() == 1
            &&& final(shader_mats)@[0].current_tex == apply_key_batch(
                old(shader_mats)@[0].current_tex,
                key_evr@,
            )
        },
{
    if shader_mats.len() != 1 {
        return ;
    }
    let mut mat = shader_mats[0];
    apply_keyboard_batch(&mut mat, key_evr);
    shader_mats.set(0, mat);
}

/// An event that is not a pressed digit key halts the whole remaining
/// batch: whatever keyboard events follow it in the cycle, the outcome is
/// as if the batch had ended just before it.
pub proof fn lemma_halt_stops_batch(
    start: usize,
    pre: Seq<KeyboardInput>,
    ev: KeyboardInput,
    post: Seq<KeyboardInput>,
)
    requires
        selected_digit(ev) is None,
    ensures
        apply_key_batch(start, pre + seq![ev] + post) == apply_key_batch(start, pre),
    decreases pre.len(),
{
    let whole = pre + seq![ev] + post;
    if pre.len() == 0 {
        assert(whole[0] == ev);
    } else {
        assert(whole[0] == pre[0]);
        match selected_digit(pre[0]) {
            Some(d) => {
                lemma_halt_stops_batch(d, pre.drop_first(), ev, post);
                assert(whole.drop_first() =~= pre.drop_first() + seq![ev] + post);
            },
            None => {},
        }
    }
}

} // verus!
