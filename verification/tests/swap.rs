use drag_n_drop::swap::ButtonState;
use drag_n_drop::swap::KeyCode;
use drag_n_drop::swap::KeyboardInput;
use drag_n_drop::swap::ShaderMaterialInstance;
use drag_n_drop::swap::swap_tex_to_idx_2d;

fn press(k: KeyCode) -> KeyboardInput {
    KeyboardInput { key_code: Some(k), state: ButtonState::Pressed }
}

fn release(k: KeyCode) -> KeyboardInput {
    KeyboardInput { key_code: Some(k), state: ButtonState::Released }
}

#[test]
fn digit_press_with_one_material_swaps_to_that_index() {
    let mut mats = vec![ShaderMaterialInstance { current_tex: 0 }];
    swap_tex_to_idx_2d(&mut mats, &vec![press(KeyCode::Key5)]);
    assert_eq!(mats[0].current_tex, 5);
}

#[test]
fn digit_press_with_no_material_changes_nothing() {
    let mut mats: Vec<ShaderMaterialInstance> = vec![];
    swap_tex_to_idx_2d(&mut mats, &vec![press(KeyCode::Key5)]);
    assert!(mats.is_empty());
}

#[test]
fn digit_press_with_two_materials_changes_neither() {
    let mut mats = vec![
        ShaderMaterialInstance { current_tex: 1 },
        ShaderMaterialInstance { current_tex: 2 },
    ];
    swap_tex_to_idx_2d(&mut mats, &vec![press(KeyCode::Key5)]);
    assert_eq!(mats[0].current_tex, 1);
    assert_eq!(mats[1].current_tex, 2);
}

#[test]
fn release_halts_the_remaining_batch() {
    let mut mats = vec![ShaderMaterialInstance { current_tex: 0 }];
    let batch = vec![press(KeyCode::Key3), release(KeyCode::Key3), press(KeyCode::Key7)];
    swap_tex_to_idx_2d(&mut mats, &batch);
    assert_eq!(mats[0].current_tex, 3);
}

#[test]
fn non_digit_key_halts_the_remaining_batch() {
    let mut mats = vec![ShaderMaterialInstance { current_tex: 9 }];
    let batch = vec![press(KeyCode::Other), press(KeyCode::Key2)];
    swap_tex_to_idx_2d(&mut mats, &batch);
    assert_eq!(mats[0].current_tex, 9);
}

#[test]
fn unidentified_key_halts_the_remaining_batch() {
    let mut mats = vec![ShaderMaterialInstance { current_tex: 4 }];
    let batch = vec![
        KeyboardInput { key_code: None, state: ButtonState::Pressed },
        press(KeyCode::Key2),
    ];
    swap_tex_to_idx_2d(&mut mats, &batch);
    assert_eq!(mats[0].current_tex, 4);
}

#[test]
fn key_zero_selects_index_zero() {
    let mut mats = vec![ShaderMaterialInstance { current_tex: 8 }];
    swap_tex_to_idx_2d(&mut mats, &vec![press(KeyCode::Key0)]);
    assert_eq!(mats[0].current_tex, 0);
}

#[test]
fn successive_digit_presses_all_apply() {
    let mut mats = vec![ShaderMaterialInstance { current_tex: 0 }];
    let batch = vec![press(KeyCode::Key1), press(KeyCode::Key9), press(KeyCode::Key4)];
    swap_tex_to_idx_2d(&mut mats, &batch);
    assert_eq!(mats[0].current_tex, 4);
}

#[test]
fn empty_batch_changes_nothing() {
    let mut mats = vec![ShaderMaterialInstance { current_tex: 6 }];
    swap_tex_to_idx_2d(&mut mats, &vec![]);
    assert_eq!(mats[0].current_tex, 6);
}
