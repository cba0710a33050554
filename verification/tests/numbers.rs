use media_kit::input_event::element_state::ElementState;
use media_kit::input_event::mouse::{MouseButton, MouseButtonsInputState};
use media_kit::linalg::ispan2::ISpan2;
use media_kit::linalg::ivec2::IVec2;
use media_kit::linalg::ivec3::IVec3;
use media_kit::linalg::udim2::UDim2;
use media_kit::linalg::udim3::UDim3;
use media_kit::linalg::uspan::USpan;
use media_kit::linalg::uspan2::USpan2;
use media_kit::linalg::uvec2::UVec2;
use media_kit::linalg::uvec3::UVec3;
use media_kit::linalg::uvec4::UVec4;
use media_kit::noise::convert::i32_bits_to_u32;
use media_kit::noise::rand::{
    insert_random, pick_random, rand_bool, rand_usize_range, rand_usize_under,
};

fn hash<T: media_kit::noise::hash::Hash>(value: T) -> u32 {
    value.hash()
}

#[test]
fn hash_values() {
    assert_eq!(hash(0u32), 0);
    assert_eq!(hash(1u32), 307143837);
    assert_eq!(hash(2u32), 614320443);
    assert_eq!(hash(42u32), 4281892453);
    assert_eq!(hash(u32::MAX), 2925896852);
    assert_eq!(hash(-1i32), 2925896852);
    assert_eq!(hash(IVec2 { x: 3, y: -4 }), 4288486096);
    assert_eq!(hash(IVec3 { x: 1, y: 2, z: 3 }), 102866845);
}

#[test]
fn bits_of_signed_numbers() {
    assert_eq!(i32_bits_to_u32(0), 0);
    assert_eq!(i32_bits_to_u32(7), 7);
    assert_eq!(i32_bits_to_u32(-1), u32::MAX);
    assert_eq!(i32_bits_to_u32(i32::MIN), 0x8000_0000);
}

#[test]
fn random_numbers_are_functions_of_the_seed() {
    assert_eq!(rand_usize_under(10, 1), 7);
    assert_eq!(rand_usize_under(10, 42), 3);
    assert_eq!(rand_usize_under(1, 12345), 0);
    assert_eq!(rand_usize_range(5, 15, 1), 12);
    assert_eq!(rand_usize_range(5, 6, 99), 5);
    assert!(rand_bool(0));
    assert!(!rand_bool(1));
    assert!(rand_bool(u32::MAX));
}

#[test]
fn random_pick_and_insert() {
    let mut seq: Vec<u8> = vec![];
    assert_eq!(pick_random(&mut seq, 1), None);
    // The hash of 1 is 307143837, which is 7 modulo 10 and 2 modulo 5.
    let mut seq: Vec<u8> = (0..10).collect();
    assert_eq!(pick_random(&mut seq, 1), Some(7));
    assert_eq!(seq, vec![0, 1, 2, 3, 4, 5, 6, 8, 9]);
    let mut seq: Vec<u8> = vec![10, 11, 12, 13];
    insert_random(&mut seq, 99, 1);
    assert_eq!(seq, vec![10, 11, 99, 12, 13]);
    let mut seq: Vec<u8> = vec![];
    insert_random(&mut seq, 1, 5);
    assert_eq!(seq, vec![1]);
}

#[test]
fn signed_vectors() {
    assert_eq!(IVec2::new(1, -2), IVec2 { x: 1, y: -2 });
    assert_eq!(IVec2::new(1, -2) + IVec2::new(3, 4), IVec2::new(4, 2));
    assert_eq!(IVec2::new(1, -2) - IVec2::new(3, 4), IVec2::new(-2, -6));
    let mut v = IVec2::new(1, 1);
    v.add_assign(IVec2::new(-5, 5));
    assert_eq!(v, IVec2::new(-4, 6));
    assert_eq!(IVec3::zero(), IVec3::new(0, 0, 0));
    assert_eq!(IVec3::new(1, 2, 3) + IVec3::new(1, 1, 1), IVec3::new(2, 3, 4));
    assert_eq!(IVec3::new(1, 2, 3) - IVec3::new(1, 1, 1), IVec3::new(0, 1, 2));
    let mut v = IVec3::new(1, 2, 3);
    v.add_assign(IVec3::new(10, 20, 30));
    assert_eq!(v, IVec3::new(11, 22, 33));
}

#[test]
fn unsigned_vectors() {
    assert_eq!(UVec2::all(3), UVec2 { x: 3, y: 3 });
    assert_eq!(UVec2 { x: 1, y: 2 } + UVec2::all(3), UVec2 { x: 4, y: 5 });
    assert_eq!(UVec2 { x: 5, y: 7 } - UVec2::all(3), UVec2 { x: 2, y: 4 });
    assert_eq!(UVec2 { x: 5, y: 6 } ^ UVec2::all(3), UVec2 { x: 6, y: 5 });
    assert_eq!(UVec2::default(), UVec2::all(0));
    assert_eq!(UVec3::new(1, 2, 3), UVec3 { x: 1, y: 2, z: 3 });
    assert_eq!(UVec3::all(2), UVec3::new(2, 2, 2));
    assert_eq!(UVec3::new(1, 2, 3) + UVec3::all(2), UVec3::new(3, 4, 5));
    assert_eq!(UVec3::new(5, 6, 7) - UVec3::new(1, 2, 3), UVec3::new(4, 4, 3));
    assert_eq!(UVec3::new(1, 2, 3) ^ UVec3::all(1), UVec3::new(0, 3, 2));
    assert_eq!(UVec4::all(1), UVec4 { x: 1, y: 1, z: 1, w: 1 });
    assert_eq!(
        UVec4 { x: 1, y: 2, z: 3, w: 4 } + UVec4::all(1),
        UVec4 { x: 2, y: 3, z: 4, w: 5 }
    );
    assert_eq!(
        UVec4 { x: 5, y: 6, z: 7, w: 8 } - UVec4 { x: 1, y: 2, z: 3, w: 4 },
        UVec4 { x: 4, y: 4, z: 3, w: 4 }
    );
    assert_eq!(
        UVec4 { x: 1, y: 2, z: 3, w: 4 } ^ UVec4::all(1),
        UVec4 { x: 0, y: 3, z: 2, w: 5 }
    );
    assert_eq!(UVec4::default(), UVec4::all(0));
}

#[test]
fn sizes() {
    assert_eq!(UDim2::zero(), UDim2 { x: 0, y: 0 });
    assert_eq!(UDim2 { x: 3, y: 4 }.n(), 12);
    assert_eq!(UDim2 { x: 3, y: 4 } + UDim2 { x: 1, y: 1 }, UDim2 { x: 4, y: 5 });
    assert_eq!(UDim2 { x: 3, y: 4 } * UDim2 { x: 2, y: 3 }, UDim2 { x: 6, y: 12 });
    assert_eq!(UDim2 { x: 7, y: 8 } / 2, UDim2 { x: 3, y: 4 });
    assert_eq!(UDim3::zero(), UDim3 { x: 0, y: 0, z: 0 });
    assert_eq!(UDim3 { x: 3, y: 4, z: 5 }.n(), 12);
    assert_eq!(
        UDim3 { x: 3, y: 4, z: 5 } + UDim3 { x: 1, y: 1, z: 1 },
        UDim3 { x: 4, y: 5, z: 6 }
    );
    assert_eq!(
        UDim3 { x: 3, y: 4, z: 5 } * UDim3 { x: 2, y: 2, z: 2 },
        UDim3 { x: 6, y: 8, z: 10 }
    );
    assert_eq!(UDim3 { x: 7, y: 8, z: 9 } / 3, UDim3 { x: 2, y: 2, z: 3 });
}

#[test]
fn spans() {
    let s = ISpan2 { x0: -2, y0: 1, x1: 5, y1: -3 };
    assert_eq!(s.w(), 7);
    assert_eq!(s.h(), -4);
    assert_eq!(USpan { x0: 2, x1: 7 }.len(), 5);
    let s = USpan2 { x0: 1, y0: 2, x1: 6, y1: 10 };
    assert_eq!(s.w(), 5);
    assert_eq!(s.h(), 8);
    assert_eq!(s.center_x(), 3);
    assert_eq!(s.center_y(), 6);
    assert_eq!(s.dim(), UDim2 { x: 5, y: 8 });
    assert_eq!(s.screen_flipped(100), USpan2 { x0: 1, y0: 90, x1: 6, y1: 98 });
    assert_eq!(USpan2::from(UDim2 { x: 4, y: 3 }), USpan2 { x0: 0, y0: 0, x1: 4, y1: 3 });
}

#[test]
fn substring_of_a_span() {
    assert_eq!(USpan { x0: 1, x1: 4 }.substring("hello"), "ell");
    assert_eq!(USpan { x0: 0, x1: 5 }.substring("hello"), "hello");
    assert_eq!(USpan { x0: 2, x1: 2 }.substring("hello"), "");
    assert_eq!(USpan { x0: 1, x1: 3 }.substring("a\u{f6}b"), "\u{f6}");
}

#[test]
fn mouse_buttons() {
    assert!(ElementState::Pressed.is_pressed());
    assert!(!ElementState::Released.is_pressed());
    assert_eq!(ElementState::default(), ElementState::Pressed);
    let mut state = MouseButtonsInputState::new();
    for button in [MouseButton::Left, MouseButton::Right, MouseButton::Middle] {
        assert_eq!(state.get(button), ElementState::Released);
    }
    state.set(MouseButton::Right, ElementState::Pressed);
    assert_eq!(state.get(MouseButton::Left), ElementState::Released);
    assert_eq!(state.get(MouseButton::Right), ElementState::Pressed);
    assert_eq!(state.get(MouseButton::Middle), ElementState::Released);
    state.set(MouseButton::Middle, ElementState::Pressed);
    state.set(MouseButton::Right, ElementState::Released);
    assert_eq!(
        state,
        MouseButtonsInputState {
            left: ElementState::Released,
            right: ElementState::Released,
            middle: ElementState::Pressed,
        }
    );
}
