use modeling::camera::DEFAULT_FOVY;
use modeling::light::{
    Light, LightError, LightMove, LightObject, LightRaw, Lights, LIGHT_RAW_SIZE, LIGHT_RAW_WORDS, LIGHT_STEP,
    SHADOW_HEIGHT, SHADOW_WIDTH,
};

const MAX_LIGHTS: usize = 2;

fn matrix(first: u32) -> [[u32; 4]; 4] {
    let mut m = [[0u32; 4]; 4];
    for r in 0..4 {
        for c in 0..4 {
            m[r][c] = first + (4 * r + c) as u32;
        }
    }
    m
}

fn light(n: u32) -> LightObject {
    let light = Light::new([n, n + 1, n + 2], [n + 3, n + 4, n + 5], n + 6, (n + 7, n + 8));
    LightObject::new(light, matrix(100 * n))
}

#[test]
fn record_is_ninety_six_bytes() {
    assert_eq!(LIGHT_RAW_WORDS, 24);
    assert_eq!(LIGHT_RAW_SIZE, 96);
    assert_eq!(std::mem::size_of::<LightRaw>(), 96);
    assert_eq!(LIGHT_STEP as f32 / 1000., 0.2);
}

#[test]
fn new_light_casts_no_shadow() {
    let l = Light::new([1, 2, 3], [4, 5, 6], 7, (8, 9));
    assert_eq!(l.position, [1, 2, 3]);
    assert_eq!(l.color, [4, 5, 6]);
    assert_eq!(l.fov, 7);
    assert_eq!(l.depth, (8, 9));
    assert_eq!(l.shadow_view, None);
}

#[test]
fn initial_light_is_white_at_200_200_2() {
    let l = Light::initial();
    let position: Vec<f32> = l.position.iter().map(|w| f32::from_bits(*w)).collect();
    let color: Vec<f32> = l.color.iter().map(|w| f32::from_bits(*w)).collect();
    assert_eq!(position, vec![200.0, 200.0, 2.0]);
    assert_eq!(color, vec![1.0, 1.0, 1.0]);
    assert_eq!(l.fov, DEFAULT_FOVY);
    assert_eq!((f32::from_bits(l.depth.0), f32::from_bits(l.depth.1)), (1.0, 20.0));
    assert_eq!(l.shadow_view, None);
}

#[test]
fn record_completes_position_and_colour_by_one() {
    let l = Light::new([1, 2, 3], [4, 5, 6], 7, (8, 9));
    let raw = l.to_raw(matrix(10));
    assert_eq!(raw.projection, matrix(10));
    assert_eq!(raw.position, [1, 2, 3, 1f32.to_bits()]);
    assert_eq!(raw.color, [4, 5, 6, 1f32.to_bits()]);
    let words = raw.words();
    assert_eq!(&words[..16], &(10..26).collect::<Vec<u32>>()[..]);
    assert_eq!(&words[16..20], &raw.position);
    assert_eq!(&words[20..24], &raw.color);
}

#[test]
fn update_moves_the_light_and_its_record() {
    let mut object = light(1);
    object.light.shadow_view = Some(4);
    object.update([70, 80, 90], matrix(500));
    assert_eq!(object.light.position, [70, 80, 90]);
    assert_eq!(object.light.color, [4, 5, 6]);
    assert_eq!(object.light.shadow_view, Some(4));
    assert_eq!(object.raw, object.light.to_raw(matrix(500)));
    assert_eq!(object.buffer().len(), 96);
    assert_eq!(&object.buffer()[64..68], &70u32.to_ne_bytes());
}

#[test]
fn set_with_exactly_as_many_lights_as_it_has_room_for() {
    let lights = Lights::new(MAX_LIGHTS, vec![light(1), light(2)]).unwrap();
    assert_eq!(lights.lights.len(), MAX_LIGHTS);
    assert_eq!(lights.max_lights, 2);
    assert!(lights.is_sound());
    assert_eq!(lights.lights[0].light.shadow_view, Some(0));
    assert_eq!(lights.lights[1].light.shadow_view, Some(1));
    assert_eq!(lights.lights[1].raw, light(2).raw);
    assert_eq!(lights.storage_size(), 192);
    assert_eq!(lights.shadow_size(), (SHADOW_WIDTH, SHADOW_HEIGHT, 2));
    let words = lights.storage();
    assert_eq!(words.len(), 48);
    assert_eq!(&words[..24], &light(1).raw.words());
    assert_eq!(&words[24..], &light(2).raw.words());
    let bytes = lights.light_storage_buf();
    assert_eq!(bytes.len() as u64, lights.storage_size());
    assert_eq!(&bytes[96..100], &200u32.to_ne_bytes());
}

#[test]
fn set_can_tell_whether_it_is_sound() {
    let mut lights = Lights::new(2, vec![light(1), light(2)]).unwrap();
    assert!(lights.is_sound());
    lights.lights[1].light.shadow_view = Some(0);
    assert!(!lights.is_sound());
    lights.lights[1].light.shadow_view = None;
    assert!(!lights.is_sound());
    lights.lights[1].light.shadow_view = Some(1);
    lights.lights.push(light(3));
    assert!(!lights.is_sound());
    lights.lights.pop();
    lights.max_lights = 1;
    assert!(!lights.is_sound());
}

#[test]
fn one_light_too_many_is_refused() {
    let r = Lights::new(MAX_LIGHTS, vec![light(1), light(2), light(3)]);
    assert_eq!(r.unwrap_err(), LightError::TooManyLights { count: 3, max_lights: 2 });
}

#[test]
fn set_may_hold_fewer_lights_than_it_has_room_for() {
    let lights = Lights::new(4, vec![light(5)]).unwrap();
    assert_eq!(lights.storage_size(), 4 * 96);
    assert_eq!(lights.storage().len(), 24);
    assert_eq!(lights.shadow_size(), (1, 1, 4));
    let none = Lights::new(1, vec![]).unwrap();
    assert!(none.storage().is_empty());
    assert!(none.light_storage_buf().is_empty());
}

#[test]
fn set_with_room_for_none_holds_none() {
    let none = Lights::new(0, vec![]).unwrap();
    assert!(none.is_sound());
    assert!(none.lights.is_empty());
    assert_eq!(none.max_lights, 0);
    assert_eq!(none.storage_size(), 96);
    assert_eq!(none.shadow_size(), (1, 1, 1));
    assert!(none.storage().is_empty());
    assert_eq!(
        Lights::new(0, vec![light(1)]).unwrap_err(),
        LightError::TooManyLights { count: 1, max_lights: 0 }
    );
}

#[test]
fn full_sets_are_made_for_every_room() {
    for room in 0..6usize {
        let lights: Vec<LightObject> = (0..room as u32).map(light).collect();
        let set = Lights::new(room, lights).unwrap();
        assert_eq!(set.lights.len(), room);
        for (i, object) in set.lights.iter().enumerate() {
            assert_eq!(object.light.shadow_view, Some(i as u32));
        }
        assert_eq!(set.storage().len(), 24 * room);
        let over: Vec<LightObject> = (0..room as u32 + 1).map(light).collect();
        assert_eq!(
            Lights::new(room, over).unwrap_err(),
            LightError::TooManyLights { count: room + 1, max_lights: room }
        );
    }
}

#[test]
fn every_light_goes_by_its_move() {
    let mut set = Lights::new(3, vec![light(1), light(2)]).unwrap();
    let moves = vec![
        LightMove { position: [11, 12, 13], view_proj: matrix(7) },
        LightMove { position: [21, 22, 23], view_proj: matrix(8) },
    ];
    assert_eq!(set.update(&moves), Ok(()));
    for (i, object) in set.lights.iter().enumerate() {
        assert_eq!(object.light.position, moves[i].position);
        assert_eq!(object.light.color, light(i as u32 + 1).light.color);
        assert_eq!(object.light.shadow_view, Some(i as u32));
        assert_eq!(object.raw, object.light.to_raw(moves[i].view_proj));
        assert_eq!(object.raw.position[..3], moves[i].position);
    }
    assert!(set.is_sound());
    let words = set.storage();
    assert_eq!(&words[24..48], &set.lights[1].raw.words());
}

#[test]
fn moves_come_one_per_light() {
    let mut set = Lights::new(3, vec![light(1), light(2)]).unwrap();
    let before = set.lights.clone();
    let one = vec![LightMove { position: [1, 1, 1], view_proj: matrix(0) }];
    assert_eq!(set.update(&one), Err(LightError::MoveCount { lights: 2, moves: 1 }));
    assert_eq!(set.update(&vec![]), Err(LightError::MoveCount { lights: 2, moves: 0 }));
    assert_eq!(set.lights, before);
    let mut none = Lights::new(3, vec![]).unwrap();
    assert_eq!(none.update(&vec![]), Ok(()));
}

#[test]
fn room_is_counted_in_32_bits() {
    let r = Lights::new(0x1_0000_0000, vec![]);
    assert_eq!(r.unwrap_err(), LightError::CapacityTooLarge { max_lights: 0x1_0000_0000 });
    let most = Lights::new(0xffff_ffff, vec![light(1)]).unwrap();
    assert_eq!(most.storage_size(), 96 * 0xffff_ffffu64);
}
