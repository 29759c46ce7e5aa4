use ovr::eye::{Eye, PerEye, EYE_LEFT, EYE_RIGHT};
use ovr::geom::Texture;
use ovr::hmd_type::{
    HmdType, HMD_TYPE_CRYSTAL_COVE_PROTO, HMD_TYPE_DK1, HMD_TYPE_DK2, HMD_TYPE_DKHD,
    HMD_TYPE_NONE, HMD_TYPE_OTHER,
};

#[test]
fn hmd_type_decodes_every_defined_code() {
    assert_eq!(HmdType::from_ll(HMD_TYPE_NONE), HmdType::NoDevice);
    assert_eq!(HmdType::from_ll(HMD_TYPE_DK1), HmdType::DK1);
    assert_eq!(HmdType::from_ll(HMD_TYPE_DKHD), HmdType::DKHD);
    assert_eq!(HmdType::from_ll(HMD_TYPE_CRYSTAL_COVE_PROTO), HmdType::CrystalCoveProto);
    assert_eq!(HmdType::from_ll(HMD_TYPE_DK2), HmdType::DK2);
    assert_eq!(HmdType::from_ll(HMD_TYPE_OTHER), HmdType::Other);
}

#[test]
fn hmd_type_unknown_codes_decode_to_other() {
    assert_eq!(HmdType::from_ll(1), HmdType::Other);
    assert_eq!(HmdType::from_ll(2), HmdType::Other);
    assert_eq!(HmdType::from_ll(42), HmdType::Other);
    assert_eq!(HmdType::from_ll(-1), HmdType::Other);
}

#[test]
fn hmd_type_encodes_every_model() {
    assert_eq!(HmdType::NoDevice.to_ll(), HMD_TYPE_NONE);
    assert_eq!(HmdType::DK1.to_ll(), HMD_TYPE_DK1);
    assert_eq!(HmdType::DKHD.to_ll(), HMD_TYPE_DKHD);
    assert_eq!(HmdType::CrystalCoveProto.to_ll(), HMD_TYPE_CRYSTAL_COVE_PROTO);
    assert_eq!(HmdType::DK2.to_ll(), HMD_TYPE_DK2);
    assert_eq!(HmdType::Other.to_ll(), HMD_TYPE_OTHER);
}

#[test]
fn hmd_type_round_trips_through_its_code() {
    for t in [
        HmdType::NoDevice,
        HmdType::DK1,
        HmdType::DKHD,
        HmdType::CrystalCoveProto,
        HmdType::DK2,
        HmdType::Other,
    ] {
        assert_eq!(HmdType::from_ll(t.to_ll()), t);
    }
}

#[test]
fn eye_decodes_and_encodes_both_codes() {
    assert_eq!(Eye::from_ll(EYE_LEFT), Eye::Left);
    assert_eq!(Eye::from_ll(EYE_RIGHT), Eye::Right);
    assert_eq!(Eye::Left.to_ll(), EYE_LEFT);
    assert_eq!(Eye::Right.to_ll(), EYE_RIGHT);
    assert_eq!(Eye::from_ll(Eye::Left.to_ll()), Eye::Left);
    assert_eq!(Eye::from_ll(Eye::Right.to_ll()), Eye::Right);
}

#[test]
fn per_eye_new_holds_both_values() {
    let pair = PerEye::new(10u32, 20u32);
    assert_eq!(pair.left, 10);
    assert_eq!(pair.right, 20);
}

#[test]
fn per_eye_eye_selects_the_asked_side() {
    let pair = PerEye::new("l".to_string(), "r".to_string());
    assert_eq!(pair.eye(Eye::Left), "l");
    assert_eq!(pair.eye(Eye::Right), "r");
}

#[test]
fn per_eye_map_applies_to_both_sides() {
    let pair = PerEye::new(3u32, 4u32);
    let doubled = pair.map(|_eye, v| *v * 2);
    assert_eq!(doubled.left, 6);
    assert_eq!(doubled.right, 8);
}

#[test]
fn per_eye_map_hands_each_side_its_own_eye() {
    let pair = PerEye::new(0u32, 0u32);
    let tagged = pair.map(|eye, _v| eye);
    assert_eq!(tagged.left, Eye::Left);
    assert_eq!(tagged.right, Eye::Right);
}

#[test]
fn texture_new_reduces_an_oversized_dimension_to_32_bits() {
    let wide: isize = (1 << 33) + 5;
    let texture = Texture::new(wide, 10, 0, 0, 10, 10, 1);
    assert_eq!(texture.size.x, 5);
    assert_eq!(texture.size.y, 10);
}

#[test]
fn texture_new_fills_every_field() {
    let texture = Texture::new(1920, 1080, 0, 540, 960, 1080, 7);
    assert_eq!(texture.size.x, 1920);
    assert_eq!(texture.size.y, 1080);
    assert_eq!(texture.viewport.pos.x, 0);
    assert_eq!(texture.viewport.pos.y, 540);
    assert_eq!(texture.viewport.size.x, 960);
    assert_eq!(texture.viewport.size.y, 1080);
    assert_eq!(texture.texture, 7);
}
