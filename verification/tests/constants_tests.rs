use lindqvist_ice::constants::MaterialConstants;

#[test]
fn standard_constants_have_the_fixed_values() {
    let mc = MaterialConstants::standard();
    assert_eq!(mc.gravity_centi, 981);
    assert_eq!(mc.water_density, 1025);
    assert_eq!(mc.ice_density, 920);
    assert_eq!(mc.friction_centi, 30);
    assert_eq!(mc.bending_strength, 500000);
}

#[test]
fn density_difference_is_105() {
    let mc = MaterialConstants::standard();
    assert_eq!(mc.density_difference(), 105);
}
