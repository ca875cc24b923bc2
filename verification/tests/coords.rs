use swiftnav::coords::{Hemisphere, LatitudinalHemisphere, LongitudinalHemisphere};


#[test]
fn display_latitudinal_hemisphere() {
    assert_eq!(LatitudinalHemisphere::North.to_string(), "N");
    assert_eq!(LatitudinalHemisphere::South.to_string(), "S");
}

#[test]
fn display_longitudinal_hemisphere() {
    assert_eq!(LongitudinalHemisphere::East.to_string(), "E");
    assert_eq!(LongitudinalHemisphere::West.to_string(), "W");
}

#[test]
fn display_hemisphere() {
    assert_eq!(
        Hemisphere::Latitudinal(LatitudinalHemisphere::North).to_string(),
        "N"
    );
    assert_eq!(
        Hemisphere::Longitudinal(LongitudinalHemisphere::West).to_string(),
        "W"
    );
}
