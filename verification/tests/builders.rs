use sguaba::builder::{IsSet, Unset};
use sguaba::directions::{Bearing, Components as BearingComponents, HasAzimuth, HasElevation, MissingAzimuth, MissingElevation};
use sguaba::geodetic::{hemisphere_letters, Components as Wgs84Components, Wgs84};
use sguaba::math::tait_bryan_builder::{Complete, TaitBryanBuilder};
use sguaba::systems::{
    CoordinateSystem, EnuComponents, EnuLike, FrdComponents, FrdLike, HasComponents, NedComponents, NedLike,
    RightHandedXyzLike, XyzComponents,
};
use sguaba::vectors::Builder as VectorBuilder;
use std::f64::consts::{FRAC_PI_2, PI, TAU};
use uom::si::angle::{degree, radian};
use uom::si::f64::{Angle, Length, Velocity};
use uom::si::length::meter;
use uom::si::velocity::meter_per_second;

struct PlaneFrd;
impl CoordinateSystem for PlaneFrd {
    type Convention = FrdLike;
}

struct PlaneNed;
impl CoordinateSystem for PlaneNed {
    type Convention = NedLike;
}

struct PlaneEnu;
impl CoordinateSystem for PlaneEnu {
    type Convention = EnuLike;
}

struct TestXyz;
impl CoordinateSystem for TestXyz {
    type Convention = RightHandedXyzLike;
}

fn m(meters: f64) -> Length {
    Length::new::<meter>(meters)
}

fn d(degrees: f64) -> Angle {
    Angle::new::<degree>(degrees)
}

fn mps(meters_per_second: f64) -> Velocity {
    Velocity::new::<meter_per_second>(meters_per_second)
}

/// Whether the angle lies in [-90°, 90°] once brought into [-180°, 180°).
fn in_quarter_turn(angle: Angle) -> bool {
    let signed = (angle.get::<radian>() + PI).rem_euclid(TAU) - PI;
    (-FRAC_PI_2..=FRAC_PI_2).contains(&signed)
}

fn bearing(azimuth: Angle, elevation: Angle) -> Option<Bearing<PlaneFrd, Angle>> {
    Bearing::build(BearingComponents { azimuth, elevation }, in_quarter_turn(elevation))
}

fn wgs84(latitude: Angle, longitude: Angle, altitude: Length) -> Option<Wgs84<Angle, Length>> {
    Wgs84::build(Wgs84Components { latitude, longitude, altitude }, in_quarter_turn(latitude))
}

#[test]
fn bearing_builder() {
    let bearing = bearing(d(1.0), d(2.0)).unwrap();
    assert_eq!(bearing.azimuth(), d(1.0));
    assert_eq!(bearing.elevation(), d(2.0));

    let bearing = bearing.to_builder().azimuth(d(10.0)).build();

    assert_eq!(bearing.azimuth(), d(10.0));
    assert_eq!(bearing.elevation(), d(2.0));

    let bearing = bearing
        .to_builder()
        .elevation(d(20.0), in_quarter_turn(d(20.0)))
        .unwrap()
        .build();

    assert_eq!(bearing.azimuth(), d(10.0));
    assert_eq!(bearing.elevation(), d(20.0));
}

#[test]
fn bearing_build_matches_builder_chain() {
    let built = bearing(d(20.0), d(10.0)).unwrap();
    let chained = Bearing::<PlaneFrd, Angle>::builder()
        .azimuth(d(20.0))
        .elevation(d(10.0), in_quarter_turn(d(10.0)))
        .expect("elevation is in [-90º, 90º]")
        .build();
    assert_eq!(built.azimuth(), chained.azimuth());
    assert_eq!(built.elevation(), chained.elevation());
}

#[test]
fn bearing_elevation_can_be_set_before_azimuth() {
    let b = Bearing::<PlaneFrd, f64>::builder()
        .elevation(-45.0, true)
        .unwrap()
        .azimuth(270.0)
        .build();
    assert_eq!(b.azimuth(), 270.0);
    assert_eq!(b.elevation(), -45.0);
}

#[test]
fn bearing_refuses_out_of_range_elevation() {
    assert!(bearing(d(0.0), d(91.0)).is_none());
    assert!(bearing(d(0.0), d(-91.0)).is_none());
    assert!(bearing(d(0.0), d(90.0)).is_some());
    assert!(bearing(d(0.0), d(-90.0)).is_some());
    // 360º + 10º is the same elevation as 10º
    assert!(bearing(d(0.0), d(370.0)).is_some());
    let refused = Bearing::<PlaneFrd, Angle>::builder().azimuth(d(5.0)).elevation(d(100.0), false);
    assert!(refused.is_none());
    let deprecated = Bearing::<PlaneFrd, Angle>::new(d(20.0), d(10.0), in_quarter_turn(d(10.0))).unwrap();
    assert_eq!(deprecated.azimuth(), d(20.0));
    assert_eq!(deprecated.elevation(), d(10.0));
    assert!(Bearing::<PlaneFrd, Angle>::new(d(20.0), d(100.0), in_quarter_turn(d(100.0))).is_none());
}

#[test]
fn bearing_to_builder_roundtrip() {
    let first = bearing(d(123.0), d(-12.5)).unwrap();
    let again = first.to_builder().build();
    assert_eq!(again.azimuth(), d(123.0));
    assert_eq!(again.elevation(), d(-12.5));
}

#[test]
fn bearing_markers_are_plain_values() {
    let _ = (MissingAzimuth, HasAzimuth, MissingElevation, HasElevation);
    let _ = (Unset, IsSet, Complete);
}

#[test]
fn wgs_builder() {
    let wgs = wgs84(d(1.0), d(2.0), m(3.0)).unwrap();
    assert_eq!(wgs.latitude_as_given(), d(1.0));
    assert_eq!(wgs.longitude_as_given(), d(2.0));
    assert_eq!(wgs.altitude(), m(3.0));

    let wgs = wgs.to_builder().latitude(d(10.0), in_quarter_turn(d(10.0))).unwrap().build();

    assert_eq!(wgs.latitude_as_given(), d(10.0));
    assert_eq!(wgs.longitude_as_given(), d(2.0));
    assert_eq!(wgs.altitude(), m(3.0));

    let wgs = wgs.to_builder().longitude(d(20.0)).build();

    assert_eq!(wgs.latitude_as_given(), d(10.0));
    assert_eq!(wgs.longitude_as_given(), d(20.0));
    assert_eq!(wgs.altitude(), m(3.0));

    let wgs = wgs.to_builder().altitude(m(30.0)).build();

    assert_eq!(wgs.latitude_as_given(), d(10.0));
    assert_eq!(wgs.longitude_as_given(), d(20.0));
    assert_eq!(wgs.altitude(), m(30.0));
}

#[test]
fn wgs_refuses_bad_latitude() {
    assert!(wgs84(d(90.9948211), d(7.8211606), m(1000.0)).is_none());
    assert!(wgs84(d(190.112282), d(19.880389), m(0.0)).is_none());
    assert!(wgs84(d(90.0), d(0.0), m(0.0)).is_some());
    assert!(wgs84(d(-90.0), d(0.0), m(0.0)).is_some());
    let refused = Wgs84::<Angle, Length>::builder()
        .longitude(d(3.0))
        .altitude(m(4.0))
        .latitude(d(120.0), false);
    assert!(refused.is_none());
    assert!(Wgs84::<Angle, Length>::new(d(95.0), d(0.0), m(0.0), in_quarter_turn(d(95.0))).is_none());
    let w = Wgs84::<Angle, Length>::new(d(35.3619), d(138.7280), m(2294.0), true).unwrap();
    assert_eq!(w.latitude_as_given(), d(35.3619));
    assert_eq!(w.longitude_as_given(), d(138.7280));
    assert_eq!(w.altitude(), m(2294.0));
}

#[test]
fn wgs_components_can_be_given_in_any_order() {
    let a = Wgs84::<f64, f64>::builder()
        .altitude(1000.0)
        .longitude(30.0)
        .latitude(12.0, true)
        .unwrap()
        .build();
    let b = Wgs84::<f64, f64>::builder()
        .latitude(12.0, true)
        .unwrap()
        .altitude(1000.0)
        .longitude(30.0)
        .build();
    assert_eq!(a.latitude_as_given(), b.latitude_as_given());
    assert_eq!(a.longitude_as_given(), b.longitude_as_given());
    assert_eq!(a.altitude(), b.altitude());
    assert_eq!(a.latitude_as_given(), 12.0);
    assert_eq!(a.longitude_as_given(), 30.0);
    assert_eq!(a.altitude(), 1000.0);
}

#[test]
fn wgs_hemisphere_letters() {
    // Mt. Fuji and its mirror images across the equator and the prime meridian
    assert_eq!(hemisphere_letters(true, true), ('N', 'E'));
    assert_eq!(hemisphere_letters(false, true), ('S', 'E'));
    assert_eq!(hemisphere_letters(true, false), ('N', 'W'));
    assert_eq!(hemisphere_letters(false, false), ('S', 'W'));
    // what the printed form of the location at the origin relies on
    let origin = 0.0f64;
    assert_eq!(
        hemisphere_letters(origin.is_sign_positive(), origin.is_sign_positive()),
        ('N', 'E')
    );
}

#[test]
fn builder_pattern_works() {
    let [front, right, down] = VectorBuilder::<PlaneFrd, Unset, Unset, Unset, Length>::new()
        .frd_front(m(1.0))
        .frd_right(m(2.0))
        .frd_down(m(3.0))
        .build();
    assert_eq!(front, m(1.0));
    assert_eq!(right, m(2.0));
    assert_eq!(down, m(3.0));
}

#[test]
fn vector_builder_any_order_and_overwrite() {
    let xyz = VectorBuilder::<TestXyz, Unset, Unset, Unset, f64>::default()
        .z(3.0)
        .x(7.0)
        .y(2.0)
        .x(1.0)
        .build();
    assert_eq!(xyz, [1.0, 2.0, 3.0]);

    let ned = VectorBuilder::<PlaneNed, Unset, Unset, Unset, Velocity>::new()
        .ned_down(mps(3.0))
        .ned_east(mps(2.0))
        .ned_north(mps(1.0))
        .build();
    assert_eq!(ned, [mps(1.0), mps(2.0), mps(3.0)]);

    let enu = VectorBuilder::<PlaneEnu, Unset, Unset, Unset, Length>::new()
        .enu_up(m(30.0))
        .enu_north(m(20.0))
        .enu_east(m(10.0))
        .build();
    assert_eq!(enu, [m(10.0), m(20.0), m(30.0)]);
}

#[test]
fn named_components_are_ordered_along_xyz() {
    assert_eq!(
        <NedLike as HasComponents<f64>>::to_xyz(NedComponents { north: 1.0, east: 2.0, down: 3.0 }),
        [1.0, 2.0, 3.0]
    );
    assert_eq!(
        <FrdLike as HasComponents<f64>>::to_xyz(FrdComponents { front: 4.0, right: 5.0, down: 6.0 }),
        [4.0, 5.0, 6.0]
    );
    assert_eq!(
        <EnuLike as HasComponents<f64>>::to_xyz(EnuComponents { east: 7.0, north: 8.0, up: 9.0 }),
        [7.0, 8.0, 9.0]
    );
    assert_eq!(
        <RightHandedXyzLike as HasComponents<Length>>::to_xyz(XyzComponents { x: m(1.0), y: m(2.0), z: m(3.0) }),
        [m(1.0), m(2.0), m(3.0)]
    );
}

#[test]
fn tait_bryan_builder_enforces_order() {
    let builder = TaitBryanBuilder::<_, PlaneNed, Angle>::new();

    // Can call yaw first
    let builder = builder.yaw(d(10.));

    // Can call pitch after yaw
    let builder = builder.pitch(d(20.));

    // Can call roll after pitch
    let builder = builder.roll(d(30.));

    // The angles come out in intrinsic order
    let (yaw, pitch, roll) = builder.yaw_pitch_roll();
    assert_eq!(yaw, d(10.));
    assert_eq!(pitch, d(20.));
    assert_eq!(roll, d(30.));
}

#[test]
fn tait_bryan_builder_keeps_angles_apart() {
    let (yaw, pitch, roll) = TaitBryanBuilder::<_, (), f64>::new()
        .yaw(90.0)
        .pitch(45.0)
        .roll(-5.0)
        .yaw_pitch_roll();
    assert_eq!((yaw, pitch, roll), (90.0, 45.0, -5.0));
}

#[test]
fn wgs_build_matches_builder_chain_and_roundtrips() {
    let built = wgs84(d(-27.270950), d(19.880389), m(3000.0)).unwrap();
    let chained = Wgs84::<Angle, Length>::builder()
        .latitude(d(-27.270950), in_quarter_turn(d(-27.270950)))
        .expect("latitude is in [-90º, 90º]")
        .longitude(d(19.880389))
        .altitude(m(3000.0))
        .build();
    assert_eq!(built.latitude_as_given(), chained.latitude_as_given());
    assert_eq!(built.longitude_as_given(), chained.longitude_as_given());
    assert_eq!(built.altitude(), chained.altitude());

    let again = built.to_builder().build();
    assert_eq!(again.latitude_as_given(), d(-27.270950));
    assert_eq!(again.longitude_as_given(), d(19.880389));
    assert_eq!(again.altitude(), m(3000.0));
}

#[test]
fn builders_are_copies_of_their_values() {
    let partial = Bearing::<PlaneFrd, f64>::builder().azimuth(1.0);
    let first = partial.elevation(2.0, true).unwrap().build();
    let second = partial.elevation(3.0, true).unwrap().build();
    assert_eq!((first.azimuth(), first.elevation()), (1.0, 2.0));
    assert_eq!((second.azimuth(), second.elevation()), (1.0, 3.0));
    let copied = first;
    assert_eq!(copied.elevation(), first.elevation());
}
