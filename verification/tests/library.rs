use std::str::FromStr;
use swiftnav::almanac::{check_almanac_constellation, UnsupportedConstellation};
use swiftnav::edc::compute_crc24q;
use swiftnav::ephemeris::{InvalidEphemeris, Status};
use swiftnav::geoid::GeoidModel;
use swiftnav::math::compile_time_max_u16;
use swiftnav::nmea::{gga_minute_decimal_places, gga_minutes_width, GPSQuality, Source};
use swiftnav::reference_frame::{FrameGraph, ReferenceFrame, TransformationNotFound};
use swiftnav::signal::{
    Code, Constellation, GnssSignal, InvalidCode, InvalidCodeInt, InvalidConstellation,
    InvalidConstellationChar, InvalidConstellationInt,
};
use swiftnav::signal::{InvalidGnssSignal, InvalidSatellite};
use swiftnav::solver::{pvt_outcome, ProcessingStrategy, PvtError, PvtSettings, PvtStatus};
use swiftnav::text::{push_decimal, str_matches};
use swiftnav::time::{
    add_back_leap_second, date_from_days_since_1601, is_leap_second_event_hardcoded_secs,
    mjd_full_days, time_of_day,
    utc_offset_hardcoded_secs,
};

fn ids(g: &FrameGraph, p: &[usize]) -> Vec<usize> {
    p.iter().map(|&pos| g.edge(pos).id).collect()
}

#[test]
fn frame_graph_shortest_path_and_errors() {
    let mut g = FrameGraph::new();
    assert_eq!(g.count(), 0);
    g.add_transformation(ReferenceFrame::ITRF2020, ReferenceFrame::ITRF2014, 0, 1);
    g.add_transformation(ReferenceFrame::ITRF2014, ReferenceFrame::ETRF2020, 2, 3);
    assert_eq!(g.count(), 4);

    let p = g
        .get_shortest_path(&ReferenceFrame::ITRF2020, &ReferenceFrame::ETRF2020)
        .unwrap();
    assert_eq!(ids(&g, &p), vec![0, 2]);

    // The reverse chain is as long, through the inverse transformations.
    let back = g
        .get_shortest_path(&ReferenceFrame::ETRF2020, &ReferenceFrame::ITRF2020)
        .unwrap();
    assert_eq!(ids(&g, &back), vec![3, 1]);

    let same = g
        .get_shortest_path(&ReferenceFrame::ITRF2014, &ReferenceFrame::ITRF2014)
        .unwrap();
    assert!(same.is_empty());

    let err = g
        .get_shortest_path(&ReferenceFrame::ITRF2020, &ReferenceFrame::NAD83_2011)
        .unwrap_err();
    assert_eq!(
        err,
        TransformationNotFound(ReferenceFrame::ITRF2020, ReferenceFrame::NAD83_2011)
    );
}

#[test]
fn frame_graph_replaces_and_prefers_short_chains() {
    let mut g = FrameGraph::new();
    g.add_edge(ReferenceFrame::ITRF2020, ReferenceFrame::ITRF2014, 10);
    g.add_edge(ReferenceFrame::ITRF2014, ReferenceFrame::ETRF2020, 11);
    g.add_edge(ReferenceFrame::ITRF2020, ReferenceFrame::ITRF2014, 12);
    assert_eq!(g.count(), 2);
    assert_eq!(
        ids(
            &g,
            &g.get_shortest_path(&ReferenceFrame::ITRF2020, &ReferenceFrame::ETRF2020)
                .unwrap()
        ),
        vec![12, 11]
    );
    // Edges are one-way.
    assert!(g
        .get_shortest_path(&ReferenceFrame::ETRF2020, &ReferenceFrame::ITRF2020)
        .is_err());

    g.add_edge(ReferenceFrame::ITRF2020, ReferenceFrame::ETRF2020, 13);
    assert_eq!(
        ids(
            &g,
            &g.get_shortest_path(&ReferenceFrame::ITRF2020, &ReferenceFrame::ETRF2020)
                .unwrap()
        ),
        vec![13]
    );

    let custom = ReferenceFrame::from_str("MY_FRAME").unwrap();
    g.add_transformation(custom.clone(), ReferenceFrame::ITRF2020, 20, 21);
    assert_eq!(
        ids(
            &g,
            &g.get_shortest_path(&custom, &ReferenceFrame::ETRF2020)
                .unwrap()
        ),
        vec![20, 13]
    );
}

#[test]
fn calendar_dates_from_day_counts() {
    let gps_epoch = date_from_days_since_1601((44244 + 94187) as u32);
    assert_eq!(gps_epoch.year, 1980);
    assert_eq!(gps_epoch.year_day, 6);
    assert_eq!(gps_epoch.month, 1);
    assert_eq!(gps_epoch.month_day, 6);
    assert_eq!(gps_epoch.week_day, 7);

    let first = date_from_days_since_1601(0);
    assert_eq!(
        (first.year, first.year_day, first.month, first.month_day, first.week_day),
        (1601, 1, 1, 1, 1)
    );

    let end_of_2000 = date_from_days_since_1601((51909 + 94187) as u32);
    assert_eq!(
        (
            end_of_2000.year,
            end_of_2000.year_day,
            end_of_2000.month,
            end_of_2000.month_day,
            end_of_2000.week_day
        ),
        (2000, 366, 12, 31, 7)
    );

    let leap_day = date_from_days_since_1601((51603 + 94187) as u32);
    assert_eq!(
        (leap_day.year, leap_day.month, leap_day.month_day),
        (2000, 2, 29)
    );
}

#[test]
fn modified_julian_days_of_dates() {
    assert_eq!(mjd_full_days(1980, 1, 6), 44244);
    assert_eq!(mjd_full_days(1601, 1, 1), -94187);
    assert_eq!(mjd_full_days(2000, 12, 31), 51909);
    assert_eq!(mjd_full_days(2000, 2, 29), 51603);
    assert_eq!(mjd_full_days(2017, 1, 1), 57754);
}

#[test]
fn time_of_day_splits_seconds() {
    assert_eq!(time_of_day(0), (0, 0, 0));
    assert_eq!(time_of_day(3661), (1, 1, 1));
    assert_eq!(time_of_day(86399), (23, 59, 59));
}

#[test]
fn hardcoded_leap_seconds() {
    assert_eq!(utc_offset_hardcoded_secs(0, 0), 0);
    assert_eq!(utc_offset_hardcoded_secs(77, 259200), 0);
    assert_eq!(utc_offset_hardcoded_secs(77, 259201), 1);
    assert_eq!(utc_offset_hardcoded_secs(1930, 17), 17);
    assert_eq!(utc_offset_hardcoded_secs(1930, 18), 18);
    assert_eq!(utc_offset_hardcoded_secs(2200, 0), 18);

    assert!(is_leap_second_event_hardcoded_secs(1930, 17));
    assert!(!is_leap_second_event_hardcoded_secs(1930, 16));
    assert!(!is_leap_second_event_hardcoded_secs(1930, 18));
    assert!(is_leap_second_event_hardcoded_secs(77, 259200));
    assert!(!is_leap_second_event_hardcoded_secs(0, 0));
}

#[test]
fn crc24q_continues_from_partial_results() {
    let data = "123456789".as_bytes();
    let partial = compute_crc24q(&data[0..5], 0xB704CE);
    assert_eq!(compute_crc24q(&data[5..9], partial), 0x21CF02);
    // Only the low 24 bits of the initial value are used.
    assert_eq!(compute_crc24q(&data[0..0], 0xFF12_3456), 0x12_3456);
    assert_eq!(compute_crc24q(data, 0xFFB7_04CE), 0x21CF02);
    // A CRC of zero stays zero over zero bytes.
    assert_eq!(compute_crc24q(&[0, 0, 0, 0], 0), 0);
}

#[test]
fn pvt_return_codes() {
    assert_eq!(pvt_outcome(0), Ok(PvtStatus::RaimPassed));
    assert_eq!(pvt_outcome(1), Ok(PvtStatus::RepairedSolution));
    assert_eq!(pvt_outcome(2), Ok(PvtStatus::RaimSkipped));
    assert_eq!(pvt_outcome(-1), Err(PvtError::HighPdop));
    assert_eq!(pvt_outcome(-2), Err(PvtError::UnreasonableAltitude));
    assert_eq!(pvt_outcome(-3), Err(PvtError::HighVelocity));
    assert_eq!(pvt_outcome(-4), Err(PvtError::RaimRepairFailed));
    assert_eq!(pvt_outcome(-5), Err(PvtError::RaimRepairImpossible));
    assert_eq!(pvt_outcome(-6), Err(PvtError::FailedToConverge));
    assert_eq!(pvt_outcome(-7), Err(PvtError::NotEnoughMeasurements));
    assert_eq!(PvtError::NotEnoughMeasurements.to_message_index(), 6);
    assert_eq!(PvtError::HighPdop.to_message_index(), 0);
}

#[test]
fn pvt_settings_builders() {
    let s = PvtSettings::new();
    assert_eq!(s.strategy(), ProcessingStrategy::AllConstellations);
    assert!(s.is_raim_disabled());
    assert!(s.is_velocity_disabled());
    let s = s
        .set_strategy(ProcessingStrategy::GpsOnly)
        .enable_raim()
        .enable_velocity();
    assert_eq!(s.strategy(), ProcessingStrategy::GpsOnly);
    assert!(!s.is_raim_disabled());
    assert!(!s.is_velocity_disabled());
    let s = s.disable_raim().disable_velocity();
    assert!(s.is_raim_disabled());
    assert!(s.is_velocity_disabled());
    assert_eq!(ProcessingStrategy::GpsOnly.to_processing_strategy_t(), 0);
    assert_eq!(ProcessingStrategy::L1Only.to_processing_strategy_t(), 3);
    let d: PvtSettings = Default::default();
    assert_eq!(d.strategy(), ProcessingStrategy::AllConstellations);
}

#[test]
fn gga_decimal_places() {
    assert_eq!(gga_minute_decimal_places(false, 2, 1000), 7);
    assert_eq!(gga_minute_decimal_places(true, 2, 20), 7);
    assert_eq!(gga_minute_decimal_places(true, 2, 36), 4);
    assert_eq!(gga_minute_decimal_places(true, 2, 42), 1);
    assert_eq!(gga_minute_decimal_places(true, 2, 43), 0);
    assert_eq!(gga_minute_decimal_places(true, 2, 500), 0);
    assert_eq!(gga_minutes_width(0), 2);
    assert_eq!(gga_minutes_width(7), 10);
}

#[test]
fn nmea_talker_ids_and_quality() {
    assert_eq!(Source::GPS.to_nmea_talker_id(), "GP");
    assert_eq!(Source::GNSS.to_nmea_talker_id(), "GN");
    assert_eq!(Source::QZSS.to_nmea_talker_id(), "GQ");
    assert_eq!(GPSQuality::RTK.to_indicator(), 4);
    assert_eq!(GPSQuality::Simulated.to_string(), "8");
    assert_eq!(GPSQuality::NoFix.to_string(), "0");
}

#[test]
fn ephemeris_and_geoid_codes() {
    assert_eq!(Status::from_ephemeris_status_t(8), Status::Valid);
    assert_eq!(
        Status::from_ephemeris_status_t(5),
        Status::Invalid(InvalidEphemeris::TooOld)
    );
    assert_eq!(Status::Valid.to_result(), Ok(()));
    assert_eq!(
        Status::Invalid(InvalidEphemeris::Null).to_result(),
        Err(InvalidEphemeris::Null)
    );
    assert_eq!(GeoidModel::from_geoid_model_t(1), GeoidModel::Egm96);
    assert_eq!(GeoidModel::from_geoid_model_t(2), GeoidModel::Egm2008);
}

#[test]
fn almanac_constellations() {
    assert_eq!(check_almanac_constellation(Constellation::Gps), Ok(()));
    assert_eq!(check_almanac_constellation(Constellation::Sbas), Ok(()));
    assert_eq!(
        check_almanac_constellation(Constellation::Glo),
        Err(UnsupportedConstellation(Constellation::Glo))
    );
}

#[test]
fn signal_error_variants() {
    assert_eq!(Code::from_code_t(-1), Err(InvalidCode(-1)));
    assert_eq!(Code::from_code_t(0), Ok(Code::GpsL1ca));
    assert_eq!(Code::try_from(200u8), Err(InvalidCodeInt(200)));
    assert_eq!(Constellation::try_from(9u8), Err(InvalidConstellationInt(9)));
    assert_eq!(
        Constellation::try_from('X'),
        Err(InvalidConstellationChar('X'))
    );
    assert_eq!(
        Constellation::from_constellation_t(99),
        Err(InvalidConstellation(99))
    );
    assert_eq!(
        GnssSignal::new(0, Code::GpsL1ca),
        Err(InvalidSatellite(0))
    );
    assert_eq!(
        GnssSignal::from_gnss_signal_t(1, 200),
        Err(InvalidGnssSignal::InvalidCode(InvalidCodeInt(200)))
    );
    assert_eq!(
        GnssSignal::from_gnss_signal_t(0, 0),
        Err(InvalidGnssSignal::InvalidSatellite(InvalidSatellite(0)))
    );
    let s = GnssSignal::from_gnss_signal_t(5, 0).unwrap();
    assert_eq!(s.to_gnss_signal_t(), (5, 0));
    assert_eq!(Code::from_str("NOT A CODE"), Err(strum::ParseError::VariantNotFound));
    assert_eq!(
        Constellation::from_str("NOT A CONSTELLATION"),
        Err(strum::ParseError::VariantNotFound)
    );
}

#[test]
fn name_and_number_round_trips() {
    for c in Code::iter() {
        assert_eq!(Code::from_str(c.to_str()), Ok(c));
        assert_eq!(Code::try_from(c.to_u8()), Ok(c));
        assert_eq!(Code::from_code_t(c.to_code_t()), Ok(c));
    }
    for c in Constellation::iter() {
        assert_eq!(Constellation::from_str(c.to_str()), Ok(c));
        assert_eq!(Constellation::try_from(c.to_u8()), Ok(c));
        assert_eq!(Constellation::try_from(char::from(c)), Ok(c));
        assert_eq!(Constellation::from_constellation_t(c.to_constellation_t()), Ok(c));
    }
    assert_eq!(Code::iter().len(), 64);
    assert_eq!(Constellation::iter().len(), 6);
}

#[test]
fn text_helpers() {
    assert!(str_matches("GPS", "GPS"));
    assert!(!str_matches("GPS", "GP"));
    let mut s = String::from("x=");
    push_decimal(&mut s, 0);
    push_decimal(&mut s, 1234567890);
    assert_eq!(s, "x=01234567890");
    assert_eq!(compile_time_max_u16(3, 9), 9);
    assert_eq!(compile_time_max_u16(9, 3), 9);
}

#[test]
fn crc24q_rtcm_frame_in_one_and_two_blocks() {
    let msg_data = vec![
        0xD3, 0x00, 0x13, 0x3E, 0xD7, 0xD3, 0x02, 0x02, 0x98, 0x0E, 0xDE, 0xEF, 0x34, 0xB4, 0xBD,
        0x62, 0xAC, 0x09, 0x41, 0x98, 0x6F, 0x33,
    ];
    assert_eq!(compute_crc24q(&msg_data, 0), 0x00360B98);

    let block1 = vec![0xD3, 0x00, 0x13, 0x3E, 0xD7, 0xD3, 0x02, 0x02, 0x98, 0x0E];
    let block2 = vec![
        0xDE, 0xEF, 0x34, 0xB4, 0xBD, 0x62, 0xAC, 0x09, 0x41, 0x98, 0x6F, 0x33,
    ];
    let intermediate = compute_crc24q(&block1, 0);
    assert_eq!(compute_crc24q(&block2, intermediate), 0x00360B98);
}

#[test]
fn leap_seconds_fall_at_the_end_of_a_utc_day() {
    let events: [(i16, i64); 3] = [(77, 259200), (1356, 13), (1930, 17)];
    for (wn, tow) in events {
        assert!(is_leap_second_event_hardcoded_secs(wn, tow));
        let offset = utc_offset_hardcoded_secs(wn, tow) as i64;
        let utc_seconds = wn as i64 * 604800 + tow - offset - 1;
        let second_of_day = utc_seconds.rem_euclid(86400) as u32;
        assert_eq!(time_of_day(second_of_day), (23, 59, 59));
    }
}

#[test]
fn leap_second_reads_sixty_when_added_back() {
    assert_eq!(add_back_leap_second((23, 59, 59), true), (23, 59, 60));
    assert_eq!(add_back_leap_second((23, 59, 59), false), (23, 59, 59));
    assert_eq!(add_back_leap_second((12, 0, 7), false), (12, 0, 7));
}

#[test]
fn shortest_path_edges_are_the_registered_transformations() {
    let mut g = FrameGraph::new();
    g.add_transformation(ReferenceFrame::ITRF2020, ReferenceFrame::ITRF2014, 0, 1);
    g.add_transformation(ReferenceFrame::ITRF2014, ReferenceFrame::ETRF2020, 2, 3);
    g.add_edge(ReferenceFrame::ITRF2014, ReferenceFrame::ETRF2020, 9);
    let p = g
        .get_shortest_path(&ReferenceFrame::ITRF2020, &ReferenceFrame::ETRF2020)
        .unwrap();
    assert_eq!(ids(&g, &p), vec![0, 9]);
}
