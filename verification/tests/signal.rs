use std::convert::TryInto;
use std::str::FromStr;
use swiftnav::signal::consts;
use swiftnav::signal::{Code, Constellation, GnssSignal, InvalidSatellite};


#[test]
fn signal_sat_count() {
    assert_eq!(Constellation::Gps.sat_count(), 32);
    assert_eq!(Constellation::Sbas.sat_count(), 19);
    assert_eq!(Constellation::Glo.sat_count(), 28);
    assert_eq!(Constellation::Bds.sat_count(), 64);
    assert_eq!(Constellation::Gal.sat_count(), 36);
    assert_eq!(Constellation::Qzs.sat_count(), 10);
}

#[test]
fn signal_code_to_constellation() {
    assert!(Code::GpsL1ca.is_gps());
    assert!(Code::GpsL2cm.is_gps());
    assert!(Code::SbasL1ca.is_sbas());
    assert!(Code::GloL1of.is_glo());
    assert!(Code::GloL2of.is_glo());
    assert!(Code::GpsL1p.is_gps());
    assert!(Code::GpsL2p.is_gps());
    assert!(Code::GpsL2cl.is_gps());
    assert!(Code::GpsL2cx.is_gps());
    assert!(Code::GpsL5i.is_gps());
    assert!(Code::GpsL5q.is_gps());
    assert!(Code::GpsL5x.is_gps());
    assert!(Code::Bds2B1.is_bds2());
    assert!(Code::Bds2B2.is_bds2());
    assert!(Code::GalE1b.is_gal());
    assert!(Code::GalE1c.is_gal());
    assert!(Code::GalE1x.is_gal());
    assert!(Code::GalE6b.is_gal());
    assert!(Code::GalE6c.is_gal());
    assert!(Code::GalE6x.is_gal());
    assert!(Code::GalE7i.is_gal());
    assert!(Code::GalE7q.is_gal());
    assert!(Code::GalE7x.is_gal());
    assert!(Code::GalE8i.is_gal());
    assert!(Code::GalE8q.is_gal());
    assert!(Code::GalE8x.is_gal());
    assert!(Code::GalE5i.is_gal());
    assert!(Code::GalE5q.is_gal());
    assert!(Code::GalE5x.is_gal());
    assert!(Code::GloL1p.is_glo());
    assert!(Code::GloL2p.is_glo());
    assert!(Code::QzsL1ca.is_qzss());
    assert!(Code::QzsL1ci.is_qzss());
    assert!(Code::QzsL1cq.is_qzss());
    assert!(Code::QzsL1cx.is_qzss());
    assert!(Code::QzsL2cm.is_qzss());
    assert!(Code::QzsL2cl.is_qzss());
    assert!(Code::QzsL2cx.is_qzss());
    assert!(Code::QzsL5i.is_qzss());
    assert!(Code::QzsL5q.is_qzss());
    assert!(Code::QzsL5x.is_qzss());
    assert!(Code::SbasL5i.is_sbas());
    assert!(Code::SbasL5q.is_sbas());
    assert!(Code::SbasL5x.is_sbas());
    assert!(Code::Bds3B1ci.is_bds2());
    assert!(Code::Bds3B1cq.is_bds2());
    assert!(Code::Bds3B1cx.is_bds2());
    assert!(Code::Bds3B5i.is_bds2());
    assert!(Code::Bds3B5q.is_bds2());
    assert!(Code::Bds3B5x.is_bds2());
    assert!(Code::Bds3B7i.is_bds2());
    assert!(Code::Bds3B7q.is_bds2());
    assert!(Code::Bds3B7x.is_bds2());
    assert!(Code::Bds3B3i.is_bds2());
    assert!(Code::Bds3B3q.is_bds2());
    assert!(Code::Bds3B3x.is_bds2());
    assert!(Code::GpsL1ci.is_gps());
    assert!(Code::GpsL1cq.is_gps());
    assert!(Code::GpsL1cx.is_gps());
    assert!(Code::AuxGps.is_gps());
    assert!(Code::AuxSbas.is_sbas());
    assert!(Code::AuxGal.is_gal());
    assert!(Code::AuxQzs.is_qzss());
    assert!(Code::AuxBds.is_bds2());
}

#[test]
fn signal_signal_to_constellation() {
    assert_eq!(
        GnssSignal::new(1, Code::GpsL1ca)
            .unwrap()
            .to_constellation(),
        Constellation::Gps
    );
    assert_eq!(
        GnssSignal::new(1, Code::GpsL2cm)
            .unwrap()
            .to_constellation(),
        Constellation::Gps
    );
    assert_eq!(
        GnssSignal::new(120, Code::SbasL1ca)
            .unwrap()
            .to_constellation(),
        Constellation::Sbas
    );
    assert_eq!(
        GnssSignal::new(1, Code::GloL1of)
            .unwrap()
            .to_constellation(),
        Constellation::Glo
    );
    assert_eq!(
        GnssSignal::new(1, Code::GloL2of)
            .unwrap()
            .to_constellation(),
        Constellation::Glo
    );
    assert_eq!(
        GnssSignal::new(1, Code::GpsL1p).unwrap().to_constellation(),
        Constellation::Gps
    );
    assert_eq!(
        GnssSignal::new(1, Code::GpsL2p).unwrap().to_constellation(),
        Constellation::Gps
    );
    assert_eq!(
        GnssSignal::new(1, Code::GpsL2cl)
            .unwrap()
            .to_constellation(),
        Constellation::Gps
    );
    assert_eq!(
        GnssSignal::new(1, Code::GpsL2cx)
            .unwrap()
            .to_constellation(),
        Constellation::Gps
    );
    assert_eq!(
        GnssSignal::new(1, Code::GpsL5i).unwrap().to_constellation(),
        Constellation::Gps
    );
    assert_eq!(
        GnssSignal::new(1, Code::GpsL5q).unwrap().to_constellation(),
        Constellation::Gps
    );
    assert_eq!(
        GnssSignal::new(1, Code::GpsL5x).unwrap().to_constellation(),
        Constellation::Gps
    );
    assert_eq!(
        GnssSignal::new(1, Code::Bds2B1).unwrap().to_constellation(),
        Constellation::Bds
    );
    assert_eq!(
        GnssSignal::new(1, Code::Bds2B2).unwrap().to_constellation(),
        Constellation::Bds
    );
    assert_eq!(
        GnssSignal::new(1, Code::GalE1b).unwrap().to_constellation(),
        Constellation::Gal
    );
    assert_eq!(
        GnssSignal::new(1, Code::GalE1c).unwrap().to_constellation(),
        Constellation::Gal
    );
    assert_eq!(
        GnssSignal::new(1, Code::GalE1x).unwrap().to_constellation(),
        Constellation::Gal
    );
    assert_eq!(
        GnssSignal::new(1, Code::GalE6b).unwrap().to_constellation(),
        Constellation::Gal
    );
    assert_eq!(
        GnssSignal::new(1, Code::GalE6c).unwrap().to_constellation(),
        Constellation::Gal
    );
    assert_eq!(
        GnssSignal::new(1, Code::GalE6x).unwrap().to_constellation(),
        Constellation::Gal
    );
    assert_eq!(
        GnssSignal::new(1, Code::GalE7i).unwrap().to_constellation(),
        Constellation::Gal
    );
    assert_eq!(
        GnssSignal::new(1, Code::GalE7q).unwrap().to_constellation(),
        Constellation::Gal
    );
    assert_eq!(
        GnssSignal::new(1, Code::GalE7x).unwrap().to_constellation(),
        Constellation::Gal
    );
    assert_eq!(
        GnssSignal::new(1, Code::GalE8i).unwrap().to_constellation(),
        Constellation::Gal
    );
    assert_eq!(
        GnssSignal::new(1, Code::GalE8q).unwrap().to_constellation(),
        Constellation::Gal
    );
    assert_eq!(
        GnssSignal::new(1, Code::GalE8x).unwrap().to_constellation(),
        Constellation::Gal
    );
    assert_eq!(
        GnssSignal::new(1, Code::GalE5i).unwrap().to_constellation(),
        Constellation::Gal
    );
    assert_eq!(
        GnssSignal::new(1, Code::GalE5q).unwrap().to_constellation(),
        Constellation::Gal
    );
    assert_eq!(
        GnssSignal::new(1, Code::GalE5x).unwrap().to_constellation(),
        Constellation::Gal
    );
    assert_eq!(
        GnssSignal::new(1, Code::GloL1p).unwrap().to_constellation(),
        Constellation::Glo
    );
    assert_eq!(
        GnssSignal::new(1, Code::GloL2p).unwrap().to_constellation(),
        Constellation::Glo
    );
    assert_eq!(
        GnssSignal::new(193, Code::QzsL1ca)
            .unwrap()
            .to_constellation(),
        Constellation::Qzs
    );
    assert_eq!(
        GnssSignal::new(193, Code::QzsL1ci)
            .unwrap()
            .to_constellation(),
        Constellation::Qzs
    );
    assert_eq!(
        GnssSignal::new(193, Code::QzsL1cq)
            .unwrap()
            .to_constellation(),
        Constellation::Qzs
    );
    assert_eq!(
        GnssSignal::new(193, Code::QzsL1cx)
            .unwrap()
            .to_constellation(),
        Constellation::Qzs
    );
    assert_eq!(
        GnssSignal::new(193, Code::QzsL2cm)
            .unwrap()
            .to_constellation(),
        Constellation::Qzs
    );
    assert_eq!(
        GnssSignal::new(193, Code::QzsL2cl)
            .unwrap()
            .to_constellation(),
        Constellation::Qzs
    );
    assert_eq!(
        GnssSignal::new(193, Code::QzsL2cx)
            .unwrap()
            .to_constellation(),
        Constellation::Qzs
    );
    assert_eq!(
        GnssSignal::new(193, Code::QzsL5i)
            .unwrap()
            .to_constellation(),
        Constellation::Qzs
    );
    assert_eq!(
        GnssSignal::new(193, Code::QzsL5q)
            .unwrap()
            .to_constellation(),
        Constellation::Qzs
    );
    assert_eq!(
        GnssSignal::new(193, Code::QzsL5x)
            .unwrap()
            .to_constellation(),
        Constellation::Qzs
    );
    assert_eq!(
        GnssSignal::new(120, Code::SbasL5i)
            .unwrap()
            .to_constellation(),
        Constellation::Sbas
    );
    assert_eq!(
        GnssSignal::new(120, Code::SbasL5q)
            .unwrap()
            .to_constellation(),
        Constellation::Sbas
    );
    assert_eq!(
        GnssSignal::new(120, Code::SbasL5x)
            .unwrap()
            .to_constellation(),
        Constellation::Sbas
    );
    assert_eq!(
        GnssSignal::new(1, Code::Bds3B1ci)
            .unwrap()
            .to_constellation(),
        Constellation::Bds
    );
    assert_eq!(
        GnssSignal::new(1, Code::Bds3B1cq)
            .unwrap()
            .to_constellation(),
        Constellation::Bds
    );
    assert_eq!(
        GnssSignal::new(1, Code::Bds3B1cx)
            .unwrap()
            .to_constellation(),
        Constellation::Bds
    );
    assert_eq!(
        GnssSignal::new(1, Code::Bds3B5i)
            .unwrap()
            .to_constellation(),
        Constellation::Bds
    );
    assert_eq!(
        GnssSignal::new(1, Code::Bds3B5q)
            .unwrap()
            .to_constellation(),
        Constellation::Bds
    );
    assert_eq!(
        GnssSignal::new(1, Code::Bds3B5x)
            .unwrap()
            .to_constellation(),
        Constellation::Bds
    );
    assert_eq!(
        GnssSignal::new(1, Code::Bds3B7i)
            .unwrap()
            .to_constellation(),
        Constellation::Bds
    );
    assert_eq!(
        GnssSignal::new(1, Code::Bds3B7q)
            .unwrap()
            .to_constellation(),
        Constellation::Bds
    );
    assert_eq!(
        GnssSignal::new(1, Code::Bds3B7x)
            .unwrap()
            .to_constellation(),
        Constellation::Bds
    );
    assert_eq!(
        GnssSignal::new(1, Code::Bds3B3i)
            .unwrap()
            .to_constellation(),
        Constellation::Bds
    );
    assert_eq!(
        GnssSignal::new(1, Code::Bds3B3q)
            .unwrap()
            .to_constellation(),
        Constellation::Bds
    );
    assert_eq!(
        GnssSignal::new(1, Code::Bds3B3x)
            .unwrap()
            .to_constellation(),
        Constellation::Bds
    );
    assert_eq!(
        GnssSignal::new(1, Code::GpsL1ci)
            .unwrap()
            .to_constellation(),
        Constellation::Gps
    );
    assert_eq!(
        GnssSignal::new(1, Code::GpsL1cq)
            .unwrap()
            .to_constellation(),
        Constellation::Gps
    );
    assert_eq!(
        GnssSignal::new(1, Code::GpsL1cx)
            .unwrap()
            .to_constellation(),
        Constellation::Gps
    );
    assert_eq!(
        GnssSignal::new(1, Code::AuxGps).unwrap().to_constellation(),
        Constellation::Gps
    );
    assert_eq!(
        GnssSignal::new(120, Code::AuxSbas)
            .unwrap()
            .to_constellation(),
        Constellation::Sbas
    );
    assert_eq!(
        GnssSignal::new(1, Code::AuxGal).unwrap().to_constellation(),
        Constellation::Gal
    );
    assert_eq!(
        GnssSignal::new(193, Code::AuxQzs)
            .unwrap()
            .to_constellation(),
        Constellation::Qzs
    );
    assert_eq!(
        GnssSignal::new(1, Code::AuxBds).unwrap().to_constellation(),
        Constellation::Bds
    );
}

#[test]
fn signal_invalid_sats() {
    let first = consts::GPS_FIRST_PRN;
    let last = consts::GPS_FIRST_PRN + consts::NUM_SATS_GPS;
    for sat in (first - 1)..(last + 2) {
        let result = GnssSignal::new(sat, Code::GpsL1ca);
        if sat < first || sat >= last {
            assert!(result.is_err());
            assert_eq!(
                result.unwrap_err(),
                InvalidSatellite(sat)
            );
        } else {
            assert!(result.is_ok());
        }
    }

    let first = consts::SBAS_FIRST_PRN;
    let last = consts::SBAS_FIRST_PRN + consts::NUM_SATS_SBAS;
    for sat in (first - 1)..(last + 2) {
        let result = GnssSignal::new(sat, Code::SbasL1ca);
        if sat < first || sat >= last {
            assert!(result.is_err());
            assert_eq!(
                result.unwrap_err(),
                InvalidSatellite(sat)
            );
        } else {
            assert!(result.is_ok());
        }
    }

    let first = consts::GLO_FIRST_PRN;
    let last = consts::GLO_FIRST_PRN + consts::NUM_SATS_GLO;
    for sat in (first - 1)..(last + 2) {
        let result = GnssSignal::new(sat, Code::GloL1of);
        if sat < first || sat >= last {
            assert!(result.is_err());
            assert_eq!(
                result.unwrap_err(),
                InvalidSatellite(sat)
            );
        } else {
            assert!(result.is_ok());
        }
    }

    let first = consts::BDS_FIRST_PRN;
    let last = consts::BDS_FIRST_PRN + consts::NUM_SATS_BDS;
    for sat in (first - 1)..(last + 2) {
        let result = GnssSignal::new(sat, Code::Bds2B1);
        if sat < first || sat >= last {
            assert!(result.is_err());
            assert_eq!(
                result.unwrap_err(),
                InvalidSatellite(sat)
            );
        } else {
            assert!(result.is_ok());
        }
    }

    let first = consts::GAL_FIRST_PRN;
    let last = consts::GAL_FIRST_PRN + consts::NUM_SATS_GAL;
    for sat in (first - 1)..(last + 2) {
        let result = GnssSignal::new(sat, Code::GalE1b);
        if sat < first || sat >= last {
            assert!(result.is_err());
            assert_eq!(
                result.unwrap_err(),
                InvalidSatellite(sat)
            );
        } else {
            assert!(result.is_ok());
        }
    }

    let first = consts::QZS_FIRST_PRN;
    let last = consts::QZS_FIRST_PRN + consts::NUM_SATS_QZS;
    for sat in (first - 1)..(last + 2) {
        let result = GnssSignal::new(sat, Code::QzsL1ca);
        if sat < first || sat >= last {
            assert!(result.is_err());
            assert_eq!(
                result.unwrap_err(),
                InvalidSatellite(sat)
            );
        } else {
            assert!(result.is_ok());
        }
    }
}

#[test]
fn signal_constellation_strings() {
    assert_eq!(Constellation::Gps.to_str(), "GPS");
    assert_eq!(Constellation::Sbas.to_str(), "SBAS");
    assert_eq!(Constellation::Glo.to_str(), "GLO");
    assert_eq!(Constellation::Bds.to_str(), "BDS");
    assert_eq!(Constellation::Qzs.to_str(), "QZS");
    assert_eq!(Constellation::Gal.to_str(), "GAL");

    assert_eq!(Constellation::from_str("GPS").unwrap(), Constellation::Gps);
    assert_eq!(
        Constellation::from_str("SBAS").unwrap(),
        Constellation::Sbas
    );
    assert_eq!(Constellation::from_str("GLO").unwrap(), Constellation::Glo);
    assert_eq!(Constellation::from_str("BDS").unwrap(), Constellation::Bds);
    assert_eq!(Constellation::from_str("QZS").unwrap(), Constellation::Qzs);
    assert_eq!(Constellation::from_str("GAL").unwrap(), Constellation::Gal);

    {
        let result = Constellation::from_str("Bad String");
        assert!(result.is_err());
    }
    {
        let result = Constellation::from_str("Nul\0String");
        assert!(result.is_err());
    }
    {
        let result = Constellation::from_str("💩💩💩💩");
        assert!(result.is_err());
    }
}

#[test]
fn signal_code_strings() {
    assert_eq!(Code::GpsL1ca.to_str(), "GPS L1CA");
    assert_eq!(Code::GpsL2cm.to_str(), "GPS L2CM");
    assert_eq!(Code::SbasL1ca.to_str(), "SBAS L1");
    assert_eq!(Code::GloL1of.to_str(), "GLO L1OF");
    assert_eq!(Code::GloL2of.to_str(), "GLO L2OF");
    assert_eq!(Code::GpsL1p.to_str(), "GPS L1P");
    assert_eq!(Code::GpsL2p.to_str(), "GPS L2P");
    assert_eq!(Code::GpsL2cl.to_str(), "GPS L2CL");
    assert_eq!(Code::GpsL2cx.to_str(), "GPS L2C");
    assert_eq!(Code::GpsL5i.to_str(), "GPS L5I");
    assert_eq!(Code::GpsL5q.to_str(), "GPS L5Q");
    assert_eq!(Code::GpsL5x.to_str(), "GPS L5");
    assert_eq!(Code::Bds2B1.to_str(), "BDS B1");
    assert_eq!(Code::Bds2B2.to_str(), "BDS B2");
    assert_eq!(Code::GalE1b.to_str(), "GAL E1B");
    assert_eq!(Code::GalE1c.to_str(), "GAL E1C");
    assert_eq!(Code::GalE1x.to_str(), "GAL E1");
    assert_eq!(Code::GalE6b.to_str(), "GAL E6B");
    assert_eq!(Code::GalE6c.to_str(), "GAL E6C");
    assert_eq!(Code::GalE6x.to_str(), "GAL E6");
    assert_eq!(Code::GalE7i.to_str(), "GAL E5bI");
    assert_eq!(Code::GalE7q.to_str(), "GAL E5bQ");
    assert_eq!(Code::GalE7x.to_str(), "GAL E5b");
    assert_eq!(Code::GalE8i.to_str(), "GAL E8I");
    assert_eq!(Code::GalE8q.to_str(), "GAL E8Q");
    assert_eq!(Code::GalE8x.to_str(), "GAL E8");
    assert_eq!(Code::GalE5i.to_str(), "GAL E5aI");
    assert_eq!(Code::GalE5q.to_str(), "GAL E5aQ");
    assert_eq!(Code::GalE5x.to_str(), "GAL E5a");
    assert_eq!(Code::GloL1p.to_str(), "GLO L1P");
    assert_eq!(Code::GloL2p.to_str(), "GLO L2P");
    assert_eq!(Code::QzsL1ca.to_str(), "QZS L1CA");
    assert_eq!(Code::QzsL1ci.to_str(), "QZS L1CI");
    assert_eq!(Code::QzsL1cq.to_str(), "QZS L1CQ");
    assert_eq!(Code::QzsL1cx.to_str(), "QZS L1CX");
    assert_eq!(Code::QzsL2cm.to_str(), "QZS L2CM");
    assert_eq!(Code::QzsL2cl.to_str(), "QZS L2CL");
    assert_eq!(Code::QzsL2cx.to_str(), "QZS L2C");
    assert_eq!(Code::QzsL5i.to_str(), "QZS L5I");
    assert_eq!(Code::QzsL5q.to_str(), "QZS L5Q");
    assert_eq!(Code::QzsL5x.to_str(), "QZS L5");
    assert_eq!(Code::SbasL5i.to_str(), "SBAS L5I");
    assert_eq!(Code::SbasL5q.to_str(), "SBAS L5Q");
    assert_eq!(Code::SbasL5x.to_str(), "SBAS L5");
    assert_eq!(Code::Bds3B1ci.to_str(), "BDS3 B1CI");
    assert_eq!(Code::Bds3B1cq.to_str(), "BDS3 B1CQ");
    assert_eq!(Code::Bds3B1cx.to_str(), "BDS3 B1C");
    assert_eq!(Code::Bds3B5i.to_str(), "BDS3 B5I");
    assert_eq!(Code::Bds3B5q.to_str(), "BDS3 B5Q");
    assert_eq!(Code::Bds3B5x.to_str(), "BDS3 B5");
    assert_eq!(Code::Bds3B7i.to_str(), "BDS3 B7I");
    assert_eq!(Code::Bds3B7q.to_str(), "BDS3 B7Q");
    assert_eq!(Code::Bds3B7x.to_str(), "BDS3 B7");
    assert_eq!(Code::Bds3B3i.to_str(), "BDS3 B3I");
    assert_eq!(Code::Bds3B3q.to_str(), "BDS3 B3Q");
    assert_eq!(Code::Bds3B3x.to_str(), "BDS3 B3");
    assert_eq!(Code::GpsL1ci.to_str(), "GPS L1CI");
    assert_eq!(Code::GpsL1cq.to_str(), "GPS L1CQ");
    assert_eq!(Code::GpsL1cx.to_str(), "GPS L1C");
    assert_eq!(Code::AuxGps.to_str(), "GPS AUX");
    assert_eq!(Code::AuxSbas.to_str(), "SBAS AUX");
    assert_eq!(Code::AuxGal.to_str(), "GAL AUX");
    assert_eq!(Code::AuxQzs.to_str(), "QZS AUX");
    assert_eq!(Code::AuxBds.to_str(), "BDS AUX");

    assert_eq!(Code::from_str("GPS L1CA").unwrap(), Code::GpsL1ca);
    assert_eq!(Code::from_str("GPS L2CM").unwrap(), Code::GpsL2cm);
    assert_eq!(Code::from_str("SBAS L1").unwrap(), Code::SbasL1ca);
    assert_eq!(Code::from_str("GLO L1OF").unwrap(), Code::GloL1of);
    assert_eq!(Code::from_str("GLO L2OF").unwrap(), Code::GloL2of);
    assert_eq!(Code::from_str("GPS L1P").unwrap(), Code::GpsL1p);
    assert_eq!(Code::from_str("GPS L2P").unwrap(), Code::GpsL2p);
    assert_eq!(Code::from_str("GPS L2CL").unwrap(), Code::GpsL2cl);
    assert_eq!(Code::from_str("GPS L2C").unwrap(), Code::GpsL2cx);
    assert_eq!(Code::from_str("GPS L5I").unwrap(), Code::GpsL5i);
    assert_eq!(Code::from_str("GPS L5Q").unwrap(), Code::GpsL5q);
    assert_eq!(Code::from_str("GPS L5").unwrap(), Code::GpsL5x);
    assert_eq!(Code::from_str("BDS B1").unwrap(), Code::Bds2B1);
    assert_eq!(Code::from_str("BDS B2").unwrap(), Code::Bds2B2);
    assert_eq!(Code::from_str("GAL E1B").unwrap(), Code::GalE1b);
    assert_eq!(Code::from_str("GAL E1C").unwrap(), Code::GalE1c);
    assert_eq!(Code::from_str("GAL E1").unwrap(), Code::GalE1x);
    assert_eq!(Code::from_str("GAL E6B").unwrap(), Code::GalE6b);
    assert_eq!(Code::from_str("GAL E6C").unwrap(), Code::GalE6c);
    assert_eq!(Code::from_str("GAL E6").unwrap(), Code::GalE6x);
    assert_eq!(Code::from_str("GAL E5bI").unwrap(), Code::GalE7i);
    assert_eq!(Code::from_str("GAL E5bQ").unwrap(), Code::GalE7q);
    assert_eq!(Code::from_str("GAL E5b").unwrap(), Code::GalE7x);
    assert_eq!(Code::from_str("GAL E8I").unwrap(), Code::GalE8i);
    assert_eq!(Code::from_str("GAL E8Q").unwrap(), Code::GalE8q);
    assert_eq!(Code::from_str("GAL E8").unwrap(), Code::GalE8x);
    assert_eq!(Code::from_str("GAL E5aI").unwrap(), Code::GalE5i);
    assert_eq!(Code::from_str("GAL E5aQ").unwrap(), Code::GalE5q);
    assert_eq!(Code::from_str("GAL E5a").unwrap(), Code::GalE5x);
    assert_eq!(Code::from_str("GLO L1P").unwrap(), Code::GloL1p);
    assert_eq!(Code::from_str("GLO L2P").unwrap(), Code::GloL2p);
    assert_eq!(Code::from_str("QZS L1CA").unwrap(), Code::QzsL1ca);
    assert_eq!(Code::from_str("QZS L1CI").unwrap(), Code::QzsL1ci);
    assert_eq!(Code::from_str("QZS L1CQ").unwrap(), Code::QzsL1cq);
    assert_eq!(Code::from_str("QZS L1CX").unwrap(), Code::QzsL1cx);
    assert_eq!(Code::from_str("QZS L2CM").unwrap(), Code::QzsL2cm);
    assert_eq!(Code::from_str("QZS L2CL").unwrap(), Code::QzsL2cl);
    assert_eq!(Code::from_str("QZS L2C").unwrap(), Code::QzsL2cx);
    assert_eq!(Code::from_str("QZS L5I").unwrap(), Code::QzsL5i);
    assert_eq!(Code::from_str("QZS L5Q").unwrap(), Code::QzsL5q);
    assert_eq!(Code::from_str("QZS L5").unwrap(), Code::QzsL5x);
    assert_eq!(Code::from_str("SBAS L5I").unwrap(), Code::SbasL5i);
    assert_eq!(Code::from_str("SBAS L5Q").unwrap(), Code::SbasL5q);
    assert_eq!(Code::from_str("SBAS L5").unwrap(), Code::SbasL5x);
    assert_eq!(Code::from_str("BDS3 B1CI").unwrap(), Code::Bds3B1ci);
    assert_eq!(Code::from_str("BDS3 B1CQ").unwrap(), Code::Bds3B1cq);
    assert_eq!(Code::from_str("BDS3 B1C").unwrap(), Code::Bds3B1cx);
    assert_eq!(Code::from_str("BDS3 B5I").unwrap(), Code::Bds3B5i);
    assert_eq!(Code::from_str("BDS3 B5Q").unwrap(), Code::Bds3B5q);
    assert_eq!(Code::from_str("BDS3 B5").unwrap(), Code::Bds3B5x);
    assert_eq!(Code::from_str("BDS3 B7I").unwrap(), Code::Bds3B7i);
    assert_eq!(Code::from_str("BDS3 B7Q").unwrap(), Code::Bds3B7q);
    assert_eq!(Code::from_str("BDS3 B7").unwrap(), Code::Bds3B7x);
    assert_eq!(Code::from_str("BDS3 B3I").unwrap(), Code::Bds3B3i);
    assert_eq!(Code::from_str("BDS3 B3Q").unwrap(), Code::Bds3B3q);
    assert_eq!(Code::from_str("BDS3 B3").unwrap(), Code::Bds3B3x);
    assert_eq!(Code::from_str("GPS L1CI").unwrap(), Code::GpsL1ci);
    assert_eq!(Code::from_str("GPS L1CQ").unwrap(), Code::GpsL1cq);
    assert_eq!(Code::from_str("GPS L1C").unwrap(), Code::GpsL1cx);
    assert_eq!(Code::from_str("GPS AUX").unwrap(), Code::AuxGps);
    assert_eq!(Code::from_str("SBAS AUX").unwrap(), Code::AuxSbas);
    assert_eq!(Code::from_str("GAL AUX").unwrap(), Code::AuxGal);
    assert_eq!(Code::from_str("QZS AUX").unwrap(), Code::AuxQzs);
    assert_eq!(Code::from_str("BDS AUX").unwrap(), Code::AuxBds);

    {
        let result = Code::from_str("Bad String");
        assert!(result.is_err());
    }
    {
        let result = Code::from_str("Nul\0String");
        assert!(result.is_err());
    }
    {
        let result = Code::from_str("💩💩💩💩");
        assert!(result.is_err());
    }
}

#[test]
fn signal_signal_strings() {
    assert_eq!(
        GnssSignal::new(1, Code::GpsL1ca).unwrap().to_str(),
        "GPS L1CA 1"
    );
    assert_eq!(
        GnssSignal::new(32, Code::GpsL1ca).unwrap().to_str(),
        "GPS L1CA 32"
    );
    assert_eq!(
        GnssSignal::new(1, Code::GalE5x).unwrap().to_str(),
        "GAL E5a 1"
    );
    assert_eq!(
        GnssSignal::new(32, Code::GalE5x).unwrap().to_str(),
        "GAL E5a 32"
    );
    assert_eq!(
        GnssSignal::new(1, Code::Bds2B1).unwrap().to_str(),
        "BDS B1 1"
    );
    assert_eq!(
        GnssSignal::new(32, Code::Bds2B1).unwrap().to_str(),
        "BDS B1 32"
    );
}

#[test]
fn code_code_to_constellation() {
    assert!(Code::GpsL1ca.is_gps());
    assert!(Code::GpsL2cm.is_gps());
    assert!(Code::SbasL1ca.is_sbas());
    assert!(Code::GloL1of.is_glo());
    assert!(Code::GloL2of.is_glo());
    assert!(Code::GpsL1p.is_gps());
    assert!(Code::GpsL2p.is_gps());
    assert!(Code::GpsL2cl.is_gps());
    assert!(Code::GpsL2cx.is_gps());
    assert!(Code::GpsL5i.is_gps());
    assert!(Code::GpsL5q.is_gps());
    assert!(Code::GpsL5x.is_gps());
    assert!(Code::Bds2B1.is_bds());
    assert!(Code::Bds2B2.is_bds());
    assert!(Code::GalE1b.is_gal());
    assert!(Code::GalE1c.is_gal());
    assert!(Code::GalE1x.is_gal());
    assert!(Code::GalE6b.is_gal());
    assert!(Code::GalE6c.is_gal());
    assert!(Code::GalE6x.is_gal());
    assert!(Code::GalE7i.is_gal());
    assert!(Code::GalE7q.is_gal());
    assert!(Code::GalE7x.is_gal());
    assert!(Code::GalE8i.is_gal());
    assert!(Code::GalE8q.is_gal());
    assert!(Code::GalE8x.is_gal());
    assert!(Code::GalE5i.is_gal());
    assert!(Code::GalE5q.is_gal());
    assert!(Code::GalE5x.is_gal());
    assert!(Code::GloL1p.is_glo());
    assert!(Code::GloL2p.is_glo());
    assert!(Code::QzsL1ca.is_qzss());
    assert!(Code::QzsL1ci.is_qzss());
    assert!(Code::QzsL1cq.is_qzss());
    assert!(Code::QzsL1cx.is_qzss());
    assert!(Code::QzsL2cm.is_qzss());
    assert!(Code::QzsL2cl.is_qzss());
    assert!(Code::QzsL2cx.is_qzss());
    assert!(Code::QzsL5i.is_qzss());
    assert!(Code::QzsL5q.is_qzss());
    assert!(Code::QzsL5x.is_qzss());
    assert!(Code::SbasL5i.is_sbas());
    assert!(Code::SbasL5q.is_sbas());
    assert!(Code::SbasL5x.is_sbas());
    assert!(Code::Bds3B1ci.is_bds());
    assert!(Code::Bds3B1cq.is_bds());
    assert!(Code::Bds3B1cx.is_bds());
    assert!(Code::Bds3B5i.is_bds());
    assert!(Code::Bds3B5q.is_bds());
    assert!(Code::Bds3B5x.is_bds());
    assert!(Code::Bds3B7i.is_bds());
    assert!(Code::Bds3B7q.is_bds());
    assert!(Code::Bds3B7x.is_bds());
    assert!(Code::Bds3B3i.is_bds());
    assert!(Code::Bds3B3q.is_bds());
    assert!(Code::Bds3B3x.is_bds());
    assert!(Code::GpsL1ci.is_gps());
    assert!(Code::GpsL1cq.is_gps());
    assert!(Code::GpsL1cx.is_gps());
    assert!(Code::AuxGps.is_gps());
    assert!(Code::AuxSbas.is_sbas());
    assert!(Code::AuxGal.is_gal());
    assert!(Code::AuxQzs.is_qzss());
    assert!(Code::AuxBds.is_bds());
}

#[test]
fn code_code_strings() {
    assert_eq!(Code::GpsL1ca.to_string(), "GPS L1CA");
    assert_eq!(Code::GpsL2cm.to_string(), "GPS L2CM");
    assert_eq!(Code::SbasL1ca.to_string(), "SBAS L1");
    assert_eq!(Code::GloL1of.to_string(), "GLO L1OF");
    assert_eq!(Code::GloL2of.to_string(), "GLO L2OF");
    assert_eq!(Code::GpsL1p.to_string(), "GPS L1P");
    assert_eq!(Code::GpsL2p.to_string(), "GPS L2P");
    assert_eq!(Code::GpsL2cl.to_string(), "GPS L2CL");
    assert_eq!(Code::GpsL2cx.to_string(), "GPS L2C");
    assert_eq!(Code::GpsL5i.to_string(), "GPS L5I");
    assert_eq!(Code::GpsL5q.to_string(), "GPS L5Q");
    assert_eq!(Code::GpsL5x.to_string(), "GPS L5");
    assert_eq!(Code::Bds2B1.to_string(), "BDS B1");
    assert_eq!(Code::Bds2B2.to_string(), "BDS B2");
    assert_eq!(Code::GalE1b.to_string(), "GAL E1B");
    assert_eq!(Code::GalE1c.to_string(), "GAL E1C");
    assert_eq!(Code::GalE1x.to_string(), "GAL E1");
    assert_eq!(Code::GalE6b.to_string(), "GAL E6B");
    assert_eq!(Code::GalE6c.to_string(), "GAL E6C");
    assert_eq!(Code::GalE6x.to_string(), "GAL E6");
    assert_eq!(Code::GalE7i.to_string(), "GAL E5bI");
    assert_eq!(Code::GalE7q.to_string(), "GAL E5bQ");
    assert_eq!(Code::GalE7x.to_string(), "GAL E5b");
    assert_eq!(Code::GalE8i.to_string(), "GAL E8I");
    assert_eq!(Code::GalE8q.to_string(), "GAL E8Q");
    assert_eq!(Code::GalE8x.to_string(), "GAL E8");
    assert_eq!(Code::GalE5i.to_string(), "GAL E5aI");
    assert_eq!(Code::GalE5q.to_string(), "GAL E5aQ");
    assert_eq!(Code::GalE5x.to_string(), "GAL E5a");
    assert_eq!(Code::GloL1p.to_string(), "GLO L1P");
    assert_eq!(Code::GloL2p.to_string(), "GLO L2P");
    assert_eq!(Code::QzsL1ca.to_string(), "QZS L1CA");
    assert_eq!(Code::QzsL1ci.to_string(), "QZS L1CI");
    assert_eq!(Code::QzsL1cq.to_string(), "QZS L1CQ");
    assert_eq!(Code::QzsL1cx.to_string(), "QZS L1CX");
    assert_eq!(Code::QzsL2cm.to_string(), "QZS L2CM");
    assert_eq!(Code::QzsL2cl.to_string(), "QZS L2CL");
    assert_eq!(Code::QzsL2cx.to_string(), "QZS L2C");
    assert_eq!(Code::QzsL5i.to_string(), "QZS L5I");
    assert_eq!(Code::QzsL5q.to_string(), "QZS L5Q");
    assert_eq!(Code::QzsL5x.to_string(), "QZS L5");
    assert_eq!(Code::SbasL5i.to_string(), "SBAS L5I");
    assert_eq!(Code::SbasL5q.to_string(), "SBAS L5Q");
    assert_eq!(Code::SbasL5x.to_string(), "SBAS L5");
    assert_eq!(Code::Bds3B1ci.to_string(), "BDS3 B1CI");
    assert_eq!(Code::Bds3B1cq.to_string(), "BDS3 B1CQ");
    assert_eq!(Code::Bds3B1cx.to_string(), "BDS3 B1C");
    assert_eq!(Code::Bds3B5i.to_string(), "BDS3 B5I");
    assert_eq!(Code::Bds3B5q.to_string(), "BDS3 B5Q");
    assert_eq!(Code::Bds3B5x.to_string(), "BDS3 B5");
    assert_eq!(Code::Bds3B7i.to_string(), "BDS3 B7I");
    assert_eq!(Code::Bds3B7q.to_string(), "BDS3 B7Q");
    assert_eq!(Code::Bds3B7x.to_string(), "BDS3 B7");
    assert_eq!(Code::Bds3B3i.to_string(), "BDS3 B3I");
    assert_eq!(Code::Bds3B3q.to_string(), "BDS3 B3Q");
    assert_eq!(Code::Bds3B3x.to_string(), "BDS3 B3");
    assert_eq!(Code::GpsL1ci.to_string(), "GPS L1CI");
    assert_eq!(Code::GpsL1cq.to_string(), "GPS L1CQ");
    assert_eq!(Code::GpsL1cx.to_string(), "GPS L1C");
    assert_eq!(Code::AuxGps.to_string(), "GPS AUX");
    assert_eq!(Code::AuxSbas.to_string(), "SBAS AUX");
    assert_eq!(Code::AuxGal.to_string(), "GAL AUX");
    assert_eq!(Code::AuxQzs.to_string(), "QZS AUX");
    assert_eq!(Code::AuxBds.to_string(), "BDS AUX");

    assert_eq!(Code::from_str("GPS L1CA").unwrap(), Code::GpsL1ca);
    assert_eq!(Code::from_str("GPS L2CM").unwrap(), Code::GpsL2cm);
    assert_eq!(Code::from_str("SBAS L1").unwrap(), Code::SbasL1ca);
    assert_eq!(Code::from_str("GLO L1OF").unwrap(), Code::GloL1of);
    assert_eq!(Code::from_str("GLO L2OF").unwrap(), Code::GloL2of);
    assert_eq!(Code::from_str("GPS L1P").unwrap(), Code::GpsL1p);
    assert_eq!(Code::from_str("GPS L2P").unwrap(), Code::GpsL2p);
    assert_eq!(Code::from_str("GPS L2CL").unwrap(), Code::GpsL2cl);
    assert_eq!(Code::from_str("GPS L2C").unwrap(), Code::GpsL2cx);
    assert_eq!(Code::from_str("GPS L5I").unwrap(), Code::GpsL5i);
    assert_eq!(Code::from_str("GPS L5Q").unwrap(), Code::GpsL5q);
    assert_eq!(Code::from_str("GPS L5").unwrap(), Code::GpsL5x);
    assert_eq!(Code::from_str("BDS B1").unwrap(), Code::Bds2B1);
    assert_eq!(Code::from_str("BDS B2").unwrap(), Code::Bds2B2);
    assert_eq!(Code::from_str("GAL E1B").unwrap(), Code::GalE1b);
    assert_eq!(Code::from_str("GAL E1C").unwrap(), Code::GalE1c);
    assert_eq!(Code::from_str("GAL E1").unwrap(), Code::GalE1x);
    assert_eq!(Code::from_str("GAL E6B").unwrap(), Code::GalE6b);
    assert_eq!(Code::from_str("GAL E6C").unwrap(), Code::GalE6c);
    assert_eq!(Code::from_str("GAL E6").unwrap(), Code::GalE6x);
    assert_eq!(Code::from_str("GAL E5bI").unwrap(), Code::GalE7i);
    assert_eq!(Code::from_str("GAL E5bQ").unwrap(), Code::GalE7q);
    assert_eq!(Code::from_str("GAL E5b").unwrap(), Code::GalE7x);
    assert_eq!(Code::from_str("GAL E8I").unwrap(), Code::GalE8i);
    assert_eq!(Code::from_str("GAL E8Q").unwrap(), Code::GalE8q);
    assert_eq!(Code::from_str("GAL E8").unwrap(), Code::GalE8x);
    assert_eq!(Code::from_str("GAL E5aI").unwrap(), Code::GalE5i);
    assert_eq!(Code::from_str("GAL E5aQ").unwrap(), Code::GalE5q);
    assert_eq!(Code::from_str("GAL E5a").unwrap(), Code::GalE5x);
    assert_eq!(Code::from_str("GLO L1P").unwrap(), Code::GloL1p);
    assert_eq!(Code::from_str("GLO L2P").unwrap(), Code::GloL2p);
    assert_eq!(Code::from_str("QZS L1CA").unwrap(), Code::QzsL1ca);
    assert_eq!(Code::from_str("QZS L1CI").unwrap(), Code::QzsL1ci);
    assert_eq!(Code::from_str("QZS L1CQ").unwrap(), Code::QzsL1cq);
    assert_eq!(Code::from_str("QZS L1CX").unwrap(), Code::QzsL1cx);
    assert_eq!(Code::from_str("QZS L2CM").unwrap(), Code::QzsL2cm);
    assert_eq!(Code::from_str("QZS L2CL").unwrap(), Code::QzsL2cl);
    assert_eq!(Code::from_str("QZS L2C").unwrap(), Code::QzsL2cx);
    assert_eq!(Code::from_str("QZS L5I").unwrap(), Code::QzsL5i);
    assert_eq!(Code::from_str("QZS L5Q").unwrap(), Code::QzsL5q);
    assert_eq!(Code::from_str("QZS L5").unwrap(), Code::QzsL5x);
    assert_eq!(Code::from_str("SBAS L5I").unwrap(), Code::SbasL5i);
    assert_eq!(Code::from_str("SBAS L5Q").unwrap(), Code::SbasL5q);
    assert_eq!(Code::from_str("SBAS L5").unwrap(), Code::SbasL5x);
    assert_eq!(Code::from_str("BDS3 B1CI").unwrap(), Code::Bds3B1ci);
    assert_eq!(Code::from_str("BDS3 B1CQ").unwrap(), Code::Bds3B1cq);
    assert_eq!(Code::from_str("BDS3 B1C").unwrap(), Code::Bds3B1cx);
    assert_eq!(Code::from_str("BDS3 B5I").unwrap(), Code::Bds3B5i);
    assert_eq!(Code::from_str("BDS3 B5Q").unwrap(), Code::Bds3B5q);
    assert_eq!(Code::from_str("BDS3 B5").unwrap(), Code::Bds3B5x);
    assert_eq!(Code::from_str("BDS3 B7I").unwrap(), Code::Bds3B7i);
    assert_eq!(Code::from_str("BDS3 B7Q").unwrap(), Code::Bds3B7q);
    assert_eq!(Code::from_str("BDS3 B7").unwrap(), Code::Bds3B7x);
    assert_eq!(Code::from_str("BDS3 B3I").unwrap(), Code::Bds3B3i);
    assert_eq!(Code::from_str("BDS3 B3Q").unwrap(), Code::Bds3B3q);
    assert_eq!(Code::from_str("BDS3 B3").unwrap(), Code::Bds3B3x);
    assert_eq!(Code::from_str("GPS L1CI").unwrap(), Code::GpsL1ci);
    assert_eq!(Code::from_str("GPS L1CQ").unwrap(), Code::GpsL1cq);
    assert_eq!(Code::from_str("GPS L1C").unwrap(), Code::GpsL1cx);
    assert_eq!(Code::from_str("GPS AUX").unwrap(), Code::AuxGps);
    assert_eq!(Code::from_str("SBAS AUX").unwrap(), Code::AuxSbas);
    assert_eq!(Code::from_str("GAL AUX").unwrap(), Code::AuxGal);
    assert_eq!(Code::from_str("QZS AUX").unwrap(), Code::AuxQzs);
    assert_eq!(Code::from_str("BDS AUX").unwrap(), Code::AuxBds);

    {
        let result = Code::from_str("Bad String");
        assert!(result.is_err());
    }
    {
        let result = Code::from_str("Nul\0String");
        assert!(result.is_err());
    }
    {
        let result = Code::from_str("💩💩💩💩");
        assert!(result.is_err());
    }
}

#[test]
fn constellation_sat_count() {
    assert_eq!(Constellation::Gps.sat_count(), 32);
    assert_eq!(Constellation::Sbas.sat_count(), 19);
    assert_eq!(Constellation::Glo.sat_count(), 28);
    assert_eq!(Constellation::Bds.sat_count(), 64);
    assert_eq!(Constellation::Gal.sat_count(), 36);
    assert_eq!(Constellation::Qzs.sat_count(), 10);
}

#[test]
fn constellation_chars() {
    assert_eq!('G', Constellation::Gps.into());
    assert_eq!('S', Constellation::Sbas.into());
    assert_eq!('R', Constellation::Glo.into());
    assert_eq!('C', Constellation::Bds.into());
    assert_eq!('J', Constellation::Qzs.into());
    assert_eq!('E', Constellation::Gal.into());

    assert_eq!('G'.try_into(), Ok(Constellation::Gps));
    assert_eq!('S'.try_into(), Ok(Constellation::Sbas));
    assert_eq!('R'.try_into(), Ok(Constellation::Glo));
    assert_eq!('C'.try_into(), Ok(Constellation::Bds));
    assert_eq!('J'.try_into(), Ok(Constellation::Qzs));
    assert_eq!('E'.try_into(), Ok(Constellation::Gal));
}

#[test]
fn constellation_constellation_strings() {
    assert_eq!(Constellation::Gps.to_string(), "GPS");
    assert_eq!(Constellation::Sbas.to_string(), "SBAS");
    assert_eq!(Constellation::Glo.to_string(), "GLO");
    assert_eq!(Constellation::Bds.to_string(), "BDS");
    assert_eq!(Constellation::Qzs.to_string(), "QZS");
    assert_eq!(Constellation::Gal.to_string(), "GAL");

    assert_eq!(Constellation::from_str("GPS").unwrap(), Constellation::Gps);
    assert_eq!(
        Constellation::from_str("SBAS").unwrap(),
        Constellation::Sbas
    );
    assert_eq!(Constellation::from_str("GLO").unwrap(), Constellation::Glo);
    assert_eq!(Constellation::from_str("BDS").unwrap(), Constellation::Bds);
    assert_eq!(Constellation::from_str("QZS").unwrap(), Constellation::Qzs);
    assert_eq!(Constellation::from_str("GAL").unwrap(), Constellation::Gal);

    {
        let result = Constellation::from_str("Bad String");
        assert!(result.is_err());
    }
    {
        let result = Constellation::from_str("Nul\0String");
        assert!(result.is_err());
    }
    {
        let result = Constellation::from_str("💩💩💩💩");
        assert!(result.is_err());
    }
}

#[test]
fn mod_signal_to_constellation() {
    assert_eq!(
        GnssSignal::new(1, Code::GpsL1ca)
            .unwrap()
            .to_constellation(),
        Constellation::Gps
    );
    assert_eq!(
        GnssSignal::new(1, Code::GpsL2cm)
            .unwrap()
            .to_constellation(),
        Constellation::Gps
    );
    assert_eq!(
        GnssSignal::new(120, Code::SbasL1ca)
            .unwrap()
            .to_constellation(),
        Constellation::Sbas
    );
    assert_eq!(
        GnssSignal::new(1, Code::GloL1of)
            .unwrap()
            .to_constellation(),
        Constellation::Glo
    );
    assert_eq!(
        GnssSignal::new(1, Code::GloL2of)
            .unwrap()
            .to_constellation(),
        Constellation::Glo
    );
    assert_eq!(
        GnssSignal::new(1, Code::GpsL1p).unwrap().to_constellation(),
        Constellation::Gps
    );
    assert_eq!(
        GnssSignal::new(1, Code::GpsL2p).unwrap().to_constellation(),
        Constellation::Gps
    );
    assert_eq!(
        GnssSignal::new(1, Code::GpsL2cl)
            .unwrap()
            .to_constellation(),
        Constellation::Gps
    );
    assert_eq!(
        GnssSignal::new(1, Code::GpsL2cx)
            .unwrap()
            .to_constellation(),
        Constellation::Gps
    );
    assert_eq!(
        GnssSignal::new(1, Code::GpsL5i).unwrap().to_constellation(),
        Constellation::Gps
    );
    assert_eq!(
        GnssSignal::new(1, Code::GpsL5q).unwrap().to_constellation(),
        Constellation::Gps
    );
    assert_eq!(
        GnssSignal::new(1, Code::GpsL5x).unwrap().to_constellation(),
        Constellation::Gps
    );
    assert_eq!(
        GnssSignal::new(1, Code::Bds2B1).unwrap().to_constellation(),
        Constellation::Bds
    );
    assert_eq!(
        GnssSignal::new(1, Code::Bds2B2).unwrap().to_constellation(),
        Constellation::Bds
    );
    assert_eq!(
        GnssSignal::new(1, Code::GalE1b).unwrap().to_constellation(),
        Constellation::Gal
    );
    assert_eq!(
        GnssSignal::new(1, Code::GalE1c).unwrap().to_constellation(),
        Constellation::Gal
    );
    assert_eq!(
        GnssSignal::new(1, Code::GalE1x).unwrap().to_constellation(),
        Constellation::Gal
    );
    assert_eq!(
        GnssSignal::new(1, Code::GalE6b).unwrap().to_constellation(),
        Constellation::Gal
    );
    assert_eq!(
        GnssSignal::new(1, Code::GalE6c).unwrap().to_constellation(),
        Constellation::Gal
    );
    assert_eq!(
        GnssSignal::new(1, Code::GalE6x).unwrap().to_constellation(),
        Constellation::Gal
    );
    assert_eq!(
        GnssSignal::new(1, Code::GalE7i).unwrap().to_constellation(),
        Constellation::Gal
    );
    assert_eq!(
        GnssSignal::new(1, Code::GalE7q).unwrap().to_constellation(),
        Constellation::Gal
    );
    assert_eq!(
        GnssSignal::new(1, Code::GalE7x).unwrap().to_constellation(),
        Constellation::Gal
    );
    assert_eq!(
        GnssSignal::new(1, Code::GalE8i).unwrap().to_constellation(),
        Constellation::Gal
    );
    assert_eq!(
        GnssSignal::new(1, Code::GalE8q).unwrap().to_constellation(),
        Constellation::Gal
    );
    assert_eq!(
        GnssSignal::new(1, Code::GalE8x).unwrap().to_constellation(),
        Constellation::Gal
    );
    assert_eq!(
        GnssSignal::new(1, Code::GalE5i).unwrap().to_constellation(),
        Constellation::Gal
    );
    assert_eq!(
        GnssSignal::new(1, Code::GalE5q).unwrap().to_constellation(),
        Constellation::Gal
    );
    assert_eq!(
        GnssSignal::new(1, Code::GalE5x).unwrap().to_constellation(),
        Constellation::Gal
    );
    assert_eq!(
        GnssSignal::new(1, Code::GloL1p).unwrap().to_constellation(),
        Constellation::Glo
    );
    assert_eq!(
        GnssSignal::new(1, Code::GloL2p).unwrap().to_constellation(),
        Constellation::Glo
    );
    assert_eq!(
        GnssSignal::new(193, Code::QzsL1ca)
            .unwrap()
            .to_constellation(),
        Constellation::Qzs
    );
    assert_eq!(
        GnssSignal::new(193, Code::QzsL1ci)
            .unwrap()
            .to_constellation(),
        Constellation::Qzs
    );
    assert_eq!(
        GnssSignal::new(193, Code::QzsL1cq)
            .unwrap()
            .to_constellation(),
        Constellation::Qzs
    );
    assert_eq!(
        GnssSignal::new(193, Code::QzsL1cx)
            .unwrap()
            .to_constellation(),
        Constellation::Qzs
    );
    assert_eq!(
        GnssSignal::new(193, Code::QzsL2cm)
            .unwrap()
            .to_constellation(),
        Constellation::Qzs
    );
    assert_eq!(
        GnssSignal::new(193, Code::QzsL2cl)
            .unwrap()
            .to_constellation(),
        Constellation::Qzs
    );
    assert_eq!(
        GnssSignal::new(193, Code::QzsL2cx)
            .unwrap()
            .to_constellation(),
        Constellation::Qzs
    );
    assert_eq!(
        GnssSignal::new(193, Code::QzsL5i)
            .unwrap()
            .to_constellation(),
        Constellation::Qzs
    );
    assert_eq!(
        GnssSignal::new(193, Code::QzsL5q)
            .unwrap()
            .to_constellation(),
        Constellation::Qzs
    );
    assert_eq!(
        GnssSignal::new(193, Code::QzsL5x)
            .unwrap()
            .to_constellation(),
        Constellation::Qzs
    );
    assert_eq!(
        GnssSignal::new(120, Code::SbasL5i)
            .unwrap()
            .to_constellation(),
        Constellation::Sbas
    );
    assert_eq!(
        GnssSignal::new(120, Code::SbasL5q)
            .unwrap()
            .to_constellation(),
        Constellation::Sbas
    );
    assert_eq!(
        GnssSignal::new(120, Code::SbasL5x)
            .unwrap()
            .to_constellation(),
        Constellation::Sbas
    );
    assert_eq!(
        GnssSignal::new(1, Code::Bds3B1ci)
            .unwrap()
            .to_constellation(),
        Constellation::Bds
    );
    assert_eq!(
        GnssSignal::new(1, Code::Bds3B1cq)
            .unwrap()
            .to_constellation(),
        Constellation::Bds
    );
    assert_eq!(
        GnssSignal::new(1, Code::Bds3B1cx)
            .unwrap()
            .to_constellation(),
        Constellation::Bds
    );
    assert_eq!(
        GnssSignal::new(1, Code::Bds3B5i)
            .unwrap()
            .to_constellation(),
        Constellation::Bds
    );
    assert_eq!(
        GnssSignal::new(1, Code::Bds3B5q)
            .unwrap()
            .to_constellation(),
        Constellation::Bds
    );
    assert_eq!(
        GnssSignal::new(1, Code::Bds3B5x)
            .unwrap()
            .to_constellation(),
        Constellation::Bds
    );
    assert_eq!(
        GnssSignal::new(1, Code::Bds3B7i)
            .unwrap()
            .to_constellation(),
        Constellation::Bds
    );
    assert_eq!(
        GnssSignal::new(1, Code::Bds3B7q)
            .unwrap()
            .to_constellation(),
        Constellation::Bds
    );
    assert_eq!(
        GnssSignal::new(1, Code::Bds3B7x)
            .unwrap()
            .to_constellation(),
        Constellation::Bds
    );
    assert_eq!(
        GnssSignal::new(1, Code::Bds3B3i)
            .unwrap()
            .to_constellation(),
        Constellation::Bds
    );
    assert_eq!(
        GnssSignal::new(1, Code::Bds3B3q)
            .unwrap()
            .to_constellation(),
        Constellation::Bds
    );
    assert_eq!(
        GnssSignal::new(1, Code::Bds3B3x)
            .unwrap()
            .to_constellation(),
        Constellation::Bds
    );
    assert_eq!(
        GnssSignal::new(1, Code::GpsL1ci)
            .unwrap()
            .to_constellation(),
        Constellation::Gps
    );
    assert_eq!(
        GnssSignal::new(1, Code::GpsL1cq)
            .unwrap()
            .to_constellation(),
        Constellation::Gps
    );
    assert_eq!(
        GnssSignal::new(1, Code::GpsL1cx)
            .unwrap()
            .to_constellation(),
        Constellation::Gps
    );
    assert_eq!(
        GnssSignal::new(1, Code::AuxGps).unwrap().to_constellation(),
        Constellation::Gps
    );
    assert_eq!(
        GnssSignal::new(120, Code::AuxSbas)
            .unwrap()
            .to_constellation(),
        Constellation::Sbas
    );
    assert_eq!(
        GnssSignal::new(1, Code::AuxGal).unwrap().to_constellation(),
        Constellation::Gal
    );
    assert_eq!(
        GnssSignal::new(193, Code::AuxQzs)
            .unwrap()
            .to_constellation(),
        Constellation::Qzs
    );
    assert_eq!(
        GnssSignal::new(1, Code::AuxBds).unwrap().to_constellation(),
        Constellation::Bds
    );
}

#[test]
fn mod_invalid_sats() {
    let first = consts::GPS_FIRST_PRN;
    let last = consts::GPS_FIRST_PRN + consts::NUM_SATS_GPS;
    for sat in (first - 1)..(last + 2) {
        let result = GnssSignal::new(sat, Code::GpsL1ca);
        if sat < first || sat >= last {
            assert!(result.is_err());
            assert_eq!(result.unwrap_err(), InvalidSatellite(sat));
        } else {
            assert!(result.is_ok());
        }
    }

    let first = consts::SBAS_FIRST_PRN;
    let last = consts::SBAS_FIRST_PRN + consts::NUM_SATS_SBAS;
    for sat in (first - 1)..(last + 2) {
        let result = GnssSignal::new(sat, Code::SbasL1ca);
        if sat < first || sat >= last {
            assert!(result.is_err());
            assert_eq!(result.unwrap_err(), InvalidSatellite(sat));
        } else {
            assert!(result.is_ok());
        }
    }

    let first = consts::GLO_FIRST_PRN;
    let last = consts::GLO_FIRST_PRN + consts::NUM_SATS_GLO;
    for sat in (first - 1)..(last + 2) {
        let result = GnssSignal::new(sat, Code::GloL1of);
        if sat < first || sat >= last {
            assert!(result.is_err());
            assert_eq!(result.unwrap_err(), InvalidSatellite(sat));
        } else {
            assert!(result.is_ok());
        }
    }

    let first = consts::BDS_FIRST_PRN;
    let last = consts::BDS_FIRST_PRN + consts::NUM_SATS_BDS;
    for sat in (first - 1)..(last + 2) {
        let result = GnssSignal::new(sat, Code::Bds2B1);
        if sat < first || sat >= last {
            assert!(result.is_err());
            assert_eq!(result.unwrap_err(), InvalidSatellite(sat));
        } else {
            assert!(result.is_ok());
        }
    }

    let first = consts::GAL_FIRST_PRN;
    let last = consts::GAL_FIRST_PRN + consts::NUM_SATS_GAL;
    for sat in (first - 1)..(last + 2) {
        let result = GnssSignal::new(sat, Code::GalE1b);
        if sat < first || sat >= last {
            assert!(result.is_err());
            assert_eq!(result.unwrap_err(), InvalidSatellite(sat));
        } else {
            assert!(result.is_ok());
        }
    }

    let first = consts::QZS_FIRST_PRN;
    let last = consts::QZS_FIRST_PRN + consts::NUM_SATS_QZS;
    for sat in (first - 1)..(last + 2) {
        let result = GnssSignal::new(sat, Code::QzsL1ca);
        if sat < first || sat >= last {
            assert!(result.is_err());
            assert_eq!(result.unwrap_err(), InvalidSatellite(sat));
        } else {
            assert!(result.is_ok());
        }
    }
}

#[test]
fn mod_signal_strings() {
    assert_eq!(
        GnssSignal::new(1, Code::GpsL1ca).unwrap().to_string(),
        "GPS L1CA 1"
    );
    assert_eq!(
        GnssSignal::new(32, Code::GpsL1ca).unwrap().to_string(),
        "GPS L1CA 32"
    );
    assert_eq!(
        GnssSignal::new(1, Code::GalE5x).unwrap().to_string(),
        "GAL E5a 1"
    );
    assert_eq!(
        GnssSignal::new(32, Code::GalE5x).unwrap().to_string(),
        "GAL E5a 32"
    );
    assert_eq!(
        GnssSignal::new(1, Code::Bds2B1).unwrap().to_string(),
        "BDS B1 1"
    );
    assert_eq!(
        GnssSignal::new(32, Code::Bds2B1).unwrap().to_string(),
        "BDS B1 32"
    );
}
