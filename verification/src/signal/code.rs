//! Identifiers of the codes that GNSS satellites broadcast.
use super::constellation::Constellation;
use crate::text::{str_matches, variant_not_found};
use vstd::prelude::*;

verus! {

/// Code identifiers
#[derive(Debug, Copy, Clone, Ord, PartialOrd, Eq, PartialEq, Structural, Hash)]
pub enum Code {
    /// GPS L1CA: BPSK(1)
    GpsL1ca,
    /// GPS L2C: 2 x BPSK(0.5)
    GpsL2cm,
    /// SBAS L1: BPSK(1)
    SbasL1ca,
    /// GLONASS L1OF: FDMA BPSK(0.5)
    GloL1of,
    /// GLONASS L2OF: FDMA BPSK(0.5)
    GloL2of,
    /// GPS L1P(Y): encrypted BPSK(10)
    GpsL1p,
    /// GPS L2P(Y): encrypted BPSK(10)
    GpsL2p,
    /// GPS L2CL
    GpsL2cl,
    /// GPS L2C combined
    GpsL2cx,
    /// GPS L5: QPSK(10) at 1150*f0
    GpsL5i,
    /// GPS L5Q
    GpsL5q,
    /// GPS L5 combined
    GpsL5x,
    /// BDS2 B1I: BPSK(2) at 1526*f0
    Bds2B1,
    /// BDS2 B2I: BPSK(2) at 1180*f0
    Bds2B2,
    /// Galileo E1: CASM CBOC(1,1) at 1540*f0
    GalE1b,
    /// Galileo E1C
    GalE1c,
    /// Galileo E1 combined
    GalE1x,
    /// Galileo E6: CASM BPSK(5) at 1250*f0
    GalE6b,
    /// Galileo E6C
    GalE6c,
    /// Galileo E6 combined
    GalE6x,
    /// Galileo E5b: QPSK(10) at 1180*f0
    GalE7i,
    /// Galileo E5bQ
    GalE7q,
    /// Galileo E5b combined
    GalE7x,
    /// Galileo E5AltBOC(15,10) at 1165*f0
    GalE8i,
    /// Galileo E8Q
    GalE8q,
    /// Galileo E8 combined
    GalE8x,
    /// Galileo E5a: QPSK(10) at 1150*f0
    GalE5i,
    /// Galileo E5aQ
    GalE5q,
    /// Galileo E5a combined
    GalE5x,
    /// GLONASS L1P: encrypted
    GloL1p,
    /// GLONASS L2P: encrypted
    GloL2p,
    /// QZSS L1CA: BPSK(1) at 1540*f0
    QzsL1ca,
    /// QZSS L1C: TM-BOC at 1540*f0
    QzsL1ci,
    /// QZSS L1CQ
    QzsL1cq,
    /// QZSS L1C combined
    QzsL1cx,
    /// QZSS L2C: 2 x BPSK(0.5) at 1200*f0
    QzsL2cm,
    /// QZSS L2CL
    QzsL2cl,
    /// QZSS L2C combined
    QzsL2cx,
    /// QZSS L5: QPSK(10) at 1150*f0
    QzsL5i,
    /// QZSS L5Q
    QzsL5q,
    /// QZSS L5 combined
    QzsL5x,
    /// SBAS L5: ? at 1150*f0
    SbasL5i,
    /// SBAS L5Q
    SbasL5q,
    /// SBAS L5 combined
    SbasL5x,
    /// BDS3 B1C: TM-BOC at 1540*f0
    Bds3B1ci,
    /// BDS3 B1CQ
    Bds3B1cq,
    /// BDS3 B1C combined
    Bds3B1cx,
    /// BDS3 B2a: QPSK(10) at 1150*f0
    Bds3B5i,
    /// BDS3 B2aQ
    Bds3B5q,
    /// BDS3 B2a combined
    Bds3B5x,
    /// BDS3 B2b: QPSK(10) at 1180*f0
    Bds3B7i,
    /// BDS3 B2bQ
    Bds3B7q,
    /// BDS3 B2b combined
    Bds3B7x,
    /// BDS3 B3I: QPSK(10) at 1240*f0
    Bds3B3i,
    /// BDS3 B3Q
    Bds3B3q,
    /// BDS3 B3 combined
    Bds3B3x,
    /// GPS L1C: TM-BOC at 1540*f0
    GpsL1ci,
    /// GPS L1CQ
    GpsL1cq,
    /// GPS L1C combined
    GpsL1cx,
    /// Auxiliary GPS antenna signals
    AuxGps,
    /// Auxiliary SBAS antenna signals
    AuxSbas,
    /// Auxiliary GAL antenna signals
    AuxGal,
    /// Auxiliary QZSS antenna signals
    AuxQzs,
    /// Auxiliary BDS antenna signals
    AuxBds,
}

/// Number of codes.
pub const CODE_COUNT: u8 = 64;

impl Code {
    /// The integer that identifies the code (its position in the declaration,
    /// the value that the C library uses too).
    pub open spec fn repr_value(self) -> u8 {
        match self {
            Code::GpsL1ca => 0,
            Code::GpsL2cm => 1,
            Code::SbasL1ca => 2,
            Code::GloL1of => 3,
            Code::GloL2of => 4,
            Code::GpsL1p => 5,
            Code::GpsL2p => 6,
            Code::GpsL2cl => 7,
            Code::GpsL2cx => 8,
            Code::GpsL5i => 9,
            Code::GpsL5q => 10,
            Code::GpsL5x => 11,
            Code::Bds2B1 => 12,
            Code::Bds2B2 => 13,
            Code::GalE1b => 14,
            Code::GalE1c => 15,
            Code::GalE1x => 16,
            Code::GalE6b => 17,
            Code::GalE6c => 18,
            Code::GalE6x => 19,
            Code::GalE7i => 20,
            Code::GalE7q => 21,
            Code::GalE7x => 22,
            Code::GalE8i => 23,
            Code::GalE8q => 24,
            Code::GalE8x => 25,
            Code::GalE5i => 26,
            Code::GalE5q => 27,
            Code::GalE5x => 28,
            Code::GloL1p => 29,
            Code::GloL2p => 30,
            Code::QzsL1ca => 31,
            Code::QzsL1ci => 32,
            Code::QzsL1cq => 33,
            Code::QzsL1cx => 34,
            Code::QzsL2cm => 35,
            Code::QzsL2cl => 36,
            Code::QzsL2cx => 37,
            Code::QzsL5i => 38,
            Code::QzsL5q => 39,
            Code::QzsL5x => 40,
            Code::SbasL5i => 41,
            Code::SbasL5q => 42,
            Code::SbasL5x => 43,
            Code::Bds3B1ci => 44,
            Code::Bds3B1cq => 45,
            Code::Bds3B1cx => 46,
            Code::Bds3B5i => 47,
            Code::Bds3B5q => 48,
            Code::Bds3B5x => 49,
            Code::Bds3B7i => 50,
            Code::Bds3B7q => 51,
            Code::Bds3B7x => 52,
            Code::Bds3B3i => 53,
            Code::Bds3B3q => 54,
            Code::Bds3B3x => 55,
            Code::GpsL1ci => 56,
            Code::GpsL1cq => 57,
            Code::GpsL1cx => 58,
            Code::AuxGps => 59,
            Code::AuxSbas => 60,
            Code::AuxGal => 61,
            Code::AuxQzs => 62,
            Code::AuxBds => 63,
        }
    }

    /// The code identified by an integer, if any.
    pub open spec fn from_repr_spec(v: int) -> Option<Code> {
        if v == 0 {
            Some(Code::GpsL1ca)
        } else if v == 1 {
            Some(Code::GpsL2cm)
        } else if v == 2 {
            Some(Code::SbasL1ca)
        } else if v == 3 {
            Some(Code::GloL1of)
        } else if v == 4 {
            Some(Code::GloL2of)
        } else if v == 5 {
            Some(Code::GpsL1p)
        } else if v == 6 {
            Some(Code::GpsL2p)
        } else if v == 7 {
            Some(Code::GpsL2cl)
        } else if v == 8 {
            Some(Code::GpsL2cx)
        } else if v == 9 {
            Some(Code::GpsL5i)
        } else if v == 10 {
            Some(Code::GpsL5q)
        } else if v == 11 {
            Some(Code::GpsL5x)
        } else if v == 12 {
            Some(Code::Bds2B1)
        } else if v == 13 {
            Some(Code::Bds2B2)
        } else if v == 14 {
            Some(Code::GalE1b)
        } else if v == 15 {
            Some(Code::GalE1c)
        } else if v == 16 {
            Some(Code::GalE1x)
        } else if v == 17 {
            Some(Code::GalE6b)
        } else if v == 18 {
            Some(Code::GalE6c)
        } else if v == 19 {
            Some(Code::GalE6x)
        } else if v == 20 {
            Some(Code::GalE7i)
        } else if v == 21 {
            Some(Code::GalE7q)
        } else if v == 22 {
            Some(Code::GalE7x)
        } else if v == 23 {
            Some(Code::GalE8i)
        } else if v == 24 {
            Some(Code::GalE8q)
        } else if v == 25 {
            Some(Code::GalE8x)
        } else if v == 26 {
            Some(Code::GalE5i)
        } else if v == 27 {
            Some(Code::GalE5q)
        } else if v == 28 {
            Some(Code::GalE5x)
        } else if v == 29 {
            Some(Code::GloL1p)
        } else if v == 30 {
            Some(Code::GloL2p)
        } else if v == 31 {
            Some(Code::QzsL1ca)
        } else if v == 32 {
            Some(Code::QzsL1ci)
        } else if v == 33 {
            Some(Code::QzsL1cq)
        } else if v == 34 {
            Some(Code::QzsL1cx)
        } else if v == 35 {
            Some(Code::QzsL2cm)
        } else if v == 36 {
            Some(Code::QzsL2cl)
        } else if v == 37 {
            Some(Code::QzsL2cx)
        } else if v == 38 {
            Some(Code::QzsL5i)
        } else if v == 39 {
            Some(Code::QzsL5q)
        } else if v == 40 {
            Some(Code::QzsL5x)
        } else if v == 41 {
            Some(Code::SbasL5i)
        } else if v == 42 {
            Some(Code::SbasL5q)
        } else if v == 43 {
            Some(Code::SbasL5x)
        } else if v == 44 {
            Some(Code::Bds3B1ci)
        } else if v == 45 {
            Some(Code::Bds3B1cq)
        } else if v == 46 {
            Some(Code::Bds3B1cx)
        } else if v == 47 {
            Some(Code::Bds3B5i)
        } else if v == 48 {
            Some(Code::Bds3B5q)
        } else if v == 49 {
            Some(Code::Bds3B5x)
        } else if v == 50 {
            Some(Code::Bds3B7i)
        } else if v == 51 {
            Some(Code::Bds3B7q)
        } else if v == 52 {
            Some(Code::Bds3B7x)
        } else if v == 53 {
            Some(Code::Bds3B3i)
        } else if v == 54 {
            Some(Code::Bds3B3q)
        } else if v == 55 {
            Some(Code::Bds3B3x)
        } else if v == 56 {
            Some(Code::GpsL1ci)
        } else if v == 57 {
            Some(Code::GpsL1cq)
        } else if v == 58 {
            Some(Code::GpsL1cx)
        } else if v == 59 {
            Some(Code::AuxGps)
        } else if v == 60 {
            Some(Code::AuxSbas)
        } else if v == 61 {
            Some(Code::AuxGal)
        } else if v == 62 {
            Some(Code::AuxQzs)
        } else if v == 63 {
            Some(Code::AuxBds)
        } else {
            None
        }
    }

    /// The constellation that broadcasts the code.
    pub open spec fn constellation_spec(self) -> Constellation {
        match self {
            Code::GpsL1ca => Constellation::Gps,
            Code::GpsL2cm => Constellation::Gps,
            Code::SbasL1ca => Constellation::Sbas,
            Code::GloL1of => Constellation::Glo,
            Code::GloL2of => Constellation::Glo,
            Code::GpsL1p => Constellation::Gps,
            Code::GpsL2p => Constellation::Gps,
            Code::GpsL2cl => Constellation::Gps,
            Code::GpsL2cx => Constellation::Gps,
            Code::GpsL5i => Constellation::Gps,
            Code::GpsL5q => Constellation::Gps,
            Code::GpsL5x => Constellation::Gps,
            Code::Bds2B1 => Constellation::Bds,
            Code::Bds2B2 => Constellation::Bds,
            Code::GalE1b => Constellation::Gal,
            Code::GalE1c => Constellation::Gal,
            Code::GalE1x => Constellation::Gal,
            Code::GalE6b => Constellation::Gal,
            Code::GalE6c => Constellation::Gal,
            Code::GalE6x => Constellation::Gal,
            Code::GalE7i => Constellation::Gal,
            Code::GalE7q => Constellation::Gal,
            Code::GalE7x => Constellation::Gal,
            Code::GalE8i => Constellation::Gal,
            Code::GalE8q => Constellation::Gal,
            Code::GalE8x => Constellation::Gal,
            Code::GalE5i => Constellation::Gal,
            Code::GalE5q => Constellation::Gal,
            Code::GalE5x => Constellation::Gal,
            Code::GloL1p => Constellation::Glo,
            Code::GloL2p => Constellation::Glo,
            Code::QzsL1ca => Constellation::Qzs,
            Code::QzsL1ci => Constellation::Qzs,
            Code::QzsL1cq => Constellation::Qzs,
            Code::QzsL1cx => Constellation::Qzs,
            Code::QzsL2cm => Constellation::Qzs,
            Code::QzsL2cl => Constellation::Qzs,
            Code::QzsL2cx => Constellation::Qzs,
            Code::QzsL5i => Constellation::Qzs,
            Code::QzsL5q => Constellation::Qzs,
            Code::QzsL5x => Constellation::Qzs,
            Code::SbasL5i => Constellation::Sbas,
            Code::SbasL5q => Constellation::Sbas,
            Code::SbasL5x => Constellation::Sbas,
            Code::Bds3B1ci => Constellation::Bds,
            Code::Bds3B1cq => Constellation::Bds,
            Code::Bds3B1cx => Constellation::Bds,
            Code::Bds3B5i => Constellation::Bds,
            Code::Bds3B5q => Constellation::Bds,
            Code::Bds3B5x => Constellation::Bds,
            Code::Bds3B7i => Constellation::Bds,
            Code::Bds3B7q => Constellation::Bds,
            Code::Bds3B7x => Constellation::Bds,
            Code::Bds3B3i => Constellation::Bds,
            Code::Bds3B3q => Constellation::Bds,
            Code::Bds3B3x => Constellation::Bds,
            Code::GpsL1ci => Constellation::Gps,
            Code::GpsL1cq => Constellation::Gps,
            Code::GpsL1cx => Constellation::Gps,
            Code::AuxGps => Constellation::Gps,
            Code::AuxSbas => Constellation::Sbas,
            Code::AuxGal => Constellation::Gal,
            Code::AuxQzs => Constellation::Qzs,
            Code::AuxBds => Constellation::Bds,
        }
    }

    /// The human readable name of the code.
    pub open spec fn name(self) -> Seq<char> {
        match self {
            Code::GpsL1ca => seq!['G', 'P', 'S', ' ', 'L', '1', 'C', 'A'],
            Code::GpsL2cm => seq!['G', 'P', 'S', ' ', 'L', '2', 'C', 'M'],
            Code::SbasL1ca => seq!['S', 'B', 'A', 'S', ' ', 'L', '1'],
            Code::GloL1of => seq!['G', 'L', 'O', ' ', 'L', '1', 'O', 'F'],
            Code::GloL2of => seq!['G', 'L', 'O', ' ', 'L', '2', 'O', 'F'],
            Code::GpsL1p => seq!['G', 'P', 'S', ' ', 'L', '1', 'P'],
            Code::GpsL2p => seq!['G', 'P', 'S', ' ', 'L', '2', 'P'],
            Code::GpsL2cl => seq!['G', 'P', 'S', ' ', 'L', '2', 'C', 'L'],
            Code::GpsL2cx => seq!['G', 'P', 'S', ' ', 'L', '2', 'C'],
            Code::GpsL5i => seq!['G', 'P', 'S', ' ', 'L', '5', 'I'],
            Code::GpsL5q => seq!['G', 'P', 'S', ' ', 'L', '5', 'Q'],
            Code::GpsL5x => seq!['G', 'P', 'S', ' ', 'L', '5'],
            Code::Bds2B1 => seq!['B', 'D', 'S', ' ', 'B', '1'],
            Code::Bds2B2 => seq!['B', 'D', 'S', ' ', 'B', '2'],
            Code::GalE1b => seq!['G', 'A', 'L', ' ', 'E', '1', 'B'],
            Code::GalE1c => seq!['G', 'A', 'L', ' ', 'E', '1', 'C'],
            Code::GalE1x => seq!['G', 'A', 'L', ' ', 'E', '1'],
            Code::GalE6b => seq!['G', 'A', 'L', ' ', 'E', '6', 'B'],
            Code::GalE6c => seq!['G', 'A', 'L', ' ', 'E', '6', 'C'],
            Code::GalE6x => seq!['G', 'A', 'L', ' ', 'E', '6'],
            Code::GalE7i => seq!['G', 'A', 'L', ' ', 'E', '5', 'b', 'I'],
            Code::GalE7q => seq!['G', 'A', 'L', ' ', 'E', '5', 'b', 'Q'],
            Code::GalE7x => seq!['G', 'A', 'L', ' ', 'E', '5', 'b'],
            Code::GalE8i => seq!['G', 'A', 'L', ' ', 'E', '8', 'I'],
            Code::GalE8q => seq!['G', 'A', 'L', ' ', 'E', '8', 'Q'],
            Code::GalE8x => seq!['G', 'A', 'L', ' ', 'E', '8'],
            Code::GalE5i => seq!['G', 'A', 'L', ' ', 'E', '5', 'a', 'I'],
            Code::GalE5q => seq!['G', 'A', 'L', ' ', 'E', '5', 'a', 'Q'],
            Code::GalE5x => seq!['G', 'A', 'L', ' ', 'E', '5', 'a'],
            Code::GloL1p => seq!['G', 'L', 'O', ' ', 'L', '1', 'P'],
            Code::GloL2p => seq!['G', 'L', 'O', ' ', 'L', '2', 'P'],
            Code::QzsL1ca => seq!['Q', 'Z', 'S', ' ', 'L', '1', 'C', 'A'],
            Code::QzsL1ci => seq!['Q', 'Z', 'S', ' ', 'L', '1', 'C', 'I'],
            Code::QzsL1cq => seq!['Q', 'Z', 'S', ' ', 'L', '1', 'C', 'Q'],
            Code::QzsL1cx => seq!['Q', 'Z', 'S', ' ', 'L', '1', 'C', 'X'],
            Code::QzsL2cm => seq!['Q', 'Z', 'S', ' ', 'L', '2', 'C', 'M'],
            Code::QzsL2cl => seq!['Q', 'Z', 'S', ' ', 'L', '2', 'C', 'L'],
            Code::QzsL2cx => seq!['Q', 'Z', 'S', ' ', 'L', '2', 'C'],
            Code::QzsL5i => seq!['Q', 'Z', 'S', ' ', 'L', '5', 'I'],
            Code::QzsL5q => seq!['Q', 'Z', 'S', ' ', 'L', '5', 'Q'],
            Code::QzsL5x => seq!['Q', 'Z', 'S', ' ', 'L', '5'],
            Code::SbasL5i => seq!['S', 'B', 'A', 'S', ' ', 'L', '5', 'I'],
            Code::SbasL5q => seq!['S', 'B', 'A', 'S', ' ', 'L', '5', 'Q'],
            Code::SbasL5x => seq!['S', 'B', 'A', 'S', ' ', 'L', '5'],
            Code::Bds3B1ci => seq!['B', 'D', 'S', '3', ' ', 'B', '1', 'C', 'I'],
            Code::Bds3B1cq => seq!['B', 'D', 'S', '3', ' ', 'B', '1', 'C', 'Q'],
            Code::Bds3B1cx => seq!['B', 'D', 'S', '3', ' ', 'B', '1', 'C'],
            Code::Bds3B5i => seq!['B', 'D', 'S', '3', ' ', 'B', '5', 'I'],
            Code::Bds3B5q => seq!['B', 'D', 'S', '3', ' ', 'B', '5', 'Q'],
            Code::Bds3B5x => seq!['B', 'D', 'S', '3', ' ', 'B', '5'],
            Code::Bds3B7i => seq!['B', 'D', 'S', '3', ' ', 'B', '7', 'I'],
            Code::Bds3B7q => seq!['B', 'D', 'S', '3', ' ', 'B', '7', 'Q'],
            Code::Bds3B7x => seq!['B', 'D', 'S', '3', ' ', 'B', '7'],
            Code::Bds3B3i => seq!['B', 'D', 'S', '3', ' ', 'B', '3', 'I'],
            Code::Bds3B3q => seq!['B', 'D', 'S', '3', ' ', 'B', '3', 'Q'],
            Code::Bds3B3x => seq!['B', 'D', 'S', '3', ' ', 'B', '3'],
            Code::GpsL1ci => seq!['G', 'P', 'S', ' ', 'L', '1', 'C', 'I'],
            Code::GpsL1cq => seq!['G', 'P', 'S', ' ', 'L', '1', 'C', 'Q'],
            Code::GpsL1cx => seq!['G', 'P', 'S', ' ', 'L', '1', 'C'],
            Code::AuxGps => seq!['G', 'P', 'S', ' ', 'A', 'U', 'X'],
            Code::AuxSbas => seq!['S', 'B', 'A', 'S', ' ', 'A', 'U', 'X'],
            Code::AuxGal => seq!['G', 'A', 'L', ' ', 'A', 'U', 'X'],
            Code::AuxQzs => seq!['Q', 'Z', 'S', ' ', 'A', 'U', 'X'],
            Code::AuxBds => seq!['B', 'D', 'S', ' ', 'A', 'U', 'X'],
        }
    }

    /// The code that carries a name, if any.
    pub open spec fn from_name_spec(s: Seq<char>) -> Option<Code> {
        if s == Code::GpsL1ca.name() {
            Some(Code::GpsL1ca)
        } else if s == Code::GpsL2cm.name() {
            Some(Code::GpsL2cm)
        } else if s == Code::SbasL1ca.name() {
            Some(Code::SbasL1ca)
        } else if s == Code::GloL1of.name() {
            Some(Code::GloL1of)
        } else if s == Code::GloL2of.name() {
            Some(Code::GloL2of)
        } else if s == Code::GpsL1p.name() {
            Some(Code::GpsL1p)
        } else if s == Code::GpsL2p.name() {
            Some(Code::GpsL2p)
        } else if s == Code::GpsL2cl.name() {
            Some(Code::GpsL2cl)
        } else if s == Code::GpsL2cx.name() {
            Some(Code::GpsL2cx)
        } else if s == Code::GpsL5i.name() {
            Some(Code::GpsL5i)
        } else if s == Code::GpsL5q.name() {
            Some(Code::GpsL5q)
        } else if s == Code::GpsL5x.name() {
            Some(Code::GpsL5x)
        } else if s == Code::Bds2B1.name() {
            Some(Code::Bds2B1)
        } else if s == Code::Bds2B2.name() {
            Some(Code::Bds2B2)
        } else if s == Code::GalE1b.name() {
            Some(Code::GalE1b)
        } else if s == Code::GalE1c.name() {
            Some(Code::GalE1c)
        } else if s == Code::GalE1x.name() {
            Some(Code::GalE1x)
        } else if s == Code::GalE6b.name() {
            Some(Code::GalE6b)
        } else if s == Code::GalE6c.name() {
            Some(Code::GalE6c)
        } else if s == Code::GalE6x.name() {
            Some(Code::GalE6x)
        } else if s == Code::GalE7i.name() {
            Some(Code::GalE7i)
        } else if s == Code::GalE7q.name() {
            Some(Code::GalE7q)
        } else if s == Code::GalE7x.name() {
            Some(Code::GalE7x)
        } else if s == Code::GalE8i.name() {
            Some(Code::GalE8i)
        } else if s == Code::GalE8q.name() {
            Some(Code::GalE8q)
        } else if s == Code::GalE8x.name() {
            Some(Code::GalE8x)
        } else if s == Code::GalE5i.name() {
            Some(Code::GalE5i)
        } else if s == Code::GalE5q.name() {
            Some(Code::GalE5q)
        } else if s == Code::GalE5x.name() {
            Some(Code::GalE5x)
        } else if s == Code::GloL1p.name() {
            Some(Code::GloL1p)
        } else if s == Code::GloL2p.name() {
            Some(Code::GloL2p)
        } else if s == Code::QzsL1ca.name() {
            Some(Code::QzsL1ca)
        } else if s == Code::QzsL1ci.name() {
            Some(Code::QzsL1ci)
        } else if s == Code::QzsL1cq.name() {
            Some(Code::QzsL1cq)
        } else if s == Code::QzsL1cx.name() {
            Some(Code::QzsL1cx)
        } else if s == Code::QzsL2cm.name() {
            Some(Code::QzsL2cm)
        } else if s == Code::QzsL2cl.name() {
            Some(Code::QzsL2cl)
        } else if s == Code::QzsL2cx.name() {
            Some(Code::QzsL2cx)
        } else if s == Code::QzsL5i.name() {
            Some(Code::QzsL5i)
        } else if s == Code::QzsL5q.name() {
            Some(Code::QzsL5q)
        } else if s == Code::QzsL5x.name() {
            Some(Code::QzsL5x)
        } else if s == Code::SbasL5i.name() {
            Some(Code::SbasL5i)
        } else if s == Code::SbasL5q.name() {
            Some(Code::SbasL5q)
        } else if s == Code::SbasL5x.name() {
            Some(Code::SbasL5x)
        } else if s == Code::Bds3B1ci.name() {
            Some(Code::Bds3B1ci)
        } else if s == Code::Bds3B1cq.name() {
            Some(Code::Bds3B1cq)
        } else if s == Code::Bds3B1cx.name() {
            Some(Code::Bds3B1cx)
        } else if s == Code::Bds3B5i.name() {
            Some(Code::Bds3B5i)
        } else if s == Code::Bds3B5q.name() {
            Some(Code::Bds3B5q)
        } else if s == Code::Bds3B5x.name() {
            Some(Code::Bds3B5x)
        } else if s == Code::Bds3B7i.name() {
            Some(Code::Bds3B7i)
        } else if s == Code::Bds3B7q.name() {
            Some(Code::Bds3B7q)
        } else if s == Code::Bds3B7x.name() {
            Some(Code::Bds3B7x)
        } else if s == Code::Bds3B3i.name() {
            Some(Code::Bds3B3i)
        } else if s == Code::Bds3B3q.name() {
            Some(Code::Bds3B3q)
        } else if s == Code::Bds3B3x.name() {
            Some(Code::Bds3B3x)
        } else if s == Code::GpsL1ci.name() {
            Some(Code::GpsL1ci)
        } else if s == Code::GpsL1cq.name() {
            Some(Code::GpsL1cq)
        } else if s == Code::GpsL1cx.name() {
            Some(Code::GpsL1cx)
        } else if s == Code::AuxGps.name() {
            Some(Code::AuxGps)
        } else if s == Code::AuxSbas.name() {
            Some(Code::AuxSbas)
        } else if s == Code::AuxGal.name() {
            Some(Code::AuxGal)
        } else if s == Code::AuxQzs.name() {
            Some(Code::AuxQzs)
        } else if s == Code::AuxBds.name() {
            Some(Code::AuxBds)
        } else {
            None
        }
    }

    /// Gets the corresponding [`Constellation`]
    pub fn to_constellation(self) -> (c: Constellation)
        ensures
            c == self.constellation_spec(),
    {
        match self {
            Code::GpsL1ca
            | Code::GpsL2cm
            | Code::GpsL1p
            | Code::GpsL2p
            | Code::GpsL2cl
            | Code::GpsL2cx
            | Code::GpsL5i
            | Code::GpsL5q
            | Code::GpsL5x
            | Code::GpsL1ci
            | Code::GpsL1cq
            | Code::GpsL1cx
            | Code::AuxGps => Constellation::Gps,
            Code::SbasL1ca
            | Code::SbasL5i
            | Code::SbasL5q
            | Code::SbasL5x
            | Code::AuxSbas => Constellation::Sbas,
            Code::GloL1of
            | Code::GloL2of
            | Code::GloL1p
            | Code::GloL2p => Constellation::Glo,
            Code::Bds2B1
            | Code::Bds2B2
            | Code::Bds3B1ci
            | Code::Bds3B1cq
            | Code::Bds3B1cx
            | Code::Bds3B5i
            | Code::Bds3B5q
            | Code::Bds3B5x
            | Code::Bds3B7i
            | Code::Bds3B7q
            | Code::Bds3B7x
            | Code::Bds3B3i
            | Code::Bds3B3q
            | Code::Bds3B3x
            | Code::AuxBds => Constellation::Bds,
            Code::GalE1b
            | Code::GalE1c
            | Code::GalE1x
            | Code::GalE6b
            | Code::GalE6c
            | Code::GalE6x
            | Code::GalE7i
            | Code::GalE7q
            | Code::GalE7x
            | Code::GalE8i
            | Code::GalE8q
            | Code::GalE8x
            | Code::GalE5i
            | Code::GalE5q
            | Code::GalE5x
            | Code::AuxGal => Constellation::Gal,
            Code::QzsL1ca
            | Code::QzsL1ci
            | Code::QzsL1cq
            | Code::QzsL1cx
            | Code::QzsL2cm
            | Code::QzsL2cl
            | Code::QzsL2cx
            | Code::QzsL5i
            | Code::QzsL5q
            | Code::QzsL5x
            | Code::AuxQzs => Constellation::Qzs,
        }
    }

    /// Checks if this is a GPS code
    pub fn is_gps(self) -> (b: bool)
        ensures
            b == (self.constellation_spec() == Constellation::Gps),
    {
        self.to_constellation() == Constellation::Gps
    }

    /// Checks if this is a SBAS code
    pub fn is_sbas(self) -> (b: bool)
        ensures
            b == (self.constellation_spec() == Constellation::Sbas),
    {
        self.to_constellation() == Constellation::Sbas
    }

    /// Checks if this is a GLONASS code
    pub fn is_glo(self) -> (b: bool)
        ensures
            b == (self.constellation_spec() == Constellation::Glo),
    {
        self.to_constellation() == Constellation::Glo
    }

    /// Checks if this is a BeiDou code
    pub fn is_bds(self) -> (b: bool)
        ensures
            b == (self.constellation_spec() == Constellation::Bds),
    {
        self.to_constellation() == Constellation::Bds
    }

    /// Checks if this is a BeiDou code
    pub fn is_bds2(self) -> (b: bool)
        ensures
            b == (self.constellation_spec() == Constellation::Bds),
    {
        self.to_constellation() == Constellation::Bds
    }

    /// Checks if this is a Galileo code
    pub fn is_gal(self) -> (b: bool)
        ensures
            b == (self.constellation_spec() == Constellation::Gal),
    {
        self.to_constellation() == Constellation::Gal
    }

    /// Checks if this is a QZSS code
    pub fn is_qzss(self) -> (b: bool)
        ensures
            b == (self.constellation_spec() == Constellation::Qzs),
    {
        self.to_constellation() == Constellation::Qzs
    }

    /// The code with the given integer value (see [`Code::repr_value`]), if any.
    pub fn from_repr(value: u8) -> (c: Option<Code>)
        ensures
            c == Code::from_repr_spec(value as int),
    {
        match value {
            0 => Some(Code::GpsL1ca),
            1 => Some(Code::GpsL2cm),
            2 => Some(Code::SbasL1ca),
            3 => Some(Code::GloL1of),
            4 => Some(Code::GloL2of),
            5 => Some(Code::GpsL1p),
            6 => Some(Code::GpsL2p),
            7 => Some(Code::GpsL2cl),
            8 => Some(Code::GpsL2cx),
            9 => Some(Code::GpsL5i),
            10 => Some(Code::GpsL5q),
            11 => Some(Code::GpsL5x),
            12 => Some(Code::Bds2B1),
            13 => Some(Code::Bds2B2),
            14 => Some(Code::GalE1b),
            15 => Some(Code::GalE1c),
            16 => Some(Code::GalE1x),
            17 => Some(Code::GalE6b),
            18 => Some(Code::GalE6c),
            19 => Some(Code::GalE6x),
            20 => Some(Code::GalE7i),
            21 => Some(Code::GalE7q),
            22 => Some(Code::GalE7x),
            23 => Some(Code::GalE8i),
            24 => Some(Code::GalE8q),
            25 => Some(Code::GalE8x),
            26 => Some(Code::GalE5i),
            27 => Some(Code::GalE5q),
            28 => Some(Code::GalE5x),
            29 => Some(Code::GloL1p),
            30 => Some(Code::GloL2p),
            31 => Some(Code::QzsL1ca),
            32 => Some(Code::QzsL1ci),
            33 => Some(Code::QzsL1cq),
            34 => Some(Code::QzsL1cx),
            35 => Some(Code::QzsL2cm),
            36 => Some(Code::QzsL2cl),
            37 => Some(Code::QzsL2cx),
            38 => Some(Code::QzsL5i),
            39 => Some(Code::QzsL5q),
            40 => Some(Code::QzsL5x),
            41 => Some(Code::SbasL5i),
            42 => Some(Code::SbasL5q),
            43 => Some(Code::SbasL5x),
            44 => Some(Code::Bds3B1ci),
            45 => Some(Code::Bds3B1cq),
            46 => Some(Code::Bds3B1cx),
            47 => Some(Code::Bds3B5i),
            48 => Some(Code::Bds3B5q),
            49 => Some(Code::Bds3B5x),
            50 => Some(Code::Bds3B7i),
            51 => Some(Code::Bds3B7q),
            52 => Some(Code::Bds3B7x),
            53 => Some(Code::Bds3B3i),
            54 => Some(Code::Bds3B3q),
            55 => Some(Code::Bds3B3x),
            56 => Some(Code::GpsL1ci),
            57 => Some(Code::GpsL1cq),
            58 => Some(Code::GpsL1cx),
            59 => Some(Code::AuxGps),
            60 => Some(Code::AuxSbas),
            61 => Some(Code::AuxGal),
            62 => Some(Code::AuxQzs),
            63 => Some(Code::AuxBds),
            _ => None,
        }
    }

    /// The integer value of the code.
    pub fn to_u8(self) -> (v: u8)
        ensures
            v == self.repr_value(),
    {
        match self {
            Code::GpsL1ca => 0,
            Code::GpsL2cm => 1,
            Code::SbasL1ca => 2,
            Code::GloL1of => 3,
            Code::GloL2of => 4,
            Code::GpsL1p => 5,
            Code::GpsL2p => 6,
            Code::GpsL2cl => 7,
            Code::GpsL2cx => 8,
            Code::GpsL5i => 9,
            Code::GpsL5q => 10,
            Code::GpsL5x => 11,
            Code::Bds2B1 => 12,
            Code::Bds2B2 => 13,
            Code::GalE1b => 14,
            Code::GalE1c => 15,
            Code::GalE1x => 16,
            Code::GalE6b => 17,
            Code::GalE6c => 18,
            Code::GalE6x => 19,
            Code::GalE7i => 20,
            Code::GalE7q => 21,
            Code::GalE7x => 22,
            Code::GalE8i => 23,
            Code::GalE8q => 24,
            Code::GalE8x => 25,
            Code::GalE5i => 26,
            Code::GalE5q => 27,
            Code::GalE5x => 28,
            Code::GloL1p => 29,
            Code::GloL2p => 30,
            Code::QzsL1ca => 31,
            Code::QzsL1ci => 32,
            Code::QzsL1cq => 33,
            Code::QzsL1cx => 34,
            Code::QzsL2cm => 35,
            Code::QzsL2cl => 36,
            Code::QzsL2cx => 37,
            Code::QzsL5i => 38,
            Code::QzsL5q => 39,
            Code::QzsL5x => 40,
            Code::SbasL5i => 41,
            Code::SbasL5q => 42,
            Code::SbasL5x => 43,
            Code::Bds3B1ci => 44,
            Code::Bds3B1cq => 45,
            Code::Bds3B1cx => 46,
            Code::Bds3B5i => 47,
            Code::Bds3B5q => 48,
            Code::Bds3B5x => 49,
            Code::Bds3B7i => 50,
            Code::Bds3B7q => 51,
            Code::Bds3B7x => 52,
            Code::Bds3B3i => 53,
            Code::Bds3B3q => 54,
            Code::Bds3B3x => 55,
            Code::GpsL1ci => 56,
            Code::GpsL1cq => 57,
            Code::GpsL1cx => 58,
            Code::AuxGps => 59,
            Code::AuxSbas => 60,
            Code::AuxGal => 61,
            Code::AuxQzs => 62,
            Code::AuxBds => 63,
        }
    }

    /// Converts to the C library's `code_t` value.
    pub fn to_code_t(self) -> (v: i32)
        ensures
            v == self.repr_value(),
    {
        self.to_u8() as i32
    }

    /// Converts the C library's `code_t` value. The C enumeration numbers
    /// the codes as [`Code::repr_value`] does.
    pub fn from_code_t(value: i32) -> (r: Result<Code, InvalidCode>)
        ensures
            match Code::from_repr_spec(value as int) {
                Some(c) => r == Ok::<Code, InvalidCode>(c),
                None => r == Err::<Code, InvalidCode>(InvalidCode(value)),
            },
    {
        if 0 <= value && value < CODE_COUNT as i32 {
            Ok(Code::from_repr(value as u8).unwrap())
        } else {
            Err(InvalidCode(value))
        }
    }

    /// Get the human readable name of the code.
    pub fn to_str(&self) -> (s: &'static str)
        ensures
            s@ == self.name(),
    {
        match self {
            Code::GpsL1ca => {
                proof {
                    reveal_strlit("GPS L1CA");
                }
                "GPS L1CA"
            },
            Code::GpsL2cm => {
                proof {
                    reveal_strlit("GPS L2CM");
                }
                "GPS L2CM"
            },
            Code::SbasL1ca => {
                proof {
                    reveal_strlit("SBAS L1");
                }
                "SBAS L1"
            },
            Code::GloL1of => {
                proof {
                    reveal_strlit("GLO L1OF");
                }
                "GLO L1OF"
            },
            Code::GloL2of => {
                proof {
                    reveal_strlit("GLO L2OF");
                }
                "GLO L2OF"
            },
            Code::GpsL1p => {
                proof {
                    reveal_strlit("GPS L1P");
                }
                "GPS L1P"
            },
            Code::GpsL2p => {
                proof {
                    reveal_strlit("GPS L2P");
                }
                "GPS L2P"
            },
            Code::GpsL2cl => {
                proof {
                    reveal_strlit("GPS L2CL");
                }
                "GPS L2CL"
            },
            Code::GpsL2cx => {
                proof {
                    reveal_strlit("GPS L2C");
                }
                "GPS L2C"
            },
            Code::GpsL5i => {
                proof {
                    reveal_strlit("GPS L5I");
                }
                "GPS L5I"
            },
            Code::GpsL5q => {
                proof {
                    reveal_strlit("GPS L5Q");
                }
                "GPS L5Q"
            },
            Code::GpsL5x => {
                proof {
                    reveal_strlit("GPS L5");
                }
                "GPS L5"
            },
            Code::Bds2B1 => {
                proof {
                    reveal_strlit("BDS B1");
                }
                "BDS B1"
            },
            Code::Bds2B2 => {
                proof {
                    reveal_strlit("BDS B2");
                }
                "BDS B2"
            },
            Code::GalE1b => {
                proof {
                    reveal_strlit("GAL E1B");
                }
                "GAL E1B"
            },
            Code::GalE1c => {
                proof {
                    reveal_strlit("GAL E1C");
                }
                "GAL E1C"
            },
            Code::GalE1x => {
                proof {
                    reveal_strlit("GAL E1");
                }
                "GAL E1"
            },
            Code::GalE6b => {
                proof {
                    reveal_strlit("GAL E6B");
                }
                "GAL E6B"
            },
            Code::GalE6c => {
                proof {
                    reveal_strlit("GAL E6C");
                }
                "GAL E6C"
            },
            Code::GalE6x => {
                proof {
                    reveal_strlit("GAL E6");
                }
                "GAL E6"
            },
            Code::GalE7i => {
                proof {
                    reveal_strlit("GAL E5bI");
                }
                "GAL E5bI"
            },
            Code::GalE7q => {
                proof {
                    reveal_strlit("GAL E5bQ");
                }
                "GAL E5bQ"
            },
            Code::GalE7x => {
                proof {
                    reveal_strlit("GAL E5b");
                }
                "GAL E5b"
            },
            Code::GalE8i => {
                proof {
                    reveal_strlit("GAL E8I");
                }
                "GAL E8I"
            },
            Code::GalE8q => {
                proof {
                    reveal_strlit("GAL E8Q");
                }
                "GAL E8Q"
            },
            Code::GalE8x => {
                proof {
                    reveal_strlit("GAL E8");
                }
                "GAL E8"
            },
            Code::GalE5i => {
                proof {
                    reveal_strlit("GAL E5aI");
                }
                "GAL E5aI"
            },
            Code::GalE5q => {
                proof {
                    reveal_strlit("GAL E5aQ");
                }
                "GAL E5aQ"
            },
            Code::GalE5x => {
                proof {
                    reveal_strlit("GAL E5a");
                }
                "GAL E5a"
            },
            Code::GloL1p => {
                proof {
                    reveal_strlit("GLO L1P");
                }
                "GLO L1P"
            },
            Code::GloL2p => {
                proof {
                    reveal_strlit("GLO L2P");
                }
                "GLO L2P"
            },
            Code::QzsL1ca => {
                proof {
                    reveal_strlit("QZS L1CA");
                }
                "QZS L1CA"
            },
            Code::QzsL1ci => {
                proof {
                    reveal_strlit("QZS L1CI");
                }
                "QZS L1CI"
            },
            Code::QzsL1cq => {
                proof {
                    reveal_strlit("QZS L1CQ");
                }
                "QZS L1CQ"
            },
            Code::QzsL1cx => {
                proof {
                    reveal_strlit("QZS L1CX");
                }
                "QZS L1CX"
            },
            Code::QzsL2cm => {
                proof {
                    reveal_strlit("QZS L2CM");
                }
                "QZS L2CM"
            },
            Code::QzsL2cl => {
                proof {
                    reveal_strlit("QZS L2CL");
                }
                "QZS L2CL"
            },
            Code::QzsL2cx => {
                proof {
                    reveal_strlit("QZS L2C");
                }
                "QZS L2C"
            },
            Code::QzsL5i => {
                proof {
                    reveal_strlit("QZS L5I");
                }
                "QZS L5I"
            },
            Code::QzsL5q => {
                proof {
                    reveal_strlit("QZS L5Q");
                }
                "QZS L5Q"
            },
            Code::QzsL5x => {
                proof {
                    reveal_strlit("QZS L5");
                }
                "QZS L5"
            },
            Code::SbasL5i => {
                proof {
                    reveal_strlit("SBAS L5I");
                }
                "SBAS L5I"
            },
            Code::SbasL5q => {
                proof {
                    reveal_strlit("SBAS L5Q");
                }
                "SBAS L5Q"
            },
            Code::SbasL5x => {
                proof {
                    reveal_strlit("SBAS L5");
                }
                "SBAS L5"
            },
            Code::Bds3B1ci => {
                proof {
                    reveal_strlit("BDS3 B1CI");
                }
                "BDS3 B1CI"
            },
            Code::Bds3B1cq => {
                proof {
                    reveal_strlit("BDS3 B1CQ");
                }
                "BDS3 B1CQ"
            },
            Code::Bds3B1cx => {
                proof {
                    reveal_strlit("BDS3 B1C");
                }
                "BDS3 B1C"
            },
            Code::Bds3B5i => {
                proof {
                    reveal_strlit("BDS3 B5I");
                }
                "BDS3 B5I"
            },
            Code::Bds3B5q => {
                proof {
                    reveal_strlit("BDS3 B5Q");
                }
                "BDS3 B5Q"
            },
            Code::Bds3B5x => {
                proof {
                    reveal_strlit("BDS3 B5");
                }
                "BDS3 B5"
            },
            Code::Bds3B7i => {
                proof {
                    reveal_strlit("BDS3 B7I");
                }
                "BDS3 B7I"
            },
            Code::Bds3B7q => {
                proof {
                    reveal_strlit("BDS3 B7Q");
                }
                "BDS3 B7Q"
            },
            Code::Bds3B7x => {
                proof {
                    reveal_strlit("BDS3 B7");
                }
                "BDS3 B7"
            },
            Code::Bds3B3i => {
                proof {
                    reveal_strlit("BDS3 B3I");
                }
                "BDS3 B3I"
            },
            Code::Bds3B3q => {
                proof {
                    reveal_strlit("BDS3 B3Q");
                }
                "BDS3 B3Q"
            },
            Code::Bds3B3x => {
                proof {
                    reveal_strlit("BDS3 B3");
                }
                "BDS3 B3"
            },
            Code::GpsL1ci => {
                proof {
                    reveal_strlit("GPS L1CI");
                }
                "GPS L1CI"
            },
            Code::GpsL1cq => {
                proof {
                    reveal_strlit("GPS L1CQ");
                }
                "GPS L1CQ"
            },
            Code::GpsL1cx => {
                proof {
                    reveal_strlit("GPS L1C");
                }
                "GPS L1C"
            },
            Code::AuxGps => {
                proof {
                    reveal_strlit("GPS AUX");
                }
                "GPS AUX"
            },
            Code::AuxSbas => {
                proof {
                    reveal_strlit("SBAS AUX");
                }
                "SBAS AUX"
            },
            Code::AuxGal => {
                proof {
                    reveal_strlit("GAL AUX");
                }
                "GAL AUX"
            },
            Code::AuxQzs => {
                proof {
                    reveal_strlit("QZS AUX");
                }
                "QZS AUX"
            },
            Code::AuxBds => {
                proof {
                    reveal_strlit("BDS AUX");
                }
                "BDS AUX"
            },
        }
    }

    /// The code's name as an owned string, as it is displayed.
    pub fn to_string(&self) -> (s: String)
        ensures
            s@ == self.name(),
    {
        String::from_str(self.to_str())
    }

    /// Parses the human readable name of a code, as [`Code::to_str`] writes it.
    pub fn from_name(s: &str) -> (r: Result<Code, strum::ParseError>)
        ensures
            r is Ok <==> Code::from_name_spec(s@) is Some,
            r matches Ok(c) ==> Code::from_name_spec(s@) == Some(c),
    {
        let mut i: u8 = 0;
        while i < CODE_COUNT
            invariant
                i <= CODE_COUNT,
                forall|j: int| 0 <= j < i ==> Code::from_repr_spec(j).unwrap().name() != s@,
            decreases CODE_COUNT - i,
        {
            let c = Code::from_repr(i).unwrap();
            if str_matches(s, c.to_str()) {
                proof {
                    lemma_code_name_round_trip(c);
                }
                return Ok(c);
            }
            i = i + 1;
        }
        proof {
            assert forall|c: Code| c.name() != s@ by {
                lemma_code_repr_round_trip(c);
                assert(Code::from_repr_spec(c.repr_value() as int).unwrap().name() != s@);
            }
        }
        Err(variant_not_found())
    }

    /// All codes, in declaration order.
    pub fn iter() -> (all: Vec<Code>)
        ensures
            all@.len() == CODE_COUNT,
            forall|i: int| 0 <= i < all@.len() ==> Some(#[trigger] all@[i]) == Code::from_repr_spec(i),
    {
        let mut all: Vec<Code> = Vec::new();
        let mut i: u8 = 0;
        while i < CODE_COUNT
            invariant
                i <= CODE_COUNT,
                all@.len() == i,
                forall|j: int| 0 <= j < i ==> Some(#[trigger] all@[j]) == Code::from_repr_spec(j),
            decreases CODE_COUNT - i,
        {
            all.push(Code::from_repr(i).unwrap());
            i = i + 1;
        }
        all
    }
}

/// An error encountered when converting an integer into a [`Code`]
/// and no code is associated with the given value
#[derive(Debug, Copy, Clone, Ord, PartialOrd, Eq, PartialEq, Structural, Hash)]
pub struct InvalidCodeInt(pub u8);

/// An error encountered when converting a C library code value into a
/// [`Code`] and the value names no code
#[derive(Debug, Copy, Clone, Ord, PartialOrd, Eq, PartialEq, Structural, Hash)]
pub struct InvalidCode(pub i32);

impl core::convert::TryFrom<u8> for Code {
    type Error = InvalidCodeInt;

    fn try_from(value: u8) -> (r: Result<Code, InvalidCodeInt>) {
        match Code::from_repr(value) {
            Some(c) => Ok(c),
            None => Err(InvalidCodeInt(value)),
        }
    }
}

impl vstd::std_specs::convert::TryFromSpecImpl<u8> for Code {
    open spec fn obeys_try_from_spec() -> bool {
        true
    }

    open spec fn try_from_spec(v: u8) -> Result<Code, InvalidCodeInt> {
        match Code::from_repr_spec(v as int) {
            Some(c) => Ok(c),
            None => Err(InvalidCodeInt(v)),
        }
    }
}

impl core::str::FromStr for Code {
    type Err = strum::ParseError;

    fn from_str(s: &str) -> (r: Result<Code, strum::ParseError>)
        ensures
            r is Ok <==> Code::from_name_spec(s@) is Some,
            r matches Ok(c) ==> Code::from_name_spec(s@) == Some(c),
    {
        Code::from_name(s)
    }
}

/// Converting a code to its integer value and back gives it back, and
/// every integer below [`CODE_COUNT`] names a code.
pub proof fn lemma_code_repr_round_trip(c: Code)
    ensures
        Code::from_repr_spec(c.repr_value() as int) == Some(c),
        c.repr_value() < CODE_COUNT,
{
}

/// Parsing a code's name gives the code back; no two codes share a name.
pub proof fn lemma_code_name_round_trip(c: Code)
    ensures
        Code::from_name_spec(c.name()) == Some(c),
{
    match c {
        Code::GpsL1ca => {},
        Code::GpsL2cm => {
            assert(Code::GpsL2cm.name()[5] != Code::GpsL1ca.name()[5]);
        },
        Code::SbasL1ca => {
            assert(Code::SbasL1ca.name().len() != Code::GpsL1ca.name().len());
            assert(Code::SbasL1ca.name().len() != Code::GpsL2cm.name().len());
        },
        Code::GloL1of => {
            assert(Code::GloL1of.name()[1] != Code::GpsL1ca.name()[1]);
            assert(Code::GloL1of.name()[1] != Code::GpsL2cm.name()[1]);
            assert(Code::GloL1of.name().len() != Code::SbasL1ca.name().len());
        },
        Code::GloL2of => {
            assert(Code::GloL2of.name()[1] != Code::GpsL1ca.name()[1]);
            assert(Code::GloL2of.name()[1] != Code::GpsL2cm.name()[1]);
            assert(Code::GloL2of.name().len() != Code::SbasL1ca.name().len());
            assert(Code::GloL2of.name()[5] != Code::GloL1of.name()[5]);
        },
        Code::GpsL1p => {
            assert(Code::GpsL1p.name().len() != Code::GpsL1ca.name().len());
            assert(Code::GpsL1p.name().len() != Code::GpsL2cm.name().len());
            assert(Code::GpsL1p.name()[0] != Code::SbasL1ca.name()[0]);
            assert(Code::GpsL1p.name().len() != Code::GloL1of.name().len());
            assert(Code::GpsL1p.name().len() != Code::GloL2of.name().len());
        },
        Code::GpsL2p => {
            assert(Code::GpsL2p.name().len() != Code::GpsL1ca.name().len());
            assert(Code::GpsL2p.name().len() != Code::GpsL2cm.name().len());
            assert(Code::GpsL2p.name()[0] != Code::SbasL1ca.name()[0]);
            assert(Code::GpsL2p.name().len() != Code::GloL1of.name().len());
            assert(Code::GpsL2p.name().len() != Code::GloL2of.name().len());
            assert(Code::GpsL2p.name()[5] != Code::GpsL1p.name()[5]);
        },
        Code::GpsL2cl => {
            assert(Code::GpsL2cl.name()[5] != Code::GpsL1ca.name()[5]);
            assert(Code::GpsL2cl.name()[7] != Code::GpsL2cm.name()[7]);
            assert(Code::GpsL2cl.name().len() != Code::SbasL1ca.name().len());
            assert(Code::GpsL2cl.name()[1] != Code::GloL1of.name()[1]);
            assert(Code::GpsL2cl.name()[1] != Code::GloL2of.name()[1]);
            assert(Code::GpsL2cl.name().len() != Code::GpsL1p.name().len());
            assert(Code::GpsL2cl.name().len() != Code::GpsL2p.name().len());
        },
        Code::GpsL2cx => {
            assert(Code::GpsL2cx.name().len() != Code::GpsL1ca.name().len());
            assert(Code::GpsL2cx.name().len() != Code::GpsL2cm.name().len());
            assert(Code::GpsL2cx.name()[0] != Code::SbasL1ca.name()[0]);
            assert(Code::GpsL2cx.name().len() != Code::GloL1of.name().len());
            assert(Code::GpsL2cx.name().len() != Code::GloL2of.name().len());
            assert(Code::GpsL2cx.name()[5] != Code::GpsL1p.name()[5]);
            assert(Code::GpsL2cx.name()[6] != Code::GpsL2p.name()[6]);
            assert(Code::GpsL2cx.name().len() != Code::GpsL2cl.name().len());
        },
        Code::GpsL5i => {
            assert(Code::GpsL5i.name().len() != Code::GpsL1ca.name().len());
            assert(Code::GpsL5i.name().len() != Code::GpsL2cm.name().len());
            assert(Code::GpsL5i.name()[0] != Code::SbasL1ca.name()[0]);
            assert(Code::GpsL5i.name().len() != Code::GloL1of.name().len());
            assert(Code::GpsL5i.name().len() != Code::GloL2of.name().len());
            assert(Code::GpsL5i.name()[5] != Code::GpsL1p.name()[5]);
            assert(Code::GpsL5i.name()[5] != Code::GpsL2p.name()[5]);
            assert(Code::GpsL5i.name().len() != Code::GpsL2cl.name().len());
            assert(Code::GpsL5i.name()[5] != Code::GpsL2cx.name()[5]);
        },
        Code::GpsL5q => {
            assert(Code::GpsL5q.name().len() != Code::GpsL1ca.name().len());
            assert(Code::GpsL5q.name().len() != Code::GpsL2cm.name().len());
            assert(Code::GpsL5q.name()[0] != Code::SbasL1ca.name()[0]);
            assert(Code::GpsL5q.name().len() != Code::GloL1of.name().len());
            assert(Code::GpsL5q.name().len() != Code::GloL2of.name().len());
            assert(Code::GpsL5q.name()[5] != Code::GpsL1p.name()[5]);
            assert(Code::GpsL5q.name()[5] != Code::GpsL2p.name()[5]);
            assert(Code::GpsL5q.name().len() != Code::GpsL2cl.name().len());
            assert(Code::GpsL5q.name()[5] != Code::GpsL2cx.name()[5]);
            assert(Code::GpsL5q.name()[6] != Code::GpsL5i.name()[6]);
        },
        Code::GpsL5x => {
            assert(Code::GpsL5x.name().len() != Code::GpsL1ca.name().len());
            assert(Code::GpsL5x.name().len() != Code::GpsL2cm.name().len());
            assert(Code::GpsL5x.name().len() != Code::SbasL1ca.name().len());
            assert(Code::GpsL5x.name().len() != Code::GloL1of.name().len());
            assert(Code::GpsL5x.name().len() != Code::GloL2of.name().len());
            assert(Code::GpsL5x.name().len() != Code::GpsL1p.name().len());
            assert(Code::GpsL5x.name().len() != Code::GpsL2p.name().len());
            assert(Code::GpsL5x.name().len() != Code::GpsL2cl.name().len());
            assert(Code::GpsL5x.name().len() != Code::GpsL2cx.name().len());
            assert(Code::GpsL5x.name().len() != Code::GpsL5i.name().len());
            assert(Code::GpsL5x.name().len() != Code::GpsL5q.name().len());
        },
        Code::Bds2B1 => {
            assert(Code::Bds2B1.name().len() != Code::GpsL1ca.name().len());
            assert(Code::Bds2B1.name().len() != Code::GpsL2cm.name().len());
            assert(Code::Bds2B1.name().len() != Code::SbasL1ca.name().len());
            assert(Code::Bds2B1.name().len() != Code::GloL1of.name().len());
            assert(Code::Bds2B1.name().len() != Code::GloL2of.name().len());
            assert(Code::Bds2B1.name().len() != Code::GpsL1p.name().len());
            assert(Code::Bds2B1.name().len() != Code::GpsL2p.name().len());
            assert(Code::Bds2B1.name().len() != Code::GpsL2cl.name().len());
            assert(Code::Bds2B1.name().len() != Code::GpsL2cx.name().len());
            assert(Code::Bds2B1.name().len() != Code::GpsL5i.name().len());
            assert(Code::Bds2B1.name().len() != Code::GpsL5q.name().len());
            assert(Code::Bds2B1.name()[0] != Code::GpsL5x.name()[0]);
        },
        Code::Bds2B2 => {
            assert(Code::Bds2B2.name().len() != Code::GpsL1ca.name().len());
            assert(Code::Bds2B2.name().len() != Code::GpsL2cm.name().len());
            assert(Code::Bds2B2.name().len() != Code::SbasL1ca.name().len());
            assert(Code::Bds2B2.name().len() != Code::GloL1of.name().len());
            assert(Code::Bds2B2.name().len() != Code::GloL2of.name().len());
            assert(Code::Bds2B2.name().len() != Code::GpsL1p.name().len());
            assert(Code::Bds2B2.name().len() != Code::GpsL2p.name().len());
            assert(Code::Bds2B2.name().len() != Code::GpsL2cl.name().len());
            assert(Code::Bds2B2.name().len() != Code::GpsL2cx.name().len());
            assert(Code::Bds2B2.name().len() != Code::GpsL5i.name().len());
            assert(Code::Bds2B2.name().len() != Code::GpsL5q.name().len());
            assert(Code::Bds2B2.name()[0] != Code::GpsL5x.name()[0]);
            assert(Code::Bds2B2.name()[5] != Code::Bds2B1.name()[5]);
        },
        Code::GalE1b => {
            assert(Code::GalE1b.name().len() != Code::GpsL1ca.name().len());
            assert(Code::GalE1b.name().len() != Code::GpsL2cm.name().len());
            assert(Code::GalE1b.name()[0] != Code::SbasL1ca.name()[0]);
            assert(Code::GalE1b.name().len() != Code::GloL1of.name().len());
            assert(Code::GalE1b.name().len() != Code::GloL2of.name().len());
            assert(Code::GalE1b.name()[1] != Code::GpsL1p.name()[1]);
            assert(Code::GalE1b.name()[1] != Code::GpsL2p.name()[1]);
            assert(Code::GalE1b.name().len() != Code::GpsL2cl.name().len());
            assert(Code::GalE1b.name()[1] != Code::GpsL2cx.name()[1]);
            assert(Code::GalE1b.name()[1] != Code::GpsL5i.name()[1]);
            assert(Code::GalE1b.name()[1] != Code::GpsL5q.name()[1]);
            assert(Code::GalE1b.name().len() != Code::GpsL5x.name().len());
            assert(Code::GalE1b.name().len() != Code::Bds2B1.name().len());
            assert(Code::GalE1b.name().len() != Code::Bds2B2.name().len());
        },
        Code::GalE1c => {
            assert(Code::GalE1c.name().len() != Code::GpsL1ca.name().len());
            assert(Code::GalE1c.name().len() != Code::GpsL2cm.name().len());
            assert(Code::GalE1c.name()[0] != Code::SbasL1ca.name()[0]);
            assert(Code::GalE1c.name().len() != Code::GloL1of.name().len());
            assert(Code::GalE1c.name().len() != Code::GloL2of.name().len());
            assert(Code::GalE1c.name()[1] != Code::GpsL1p.name()[1]);
            assert(Code::GalE1c.name()[1] != Code::GpsL2p.name()[1]);
            assert(Code::GalE1c.name().len() != Code::GpsL2cl.name().len());
            assert(Code::GalE1c.name()[1] != Code::GpsL2cx.name()[1]);
            assert(Code::GalE1c.name()[1] != Code::GpsL5i.name()[1]);
            assert(Code::GalE1c.name()[1] != Code::GpsL5q.name()[1]);
            assert(Code::GalE1c.name().len() != Code::GpsL5x.name().len());
            assert(Code::GalE1c.name().len() != Code::Bds2B1.name().len());
            assert(Code::GalE1c.name().len() != Code::Bds2B2.name().len());
            assert(Code::GalE1c.name()[6] != Code::GalE1b.name()[6]);
        },
        Code::GalE1x => {
            assert(Code::GalE1x.name().len() != Code::GpsL1ca.name().len());
            assert(Code::GalE1x.name().len() != Code::GpsL2cm.name().len());
            assert(Code::GalE1x.name().len() != Code::SbasL1ca.name().len());
            assert(Code::GalE1x.name().len() != Code::GloL1of.name().len());
            assert(Code::GalE1x.name().len() != Code::GloL2of.name().len());
            assert(Code::GalE1x.name().len() != Code::GpsL1p.name().len());
            assert(Code::GalE1x.name().len() != Code::GpsL2p.name().len());
            assert(Code::GalE1x.name().len() != Code::GpsL2cl.name().len());
            assert(Code::GalE1x.name().len() != Code::GpsL2cx.name().len());
            assert(Code::GalE1x.name().len() != Code::GpsL5i.name().len());
            assert(Code::GalE1x.name().len() != Code::GpsL5q.name().len());
            assert(Code::GalE1x.name()[1] != Code::GpsL5x.name()[1]);
            assert(Code::GalE1x.name()[0] != Code::Bds2B1.name()[0]);
            assert(Code::GalE1x.name()[0] != Code::Bds2B2.name()[0]);
            assert(Code::GalE1x.name().len() != Code::GalE1b.name().len());
            assert(Code::GalE1x.name().len() != Code::GalE1c.name().len());
        },
        Code::GalE6b => {
            assert(Code::GalE6b.name().len() != Code::GpsL1ca.name().len());
            assert(Code::GalE6b.name().len() != Code::GpsL2cm.name().len());
            assert(Code::GalE6b.name()[0] != Code::SbasL1ca.name()[0]);
            assert(Code::GalE6b.name().len() != Code::GloL1of.name().len());
            assert(Code::GalE6b.name().len() != Code::GloL2of.name().len());
            assert(Code::GalE6b.name()[1] != Code::GpsL1p.name()[1]);
            assert(Code::GalE6b.name()[1] != Code::GpsL2p.name()[1]);
            assert(Code::GalE6b.name().len() != Code::GpsL2cl.name().len());
            assert(Code::GalE6b.name()[1] != Code::GpsL2cx.name()[1]);
            assert(Code::GalE6b.name()[1] != Code::GpsL5i.name()[1]);
            assert(Code::GalE6b.name()[1] != Code::GpsL5q.name()[1]);
            assert(Code::GalE6b.name().len() != Code::GpsL5x.name().len());
            assert(Code::GalE6b.name().len() != Code::Bds2B1.name().len());
            assert(Code::GalE6b.name().len() != Code::Bds2B2.name().len());
            assert(Code::GalE6b.name()[5] != Code::GalE1b.name()[5]);
            assert(Code::GalE6b.name()[5] != Code::GalE1c.name()[5]);
            assert(Code::GalE6b.name().len() != Code::GalE1x.name().len());
        },
        Code::GalE6c => {
            assert(Code::GalE6c.name().len() != Code::GpsL1ca.name().len());
            assert(Code::GalE6c.name().len() != Code::GpsL2cm.name().len());
            assert(Code::GalE6c.name()[0] != Code::SbasL1ca.name()[0]);
            assert(Code::GalE6c.name().len() != Code::GloL1of.name().len());
            assert(Code::GalE6c.name().len() != Code::GloL2of.name().len());
            assert(Code::GalE6c.name()[1] != Code::GpsL1p.name()[1]);
            assert(Code::GalE6c.name()[1] != Code::GpsL2p.name()[1]);
            assert(Code::GalE6c.name().len() != Code::GpsL2cl.name().len());
            assert(Code::GalE6c.name()[1] != Code::GpsL2cx.name()[1]);
            assert(Code::GalE6c.name()[1] != Code::GpsL5i.name()[1]);
            assert(Code::GalE6c.name()[1] != Code::GpsL5q.name()[1]);
            assert(Code::GalE6c.name().len() != Code::GpsL5x.name().len());
            assert(Code::GalE6c.name().len() != Code::Bds2B1.name().len());
            assert(Code::GalE6c.name().len() != Code::Bds2B2.name().len());
            assert(Code::GalE6c.name()[5] != Code::GalE1b.name()[5]);
            assert(Code::GalE6c.name()[5] != Code::GalE1c.name()[5]);
            assert(Code::GalE6c.name().len() != Code::GalE1x.name().len());
            assert(Code::GalE6c.name()[6] != Code::GalE6b.name()[6]);
        },
        Code::GalE6x => {
            assert(Code::GalE6x.name().len() != Code::GpsL1ca.name().len());
            assert(Code::GalE6x.name().len() != Code::GpsL2cm.name().len());
            assert(Code::GalE6x.name().len() != Code::SbasL1ca.name().len());
            assert(Code::GalE6x.name().len() != Code::GloL1of.name().len());
            assert(Code::GalE6x.name().len() != Code::GloL2of.name().len());
            assert(Code::GalE6x.name().len() != Code::GpsL1p.name().len());
            assert(Code::GalE6x.name().len() != Code::GpsL2p.name().len());
            assert(Code::GalE6x.name().len() != Code::GpsL2cl.name().len());
            assert(Code::GalE6x.name().len() != Code::GpsL2cx.name().len());
            assert(Code::GalE6x.name().len() != Code::GpsL5i.name().len());
            assert(Code::GalE6x.name().len() != Code::GpsL5q.name().len());
            assert(Code::GalE6x.name()[1] != Code::GpsL5x.name()[1]);
            assert(Code::GalE6x.name()[0] != Code::Bds2B1.name()[0]);
            assert(Code::GalE6x.name()[0] != Code::Bds2B2.name()[0]);
            assert(Code::GalE6x.name().len() != Code::GalE1b.name().len());
            assert(Code::GalE6x.name().len() != Code::GalE1c.name().len());
            assert(Code::GalE6x.name()[5] != Code::GalE1x.name()[5]);
            assert(Code::GalE6x.name().len() != Code::GalE6b.name().len());
            assert(Code::GalE6x.name().len() != Code::GalE6c.name().len());
        },
        Code::GalE7i => {
            assert(Code::GalE7i.name()[1] != Code::GpsL1ca.name()[1]);
            assert(Code::GalE7i.name()[1] != Code::GpsL2cm.name()[1]);
            assert(Code::GalE7i.name().len() != Code::SbasL1ca.name().len());
            assert(Code::GalE7i.name()[1] != Code::GloL1of.name()[1]);
            assert(Code::GalE7i.name()[1] != Code::GloL2of.name()[1]);
            assert(Code::GalE7i.name().len() != Code::GpsL1p.name().len());
            assert(Code::GalE7i.name().len() != Code::GpsL2p.name().len());
            assert(Code::GalE7i.name()[1] != Code::GpsL2cl.name()[1]);
            assert(Code::GalE7i.name().len() != Code::GpsL2cx.name().len());
            assert(Code::GalE7i.name().len() != Code::GpsL5i.name().len());
            assert(Code::GalE7i.name().len() != Code::GpsL5q.name().len());
            assert(Code::GalE7i.name().len() != Code::GpsL5x.name().len());
            assert(Code::GalE7i.name().len() != Code::Bds2B1.name().len());
            assert(Code::GalE7i.name().len() != Code::Bds2B2.name().len());
            assert(Code::GalE7i.name().len() != Code::GalE1b.name().len());
            assert(Code::GalE7i.name().len() != Code::GalE1c.name().len());
            assert(Code::GalE7i.name().len() != Code::GalE1x.name().len());
            assert(Code::GalE7i.name().len() != Code::GalE6b.name().len());
            assert(Code::GalE7i.name().len() != Code::GalE6c.name().len());
            assert(Code::GalE7i.name().len() != Code::GalE6x.name().len());
        },
        Code::GalE7q => {
            assert(Code::GalE7q.name()[1] != Code::GpsL1ca.name()[1]);
            assert(Code::GalE7q.name()[1] != Code::GpsL2cm.name()[1]);
            assert(Code::GalE7q.name().len() != Code::SbasL1ca.name().len());
            assert(Code::GalE7q.name()[1] != Code::GloL1of.name()[1]);
            assert(Code::GalE7q.name()[1] != Code::GloL2of.name()[1]);
            assert(Code::GalE7q.name().len() != Code::GpsL1p.name().len());
            assert(Code::GalE7q.name().len() != Code::GpsL2p.name().len());
            assert(Code::GalE7q.name()[1] != Code::GpsL2cl.name()[1]);
            assert(Code::GalE7q.name().len() != Code::GpsL2cx.name().len());
            assert(Code::GalE7q.name().len() != Code::GpsL5i.name().len());
            assert(Code::GalE7q.name().len() != Code::GpsL5q.name().len());
            assert(Code::GalE7q.name().len() != Code::GpsL5x.name().len());
            assert(Code::GalE7q.name().len() != Code::Bds2B1.name().len());
            assert(Code::GalE7q.name().len() != Code::Bds2B2.name().len());
            assert(Code::GalE7q.name().len() != Code::GalE1b.name().len());
            assert(Code::GalE7q.name().len() != Code::GalE1c.name().len());
            assert(Code::GalE7q.name().len() != Code::GalE1x.name().len());
            assert(Code::GalE7q.name().len() != Code::GalE6b.name().len());
            assert(Code::GalE7q.name().len() != Code::GalE6c.name().len());
            assert(Code::GalE7q.name().len() != Code::GalE6x.name().len());
            assert(Code::GalE7q.name()[7] != Code::GalE7i.name()[7]);
        },
        Code::GalE7x => {
            assert(Code::GalE7x.name().len() != Code::GpsL1ca.name().len());
            assert(Code::GalE7x.name().len() != Code::GpsL2cm.name().len());
            assert(Code::GalE7x.name()[0] != Code::SbasL1ca.name()[0]);
            assert(Code::GalE7x.name().len() != Code::GloL1of.name().len());
            assert(Code::GalE7x.name().len() != Code::GloL2of.name().len());
            assert(Code::GalE7x.name()[1] != Code::GpsL1p.name()[1]);
            assert(Code::GalE7x.name()[1] != Code::GpsL2p.name()[1]);
            assert(Code::GalE7x.name().len() != Code::GpsL2cl.name().len());
            assert(Code::GalE7x.name()[1] != Code::GpsL2cx.name()[1]);
            assert(Code::GalE7x.name()[1] != Code::GpsL5i.name()[1]);
            assert(Code::GalE7x.name()[1] != Code::GpsL5q.name()[1]);
            assert(Code::GalE7x.name().len() != Code::GpsL5x.name().len());
            assert(Code::GalE7x.name().len() != Code::Bds2B1.name().len());
            assert(Code::GalE7x.name().len() != Code::Bds2B2.name().len());
            assert(Code::GalE7x.name()[5] != Code::GalE1b.name()[5]);
            assert(Code::GalE7x.name()[5] != Code::GalE1c.name()[5]);
            assert(Code::GalE7x.name().len() != Code::GalE1x.name().len());
            assert(Code::GalE7x.name()[5] != Code::GalE6b.name()[5]);
            assert(Code::GalE7x.name()[5] != Code::GalE6c.name()[5]);
            assert(Code::GalE7x.name().len() != Code::GalE6x.name().len());
            assert(Code::GalE7x.name().len() != Code::GalE7i.name().len());
            assert(Code::GalE7x.name().len() != Code::GalE7q.name().len());
        },
        Code::GalE8i => {
            assert(Code::GalE8i.name().len() != Code::GpsL1ca.name().len());
            assert(Code::GalE8i.name().len() != Code::GpsL2cm.name().len());
            assert(Code::GalE8i.name()[0] != Code::SbasL1ca.name()[0]);
            assert(Code::GalE8i.name().len() != Code::GloL1of.name().len());
            assert(Code::GalE8i.name().len() != Code::GloL2of.name().len());
            assert(Code::GalE8i.name()[1] != Code::GpsL1p.name()[1]);
            assert(Code::GalE8i.name()[1] != Code::GpsL2p.name()[1]);
            assert(Code::GalE8i.name().len() != Code::GpsL2cl.name().len());
            assert(Code::GalE8i.name()[1] != Code::GpsL2cx.name()[1]);
            assert(Code::GalE8i.name()[1] != Code::GpsL5i.name()[1]);
            assert(Code::GalE8i.name()[1] != Code::GpsL5q.name()[1]);
            assert(Code::GalE8i.name().len() != Code::GpsL5x.name().len());
            assert(Code::GalE8i.name().len() != Code::Bds2B1.name().len());
            assert(Code::GalE8i.name().len() != Code::Bds2B2.name().len());
            assert(Code::GalE8i.name()[5] != Code::GalE1b.name()[5]);
            assert(Code::GalE8i.name()[5] != Code::GalE1c.name()[5]);
            assert(Code::GalE8i.name().len() != Code::GalE1x.name().len());
            assert(Code::GalE8i.name()[5] != Code::GalE6b.name()[5]);
            assert(Code::GalE8i.name()[5] != Code::GalE6c.name()[5]);
            assert(Code::GalE8i.name().len() != Code::GalE6x.name().len());
            assert(Code::GalE8i.name().len() != Code::GalE7i.name().len());
            assert(Code::GalE8i.name().len() != Code::GalE7q.name().len());
            assert(Code::GalE8i.name()[5] != Code::GalE7x.name()[5]);
        },
        Code::GalE8q => {
            assert(Code::GalE8q.name().len() != Code::GpsL1ca.name().len());
            assert(Code::GalE8q.name().len() != Code::GpsL2cm.name().len());
            assert(Code::GalE8q.name()[0] != Code::SbasL1ca.name()[0]);
            assert(Code::GalE8q.name().len() != Code::GloL1of.name().len());
            assert(Code::GalE8q.name().len() != Code::GloL2of.name().len());
            assert(Code::GalE8q.name()[1] != Code::GpsL1p.name()[1]);
            assert(Code::GalE8q.name()[1] != Code::GpsL2p.name()[1]);
            assert(Code::GalE8q.name().len() != Code::GpsL2cl.name().len());
            assert(Code::GalE8q.name()[1] != Code::GpsL2cx.name()[1]);
            assert(Code::GalE8q.name()[1] != Code::GpsL5i.name()[1]);
            assert(Code::GalE8q.name()[1] != Code::GpsL5q.name()[1]);
            assert(Code::GalE8q.name().len() != Code::GpsL5x.name().len());
            assert(Code::GalE8q.name().len() != Code::Bds2B1.name().len());
            assert(Code::GalE8q.name().len() != Code::Bds2B2.name().len());
            assert(Code::GalE8q.name()[5] != Code::GalE1b.name()[5]);
            assert(Code::GalE8q.name()[5] != Code::GalE1c.name()[5]);
            assert(Code::GalE8q.name().len() != Code::GalE1x.name().len());
            assert(Code::GalE8q.name()[5] != Code::GalE6b.name()[5]);
            assert(Code::GalE8q.name()[5] != Code::GalE6c.name()[5]);
            assert(Code::GalE8q.name().len() != Code::GalE6x.name().len());
            assert(Code::GalE8q.name().len() != Code::GalE7i.name().len());
            assert(Code::GalE8q.name().len() != Code::GalE7q.name().len());
            assert(Code::GalE8q.name()[5] != Code::GalE7x.name()[5]);
            assert(Code::GalE8q.name()[6] != Code::GalE8i.name()[6]);
        },
        Code::GalE8x => {
            assert(Code::GalE8x.name().len() != Code::GpsL1ca.name().len());
            assert(Code::GalE8x.name().len() != Code::GpsL2cm.name().len());
            assert(Code::GalE8x.name().len() != Code::SbasL1ca.name().len());
            assert(Code::GalE8x.name().len() != Code::GloL1of.name().len());
            assert(Code::GalE8x.name().len() != Code::GloL2of.name().len());
            assert(Code::GalE8x.name().len() != Code::GpsL1p.name().len());
            assert(Code::GalE8x.name().len() != Code::GpsL2p.name().len());
            assert(Code::GalE8x.name().len() != Code::GpsL2cl.name().len());
            assert(Code::GalE8x.name().len() != Code::GpsL2cx.name().len());
            assert(Code::GalE8x.name().len() != Code::GpsL5i.name().len());
            assert(Code::GalE8x.name().len() != Code::GpsL5q.name().len());
            assert(Code::GalE8x.name()[1] != Code::GpsL5x.name()[1]);
            assert(Code::GalE8x.name()[0] != Code::Bds2B1.name()[0]);
            assert(Code::GalE8x.name()[0] != Code::Bds2B2.name()[0]);
            assert(Code::GalE8x.name().len() != Code::GalE1b.name().len());
            assert(Code::GalE8x.name().len() != Code::GalE1c.name().len());
            assert(Code::GalE8x.name()[5] != Code::GalE1x.name()[5]);
            assert(Code::GalE8x.name().len() != Code::GalE6b.name().len());
            assert(Code::GalE8x.name().len() != Code::GalE6c.name().len());
            assert(Code::GalE8x.name()[5] != Code::GalE6x.name()[5]);
            assert(Code::GalE8x.name().len() != Code::GalE7i.name().len());
            assert(Code::GalE8x.name().len() != Code::GalE7q.name().len());
            assert(Code::GalE8x.name().len() != Code::GalE7x.name().len());
            assert(Code::GalE8x.name().len() != Code::GalE8i.name().len());
            assert(Code::GalE8x.name().len() != Code::GalE8q.name().len());
        },
        Code::GalE5i => {
            assert(Code::GalE5i.name()[1] != Code::GpsL1ca.name()[1]);
            assert(Code::GalE5i.name()[1] != Code::GpsL2cm.name()[1]);
            assert(Code::GalE5i.name().len() != Code::SbasL1ca.name().len());
            assert(Code::GalE5i.name()[1] != Code::GloL1of.name()[1]);
            assert(Code::GalE5i.name()[1] != Code::GloL2of.name()[1]);
            assert(Code::GalE5i.name().len() != Code::GpsL1p.name().len());
            assert(Code::GalE5i.name().len() != Code::GpsL2p.name().len());
            assert(Code::GalE5i.name()[1] != Code::GpsL2cl.name()[1]);
            assert(Code::GalE5i.name().len() != Code::GpsL2cx.name().len());
            assert(Code::GalE5i.name().len() != Code::GpsL5i.name().len());
            assert(Code::GalE5i.name().len() != Code::GpsL5q.name().len());
            assert(Code::GalE5i.name().len() != Code::GpsL5x.name().len());
            assert(Code::GalE5i.name().len() != Code::Bds2B1.name().len());
            assert(Code::GalE5i.name().len() != Code::Bds2B2.name().len());
            assert(Code::GalE5i.name().len() != Code::GalE1b.name().len());
            assert(Code::GalE5i.name().len() != Code::GalE1c.name().len());
            assert(Code::GalE5i.name().len() != Code::GalE1x.name().len());
            assert(Code::GalE5i.name().len() != Code::GalE6b.name().len());
            assert(Code::GalE5i.name().len() != Code::GalE6c.name().len());
            assert(Code::GalE5i.name().len() != Code::GalE6x.name().len());
            assert(Code::GalE5i.name()[6] != Code::GalE7i.name()[6]);
            assert(Code::GalE5i.name()[6] != Code::GalE7q.name()[6]);
            assert(Code::GalE5i.name().len() != Code::GalE7x.name().len());
            assert(Code::GalE5i.name().len() != Code::GalE8i.name().len());
            assert(Code::GalE5i.name().len() != Code::GalE8q.name().len());
            assert(Code::GalE5i.name().len() != Code::GalE8x.name().len());
        },
        Code::GalE5q => {
            assert(Code::GalE5q.name()[1] != Code::GpsL1ca.name()[1]);
            assert(Code::GalE5q.name()[1] != Code::GpsL2cm.name()[1]);
            assert(Code::GalE5q.name().len() != Code::SbasL1ca.name().len());
            assert(Code::GalE5q.name()[1] != Code::GloL1of.name()[1]);
            assert(Code::GalE5q.name()[1] != Code::GloL2of.name()[1]);
            assert(Code::GalE5q.name().len() != Code::GpsL1p.name().len());
            assert(Code::GalE5q.name().len() != Code::GpsL2p.name().len());
            assert(Code::GalE5q.name()[1] != Code::GpsL2cl.name()[1]);
            assert(Code::GalE5q.name().len() != Code::GpsL2cx.name().len());
            assert(Code::GalE5q.name().len() != Code::GpsL5i.name().len());
            assert(Code::GalE5q.name().len() != Code::GpsL5q.name().len());
            assert(Code::GalE5q.name().len() != Code::GpsL5x.name().len());
            assert(Code::GalE5q.name().len() != Code::Bds2B1.name().len());
            assert(Code::GalE5q.name().len() != Code::Bds2B2.name().len());
            assert(Code::GalE5q.name().len() != Code::GalE1b.name().len());
            assert(Code::GalE5q.name().len() != Code::GalE1c.name().len());
            assert(Code::GalE5q.name().len() != Code::GalE1x.name().len());
            assert(Code::GalE5q.name().len() != Code::GalE6b.name().len());
            assert(Code::GalE5q.name().len() != Code::GalE6c.name().len());
            assert(Code::GalE5q.name().len() != Code::GalE6x.name().len());
            assert(Code::GalE5q.name()[6] != Code::GalE7i.name()[6]);
            assert(Code::GalE5q.name()[6] != Code::GalE7q.name()[6]);
            assert(Code::GalE5q.name().len() != Code::GalE7x.name().len());
            assert(Code::GalE5q.name().len() != Code::GalE8i.name().len());
            assert(Code::GalE5q.name().len() != Code::GalE8q.name().len());
            assert(Code::GalE5q.name().len() != Code::GalE8x.name().len());
            assert(Code::GalE5q.name()[7] != Code::GalE5i.name()[7]);
        },
        Code::GalE5x => {
            assert(Code::GalE5x.name().len() != Code::GpsL1ca.name().len());
            assert(Code::GalE5x.name().len() != Code::GpsL2cm.name().len());
            assert(Code::GalE5x.name()[0] != Code::SbasL1ca.name()[0]);
            assert(Code::GalE5x.name().len() != Code::GloL1of.name().len());
            assert(Code::GalE5x.name().len() != Code::GloL2of.name().len());
            assert(Code::GalE5x.name()[1] != Code::GpsL1p.name()[1]);
            assert(Code::GalE5x.name()[1] != Code::GpsL2p.name()[1]);
            assert(Code::GalE5x.name().len() != Code::GpsL2cl.name().len());
            assert(Code::GalE5x.name()[1] != Code::GpsL2cx.name()[1]);
            assert(Code::GalE5x.name()[1] != Code::GpsL5i.name()[1]);
            assert(Code::GalE5x.name()[1] != Code::GpsL5q.name()[1]);
            assert(Code::GalE5x.name().len() != Code::GpsL5x.name().len());
            assert(Code::GalE5x.name().len() != Code::Bds2B1.name().len());
            assert(Code::GalE5x.name().len() != Code::Bds2B2.name().len());
            assert(Code::GalE5x.name()[5] != Code::GalE1b.name()[5]);
            assert(Code::GalE5x.name()[5] != Code::GalE1c.name()[5]);
            assert(Code::GalE5x.name().len() != Code::GalE1x.name().len());
            assert(Code::GalE5x.name()[5] != Code::GalE6b.name()[5]);
            assert(Code::GalE5x.name()[5] != Code::GalE6c.name()[5]);
            assert(Code::GalE5x.name().len() != Code::GalE6x.name().len());
            assert(Code::GalE5x.name().len() != Code::GalE7i.name().len());
            assert(Code::GalE5x.name().len() != Code::GalE7q.name().len());
            assert(Code::GalE5x.name()[6] != Code::GalE7x.name()[6]);
            assert(Code::GalE5x.name()[5] != Code::GalE8i.name()[5]);
            assert(Code::GalE5x.name()[5] != Code::GalE8q.name()[5]);
            assert(Code::GalE5x.name().len() != Code::GalE8x.name().len());
            assert(Code::GalE5x.name().len() != Code::GalE5i.name().len());
            assert(Code::GalE5x.name().len() != Code::GalE5q.name().len());
        },
        Code::GloL1p => {
            assert(Code::GloL1p.name().len() != Code::GpsL1ca.name().len());
            assert(Code::GloL1p.name().len() != Code::GpsL2cm.name().len());
            assert(Code::GloL1p.name()[0] != Code::SbasL1ca.name()[0]);
            assert(Code::GloL1p.name().len() != Code::GloL1of.name().len());
            assert(Code::GloL1p.name().len() != Code::GloL2of.name().len());
            assert(Code::GloL1p.name()[1] != Code::GpsL1p.name()[1]);
            assert(Code::GloL1p.name()[1] != Code::GpsL2p.name()[1]);
            assert(Code::GloL1p.name().len() != Code::GpsL2cl.name().len());
            assert(Code::GloL1p.name()[1] != Code::GpsL2cx.name()[1]);
            assert(Code::GloL1p.name()[1] != Code::GpsL5i.name()[1]);
            assert(Code::GloL1p.name()[1] != Code::GpsL5q.name()[1]);
            assert(Code::GloL1p.name().len() != Code::GpsL5x.name().len());
            assert(Code::GloL1p.name().len() != Code::Bds2B1.name().len());
            assert(Code::GloL1p.name().len() != Code::Bds2B2.name().len());
            assert(Code::GloL1p.name()[1] != Code::GalE1b.name()[1]);
            assert(Code::GloL1p.name()[1] != Code::GalE1c.name()[1]);
            assert(Code::GloL1p.name().len() != Code::GalE1x.name().len());
            assert(Code::GloL1p.name()[1] != Code::GalE6b.name()[1]);
            assert(Code::GloL1p.name()[1] != Code::GalE6c.name()[1]);
            assert(Code::GloL1p.name().len() != Code::GalE6x.name().len());
            assert(Code::GloL1p.name().len() != Code::GalE7i.name().len());
            assert(Code::GloL1p.name().len() != Code::GalE7q.name().len());
            assert(Code::GloL1p.name()[1] != Code::GalE7x.name()[1]);
            assert(Code::GloL1p.name()[1] != Code::GalE8i.name()[1]);
            assert(Code::GloL1p.name()[1] != Code::GalE8q.name()[1]);
            assert(Code::GloL1p.name().len() != Code::GalE8x.name().len());
            assert(Code::GloL1p.name().len() != Code::GalE5i.name().len());
            assert(Code::GloL1p.name().len() != Code::GalE5q.name().len());
            assert(Code::GloL1p.name()[1] != Code::GalE5x.name()[1]);
        },
        Code::GloL2p => {
            assert(Code::GloL2p.name().len() != Code::GpsL1ca.name().len());
            assert(Code::GloL2p.name().len() != Code::GpsL2cm.name().len());
            assert(Code::GloL2p.name()[0] != Code::SbasL1ca.name()[0]);
            assert(Code::GloL2p.name().len() != Code::GloL1of.name().len());
            assert(Code::GloL2p.name().len() != Code::GloL2of.name().len());
            assert(Code::GloL2p.name()[1] != Code::GpsL1p.name()[1]);
            assert(Code::GloL2p.name()[1] != Code::GpsL2p.name()[1]);
            assert(Code::GloL2p.name().len() != Code::GpsL2cl.name().len());
            assert(Code::GloL2p.name()[1] != Code::GpsL2cx.name()[1]);
            assert(Code::GloL2p.name()[1] != Code::GpsL5i.name()[1]);
            assert(Code::GloL2p.name()[1] != Code::GpsL5q.name()[1]);
            assert(Code::GloL2p.name().len() != Code::GpsL5x.name().len());
            assert(Code::GloL2p.name().len() != Code::Bds2B1.name().len());
            assert(Code::GloL2p.name().len() != Code::Bds2B2.name().len());
            assert(Code::GloL2p.name()[1] != Code::GalE1b.name()[1]);
            assert(Code::GloL2p.name()[1] != Code::GalE1c.name()[1]);
            assert(Code::GloL2p.name().len() != Code::GalE1x.name().len());
            assert(Code::GloL2p.name()[1] != Code::GalE6b.name()[1]);
            assert(Code::GloL2p.name()[1] != Code::GalE6c.name()[1]);
            assert(Code::GloL2p.name().len() != Code::GalE6x.name().len());
            assert(Code::GloL2p.name().len() != Code::GalE7i.name().len());
            assert(Code::GloL2p.name().len() != Code::GalE7q.name().len());
            assert(Code::GloL2p.name()[1] != Code::GalE7x.name()[1]);
            assert(Code::GloL2p.name()[1] != Code::GalE8i.name()[1]);
            assert(Code::GloL2p.name()[1] != Code::GalE8q.name()[1]);
            assert(Code::GloL2p.name().len() != Code::GalE8x.name().len());
            assert(Code::GloL2p.name().len() != Code::GalE5i.name().len());
            assert(Code::GloL2p.name().len() != Code::GalE5q.name().len());
            assert(Code::GloL2p.name()[1] != Code::GalE5x.name()[1]);
            assert(Code::GloL2p.name()[5] != Code::GloL1p.name()[5]);
        },
        Code::QzsL1ca => {
            assert(Code::QzsL1ca.name()[0] != Code::GpsL1ca.name()[0]);
            assert(Code::QzsL1ca.name()[0] != Code::GpsL2cm.name()[0]);
            assert(Code::QzsL1ca.name().len() != Code::SbasL1ca.name().len());
            assert(Code::QzsL1ca.name()[0] != Code::GloL1of.name()[0]);
            assert(Code::QzsL1ca.name()[0] != Code::GloL2of.name()[0]);
            assert(Code::QzsL1ca.name().len() != Code::GpsL1p.name().len());
            assert(Code::QzsL1ca.name().len() != Code::GpsL2p.name().len());
            assert(Code::QzsL1ca.name()[0] != Code::GpsL2cl.name()[0]);
            assert(Code::QzsL1ca.name().len() != Code::GpsL2cx.name().len());
            assert(Code::QzsL1ca.name().len() != Code::GpsL5i.name().len());
            assert(Code::QzsL1ca.name().len() != Code::GpsL5q.name().len());
            assert(Code::QzsL1ca.name().len() != Code::GpsL5x.name().len());
            assert(Code::QzsL1ca.name().len() != Code::Bds2B1.name().len());
            assert(Code::QzsL1ca.name().len() != Code::Bds2B2.name().len());
            assert(Code::QzsL1ca.name().len() != Code::GalE1b.name().len());
            assert(Code::QzsL1ca.name().len() != Code::GalE1c.name().len());
            assert(Code::QzsL1ca.name().len() != Code::GalE1x.name().len());
            assert(Code::QzsL1ca.name().len() != Code::GalE6b.name().len());
            assert(Code::QzsL1ca.name().len() != Code::GalE6c.name().len());
            assert(Code::QzsL1ca.name().len() != Code::GalE6x.name().len());
            assert(Code::QzsL1ca.name()[0] != Code::GalE7i.name()[0]);
            assert(Code::QzsL1ca.name()[0] != Code::GalE7q.name()[0]);
            assert(Code::QzsL1ca.name().len() != Code::GalE7x.name().len());
            assert(Code::QzsL1ca.name().len() != Code::GalE8i.name().len());
            assert(Code::QzsL1ca.name().len() != Code::GalE8q.name().len());
            assert(Code::QzsL1ca.name().len() != Code::GalE8x.name().len());
            assert(Code::QzsL1ca.name()[0] != Code::GalE5i.name()[0]);
            assert(Code::QzsL1ca.name()[0] != Code::GalE5q.name()[0]);
            assert(Code::QzsL1ca.name().len() != Code::GalE5x.name().len());
            assert(Code::QzsL1ca.name().len() != Code::GloL1p.name().len());
            assert(Code::QzsL1ca.name().len() != Code::GloL2p.name().len());
        },
        Code::QzsL1ci => {
            assert(Code::QzsL1ci.name()[0] != Code::GpsL1ca.name()[0]);
            assert(Code::QzsL1ci.name()[0] != Code::GpsL2cm.name()[0]);
            assert(Code::QzsL1ci.name().len() != Code::SbasL1ca.name().len());
            assert(Code::QzsL1ci.name()[0] != Code::GloL1of.name()[0]);
            assert(Code::QzsL1ci.name()[0] != Code::GloL2of.name()[0]);
            assert(Code::QzsL1ci.name().len() != Code::GpsL1p.name().len());
            assert(Code::QzsL1ci.name().len() != Code::GpsL2p.name().len());
            assert(Code::QzsL1ci.name()[0] != Code::GpsL2cl.name()[0]);
            assert(Code::QzsL1ci.name().len() != Code::GpsL2cx.name().len());
            assert(Code::QzsL1ci.name().len() != Code::GpsL5i.name().len());
            assert(Code::QzsL1ci.name().len() != Code::GpsL5q.name().len());
            assert(Code::QzsL1ci.name().len() != Code::GpsL5x.name().len());
            assert(Code::QzsL1ci.name().len() != Code::Bds2B1.name().len());
            assert(Code::QzsL1ci.name().len() != Code::Bds2B2.name().len());
            assert(Code::QzsL1ci.name().len() != Code::GalE1b.name().len());
            assert(Code::QzsL1ci.name().len() != Code::GalE1c.name().len());
            assert(Code::QzsL1ci.name().len() != Code::GalE1x.name().len());
            assert(Code::QzsL1ci.name().len() != Code::GalE6b.name().len());
            assert(Code::QzsL1ci.name().len() != Code::GalE6c.name().len());
            assert(Code::QzsL1ci.name().len() != Code::GalE6x.name().len());
            assert(Code::QzsL1ci.name()[0] != Code::GalE7i.name()[0]);
            assert(Code::QzsL1ci.name()[0] != Code::GalE7q.name()[0]);
            assert(Code::QzsL1ci.name().len() != Code::GalE7x.name().len());
            assert(Code::QzsL1ci.name().len() != Code::GalE8i.name().len());
            assert(Code::QzsL1ci.name().len() != Code::GalE8q.name().len());
            assert(Code::QzsL1ci.name().len() != Code::GalE8x.name().len());
            assert(Code::QzsL1ci.name()[0] != Code::GalE5i.name()[0]);
            assert(Code::QzsL1ci.name()[0] != Code::GalE5q.name()[0]);
            assert(Code::QzsL1ci.name().len() != Code::GalE5x.name().len());
            assert(Code::QzsL1ci.name().len() != Code::GloL1p.name().len());
            assert(Code::QzsL1ci.name().len() != Code::GloL2p.name().len());
            assert(Code::QzsL1ci.name()[7] != Code::QzsL1ca.name()[7]);
        },
        Code::QzsL1cq => {
            assert(Code::QzsL1cq.name()[0] != Code::GpsL1ca.name()[0]);
            assert(Code::QzsL1cq.name()[0] != Code::GpsL2cm.name()[0]);
            assert(Code::QzsL1cq.name().len() != Code::SbasL1ca.name().len());
            assert(Code::QzsL1cq.name()[0] != Code::GloL1of.name()[0]);
            assert(Code::QzsL1cq.name()[0] != Code::GloL2of.name()[0]);
            assert(Code::QzsL1cq.name().len() != Code::GpsL1p.name().len());
            assert(Code::QzsL1cq.name().len() != Code::GpsL2p.name().len());
            assert(Code::QzsL1cq.name()[0] != Code::GpsL2cl.name()[0]);
            assert(Code::QzsL1cq.name().len() != Code::GpsL2cx.name().len());
            assert(Code::QzsL1cq.name().len() != Code::GpsL5i.name().len());
            assert(Code::QzsL1cq.name().len() != Code::GpsL5q.name().len());
            assert(Code::QzsL1cq.name().len() != Code::GpsL5x.name().len());
            assert(Code::QzsL1cq.name().len() != Code::Bds2B1.name().len());
            assert(Code::QzsL1cq.name().len() != Code::Bds2B2.name().len());
            assert(Code::QzsL1cq.name().len() != Code::GalE1b.name().len());
            assert(Code::QzsL1cq.name().len() != Code::GalE1c.name().len());
            assert(Code::QzsL1cq.name().len() != Code::GalE1x.name().len());
            assert(Code::QzsL1cq.name().len() != Code::GalE6b.name().len());
            assert(Code::QzsL1cq.name().len() != Code::GalE6c.name().len());
            assert(Code::QzsL1cq.name().len() != Code::GalE6x.name().len());
            assert(Code::QzsL1cq.name()[0] != Code::GalE7i.name()[0]);
            assert(Code::QzsL1cq.name()[0] != Code::GalE7q.name()[0]);
            assert(Code::QzsL1cq.name().len() != Code::GalE7x.name().len());
            assert(Code::QzsL1cq.name().len() != Code::GalE8i.name().len());
            assert(Code::QzsL1cq.name().len() != Code::GalE8q.name().len());
            assert(Code::QzsL1cq.name().len() != Code::GalE8x.name().len());
            assert(Code::QzsL1cq.name()[0] != Code::GalE5i.name()[0]);
            assert(Code::QzsL1cq.name()[0] != Code::GalE5q.name()[0]);
            assert(Code::QzsL1cq.name().len() != Code::GalE5x.name().len());
            assert(Code::QzsL1cq.name().len() != Code::GloL1p.name().len());
            assert(Code::QzsL1cq.name().len() != Code::GloL2p.name().len());
            assert(Code::QzsL1cq.name()[7] != Code::QzsL1ca.name()[7]);
            assert(Code::QzsL1cq.name()[7] != Code::QzsL1ci.name()[7]);
        },
        Code::QzsL1cx => {
            assert(Code::QzsL1cx.name()[0] != Code::GpsL1ca.name()[0]);
            assert(Code::QzsL1cx.name()[0] != Code::GpsL2cm.name()[0]);
            assert(Code::QzsL1cx.name().len() != Code::SbasL1ca.name().len());
            assert(Code::QzsL1cx.name()[0] != Code::GloL1of.name()[0]);
            assert(Code::QzsL1cx.name()[0] != Code::GloL2of.name()[0]);
            assert(Code::QzsL1cx.name().len() != Code::GpsL1p.name().len());
            assert(Code::QzsL1cx.name().len() != Code::GpsL2p.name().len());
            assert(Code::QzsL1cx.name()[0] != Code::GpsL2cl.name()[0]);
            assert(Code::QzsL1cx.name().len() != Code::GpsL2cx.name().len());
            assert(Code::QzsL1cx.name().len() != Code::GpsL5i.name().len());
            assert(Code::QzsL1cx.name().len() != Code::GpsL5q.name().len());
            assert(Code::QzsL1cx.name().len() != Code::GpsL5x.name().len());
            assert(Code::QzsL1cx.name().len() != Code::Bds2B1.name().len());
            assert(Code::QzsL1cx.name().len() != Code::Bds2B2.name().len());
            assert(Code::QzsL1cx.name().len() != Code::GalE1b.name().len());
            assert(Code::QzsL1cx.name().len() != Code::GalE1c.name().len());
            assert(Code::QzsL1cx.name().len() != Code::GalE1x.name().len());
            assert(Code::QzsL1cx.name().len() != Code::GalE6b.name().len());
            assert(Code::QzsL1cx.name().len() != Code::GalE6c.name().len());
            assert(Code::QzsL1cx.name().len() != Code::GalE6x.name().len());
            assert(Code::QzsL1cx.name()[0] != Code::GalE7i.name()[0]);
            assert(Code::QzsL1cx.name()[0] != Code::GalE7q.name()[0]);
            assert(Code::QzsL1cx.name().len() != Code::GalE7x.name().len());
            assert(Code::QzsL1cx.name().len() != Code::GalE8i.name().len());
            assert(Code::QzsL1cx.name().len() != Code::GalE8q.name().len());
            assert(Code::QzsL1cx.name().len() != Code::GalE8x.name().len());
            assert(Code::QzsL1cx.name()[0] != Code::GalE5i.name()[0]);
            assert(Code::QzsL1cx.name()[0] != Code::GalE5q.name()[0]);
            assert(Code::QzsL1cx.name().len() != Code::GalE5x.name().len());
            assert(Code::QzsL1cx.name().len() != Code::GloL1p.name().len());
            assert(Code::QzsL1cx.name().len() != Code::GloL2p.name().len());
            assert(Code::QzsL1cx.name()[7] != Code::QzsL1ca.name()[7]);
            assert(Code::QzsL1cx.name()[7] != Code::QzsL1ci.name()[7]);
            assert(Code::QzsL1cx.name()[7] != Code::QzsL1cq.name()[7]);
        },
        Code::QzsL2cm => {
            assert(Code::QzsL2cm.name()[0] != Code::GpsL1ca.name()[0]);
            assert(Code::QzsL2cm.name()[0] != Code::GpsL2cm.name()[0]);
            assert(Code::QzsL2cm.name().len() != Code::SbasL1ca.name().len());
            assert(Code::QzsL2cm.name()[0] != Code::GloL1of.name()[0]);
            assert(Code::QzsL2cm.name()[0] != Code::GloL2of.name()[0]);
            assert(Code::QzsL2cm.name().len() != Code::GpsL1p.name().len());
            assert(Code::QzsL2cm.name().len() != Code::GpsL2p.name().len());
            assert(Code::QzsL2cm.name()[0] != Code::GpsL2cl.name()[0]);
            assert(Code::QzsL2cm.name().len() != Code::GpsL2cx.name().len());
            assert(Code::QzsL2cm.name().len() != Code::GpsL5i.name().len());
            assert(Code::QzsL2cm.name().len() != Code::GpsL5q.name().len());
            assert(Code::QzsL2cm.name().len() != Code::GpsL5x.name().len());
            assert(Code::QzsL2cm.name().len() != Code::Bds2B1.name().len());
            assert(Code::QzsL2cm.name().len() != Code::Bds2B2.name().len());
            assert(Code::QzsL2cm.name().len() != Code::GalE1b.name().len());
            assert(Code::QzsL2cm.name().len() != Code::GalE1c.name().len());
            assert(Code::QzsL2cm.name().len() != Code::GalE1x.name().len());
            assert(Code::QzsL2cm.name().len() != Code::GalE6b.name().len());
            assert(Code::QzsL2cm.name().len() != Code::GalE6c.name().len());
            assert(Code::QzsL2cm.name().len() != Code::GalE6x.name().len());
            assert(Code::QzsL2cm.name()[0] != Code::GalE7i.name()[0]);
            assert(Code::QzsL2cm.name()[0] != Code::GalE7q.name()[0]);
            assert(Code::QzsL2cm.name().len() != Code::GalE7x.name().len());
            assert(Code::QzsL2cm.name().len() != Code::GalE8i.name().len());
            assert(Code::QzsL2cm.name().len() != Code::GalE8q.name().len());
            assert(Code::QzsL2cm.name().len() != Code::GalE8x.name().len());
            assert(Code::QzsL2cm.name()[0] != Code::GalE5i.name()[0]);
            assert(Code::QzsL2cm.name()[0] != Code::GalE5q.name()[0]);
            assert(Code::QzsL2cm.name().len() != Code::GalE5x.name().len());
            assert(Code::QzsL2cm.name().len() != Code::GloL1p.name().len());
            assert(Code::QzsL2cm.name().len() != Code::GloL2p.name().len());
            assert(Code::QzsL2cm.name()[5] != Code::QzsL1ca.name()[5]);
            assert(Code::QzsL2cm.name()[5] != Code::QzsL1ci.name()[5]);
            assert(Code::QzsL2cm.name()[5] != Code::QzsL1cq.name()[5]);
            assert(Code::QzsL2cm.name()[5] != Code::QzsL1cx.name()[5]);
        },
        Code::QzsL2cl => {
            assert(Code::QzsL2cl.name()[0] != Code::GpsL1ca.name()[0]);
            assert(Code::QzsL2cl.name()[0] != Code::GpsL2cm.name()[0]);
            assert(Code::QzsL2cl.name().len() != Code::SbasL1ca.name().len());
            assert(Code::QzsL2cl.name()[0] != Code::GloL1of.name()[0]);
            assert(Code::QzsL2cl.name()[0] != Code::GloL2of.name()[0]);
            assert(Code::QzsL2cl.name().len() != Code::GpsL1p.name().len());
            assert(Code::QzsL2cl.name().len() != Code::GpsL2p.name().len());
            assert(Code::QzsL2cl.name()[0] != Code::GpsL2cl.name()[0]);
            assert(Code::QzsL2cl.name().len() != Code::GpsL2cx.name().len());
            assert(Code::QzsL2cl.name().len() != Code::GpsL5i.name().len());
            assert(Code::QzsL2cl.name().len() != Code::GpsL5q.name().len());
            assert(Code::QzsL2cl.name().len() != Code::GpsL5x.name().len());
            assert(Code::QzsL2cl.name().len() != Code::Bds2B1.name().len());
            assert(Code::QzsL2cl.name().len() != Code::Bds2B2.name().len());
            assert(Code::QzsL2cl.name().len() != Code::GalE1b.name().len());
            assert(Code::QzsL2cl.name().len() != Code::GalE1c.name().len());
            assert(Code::QzsL2cl.name().len() != Code::GalE1x.name().len());
            assert(Code::QzsL2cl.name().len() != Code::GalE6b.name().len());
            assert(Code::QzsL2cl.name().len() != Code::GalE6c.name().len());
            assert(Code::QzsL2cl.name().len() != Code::GalE6x.name().len());
            assert(Code::QzsL2cl.name()[0] != Code::GalE7i.name()[0]);
            assert(Code::QzsL2cl.name()[0] != Code::GalE7q.name()[0]);
            assert(Code::QzsL2cl.name().len() != Code::GalE7x.name().len());
            assert(Code::QzsL2cl.name().len() != Code::GalE8i.name().len());
            assert(Code::QzsL2cl.name().len() != Code::GalE8q.name().len());
            assert(Code::QzsL2cl.name().len() != Code::GalE8x.name().len());
            assert(Code::QzsL2cl.name()[0] != Code::GalE5i.name()[0]);
            assert(Code::QzsL2cl.name()[0] != Code::GalE5q.name()[0]);
            assert(Code::QzsL2cl.name().len() != Code::GalE5x.name().len());
            assert(Code::QzsL2cl.name().len() != Code::GloL1p.name().len());
            assert(Code::QzsL2cl.name().len() != Code::GloL2p.name().len());
            assert(Code::QzsL2cl.name()[5] != Code::QzsL1ca.name()[5]);
            assert(Code::QzsL2cl.name()[5] != Code::QzsL1ci.name()[5]);
            assert(Code::QzsL2cl.name()[5] != Code::QzsL1cq.name()[5]);
            assert(Code::QzsL2cl.name()[5] != Code::QzsL1cx.name()[5]);
            assert(Code::QzsL2cl.name()[7] != Code::QzsL2cm.name()[7]);
        },
        Code::QzsL2cx => {
            assert(Code::QzsL2cx.name().len() != Code::GpsL1ca.name().len());
            assert(Code::QzsL2cx.name().len() != Code::GpsL2cm.name().len());
            assert(Code::QzsL2cx.name()[0] != Code::SbasL1ca.name()[0]);
            assert(Code::QzsL2cx.name().len() != Code::GloL1of.name().len());
            assert(Code::QzsL2cx.name().len() != Code::GloL2of.name().len());
            assert(Code::QzsL2cx.name()[0] != Code::GpsL1p.name()[0]);
            assert(Code::QzsL2cx.name()[0] != Code::GpsL2p.name()[0]);
            assert(Code::QzsL2cx.name().len() != Code::GpsL2cl.name().len());
            assert(Code::QzsL2cx.name()[0] != Code::GpsL2cx.name()[0]);
            assert(Code::QzsL2cx.name()[0] != Code::GpsL5i.name()[0]);
            assert(Code::QzsL2cx.name()[0] != Code::GpsL5q.name()[0]);
            assert(Code::QzsL2cx.name().len() != Code::GpsL5x.name().len());
            assert(Code::QzsL2cx.name().len() != Code::Bds2B1.name().len());
            assert(Code::QzsL2cx.name().len() != Code::Bds2B2.name().len());
            assert(Code::QzsL2cx.name()[0] != Code::GalE1b.name()[0]);
            assert(Code::QzsL2cx.name()[0] != Code::GalE1c.name()[0]);
            assert(Code::QzsL2cx.name().len() != Code::GalE1x.name().len());
            assert(Code::QzsL2cx.name()[0] != Code::GalE6b.name()[0]);
            assert(Code::QzsL2cx.name()[0] != Code::GalE6c.name()[0]);
            assert(Code::QzsL2cx.name().len() != Code::GalE6x.name().len());
            assert(Code::QzsL2cx.name().len() != Code::GalE7i.name().len());
            assert(Code::QzsL2cx.name().len() != Code::GalE7q.name().len());
            assert(Code::QzsL2cx.name()[0] != Code::GalE7x.name()[0]);
            assert(Code::QzsL2cx.name()[0] != Code::GalE8i.name()[0]);
            assert(Code::QzsL2cx.name()[0] != Code::GalE8q.name()[0]);
            assert(Code::QzsL2cx.name().len() != Code::GalE8x.name().len());
            assert(Code::QzsL2cx.name().len() != Code::GalE5i.name().len());
            assert(Code::QzsL2cx.name().len() != Code::GalE5q.name().len());
            assert(Code::QzsL2cx.name()[0] != Code::GalE5x.name()[0]);
            assert(Code::QzsL2cx.name()[0] != Code::GloL1p.name()[0]);
            assert(Code::QzsL2cx.name()[0] != Code::GloL2p.name()[0]);
            assert(Code::QzsL2cx.name().len() != Code::QzsL1ca.name().len());
            assert(Code::QzsL2cx.name().len() != Code::QzsL1ci.name().len());
            assert(Code::QzsL2cx.name().len() != Code::QzsL1cq.name().len());
            assert(Code::QzsL2cx.name().len() != Code::QzsL1cx.name().len());
            assert(Code::QzsL2cx.name().len() != Code::QzsL2cm.name().len());
            assert(Code::QzsL2cx.name().len() != Code::QzsL2cl.name().len());
        },
        Code::QzsL5i => {
            assert(Code::QzsL5i.name().len() != Code::GpsL1ca.name().len());
            assert(Code::QzsL5i.name().len() != Code::GpsL2cm.name().len());
            assert(Code::QzsL5i.name()[0] != Code::SbasL1ca.name()[0]);
            assert(Code::QzsL5i.name().len() != Code::GloL1of.name().len());
            assert(Code::QzsL5i.name().len() != Code::GloL2of.name().len());
            assert(Code::QzsL5i.name()[0] != Code::GpsL1p.name()[0]);
            assert(Code::QzsL5i.name()[0] != Code::GpsL2p.name()[0]);
            assert(Code::QzsL5i.name().len() != Code::GpsL2cl.name().len());
            assert(Code::QzsL5i.name()[0] != Code::GpsL2cx.name()[0]);
            assert(Code::QzsL5i.name()[0] != Code::GpsL5i.name()[0]);
            assert(Code::QzsL5i.name()[0] != Code::GpsL5q.name()[0]);
            assert(Code::QzsL5i.name().len() != Code::GpsL5x.name().len());
            assert(Code::QzsL5i.name().len() != Code::Bds2B1.name().len());
            assert(Code::QzsL5i.name().len() != Code::Bds2B2.name().len());
            assert(Code::QzsL5i.name()[0] != Code::GalE1b.name()[0]);
            assert(Code::QzsL5i.name()[0] != Code::GalE1c.name()[0]);
            assert(Code::QzsL5i.name().len() != Code::GalE1x.name().len());
            assert(Code::QzsL5i.name()[0] != Code::GalE6b.name()[0]);
            assert(Code::QzsL5i.name()[0] != Code::GalE6c.name()[0]);
            assert(Code::QzsL5i.name().len() != Code::GalE6x.name().len());
            assert(Code::QzsL5i.name().len() != Code::GalE7i.name().len());
            assert(Code::QzsL5i.name().len() != Code::GalE7q.name().len());
            assert(Code::QzsL5i.name()[0] != Code::GalE7x.name()[0]);
            assert(Code::QzsL5i.name()[0] != Code::GalE8i.name()[0]);
            assert(Code::QzsL5i.name()[0] != Code::GalE8q.name()[0]);
            assert(Code::QzsL5i.name().len() != Code::GalE8x.name().len());
            assert(Code::QzsL5i.name().len() != Code::GalE5i.name().len());
            assert(Code::QzsL5i.name().len() != Code::GalE5q.name().len());
            assert(Code::QzsL5i.name()[0] != Code::GalE5x.name()[0]);
            assert(Code::QzsL5i.name()[0] != Code::GloL1p.name()[0]);
            assert(Code::QzsL5i.name()[0] != Code::GloL2p.name()[0]);
            assert(Code::QzsL5i.name().len() != Code::QzsL1ca.name().len());
            assert(Code::QzsL5i.name().len() != Code::QzsL1ci.name().len());
            assert(Code::QzsL5i.name().len() != Code::QzsL1cq.name().len());
            assert(Code::QzsL5i.name().len() != Code::QzsL1cx.name().len());
            assert(Code::QzsL5i.name().len() != Code::QzsL2cm.name().len());
            assert(Code::QzsL5i.name().len() != Code::QzsL2cl.name().len());
            assert(Code::QzsL5i.name()[5] != Code::QzsL2cx.name()[5]);
        },
        Code::QzsL5q => {
            assert(Code::QzsL5q.name().len() != Code::GpsL1ca.name().len());
            assert(Code::QzsL5q.name().len() != Code::GpsL2cm.name().len());
            assert(Code::QzsL5q.name()[0] != Code::SbasL1ca.name()[0]);
            assert(Code::QzsL5q.name().len() != Code::GloL1of.name().len());
            assert(Code::QzsL5q.name().len() != Code::GloL2of.name().len());
            assert(Code::QzsL5q.name()[0] != Code::GpsL1p.name()[0]);
            assert(Code::QzsL5q.name()[0] != Code::GpsL2p.name()[0]);
            assert(Code::QzsL5q.name().len() != Code::GpsL2cl.name().len());
            assert(Code::QzsL5q.name()[0] != Code::GpsL2cx.name()[0]);
            assert(Code::QzsL5q.name()[0] != Code::GpsL5i.name()[0]);
            assert(Code::QzsL5q.name()[0] != Code::GpsL5q.name()[0]);
            assert(Code::QzsL5q.name().len() != Code::GpsL5x.name().len());
            assert(Code::QzsL5q.name().len() != Code::Bds2B1.name().len());
            assert(Code::QzsL5q.name().len() != Code::Bds2B2.name().len());
            assert(Code::QzsL5q.name()[0] != Code::GalE1b.name()[0]);
            assert(Code::QzsL5q.name()[0] != Code::GalE1c.name()[0]);
            assert(Code::QzsL5q.name().len() != Code::GalE1x.name().len());
            assert(Code::QzsL5q.name()[0] != Code::GalE6b.name()[0]);
            assert(Code::QzsL5q.name()[0] != Code::GalE6c.name()[0]);
            assert(Code::QzsL5q.name().len() != Code::GalE6x.name().len());
            assert(Code::QzsL5q.name().len() != Code::GalE7i.name().len());
            assert(Code::QzsL5q.name().len() != Code::GalE7q.name().len());
            assert(Code::QzsL5q.name()[0] != Code::GalE7x.name()[0]);
            assert(Code::QzsL5q.name()[0] != Code::GalE8i.name()[0]);
            assert(Code::QzsL5q.name()[0] != Code::GalE8q.name()[0]);
            assert(Code::QzsL5q.name().len() != Code::GalE8x.name().len());
            assert(Code::QzsL5q.name().len() != Code::GalE5i.name().len());
            assert(Code::QzsL5q.name().len() != Code::GalE5q.name().len());
            assert(Code::QzsL5q.name()[0] != Code::GalE5x.name()[0]);
            assert(Code::QzsL5q.name()[0] != Code::GloL1p.name()[0]);
            assert(Code::QzsL5q.name()[0] != Code::GloL2p.name()[0]);
            assert(Code::QzsL5q.name().len() != Code::QzsL1ca.name().len());
            assert(Code::QzsL5q.name().len() != Code::QzsL1ci.name().len());
            assert(Code::QzsL5q.name().len() != Code::QzsL1cq.name().len());
            assert(Code::QzsL5q.name().len() != Code::QzsL1cx.name().len());
            assert(Code::QzsL5q.name().len() != Code::QzsL2cm.name().len());
            assert(Code::QzsL5q.name().len() != Code::QzsL2cl.name().len());
            assert(Code::QzsL5q.name()[5] != Code::QzsL2cx.name()[5]);
            assert(Code::QzsL5q.name()[6] != Code::QzsL5i.name()[6]);
        },
        Code::QzsL5x => {
            assert(Code::QzsL5x.name().len() != Code::GpsL1ca.name().len());
            assert(Code::QzsL5x.name().len() != Code::GpsL2cm.name().len());
            assert(Code::QzsL5x.name().len() != Code::SbasL1ca.name().len());
            assert(Code::QzsL5x.name().len() != Code::GloL1of.name().len());
            assert(Code::QzsL5x.name().len() != Code::GloL2of.name().len());
            assert(Code::QzsL5x.name().len() != Code::GpsL1p.name().len());
            assert(Code::QzsL5x.name().len() != Code::GpsL2p.name().len());
            assert(Code::QzsL5x.name().len() != Code::GpsL2cl.name().len());
            assert(Code::QzsL5x.name().len() != Code::GpsL2cx.name().len());
            assert(Code::QzsL5x.name().len() != Code::GpsL5i.name().len());
            assert(Code::QzsL5x.name().len() != Code::GpsL5q.name().len());
            assert(Code::QzsL5x.name()[0] != Code::GpsL5x.name()[0]);
            assert(Code::QzsL5x.name()[0] != Code::Bds2B1.name()[0]);
            assert(Code::QzsL5x.name()[0] != Code::Bds2B2.name()[0]);
            assert(Code::QzsL5x.name().len() != Code::GalE1b.name().len());
            assert(Code::QzsL5x.name().len() != Code::GalE1c.name().len());
            assert(Code::QzsL5x.name()[0] != Code::GalE1x.name()[0]);
            assert(Code::QzsL5x.name().len() != Code::GalE6b.name().len());
            assert(Code::QzsL5x.name().len() != Code::GalE6c.name().len());
            assert(Code::QzsL5x.name()[0] != Code::GalE6x.name()[0]);
            assert(Code::QzsL5x.name().len() != Code::GalE7i.name().len());
            assert(Code::QzsL5x.name().len() != Code::GalE7q.name().len());
            assert(Code::QzsL5x.name().len() != Code::GalE7x.name().len());
            assert(Code::QzsL5x.name().len() != Code::GalE8i.name().len());
            assert(Code::QzsL5x.name().len() != Code::GalE8q.name().len());
            assert(Code::QzsL5x.name()[0] != Code::GalE8x.name()[0]);
            assert(Code::QzsL5x.name().len() != Code::GalE5i.name().len());
            assert(Code::QzsL5x.name().len() != Code::GalE5q.name().len());
            assert(Code::QzsL5x.name().len() != Code::GalE5x.name().len());
            assert(Code::QzsL5x.name().len() != Code::GloL1p.name().len());
            assert(Code::QzsL5x.name().len() != Code::GloL2p.name().len());
            assert(Code::QzsL5x.name().len() != Code::QzsL1ca.name().len());
            assert(Code::QzsL5x.name().len() != Code::QzsL1ci.name().len());
            assert(Code::QzsL5x.name().len() != Code::QzsL1cq.name().len());
            assert(Code::QzsL5x.name().len() != Code::QzsL1cx.name().len());
            assert(Code::QzsL5x.name().len() != Code::QzsL2cm.name().len());
            assert(Code::QzsL5x.name().len() != Code::QzsL2cl.name().len());
            assert(Code::QzsL5x.name().len() != Code::QzsL2cx.name().len());
            assert(Code::QzsL5x.name().len() != Code::QzsL5i.name().len());
            assert(Code::QzsL5x.name().len() != Code::QzsL5q.name().len());
        },
        Code::SbasL5i => {
            assert(Code::SbasL5i.name()[0] != Code::GpsL1ca.name()[0]);
            assert(Code::SbasL5i.name()[0] != Code::GpsL2cm.name()[0]);
            assert(Code::SbasL5i.name().len() != Code::SbasL1ca.name().len());
            assert(Code::SbasL5i.name()[0] != Code::GloL1of.name()[0]);
            assert(Code::SbasL5i.name()[0] != Code::GloL2of.name()[0]);
            assert(Code::SbasL5i.name().len() != Code::GpsL1p.name().len());
            assert(Code::SbasL5i.name().len() != Code::GpsL2p.name().len());
            assert(Code::SbasL5i.name()[0] != Code::GpsL2cl.name()[0]);
            assert(Code::SbasL5i.name().len() != Code::GpsL2cx.name().len());
            assert(Code::SbasL5i.name().len() != Code::GpsL5i.name().len());
            assert(Code::SbasL5i.name().len() != Code::GpsL5q.name().len());
            assert(Code::SbasL5i.name().len() != Code::GpsL5x.name().len());
            assert(Code::SbasL5i.name().len() != Code::Bds2B1.name().len());
            assert(Code::SbasL5i.name().len() != Code::Bds2B2.name().len());
            assert(Code::SbasL5i.name().len() != Code::GalE1b.name().len());
            assert(Code::SbasL5i.name().len() != Code::GalE1c.name().len());
            assert(Code::SbasL5i.name().len() != Code::GalE1x.name().len());
            assert(Code::SbasL5i.name().len() != Code::GalE6b.name().len());
            assert(Code::SbasL5i.name().len() != Code::GalE6c.name().len());
            assert(Code::SbasL5i.name().len() != Code::GalE6x.name().len());
            assert(Code::SbasL5i.name()[0] != Code::GalE7i.name()[0]);
            assert(Code::SbasL5i.name()[0] != Code::GalE7q.name()[0]);
            assert(Code::SbasL5i.name().len() != Code::GalE7x.name().len());
            assert(Code::SbasL5i.name().len() != Code::GalE8i.name().len());
            assert(Code::SbasL5i.name().len() != Code::GalE8q.name().len());
            assert(Code::SbasL5i.name().len() != Code::GalE8x.name().len());
            assert(Code::SbasL5i.name()[0] != Code::GalE5i.name()[0]);
            assert(Code::SbasL5i.name()[0] != Code::GalE5q.name()[0]);
            assert(Code::SbasL5i.name().len() != Code::GalE5x.name().len());
            assert(Code::SbasL5i.name().len() != Code::GloL1p.name().len());
            assert(Code::SbasL5i.name().len() != Code::GloL2p.name().len());
            assert(Code::SbasL5i.name()[0] != Code::QzsL1ca.name()[0]);
            assert(Code::SbasL5i.name()[0] != Code::QzsL1ci.name()[0]);
            assert(Code::SbasL5i.name()[0] != Code::QzsL1cq.name()[0]);
            assert(Code::SbasL5i.name()[0] != Code::QzsL1cx.name()[0]);
            assert(Code::SbasL5i.name()[0] != Code::QzsL2cm.name()[0]);
            assert(Code::SbasL5i.name()[0] != Code::QzsL2cl.name()[0]);
            assert(Code::SbasL5i.name().len() != Code::QzsL2cx.name().len());
            assert(Code::SbasL5i.name().len() != Code::QzsL5i.name().len());
            assert(Code::SbasL5i.name().len() != Code::QzsL5q.name().len());
            assert(Code::SbasL5i.name().len() != Code::QzsL5x.name().len());
        },
        Code::SbasL5q => {
            assert(Code::SbasL5q.name()[0] != Code::GpsL1ca.name()[0]);
            assert(Code::SbasL5q.name()[0] != Code::GpsL2cm.name()[0]);
            assert(Code::SbasL5q.name().len() != Code::SbasL1ca.name().len());
            assert(Code::SbasL5q.name()[0] != Code::GloL1of.name()[0]);
            assert(Code::SbasL5q.name()[0] != Code::GloL2of.name()[0]);
            assert(Code::SbasL5q.name().len() != Code::GpsL1p.name().len());
            assert(Code::SbasL5q.name().len() != Code::GpsL2p.name().len());
            assert(Code::SbasL5q.name()[0] != Code::GpsL2cl.name()[0]);
            assert(Code::SbasL5q.name().len() != Code::GpsL2cx.name().len());
            assert(Code::SbasL5q.name().len() != Code::GpsL5i.name().len());
            assert(Code::SbasL5q.name().len() != Code::GpsL5q.name().len());
            assert(Code::SbasL5q.name().len() != Code::GpsL5x.name().len());
            assert(Code::SbasL5q.name().len() != Code::Bds2B1.name().len());
            assert(Code::SbasL5q.name().len() != Code::Bds2B2.name().len());
            assert(Code::SbasL5q.name().len() != Code::GalE1b.name().len());
            assert(Code::SbasL5q.name().len() != Code::GalE1c.name().len());
            assert(Code::SbasL5q.name().len() != Code::GalE1x.name().len());
            assert(Code::SbasL5q.name().len() != Code::GalE6b.name().len());
            assert(Code::SbasL5q.name().len() != Code::GalE6c.name().len());
            assert(Code::SbasL5q.name().len() != Code::GalE6x.name().len());
            assert(Code::SbasL5q.name()[0] != Code::GalE7i.name()[0]);
            assert(Code::SbasL5q.name()[0] != Code::GalE7q.name()[0]);
            assert(Code::SbasL5q.name().len() != Code::GalE7x.name().len());
            assert(Code::SbasL5q.name().len() != Code::GalE8i.name().len());
            assert(Code::SbasL5q.name().len() != Code::GalE8q.name().len());
            assert(Code::SbasL5q.name().len() != Code::GalE8x.name().len());
            assert(Code::SbasL5q.name()[0] != Code::GalE5i.name()[0]);
            assert(Code::SbasL5q.name()[0] != Code::GalE5q.name()[0]);
            assert(Code::SbasL5q.name().len() != Code::GalE5x.name().len());
            assert(Code::SbasL5q.name().len() != Code::GloL1p.name().len());
            assert(Code::SbasL5q.name().len() != Code::GloL2p.name().len());
            assert(Code::SbasL5q.name()[0] != Code::QzsL1ca.name()[0]);
            assert(Code::SbasL5q.name()[0] != Code::QzsL1ci.name()[0]);
            assert(Code::SbasL5q.name()[0] != Code::QzsL1cq.name()[0]);
            assert(Code::SbasL5q.name()[0] != Code::QzsL1cx.name()[0]);
            assert(Code::SbasL5q.name()[0] != Code::QzsL2cm.name()[0]);
            assert(Code::SbasL5q.name()[0] != Code::QzsL2cl.name()[0]);
            assert(Code::SbasL5q.name().len() != Code::QzsL2cx.name().len());
            assert(Code::SbasL5q.name().len() != Code::QzsL5i.name().len());
            assert(Code::SbasL5q.name().len() != Code::QzsL5q.name().len());
            assert(Code::SbasL5q.name().len() != Code::QzsL5x.name().len());
            assert(Code::SbasL5q.name()[7] != Code::SbasL5i.name()[7]);
        },
        Code::SbasL5x => {
            assert(Code::SbasL5x.name().len() != Code::GpsL1ca.name().len());
            assert(Code::SbasL5x.name().len() != Code::GpsL2cm.name().len());
            assert(Code::SbasL5x.name()[6] != Code::SbasL1ca.name()[6]);
            assert(Code::SbasL5x.name().len() != Code::GloL1of.name().len());
            assert(Code::SbasL5x.name().len() != Code::GloL2of.name().len());
            assert(Code::SbasL5x.name()[0] != Code::GpsL1p.name()[0]);
            assert(Code::SbasL5x.name()[0] != Code::GpsL2p.name()[0]);
            assert(Code::SbasL5x.name().len() != Code::GpsL2cl.name().len());
            assert(Code::SbasL5x.name()[0] != Code::GpsL2cx.name()[0]);
            assert(Code::SbasL5x.name()[0] != Code::GpsL5i.name()[0]);
            assert(Code::SbasL5x.name()[0] != Code::GpsL5q.name()[0]);
            assert(Code::SbasL5x.name().len() != Code::GpsL5x.name().len());
            assert(Code::SbasL5x.name().len() != Code::Bds2B1.name().len());
            assert(Code::SbasL5x.name().len() != Code::Bds2B2.name().len());
            assert(Code::SbasL5x.name()[0] != Code::GalE1b.name()[0]);
            assert(Code::SbasL5x.name()[0] != Code::GalE1c.name()[0]);
            assert(Code::SbasL5x.name().len() != Code::GalE1x.name().len());
            assert(Code::SbasL5x.name()[0] != Code::GalE6b.name()[0]);
            assert(Code::SbasL5x.name()[0] != Code::GalE6c.name()[0]);
            assert(Code::SbasL5x.name().len() != Code::GalE6x.name().len());
            assert(Code::SbasL5x.name().len() != Code::GalE7i.name().len());
            assert(Code::SbasL5x.name().len() != Code::GalE7q.name().len());
            assert(Code::SbasL5x.name()[0] != Code::GalE7x.name()[0]);
            assert(Code::SbasL5x.name()[0] != Code::GalE8i.name()[0]);
            assert(Code::SbasL5x.name()[0] != Code::GalE8q.name()[0]);
            assert(Code::SbasL5x.name().len() != Code::GalE8x.name().len());
            assert(Code::SbasL5x.name().len() != Code::GalE5i.name().len());
            assert(Code::SbasL5x.name().len() != Code::GalE5q.name().len());
            assert(Code::SbasL5x.name()[0] != Code::GalE5x.name()[0]);
            assert(Code::SbasL5x.name()[0] != Code::GloL1p.name()[0]);
            assert(Code::SbasL5x.name()[0] != Code::GloL2p.name()[0]);
            assert(Code::SbasL5x.name().len() != Code::QzsL1ca.name().len());
            assert(Code::SbasL5x.name().len() != Code::QzsL1ci.name().len());
            assert(Code::SbasL5x.name().len() != Code::QzsL1cq.name().len());
            assert(Code::SbasL5x.name().len() != Code::QzsL1cx.name().len());
            assert(Code::SbasL5x.name().len() != Code::QzsL2cm.name().len());
            assert(Code::SbasL5x.name().len() != Code::QzsL2cl.name().len());
            assert(Code::SbasL5x.name()[0] != Code::QzsL2cx.name()[0]);
            assert(Code::SbasL5x.name()[0] != Code::QzsL5i.name()[0]);
            assert(Code::SbasL5x.name()[0] != Code::QzsL5q.name()[0]);
            assert(Code::SbasL5x.name().len() != Code::QzsL5x.name().len());
            assert(Code::SbasL5x.name().len() != Code::SbasL5i.name().len());
            assert(Code::SbasL5x.name().len() != Code::SbasL5q.name().len());
        },
        Code::Bds3B1ci => {
            assert(Code::Bds3B1ci.name().len() != Code::GpsL1ca.name().len());
            assert(Code::Bds3B1ci.name().len() != Code::GpsL2cm.name().len());
            assert(Code::Bds3B1ci.name().len() != Code::SbasL1ca.name().len());
            assert(Code::Bds3B1ci.name().len() != Code::GloL1of.name().len());
            assert(Code::Bds3B1ci.name().len() != Code::GloL2of.name().len());
            assert(Code::Bds3B1ci.name().len() != Code::GpsL1p.name().len());
            assert(Code::Bds3B1ci.name().len() != Code::GpsL2p.name().len());
            assert(Code::Bds3B1ci.name().len() != Code::GpsL2cl.name().len());
            assert(Code::Bds3B1ci.name().len() != Code::GpsL2cx.name().len());
            assert(Code::Bds3B1ci.name().len() != Code::GpsL5i.name().len());
            assert(Code::Bds3B1ci.name().len() != Code::GpsL5q.name().len());
            assert(Code::Bds3B1ci.name().len() != Code::GpsL5x.name().len());
            assert(Code::Bds3B1ci.name().len() != Code::Bds2B1.name().len());
            assert(Code::Bds3B1ci.name().len() != Code::Bds2B2.name().len());
            assert(Code::Bds3B1ci.name().len() != Code::GalE1b.name().len());
            assert(Code::Bds3B1ci.name().len() != Code::GalE1c.name().len());
            assert(Code::Bds3B1ci.name().len() != Code::GalE1x.name().len());
            assert(Code::Bds3B1ci.name().len() != Code::GalE6b.name().len());
            assert(Code::Bds3B1ci.name().len() != Code::GalE6c.name().len());
            assert(Code::Bds3B1ci.name().len() != Code::GalE6x.name().len());
            assert(Code::Bds3B1ci.name().len() != Code::GalE7i.name().len());
            assert(Code::Bds3B1ci.name().len() != Code::GalE7q.name().len());
            assert(Code::Bds3B1ci.name().len() != Code::GalE7x.name().len());
            assert(Code::Bds3B1ci.name().len() != Code::GalE8i.name().len());
            assert(Code::Bds3B1ci.name().len() != Code::GalE8q.name().len());
            assert(Code::Bds3B1ci.name().len() != Code::GalE8x.name().len());
            assert(Code::Bds3B1ci.name().len() != Code::GalE5i.name().len());
            assert(Code::Bds3B1ci.name().len() != Code::GalE5q.name().len());
            assert(Code::Bds3B1ci.name().len() != Code::GalE5x.name().len());
            assert(Code::Bds3B1ci.name().len() != Code::GloL1p.name().len());
            assert(Code::Bds3B1ci.name().len() != Code::GloL2p.name().len());
            assert(Code::Bds3B1ci.name().len() != Code::QzsL1ca.name().len());
            assert(Code::Bds3B1ci.name().len() != Code::QzsL1ci.name().len());
            assert(Code::Bds3B1ci.name().len() != Code::QzsL1cq.name().len());
            assert(Code::Bds3B1ci.name().len() != Code::QzsL1cx.name().len());
            assert(Code::Bds3B1ci.name().len() != Code::QzsL2cm.name().len());
            assert(Code::Bds3B1ci.name().len() != Code::QzsL2cl.name().len());
            assert(Code::Bds3B1ci.name().len() != Code::QzsL2cx.name().len());
            assert(Code::Bds3B1ci.name().len() != Code::QzsL5i.name().len());
            assert(Code::Bds3B1ci.name().len() != Code::QzsL5q.name().len());
            assert(Code::Bds3B1ci.name().len() != Code::QzsL5x.name().len());
            assert(Code::Bds3B1ci.name().len() != Code::SbasL5i.name().len());
            assert(Code::Bds3B1ci.name().len() != Code::SbasL5q.name().len());
            assert(Code::Bds3B1ci.name().len() != Code::SbasL5x.name().len());
        },
        Code::Bds3B1cq => {
            assert(Code::Bds3B1cq.name().len() != Code::GpsL1ca.name().len());
            assert(Code::Bds3B1cq.name().len() != Code::GpsL2cm.name().len());
            assert(Code::Bds3B1cq.name().len() != Code::SbasL1ca.name().len());
            assert(Code::Bds3B1cq.name().len() != Code::GloL1of.name().len());
            assert(Code::Bds3B1cq.name().len() != Code::GloL2of.name().len());
            assert(Code::Bds3B1cq.name().len() != Code::GpsL1p.name().len());
            assert(Code::Bds3B1cq.name().len() != Code::GpsL2p.name().len());
            assert(Code::Bds3B1cq.name().len() != Code::GpsL2cl.name().len());
            assert(Code::Bds3B1cq.name().len() != Code::GpsL2cx.name().len());
            assert(Code::Bds3B1cq.name().len() != Code::GpsL5i.name().len());
            assert(Code::Bds3B1cq.name().len() != Code::GpsL5q.name().len());
            assert(Code::Bds3B1cq.name().len() != Code::GpsL5x.name().len());
            assert(Code::Bds3B1cq.name().len() != Code::Bds2B1.name().len());
            assert(Code::Bds3B1cq.name().len() != Code::Bds2B2.name().len());
            assert(Code::Bds3B1cq.name().len() != Code::GalE1b.name().len());
            assert(Code::Bds3B1cq.name().len() != Code::GalE1c.name().len());
            assert(Code::Bds3B1cq.name().len() != Code::GalE1x.name().len());
            assert(Code::Bds3B1cq.name().len() != Code::GalE6b.name().len());
            assert(Code::Bds3B1cq.name().len() != Code::GalE6c.name().len());
            assert(Code::Bds3B1cq.name().len() != Code::GalE6x.name().len());
            assert(Code::Bds3B1cq.name().len() != Code::GalE7i.name().len());
            assert(Code::Bds3B1cq.name().len() != Code::GalE7q.name().len());
            assert(Code::Bds3B1cq.name().len() != Code::GalE7x.name().len());
            assert(Code::Bds3B1cq.name().len() != Code::GalE8i.name().len());
            assert(Code::Bds3B1cq.name().len() != Code::GalE8q.name().len());
            assert(Code::Bds3B1cq.name().len() != Code::GalE8x.name().len());
            assert(Code::Bds3B1cq.name().len() != Code::GalE5i.name().len());
            assert(Code::Bds3B1cq.name().len() != Code::GalE5q.name().len());
            assert(Code::Bds3B1cq.name().len() != Code::GalE5x.name().len());
            assert(Code::Bds3B1cq.name().len() != Code::GloL1p.name().len());
            assert(Code::Bds3B1cq.name().len() != Code::GloL2p.name().len());
            assert(Code::Bds3B1cq.name().len() != Code::QzsL1ca.name().len());
            assert(Code::Bds3B1cq.name().len() != Code::QzsL1ci.name().len());
            assert(Code::Bds3B1cq.name().len() != Code::QzsL1cq.name().len());
            assert(Code::Bds3B1cq.name().len() != Code::QzsL1cx.name().len());
            assert(Code::Bds3B1cq.name().len() != Code::QzsL2cm.name().len());
            assert(Code::Bds3B1cq.name().len() != Code::QzsL2cl.name().len());
            assert(Code::Bds3B1cq.name().len() != Code::QzsL2cx.name().len());
            assert(Code::Bds3B1cq.name().len() != Code::QzsL5i.name().len());
            assert(Code::Bds3B1cq.name().len() != Code::QzsL5q.name().len());
            assert(Code::Bds3B1cq.name().len() != Code::QzsL5x.name().len());
            assert(Code::Bds3B1cq.name().len() != Code::SbasL5i.name().len());
            assert(Code::Bds3B1cq.name().len() != Code::SbasL5q.name().len());
            assert(Code::Bds3B1cq.name().len() != Code::SbasL5x.name().len());
            assert(Code::Bds3B1cq.name()[8] != Code::Bds3B1ci.name()[8]);
        },
        Code::Bds3B1cx => {
            assert(Code::Bds3B1cx.name()[0] != Code::GpsL1ca.name()[0]);
            assert(Code::Bds3B1cx.name()[0] != Code::GpsL2cm.name()[0]);
            assert(Code::Bds3B1cx.name().len() != Code::SbasL1ca.name().len());
            assert(Code::Bds3B1cx.name()[0] != Code::GloL1of.name()[0]);
            assert(Code::Bds3B1cx.name()[0] != Code::GloL2of.name()[0]);
            assert(Code::Bds3B1cx.name().len() != Code::GpsL1p.name().len());
            assert(Code::Bds3B1cx.name().len() != Code::GpsL2p.name().len());
            assert(Code::Bds3B1cx.name()[0] != Code::GpsL2cl.name()[0]);
            assert(Code::Bds3B1cx.name().len() != Code::GpsL2cx.name().len());
            assert(Code::Bds3B1cx.name().len() != Code::GpsL5i.name().len());
            assert(Code::Bds3B1cx.name().len() != Code::GpsL5q.name().len());
            assert(Code::Bds3B1cx.name().len() != Code::GpsL5x.name().len());
            assert(Code::Bds3B1cx.name().len() != Code::Bds2B1.name().len());
            assert(Code::Bds3B1cx.name().len() != Code::Bds2B2.name().len());
            assert(Code::Bds3B1cx.name().len() != Code::GalE1b.name().len());
            assert(Code::Bds3B1cx.name().len() != Code::GalE1c.name().len());
            assert(Code::Bds3B1cx.name().len() != Code::GalE1x.name().len());
            assert(Code::Bds3B1cx.name().len() != Code::GalE6b.name().len());
            assert(Code::Bds3B1cx.name().len() != Code::GalE6c.name().len());
            assert(Code::Bds3B1cx.name().len() != Code::GalE6x.name().len());
            assert(Code::Bds3B1cx.name()[0] != Code::GalE7i.name()[0]);
            assert(Code::Bds3B1cx.name()[0] != Code::GalE7q.name()[0]);
            assert(Code::Bds3B1cx.name().len() != Code::GalE7x.name().len());
            assert(Code::Bds3B1cx.name().len() != Code::GalE8i.name().len());
            assert(Code::Bds3B1cx.name().len() != Code::GalE8q.name().len());
            assert(Code::Bds3B1cx.name().len() != Code::GalE8x.name().len());
            assert(Code::Bds3B1cx.name()[0] != Code::GalE5i.name()[0]);
            assert(Code::Bds3B1cx.name()[0] != Code::GalE5q.name()[0]);
            assert(Code::Bds3B1cx.name().len() != Code::GalE5x.name().len());
            assert(Code::Bds3B1cx.name().len() != Code::GloL1p.name().len());
            assert(Code::Bds3B1cx.name().len() != Code::GloL2p.name().len());
            assert(Code::Bds3B1cx.name()[0] != Code::QzsL1ca.name()[0]);
            assert(Code::Bds3B1cx.name()[0] != Code::QzsL1ci.name()[0]);
            assert(Code::Bds3B1cx.name()[0] != Code::QzsL1cq.name()[0]);
            assert(Code::Bds3B1cx.name()[0] != Code::QzsL1cx.name()[0]);
            assert(Code::Bds3B1cx.name()[0] != Code::QzsL2cm.name()[0]);
            assert(Code::Bds3B1cx.name()[0] != Code::QzsL2cl.name()[0]);
            assert(Code::Bds3B1cx.name().len() != Code::QzsL2cx.name().len());
            assert(Code::Bds3B1cx.name().len() != Code::QzsL5i.name().len());
            assert(Code::Bds3B1cx.name().len() != Code::QzsL5q.name().len());
            assert(Code::Bds3B1cx.name().len() != Code::QzsL5x.name().len());
            assert(Code::Bds3B1cx.name()[0] != Code::SbasL5i.name()[0]);
            assert(Code::Bds3B1cx.name()[0] != Code::SbasL5q.name()[0]);
            assert(Code::Bds3B1cx.name().len() != Code::SbasL5x.name().len());
            assert(Code::Bds3B1cx.name().len() != Code::Bds3B1ci.name().len());
            assert(Code::Bds3B1cx.name().len() != Code::Bds3B1cq.name().len());
        },
        Code::Bds3B5i => {
            assert(Code::Bds3B5i.name()[0] != Code::GpsL1ca.name()[0]);
            assert(Code::Bds3B5i.name()[0] != Code::GpsL2cm.name()[0]);
            assert(Code::Bds3B5i.name().len() != Code::SbasL1ca.name().len());
            assert(Code::Bds3B5i.name()[0] != Code::GloL1of.name()[0]);
            assert(Code::Bds3B5i.name()[0] != Code::GloL2of.name()[0]);
            assert(Code::Bds3B5i.name().len() != Code::GpsL1p.name().len());
            assert(Code::Bds3B5i.name().len() != Code::GpsL2p.name().len());
            assert(Code::Bds3B5i.name()[0] != Code::GpsL2cl.name()[0]);
            assert(Code::Bds3B5i.name().len() != Code::GpsL2cx.name().len());
            assert(Code::Bds3B5i.name().len() != Code::GpsL5i.name().len());
            assert(Code::Bds3B5i.name().len() != Code::GpsL5q.name().len());
            assert(Code::Bds3B5i.name().len() != Code::GpsL5x.name().len());
            assert(Code::Bds3B5i.name().len() != Code::Bds2B1.name().len());
            assert(Code::Bds3B5i.name().len() != Code::Bds2B2.name().len());
            assert(Code::Bds3B5i.name().len() != Code::GalE1b.name().len());
            assert(Code::Bds3B5i.name().len() != Code::GalE1c.name().len());
            assert(Code::Bds3B5i.name().len() != Code::GalE1x.name().len());
            assert(Code::Bds3B5i.name().len() != Code::GalE6b.name().len());
            assert(Code::Bds3B5i.name().len() != Code::GalE6c.name().len());
            assert(Code::Bds3B5i.name().len() != Code::GalE6x.name().len());
            assert(Code::Bds3B5i.name()[0] != Code::GalE7i.name()[0]);
            assert(Code::Bds3B5i.name()[0] != Code::GalE7q.name()[0]);
            assert(Code::Bds3B5i.name().len() != Code::GalE7x.name().len());
            assert(Code::Bds3B5i.name().len() != Code::GalE8i.name().len());
            assert(Code::Bds3B5i.name().len() != Code::GalE8q.name().len());
            assert(Code::Bds3B5i.name().len() != Code::GalE8x.name().len());
            assert(Code::Bds3B5i.name()[0] != Code::GalE5i.name()[0]);
            assert(Code::Bds3B5i.name()[0] != Code::GalE5q.name()[0]);
            assert(Code::Bds3B5i.name().len() != Code::GalE5x.name().len());
            assert(Code::Bds3B5i.name().len() != Code::GloL1p.name().len());
            assert(Code::Bds3B5i.name().len() != Code::GloL2p.name().len());
            assert(Code::Bds3B5i.name()[0] != Code::QzsL1ca.name()[0]);
            assert(Code::Bds3B5i.name()[0] != Code::QzsL1ci.name()[0]);
            assert(Code::Bds3B5i.name()[0] != Code::QzsL1cq.name()[0]);
            assert(Code::Bds3B5i.name()[0] != Code::QzsL1cx.name()[0]);
            assert(Code::Bds3B5i.name()[0] != Code::QzsL2cm.name()[0]);
            assert(Code::Bds3B5i.name()[0] != Code::QzsL2cl.name()[0]);
            assert(Code::Bds3B5i.name().len() != Code::QzsL2cx.name().len());
            assert(Code::Bds3B5i.name().len() != Code::QzsL5i.name().len());
            assert(Code::Bds3B5i.name().len() != Code::QzsL5q.name().len());
            assert(Code::Bds3B5i.name().len() != Code::QzsL5x.name().len());
            assert(Code::Bds3B5i.name()[0] != Code::SbasL5i.name()[0]);
            assert(Code::Bds3B5i.name()[0] != Code::SbasL5q.name()[0]);
            assert(Code::Bds3B5i.name().len() != Code::SbasL5x.name().len());
            assert(Code::Bds3B5i.name().len() != Code::Bds3B1ci.name().len());
            assert(Code::Bds3B5i.name().len() != Code::Bds3B1cq.name().len());
            assert(Code::Bds3B5i.name()[6] != Code::Bds3B1cx.name()[6]);
        },
        Code::Bds3B5q => {
            assert(Code::Bds3B5q.name()[0] != Code::GpsL1ca.name()[0]);
            assert(Code::Bds3B5q.name()[0] != Code::GpsL2cm.name()[0]);
            assert(Code::Bds3B5q.name().len() != Code::SbasL1ca.name().len());
            assert(Code::Bds3B5q.name()[0] != Code::GloL1of.name()[0]);
            assert(Code::Bds3B5q.name()[0] != Code::GloL2of.name()[0]);
            assert(Code::Bds3B5q.name().len() != Code::GpsL1p.name().len());
            assert(Code::Bds3B5q.name().len() != Code::GpsL2p.name().len());
            assert(Code::Bds3B5q.name()[0] != Code::GpsL2cl.name()[0]);
            assert(Code::Bds3B5q.name().len() != Code::GpsL2cx.name().len());
            assert(Code::Bds3B5q.name().len() != Code::GpsL5i.name().len());
            assert(Code::Bds3B5q.name().len() != Code::GpsL5q.name().len());
            assert(Code::Bds3B5q.name().len() != Code::GpsL5x.name().len());
            assert(Code::Bds3B5q.name().len() != Code::Bds2B1.name().len());
            assert(Code::Bds3B5q.name().len() != Code::Bds2B2.name().len());
            assert(Code::Bds3B5q.name().len() != Code::GalE1b.name().len());
            assert(Code::Bds3B5q.name().len() != Code::GalE1c.name().len());
            assert(Code::Bds3B5q.name().len() != Code::GalE1x.name().len());
            assert(Code::Bds3B5q.name().len() != Code::GalE6b.name().len());
            assert(Code::Bds3B5q.name().len() != Code::GalE6c.name().len());
            assert(Code::Bds3B5q.name().len() != Code::GalE6x.name().len());
            assert(Code::Bds3B5q.name()[0] != Code::GalE7i.name()[0]);
            assert(Code::Bds3B5q.name()[0] != Code::GalE7q.name()[0]);
            assert(Code::Bds3B5q.name().len() != Code::GalE7x.name().len());
            assert(Code::Bds3B5q.name().len() != Code::GalE8i.name().len());
            assert(Code::Bds3B5q.name().len() != Code::GalE8q.name().len());
            assert(Code::Bds3B5q.name().len() != Code::GalE8x.name().len());
            assert(Code::Bds3B5q.name()[0] != Code::GalE5i.name()[0]);
            assert(Code::Bds3B5q.name()[0] != Code::GalE5q.name()[0]);
            assert(Code::Bds3B5q.name().len() != Code::GalE5x.name().len());
            assert(Code::Bds3B5q.name().len() != Code::GloL1p.name().len());
            assert(Code::Bds3B5q.name().len() != Code::GloL2p.name().len());
            assert(Code::Bds3B5q.name()[0] != Code::QzsL1ca.name()[0]);
            assert(Code::Bds3B5q.name()[0] != Code::QzsL1ci.name()[0]);
            assert(Code::Bds3B5q.name()[0] != Code::QzsL1cq.name()[0]);
            assert(Code::Bds3B5q.name()[0] != Code::QzsL1cx.name()[0]);
            assert(Code::Bds3B5q.name()[0] != Code::QzsL2cm.name()[0]);
            assert(Code::Bds3B5q.name()[0] != Code::QzsL2cl.name()[0]);
            assert(Code::Bds3B5q.name().len() != Code::QzsL2cx.name().len());
            assert(Code::Bds3B5q.name().len() != Code::QzsL5i.name().len());
            assert(Code::Bds3B5q.name().len() != Code::QzsL5q.name().len());
            assert(Code::Bds3B5q.name().len() != Code::QzsL5x.name().len());
            assert(Code::Bds3B5q.name()[0] != Code::SbasL5i.name()[0]);
            assert(Code::Bds3B5q.name()[0] != Code::SbasL5q.name()[0]);
            assert(Code::Bds3B5q.name().len() != Code::SbasL5x.name().len());
            assert(Code::Bds3B5q.name().len() != Code::Bds3B1ci.name().len());
            assert(Code::Bds3B5q.name().len() != Code::Bds3B1cq.name().len());
            assert(Code::Bds3B5q.name()[6] != Code::Bds3B1cx.name()[6]);
            assert(Code::Bds3B5q.name()[7] != Code::Bds3B5i.name()[7]);
        },
        Code::Bds3B5x => {
            assert(Code::Bds3B5x.name().len() != Code::GpsL1ca.name().len());
            assert(Code::Bds3B5x.name().len() != Code::GpsL2cm.name().len());
            assert(Code::Bds3B5x.name()[0] != Code::SbasL1ca.name()[0]);
            assert(Code::Bds3B5x.name().len() != Code::GloL1of.name().len());
            assert(Code::Bds3B5x.name().len() != Code::GloL2of.name().len());
            assert(Code::Bds3B5x.name()[0] != Code::GpsL1p.name()[0]);
            assert(Code::Bds3B5x.name()[0] != Code::GpsL2p.name()[0]);
            assert(Code::Bds3B5x.name().len() != Code::GpsL2cl.name().len());
            assert(Code::Bds3B5x.name()[0] != Code::GpsL2cx.name()[0]);
            assert(Code::Bds3B5x.name()[0] != Code::GpsL5i.name()[0]);
            assert(Code::Bds3B5x.name()[0] != Code::GpsL5q.name()[0]);
            assert(Code::Bds3B5x.name().len() != Code::GpsL5x.name().len());
            assert(Code::Bds3B5x.name().len() != Code::Bds2B1.name().len());
            assert(Code::Bds3B5x.name().len() != Code::Bds2B2.name().len());
            assert(Code::Bds3B5x.name()[0] != Code::GalE1b.name()[0]);
            assert(Code::Bds3B5x.name()[0] != Code::GalE1c.name()[0]);
            assert(Code::Bds3B5x.name().len() != Code::GalE1x.name().len());
            assert(Code::Bds3B5x.name()[0] != Code::GalE6b.name()[0]);
            assert(Code::Bds3B5x.name()[0] != Code::GalE6c.name()[0]);
            assert(Code::Bds3B5x.name().len() != Code::GalE6x.name().len());
            assert(Code::Bds3B5x.name().len() != Code::GalE7i.name().len());
            assert(Code::Bds3B5x.name().len() != Code::GalE7q.name().len());
            assert(Code::Bds3B5x.name()[0] != Code::GalE7x.name()[0]);
            assert(Code::Bds3B5x.name()[0] != Code::GalE8i.name()[0]);
            assert(Code::Bds3B5x.name()[0] != Code::GalE8q.name()[0]);
            assert(Code::Bds3B5x.name().len() != Code::GalE8x.name().len());
            assert(Code::Bds3B5x.name().len() != Code::GalE5i.name().len());
            assert(Code::Bds3B5x.name().len() != Code::GalE5q.name().len());
            assert(Code::Bds3B5x.name()[0] != Code::GalE5x.name()[0]);
            assert(Code::Bds3B5x.name()[0] != Code::GloL1p.name()[0]);
            assert(Code::Bds3B5x.name()[0] != Code::GloL2p.name()[0]);
            assert(Code::Bds3B5x.name().len() != Code::QzsL1ca.name().len());
            assert(Code::Bds3B5x.name().len() != Code::QzsL1ci.name().len());
            assert(Code::Bds3B5x.name().len() != Code::QzsL1cq.name().len());
            assert(Code::Bds3B5x.name().len() != Code::QzsL1cx.name().len());
            assert(Code::Bds3B5x.name().len() != Code::QzsL2cm.name().len());
            assert(Code::Bds3B5x.name().len() != Code::QzsL2cl.name().len());
            assert(Code::Bds3B5x.name()[0] != Code::QzsL2cx.name()[0]);
            assert(Code::Bds3B5x.name()[0] != Code::QzsL5i.name()[0]);
            assert(Code::Bds3B5x.name()[0] != Code::QzsL5q.name()[0]);
            assert(Code::Bds3B5x.name().len() != Code::QzsL5x.name().len());
            assert(Code::Bds3B5x.name().len() != Code::SbasL5i.name().len());
            assert(Code::Bds3B5x.name().len() != Code::SbasL5q.name().len());
            assert(Code::Bds3B5x.name()[0] != Code::SbasL5x.name()[0]);
            assert(Code::Bds3B5x.name().len() != Code::Bds3B1ci.name().len());
            assert(Code::Bds3B5x.name().len() != Code::Bds3B1cq.name().len());
            assert(Code::Bds3B5x.name().len() != Code::Bds3B1cx.name().len());
            assert(Code::Bds3B5x.name().len() != Code::Bds3B5i.name().len());
            assert(Code::Bds3B5x.name().len() != Code::Bds3B5q.name().len());
        },
        Code::Bds3B7i => {
            assert(Code::Bds3B7i.name()[0] != Code::GpsL1ca.name()[0]);
            assert(Code::Bds3B7i.name()[0] != Code::GpsL2cm.name()[0]);
            assert(Code::Bds3B7i.name().len() != Code::SbasL1ca.name().len());
            assert(Code::Bds3B7i.name()[0] != Code::GloL1of.name()[0]);
            assert(Code::Bds3B7i.name()[0] != Code::GloL2of.name()[0]);
            assert(Code::Bds3B7i.name().len() != Code::GpsL1p.name().len());
            assert(Code::Bds3B7i.name().len() != Code::GpsL2p.name().len());
            assert(Code::Bds3B7i.name()[0] != Code::GpsL2cl.name()[0]);
            assert(Code::Bds3B7i.name().len() != Code::GpsL2cx.name().len());
            assert(Code::Bds3B7i.name().len() != Code::GpsL5i.name().len());
            assert(Code::Bds3B7i.name().len() != Code::GpsL5q.name().len());
            assert(Code::Bds3B7i.name().len() != Code::GpsL5x.name().len());
            assert(Code::Bds3B7i.name().len() != Code::Bds2B1.name().len());
            assert(Code::Bds3B7i.name().len() != Code::Bds2B2.name().len());
            assert(Code::Bds3B7i.name().len() != Code::GalE1b.name().len());
            assert(Code::Bds3B7i.name().len() != Code::GalE1c.name().len());
            assert(Code::Bds3B7i.name().len() != Code::GalE1x.name().len());
            assert(Code::Bds3B7i.name().len() != Code::GalE6b.name().len());
            assert(Code::Bds3B7i.name().len() != Code::GalE6c.name().len());
            assert(Code::Bds3B7i.name().len() != Code::GalE6x.name().len());
            assert(Code::Bds3B7i.name()[0] != Code::GalE7i.name()[0]);
            assert(Code::Bds3B7i.name()[0] != Code::GalE7q.name()[0]);
            assert(Code::Bds3B7i.name().len() != Code::GalE7x.name().len());
            assert(Code::Bds3B7i.name().len() != Code::GalE8i.name().len());
            assert(Code::Bds3B7i.name().len() != Code::GalE8q.name().len());
            assert(Code::Bds3B7i.name().len() != Code::GalE8x.name().len());
            assert(Code::Bds3B7i.name()[0] != Code::GalE5i.name()[0]);
            assert(Code::Bds3B7i.name()[0] != Code::GalE5q.name()[0]);
            assert(Code::Bds3B7i.name().len() != Code::GalE5x.name().len());
            assert(Code::Bds3B7i.name().len() != Code::GloL1p.name().len());
            assert(Code::Bds3B7i.name().len() != Code::GloL2p.name().len());
            assert(Code::Bds3B7i.name()[0] != Code::QzsL1ca.name()[0]);
            assert(Code::Bds3B7i.name()[0] != Code::QzsL1ci.name()[0]);
            assert(Code::Bds3B7i.name()[0] != Code::QzsL1cq.name()[0]);
            assert(Code::Bds3B7i.name()[0] != Code::QzsL1cx.name()[0]);
            assert(Code::Bds3B7i.name()[0] != Code::QzsL2cm.name()[0]);
            assert(Code::Bds3B7i.name()[0] != Code::QzsL2cl.name()[0]);
            assert(Code::Bds3B7i.name().len() != Code::QzsL2cx.name().len());
            assert(Code::Bds3B7i.name().len() != Code::QzsL5i.name().len());
            assert(Code::Bds3B7i.name().len() != Code::QzsL5q.name().len());
            assert(Code::Bds3B7i.name().len() != Code::QzsL5x.name().len());
            assert(Code::Bds3B7i.name()[0] != Code::SbasL5i.name()[0]);
            assert(Code::Bds3B7i.name()[0] != Code::SbasL5q.name()[0]);
            assert(Code::Bds3B7i.name().len() != Code::SbasL5x.name().len());
            assert(Code::Bds3B7i.name().len() != Code::Bds3B1ci.name().len());
            assert(Code::Bds3B7i.name().len() != Code::Bds3B1cq.name().len());
            assert(Code::Bds3B7i.name()[6] != Code::Bds3B1cx.name()[6]);
            assert(Code::Bds3B7i.name()[6] != Code::Bds3B5i.name()[6]);
            assert(Code::Bds3B7i.name()[6] != Code::Bds3B5q.name()[6]);
            assert(Code::Bds3B7i.name().len() != Code::Bds3B5x.name().len());
        },
        Code::Bds3B7q => {
            assert(Code::Bds3B7q.name()[0] != Code::GpsL1ca.name()[0]);
            assert(Code::Bds3B7q.name()[0] != Code::GpsL2cm.name()[0]);
            assert(Code::Bds3B7q.name().len() != Code::SbasL1ca.name().len());
            assert(Code::Bds3B7q.name()[0] != Code::GloL1of.name()[0]);
            assert(Code::Bds3B7q.name()[0] != Code::GloL2of.name()[0]);
            assert(Code::Bds3B7q.name().len() != Code::GpsL1p.name().len());
            assert(Code::Bds3B7q.name().len() != Code::GpsL2p.name().len());
            assert(Code::Bds3B7q.name()[0] != Code::GpsL2cl.name()[0]);
            assert(Code::Bds3B7q.name().len() != Code::GpsL2cx.name().len());
            assert(Code::Bds3B7q.name().len() != Code::GpsL5i.name().len());
            assert(Code::Bds3B7q.name().len() != Code::GpsL5q.name().len());
            assert(Code::Bds3B7q.name().len() != Code::GpsL5x.name().len());
            assert(Code::Bds3B7q.name().len() != Code::Bds2B1.name().len());
            assert(Code::Bds3B7q.name().len() != Code::Bds2B2.name().len());
            assert(Code::Bds3B7q.name().len() != Code::GalE1b.name().len());
            assert(Code::Bds3B7q.name().len() != Code::GalE1c.name().len());
            assert(Code::Bds3B7q.name().len() != Code::GalE1x.name().len());
            assert(Code::Bds3B7q.name().len() != Code::GalE6b.name().len());
            assert(Code::Bds3B7q.name().len() != Code::GalE6c.name().len());
            assert(Code::Bds3B7q.name().len() != Code::GalE6x.name().len());
            assert(Code::Bds3B7q.name()[0] != Code::GalE7i.name()[0]);
            assert(Code::Bds3B7q.name()[0] != Code::GalE7q.name()[0]);
            assert(Code::Bds3B7q.name().len() != Code::GalE7x.name().len());
            assert(Code::Bds3B7q.name().len() != Code::GalE8i.name().len());
            assert(Code::Bds3B7q.name().len() != Code::GalE8q.name().len());
            assert(Code::Bds3B7q.name().len() != Code::GalE8x.name().len());
            assert(Code::Bds3B7q.name()[0] != Code::GalE5i.name()[0]);
            assert(Code::Bds3B7q.name()[0] != Code::GalE5q.name()[0]);
            assert(Code::Bds3B7q.name().len() != Code::GalE5x.name().len());
            assert(Code::Bds3B7q.name().len() != Code::GloL1p.name().len());
            assert(Code::Bds3B7q.name().len() != Code::GloL2p.name().len());
            assert(Code::Bds3B7q.name()[0] != Code::QzsL1ca.name()[0]);
            assert(Code::Bds3B7q.name()[0] != Code::QzsL1ci.name()[0]);
            assert(Code::Bds3B7q.name()[0] != Code::QzsL1cq.name()[0]);
            assert(Code::Bds3B7q.name()[0] != Code::QzsL1cx.name()[0]);
            assert(Code::Bds3B7q.name()[0] != Code::QzsL2cm.name()[0]);
            assert(Code::Bds3B7q.name()[0] != Code::QzsL2cl.name()[0]);
            assert(Code::Bds3B7q.name().len() != Code::QzsL2cx.name().len());
            assert(Code::Bds3B7q.name().len() != Code::QzsL5i.name().len());
            assert(Code::Bds3B7q.name().len() != Code::QzsL5q.name().len());
            assert(Code::Bds3B7q.name().len() != Code::QzsL5x.name().len());
            assert(Code::Bds3B7q.name()[0] != Code::SbasL5i.name()[0]);
            assert(Code::Bds3B7q.name()[0] != Code::SbasL5q.name()[0]);
            assert(Code::Bds3B7q.name().len() != Code::SbasL5x.name().len());
            assert(Code::Bds3B7q.name().len() != Code::Bds3B1ci.name().len());
            assert(Code::Bds3B7q.name().len() != Code::Bds3B1cq.name().len());
            assert(Code::Bds3B7q.name()[6] != Code::Bds3B1cx.name()[6]);
            assert(Code::Bds3B7q.name()[6] != Code::Bds3B5i.name()[6]);
            assert(Code::Bds3B7q.name()[6] != Code::Bds3B5q.name()[6]);
            assert(Code::Bds3B7q.name().len() != Code::Bds3B5x.name().len());
            assert(Code::Bds3B7q.name()[7] != Code::Bds3B7i.name()[7]);
        },
        Code::Bds3B7x => {
            assert(Code::Bds3B7x.name().len() != Code::GpsL1ca.name().len());
            assert(Code::Bds3B7x.name().len() != Code::GpsL2cm.name().len());
            assert(Code::Bds3B7x.name()[0] != Code::SbasL1ca.name()[0]);
            assert(Code::Bds3B7x.name().len() != Code::GloL1of.name().len());
            assert(Code::Bds3B7x.name().len() != Code::GloL2of.name().len());
            assert(Code::Bds3B7x.name()[0] != Code::GpsL1p.name()[0]);
            assert(Code::Bds3B7x.name()[0] != Code::GpsL2p.name()[0]);
            assert(Code::Bds3B7x.name().len() != Code::GpsL2cl.name().len());
            assert(Code::Bds3B7x.name()[0] != Code::GpsL2cx.name()[0]);
            assert(Code::Bds3B7x.name()[0] != Code::GpsL5i.name()[0]);
            assert(Code::Bds3B7x.name()[0] != Code::GpsL5q.name()[0]);
            assert(Code::Bds3B7x.name().len() != Code::GpsL5x.name().len());
            assert(Code::Bds3B7x.name().len() != Code::Bds2B1.name().len());
            assert(Code::Bds3B7x.name().len() != Code::Bds2B2.name().len());
            assert(Code::Bds3B7x.name()[0] != Code::GalE1b.name()[0]);
            assert(Code::Bds3B7x.name()[0] != Code::GalE1c.name()[0]);
            assert(Code::Bds3B7x.name().len() != Code::GalE1x.name().len());
            assert(Code::Bds3B7x.name()[0] != Code::GalE6b.name()[0]);
            assert(Code::Bds3B7x.name()[0] != Code::GalE6c.name()[0]);
            assert(Code::Bds3B7x.name().len() != Code::GalE6x.name().len());
            assert(Code::Bds3B7x.name().len() != Code::GalE7i.name().len());
            assert(Code::Bds3B7x.name().len() != Code::GalE7q.name().len());
            assert(Code::Bds3B7x.name()[0] != Code::GalE7x.name()[0]);
            assert(Code::Bds3B7x.name()[0] != Code::GalE8i.name()[0]);
            assert(Code::Bds3B7x.name()[0] != Code::GalE8q.name()[0]);
            assert(Code::Bds3B7x.name().len() != Code::GalE8x.name().len());
            assert(Code::Bds3B7x.name().len() != Code::GalE5i.name().len());
            assert(Code::Bds3B7x.name().len() != Code::GalE5q.name().len());
            assert(Code::Bds3B7x.name()[0] != Code::GalE5x.name()[0]);
            assert(Code::Bds3B7x.name()[0] != Code::GloL1p.name()[0]);
            assert(Code::Bds3B7x.name()[0] != Code::GloL2p.name()[0]);
            assert(Code::Bds3B7x.name().len() != Code::QzsL1ca.name().len());
            assert(Code::Bds3B7x.name().len() != Code::QzsL1ci.name().len());
            assert(Code::Bds3B7x.name().len() != Code::QzsL1cq.name().len());
            assert(Code::Bds3B7x.name().len() != Code::QzsL1cx.name().len());
            assert(Code::Bds3B7x.name().len() != Code::QzsL2cm.name().len());
            assert(Code::Bds3B7x.name().len() != Code::QzsL2cl.name().len());
            assert(Code::Bds3B7x.name()[0] != Code::QzsL2cx.name()[0]);
            assert(Code::Bds3B7x.name()[0] != Code::QzsL5i.name()[0]);
            assert(Code::Bds3B7x.name()[0] != Code::QzsL5q.name()[0]);
            assert(Code::Bds3B7x.name().len() != Code::QzsL5x.name().len());
            assert(Code::Bds3B7x.name().len() != Code::SbasL5i.name().len());
            assert(Code::Bds3B7x.name().len() != Code::SbasL5q.name().len());
            assert(Code::Bds3B7x.name()[0] != Code::SbasL5x.name()[0]);
            assert(Code::Bds3B7x.name().len() != Code::Bds3B1ci.name().len());
            assert(Code::Bds3B7x.name().len() != Code::Bds3B1cq.name().len());
            assert(Code::Bds3B7x.name().len() != Code::Bds3B1cx.name().len());
            assert(Code::Bds3B7x.name().len() != Code::Bds3B5i.name().len());
            assert(Code::Bds3B7x.name().len() != Code::Bds3B5q.name().len());
            assert(Code::Bds3B7x.name()[6] != Code::Bds3B5x.name()[6]);
            assert(Code::Bds3B7x.name().len() != Code::Bds3B7i.name().len());
            assert(Code::Bds3B7x.name().len() != Code::Bds3B7q.name().len());
        },
        Code::Bds3B3i => {
            assert(Code::Bds3B3i.name()[0] != Code::GpsL1ca.name()[0]);
            assert(Code::Bds3B3i.name()[0] != Code::GpsL2cm.name()[0]);
            assert(Code::Bds3B3i.name().len() != Code::SbasL1ca.name().len());
            assert(Code::Bds3B3i.name()[0] != Code::GloL1of.name()[0]);
            assert(Code::Bds3B3i.name()[0] != Code::GloL2of.name()[0]);
            assert(Code::Bds3B3i.name().len() != Code::GpsL1p.name().len());
            assert(Code::Bds3B3i.name().len() != Code::GpsL2p.name().len());
            assert(Code::Bds3B3i.name()[0] != Code::GpsL2cl.name()[0]);
            assert(Code::Bds3B3i.name().len() != Code::GpsL2cx.name().len());
            assert(Code::Bds3B3i.name().len() != Code::GpsL5i.name().len());
            assert(Code::Bds3B3i.name().len() != Code::GpsL5q.name().len());
            assert(Code::Bds3B3i.name().len() != Code::GpsL5x.name().len());
            assert(Code::Bds3B3i.name().len() != Code::Bds2B1.name().len());
            assert(Code::Bds3B3i.name().len() != Code::Bds2B2.name().len());
            assert(Code::Bds3B3i.name().len() != Code::GalE1b.name().len());
            assert(Code::Bds3B3i.name().len() != Code::GalE1c.name().len());
            assert(Code::Bds3B3i.name().len() != Code::GalE1x.name().len());
            assert(Code::Bds3B3i.name().len() != Code::GalE6b.name().len());
            assert(Code::Bds3B3i.name().len() != Code::GalE6c.name().len());
            assert(Code::Bds3B3i.name().len() != Code::GalE6x.name().len());
            assert(Code::Bds3B3i.name()[0] != Code::GalE7i.name()[0]);
            assert(Code::Bds3B3i.name()[0] != Code::GalE7q.name()[0]);
            assert(Code::Bds3B3i.name().len() != Code::GalE7x.name().len());
            assert(Code::Bds3B3i.name().len() != Code::GalE8i.name().len());
            assert(Code::Bds3B3i.name().len() != Code::GalE8q.name().len());
            assert(Code::Bds3B3i.name().len() != Code::GalE8x.name().len());
            assert(Code::Bds3B3i.name()[0] != Code::GalE5i.name()[0]);
            assert(Code::Bds3B3i.name()[0] != Code::GalE5q.name()[0]);
            assert(Code::Bds3B3i.name().len() != Code::GalE5x.name().len());
            assert(Code::Bds3B3i.name().len() != Code::GloL1p.name().len());
            assert(Code::Bds3B3i.name().len() != Code::GloL2p.name().len());
            assert(Code::Bds3B3i.name()[0] != Code::QzsL1ca.name()[0]);
            assert(Code::Bds3B3i.name()[0] != Code::QzsL1ci.name()[0]);
            assert(Code::Bds3B3i.name()[0] != Code::QzsL1cq.name()[0]);
            assert(Code::Bds3B3i.name()[0] != Code::QzsL1cx.name()[0]);
            assert(Code::Bds3B3i.name()[0] != Code::QzsL2cm.name()[0]);
            assert(Code::Bds3B3i.name()[0] != Code::QzsL2cl.name()[0]);
            assert(Code::Bds3B3i.name().len() != Code::QzsL2cx.name().len());
            assert(Code::Bds3B3i.name().len() != Code::QzsL5i.name().len());
            assert(Code::Bds3B3i.name().len() != Code::QzsL5q.name().len());
            assert(Code::Bds3B3i.name().len() != Code::QzsL5x.name().len());
            assert(Code::Bds3B3i.name()[0] != Code::SbasL5i.name()[0]);
            assert(Code::Bds3B3i.name()[0] != Code::SbasL5q.name()[0]);
            assert(Code::Bds3B3i.name().len() != Code::SbasL5x.name().len());
            assert(Code::Bds3B3i.name().len() != Code::Bds3B1ci.name().len());
            assert(Code::Bds3B3i.name().len() != Code::Bds3B1cq.name().len());
            assert(Code::Bds3B3i.name()[6] != Code::Bds3B1cx.name()[6]);
            assert(Code::Bds3B3i.name()[6] != Code::Bds3B5i.name()[6]);
            assert(Code::Bds3B3i.name()[6] != Code::Bds3B5q.name()[6]);
            assert(Code::Bds3B3i.name().len() != Code::Bds3B5x.name().len());
            assert(Code::Bds3B3i.name()[6] != Code::Bds3B7i.name()[6]);
            assert(Code::Bds3B3i.name()[6] != Code::Bds3B7q.name()[6]);
            assert(Code::Bds3B3i.name().len() != Code::Bds3B7x.name().len());
        },
        Code::Bds3B3q => {
            assert(Code::Bds3B3q.name()[0] != Code::GpsL1ca.name()[0]);
            assert(Code::Bds3B3q.name()[0] != Code::GpsL2cm.name()[0]);
            assert(Code::Bds3B3q.name().len() != Code::SbasL1ca.name().len());
            assert(Code::Bds3B3q.name()[0] != Code::GloL1of.name()[0]);
            assert(Code::Bds3B3q.name()[0] != Code::GloL2of.name()[0]);
            assert(Code::Bds3B3q.name().len() != Code::GpsL1p.name().len());
            assert(Code::Bds3B3q.name().len() != Code::GpsL2p.name().len());
            assert(Code::Bds3B3q.name()[0] != Code::GpsL2cl.name()[0]);
            assert(Code::Bds3B3q.name().len() != Code::GpsL2cx.name().len());
            assert(Code::Bds3B3q.name().len() != Code::GpsL5i.name().len());
            assert(Code::Bds3B3q.name().len() != Code::GpsL5q.name().len());
            assert(Code::Bds3B3q.name().len() != Code::GpsL5x.name().len());
            assert(Code::Bds3B3q.name().len() != Code::Bds2B1.name().len());
            assert(Code::Bds3B3q.name().len() != Code::Bds2B2.name().len());
            assert(Code::Bds3B3q.name().len() != Code::GalE1b.name().len());
            assert(Code::Bds3B3q.name().len() != Code::GalE1c.name().len());
            assert(Code::Bds3B3q.name().len() != Code::GalE1x.name().len());
            assert(Code::Bds3B3q.name().len() != Code::GalE6b.name().len());
            assert(Code::Bds3B3q.name().len() != Code::GalE6c.name().len());
            assert(Code::Bds3B3q.name().len() != Code::GalE6x.name().len());
            assert(Code::Bds3B3q.name()[0] != Code::GalE7i.name()[0]);
            assert(Code::Bds3B3q.name()[0] != Code::GalE7q.name()[0]);
            assert(Code::Bds3B3q.name().len() != Code::GalE7x.name().len());
            assert(Code::Bds3B3q.name().len() != Code::GalE8i.name().len());
            assert(Code::Bds3B3q.name().len() != Code::GalE8q.name().len());
            assert(Code::Bds3B3q.name().len() != Code::GalE8x.name().len());
            assert(Code::Bds3B3q.name()[0] != Code::GalE5i.name()[0]);
            assert(Code::Bds3B3q.name()[0] != Code::GalE5q.name()[0]);
            assert(Code::Bds3B3q.name().len() != Code::GalE5x.name().len());
            assert(Code::Bds3B3q.name().len() != Code::GloL1p.name().len());
            assert(Code::Bds3B3q.name().len() != Code::GloL2p.name().len());
            assert(Code::Bds3B3q.name()[0] != Code::QzsL1ca.name()[0]);
            assert(Code::Bds3B3q.name()[0] != Code::QzsL1ci.name()[0]);
            assert(Code::Bds3B3q.name()[0] != Code::QzsL1cq.name()[0]);
            assert(Code::Bds3B3q.name()[0] != Code::QzsL1cx.name()[0]);
            assert(Code::Bds3B3q.name()[0] != Code::QzsL2cm.name()[0]);
            assert(Code::Bds3B3q.name()[0] != Code::QzsL2cl.name()[0]);
            assert(Code::Bds3B3q.name().len() != Code::QzsL2cx.name().len());
            assert(Code::Bds3B3q.name().len() != Code::QzsL5i.name().len());
            assert(Code::Bds3B3q.name().len() != Code::QzsL5q.name().len());
            assert(Code::Bds3B3q.name().len() != Code::QzsL5x.name().len());
            assert(Code::Bds3B3q.name()[0] != Code::SbasL5i.name()[0]);
            assert(Code::Bds3B3q.name()[0] != Code::SbasL5q.name()[0]);
            assert(Code::Bds3B3q.name().len() != Code::SbasL5x.name().len());
            assert(Code::Bds3B3q.name().len() != Code::Bds3B1ci.name().len());
            assert(Code::Bds3B3q.name().len() != Code::Bds3B1cq.name().len());
            assert(Code::Bds3B3q.name()[6] != Code::Bds3B1cx.name()[6]);
            assert(Code::Bds3B3q.name()[6] != Code::Bds3B5i.name()[6]);
            assert(Code::Bds3B3q.name()[6] != Code::Bds3B5q.name()[6]);
            assert(Code::Bds3B3q.name().len() != Code::Bds3B5x.name().len());
            assert(Code::Bds3B3q.name()[6] != Code::Bds3B7i.name()[6]);
            assert(Code::Bds3B3q.name()[6] != Code::Bds3B7q.name()[6]);
            assert(Code::Bds3B3q.name().len() != Code::Bds3B7x.name().len());
            assert(Code::Bds3B3q.name()[7] != Code::Bds3B3i.name()[7]);
        },
        Code::Bds3B3x => {
            assert(Code::Bds3B3x.name().len() != Code::GpsL1ca.name().len());
            assert(Code::Bds3B3x.name().len() != Code::GpsL2cm.name().len());
            assert(Code::Bds3B3x.name()[0] != Code::SbasL1ca.name()[0]);
            assert(Code::Bds3B3x.name().len() != Code::GloL1of.name().len());
            assert(Code::Bds3B3x.name().len() != Code::GloL2of.name().len());
            assert(Code::Bds3B3x.name()[0] != Code::GpsL1p.name()[0]);
            assert(Code::Bds3B3x.name()[0] != Code::GpsL2p.name()[0]);
            assert(Code::Bds3B3x.name().len() != Code::GpsL2cl.name().len());
            assert(Code::Bds3B3x.name()[0] != Code::GpsL2cx.name()[0]);
            assert(Code::Bds3B3x.name()[0] != Code::GpsL5i.name()[0]);
            assert(Code::Bds3B3x.name()[0] != Code::GpsL5q.name()[0]);
            assert(Code::Bds3B3x.name().len() != Code::GpsL5x.name().len());
            assert(Code::Bds3B3x.name().len() != Code::Bds2B1.name().len());
            assert(Code::Bds3B3x.name().len() != Code::Bds2B2.name().len());
            assert(Code::Bds3B3x.name()[0] != Code::GalE1b.name()[0]);
            assert(Code::Bds3B3x.name()[0] != Code::GalE1c.name()[0]);
            assert(Code::Bds3B3x.name().len() != Code::GalE1x.name().len());
            assert(Code::Bds3B3x.name()[0] != Code::GalE6b.name()[0]);
            assert(Code::Bds3B3x.name()[0] != Code::GalE6c.name()[0]);
            assert(Code::Bds3B3x.name().len() != Code::GalE6x.name().len());
            assert(Code::Bds3B3x.name().len() != Code::GalE7i.name().len());
            assert(Code::Bds3B3x.name().len() != Code::GalE7q.name().len());
            assert(Code::Bds3B3x.name()[0] != Code::GalE7x.name()[0]);
            assert(Code::Bds3B3x.name()[0] != Code::GalE8i.name()[0]);
            assert(Code::Bds3B3x.name()[0] != Code::GalE8q.name()[0]);
            assert(Code::Bds3B3x.name().len() != Code::GalE8x.name().len());
            assert(Code::Bds3B3x.name().len() != Code::GalE5i.name().len());
            assert(Code::Bds3B3x.name().len() != Code::GalE5q.name().len());
            assert(Code::Bds3B3x.name()[0] != Code::GalE5x.name()[0]);
            assert(Code::Bds3B3x.name()[0] != Code::GloL1p.name()[0]);
            assert(Code::Bds3B3x.name()[0] != Code::GloL2p.name()[0]);
            assert(Code::Bds3B3x.name().len() != Code::QzsL1ca.name().len());
            assert(Code::Bds3B3x.name().len() != Code::QzsL1ci.name().len());
            assert(Code::Bds3B3x.name().len() != Code::QzsL1cq.name().len());
            assert(Code::Bds3B3x.name().len() != Code::QzsL1cx.name().len());
            assert(Code::Bds3B3x.name().len() != Code::QzsL2cm.name().len());
            assert(Code::Bds3B3x.name().len() != Code::QzsL2cl.name().len());
            assert(Code::Bds3B3x.name()[0] != Code::QzsL2cx.name()[0]);
            assert(Code::Bds3B3x.name()[0] != Code::QzsL5i.name()[0]);
            assert(Code::Bds3B3x.name()[0] != Code::QzsL5q.name()[0]);
            assert(Code::Bds3B3x.name().len() != Code::QzsL5x.name().len());
            assert(Code::Bds3B3x.name().len() != Code::SbasL5i.name().len());
            assert(Code::Bds3B3x.name().len() != Code::SbasL5q.name().len());
            assert(Code::Bds3B3x.name()[0] != Code::SbasL5x.name()[0]);
            assert(Code::Bds3B3x.name().len() != Code::Bds3B1ci.name().len());
            assert(Code::Bds3B3x.name().len() != Code::Bds3B1cq.name().len());
            assert(Code::Bds3B3x.name().len() != Code::Bds3B1cx.name().len());
            assert(Code::Bds3B3x.name().len() != Code::Bds3B5i.name().len());
            assert(Code::Bds3B3x.name().len() != Code::Bds3B5q.name().len());
            assert(Code::Bds3B3x.name()[6] != Code::Bds3B5x.name()[6]);
            assert(Code::Bds3B3x.name().len() != Code::Bds3B7i.name().len());
            assert(Code::Bds3B3x.name().len() != Code::Bds3B7q.name().len());
            assert(Code::Bds3B3x.name()[6] != Code::Bds3B7x.name()[6]);
            assert(Code::Bds3B3x.name().len() != Code::Bds3B3i.name().len());
            assert(Code::Bds3B3x.name().len() != Code::Bds3B3q.name().len());
        },
        Code::GpsL1ci => {
            assert(Code::GpsL1ci.name()[7] != Code::GpsL1ca.name()[7]);
            assert(Code::GpsL1ci.name()[5] != Code::GpsL2cm.name()[5]);
            assert(Code::GpsL1ci.name().len() != Code::SbasL1ca.name().len());
            assert(Code::GpsL1ci.name()[1] != Code::GloL1of.name()[1]);
            assert(Code::GpsL1ci.name()[1] != Code::GloL2of.name()[1]);
            assert(Code::GpsL1ci.name().len() != Code::GpsL1p.name().len());
            assert(Code::GpsL1ci.name().len() != Code::GpsL2p.name().len());
            assert(Code::GpsL1ci.name()[5] != Code::GpsL2cl.name()[5]);
            assert(Code::GpsL1ci.name().len() != Code::GpsL2cx.name().len());
            assert(Code::GpsL1ci.name().len() != Code::GpsL5i.name().len());
            assert(Code::GpsL1ci.name().len() != Code::GpsL5q.name().len());
            assert(Code::GpsL1ci.name().len() != Code::GpsL5x.name().len());
            assert(Code::GpsL1ci.name().len() != Code::Bds2B1.name().len());
            assert(Code::GpsL1ci.name().len() != Code::Bds2B2.name().len());
            assert(Code::GpsL1ci.name().len() != Code::GalE1b.name().len());
            assert(Code::GpsL1ci.name().len() != Code::GalE1c.name().len());
            assert(Code::GpsL1ci.name().len() != Code::GalE1x.name().len());
            assert(Code::GpsL1ci.name().len() != Code::GalE6b.name().len());
            assert(Code::GpsL1ci.name().len() != Code::GalE6c.name().len());
            assert(Code::GpsL1ci.name().len() != Code::GalE6x.name().len());
            assert(Code::GpsL1ci.name()[1] != Code::GalE7i.name()[1]);
            assert(Code::GpsL1ci.name()[1] != Code::GalE7q.name()[1]);
            assert(Code::GpsL1ci.name().len() != Code::GalE7x.name().len());
            assert(Code::GpsL1ci.name().len() != Code::GalE8i.name().len());
            assert(Code::GpsL1ci.name().len() != Code::GalE8q.name().len());
            assert(Code::GpsL1ci.name().len() != Code::GalE8x.name().len());
            assert(Code::GpsL1ci.name()[1] != Code::GalE5i.name()[1]);
            assert(Code::GpsL1ci.name()[1] != Code::GalE5q.name()[1]);
            assert(Code::GpsL1ci.name().len() != Code::GalE5x.name().len());
            assert(Code::GpsL1ci.name().len() != Code::GloL1p.name().len());
            assert(Code::GpsL1ci.name().len() != Code::GloL2p.name().len());
            assert(Code::GpsL1ci.name()[0] != Code::QzsL1ca.name()[0]);
            assert(Code::GpsL1ci.name()[0] != Code::QzsL1ci.name()[0]);
            assert(Code::GpsL1ci.name()[0] != Code::QzsL1cq.name()[0]);
            assert(Code::GpsL1ci.name()[0] != Code::QzsL1cx.name()[0]);
            assert(Code::GpsL1ci.name()[0] != Code::QzsL2cm.name()[0]);
            assert(Code::GpsL1ci.name()[0] != Code::QzsL2cl.name()[0]);
            assert(Code::GpsL1ci.name().len() != Code::QzsL2cx.name().len());
            assert(Code::GpsL1ci.name().len() != Code::QzsL5i.name().len());
            assert(Code::GpsL1ci.name().len() != Code::QzsL5q.name().len());
            assert(Code::GpsL1ci.name().len() != Code::QzsL5x.name().len());
            assert(Code::GpsL1ci.name()[0] != Code::SbasL5i.name()[0]);
            assert(Code::GpsL1ci.name()[0] != Code::SbasL5q.name()[0]);
            assert(Code::GpsL1ci.name().len() != Code::SbasL5x.name().len());
            assert(Code::GpsL1ci.name().len() != Code::Bds3B1ci.name().len());
            assert(Code::GpsL1ci.name().len() != Code::Bds3B1cq.name().len());
            assert(Code::GpsL1ci.name()[0] != Code::Bds3B1cx.name()[0]);
            assert(Code::GpsL1ci.name()[0] != Code::Bds3B5i.name()[0]);
            assert(Code::GpsL1ci.name()[0] != Code::Bds3B5q.name()[0]);
            assert(Code::GpsL1ci.name().len() != Code::Bds3B5x.name().len());
            assert(Code::GpsL1ci.name()[0] != Code::Bds3B7i.name()[0]);
            assert(Code::GpsL1ci.name()[0] != Code::Bds3B7q.name()[0]);
            assert(Code::GpsL1ci.name().len() != Code::Bds3B7x.name().len());
            assert(Code::GpsL1ci.name()[0] != Code::Bds3B3i.name()[0]);
            assert(Code::GpsL1ci.name()[0] != Code::Bds3B3q.name()[0]);
            assert(Code::GpsL1ci.name().len() != Code::Bds3B3x.name().len());
        },
        Code::GpsL1cq => {
            assert(Code::GpsL1cq.name()[7] != Code::GpsL1ca.name()[7]);
            assert(Code::GpsL1cq.name()[5] != Code::GpsL2cm.name()[5]);
            assert(Code::GpsL1cq.name().len() != Code::SbasL1ca.name().len());
            assert(Code::GpsL1cq.name()[1] != Code::GloL1of.name()[1]);
            assert(Code::GpsL1cq.name()[1] != Code::GloL2of.name()[1]);
            assert(Code::GpsL1cq.name().len() != Code::GpsL1p.name().len());
            assert(Code::GpsL1cq.name().len() != Code::GpsL2p.name().len());
            assert(Code::GpsL1cq.name()[5] != Code::GpsL2cl.name()[5]);
            assert(Code::GpsL1cq.name().len() != Code::GpsL2cx.name().len());
            assert(Code::GpsL1cq.name().len() != Code::GpsL5i.name().len());
            assert(Code::GpsL1cq.name().len() != Code::GpsL5q.name().len());
            assert(Code::GpsL1cq.name().len() != Code::GpsL5x.name().len());
            assert(Code::GpsL1cq.name().len() != Code::Bds2B1.name().len());
            assert(Code::GpsL1cq.name().len() != Code::Bds2B2.name().len());
            assert(Code::GpsL1cq.name().len() != Code::GalE1b.name().len());
            assert(Code::GpsL1cq.name().len() != Code::GalE1c.name().len());
            assert(Code::GpsL1cq.name().len() != Code::GalE1x.name().len());
            assert(Code::GpsL1cq.name().len() != Code::GalE6b.name().len());
            assert(Code::GpsL1cq.name().len() != Code::GalE6c.name().len());
            assert(Code::GpsL1cq.name().len() != Code::GalE6x.name().len());
            assert(Code::GpsL1cq.name()[1] != Code::GalE7i.name()[1]);
            assert(Code::GpsL1cq.name()[1] != Code::GalE7q.name()[1]);
            assert(Code::GpsL1cq.name().len() != Code::GalE7x.name().len());
            assert(Code::GpsL1cq.name().len() != Code::GalE8i.name().len());
            assert(Code::GpsL1cq.name().len() != Code::GalE8q.name().len());
            assert(Code::GpsL1cq.name().len() != Code::GalE8x.name().len());
            assert(Code::GpsL1cq.name()[1] != Code::GalE5i.name()[1]);
            assert(Code::GpsL1cq.name()[1] != Code::GalE5q.name()[1]);
            assert(Code::GpsL1cq.name().len() != Code::GalE5x.name().len());
            assert(Code::GpsL1cq.name().len() != Code::GloL1p.name().len());
            assert(Code::GpsL1cq.name().len() != Code::GloL2p.name().len());
            assert(Code::GpsL1cq.name()[0] != Code::QzsL1ca.name()[0]);
            assert(Code::GpsL1cq.name()[0] != Code::QzsL1ci.name()[0]);
            assert(Code::GpsL1cq.name()[0] != Code::QzsL1cq.name()[0]);
            assert(Code::GpsL1cq.name()[0] != Code::QzsL1cx.name()[0]);
            assert(Code::GpsL1cq.name()[0] != Code::QzsL2cm.name()[0]);
            assert(Code::GpsL1cq.name()[0] != Code::QzsL2cl.name()[0]);
            assert(Code::GpsL1cq.name().len() != Code::QzsL2cx.name().len());
            assert(Code::GpsL1cq.name().len() != Code::QzsL5i.name().len());
            assert(Code::GpsL1cq.name().len() != Code::QzsL5q.name().len());
            assert(Code::GpsL1cq.name().len() != Code::QzsL5x.name().len());
            assert(Code::GpsL1cq.name()[0] != Code::SbasL5i.name()[0]);
            assert(Code::GpsL1cq.name()[0] != Code::SbasL5q.name()[0]);
            assert(Code::GpsL1cq.name().len() != Code::SbasL5x.name().len());
            assert(Code::GpsL1cq.name().len() != Code::Bds3B1ci.name().len());
            assert(Code::GpsL1cq.name().len() != Code::Bds3B1cq.name().len());
            assert(Code::GpsL1cq.name()[0] != Code::Bds3B1cx.name()[0]);
            assert(Code::GpsL1cq.name()[0] != Code::Bds3B5i.name()[0]);
            assert(Code::GpsL1cq.name()[0] != Code::Bds3B5q.name()[0]);
            assert(Code::GpsL1cq.name().len() != Code::Bds3B5x.name().len());
            assert(Code::GpsL1cq.name()[0] != Code::Bds3B7i.name()[0]);
            assert(Code::GpsL1cq.name()[0] != Code::Bds3B7q.name()[0]);
            assert(Code::GpsL1cq.name().len() != Code::Bds3B7x.name().len());
            assert(Code::GpsL1cq.name()[0] != Code::Bds3B3i.name()[0]);
            assert(Code::GpsL1cq.name()[0] != Code::Bds3B3q.name()[0]);
            assert(Code::GpsL1cq.name().len() != Code::Bds3B3x.name().len());
            assert(Code::GpsL1cq.name()[7] != Code::GpsL1ci.name()[7]);
        },
        Code::GpsL1cx => {
            assert(Code::GpsL1cx.name().len() != Code::GpsL1ca.name().len());
            assert(Code::GpsL1cx.name().len() != Code::GpsL2cm.name().len());
            assert(Code::GpsL1cx.name()[0] != Code::SbasL1ca.name()[0]);
            assert(Code::GpsL1cx.name().len() != Code::GloL1of.name().len());
            assert(Code::GpsL1cx.name().len() != Code::GloL2of.name().len());
            assert(Code::GpsL1cx.name()[6] != Code::GpsL1p.name()[6]);
            assert(Code::GpsL1cx.name()[5] != Code::GpsL2p.name()[5]);
            assert(Code::GpsL1cx.name().len() != Code::GpsL2cl.name().len());
            assert(Code::GpsL1cx.name()[5] != Code::GpsL2cx.name()[5]);
            assert(Code::GpsL1cx.name()[5] != Code::GpsL5i.name()[5]);
            assert(Code::GpsL1cx.name()[5] != Code::GpsL5q.name()[5]);
            assert(Code::GpsL1cx.name().len() != Code::GpsL5x.name().len());
            assert(Code::GpsL1cx.name().len() != Code::Bds2B1.name().len());
            assert(Code::GpsL1cx.name().len() != Code::Bds2B2.name().len());
            assert(Code::GpsL1cx.name()[1] != Code::GalE1b.name()[1]);
            assert(Code::GpsL1cx.name()[1] != Code::GalE1c.name()[1]);
            assert(Code::GpsL1cx.name().len() != Code::GalE1x.name().len());
            assert(Code::GpsL1cx.name()[1] != Code::GalE6b.name()[1]);
            assert(Code::GpsL1cx.name()[1] != Code::GalE6c.name()[1]);
            assert(Code::GpsL1cx.name().len() != Code::GalE6x.name().len());
            assert(Code::GpsL1cx.name().len() != Code::GalE7i.name().len());
            assert(Code::GpsL1cx.name().len() != Code::GalE7q.name().len());
            assert(Code::GpsL1cx.name()[1] != Code::GalE7x.name()[1]);
            assert(Code::GpsL1cx.name()[1] != Code::GalE8i.name()[1]);
            assert(Code::GpsL1cx.name()[1] != Code::GalE8q.name()[1]);
            assert(Code::GpsL1cx.name().len() != Code::GalE8x.name().len());
            assert(Code::GpsL1cx.name().len() != Code::GalE5i.name().len());
            assert(Code::GpsL1cx.name().len() != Code::GalE5q.name().len());
            assert(Code::GpsL1cx.name()[1] != Code::GalE5x.name()[1]);
            assert(Code::GpsL1cx.name()[1] != Code::GloL1p.name()[1]);
            assert(Code::GpsL1cx.name()[1] != Code::GloL2p.name()[1]);
            assert(Code::GpsL1cx.name().len() != Code::QzsL1ca.name().len());
            assert(Code::GpsL1cx.name().len() != Code::QzsL1ci.name().len());
            assert(Code::GpsL1cx.name().len() != Code::QzsL1cq.name().len());
            assert(Code::GpsL1cx.name().len() != Code::QzsL1cx.name().len());
            assert(Code::GpsL1cx.name().len() != Code::QzsL2cm.name().len());
            assert(Code::GpsL1cx.name().len() != Code::QzsL2cl.name().len());
            assert(Code::GpsL1cx.name()[0] != Code::QzsL2cx.name()[0]);
            assert(Code::GpsL1cx.name()[0] != Code::QzsL5i.name()[0]);
            assert(Code::GpsL1cx.name()[0] != Code::QzsL5q.name()[0]);
            assert(Code::GpsL1cx.name().len() != Code::QzsL5x.name().len());
            assert(Code::GpsL1cx.name().len() != Code::SbasL5i.name().len());
            assert(Code::GpsL1cx.name().len() != Code::SbasL5q.name().len());
            assert(Code::GpsL1cx.name()[0] != Code::SbasL5x.name()[0]);
            assert(Code::GpsL1cx.name().len() != Code::Bds3B1ci.name().len());
            assert(Code::GpsL1cx.name().len() != Code::Bds3B1cq.name().len());
            assert(Code::GpsL1cx.name().len() != Code::Bds3B1cx.name().len());
            assert(Code::GpsL1cx.name().len() != Code::Bds3B5i.name().len());
            assert(Code::GpsL1cx.name().len() != Code::Bds3B5q.name().len());
            assert(Code::GpsL1cx.name()[0] != Code::Bds3B5x.name()[0]);
            assert(Code::GpsL1cx.name().len() != Code::Bds3B7i.name().len());
            assert(Code::GpsL1cx.name().len() != Code::Bds3B7q.name().len());
            assert(Code::GpsL1cx.name()[0] != Code::Bds3B7x.name()[0]);
            assert(Code::GpsL1cx.name().len() != Code::Bds3B3i.name().len());
            assert(Code::GpsL1cx.name().len() != Code::Bds3B3q.name().len());
            assert(Code::GpsL1cx.name()[0] != Code::Bds3B3x.name()[0]);
            assert(Code::GpsL1cx.name().len() != Code::GpsL1ci.name().len());
            assert(Code::GpsL1cx.name().len() != Code::GpsL1cq.name().len());
        },
        Code::AuxGps => {
            assert(Code::AuxGps.name().len() != Code::GpsL1ca.name().len());
            assert(Code::AuxGps.name().len() != Code::GpsL2cm.name().len());
            assert(Code::AuxGps.name()[0] != Code::SbasL1ca.name()[0]);
            assert(Code::AuxGps.name().len() != Code::GloL1of.name().len());
            assert(Code::AuxGps.name().len() != Code::GloL2of.name().len());
            assert(Code::AuxGps.name()[4] != Code::GpsL1p.name()[4]);
            assert(Code::AuxGps.name()[4] != Code::GpsL2p.name()[4]);
            assert(Code::AuxGps.name().len() != Code::GpsL2cl.name().len());
            assert(Code::AuxGps.name()[4] != Code::GpsL2cx.name()[4]);
            assert(Code::AuxGps.name()[4] != Code::GpsL5i.name()[4]);
            assert(Code::AuxGps.name()[4] != Code::GpsL5q.name()[4]);
            assert(Code::AuxGps.name().len() != Code::GpsL5x.name().len());
            assert(Code::AuxGps.name().len() != Code::Bds2B1.name().len());
            assert(Code::AuxGps.name().len() != Code::Bds2B2.name().len());
            assert(Code::AuxGps.name()[1] != Code::GalE1b.name()[1]);
            assert(Code::AuxGps.name()[1] != Code::GalE1c.name()[1]);
            assert(Code::AuxGps.name().len() != Code::GalE1x.name().len());
            assert(Code::AuxGps.name()[1] != Code::GalE6b.name()[1]);
            assert(Code::AuxGps.name()[1] != Code::GalE6c.name()[1]);
            assert(Code::AuxGps.name().len() != Code::GalE6x.name().len());
            assert(Code::AuxGps.name().len() != Code::GalE7i.name().len());
            assert(Code::AuxGps.name().len() != Code::GalE7q.name().len());
            assert(Code::AuxGps.name()[1] != Code::GalE7x.name()[1]);
            assert(Code::AuxGps.name()[1] != Code::GalE8i.name()[1]);
            assert(Code::AuxGps.name()[1] != Code::GalE8q.name()[1]);
            assert(Code::AuxGps.name().len() != Code::GalE8x.name().len());
            assert(Code::AuxGps.name().len() != Code::GalE5i.name().len());
            assert(Code::AuxGps.name().len() != Code::GalE5q.name().len());
            assert(Code::AuxGps.name()[1] != Code::GalE5x.name()[1]);
            assert(Code::AuxGps.name()[1] != Code::GloL1p.name()[1]);
            assert(Code::AuxGps.name()[1] != Code::GloL2p.name()[1]);
            assert(Code::AuxGps.name().len() != Code::QzsL1ca.name().len());
            assert(Code::AuxGps.name().len() != Code::QzsL1ci.name().len());
            assert(Code::AuxGps.name().len() != Code::QzsL1cq.name().len());
            assert(Code::AuxGps.name().len() != Code::QzsL1cx.name().len());
            assert(Code::AuxGps.name().len() != Code::QzsL2cm.name().len());
            assert(Code::AuxGps.name().len() != Code::QzsL2cl.name().len());
            assert(Code::AuxGps.name()[0] != Code::QzsL2cx.name()[0]);
            assert(Code::AuxGps.name()[0] != Code::QzsL5i.name()[0]);
            assert(Code::AuxGps.name()[0] != Code::QzsL5q.name()[0]);
            assert(Code::AuxGps.name().len() != Code::QzsL5x.name().len());
            assert(Code::AuxGps.name().len() != Code::SbasL5i.name().len());
            assert(Code::AuxGps.name().len() != Code::SbasL5q.name().len());
            assert(Code::AuxGps.name()[0] != Code::SbasL5x.name()[0]);
            assert(Code::AuxGps.name().len() != Code::Bds3B1ci.name().len());
            assert(Code::AuxGps.name().len() != Code::Bds3B1cq.name().len());
            assert(Code::AuxGps.name().len() != Code::Bds3B1cx.name().len());
            assert(Code::AuxGps.name().len() != Code::Bds3B5i.name().len());
            assert(Code::AuxGps.name().len() != Code::Bds3B5q.name().len());
            assert(Code::AuxGps.name()[0] != Code::Bds3B5x.name()[0]);
            assert(Code::AuxGps.name().len() != Code::Bds3B7i.name().len());
            assert(Code::AuxGps.name().len() != Code::Bds3B7q.name().len());
            assert(Code::AuxGps.name()[0] != Code::Bds3B7x.name()[0]);
            assert(Code::AuxGps.name().len() != Code::Bds3B3i.name().len());
            assert(Code::AuxGps.name().len() != Code::Bds3B3q.name().len());
            assert(Code::AuxGps.name()[0] != Code::Bds3B3x.name()[0]);
            assert(Code::AuxGps.name().len() != Code::GpsL1ci.name().len());
            assert(Code::AuxGps.name().len() != Code::GpsL1cq.name().len());
            assert(Code::AuxGps.name()[4] != Code::GpsL1cx.name()[4]);
        },
        Code::AuxSbas => {
            assert(Code::AuxSbas.name()[0] != Code::GpsL1ca.name()[0]);
            assert(Code::AuxSbas.name()[0] != Code::GpsL2cm.name()[0]);
            assert(Code::AuxSbas.name().len() != Code::SbasL1ca.name().len());
            assert(Code::AuxSbas.name()[0] != Code::GloL1of.name()[0]);
            assert(Code::AuxSbas.name()[0] != Code::GloL2of.name()[0]);
            assert(Code::AuxSbas.name().len() != Code::GpsL1p.name().len());
            assert(Code::AuxSbas.name().len() != Code::GpsL2p.name().len());
            assert(Code::AuxSbas.name()[0] != Code::GpsL2cl.name()[0]);
            assert(Code::AuxSbas.name().len() != Code::GpsL2cx.name().len());
            assert(Code::AuxSbas.name().len() != Code::GpsL5i.name().len());
            assert(Code::AuxSbas.name().len() != Code::GpsL5q.name().len());
            assert(Code::AuxSbas.name().len() != Code::GpsL5x.name().len());
            assert(Code::AuxSbas.name().len() != Code::Bds2B1.name().len());
            assert(Code::AuxSbas.name().len() != Code::Bds2B2.name().len());
            assert(Code::AuxSbas.name().len() != Code::GalE1b.name().len());
            assert(Code::AuxSbas.name().len() != Code::GalE1c.name().len());
            assert(Code::AuxSbas.name().len() != Code::GalE1x.name().len());
            assert(Code::AuxSbas.name().len() != Code::GalE6b.name().len());
            assert(Code::AuxSbas.name().len() != Code::GalE6c.name().len());
            assert(Code::AuxSbas.name().len() != Code::GalE6x.name().len());
            assert(Code::AuxSbas.name()[0] != Code::GalE7i.name()[0]);
            assert(Code::AuxSbas.name()[0] != Code::GalE7q.name()[0]);
            assert(Code::AuxSbas.name().len() != Code::GalE7x.name().len());
            assert(Code::AuxSbas.name().len() != Code::GalE8i.name().len());
            assert(Code::AuxSbas.name().len() != Code::GalE8q.name().len());
            assert(Code::AuxSbas.name().len() != Code::GalE8x.name().len());
            assert(Code::AuxSbas.name()[0] != Code::GalE5i.name()[0]);
            assert(Code::AuxSbas.name()[0] != Code::GalE5q.name()[0]);
            assert(Code::AuxSbas.name().len() != Code::GalE5x.name().len());
            assert(Code::AuxSbas.name().len() != Code::GloL1p.name().len());
            assert(Code::AuxSbas.name().len() != Code::GloL2p.name().len());
            assert(Code::AuxSbas.name()[0] != Code::QzsL1ca.name()[0]);
            assert(Code::AuxSbas.name()[0] != Code::QzsL1ci.name()[0]);
            assert(Code::AuxSbas.name()[0] != Code::QzsL1cq.name()[0]);
            assert(Code::AuxSbas.name()[0] != Code::QzsL1cx.name()[0]);
            assert(Code::AuxSbas.name()[0] != Code::QzsL2cm.name()[0]);
            assert(Code::AuxSbas.name()[0] != Code::QzsL2cl.name()[0]);
            assert(Code::AuxSbas.name().len() != Code::QzsL2cx.name().len());
            assert(Code::AuxSbas.name().len() != Code::QzsL5i.name().len());
            assert(Code::AuxSbas.name().len() != Code::QzsL5q.name().len());
            assert(Code::AuxSbas.name().len() != Code::QzsL5x.name().len());
            assert(Code::AuxSbas.name()[5] != Code::SbasL5i.name()[5]);
            assert(Code::AuxSbas.name()[5] != Code::SbasL5q.name()[5]);
            assert(Code::AuxSbas.name().len() != Code::SbasL5x.name().len());
            assert(Code::AuxSbas.name().len() != Code::Bds3B1ci.name().len());
            assert(Code::AuxSbas.name().len() != Code::Bds3B1cq.name().len());
            assert(Code::AuxSbas.name()[0] != Code::Bds3B1cx.name()[0]);
            assert(Code::AuxSbas.name()[0] != Code::Bds3B5i.name()[0]);
            assert(Code::AuxSbas.name()[0] != Code::Bds3B5q.name()[0]);
            assert(Code::AuxSbas.name().len() != Code::Bds3B5x.name().len());
            assert(Code::AuxSbas.name()[0] != Code::Bds3B7i.name()[0]);
            assert(Code::AuxSbas.name()[0] != Code::Bds3B7q.name()[0]);
            assert(Code::AuxSbas.name().len() != Code::Bds3B7x.name().len());
            assert(Code::AuxSbas.name()[0] != Code::Bds3B3i.name()[0]);
            assert(Code::AuxSbas.name()[0] != Code::Bds3B3q.name()[0]);
            assert(Code::AuxSbas.name().len() != Code::Bds3B3x.name().len());
            assert(Code::AuxSbas.name()[0] != Code::GpsL1ci.name()[0]);
            assert(Code::AuxSbas.name()[0] != Code::GpsL1cq.name()[0]);
            assert(Code::AuxSbas.name().len() != Code::GpsL1cx.name().len());
            assert(Code::AuxSbas.name().len() != Code::AuxGps.name().len());
        },
        Code::AuxGal => {
            assert(Code::AuxGal.name().len() != Code::GpsL1ca.name().len());
            assert(Code::AuxGal.name().len() != Code::GpsL2cm.name().len());
            assert(Code::AuxGal.name()[0] != Code::SbasL1ca.name()[0]);
            assert(Code::AuxGal.name().len() != Code::GloL1of.name().len());
            assert(Code::AuxGal.name().len() != Code::GloL2of.name().len());
            assert(Code::AuxGal.name()[1] != Code::GpsL1p.name()[1]);
            assert(Code::AuxGal.name()[1] != Code::GpsL2p.name()[1]);
            assert(Code::AuxGal.name().len() != Code::GpsL2cl.name().len());
            assert(Code::AuxGal.name()[1] != Code::GpsL2cx.name()[1]);
            assert(Code::AuxGal.name()[1] != Code::GpsL5i.name()[1]);
            assert(Code::AuxGal.name()[1] != Code::GpsL5q.name()[1]);
            assert(Code::AuxGal.name().len() != Code::GpsL5x.name().len());
            assert(Code::AuxGal.name().len() != Code::Bds2B1.name().len());
            assert(Code::AuxGal.name().len() != Code::Bds2B2.name().len());
            assert(Code::AuxGal.name()[4] != Code::GalE1b.name()[4]);
            assert(Code::AuxGal.name()[4] != Code::GalE1c.name()[4]);
            assert(Code::AuxGal.name().len() != Code::GalE1x.name().len());
            assert(Code::AuxGal.name()[4] != Code::GalE6b.name()[4]);
            assert(Code::AuxGal.name()[4] != Code::GalE6c.name()[4]);
            assert(Code::AuxGal.name().len() != Code::GalE6x.name().len());
            assert(Code::AuxGal.name().len() != Code::GalE7i.name().len());
            assert(Code::AuxGal.name().len() != Code::GalE7q.name().len());
            assert(Code::AuxGal.name()[4] != Code::GalE7x.name()[4]);
            assert(Code::AuxGal.name()[4] != Code::GalE8i.name()[4]);
            assert(Code::AuxGal.name()[4] != Code::GalE8q.name()[4]);
            assert(Code::AuxGal.name().len() != Code::GalE8x.name().len());
            assert(Code::AuxGal.name().len() != Code::GalE5i.name().len());
            assert(Code::AuxGal.name().len() != Code::GalE5q.name().len());
            assert(Code::AuxGal.name()[4] != Code::GalE5x.name()[4]);
            assert(Code::AuxGal.name()[1] != Code::GloL1p.name()[1]);
            assert(Code::AuxGal.name()[1] != Code::GloL2p.name()[1]);
            assert(Code::AuxGal.name().len() != Code::QzsL1ca.name().len());
            assert(Code::AuxGal.name().len() != Code::QzsL1ci.name().len());
            assert(Code::AuxGal.name().len() != Code::QzsL1cq.name().len());
            assert(Code::AuxGal.name().len() != Code::QzsL1cx.name().len());
            assert(Code::AuxGal.name().len() != Code::QzsL2cm.name().len());
            assert(Code::AuxGal.name().len() != Code::QzsL2cl.name().len());
            assert(Code::AuxGal.name()[0] != Code::QzsL2cx.name()[0]);
            assert(Code::AuxGal.name()[0] != Code::QzsL5i.name()[0]);
            assert(Code::AuxGal.name()[0] != Code::QzsL5q.name()[0]);
            assert(Code::AuxGal.name().len() != Code::QzsL5x.name().len());
            assert(Code::AuxGal.name().len() != Code::SbasL5i.name().len());
            assert(Code::AuxGal.name().len() != Code::SbasL5q.name().len());
            assert(Code::AuxGal.name()[0] != Code::SbasL5x.name()[0]);
            assert(Code::AuxGal.name().len() != Code::Bds3B1ci.name().len());
            assert(Code::AuxGal.name().len() != Code::Bds3B1cq.name().len());
            assert(Code::AuxGal.name().len() != Code::Bds3B1cx.name().len());
            assert(Code::AuxGal.name().len() != Code::Bds3B5i.name().len());
            assert(Code::AuxGal.name().len() != Code::Bds3B5q.name().len());
            assert(Code::AuxGal.name()[0] != Code::Bds3B5x.name()[0]);
            assert(Code::AuxGal.name().len() != Code::Bds3B7i.name().len());
            assert(Code::AuxGal.name().len() != Code::Bds3B7q.name().len());
            assert(Code::AuxGal.name()[0] != Code::Bds3B7x.name()[0]);
            assert(Code::AuxGal.name().len() != Code::Bds3B3i.name().len());
            assert(Code::AuxGal.name().len() != Code::Bds3B3q.name().len());
            assert(Code::AuxGal.name()[0] != Code::Bds3B3x.name()[0]);
            assert(Code::AuxGal.name().len() != Code::GpsL1ci.name().len());
            assert(Code::AuxGal.name().len() != Code::GpsL1cq.name().len());
            assert(Code::AuxGal.name()[1] != Code::GpsL1cx.name()[1]);
            assert(Code::AuxGal.name()[1] != Code::AuxGps.name()[1]);
            assert(Code::AuxGal.name().len() != Code::AuxSbas.name().len());
        },
        Code::AuxQzs => {
            assert(Code::AuxQzs.name().len() != Code::GpsL1ca.name().len());
            assert(Code::AuxQzs.name().len() != Code::GpsL2cm.name().len());
            assert(Code::AuxQzs.name()[0] != Code::SbasL1ca.name()[0]);
            assert(Code::AuxQzs.name().len() != Code::GloL1of.name().len());
            assert(Code::AuxQzs.name().len() != Code::GloL2of.name().len());
            assert(Code::AuxQzs.name()[0] != Code::GpsL1p.name()[0]);
            assert(Code::AuxQzs.name()[0] != Code::GpsL2p.name()[0]);
            assert(Code::AuxQzs.name().len() != Code::GpsL2cl.name().len());
            assert(Code::AuxQzs.name()[0] != Code::GpsL2cx.name()[0]);
            assert(Code::AuxQzs.name()[0] != Code::GpsL5i.name()[0]);
            assert(Code::AuxQzs.name()[0] != Code::GpsL5q.name()[0]);
            assert(Code::AuxQzs.name().len() != Code::GpsL5x.name().len());
            assert(Code::AuxQzs.name().len() != Code::Bds2B1.name().len());
            assert(Code::AuxQzs.name().len() != Code::Bds2B2.name().len());
            assert(Code::AuxQzs.name()[0] != Code::GalE1b.name()[0]);
            assert(Code::AuxQzs.name()[0] != Code::GalE1c.name()[0]);
            assert(Code::AuxQzs.name().len() != Code::GalE1x.name().len());
            assert(Code::AuxQzs.name()[0] != Code::GalE6b.name()[0]);
            assert(Code::AuxQzs.name()[0] != Code::GalE6c.name()[0]);
            assert(Code::AuxQzs.name().len() != Code::GalE6x.name().len());
            assert(Code::AuxQzs.name().len() != Code::GalE7i.name().len());
            assert(Code::AuxQzs.name().len() != Code::GalE7q.name().len());
            assert(Code::AuxQzs.name()[0] != Code::GalE7x.name()[0]);
            assert(Code::AuxQzs.name()[0] != Code::GalE8i.name()[0]);
            assert(Code::AuxQzs.name()[0] != Code::GalE8q.name()[0]);
            assert(Code::AuxQzs.name().len() != Code::GalE8x.name().len());
            assert(Code::AuxQzs.name().len() != Code::GalE5i.name().len());
            assert(Code::AuxQzs.name().len() != Code::GalE5q.name().len());
            assert(Code::AuxQzs.name()[0] != Code::GalE5x.name()[0]);
            assert(Code::AuxQzs.name()[0] != Code::GloL1p.name()[0]);
            assert(Code::AuxQzs.name()[0] != Code::GloL2p.name()[0]);
            assert(Code::AuxQzs.name().len() != Code::QzsL1ca.name().len());
            assert(Code::AuxQzs.name().len() != Code::QzsL1ci.name().len());
            assert(Code::AuxQzs.name().len() != Code::QzsL1cq.name().len());
            assert(Code::AuxQzs.name().len() != Code::QzsL1cx.name().len());
            assert(Code::AuxQzs.name().len() != Code::QzsL2cm.name().len());
            assert(Code::AuxQzs.name().len() != Code::QzsL2cl.name().len());
            assert(Code::AuxQzs.name()[4] != Code::QzsL2cx.name()[4]);
            assert(Code::AuxQzs.name()[4] != Code::QzsL5i.name()[4]);
            assert(Code::AuxQzs.name()[4] != Code::QzsL5q.name()[4]);
            assert(Code::AuxQzs.name().len() != Code::QzsL5x.name().len());
            assert(Code::AuxQzs.name().len() != Code::SbasL5i.name().len());
            assert(Code::AuxQzs.name().len() != Code::SbasL5q.name().len());
            assert(Code::AuxQzs.name()[0] != Code::SbasL5x.name()[0]);
            assert(Code::AuxQzs.name().len() != Code::Bds3B1ci.name().len());
            assert(Code::AuxQzs.name().len() != Code::Bds3B1cq.name().len());
            assert(Code::AuxQzs.name().len() != Code::Bds3B1cx.name().len());
            assert(Code::AuxQzs.name().len() != Code::Bds3B5i.name().len());
            assert(Code::AuxQzs.name().len() != Code::Bds3B5q.name().len());
            assert(Code::AuxQzs.name()[0] != Code::Bds3B5x.name()[0]);
            assert(Code::AuxQzs.name().len() != Code::Bds3B7i.name().len());
            assert(Code::AuxQzs.name().len() != Code::Bds3B7q.name().len());
            assert(Code::AuxQzs.name()[0] != Code::Bds3B7x.name()[0]);
            assert(Code::AuxQzs.name().len() != Code::Bds3B3i.name().len());
            assert(Code::AuxQzs.name().len() != Code::Bds3B3q.name().len());
            assert(Code::AuxQzs.name()[0] != Code::Bds3B3x.name()[0]);
            assert(Code::AuxQzs.name().len() != Code::GpsL1ci.name().len());
            assert(Code::AuxQzs.name().len() != Code::GpsL1cq.name().len());
            assert(Code::AuxQzs.name()[0] != Code::GpsL1cx.name()[0]);
            assert(Code::AuxQzs.name()[0] != Code::AuxGps.name()[0]);
            assert(Code::AuxQzs.name().len() != Code::AuxSbas.name().len());
            assert(Code::AuxQzs.name()[0] != Code::AuxGal.name()[0]);
        },
        Code::AuxBds => {
            assert(Code::AuxBds.name().len() != Code::GpsL1ca.name().len());
            assert(Code::AuxBds.name().len() != Code::GpsL2cm.name().len());
            assert(Code::AuxBds.name()[0] != Code::SbasL1ca.name()[0]);
            assert(Code::AuxBds.name().len() != Code::GloL1of.name().len());
            assert(Code::AuxBds.name().len() != Code::GloL2of.name().len());
            assert(Code::AuxBds.name()[0] != Code::GpsL1p.name()[0]);
            assert(Code::AuxBds.name()[0] != Code::GpsL2p.name()[0]);
            assert(Code::AuxBds.name().len() != Code::GpsL2cl.name().len());
            assert(Code::AuxBds.name()[0] != Code::GpsL2cx.name()[0]);
            assert(Code::AuxBds.name()[0] != Code::GpsL5i.name()[0]);
            assert(Code::AuxBds.name()[0] != Code::GpsL5q.name()[0]);
            assert(Code::AuxBds.name().len() != Code::GpsL5x.name().len());
            assert(Code::AuxBds.name().len() != Code::Bds2B1.name().len());
            assert(Code::AuxBds.name().len() != Code::Bds2B2.name().len());
            assert(Code::AuxBds.name()[0] != Code::GalE1b.name()[0]);
            assert(Code::AuxBds.name()[0] != Code::GalE1c.name()[0]);
            assert(Code::AuxBds.name().len() != Code::GalE1x.name().len());
            assert(Code::AuxBds.name()[0] != Code::GalE6b.name()[0]);
            assert(Code::AuxBds.name()[0] != Code::GalE6c.name()[0]);
            assert(Code::AuxBds.name().len() != Code::GalE6x.name().len());
            assert(Code::AuxBds.name().len() != Code::GalE7i.name().len());
            assert(Code::AuxBds.name().len() != Code::GalE7q.name().len());
            assert(Code::AuxBds.name()[0] != Code::GalE7x.name()[0]);
            assert(Code::AuxBds.name()[0] != Code::GalE8i.name()[0]);
            assert(Code::AuxBds.name()[0] != Code::GalE8q.name()[0]);
            assert(Code::AuxBds.name().len() != Code::GalE8x.name().len());
            assert(Code::AuxBds.name().len() != Code::GalE5i.name().len());
            assert(Code::AuxBds.name().len() != Code::GalE5q.name().len());
            assert(Code::AuxBds.name()[0] != Code::GalE5x.name()[0]);
            assert(Code::AuxBds.name()[0] != Code::GloL1p.name()[0]);
            assert(Code::AuxBds.name()[0] != Code::GloL2p.name()[0]);
            assert(Code::AuxBds.name().len() != Code::QzsL1ca.name().len());
            assert(Code::AuxBds.name().len() != Code::QzsL1ci.name().len());
            assert(Code::AuxBds.name().len() != Code::QzsL1cq.name().len());
            assert(Code::AuxBds.name().len() != Code::QzsL1cx.name().len());
            assert(Code::AuxBds.name().len() != Code::QzsL2cm.name().len());
            assert(Code::AuxBds.name().len() != Code::QzsL2cl.name().len());
            assert(Code::AuxBds.name()[0] != Code::QzsL2cx.name()[0]);
            assert(Code::AuxBds.name()[0] != Code::QzsL5i.name()[0]);
            assert(Code::AuxBds.name()[0] != Code::QzsL5q.name()[0]);
            assert(Code::AuxBds.name().len() != Code::QzsL5x.name().len());
            assert(Code::AuxBds.name().len() != Code::SbasL5i.name().len());
            assert(Code::AuxBds.name().len() != Code::SbasL5q.name().len());
            assert(Code::AuxBds.name()[0] != Code::SbasL5x.name()[0]);
            assert(Code::AuxBds.name().len() != Code::Bds3B1ci.name().len());
            assert(Code::AuxBds.name().len() != Code::Bds3B1cq.name().len());
            assert(Code::AuxBds.name().len() != Code::Bds3B1cx.name().len());
            assert(Code::AuxBds.name().len() != Code::Bds3B5i.name().len());
            assert(Code::AuxBds.name().len() != Code::Bds3B5q.name().len());
            assert(Code::AuxBds.name()[3] != Code::Bds3B5x.name()[3]);
            assert(Code::AuxBds.name().len() != Code::Bds3B7i.name().len());
            assert(Code::AuxBds.name().len() != Code::Bds3B7q.name().len());
            assert(Code::AuxBds.name()[3] != Code::Bds3B7x.name()[3]);
            assert(Code::AuxBds.name().len() != Code::Bds3B3i.name().len());
            assert(Code::AuxBds.name().len() != Code::Bds3B3q.name().len());
            assert(Code::AuxBds.name()[3] != Code::Bds3B3x.name()[3]);
            assert(Code::AuxBds.name().len() != Code::GpsL1ci.name().len());
            assert(Code::AuxBds.name().len() != Code::GpsL1cq.name().len());
            assert(Code::AuxBds.name()[0] != Code::GpsL1cx.name()[0]);
            assert(Code::AuxBds.name()[0] != Code::AuxGps.name()[0]);
            assert(Code::AuxBds.name().len() != Code::AuxSbas.name().len());
            assert(Code::AuxBds.name()[0] != Code::AuxGal.name()[0]);
            assert(Code::AuxBds.name()[0] != Code::AuxQzs.name()[0]);
        },
    }
}

} // verus!
