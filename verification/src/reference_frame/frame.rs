//! Geodetic reference frame identifiers
//!
//! Maps and GNSS tend to use their own reference frames (a.k.a datums). Each
//! frame has a name; well-known frames are enumerated, and any other name
//! stands for a custom frame.
use crate::text::str_matches;
use vstd::prelude::*;

verus! {

/// Geodetic reference frame identifiers
///
/// Enumerates well-known global and regional reference frames with support
/// for custom frames via the [`ReferenceFrame::Other`] variant.
#[allow(non_camel_case_types)]
#[derive(Debug, Eq, PartialOrd, Ord, Hash)]
pub enum ReferenceFrame {
    /// The ITRF88 frame
    ITRF88,
    /// The ITRF89 frame
    ITRF89,
    /// The ITRF90 frame
    ITRF90,
    /// The ITRF91 frame
    ITRF91,
    /// The ITRF92 frame
    ITRF92,
    /// The ITRF93 frame
    ITRF93,
    /// The ITRF94 frame
    ITRF94,
    /// The ITRF96 frame
    ITRF96,
    /// The ITRF97 frame
    ITRF97,
    /// The ITRF2000 frame
    ITRF2000,
    /// The ITRF2005 frame
    ITRF2005,
    /// The ITRF2008 frame
    ITRF2008,
    /// The ITRF2014 frame
    ITRF2014,
    /// The ITRF2020 frame
    ITRF2020,
    /// The ETRF89 frame
    ETRF89,
    /// The ETRF90 frame
    ETRF90,
    /// The ETRF91 frame
    ETRF91,
    /// The ETRF92 frame
    ETRF92,
    /// The ETRF93 frame
    ETRF93,
    /// The ETRF94 frame
    ETRF94,
    /// The ETRF96 frame
    ETRF96,
    /// The ETRF97 frame
    ETRF97,
    /// The ETRF2000 frame
    ETRF2000,
    /// The ETRF2005 frame
    ETRF2005,
    /// The ETRF2014 frame
    ETRF2014,
    /// The ETRF2020 frame
    ETRF2020,
    /// i.e. NAD83(2011)
    NAD83_2011,
    /// i.e. NAD83(CSRS) - Canadian Spatial Reference System
    NAD83_CSRS,
    /// DREF91(R2016)
    DREF91_R2016,
    /// WGS84(G1762)
    WGS84_G1762,
    /// WGS84(G2139)
    WGS84_G2139,
    /// WGS84(G2296)
    WGS84_G2296,
    /// Custom reference frame with user-defined name
    Other(String),
}

/// Number of well-known reference frames.
pub const KNOWN_FRAME_COUNT: u8 = 32;

impl ReferenceFrame {
    /// The position of a well-known frame in the declaration; custom frames
    /// come after all of them.
    pub open spec fn index(self) -> int {
        match self {
            ReferenceFrame::ITRF88 => 0,
            ReferenceFrame::ITRF89 => 1,
            ReferenceFrame::ITRF90 => 2,
            ReferenceFrame::ITRF91 => 3,
            ReferenceFrame::ITRF92 => 4,
            ReferenceFrame::ITRF93 => 5,
            ReferenceFrame::ITRF94 => 6,
            ReferenceFrame::ITRF96 => 7,
            ReferenceFrame::ITRF97 => 8,
            ReferenceFrame::ITRF2000 => 9,
            ReferenceFrame::ITRF2005 => 10,
            ReferenceFrame::ITRF2008 => 11,
            ReferenceFrame::ITRF2014 => 12,
            ReferenceFrame::ITRF2020 => 13,
            ReferenceFrame::ETRF89 => 14,
            ReferenceFrame::ETRF90 => 15,
            ReferenceFrame::ETRF91 => 16,
            ReferenceFrame::ETRF92 => 17,
            ReferenceFrame::ETRF93 => 18,
            ReferenceFrame::ETRF94 => 19,
            ReferenceFrame::ETRF96 => 20,
            ReferenceFrame::ETRF97 => 21,
            ReferenceFrame::ETRF2000 => 22,
            ReferenceFrame::ETRF2005 => 23,
            ReferenceFrame::ETRF2014 => 24,
            ReferenceFrame::ETRF2020 => 25,
            ReferenceFrame::NAD83_2011 => 26,
            ReferenceFrame::NAD83_CSRS => 27,
            ReferenceFrame::DREF91_R2016 => 28,
            ReferenceFrame::WGS84_G1762 => 29,
            ReferenceFrame::WGS84_G2139 => 30,
            ReferenceFrame::WGS84_G2296 => 31,
            ReferenceFrame::Other(_) => 32,
        }
    }

    /// The well-known frame at a position of the declaration.
    pub open spec fn known_frame(i: int) -> ReferenceFrame {
        if i == 0 {
            ReferenceFrame::ITRF88
        } else if i == 1 {
            ReferenceFrame::ITRF89
        } else if i == 2 {
            ReferenceFrame::ITRF90
        } else if i == 3 {
            ReferenceFrame::ITRF91
        } else if i == 4 {
            ReferenceFrame::ITRF92
        } else if i == 5 {
            ReferenceFrame::ITRF93
        } else if i == 6 {
            ReferenceFrame::ITRF94
        } else if i == 7 {
            ReferenceFrame::ITRF96
        } else if i == 8 {
            ReferenceFrame::ITRF97
        } else if i == 9 {
            ReferenceFrame::ITRF2000
        } else if i == 10 {
            ReferenceFrame::ITRF2005
        } else if i == 11 {
            ReferenceFrame::ITRF2008
        } else if i == 12 {
            ReferenceFrame::ITRF2014
        } else if i == 13 {
            ReferenceFrame::ITRF2020
        } else if i == 14 {
            ReferenceFrame::ETRF89
        } else if i == 15 {
            ReferenceFrame::ETRF90
        } else if i == 16 {
            ReferenceFrame::ETRF91
        } else if i == 17 {
            ReferenceFrame::ETRF92
        } else if i == 18 {
            ReferenceFrame::ETRF93
        } else if i == 19 {
            ReferenceFrame::ETRF94
        } else if i == 20 {
            ReferenceFrame::ETRF96
        } else if i == 21 {
            ReferenceFrame::ETRF97
        } else if i == 22 {
            ReferenceFrame::ETRF2000
        } else if i == 23 {
            ReferenceFrame::ETRF2005
        } else if i == 24 {
            ReferenceFrame::ETRF2014
        } else if i == 25 {
            ReferenceFrame::ETRF2020
        } else if i == 26 {
            ReferenceFrame::NAD83_2011
        } else if i == 27 {
            ReferenceFrame::NAD83_CSRS
        } else if i == 28 {
            ReferenceFrame::DREF91_R2016
        } else if i == 29 {
            ReferenceFrame::WGS84_G1762
        } else if i == 30 {
            ReferenceFrame::WGS84_G2139
        } else {
            ReferenceFrame::WGS84_G2296
        }
    }

    /// The name of the frame, as it is displayed. A custom frame's name is
    /// the name it was given.
    pub open spec fn name(self) -> Seq<char> {
        match self {
            ReferenceFrame::ITRF88 => seq!['I', 'T', 'R', 'F', '8', '8'],
            ReferenceFrame::ITRF89 => seq!['I', 'T', 'R', 'F', '8', '9'],
            ReferenceFrame::ITRF90 => seq!['I', 'T', 'R', 'F', '9', '0'],
            ReferenceFrame::ITRF91 => seq!['I', 'T', 'R', 'F', '9', '1'],
            ReferenceFrame::ITRF92 => seq!['I', 'T', 'R', 'F', '9', '2'],
            ReferenceFrame::ITRF93 => seq!['I', 'T', 'R', 'F', '9', '3'],
            ReferenceFrame::ITRF94 => seq!['I', 'T', 'R', 'F', '9', '4'],
            ReferenceFrame::ITRF96 => seq!['I', 'T', 'R', 'F', '9', '6'],
            ReferenceFrame::ITRF97 => seq!['I', 'T', 'R', 'F', '9', '7'],
            ReferenceFrame::ITRF2000 => seq!['I', 'T', 'R', 'F', '2', '0', '0', '0'],
            ReferenceFrame::ITRF2005 => seq!['I', 'T', 'R', 'F', '2', '0', '0', '5'],
            ReferenceFrame::ITRF2008 => seq!['I', 'T', 'R', 'F', '2', '0', '0', '8'],
            ReferenceFrame::ITRF2014 => seq!['I', 'T', 'R', 'F', '2', '0', '1', '4'],
            ReferenceFrame::ITRF2020 => seq!['I', 'T', 'R', 'F', '2', '0', '2', '0'],
            ReferenceFrame::ETRF89 => seq!['E', 'T', 'R', 'F', '8', '9'],
            ReferenceFrame::ETRF90 => seq!['E', 'T', 'R', 'F', '9', '0'],
            ReferenceFrame::ETRF91 => seq!['E', 'T', 'R', 'F', '9', '1'],
            ReferenceFrame::ETRF92 => seq!['E', 'T', 'R', 'F', '9', '2'],
            ReferenceFrame::ETRF93 => seq!['E', 'T', 'R', 'F', '9', '3'],
            ReferenceFrame::ETRF94 => seq!['E', 'T', 'R', 'F', '9', '4'],
            ReferenceFrame::ETRF96 => seq!['E', 'T', 'R', 'F', '9', '6'],
            ReferenceFrame::ETRF97 => seq!['E', 'T', 'R', 'F', '9', '7'],
            ReferenceFrame::ETRF2000 => seq!['E', 'T', 'R', 'F', '2', '0', '0', '0'],
            ReferenceFrame::ETRF2005 => seq!['E', 'T', 'R', 'F', '2', '0', '0', '5'],
            ReferenceFrame::ETRF2014 => seq!['E', 'T', 'R', 'F', '2', '0', '1', '4'],
            ReferenceFrame::ETRF2020 => seq!['E', 'T', 'R', 'F', '2', '0', '2', '0'],
            ReferenceFrame::NAD83_2011 => seq!['N', 'A', 'D', '8', '3', '(', '2', '0', '1', '1', ')'],
            ReferenceFrame::NAD83_CSRS => seq!['N', 'A', 'D', '8', '3', '(', 'C', 'S', 'R', 'S', ')'],
            ReferenceFrame::DREF91_R2016 => seq!['D', 'R', 'E', 'F', '9', '1', '(', 'R', '2', '0', '1', '6', ')'],
            ReferenceFrame::WGS84_G1762 => seq!['W', 'G', 'S', '8', '4', '(', 'G', '1', '7', '6', '2', ')'],
            ReferenceFrame::WGS84_G2139 => seq!['W', 'G', 'S', '8', '4', '(', 'G', '2', '1', '3', '9', ')'],
            ReferenceFrame::WGS84_G2296 => seq!['W', 'G', 'S', '8', '4', '(', 'G', '2', '2', '9', '6', ')'],
            ReferenceFrame::Other(s) => s@,
        }
    }

    /// The second name that a well-known frame is also parsed from, if any:
    /// the frames whose names hold brackets are also known by the variant's
    /// identifier.
    pub open spec fn alias(self) -> Option<Seq<char>> {
        match self {
            ReferenceFrame::NAD83_2011 => Some(seq!['N', 'A', 'D', '8', '3', '_', '2', '0', '1', '1']),
            ReferenceFrame::NAD83_CSRS => Some(seq!['N', 'A', 'D', '8', '3', '_', 'C', 'S', 'R', 'S']),
            ReferenceFrame::DREF91_R2016 => Some(seq!['D', 'R', 'E', 'F', '9', '1', '_', 'R', '2', '0', '1', '6']),
            ReferenceFrame::WGS84_G1762 => Some(seq!['W', 'G', 'S', '8', '4', '_', 'G', '1', '7', '6', '2']),
            ReferenceFrame::WGS84_G2139 => Some(seq!['W', 'G', 'S', '8', '4', '_', 'G', '2', '1', '3', '9']),
            ReferenceFrame::WGS84_G2296 => Some(seq!['W', 'G', 'S', '8', '4', '_', 'G', '2', '2', '9', '6']),
            _ => None,
        }
    }

    /// Whether `s` is the name or the alias of the frame.
    pub open spec fn is_called(self, s: Seq<char>) -> bool {
        self.name() == s || self.alias() == Some(s)
    }

    /// The well-known frame that is called `s`, if any.
    pub open spec fn known_from_name(s: Seq<char>) -> Option<ReferenceFrame> {
        if ReferenceFrame::ITRF88.is_called(s) {
            Some(ReferenceFrame::ITRF88)
        } else if ReferenceFrame::ITRF89.is_called(s) {
            Some(ReferenceFrame::ITRF89)
        } else if ReferenceFrame::ITRF90.is_called(s) {
            Some(ReferenceFrame::ITRF90)
        } else if ReferenceFrame::ITRF91.is_called(s) {
            Some(ReferenceFrame::ITRF91)
        } else if ReferenceFrame::ITRF92.is_called(s) {
            Some(ReferenceFrame::ITRF92)
        } else if ReferenceFrame::ITRF93.is_called(s) {
            Some(ReferenceFrame::ITRF93)
        } else if ReferenceFrame::ITRF94.is_called(s) {
            Some(ReferenceFrame::ITRF94)
        } else if ReferenceFrame::ITRF96.is_called(s) {
            Some(ReferenceFrame::ITRF96)
        } else if ReferenceFrame::ITRF97.is_called(s) {
            Some(ReferenceFrame::ITRF97)
        } else if ReferenceFrame::ITRF2000.is_called(s) {
            Some(ReferenceFrame::ITRF2000)
        } else if ReferenceFrame::ITRF2005.is_called(s) {
            Some(ReferenceFrame::ITRF2005)
        } else if ReferenceFrame::ITRF2008.is_called(s) {
            Some(ReferenceFrame::ITRF2008)
        } else if ReferenceFrame::ITRF2014.is_called(s) {
            Some(ReferenceFrame::ITRF2014)
        } else if ReferenceFrame::ITRF2020.is_called(s) {
            Some(ReferenceFrame::ITRF2020)
        } else if ReferenceFrame::ETRF89.is_called(s) {
            Some(ReferenceFrame::ETRF89)
        } else if ReferenceFrame::ETRF90.is_called(s) {
            Some(ReferenceFrame::ETRF90)
        } else if ReferenceFrame::ETRF91.is_called(s) {
            Some(ReferenceFrame::ETRF91)
        } else if ReferenceFrame::ETRF92.is_called(s) {
            Some(ReferenceFrame::ETRF92)
        } else if ReferenceFrame::ETRF93.is_called(s) {
            Some(ReferenceFrame::ETRF93)
        } else if ReferenceFrame::ETRF94.is_called(s) {
            Some(ReferenceFrame::ETRF94)
        } else if ReferenceFrame::ETRF96.is_called(s) {
            Some(ReferenceFrame::ETRF96)
        } else if ReferenceFrame::ETRF97.is_called(s) {
            Some(ReferenceFrame::ETRF97)
        } else if ReferenceFrame::ETRF2000.is_called(s) {
            Some(ReferenceFrame::ETRF2000)
        } else if ReferenceFrame::ETRF2005.is_called(s) {
            Some(ReferenceFrame::ETRF2005)
        } else if ReferenceFrame::ETRF2014.is_called(s) {
            Some(ReferenceFrame::ETRF2014)
        } else if ReferenceFrame::ETRF2020.is_called(s) {
            Some(ReferenceFrame::ETRF2020)
        } else if ReferenceFrame::NAD83_2011.is_called(s) {
            Some(ReferenceFrame::NAD83_2011)
        } else if ReferenceFrame::NAD83_CSRS.is_called(s) {
            Some(ReferenceFrame::NAD83_CSRS)
        } else if ReferenceFrame::DREF91_R2016.is_called(s) {
            Some(ReferenceFrame::DREF91_R2016)
        } else if ReferenceFrame::WGS84_G1762.is_called(s) {
            Some(ReferenceFrame::WGS84_G1762)
        } else if ReferenceFrame::WGS84_G2139.is_called(s) {
            Some(ReferenceFrame::WGS84_G2139)
        } else if ReferenceFrame::WGS84_G2296.is_called(s) {
            Some(ReferenceFrame::WGS84_G2296)
        } else {
            None
        }
    }

    /// Whether two frames are the same: the same well-known frame, or custom
    /// frames of the same name.
    pub open spec fn same_frame(self, other: ReferenceFrame) -> bool {
        match (self, other) {
            (ReferenceFrame::Other(a), ReferenceFrame::Other(b)) => a@ == b@,
            _ => self.index() == other.index(),
        }
    }

    /// A value that two frames share exactly when they are the same frame:
    /// the position of a well-known frame, or the name of a custom one.
    pub open spec fn frame_key(self) -> (int, Seq<char>) {
        match self {
            ReferenceFrame::Other(s) => (KNOWN_FRAME_COUNT as int, s@),
            _ => (self.index(), Seq::empty()),
        }
    }

    /// The well-known frame at a position of the declaration.
    pub fn from_index(i: u8) -> (f: ReferenceFrame)
        requires
            i < KNOWN_FRAME_COUNT,
        ensures
            f == ReferenceFrame::known_frame(i as int),
            f.index() == i,
    {
        match i {
            0 => ReferenceFrame::ITRF88,
            1 => ReferenceFrame::ITRF89,
            2 => ReferenceFrame::ITRF90,
            3 => ReferenceFrame::ITRF91,
            4 => ReferenceFrame::ITRF92,
            5 => ReferenceFrame::ITRF93,
            6 => ReferenceFrame::ITRF94,
            7 => ReferenceFrame::ITRF96,
            8 => ReferenceFrame::ITRF97,
            9 => ReferenceFrame::ITRF2000,
            10 => ReferenceFrame::ITRF2005,
            11 => ReferenceFrame::ITRF2008,
            12 => ReferenceFrame::ITRF2014,
            13 => ReferenceFrame::ITRF2020,
            14 => ReferenceFrame::ETRF89,
            15 => ReferenceFrame::ETRF90,
            16 => ReferenceFrame::ETRF91,
            17 => ReferenceFrame::ETRF92,
            18 => ReferenceFrame::ETRF93,
            19 => ReferenceFrame::ETRF94,
            20 => ReferenceFrame::ETRF96,
            21 => ReferenceFrame::ETRF97,
            22 => ReferenceFrame::ETRF2000,
            23 => ReferenceFrame::ETRF2005,
            24 => ReferenceFrame::ETRF2014,
            25 => ReferenceFrame::ETRF2020,
            26 => ReferenceFrame::NAD83_2011,
            27 => ReferenceFrame::NAD83_CSRS,
            28 => ReferenceFrame::DREF91_R2016,
            29 => ReferenceFrame::WGS84_G1762,
            30 => ReferenceFrame::WGS84_G2139,
            _ => ReferenceFrame::WGS84_G2296,
        }
    }

    /// The position of the frame in the declaration (see
    /// [`ReferenceFrame::index`]).
    pub fn to_index(&self) -> (i: u8)
        ensures
            i == self.index(),
    {
        match self {
            ReferenceFrame::ITRF88 => 0,
            ReferenceFrame::ITRF89 => 1,
            ReferenceFrame::ITRF90 => 2,
            ReferenceFrame::ITRF91 => 3,
            ReferenceFrame::ITRF92 => 4,
            ReferenceFrame::ITRF93 => 5,
            ReferenceFrame::ITRF94 => 6,
            ReferenceFrame::ITRF96 => 7,
            ReferenceFrame::ITRF97 => 8,
            ReferenceFrame::ITRF2000 => 9,
            ReferenceFrame::ITRF2005 => 10,
            ReferenceFrame::ITRF2008 => 11,
            ReferenceFrame::ITRF2014 => 12,
            ReferenceFrame::ITRF2020 => 13,
            ReferenceFrame::ETRF89 => 14,
            ReferenceFrame::ETRF90 => 15,
            ReferenceFrame::ETRF91 => 16,
            ReferenceFrame::ETRF92 => 17,
            ReferenceFrame::ETRF93 => 18,
            ReferenceFrame::ETRF94 => 19,
            ReferenceFrame::ETRF96 => 20,
            ReferenceFrame::ETRF97 => 21,
            ReferenceFrame::ETRF2000 => 22,
            ReferenceFrame::ETRF2005 => 23,
            ReferenceFrame::ETRF2014 => 24,
            ReferenceFrame::ETRF2020 => 25,
            ReferenceFrame::NAD83_2011 => 26,
            ReferenceFrame::NAD83_CSRS => 27,
            ReferenceFrame::DREF91_R2016 => 28,
            ReferenceFrame::WGS84_G1762 => 29,
            ReferenceFrame::WGS84_G2139 => 30,
            ReferenceFrame::WGS84_G2296 => 31,
            ReferenceFrame::Other(_) => 32,
        }
    }

    /// The name of a well-known frame.
    fn known_name(&self) -> (s: &'static str)
        requires
            !(self is Other),
        ensures
            s@ == self.name(),
    {
        match self {
            ReferenceFrame::ITRF88 => {
                proof {
                    reveal_strlit("ITRF88");
                }
                "ITRF88"
            },
            ReferenceFrame::ITRF89 => {
                proof {
                    reveal_strlit("ITRF89");
                }
                "ITRF89"
            },
            ReferenceFrame::ITRF90 => {
                proof {
                    reveal_strlit("ITRF90");
                }
                "ITRF90"
            },
            ReferenceFrame::ITRF91 => {
                proof {
                    reveal_strlit("ITRF91");
                }
                "ITRF91"
            },
            ReferenceFrame::ITRF92 => {
                proof {
                    reveal_strlit("ITRF92");
                }
                "ITRF92"
            },
            ReferenceFrame::ITRF93 => {
                proof {
                    reveal_strlit("ITRF93");
                }
                "ITRF93"
            },
            ReferenceFrame::ITRF94 => {
                proof {
                    reveal_strlit("ITRF94");
                }
                "ITRF94"
            },
            ReferenceFrame::ITRF96 => {
                proof {
                    reveal_strlit("ITRF96");
                }
                "ITRF96"
            },
            ReferenceFrame::ITRF97 => {
                proof {
                    reveal_strlit("ITRF97");
                }
                "ITRF97"
            },
            ReferenceFrame::ITRF2000 => {
                proof {
                    reveal_strlit("ITRF2000");
                }
                "ITRF2000"
            },
            ReferenceFrame::ITRF2005 => {
                proof {
                    reveal_strlit("ITRF2005");
                }
                "ITRF2005"
            },
            ReferenceFrame::ITRF2008 => {
                proof {
                    reveal_strlit("ITRF2008");
                }
                "ITRF2008"
            },
            ReferenceFrame::ITRF2014 => {
                proof {
                    reveal_strlit("ITRF2014");
                }
                "ITRF2014"
            },
            ReferenceFrame::ITRF2020 => {
                proof {
                    reveal_strlit("ITRF2020");
                }
                "ITRF2020"
            },
            ReferenceFrame::ETRF89 => {
                proof {
                    reveal_strlit("ETRF89");
                }
                "ETRF89"
            },
            ReferenceFrame::ETRF90 => {
                proof {
                    reveal_strlit("ETRF90");
                }
                "ETRF90"
            },
            ReferenceFrame::ETRF91 => {
                proof {
                    reveal_strlit("ETRF91");
                }
                "ETRF91"
            },
            ReferenceFrame::ETRF92 => {
                proof {
                    reveal_strlit("ETRF92");
                }
                "ETRF92"
            },
            ReferenceFrame::ETRF93 => {
                proof {
                    reveal_strlit("ETRF93");
                }
                "ETRF93"
            },
            ReferenceFrame::ETRF94 => {
                proof {
                    reveal_strlit("ETRF94");
                }
                "ETRF94"
            },
            ReferenceFrame::ETRF96 => {
                proof {
                    reveal_strlit("ETRF96");
                }
                "ETRF96"
            },
            ReferenceFrame::ETRF97 => {
                proof {
                    reveal_strlit("ETRF97");
                }
                "ETRF97"
            },
            ReferenceFrame::ETRF2000 => {
                proof {
                    reveal_strlit("ETRF2000");
                }
                "ETRF2000"
            },
            ReferenceFrame::ETRF2005 => {
                proof {
                    reveal_strlit("ETRF2005");
                }
                "ETRF2005"
            },
            ReferenceFrame::ETRF2014 => {
                proof {
                    reveal_strlit("ETRF2014");
                }
                "ETRF2014"
            },
            ReferenceFrame::ETRF2020 => {
                proof {
                    reveal_strlit("ETRF2020");
                }
                "ETRF2020"
            },
            ReferenceFrame::NAD83_2011 => {
                proof {
                    reveal_strlit("NAD83(2011)");
                }
                "NAD83(2011)"
            },
            ReferenceFrame::NAD83_CSRS => {
                proof {
                    reveal_strlit("NAD83(CSRS)");
                }
                "NAD83(CSRS)"
            },
            ReferenceFrame::DREF91_R2016 => {
                proof {
                    reveal_strlit("DREF91(R2016)");
                }
                "DREF91(R2016)"
            },
            ReferenceFrame::WGS84_G1762 => {
                proof {
                    reveal_strlit("WGS84(G1762)");
                }
                "WGS84(G1762)"
            },
            ReferenceFrame::WGS84_G2139 => {
                proof {
                    reveal_strlit("WGS84(G2139)");
                }
                "WGS84(G2139)"
            },
            ReferenceFrame::WGS84_G2296 => {
                proof {
                    reveal_strlit("WGS84(G2296)");
                }
                "WGS84(G2296)"
            },
            ReferenceFrame::Other(_) => "",
        }
    }

    /// The alias of a well-known frame, or `None`.
    fn known_alias(&self) -> (s: Option<&'static str>)
        ensures
            match (s, self.alias()) {
                (Some(a), Some(b)) => a@ == b,
                (None, None) => true,
                _ => false,
            },
    {
        match self {
            ReferenceFrame::NAD83_2011 => {
                proof {
                    reveal_strlit("NAD83_2011");
                }
                Some("NAD83_2011")
            },
            ReferenceFrame::NAD83_CSRS => {
                proof {
                    reveal_strlit("NAD83_CSRS");
                }
                Some("NAD83_CSRS")
            },
            ReferenceFrame::DREF91_R2016 => {
                proof {
                    reveal_strlit("DREF91_R2016");
                }
                Some("DREF91_R2016")
            },
            ReferenceFrame::WGS84_G1762 => {
                proof {
                    reveal_strlit("WGS84_G1762");
                }
                Some("WGS84_G1762")
            },
            ReferenceFrame::WGS84_G2139 => {
                proof {
                    reveal_strlit("WGS84_G2139");
                }
                Some("WGS84_G2139")
            },
            ReferenceFrame::WGS84_G2296 => {
                proof {
                    reveal_strlit("WGS84_G2296");
                }
                Some("WGS84_G2296")
            },
            _ => None,
        }
    }

    /// The frame's name as it is displayed.
    pub fn to_string(&self) -> (s: String)
        ensures
            s@ == self.name(),
    {
        match self {
            ReferenceFrame::Other(name) => name.clone(),
            _ => String::from_str(self.known_name()),
        }
    }

    /// Parses the name of a reference frame. The name or the alias of a
    /// well-known frame gives that frame; any other name gives a custom frame
    /// of that name.
    pub fn from_name(s: &str) -> (f: ReferenceFrame)
        ensures
            match ReferenceFrame::known_from_name(s@) {
                Some(k) => f == k,
                None => f matches ReferenceFrame::Other(name) && name@ == s@,
            },
    {
        let mut i: u8 = 0;
        while i < KNOWN_FRAME_COUNT
            invariant
                i <= KNOWN_FRAME_COUNT,
                forall|j: int| 0 <= j < i ==> !ReferenceFrame::known_frame(j).is_called(s@),
            decreases KNOWN_FRAME_COUNT - i,
        {
            let f = ReferenceFrame::from_index(i);
            let matched = str_matches(s, f.known_name()) || match f.known_alias() {
                Some(a) => str_matches(s, a),
                None => false,
            };
            if matched {
                proof {
                    lemma_known_from_name_first(s@, i as int);
                }
                return f;
            }
            i = i + 1;
        }
        proof {
            lemma_known_from_name_none(s@);
        }
        ReferenceFrame::Other(String::from_str(s))
    }
}

impl PartialEq for ReferenceFrame {
    fn eq(&self, other: &ReferenceFrame) -> (b: bool) {
        match (self, other) {
            (ReferenceFrame::Other(a), ReferenceFrame::Other(b)) => *a == *b,
            _ => self.to_index() == other.to_index(),
        }
    }
}

impl vstd::std_specs::cmp::PartialEqSpecImpl for ReferenceFrame {
    open spec fn obeys_eq_spec() -> bool {
        true
    }

    open spec fn eq_spec(&self, other: &ReferenceFrame) -> bool {
        self.same_frame(*other)
    }
}

impl Clone for ReferenceFrame {
    fn clone(&self) -> (f: ReferenceFrame)
        ensures
            f.same_frame(*self),
            f.frame_key() == self.frame_key(),
    {
        match self {
            ReferenceFrame::Other(name) => ReferenceFrame::Other(name.clone()),
            _ => ReferenceFrame::from_index(self.to_index()),
        }
    }
}

impl core::str::FromStr for ReferenceFrame {
    type Err = InvalidReferenceFrameName;

    fn from_str(s: &str) -> (r: Result<ReferenceFrame, InvalidReferenceFrameName>)
        ensures
            r matches Ok(f) && match ReferenceFrame::known_from_name(s@) {
                Some(k) => f == k,
                None => f matches ReferenceFrame::Other(name) && name@ == s@,
            },
    {
        Ok(ReferenceFrame::from_name(s))
    }
}

/// A bracketed frame name written as an identifier: a closing bracket at
/// the end is dropped and the opening bracket becomes `_`, so that
/// `WGS84(G2296)` reads `WGS84_G2296`.
pub open spec fn bracket_free(s: Seq<char>) -> Seq<char> {
    let t = if s.len() > 0 && s.last() == ')' {
        s.drop_last()
    } else {
        s
    };
    t.map_values(|c: char| if c == '(' { '_' } else { c })
}

/// A well-known frame has an alias exactly when its name is bracketed, and
/// the alias is the name written as an identifier; parsing that identifier
/// gives the frame back.
pub proof fn lemma_alias_is_bracket_free_name(f: ReferenceFrame)
    requires
        !(f is Other),
    ensures
        f.alias() is Some <==> f.name().contains('('),
        f.alias() matches Some(a) ==> a == bracket_free(f.name()),
        f.alias() is Some ==> ReferenceFrame::known_from_name(bracket_free(f.name())) == Some(f),
{
    lemma_frame_name_round_trip(f);
    let n = f.name();
    match f {
        ReferenceFrame::NAD83_2011 | ReferenceFrame::NAD83_CSRS | ReferenceFrame::DREF91_R2016
        | ReferenceFrame::WGS84_G1762 | ReferenceFrame::WGS84_G2139
        | ReferenceFrame::WGS84_G2296 => {
            assert(n[5] == '(' || n[6] == '(');
            assert(f.alias().unwrap() =~= bracket_free(n));
        },
        _ => {
            assert forall|i: int| 0 <= i < n.len() implies n[i] != '(' by {}
        },
    }
}

/// Two frames are the same exactly when their keys are equal.
pub proof fn lemma_same_frame_key(a: ReferenceFrame, b: ReferenceFrame)
    ensures
        a.same_frame(b) <==> a.frame_key() == b.frame_key(),
{
}

/// An error for a reference frame name that names no frame. Parsing never
/// gives it: unknown names stand for custom frames.
#[derive(Debug, PartialEq, Eq, PartialOrd, Ord, Clone)]
pub struct InvalidReferenceFrameName(pub String);

/// Error indicating that no transformation was found between two reference frames
#[derive(Debug, PartialEq, Eq, PartialOrd, Ord, Clone)]
pub struct TransformationNotFound(pub ReferenceFrame, pub ReferenceFrame);

/// If a well-known frame at position `i` is called `s` and no earlier one
/// is, then it is the frame that `s` names.
proof fn lemma_known_from_name_first(s: Seq<char>, i: int)
    requires
        0 <= i < KNOWN_FRAME_COUNT,
        ReferenceFrame::known_frame(i).is_called(s),
        forall|j: int| 0 <= j < i ==> !ReferenceFrame::known_frame(j).is_called(s),
    ensures
        ReferenceFrame::known_from_name(s) == Some(ReferenceFrame::known_frame(i)),
{
































    if i == 0 {
    } else if i == 1 {
        assert(!ReferenceFrame::known_frame(0).is_called(s));
    } else if i == 2 {
        assert(!ReferenceFrame::known_frame(1).is_called(s));
        assert(!ReferenceFrame::known_frame(0).is_called(s));
    } else if i == 3 {
        assert(!ReferenceFrame::known_frame(2).is_called(s));
        assert(!ReferenceFrame::known_frame(0).is_called(s));
        assert(!ReferenceFrame::known_frame(1).is_called(s));
    } else if i == 4 {
        assert(!ReferenceFrame::known_frame(3).is_called(s));
        assert(!ReferenceFrame::known_frame(0).is_called(s));
        assert(!ReferenceFrame::known_frame(1).is_called(s));
        assert(!ReferenceFrame::known_frame(2).is_called(s));
    } else if i == 5 {
        assert(!ReferenceFrame::known_frame(4).is_called(s));
        assert(!ReferenceFrame::known_frame(0).is_called(s));
        assert(!ReferenceFrame::known_frame(1).is_called(s));
        assert(!ReferenceFrame::known_frame(2).is_called(s));
        assert(!ReferenceFrame::known_frame(3).is_called(s));
    } else if i == 6 {
        assert(!ReferenceFrame::known_frame(5).is_called(s));
        assert(!ReferenceFrame::known_frame(0).is_called(s));
        assert(!ReferenceFrame::known_frame(1).is_called(s));
        assert(!ReferenceFrame::known_frame(2).is_called(s));
        assert(!ReferenceFrame::known_frame(3).is_called(s));
        assert(!ReferenceFrame::known_frame(4).is_called(s));
    } else if i == 7 {
        assert(!ReferenceFrame::known_frame(6).is_called(s));
        assert(!ReferenceFrame::known_frame(0).is_called(s));
        assert(!ReferenceFrame::known_frame(1).is_called(s));
        assert(!ReferenceFrame::known_frame(2).is_called(s));
        assert(!ReferenceFrame::known_frame(3).is_called(s));
        assert(!ReferenceFrame::known_frame(4).is_called(s));
        assert(!ReferenceFrame::known_frame(5).is_called(s));
    } else if i == 8 {
        assert(!ReferenceFrame::known_frame(7).is_called(s));
        assert(!ReferenceFrame::known_frame(0).is_called(s));
        assert(!ReferenceFrame::known_frame(1).is_called(s));
        assert(!ReferenceFrame::known_frame(2).is_called(s));
        assert(!ReferenceFrame::known_frame(3).is_called(s));
        assert(!ReferenceFrame::known_frame(4).is_called(s));
        assert(!ReferenceFrame::known_frame(5).is_called(s));
        assert(!ReferenceFrame::known_frame(6).is_called(s));
    } else if i == 9 {
        assert(!ReferenceFrame::known_frame(8).is_called(s));
        assert(!ReferenceFrame::known_frame(0).is_called(s));
        assert(!ReferenceFrame::known_frame(1).is_called(s));
        assert(!ReferenceFrame::known_frame(2).is_called(s));
        assert(!ReferenceFrame::known_frame(3).is_called(s));
        assert(!ReferenceFrame::known_frame(4).is_called(s));
        assert(!ReferenceFrame::known_frame(5).is_called(s));
        assert(!ReferenceFrame::known_frame(6).is_called(s));
        assert(!ReferenceFrame::known_frame(7).is_called(s));
    } else if i == 10 {
        assert(!ReferenceFrame::known_frame(9).is_called(s));
        assert(!ReferenceFrame::known_frame(0).is_called(s));
        assert(!ReferenceFrame::known_frame(1).is_called(s));
        assert(!ReferenceFrame::known_frame(2).is_called(s));
        assert(!ReferenceFrame::known_frame(3).is_called(s));
        assert(!ReferenceFrame::known_frame(4).is_called(s));
        assert(!ReferenceFrame::known_frame(5).is_called(s));
        assert(!ReferenceFrame::known_frame(6).is_called(s));
        assert(!ReferenceFrame::known_frame(7).is_called(s));
        assert(!ReferenceFrame::known_frame(8).is_called(s));
    } else if i == 11 {
        assert(!ReferenceFrame::known_frame(10).is_called(s));
        assert(!ReferenceFrame::known_frame(0).is_called(s));
        assert(!ReferenceFrame::known_frame(1).is_called(s));
        assert(!ReferenceFrame::known_frame(2).is_called(s));
        assert(!ReferenceFrame::known_frame(3).is_called(s));
        assert(!ReferenceFrame::known_frame(4).is_called(s));
        assert(!ReferenceFrame::known_frame(5).is_called(s));
        assert(!ReferenceFrame::known_frame(6).is_called(s));
        assert(!ReferenceFrame::known_frame(7).is_called(s));
        assert(!ReferenceFrame::known_frame(8).is_called(s));
        assert(!ReferenceFrame::known_frame(9).is_called(s));
    } else if i == 12 {
        assert(!ReferenceFrame::known_frame(11).is_called(s));
        assert(!ReferenceFrame::known_frame(0).is_called(s));
        assert(!ReferenceFrame::known_frame(1).is_called(s));
        assert(!ReferenceFrame::known_frame(2).is_called(s));
        assert(!ReferenceFrame::known_frame(3).is_called(s));
        assert(!ReferenceFrame::known_frame(4).is_called(s));
        assert(!ReferenceFrame::known_frame(5).is_called(s));
        assert(!ReferenceFrame::known_frame(6).is_called(s));
        assert(!ReferenceFrame::known_frame(7).is_called(s));
        assert(!ReferenceFrame::known_frame(8).is_called(s));
        assert(!ReferenceFrame::known_frame(9).is_called(s));
        assert(!ReferenceFrame::known_frame(10).is_called(s));
    } else if i == 13 {
        assert(!ReferenceFrame::known_frame(12).is_called(s));
        assert(!ReferenceFrame::known_frame(0).is_called(s));
        assert(!ReferenceFrame::known_frame(1).is_called(s));
        assert(!ReferenceFrame::known_frame(2).is_called(s));
        assert(!ReferenceFrame::known_frame(3).is_called(s));
        assert(!ReferenceFrame::known_frame(4).is_called(s));
        assert(!ReferenceFrame::known_frame(5).is_called(s));
        assert(!ReferenceFrame::known_frame(6).is_called(s));
        assert(!ReferenceFrame::known_frame(7).is_called(s));
        assert(!ReferenceFrame::known_frame(8).is_called(s));
        assert(!ReferenceFrame::known_frame(9).is_called(s));
        assert(!ReferenceFrame::known_frame(10).is_called(s));
        assert(!ReferenceFrame::known_frame(11).is_called(s));
    } else if i == 14 {
        assert(!ReferenceFrame::known_frame(13).is_called(s));
        assert(!ReferenceFrame::known_frame(0).is_called(s));
        assert(!ReferenceFrame::known_frame(1).is_called(s));
        assert(!ReferenceFrame::known_frame(2).is_called(s));
        assert(!ReferenceFrame::known_frame(3).is_called(s));
        assert(!ReferenceFrame::known_frame(4).is_called(s));
        assert(!ReferenceFrame::known_frame(5).is_called(s));
        assert(!ReferenceFrame::known_frame(6).is_called(s));
        assert(!ReferenceFrame::known_frame(7).is_called(s));
        assert(!ReferenceFrame::known_frame(8).is_called(s));
        assert(!ReferenceFrame::known_frame(9).is_called(s));
        assert(!ReferenceFrame::known_frame(10).is_called(s));
        assert(!ReferenceFrame::known_frame(11).is_called(s));
        assert(!ReferenceFrame::known_frame(12).is_called(s));
    } else if i == 15 {
        assert(!ReferenceFrame::known_frame(14).is_called(s));
        assert(!ReferenceFrame::known_frame(0).is_called(s));
        assert(!ReferenceFrame::known_frame(1).is_called(s));
        assert(!ReferenceFrame::known_frame(2).is_called(s));
        assert(!ReferenceFrame::known_frame(3).is_called(s));
        assert(!ReferenceFrame::known_frame(4).is_called(s));
        assert(!ReferenceFrame::known_frame(5).is_called(s));
        assert(!ReferenceFrame::known_frame(6).is_called(s));
        assert(!ReferenceFrame::known_frame(7).is_called(s));
        assert(!ReferenceFrame::known_frame(8).is_called(s));
        assert(!ReferenceFrame::known_frame(9).is_called(s));
        assert(!ReferenceFrame::known_frame(10).is_called(s));
        assert(!ReferenceFrame::known_frame(11).is_called(s));
        assert(!ReferenceFrame::known_frame(12).is_called(s));
        assert(!ReferenceFrame::known_frame(13).is_called(s));
    } else if i == 16 {
        assert(!ReferenceFrame::known_frame(15).is_called(s));
        assert(!ReferenceFrame::known_frame(0).is_called(s));
        assert(!ReferenceFrame::known_frame(1).is_called(s));
        assert(!ReferenceFrame::known_frame(2).is_called(s));
        assert(!ReferenceFrame::known_frame(3).is_called(s));
        assert(!ReferenceFrame::known_frame(4).is_called(s));
        assert(!ReferenceFrame::known_frame(5).is_called(s));
        assert(!ReferenceFrame::known_frame(6).is_called(s));
        assert(!ReferenceFrame::known_frame(7).is_called(s));
        assert(!ReferenceFrame::known_frame(8).is_called(s));
        assert(!ReferenceFrame::known_frame(9).is_called(s));
        assert(!ReferenceFrame::known_frame(10).is_called(s));
        assert(!ReferenceFrame::known_frame(11).is_called(s));
        assert(!ReferenceFrame::known_frame(12).is_called(s));
        assert(!ReferenceFrame::known_frame(13).is_called(s));
        assert(!ReferenceFrame::known_frame(14).is_called(s));
    } else if i == 17 {
        assert(!ReferenceFrame::known_frame(16).is_called(s));
        assert(!ReferenceFrame::known_frame(0).is_called(s));
        assert(!ReferenceFrame::known_frame(1).is_called(s));
        assert(!ReferenceFrame::known_frame(2).is_called(s));
        assert(!ReferenceFrame::known_frame(3).is_called(s));
        assert(!ReferenceFrame::known_frame(4).is_called(s));
        assert(!ReferenceFrame::known_frame(5).is_called(s));
        assert(!ReferenceFrame::known_frame(6).is_called(s));
        assert(!ReferenceFrame::known_frame(7).is_called(s));
        assert(!ReferenceFrame::known_frame(8).is_called(s));
        assert(!ReferenceFrame::known_frame(9).is_called(s));
        assert(!ReferenceFrame::known_frame(10).is_called(s));
        assert(!ReferenceFrame::known_frame(11).is_called(s));
        assert(!ReferenceFrame::known_frame(12).is_called(s));
        assert(!ReferenceFrame::known_frame(13).is_called(s));
        assert(!ReferenceFrame::known_frame(14).is_called(s));
        assert(!ReferenceFrame::known_frame(15).is_called(s));
    } else if i == 18 {
        assert(!ReferenceFrame::known_frame(17).is_called(s));
        assert(!ReferenceFrame::known_frame(0).is_called(s));
        assert(!ReferenceFrame::known_frame(1).is_called(s));
        assert(!ReferenceFrame::known_frame(2).is_called(s));
        assert(!ReferenceFrame::known_frame(3).is_called(s));
        assert(!ReferenceFrame::known_frame(4).is_called(s));
        assert(!ReferenceFrame::known_frame(5).is_called(s));
        assert(!ReferenceFrame::known_frame(6).is_called(s));
        assert(!ReferenceFrame::known_frame(7).is_called(s));
        assert(!ReferenceFrame::known_frame(8).is_called(s));
        assert(!ReferenceFrame::known_frame(9).is_called(s));
        assert(!ReferenceFrame::known_frame(10).is_called(s));
        assert(!ReferenceFrame::known_frame(11).is_called(s));
        assert(!ReferenceFrame::known_frame(12).is_called(s));
        assert(!ReferenceFrame::known_frame(13).is_called(s));
        assert(!ReferenceFrame::known_frame(14).is_called(s));
        assert(!ReferenceFrame::known_frame(15).is_called(s));
        assert(!ReferenceFrame::known_frame(16).is_called(s));
    } else if i == 19 {
        assert(!ReferenceFrame::known_frame(18).is_called(s));
        assert(!ReferenceFrame::known_frame(0).is_called(s));
        assert(!ReferenceFrame::known_frame(1).is_called(s));
        assert(!ReferenceFrame::known_frame(2).is_called(s));
        assert(!ReferenceFrame::known_frame(3).is_called(s));
        assert(!ReferenceFrame::known_frame(4).is_called(s));
        assert(!ReferenceFrame::known_frame(5).is_called(s));
        assert(!ReferenceFrame::known_frame(6).is_called(s));
        assert(!ReferenceFrame::known_frame(7).is_called(s));
        assert(!ReferenceFrame::known_frame(8).is_called(s));
        assert(!ReferenceFrame::known_frame(9).is_called(s));
        assert(!ReferenceFrame::known_frame(10).is_called(s));
        assert(!ReferenceFrame::known_frame(11).is_called(s));
        assert(!ReferenceFrame::known_frame(12).is_called(s));
        assert(!ReferenceFrame::known_frame(13).is_called(s));
        assert(!ReferenceFrame::known_frame(14).is_called(s));
        assert(!ReferenceFrame::known_frame(15).is_called(s));
        assert(!ReferenceFrame::known_frame(16).is_called(s));
        assert(!ReferenceFrame::known_frame(17).is_called(s));
    } else if i == 20 {
        assert(!ReferenceFrame::known_frame(19).is_called(s));
        assert(!ReferenceFrame::known_frame(0).is_called(s));
        assert(!ReferenceFrame::known_frame(1).is_called(s));
        assert(!ReferenceFrame::known_frame(2).is_called(s));
        assert(!ReferenceFrame::known_frame(3).is_called(s));
        assert(!ReferenceFrame::known_frame(4).is_called(s));
        assert(!ReferenceFrame::known_frame(5).is_called(s));
        assert(!ReferenceFrame::known_frame(6).is_called(s));
        assert(!ReferenceFrame::known_frame(7).is_called(s));
        assert(!ReferenceFrame::known_frame(8).is_called(s));
        assert(!ReferenceFrame::known_frame(9).is_called(s));
        assert(!ReferenceFrame::known_frame(10).is_called(s));
        assert(!ReferenceFrame::known_frame(11).is_called(s));
        assert(!ReferenceFrame::known_frame(12).is_called(s));
        assert(!ReferenceFrame::known_frame(13).is_called(s));
        assert(!ReferenceFrame::known_frame(14).is_called(s));
        assert(!ReferenceFrame::known_frame(15).is_called(s));
        assert(!ReferenceFrame::known_frame(16).is_called(s));
        assert(!ReferenceFrame::known_frame(17).is_called(s));
        assert(!ReferenceFrame::known_frame(18).is_called(s));
    } else if i == 21 {
        assert(!ReferenceFrame::known_frame(20).is_called(s));
        assert(!ReferenceFrame::known_frame(0).is_called(s));
        assert(!ReferenceFrame::known_frame(1).is_called(s));
        assert(!ReferenceFrame::known_frame(2).is_called(s));
        assert(!ReferenceFrame::known_frame(3).is_called(s));
        assert(!ReferenceFrame::known_frame(4).is_called(s));
        assert(!ReferenceFrame::known_frame(5).is_called(s));
        assert(!ReferenceFrame::known_frame(6).is_called(s));
        assert(!ReferenceFrame::known_frame(7).is_called(s));
        assert(!ReferenceFrame::known_frame(8).is_called(s));
        assert(!ReferenceFrame::known_frame(9).is_called(s));
        assert(!ReferenceFrame::known_frame(10).is_called(s));
        assert(!ReferenceFrame::known_frame(11).is_called(s));
        assert(!ReferenceFrame::known_frame(12).is_called(s));
        assert(!ReferenceFrame::known_frame(13).is_called(s));
        assert(!ReferenceFrame::known_frame(14).is_called(s));
        assert(!ReferenceFrame::known_frame(15).is_called(s));
        assert(!ReferenceFrame::known_frame(16).is_called(s));
        assert(!ReferenceFrame::known_frame(17).is_called(s));
        assert(!ReferenceFrame::known_frame(18).is_called(s));
        assert(!ReferenceFrame::known_frame(19).is_called(s));
    } else if i == 22 {
        assert(!ReferenceFrame::known_frame(21).is_called(s));
        assert(!ReferenceFrame::known_frame(0).is_called(s));
        assert(!ReferenceFrame::known_frame(1).is_called(s));
        assert(!ReferenceFrame::known_frame(2).is_called(s));
        assert(!ReferenceFrame::known_frame(3).is_called(s));
        assert(!ReferenceFrame::known_frame(4).is_called(s));
        assert(!ReferenceFrame::known_frame(5).is_called(s));
        assert(!ReferenceFrame::known_frame(6).is_called(s));
        assert(!ReferenceFrame::known_frame(7).is_called(s));
        assert(!ReferenceFrame::known_frame(8).is_called(s));
        assert(!ReferenceFrame::known_frame(9).is_called(s));
        assert(!ReferenceFrame::known_frame(10).is_called(s));
        assert(!ReferenceFrame::known_frame(11).is_called(s));
        assert(!ReferenceFrame::known_frame(12).is_called(s));
        assert(!ReferenceFrame::known_frame(13).is_called(s));
        assert(!ReferenceFrame::known_frame(14).is_called(s));
        assert(!ReferenceFrame::known_frame(15).is_called(s));
        assert(!ReferenceFrame::known_frame(16).is_called(s));
        assert(!ReferenceFrame::known_frame(17).is_called(s));
        assert(!ReferenceFrame::known_frame(18).is_called(s));
        assert(!ReferenceFrame::known_frame(19).is_called(s));
        assert(!ReferenceFrame::known_frame(20).is_called(s));
    } else if i == 23 {
        assert(!ReferenceFrame::known_frame(22).is_called(s));
        assert(!ReferenceFrame::known_frame(0).is_called(s));
        assert(!ReferenceFrame::known_frame(1).is_called(s));
        assert(!ReferenceFrame::known_frame(2).is_called(s));
        assert(!ReferenceFrame::known_frame(3).is_called(s));
        assert(!ReferenceFrame::known_frame(4).is_called(s));
        assert(!ReferenceFrame::known_frame(5).is_called(s));
        assert(!ReferenceFrame::known_frame(6).is_called(s));
        assert(!ReferenceFrame::known_frame(7).is_called(s));
        assert(!ReferenceFrame::known_frame(8).is_called(s));
        assert(!ReferenceFrame::known_frame(9).is_called(s));
        assert(!ReferenceFrame::known_frame(10).is_called(s));
        assert(!ReferenceFrame::known_frame(11).is_called(s));
        assert(!ReferenceFrame::known_frame(12).is_called(s));
        assert(!ReferenceFrame::known_frame(13).is_called(s));
        assert(!ReferenceFrame::known_frame(14).is_called(s));
        assert(!ReferenceFrame::known_frame(15).is_called(s));
        assert(!ReferenceFrame::known_frame(16).is_called(s));
        assert(!ReferenceFrame::known_frame(17).is_called(s));
        assert(!ReferenceFrame::known_frame(18).is_called(s));
        assert(!ReferenceFrame::known_frame(19).is_called(s));
        assert(!ReferenceFrame::known_frame(20).is_called(s));
        assert(!ReferenceFrame::known_frame(21).is_called(s));
    } else if i == 24 {
        assert(!ReferenceFrame::known_frame(23).is_called(s));
        assert(!ReferenceFrame::known_frame(0).is_called(s));
        assert(!ReferenceFrame::known_frame(1).is_called(s));
        assert(!ReferenceFrame::known_frame(2).is_called(s));
        assert(!ReferenceFrame::known_frame(3).is_called(s));
        assert(!ReferenceFrame::known_frame(4).is_called(s));
        assert(!ReferenceFrame::known_frame(5).is_called(s));
        assert(!ReferenceFrame::known_frame(6).is_called(s));
        assert(!ReferenceFrame::known_frame(7).is_called(s));
        assert(!ReferenceFrame::known_frame(8).is_called(s));
        assert(!ReferenceFrame::known_frame(9).is_called(s));
        assert(!ReferenceFrame::known_frame(10).is_called(s));
        assert(!ReferenceFrame::known_frame(11).is_called(s));
        assert(!ReferenceFrame::known_frame(12).is_called(s));
        assert(!ReferenceFrame::known_frame(13).is_called(s));
        assert(!ReferenceFrame::known_frame(14).is_called(s));
        assert(!ReferenceFrame::known_frame(15).is_called(s));
        assert(!ReferenceFrame::known_frame(16).is_called(s));
        assert(!ReferenceFrame::known_frame(17).is_called(s));
        assert(!ReferenceFrame::known_frame(18).is_called(s));
        assert(!ReferenceFrame::known_frame(19).is_called(s));
        assert(!ReferenceFrame::known_frame(20).is_called(s));
        assert(!ReferenceFrame::known_frame(21).is_called(s));
        assert(!ReferenceFrame::known_frame(22).is_called(s));
    } else if i == 25 {
        assert(!ReferenceFrame::known_frame(24).is_called(s));
        assert(!ReferenceFrame::known_frame(0).is_called(s));
        assert(!ReferenceFrame::known_frame(1).is_called(s));
        assert(!ReferenceFrame::known_frame(2).is_called(s));
        assert(!ReferenceFrame::known_frame(3).is_called(s));
        assert(!ReferenceFrame::known_frame(4).is_called(s));
        assert(!ReferenceFrame::known_frame(5).is_called(s));
        assert(!ReferenceFrame::known_frame(6).is_called(s));
        assert(!ReferenceFrame::known_frame(7).is_called(s));
        assert(!ReferenceFrame::known_frame(8).is_called(s));
        assert(!ReferenceFrame::known_frame(9).is_called(s));
        assert(!ReferenceFrame::known_frame(10).is_called(s));
        assert(!ReferenceFrame::known_frame(11).is_called(s));
        assert(!ReferenceFrame::known_frame(12).is_called(s));
        assert(!ReferenceFrame::known_frame(13).is_called(s));
        assert(!ReferenceFrame::known_frame(14).is_called(s));
        assert(!ReferenceFrame::known_frame(15).is_called(s));
        assert(!ReferenceFrame::known_frame(16).is_called(s));
        assert(!ReferenceFrame::known_frame(17).is_called(s));
        assert(!ReferenceFrame::known_frame(18).is_called(s));
        assert(!ReferenceFrame::known_frame(19).is_called(s));
        assert(!ReferenceFrame::known_frame(20).is_called(s));
        assert(!ReferenceFrame::known_frame(21).is_called(s));
        assert(!ReferenceFrame::known_frame(22).is_called(s));
        assert(!ReferenceFrame::known_frame(23).is_called(s));
    } else if i == 26 {
        assert(!ReferenceFrame::known_frame(25).is_called(s));
        assert(!ReferenceFrame::known_frame(0).is_called(s));
        assert(!ReferenceFrame::known_frame(1).is_called(s));
        assert(!ReferenceFrame::known_frame(2).is_called(s));
        assert(!ReferenceFrame::known_frame(3).is_called(s));
        assert(!ReferenceFrame::known_frame(4).is_called(s));
        assert(!ReferenceFrame::known_frame(5).is_called(s));
        assert(!ReferenceFrame::known_frame(6).is_called(s));
        assert(!ReferenceFrame::known_frame(7).is_called(s));
        assert(!ReferenceFrame::known_frame(8).is_called(s));
        assert(!ReferenceFrame::known_frame(9).is_called(s));
        assert(!ReferenceFrame::known_frame(10).is_called(s));
        assert(!ReferenceFrame::known_frame(11).is_called(s));
        assert(!ReferenceFrame::known_frame(12).is_called(s));
        assert(!ReferenceFrame::known_frame(13).is_called(s));
        assert(!ReferenceFrame::known_frame(14).is_called(s));
        assert(!ReferenceFrame::known_frame(15).is_called(s));
        assert(!ReferenceFrame::known_frame(16).is_called(s));
        assert(!ReferenceFrame::known_frame(17).is_called(s));
        assert(!ReferenceFrame::known_frame(18).is_called(s));
        assert(!ReferenceFrame::known_frame(19).is_called(s));
        assert(!ReferenceFrame::known_frame(20).is_called(s));
        assert(!ReferenceFrame::known_frame(21).is_called(s));
        assert(!ReferenceFrame::known_frame(22).is_called(s));
        assert(!ReferenceFrame::known_frame(23).is_called(s));
        assert(!ReferenceFrame::known_frame(24).is_called(s));
    } else if i == 27 {
        assert(!ReferenceFrame::known_frame(26).is_called(s));
        assert(!ReferenceFrame::known_frame(0).is_called(s));
        assert(!ReferenceFrame::known_frame(1).is_called(s));
        assert(!ReferenceFrame::known_frame(2).is_called(s));
        assert(!ReferenceFrame::known_frame(3).is_called(s));
        assert(!ReferenceFrame::known_frame(4).is_called(s));
        assert(!ReferenceFrame::known_frame(5).is_called(s));
        assert(!ReferenceFrame::known_frame(6).is_called(s));
        assert(!ReferenceFrame::known_frame(7).is_called(s));
        assert(!ReferenceFrame::known_frame(8).is_called(s));
        assert(!ReferenceFrame::known_frame(9).is_called(s));
        assert(!ReferenceFrame::known_frame(10).is_called(s));
        assert(!ReferenceFrame::known_frame(11).is_called(s));
        assert(!ReferenceFrame::known_frame(12).is_called(s));
        assert(!ReferenceFrame::known_frame(13).is_called(s));
        assert(!ReferenceFrame::known_frame(14).is_called(s));
        assert(!ReferenceFrame::known_frame(15).is_called(s));
        assert(!ReferenceFrame::known_frame(16).is_called(s));
        assert(!ReferenceFrame::known_frame(17).is_called(s));
        assert(!ReferenceFrame::known_frame(18).is_called(s));
        assert(!ReferenceFrame::known_frame(19).is_called(s));
        assert(!ReferenceFrame::known_frame(20).is_called(s));
        assert(!ReferenceFrame::known_frame(21).is_called(s));
        assert(!ReferenceFrame::known_frame(22).is_called(s));
        assert(!ReferenceFrame::known_frame(23).is_called(s));
        assert(!ReferenceFrame::known_frame(24).is_called(s));
        assert(!ReferenceFrame::known_frame(25).is_called(s));
    } else if i == 28 {
        assert(!ReferenceFrame::known_frame(27).is_called(s));
        assert(!ReferenceFrame::known_frame(0).is_called(s));
        assert(!ReferenceFrame::known_frame(1).is_called(s));
        assert(!ReferenceFrame::known_frame(2).is_called(s));
        assert(!ReferenceFrame::known_frame(3).is_called(s));
        assert(!ReferenceFrame::known_frame(4).is_called(s));
        assert(!ReferenceFrame::known_frame(5).is_called(s));
        assert(!ReferenceFrame::known_frame(6).is_called(s));
        assert(!ReferenceFrame::known_frame(7).is_called(s));
        assert(!ReferenceFrame::known_frame(8).is_called(s));
        assert(!ReferenceFrame::known_frame(9).is_called(s));
        assert(!ReferenceFrame::known_frame(10).is_called(s));
        assert(!ReferenceFrame::known_frame(11).is_called(s));
        assert(!ReferenceFrame::known_frame(12).is_called(s));
        assert(!ReferenceFrame::known_frame(13).is_called(s));
        assert(!ReferenceFrame::known_frame(14).is_called(s));
        assert(!ReferenceFrame::known_frame(15).is_called(s));
        assert(!ReferenceFrame::known_frame(16).is_called(s));
        assert(!ReferenceFrame::known_frame(17).is_called(s));
        assert(!ReferenceFrame::known_frame(18).is_called(s));
        assert(!ReferenceFrame::known_frame(19).is_called(s));
        assert(!ReferenceFrame::known_frame(20).is_called(s));
        assert(!ReferenceFrame::known_frame(21).is_called(s));
        assert(!ReferenceFrame::known_frame(22).is_called(s));
        assert(!ReferenceFrame::known_frame(23).is_called(s));
        assert(!ReferenceFrame::known_frame(24).is_called(s));
        assert(!ReferenceFrame::known_frame(25).is_called(s));
        assert(!ReferenceFrame::known_frame(26).is_called(s));
    } else if i == 29 {
        assert(!ReferenceFrame::known_frame(28).is_called(s));
        assert(!ReferenceFrame::known_frame(0).is_called(s));
        assert(!ReferenceFrame::known_frame(1).is_called(s));
        assert(!ReferenceFrame::known_frame(2).is_called(s));
        assert(!ReferenceFrame::known_frame(3).is_called(s));
        assert(!ReferenceFrame::known_frame(4).is_called(s));
        assert(!ReferenceFrame::known_frame(5).is_called(s));
        assert(!ReferenceFrame::known_frame(6).is_called(s));
        assert(!ReferenceFrame::known_frame(7).is_called(s));
        assert(!ReferenceFrame::known_frame(8).is_called(s));
        assert(!ReferenceFrame::known_frame(9).is_called(s));
        assert(!ReferenceFrame::known_frame(10).is_called(s));
        assert(!ReferenceFrame::known_frame(11).is_called(s));
        assert(!ReferenceFrame::known_frame(12).is_called(s));
        assert(!ReferenceFrame::known_frame(13).is_called(s));
        assert(!ReferenceFrame::known_frame(14).is_called(s));
        assert(!ReferenceFrame::known_frame(15).is_called(s));
        assert(!ReferenceFrame::known_frame(16).is_called(s));
        assert(!ReferenceFrame::known_frame(17).is_called(s));
        assert(!ReferenceFrame::known_frame(18).is_called(s));
        assert(!ReferenceFrame::known_frame(19).is_called(s));
        assert(!ReferenceFrame::known_frame(20).is_called(s));
        assert(!ReferenceFrame::known_frame(21).is_called(s));
        assert(!ReferenceFrame::known_frame(22).is_called(s));
        assert(!ReferenceFrame::known_frame(23).is_called(s));
        assert(!ReferenceFrame::known_frame(24).is_called(s));
        assert(!ReferenceFrame::known_frame(25).is_called(s));
        assert(!ReferenceFrame::known_frame(26).is_called(s));
        assert(!ReferenceFrame::known_frame(27).is_called(s));
    } else if i == 30 {
        assert(!ReferenceFrame::known_frame(29).is_called(s));
        assert(!ReferenceFrame::known_frame(0).is_called(s));
        assert(!ReferenceFrame::known_frame(1).is_called(s));
        assert(!ReferenceFrame::known_frame(2).is_called(s));
        assert(!ReferenceFrame::known_frame(3).is_called(s));
        assert(!ReferenceFrame::known_frame(4).is_called(s));
        assert(!ReferenceFrame::known_frame(5).is_called(s));
        assert(!ReferenceFrame::known_frame(6).is_called(s));
        assert(!ReferenceFrame::known_frame(7).is_called(s));
        assert(!ReferenceFrame::known_frame(8).is_called(s));
        assert(!ReferenceFrame::known_frame(9).is_called(s));
        assert(!ReferenceFrame::known_frame(10).is_called(s));
        assert(!ReferenceFrame::known_frame(11).is_called(s));
        assert(!ReferenceFrame::known_frame(12).is_called(s));
        assert(!ReferenceFrame::known_frame(13).is_called(s));
        assert(!ReferenceFrame::known_frame(14).is_called(s));
        assert(!ReferenceFrame::known_frame(15).is_called(s));
        assert(!ReferenceFrame::known_frame(16).is_called(s));
        assert(!ReferenceFrame::known_frame(17).is_called(s));
        assert(!ReferenceFrame::known_frame(18).is_called(s));
        assert(!ReferenceFrame::known_frame(19).is_called(s));
        assert(!ReferenceFrame::known_frame(20).is_called(s));
        assert(!ReferenceFrame::known_frame(21).is_called(s));
        assert(!ReferenceFrame::known_frame(22).is_called(s));
        assert(!ReferenceFrame::known_frame(23).is_called(s));
        assert(!ReferenceFrame::known_frame(24).is_called(s));
        assert(!ReferenceFrame::known_frame(25).is_called(s));
        assert(!ReferenceFrame::known_frame(26).is_called(s));
        assert(!ReferenceFrame::known_frame(27).is_called(s));
        assert(!ReferenceFrame::known_frame(28).is_called(s));
    } else if i == 31 {
        assert(!ReferenceFrame::known_frame(30).is_called(s));
        assert(!ReferenceFrame::known_frame(0).is_called(s));
        assert(!ReferenceFrame::known_frame(1).is_called(s));
        assert(!ReferenceFrame::known_frame(2).is_called(s));
        assert(!ReferenceFrame::known_frame(3).is_called(s));
        assert(!ReferenceFrame::known_frame(4).is_called(s));
        assert(!ReferenceFrame::known_frame(5).is_called(s));
        assert(!ReferenceFrame::known_frame(6).is_called(s));
        assert(!ReferenceFrame::known_frame(7).is_called(s));
        assert(!ReferenceFrame::known_frame(8).is_called(s));
        assert(!ReferenceFrame::known_frame(9).is_called(s));
        assert(!ReferenceFrame::known_frame(10).is_called(s));
        assert(!ReferenceFrame::known_frame(11).is_called(s));
        assert(!ReferenceFrame::known_frame(12).is_called(s));
        assert(!ReferenceFrame::known_frame(13).is_called(s));
        assert(!ReferenceFrame::known_frame(14).is_called(s));
        assert(!ReferenceFrame::known_frame(15).is_called(s));
        assert(!ReferenceFrame::known_frame(16).is_called(s));
        assert(!ReferenceFrame::known_frame(17).is_called(s));
        assert(!ReferenceFrame::known_frame(18).is_called(s));
        assert(!ReferenceFrame::known_frame(19).is_called(s));
        assert(!ReferenceFrame::known_frame(20).is_called(s));
        assert(!ReferenceFrame::known_frame(21).is_called(s));
        assert(!ReferenceFrame::known_frame(22).is_called(s));
        assert(!ReferenceFrame::known_frame(23).is_called(s));
        assert(!ReferenceFrame::known_frame(24).is_called(s));
        assert(!ReferenceFrame::known_frame(25).is_called(s));
        assert(!ReferenceFrame::known_frame(26).is_called(s));
        assert(!ReferenceFrame::known_frame(27).is_called(s));
        assert(!ReferenceFrame::known_frame(28).is_called(s));
        assert(!ReferenceFrame::known_frame(29).is_called(s));
    }
}

/// If no well-known frame is called `s`, `s` names no well-known frame.
proof fn lemma_known_from_name_none(s: Seq<char>)
    requires
        forall|j: int| 0 <= j < KNOWN_FRAME_COUNT ==> !ReferenceFrame::known_frame(j).is_called(s),
    ensures
        ReferenceFrame::known_from_name(s) is None,
{
    assert(!ReferenceFrame::known_frame(0).is_called(s));
    assert(!ReferenceFrame::known_frame(1).is_called(s));
    assert(!ReferenceFrame::known_frame(2).is_called(s));
    assert(!ReferenceFrame::known_frame(3).is_called(s));
    assert(!ReferenceFrame::known_frame(4).is_called(s));
    assert(!ReferenceFrame::known_frame(5).is_called(s));
    assert(!ReferenceFrame::known_frame(6).is_called(s));
    assert(!ReferenceFrame::known_frame(7).is_called(s));
    assert(!ReferenceFrame::known_frame(8).is_called(s));
    assert(!ReferenceFrame::known_frame(9).is_called(s));
    assert(!ReferenceFrame::known_frame(10).is_called(s));
    assert(!ReferenceFrame::known_frame(11).is_called(s));
    assert(!ReferenceFrame::known_frame(12).is_called(s));
    assert(!ReferenceFrame::known_frame(13).is_called(s));
    assert(!ReferenceFrame::known_frame(14).is_called(s));
    assert(!ReferenceFrame::known_frame(15).is_called(s));
    assert(!ReferenceFrame::known_frame(16).is_called(s));
    assert(!ReferenceFrame::known_frame(17).is_called(s));
    assert(!ReferenceFrame::known_frame(18).is_called(s));
    assert(!ReferenceFrame::known_frame(19).is_called(s));
    assert(!ReferenceFrame::known_frame(20).is_called(s));
    assert(!ReferenceFrame::known_frame(21).is_called(s));
    assert(!ReferenceFrame::known_frame(22).is_called(s));
    assert(!ReferenceFrame::known_frame(23).is_called(s));
    assert(!ReferenceFrame::known_frame(24).is_called(s));
    assert(!ReferenceFrame::known_frame(25).is_called(s));
    assert(!ReferenceFrame::known_frame(26).is_called(s));
    assert(!ReferenceFrame::known_frame(27).is_called(s));
    assert(!ReferenceFrame::known_frame(28).is_called(s));
    assert(!ReferenceFrame::known_frame(29).is_called(s));
    assert(!ReferenceFrame::known_frame(30).is_called(s));
    assert(!ReferenceFrame::known_frame(31).is_called(s));
}

/// Parsing the name of a well-known frame gives the frame back, and so does
/// parsing its alias: no two well-known frames share a name or an alias.
pub proof fn lemma_frame_name_round_trip(f: ReferenceFrame)
    requires
        !(f is Other),
    ensures
        ReferenceFrame::known_from_name(f.name()) == Some(f),
        f.alias() matches Some(a) ==> ReferenceFrame::known_from_name(a) == Some(f),
{
    match f {
        ReferenceFrame::ITRF88 => {},
        ReferenceFrame::ITRF89 => {
            assert(ReferenceFrame::ITRF89.name()[5] != ReferenceFrame::ITRF88.name()[5]);
        },
        ReferenceFrame::ITRF90 => {
            assert(ReferenceFrame::ITRF90.name()[4] != ReferenceFrame::ITRF88.name()[4]);
            assert(ReferenceFrame::ITRF90.name()[4] != ReferenceFrame::ITRF89.name()[4]);
        },
        ReferenceFrame::ITRF91 => {
            assert(ReferenceFrame::ITRF91.name()[4] != ReferenceFrame::ITRF88.name()[4]);
            assert(ReferenceFrame::ITRF91.name()[4] != ReferenceFrame::ITRF89.name()[4]);
            assert(ReferenceFrame::ITRF91.name()[5] != ReferenceFrame::ITRF90.name()[5]);
        },
        ReferenceFrame::ITRF92 => {
            assert(ReferenceFrame::ITRF92.name()[4] != ReferenceFrame::ITRF88.name()[4]);
            assert(ReferenceFrame::ITRF92.name()[4] != ReferenceFrame::ITRF89.name()[4]);
            assert(ReferenceFrame::ITRF92.name()[5] != ReferenceFrame::ITRF90.name()[5]);
            assert(ReferenceFrame::ITRF92.name()[5] != ReferenceFrame::ITRF91.name()[5]);
        },
        ReferenceFrame::ITRF93 => {
            assert(ReferenceFrame::ITRF93.name()[4] != ReferenceFrame::ITRF88.name()[4]);
            assert(ReferenceFrame::ITRF93.name()[4] != ReferenceFrame::ITRF89.name()[4]);
            assert(ReferenceFrame::ITRF93.name()[5] != ReferenceFrame::ITRF90.name()[5]);
            assert(ReferenceFrame::ITRF93.name()[5] != ReferenceFrame::ITRF91.name()[5]);
            assert(ReferenceFrame::ITRF93.name()[5] != ReferenceFrame::ITRF92.name()[5]);
        },
        ReferenceFrame::ITRF94 => {
            assert(ReferenceFrame::ITRF94.name()[4] != ReferenceFrame::ITRF88.name()[4]);
            assert(ReferenceFrame::ITRF94.name()[4] != ReferenceFrame::ITRF89.name()[4]);
            assert(ReferenceFrame::ITRF94.name()[5] != ReferenceFrame::ITRF90.name()[5]);
            assert(ReferenceFrame::ITRF94.name()[5] != ReferenceFrame::ITRF91.name()[5]);
            assert(ReferenceFrame::ITRF94.name()[5] != ReferenceFrame::ITRF92.name()[5]);
            assert(ReferenceFrame::ITRF94.name()[5] != ReferenceFrame::ITRF93.name()[5]);
        },
        ReferenceFrame::ITRF96 => {
            assert(ReferenceFrame::ITRF96.name()[4] != ReferenceFrame::ITRF88.name()[4]);
            assert(ReferenceFrame::ITRF96.name()[4] != ReferenceFrame::ITRF89.name()[4]);
            assert(ReferenceFrame::ITRF96.name()[5] != ReferenceFrame::ITRF90.name()[5]);
            assert(ReferenceFrame::ITRF96.name()[5] != ReferenceFrame::ITRF91.name()[5]);
            assert(ReferenceFrame::ITRF96.name()[5] != ReferenceFrame::ITRF92.name()[5]);
            assert(ReferenceFrame::ITRF96.name()[5] != ReferenceFrame::ITRF93.name()[5]);
            assert(ReferenceFrame::ITRF96.name()[5] != ReferenceFrame::ITRF94.name()[5]);
        },
        ReferenceFrame::ITRF97 => {
            assert(ReferenceFrame::ITRF97.name()[4] != ReferenceFrame::ITRF88.name()[4]);
            assert(ReferenceFrame::ITRF97.name()[4] != ReferenceFrame::ITRF89.name()[4]);
            assert(ReferenceFrame::ITRF97.name()[5] != ReferenceFrame::ITRF90.name()[5]);
            assert(ReferenceFrame::ITRF97.name()[5] != ReferenceFrame::ITRF91.name()[5]);
            assert(ReferenceFrame::ITRF97.name()[5] != ReferenceFrame::ITRF92.name()[5]);
            assert(ReferenceFrame::ITRF97.name()[5] != ReferenceFrame::ITRF93.name()[5]);
            assert(ReferenceFrame::ITRF97.name()[5] != ReferenceFrame::ITRF94.name()[5]);
            assert(ReferenceFrame::ITRF97.name()[5] != ReferenceFrame::ITRF96.name()[5]);
        },
        ReferenceFrame::ITRF2000 => {
            assert(ReferenceFrame::ITRF2000.name().len() != ReferenceFrame::ITRF88.name().len());
            assert(ReferenceFrame::ITRF2000.name().len() != ReferenceFrame::ITRF89.name().len());
            assert(ReferenceFrame::ITRF2000.name().len() != ReferenceFrame::ITRF90.name().len());
            assert(ReferenceFrame::ITRF2000.name().len() != ReferenceFrame::ITRF91.name().len());
            assert(ReferenceFrame::ITRF2000.name().len() != ReferenceFrame::ITRF92.name().len());
            assert(ReferenceFrame::ITRF2000.name().len() != ReferenceFrame::ITRF93.name().len());
            assert(ReferenceFrame::ITRF2000.name().len() != ReferenceFrame::ITRF94.name().len());
            assert(ReferenceFrame::ITRF2000.name().len() != ReferenceFrame::ITRF96.name().len());
            assert(ReferenceFrame::ITRF2000.name().len() != ReferenceFrame::ITRF97.name().len());
        },
        ReferenceFrame::ITRF2005 => {
            assert(ReferenceFrame::ITRF2005.name().len() != ReferenceFrame::ITRF88.name().len());
            assert(ReferenceFrame::ITRF2005.name().len() != ReferenceFrame::ITRF89.name().len());
            assert(ReferenceFrame::ITRF2005.name().len() != ReferenceFrame::ITRF90.name().len());
            assert(ReferenceFrame::ITRF2005.name().len() != ReferenceFrame::ITRF91.name().len());
            assert(ReferenceFrame::ITRF2005.name().len() != ReferenceFrame::ITRF92.name().len());
            assert(ReferenceFrame::ITRF2005.name().len() != ReferenceFrame::ITRF93.name().len());
            assert(ReferenceFrame::ITRF2005.name().len() != ReferenceFrame::ITRF94.name().len());
            assert(ReferenceFrame::ITRF2005.name().len() != ReferenceFrame::ITRF96.name().len());
            assert(ReferenceFrame::ITRF2005.name().len() != ReferenceFrame::ITRF97.name().len());
            assert(ReferenceFrame::ITRF2005.name()[7] != ReferenceFrame::ITRF2000.name()[7]);
        },
        ReferenceFrame::ITRF2008 => {
            assert(ReferenceFrame::ITRF2008.name().len() != ReferenceFrame::ITRF88.name().len());
            assert(ReferenceFrame::ITRF2008.name().len() != ReferenceFrame::ITRF89.name().len());
            assert(ReferenceFrame::ITRF2008.name().len() != ReferenceFrame::ITRF90.name().len());
            assert(ReferenceFrame::ITRF2008.name().len() != ReferenceFrame::ITRF91.name().len());
            assert(ReferenceFrame::ITRF2008.name().len() != ReferenceFrame::ITRF92.name().len());
            assert(ReferenceFrame::ITRF2008.name().len() != ReferenceFrame::ITRF93.name().len());
            assert(ReferenceFrame::ITRF2008.name().len() != ReferenceFrame::ITRF94.name().len());
            assert(ReferenceFrame::ITRF2008.name().len() != ReferenceFrame::ITRF96.name().len());
            assert(ReferenceFrame::ITRF2008.name().len() != ReferenceFrame::ITRF97.name().len());
            assert(ReferenceFrame::ITRF2008.name()[7] != ReferenceFrame::ITRF2000.name()[7]);
            assert(ReferenceFrame::ITRF2008.name()[7] != ReferenceFrame::ITRF2005.name()[7]);
        },
        ReferenceFrame::ITRF2014 => {
            assert(ReferenceFrame::ITRF2014.name().len() != ReferenceFrame::ITRF88.name().len());
            assert(ReferenceFrame::ITRF2014.name().len() != ReferenceFrame::ITRF89.name().len());
            assert(ReferenceFrame::ITRF2014.name().len() != ReferenceFrame::ITRF90.name().len());
            assert(ReferenceFrame::ITRF2014.name().len() != ReferenceFrame::ITRF91.name().len());
            assert(ReferenceFrame::ITRF2014.name().len() != ReferenceFrame::ITRF92.name().len());
            assert(ReferenceFrame::ITRF2014.name().len() != ReferenceFrame::ITRF93.name().len());
            assert(ReferenceFrame::ITRF2014.name().len() != ReferenceFrame::ITRF94.name().len());
            assert(ReferenceFrame::ITRF2014.name().len() != ReferenceFrame::ITRF96.name().len());
            assert(ReferenceFrame::ITRF2014.name().len() != ReferenceFrame::ITRF97.name().len());
            assert(ReferenceFrame::ITRF2014.name()[6] != ReferenceFrame::ITRF2000.name()[6]);
            assert(ReferenceFrame::ITRF2014.name()[6] != ReferenceFrame::ITRF2005.name()[6]);
            assert(ReferenceFrame::ITRF2014.name()[6] != ReferenceFrame::ITRF2008.name()[6]);
        },
        ReferenceFrame::ITRF2020 => {
            assert(ReferenceFrame::ITRF2020.name().len() != ReferenceFrame::ITRF88.name().len());
            assert(ReferenceFrame::ITRF2020.name().len() != ReferenceFrame::ITRF89.name().len());
            assert(ReferenceFrame::ITRF2020.name().len() != ReferenceFrame::ITRF90.name().len());
            assert(ReferenceFrame::ITRF2020.name().len() != ReferenceFrame::ITRF91.name().len());
            assert(ReferenceFrame::ITRF2020.name().len() != ReferenceFrame::ITRF92.name().len());
            assert(ReferenceFrame::ITRF2020.name().len() != ReferenceFrame::ITRF93.name().len());
            assert(ReferenceFrame::ITRF2020.name().len() != ReferenceFrame::ITRF94.name().len());
            assert(ReferenceFrame::ITRF2020.name().len() != ReferenceFrame::ITRF96.name().len());
            assert(ReferenceFrame::ITRF2020.name().len() != ReferenceFrame::ITRF97.name().len());
            assert(ReferenceFrame::ITRF2020.name()[6] != ReferenceFrame::ITRF2000.name()[6]);
            assert(ReferenceFrame::ITRF2020.name()[6] != ReferenceFrame::ITRF2005.name()[6]);
            assert(ReferenceFrame::ITRF2020.name()[6] != ReferenceFrame::ITRF2008.name()[6]);
            assert(ReferenceFrame::ITRF2020.name()[6] != ReferenceFrame::ITRF2014.name()[6]);
        },
        ReferenceFrame::ETRF89 => {
            assert(ReferenceFrame::ETRF89.name()[0] != ReferenceFrame::ITRF88.name()[0]);
            assert(ReferenceFrame::ETRF89.name()[0] != ReferenceFrame::ITRF89.name()[0]);
            assert(ReferenceFrame::ETRF89.name()[0] != ReferenceFrame::ITRF90.name()[0]);
            assert(ReferenceFrame::ETRF89.name()[0] != ReferenceFrame::ITRF91.name()[0]);
            assert(ReferenceFrame::ETRF89.name()[0] != ReferenceFrame::ITRF92.name()[0]);
            assert(ReferenceFrame::ETRF89.name()[0] != ReferenceFrame::ITRF93.name()[0]);
            assert(ReferenceFrame::ETRF89.name()[0] != ReferenceFrame::ITRF94.name()[0]);
            assert(ReferenceFrame::ETRF89.name()[0] != ReferenceFrame::ITRF96.name()[0]);
            assert(ReferenceFrame::ETRF89.name()[0] != ReferenceFrame::ITRF97.name()[0]);
            assert(ReferenceFrame::ETRF89.name().len() != ReferenceFrame::ITRF2000.name().len());
            assert(ReferenceFrame::ETRF89.name().len() != ReferenceFrame::ITRF2005.name().len());
            assert(ReferenceFrame::ETRF89.name().len() != ReferenceFrame::ITRF2008.name().len());
            assert(ReferenceFrame::ETRF89.name().len() != ReferenceFrame::ITRF2014.name().len());
            assert(ReferenceFrame::ETRF89.name().len() != ReferenceFrame::ITRF2020.name().len());
        },
        ReferenceFrame::ETRF90 => {
            assert(ReferenceFrame::ETRF90.name()[0] != ReferenceFrame::ITRF88.name()[0]);
            assert(ReferenceFrame::ETRF90.name()[0] != ReferenceFrame::ITRF89.name()[0]);
            assert(ReferenceFrame::ETRF90.name()[0] != ReferenceFrame::ITRF90.name()[0]);
            assert(ReferenceFrame::ETRF90.name()[0] != ReferenceFrame::ITRF91.name()[0]);
            assert(ReferenceFrame::ETRF90.name()[0] != ReferenceFrame::ITRF92.name()[0]);
            assert(ReferenceFrame::ETRF90.name()[0] != ReferenceFrame::ITRF93.name()[0]);
            assert(ReferenceFrame::ETRF90.name()[0] != ReferenceFrame::ITRF94.name()[0]);
            assert(ReferenceFrame::ETRF90.name()[0] != ReferenceFrame::ITRF96.name()[0]);
            assert(ReferenceFrame::ETRF90.name()[0] != ReferenceFrame::ITRF97.name()[0]);
            assert(ReferenceFrame::ETRF90.name().len() != ReferenceFrame::ITRF2000.name().len());
            assert(ReferenceFrame::ETRF90.name().len() != ReferenceFrame::ITRF2005.name().len());
            assert(ReferenceFrame::ETRF90.name().len() != ReferenceFrame::ITRF2008.name().len());
            assert(ReferenceFrame::ETRF90.name().len() != ReferenceFrame::ITRF2014.name().len());
            assert(ReferenceFrame::ETRF90.name().len() != ReferenceFrame::ITRF2020.name().len());
            assert(ReferenceFrame::ETRF90.name()[4] != ReferenceFrame::ETRF89.name()[4]);
        },
        ReferenceFrame::ETRF91 => {
            assert(ReferenceFrame::ETRF91.name()[0] != ReferenceFrame::ITRF88.name()[0]);
            assert(ReferenceFrame::ETRF91.name()[0] != ReferenceFrame::ITRF89.name()[0]);
            assert(ReferenceFrame::ETRF91.name()[0] != ReferenceFrame::ITRF90.name()[0]);
            assert(ReferenceFrame::ETRF91.name()[0] != ReferenceFrame::ITRF91.name()[0]);
            assert(ReferenceFrame::ETRF91.name()[0] != ReferenceFrame::ITRF92.name()[0]);
            assert(ReferenceFrame::ETRF91.name()[0] != ReferenceFrame::ITRF93.name()[0]);
            assert(ReferenceFrame::ETRF91.name()[0] != ReferenceFrame::ITRF94.name()[0]);
            assert(ReferenceFrame::ETRF91.name()[0] != ReferenceFrame::ITRF96.name()[0]);
            assert(ReferenceFrame::ETRF91.name()[0] != ReferenceFrame::ITRF97.name()[0]);
            assert(ReferenceFrame::ETRF91.name().len() != ReferenceFrame::ITRF2000.name().len());
            assert(ReferenceFrame::ETRF91.name().len() != ReferenceFrame::ITRF2005.name().len());
            assert(ReferenceFrame::ETRF91.name().len() != ReferenceFrame::ITRF2008.name().len());
            assert(ReferenceFrame::ETRF91.name().len() != ReferenceFrame::ITRF2014.name().len());
            assert(ReferenceFrame::ETRF91.name().len() != ReferenceFrame::ITRF2020.name().len());
            assert(ReferenceFrame::ETRF91.name()[4] != ReferenceFrame::ETRF89.name()[4]);
            assert(ReferenceFrame::ETRF91.name()[5] != ReferenceFrame::ETRF90.name()[5]);
        },
        ReferenceFrame::ETRF92 => {
            assert(ReferenceFrame::ETRF92.name()[0] != ReferenceFrame::ITRF88.name()[0]);
            assert(ReferenceFrame::ETRF92.name()[0] != ReferenceFrame::ITRF89.name()[0]);
            assert(ReferenceFrame::ETRF92.name()[0] != ReferenceFrame::ITRF90.name()[0]);
            assert(ReferenceFrame::ETRF92.name()[0] != ReferenceFrame::ITRF91.name()[0]);
            assert(ReferenceFrame::ETRF92.name()[0] != ReferenceFrame::ITRF92.name()[0]);
            assert(ReferenceFrame::ETRF92.name()[0] != ReferenceFrame::ITRF93.name()[0]);
            assert(ReferenceFrame::ETRF92.name()[0] != ReferenceFrame::ITRF94.name()[0]);
            assert(ReferenceFrame::ETRF92.name()[0] != ReferenceFrame::ITRF96.name()[0]);
            assert(ReferenceFrame::ETRF92.name()[0] != ReferenceFrame::ITRF97.name()[0]);
            assert(ReferenceFrame::ETRF92.name().len() != ReferenceFrame::ITRF2000.name().len());
            assert(ReferenceFrame::ETRF92.name().len() != ReferenceFrame::ITRF2005.name().len());
            assert(ReferenceFrame::ETRF92.name().len() != ReferenceFrame::ITRF2008.name().len());
            assert(ReferenceFrame::ETRF92.name().len() != ReferenceFrame::ITRF2014.name().len());
            assert(ReferenceFrame::ETRF92.name().len() != ReferenceFrame::ITRF2020.name().len());
            assert(ReferenceFrame::ETRF92.name()[4] != ReferenceFrame::ETRF89.name()[4]);
            assert(ReferenceFrame::ETRF92.name()[5] != ReferenceFrame::ETRF90.name()[5]);
            assert(ReferenceFrame::ETRF92.name()[5] != ReferenceFrame::ETRF91.name()[5]);
        },
        ReferenceFrame::ETRF93 => {
            assert(ReferenceFrame::ETRF93.name()[0] != ReferenceFrame::ITRF88.name()[0]);
            assert(ReferenceFrame::ETRF93.name()[0] != ReferenceFrame::ITRF89.name()[0]);
            assert(ReferenceFrame::ETRF93.name()[0] != ReferenceFrame::ITRF90.name()[0]);
            assert(ReferenceFrame::ETRF93.name()[0] != ReferenceFrame::ITRF91.name()[0]);
            assert(ReferenceFrame::ETRF93.name()[0] != ReferenceFrame::ITRF92.name()[0]);
            assert(ReferenceFrame::ETRF93.name()[0] != ReferenceFrame::ITRF93.name()[0]);
            assert(ReferenceFrame::ETRF93.name()[0] != ReferenceFrame::ITRF94.name()[0]);
            assert(ReferenceFrame::ETRF93.name()[0] != ReferenceFrame::ITRF96.name()[0]);
            assert(ReferenceFrame::ETRF93.name()[0] != ReferenceFrame::ITRF97.name()[0]);
            assert(ReferenceFrame::ETRF93.name().len() != ReferenceFrame::ITRF2000.name().len());
            assert(ReferenceFrame::ETRF93.name().len() != ReferenceFrame::ITRF2005.name().len());
            assert(ReferenceFrame::ETRF93.name().len() != ReferenceFrame::ITRF2008.name().len());
            assert(ReferenceFrame::ETRF93.name().len() != ReferenceFrame::ITRF2014.name().len());
            assert(ReferenceFrame::ETRF93.name().len() != ReferenceFrame::ITRF2020.name().len());
            assert(ReferenceFrame::ETRF93.name()[4] != ReferenceFrame::ETRF89.name()[4]);
            assert(ReferenceFrame::ETRF93.name()[5] != ReferenceFrame::ETRF90.name()[5]);
            assert(ReferenceFrame::ETRF93.name()[5] != ReferenceFrame::ETRF91.name()[5]);
            assert(ReferenceFrame::ETRF93.name()[5] != ReferenceFrame::ETRF92.name()[5]);
        },
        ReferenceFrame::ETRF94 => {
            assert(ReferenceFrame::ETRF94.name()[0] != ReferenceFrame::ITRF88.name()[0]);
            assert(ReferenceFrame::ETRF94.name()[0] != ReferenceFrame::ITRF89.name()[0]);
            assert(ReferenceFrame::ETRF94.name()[0] != ReferenceFrame::ITRF90.name()[0]);
            assert(ReferenceFrame::ETRF94.name()[0] != ReferenceFrame::ITRF91.name()[0]);
            assert(ReferenceFrame::ETRF94.name()[0] != ReferenceFrame::ITRF92.name()[0]);
            assert(ReferenceFrame::ETRF94.name()[0] != ReferenceFrame::ITRF93.name()[0]);
            assert(ReferenceFrame::ETRF94.name()[0] != ReferenceFrame::ITRF94.name()[0]);
            assert(ReferenceFrame::ETRF94.name()[0] != ReferenceFrame::ITRF96.name()[0]);
            assert(ReferenceFrame::ETRF94.name()[0] != ReferenceFrame::ITRF97.name()[0]);
            assert(ReferenceFrame::ETRF94.name().len() != ReferenceFrame::ITRF2000.name().len());
            assert(ReferenceFrame::ETRF94.name().len() != ReferenceFrame::ITRF2005.name().len());
            assert(ReferenceFrame::ETRF94.name().len() != ReferenceFrame::ITRF2008.name().len());
            assert(ReferenceFrame::ETRF94.name().len() != ReferenceFrame::ITRF2014.name().len());
            assert(ReferenceFrame::ETRF94.name().len() != ReferenceFrame::ITRF2020.name().len());
            assert(ReferenceFrame::ETRF94.name()[4] != ReferenceFrame::ETRF89.name()[4]);
            assert(ReferenceFrame::ETRF94.name()[5] != ReferenceFrame::ETRF90.name()[5]);
            assert(ReferenceFrame::ETRF94.name()[5] != ReferenceFrame::ETRF91.name()[5]);
            assert(ReferenceFrame::ETRF94.name()[5] != ReferenceFrame::ETRF92.name()[5]);
            assert(ReferenceFrame::ETRF94.name()[5] != ReferenceFrame::ETRF93.name()[5]);
        },
        ReferenceFrame::ETRF96 => {
            assert(ReferenceFrame::ETRF96.name()[0] != ReferenceFrame::ITRF88.name()[0]);
            assert(ReferenceFrame::ETRF96.name()[0] != ReferenceFrame::ITRF89.name()[0]);
            assert(ReferenceFrame::ETRF96.name()[0] != ReferenceFrame::ITRF90.name()[0]);
            assert(ReferenceFrame::ETRF96.name()[0] != ReferenceFrame::ITRF91.name()[0]);
            assert(ReferenceFrame::ETRF96.name()[0] != ReferenceFrame::ITRF92.name()[0]);
            assert(ReferenceFrame::ETRF96.name()[0] != ReferenceFrame::ITRF93.name()[0]);
            assert(ReferenceFrame::ETRF96.name()[0] != ReferenceFrame::ITRF94.name()[0]);
            assert(ReferenceFrame::ETRF96.name()[0] != ReferenceFrame::ITRF96.name()[0]);
            assert(ReferenceFrame::ETRF96.name()[0] != ReferenceFrame::ITRF97.name()[0]);
            assert(ReferenceFrame::ETRF96.name().len() != ReferenceFrame::ITRF2000.name().len());
            assert(ReferenceFrame::ETRF96.name().len() != ReferenceFrame::ITRF2005.name().len());
            assert(ReferenceFrame::ETRF96.name().len() != ReferenceFrame::ITRF2008.name().len());
            assert(ReferenceFrame::ETRF96.name().len() != ReferenceFrame::ITRF2014.name().len());
            assert(ReferenceFrame::ETRF96.name().len() != ReferenceFrame::ITRF2020.name().len());
            assert(ReferenceFrame::ETRF96.name()[4] != ReferenceFrame::ETRF89.name()[4]);
            assert(ReferenceFrame::ETRF96.name()[5] != ReferenceFrame::ETRF90.name()[5]);
            assert(ReferenceFrame::ETRF96.name()[5] != ReferenceFrame::ETRF91.name()[5]);
            assert(ReferenceFrame::ETRF96.name()[5] != ReferenceFrame::ETRF92.name()[5]);
            assert(ReferenceFrame::ETRF96.name()[5] != ReferenceFrame::ETRF93.name()[5]);
            assert(ReferenceFrame::ETRF96.name()[5] != ReferenceFrame::ETRF94.name()[5]);
        },
        ReferenceFrame::ETRF97 => {
            assert(ReferenceFrame::ETRF97.name()[0] != ReferenceFrame::ITRF88.name()[0]);
            assert(ReferenceFrame::ETRF97.name()[0] != ReferenceFrame::ITRF89.name()[0]);
            assert(ReferenceFrame::ETRF97.name()[0] != ReferenceFrame::ITRF90.name()[0]);
            assert(ReferenceFrame::ETRF97.name()[0] != ReferenceFrame::ITRF91.name()[0]);
            assert(ReferenceFrame::ETRF97.name()[0] != ReferenceFrame::ITRF92.name()[0]);
            assert(ReferenceFrame::ETRF97.name()[0] != ReferenceFrame::ITRF93.name()[0]);
            assert(ReferenceFrame::ETRF97.name()[0] != ReferenceFrame::ITRF94.name()[0]);
            assert(ReferenceFrame::ETRF97.name()[0] != ReferenceFrame::ITRF96.name()[0]);
            assert(ReferenceFrame::ETRF97.name()[0] != ReferenceFrame::ITRF97.name()[0]);
            assert(ReferenceFrame::ETRF97.name().len() != ReferenceFrame::ITRF2000.name().len());
            assert(ReferenceFrame::ETRF97.name().len() != ReferenceFrame::ITRF2005.name().len());
            assert(ReferenceFrame::ETRF97.name().len() != ReferenceFrame::ITRF2008.name().len());
            assert(ReferenceFrame::ETRF97.name().len() != ReferenceFrame::ITRF2014.name().len());
            assert(ReferenceFrame::ETRF97.name().len() != ReferenceFrame::ITRF2020.name().len());
            assert(ReferenceFrame::ETRF97.name()[4] != ReferenceFrame::ETRF89.name()[4]);
            assert(ReferenceFrame::ETRF97.name()[5] != ReferenceFrame::ETRF90.name()[5]);
            assert(ReferenceFrame::ETRF97.name()[5] != ReferenceFrame::ETRF91.name()[5]);
            assert(ReferenceFrame::ETRF97.name()[5] != ReferenceFrame::ETRF92.name()[5]);
            assert(ReferenceFrame::ETRF97.name()[5] != ReferenceFrame::ETRF93.name()[5]);
            assert(ReferenceFrame::ETRF97.name()[5] != ReferenceFrame::ETRF94.name()[5]);
            assert(ReferenceFrame::ETRF97.name()[5] != ReferenceFrame::ETRF96.name()[5]);
        },
        ReferenceFrame::ETRF2000 => {
            assert(ReferenceFrame::ETRF2000.name().len() != ReferenceFrame::ITRF88.name().len());
            assert(ReferenceFrame::ETRF2000.name().len() != ReferenceFrame::ITRF89.name().len());
            assert(ReferenceFrame::ETRF2000.name().len() != ReferenceFrame::ITRF90.name().len());
            assert(ReferenceFrame::ETRF2000.name().len() != ReferenceFrame::ITRF91.name().len());
            assert(ReferenceFrame::ETRF2000.name().len() != ReferenceFrame::ITRF92.name().len());
            assert(ReferenceFrame::ETRF2000.name().len() != ReferenceFrame::ITRF93.name().len());
            assert(ReferenceFrame::ETRF2000.name().len() != ReferenceFrame::ITRF94.name().len());
            assert(ReferenceFrame::ETRF2000.name().len() != ReferenceFrame::ITRF96.name().len());
            assert(ReferenceFrame::ETRF2000.name().len() != ReferenceFrame::ITRF97.name().len());
            assert(ReferenceFrame::ETRF2000.name()[0] != ReferenceFrame::ITRF2000.name()[0]);
            assert(ReferenceFrame::ETRF2000.name()[0] != ReferenceFrame::ITRF2005.name()[0]);
            assert(ReferenceFrame::ETRF2000.name()[0] != ReferenceFrame::ITRF2008.name()[0]);
            assert(ReferenceFrame::ETRF2000.name()[0] != ReferenceFrame::ITRF2014.name()[0]);
            assert(ReferenceFrame::ETRF2000.name()[0] != ReferenceFrame::ITRF2020.name()[0]);
            assert(ReferenceFrame::ETRF2000.name().len() != ReferenceFrame::ETRF89.name().len());
            assert(ReferenceFrame::ETRF2000.name().len() != ReferenceFrame::ETRF90.name().len());
            assert(ReferenceFrame::ETRF2000.name().len() != ReferenceFrame::ETRF91.name().len());
            assert(ReferenceFrame::ETRF2000.name().len() != ReferenceFrame::ETRF92.name().len());
            assert(ReferenceFrame::ETRF2000.name().len() != ReferenceFrame::ETRF93.name().len());
            assert(ReferenceFrame::ETRF2000.name().len() != ReferenceFrame::ETRF94.name().len());
            assert(ReferenceFrame::ETRF2000.name().len() != ReferenceFrame::ETRF96.name().len());
            assert(ReferenceFrame::ETRF2000.name().len() != ReferenceFrame::ETRF97.name().len());
        },
        ReferenceFrame::ETRF2005 => {
            assert(ReferenceFrame::ETRF2005.name().len() != ReferenceFrame::ITRF88.name().len());
            assert(ReferenceFrame::ETRF2005.name().len() != ReferenceFrame::ITRF89.name().len());
            assert(ReferenceFrame::ETRF2005.name().len() != ReferenceFrame::ITRF90.name().len());
            assert(ReferenceFrame::ETRF2005.name().len() != ReferenceFrame::ITRF91.name().len());
            assert(ReferenceFrame::ETRF2005.name().len() != ReferenceFrame::ITRF92.name().len());
            assert(ReferenceFrame::ETRF2005.name().len() != ReferenceFrame::ITRF93.name().len());
            assert(ReferenceFrame::ETRF2005.name().len() != ReferenceFrame::ITRF94.name().len());
            assert(ReferenceFrame::ETRF2005.name().len() != ReferenceFrame::ITRF96.name().len());
            assert(ReferenceFrame::ETRF2005.name().len() != ReferenceFrame::ITRF97.name().len());
            assert(ReferenceFrame::ETRF2005.name()[0] != ReferenceFrame::ITRF2000.name()[0]);
            assert(ReferenceFrame::ETRF2005.name()[0] != ReferenceFrame::ITRF2005.name()[0]);
            assert(ReferenceFrame::ETRF2005.name()[0] != ReferenceFrame::ITRF2008.name()[0]);
            assert(ReferenceFrame::ETRF2005.name()[0] != ReferenceFrame::ITRF2014.name()[0]);
            assert(ReferenceFrame::ETRF2005.name()[0] != ReferenceFrame::ITRF2020.name()[0]);
            assert(ReferenceFrame::ETRF2005.name().len() != ReferenceFrame::ETRF89.name().len());
            assert(ReferenceFrame::ETRF2005.name().len() != ReferenceFrame::ETRF90.name().len());
            assert(ReferenceFrame::ETRF2005.name().len() != ReferenceFrame::ETRF91.name().len());
            assert(ReferenceFrame::ETRF2005.name().len() != ReferenceFrame::ETRF92.name().len());
            assert(ReferenceFrame::ETRF2005.name().len() != ReferenceFrame::ETRF93.name().len());
            assert(ReferenceFrame::ETRF2005.name().len() != ReferenceFrame::ETRF94.name().len());
            assert(ReferenceFrame::ETRF2005.name().len() != ReferenceFrame::ETRF96.name().len());
            assert(ReferenceFrame::ETRF2005.name().len() != ReferenceFrame::ETRF97.name().len());
            assert(ReferenceFrame::ETRF2005.name()[7] != ReferenceFrame::ETRF2000.name()[7]);
        },
        ReferenceFrame::ETRF2014 => {
            assert(ReferenceFrame::ETRF2014.name().len() != ReferenceFrame::ITRF88.name().len());
            assert(ReferenceFrame::ETRF2014.name().len() != ReferenceFrame::ITRF89.name().len());
            assert(ReferenceFrame::ETRF2014.name().len() != ReferenceFrame::ITRF90.name().len());
            assert(ReferenceFrame::ETRF2014.name().len() != ReferenceFrame::ITRF91.name().len());
            assert(ReferenceFrame::ETRF2014.name().len() != ReferenceFrame::ITRF92.name().len());
            assert(ReferenceFrame::ETRF2014.name().len() != ReferenceFrame::ITRF93.name().len());
            assert(ReferenceFrame::ETRF2014.name().len() != ReferenceFrame::ITRF94.name().len());
            assert(ReferenceFrame::ETRF2014.name().len() != ReferenceFrame::ITRF96.name().len());
            assert(ReferenceFrame::ETRF2014.name().len() != ReferenceFrame::ITRF97.name().len());
            assert(ReferenceFrame::ETRF2014.name()[0] != ReferenceFrame::ITRF2000.name()[0]);
            assert(ReferenceFrame::ETRF2014.name()[0] != ReferenceFrame::ITRF2005.name()[0]);
            assert(ReferenceFrame::ETRF2014.name()[0] != ReferenceFrame::ITRF2008.name()[0]);
            assert(ReferenceFrame::ETRF2014.name()[0] != ReferenceFrame::ITRF2014.name()[0]);
            assert(ReferenceFrame::ETRF2014.name()[0] != ReferenceFrame::ITRF2020.name()[0]);
            assert(ReferenceFrame::ETRF2014.name().len() != ReferenceFrame::ETRF89.name().len());
            assert(ReferenceFrame::ETRF2014.name().len() != ReferenceFrame::ETRF90.name().len());
            assert(ReferenceFrame::ETRF2014.name().len() != ReferenceFrame::ETRF91.name().len());
            assert(ReferenceFrame::ETRF2014.name().len() != ReferenceFrame::ETRF92.name().len());
            assert(ReferenceFrame::ETRF2014.name().len() != ReferenceFrame::ETRF93.name().len());
            assert(ReferenceFrame::ETRF2014.name().len() != ReferenceFrame::ETRF94.name().len());
            assert(ReferenceFrame::ETRF2014.name().len() != ReferenceFrame::ETRF96.name().len());
            assert(ReferenceFrame::ETRF2014.name().len() != ReferenceFrame::ETRF97.name().len());
            assert(ReferenceFrame::ETRF2014.name()[6] != ReferenceFrame::ETRF2000.name()[6]);
            assert(ReferenceFrame::ETRF2014.name()[6] != ReferenceFrame::ETRF2005.name()[6]);
        },
        ReferenceFrame::ETRF2020 => {
            assert(ReferenceFrame::ETRF2020.name().len() != ReferenceFrame::ITRF88.name().len());
            assert(ReferenceFrame::ETRF2020.name().len() != ReferenceFrame::ITRF89.name().len());
            assert(ReferenceFrame::ETRF2020.name().len() != ReferenceFrame::ITRF90.name().len());
            assert(ReferenceFrame::ETRF2020.name().len() != ReferenceFrame::ITRF91.name().len());
            assert(ReferenceFrame::ETRF2020.name().len() != ReferenceFrame::ITRF92.name().len());
            assert(ReferenceFrame::ETRF2020.name().len() != ReferenceFrame::ITRF93.name().len());
            assert(ReferenceFrame::ETRF2020.name().len() != ReferenceFrame::ITRF94.name().len());
            assert(ReferenceFrame::ETRF2020.name().len() != ReferenceFrame::ITRF96.name().len());
            assert(ReferenceFrame::ETRF2020.name().len() != ReferenceFrame::ITRF97.name().len());
            assert(ReferenceFrame::ETRF2020.name()[0] != ReferenceFrame::ITRF2000.name()[0]);
            assert(ReferenceFrame::ETRF2020.name()[0] != ReferenceFrame::ITRF2005.name()[0]);
            assert(ReferenceFrame::ETRF2020.name()[0] != ReferenceFrame::ITRF2008.name()[0]);
            assert(ReferenceFrame::ETRF2020.name()[0] != ReferenceFrame::ITRF2014.name()[0]);
            assert(ReferenceFrame::ETRF2020.name()[0] != ReferenceFrame::ITRF2020.name()[0]);
            assert(ReferenceFrame::ETRF2020.name().len() != ReferenceFrame::ETRF89.name().len());
            assert(ReferenceFrame::ETRF2020.name().len() != ReferenceFrame::ETRF90.name().len());
            assert(ReferenceFrame::ETRF2020.name().len() != ReferenceFrame::ETRF91.name().len());
            assert(ReferenceFrame::ETRF2020.name().len() != ReferenceFrame::ETRF92.name().len());
            assert(ReferenceFrame::ETRF2020.name().len() != ReferenceFrame::ETRF93.name().len());
            assert(ReferenceFrame::ETRF2020.name().len() != ReferenceFrame::ETRF94.name().len());
            assert(ReferenceFrame::ETRF2020.name().len() != ReferenceFrame::ETRF96.name().len());
            assert(ReferenceFrame::ETRF2020.name().len() != ReferenceFrame::ETRF97.name().len());
            assert(ReferenceFrame::ETRF2020.name()[6] != ReferenceFrame::ETRF2000.name()[6]);
            assert(ReferenceFrame::ETRF2020.name()[6] != ReferenceFrame::ETRF2005.name()[6]);
            assert(ReferenceFrame::ETRF2020.name()[6] != ReferenceFrame::ETRF2014.name()[6]);
        },
        ReferenceFrame::NAD83_2011 => {
            assert(ReferenceFrame::NAD83_2011.name().len() != ReferenceFrame::ITRF88.name().len());
            assert(ReferenceFrame::NAD83_2011.alias().unwrap().len() != ReferenceFrame::ITRF88.name().len());
            assert(ReferenceFrame::NAD83_2011.name().len() != ReferenceFrame::ITRF89.name().len());
            assert(ReferenceFrame::NAD83_2011.alias().unwrap().len() != ReferenceFrame::ITRF89.name().len());
            assert(ReferenceFrame::NAD83_2011.name().len() != ReferenceFrame::ITRF90.name().len());
            assert(ReferenceFrame::NAD83_2011.alias().unwrap().len() != ReferenceFrame::ITRF90.name().len());
            assert(ReferenceFrame::NAD83_2011.name().len() != ReferenceFrame::ITRF91.name().len());
            assert(ReferenceFrame::NAD83_2011.alias().unwrap().len() != ReferenceFrame::ITRF91.name().len());
            assert(ReferenceFrame::NAD83_2011.name().len() != ReferenceFrame::ITRF92.name().len());
            assert(ReferenceFrame::NAD83_2011.alias().unwrap().len() != ReferenceFrame::ITRF92.name().len());
            assert(ReferenceFrame::NAD83_2011.name().len() != ReferenceFrame::ITRF93.name().len());
            assert(ReferenceFrame::NAD83_2011.alias().unwrap().len() != ReferenceFrame::ITRF93.name().len());
            assert(ReferenceFrame::NAD83_2011.name().len() != ReferenceFrame::ITRF94.name().len());
            assert(ReferenceFrame::NAD83_2011.alias().unwrap().len() != ReferenceFrame::ITRF94.name().len());
            assert(ReferenceFrame::NAD83_2011.name().len() != ReferenceFrame::ITRF96.name().len());
            assert(ReferenceFrame::NAD83_2011.alias().unwrap().len() != ReferenceFrame::ITRF96.name().len());
            assert(ReferenceFrame::NAD83_2011.name().len() != ReferenceFrame::ITRF97.name().len());
            assert(ReferenceFrame::NAD83_2011.alias().unwrap().len() != ReferenceFrame::ITRF97.name().len());
            assert(ReferenceFrame::NAD83_2011.name().len() != ReferenceFrame::ITRF2000.name().len());
            assert(ReferenceFrame::NAD83_2011.alias().unwrap().len() != ReferenceFrame::ITRF2000.name().len());
            assert(ReferenceFrame::NAD83_2011.name().len() != ReferenceFrame::ITRF2005.name().len());
            assert(ReferenceFrame::NAD83_2011.alias().unwrap().len() != ReferenceFrame::ITRF2005.name().len());
            assert(ReferenceFrame::NAD83_2011.name().len() != ReferenceFrame::ITRF2008.name().len());
            assert(ReferenceFrame::NAD83_2011.alias().unwrap().len() != ReferenceFrame::ITRF2008.name().len());
            assert(ReferenceFrame::NAD83_2011.name().len() != ReferenceFrame::ITRF2014.name().len());
            assert(ReferenceFrame::NAD83_2011.alias().unwrap().len() != ReferenceFrame::ITRF2014.name().len());
            assert(ReferenceFrame::NAD83_2011.name().len() != ReferenceFrame::ITRF2020.name().len());
            assert(ReferenceFrame::NAD83_2011.alias().unwrap().len() != ReferenceFrame::ITRF2020.name().len());
            assert(ReferenceFrame::NAD83_2011.name().len() != ReferenceFrame::ETRF89.name().len());
            assert(ReferenceFrame::NAD83_2011.alias().unwrap().len() != ReferenceFrame::ETRF89.name().len());
            assert(ReferenceFrame::NAD83_2011.name().len() != ReferenceFrame::ETRF90.name().len());
            assert(ReferenceFrame::NAD83_2011.alias().unwrap().len() != ReferenceFrame::ETRF90.name().len());
            assert(ReferenceFrame::NAD83_2011.name().len() != ReferenceFrame::ETRF91.name().len());
            assert(ReferenceFrame::NAD83_2011.alias().unwrap().len() != ReferenceFrame::ETRF91.name().len());
            assert(ReferenceFrame::NAD83_2011.name().len() != ReferenceFrame::ETRF92.name().len());
            assert(ReferenceFrame::NAD83_2011.alias().unwrap().len() != ReferenceFrame::ETRF92.name().len());
            assert(ReferenceFrame::NAD83_2011.name().len() != ReferenceFrame::ETRF93.name().len());
            assert(ReferenceFrame::NAD83_2011.alias().unwrap().len() != ReferenceFrame::ETRF93.name().len());
            assert(ReferenceFrame::NAD83_2011.name().len() != ReferenceFrame::ETRF94.name().len());
            assert(ReferenceFrame::NAD83_2011.alias().unwrap().len() != ReferenceFrame::ETRF94.name().len());
            assert(ReferenceFrame::NAD83_2011.name().len() != ReferenceFrame::ETRF96.name().len());
            assert(ReferenceFrame::NAD83_2011.alias().unwrap().len() != ReferenceFrame::ETRF96.name().len());
            assert(ReferenceFrame::NAD83_2011.name().len() != ReferenceFrame::ETRF97.name().len());
            assert(ReferenceFrame::NAD83_2011.alias().unwrap().len() != ReferenceFrame::ETRF97.name().len());
            assert(ReferenceFrame::NAD83_2011.name().len() != ReferenceFrame::ETRF2000.name().len());
            assert(ReferenceFrame::NAD83_2011.alias().unwrap().len() != ReferenceFrame::ETRF2000.name().len());
            assert(ReferenceFrame::NAD83_2011.name().len() != ReferenceFrame::ETRF2005.name().len());
            assert(ReferenceFrame::NAD83_2011.alias().unwrap().len() != ReferenceFrame::ETRF2005.name().len());
            assert(ReferenceFrame::NAD83_2011.name().len() != ReferenceFrame::ETRF2014.name().len());
            assert(ReferenceFrame::NAD83_2011.alias().unwrap().len() != ReferenceFrame::ETRF2014.name().len());
            assert(ReferenceFrame::NAD83_2011.name().len() != ReferenceFrame::ETRF2020.name().len());
            assert(ReferenceFrame::NAD83_2011.alias().unwrap().len() != ReferenceFrame::ETRF2020.name().len());
        },
        ReferenceFrame::NAD83_CSRS => {
            assert(ReferenceFrame::NAD83_CSRS.name().len() != ReferenceFrame::ITRF88.name().len());
            assert(ReferenceFrame::NAD83_CSRS.alias().unwrap().len() != ReferenceFrame::ITRF88.name().len());
            assert(ReferenceFrame::NAD83_CSRS.name().len() != ReferenceFrame::ITRF89.name().len());
            assert(ReferenceFrame::NAD83_CSRS.alias().unwrap().len() != ReferenceFrame::ITRF89.name().len());
            assert(ReferenceFrame::NAD83_CSRS.name().len() != ReferenceFrame::ITRF90.name().len());
            assert(ReferenceFrame::NAD83_CSRS.alias().unwrap().len() != ReferenceFrame::ITRF90.name().len());
            assert(ReferenceFrame::NAD83_CSRS.name().len() != ReferenceFrame::ITRF91.name().len());
            assert(ReferenceFrame::NAD83_CSRS.alias().unwrap().len() != ReferenceFrame::ITRF91.name().len());
            assert(ReferenceFrame::NAD83_CSRS.name().len() != ReferenceFrame::ITRF92.name().len());
            assert(ReferenceFrame::NAD83_CSRS.alias().unwrap().len() != ReferenceFrame::ITRF92.name().len());
            assert(ReferenceFrame::NAD83_CSRS.name().len() != ReferenceFrame::ITRF93.name().len());
            assert(ReferenceFrame::NAD83_CSRS.alias().unwrap().len() != ReferenceFrame::ITRF93.name().len());
            assert(ReferenceFrame::NAD83_CSRS.name().len() != ReferenceFrame::ITRF94.name().len());
            assert(ReferenceFrame::NAD83_CSRS.alias().unwrap().len() != ReferenceFrame::ITRF94.name().len());
            assert(ReferenceFrame::NAD83_CSRS.name().len() != ReferenceFrame::ITRF96.name().len());
            assert(ReferenceFrame::NAD83_CSRS.alias().unwrap().len() != ReferenceFrame::ITRF96.name().len());
            assert(ReferenceFrame::NAD83_CSRS.name().len() != ReferenceFrame::ITRF97.name().len());
            assert(ReferenceFrame::NAD83_CSRS.alias().unwrap().len() != ReferenceFrame::ITRF97.name().len());
            assert(ReferenceFrame::NAD83_CSRS.name().len() != ReferenceFrame::ITRF2000.name().len());
            assert(ReferenceFrame::NAD83_CSRS.alias().unwrap().len() != ReferenceFrame::ITRF2000.name().len());
            assert(ReferenceFrame::NAD83_CSRS.name().len() != ReferenceFrame::ITRF2005.name().len());
            assert(ReferenceFrame::NAD83_CSRS.alias().unwrap().len() != ReferenceFrame::ITRF2005.name().len());
            assert(ReferenceFrame::NAD83_CSRS.name().len() != ReferenceFrame::ITRF2008.name().len());
            assert(ReferenceFrame::NAD83_CSRS.alias().unwrap().len() != ReferenceFrame::ITRF2008.name().len());
            assert(ReferenceFrame::NAD83_CSRS.name().len() != ReferenceFrame::ITRF2014.name().len());
            assert(ReferenceFrame::NAD83_CSRS.alias().unwrap().len() != ReferenceFrame::ITRF2014.name().len());
            assert(ReferenceFrame::NAD83_CSRS.name().len() != ReferenceFrame::ITRF2020.name().len());
            assert(ReferenceFrame::NAD83_CSRS.alias().unwrap().len() != ReferenceFrame::ITRF2020.name().len());
            assert(ReferenceFrame::NAD83_CSRS.name().len() != ReferenceFrame::ETRF89.name().len());
            assert(ReferenceFrame::NAD83_CSRS.alias().unwrap().len() != ReferenceFrame::ETRF89.name().len());
            assert(ReferenceFrame::NAD83_CSRS.name().len() != ReferenceFrame::ETRF90.name().len());
            assert(ReferenceFrame::NAD83_CSRS.alias().unwrap().len() != ReferenceFrame::ETRF90.name().len());
            assert(ReferenceFrame::NAD83_CSRS.name().len() != ReferenceFrame::ETRF91.name().len());
            assert(ReferenceFrame::NAD83_CSRS.alias().unwrap().len() != ReferenceFrame::ETRF91.name().len());
            assert(ReferenceFrame::NAD83_CSRS.name().len() != ReferenceFrame::ETRF92.name().len());
            assert(ReferenceFrame::NAD83_CSRS.alias().unwrap().len() != ReferenceFrame::ETRF92.name().len());
            assert(ReferenceFrame::NAD83_CSRS.name().len() != ReferenceFrame::ETRF93.name().len());
            assert(ReferenceFrame::NAD83_CSRS.alias().unwrap().len() != ReferenceFrame::ETRF93.name().len());
            assert(ReferenceFrame::NAD83_CSRS.name().len() != ReferenceFrame::ETRF94.name().len());
            assert(ReferenceFrame::NAD83_CSRS.alias().unwrap().len() != ReferenceFrame::ETRF94.name().len());
            assert(ReferenceFrame::NAD83_CSRS.name().len() != ReferenceFrame::ETRF96.name().len());
            assert(ReferenceFrame::NAD83_CSRS.alias().unwrap().len() != ReferenceFrame::ETRF96.name().len());
            assert(ReferenceFrame::NAD83_CSRS.name().len() != ReferenceFrame::ETRF97.name().len());
            assert(ReferenceFrame::NAD83_CSRS.alias().unwrap().len() != ReferenceFrame::ETRF97.name().len());
            assert(ReferenceFrame::NAD83_CSRS.name().len() != ReferenceFrame::ETRF2000.name().len());
            assert(ReferenceFrame::NAD83_CSRS.alias().unwrap().len() != ReferenceFrame::ETRF2000.name().len());
            assert(ReferenceFrame::NAD83_CSRS.name().len() != ReferenceFrame::ETRF2005.name().len());
            assert(ReferenceFrame::NAD83_CSRS.alias().unwrap().len() != ReferenceFrame::ETRF2005.name().len());
            assert(ReferenceFrame::NAD83_CSRS.name().len() != ReferenceFrame::ETRF2014.name().len());
            assert(ReferenceFrame::NAD83_CSRS.alias().unwrap().len() != ReferenceFrame::ETRF2014.name().len());
            assert(ReferenceFrame::NAD83_CSRS.name().len() != ReferenceFrame::ETRF2020.name().len());
            assert(ReferenceFrame::NAD83_CSRS.alias().unwrap().len() != ReferenceFrame::ETRF2020.name().len());
            assert(ReferenceFrame::NAD83_CSRS.name()[6] != ReferenceFrame::NAD83_2011.name()[6]);
            assert(ReferenceFrame::NAD83_CSRS.name().len() != ReferenceFrame::NAD83_2011.alias().unwrap().len());
            assert(ReferenceFrame::NAD83_CSRS.alias().unwrap().len() != ReferenceFrame::NAD83_2011.name().len());
            assert(ReferenceFrame::NAD83_CSRS.alias().unwrap()[6] != ReferenceFrame::NAD83_2011.alias().unwrap()[6]);
        },
        ReferenceFrame::DREF91_R2016 => {
            assert(ReferenceFrame::DREF91_R2016.name().len() != ReferenceFrame::ITRF88.name().len());
            assert(ReferenceFrame::DREF91_R2016.alias().unwrap().len() != ReferenceFrame::ITRF88.name().len());
            assert(ReferenceFrame::DREF91_R2016.name().len() != ReferenceFrame::ITRF89.name().len());
            assert(ReferenceFrame::DREF91_R2016.alias().unwrap().len() != ReferenceFrame::ITRF89.name().len());
            assert(ReferenceFrame::DREF91_R2016.name().len() != ReferenceFrame::ITRF90.name().len());
            assert(ReferenceFrame::DREF91_R2016.alias().unwrap().len() != ReferenceFrame::ITRF90.name().len());
            assert(ReferenceFrame::DREF91_R2016.name().len() != ReferenceFrame::ITRF91.name().len());
            assert(ReferenceFrame::DREF91_R2016.alias().unwrap().len() != ReferenceFrame::ITRF91.name().len());
            assert(ReferenceFrame::DREF91_R2016.name().len() != ReferenceFrame::ITRF92.name().len());
            assert(ReferenceFrame::DREF91_R2016.alias().unwrap().len() != ReferenceFrame::ITRF92.name().len());
            assert(ReferenceFrame::DREF91_R2016.name().len() != ReferenceFrame::ITRF93.name().len());
            assert(ReferenceFrame::DREF91_R2016.alias().unwrap().len() != ReferenceFrame::ITRF93.name().len());
            assert(ReferenceFrame::DREF91_R2016.name().len() != ReferenceFrame::ITRF94.name().len());
            assert(ReferenceFrame::DREF91_R2016.alias().unwrap().len() != ReferenceFrame::ITRF94.name().len());
            assert(ReferenceFrame::DREF91_R2016.name().len() != ReferenceFrame::ITRF96.name().len());
            assert(ReferenceFrame::DREF91_R2016.alias().unwrap().len() != ReferenceFrame::ITRF96.name().len());
            assert(ReferenceFrame::DREF91_R2016.name().len() != ReferenceFrame::ITRF97.name().len());
            assert(ReferenceFrame::DREF91_R2016.alias().unwrap().len() != ReferenceFrame::ITRF97.name().len());
            assert(ReferenceFrame::DREF91_R2016.name().len() != ReferenceFrame::ITRF2000.name().len());
            assert(ReferenceFrame::DREF91_R2016.alias().unwrap().len() != ReferenceFrame::ITRF2000.name().len());
            assert(ReferenceFrame::DREF91_R2016.name().len() != ReferenceFrame::ITRF2005.name().len());
            assert(ReferenceFrame::DREF91_R2016.alias().unwrap().len() != ReferenceFrame::ITRF2005.name().len());
            assert(ReferenceFrame::DREF91_R2016.name().len() != ReferenceFrame::ITRF2008.name().len());
            assert(ReferenceFrame::DREF91_R2016.alias().unwrap().len() != ReferenceFrame::ITRF2008.name().len());
            assert(ReferenceFrame::DREF91_R2016.name().len() != ReferenceFrame::ITRF2014.name().len());
            assert(ReferenceFrame::DREF91_R2016.alias().unwrap().len() != ReferenceFrame::ITRF2014.name().len());
            assert(ReferenceFrame::DREF91_R2016.name().len() != ReferenceFrame::ITRF2020.name().len());
            assert(ReferenceFrame::DREF91_R2016.alias().unwrap().len() != ReferenceFrame::ITRF2020.name().len());
            assert(ReferenceFrame::DREF91_R2016.name().len() != ReferenceFrame::ETRF89.name().len());
            assert(ReferenceFrame::DREF91_R2016.alias().unwrap().len() != ReferenceFrame::ETRF89.name().len());
            assert(ReferenceFrame::DREF91_R2016.name().len() != ReferenceFrame::ETRF90.name().len());
            assert(ReferenceFrame::DREF91_R2016.alias().unwrap().len() != ReferenceFrame::ETRF90.name().len());
            assert(ReferenceFrame::DREF91_R2016.name().len() != ReferenceFrame::ETRF91.name().len());
            assert(ReferenceFrame::DREF91_R2016.alias().unwrap().len() != ReferenceFrame::ETRF91.name().len());
            assert(ReferenceFrame::DREF91_R2016.name().len() != ReferenceFrame::ETRF92.name().len());
            assert(ReferenceFrame::DREF91_R2016.alias().unwrap().len() != ReferenceFrame::ETRF92.name().len());
            assert(ReferenceFrame::DREF91_R2016.name().len() != ReferenceFrame::ETRF93.name().len());
            assert(ReferenceFrame::DREF91_R2016.alias().unwrap().len() != ReferenceFrame::ETRF93.name().len());
            assert(ReferenceFrame::DREF91_R2016.name().len() != ReferenceFrame::ETRF94.name().len());
            assert(ReferenceFrame::DREF91_R2016.alias().unwrap().len() != ReferenceFrame::ETRF94.name().len());
            assert(ReferenceFrame::DREF91_R2016.name().len() != ReferenceFrame::ETRF96.name().len());
            assert(ReferenceFrame::DREF91_R2016.alias().unwrap().len() != ReferenceFrame::ETRF96.name().len());
            assert(ReferenceFrame::DREF91_R2016.name().len() != ReferenceFrame::ETRF97.name().len());
            assert(ReferenceFrame::DREF91_R2016.alias().unwrap().len() != ReferenceFrame::ETRF97.name().len());
            assert(ReferenceFrame::DREF91_R2016.name().len() != ReferenceFrame::ETRF2000.name().len());
            assert(ReferenceFrame::DREF91_R2016.alias().unwrap().len() != ReferenceFrame::ETRF2000.name().len());
            assert(ReferenceFrame::DREF91_R2016.name().len() != ReferenceFrame::ETRF2005.name().len());
            assert(ReferenceFrame::DREF91_R2016.alias().unwrap().len() != ReferenceFrame::ETRF2005.name().len());
            assert(ReferenceFrame::DREF91_R2016.name().len() != ReferenceFrame::ETRF2014.name().len());
            assert(ReferenceFrame::DREF91_R2016.alias().unwrap().len() != ReferenceFrame::ETRF2014.name().len());
            assert(ReferenceFrame::DREF91_R2016.name().len() != ReferenceFrame::ETRF2020.name().len());
            assert(ReferenceFrame::DREF91_R2016.alias().unwrap().len() != ReferenceFrame::ETRF2020.name().len());
            assert(ReferenceFrame::DREF91_R2016.name().len() != ReferenceFrame::NAD83_2011.name().len());
            assert(ReferenceFrame::DREF91_R2016.name().len() != ReferenceFrame::NAD83_2011.alias().unwrap().len());
            assert(ReferenceFrame::DREF91_R2016.alias().unwrap().len() != ReferenceFrame::NAD83_2011.name().len());
            assert(ReferenceFrame::DREF91_R2016.alias().unwrap().len() != ReferenceFrame::NAD83_2011.alias().unwrap().len());
            assert(ReferenceFrame::DREF91_R2016.name().len() != ReferenceFrame::NAD83_CSRS.name().len());
            assert(ReferenceFrame::DREF91_R2016.name().len() != ReferenceFrame::NAD83_CSRS.alias().unwrap().len());
            assert(ReferenceFrame::DREF91_R2016.alias().unwrap().len() != ReferenceFrame::NAD83_CSRS.name().len());
            assert(ReferenceFrame::DREF91_R2016.alias().unwrap().len() != ReferenceFrame::NAD83_CSRS.alias().unwrap().len());
        },
        ReferenceFrame::WGS84_G1762 => {
            assert(ReferenceFrame::WGS84_G1762.name().len() != ReferenceFrame::ITRF88.name().len());
            assert(ReferenceFrame::WGS84_G1762.alias().unwrap().len() != ReferenceFrame::ITRF88.name().len());
            assert(ReferenceFrame::WGS84_G1762.name().len() != ReferenceFrame::ITRF89.name().len());
            assert(ReferenceFrame::WGS84_G1762.alias().unwrap().len() != ReferenceFrame::ITRF89.name().len());
            assert(ReferenceFrame::WGS84_G1762.name().len() != ReferenceFrame::ITRF90.name().len());
            assert(ReferenceFrame::WGS84_G1762.alias().unwrap().len() != ReferenceFrame::ITRF90.name().len());
            assert(ReferenceFrame::WGS84_G1762.name().len() != ReferenceFrame::ITRF91.name().len());
            assert(ReferenceFrame::WGS84_G1762.alias().unwrap().len() != ReferenceFrame::ITRF91.name().len());
            assert(ReferenceFrame::WGS84_G1762.name().len() != ReferenceFrame::ITRF92.name().len());
            assert(ReferenceFrame::WGS84_G1762.alias().unwrap().len() != ReferenceFrame::ITRF92.name().len());
            assert(ReferenceFrame::WGS84_G1762.name().len() != ReferenceFrame::ITRF93.name().len());
            assert(ReferenceFrame::WGS84_G1762.alias().unwrap().len() != ReferenceFrame::ITRF93.name().len());
            assert(ReferenceFrame::WGS84_G1762.name().len() != ReferenceFrame::ITRF94.name().len());
            assert(ReferenceFrame::WGS84_G1762.alias().unwrap().len() != ReferenceFrame::ITRF94.name().len());
            assert(ReferenceFrame::WGS84_G1762.name().len() != ReferenceFrame::ITRF96.name().len());
            assert(ReferenceFrame::WGS84_G1762.alias().unwrap().len() != ReferenceFrame::ITRF96.name().len());
            assert(ReferenceFrame::WGS84_G1762.name().len() != ReferenceFrame::ITRF97.name().len());
            assert(ReferenceFrame::WGS84_G1762.alias().unwrap().len() != ReferenceFrame::ITRF97.name().len());
            assert(ReferenceFrame::WGS84_G1762.name().len() != ReferenceFrame::ITRF2000.name().len());
            assert(ReferenceFrame::WGS84_G1762.alias().unwrap().len() != ReferenceFrame::ITRF2000.name().len());
            assert(ReferenceFrame::WGS84_G1762.name().len() != ReferenceFrame::ITRF2005.name().len());
            assert(ReferenceFrame::WGS84_G1762.alias().unwrap().len() != ReferenceFrame::ITRF2005.name().len());
            assert(ReferenceFrame::WGS84_G1762.name().len() != ReferenceFrame::ITRF2008.name().len());
            assert(ReferenceFrame::WGS84_G1762.alias().unwrap().len() != ReferenceFrame::ITRF2008.name().len());
            assert(ReferenceFrame::WGS84_G1762.name().len() != ReferenceFrame::ITRF2014.name().len());
            assert(ReferenceFrame::WGS84_G1762.alias().unwrap().len() != ReferenceFrame::ITRF2014.name().len());
            assert(ReferenceFrame::WGS84_G1762.name().len() != ReferenceFrame::ITRF2020.name().len());
            assert(ReferenceFrame::WGS84_G1762.alias().unwrap().len() != ReferenceFrame::ITRF2020.name().len());
            assert(ReferenceFrame::WGS84_G1762.name().len() != ReferenceFrame::ETRF89.name().len());
            assert(ReferenceFrame::WGS84_G1762.alias().unwrap().len() != ReferenceFrame::ETRF89.name().len());
            assert(ReferenceFrame::WGS84_G1762.name().len() != ReferenceFrame::ETRF90.name().len());
            assert(ReferenceFrame::WGS84_G1762.alias().unwrap().len() != ReferenceFrame::ETRF90.name().len());
            assert(ReferenceFrame::WGS84_G1762.name().len() != ReferenceFrame::ETRF91.name().len());
            assert(ReferenceFrame::WGS84_G1762.alias().unwrap().len() != ReferenceFrame::ETRF91.name().len());
            assert(ReferenceFrame::WGS84_G1762.name().len() != ReferenceFrame::ETRF92.name().len());
            assert(ReferenceFrame::WGS84_G1762.alias().unwrap().len() != ReferenceFrame::ETRF92.name().len());
            assert(ReferenceFrame::WGS84_G1762.name().len() != ReferenceFrame::ETRF93.name().len());
            assert(ReferenceFrame::WGS84_G1762.alias().unwrap().len() != ReferenceFrame::ETRF93.name().len());
            assert(ReferenceFrame::WGS84_G1762.name().len() != ReferenceFrame::ETRF94.name().len());
            assert(ReferenceFrame::WGS84_G1762.alias().unwrap().len() != ReferenceFrame::ETRF94.name().len());
            assert(ReferenceFrame::WGS84_G1762.name().len() != ReferenceFrame::ETRF96.name().len());
            assert(ReferenceFrame::WGS84_G1762.alias().unwrap().len() != ReferenceFrame::ETRF96.name().len());
            assert(ReferenceFrame::WGS84_G1762.name().len() != ReferenceFrame::ETRF97.name().len());
            assert(ReferenceFrame::WGS84_G1762.alias().unwrap().len() != ReferenceFrame::ETRF97.name().len());
            assert(ReferenceFrame::WGS84_G1762.name().len() != ReferenceFrame::ETRF2000.name().len());
            assert(ReferenceFrame::WGS84_G1762.alias().unwrap().len() != ReferenceFrame::ETRF2000.name().len());
            assert(ReferenceFrame::WGS84_G1762.name().len() != ReferenceFrame::ETRF2005.name().len());
            assert(ReferenceFrame::WGS84_G1762.alias().unwrap().len() != ReferenceFrame::ETRF2005.name().len());
            assert(ReferenceFrame::WGS84_G1762.name().len() != ReferenceFrame::ETRF2014.name().len());
            assert(ReferenceFrame::WGS84_G1762.alias().unwrap().len() != ReferenceFrame::ETRF2014.name().len());
            assert(ReferenceFrame::WGS84_G1762.name().len() != ReferenceFrame::ETRF2020.name().len());
            assert(ReferenceFrame::WGS84_G1762.alias().unwrap().len() != ReferenceFrame::ETRF2020.name().len());
            assert(ReferenceFrame::WGS84_G1762.name().len() != ReferenceFrame::NAD83_2011.name().len());
            assert(ReferenceFrame::WGS84_G1762.name().len() != ReferenceFrame::NAD83_2011.alias().unwrap().len());
            assert(ReferenceFrame::WGS84_G1762.alias().unwrap()[0] != ReferenceFrame::NAD83_2011.name()[0]);
            assert(ReferenceFrame::WGS84_G1762.alias().unwrap().len() != ReferenceFrame::NAD83_2011.alias().unwrap().len());
            assert(ReferenceFrame::WGS84_G1762.name().len() != ReferenceFrame::NAD83_CSRS.name().len());
            assert(ReferenceFrame::WGS84_G1762.name().len() != ReferenceFrame::NAD83_CSRS.alias().unwrap().len());
            assert(ReferenceFrame::WGS84_G1762.alias().unwrap()[0] != ReferenceFrame::NAD83_CSRS.name()[0]);
            assert(ReferenceFrame::WGS84_G1762.alias().unwrap().len() != ReferenceFrame::NAD83_CSRS.alias().unwrap().len());
            assert(ReferenceFrame::WGS84_G1762.name().len() != ReferenceFrame::DREF91_R2016.name().len());
            assert(ReferenceFrame::WGS84_G1762.name()[0] != ReferenceFrame::DREF91_R2016.alias().unwrap()[0]);
            assert(ReferenceFrame::WGS84_G1762.alias().unwrap().len() != ReferenceFrame::DREF91_R2016.name().len());
            assert(ReferenceFrame::WGS84_G1762.alias().unwrap().len() != ReferenceFrame::DREF91_R2016.alias().unwrap().len());
        },
        ReferenceFrame::WGS84_G2139 => {
            assert(ReferenceFrame::WGS84_G2139.name().len() != ReferenceFrame::ITRF88.name().len());
            assert(ReferenceFrame::WGS84_G2139.alias().unwrap().len() != ReferenceFrame::ITRF88.name().len());
            assert(ReferenceFrame::WGS84_G2139.name().len() != ReferenceFrame::ITRF89.name().len());
            assert(ReferenceFrame::WGS84_G2139.alias().unwrap().len() != ReferenceFrame::ITRF89.name().len());
            assert(ReferenceFrame::WGS84_G2139.name().len() != ReferenceFrame::ITRF90.name().len());
            assert(ReferenceFrame::WGS84_G2139.alias().unwrap().len() != ReferenceFrame::ITRF90.name().len());
            assert(ReferenceFrame::WGS84_G2139.name().len() != ReferenceFrame::ITRF91.name().len());
            assert(ReferenceFrame::WGS84_G2139.alias().unwrap().len() != ReferenceFrame::ITRF91.name().len());
            assert(ReferenceFrame::WGS84_G2139.name().len() != ReferenceFrame::ITRF92.name().len());
            assert(ReferenceFrame::WGS84_G2139.alias().unwrap().len() != ReferenceFrame::ITRF92.name().len());
            assert(ReferenceFrame::WGS84_G2139.name().len() != ReferenceFrame::ITRF93.name().len());
            assert(ReferenceFrame::WGS84_G2139.alias().unwrap().len() != ReferenceFrame::ITRF93.name().len());
            assert(ReferenceFrame::WGS84_G2139.name().len() != ReferenceFrame::ITRF94.name().len());
            assert(ReferenceFrame::WGS84_G2139.alias().unwrap().len() != ReferenceFrame::ITRF94.name().len());
            assert(ReferenceFrame::WGS84_G2139.name().len() != ReferenceFrame::ITRF96.name().len());
            assert(ReferenceFrame::WGS84_G2139.alias().unwrap().len() != ReferenceFrame::ITRF96.name().len());
            assert(ReferenceFrame::WGS84_G2139.name().len() != ReferenceFrame::ITRF97.name().len());
            assert(ReferenceFrame::WGS84_G2139.alias().unwrap().len() != ReferenceFrame::ITRF97.name().len());
            assert(ReferenceFrame::WGS84_G2139.name().len() != ReferenceFrame::ITRF2000.name().len());
            assert(ReferenceFrame::WGS84_G2139.alias().unwrap().len() != ReferenceFrame::ITRF2000.name().len());
            assert(ReferenceFrame::WGS84_G2139.name().len() != ReferenceFrame::ITRF2005.name().len());
            assert(ReferenceFrame::WGS84_G2139.alias().unwrap().len() != ReferenceFrame::ITRF2005.name().len());
            assert(ReferenceFrame::WGS84_G2139.name().len() != ReferenceFrame::ITRF2008.name().len());
            assert(ReferenceFrame::WGS84_G2139.alias().unwrap().len() != ReferenceFrame::ITRF2008.name().len());
            assert(ReferenceFrame::WGS84_G2139.name().len() != ReferenceFrame::ITRF2014.name().len());
            assert(ReferenceFrame::WGS84_G2139.alias().unwrap().len() != ReferenceFrame::ITRF2014.name().len());
            assert(ReferenceFrame::WGS84_G2139.name().len() != ReferenceFrame::ITRF2020.name().len());
            assert(ReferenceFrame::WGS84_G2139.alias().unwrap().len() != ReferenceFrame::ITRF2020.name().len());
            assert(ReferenceFrame::WGS84_G2139.name().len() != ReferenceFrame::ETRF89.name().len());
            assert(ReferenceFrame::WGS84_G2139.alias().unwrap().len() != ReferenceFrame::ETRF89.name().len());
            assert(ReferenceFrame::WGS84_G2139.name().len() != ReferenceFrame::ETRF90.name().len());
            assert(ReferenceFrame::WGS84_G2139.alias().unwrap().len() != ReferenceFrame::ETRF90.name().len());
            assert(ReferenceFrame::WGS84_G2139.name().len() != ReferenceFrame::ETRF91.name().len());
            assert(ReferenceFrame::WGS84_G2139.alias().unwrap().len() != ReferenceFrame::ETRF91.name().len());
            assert(ReferenceFrame::WGS84_G2139.name().len() != ReferenceFrame::ETRF92.name().len());
            assert(ReferenceFrame::WGS84_G2139.alias().unwrap().len() != ReferenceFrame::ETRF92.name().len());
            assert(ReferenceFrame::WGS84_G2139.name().len() != ReferenceFrame::ETRF93.name().len());
            assert(ReferenceFrame::WGS84_G2139.alias().unwrap().len() != ReferenceFrame::ETRF93.name().len());
            assert(ReferenceFrame::WGS84_G2139.name().len() != ReferenceFrame::ETRF94.name().len());
            assert(ReferenceFrame::WGS84_G2139.alias().unwrap().len() != ReferenceFrame::ETRF94.name().len());
            assert(ReferenceFrame::WGS84_G2139.name().len() != ReferenceFrame::ETRF96.name().len());
            assert(ReferenceFrame::WGS84_G2139.alias().unwrap().len() != ReferenceFrame::ETRF96.name().len());
            assert(ReferenceFrame::WGS84_G2139.name().len() != ReferenceFrame::ETRF97.name().len());
            assert(ReferenceFrame::WGS84_G2139.alias().unwrap().len() != ReferenceFrame::ETRF97.name().len());
            assert(ReferenceFrame::WGS84_G2139.name().len() != ReferenceFrame::ETRF2000.name().len());
            assert(ReferenceFrame::WGS84_G2139.alias().unwrap().len() != ReferenceFrame::ETRF2000.name().len());
            assert(ReferenceFrame::WGS84_G2139.name().len() != ReferenceFrame::ETRF2005.name().len());
            assert(ReferenceFrame::WGS84_G2139.alias().unwrap().len() != ReferenceFrame::ETRF2005.name().len());
            assert(ReferenceFrame::WGS84_G2139.name().len() != ReferenceFrame::ETRF2014.name().len());
            assert(ReferenceFrame::WGS84_G2139.alias().unwrap().len() != ReferenceFrame::ETRF2014.name().len());
            assert(ReferenceFrame::WGS84_G2139.name().len() != ReferenceFrame::ETRF2020.name().len());
            assert(ReferenceFrame::WGS84_G2139.alias().unwrap().len() != ReferenceFrame::ETRF2020.name().len());
            assert(ReferenceFrame::WGS84_G2139.name().len() != ReferenceFrame::NAD83_2011.name().len());
            assert(ReferenceFrame::WGS84_G2139.name().len() != ReferenceFrame::NAD83_2011.alias().unwrap().len());
            assert(ReferenceFrame::WGS84_G2139.alias().unwrap()[0] != ReferenceFrame::NAD83_2011.name()[0]);
            assert(ReferenceFrame::WGS84_G2139.alias().unwrap().len() != ReferenceFrame::NAD83_2011.alias().unwrap().len());
            assert(ReferenceFrame::WGS84_G2139.name().len() != ReferenceFrame::NAD83_CSRS.name().len());
            assert(ReferenceFrame::WGS84_G2139.name().len() != ReferenceFrame::NAD83_CSRS.alias().unwrap().len());
            assert(ReferenceFrame::WGS84_G2139.alias().unwrap()[0] != ReferenceFrame::NAD83_CSRS.name()[0]);
            assert(ReferenceFrame::WGS84_G2139.alias().unwrap().len() != ReferenceFrame::NAD83_CSRS.alias().unwrap().len());
            assert(ReferenceFrame::WGS84_G2139.name().len() != ReferenceFrame::DREF91_R2016.name().len());
            assert(ReferenceFrame::WGS84_G2139.name()[0] != ReferenceFrame::DREF91_R2016.alias().unwrap()[0]);
            assert(ReferenceFrame::WGS84_G2139.alias().unwrap().len() != ReferenceFrame::DREF91_R2016.name().len());
            assert(ReferenceFrame::WGS84_G2139.alias().unwrap().len() != ReferenceFrame::DREF91_R2016.alias().unwrap().len());
            assert(ReferenceFrame::WGS84_G2139.name()[7] != ReferenceFrame::WGS84_G1762.name()[7]);
            assert(ReferenceFrame::WGS84_G2139.name().len() != ReferenceFrame::WGS84_G1762.alias().unwrap().len());
            assert(ReferenceFrame::WGS84_G2139.alias().unwrap().len() != ReferenceFrame::WGS84_G1762.name().len());
            assert(ReferenceFrame::WGS84_G2139.alias().unwrap()[7] != ReferenceFrame::WGS84_G1762.alias().unwrap()[7]);
        },
        ReferenceFrame::WGS84_G2296 => {
            assert(ReferenceFrame::WGS84_G2296.name().len() != ReferenceFrame::ITRF88.name().len());
            assert(ReferenceFrame::WGS84_G2296.alias().unwrap().len() != ReferenceFrame::ITRF88.name().len());
            assert(ReferenceFrame::WGS84_G2296.name().len() != ReferenceFrame::ITRF89.name().len());
            assert(ReferenceFrame::WGS84_G2296.alias().unwrap().len() != ReferenceFrame::ITRF89.name().len());
            assert(ReferenceFrame::WGS84_G2296.name().len() != ReferenceFrame::ITRF90.name().len());
            assert(ReferenceFrame::WGS84_G2296.alias().unwrap().len() != ReferenceFrame::ITRF90.name().len());
            assert(ReferenceFrame::WGS84_G2296.name().len() != ReferenceFrame::ITRF91.name().len());
            assert(ReferenceFrame::WGS84_G2296.alias().unwrap().len() != ReferenceFrame::ITRF91.name().len());
            assert(ReferenceFrame::WGS84_G2296.name().len() != ReferenceFrame::ITRF92.name().len());
            assert(ReferenceFrame::WGS84_G2296.alias().unwrap().len() != ReferenceFrame::ITRF92.name().len());
            assert(ReferenceFrame::WGS84_G2296.name().len() != ReferenceFrame::ITRF93.name().len());
            assert(ReferenceFrame::WGS84_G2296.alias().unwrap().len() != ReferenceFrame::ITRF93.name().len());
            assert(ReferenceFrame::WGS84_G2296.name().len() != ReferenceFrame::ITRF94.name().len());
            assert(ReferenceFrame::WGS84_G2296.alias().unwrap().len() != ReferenceFrame::ITRF94.name().len());
            assert(ReferenceFrame::WGS84_G2296.name().len() != ReferenceFrame::ITRF96.name().len());
            assert(ReferenceFrame::WGS84_G2296.alias().unwrap().len() != ReferenceFrame::ITRF96.name().len());
            assert(ReferenceFrame::WGS84_G2296.name().len() != ReferenceFrame::ITRF97.name().len());
            assert(ReferenceFrame::WGS84_G2296.alias().unwrap().len() != ReferenceFrame::ITRF97.name().len());
            assert(ReferenceFrame::WGS84_G2296.name().len() != ReferenceFrame::ITRF2000.name().len());
            assert(ReferenceFrame::WGS84_G2296.alias().unwrap().len() != ReferenceFrame::ITRF2000.name().len());
            assert(ReferenceFrame::WGS84_G2296.name().len() != ReferenceFrame::ITRF2005.name().len());
            assert(ReferenceFrame::WGS84_G2296.alias().unwrap().len() != ReferenceFrame::ITRF2005.name().len());
            assert(ReferenceFrame::WGS84_G2296.name().len() != ReferenceFrame::ITRF2008.name().len());
            assert(ReferenceFrame::WGS84_G2296.alias().unwrap().len() != ReferenceFrame::ITRF2008.name().len());
            assert(ReferenceFrame::WGS84_G2296.name().len() != ReferenceFrame::ITRF2014.name().len());
            assert(ReferenceFrame::WGS84_G2296.alias().unwrap().len() != ReferenceFrame::ITRF2014.name().len());
            assert(ReferenceFrame::WGS84_G2296.name().len() != ReferenceFrame::ITRF2020.name().len());
            assert(ReferenceFrame::WGS84_G2296.alias().unwrap().len() != ReferenceFrame::ITRF2020.name().len());
            assert(ReferenceFrame::WGS84_G2296.name().len() != ReferenceFrame::ETRF89.name().len());
            assert(ReferenceFrame::WGS84_G2296.alias().unwrap().len() != ReferenceFrame::ETRF89.name().len());
            assert(ReferenceFrame::WGS84_G2296.name().len() != ReferenceFrame::ETRF90.name().len());
            assert(ReferenceFrame::WGS84_G2296.alias().unwrap().len() != ReferenceFrame::ETRF90.name().len());
            assert(ReferenceFrame::WGS84_G2296.name().len() != ReferenceFrame::ETRF91.name().len());
            assert(ReferenceFrame::WGS84_G2296.alias().unwrap().len() != ReferenceFrame::ETRF91.name().len());
            assert(ReferenceFrame::WGS84_G2296.name().len() != ReferenceFrame::ETRF92.name().len());
            assert(ReferenceFrame::WGS84_G2296.alias().unwrap().len() != ReferenceFrame::ETRF92.name().len());
            assert(ReferenceFrame::WGS84_G2296.name().len() != ReferenceFrame::ETRF93.name().len());
            assert(ReferenceFrame::WGS84_G2296.alias().unwrap().len() != ReferenceFrame::ETRF93.name().len());
            assert(ReferenceFrame::WGS84_G2296.name().len() != ReferenceFrame::ETRF94.name().len());
            assert(ReferenceFrame::WGS84_G2296.alias().unwrap().len() != ReferenceFrame::ETRF94.name().len());
            assert(ReferenceFrame::WGS84_G2296.name().len() != ReferenceFrame::ETRF96.name().len());
            assert(ReferenceFrame::WGS84_G2296.alias().unwrap().len() != ReferenceFrame::ETRF96.name().len());
            assert(ReferenceFrame::WGS84_G2296.name().len() != ReferenceFrame::ETRF97.name().len());
            assert(ReferenceFrame::WGS84_G2296.alias().unwrap().len() != ReferenceFrame::ETRF97.name().len());
            assert(ReferenceFrame::WGS84_G2296.name().len() != ReferenceFrame::ETRF2000.name().len());
            assert(ReferenceFrame::WGS84_G2296.alias().unwrap().len() != ReferenceFrame::ETRF2000.name().len());
            assert(ReferenceFrame::WGS84_G2296.name().len() != ReferenceFrame::ETRF2005.name().len());
            assert(ReferenceFrame::WGS84_G2296.alias().unwrap().len() != ReferenceFrame::ETRF2005.name().len());
            assert(ReferenceFrame::WGS84_G2296.name().len() != ReferenceFrame::ETRF2014.name().len());
            assert(ReferenceFrame::WGS84_G2296.alias().unwrap().len() != ReferenceFrame::ETRF2014.name().len());
            assert(ReferenceFrame::WGS84_G2296.name().len() != ReferenceFrame::ETRF2020.name().len());
            assert(ReferenceFrame::WGS84_G2296.alias().unwrap().len() != ReferenceFrame::ETRF2020.name().len());
            assert(ReferenceFrame::WGS84_G2296.name().len() != ReferenceFrame::NAD83_2011.name().len());
            assert(ReferenceFrame::WGS84_G2296.name().len() != ReferenceFrame::NAD83_2011.alias().unwrap().len());
            assert(ReferenceFrame::WGS84_G2296.alias().unwrap()[0] != ReferenceFrame::NAD83_2011.name()[0]);
            assert(ReferenceFrame::WGS84_G2296.alias().unwrap().len() != ReferenceFrame::NAD83_2011.alias().unwrap().len());
            assert(ReferenceFrame::WGS84_G2296.name().len() != ReferenceFrame::NAD83_CSRS.name().len());
            assert(ReferenceFrame::WGS84_G2296.name().len() != ReferenceFrame::NAD83_CSRS.alias().unwrap().len());
            assert(ReferenceFrame::WGS84_G2296.alias().unwrap()[0] != ReferenceFrame::NAD83_CSRS.name()[0]);
            assert(ReferenceFrame::WGS84_G2296.alias().unwrap().len() != ReferenceFrame::NAD83_CSRS.alias().unwrap().len());
            assert(ReferenceFrame::WGS84_G2296.name().len() != ReferenceFrame::DREF91_R2016.name().len());
            assert(ReferenceFrame::WGS84_G2296.name()[0] != ReferenceFrame::DREF91_R2016.alias().unwrap()[0]);
            assert(ReferenceFrame::WGS84_G2296.alias().unwrap().len() != ReferenceFrame::DREF91_R2016.name().len());
            assert(ReferenceFrame::WGS84_G2296.alias().unwrap().len() != ReferenceFrame::DREF91_R2016.alias().unwrap().len());
            assert(ReferenceFrame::WGS84_G2296.name()[7] != ReferenceFrame::WGS84_G1762.name()[7]);
            assert(ReferenceFrame::WGS84_G2296.name().len() != ReferenceFrame::WGS84_G1762.alias().unwrap().len());
            assert(ReferenceFrame::WGS84_G2296.alias().unwrap().len() != ReferenceFrame::WGS84_G1762.name().len());
            assert(ReferenceFrame::WGS84_G2296.alias().unwrap()[7] != ReferenceFrame::WGS84_G1762.alias().unwrap()[7]);
            assert(ReferenceFrame::WGS84_G2296.name()[8] != ReferenceFrame::WGS84_G2139.name()[8]);
            assert(ReferenceFrame::WGS84_G2296.name().len() != ReferenceFrame::WGS84_G2139.alias().unwrap().len());
            assert(ReferenceFrame::WGS84_G2296.alias().unwrap().len() != ReferenceFrame::WGS84_G2139.name().len());
            assert(ReferenceFrame::WGS84_G2296.alias().unwrap()[8] != ReferenceFrame::WGS84_G2139.alias().unwrap()[8]);
        },
        ReferenceFrame::Other(_) => {},
    }
}

} // verus!
