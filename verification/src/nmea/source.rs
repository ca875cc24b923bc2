//! The satellite systems that an NMEA sentence can report on.
use vstd::prelude::*;

verus! {

/// The talker of an NMEA sentence
#[derive(Debug, Copy, Clone, PartialEq, Eq, Structural)]
pub enum Source {
    /// USA Global Positioning System
    GPS,
    /// Russian Federation GLONASS
    GLONASS,
    /// Navigation Indian Constellation
    NavIC,
    /// European Union Gallileo
    Gallileo,
    /// China's Beidou
    BDS,
    /// Global Navigation Sattelite System. Some combination of other systems. Depends on receiver
    /// model, receiver settings, etc..
    GNSS,
    /// Quasi-Zenith Satellite System (Japan)
    QZSS,
}

impl Source {
    /// The two-letter NMEA talker identifier of the source.
    pub open spec fn talker_id(self) -> Seq<char> {
        match self {
            Source::GPS => seq!['G', 'P'],
            Source::GLONASS => seq!['G', 'L'],
            Source::NavIC => seq!['G', 'I'],
            Source::Gallileo => seq!['G', 'A'],
            Source::BDS => seq!['G', 'B'],
            Source::GNSS => seq!['G', 'N'],
            Source::QZSS => seq!['G', 'Q'],
        }
    }

    /// The NMEA talker identifier that starts sentences from this source.
    pub fn to_nmea_talker_id(&self) -> (id: &'static str)
        ensures
            id@ == self.talker_id(),
    {
        match self {
            Source::GPS => {
                proof {
                    reveal_strlit("GP");
                }
                "GP"
            },
            Source::GLONASS => {
                proof {
                    reveal_strlit("GL");
                }
                "GL"
            },
            Source::NavIC => {
                proof {
                    reveal_strlit("GI");
                }
                "GI"
            },
            Source::Gallileo => {
                proof {
                    reveal_strlit("GA");
                }
                "GA"
            },
            Source::BDS => {
                proof {
                    reveal_strlit("GB");
                }
                "GB"
            },
            Source::GNSS => {
                proof {
                    reveal_strlit("GN");
                }
                "GN"
            },
            Source::QZSS => {
                proof {
                    reveal_strlit("GQ");
                }
                "GQ"
            },
        }
    }
}

impl Default for Source {
    fn default() -> (s: Source)
        ensures
            s == Source::GPS,
    {
        Source::GPS
    }
}

} // verus!
