use std::str::FromStr;
use swiftnav::reference_frame::ReferenceFrame;


#[test]
fn reference_frame_strings() {
    assert_eq!(ReferenceFrame::ITRF88.to_string(), "ITRF88");
    assert_eq!(
        ReferenceFrame::from_str("ITRF88"),
        Ok(ReferenceFrame::ITRF88)
    );
    assert_eq!(ReferenceFrame::ITRF89.to_string(), "ITRF89");
    assert_eq!(
        ReferenceFrame::from_str("ITRF89"),
        Ok(ReferenceFrame::ITRF89)
    );
    assert_eq!(ReferenceFrame::ITRF90.to_string(), "ITRF90");
    assert_eq!(
        ReferenceFrame::from_str("ITRF90"),
        Ok(ReferenceFrame::ITRF90)
    );
    assert_eq!(ReferenceFrame::ITRF91.to_string(), "ITRF91");
    assert_eq!(
        ReferenceFrame::from_str("ITRF91"),
        Ok(ReferenceFrame::ITRF91)
    );
    assert_eq!(ReferenceFrame::ITRF92.to_string(), "ITRF92");
    assert_eq!(
        ReferenceFrame::from_str("ITRF92"),
        Ok(ReferenceFrame::ITRF92)
    );
    assert_eq!(ReferenceFrame::ITRF93.to_string(), "ITRF93");
    assert_eq!(
        ReferenceFrame::from_str("ITRF93"),
        Ok(ReferenceFrame::ITRF93)
    );
    assert_eq!(ReferenceFrame::ITRF94.to_string(), "ITRF94");
    assert_eq!(
        ReferenceFrame::from_str("ITRF94"),
        Ok(ReferenceFrame::ITRF94)
    );
    assert_eq!(ReferenceFrame::ITRF96.to_string(), "ITRF96");
    assert_eq!(
        ReferenceFrame::from_str("ITRF96"),
        Ok(ReferenceFrame::ITRF96)
    );
    assert_eq!(ReferenceFrame::ITRF97.to_string(), "ITRF97");
    assert_eq!(
        ReferenceFrame::from_str("ITRF97"),
        Ok(ReferenceFrame::ITRF97)
    );
    assert_eq!(ReferenceFrame::ITRF2000.to_string(), "ITRF2000");
    assert_eq!(
        ReferenceFrame::from_str("ITRF2000"),
        Ok(ReferenceFrame::ITRF2000)
    );
    assert_eq!(ReferenceFrame::ITRF2005.to_string(), "ITRF2005");
    assert_eq!(
        ReferenceFrame::from_str("ITRF2005"),
        Ok(ReferenceFrame::ITRF2005)
    );
    assert_eq!(ReferenceFrame::ITRF2008.to_string(), "ITRF2008");
    assert_eq!(
        ReferenceFrame::from_str("ITRF2008"),
        Ok(ReferenceFrame::ITRF2008)
    );
    assert_eq!(ReferenceFrame::ITRF2014.to_string(), "ITRF2014");
    assert_eq!(
        ReferenceFrame::from_str("ITRF2014"),
        Ok(ReferenceFrame::ITRF2014)
    );
    assert_eq!(ReferenceFrame::ITRF2020.to_string(), "ITRF2020");
    assert_eq!(
        ReferenceFrame::from_str("ITRF2020"),
        Ok(ReferenceFrame::ITRF2020)
    );
    assert_eq!(ReferenceFrame::ETRF89.to_string(), "ETRF89");
    assert_eq!(
        ReferenceFrame::from_str("ETRF89"),
        Ok(ReferenceFrame::ETRF89)
    );
    assert_eq!(ReferenceFrame::ETRF90.to_string(), "ETRF90");
    assert_eq!(
        ReferenceFrame::from_str("ETRF90"),
        Ok(ReferenceFrame::ETRF90)
    );
    assert_eq!(ReferenceFrame::ETRF91.to_string(), "ETRF91");
    assert_eq!(
        ReferenceFrame::from_str("ETRF91"),
        Ok(ReferenceFrame::ETRF91)
    );
    assert_eq!(ReferenceFrame::ETRF92.to_string(), "ETRF92");
    assert_eq!(
        ReferenceFrame::from_str("ETRF92"),
        Ok(ReferenceFrame::ETRF92)
    );
    assert_eq!(ReferenceFrame::ETRF93.to_string(), "ETRF93");
    assert_eq!(
        ReferenceFrame::from_str("ETRF93"),
        Ok(ReferenceFrame::ETRF93)
    );
    assert_eq!(ReferenceFrame::ETRF94.to_string(), "ETRF94");
    assert_eq!(
        ReferenceFrame::from_str("ETRF94"),
        Ok(ReferenceFrame::ETRF94)
    );
    assert_eq!(ReferenceFrame::ETRF96.to_string(), "ETRF96");
    assert_eq!(
        ReferenceFrame::from_str("ETRF96"),
        Ok(ReferenceFrame::ETRF96)
    );
    assert_eq!(ReferenceFrame::ETRF97.to_string(), "ETRF97");
    assert_eq!(
        ReferenceFrame::from_str("ETRF97"),
        Ok(ReferenceFrame::ETRF97)
    );
    assert_eq!(ReferenceFrame::ETRF2000.to_string(), "ETRF2000");
    assert_eq!(
        ReferenceFrame::from_str("ETRF2000"),
        Ok(ReferenceFrame::ETRF2000)
    );
    assert_eq!(ReferenceFrame::ETRF2005.to_string(), "ETRF2005");
    assert_eq!(
        ReferenceFrame::from_str("ETRF2005"),
        Ok(ReferenceFrame::ETRF2005)
    );
    assert_eq!(ReferenceFrame::ETRF2014.to_string(), "ETRF2014");
    assert_eq!(
        ReferenceFrame::from_str("ETRF2014"),
        Ok(ReferenceFrame::ETRF2014)
    );
    assert_eq!(ReferenceFrame::ETRF2020.to_string(), "ETRF2020");
    assert_eq!(
        ReferenceFrame::from_str("ETRF2020"),
        Ok(ReferenceFrame::ETRF2020)
    );
    assert_eq!(ReferenceFrame::NAD83_2011.to_string(), "NAD83(2011)");
    assert_eq!(
        ReferenceFrame::from_str("NAD83_2011"),
        Ok(ReferenceFrame::NAD83_2011)
    );
    assert_eq!(
        ReferenceFrame::from_str("NAD83(2011)"),
        Ok(ReferenceFrame::NAD83_2011)
    );
    assert_eq!(ReferenceFrame::NAD83_CSRS.to_string(), "NAD83(CSRS)");
    assert_eq!(
        ReferenceFrame::from_str("NAD83_CSRS"),
        Ok(ReferenceFrame::NAD83_CSRS)
    );
    assert_eq!(
        ReferenceFrame::from_str("NAD83(CSRS)"),
        Ok(ReferenceFrame::NAD83_CSRS)
    );
}

#[test]
fn custom_reference_frame_creation() {
    let custom_frame = ReferenceFrame::Other("MyLocalFrame".to_string());
    assert_eq!(custom_frame.to_string(), "MyLocalFrame");
}

#[test]
fn custom_reference_frame_from_str() {
    let custom_frame: ReferenceFrame = "UnknownFrame".parse().unwrap();
    assert_eq!(
        custom_frame,
        ReferenceFrame::Other("UnknownFrame".to_string())
    );
    assert_eq!(custom_frame.to_string(), "UnknownFrame");
}

#[test]
fn known_reference_frame_from_str() {
    let itrf_frame: ReferenceFrame = "ITRF2020".parse().unwrap();
    assert_eq!(itrf_frame, ReferenceFrame::ITRF2020);

    let nad83_frame: ReferenceFrame = "NAD83(2011)".parse().unwrap();
    assert_eq!(nad83_frame, ReferenceFrame::NAD83_2011);

    let nad83_frame2: ReferenceFrame = "NAD83_2011".parse().unwrap();
    assert_eq!(nad83_frame2, ReferenceFrame::NAD83_2011);
}
