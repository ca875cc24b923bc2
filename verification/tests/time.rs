#[test]
fn is_leap_year() {
    assert!(!swiftnav::time::is_leap_year(2019));
    assert!(swiftnav::time::is_leap_year(2020));
    assert!(!swiftnav::time::is_leap_year(1900));
    assert!(swiftnav::time::is_leap_year(2000));
}
