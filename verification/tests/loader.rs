use orbital_debris::loader::load_tles_to_sat_rec;

const ISS_1: &str = "1 25544U 98067A   24001.50000000  .00016717  00000-0  10270-3 0  9005";
const ISS_2: &str = "2 25544  51.6400 208.9163 0006703 130.5360 325.0288 15.49560532    14";
const DEB_1: &str = "1 49863U 93036DS  24001.25000000  .00002182  00000-0  12345-3 0  9991";
const DEB_2: &str = "2 49863  74.0300 120.1000 0030000 200.0000 160.0000 14.80000000    17";

#[test]
fn no_lines_give_no_records() {
    assert!(load_tles_to_sat_rec(Vec::new()).is_empty());
}

#[test]
fn one_line_alone_gives_no_record() {
    assert!(load_tles_to_sat_rec(vec![ISS_1.to_string()]).is_empty());
}

#[test]
fn two_lines_give_one_record() {
    let records = load_tles_to_sat_rec(vec![ISS_1.to_string(), ISS_2.to_string()]);
    assert_eq!(records.len(), 1);
    assert_eq!(records[0].line1, ISS_1);
    assert_eq!(records[0].line2, ISS_2);
}

#[test]
fn records_keep_the_order_of_the_source() {
    let lines = vec![ISS_1.to_string(), ISS_2.to_string(), DEB_1.to_string(), DEB_2.to_string()];
    let records = load_tles_to_sat_rec(lines);
    assert_eq!(records.len(), 2);
    assert_eq!(records[0].line1, ISS_1);
    assert_eq!(records[0].line2, ISS_2);
    assert_eq!(records[1].line1, DEB_1);
    assert_eq!(records[1].line2, DEB_2);
}

#[test]
fn last_line_without_partner_is_left_out() {
    let lines = vec![ISS_1.to_string(), ISS_2.to_string(), DEB_1.to_string()];
    let records = load_tles_to_sat_rec(lines);
    assert_eq!(records.len(), 1);
    assert_eq!(records[0].line1, ISS_1);
    assert_eq!(records[0].line2, ISS_2);
}

#[test]
fn lines_are_paired_as_they_come() {
    let lines: Vec<String> = (0..7).map(|i| format!("line {}", i)).collect();
    let records = load_tles_to_sat_rec(lines);
    assert_eq!(records.len(), 3);
    for (i, record) in records.iter().enumerate() {
        assert_eq!(record.line1, format!("line {}", 2 * i));
        assert_eq!(record.line2, format!("line {}", 2 * i + 1));
    }
}
