use disk_scanner::drive_usage;
use disk_scanner::stats::{get_free_disk_space, get_total_disk_space, usage_report, CapacityError};

#[test]
fn stand_in_figures() {
    assert_eq!(get_total_disk_space(), Ok(1u64 << 40));
    assert_eq!(get_free_disk_space(), Ok(500 * (1u64 << 30)));
}

#[test]
fn drive_report_of_the_stand_in_figures() {
    let (lines, used) = drive_usage("/anywhere");
    assert_eq!(
        lines,
        vec![
            "Drive Usage:".to_string(),
            "Total Space: 1024.00 GB".to_string(),
            "Used Space: 524.00 GB (51.17%)".to_string(),
            "Free Space: 500.00 GB (48.83%)".to_string(),
        ]
    );
    assert_eq!(used, 5117);
    let used_percentage = (524.0f64 / 1024.0) * 100.0;
    assert_eq!(format!("{:.2}", used as f64 / 100.0), format!("{:.2}", used_percentage));
}

#[test]
fn report_without_the_total() {
    let (lines, used) = usage_report(Err(CapacityError::Unavailable), Ok(5));
    assert_eq!(lines, vec!["Could not retrieve total space information.".to_string()]);
    assert_eq!(used, 0);
    let (lines, used) =
        usage_report(Err(CapacityError::Unavailable), Err(CapacityError::Unavailable));
    assert_eq!(lines, vec!["Could not retrieve total space information.".to_string()]);
    assert_eq!(used, 0);
}

#[test]
fn report_without_the_free_space() {
    let (lines, used) = usage_report(Ok(1 << 40), Err(CapacityError::Unavailable));
    assert_eq!(lines, vec!["Could not retrieve free space information.".to_string()]);
    assert_eq!(used, 0);
}

#[test]
fn report_of_a_full_and_of_an_empty_drive() {
    let (lines, used) = usage_report(Ok(2048), Ok(0));
    assert_eq!(lines[1], "Total Space: 2.00 KB");
    assert_eq!(lines[2], "Used Space: 2.00 KB (100.00%)");
    assert_eq!(lines[3], "Free Space: 0 B (0.00%)");
    assert_eq!(used, 10_000);
    let (lines, used) = usage_report(Ok(2048), Ok(2048));
    assert_eq!(lines[2], "Used Space: 0 B (0.00%)");
    assert_eq!(lines[3], "Free Space: 2.00 KB (100.00%)");
    assert_eq!(used, 0);
}

#[test]
fn shares_are_rounded_to_hundredths() {
    // one third used: 33.333...%
    let (lines, used) = usage_report(Ok(3000), Ok(2000));
    assert_eq!(used, 3333);
    assert_eq!(lines[2], "Used Space: 1000 B (33.33%)");
    assert_eq!(lines[3], "Free Space: 1.95 KB (66.67%)");
    // 1 of 16 used: 6.25%
    let (lines, used) = usage_report(Ok(16), Ok(15));
    assert_eq!(used, 625);
    assert_eq!(lines[2], "Used Space: 1 B (6.25%)");
    assert_eq!(lines[3], "Free Space: 15 B (93.75%)");
    // a tie goes to the even hundredth: 1 of 20000 is 0.005%, 3 of 20000 is 0.015%
    let (_, used) = usage_report(Ok(20_000), Ok(19_999));
    assert_eq!(used, 0);
    let (_, used) = usage_report(Ok(20_000), Ok(19_997));
    assert_eq!(used, 2);
    let (_, used) = usage_report(Ok(20_000), Ok(19_995));
    assert_eq!(used, 2);
}

#[test]
fn shares_of_the_largest_drive() {
    let (lines, used) = usage_report(Ok(u64::MAX), Ok(0));
    assert_eq!(used, 10_000);
    assert_eq!(lines[1], "Total Space: 17179869184.00 GB");
    let (_, used) = usage_report(Ok(u64::MAX), Ok(u64::MAX));
    assert_eq!(used, 0);
}
