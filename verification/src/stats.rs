//! The drive-capacity summary shown beside a folder's own figures.
//!
//! The capacity of the drive is not asked of the operating system: the two
//! queries answer with fixed figures. The report built on their answers is
//! defined for every answer, so that a real query can take their place.

use crate::decimal::{decimal, padded, push_decimal, push_padded};
use crate::utils::{human_readable_size, round_half_even, round_half_even_div, size_text};
use vstd::prelude::*;
use vstd::string::*;

verus! {

/// Why a capacity figure is missing.
#[derive(Clone, Copy, Debug, PartialEq, Eq, Structural)]
pub enum CapacityError {
    /// The figure could not be obtained.
    Unavailable,
}

/// The total figure that stands in for a capacity query: one tebibyte.
pub const STAND_IN_TOTAL: u64 = 1_099_511_627_776;

/// The free figure that stands in for a capacity query: 500 gibibytes.
pub const STAND_IN_FREE: u64 = 536_870_912_000;

/// The size of the drive in bytes. A fixed figure stands in for the answer.
pub fn get_total_disk_space() -> (total: Result<u64, CapacityError>)
    ensures
        total == Ok::<u64, CapacityError>(STAND_IN_TOTAL),
{
    Ok(STAND_IN_TOTAL)
}

/// The free space of the drive in bytes. A fixed figure stands in for the
/// answer.
pub fn get_free_disk_space() -> (free: Result<u64, CapacityError>)
    ensures
        free == Ok::<u64, CapacityError>(STAND_IN_FREE),
{
    Ok(STAND_IN_FREE)
}

/// `part` as a share of `whole`, in hundredths of a percent, rounded to the
/// nearest hundredth with ties going to the even one.
pub open spec fn share_hundredths(part: nat, whole: nat) -> nat
    recommends
        whole > 0,
{
    round_half_even(part * 10_000, whole)
}

/// A share given in hundredths of a percent, written with two decimals.
pub open spec fn percent_text(hundredths: nat) -> Seq<char> {
    decimal(hundredths / 100) + seq!['.'] + padded(hundredths % 100, 2)
}

/// A line that shows an amount of space and its share of the drive.
pub open spec fn share_line(label: Seq<char>, bytes: nat, hundredths: nat) -> Seq<char> {
    label + size_text(bytes) + seq![' ', '('] + percent_text(hundredths) + seq!['%', ')']
}

/// Whether two capacity answers can be reported on: both are there, the
/// drive is not empty, and no more of it is free than there is.
pub open spec fn figures_agree(
    total: Result<u64, CapacityError>,
    free: Result<u64, CapacityError>,
) -> bool {
    total matches Ok(t) && free matches Ok(f) ==> f <= t && t > 0
}

/// The used share of the drive in hundredths of a percent; 0 where an answer
/// is missing.
pub open spec fn used_share(
    total: Result<u64, CapacityError>,
    free: Result<u64, CapacityError>,
) -> nat {
    match (total, free) {
        (Ok(t), Ok(f)) => share_hundredths((t - f) as nat, t as nat),
        _ => 0,
    }
}

/// The lines of the report on two capacity answers.
pub open spec fn usage_lines(
    total: Result<u64, CapacityError>,
    free: Result<u64, CapacityError>,
) -> Seq<Seq<char>> {
    match total {
        Ok(t) => match free {
            Ok(f) => {
                let used = share_hundredths((t - f) as nat, t as nat);
                seq![
                    "Drive Usage:"@,
                    "Total Space: "@ + size_text(t as nat),
                    share_line("Used Space: "@, (t - f) as nat, used),
                    share_line("Free Space: "@, f as nat, (10_000 - used) as nat),
                ]
            },
            Err(_) => seq!["Could not retrieve free space information."@],
        },
        Err(_) => seq!["Could not retrieve total space information."@],
    }
}

/// The content of a list of lines.
pub open spec fn lines_view(lines: Seq<String>) -> Seq<Seq<char>> {
    lines.map_values(|line: String| line@)
}

/// A share of a whole is at most the whole: ten thousand hundredths.
pub proof fn lemma_share_bound(part: nat, whole: nat)
    requires
        whole > 0,
        part <= whole,
    ensures
        share_hundredths(part, whole) <= 10_000,
{
    let a = part * 10_000;
    vstd::arithmetic::div_mod::lemma_fundamental_div_mod(a as int, whole as int);
    let q = a / whole;
    let r = a % whole;
    assert(a <= whole * 10_000) by (nonlinear_arith)
        requires
            a == part * 10_000,
            part <= whole,
    ;
    if q >= 10_000 {
        assert(whole * q >= whole * 10_000) by (nonlinear_arith)
            requires
                q >= 10_000,
                whole > 0,
        ;
        assert(r == 0);
        assert(whole * q == whole * 10_000);
        assert(q == 10_000) by (nonlinear_arith)
            requires
                whole * q == whole * 10_000,
                whole > 0,
        ;
    }
}

fn share_line_for(label: &str, bytes: u64, hundredths: u64) -> (line: String)
    ensures
        line@ == share_line(label@, bytes as nat, hundredths as nat),
{
    let mut line = label.to_owned();
    let size = human_readable_size(bytes);
    line.append(size.as_str());
    proof {
        reveal_strlit(" (");
        reveal_strlit(".");
        reveal_strlit("%)");
    }
    line.append(" (");
    push_decimal(&mut line, hundredths / 100);
    line.append(".");
    push_padded(&mut line, hundredths % 100, 2);
    line.append("%)");
    assert(line@ =~= share_line(label@, bytes as nat, hundredths as nat));
    line
}

/// Reports on two capacity answers: the lines to show, and the used share of
/// the drive in hundredths of a percent.
///
/// With both answers there are four lines: a heading, the total, the used
/// space with its share, and the free space with the rest of the share. With
/// an answer missing there is one line that says which, and the share is 0.
///
/// Where both answers are there, the drive must not be empty and the free
/// space must not exceed the total.
pub fn usage_report(total: Result<u64, CapacityError>, free: Result<u64, CapacityError>) -> (report:
    (Vec<String>, u32))
    requires
        figures_agree(total, free),
    ensures
        lines_view(report.0@) == usage_lines(total, free),
        report.1 == used_share(total, free),
        report.1 <= 10_000,
{
    let mut output: Vec<String> = Vec::new();
    let mut used_hundredths: u32 = 0;
    match total {
        Ok(total_space) => {
            match free {
                Ok(free_space) => {
                    let used_space = total_space - free_space;
                    proof {
                        lemma_share_bound(used_space as nat, total_space as nat);
                    }
                    let share = round_half_even_div(
                        used_space as u128 * 10_000,
                        total_space as u128,
                    );
                    used_hundredths = share as u32;
                    let heading = "Drive Usage:".to_owned();
                    let mut total_line = "Total Space: ".to_owned();
                    let total_text = human_readable_size(total_space);
                    total_line.append(total_text.as_str());
                    let used_line = share_line_for("Used Space: ", used_space, share as u64);
                    let free_line = share_line_for(
                        "Free Space: ",
                        free_space,
                        10_000 - share as u64,
                    );
                    output.push(heading);
                    output.push(total_line);
                    output.push(used_line);
                    output.push(free_line);
                },
                Err(_) => {
                    output.push("Could not retrieve free space information.".to_owned());
                },
            }
        },
        Err(_) => {
            output.push("Could not retrieve total space information.".to_owned());
        },
    }
    assert(lines_view(output@) =~= usage_lines(total, free));
    (output, used_hundredths)
}

/// The lines of the report on the stand-in figures, and the used share that
/// goes with them.
pub open spec fn stand_in_lines() -> Seq<Seq<char>> {
    usage_lines(Ok(STAND_IN_TOTAL), Ok(STAND_IN_FREE))
}

/// Reports on the drive that holds `path`: the lines to show and the used
/// share in hundredths of a percent. The path is not looked at: the report is
/// that of the stand-in figures.
pub fn drive_usage(path: &str) -> (report: (Vec<String>, u32))
    ensures
        lines_view(report.0@) == stand_in_lines(),
        report.1 == used_share(Ok(STAND_IN_TOTAL), Ok(STAND_IN_FREE)),
        report.1 <= 10_000,
{
    let total = get_total_disk_space();
    let free = get_free_disk_space();
    usage_report(total, free)
}

} // verus!
