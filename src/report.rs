//! What the monthly export needs from the ledger: the rows it lists, and the
//! name and header of the file it produces.
use vstd::prelude::*;
use vstd::string::{StringExecFns, StringSliceAdditionalSpecFns};
use crate::score::ScoreDto;

verus! {

/// The month an export covers.
#[derive(Clone, Copy, Debug, PartialEq, Eq, Structural)]
pub struct ExportExcel {
    pub year: i32,
    pub month: i32,
}

/// An entry appears in the export when settlement paid something for it.
pub open spec fn is_paid(e: ScoreDto) -> bool {
    e.exchanged != 0
}

/// The paid entries of `s`, in order.
pub open spec fn paid_entries(s: Seq<ScoreDto>) -> Seq<ScoreDto>
    decreases s.len(),
{
    if s.len() == 0 {
        s
    } else if is_paid(s.last()) {
        paid_entries(s.drop_last()).push(s.last())
    } else {
        paid_entries(s.drop_last())
    }
}

/// The entries of a month that the export lists: those with a payout, in
/// their original order.
pub fn exported_scores(records: &Vec<ScoreDto>) -> (r: Vec<ScoreDto>)
    ensures
        r@ == paid_entries(records@),
{
    let mut out: Vec<ScoreDto> = Vec::new();
    let mut i: usize = 0;
    while i < records.len()
        invariant
            i <= records@.len(),
            out@ == paid_entries(records@.subrange(0, i as int)),
        decreases records@.len() - i,
    {
        let e = &records[i];
        proof {
            let s = records@.subrange(0, i as int + 1);
            assert(s.drop_last() =~= records@.subrange(0, i as int));
            assert(s.last() == records@[i as int]);
        }
        if e.exchanged != 0 {
            out.push(e.duplicate());
        }
        i = i + 1;
    }
    assert(records@.subrange(0, records@.len() as int) =~= records@);
    out
}

/// The decimal digits of `n`, most significant first.
pub open spec fn digits(n: nat) -> Seq<char>
    decreases n,
{
    if n < 10 {
        seq![hex_digit(n)]
    } else {
        digits(n / 10).push(hex_digit(n % 10))
    }
}

/// How `n` is written in decimal: a minus sign before a negative number.
pub open spec fn decimal_text(n: int) -> Seq<char> {
    if n < 0 {
        seq!['-'] + digits((-n) as nat)
    } else {
        digits(n as nat)
    }
}

/// Relies on `i32`'s `Display` in std (through `to_string`): the number in
/// decimal, with a leading `-` when negative.
#[verifier::external_body]
fn decimal(n: i32) -> (r: String)
    ensures
        r@ == decimal_text(n as int),
{
    n.to_string()
}

/// Name of the export file for a month:
/// `开源实习-人员劳务费统计表-<year>年<month>月.xlsx`.
pub fn export_file_name(year: i32, month: i32) -> (r: String)
    ensures
        r@ == "开源实习-人员劳务费统计表-"@ + decimal_text(year as int) + "年"@ + decimal_text(
            month as int,
        ) + "月.xlsx"@,
{
    let mut name = String::from_str("开源实习-人员劳务费统计表-");
    name.append(decimal(year).as_str());
    name.append("年");
    name.append(decimal(month).as_str());
    name.append("月.xlsx");
    name
}

/// The digit or letter that stands for `d` in upper-case hexadecimal.
pub open spec fn hex_digit(d: nat) -> char {
    seq!['0', '1', '2', '3', '4', '5', '6', '7', '8', '9', 'A', 'B', 'C', 'D', 'E', 'F'][d as int]
}

/// An ASCII letter or digit, the bytes that percent-encoding keeps.
pub open spec fn is_ascii_alphanumeric(b: u8) -> bool {
    (48 <= b <= 57) || (65 <= b <= 90) || (97 <= b <= 122)
}

/// One byte percent-encoded: kept when it is an ASCII letter or digit, else
/// `%` and its two upper-case hex digits.
pub open spec fn encode_byte(b: u8) -> Seq<char> {
    if is_ascii_alphanumeric(b) {
        seq![b as char]
    } else {
        seq!['%', hex_digit((b / 16) as nat), hex_digit((b % 16) as nat)]
    }
}

/// Bytes percent-encoded one after the other.
pub open spec fn percent_encoded(bytes: Seq<u8>) -> Seq<char>
    decreases bytes.len(),
{
    if bytes.len() == 0 {
        Seq::empty()
    } else {
        percent_encoded(bytes.drop_last()) + encode_byte(bytes.last())
    }
}

/// Relies on percent_encoding's `percent_encode` with `NON_ALPHANUMERIC`:
/// that set holds every ASCII byte but letters and digits, and a byte beyond
/// ASCII is always encoded, each as `%` and two upper-case hex digits.
#[verifier::external_body]
fn percent_encode_non_alphanumeric(bytes: &[u8]) -> (r: String)
    ensures
        r@ == percent_encoded(bytes@),
{
    percent_encoding::percent_encode(bytes, percent_encoding::NON_ALPHANUMERIC).to_string()
}

/// The `Content-Disposition` header that offers a download under
/// `file_name`, given as UTF-8 and percent-encoded.
pub fn content_disposition(file_name: &str) -> (r: String)
    ensures
        r@ == "attachment; filename*=UTF-8''"@ + percent_encoded(file_name.spec_bytes()),
{
    let encoded = percent_encode_non_alphanumeric(file_name.as_bytes());
    let mut header = String::from_str("attachment; filename*=UTF-8''");
    header.append(encoded.as_str());
    header
}

} // verus!
