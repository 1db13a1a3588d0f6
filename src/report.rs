use vstd::prelude::*;
use vstd::string::StringExecFns;

verus! {

/// The eight operation tallies, as read at one moment.
#[derive(Debug, Clone, Copy, PartialEq, Eq, Structural)]
pub struct Tallies {
    pub inserts_successful: u32,
    pub inserts_failed: u32,
    pub updates_successful: u32,
    pub updates_failed: u32,
    pub deletes_successful: u32,
    pub deletes_failed: u32,
    pub gets_successful: u32,
    pub gets_failed: u32,
}

/// The character of a decimal digit.
pub open spec fn digit_char(d: nat) -> char {
    if d == 0 { '0' }
    else if d == 1 { '1' }
    else if d == 2 { '2' }
    else if d == 3 { '3' }
    else if d == 4 { '4' }
    else if d == 5 { '5' }
    else if d == 6 { '6' }
    else if d == 7 { '7' }
    else if d == 8 { '8' }
    else { '9' }
}

/// The decimal digits of `n`, most significant first, without leading zeros.
pub open spec fn decimal(n: nat) -> Seq<char>
    decreases n,
{
    if n < 10 {
        seq![digit_char(n)]
    } else {
        decimal(n / 10) + seq![digit_char(n % 10)]
    }
}

/// One report line for an operation kind.
pub open spec fn op_line(label: Seq<char>, ok: u32, failed: u32) -> Seq<char> {
    label + " operations: "@ + decimal(ok as nat) + " successful / "@ + decimal(failed as nat)
        + " unsuccessful\n"@
}

/// The statistics report: the record count, then a line per operation kind.
pub open spec fn report_text(records: nat, t: Tallies) -> Seq<char> {
    "\nThe number of records in database: "@ + decimal(records) + "\n"@
        + op_line("INSERT"@, t.inserts_successful, t.inserts_failed)
        + op_line("UPDATE"@, t.updates_successful, t.updates_failed)
        + op_line("DELETE"@, t.deletes_successful, t.deletes_failed)
        + op_line("GET"@, t.gets_successful, t.gets_failed)
}

fn digit_str(d: u64) -> (r: &'static str)
    requires
        d < 10,
    ensures
        r@ == seq![digit_char(d as nat)],
{
    proof {
        reveal_strlit("0");
        reveal_strlit("1");
        reveal_strlit("2");
        reveal_strlit("3");
        reveal_strlit("4");
        reveal_strlit("5");
        reveal_strlit("6");
        reveal_strlit("7");
        reveal_strlit("8");
        reveal_strlit("9");
    }
    let r = if d == 0 { "0" }
    else if d == 1 { "1" }
    else if d == 2 { "2" }
    else if d == 3 { "3" }
    else if d == 4 { "4" }
    else if d == 5 { "5" }
    else if d == 6 { "6" }
    else if d == 7 { "7" }
    else if d == 8 { "8" }
    else { "9" };
    assert(r@ =~= seq![digit_char(d as nat)]);
    r
}

/// Appends the decimal digits of `n`.
pub fn push_decimal(text: &mut String, n: u64)
    ensures
        final(text)@ == old(text)@ + decimal(n as nat),
    decreases n,
{
    if n >= 10 {
        push_decimal(text, n / 10);
    }
    text.append(digit_str(n % 10));
    assert(final(text)@ =~= old(text)@ + decimal(n as nat));
}

fn push_op_line(text: &mut String, label: &str, ok: u32, failed: u32)
    ensures
        final(text)@ == old(text)@ + op_line(label@, ok, failed),
{
    text.append(label);
    text.append(" operations: ");
    push_decimal(text, ok as u64);
    text.append(" successful / ");
    push_decimal(text, failed as u64);
    text.append(" unsuccessful\n");
    assert(final(text)@ =~= old(text)@ + op_line(label@, ok, failed));
}

/// The statistics report for a record count and the operation tallies.
pub fn render_statistics(records: usize, t: &Tallies) -> (r: String)
    ensures
        r@ == report_text(records as nat, *t),
{
    let mut text = String::new();
    text.append("\nThe number of records in database: ");
    push_decimal(&mut text, records as u64);
    text.append("\n");
    push_op_line(&mut text, "INSERT", t.inserts_successful, t.inserts_failed);
    push_op_line(&mut text, "UPDATE", t.updates_successful, t.updates_failed);
    push_op_line(&mut text, "DELETE", t.deletes_successful, t.deletes_failed);
    push_op_line(&mut text, "GET", t.gets_successful, t.gets_failed);
    assert(text@ =~= report_text(records as nat, *t));
    text
}

} // verus!
