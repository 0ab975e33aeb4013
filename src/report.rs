use vstd::prelude::*;
use crate::filter::texts;

verus! {

/// The text of one decimal digit.
pub open spec fn digit_text(d: nat) -> Seq<char> {
    if d == 0 {
        "0"@
    } else if d == 1 {
        "1"@
    } else if d == 2 {
        "2"@
    } else if d == 3 {
        "3"@
    } else if d == 4 {
        "4"@
    } else if d == 5 {
        "5"@
    } else if d == 6 {
        "6"@
    } else if d == 7 {
        "7"@
    } else if d == 8 {
        "8"@
    } else {
        "9"@
    }
}

/// `n` written in decimal, without leading zeros.
pub open spec fn decimal(n: nat) -> Seq<char>
    decreases n,
{
    if n < 10 {
        digit_text(n)
    } else {
        decimal(n / 10) + digit_text(n % 10)
    }
}

/// The items written one after another with `sep` between each two.
pub open spec fn joined(items: Seq<Seq<char>>, sep: Seq<char>) -> Seq<char>
    decreases items.len(),
{
    if items.len() == 0 {
        Seq::empty()
    } else if items.len() == 1 {
        items[0]
    } else {
        joined(items.drop_last(), sep) + sep + items.last()
    }
}

/// One line per tally: `  - name: count`.
pub open spec fn tally_lines(tallies: Seq<(String, usize)>) -> Seq<char>
    decreases tallies.len(),
{
    if tallies.len() == 0 {
        Seq::empty()
    } else {
        let t = tallies.last();
        tally_lines(tallies.drop_last()) + "  - "@ + t.0@ + ": "@ + decimal(t.1 as nat) + "\n"@
    }
}

/// The readable digest of a scan.
pub open spec fn digest(
    timestamp: Seq<char>,
    platform: Seq<char>,
    scan_dirs: Seq<Seq<char>>,
    file_count: nat,
    tallies: Seq<(String, usize)>,
    json_path: Seq<char>,
) -> Seq<char> {
    "File Scanner Summary\n"@ + "==================\n\n"@ + "Scan completed: "@ + timestamp
        + "\n"@ + "Platform: "@ + platform + "\n"@ + "Directories scanned: "@ + joined(
        scan_dirs,
        ", "@,
    ) + "\n"@ + "Total files found: "@ + decimal(file_count) + "\n\n"@ + "Files by category:\n"@
        + tally_lines(tallies) + "\nFull results saved to: "@ + json_path + "\n"@
}

fn digit_str(d: usize) -> (r: &'static str)
    requires
        d < 10,
    ensures
        r@ == digit_text(d as nat),
{
    match d {
        0 => "0",
        1 => "1",
        2 => "2",
        3 => "3",
        4 => "4",
        5 => "5",
        6 => "6",
        7 => "7",
        8 => "8",
        _ => "9",
    }
}

/// `n` written in decimal.
pub fn decimal_text(n: usize) -> (r: String)
    ensures
        r@ == decimal(n as nat),
    decreases n,
{
    if n < 10 {
        String::from_str(digit_str(n))
    } else {
        let mut s = decimal_text(n / 10);
        s.append(digit_str(n % 10));
        s
    }
}

/// The items written one after another with `sep` between each two.
pub fn join(items: &[String], sep: &str) -> (r: String)
    ensures
        r@ == joined(texts(items@), sep@),
{
    let mut out = String::new();
    let mut k: usize = 0;
    while k < items.len()
        invariant
            0 <= k <= items@.len(),
            out@ == joined(texts(items@).subrange(0, k as int), sep@),
        decreases items@.len() - k,
    {
        let ghost prefix = texts(items@).subrange(0, k + 1);
        assert(prefix.drop_last() =~= texts(items@).subrange(0, k as int));
        if k > 0 {
            out.append(sep);
        } else {
            assert(texts(items@).subrange(0, 0) =~= Seq::<Seq<char>>::empty());
        }
        out.append(items[k].as_str());
        k = k + 1;
    }
    assert(texts(items@).subrange(0, k as int) =~= texts(items@));
    out
}

/// The readable digest of a scan: when it finished, on which platform, the
/// roots, the count, one line per tally, and where the full results went.
pub fn summary_text(
    timestamp: &str,
    platform: &str,
    scan_dirs: &[String],
    file_count: usize,
    tallies: &[(String, usize)],
    json_path: &str,
) -> (r: String)
    ensures
        r@ == digest(timestamp@, platform@, texts(scan_dirs@), file_count as nat, tallies@, json_path@),
{
    let mut s = String::from_str("File Scanner Summary\n");
    s.append("==================\n\n");
    s.append("Scan completed: ");
    s.append(timestamp);
    s.append("\n");
    s.append("Platform: ");
    s.append(platform);
    s.append("\n");
    s.append("Directories scanned: ");
    let dirs = join(scan_dirs, ", ");
    s.append(dirs.as_str());
    s.append("\n");
    s.append("Total files found: ");
    let count = decimal_text(file_count);
    s.append(count.as_str());
    s.append("\n\n");
    s.append("Files by category:\n");
    let ghost head = s@;
    let mut k: usize = 0;
    while k < tallies.len()
        invariant
            0 <= k <= tallies@.len(),
            s@ == head + tally_lines(tallies@.subrange(0, k as int)),
        decreases tallies@.len() - k,
    {
        let ghost prefix = tallies@.subrange(0, k + 1);
        assert(prefix.drop_last() =~= tallies@.subrange(0, k as int));
        s.append("  - ");
        s.append(tallies[k].0.as_str());
        s.append(": ");
        let n = decimal_text(tallies[k].1);
        s.append(n.as_str());
        s.append("\n");
        k = k + 1;
        assert(s@ =~= head + tally_lines(tallies@.subrange(0, k as int)));
    }
    assert(tallies@.subrange(0, k as int) =~= tallies@);
    s.append("\nFull results saved to: ");
    s.append(json_path);
    s.append("\n");
    s
}

} // verus!
