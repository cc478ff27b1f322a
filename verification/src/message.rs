//! What the tool prints.
use vstd::prelude::*;
use vstd::string::StringExecFns;

verus! {

/// The usage text, without a final line break.
pub open spec fn usage_chars() -> Seq<char> {
    "volume.exe {out|in} {inc|dec|0.NN}\n\t\tout = change default output device\n\t\tin = change default input device\n\t\tinc = increment by 0.01\n\t\tdec = decrement by 0.01\n\t\t0.NN = value from 0.00 to 1.00 as 0% to 100%"@
}

/// The complaint about a scalar out of range, without a final line break.
pub open spec fn range_chars() -> Seq<char> {
    "failed: value must be between 0.0 and 1.0"@
}

/// The line that reports an endpoint's current volume: its name, a tab, the
/// percentage and a percent sign.
pub open spec fn report_chars(name: Seq<char>, percent: Seq<char>) -> Seq<char> {
    name + seq!['\t'] + percent + seq!['%']
}

/// The line that confirms a change: the endpoint's name, an arrow between two
/// spaces, the new percentage and a percent sign.
pub open spec fn change_chars(name: Seq<char>, percent: Seq<char>) -> Seq<char> {
    name + seq![' ', '\u{2192}', ' '] + percent + seq!['%']
}

/// The text that explains the command line.
pub fn usage_text() -> (text: &'static str)
    ensures
        text@ == usage_chars(),
{
    "volume.exe {out|in} {inc|dec|0.NN}\n\t\tout = change default output device\n\t\tin = change default input device\n\t\tinc = increment by 0.01\n\t\tdec = decrement by 0.01\n\t\t0.NN = value from 0.00 to 1.00 as 0% to 100%"
}

/// The text that refuses a scalar out of range.
pub fn range_text() -> (text: &'static str)
    ensures
        text@ == range_chars(),
{
    "failed: value must be between 0.0 and 1.0"
}

/// Lays out the report of an endpoint's current volume. `percent` holds the
/// digits of the percentage.
pub fn report_line(name: &str, percent: &str) -> (line: String)
    ensures
        line@ == report_chars(name@, percent@),
{
    proof {
        reveal_strlit("\t");
        reveal_strlit("%");
    }
    let mut line = String::from_str(name);
    line.append("\t");
    line.append(percent);
    line.append("%");
    assert("\t"@ =~= seq!['\t']);
    assert("%"@ =~= seq!['%']);
    line
}

/// Lays out the confirmation of a change. `percent` holds the digits of the
/// new percentage.
pub fn change_line(name: &str, percent: &str) -> (line: String)
    ensures
        line@ == change_chars(name@, percent@),
{
    proof {
        reveal_strlit(" \u{2192} ");
        reveal_strlit("%");
    }
    let mut line = String::from_str(name);
    line.append(" \u{2192} ");
    line.append(percent);
    line.append("%");
    assert(" \u{2192} "@ =~= seq![' ', '\u{2192}', ' ']);
    assert("%"@ =~= seq!['%']);
    line
}

} // verus!
