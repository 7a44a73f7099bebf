use vstd::prelude::*;

use vstd::string::StringExecFns;

verus! {

/// The strftime pattern of a snapshot's timestamp: minute granularity, and
/// lexicographic order is time order.
pub open spec fn stamp_pattern() -> Seq<char> {
    "%Y-%m-%d-%H-%M"@
}

/// `s` is a timestamp `YYYY-MM-DD-HH-mm`: sixteen characters, `'-'` at
/// positions 4, 7, 10 and 13 and an ASCII digit everywhere else.
pub open spec fn is_minute_stamp(s: Seq<char>) -> bool {
    &&& s.len() == 16
    &&& forall|i: int|
        0 <= i < 16 ==> if i == 4 || i == 7 || i == 10 || i == 13 {
            #[trigger] s[i] == '-'
        } else {
            '0' <= s[i] <= '9'
        }
}

/// `s` has the shape of a timestamp written with the stamp pattern: a
/// minute stamp, or, for a year outside 0..=9999, a longer one that starts
/// with the year's sign.
pub open spec fn is_chrono_stamp(s: Seq<char>) -> bool {
    is_minute_stamp(s) || (s.len() > 16 && (s[0] == '+' || s[0] == '-'))
}

/// The name of the snapshot file taken at timestamp `stamp`.
pub open spec fn file_name_of(stamp: Seq<char>) -> Seq<char> {
    stamp + ".json"@
}

/// Relies on chrono's `Local::now` and `DateTime::format`: the local time at
/// the call, written with `pattern`. Nothing is known of the time itself;
/// chrono writes the year as four digits within 0..=9999 and signed
/// otherwise, and month, day, hour and minute as two zero-padded digits.
#[verifier::external_body]
fn local_now_formatted(pattern: &str) -> (r: String)
    requires
        pattern@ == stamp_pattern(),
    ensures
        is_chrono_stamp(r@),
{
    chrono::Local::now().format(pattern).to_string()
}

/// The file name of a snapshot taken at `stamp`. Two snapshots with one
/// stamp share one name, so the later write replaces the earlier.
pub fn backup_file_name(stamp: &str) -> (r: String)
    ensures
        r@ == file_name_of(stamp@),
{
    let mut name = String::from_str(stamp);
    name.append(".json");
    name
}

/// The file name of a snapshot taken now, at minute granularity in local
/// time.
pub fn new_backup_file_name() -> (r: String)
    ensures
        exists|stamp: Seq<char>| r@ == file_name_of(stamp) && is_chrono_stamp(stamp),
{
    let stamp = local_now_formatted("%Y-%m-%d-%H-%M");
    backup_file_name(stamp.as_str())
}

} // verus!
