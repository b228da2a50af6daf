use vstd::prelude::*;

verus! {

/// The latest second that snapshot names can carry: 9999-12-31 23:59:59 UTC.
pub const LATEST_STAMP_SECS: u64 = 253402300799;

/// The `YYYY-MM-DD_HH-MM-SS` UTC rendering of `secs` Unix epoch seconds.
pub uninterp spec fn utc_stamp(secs: u64) -> Seq<char>;

/// Relies on chrono's `From<SystemTime> for DateTime<Utc>` and
/// `DateTime::format` with `%Y-%m-%d_%H-%M-%S`: the text depends on the
/// seconds alone. The conversion unwraps chrono's range check, so the
/// seconds are bounded to years chrono represents.
#[verifier::external_body]
fn timestamp_to_human_readable(timestamp: u64) -> (r: String)
    requires
        timestamp <= LATEST_STAMP_SECS,
    ensures
        r@ == utc_stamp(timestamp),
{
    let dt = std::time::UNIX_EPOCH + std::time::Duration::from_secs(timestamp);
    let datetime = chrono::DateTime::<chrono::Utc>::from(dt);
    datetime.format("%Y-%m-%d_%H-%M-%S").to_string()
}

pub open spec fn digit_char(d: nat) -> char {
    seq!['0', '1', '2', '3', '4', '5', '6', '7', '8', '9'][d as int]
}

/// The decimal digits of `n`, most significant first, without leading zeros.
pub open spec fn decimal(n: nat) -> Seq<char>
    decreases n,
{
    if n < 10 {
        seq![digit_char(n)]
    } else {
        decimal(n / 10).push(digit_char(n % 10))
    }
}

/// What tells apart the snapshots taken within one second: nothing for the
/// first, `_<repeat>` for the later ones.
pub open spec fn repeat_tag(repeat: nat) -> Seq<char> {
    if repeat == 0 {
        Seq::empty()
    } else {
        seq!['_'] + decimal(repeat)
    }
}

/// The file name of a snapshot: `<stamp>[_<repeat>]_monitors.json`.
pub open spec fn snapshot_name(stamp: Seq<char>, repeat: nat) -> Seq<char> {
    stamp + repeat_tag(repeat) + "_monitors.json"@
}

proof fn lemma_decimal_shape(n: nat)
    ensures
        decimal(n).len() >= 1,
        n >= 10 ==> decimal(n).len() >= 2,
        decimal(n).last() == digit_char(n % 10),
    decreases n,
{
    if n >= 10 {
        lemma_decimal_shape(n / 10);
    }
}

/// Different numbers have different decimal digits.
pub proof fn lemma_decimal_injective(a: nat, b: nat)
    requires
        decimal(a) == decimal(b),
    ensures
        a == b,
    decreases a,
{
    lemma_decimal_shape(a);
    lemma_decimal_shape(b);
    let digits = seq!['0', '1', '2', '3', '4', '5', '6', '7', '8', '9'];
    assert(digit_char(a % 10) == digit_char(b % 10));
    assert(a % 10 == b % 10) by {
        assert(digits[(a % 10) as int] == digits[(b % 10) as int]);
    }
    if a >= 10 && b >= 10 {
        assert(decimal(a / 10) =~= decimal(a).drop_last());
        assert(decimal(b / 10) =~= decimal(b).drop_last());
        lemma_decimal_injective(a / 10, b / 10);
    }
}

/// Two snapshots taken in the same second under different repeat counts get
/// different file names, so neither overwrites the other.
pub proof fn lemma_same_second_names_differ(stamp: Seq<char>, r1: nat, r2: nat)
    requires
        r1 != r2,
    ensures
        snapshot_name(stamp, r1) != snapshot_name(stamp, r2),
{
    let suffix = "_monitors.json"@;
    let n1 = snapshot_name(stamp, r1);
    let n2 = snapshot_name(stamp, r2);
    if n1 == n2 {
        assert(n1.subrange(stamp.len() as int, n1.len() - suffix.len()) =~= repeat_tag(r1));
        assert(n2.subrange(stamp.len() as int, n2.len() - suffix.len()) =~= repeat_tag(r2));
        lemma_decimal_shape(r1);
        lemma_decimal_shape(r2);
        if r1 != 0 && r2 != 0 {
            assert(decimal(r1) =~= repeat_tag(r1).drop_first());
            assert(decimal(r2) =~= repeat_tag(r2).drop_first());
            lemma_decimal_injective(r1, r2);
        }
    }
}

fn digit_str(d: u64) -> (r: &'static str)
    requires
        d < 10,
    ensures
        r@ == seq![digit_char(d as nat)],
{
    proof {
        reveal_strlit("0");
        reveal_strlit("1");
        reveal_strlit("2");
        reveal_strlit("3");
        reveal_strlit("4");
        reveal_strlit("5");
        reveal_strlit("6");
        reveal_strlit("7");
        reveal_strlit("8");
        reveal_strlit("9");
    }
    let r = if d == 0 {
        "0"
    } else if d == 1 {
        "1"
    } else if d == 2 {
        "2"
    } else if d == 3 {
        "3"
    } else if d == 4 {
        "4"
    } else if d == 5 {
        "5"
    } else if d == 6 {
        "6"
    } else if d == 7 {
        "7"
    } else if d == 8 {
        "8"
    } else {
        "9"
    };
    assert(r@ =~= seq![digit_char(d as nat)]);
    r
}

/// Appends the decimal digits of `n` to `out`.
pub fn push_decimal(out: &mut String, n: u64)
    ensures
        final(out)@ == old(out)@ + decimal(n as nat),
    decreases n,
{
    if n >= 10 {
        push_decimal(out, n / 10);
    }
    out.append(digit_str(n % 10));
    proof {
        if n >= 10 {
            assert(final(out)@ =~= old(out)@ + decimal(n as nat));
        } else {
            assert(final(out)@ =~= old(out)@ + decimal(n as nat));
        }
    }
}

/// Builds the snapshot file name from an already rendered stamp.
pub fn snapshot_name_from_stamp(stamp: &str, repeat: u64) -> (r: String)
    ensures
        r@ == snapshot_name(stamp@, repeat as nat),
{
    let mut r = String::from_str(stamp);
    if repeat > 0 {
        r.append("_");
        push_decimal(&mut r, repeat);
    }
    r.append("_monitors.json");
    proof {
        reveal_strlit("_");
        assert(r@ =~= snapshot_name(stamp@, repeat as nat));
    }
    r
}

/// The file name of the `repeat`-th extra snapshot taken in second
/// `timestamp` (0 for the first one in that second).
pub fn snapshot_file_name(timestamp: u64, repeat: u64) -> (r: String)
    requires
        timestamp <= LATEST_STAMP_SECS,
    ensures
        r@ == snapshot_name(utc_stamp(timestamp), repeat as nat),
{
    let stamp = timestamp_to_human_readable(timestamp);
    snapshot_name_from_stamp(stamp.as_str(), repeat)
}

} // verus!
