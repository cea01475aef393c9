//! Snapshot naming: the timestamped filename, the output path under the
//! configured directory, and the upload key under the project prefix.
//! All three are character-exact string constructions.

use vstd::prelude::*;
use vstd::string::StrSliceExecFns;
use vstd::string::StringExecFns;
use crate::clock::Timestamp;

verus! {

/// The decimal digit character for `d`.
pub open spec fn spec_digit(d: int) -> char {
    if d == 0 {
        '0'
    } else if d == 1 {
        '1'
    } else if d == 2 {
        '2'
    } else if d == 3 {
        '3'
    } else if d == 4 {
        '4'
    } else if d == 5 {
        '5'
    } else if d == 6 {
        '6'
    } else if d == 7 {
        '7'
    } else if d == 8 {
        '8'
    } else {
        '9'
    }
}

/// `n` in decimal, zero-padded to two digits.
pub open spec fn spec_pad2(n: int) -> Seq<char> {
    seq![spec_digit(n / 10), spec_digit(n % 10)]
}

/// `n` in decimal, zero-padded to four digits.
pub open spec fn spec_pad4(n: int) -> Seq<char> {
    spec_pad2(n / 100) + spec_pad2(n % 100)
}

/// The snapshot filename: `YYYYMMDD_HHMM.jpg`, with `{prefix}-` in front
/// when the prefix is non-empty.  The seconds of the timestamp do not
/// appear: readings within one minute share a name.
pub open spec fn spec_filename(prefix: Seq<char>, t: Timestamp) -> Seq<char> {
    (if prefix.len() == 0 {
        Seq::<char>::empty()
    } else {
        prefix + seq!['-']
    }) + spec_pad4(t.year as int) + spec_pad2(t.month as int) + spec_pad2(t.day as int)
        + seq!['_'] + spec_pad2(t.hour as int) + spec_pad2(t.minute as int) + ".jpg"@
}

/// The local output path: the filename under the output directory,
/// joined with `/` unless the directory is empty or already ends in one.
pub open spec fn spec_output_path(dir: Seq<char>, filename: Seq<char>) -> Seq<char> {
    if dir.len() == 0 {
        filename
    } else if dir.last() == '/' {
        dir + filename
    } else {
        dir + seq!['/'] + filename
    }
}

/// The remote object key: `{project_prefix}pictures/{filename}`.
pub open spec fn spec_upload_key(project_prefix: Seq<char>, filename: Seq<char>) -> Seq<char> {
    project_prefix + "pictures/"@ + filename
}

fn digit_char(d: u32) -> (c: char)
    requires
        d < 10,
    ensures
        c == spec_digit(d as int),
{
    if d == 0 {
        '0'
    } else if d == 1 {
        '1'
    } else if d == 2 {
        '2'
    } else if d == 3 {
        '3'
    } else if d == 4 {
        '4'
    } else if d == 5 {
        '5'
    } else if d == 6 {
        '6'
    } else if d == 7 {
        '7'
    } else if d == 8 {
        '8'
    } else {
        '9'
    }
}

/// Relies on String::push: appends exactly the one character.
#[verifier::external_body]
fn push_char(s: &mut String, c: char)
    ensures
        final(s)@ == old(s)@ + seq![c],
{
    s.push(c);
}

fn push_pad2(s: &mut String, n: u32)
    requires
        n < 100,
    ensures
        final(s)@ == old(s)@ + spec_pad2(n as int),
{
    push_char(s, digit_char(n / 10));
    push_char(s, digit_char(n % 10));
    proof {
        assert(s@ =~= old(s)@ + spec_pad2(n as int));
    }
}

fn push_pad4(s: &mut String, n: u32)
    requires
        n < 10000,
    ensures
        final(s)@ == old(s)@ + spec_pad4(n as int),
{
    push_pad2(s, n / 100);
    push_pad2(s, n % 100);
    proof {
        assert(s@ =~= old(s)@ + spec_pad4(n as int));
    }
}

/// Formats the snapshot filename for a timestamp, at minute granularity,
/// with the optional prefix in front.
pub fn build_filename(prefix: &str, t: &Timestamp) -> (r: String)
    requires
        t.wf(),
    ensures
        r@ == spec_filename(prefix@, *t),
{
    let mut s = String::new();
    if !prefix.is_empty() {
        s.append(prefix);
        push_char(&mut s, '-');
    }
    push_pad4(&mut s, t.year);
    push_pad2(&mut s, t.month);
    push_pad2(&mut s, t.day);
    push_char(&mut s, '_');
    push_pad2(&mut s, t.hour);
    push_pad2(&mut s, t.minute);
    s.append(".jpg");
    proof {
        assert(s@ =~= spec_filename(prefix@, *t));
    }
    s
}

/// Joins the output directory and the filename into the local path.
pub fn build_output_path(dir: &str, filename: &str) -> (r: String)
    ensures
        r@ == spec_output_path(dir@, filename@),
{
    let mut s = String::new();
    if dir.is_empty() {
        s.append(filename);
    } else {
        s.append(dir);
        let n = dir.unicode_len();
        if dir.get_char(n - 1) != '/' {
            push_char(&mut s, '/');
        }
        s.append(filename);
    }
    proof {
        assert(s@ =~= spec_output_path(dir@, filename@));
    }
    s
}

/// Builds the remote key the snapshot is uploaded under.
pub fn build_upload_key(project_prefix: &str, filename: &str) -> (r: String)
    ensures
        r@ == spec_upload_key(project_prefix@, filename@),
{
    let mut s = String::new();
    s.append(project_prefix);
    s.append("pictures/");
    s.append(filename);
    proof {
        assert(s@ =~= spec_upload_key(project_prefix@, filename@));
    }
    s
}

/// Filename construction is idempotent within a clock minute: two
/// readings that agree down to the minute yield, under the same prefix,
/// the same filename; the seconds are discarded, and a collision within
/// one minute is accepted, not an error.
pub proof fn lemma_filename_minute_granularity(prefix: Seq<char>, t1: Timestamp, t2: Timestamp)
    requires
        t1.year == t2.year,
        t1.month == t2.month,
        t1.day == t2.day,
        t1.hour == t2.hour,
        t1.minute == t2.minute,
    ensures
        spec_filename(prefix, t1) == spec_filename(prefix, t2),
{
}

} // verus!
