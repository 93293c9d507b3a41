use vstd::prelude::*;
use vstd::string::*;

verus! {

/// Files at or above this size are not snapshotted: the overwrite proceeds
/// without undo coverage.
pub const MAX_FILE_SIZE_BYTES: u64 = 100 * 1024 * 1024;

/// Whether a snapshot is taken of a file, given whether it exists and its size.
pub fn should_snapshot(file_exists: bool, size: u64) -> (r: bool)
    ensures
        r == (file_exists && size < MAX_FILE_SIZE_BYTES),
{
    file_exists && size < MAX_FILE_SIZE_BYTES
}

/// The character of a decimal digit.
pub open spec fn digit_char(d: nat) -> char {
    if d == 0 {
        '0'
    } else if d == 1 {
        '1'
    } else if d == 2 {
        '2'
    } else if d == 3 {
        '3'
    } else if d == 4 {
        '4'
    } else if d == 5 {
        '5'
    } else if d == 6 {
        '6'
    } else if d == 7 {
        '7'
    } else if d == 8 {
        '8'
    } else {
        '9'
    }
}

/// The decimal notation of `n`, without leading zeros.
pub open spec fn decimal_of(n: nat) -> Seq<char>
    decreases n,
{
    if n < 10 {
        seq![digit_char(n)]
    } else {
        decimal_of(n / 10).push(digit_char(n % 10))
    }
}

fn digit_str(d: u64) -> (r: &'static str)
    requires
        d < 10,
    ensures
        r@ == seq![digit_char(d as nat)],
{
    proof {
        reveal_strlit("0");
        reveal_strlit("1");
        reveal_strlit("2");
        reveal_strlit("3");
        reveal_strlit("4");
        reveal_strlit("5");
        reveal_strlit("6");
        reveal_strlit("7");
        reveal_strlit("8");
        reveal_strlit("9");
    }
    if d == 0 {
        "0"
    } else if d == 1 {
        "1"
    } else if d == 2 {
        "2"
    } else if d == 3 {
        "3"
    } else if d == 4 {
        "4"
    } else if d == 5 {
        "5"
    } else if d == 6 {
        "6"
    } else if d == 7 {
        "7"
    } else if d == 8 {
        "8"
    } else {
        assert(seq!['9'] =~= "9"@);
        "9"
    }
}

/// The decimal notation of `n`.
pub fn decimal(n: u64) -> (r: String)
    ensures
        r@ == decimal_of(n as nat),
    decreases n,
{
    if n < 10 {
        String::from_str(digit_str(n))
    } else {
        let mut s = decimal(n / 10);
        s.append(digit_str(n % 10));
        s
    }
}

/// Where the snapshot of `file_name`, taken for `conversation_id` at
/// `timestamp`, is stored, relative to the working directory.
pub open spec fn backup_path_of(conversation_id: Seq<char>, timestamp: u64, file_name: Seq<char>) -> Seq<char> {
    ".kuse/backups/"@ + conversation_id + "/"@ + decimal_of(timestamp as nat) + "/"@ + file_name
}

/// The directory that holds the snapshots taken for `conversation_id` at
/// `timestamp`, relative to the working directory.
pub open spec fn backup_dir_of(conversation_id: Seq<char>, timestamp: u64) -> Seq<char> {
    ".kuse/backups/"@ + conversation_id + "/"@ + decimal_of(timestamp as nat)
}

/// Where `file_name`, deleted at `timestamp`, is moved to, relative to the
/// working directory.
pub open spec fn trash_path_of(timestamp: u64, file_name: Seq<char>) -> Seq<char> {
    ".kuse/trash/"@ + decimal_of(timestamp as nat) + "_"@ + file_name
}

/// The directory of snapshots taken for `conversation_id` at `timestamp`.
pub fn backup_dir(conversation_id: &str, timestamp: u64) -> (r: String)
    ensures
        r@ == backup_dir_of(conversation_id@, timestamp),
{
    let mut s = String::from_str(".kuse/backups/");
    s.append(conversation_id);
    s.append("/");
    let d = decimal(timestamp);
    s.append(d.as_str());
    s
}

/// The path of the snapshot of `file_name` taken for `conversation_id` at
/// `timestamp`.
pub fn backup_path(conversation_id: &str, timestamp: u64, file_name: &str) -> (r: String)
    ensures
        r@ == backup_path_of(conversation_id@, timestamp, file_name@),
{
    let mut s = backup_dir(conversation_id, timestamp);
    s.append("/");
    s.append(file_name);
    s
}

/// The trash directory, relative to the working directory.
pub fn trash_dir() -> (r: String)
    ensures
        r@ == ".kuse/trash"@,
{
    String::from_str(".kuse/trash")
}

/// The path that `file_name`, deleted at `timestamp`, is moved to.
pub fn trash_path(timestamp: u64, file_name: &str) -> (r: String)
    ensures
        r@ == trash_path_of(timestamp, file_name@),
{
    let mut s = String::from_str(".kuse/trash/");
    let d = decimal(timestamp);
    s.append(d.as_str());
    s.append("_");
    s.append(file_name);
    s
}

} // verus!
