use vstd::prelude::*;
use vstd::string::*;

verus! {

/// Why a move is refused before anything is touched.
pub open spec fn move_refusal(
    source: Seq<char>,
    source_exists: bool,
    destination: Seq<char>,
    destination_exists: bool,
) -> Option<Seq<char>> {
    if !source_exists {
        Some("Source file not found: "@ + source)
    } else if destination_exists {
        Some("Destination already exists: "@ + destination + ". Move skipped."@)
    } else {
        None
    }
}

/// Checks a move before it is made: the source must exist and the
/// destination must not, so that nothing is overwritten.
pub fn check_move(source: &str, source_exists: bool, destination: &str, destination_exists: bool) -> (r: Result<(), String>)
    ensures
        match move_refusal(source@, source_exists, destination@, destination_exists) {
            Some(m) => r matches Err(e) && e@ == m,
            None => r is Ok,
        },
{
    if !source_exists {
        Err(String::from_str("Source file not found: ").concat(source))
    } else if destination_exists {
        Err(String::from_str("Destination already exists: ").concat(destination).concat(". Move skipped."))
    } else {
        Ok(())
    }
}

/// Checks a delete before it is made: the file must exist.
pub fn check_delete(path: &str, exists_now: bool) -> (r: Result<(), String>)
    ensures
        exists_now ==> r is Ok,
        !exists_now ==> (r matches Err(e) && e@ == "File not found: "@ + path@),
{
    if exists_now {
        Ok(())
    } else {
        Err(String::from_str("File not found: ").concat(path))
    }
}

} // verus!
