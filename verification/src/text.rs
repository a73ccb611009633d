//! The lines that the scans report, built from fixed text, quoted paths and the
//! operating system's error descriptions.
use vstd::prelude::*;

verus! {

/// How the standard library quotes a path for display (`{:?}` of a `Path`):
/// in double quotes, with special characters escaped.
pub uninterp spec fn spec_path_debug(path: Seq<char>) -> Seq<char>;

/// Formats `std::path::Path::new(path)` with `{:?}`: the result is the path's
/// quoted form, named `spec_path_debug`. Nothing more is claimed of its text.
#[verifier::external_body]
pub(crate) fn path_debug(path: &str) -> (res: String)
    ensures
        res@ == spec_path_debug(path@),
{
    format!("{:?}", std::path::Path::new(path))
}

/// `head`, the quoted `path`, `mid`, then `tail`.
pub open spec fn path_line(head: Seq<char>, path: Seq<char>, mid: Seq<char>, tail: Seq<char>) -> Seq<char> {
    head + spec_path_debug(path) + mid + tail
}

/// Builds `head`, the quoted `path`, `mid` and `tail` into one line.
pub fn make_path_line(head: &str, path: &str, mid: &str, tail: &str) -> (res: String)
    ensures
        res@ == path_line(head@, path@, mid@, tail@),
{
    let mut res = String::from_str(head);
    let quoted = path_debug(path);
    res.append(quoted.as_str());
    res.append(mid);
    res.append(tail);
    res
}

/// `head`, the quoted `first`, `mid`, the quoted `second`, then `tail`.
pub open spec fn two_path_line(
    head: Seq<char>,
    first: Seq<char>,
    mid: Seq<char>,
    second: Seq<char>,
    tail: Seq<char>,
) -> Seq<char> {
    head + spec_path_debug(first) + mid + spec_path_debug(second) + tail
}

/// Builds `head`, the quoted `first`, `mid`, the quoted `second` and `tail` into one line.
pub fn make_two_path_line(head: &str, first: &str, mid: &str, second: &str, tail: &str) -> (res: String)
    ensures
        res@ == two_path_line(head@, first@, mid@, second@, tail@),
{
    let mut res = String::from_str(head);
    let q1 = path_debug(first);
    res.append(q1.as_str());
    res.append(mid);
    let q2 = path_debug(second);
    res.append(q2.as_str());
    res.append(tail);
    res
}

/// "Could not open <path>, got an error: <error>"
pub open spec fn open_failed(path: Seq<char>, err: Seq<char>) -> Seq<char> {
    path_line("Could not open "@, path, ", got an error: "@, err)
}

pub fn open_failed_line(path: &str, err: &str) -> (res: String)
    ensures
        res@ == open_failed(path@, err@),
{
    make_path_line("Could not open ", path, ", got an error: ", err)
}

/// "Could not read <path>, got an error: <error>"
pub open spec fn read_failed(path: Seq<char>, err: Seq<char>) -> Seq<char> {
    path_line("Could not read "@, path, ", got an error: "@, err)
}

pub fn read_failed_line(path: &str, err: &str) -> (res: String)
    ensures
        res@ == read_failed(path@, err@),
{
    make_path_line("Could not read ", path, ", got an error: ", err)
}

/// "Could not seek <path>, got an error: <error>"
pub open spec fn seek_failed(path: Seq<char>, err: Seq<char>) -> Seq<char> {
    path_line("Could not seek "@, path, ", got an error: "@, err)
}

pub fn seek_failed_line(path: &str, err: &str) -> (res: String)
    ensures
        res@ == seek_failed(path@, err@),
{
    make_path_line("Could not seek ", path, ", got an error: ", err)
}

/// "Could not remove file <path>, got an error: <error>"
pub open spec fn remove_failed(path: Seq<char>, err: Seq<char>) -> Seq<char> {
    path_line("Could not remove file "@, path, ", got an error: "@, err)
}

pub fn remove_failed_line(path: &str, err: &str) -> (res: String)
    ensures
        res@ == remove_failed(path@, err@),
{
    make_path_line("Could not remove file ", path, ", got an error: ", err)
}

/// "Could not access the metadata of <path>, got an error: <error>"
pub open spec fn metadata_failed(path: Seq<char>, err: Seq<char>) -> Seq<char> {
    path_line("Could not access the metadata of "@, path, ", got an error: "@, err)
}

pub fn metadata_failed_line(path: &str, err: &str) -> (res: String)
    ensures
        res@ == metadata_failed(path@, err@),
{
    make_path_line("Could not access the metadata of ", path, ", got an error: ", err)
}

/// "Could not read <directory>, got an error <error> (a directory listing that failed)"
pub open spec fn dir_unreadable(path: Seq<char>, err: Seq<char>) -> Seq<char> {
    path_line("Could not read "@, path, ", got an error "@, err)
}

pub fn dir_unreadable_line(path: &str, err: &str) -> (res: String)
    ensures
        res@ == dir_unreadable(path@, err@),
{
    make_path_line("Could not read ", path, ", got an error ", err)
}

/// "Could not access the metadata of <path>, got an error <error> (an entry met while walking)"
pub open spec fn entry_metadata_failed(path: Seq<char>, err: Seq<char>) -> Seq<char> {
    path_line("Could not access the metadata of "@, path, ", got an error "@, err)
}

pub fn entry_metadata_failed_line(path: &str, err: &str) -> (res: String)
    ensures
        res@ == entry_metadata_failed(path@, err@),
{
    make_path_line("Could not access the metadata of ", path, ", got an error ", err)
}

/// "Removed <path> : sized 0"
pub open spec fn removed_empty(path: Seq<char>) -> Seq<char> {
    path_line("Removed "@, path, " : sized 0"@, ""@)
}

pub fn removed_empty_line(path: &str) -> (res: String)
    ensures
        res@ == removed_empty(path@),
{
    make_path_line("Removed ", path, " : sized 0", "")
}

/// "This is a dry run, would remove <path> : sized 0"
pub open spec fn would_remove_empty(path: Seq<char>) -> Seq<char> {
    path_line("This is a dry run, would remove "@, path, " : sized 0"@, ""@)
}

pub fn would_remove_empty_line(path: &str) -> (res: String)
    ensures
        res@ == would_remove_empty(path@),
{
    make_path_line("This is a dry run, would remove ", path, " : sized 0", "")
}

/// "Could not compare <first>, <second>, got an error <error>"
pub open spec fn compare_failed(first: Seq<char>, second: Seq<char>, err: Seq<char>) -> Seq<char> {
    two_path_line("Could not compare "@, first, ", "@, second, ", got an error "@) + err
}

pub fn compare_failed_line(first: &str, second: &str, err: &str) -> (res: String)
    ensures
        res@ == compare_failed(first@, second@, err@),
{
    let mut res = make_two_path_line("Could not compare ", first, ", ", second, ", got an error ");
    res.append(err);
    res
}

/// "Removing file \n<duplicate> \nit is equal to \n<kept>\n"
pub open spec fn removed_duplicate(duplicate: Seq<char>, kept: Seq<char>) -> Seq<char> {
    two_path_line("Removing file \n"@, duplicate, " \nit is equal to \n"@, kept, "\n"@)
}

pub fn removed_duplicate_line(duplicate: &str, kept: &str) -> (res: String)
    ensures
        res@ == removed_duplicate(duplicate@, kept@),
{
    make_two_path_line("Removing file \n", duplicate, " \nit is equal to \n", kept, "\n")
}

/// "This is a dry run, Would remove file \n<duplicate> \nit is equal to \n<kept>\n"
pub open spec fn would_remove_duplicate(duplicate: Seq<char>, kept: Seq<char>) -> Seq<char> {
    two_path_line(
        "This is a dry run, Would remove file \n"@,
        duplicate,
        " \nit is equal to \n"@,
        kept,
        "\n"@,
    )
}

pub fn would_remove_duplicate_line(duplicate: &str, kept: &str) -> (res: String)
    ensures
        res@ == would_remove_duplicate(duplicate@, kept@),
{
    make_two_path_line(
        "This is a dry run, Would remove file \n",
        duplicate,
        " \nit is equal to \n",
        kept,
        "\n",
    )
}

} // verus!
