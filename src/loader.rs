//! Turning what was read at a path into a pane slot: a directory listing, or
//! an exported listing read back from a JSON file.

use vstd::prelude::*;

use vstd::utf8::encode_utf8;

use crate::entries::{names_of, EntrySet};

verus! {

broadcast use vstd::seq_lib::group_seq_properties;

/// The list of strings that `bytes` hold as a JSON array of strings, or
/// `None` where they hold no such array.
pub uninterp spec fn json_string_list(bytes: Seq<u8>) -> Option<Seq<Seq<char>>>;

/// The lower-case hex digit of `d`, for `d` under 16.
pub open spec fn hex_digit(d: int) -> char {
    seq!['0', '1', '2', '3', '4', '5', '6', '7', '8', '9', 'a', 'b', 'c', 'd', 'e', 'f'][d]
}

/// How `c` is written inside a JSON string: a quote, a backslash and the
/// control characters are escaped, with a short escape where JSON has one.
pub open spec fn json_char(c: char) -> Seq<char> {
    if c == '"' {
        seq!['\\', '"']
    } else if c == '\\' {
        seq!['\\', '\\']
    } else if c == '\x08' {
        seq!['\\', 'b']
    } else if c == '\t' {
        seq!['\\', 't']
    } else if c == '\n' {
        seq!['\\', 'n']
    } else if c == '\x0C' {
        seq!['\\', 'f']
    } else if c == '\r' {
        seq!['\\', 'r']
    } else if (c as int) < 32 {
        seq!['\\', 'u', '0', '0', hex_digit((c as int) / 16), hex_digit((c as int) % 16)]
    } else {
        seq![c]
    }
}

/// `s` as a JSON string, quotes included.
pub open spec fn json_string(s: Seq<char>) -> Seq<char> {
    seq!['"'] + s.map_values(|c: char| json_char(c)).flatten() + seq!['"']
}

/// The members of an indented JSON array of the strings `names`: each on a
/// line of its own, indented by two spaces, separated by commas.
pub open spec fn pretty_members(names: Seq<Seq<char>>) -> Seq<char>
    decreases names.len(),
{
    if names.len() == 0 {
        Seq::empty()
    } else {
        let rest = names.drop_last();
        let sep = if rest.len() == 0 { seq!['\n'] } else { seq![',', '\n'] };
        pretty_members(rest) + sep + seq![' ', ' '] + json_string(names.last())
    }
}

/// The indented JSON text of an array of the strings `names`, in order:
/// `[]` where there is none.
pub open spec fn json_pretty_list(names: Seq<Seq<char>>) -> Seq<char> {
    if names.len() == 0 {
        seq!['[', ']']
    } else {
        seq!['['] + pretty_members(names) + seq!['\n', ']']
    }
}

/// Relies on `serde_json::from_slice` to read `bytes` as a JSON array of
/// strings: what it reads depends on the bytes alone, and it reads back the
/// UTF-8 of the indented JSON that `serde_json::to_string_pretty` writes for a
/// list of strings.
#[verifier::external_body]
fn parse_string_list(bytes: &[u8]) -> (r: Option<Vec<String>>)
    ensures
        r.is_some() == json_string_list(bytes@).is_some(),
        r.is_some() ==> names_of(r.unwrap()@) == json_string_list(bytes@).unwrap(),
        forall|names: Seq<Seq<char>>|
            bytes@ == #[trigger] encode_utf8(json_pretty_list(names)) ==> r.is_some() && names_of(r.unwrap()@) == names,
{
    serde_json::from_slice::<Vec<String>>(bytes).ok()
}

/// Relies on `serde_json::to_string_pretty` to write `names` as an indented
/// JSON array of strings, two spaces deep. It writes into a `Vec<u8>`, which
/// never fails, and a string never fails to serialize, so it always succeeds.
#[verifier::external_body]
pub(crate) fn pretty_string_list(names: &Vec<String>) -> (r: Option<String>)
    ensures
        r.is_some(),
        r.unwrap()@ == json_pretty_list(names_of(names@)),
{
    serde_json::to_string_pretty(names).ok()
}

/// What reading a path gave.
pub enum ReadOutcome {
    /// The path was listed as a directory: the file name of each child, or
    /// `None` where that child's directory entry could not be read.
    Listing(Vec<Option<String>>),
    /// The path could not be listed as a directory, and was read as a file:
    /// its bytes.
    File(Vec<u8>),
    /// The path could be neither listed as a directory nor read as a file.
    Unreadable,
}

/// What a load met on its way, for the caller to report.
#[derive(Clone, Copy, Debug, PartialEq, Eq, Structural)]
pub enum LoadNote {
    /// A directory was listed; `skipped` of its entries could not be read.
    Listed { skipped: usize },
    /// A file was read as a JSON array of strings.
    Imported,
    /// A file was read, but it holds no JSON array of strings.
    NotJson,
    /// The path could be neither listed nor read.
    Unreadable,
}

/// The readable names of a directory listing, in order.
pub open spec fn readable_names(v: Seq<Option<String>>) -> Seq<Seq<char>>
    decreases v.len(),
{
    if v.len() == 0 {
        Seq::empty()
    } else {
        let rest = readable_names(v.drop_last());
        match v.last() {
            Some(name) => rest.push(name@),
            None => rest,
        }
    }
}

/// The number of entries of a directory listing that could not be read.
pub open spec fn unreadable_count(v: Seq<Option<String>>) -> nat
    decreases v.len(),
{
    if v.len() == 0 {
        0
    } else {
        unreadable_count(v.drop_last()) + if v.last() is None { 1nat } else { 0nat }
    }
}

/// The entry set that a load from `read` gives: the readable names of a
/// listing, the strings of a JSON array (empty where the file holds none),
/// and nothing where the path could not be read.
pub open spec fn loaded_entries(read: ReadOutcome) -> Set<Seq<char>> {
    match read {
        ReadOutcome::Listing(v) => readable_names(v@).to_set(),
        ReadOutcome::File(bytes) => match json_string_list(bytes@) {
            Some(names) => names.to_set(),
            None => Set::empty(),
        },
        ReadOutcome::Unreadable => Set::empty(),
    }
}

/// The note that a load from `read` gives.
pub open spec fn load_note(read: ReadOutcome) -> LoadNote {
    match read {
        ReadOutcome::Listing(v) => LoadNote::Listed { skipped: unreadable_count(v@) as usize },
        ReadOutcome::File(bytes) => if json_string_list(bytes@) is Some {
            LoadNote::Imported
        } else {
            LoadNote::NotJson
        },
        ReadOutcome::Unreadable => LoadNote::Unreadable,
    }
}

/// The readable names of a directory listing, and how many entries were not.
fn collect_listing(v: &Vec<Option<String>>) -> (r: (Vec<String>, usize))
    ensures
        names_of(r.0@) == readable_names(v@),
        r.1 == unreadable_count(v@),
{
    let mut out: Vec<String> = Vec::new();
    let mut skipped: usize = 0;
    let mut i: usize = 0;
    while i < v.len()
        invariant
            0 <= i <= v.len(),
            names_of(out@) == readable_names(v@.subrange(0, i as int)),
            skipped == unreadable_count(v@.subrange(0, i as int)),
            skipped <= i,
        decreases v.len() - i,
    {
        assert(v@.subrange(0, i + 1).drop_last() =~= v@.subrange(0, i as int));
        match &v[i] {
            Some(name) => {
                out.push(name.clone());
                assert(names_of(out@) =~= readable_names(v@.subrange(0, i + 1)));
            },
            None => {
                skipped += 1;
            },
        }
        i += 1;
    }
    assert(v@.subrange(0, v.len() as int) =~= v@);
    (out, skipped)
}

/// Loads the entry set of `path` from what reading it gave: the readable
/// names of a directory listing; else the strings of a JSON array that the
/// file holds; else nothing. This never fails: the origin is `path` in
/// every case.
pub fn load(path: String, read: ReadOutcome) -> (r: (String, EntrySet, LoadNote))
    ensures
        r.0@ == path@,
        r.1@ == loaded_entries(read),
        r.2 == load_note(read),
        forall|names: Seq<Seq<char>>|
            read matches ReadOutcome::File(bytes) && bytes@ == #[trigger] encode_utf8(json_pretty_list(names))
                ==> r.1@ == names.to_set(),
{
    match read {
        ReadOutcome::Listing(v) => {
            let (names, skipped) = collect_listing(&v);
            (path, EntrySet::from_names(names), LoadNote::Listed { skipped })
        },
        ReadOutcome::File(bytes) => match parse_string_list(bytes.as_slice()) {
            Some(names) => (path, EntrySet::from_names(names), LoadNote::Imported),
            None => (path, EntrySet::new(), LoadNote::NotJson),
        },
        ReadOutcome::Unreadable => (path, EntrySet::new(), LoadNote::Unreadable),
    }
}

} // verus!
