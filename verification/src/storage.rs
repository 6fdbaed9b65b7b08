//! Where the program keeps its files, and how a log grows.

use crate::text::texts;
use uuid::Uuid;
use vstd::arithmetic::power::pow;
use vstd::prelude::*;
use vstd::string::*;

verus! {

/// A place in the file system: a path to start from, and the components to
/// descend by from there.
#[derive(Debug)]
pub struct Location {
    pub base: String,
    pub below: Vec<String>,
}

/// The mathematical value of a [`Location`].
pub struct LocationView {
    pub base: Seq<char>,
    pub below: Seq<Seq<char>>,
}

impl View for Location {
    type V = LocationView;

    open spec fn view(&self) -> LocationView {
        LocationView { base: self.base@, below: texts(self.below@) }
    }
}

/// The sixteen hexadecimal digits, in order, in lower case.
pub open spec fn hex_digits() -> Seq<char> {
    seq!['0', '1', '2', '3', '4', '5', '6', '7', '8', '9', 'a', 'b', 'c', 'd', 'e', 'f']
}

/// The hexadecimal digit of `id` at `position`, counted from the most
/// significant of its thirty-two.
pub open spec fn hex_digit_at(id: u128, position: int) -> char {
    hex_digits()[(id as int / pow(16, (31 - position) as nat)) % 16]
}

/// The number of hyphens that stand before a place of the text of an
/// identifier.
pub open spec fn hyphens_before(place: int) -> int {
    if place < 8 {
        0
    } else if place < 13 {
        1
    } else if place < 18 {
        2
    } else if place < 23 {
        3
    } else {
        4
    }
}

/// The text of an identifier: its thirty-two hexadecimal digits in groups
/// of eight, four, four, four and twelve, with hyphens between the groups.
pub open spec fn id_text(id: u128) -> Seq<char> {
    Seq::new(
        36,
        |place: int|
            if place == 8 || place == 13 || place == 18 || place == 23 {
                '-'
            } else {
                hex_digit_at(id, place - hyphens_before(place))
            },
    )
}

/// The home directory to work under: the one given, or the current
/// directory where none is known.
pub open spec fn home_or_here(home: Option<String>) -> Seq<char> {
    match home {
        Some(h) => h@,
        None => "."@,
    }
}

/// `Uuid::from_u128` and the `Display` of a `Uuid`: the hyphenated
/// lower-case text of the identifier.
#[verifier::external_body]
pub(crate) fn id_to_text(id: u128) -> (r: String)
    ensures
        r@ == id_text(id),
{
    Uuid::from_u128(id).to_string()
}

/// The home directory to work under.
pub(crate) fn home_of(home: Option<String>) -> (r: String)
    ensures
        r@ == home_or_here(home),
{
    match home {
        Some(h) => h,
        None => String::from_str("."),
    }
}

/// The place with one component below a base.
fn below_one(base: String, first: &str) -> (r: Location)
    ensures
        r@ == (LocationView { base: base@, below: seq![first@] }),
{
    let mut below: Vec<String> = Vec::new();
    below.push(String::from_str(first));
    let r = Location { base, below };
    assert(r@.below =~= seq![first@]);
    r
}

/// The name of the file that holds the log of a session.
pub fn log_file_name(id: u128) -> (r: String)
    ensures
        r@ == id_text(id) + ".log"@,
{
    let mut name = id_to_text(id);
    name.append(".log");
    name
}

/// The places of the program's files under a home directory.
#[derive(Debug)]
pub struct Storage {
    home: String,
}

impl View for Storage {
    type V = Seq<char>;

    closed spec fn view(&self) -> Seq<char> {
        self.home@
    }
}

impl Storage {
    /// The storage under the home directory given, or under the current
    /// directory where none is known.
    pub fn new(home: Option<String>) -> (s: Storage)
        ensures
            s@ == home_or_here(home),
    {
        Storage { home: home_of(home) }
    }

    /// Where the program's data lies.
    pub fn data_dir(&self) -> (r: Location)
        ensures
            r@ == (LocationView { base: self@, below: seq![".local/share/pfman"@] }),
    {
        below_one(self.home.clone(), ".local/share/pfman")
    }

    /// Where the logs of the sessions lie.
    pub fn logs_dir(&self) -> (r: Location)
        ensures
            r@ == (LocationView { base: self@, below: seq![".local/share/pfman"@, "logs"@] }),
    {
        let mut r = self.data_dir();
        let ghost before = r.below@;
        r.below.push(String::from_str("logs"));
        assert(texts(r.below@) =~= texts(before).push("logs"@));
        assert(r@.below =~= seq![".local/share/pfman"@, "logs"@]);
        r
    }

    /// Where the program's configuration lies.
    pub fn config_dir(&self) -> (r: Location)
        ensures
            r@ == (LocationView { base: self@, below: seq![".config/pfman"@] }),
    {
        below_one(self.home.clone(), ".config/pfman")
    }

    /// The file in which the sessions are kept.
    pub fn sessions_file(&self) -> (r: Location)
        ensures
            r@ == (LocationView { base: self@, below: seq![".config/pfman/sessions.yaml"@] }),
    {
        below_one(self.home.clone(), ".config/pfman/sessions.yaml")
    }

    /// The file that holds the log of the session `id`.
    pub fn log_file(&self, id: u128) -> (r: Location)
        ensures
            r@ == (LocationView {
                base: self@,
                below: seq![".local/share/pfman"@, "logs"@, id_text(id) + ".log"@],
            }),
    {
        let mut r = self.logs_dir();
        let ghost before = r.below@;
        r.below.push(log_file_name(id));
        assert(texts(r.below@) =~= texts(before).push(id_text(id) + ".log"@));
        assert(r@.below =~= seq![".local/share/pfman"@, "logs"@, id_text(id) + ".log"@]);
        r
    }

    /// A log once `content` has been appended to what it held.
    pub fn appended(existing: String, content: &str) -> (r: String)
        ensures
            r@ == existing@ + content@,
    {
        let mut out = existing;
        out.append(content);
        out
    }
}

} // verus!
