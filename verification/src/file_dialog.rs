//! The file-dialog core: the fixed-size byte buffer a picker delegate
//! fills with the chosen path, its conversions to strings and paths,
//! and the decision taken on it when a pick is polled.
use vstd::prelude::*;

verus! {

broadcast use vstd::array::group_array_axioms;

/// Length of the byte buffer that carries one picked path back from the
/// picker delegate. A path whose encoding has any other length is dropped.
pub const URI_BUFFER_LEN: usize = 200;

/// How the buffer's bytes read as text: each byte stands for the character
/// with that code, one for one.
pub open spec fn bytes_as_chars(bytes: Seq<u8>) -> Seq<char> {
    bytes.map_values(|b: u8| b as char)
}

/// The result channel of a document pick: either no path has been
/// recorded, or a full buffer of path bytes.
#[derive(Clone, Copy)]
pub struct FilePath(pub Option<[u8; URI_BUFFER_LEN]>);

impl View for FilePath {
    type V = Option<Seq<u8>>;

    open spec fn view(&self) -> Option<Seq<u8>> {
        match self.0 {
            Some(buf) => Some(buf@),
            None => None,
        }
    }
}

impl From<[u8; URI_BUFFER_LEN]> for FilePath {
    fn from(value: [u8; URI_BUFFER_LEN]) -> (r: Self) {
        FilePath(Some(value))
    }
}

impl vstd::std_specs::convert::FromSpecImpl<[u8; URI_BUFFER_LEN]> for FilePath {
    open spec fn obeys_from_spec() -> bool {
        true
    }

    open spec fn from_spec(v: [u8; URI_BUFFER_LEN]) -> FilePath {
        FilePath(Some(v))
    }
}

/// A filesystem path held in its textual form: the portable stand-in for
/// the platform's path value that a finished pick hands back.
pub struct DialogPath {
    pub path: String,
}

impl View for DialogPath {
    type V = Seq<char>;

    open spec fn view(&self) -> Seq<char> {
        self.path@
    }
}

impl From<String> for DialogPath {
    fn from(value: String) -> (r: Self) {
        DialogPath { path: value }
    }
}

impl vstd::std_specs::convert::FromSpecImpl<String> for DialogPath {
    open spec fn obeys_from_spec() -> bool {
        true
    }

    open spec fn from_spec(v: String) -> DialogPath {
        DialogPath { path: v }
    }
}

impl DialogPath {
    /// The path's text.
    pub fn as_str(&self) -> (r: &str)
        ensures
            r@ == self@,
    {
        self.path.as_str()
    }
}

/// Relies on String::push: appends the given character to the end of
/// this string.
pub assume_specification[ String::push ](s: &mut String, ch: char)
    ensures
        final(s)@ == old(s)@.push(ch),
;

/// Decodes a byte buffer into the string whose characters are the
/// buffer's bytes, one character per byte.
pub fn u8_slice_to_string<const C: usize>(n: [u8; C]) -> (r: String)
    ensures
        r@ == bytes_as_chars(n@),
{
    let mut s = String::new();
    let mut i: usize = 0;
    while i < C
        invariant
            i <= C,
            s@ == bytes_as_chars(n@.take(i as int)),
        decreases C - i,
    {
        let b = n[i];
        s.push(b as char);
        proof {
            assert(s@ =~= bytes_as_chars(n@.take(i as int + 1)));
        }
        i = i + 1;
    }
    proof {
        assert(n@.take(C as int) =~= n@);
    }
    s
}

/// Decodes a byte buffer into a path, through the same byte-for-character
/// reading as `u8_slice_to_string`.
pub fn u8_slice_to_path<const C: usize>(n: [u8; C]) -> (r: DialogPath)
    ensures
        r@ == bytes_as_chars(n@),
{
    let string = u8_slice_to_string(n);
    DialogPath::from(string)
}

/// The decision at the heart of a file pick: once the delegate's buffer
/// holds bytes they decode into the chosen path, and while it is empty
/// there is nothing to hand back yet.
pub fn pick_file_from_history(history: &FilePath) -> (r: Option<DialogPath>)
    ensures
        match history@ {
            Some(bytes) => r matches Some(p) && p@ == bytes_as_chars(bytes),
            None => r is None,
        },
{
    match history.0 {
        Some(h) => Some(u8_slice_to_path(h)),
        None => None,
    }
}

/// The filename extensions whose document types the picker is opened
/// for: the formats this backend accepts.
pub fn picker_content_extensions() -> (r: Vec<String>)
    ensures
        r@.len() == 3,
        r@[0]@ == "csv"@,
        r@[1]@ == "pleco"@,
        r@[2]@ == "apkg"@,
{
    let mut v: Vec<String> = Vec::new();
    v.push(String::from_str("csv"));
    v.push(String::from_str("pleco"));
    v.push(String::from_str("apkg"));
    v
}

/// Availability gate for an OS version. Placeholder: every version is
/// currently accepted, as callers assume a recent enough system.
pub fn available(_version: &str) -> (r: bool)
    ensures
        r,
{
    true
}

} // verus!
