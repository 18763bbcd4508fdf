//! The name field of the vendor-specific region.
//!
//! The field is text that ends at the first NUL or space byte, or at the end
//! of the field. An instance store volume stores `<virtual name>:<device
//! name>`, or `<virtual name>:none` when the volume is not in the block
//! device mapping. An EBS volume stores its device name alone. A leading
//! `/dev/` is not part of a name.

use vstd::prelude::*;
use crate::error::{Error, ErrorView};
use crate::text::{latin1, string_of};

verus! {

/// A NUL or a space ends the text of the field.
pub open spec fn is_terminator(c: char) -> bool {
    c == '\0' || c == ' '
}

/// `n` is where the text of `s` ends: no terminator stands before `n`, and
/// `n` is the end of `s` or the place of a terminator.
pub open spec fn is_text_end(s: Seq<char>, n: int) -> bool {
    &&& 0 <= n <= s.len()
    &&& forall|i: int| 0 <= i < n ==> !is_terminator(#[trigger] s[i])
    &&& n < s.len() ==> is_terminator(s[n])
}

/// The text of `s`: what stands before its first terminator.
pub open spec fn text(s: Seq<char>) -> Seq<char> {
    s.take(choose|n: int| is_text_end(s, n))
}

/// `k` is the place of the first colon of `t`.
pub open spec fn is_first_colon(t: Seq<char>, k: int) -> bool {
    &&& 0 <= k < t.len()
    &&& t[k] == ':'
    &&& forall|i: int| 0 <= i < k ==> #[trigger] t[i] != ':'
}

/// The place of the first colon of a text that holds one.
pub open spec fn first_colon(t: Seq<char>) -> int {
    choose|k: int| is_first_colon(t, k)
}

/// The prefix `/dev/`.
pub open spec fn dev_prefix() -> Seq<char> {
    seq!['/', 'd', 'e', 'v', '/']
}

/// The word `none`, which stands for a device name that was not assigned.
pub open spec fn none_word() -> Seq<char> {
    seq!['n', 'o', 'n', 'e']
}

/// `field` without a leading `/dev/`.
pub open spec fn strip_dev(field: Seq<char>) -> Seq<char> {
    if dev_prefix().is_prefix_of(field) {
        field.skip(5)
    } else {
        field
    }
}

/// An empty field gives no name.
pub open spec fn name_of(field: Seq<char>) -> Option<Seq<char>> {
    if field.len() == 0 {
        None
    } else {
        Some(field)
    }
}

/// What a [`Names`] stands for in contracts.
pub ghost struct NamesView {
    pub device_name: Option<Seq<char>>,
    pub virtual_name: Option<Seq<char>>,
}

impl NamesView {
    /// One of the two names is there, and a name that is there is not empty.
    pub open spec fn wf(self) -> bool {
        &&& self.device_name is Some || self.virtual_name is Some
        &&& self.device_name is Some ==> self.device_name->0.len() > 0
        &&& self.virtual_name is Some ==> self.virtual_name->0.len() > 0
    }

    /// The device name if there is one, else the virtual name.
    pub open spec fn effective(self) -> Seq<char> {
        match self.device_name {
            Some(name) => name,
            None => self.virtual_name->0,
        }
    }
}

/// The names that the text `t` of a field holds. Without a colon the text
/// is the device name. With one, the virtual name stands before the first
/// colon and the device name, or `none`, after it.
pub open spec fn names_of_text(t: Seq<char>) -> NamesView {
    if t.contains(':') {
        let k = first_colon(t);
        let device = strip_dev(t.skip(k + 1));
        NamesView {
            device_name: if device == none_word() {
                None
            } else {
                name_of(device)
            },
            virtual_name: name_of(strip_dev(t.take(k))),
        }
    } else {
        NamesView { device_name: name_of(strip_dev(t)), virtual_name: None }
    }
}

/// What parsing the field `bytes` gives: its names, or its text as the
/// error where it holds no name.
pub open spec fn parse_names(bytes: Seq<u8>) -> Result<NamesView, ErrorView> {
    let t = text(latin1(bytes));
    let names = names_of_text(t);
    if names.device_name is None && names.virtual_name is None {
        Err(ErrorView::UnparseableDeviceName(t))
    } else {
        Ok(names)
    }
}

/// The view of what [`Names::try_from`] returns.
pub open spec fn names_result_view(r: Result<Names, Error>) -> Result<NamesView, ErrorView> {
    match r {
        Ok(names) => Ok(names@),
        Err(e) => Err(e@),
    }
}

/// A text ends at one place only.
pub proof fn lemma_text_end_unique(s: Seq<char>, n: int)
    requires
        is_text_end(s, n),
    ensures
        text(s) == s.take(n),
{
    let m = choose|m: int| is_text_end(s, m);
    if m < n {
        assert(!is_terminator(s[m]));
    } else if n < m {
        assert(!is_terminator(s[n]));
    }
}

/// A text has one first colon only.
pub proof fn lemma_first_colon_unique(t: Seq<char>, k: int)
    requires
        is_first_colon(t, k),
    ensures
        t.contains(':'),
        first_colon(t) == k,
{
    let j = first_colon(t);
    if j < k {
        assert(t[j] != ':');
    } else if k < j {
        assert(t[k] != ':');
    }
}

/// What parsing gives has one of the two names, and no empty name.
pub proof fn lemma_parsed_names_wf(bytes: Seq<u8>)
    ensures
        parse_names(bytes) is Ok ==> parse_names(bytes)->Ok_0.wf(),
{
}

/// Parsing is a function of the bytes: two results for the same field, each
/// as [`Names::try_from`] promises it, stand for the same value.
pub proof fn lemma_parse_deterministic(
    bytes: Seq<u8>,
    first: Result<Names, Error>,
    second: Result<Names, Error>,
)
    requires
        names_result_view(first) == parse_names(bytes),
        names_result_view(second) == parse_names(bytes),
    ensures
        names_result_view(first) == names_result_view(second),
{
}

/// The vendor-specific names of a device. The parser gives only values of
/// which [`Names::wf`] holds.
#[derive(Debug, PartialEq, Eq)]
pub struct Names {
    /// Device name defined in the block device mapping.
    pub device_name: Option<String>,
    /// Virtual name for instance store volumes, such as ephemeral0.
    pub virtual_name: Option<String>,
}

impl View for Names {
    type V = NamesView;

    open spec fn view(&self) -> NamesView {
        NamesView {
            device_name: match self.device_name {
                Some(name) => Some(name@),
                None => None,
            },
            virtual_name: match self.virtual_name {
                Some(name) => Some(name@),
                None => None,
            },
        }
    }
}

/// Where the scan of a field stands. The scan is over at the first
/// terminator and at the end of the field.
#[derive(Debug, Clone, Copy, PartialEq, Eq, Structural)]
enum ScanState {
    /// No colon was read yet: characters go to the first field.
    BeforeDelimiter,
    /// The first colon was read: characters, further colons too, go to the
    /// second field.
    AfterDelimiter,
}

/// The two fields of the text of `bytes`, read in one pass: what stands
/// before the first colon and, if there is a colon, what stands after it.
fn split_fields(bytes: &[u8]) -> (fields: (Vec<char>, Option<Vec<char>>))
    ensures
        ({
            let t = text(latin1(bytes@));
            match fields.1 {
                None => !t.contains(':') && fields.0@ == t,
                Some(second) => {
                    &&& t.contains(':')
                    &&& fields.0@ == t.take(first_colon(t))
                    &&& second@ == t.skip(first_colon(t) + 1)
                },
            }
        }),
{
    let ghost s = latin1(bytes@);
    let ghost mut k: int = 0;
    let mut first: Vec<char> = Vec::new();
    let mut second: Vec<char> = Vec::new();
    let mut state = ScanState::BeforeDelimiter;
    let mut i: usize = 0;
    while i < bytes.len() && bytes[i] != 0x00 && bytes[i] != 0x20
        invariant
            i <= bytes.len(),
            s == latin1(bytes@),
            forall|j: int| 0 <= j < i ==> !is_terminator(#[trigger] s[j]),
            state == ScanState::BeforeDelimiter ==> {
                &&& first@ == s.take(i as int)
                &&& second@.len() == 0
                &&& forall|j: int| 0 <= j < i ==> #[trigger] s[j] != ':'
            },
            state == ScanState::AfterDelimiter ==> {
                &&& 0 <= k < i
                &&& s[k] == ':'
                &&& forall|j: int| 0 <= j < k ==> #[trigger] s[j] != ':'
                &&& first@ == s.take(k)
                &&& second@ == s.subrange(k + 1, i as int)
            },
        decreases bytes.len() - i,
    {
        let c = bytes[i] as char;
        match state {
            ScanState::BeforeDelimiter => {
                if c == ':' {
                    state = ScanState::AfterDelimiter;
                    proof {
                        k = i as int;
                    }
                } else {
                    first.push(c);
                }
            },
            ScanState::AfterDelimiter => {
                second.push(c);
            },
        }
        i += 1;
        proof {
            if state == ScanState::BeforeDelimiter {
                assert(first@ =~= s.take(i as int));
            } else {
                assert(second@ =~= s.subrange(k + 1, i as int));
            }
        }
    }
    proof {
        assert(i < bytes.len() ==> is_terminator(s[i as int]));
        lemma_text_end_unique(s, i as int);
        let t = s.take(i as int);
        if state == ScanState::AfterDelimiter {
            lemma_first_colon_unique(t, k);
            assert(first@ =~= t.take(k));
            assert(second@ =~= t.skip(k + 1));
        }
    }
    match state {
        ScanState::BeforeDelimiter => (first, None),
        ScanState::AfterDelimiter => (first, Some(second)),
    }
}

/// The text of `bytes` as a string.
fn text_string(bytes: &[u8]) -> (raw: String)
    ensures
        raw@ == text(latin1(bytes@)),
{
    let ghost s = latin1(bytes@);
    let mut raw = String::new();
    let mut i: usize = 0;
    while i < bytes.len() && bytes[i] != 0x00 && bytes[i] != 0x20
        invariant
            i <= bytes.len(),
            s == latin1(bytes@),
            forall|j: int| 0 <= j < i ==> !is_terminator(#[trigger] s[j]),
            raw@ == s.take(i as int),
        decreases bytes.len() - i,
    {
        raw.push(bytes[i] as char);
        i += 1;
        assert(raw@ =~= s.take(i as int));
    }
    proof {
        assert(i < bytes.len() ==> is_terminator(s[i as int]));
        lemma_text_end_unique(s, i as int);
    }
    raw
}

/// Whether `field` starts with `/dev/`.
fn starts_with_dev(field: &[char]) -> (r: bool)
    ensures
        r == dev_prefix().is_prefix_of(field@),
{
    if field.len() < 5 {
        return false;
    }
    let r = field[0] == '/' && field[1] == 'd' && field[2] == 'e' && field[3] == 'v' && field[4]
        == '/';
    proof {
        if r {
            assert(field@.subrange(0, 5) =~= dev_prefix());
        } else {
            if dev_prefix().is_prefix_of(field@) {
                assert(field@[0] == '/' && field@[1] == 'd' && field@[2] == 'e' && field@[3]
                    == 'v' && field@[4] == '/');
            }
        }
    }
    r
}

/// Where `field` starts once a leading `/dev/` is left out.
fn strip_dev_start(field: &[char]) -> (start: usize)
    ensures
        start <= field.len(),
        field@.skip(start as int) == strip_dev(field@),
{
    if starts_with_dev(field) {
        5
    } else {
        assert(field@.skip(0) =~= field@);
        0
    }
}

/// Whether `chars[from..to]` is the word `none`.
fn is_none_word(chars: &[char], from: usize, to: usize) -> (r: bool)
    requires
        from <= to <= chars.len(),
    ensures
        r == (chars@.subrange(from as int, to as int) == none_word()),
{
    let ghost field = chars@.subrange(from as int, to as int);
    if to - from != 4 {
        assert(none_word().len() == 4);
        return false;
    }
    let r = chars[from] == 'n' && chars[from + 1] == 'o' && chars[from + 2] == 'n'
        && chars[from + 3] == 'e';
    proof {
        if r {
            assert(field =~= none_word());
        } else {
            if field == none_word() {
                assert(field[0] == 'n' && field[1] == 'o' && field[2] == 'n' && field[3] == 'e');
            }
        }
    }
    r
}

impl Names {
    /// One of the two names is there, and a name that is there is not empty.
    pub open spec fn wf(&self) -> bool {
        self@.wf()
    }
}

impl<'a> TryFrom<&'a [u8]> for Names {
    type Error = Error;

    /// Parses the name field of the vendor-specific region. Only `bytes`
    /// is read, and of it only what stands before the first NUL or space.
    ///
    /// The result is `Ok` unless the field holds no name at all; the error
    /// then carries the field's text.
    fn try_from(bytes: &'a [u8]) -> (r: Result<Names, Error>)
        ensures
            names_result_view(r) == parse_names(bytes@),
            r is Ok ==> r->Ok_0.wf(),
    {
        let (first, second) = split_fields(bytes);
        let first_start = strip_dev_start(first.as_slice());
        let first_name = if first_start == first.len() {
            None
        } else {
            Some(string_of(first.as_slice(), first_start, first.len()))
        };
        let (device_name, virtual_name) = match second {
            None => (first_name, None),
            Some(second) => {
                let start = strip_dev_start(second.as_slice());
                let device_name = if start == second.len() || is_none_word(
                    second.as_slice(),
                    start,
                    second.len(),
                ) {
                    None
                } else {
                    Some(string_of(second.as_slice(), start, second.len()))
                };
                (device_name, first_name)
            },
        };
        if device_name.is_none() && virtual_name.is_none() {
            Err(Error::UnparseableDeviceName(text_string(bytes)))
        } else {
            Ok(Names { device_name, virtual_name })
        }
    }
}

/// The result of parsing holds strings, which no spec function can build:
/// what `try_from` returns is stated by its `ensures`, over the views.
impl<'a> vstd::std_specs::convert::TryFromSpecImpl<&'a [u8]> for Names {
    open spec fn obeys_try_from_spec() -> bool {
        false
    }

    open spec fn try_from_spec(v: &'a [u8]) -> Result<Names, Error> {
        arbitrary()
    }
}

} // verus!
