use crate::element::{render, split_main, packages_segment, Element, ElementList, Tex};
use crate::ty::{Input, Metadata};
use crate::text::{decimal, u8_to_decimal, lemma_views_push, views};
use vstd::prelude::*;
use vstd::string::{StrSliceExecFns, StringExecFns};

verus! {

/// Whether `c` is an ASCII decimal digit.
pub open spec fn is_digit(c: char) -> bool {
    '0' <= c && c <= '9'
}

/// The value of a string of decimal digits.
pub open spec fn digits_value(s: Seq<char>) -> nat
    decreases s.len(),
{
    if s.len() == 0 {
        0
    } else {
        digits_value(s.drop_last()) * 10 + ((s.last() as u32) - ('0' as u32)) as nat
    }
}

/// `s` without one leading `+`.
pub open spec fn unsigned_part(s: Seq<char>) -> Seq<char> {
    if s.len() > 0 && s[0] == '+' {
        s.drop_first()
    } else {
        s
    }
}

/// A byte written in decimal, with an optional leading `+`: one or more digits whose
/// value is at most 255.
pub open spec fn parse_u8(s: Seq<char>) -> Option<u8> {
    let d = unsigned_part(s);
    if d.len() > 0 && (forall|i: int| 0 <= i < d.len() ==> is_digit(#[trigger] d[i]))
        && digits_value(d) <= 255 {
        Some(digits_value(d) as u8)
    } else {
        None
    }
}

/// The fields of `s` between dots (one more than the number of dots).
pub open spec fn dot_fields(s: Seq<char>) -> Seq<Seq<char>>
    decreases s.len(),
{
    if s.len() == 0 {
        seq![Seq::empty()]
    } else {
        let f = dot_fields(s.drop_last());
        if s.last() == '.' {
            f.push(Seq::empty())
        } else {
            f.update(f.len() - 1, f.last().push(s.last()))
        }
    }
}

/// A prefix of digits never has a larger value than the whole.
proof fn lemma_digits_value_prefix(d: Seq<char>, k: int)
    requires
        0 <= k <= d.len(),
        forall|i: int| 0 <= i < d.len() ==> is_digit(#[trigger] d[i]),
    ensures
        digits_value(d.take(k)) <= digits_value(d),
    decreases d.len(),
{
    if k < d.len() {
        assert(d.drop_last().take(k) =~= d.take(k));
        lemma_digits_value_prefix(d.drop_last(), k);
    } else {
        assert(d.take(k) =~= d);
    }
}

/// There is always at least one field.
proof fn lemma_dot_fields_len(s: Seq<char>)
    ensures
        dot_fields(s).len() >= 1,
    decreases s.len(),
{
    if s.len() > 0 {
        lemma_dot_fields_len(s.drop_last());
    }
}

/// Parses a byte written in decimal, with an optional leading `+`.
fn parse_byte(s: &str) -> (r: Option<u8>)
    ensures
        r == parse_u8(s@),
{
    let n = s.unicode_len();
    let mut i: usize = 0;
    if n > 0 && s.get_char(0) == '+' {
        i = 1;
    }
    let start = i;
    let ghost d = unsigned_part(s@);
    proof {
        if start == 1 {
            assert(d =~= s@.subrange(1, n as int));
        } else {
            assert(d =~= s@);
        }
    }
    if i == n {
        return None;
    }
    let mut value: u32 = 0;
    let mut too_big = false;
    while i < n
        invariant
            start <= i <= n,
            n == s@.len(),
            d =~= s@.subrange(start as int, n as int),
            d == unsigned_part(s@),
            forall|k: int| 0 <= k < i - start ==> is_digit(#[trigger] d[k]),
            !too_big ==> value == digits_value(d.take(i - start)) && value <= 255,
            too_big ==> digits_value(d.take(i - start)) > 255,
        decreases n - i,
    {
        let c = s.get_char(i);
        if !('0' <= c && c <= '9') {
            assert(d[i - start] == s@[i as int]);
            assert(!is_digit(d[i - start]));
            return None;
        }
        proof {
            let t = d.take(i - start + 1);
            assert(t.drop_last() =~= d.take(i - start));
            assert(t.last() == c);
        }
        if !too_big {
            let next = value * 10 + (c as u32 - '0' as u32);
            if next > 255 {
                too_big = true;
            } else {
                value = next;
            }
        } else {
            proof {
                assert(digits_value(d.take(i - start + 1)) >= digits_value(d.take(i - start)) * 10);
            }
        }
        i = i + 1;
    }
    proof {
        assert(d.take(n - start) =~= d);
    }
    if too_big {
        None
    } else {
        Some(value as u8)
    }
}

/// Splits `s` at every dot.
fn split_dots(s: &str) -> (r: Vec<String>)
    ensures
        views(r@) == dot_fields(s@),
{
    let n = s.unicode_len();
    let mut fields: Vec<String> = Vec::new();
    fields.push(String::new());
    let mut i: usize = 0;
    proof {
        assert(s@.take(0) =~= Seq::<char>::empty());
        assert(views(fields@) =~= dot_fields(s@.take(0)));
    }
    while i < n
        invariant
            0 <= i <= n,
            n == s@.len(),
            views(fields@) == dot_fields(s@.take(i as int)),
            fields@.len() >= 1,
        decreases n - i,
    {
        let piece = s.substring_char(i, i + 1);
        let c = s.get_char(i);
        let ghost prefix = s@.take(i + 1);
        proof {
            assert(prefix.drop_last() =~= s@.take(i as int));
            assert(prefix.last() == c);
            assert(piece@ =~= seq![c]);
        }
        if c == '.' {
            let empty = String::new();
            proof {
                lemma_views_push(fields@, empty);
            }
            fields.push(empty);
        } else {
            let ghost before = fields@;
            let mut last = fields.pop().unwrap();
            let ghost rest = fields@;
            let ghost old_last = last;
            last.append(piece);
            proof {
                assert(before =~= rest.push(old_last));
                lemma_views_push(rest, old_last);
                lemma_views_push(rest, last);
                let f = dot_fields(s@.take(i as int));
                assert(f == views(rest).push(old_last@));
                assert(last@ =~= old_last@.push(c));
                assert(views(rest.push(last)) =~= dot_fields(prefix));
            }
            fields.push(last);
        }
        i = i + 1;
    }
    proof {
        assert(s@.take(n as int) =~= s@);
    }
    fields
}

/// Why a version could not be read.
#[derive(Clone, Copy, Debug, PartialEq, Eq, Structural)]
pub enum VersionError {
    /// Fewer than three dot-separated parts.
    MissingPart,
    /// One of the first three parts is not a byte in decimal.
    InvalidNumber,
}

/// Semantic version of a template.
#[derive(Clone, Copy, Debug, PartialEq, Eq, Structural, PartialOrd, Ord, Hash)]
pub struct Version {
    pub major: u8,
    pub minor: u8,
    pub patch: u8,
}

/// `vMAJOR.MINOR.PATCH`
pub open spec fn version_text(v: Version) -> Seq<char> {
    "v"@ + decimal(v.major as nat) + "."@ + decimal(v.minor as nat) + "."@ + decimal(
        v.patch as nat,
    )
}

impl Version {
    pub fn new(major: u8, minor: u8, patch: u8) -> (r: Self)
        ensures
            r == (Version { major, minor, patch }),
    {
        Version { major, minor, patch }
    }

    /// Increases the major version by 1.
    pub fn bump_major(&mut self)
        requires
            old(self).major < 255,
        ensures
            *final(self) == (Version { major: (old(self).major + 1) as u8, ..*old(self) }),
    {
        self.major = self.major + 1;
    }

    /// Increases the minor version by 1.
    pub fn bump_minor(&mut self)
        requires
            old(self).minor < 255,
        ensures
            *final(self) == (Version { minor: (old(self).minor + 1) as u8, ..*old(self) }),
    {
        self.minor = self.minor + 1;
    }

    /// Increases the patch version by 1.
    pub fn bump_patch(&mut self)
        requires
            old(self).patch < 255,
        ensures
            *final(self) == (Version { patch: (old(self).patch + 1) as u8, ..*old(self) }),
    {
        self.patch = self.patch + 1;
    }

    /// Sets all three parts.
    pub fn set_version(&mut self, major: u8, minor: u8, patch: u8)
        ensures
            *final(self) == (Version { major, minor, patch }),
    {
        self.major = major;
        self.minor = minor;
        self.patch = patch;
    }

    /// Reads `MAJOR.MINOR.PATCH`: the first three dot-separated parts, each a byte in
    /// decimal; parts after the third are ignored.
    pub fn from_str(s: &str) -> (r: Result<Version, VersionError>)
        ensures
            dot_fields(s@).len() < 3 <==> r == Err::<Version, VersionError>(
                VersionError::MissingPart,
            ),
            r is Ok <==> dot_fields(s@).len() >= 3 && parse_u8(dot_fields(s@)[0]) is Some
                && parse_u8(dot_fields(s@)[1]) is Some && parse_u8(dot_fields(s@)[2]) is Some,
            r matches Ok(v) ==> Some(v.major) == parse_u8(dot_fields(s@)[0]) && Some(v.minor)
                == parse_u8(dot_fields(s@)[1]) && Some(v.patch) == parse_u8(dot_fields(s@)[2]),
    {
        let fields = split_dots(s);
        if fields.len() < 3 {
            return Err(VersionError::MissingPart);
        }
        proof {
            assert(fields@[0]@ == dot_fields(s@)[0]);
            assert(fields@[1]@ == dot_fields(s@)[1]);
            assert(fields@[2]@ == dot_fields(s@)[2]);
        }
        let major = parse_byte(fields[0].as_str());
        let minor = parse_byte(fields[1].as_str());
        let patch = parse_byte(fields[2].as_str());
        match (major, minor, patch) {
            (Some(major), Some(minor), Some(patch)) => Ok(Version { major, minor, patch }),
            _ => Err(VersionError::InvalidNumber),
        }
    }

    /// `vMAJOR.MINOR.PATCH`
    pub fn to_string(&self) -> (r: String)
        ensures
            r@ == version_text(*self),
    {
        let mut r = String::from_str("v");
        let major = u8_to_decimal(self.major);
        r.append(major.as_str());
        r.append(".");
        let minor = u8_to_decimal(self.minor);
        r.append(minor.as_str());
        r.append(".");
        let patch = u8_to_decimal(self.patch);
        r.append(patch.as_str());
        r
    }
}

impl Default for Version {
    /// Version 1.0.0.
    fn default() -> (r: Self)
        ensures
            r == (Version { major: 1, minor: 0, patch: 0 }),
    {
        Version { major: 1, minor: 0, patch: 0 }
    }
}

/// A named, versioned document template.
#[derive(Debug)]
pub struct Template {
    pub name: String,
    pub description: String,
    pub version: Version,
    pub element_list: ElementList,
}

impl Template {
    /// An empty template of version 1.0.0 with a copy of `metadata`.
    pub fn new(name: &str, description: &str, metadata: &Metadata) -> (r: Self)
        ensures
            r.name@ == name@,
            r.description@ == description@,
            r.version == (Version { major: 1, minor: 0, patch: 0 }),
            r.element_list.spec_metadata() == *metadata,
            r.element_list.spec_list() == Seq::<Element>::empty(),
    {
        Template {
            name: String::from_str(name),
            description: String::from_str(description),
            version: Version::default(),
            element_list: ElementList::new(metadata),
        }
    }

    /// Appends an element.
    pub fn push_element(&mut self, element: Element)
        ensures
            final(self).element_list.spec_list() == old(self).element_list.spec_list().push(element),
            final(self).element_list.spec_metadata() == old(self).element_list.spec_metadata(),
            final(self).name == old(self).name,
            final(self).description == old(self).description,
            final(self).version == old(self).version,
    {
        self.element_list.push(element)
    }

    /// Appends the elements of `elements`, in order.
    pub fn push_element_array(&mut self, elements: Vec<Element>)
        ensures
            final(self).element_list.spec_list() == old(self).element_list.spec_list() + elements@,
            final(self).element_list.spec_metadata() == old(self).element_list.spec_metadata(),
            final(self).name == old(self).name,
            final(self).description == old(self).description,
            final(self).version == old(self).version,
    {
        self.element_list.push_array(elements)
    }

    /// Replaces the metadata.
    pub fn change_metadata(&mut self, metadata: Metadata)
        ensures
            final(self).element_list.spec_metadata() == metadata,
            final(self).element_list.spec_list() == old(self).element_list.spec_list(),
            final(self).name == old(self).name,
            final(self).description == old(self).description,
            final(self).version == old(self).version,
    {
        self.element_list.change_metadata(metadata)
    }

    /// The main text and the package text of a split rendering.
    pub fn to_latex_split_string(&self, input: Input) -> (r: (String, String))
        ensures
            r.0@ == split_main(
                self.element_list.spec_metadata(),
                self.element_list.spec_list(),
                input.spec_latex(),
            ),
            r.1@ == packages_segment(self.element_list.spec_list()),
    {
        self.element_list.to_latex_split_string(input)
    }
}

impl Tex for Template {
    open spec fn spec_latex(&self) -> Seq<char> {
        render(self.element_list.spec_metadata(), self.element_list.spec_list())
    }

    fn to_latex_string(&self) -> (r: String) {
        self.element_list.to_latex_string()
    }
}

} // verus!
