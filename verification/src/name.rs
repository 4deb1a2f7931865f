//! Plugin name validation and the naming variants derived from a validated
//! name.
//!
//! A valid plugin name is non-empty, starts with an ASCII letter, and all its
//! remaining characters are ASCII alphanumeric, hyphen, or underscore. Such a
//! name is safe to use both as a shell-identifier fragment and as a filesystem
//! path segment.

use vstd::prelude::*;

verus! {

use vstd::string::StrSliceExecFns;
use crate::error::Error;

/// Classifies how a candidate plugin name broke the naming rules.
#[derive(Clone, Copy, Debug, PartialEq, Eq, Hash)]
pub enum NameErrorKind {
    /// The name string was empty.
    Empty,
    /// The first character was not an ASCII letter.
    InvalidInitialChar,
    /// A character after the first was not alphanumeric, hyphen, or
    /// underscore.
    InvalidChar,
}

impl NameErrorKind {
    /// The human-readable explanation of the naming violation.
    pub fn message(&self) -> (r: &str)
        ensures
            *self is Empty ==> r@ == "Name cannot be empty"@,
            *self is InvalidInitialChar ==> r@
                == "Initial character must be an ASCII alphabetic character"@,
            *self is InvalidChar ==> r@ == "Characters must be ASCII alphanumeric, '-', or '_'"@,
    {
        match self {
            NameErrorKind::Empty => "Name cannot be empty",
            NameErrorKind::InvalidInitialChar => {
                "Initial character must be an ASCII alphabetic character"
            },
            NameErrorKind::InvalidChar => "Characters must be ASCII alphanumeric, '-', or '_'",
        }
    }
}

pub open spec fn is_ascii_letter(c: char) -> bool {
    ('a' <= c && c <= 'z') || ('A' <= c && c <= 'Z')
}

pub open spec fn is_ascii_digit(c: char) -> bool {
    '0' <= c && c <= '9'
}

/// The characters allowed after the first one: alphanumeric, hyphen,
/// underscore.
pub open spec fn is_name_char(c: char) -> bool {
    is_ascii_letter(c) || is_ascii_digit(c) || c == '-' || c == '_'
}

/// The naming rule: non-empty, an ASCII letter first, then only alphanumeric,
/// hyphen, or underscore characters.
pub open spec fn valid_name(s: Seq<char>) -> bool {
    &&& s.len() > 0
    &&& is_ascii_letter(s[0])
    &&& forall|i: int| 1 <= i < s.len() ==> is_name_char(#[trigger] s[i])
}

/// The name with every hyphen replaced by an underscore: safe as a shell
/// identifier and as a filename stem.
pub open spec fn underscored(s: Seq<char>) -> Seq<char> {
    s.map_values(|c: char| if c == '-' { '_' } else { c })
}

/// One character mapped to upper case, for the ASCII letters.
pub open spec fn upper_char(c: char) -> char {
    if 'a' <= c && c <= 'z' {
        ((c as u32) - 32) as char
    } else {
        c
    }
}

/// The name in shouting case, for use as a shell variable name.
pub open spec fn shouted(s: Seq<char>) -> Seq<char> {
    s.map_values(|c: char| upper_char(c))
}

/// A validated plugin name.
///
/// The wrapped string always satisfies [`valid_name`]; values are constructed
/// only through [`Name::new`] and never change afterwards.
#[derive(Clone, Debug, PartialEq, Eq, Hash)]
pub struct Name {
    inner: String,
}

impl View for Name {
    type V = Seq<char>;

    closed spec fn view(&self) -> Seq<char> {
        self.inner@
    }
}

fn letter(c: char) -> (r: bool)
    ensures
        r == is_ascii_letter(c),
{
    ('a' <= c && c <= 'z') || ('A' <= c && c <= 'Z')
}

fn name_char(c: char) -> (r: bool)
    ensures
        r == is_name_char(c),
{
    letter(c) || ('0' <= c && c <= '9') || c == '-' || c == '_'
}

impl Name {
    /// The naming invariant carried by every constructed value.
    pub open spec fn wf(&self) -> bool {
        valid_name(self@)
    }

    /// Validates a candidate plugin name.
    ///
    /// Succeeds exactly on the strings that satisfy [`valid_name`], returning
    /// the string unchanged; classifies every rejected string by the first
    /// rule it breaks.
    pub fn new(s: &str) -> (r: Result<Name, Error>)
        ensures
            r is Ok <==> valid_name(s@),
            r matches Ok(n) ==> n@ == s@ && n.wf(),
            s@.len() == 0 ==> r == Err::<Name, Error>(
                Error::InvalidName { kind: NameErrorKind::Empty },
            ),
            s@.len() > 0 && !is_ascii_letter(s@[0]) ==> r == Err::<Name, Error>(
                Error::InvalidName { kind: NameErrorKind::InvalidInitialChar },
            ),
            s@.len() > 0 && is_ascii_letter(s@[0]) && !valid_name(s@) ==> r == Err::<Name, Error>(
                Error::InvalidName { kind: NameErrorKind::InvalidChar },
            ),
    {
        let n = s.unicode_len();
        if n == 0 {
            return Err(Error::InvalidName { kind: NameErrorKind::Empty });
        }
        if !letter(s.get_char(0)) {
            return Err(Error::InvalidName { kind: NameErrorKind::InvalidInitialChar });
        }
        let mut i: usize = 1;
        while i < n
            invariant
                1 <= i <= n,
                n == s@.len(),
                is_ascii_letter(s@[0]),
                forall|j: int| 1 <= j < i ==> is_name_char(#[trigger] s@[j]),
            decreases n - i,
        {
            if !name_char(s.get_char(i)) {
                return Err(Error::InvalidName { kind: NameErrorKind::InvalidChar });
            }
            i += 1;
        }
        Ok(Name { inner: s.to_owned() })
    }

    /// The name exactly as the user typed it, hyphens preserved.
    pub fn as_str(&self) -> (r: &str)
        ensures
            r@ == self@,
    {
        self.inner.as_str()
    }

    /// The name with every hyphen replaced by an underscore.
    pub fn normalized(&self) -> (r: String)
        ensures
            r@ == underscored(self@),
    {
        let s = self.inner.as_str();
        let n = s.unicode_len();
        let mut out = String::new();
        let mut i: usize = 0;
        while i < n
            invariant
                i <= n,
                n == s@.len(),
                s@ == self@,
                out@ == underscored(self@).take(i as int),
            decreases n - i,
        {
            let c = s.get_char(i);
            let d = if c == '-' {
                '_'
            } else {
                c
            };
            out.push(d);
            proof {
                assert(underscored(self@).take((i + 1) as int) =~= underscored(self@).take(
                    i as int,
                ).push(underscored(self@)[i as int]));
            }
            i += 1;
        }
        proof {
            assert(underscored(self@).take(n as int) =~= underscored(self@));
        }
        out
    }

    /// The shouting-case variable name: the normalized name upper-cased.
    pub fn var_name(&self) -> (r: String)
        ensures
            r@ == shouted(underscored(self@)),
    {
        let normalized = self.normalized();
        let s = normalized.as_str();
        let n = s.unicode_len();
        let mut out = String::new();
        let mut i: usize = 0;
        while i < n
            invariant
                i <= n,
                n == s@.len(),
                s@ == underscored(self@),
                out@ == shouted(underscored(self@)).take(i as int),
            decreases n - i,
        {
            let c = to_upper(s.get_char(i));
            out.push(c);
            proof {
                assert(shouted(underscored(self@)).take((i + 1) as int) =~= shouted(
                    underscored(self@),
                ).take(i as int).push(shouted(underscored(self@))[i as int]));
            }
            i += 1;
        }
        proof {
            assert(shouted(underscored(self@)).take(n as int) =~= shouted(underscored(self@)));
        }
        out
    }
}

fn to_upper(c: char) -> (r: char)
    ensures
        r == upper_char(c),
{
    match c {
        'a' => 'A',
        'b' => 'B',
        'c' => 'C',
        'd' => 'D',
        'e' => 'E',
        'f' => 'F',
        'g' => 'G',
        'h' => 'H',
        'i' => 'I',
        'j' => 'J',
        'k' => 'K',
        'l' => 'L',
        'm' => 'M',
        'n' => 'N',
        'o' => 'O',
        'p' => 'P',
        'q' => 'Q',
        'r' => 'R',
        's' => 'S',
        't' => 'T',
        'u' => 'U',
        'v' => 'V',
        'w' => 'W',
        'x' => 'X',
        'y' => 'Y',
        'z' => 'Z',
        _ => c,
    }
}

/// The normalized name is the display name with each hyphen replaced by an
/// underscore, and the shouting-case variable name is the normalized name
/// upper-cased, character for character, for every valid identifier.
pub proof fn lemma_derived_names(n: Name)
    requires
        n.wf(),
    ensures
        underscored(n@).len() == n@.len(),
        forall|i: int|
            0 <= i < n@.len() ==> underscored(n@)[i] == (if n@[i] == '-' {
                '_'
            } else {
                n@[i]
            }),
        shouted(underscored(n@)).len() == n@.len(),
        forall|i: int|
            0 <= i < n@.len() ==> shouted(underscored(n@))[i] == upper_char(underscored(n@)[i]),
{
}

impl core::str::FromStr for Name {
    type Err = Error;

    fn from_str(s: &str) -> Result<Self, Self::Err> {
        Name::new(s)
    }
}

impl vstd::std_specs::convert::FromSpecImpl<Name> for String {
    open spec fn obeys_from_spec() -> bool {
        true
    }

    closed spec fn from_spec(v: Name) -> String {
        v.inner
    }
}

impl From<Name> for String {
    fn from(v: Name) -> (r: String)
        ensures
            r@ == v@,
    {
        v.inner
    }
}

} // verus!
