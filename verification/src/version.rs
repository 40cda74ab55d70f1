//! The decoder's version triple, packed into one 24-bit integer.

use vstd::prelude::*;
use vstd::std_specs::cmp::PartialOrdSpec;

verus! {

/// Packs a major/minor/patch triple the way the decoder reports its version:
/// each component occupies one 8-bit field of a 24-bit integer.
pub open spec fn pack_version(major: u8, minor: u8, patch: u8) -> u32 {
    ((major as u32) << 16) | ((minor as u32) << 8) | (patch as u32)
}

/// Decoder library version.
#[derive(Debug, Clone, Copy, PartialEq, Eq, Structural)]
pub struct Version {
    pub inner: u32,
}

impl Version {
    /// The major component: bits 16..24 of the packed integer.
    pub open spec fn major_spec(&self) -> u8 {
        (((self.inner & 0xFF0000) >> 16) as u8)
    }

    /// The minor component: bits 8..16 of the packed integer.
    pub open spec fn minor_spec(&self) -> u8 {
        (((self.inner & 0x00FF00) >> 8) as u8)
    }

    /// The patch component: bits 0..8 of the packed integer.
    pub open spec fn patch_spec(&self) -> u8 {
        ((self.inner & 0x0000FF) as u8)
    }

    /// Creates a new version with the given major, minor, and patch numbers.
    pub fn new(major: u8, minor: u8, patch: u8) -> (r: Version)
        ensures
            r.inner == pack_version(major, minor, patch),
            r.major_spec() == major,
            r.minor_spec() == minor,
            r.patch_spec() == patch,
    {
        let v = Version { inner: ((major as u32) << 16) | ((minor as u32) << 8) | (patch as u32) };
        proof {
            lemma_version_new_round_trips(major, minor, patch);
        }
        v
    }

    /// Wraps a packed version integer as the engine reports it.
    pub fn from_packed(inner: u32) -> (r: Version)
        ensures
            r.inner == inner,
    {
        Version { inner }
    }

    /// Returns the major version number.
    pub fn major(&self) -> (r: u8)
        ensures
            r == self.major_spec(),
    {
        ((self.inner & 0xFF0000) >> 16) as u8
    }

    /// Returns the minor version number.
    pub fn minor(&self) -> (r: u8)
        ensures
            r == self.minor_spec(),
    {
        ((self.inner & 0x00FF00) >> 8) as u8
    }

    /// Returns the patch version number.
    pub fn patch(&self) -> (r: u8)
        ensures
            r == self.patch_spec(),
    {
        (self.inner & 0x0000FF) as u8
    }

    /// The display form of the version: the three components rendered in
    /// decimal and joined by periods, and nothing else.
    pub open spec fn display_spec(&self) -> Seq<char> {
        dec_string_of(self.major_spec() as nat) + seq!['.'] + dec_string_of(
            self.minor_spec() as nat,
        ) + seq!['.'] + dec_string_of(self.patch_spec() as nat)
    }

    /// Renders the version as `major.minor.patch`.
    pub fn display_string(&self) -> (r: String)
        ensures
            r@ == self.display_spec(),
    {
        let mut s = dec_string(self.major());
        s.append(period_str());
        let m = dec_string(self.minor());
        s.append(m.as_str());
        s.append(period_str());
        let p = dec_string(self.patch());
        s.append(p.as_str());
        s
    }
}

impl PartialOrd for Version {
    fn partial_cmp(&self, other: &Version) -> (r: Option<core::cmp::Ordering>) {
        if self.inner < other.inner {
            Some(core::cmp::Ordering::Less)
        } else if self.inner == other.inner {
            Some(core::cmp::Ordering::Equal)
        } else {
            Some(core::cmp::Ordering::Greater)
        }
    }
}

impl vstd::std_specs::cmp::PartialOrdSpecImpl for Version {
    open spec fn obeys_partial_cmp_spec() -> bool {
        true
    }

    open spec fn partial_cmp_spec(&self, other: &Version) -> Option<core::cmp::Ordering> {
        if self.inner < other.inner {
            Some(core::cmp::Ordering::Less)
        } else if self.inner == other.inner {
            Some(core::cmp::Ordering::Equal)
        } else {
            Some(core::cmp::Ordering::Greater)
        }
    }
}

/// The character for one decimal digit value.
pub open spec fn digit_char(d: nat) -> char {
    if d == 0 {
        '0'
    } else if d == 1 {
        '1'
    } else if d == 2 {
        '2'
    } else if d == 3 {
        '3'
    } else if d == 4 {
        '4'
    } else if d == 5 {
        '5'
    } else if d == 6 {
        '6'
    } else if d == 7 {
        '7'
    } else if d == 8 {
        '8'
    } else {
        '9'
    }
}

/// The decimal rendering of a number: its digits in order, with no leading
/// zero except for the number zero itself.
pub open spec fn dec_string_of(n: nat) -> Seq<char>
    decreases n,
{
    if n < 10 {
        seq![digit_char(n)]
    } else {
        dec_string_of(n / 10) + seq![digit_char(n % 10)]
    }
}

/// The one-character string for a decimal digit value.
fn digit_str(d: u8) -> (r: &'static str)
    requires
        d < 10,
    ensures
        r@ == seq![digit_char(d as nat)],
{
    if d == 0 {
        proof {
            reveal_strlit("0");
            assert("0"@ =~= seq![digit_char(0)]);
        }
        "0"
    } else if d == 1 {
        proof {
            reveal_strlit("1");
            assert("1"@ =~= seq![digit_char(1)]);
        }
        "1"
    } else if d == 2 {
        proof {
            reveal_strlit("2");
            assert("2"@ =~= seq![digit_char(2)]);
        }
        "2"
    } else if d == 3 {
        proof {
            reveal_strlit("3");
            assert("3"@ =~= seq![digit_char(3)]);
        }
        "3"
    } else if d == 4 {
        proof {
            reveal_strlit("4");
            assert("4"@ =~= seq![digit_char(4)]);
        }
        "4"
    } else if d == 5 {
        proof {
            reveal_strlit("5");
            assert("5"@ =~= seq![digit_char(5)]);
        }
        "5"
    } else if d == 6 {
        proof {
            reveal_strlit("6");
            assert("6"@ =~= seq![digit_char(6)]);
        }
        "6"
    } else if d == 7 {
        proof {
            reveal_strlit("7");
            assert("7"@ =~= seq![digit_char(7)]);
        }
        "7"
    } else if d == 8 {
        proof {
            reveal_strlit("8");
            assert("8"@ =~= seq![digit_char(8)]);
        }
        "8"
    } else {
        proof {
            reveal_strlit("9");
            assert("9"@ =~= seq![digit_char(9)]);
        }
        "9"
    }
}

/// The one-character string joining the version components.
fn period_str() -> (r: &'static str)
    ensures
        r@ == seq!['.'],
{
    proof {
        reveal_strlit(".");
        assert("."@ =~= seq!['.']);
    }
    "."
}

/// Renders a byte in decimal.
fn dec_string(n: u8) -> (r: String)
    ensures
        r@ == dec_string_of(n as nat),
    decreases n,
{
    if n < 10 {
        let d = digit_str(n);
        String::from_str(d)
    } else {
        let mut s = dec_string(n / 10);
        let d = digit_str(n % 10);
        s.append(d);
        s
    }
}

/// Law: packing a version round-trips, for all byte values of the three
/// components: the component accessors recover exactly the packed inputs.
pub proof fn lemma_version_new_round_trips(major: u8, minor: u8, patch: u8)
    ensures
        (Version { inner: pack_version(major, minor, patch) }).major_spec() == major,
        (Version { inner: pack_version(major, minor, patch) }).minor_spec() == minor,
        (Version { inner: pack_version(major, minor, patch) }).patch_spec() == patch,
        pack_version(major, minor, patch) < 0x1000000,
{
    assert((((((major as u32) << 16) | ((minor as u32) << 8) | (patch as u32)) & 0xFF0000)
        >> 16) as u8 == major) by (bit_vector);
    assert((((((major as u32) << 16) | ((minor as u32) << 8) | (patch as u32)) & 0x00FF00)
        >> 8) as u8 == minor) by (bit_vector);
    assert(((((major as u32) << 16) | ((minor as u32) << 8) | (patch as u32)) & 0x0000FF) as u8
        == patch) by (bit_vector);
    assert((((major as u32) << 16) | ((minor as u32) << 8) | (patch as u32)) < 0x1000000)
        by (bit_vector);
}

/// Law: comparison of the packed integers agrees with component-wise
/// lexicographic comparison of the (major, minor, patch) triples.
pub proof fn lemma_version_order_is_lexicographic(
    major1: u8,
    minor1: u8,
    patch1: u8,
    major2: u8,
    minor2: u8,
    patch2: u8,
)
    ensures
        (pack_version(major1, minor1, patch1) < pack_version(major2, minor2, patch2)) <==> (major1
            < major2 || (major1 == major2 && (minor1 < minor2 || (minor1 == minor2 && patch1
            < patch2)))),
        (pack_version(major1, minor1, patch1) == pack_version(major2, minor2, patch2)) <==> (major1
            == major2 && minor1 == minor2 && patch1 == patch2),
        ((Version { inner: pack_version(major1, minor1, patch1) }).partial_cmp_spec(
            &(Version { inner: pack_version(major2, minor2, patch2) }),
        ) == Some(core::cmp::Ordering::Less)) <==> (major1 < major2 || (major1 == major2 && (minor1
            < minor2 || (minor1 == minor2 && patch1 < patch2)))),
{
    assert(((((major1 as u32) << 16) | ((minor1 as u32) << 8) | (patch1 as u32)) < (((
    major2 as u32) << 16) | ((minor2 as u32) << 8) | (patch2 as u32))) <==> (major1 < major2 || (
    major1 == major2 && (minor1 < minor2 || (minor1 == minor2 && patch1 < patch2)))))
        by (bit_vector);
    assert(((((major1 as u32) << 16) | ((minor1 as u32) << 8) | (patch1 as u32)) == (((
    major2 as u32) << 16) | ((minor2 as u32) << 8) | (patch2 as u32))) <==> (major1 == major2
        && minor1 == minor2 && patch1 == patch2)) by (bit_vector);
}

} // verus!
