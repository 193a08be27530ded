//! Correlation identifiers: sixteen octets, written as hyphenated lowercase
//! hexadecimal.

use vstd::prelude::*;
use vstd::string::*;
use crate::json::hex_char;

verus! {

/// The two lowercase hexadecimal digits of an octet.
pub open spec fn hex_octet(b: u8) -> Seq<char> {
    seq![hex_char((b / 16) as nat), hex_char((b % 16) as nat)]
}

/// The hexadecimal digits of a run of octets.
pub open spec fn hex_run(b: Seq<u8>) -> Seq<char>
    decreases b.len(),
{
    if b.len() == 0 {
        Seq::empty()
    } else {
        hex_run(b.drop_last()) + hex_octet(b.last())
    }
}

/// The hyphenated form of sixteen octets: groups of four, two, two, two and
/// six octets, joined by hyphens.
pub open spec fn uuid_text(b: Seq<u8>) -> Seq<char> {
    hex_run(b.subrange(0, 4)) + seq!['-'] + hex_run(b.subrange(4, 6)) + seq!['-'] + hex_run(
        b.subrange(6, 8),
    ) + seq!['-'] + hex_run(b.subrange(8, 10)) + seq!['-'] + hex_run(b.subrange(10, 16))
}

/// The octets that the text of a UUID names, or `None` where the text is no
/// UUID.
pub uninterp spec fn uuid_octets_of(s: Seq<char>) -> Option<Seq<u8>>;

#[verifier::external_type_specification]
#[verifier::external_body]
pub struct ExUuidParseError(uuid::parser::ParseError);

/// Relies on uuid::Uuid::parse_str and uuid::Uuid::as_bytes: whether a text
/// parses, and the octets it names, depend on the text alone.
#[verifier::external_body]
fn parse_uuid_octets(s: &str) -> (r: Result<[u8; 16], uuid::parser::ParseError>)
    ensures
        r matches Ok(b) ==> uuid_octets_of(s@) == Some(b@),
        r is Err ==> uuid_octets_of(s@) is None,
{
    uuid::Uuid::parse_str(s).map(|u| *u.as_bytes())
}

/// An identifier that ties related events together.
#[derive(Clone, Copy, Debug)]
pub struct CorrelationId {
    octets: [u8; 16],
}

impl CorrelationId {
    pub closed spec fn spec_octets(&self) -> Seq<u8> {
        self.octets@
    }

    /// The identifier made of the given octets.
    pub fn from_octets(octets: [u8; 16]) -> (r: CorrelationId)
        ensures
            r.spec_octets() == octets@,
    {
        CorrelationId { octets }
    }

    /// The octets of the identifier.
    pub fn octets(&self) -> (r: [u8; 16])
        ensures
            r@ == self.spec_octets(),
    {
        self.octets
    }

    /// Parses the simple, hyphenated or URN text of a UUID; hexadecimal digits
    /// may be of either case.
    pub fn parse_str(s: &str) -> (r: Result<CorrelationId, crate::error::EchoError>)
        ensures
            r matches Ok(id) ==> uuid_octets_of(s@) == Some(id.spec_octets()),
            r matches Err(e) ==> uuid_octets_of(s@) is None && e.kind() is ParseUuid,
    {
        match parse_uuid_octets(s) {
            Ok(octets) => Ok(CorrelationId { octets }),
            Err(e) => Err(crate::error::EchoError::from(crate::error::ErrKind::ParseUuid(e))),
        }
    }

    /// The hyphenated lowercase text of the identifier.
    pub fn to_hyphenated(&self) -> (r: String)
        ensures
            r@ == uuid_text(self.spec_octets()),
    {
        let mut out = String::new();
        push_hex_run(&mut out, &self.octets, 0, 4);
        out.append("-");
        push_hex_run(&mut out, &self.octets, 4, 6);
        out.append("-");
        push_hex_run(&mut out, &self.octets, 6, 8);
        out.append("-");
        push_hex_run(&mut out, &self.octets, 8, 10);
        out.append("-");
        push_hex_run(&mut out, &self.octets, 10, 16);
        proof {
            reveal_strlit("-");
            assert(out@ =~= uuid_text(self.spec_octets()));
        }
        out
    }
}

impl PartialEq for CorrelationId {
    /// The same sixteen octets.
    fn eq(&self, other: &CorrelationId) -> (r: bool) {
        let mut i: usize = 0;
        while i < 16
            invariant
                i <= 16,
                self.octets@.take(i as int) == other.octets@.take(i as int),
            decreases 16 - i,
        {
            if self.octets[i] != other.octets[i] {
                return false;
            }
            proof {
                assert(self.octets@.take(i + 1) =~= self.octets@.take(i as int).push(self.octets@[i as int]));
                assert(other.octets@.take(i + 1) =~= other.octets@.take(i as int).push(other.octets@[i as int]));
            }
            i = i + 1;
        }
        proof {
            assert(self.octets@.take(16) =~= self.octets@);
            assert(other.octets@.take(16) =~= other.octets@);
        }
        true
    }
}

impl vstd::std_specs::cmp::PartialEqSpecImpl for CorrelationId {
    open spec fn obeys_eq_spec() -> bool {
        true
    }

    open spec fn eq_spec(&self, other: &CorrelationId) -> bool {
        self.spec_octets() == other.spec_octets()
    }
}

/// The text of one hexadecimal digit.
fn hex_digit_str(d: u8) -> (r: &'static str)
    requires
        d < 16,
    ensures
        r@ == seq![hex_char(d as nat)],
{
    if d < 10 {
        crate::json::digit_str(d as u64)
    } else if d == 10 {
        proof { reveal_strlit("a"); }
        "a"
    } else if d == 11 {
        proof { reveal_strlit("b"); }
        "b"
    } else if d == 12 {
        proof { reveal_strlit("c"); }
        "c"
    } else if d == 13 {
        proof { reveal_strlit("d"); }
        "d"
    } else if d == 14 {
        proof { reveal_strlit("e"); }
        "e"
    } else {
        proof { reveal_strlit("f"); }
        "f"
    }
}

/// Appends the hexadecimal digits of the octets in `b[from..to]`.
fn push_hex_run(out: &mut String, b: &[u8; 16], from: usize, to: usize)
    requires
        from <= to <= 16,
    ensures
        final(out)@ == old(out)@ + hex_run(b@.subrange(from as int, to as int)),
{
    let mut i = from;
    while i < to
        invariant
            from <= i <= to <= 16,
            out@ == old(out)@ + hex_run(b@.subrange(from as int, i as int)),
        decreases to - i,
    {
        let o = b[i];
        out.append(hex_digit_str(o / 16));
        out.append(hex_digit_str(o % 16));
        proof {
            let run = b@.subrange(from as int, i + 1);
            assert(run.drop_last() =~= b@.subrange(from as int, i as int));
        }
        i = i + 1;
    }
}

} // verus!
