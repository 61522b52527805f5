use vstd::prelude::*;

pub mod decimal;

verus! {

use crate::decimal::{spec_decimal, spec_parse_decimal, u8_decimal, lemma_decimal_round_trip};

/// What the farewell message for a subject and a tag value reads:
/// `Goodbye, {subject} ({n})!`, with the tag in decimal.
pub open spec fn spec_message(subject: Seq<char>, n: u8) -> Seq<char> {
    "Goodbye, "@ + subject + " ("@ + spec_decimal(n as nat) + ")!"@
}

/// A named subject from which farewell messages are rendered.
pub struct Farewell {
    subject: String,
}

impl View for Farewell {
    type V = Seq<char>;

    closed spec fn view(&self) -> Seq<char> {
        self.subject@
    }
}

impl Farewell {
    /// Stores an owned copy of the subject text.
    pub fn new(subject: &str) -> (r: Farewell)
        ensures
            r@ == subject@,
    {
        Farewell { subject: subject.to_owned() }
    }

    /// Renders the farewell message with a given tag value.
    pub fn message_with(&self, n: u8) -> (r: String)
        ensures
            r@ == spec_message(self@, n),
    {
        let mut s = String::from_str("Goodbye, ");
        s.append(self.subject.as_str());
        s.append(" (");
        let tag = u8_decimal(n);
        s.append(tag.as_str());
        s.append(")!");
        proof {
            assert(s@ =~= spec_message(self@, n));
        }
        s
    }

    /// Renders the farewell message with a freshly drawn random tag.
    pub fn say(&self) -> (r: String)
        ensures
            exists|n: u8| r@ == spec_message(self@, n),
    {
        let v = random_byte();
        let r = self.message_with(v);
        proof {
            assert(r@ == spec_message(self@, v));
        }
        r
    }
}

/// Whether `s` begins with the prefix `p`.
pub open spec fn starts_with(s: Seq<char>, p: Seq<char>) -> bool {
    p.len() <= s.len() && s.subrange(0, p.len() as int) == p
}

/// Whether `s` ends with the suffix `p`.
pub open spec fn ends_with(s: Seq<char>, p: Seq<char>) -> bool {
    p.len() <= s.len() && s.subrange(s.len() - p.len(), s.len() as int) == p
}

/// Every farewell message begins with `Goodbye, `, then the subject, then ` (`.
pub proof fn lemma_message_prefix(subject: Seq<char>, n: u8)
    ensures
        starts_with(spec_message(subject, n), "Goodbye, "@ + subject + " ("@),
{
    let p = "Goodbye, "@ + subject + " ("@;
    let m = spec_message(subject, n);
    assert(m.subrange(0, p.len() as int) =~= p);
}

/// Every farewell message ends with `)!`.
pub proof fn lemma_message_suffix(subject: Seq<char>, n: u8)
    ensures
        ends_with(spec_message(subject, n), ")!"@),
{
    let p = ")!"@;
    let m = spec_message(subject, n);
    assert(m.subrange(m.len() - p.len(), m.len() as int) =~= p);
}

/// The digits between ` (` and `)!` in a farewell message parse back to the
/// tag value, which lies in the inclusive range 0 to 255.
pub proof fn lemma_message_tag(subject: Seq<char>, n: u8)
    ensures
        ({
            let m = spec_message(subject, n);
            let start = ("Goodbye, "@ + subject + " ("@).len() as int;
            &&& spec_parse_decimal(m.subrange(start, m.len() - 2)) == n as nat
            &&& n as nat <= 255
        }),
{
    let m = spec_message(subject, n);
    let start = ("Goodbye, "@ + subject + " ("@).len() as int;
    reveal_strlit(")!");
    assert(m.subrange(start, m.len() - 2) =~= spec_decimal(n as nat));
    lemma_decimal_round_trip(n as nat);
}

/// Relies on rand::random: a byte drawn uniformly from the process-wide
/// generator. Nothing is assumed of the value beyond its type.
#[verifier::external_body]
fn random_byte() -> u8 {
    rand::random()
}

} // verus!
