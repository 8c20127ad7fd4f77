//! The `Clock` and `IdGenerator` ports: the system's UTC time and random
//! UUIDs, plus a fixed clock and sequential identifiers for tests.

use vstd::prelude::*;
use vstd::cell::invcell::InvCell;

use crate::domain::shared::{Clock, IdGenerator};
use crate::text::{copy_str, pad_zeros, push_chars, u64_to_decimal, zero_pad, decimal};

verus! {

/// `chrono::Utc::now()` as RFC 3339 with whole seconds and a `Z` suffix.
/// What time it is depends on the machine, so nothing is stated of it.
#[verifier::external_body]
fn utc_now_rfc3339() -> String {
    chrono::Utc::now().to_rfc3339_opts(chrono::SecondsFormat::Secs, true)
}

/// A lower-case hexadecimal digit.
pub open spec fn is_lower_hex(c: char) -> bool {
    ('0' <= c && c <= '9') || ('a' <= c && c <= 'f')
}

/// The character at position `i` of a hyphenated UUID text: a hyphen
/// between the groups, a lower-case hexadecimal digit elsewhere.
pub open spec fn uuid_char(i: int, c: char) -> bool {
    if i == 8 || i == 13 || i == 18 || i == 23 {
        c == '-'
    } else {
        is_lower_hex(c)
    }
}

/// The hyphenated lower-case text of a random (version 4, RFC 4122
/// variant) UUID: five groups of 8, 4, 4, 4 and 12 digits, the version
/// digit `4`, the variant digit one of `8`, `9`, `a`, `b`.
pub open spec fn uuid_v4_text(s: Seq<char>) -> bool {
    &&& s.len() == 36
    &&& forall|i: int| 0 <= i < 36 ==> uuid_char(i, #[trigger] s[i])
    &&& s[14] == '4'
    &&& (s[19] == '8' || s[19] == '9' || s[19] == 'a' || s[19] == 'b')
}

/// `uuid::Uuid::new_v4()` in its `to_string` form. Which UUID comes is
/// random; what is stated is the form every one has: `new_v4` sets the
/// version and variant bits, and `Display` writes the hyphenated
/// lower-case form.
#[verifier::external_body]
fn random_uuid() -> (id: String)
    ensures
        uuid_v4_text(id@),
{
    uuid::Uuid::new_v4().to_string()
}

/// The system clock (UTC, RFC 3339, seconds).
pub struct SystemClock;

impl Clock for SystemClock {
    fn now_rfc3339(&self) -> String {
        utc_now_rfc3339()
    }
}

/// Random (version 4) UUIDs.
pub struct UuidGenerator;

impl IdGenerator for UuidGenerator {
    fn new_id(&self) -> (id: String)
        ensures
            uuid_v4_text(id@),
    {
        random_uuid()
    }
}

/// A clock that always tells the same time.
pub struct FixedClock {
    now: String,
}

impl FixedClock {
    pub closed spec fn time(&self) -> Seq<char> {
        self.now@
    }

    pub fn new(now: &str) -> (c: FixedClock)
        ensures
            c.time() == now@,
    {
        FixedClock { now: copy_str(now) }
    }

    /// The time it tells.
    pub fn now(&self) -> (t: String)
        ensures
            t@ == self.time(),
    {
        self.now.clone()
    }
}

impl Clock for FixedClock {
    fn now_rfc3339(&self) -> (t: String)
        ensures
            t@ == self.time(),
    {
        self.now()
    }
}

/// The identifier with number `n`: `id-` and the number, at least four digits.
pub open spec fn sequential_id(n: nat) -> Seq<char> {
    "id-"@ + zero_pad(decimal(n), 4)
}

/// Identifiers `id-0001`, `id-0002`, … in the order they are asked for.
pub struct SequentialIds {
    next: InvCell<u64, spec_fn(u64) -> bool>,
}

impl SequentialIds {
    #[verifier::type_invariant]
    spec fn counts_from_one(self) -> bool {
        self.next.predicate() == (|v: u64| v >= 1)
    }

    pub fn new() -> Self {
        SequentialIds { next: InvCell::new(1u64, Ghost(|v: u64| v >= 1)) }
    }

    /// The next identifier; every identifier given has the form of
    /// [`sequential_id`].
    pub fn next_id(&self) -> (id: String)
        ensures
            exists|n: nat| n >= 1 && id@ == #[trigger] sequential_id(n),
    {
        proof {
            use_type_invariant(self);
        }
        let n = self.next.get();
        if n < u64::MAX {
            self.next.set(n + 1);
        }
        let mut id = copy_str("id-");
        let digits = u64_to_decimal(n);
        let padded = pad_zeros(&digits, 4);
        push_chars(&mut id, &padded);
        proof {
            reveal_strlit("id-");
            assert(id@ == sequential_id(n as nat));
        }
        id
    }
}

impl IdGenerator for SequentialIds {
    fn new_id(&self) -> (id: String)
        ensures
            exists|n: nat| n >= 1 && id@ == #[trigger] sequential_id(n),
    {
        self.next_id()
    }
}

} // verus!
