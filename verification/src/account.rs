//! Account identifiers and their validity rules.
//!
//! Every call the driver issues is addressed to, or signed by, an account,
//! and the sandbox network rejects malformed identifiers when an account is
//! created.  An identifier is well formed when it is between
//! [`MIN_ACCOUNT_ID_LEN`] and [`MAX_ACCOUNT_ID_LEN`] characters long and
//! consists of runs of lowercase ASCII letters and digits joined by single
//! `.`, `-` or `_` separators; a separator may not begin or end the
//! identifier, and two separators may not be adjacent.
//!
//! [`AccountId::parse`] is the only constructor, so holding an [`AccountId`]
//! is holding a proof that the identifier is well formed.

use vstd::prelude::*;

verus! {

/// The shortest identifier the network accepts.
pub const MIN_ACCOUNT_ID_LEN: usize = 2;

/// The longest identifier the network accepts.
pub const MAX_ACCOUNT_ID_LEN: usize = 64;

/// A separator joining two alphanumeric runs of an account identifier.
pub open spec fn is_separator(c: char) -> bool {
    c == '.' || c == '-' || c == '_'
}

/// A character an account identifier may contain: a lowercase ASCII letter,
/// an ASCII digit, or a separator.
pub open spec fn is_id_char(c: char) -> bool {
    ||| 'a' <= c <= 'z'
    ||| '0' <= c <= '9'
    ||| is_separator(c)
}

/// A flaw at position `i` of a candidate identifier: a character outside
/// the allowed set, or a separator that does not follow an alphanumeric
/// character.
pub open spec fn flaw_at(s: Seq<char>, i: int) -> bool {
    ||| !is_id_char(s[i])
    ||| is_separator(s[i]) && (i == 0 || is_separator(s[i - 1]))
}

/// No flaw strictly before position `i`.
pub open spec fn flawless_before(s: Seq<char>, i: int) -> bool {
    forall|j: int| 0 <= j < i ==> !flaw_at(s, j)
}

/// A well-formed account identifier: acceptable length, no flaw at any
/// position, and no trailing separator.
pub open spec fn valid_account_id(s: Seq<char>) -> bool {
    &&& MIN_ACCOUNT_ID_LEN <= s.len() <= MAX_ACCOUNT_ID_LEN
    &&& forall|i: int| 0 <= i < s.len() ==> !flaw_at(s, i)
    &&& !is_separator(s[s.len() - 1])
}

/// The first flaw of a candidate identifier of acceptable length is a
/// character outside the allowed set (rather than a misplaced separator).
pub open spec fn first_flaw_is_invalid_char(s: Seq<char>) -> bool {
    exists|i: int| 0 <= i < s.len() && flawless_before(s, i) && !is_id_char(s[i])
}

/// A valid account identifier holds ASCII characters only: every allowed
/// character lies below `0x80`.
pub proof fn lemma_valid_id_is_ascii(s: Seq<char>)
    requires
        valid_account_id(s),
    ensures
        vstd::utf8::is_ascii_chars(s),
{
    assert forall|i: int| 0 <= i < s.len() implies '\0' <= #[trigger] s[i] <= '\u{7f}' by {
        assert(!flaw_at(s, i));
        assert(is_id_char(s[i]));
    }
}

/// Why a candidate account identifier was rejected.
#[derive(Debug, Clone, Copy, PartialEq, Eq, Structural)]
pub enum ParseAccountError {
    /// Shorter than [`MIN_ACCOUNT_ID_LEN`] characters.
    TooShort,
    /// Longer than [`MAX_ACCOUNT_ID_LEN`] characters.
    TooLong,
    /// Holds a character outside lowercase ASCII letters, digits and
    /// separators, at the first flawed position.
    InvalidChar,
    /// A separator begins the identifier, ends it, or follows another
    /// separator, at the first flawed position.
    RedundantSeparator,
}

/// A validated account identifier.
#[derive(Debug)]
pub struct AccountId {
    id: String,
}

impl View for AccountId {
    type V = Seq<char>;

    closed spec fn view(&self) -> Seq<char> {
        self.id@
    }
}

impl AccountId {
    /// Well-formedness: the wrapped identifier is valid.  Established by
    /// [`AccountId::parse`] and preserved thereafter (the field is never
    /// mutated).
    pub open spec fn wf(&self) -> bool {
        valid_account_id(self@)
    }

    /// Validate a candidate identifier and wrap it.
    ///
    /// Succeeds exactly on well-formed identifiers; a rejection names the
    /// first check that failed, in the order: too short, too long, first
    /// flawed position (invalid character before misplaced separator),
    /// trailing separator.
    pub fn parse(id: &str) -> (r: Result<AccountId, ParseAccountError>)
        ensures
            r matches Ok(a) ==> a.wf() && a@ == id@,
            r is Ok <==> valid_account_id(id@),
            r matches Err(ParseAccountError::TooShort) <==> id@.len() < MIN_ACCOUNT_ID_LEN,
            r matches Err(ParseAccountError::TooLong)
                <==> MIN_ACCOUNT_ID_LEN <= id@.len() && id@.len() > MAX_ACCOUNT_ID_LEN,
            r matches Err(ParseAccountError::InvalidChar)
                <==> MIN_ACCOUNT_ID_LEN <= id@.len() <= MAX_ACCOUNT_ID_LEN
                    && first_flaw_is_invalid_char(id@),
            r matches Err(ParseAccountError::RedundantSeparator)
                <==> MIN_ACCOUNT_ID_LEN <= id@.len() <= MAX_ACCOUNT_ID_LEN
                    && !valid_account_id(id@)
                    && !first_flaw_is_invalid_char(id@),
    {
        let n = id.unicode_len();
        if n < MIN_ACCOUNT_ID_LEN {
            return Err(ParseAccountError::TooShort);
        }
        if n > MAX_ACCOUNT_ID_LEN {
            return Err(ParseAccountError::TooLong);
        }
        let mut i: usize = 0;
        let mut prev_sep = true;
        while i < n
            invariant
                n == id@.len(),
                MIN_ACCOUNT_ID_LEN <= n <= MAX_ACCOUNT_ID_LEN,
                i <= n,
                flawless_before(id@, i as int),
                i == 0 ==> prev_sep,
                i > 0 ==> prev_sep == is_separator(id@[i as int - 1]),
            decreases n - i,
        {
            let c = id.get_char(i);
            let sep = c == '.' || c == '-' || c == '_';
            let allowed = ('a' <= c && c <= 'z') || ('0' <= c && c <= '9') || sep;
            if !allowed {
                proof {
                    assert(0 <= i < id@.len() && flawless_before(id@, i as int)
                        && !is_id_char(id@[i as int]));
                    assert(flaw_at(id@, i as int));
                }
                return Err(ParseAccountError::InvalidChar);
            }
            if sep && prev_sep {
                proof {
                    assert(flaw_at(id@, i as int));
                    assert forall|j: int|
                        0 <= j < id@.len() && flawless_before(id@, j) implies is_id_char(
                        id@[j],
                    ) by {
                        if j < i {
                            assert(!flaw_at(id@, j));
                        } else if j > i {
                            assert(!flaw_at(id@, i as int));
                        }
                    }
                }
                return Err(ParseAccountError::RedundantSeparator);
            }
            prev_sep = sep;
            i = i + 1;
        }
        if prev_sep {
            proof {
                assert(is_separator(id@[n - 1]));
                assert forall|j: int|
                    0 <= j < id@.len() && flawless_before(id@, j) implies is_id_char(
                    id@[j],
                ) by {
                    assert(!flaw_at(id@, j));
                }
            }
            return Err(ParseAccountError::RedundantSeparator);
        }
        proof {
            assert forall|j: int|
                0 <= j < id@.len() && flawless_before(id@, j) implies is_id_char(id@[j]) by {
                assert(!flaw_at(id@, j));
            }
        }
        Ok(AccountId { id: id.to_owned() })
    }

    /// The identifier as a string slice.
    pub fn as_str(&self) -> (r: &str)
        ensures
            r@ == self@,
    {
        self.id.as_str()
    }
}

impl Clone for AccountId {
    /// Cloning keeps the identifier's characters, and with them
    /// well-formedness.
    fn clone(&self) -> (r: Self)
        ensures
            r@ == self@,
    {
        AccountId { id: self.id.clone() }
    }
}

} // verus!

