//! Safety classification levels for cross-chain messages.
//!
//! A message carries one of six safety levels, ordered from strongest to
//! weakest guarantee. The level renders to a fixed lowercase, hyphenated
//! token, and parses back from text case-insensitively with a small set of
//! accepted aliases. A separate, stricter decoding path accepts the canonical
//! tokens only, for structured-data formats.
use vstd::prelude::*;
use vstd::utf8::is_ascii_chars;

pub mod text;

verus! {

/// The safety level of a message.
#[derive(Debug, Clone, Copy, PartialEq, Eq, Structural)]
pub enum SafetyLevel {
    /// The message is finalized.
    Finalized,
    /// The message is safe.
    Safe,
    /// The message is safe locally.
    LocalSafe,
    /// The message is unsafe across chains.
    CrossUnsafe,
    /// The message is unsafe.
    Unsafe,
    /// The message is invalid.
    Invalid,
}

/// The canonical lowercase, hyphenated token for each level.
pub open spec fn spec_canonical_token(level: SafetyLevel) -> Seq<char> {
    match level {
        SafetyLevel::Finalized => "finalized"@,
        SafetyLevel::Safe => "safe"@,
        SafetyLevel::LocalSafe => "local-safe"@,
        SafetyLevel::CrossUnsafe => "cross-unsafe"@,
        SafetyLevel::Unsafe => "unsafe"@,
        SafetyLevel::Invalid => "invalid"@,
    }
}

impl SafetyLevel {
    /// The canonical string rendering of the level: total, never fails.
    pub fn to_display_string(&self) -> (r: String)
        ensures
            r@ == spec_canonical_token(*self),
    {
        match self {
            SafetyLevel::Finalized => "finalized".to_owned(),
            SafetyLevel::Safe => "safe".to_owned(),
            SafetyLevel::LocalSafe => "local-safe".to_owned(),
            SafetyLevel::CrossUnsafe => "cross-unsafe".to_owned(),
            SafetyLevel::Unsafe => "unsafe".to_owned(),
            SafetyLevel::Invalid => "invalid".to_owned(),
        }
    }
}

/// Error when parsing SafetyLevel from string. Carries the original,
/// pre-normalization input for diagnostic purposes.
#[derive(Debug)]
pub struct SafetyLevelParseError(pub String);

/// The level that a lowercased token denotes, if any. The two multi-word
/// levels each accept an alias without the hyphen.
pub open spec fn spec_level_for_token(t: Seq<char>) -> Option<SafetyLevel> {
    if t == "finalized"@ {
        Some(SafetyLevel::Finalized)
    } else if t == "safe"@ {
        Some(SafetyLevel::Safe)
    } else if t == "local-safe"@ || t == "localsafe"@ {
        Some(SafetyLevel::LocalSafe)
    } else if t == "cross-unsafe"@ || t == "crossunsafe"@ {
        Some(SafetyLevel::CrossUnsafe)
    } else if t == "unsafe"@ {
        Some(SafetyLevel::Unsafe)
    } else if t == "invalid"@ {
        Some(SafetyLevel::Invalid)
    } else {
        None
    }
}

/// What parsing an input returns: the level its Unicode lowercase denotes.
pub open spec fn spec_parse(s: Seq<char>) -> Option<SafetyLevel> {
    spec_level_for_token(text::lower_of(s))
}

/// What parsing an ASCII input returns, with the lowercasing written out.
pub open spec fn spec_parse_ascii(s: Seq<char>) -> Option<SafetyLevel> {
    spec_level_for_token(text::ascii_lower_seq(s))
}

/// The level an already-lowercased token denotes, or `None` for any other
/// token. The match is exact: no trimming, no further normalization.
pub fn level_for_token(t: &str) -> (r: Option<SafetyLevel>)
    ensures
        r == spec_level_for_token(t@),
{
    if text::token_matches(t, "finalized") {
        Some(SafetyLevel::Finalized)
    } else if text::token_matches(t, "safe") {
        Some(SafetyLevel::Safe)
    } else if text::token_matches(t, "local-safe") || text::token_matches(t, "localsafe") {
        Some(SafetyLevel::LocalSafe)
    } else if text::token_matches(t, "cross-unsafe") || text::token_matches(t, "crossunsafe") {
        Some(SafetyLevel::CrossUnsafe)
    } else if text::token_matches(t, "unsafe") {
        Some(SafetyLevel::Unsafe)
    } else if text::token_matches(t, "invalid") {
        Some(SafetyLevel::Invalid)
    } else {
        None
    }
}

impl SafetyLevel {
    /// Parses a level from text: the input is lowercased, then matched
    /// exactly against the accepted tokens. Any other input fails with an
    /// error carrying the original input.
    pub fn parse(s: &str) -> (r: Result<SafetyLevel, SafetyLevelParseError>)
        ensures
            r matches Ok(level) ==> spec_parse(s@) == Some(level),
            r matches Err(e) ==> spec_parse(s@) is None && e.0@ == s@,
            is_ascii_chars(s@) ==> spec_parse(s@) == spec_parse_ascii(s@),
    {
        let low = text::lowercase(s);
        match level_for_token(low.as_str()) {
            Some(level) => Ok(level),
            None => Err(SafetyLevelParseError(s.to_owned())),
        }
    }
}

/// Error when decoding SafetyLevel from a structured-data token. Distinct
/// from [`SafetyLevelParseError`]: this path does not go through the
/// text-parsing routine. Carries the rejected token.
#[derive(Debug)]
pub struct SafetyLevelDecodeError(pub String);

/// The level a structured-data token denotes, if any: exactly the canonical
/// lowercase, hyphenated tokens, with no aliases and no case folding.
pub open spec fn spec_decode_token(t: Seq<char>) -> Option<SafetyLevel> {
    if t == "finalized"@ {
        Some(SafetyLevel::Finalized)
    } else if t == "safe"@ {
        Some(SafetyLevel::Safe)
    } else if t == "local-safe"@ {
        Some(SafetyLevel::LocalSafe)
    } else if t == "cross-unsafe"@ {
        Some(SafetyLevel::CrossUnsafe)
    } else if t == "unsafe"@ {
        Some(SafetyLevel::Unsafe)
    } else if t == "invalid"@ {
        Some(SafetyLevel::Invalid)
    } else {
        None
    }
}

impl SafetyLevel {
    /// Decodes a level from a structured-data token: an exact, case-sensitive
    /// match against the canonical tokens only. Any other token fails with a
    /// decoding error carrying it.
    pub fn decode_token(t: &str) -> (r: Result<SafetyLevel, SafetyLevelDecodeError>)
        ensures
            r matches Ok(level) ==> spec_decode_token(t@) == Some(level),
            r matches Err(e) ==> spec_decode_token(t@) is None && e.0@ == t@,
    {
        if text::token_matches(t, "finalized") {
            Ok(SafetyLevel::Finalized)
        } else if text::token_matches(t, "safe") {
            Ok(SafetyLevel::Safe)
        } else if text::token_matches(t, "local-safe") {
            Ok(SafetyLevel::LocalSafe)
        } else if text::token_matches(t, "cross-unsafe") {
            Ok(SafetyLevel::CrossUnsafe)
        } else if text::token_matches(t, "unsafe") {
            Ok(SafetyLevel::Unsafe)
        } else if text::token_matches(t, "invalid") {
            Ok(SafetyLevel::Invalid)
        } else {
            Err(SafetyLevelDecodeError(t.to_owned()))
        }
    }
}

/// Round trip: the canonical rendering of any level is an ASCII token that
/// parses back to exactly that level.
pub proof fn lemma_parse_round_trip(level: SafetyLevel)
    ensures
        is_ascii_chars(spec_canonical_token(level)),
        spec_parse_ascii(spec_canonical_token(level)) == Some(level),
{
    reveal_strlit("finalized");
    reveal_strlit("safe");
    reveal_strlit("local-safe");
    reveal_strlit("localsafe");
    reveal_strlit("cross-unsafe");
    reveal_strlit("crossunsafe");
    reveal_strlit("unsafe");
    reveal_strlit("invalid");
    match level {
        SafetyLevel::Finalized => {
            assert(text::ascii_lower_seq("finalized"@) =~= "finalized"@);
        },
        SafetyLevel::Safe => {
            assert(text::ascii_lower_seq("safe"@) =~= "safe"@);
        },
        SafetyLevel::LocalSafe => {
            assert(text::ascii_lower_seq("local-safe"@) =~= "local-safe"@);
        },
        SafetyLevel::CrossUnsafe => {
            assert(text::ascii_lower_seq("cross-unsafe"@) =~= "cross-unsafe"@);
        },
        SafetyLevel::Unsafe => {
            assert(text::ascii_lower_seq("unsafe"@) =~= "unsafe"@);
        },
        SafetyLevel::Invalid => {
            assert(text::ascii_lower_seq("invalid"@) =~= "invalid"@);
        },
    }
}

/// Case insensitivity: two inputs with the same ASCII lowercase parse to the
/// same result; in particular an accepted token still parses after any change
/// of ASCII letter case.
pub proof fn lemma_parse_case_insensitive(s1: Seq<char>, s2: Seq<char>)
    requires
        text::ascii_lower_seq(s1) == text::ascii_lower_seq(s2),
    ensures
        spec_parse_ascii(s1) == spec_parse_ascii(s2),
{
}

/// Case insensitivity, with the uppercasing written out: any input parses to
/// the same result as its ASCII uppercase.
pub proof fn lemma_parse_of_uppercase(s: Seq<char>)
    ensures
        spec_parse_ascii(text::ascii_upper_seq(s)) == spec_parse_ascii(s),
{
    text::lemma_lower_of_upper(s);
}

/// Structured-data agreement: the canonical rendering of any level, which is
/// what the structured-data form encodes, decodes back to exactly that level.
pub proof fn lemma_decode_round_trip(level: SafetyLevel)
    ensures
        spec_decode_token(spec_canonical_token(level)) == Some(level),
{
    reveal_strlit("finalized");
    reveal_strlit("safe");
    reveal_strlit("local-safe");
    reveal_strlit("cross-unsafe");
    reveal_strlit("unsafe");
    reveal_strlit("invalid");
    match level {
        SafetyLevel::Finalized => {
            assert(spec_canonical_token(level) == "finalized"@);
        },
        SafetyLevel::Safe => {
            assert(spec_canonical_token(level) == "safe"@);
        },
        SafetyLevel::LocalSafe => {
            assert(spec_canonical_token(level) == "local-safe"@);
        },
        SafetyLevel::CrossUnsafe => {
            assert(spec_canonical_token(level) == "cross-unsafe"@);
        },
        SafetyLevel::Unsafe => {
            assert(spec_canonical_token(level) == "unsafe"@);
        },
        SafetyLevel::Invalid => {
            assert(spec_canonical_token(level) == "invalid"@);
        },
    }
}

impl core::str::FromStr for SafetyLevel {
    type Err = SafetyLevelParseError;

    fn from_str(s: &str) -> Result<Self, Self::Err> {
        SafetyLevel::parse(s)
    }
}

} // verus!
