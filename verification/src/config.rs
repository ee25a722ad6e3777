//! The settings that a submission is handled under.
use vstd::prelude::*;
use vstd::string::StringExecFns;

verus! {

/// The settings: where and with what secret tokens are verified, and the
/// origins that may read replies.
pub struct Config {
    pub siteverify_url: String,
    pub secret_key: String,
    pub allowed_origins: Vec<String>,
}

/// Whether `c` is white space: one of the characters with the Unicode
/// property White_Space.
pub open spec fn is_blank(c: char) -> bool {
    ||| '\u{9}' <= c <= '\u{d}'
    ||| c == ' '
    ||| c == '\u{85}'
    ||| c == '\u{a0}'
    ||| c == '\u{1680}'
    ||| '\u{2000}' <= c <= '\u{200a}'
    ||| c == '\u{2028}'
    ||| c == '\u{2029}'
    ||| c == '\u{202f}'
    ||| c == '\u{205f}'
    ||| c == '\u{3000}'
}

/// `char::is_whitespace` answers whether the character has the Unicode
/// property White_Space.
pub assume_specification[ char::is_whitespace ](c: char) -> (r: bool)
    ensures
        r == is_blank(c),
;

/// A text without the white space at its start.
pub open spec fn without_leading_blanks(s: Seq<char>) -> Seq<char>
    decreases s.len(),
{
    if s.len() > 0 && is_blank(s[0]) {
        without_leading_blanks(s.drop_first())
    } else {
        s
    }
}

/// A text without the white space at its end.
pub open spec fn without_trailing_blanks(s: Seq<char>) -> Seq<char>
    decreases s.len(),
{
    if s.len() > 0 && is_blank(s.last()) {
        without_trailing_blanks(s.drop_last())
    } else {
        s
    }
}

/// A text without the white space at either end.
pub open spec fn trimmed(s: Seq<char>) -> Seq<char> {
    without_trailing_blanks(without_leading_blanks(s))
}

/// The pieces that the commas of a text part it into, in order. A text
/// with n commas has n + 1 pieces; a piece may be empty.
pub open spec fn comma_pieces(s: Seq<char>) -> Seq<Seq<char>>
    decreases s.len(),
{
    if s.len() == 0 {
        seq![Seq::<char>::empty()]
    } else {
        let before = comma_pieces(s.drop_last());
        if s.last() == ',' {
            before.push(Seq::<char>::empty())
        } else {
            before.drop_last().push(before.last().push(s.last()))
        }
    }
}

/// The origins that a comma-separated list names: its pieces, each without
/// the white space round it.
pub open spec fn origins_listed(raw: Seq<char>) -> Seq<Seq<char>> {
    comma_pieces(raw).map_values(|piece: Seq<char>| trimmed(piece))
}

/// The part of `s` between the white space at its two ends.
pub fn trim(s: &str) -> (r: String)
    ensures
        r@ == trimmed(s@),
{
    let n: usize = s.unicode_len();
    let mut a: usize = 0;
    assert(s@.subrange(0, n as int) =~= s@);
    while a < n && s.get_char(a).is_whitespace()
        invariant
            a <= n,
            n == s@.len(),
            without_leading_blanks(s@) == without_leading_blanks(s@.subrange(a as int, n as int)),
        decreases n - a,
    {
        assert(s@.subrange(a as int, n as int).drop_first() =~= s@.subrange(a as int + 1, n as int));
        a += 1;
    }
    assert(without_leading_blanks(s@) == s@.subrange(a as int, n as int));
    let mut b: usize = n;
    while a < b && s.get_char(b - 1).is_whitespace()
        invariant
            a <= b <= n,
            n == s@.len(),
            trimmed(s@) == without_trailing_blanks(s@.subrange(a as int, b as int)),
        decreases b - a,
    {
        assert(s@.subrange(a as int, b as int).drop_last() =~= s@.subrange(a as int, b as int - 1));
        b -= 1;
    }
    String::from_str(s.substring_char(a, b))
}

/// The origins that a comma-separated list names.
pub fn parse_allowed_origins(raw: &str) -> (r: Vec<String>)
    ensures
        r@.map_values(|s: String| s@) == origins_listed(raw@),
{
    let n: usize = raw.unicode_len();
    let mut origins: Vec<String> = Vec::new();
    let mut from: usize = 0;
    let mut i: usize = 0;
    assert(raw@.take(0) =~= Seq::<char>::empty());
    assert(comma_pieces(raw@.take(0)) =~= seq![raw@.subrange(0, 0)]);
    while i < n
        invariant
            from <= i <= n,
            n == raw@.len(),
            comma_pieces(raw@.take(i as int)).len() == origins@.len() + 1,
            comma_pieces(raw@.take(i as int)).last() == raw@.subrange(from as int, i as int),
            forall|k: int|
                0 <= k < origins@.len() ==> (#[trigger] origins@[k])@ == trimmed(
                    comma_pieces(raw@.take(i as int))[k],
                ),
        decreases n - i,
    {
        let c: char = raw.get_char(i);
        proof {
            assert(raw@.take(i as int + 1).drop_last() =~= raw@.take(i as int));
            assert(raw@.take(i as int + 1).last() == c);
        }
        if c == ',' {
            let piece: String = trim(raw.substring_char(from, i));
            origins.push(piece);
            from = i + 1;
            assert(raw@.subrange(from as int, from as int) =~= Seq::<char>::empty());
        } else {
            assert(raw@.subrange(from as int, i as int).push(c) =~= raw@.subrange(
                from as int,
                i as int + 1,
            ));
        }
        i += 1;
    }
    assert(raw@.take(n as int) =~= raw@);
    let piece: String = trim(raw.substring_char(from, n));
    origins.push(piece);
    assert(origins@.map_values(|s: String| s@) =~= origins_listed(raw@));
    origins
}

impl Config {
    /// Whether these settings hold the given values.
    pub open spec fn holds(self, siteverify_url: Seq<char>, secret_key: Seq<char>, allowed: Seq<Seq<char>>) -> bool {
        &&& self.siteverify_url@ == siteverify_url
        &&& self.secret_key@ == secret_key
        &&& self.allowed_origins@.map_values(|s: String| s@) == allowed
    }

    /// The settings from the three values of the environment, each `None`
    /// where it is not set. The address and the secret are required; a
    /// missing list of origins is the empty list, which allows every
    /// caller.
    pub fn from_env(
        siteverify_url: Option<String>,
        secret_key: Option<String>,
        allowed_origins: Option<String>,
    ) -> (r: Result<Config, String>)
        ensures
            match (siteverify_url, secret_key) {
                (None, _) => r matches Err(reason) && reason@ == "Missing siteverify URL"@,
                (Some(_), None) => r matches Err(reason) && reason@ == "Missing secret key"@,
                (Some(url), Some(key)) => r matches Ok(settings) && settings.holds(
                    url@,
                    key@,
                    match allowed_origins {
                        Some(raw) => origins_listed(raw@),
                        None => Seq::empty(),
                    },
                ),
            },
    {
        let siteverify_url = match siteverify_url {
            Some(url) => url,
            None => {
                return Err(String::from_str("Missing siteverify URL"));
            },
        };
        let secret_key = match secret_key {
            Some(key) => key,
            None => {
                return Err(String::from_str("Missing secret key"));
            },
        };
        let allowed_origins: Vec<String> = match allowed_origins {
            Some(raw) => parse_allowed_origins(raw.as_str()),
            None => Vec::new(),
        };
        assert(allowed_origins@.len() == 0 ==> allowed_origins@.map_values(|s: String| s@)
            =~= Seq::<Seq<char>>::empty());
        Ok(Config { siteverify_url, secret_key, allowed_origins })
    }
}

} // verus!
