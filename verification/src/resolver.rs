//! Resolution of user-supplied socket tokens.
//!
//! A token is either a decimal index or a symbolic name bound in the
//! configured name table. Numeric form takes priority: a token made of
//! digits (with an optional leading plus sign) is never looked up as a
//! name, whatever the table holds. The candidate index must fall in
//! the valid socket range; any numeric value outside it is rejected as
//! out of range, however large.

use vstd::prelude::*;
use crate::codec::valid_socket;

verus! {

/// One binding of the name table: a socket index and its friendly name.
pub struct Slot {
    pub socket_id: u8,
    pub name: String,
}

/// The name table, loaded once at startup; empty when no configuration
/// file exists.
pub struct Config {
    pub sockets: Vec<Slot>,
}

/// Why a token failed to resolve.
#[derive(Clone, Copy, Debug, PartialEq, Eq, Structural)]
pub enum ResolveError {
    /// No token was supplied where one is required.
    MissingArgument,
    /// The token is neither numeric nor a configured name.
    UnknownSocket,
    /// The candidate index lies outside the valid socket range.
    SocketOutOfRange,
}

/// A decimal digit, by code point.
pub open spec fn is_digit_char(c: char) -> bool {
    48 <= c as int && c as int <= 57
}

/// Numeric value of a decimal digit.
pub open spec fn digit_val(c: char) -> int {
    c as int - 48
}

/// Every character of the sequence is a decimal digit.
pub open spec fn all_digits(s: Seq<char>) -> bool {
    forall|i: int| 0 <= i < s.len() ==> is_digit_char(#[trigger] s[i])
}

/// The value of a digit sequence read as a decimal number.
pub open spec fn digits_value(s: Seq<char>) -> int
    decreases s.len(),
{
    if s.len() == 0 {
        0
    } else {
        digits_value(s.drop_last()) * 10 + digit_val(s.last())
    }
}

/// A token is numeric when it is one or more digits, optionally after
/// a single leading plus sign; such a token is treated as a candidate
/// index, never as a name.
pub open spec fn is_numeric_token(s: Seq<char>) -> bool {
    if s.len() > 0 && s[0] == '+' {
        s.len() > 1 && all_digits(s.skip(1))
    } else {
        s.len() > 0 && all_digits(s)
    }
}

/// Decimal value of a numeric token, plus sign or not.
pub open spec fn numeric_value(s: Seq<char>) -> int
    recommends
        is_numeric_token(s),
{
    if s.len() > 0 && s[0] == '+' {
        digits_value(s.skip(1))
    } else {
        digits_value(s)
    }
}

/// Extending a digit string on the right multiplies its value by ten
/// and adds the new digit.
proof fn lemma_digits_value_push(s: Seq<char>, c: char)
    ensures
        digits_value(s.push(c)) == digits_value(s) * 10 + digit_val(c),
{
    assert(s.push(c).drop_last() =~= s);
    assert(s.push(c).last() == c);
}

/// Outcome of reading a token as a decimal number.
#[derive(Clone, Copy, Debug, PartialEq, Eq, Structural)]
pub enum NumericParse {
    /// The token is not numeric: empty, a bare plus sign, or holding a
    /// non-digit character.
    NotNumeric,
    /// The token is numeric but its value does not fit in a byte; a
    /// socket index it cannot be.
    TooLarge,
    /// The token's decimal value.
    Value(u8),
}

/// Reads a token as a decimal number — digits after an optional
/// leading plus sign — telling apart non-numeric tokens (which may
/// still be names) from numbers too large to be an index.
pub fn parse_decimal(s: &str) -> (r: NumericParse)
    ensures
        r is NotNumeric <==> !is_numeric_token(s@),
        r is TooLarge <==> is_numeric_token(s@) && numeric_value(s@) > 255,
        r matches NumericParse::Value(v) ==> is_numeric_token(s@) && numeric_value(s@) == v as int,
{
    let n = s.unicode_len();
    if n == 0 {
        return NumericParse::NotNumeric;
    }
    let start: usize = if s.get_char(0) == '+' {
        1
    } else {
        0
    };
    if n == start {
        // a bare plus sign carries no digits
        return NumericParse::NotNumeric;
    }
    let mut acc: u32 = 0;
    let mut i: usize = start;
    while i < n
        invariant
            start <= i <= n,
            n == s@.len(),
            n > start,
            start == 0 || start == 1,
            start == 1 ==> s@[0] == '+',
            start == 0 ==> s@[0] != '+',
            all_digits(s@.subrange(start as int, i as int)),
            acc <= 2559,
            digits_value(s@.subrange(start as int, i as int)) <= 255 ==> acc == digits_value(
                s@.subrange(start as int, i as int),
            ),
            digits_value(s@.subrange(start as int, i as int)) > 255 ==> acc > 255,
        decreases n - i,
    {
        let c = s.get_char(i);
        let u = c as u32;
        if u < 48 || u > 57 {
            proof {
                assert(!is_digit_char(s@[i as int]));
                if start == 1 {
                    assert(s@.skip(1)[i as int - 1] == s@[i as int]);
                    assert(!all_digits(s@.skip(1)));
                } else {
                    assert(!all_digits(s@));
                }
            }
            return NumericParse::NotNumeric;
        }
        let d: u32 = u - 48;
        proof {
            lemma_digits_value_push(s@.subrange(start as int, i as int), s@[i as int]);
            assert(s@.subrange(start as int, i as int + 1) =~= s@.subrange(
                start as int,
                i as int,
            ).push(s@[i as int]));
        }
        if acc <= 255 {
            acc = acc * 10 + d;
        }
        i = i + 1;
    }
    proof {
        if start == 1 {
            assert(s@.skip(1) =~= s@.subrange(1, n as int));
        } else {
            assert(s@.subrange(0, n as int) =~= s@);
        }
    }
    if acc > 255 {
        NumericParse::TooLarge
    } else {
        NumericParse::Value(acc as u8)
    }
}

/// Index bound to the first entry of the table whose name matches, if
/// any.
pub open spec fn table_lookup(table: Seq<Slot>, name: Seq<char>) -> Option<u8>
    decreases table.len(),
{
    if table.len() == 0 {
        None
    } else if table[0].name@ == name {
        Some(table[0].socket_id)
    } else {
        table_lookup(table.drop_first(), name)
    }
}

/// A lookup skips any leading entries whose names do not match.
proof fn lemma_table_lookup_skip(table: Seq<Slot>, name: Seq<char>, i: int)
    requires
        0 <= i <= table.len(),
        forall|j: int| 0 <= j < i ==> (#[trigger] table[j]).name@ != name,
    ensures
        table_lookup(table, name) == table_lookup(table.subrange(i, table.len() as int), name),
    decreases i,
{
    if i > 0 {
        let rest = table.drop_first();
        assert(table[0].name@ != name);
        assert(forall|j: int| 0 <= j < i - 1 ==> (#[trigger] rest[j]).name@ != name) by {
            assert(forall|j: int| 0 <= j < i - 1 ==> rest[j] == table[j + 1]);
        }
        lemma_table_lookup_skip(rest, name, i - 1);
        assert(rest.subrange(i - 1, rest.len() as int) =~= table.subrange(
            i,
            table.len() as int,
        ));
    } else {
        assert(table.subrange(0, table.len() as int) =~= table);
    }
}

/// What a single token resolves to against a name table.
///
/// A numeric token is taken as the candidate index directly and is
/// never looked up as a name; a value outside the valid socket range
/// — however far outside — is out of range. Any other token is looked
/// up in the table, and the index it is bound to must lie in the valid
/// socket range too.
pub open spec fn spec_resolve(table: Seq<Slot>, token: Seq<char>) -> Result<u8, ResolveError> {
    if is_numeric_token(token) {
        if 1 <= numeric_value(token) && numeric_value(token) <= 4 {
            Ok(numeric_value(token) as u8)
        } else {
            Err(ResolveError::SocketOutOfRange)
        }
    } else {
        match table_lookup(table, token) {
            Some(id) => if valid_socket(id) {
                Ok(id)
            } else {
                Err(ResolveError::SocketOutOfRange)
            },
            None => Err(ResolveError::UnknownSocket),
        }
    }
}

/// What the leading token of an argument list resolves to; a missing
/// token is its own error.
pub open spec fn spec_resolve_arg(table: Seq<Slot>, args: Seq<String>) -> Result<
    u8,
    ResolveError,
> {
    if args.len() == 0 {
        Err(ResolveError::MissingArgument)
    } else {
        spec_resolve(table, args[0]@)
    }
}

/// Resolves the leading argument to a validated socket index, numeric
/// form first, then the name table.
pub fn parse_socket_id(config: &Config, args: &[String]) -> (r: Result<u8, ResolveError>)
    ensures
        r == spec_resolve_arg(config.sockets@, args@),
        r matches Ok(id) ==> valid_socket(id),
{
    if args.len() == 0 {
        return Err(ResolveError::MissingArgument);
    }
    let token: &String = &args[0];
    let candidate: u8;
    match parse_decimal(token.as_str()) {
        NumericParse::TooLarge => {
            // numeric priority holds even here: too big for a byte is
            // certainly outside the socket range, and no name lookup
            return Err(ResolveError::SocketOutOfRange);
        },
        NumericParse::Value(v) => {
            candidate = v;
        },
        NumericParse::NotNumeric => {
            match lookup_name(config, token) {
                Some(id) => {
                    candidate = id;
                },
                None => {
                    return Err(ResolveError::UnknownSocket);
                },
            }
        },
    }
    if 1 <= candidate && candidate <= 4 {
        Ok(candidate)
    } else {
        Err(ResolveError::SocketOutOfRange)
    }
}

/// Finds the first table entry bound to the given name.
fn lookup_name(config: &Config, name: &String) -> (r: Option<u8>)
    ensures
        r == table_lookup(config.sockets@, name@),
{
    let n = config.sockets.len();
    let mut i: usize = 0;
    while i < n
        invariant
            0 <= i <= n,
            n == config.sockets@.len(),
            forall|j: int| 0 <= j < i ==> (#[trigger] config.sockets@[j]).name@ != name@,
        decreases n - i,
    {
        if config.sockets[i].name == *name {
            proof {
                lemma_table_lookup_skip(config.sockets@, name@, i as int);
                assert(config.sockets@.subrange(i as int, n as int)[0] == config.sockets@[
                    i as int
                ]);
            }
            return Some(config.sockets[i].socket_id);
        }
        i = i + 1;
    }
    proof {
        lemma_table_lookup_skip(config.sockets@, name@, n as int);
        assert(config.sockets@.subrange(n as int, n as int).len() == 0);
    }
    None
}

/// Numeric priority: a numeric token resolves the same way against any
/// two name tables — the table is never consulted for it.
pub proof fn lemma_numeric_priority(t1: Seq<Slot>, t2: Seq<Slot>, token: Seq<char>)
    requires
        is_numeric_token(token),
    ensures
        spec_resolve(t1, token) == spec_resolve(t2, token),
{
}

} // verus!
