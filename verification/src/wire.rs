//! Rendering values onto the wire: decimal path fragments and the JSON
//! texts sent as request bodies. Every function here is verified
//! against a character-exact specification of the output.

use vstd::prelude::*;

use crate::types::{ConfirmationToken, LoginCredentials, RegistrationDetails, Snowflake};
use crate::types::{ConfirmationTokenV, LoginCredentialsV, RegistrationDetailsV};

verus! {

use vstd::arithmetic::div_mod::lemma_div_is_strictly_smaller;
use vstd::string::{StrSliceExecFns, StringExecFns};

/// The character for one decimal digit.
pub open spec fn spec_digit_char(d: nat) -> char {
    if d == 0 {
        '0'
    } else if d == 1 {
        '1'
    } else if d == 2 {
        '2'
    } else if d == 3 {
        '3'
    } else if d == 4 {
        '4'
    } else if d == 5 {
        '5'
    } else if d == 6 {
        '6'
    } else if d == 7 {
        '7'
    } else if d == 8 {
        '8'
    } else {
        '9'
    }
}

/// The decimal rendering of a number: most significant digit first, no
/// leading zeroes (a single `0` for zero).
pub open spec fn dec_digits(n: nat) -> Seq<char>
    decreases n,
    via dec_digits_decreases
{
    if n < 10 {
        seq![spec_digit_char(n)]
    } else {
        dec_digits(n / 10) + seq![spec_digit_char(n % 10)]
    }
}

#[via_fn]
proof fn dec_digits_decreases(n: nat) {
    if n >= 10 {
        lemma_div_is_strictly_smaller(n as int, 10);
    }
}

/// A decimal rendering is never empty.
pub proof fn lemma_dec_digits_len(n: nat)
    ensures
        dec_digits(n).len() >= 1,
    decreases n,
{
    if n >= 10 {
        lemma_div_is_strictly_smaller(n as int, 10);
        lemma_dec_digits_len(n / 10);
    }
}

fn digit_str(d: u64) -> (r: &'static str)
    requires
        d < 10,
    ensures
        r@ =~= seq![spec_digit_char(d as nat)],
{
    proof {
        reveal_strlit("0");
        reveal_strlit("1");
        reveal_strlit("2");
        reveal_strlit("3");
        reveal_strlit("4");
        reveal_strlit("5");
        reveal_strlit("6");
        reveal_strlit("7");
        reveal_strlit("8");
        reveal_strlit("9");
    }
    match d {
        0 => "0",
        1 => "1",
        2 => "2",
        3 => "3",
        4 => "4",
        5 => "5",
        6 => "6",
        7 => "7",
        8 => "8",
        _ => "9",
    }
}

/// Render a number in decimal.
pub fn u64_to_dec(n: u64) -> (r: String)
    ensures
        r@ == dec_digits(n as nat),
    decreases n,
{
    if n < 10 {
        digit_str(n).to_owned()
    } else {
        proof {
            lemma_div_is_strictly_smaller(n as int, 10);
        }
        let mut s = u64_to_dec(n / 10);
        s.append(digit_str(n % 10));
        proof {
            assert(s@ =~= dec_digits(n as nat));
        }
        s
    }
}

impl Snowflake {
    /// The canonical, URL-safe string form of the identifier: its
    /// decimal digits.
    pub fn to_path_fragment(&self) -> (r: String)
        ensures
            r@ == dec_digits(self.0 as nat),
            r@.len() >= 1,
    {
        proof {
            lemma_dec_digits_len(self.0 as nat);
        }
        u64_to_dec(self.0)
    }
}

/// The character for one hexadecimal digit.
pub open spec fn spec_hex_digit(d: nat) -> char {
    if d < 10 {
        spec_digit_char(d)
    } else if d == 10 {
        'a'
    } else if d == 11 {
        'b'
    } else if d == 12 {
        'c'
    } else if d == 13 {
        'd'
    } else if d == 14 {
        'e'
    } else {
        'f'
    }
}

fn hex_digit_str(d: u32) -> (r: &'static str)
    requires
        d < 16,
    ensures
        r@ =~= seq![spec_hex_digit(d as nat)],
{
    proof {
        reveal_strlit("a");
        reveal_strlit("b");
        reveal_strlit("c");
        reveal_strlit("d");
        reveal_strlit("e");
        reveal_strlit("f");
    }
    if d < 10 {
        digit_str(d as u64)
    } else {
        match d {
            10 => "a",
            11 => "b",
            12 => "c",
            13 => "d",
            14 => "e",
            _ => "f",
        }
    }
}

/// Relies on `String::push`: appends exactly the given character.
#[verifier::external_body]
fn push_char(out: &mut String, c: char)
    ensures
        final (out)@ == old(out)@ + seq![c],
{
    out.push(c);
}

/// How one character appears inside a JSON string literal: quote and
/// backslash are escaped, the named control characters get their short
/// escapes, any other control character its `\u00..` form, and every
/// remaining character stands for itself.
pub open spec fn esc_char(c: char) -> Seq<char> {
    if c == '"' {
        seq!['\\', '"']
    } else if c == '\\' {
        seq!['\\', '\\']
    } else if c == '\n' {
        seq!['\\', 'n']
    } else if c == '\r' {
        seq!['\\', 'r']
    } else if c == '\t' {
        seq!['\\', 't']
    } else if (c as u32) < 0x20 {
        seq!['\\', 'u', '0', '0', spec_hex_digit((c as u32 / 16) as nat), spec_hex_digit(
            (c as u32 % 16) as nat,
        )]
    } else {
        seq![c]
    }
}

/// A text escaped for use inside a JSON string literal.
pub open spec fn json_escaped(s: Seq<char>) -> Seq<char>
    decreases s.len(),
{
    if s.len() == 0 {
        Seq::<char>::empty()
    } else {
        esc_char(s[0]) + json_escaped(s.drop_first())
    }
}

proof fn lemma_json_escaped_push(s: Seq<char>, x: char)
    ensures
        json_escaped(s.push(x)) == json_escaped(s) + esc_char(x),
    decreases s.len(),
{
    reveal_with_fuel(json_escaped, 3);
    let t = s.push(x);
    if s.len() == 0 {
        assert(t[0] == x);
        assert(t.drop_first() =~= Seq::<char>::empty());
        assert(json_escaped(t) =~= json_escaped(s) + esc_char(x));
    } else {
        assert(t[0] == s[0]);
        assert(t.drop_first() =~= s.drop_first().push(x));
        lemma_json_escaped_push(s.drop_first(), x);
        assert(json_escaped(t) =~= json_escaped(s) + esc_char(x));
    }
}

/// Escape a text for use inside a JSON string literal.
pub fn escape_json(s: &str) -> (r: String)
    ensures
        r@ == json_escaped(s@),
{
    let n = s.unicode_len();
    let mut out = String::new();
    proof {
        assert(s@.subrange(0, 0) =~= Seq::<char>::empty());
    }
    for i in 0..n
        invariant
            n == s@.len(),
            out@ == json_escaped(s@.subrange(0, i as int)),
    {
        let c = s.get_char(i);
        proof {
            assert(s@.subrange(0, i as int).push(s@[i as int]) =~= s@.subrange(0, i as int + 1));
            lemma_json_escaped_push(s@.subrange(0, i as int), s@[i as int]);
        }
        if c == '"' {
            proof {
                reveal_strlit("\\\"");
            }
            out.append("\\\"");
            proof {
                assert("\\\""@ =~= esc_char(c));
            }
        } else if c == '\\' {
            proof {
                reveal_strlit("\\\\");
            }
            out.append("\\\\");
            proof {
                assert("\\\\"@ =~= esc_char(c));
            }
        } else if c == '\n' {
            proof {
                reveal_strlit("\\n");
            }
            out.append("\\n");
            proof {
                assert("\\n"@ =~= esc_char(c));
            }
        } else if c == '\r' {
            proof {
                reveal_strlit("\\r");
            }
            out.append("\\r");
            proof {
                assert("\\r"@ =~= esc_char(c));
            }
        } else if c == '\t' {
            proof {
                reveal_strlit("\\t");
            }
            out.append("\\t");
            proof {
                assert("\\t"@ =~= esc_char(c));
            }
        } else if (c as u32) < 0x20 {
            proof {
                reveal_strlit("\\u00");
            }
            let ghost before = out@;
            out.append("\\u00");
            out.append(hex_digit_str((c as u32) / 16));
            out.append(hex_digit_str((c as u32) % 16));
            proof {
                assert(out@ =~= before + esc_char(c));
            }
        } else {
            push_char(&mut out, c);
            proof {
                assert(seq![c] =~= esc_char(c));
            }
        }
    }
    proof {
        assert(s@.subrange(0, n as int) =~= s@);
    }
    out
}

/// A text as a JSON string literal: escaped, between double quotes.
pub open spec fn json_quoted(s: Seq<char>) -> Seq<char> {
    "\""@ + json_escaped(s) + "\""@
}

/// Append a JSON string literal holding `s`.
pub fn append_json_string(out: &mut String, s: &str)
    ensures
        final (out)@ == old(out)@ + json_quoted(s@),
{
    proof {
        reveal_strlit("\"");
    }
    out.append("\"");
    let esc = escape_json(s);
    out.append(esc.as_str());
    out.append("\"");
    proof {
        assert(out@ =~= old(out)@ + json_quoted(s@));
    }
}

/// The JSON body of the login request.
pub open spec fn login_credentials_json(c: LoginCredentialsV) -> Seq<char> {
    "{\"login\":"@ + json_quoted(c.login) + ",\"password\":"@ + json_quoted(c.password) + "}"@
}

impl LoginCredentials {
    /// Serialize the credentials as the login request's JSON body.
    pub fn to_json(&self) -> (r: String)
        ensures
            r@ == login_credentials_json(self@),
    {
        let mut out = String::new();
        out.append("{\"login\":");
        append_json_string(&mut out, self.login.as_str());
        out.append(",\"password\":");
        append_json_string(&mut out, self.password.as_str());
        out.append("}");
        proof {
            assert(out@ =~= login_credentials_json(self@));
        }
        out
    }
}

/// The JSON body of the registration request.
pub open spec fn registration_details_json(d: RegistrationDetailsV) -> Seq<char> {
    "{\"username\":"@ + json_quoted(d.username) + ",\"email\":"@ + json_quoted(d.email)
        + ",\"password\":"@ + json_quoted(d.password) + ",\"hcaptcha_response\":"@ + json_quoted(
        d.hcaptcha_response,
    ) + "}"@
}

impl RegistrationDetails {
    /// Serialize the details as the registration request's JSON body.
    pub fn to_json(&self) -> (r: String)
        ensures
            r@ == registration_details_json(self@),
    {
        let mut out = String::new();
        out.append("{\"username\":");
        append_json_string(&mut out, self.username.as_str());
        out.append(",\"email\":");
        append_json_string(&mut out, self.email.as_str());
        out.append(",\"password\":");
        append_json_string(&mut out, self.password.as_str());
        out.append(",\"hcaptcha_response\":");
        append_json_string(&mut out, self.hcaptcha_response.as_str());
        out.append("}");
        proof {
            assert(out@ =~= registration_details_json(self@));
        }
        out
    }
}

/// The JSON body of the registration-confirmation request.
pub open spec fn confirmation_token_json(t: ConfirmationTokenV) -> Seq<char> {
    "{\"token\":"@ + json_quoted(t.token) + "}"@
}

impl ConfirmationToken {
    /// Serialize the token as the confirmation request's JSON body.
    pub fn to_json(&self) -> (r: String)
        ensures
            r@ == confirmation_token_json(self@),
    {
        let mut out = String::new();
        out.append("{\"token\":");
        append_json_string(&mut out, self.token.as_str());
        out.append("}");
        proof {
            assert(out@ =~= confirmation_token_json(self@));
        }
        out
    }
}

} // verus!
