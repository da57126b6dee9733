//! The proxy secret: sixteen bytes, written as thirty-two hexadecimal digits.
use vstd::prelude::*;
use vstd::utf8::{is_ascii_chars, is_ascii_chars_encode_utf8};

use crate::config::{Config, ConfigView};
use crate::plan::{Action, ActionView, Level, Plan};

verus! {

/// The value of a hexadecimal digit, in either case.
pub open spec fn hex_value(c: char) -> Option<int> {
    if '0' <= c <= '9' {
        Some(c as int - '0' as int)
    } else if 'a' <= c <= 'f' {
        Some(c as int - 'a' as int + 10)
    } else if 'A' <= c <= 'F' {
        Some(c as int - 'A' as int + 10)
    } else {
        None
    }
}

/// Whether every character of `s` is a hexadecimal digit.
pub open spec fn all_hex(s: Seq<char>) -> bool {
    forall|i: int| 0 <= i < s.len() ==> hex_value(#[trigger] s[i]) is Some
}

/// The bytes that the hexadecimal digits of `s` denote, two digits to a byte.
pub open spec fn hex_bytes(s: Seq<char>) -> Seq<u8> {
    Seq::new(
        s.len() / 2,
        |i: int| (16 * hex_value(s[2 * i])->0 + hex_value(s[2 * i + 1])->0) as u8,
    )
}

/// The lower-case hexadecimal digit of value `v`.
pub open spec fn hex_char(v: int) -> char {
    if v < 10 {
        ('0' as int + v) as char
    } else {
        ('a' as int + v - 10) as char
    }
}

/// The hexadecimal form of `bytes`, in lower case, two digits to a byte.
pub open spec fn hex_form(bytes: Seq<u8>) -> Seq<char> {
    Seq::new(
        2 * bytes.len(),
        |i: int|
            if i % 2 == 0 {
                hex_char(bytes[i / 2] as int / 16)
            } else {
                hex_char(bytes[i / 2] as int % 16)
            },
    )
}

/// Whether `s` can be the proxy secret.
pub open spec fn valid_secret(s: Seq<char>) -> bool {
    s.len() == 32 && all_hex(s)
}

/// The error of `hex::decode`.
#[verifier::external_type_specification]
#[verifier::external_body]
pub struct ExFromHexError(hex::FromHexError);

/// Calls `hex::decode`. Claimed of it: it succeeds exactly on an even number of hexadecimal
/// digits, in either case, and then gives the bytes that they denote. Which error it gives
/// otherwise is left unsaid.
#[verifier::external_body]
fn hex_decode(text: &str) -> (r: Result<Vec<u8>, hex::FromHexError>)
    ensures
        r is Ok <==> (text@.len() % 2 == 0 && all_hex(text@)),
        r matches Ok(bytes) ==> bytes@ == hex_bytes(text@),
{
    hex::decode(text)
}

/// Calls `hex::encode`. Claimed of it: it gives the lower-case hexadecimal form of the bytes.
#[verifier::external_body]
fn hex_encode(bytes: [u8; 16]) -> (r: String)
    ensures
        r@ == hex_form(bytes@),
{
    hex::encode(bytes)
}

/// Calls `rand::random`. Nothing is claimed of the bytes: they rest on chance. The call panics on a
/// system that gives no entropy to seed the generator.
#[verifier::external_body]
fn random_bytes() -> [u8; 16] {
    rand::random::<[u8; 16]>()
}

/// Whether a text can be the proxy secret.
pub fn is_valid_secret(secret: &str) -> (r: bool)
    ensures
        r == valid_secret(secret@),
{
    let length: usize = secret.as_bytes().len();
    proof {
        if all_hex(secret@) {
            assert(is_ascii_chars(secret@));
            is_ascii_chars_encode_utf8(secret@);
        }
    }
    length == 32 && hex_decode(secret).is_ok()
}

/// The secret made of these bytes.
pub fn secret_of(bytes: [u8; 16]) -> (r: String)
    ensures
        r@ == hex_form(bytes@),
        valid_secret(r@),
{
    proof {
        law_made_secrets_are_valid(bytes@);
    }
    hex_encode(bytes)
}

/// The configuration with this secret.
pub open spec fn with_secret(config: ConfigView, secret: Seq<char>) -> ConfigView {
    ConfigView { secret, ..config }
}

/// What is done with a new secret made of `bytes`.
pub open spec fn new_secret_plan(config: ConfigView, bytes: Seq<u8>) -> Seq<ActionView> {
    seq![
        ActionView::SetSecret(hex_form(bytes)),
        ActionView::SaveConfig(with_secret(config, hex_form(bytes))),
        ActionView::Log(
            Level::Info,
            "сгенерирован новый секрет и сохранён в config.toml"@,
        ),
    ]
}

/// Makes a secret of these bytes, sets it, and saves it with the configuration.
pub fn save_new_secret(config: &mut Config, bytes: [u8; 16]) -> (r: Plan)
    ensures
        final(config)@ == with_secret(old(config)@, hex_form(bytes@)),
        r@ == new_secret_plan(old(config)@, bytes@),
        valid_secret(final(config)@.secret),
{
    let secret = secret_of(bytes);
    let mut plan = Plan::new();
    plan.push(Action::SetSecret(secret.clone()));
    config.secret = secret;
    plan.push(Action::SaveConfig(config.clone()));
    plan.log(Level::Info, "сгенерирован новый секрет и сохранён в config.toml");
    assert(plan@ =~= new_secret_plan(old(config)@, bytes@));
    plan
}

/// Makes a secret of random bytes, sets it, and saves it with the configuration.
pub fn generate_and_save_secret(config: &mut Config) -> (r: Plan)
    ensures
        exists|bytes: Seq<u8>|
            {
                &&& bytes.len() == 16
                &&& final(config)@ == with_secret(old(config)@, #[trigger] hex_form(bytes))
                &&& r@ == new_secret_plan(old(config)@, bytes)
            },
        valid_secret(final(config)@.secret),
{
    let bytes = random_bytes();
    save_new_secret(config, bytes)
}

/// A secret that the program makes is one that it accepts.
pub proof fn law_made_secrets_are_valid(bytes: Seq<u8>)
    requires
        bytes.len() == 16,
    ensures
        valid_secret(hex_form(bytes)),
{
}

/// The digits of a secret that the program makes denote the bytes that it was made of.
pub proof fn law_secret_holds_its_bytes(bytes: Seq<u8>)
    ensures
        all_hex(hex_form(bytes)),
        hex_bytes(hex_form(bytes)) == bytes,
{
    let s = hex_form(bytes);
    assert forall|i: int| 0 <= i < bytes.len() implies hex_bytes(s)[i] == bytes[i] by {
        assert((2 * i) / 2 == i && (2 * i + 1) / 2 == i);
    }
    assert(hex_bytes(s) =~= bytes);
}

/// Which characters are hexadecimal digits, and what they are worth: both cases count alike.
pub proof fn law_hex_digits(c: char, k: int)
    ensures
        hex_value(c) is Some <==> 48 <= c as int <= 57 || 97 <= c as int <= 102 || 65 <= c as int
            <= 70,
        0 <= k < 10 ==> hex_value((48 + k) as char) == Some(k),
        10 <= k < 16 ==> hex_value((87 + k) as char) == Some(k),
        10 <= k < 16 ==> hex_value((55 + k) as char) == Some(k),
{
}

/// A text can be the secret if and only if it has 32 characters, each of which is one of `0` to
/// `9`, `a` to `f` and `A` to `F`.
pub proof fn law_what_a_secret_is(s: Seq<char>)
    ensures
        valid_secret(s) <==> s.len() == 32 && forall|i: int|
            0 <= i < s.len() ==> ('0' <= #[trigger] s[i] <= '9' || 'a' <= s[i] <= 'f' || 'A'
                <= s[i] <= 'F'),
{
    if valid_secret(s) {
        assert forall|i: int| 0 <= i < s.len() implies ('0' <= #[trigger] s[i] <= '9' || 'a'
            <= s[i] <= 'f' || 'A' <= s[i] <= 'F') by {
            assert(hex_value(s[i]) is Some);
        }
    }
}

/// The case of its letters does not matter to whether a text can be the secret.
pub proof fn law_case_does_not_matter(s: Seq<char>, t: Seq<char>)
    requires
        s.len() == t.len(),
        forall|i: int|
            0 <= i < s.len() ==> {
                ||| #[trigger] s[i] == #[trigger] t[i]
                ||| 'a' <= s[i] <= 'z' && t[i] as int == s[i] as int - 32
                ||| 'A' <= s[i] <= 'Z' && t[i] as int == s[i] as int + 32
            },
    ensures
        valid_secret(s) <==> valid_secret(t),
{
    law_what_a_secret_is(s);
    law_what_a_secret_is(t);
    if valid_secret(s) {
        assert forall|i: int| 0 <= i < t.len() implies ('0' <= #[trigger] t[i] <= '9' || 'a'
            <= t[i] <= 'f' || 'A' <= t[i] <= 'F') by {
            assert(hex_value(s[i]) is Some);
        }
    }
    if valid_secret(t) {
        assert forall|i: int| 0 <= i < s.len() implies ('0' <= #[trigger] s[i] <= '9' || 'a'
            <= s[i] <= 'f' || 'A' <= s[i] <= 'F') by {
            assert(hex_value(t[i]) is Some);
        }
    }
}

/// The secret made of some bytes has two digits for each, the higher one first, in lower case.
pub proof fn law_digits_of_a_made_secret(bytes: Seq<u8>, i: int)
    requires
        0 <= i < bytes.len(),
    ensures
        hex_form(bytes).len() == 2 * bytes.len(),
        ({
            let high = hex_form(bytes)[2 * i];
            let low = hex_form(bytes)[2 * i + 1];
            &&& '0' <= high <= '9' || 'a' <= high <= 'f'
            &&& '0' <= low <= '9' || 'a' <= low <= 'f'
            &&& bytes[i] == 16 * (high as int - if high <= '9' {
                48int
            } else {
                87int
            }) + (low as int - if low <= '9' {
                48int
            } else {
                87int
            })
        }),
{
    assert((2 * i) / 2 == i && (2 * i + 1) / 2 == i);
    assert((2 * i) % 2 == 0 && (2 * i + 1) % 2 == 1);
}

/// A new secret is set first. Then the configuration is saved with it, and is otherwise what it
/// was; then that is logged, in words that depend on nothing.
pub proof fn law_new_secret_is_set_and_then_saved(
    config: ConfigView,
    bytes: Seq<u8>,
    other_config: ConfigView,
    other_bytes: Seq<u8>,
)
    ensures
        ({
            let plan = new_secret_plan(config, bytes);
            &&& plan.len() == 3
            &&& plan[0] == ActionView::SetSecret(hex_form(bytes))
            &&& plan[1] matches ActionView::SaveConfig(saved) && {
                &&& saved.secret == hex_form(bytes)
                &&& saved.bind == config.bind
                &&& saved.port == config.port
                &&& saved.dc_ips == config.dc_ips
                &&& saved.pool_size == config.pool_size
                &&& saved.verbose == config.verbose
                &&& saved == with_secret(config, hex_form(bytes))
            }
            &&& plan[2] matches ActionView::Log(level, _) && level is Info
            &&& plan[2] == new_secret_plan(other_config, other_bytes)[2]
        }),
{
}

} // verus!
