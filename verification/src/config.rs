use vstd::prelude::*;
use vstd::string::*;

verus! {

/// The port the server listens on when the environment names no usable one.
pub const DEFAULT_LISTEN_PORT: u16 = 2346;

/// The store that is loaded when neither the environment nor the command line
/// names one.
pub open spec fn default_store_location() -> Seq<char> {
    "results.db"@
}

/// Where the store location came from.
#[derive(Clone, Copy, Debug, PartialEq, Eq, Structural)]
pub enum StoreSource {
    Environment,
    Argument,
    Fallback,
}

/// A resolved store location together with its origin. The caller owes the
/// operator a notice exactly when the origin is `Fallback`.
#[derive(Debug, PartialEq, Eq)]
pub struct StoreChoice {
    pub location: String,
    pub source: StoreSource,
}

/// The settings resolved once at start-up.
#[derive(Debug, PartialEq, Eq)]
pub struct Configuration {
    pub store_location: String,
    pub store_source: StoreSource,
    pub listen_port: u16,
}

pub open spec fn text_of(value: Option<String>) -> Option<Seq<char>> {
    match value {
        Some(text) => Some(text@),
        None => None,
    }
}

/// The environment wins when it is set and not empty, then the first
/// command-line argument, then the default.
pub open spec fn store_source_of(env: Option<Seq<char>>, arg: Option<Seq<char>>) -> StoreSource {
    if env.is_some() && env.unwrap().len() > 0 {
        StoreSource::Environment
    } else if arg.is_some() {
        StoreSource::Argument
    } else {
        StoreSource::Fallback
    }
}

pub open spec fn store_location_of(env: Option<Seq<char>>, arg: Option<Seq<char>>) -> Seq<char> {
    match store_source_of(env, arg) {
        StoreSource::Environment => env.unwrap(),
        StoreSource::Argument => arg.unwrap(),
        StoreSource::Fallback => default_store_location(),
    }
}

pub open spec fn is_digit(c: char) -> bool {
    '0' <= c <= '9'
}

pub open spec fn digit_of(c: char) -> nat {
    if is_digit(c) {
        (c as int - '0' as int) as nat
    } else {
        0
    }
}

/// The number that a run of decimal digits writes, most significant digit
/// first.
pub open spec fn decimal_value(digits: Seq<char>) -> nat
    decreases digits.len(),
{
    if digits.len() == 0 {
        0
    } else {
        decimal_value(digits.drop_last()) * 10 + digit_of(digits.last())
    }
}

pub open spec fn all_digits(text: Seq<char>) -> bool {
    forall|i: int| 0 <= i < text.len() ==> is_digit(#[trigger] text[i])
}

/// The text without the one plus sign that may lead it.
pub open spec fn unsigned_part(text: Seq<char>) -> Seq<char> {
    if text.len() > 0 && text[0] == '+' {
        text.subrange(1, text.len() as int)
    } else {
        text
    }
}

/// The port that a text names: one or more decimal digits, with an optional
/// leading plus sign, whose value is positive and fits in sixteen bits.
pub open spec fn port_of_text(text: Seq<char>) -> Option<u16> {
    let digits = unsigned_part(text);
    if digits.len() > 0 && all_digits(digits) && 0 < decimal_value(digits) <= u16::MAX {
        Some(decimal_value(digits) as u16)
    } else {
        None
    }
}

pub open spec fn listen_port_of(env: Option<Seq<char>>) -> u16 {
    if env.is_some() && port_of_text(env.unwrap()).is_some() {
        port_of_text(env.unwrap()).unwrap()
    } else {
        DEFAULT_LISTEN_PORT
    }
}

/// A prefix of a digit run never writes a larger number than the whole run.
pub proof fn lemma_prefix_value_le(digits: Seq<char>, k: int)
    requires
        0 <= k <= digits.len(),
    ensures
        decimal_value(digits.take(k)) <= decimal_value(digits),
    decreases digits.len(),
{
    if k == digits.len() {
        assert(digits.take(k) =~= digits);
    } else {
        lemma_prefix_value_le(digits.drop_last(), k);
        assert(digits.drop_last().take(k) =~= digits.take(k));
    }
}

/// Picks the store location from the value of `DATABASE_URL` and the first
/// command-line argument, each as the process found it.
pub fn resolve_store_location(env: Option<String>, arg: Option<String>) -> (choice: StoreChoice)
    ensures
        choice.location@ == store_location_of(text_of(env), text_of(arg)),
        choice.source == store_source_of(text_of(env), text_of(arg)),
{
    if let Some(text) = env {
        if !text.as_str().is_empty() {
            return StoreChoice { location: text, source: StoreSource::Environment };
        }
    }
    match arg {
        Some(text) => StoreChoice { location: text, source: StoreSource::Argument },
        None => StoreChoice { location: "results.db".to_owned(), source: StoreSource::Fallback },
    }
}

/// Reads a port number from `text`; `None` for anything that is not one.
pub fn parse_port(text: &str) -> (port: Option<u16>)
    ensures
        port == port_of_text(text@),
{
    broadcast use is_ascii_spec_bytes;

    let ghost digits: Seq<char> = unsigned_part(text@);
    if !text.is_ascii() {
        proof {
            let j: int = choose|j: int| 0 <= j < text@.len() && !('\0' <= #[trigger] text@[j] <= '\u{7f}');
            if text@[0] == '+' {
                assert(digits[j - 1] == text@[j]);
            } else {
                assert(digits[j] == text@[j]);
            }
        }
        return None;
    }
    let bytes: &[u8] = text.as_bytes();
    let n: usize = bytes.len();
    let mut i: usize = 0;
    if n > 0 && bytes[0] == 43u8 {
        i = 1;
    }
    let start: usize = i;
    if i == n {
        return None;
    }
    let mut acc: u32 = 0;
    proof {
        assert(digits.take(0) =~= Seq::<char>::empty());
    }
    while i < n
        invariant
            text.is_ascii(),
            bytes@ == text.spec_bytes(),
            n == text@.len(),
            digits == unsigned_part(text@),
            digits.len() == n - start,
            forall|j: int| 0 <= j < digits.len() ==> digits[j] == text@[j + start],
            start <= i <= n,
            all_digits(digits.take(i - start)),
            acc == decimal_value(digits.take(i - start)),
            acc <= u16::MAX,
        decreases n - i,
    {
        let b: u8 = bytes[i];
        let ghost c: char = text@[i as int];
        assert(b == c as u8);
        assert('\0' <= c <= '\u{7f}');
        assert(digits[i - start] == c);
        if b < 48u8 || b > 57u8 {
            assert(!is_digit(c));
            return None;
        }
        assert(is_digit(c));
        let d: u8 = b - 48u8;
        acc = acc * 10 + d as u32;
        proof {
            let longer: Seq<char> = digits.take(i - start + 1);
            assert(longer.drop_last() =~= digits.take(i - start));
            assert(longer.last() == c);
            assert(digit_of(c) == d);
            assert(acc == decimal_value(longer));
            assert forall|j: int| 0 <= j < longer.len() implies is_digit(#[trigger] longer[j]) by {
                if j < i - start {
                    assert(longer[j] == digits.take(i - start)[j]);
                }
            }
        }
        if acc > 65535u32 {
            proof {
                lemma_prefix_value_le(digits, i - start + 1);
            }
            return None;
        }
        i = i + 1;
    }
    proof {
        assert(digits.take(n - start) =~= digits);
    }
    if acc == 0 {
        None
    } else {
        Some(acc as u16)
    }
}

/// The listen port: what `PORT` names if it names a port, else the default.
pub fn resolve_listen_port(env: Option<String>) -> (port: u16)
    ensures
        port == listen_port_of(text_of(env)),
{
    match env {
        Some(text) => match parse_port(text.as_str()) {
            Some(port) => port,
            None => DEFAULT_LISTEN_PORT,
        },
        None => DEFAULT_LISTEN_PORT,
    }
}

/// Resolves the whole configuration from the values of `DATABASE_URL`, the
/// first command-line argument and `PORT`. No input makes it fail.
pub fn resolve(env_store: Option<String>, arg: Option<String>, env_port: Option<String>) -> (config:
    Configuration)
    ensures
        config.store_location@ == store_location_of(text_of(env_store), text_of(arg)),
        config.store_source == store_source_of(text_of(env_store), text_of(arg)),
        config.listen_port == listen_port_of(text_of(env_port)),
{
    let choice = resolve_store_location(env_store, arg);
    let listen_port: u16 = resolve_listen_port(env_port);
    Configuration { store_location: choice.location, store_source: choice.source, listen_port }
}

} // verus!
