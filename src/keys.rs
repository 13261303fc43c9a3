use vstd::prelude::*;

verus! {

/// Length of a generated API key.
pub const API_KEY_LEN: usize = 32;

/// An ASCII letter or digit.
pub open spec fn is_alphanumeric_byte(b: u8) -> bool {
    (48 <= b <= 57) || (65 <= b <= 90) || (97 <= b <= 122)
}

/// A valid API key: `API_KEY_LEN` ASCII letters and digits.
pub open spec fn is_api_key(k: Seq<char>) -> bool {
    &&& k.len() == API_KEY_LEN
    &&& forall|i: int| 0 <= i < k.len() ==> #[trigger] is_alphanumeric_byte(k[i] as u8) && (
    k[i] as u32) < 128
}

/// Relies on `rand::Rng::sample` with `rand::distributions::Alphanumeric` on
/// `rand::thread_rng()`: each draw is one of `A-Z`, `a-z`, `0-9`.
#[verifier::external_body]
fn random_alphanumeric() -> (r: u8)
    ensures
        is_alphanumeric_byte(r),
{
    rand::Rng::sample(&mut rand::thread_rng(), rand::distributions::Alphanumeric)
}

/// Relies on `String::from_utf8`: ASCII bytes are valid UTF-8 and become the
/// characters with those codes.
#[verifier::external_body]
fn ascii_to_string(bytes: Vec<u8>) -> (r: String)
    requires
        forall|i: int| 0 <= i < bytes@.len() ==> bytes@[i] < 128,
    ensures
        r@.len() == bytes@.len(),
        forall|i: int| 0 <= i < bytes@.len() ==> #[trigger] r@[i] == bytes@[i] as char,
{
    match String::from_utf8(bytes) {
        Ok(s) => s,
        Err(_) => String::new(),
    }
}

/// A fresh random API key.
pub fn generate_key() -> (r: String)
    ensures
        is_api_key(r@),
{
    let mut bytes: Vec<u8> = Vec::new();
    let mut i: usize = 0;
    while i < API_KEY_LEN
        invariant
            i <= API_KEY_LEN,
            bytes@.len() == i,
            forall|k: int| 0 <= k < i ==> #[trigger] is_alphanumeric_byte(bytes@[k]),
        decreases API_KEY_LEN - i,
    {
        bytes.push(random_alphanumeric());
        i += 1;
    }
    let ghost b = bytes@;
    assert forall|k: int| 0 <= k < b.len() implies b[k] < 128 by {
        assert(is_alphanumeric_byte(b[k]));
    }
    let r = ascii_to_string(bytes);
    assert forall|k: int| 0 <= k < r@.len() implies #[trigger] is_alphanumeric_byte(r@[k] as u8)
        && (r@[k] as u32) < 128 by {
        assert(r@[k] == b[k] as char);
        assert(is_alphanumeric_byte(b[k]));
    }
    r
}

/// Application-wide state owned by the server and handed to request handlers:
/// the API keys issued so far, in order of issue.
#[derive(Debug)]
pub struct AppState {
    pub api_keys: Vec<String>,
}

impl AppState {
    pub fn new() -> (r: AppState)
        ensures
            r.api_keys@.len() == 0,
    {
        AppState { api_keys: Vec::new() }
    }
}

/// Records an issued API key after the ones already held.
pub fn apikey_to_state(state: &mut AppState, key: &str)
    ensures
        final(state).api_keys@.len() == old(state).api_keys@.len() + 1,
        final(state).api_keys@.drop_last() == old(state).api_keys@,
        final(state).api_keys@.last()@ == key@,
{
    state.api_keys.push(key.to_owned());
    assert(state.api_keys@.drop_last() =~= old(state).api_keys@);
}

} // verus!
