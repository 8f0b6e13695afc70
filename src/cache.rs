use vstd::prelude::*;

verus! {

/// Every cached token pair is stored under this prefix.
pub const KEY_PREFIX: &'static str = "jobber-tokens/";

/// Safety window, in seconds, taken off an access token's expiry: a token is
/// refreshed once the clock is within this window of its `exp` claim.
pub const EXPIRY_MARGIN: u64 = 1800;

/// The character of a decimal digit.
pub open spec fn digit_char(d: nat) -> char {
    seq!['0', '1', '2', '3', '4', '5', '6', '7', '8', '9'][d as int]
}

/// The decimal notation of `n`, without leading zeros.
pub open spec fn decimal(n: nat) -> Seq<char>
    decreases n,
{
    if n < 10 {
        seq![digit_char(n)]
    } else {
        decimal(n / 10) + seq![digit_char(n % 10)]
    }
}

/// The storage key of the token pair of user `user_id` of application `app_id`.
pub open spec fn key_of(app_id: Seq<char>, user_id: u64) -> Seq<char> {
    KEY_PREFIX@ + app_id + "/"@ + decimal(user_id as nat) + ".json"@
}

/// Whether `keys` lists `key`.
pub open spec fn lists(keys: Seq<String>, key: Seq<char>) -> bool {
    exists|i: int| 0 <= i < keys.len() && (#[trigger] keys[i])@ == key
}

/// Whether a token expiring at `exp` is due for renewal at clock reading `now`:
/// the clock is past `exp - EXPIRY_MARGIN`. An unreadable clock counts as not expired.
pub open spec fn token_expired(exp: u64, now: Option<u64>) -> bool {
    match now {
        Some(n) => n as int > exp as int - EXPIRY_MARGIN as int,
        None => false,
    }
}

fn digit_str(d: u64) -> (r: &'static str)
    requires
        d < 10,
    ensures
        r@ == seq![digit_char(d as nat)],
{
    proof {
        reveal_strlit("0");
        reveal_strlit("1");
        reveal_strlit("2");
        reveal_strlit("3");
        reveal_strlit("4");
        reveal_strlit("5");
        reveal_strlit("6");
        reveal_strlit("7");
        reveal_strlit("8");
        reveal_strlit("9");
    }
    if d == 0 {
        assert("0"@ =~= seq![digit_char(0)]);
        "0"
    } else if d == 1 {
        assert("1"@ =~= seq![digit_char(1)]);
        "1"
    } else if d == 2 {
        assert("2"@ =~= seq![digit_char(2)]);
        "2"
    } else if d == 3 {
        assert("3"@ =~= seq![digit_char(3)]);
        "3"
    } else if d == 4 {
        assert("4"@ =~= seq![digit_char(4)]);
        "4"
    } else if d == 5 {
        assert("5"@ =~= seq![digit_char(5)]);
        "5"
    } else if d == 6 {
        assert("6"@ =~= seq![digit_char(6)]);
        "6"
    } else if d == 7 {
        assert("7"@ =~= seq![digit_char(7)]);
        "7"
    } else if d == 8 {
        assert("8"@ =~= seq![digit_char(8)]);
        "8"
    } else {
        assert("9"@ =~= seq![digit_char(9)]);
        "9"
    }
}

/// The decimal notation of `n`.
pub fn decimal_string(n: u64) -> (r: String)
    ensures
        r@ == decimal(n as nat),
{
    let mut rest: u64 = n;
    let mut out = String::new();
    while rest >= 10
        invariant
            decimal(n as nat) == decimal(rest as nat) + out@,
        decreases rest,
    {
        let d = digit_str(rest % 10);
        proof {
            assert(decimal(rest as nat) == decimal((rest / 10) as nat) + seq![
                digit_char((rest % 10) as nat),
            ]);
            assert(decimal((rest / 10) as nat) + (d@ + out@) =~= decimal(rest as nat) + out@);
        }
        out = String::from_str(d).concat(out.as_str());
        rest = rest / 10;
    }
    let d = digit_str(rest);
    String::from_str(d).concat(out.as_str())
}

/// The storage key of the token pair of user `user_id` of application `app_id`:
/// `jobber-tokens/{app_id}/{user_id}.json`.
pub fn cache_key(app_id: &str, user_id: u64) -> (r: String)
    ensures
        r@ == key_of(app_id@, user_id),
{
    let mut key = String::from_str(KEY_PREFIX);
    key.append(app_id);
    key.append("/");
    let digits = decimal_string(user_id);
    key.append(digits.as_str());
    key.append(".json");
    key
}

/// Whether the listing `keys` holds `key`.
pub fn contains_key(keys: &Vec<String>, key: &String) -> (r: bool)
    ensures
        r == lists(keys@, key@),
{
    let mut i: usize = 0;
    while i < keys.len()
        invariant
            i <= keys.len(),
            forall|k: int| 0 <= k < i ==> (#[trigger] keys@[k])@ != key@,
        decreases keys.len() - i,
    {
        if keys[i] == *key {
            return true;
        }
        i = i + 1;
    }
    false
}

/// Whether a token expiring at `exp` (seconds since the epoch) is due for
/// renewal when the clock reads `now`; `None` stands for a clock set before
/// the epoch, which counts as not expired.
pub fn is_expired(exp: u64, now: Option<u64>) -> (r: bool)
    ensures
        r == token_expired(exp, now),
{
    match now {
        Some(n) => {
            if exp <= n {
                true
            } else {
                exp - n < EXPIRY_MARGIN
            }
        },
        None => false,
    }
}

} // verus!
