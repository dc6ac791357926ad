//! Access tokens: an opaque credential string together with the absolute
//! instant (UTC seconds) at which it stops being usable.

use vstd::prelude::*;

verus! {

/// Default safety margin, in seconds, applied by [`Token::is_valid`]:
/// a token is treated as expired this long before its real expiry, so a
/// token handed out now is unlikely to cross its expiry while in flight.
pub const DEFAULT_MARGIN_S: i64 = 30;

/// Mathematical view of a [`Token`]: its credential characters and its
/// absolute expiry instant, in whole seconds of UTC time.
pub ghost struct TokenData {
    pub access_token: Seq<char>,
    pub expires_at: int,
}

/// `a + b` clamped into the range of `i64`.
pub open spec fn sat_add_i64(a: int, b: int) -> int {
    if a + b > i64::MAX {
        i64::MAX as int
    } else if a + b < i64::MIN {
        i64::MIN as int
    } else {
        a + b
    }
}

/// Whether a token with data `t` is still usable at instant `now` when a
/// safety margin of `margin` seconds is demanded: true iff the shifted
/// instant `now + margin` still lies strictly before the expiry instant.
pub open spec fn spec_valid_with_margin(t: TokenData, now: int, margin: int) -> bool {
    now + margin < t.expires_at
}

/// An immutable access credential with its absolute expiry instant.
/// The expiry is fixed at construction; a new credential is always a new
/// `Token`, never an in-place update.
pub struct Token {
    /// The opaque credential string presented to the API.
    pub access_token: String,
    expires_at: i64,
}

impl View for Token {
    type V = TokenData;

    closed spec fn view(&self) -> TokenData {
        TokenData { access_token: self.access_token@, expires_at: self.expires_at as int }
    }
}

/// Relies on chrono's `From<SystemTime>` conversion and
/// `DateTime::timestamp`: the current UTC time as whole seconds since the
/// Unix epoch. The conversion maps a clock set before the epoch to
/// negative seconds rather than failing; a clock beyond the range of
/// chrono's `DateTime` (hundreds of millennia away) cannot be represented
/// at all. Nothing can be promised of the machine clock, so no clause
/// pins the value.
#[verifier::external_body]
pub fn now_utc_s() -> i64 {
    chrono::DateTime::<chrono::Utc>::from(std::time::SystemTime::now()).timestamp()
}

impl Token {
    /// Constructs a token expiring `expires_in_s` seconds after the given
    /// instant `now_s`. The expiry sum saturates at the range of `i64`.
    /// A non-positive lifetime yields an already-expired token.
    pub fn with_now(access_token: &str, expires_in_s: i64, now_s: i64) -> (t: Token)
        ensures
            t@.access_token == access_token@,
            t@.expires_at == sat_add_i64(now_s as int, expires_in_s as int),
    {
        let expires_at: i64 = match now_s.checked_add(expires_in_s) {
            Some(sum) => sum,
            None => if expires_in_s > 0 { i64::MAX } else { i64::MIN },
        };
        Token { access_token: access_token.to_string(), expires_at }
    }

    /// Constructs a token expiring `expires_in_s` seconds from the current
    /// UTC time. The lifetime's sign is not validated: a non-positive value
    /// yields an already-expired token. The construction instant comes
    /// from the machine clock, so the expiry is pinned only relative to
    /// some instant.
    pub fn new(access_token: &str, expires_in_s: i64) -> (t: Token)
        ensures
            t@.access_token == access_token@,
            exists|now: int| t@.expires_at == sat_add_i64(now, expires_in_s as int),
    {
        let now_s = now_utc_s();
        let t = Token::with_now(access_token, expires_in_s, now_s);
        proof {
            assert(t@.expires_at == sat_add_i64(now_s as int, expires_in_s as int));
        }
        t
    }

    /// True iff the instant `now_s`, pushed `margin_s` seconds forward as a
    /// safety buffer, still lies strictly before this token's expiry.
    pub fn is_valid_with_margin(&self, now_s: i64, margin_s: i64) -> (r: bool)
        ensures
            r == spec_valid_with_margin(self@, now_s as int, margin_s as int),
    {
        match now_s.checked_add(margin_s) {
            Some(shifted) => shifted < self.expires_at,
            // The shifted instant lies outside the range of `i64`, hence on
            // the same side of every representable expiry instant.
            None => margin_s < 0,
        }
    }

    /// An independent copy of the credential string, usable after the
    /// token itself is no longer borrowed.
    pub fn access_token_copy(&self) -> (r: String)
        ensures
            r@ == self@.access_token,
    {
        self.access_token.clone()
    }

    /// Whether the token is usable right now, with the default margin of
    /// [`DEFAULT_MARGIN_S`] seconds. The current UTC time comes from the
    /// machine clock, so the clause records only the delegation: the
    /// result is the margin check at some instant.
    pub fn is_valid(&self) -> (r: bool)
        ensures
            exists|now: int| r == spec_valid_with_margin(self@, now, DEFAULT_MARGIN_S as int),
    {
        let now_s = now_utc_s();
        let r = self.is_valid_with_margin(now_s, DEFAULT_MARGIN_S);
        proof {
            assert(r == spec_valid_with_margin(self@, now_s as int, DEFAULT_MARGIN_S as int));
        }
        r
    }
}

/// Law: a freshly constructed token whose lifetime exceeds the demanded
/// margin is valid at its construction instant. The expiry sum saturates
/// at the range of `i64`, which forces the two range bounds here: an
/// expiry cut back to the end of the range can fall inside the margin
/// window even though the lifetime exceeds the margin.
pub proof fn lemma_fresh_token_valid(t: TokenData, now: int, expires_in: int, margin: int)
    requires
        t.expires_at == sat_add_i64(now, expires_in),
        margin < expires_in,
        i64::MIN <= now + margin,
        now + expires_in <= i64::MAX,
    ensures
        spec_valid_with_margin(t, now, margin),
{
}

/// Law: at any instant `now` such that `now + margin` has reached the
/// expiry instant, a token is no longer valid with that margin.
pub proof fn lemma_expired_token_invalid(t: TokenData, now: int, margin: int)
    requires
        now + margin >= t.expires_at,
    ensures
        !spec_valid_with_margin(t, now, margin),
{
}

} // verus!
