//! Access tokens of the Web API.
use vstd::prelude::*;

verus! {

/// The earliest second that a point in time can lie in. It is the first one of a minute.
pub const MIN_SECS: i64 = -8_334_601_228_800;

/// The latest second that a point in time can lie in.
pub const MAX_SECS: i64 = 8_210_266_876_799;

/// How many seconds before its time a token counts as expired.
pub const EXPIRY_MARGIN: u32 = 10;

/// A point in time: seconds since 1970, and nanoseconds since the beginning of the second. Leap
/// seconds are not counted: a point in time within one is given by the second before, the last
/// one of its minute, with a thousand million nanoseconds or more.
#[derive(Clone, Copy, Debug, PartialEq, Eq, Structural)]
pub struct Timestamp {
    pub secs: i64,
    pub nanos: u32,
}

impl Timestamp {
    /// The point in time lies within a leap second.
    pub open spec fn in_leap_second(self) -> bool {
        self.nanos >= 1_000_000_000
    }

    /// The point in time can be represented as a date.
    pub open spec fn well_formed(self) -> bool {
        &&& MIN_SECS <= self.secs <= MAX_SECS
        &&& self.nanos < 2_000_000_000
        &&& self.in_leap_second() ==> self.secs as int % 60 == 59
    }

    /// The point in time `seconds` later. The second after a leap second is the first one of
    /// the next minute.
    pub open spec fn later(self, seconds: u32) -> Timestamp {
        Timestamp {
            secs: (self.secs + seconds) as i64,
            nanos: if self.in_leap_second() && seconds > 0 {
                (self.nanos - 1_000_000_000) as u32
            } else {
                self.nanos
            },
        }
    }

    /// The point in time is `other`, or before it.
    pub open spec fn not_after(self, other: Timestamp) -> bool {
        self.secs < other.secs || self.secs == other.secs && self.nanos <= other.nanos
    }

    /// The clock of a machine can show the point in time: it starts in 1970, knows no leap
    /// seconds, and leaves room for the margin.
    pub open spec fn clock_reading(self) -> bool {
        0 <= self.secs && self.nanos < 1_000_000_000 && self.can_add(EXPIRY_MARGIN)
    }

    /// No clock is ever more than the margin before this point in time.
    pub open spec fn long_past(self) -> bool {
        self.secs < 10 || self.secs == 10 && self.nanos == 0
    }

    /// The point in time can be represented as a date, and so can the one `seconds` later.
    pub open spec fn can_add(self, seconds: u32) -> bool {
        self.well_formed() && self.secs + seconds <= MAX_SECS
    }

    /// Whether the point in time can be represented as a date, and the one `seconds` later too.
    pub fn fits(&self, seconds: u32) -> (r: bool)
        ensures
            r == self.can_add(seconds),
    {
        MIN_SECS <= self.secs && self.secs <= MAX_SECS && self.nanos < 2_000_000_000 && (
        self.nanos < 1_000_000_000 || (self.secs - MIN_SECS) as u64 % 60 == 59) && self.secs
            + seconds as i64 <= MAX_SECS
    }
}

/// `chrono::DateTime<Utc> + chrono::Duration::seconds(..)`: the point in time `seconds` later. A
/// sum that leaves a leap second has a thousand million nanoseconds less; a sum with no seconds
/// stays where it is. The call panics where the sum is after the last date.
#[verifier::external_body]
fn add_seconds(at: Timestamp, seconds: u32) -> (r: Timestamp)
    requires
        at.can_add(seconds),
    ensures
        r == at.later(seconds),
{
    let at = chrono::DateTime::from_timestamp(at.secs, at.nanos).unwrap();
    let sum = at + chrono::Duration::seconds(seconds as i64);
    Timestamp { secs: sum.timestamp(), nanos: sum.timestamp_subsec_nanos() }
}

/// A token that is valid until `expires_at` counts as expired when the clock shows `now`: that
/// time is at most the margin ahead, or there is none.
pub open spec fn expired(expires_at: Option<Timestamp>, now: Timestamp) -> bool {
    match expires_at {
        Some(at) => at.not_after(now.later(EXPIRY_MARGIN)),
        None => true,
    }
}

/// `r` is right for some time that a clock can show: whether a token that is valid until
/// `expires_at` counts as expired then.
pub open spec fn right_at_some_time(expires_at: Option<Timestamp>, r: bool) -> bool {
    exists|now: Timestamp| #[trigger] now.clock_reading() && r == expired(expires_at, now)
}

/// `rspotify::Token::is_expired`, of a token that is valid until `expires_at`: whether that is
/// at most ten seconds ahead, by the clock of the machine. The result is the right one for some
/// time that a clock can show. What the clock shows is not said: two calls may differ.
#[verifier::external_body]
fn is_expired(expires_at: Option<Timestamp>) -> (r: bool)
    requires
        expires_at matches Some(at) ==> at.well_formed(),
    ensures
        right_at_some_time(expires_at, r),
{
    let expires_at = expires_at.and_then(|t| chrono::DateTime::from_timestamp(t.secs, t.nanos));
    rspotify::Token { expires_at, ..Default::default() }.is_expired()
}

/// `r` is what a look at the clock says of a token that is valid until `expires_at`: whether it
/// has expired.
pub closed spec fn clock_says(expires_at: Option<Timestamp>, r: bool) -> bool {
    call_ensures(is_expired, (expires_at,), r)
}

/// What a look at the clock says is right for a time that a clock can show.
pub proof fn clock_shows_a_time(expires_at: Option<Timestamp>, r: bool)
    requires
        clock_says(expires_at, r),
    ensures
        right_at_some_time(expires_at, r),
{
}

/// An access token, how many seconds it is valid for, and until when. `S` is the type of texts.
#[derive(Debug, PartialEq, Eq)]
pub struct ApiToken<S> {
    pub access_token: S,
    pub expires_in: i64,
    pub expires_at: Option<Timestamp>,
}

impl<S: View> View for ApiToken<S> {
    type V = ApiToken<S::V>;

    open spec fn view(&self) -> ApiToken<S::V> {
        ApiToken {
            access_token: self.access_token@,
            expires_in: self.expires_in,
            expires_at: self.expires_at,
        }
    }
}

/// A token that was granted at `now`, for `expires_in` seconds.
pub open spec fn granted<S>(access_token: S, expires_in: u32, now: Timestamp) -> ApiToken<S> {
    ApiToken {
        access_token,
        expires_in: expires_in as i64,
        expires_at: Some(now.later(expires_in)),
    }
}

/// A token that was granted at `now`, for `expires_in` seconds.
pub fn api_token(access_token: String, expires_in: u32, now: Timestamp) -> (r: ApiToken<String>)
    requires
        now.can_add(expires_in),
    ensures
        r@ == granted(access_token@, expires_in, now),
{
    ApiToken {
        access_token,
        expires_in: expires_in as i64,
        expires_at: Some(add_seconds(now, expires_in)),
    }
}

/// A new token is needed when the clock shows `now`, where `held` is the time until which the
/// token at hand is valid: that token has expired, or there is none.
pub open spec fn needed_at(held: Option<Option<Timestamp>>, now: Timestamp) -> bool {
    match held {
        Some(expires_at) => expired(expires_at, now),
        None => true,
    }
}

/// `needed` is the answer to whether a new token is needed. Where there is a token at hand, it
/// is what a look at the clock says of that very token.
pub open spec fn token_answer(held: Option<Option<Timestamp>>, needed: bool) -> bool {
    match held {
        Some(expires_at) => clock_says(expires_at, needed),
        None => needed,
    }
}

/// A new token is needed whatever the clock says: there is no token, or none with a time until
/// which it is valid, or that time is long past.
pub open spec fn surely_needs_token(held: Option<Option<Timestamp>>) -> bool {
    match held {
        None => true,
        Some(None) => true,
        Some(Some(at)) => at.long_past(),
    }
}

/// A new token is surely needed exactly where it is needed at every time that a clock can show.
pub proof fn surely_means_by_every_clock(held: Option<Option<Timestamp>>)
    requires
        held matches Some(Some(at)) ==> at.well_formed(),
    ensures
        surely_needs_token(held) <==> forall|now: Timestamp| #[trigger]
            now.clock_reading() ==> needed_at(held, now),
{
    let start = Timestamp { secs: 0, nanos: 0 };
    assert(start.clock_reading());
    if !surely_needs_token(held) {
        assert(!needed_at(held, start));
    }
}

/// A token that has expired stays so: where a new one is needed, it is needed at any later time
/// too, until it is there.
pub proof fn expiry_lasts(held: Option<Option<Timestamp>>, now: Timestamp, later: Timestamp)
    requires
        now.clock_reading(),
        later.clock_reading(),
        now.not_after(later),
        needed_at(held, now),
    ensures
        needed_at(held, later),
{
}

/// Whether a new token is needed, where `expired` says of the token at hand whether it has
/// expired: it is where the token has, or where there is none.
pub fn token_needed(expired: Option<bool>) -> (r: bool)
    ensures
        r <==> (expired is None || expired == Some(true)),
{
    match expired {
        Some(expired) => expired,
        None => true,
    }
}

/// Whether a new token is needed, where `held` is the time until which the token at hand is
/// valid. Where that time is not long past, the clock decides whether the token has expired, and
/// `token_needed` says what follows from either.
pub fn needs_token(held: Option<Option<Timestamp>>) -> (r: bool)
    requires
        held matches Some(Some(at)) ==> at.well_formed(),
    ensures
        token_answer(held, r),
        exists|now: Timestamp| #[trigger] now.clock_reading() && r == needed_at(held, now),
        surely_needs_token(held) ==> r,
{
    proof {
        surely_means_by_every_clock(held);
        assert((Timestamp { secs: 0, nanos: 0 }).clock_reading());
    }
    let expired = match held {
        Some(expires_at) => Some(is_expired(expires_at)),
        None => None,
    };
    token_needed(expired)
}

/// A token that is granted at `now` for some seconds is valid until just as many seconds later,
/// whenever that is, and is the token that was given, for the time that was given.
pub proof fn token_lasts_as_long_as_granted<S>(access_token: S, expires_in: u32, now: Timestamp)
    requires
        now.can_add(expires_in),
    ensures
        ({
            let token = granted(access_token, expires_in, now);
            &&& token.access_token == access_token
            &&& token.expires_in == expires_in
            &&& token.expires_at matches Some(at)
            &&& at.secs - now.secs == expires_in
            &&& now.nanos < 1_000_000_000 || expires_in == 0 ==> at.nanos == now.nanos
            &&& now.nanos >= 1_000_000_000 && expires_in > 0 ==> now.nanos - at.nanos
                == 1_000_000_000
        }),
{
}

/// A token is used from when it is granted until ten seconds before its time, and no longer: at
/// any later look at the clock it has expired exactly where as many seconds have gone by as it
/// was granted for, less ten. So a token for more than ten seconds is good for use at once.
pub proof fn token_is_used_until_the_margin<S>(
    access_token: S,
    expires_in: u32,
    now: Timestamp,
    then_shown: Timestamp,
)
    requires
        now.clock_reading(),
        now.can_add(expires_in),
        then_shown.clock_reading(),
    ensures
        expired(granted(access_token, expires_in, now).expires_at, then_shown) <==> {
            ||| then_shown.secs - now.secs > expires_in - 10
            ||| then_shown.secs - now.secs == expires_in - 10 && then_shown.nanos >= now.nanos
        },
        expired(granted(access_token, expires_in, now).expires_at, now) <==> expires_in <= 10,
{
}

/// Two tokens that are granted at the same time expire as far apart as they were granted for,
/// and two that are granted for the same time as far apart as they were granted.
pub proof fn times_keep_their_distance<S>(
    token: S,
    a: u32,
    b: u32,
    now: Timestamp,
    other: Timestamp,
)
    requires
        now.can_add(a),
        now.can_add(b),
        other.can_add(a),
    ensures
        granted(token, a, now).expires_at->0.secs - granted(token, b, now).expires_at->0.secs == a
            - b,
        granted(token, a, now).expires_at->0.secs - granted(token, a, other).expires_at->0.secs
            == now.secs - other.secs,
{
}

/// Which points in time there are, which of them can be added to, which a clock can show, and
/// which are past for every clock.
pub proof fn points_in_time(t: Timestamp, seconds: u32)
    ensures
        t.well_formed() <==> {
            &&& -8_334_601_228_800 <= t.secs <= 8_210_266_876_799
            &&& t.nanos < 1_000_000_000 || t.nanos < 2_000_000_000 && t.secs as int % 60 == 59
        },
        t.can_add(seconds) <==> t.well_formed() && t.secs + seconds <= 8_210_266_876_799,
        t.clock_reading() <==> 0 <= t.secs <= 8_210_266_876_789 && t.nanos < 1_000_000_000,
        t.long_past() <==> t.secs < 10 || t.secs == 10 && t.nanos == 0,
        t.can_add(seconds) ==> t.later(seconds).secs == t.secs + seconds,
        t.can_add(seconds) && t.nanos < 1_000_000_000 ==> t.later(seconds).nanos == t.nanos,
{
}

/// A token has expired when its time is at most ten seconds ahead of the clock. One without a
/// time has expired, and so a new one is needed; it is needed as well where there is none.
pub proof fn tokens_expire_ten_seconds_early(at: Timestamp, now: Timestamp, needed: bool)
    requires
        now.clock_reading(),
    ensures
        expired(Some(at), now) <==> at.secs < now.secs + 10 || at.secs == now.secs + 10 && at.nanos
            <= now.nanos,
        expired(None, now),
        needed_at(Some(Some(at)), now) <==> expired(Some(at), now),
        needed_at(Some(None), now),
        needed_at(None, now),
        surely_needs_token(Some(Some(at))) <==> at.secs < 10 || at.secs == 10 && at.nanos == 0,
        surely_needs_token(Some(None)),
        surely_needs_token(None),
        token_answer(Some(Some(at)), needed) <==> clock_says(Some(at), needed),
        token_answer(Some(None), needed) <==> clock_says(None, needed),
        token_answer(None, needed) <==> needed,
        right_at_some_time(Some(at), needed) <==> exists|t: Timestamp|
            {
                &&& #[trigger] t.clock_reading()
                &&& needed <==> at.secs < t.secs + 10 || at.secs == t.secs + 10 && at.nanos
                    <= t.nanos
            },
        right_at_some_time(None, needed) <==> needed,
{
    if right_at_some_time(Some(at), needed) {
        let t = choose|t: Timestamp| #[trigger] t.clock_reading() && needed == expired(Some(at), t);
        assert(t.clock_reading());
    }
    if exists|t: Timestamp|
        {
            &&& #[trigger] t.clock_reading()
            &&& needed <==> at.secs < t.secs + 10 || at.secs == t.secs + 10 && at.nanos <= t.nanos
        } {
        let t = choose|t: Timestamp|
            {
                &&& #[trigger] t.clock_reading()
                &&& needed <==> at.secs < t.secs + 10 || at.secs == t.secs + 10 && at.nanos
                    <= t.nanos
            };
        assert(t.clock_reading() && needed == expired(Some(at), t));
    }
    assert(needed ==> needed == expired(None, now));
}

/// What a look at the clock says is what the check of the token returns, and nothing else.
proof fn clock_says_what_the_check_returns(expires_at: Option<Timestamp>, r: bool)
    ensures
        clock_says(expires_at, r) <==> call_ensures(is_expired, (expires_at,), r),
{
}

/// Contracts speak of a token by its text and its times.
pub proof fn token_view_keeps_fields<S: View>(token: ApiToken<S>)
    ensures
        token@.access_token == token.access_token@,
        token@.expires_in == token.expires_in,
        token@.expires_at == token.expires_at,
{
}

} // verus!
