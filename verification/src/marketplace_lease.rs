//! Marketplace leases: the provider a lease configures, and which lease
//! may be used.

use vstd::prelude::*;

use crate::text::{
    chars_eq, chars_of, is_ascii_alnum, is_ascii_alnum_exec, string_of, trim_char, trim_char_vec,
    trim_end_char, trim_end_char_vec, trim_ws, trim_ws_vec,
};

verus! {

/// A point in time: seconds since the Unix epoch and the nanoseconds
/// within that second (up to 1_999_999_999 during a leap second).
#[derive(Clone, Copy, Debug, PartialEq, Eq, Structural)]
pub struct Timestamp {
    pub secs: i64,
    pub nanos: u32,
}

/// `a` is strictly later than `b`.
pub open spec fn is_later(a: Timestamp, b: Timestamp) -> bool {
    a.secs > b.secs || (a.secs == b.secs && a.nanos > b.nanos)
}

/// The time elapsed since the Unix epoch (`std::time::UNIX_EPOCH.elapsed()`),
/// as whole seconds and the nanoseconds within the last second: `Ok` when
/// the clock is at or after the epoch, `Err` with the time to the epoch when
/// it is before. The contract claims only the range of the nanoseconds that
/// `Duration` documents; the time itself is whatever the clock says.
#[verifier::external_body]
fn elapsed_since_epoch() -> (r: Result<(u64, u32), (u64, u32)>)
    ensures
        match r {
            Ok(d) => d.1 < 1_000_000_000,
            Err(d) => d.1 < 1_000_000_000,
        },
{
    match std::time::UNIX_EPOCH.elapsed() {
        Ok(d) => Ok((d.as_secs(), d.subsec_nanos())),
        Err(e) => Err((e.duration().as_secs(), e.duration().subsec_nanos())),
    }
}

/// The current time, read from the system clock. A clock before the epoch
/// gives a negative timestamp, as chrono counts it.
fn current_time() -> (r: Timestamp)
    ensures
        r.nanos < 1_000_000_000,
{
    match elapsed_since_epoch() {
        Ok((secs, nanos)) => {
            let s: i64 = if secs <= 9_223_372_036_854_775_807u64 {
                secs as i64
            } else {
                9_223_372_036_854_775_807i64
            };
            Timestamp { secs: s, nanos }
        },
        Err((secs, nanos)) => {
            let s: i64 = if secs <= 9_223_372_036_854_775_807u64 {
                secs as i64
            } else {
                9_223_372_036_854_775_807i64
            };
            if nanos == 0 {
                Timestamp { secs: -s, nanos: 0 }
            } else {
                Timestamp { secs: -s - 1, nanos: 1_000_000_000 - nanos }
            }
        },
    }
}

/// A lease of a marketplace provider, as recorded locally.
pub struct MarketplaceLease {
    pub id: String,
    pub endpoint: String,
    pub model: String,
    pub expires_at: Timestamp,
    pub status: Option<String>,
    pub auth_token: String,
}

/// The character used for `c` in a provider key.
pub open spec fn key_char(c: char) -> char {
    if is_ascii_alnum(c) || c == '-' || c == '_' {
        c
    } else {
        '-'
    }
}

/// `value` with every character other than ASCII letters, digits, `-` and
/// `_` replaced by `-`, and leading and trailing `-` removed.
pub open spec fn spec_sanitize_provider_key(value: Seq<char>) -> Seq<char> {
    trim_char(Seq::new(value.len(), |i: int| key_char(value[i])), '-')
}

/// The lease status counts as active (absent means active).
pub open spec fn status_is_active(status: Option<String>) -> bool {
    match status {
        Some(s) => s@ == "ACTIVE"@,
        None => true,
    }
}

/// The lease may be used at `now`.
pub open spec fn spec_is_active_at(lease: MarketplaceLease, now: Timestamp) -> bool {
    status_is_active(lease.status) && is_later(lease.expires_at, now)
}

/// Sanitises a lease id into a provider-key fragment.
pub fn sanitize_provider_key(value: &str) -> (r: String)
    ensures
        r@ == spec_sanitize_provider_key(value@),
{
    let cs = chars_of(value);
    let mut mapped: Vec<char> = Vec::new();
    let n = cs.len();
    let mut i: usize = 0;
    while i < n
        invariant
            n == cs@.len(),
            cs@ == value@,
            i <= n,
            mapped@ =~= Seq::new(i as nat, |k: int| key_char(cs@[k])),
        decreases n - i,
    {
        let ch = cs[i];
        if is_ascii_alnum_exec(ch) || ch == '-' || ch == '_' {
            mapped.push(ch);
        } else {
            mapped.push('-');
        }
        i = i + 1;
    }
    let t = trim_char_vec(&mapped, '-');
    string_of(&t)
}

impl MarketplaceLease {
    /// The key of the provider this lease configures.
    pub fn provider_key(&self) -> (r: String)
        ensures
            r@ == "solai-lease-"@ + spec_sanitize_provider_key(self.id@),
    {
        let mut s = String::from_str("solai-lease-");
        let k = sanitize_provider_key(self.id.as_str());
        s.append(k.as_str());
        s
    }

    /// The display name of the provider this lease configures.
    pub fn provider_name(&self) -> (r: String)
        ensures
            r@ == "SOLAI Lease "@ + self.id@,
    {
        let mut s = String::from_str("SOLAI Lease ");
        s.append(self.id.as_str());
        s
    }

    /// The OpenAI-compatible base URL of the leased provider.
    pub fn base_url(&self) -> (r: String)
        ensures
            r@ == trim_end_char(self.endpoint@, '/') + "/v1"@,
    {
        let cs = chars_of(self.endpoint.as_str());
        let t = trim_end_char_vec(&cs, '/');
        let mut s = string_of(&t);
        s.append("/v1");
        s
    }

    /// Whether the lease may be used at `now`: its status is `ACTIVE` (or
    /// absent) and it expires after `now`.
    pub fn is_active_at(&self, now: Timestamp) -> (r: bool)
        ensures
            r == spec_is_active_at(*self, now),
    {
        let status_ok = match &self.status {
            Some(s) => {
                let cs = chars_of(s.as_str());
                let active = chars_of("ACTIVE");
                chars_eq(&cs, &active)
            },
            None => true,
        };
        status_ok && (self.expires_at.secs > now.secs || (self.expires_at.secs == now.secs
            && self.expires_at.nanos > now.nanos))
    }

    /// Whether the lease may be used now: the answer of [`Self::is_active_at`]
    /// at the instant the clock was read.
    pub fn is_active(&self) -> (r: bool)
        ensures
            exists|now: Timestamp|
                now.nanos < 2_000_000_000 && r == #[trigger] spec_is_active_at(*self, now),
    {
        let now = current_time();
        self.is_active_at(now)
    }
}

/// Why a lease cannot be used.
pub enum LeaseError {
    NotFound(String),
    MissingAuthToken(String),
    Inactive(String),
}

/// The abstract value of a [`LeaseError`]: the kind and the lease id.
pub ghost enum LeaseErrorView {
    NotFound(Seq<char>),
    MissingAuthToken(Seq<char>),
    Inactive(Seq<char>),
}

impl View for LeaseError {
    type V = LeaseErrorView;

    open spec fn view(&self) -> LeaseErrorView {
        match self {
            LeaseError::NotFound(id) => LeaseErrorView::NotFound(id@),
            LeaseError::MissingAuthToken(id) => LeaseErrorView::MissingAuthToken(id@),
            LeaseError::Inactive(id) => LeaseErrorView::Inactive(id@),
        }
    }
}

/// The message for a lease error.
pub open spec fn spec_lease_error_message(e: LeaseErrorView) -> Seq<char> {
    match e {
        LeaseErrorView::NotFound(id) => "lease "@ + id + " was not found"@,
        LeaseErrorView::MissingAuthToken(id) => "lease "@ + id
            + " is missing its local auth token"@,
        LeaseErrorView::Inactive(id) => "lease "@ + id + " is not active or has expired"@,
    }
}

impl LeaseError {
    /// The message for this error.
    pub fn message(&self) -> (r: String)
        ensures
            r@ == spec_lease_error_message(self@),
    {
        let mut s = String::from_str("lease ");
        match self {
            LeaseError::NotFound(id) => {
                s.append(id.as_str());
                s.append(" was not found");
            },
            LeaseError::MissingAuthToken(id) => {
                s.append(id.as_str());
                s.append(" is missing its local auth token");
            },
            LeaseError::Inactive(id) => {
                s.append(id.as_str());
                s.append(" is not active or has expired");
            },
        }
        s
    }
}

/// The index of the first lease with the given id, if any.
pub open spec fn first_lease_with_id(leases: Seq<MarketplaceLease>, id: Seq<char>) -> Option<int> {
    if exists|i: int| 0 <= i < leases.len() && leases[i].id@ == id {
        Some(
            choose|i: int|
                0 <= i < leases.len() && leases[i].id@ == id && forall|j: int|
                    0 <= j < i ==> leases[j].id@ != id,
        )
    } else {
        None
    }
}

/// The outcome of selecting the lease `lease_id` at time `now`: the first
/// lease with that id, provided it has an auth token and is active.
pub open spec fn spec_select_active_lease(
    leases: Seq<MarketplaceLease>,
    lease_id: Seq<char>,
    now: Timestamp,
) -> Result<MarketplaceLease, LeaseErrorView> {
    match first_lease_with_id(leases, lease_id) {
        None => Err(LeaseErrorView::NotFound(lease_id)),
        Some(i) => if trim_ws(leases[i].auth_token@).len() == 0 {
            Err(LeaseErrorView::MissingAuthToken(lease_id))
        } else if !spec_is_active_at(leases[i], now) {
            Err(LeaseErrorView::Inactive(lease_id))
        } else {
            Ok(leases[i])
        },
    }
}

fn find_lease(leases: &Vec<MarketplaceLease>, lease_id: &str) -> (r: Option<usize>)
    ensures
        r matches Some(k) ==> k < leases@.len() && leases@[k as int].id@ == lease_id@ && forall|j: int|
            0 <= j < k ==> leases@[j].id@ != lease_id@,
        r is None ==> forall|j: int| 0 <= j < leases@.len() ==> leases@[j].id@ != lease_id@,
{
    let target = chars_of(lease_id);
    let n = leases.len();
    let mut i: usize = 0;
    while i < n
        invariant
            n == leases@.len(),
            target@ == lease_id@,
            i <= n,
            forall|j: int| 0 <= j < i ==> leases@[j].id@ != lease_id@,
        decreases n - i,
    {
        let cs = chars_of(leases[i].id.as_str());
        if chars_eq(&cs, &target) {
            return Some(i);
        }
        i = i + 1;
    }
    None
}

pub proof fn lemma_first_lease(leases: Seq<MarketplaceLease>, id: Seq<char>)
    ensures
        match first_lease_with_id(leases, id) {
            Some(i) => 0 <= i < leases.len() && leases[i].id@ == id,
            None => true,
        },
{
    if exists|i: int| 0 <= i < leases.len() && leases[i].id@ == id {
        let w = choose|i: int| 0 <= i < leases.len() && leases[i].id@ == id;
        lemma_least_lease(leases, id, w);
    }
}

proof fn lemma_least_lease(leases: Seq<MarketplaceLease>, id: Seq<char>, w: int)
    requires
        0 <= w < leases.len(),
        leases[w].id@ == id,
    ensures
        exists|i: int|
            0 <= i < leases.len() && leases[i].id@ == id && forall|j: int|
                0 <= j < i ==> leases[j].id@ != id,
    decreases w,
{
    if exists|j: int| 0 <= j < w && leases[j].id@ == id {
        let j = choose|j: int| 0 <= j < w && leases[j].id@ == id;
        lemma_least_lease(leases, id, j);
    } else {
        assert(forall|j: int| 0 <= j < w ==> leases[j].id@ != id);
    }
}

/// Picks the lease `lease_id` from the recorded leases, checking that it
/// carries an auth token and is active at `now`.
pub fn select_active_lease(leases: Vec<MarketplaceLease>, lease_id: &str, now: Timestamp) -> (r:
    Result<MarketplaceLease, LeaseError>)
    ensures
        match spec_select_active_lease(leases@, lease_id@, now) {
            Ok(l) => r matches Ok(x) && x == l,
            Err(e) => r matches Err(x) && x@ == e,
        },
{
    let found = find_lease(&leases, lease_id);
    let ghost pick = first_lease_with_id(leases@, lease_id@);
    let mut leases = leases;
    match found {
        None => {
            assert(pick is None);
            Err(LeaseError::NotFound(String::from_str(lease_id)))
        },
        Some(k) => {
            proof {
                let c = choose|c: int|
                    0 <= c < leases@.len() && leases@[c].id@ == lease_id@ && forall|j: int|
                        0 <= j < c ==> leases@[j].id@ != lease_id@;
                assert(leases@[k as int].id@ == lease_id@);
                if c < k {
                } else if k < c {
                }
                assert(pick == Some(k as int));
            }
            let lease = leases.swap_remove(k);
            let token = chars_of(lease.auth_token.as_str());
            let trimmed = trim_ws_vec(&token);
            if trimmed.len() == 0 {
                return Err(LeaseError::MissingAuthToken(String::from_str(lease_id)));
            }
            if !lease.is_active_at(now) {
                return Err(LeaseError::Inactive(String::from_str(lease_id)));
            }
            Ok(lease)
        },
    }
}

/// Picks the lease `lease_id` and checks it against the current time: the
/// outcome is that of [`select_active_lease`] at the instant the clock was
/// read.
pub fn select_active_lease_now(leases: Vec<MarketplaceLease>, lease_id: &str) -> (r: Result<
    MarketplaceLease,
    LeaseError,
>)
    ensures
        exists|now: Timestamp|
            now.nanos < 2_000_000_000 && match #[trigger] spec_select_active_lease(
                leases@,
                lease_id@,
                now,
            ) {
                Ok(l) => r matches Ok(x) && x == l,
                Err(e) => r matches Err(x) && x@ == e,
            },
{
    let now = current_time();
    select_active_lease(leases, lease_id, now)
}

} // verus!
