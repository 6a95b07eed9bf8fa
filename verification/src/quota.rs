//! Tiered daily quota: who may call, how often per day, and the ledger of
//! what each device has used.

use vstd::prelude::*;
use crate::clock::{later_than, parse_utc, utc_timestamp_of, Timestamp};
use crate::text::{strip_prefix, text_eq};

verus! {

/// The quota class of a caller.
#[derive(Debug, Clone, PartialEq, Eq)]
pub enum UserTier {
    /// Neither a valid subscription nor a device identifier: denied.
    Anonymous,
    /// Known only by a stable device identifier: limited per day.
    Free { device_id: String },
    /// Holder of an active, unexpired subscription: unlimited.
    Pro,
}

/// Why a request was turned away before any provider was touched.
#[derive(Debug, Clone, PartialEq, Eq)]
pub enum QuotaDenied {
    /// The device has used up today's allowance for the feature.
    LimitReached { limit: i64, used: u64 },
    /// The caller presented no device identifier.
    DeviceIdRequired,
}

/// One row of the usage table.
#[derive(Debug, Clone, PartialEq, Eq)]
pub struct UsageRecord {
    pub subject_id: String,
    pub feature: String,
    pub day: u64,
    pub count: u64,
}

/// Daily usage counters per device and feature. A day is a number that the
/// caller derives from its clock; a new day starts from zero by itself.
#[derive(Debug)]
pub struct UsageLedger {
    records: Vec<UsageRecord>,
}

/// The allowance per device and day for a feature; 5 for a feature without
/// an entry of its own.
pub open spec fn daily_limit_of(feature: Seq<char>) -> int {
    if feature == "summarize"@ {
        1
    } else if feature == "questions"@ {
        5
    } else if feature == "ask"@ {
        5
    } else if feature == "tts"@ {
        3
    } else if feature == "to_reading"@ {
        5
    } else if feature == "podcast"@ {
        3
    } else {
        5
    }
}

/// Whether a row counts for the given device, feature and day.
pub open spec fn record_matches(r: UsageRecord, subject: Seq<char>, feature: Seq<char>, day: u64) -> bool {
    r.subject_id@ == subject && r.feature@ == feature && r.day == day
}

/// The count of the first row for the key, 0 where there is none.
pub open spec fn count_in(records: Seq<UsageRecord>, subject: Seq<char>, feature: Seq<char>, day: u64) -> int
    decreases records.len(),
{
    if records.len() == 0 {
        0
    } else if record_matches(records[0], subject, feature, day) {
        records[0].count as int
    } else {
        count_in(records.drop_first(), subject, feature, day)
    }
}

/// One more use, capped at the largest count a row can hold.
pub open spec fn bumped(count: int) -> int {
    if count < u64::MAX {
        count + 1
    } else {
        count
    }
}

/// What a tier has used of a feature on a day: the device's count for the
/// limited tier, nothing for the others.
pub open spec fn tier_usage(ledger: UsageLedger, tier: UserTier, feature: Seq<char>, day: u64) -> int {
    match tier {
        UserTier::Free { device_id } => ledger.used(device_id@, feature, day),
        _ => 0,
    }
}

/// The answer to a caller of the given tier who has used `used` of `feature`
/// today: unlimited passes, limited passes below the allowance, a caller
/// without identity is refused for that reason.
pub open spec fn admission(tier: UserTier, feature: Seq<char>, used: int) -> Result<(), QuotaDenied> {
    match tier {
        UserTier::Pro => Ok(()),
        UserTier::Free { device_id } => if used >= daily_limit_of(feature) {
            Err(QuotaDenied::LimitReached { limit: daily_limit_of(feature) as i64, used: used as u64 })
        } else {
            Ok(())
        },
        UserTier::Anonymous => Err(QuotaDenied::DeviceIdRequired),
    }
}

/// The allowance per device and day for `feature`.
pub fn get_daily_limit(feature: &str) -> (limit: i64)
    ensures
        limit == daily_limit_of(feature@),
{
    if text_eq(feature, "summarize") {
        1
    } else if text_eq(feature, "questions") {
        5
    } else if text_eq(feature, "ask") {
        5
    } else if text_eq(feature, "tts") {
        3
    } else if text_eq(feature, "to_reading") {
        5
    } else if text_eq(feature, "podcast") {
        3
    } else {
        5
    }
}

/// Replacing a row by a row for the same key leaves the count of every
/// other key as it was.
proof fn lemma_count_in_update_other(
    records: Seq<UsageRecord>,
    j: int,
    row: UsageRecord,
    s: Seq<char>,
    f: Seq<char>,
    d: u64,
)
    requires
        0 <= j < records.len(),
        row.subject_id@ == records[j].subject_id@,
        row.feature@ == records[j].feature@,
        row.day == records[j].day,
        !(s == row.subject_id@ && f == row.feature@ && d == row.day),
    ensures
        count_in(records.update(j, row), s, f, d) == count_in(records, s, f, d),
    decreases j,
{
    let after = records.update(j, row);
    if j == 0 {
        assert(after.drop_first() =~= records.drop_first());
    } else {
        lemma_count_in_update_other(records.drop_first(), j - 1, row, s, f, d);
        assert(after.drop_first() =~= records.drop_first().update(j - 1, row));
        assert(after[0] == records[0]);
    }
}

/// Adding a row at the end leaves the count of every key that the row is not
/// for as it was.
proof fn lemma_count_in_push_other(
    records: Seq<UsageRecord>,
    row: UsageRecord,
    s: Seq<char>,
    f: Seq<char>,
    d: u64,
)
    requires
        !record_matches(row, s, f, d),
    ensures
        count_in(records.push(row), s, f, d) == count_in(records, s, f, d),
    decreases records.len(),
{
    let after = records.push(row);
    if records.len() == 0 {
        assert(after.drop_first() =~= records);
    } else {
        lemma_count_in_push_other(records.drop_first(), row, s, f, d);
        assert(after.drop_first() =~= records.drop_first().push(row));
        assert(after[0] == records[0]);
    }
}

/// Adding a row for a key that no row is for sets that key's count to the
/// new row's.
proof fn lemma_count_in_push_new(records: Seq<UsageRecord>, row: UsageRecord)
    requires
        forall|i: int|
            0 <= i < records.len() ==> !record_matches(
                records[i],
                row.subject_id@,
                row.feature@,
                row.day,
            ),
    ensures
        count_in(records.push(row), row.subject_id@, row.feature@, row.day) == row.count,
    decreases records.len(),
{
    let after = records.push(row);
    if records.len() == 0 {
        assert(after.drop_first() =~= records);
    } else {
        lemma_count_in_push_new(records.drop_first(), row);
        assert(after.drop_first() =~= records.drop_first().push(row));
        assert(after[0] == records[0]);
    }
}

/// A key that no row is for has count 0.
proof fn lemma_count_in_absent(records: Seq<UsageRecord>, s: Seq<char>, f: Seq<char>, d: u64)
    requires
        forall|i: int| 0 <= i < records.len() ==> !record_matches(records[i], s, f, d),
    ensures
        count_in(records, s, f, d) == 0,
    decreases records.len(),
{
    if records.len() > 0 {
        lemma_count_in_absent(records.drop_first(), s, f, d);
    }
}

/// The count of a key is that of its first row.
proof fn lemma_count_in_first(records: Seq<UsageRecord>, j: int, s: Seq<char>, f: Seq<char>, d: u64)
    requires
        0 <= j < records.len(),
        record_matches(records[j], s, f, d),
        forall|i: int| 0 <= i < j ==> !record_matches(records[i], s, f, d),
    ensures
        count_in(records, s, f, d) == records[j].count,
    decreases j,
{
    if j > 0 {
        lemma_count_in_first(records.drop_first(), j - 1, s, f, d);
    }
}

impl UsageLedger {
    /// What `subject` has used of `feature` on `day`.
    pub closed spec fn used(&self, subject: Seq<char>, feature: Seq<char>, day: u64) -> int {
        count_in(self.records@, subject, feature, day)
    }

    /// A ledger in which nobody has used anything.
    pub fn new() -> (ledger: UsageLedger)
        ensures
            forall|s: Seq<char>, f: Seq<char>, d: u64| ledger.used(s, f, d) == 0,
    {
        UsageLedger { records: Vec::new() }
    }

    /// The place of the first row for the key, if there is one.
    fn find(&self, subject: &str, feature: &str, day: u64) -> (at: Option<usize>)
        ensures
            match at {
                Some(j) => j < self.records.len() && record_matches(
                    self.records[j as int],
                    subject@,
                    feature@,
                    day,
                ) && forall|i: int|
                    0 <= i < j ==> !record_matches(self.records[i], subject@, feature@, day),
                None => forall|i: int|
                    0 <= i < self.records.len() ==> !record_matches(
                        self.records[i],
                        subject@,
                        feature@,
                        day,
                    ),
            },
    {
        let mut i: usize = 0;
        while i < self.records.len()
            invariant
                i <= self.records.len(),
                forall|k: int|
                    0 <= k < i ==> !record_matches(self.records[k], subject@, feature@, day),
            decreases self.records.len() - i,
        {
            let r = &self.records[i];
            if r.day == day && text_eq(r.subject_id.as_str(), subject) && text_eq(
                r.feature.as_str(),
                feature,
            ) {
                return Some(i);
            }
            i += 1;
        }
        None
    }

    /// What `subject` has used of `feature` on `day`.
    pub fn get_usage(&self, subject: &str, feature: &str, day: u64) -> (count: u64)
        ensures
            count == self.used(subject@, feature@, day),
    {
        match self.find(subject, feature, day) {
            Some(j) => {
                proof {
                    lemma_count_in_first(self.records@, j as int, subject@, feature@, day);
                }
                self.records[j].count
            },
            None => {
                proof {
                    lemma_count_in_absent(self.records@, subject@, feature@, day);
                }
                0
            },
        }
    }

    /// Counts one more use of `feature` by `subject` on `day`, and changes no
    /// other count.
    pub fn increment_usage(&mut self, subject: &str, feature: &str, day: u64)
        ensures
            final(self).used(subject@, feature@, day) == bumped(
                old(self).used(subject@, feature@, day),
            ),
            forall|s: Seq<char>, f: Seq<char>, d: u64|
                !(s == subject@ && f == feature@ && d == day) ==> final(self).used(s, f, d) == old(
                    self,
                ).used(s, f, d),
    {
        match self.find(subject, feature, day) {
            Some(j) => {
                let count = self.records[j].count;
                let next = if count < u64::MAX {
                    count + 1
                } else {
                    count
                };
                let row = UsageRecord {
                    subject_id: subject.to_owned(),
                    feature: feature.to_owned(),
                    day,
                    count: next,
                };
                proof {
                    let before = self.records@;
                    let after = before.update(j as int, row);
                    lemma_count_in_first(before, j as int, subject@, feature@, day);
                    lemma_count_in_first(after, j as int, subject@, feature@, day);
                    assert forall|s: Seq<char>, f: Seq<char>, d: u64|
                        !(s == subject@ && f == feature@ && d == day) implies count_in(
                        after,
                        s,
                        f,
                        d,
                    ) == count_in(before, s, f, d) by {
                        lemma_count_in_update_other(before, j as int, row, s, f, d);
                    }
                }
                self.records.set(j, row);
            },
            None => {
                let row = UsageRecord {
                    subject_id: subject.to_owned(),
                    feature: feature.to_owned(),
                    day,
                    count: 1,
                };
                proof {
                    let before = self.records@;
                    lemma_count_in_absent(before, subject@, feature@, day);
                    lemma_count_in_push_new(before, row);
                    assert forall|s: Seq<char>, f: Seq<char>, d: u64|
                        !(s == subject@ && f == feature@ && d == day) implies count_in(
                        before.push(row),
                        s,
                        f,
                        d,
                    ) == count_in(before, s, f, d) by {
                        lemma_count_in_push_other(before, row, s, f, d);
                    }
                }
                self.records.push(row);
            },
        }
    }
}

/// Whether a caller of the given tier may use `feature` now, by what its
/// device has used of it on `day`.
pub fn check_rate_limit(ledger: &UsageLedger, tier: &UserTier, feature: &str, day: u64) -> (res:
    Result<(), QuotaDenied>)
    ensures
        res == admission(*tier, feature@, tier_usage(*ledger, *tier, feature@, day)),
{
    match tier {
        UserTier::Pro => Ok(()),
        UserTier::Free { device_id } => {
            let limit = get_daily_limit(feature);
            let used = ledger.get_usage(device_id.as_str(), feature, day);
            if used >= limit as u64 {
                Err(QuotaDenied::LimitReached { limit, used })
            } else {
                Ok(())
            }
        },
        UserTier::Anonymous => Err(QuotaDenied::DeviceIdRequired),
    }
}

/// What one served request does to the ledger: for a limited caller, the
/// count of its device for the feature and the day goes up by one and no
/// other count changes; for the other tiers nothing changes.
pub open spec fn counted_once(
    before: UsageLedger,
    after: UsageLedger,
    tier: UserTier,
    feature: Seq<char>,
    day: u64,
) -> bool {
    match tier {
        UserTier::Free { device_id } => {
            &&& after.used(device_id@, feature, day) == bumped(before.used(device_id@, feature, day))
            &&& forall|s: Seq<char>, f: Seq<char>, d: u64|
                !(s == device_id@ && f == feature && d == day) ==> #[trigger] after.used(s, f, d)
                    == before.used(s, f, d)
        },
        _ => forall|s: Seq<char>, f: Seq<char>, d: u64|
            #[trigger] after.used(s, f, d) == before.used(s, f, d),
    }
}

/// With a daily limit of N, a limited caller that has used N - 1 is let
/// through; the use that is then counted brings its count to N, and from
/// there on it is turned away because the limit is reached.
pub proof fn lemma_limit_boundary(
    before: UsageLedger,
    after: UsageLedger,
    tier: UserTier,
    feature: Seq<char>,
    day: u64,
)
    requires
        tier is Free,
        tier_usage(before, tier, feature, day) == daily_limit_of(feature) - 1,
        counted_once(before, after, tier, feature, day),
    ensures
        admission(tier, feature, tier_usage(before, tier, feature, day)) is Ok,
        tier_usage(after, tier, feature, day) == daily_limit_of(feature),
        admission(tier, feature, tier_usage(after, tier, feature, day)) == Err::<(), QuotaDenied>(
            QuotaDenied::LimitReached {
                limit: daily_limit_of(feature) as i64,
                used: daily_limit_of(feature) as u64,
            },
        ),
{
}

/// Counts one use of `feature` for a limited caller; does nothing for the
/// other tiers.
pub fn increment_if_free(ledger: &mut UsageLedger, tier: &UserTier, feature: &str, day: u64)
    ensures
        counted_once(*old(ledger), *final(ledger), *tier, feature@, day),
{
    if let UserTier::Free { device_id } = tier {
        ledger.increment_usage(device_id.as_str(), feature, day);
    }
}

/// What the subscription store holds for a token: the state of the
/// subscription and the written date at which the paid period ends.
#[derive(Debug, Clone, PartialEq, Eq)]
pub struct Subscription {
    pub status: String,
    pub current_period_end: String,
}

/// The token of an `Authorization` header: what stands behind `Bearer `.
pub open spec fn bearer_token_of(authorization: Seq<char>) -> Option<Seq<char>> {
    if "Bearer "@.is_prefix_of(authorization) {
        Some(authorization.skip("Bearer "@.len() as int))
    } else {
        None
    }
}

/// Whether a subscription makes its holder unlimited at `now`: it is
/// active, and the end of its period is a date that lies later than `now`.
pub open spec fn is_current(status: Seq<char>, period_end: Option<Timestamp>, now: Timestamp) -> bool {
    status == "active"@ && match period_end {
        Some(end) => later_than(end, now),
        None => false,
    }
}

/// Whether a device identifier was presented: there is one, and it is not
/// empty.
pub open spec fn presents_device(device_id: Option<Seq<char>>) -> bool {
    match device_id {
        Some(id) => id.len() > 0,
        None => false,
    }
}

/// The token of an `Authorization` header, if it is a bearer's.
pub fn bearer_token<'a>(authorization: &'a str) -> (token: Option<&'a str>)
    ensures
        match token {
            Some(t) => bearer_token_of(authorization@) == Some(t@),
            None => bearer_token_of(authorization@) is None,
        },
{
    match strip_prefix(authorization, "Bearer ") {
        Some(rest) => {
            proof {
                let n = "Bearer "@.len() as int;
                assert(authorization@.subrange(0, n) =~= "Bearer "@);
                assert(authorization@.skip(n) =~= rest@);
            }
            Some(rest)
        },
        None => None,
    }
}

/// Whether a subscription in state `status` whose period ends at
/// `period_end` makes its holder unlimited at `now`.
pub fn subscription_is_current(status: &str, period_end: Option<Timestamp>, now: Timestamp) -> (current:
    bool)
    ensures
        current == is_current(status@, period_end, now),
{
    if !text_eq(status, "active") {
        return false;
    }
    match period_end {
        Some(end) => end.is_later_than(&now),
        None => false,
    }
}

/// The tier of a caller: unlimited with a subscription that is current at
/// `now`; limited by its device with a device identifier and no such
/// subscription; denied with neither.
pub fn extract_user_tier(subscription: Option<&Subscription>, device_id: Option<&str>, now: Timestamp) -> (tier:
    UserTier)
    ensures
        ({
            let current = match subscription {
                Some(s) => is_current(s.status@, utc_timestamp_of(s.current_period_end@), now),
                None => false,
            };
            let device = match device_id {
                Some(id) => Some(id@),
                None => None,
            };
            match tier {
                UserTier::Pro => current,
                UserTier::Free { device_id: id } => !current && presents_device(device) && Some(id@)
                    == device,
                UserTier::Anonymous => !current && !presents_device(device),
            }
        }),
{
    if let Some(s) = subscription {
        let end = parse_utc(s.current_period_end.as_str());
        if subscription_is_current(s.status.as_str(), end, now) {
            return UserTier::Pro;
        }
    }
    if let Some(id) = device_id {
        if !id.is_empty() {
            return UserTier::Free { device_id: id.to_owned() };
        }
    }
    UserTier::Anonymous
}

/// The features that have a daily limit of their own.
pub const FEATURES: [&'static str; 6] = [
    "summarize",
    "questions",
    "ask",
    "tts",
    "to_reading",
    "podcast",
];

/// What a caller is told of its quota: its tier, what its device has used
/// today, and the daily limits.
#[derive(Debug, Clone, PartialEq, Eq)]
pub struct UsageReport {
    pub tier: &'static str,
    pub usage: Vec<(String, u64)>,
    pub limits: Vec<(&'static str, i64)>,
}

/// The name of a tier in a report.
pub open spec fn tier_name_of(tier: UserTier) -> Seq<char> {
    match tier {
        UserTier::Pro => "pro"@,
        UserTier::Free { .. } => "free"@,
        UserTier::Anonymous => "anonymous"@,
    }
}

/// Whether `limits` is the table of daily limits: each feature that has a
/// limit of its own with that limit, in the order of the table.
pub open spec fn is_limit_table(limits: Seq<(&'static str, i64)>) -> bool {
    &&& limits.len() == FEATURES@.len()
    &&& forall|i: int|
        0 <= i < limits.len() ==> (#[trigger] limits[i]).0@ == FEATURES@[i]@ && limits[i].1
            == daily_limit_of(FEATURES@[i]@)
}

/// Whether `usage` tells what `subject` has used on `day`: each entry is a
/// feature with the subject's count for it, no feature occurs twice, and
/// every feature that the subject has used is there.
pub open spec fn is_usage_of(
    ledger: UsageLedger,
    usage: Seq<(String, u64)>,
    subject: Seq<char>,
    day: u64,
) -> bool {
    &&& forall|k: int|
        0 <= k < usage.len() ==> (#[trigger] usage[k]).1 == ledger.used(subject, usage[k].0@, day)
    &&& forall|j: int, k: int| 0 <= j < k < usage.len() ==> usage[j].0@ != usage[k].0@
    &&& forall|feature: Seq<char>|
        ledger.used(subject, feature, day) > 0 ==> exists|k: int|
            0 <= k < usage.len() && (#[trigger] usage[k]).0@ == feature
}

/// The table of daily limits.
pub fn feature_limits() -> (limits: Vec<(&'static str, i64)>)
    ensures
        is_limit_table(limits@),
{
    let mut limits: Vec<(&'static str, i64)> = Vec::new();
    let mut i: usize = 0;
    while i < 6
        invariant
            i <= 6,
            limits@.len() == i,
            forall|k: int|
                0 <= k < i ==> (#[trigger] limits@[k]).0@ == FEATURES@[k]@ && limits@[k].1
                    == daily_limit_of(FEATURES@[k]@),
        decreases 6 - i,
    {
        let name = FEATURES[i];
        limits.push((name, get_daily_limit(name)));
        i += 1;
    }
    limits
}

/// Whether the row at `r` is the first row for its feature among the rows
/// of `subject` on `day`.
pub open spec fn is_first_row(records: Seq<UsageRecord>, r: int, subject: Seq<char>, day: u64) -> bool {
    &&& 0 <= r < records.len()
    &&& records[r].subject_id@ == subject
    &&& records[r].day == day
    &&& forall|q: int|
        0 <= q < r ==> !record_matches(#[trigger] records[q], subject, records[r].feature@, day)
}

/// A key that has a row has a first row.
proof fn lemma_first_row_exists(
    records: Seq<UsageRecord>,
    r: int,
    subject: Seq<char>,
    feature: Seq<char>,
    day: u64,
) -> (first: int)
    requires
        0 <= r < records.len(),
        record_matches(records[r], subject, feature, day),
    ensures
        0 <= first <= r,
        records[first].feature@ == feature,
        is_first_row(records, first, subject, day),
    decreases r,
{
    if exists|q: int| 0 <= q < r && record_matches(#[trigger] records[q], subject, feature, day) {
        let q = choose|q: int|
            0 <= q < r && record_matches(#[trigger] records[q], subject, feature, day);
        lemma_first_row_exists(records, q, subject, feature, day)
    } else {
        r
    }
}

impl UsageLedger {
    /// What `subject` has used on `day`, feature by feature.
    pub fn usage_of(&self, subject: &str, day: u64) -> (usage: Vec<(String, u64)>)
        ensures
            is_usage_of(*self, usage@, subject@, day),
    {
        let mut usage: Vec<(String, u64)> = Vec::new();
        let ghost mut origin: Seq<int> = Seq::empty();
        let mut i: usize = 0;
        while i < self.records.len()
            invariant
                i <= self.records.len(),
                origin.len() == usage@.len(),
                forall|k: int|
                    0 <= k < origin.len() ==> {
                        &&& 0 <= #[trigger] origin[k] < i
                        &&& is_first_row(self.records@, origin[k], subject@, day)
                        &&& usage@[k].0@ == self.records[origin[k]].feature@
                        &&& usage@[k].1 == self.records[origin[k]].count
                    },
                forall|j: int, k: int|
                    0 <= j < k < origin.len() ==> #[trigger] origin[j] < #[trigger] origin[k],
                forall|r: int|
                    0 <= r < i && #[trigger] is_first_row(self.records@, r, subject@, day)
                        ==> origin.contains(r),
            decreases self.records.len() - i,
        {
            let row = &self.records[i];
            let ghost before = origin;
            let mut first_here = false;
            if row.day == day && text_eq(row.subject_id.as_str(), subject) {
                match self.find(subject, row.feature.as_str(), day) {
                    Some(j) => {
                        first_here = j == i;
                    },
                    None => {},
                }
            }
            if first_here {
                usage.push((row.feature.clone(), row.count));
                proof {
                    origin = origin.push(i as int);
                    assert(origin[origin.len() - 1] == i);
                    assert forall|r: int|
                        0 <= r < i + 1 && #[trigger] is_first_row(
                            self.records@,
                            r,
                            subject@,
                            day,
                        ) implies origin.contains(r) by {
                        if r < i {
                            assert(before.contains(r));
                            let k = choose|k: int| 0 <= k < before.len() && before[k] == r;
                            assert(origin[k] == r);
                        }
                    }
                }
            } else {
                proof {
                    if is_first_row(self.records@, i as int, subject@, day) {
                        assert(record_matches(self.records[i as int], subject@, row.feature@, day));
                    }
                }
            }
            i += 1;
        }
        proof {
            assert forall|k: int| 0 <= k < usage@.len() implies (#[trigger] usage@[k]).1
                == self.used(subject@, usage@[k].0@, day) by {
                let r = origin[k];
                lemma_count_in_first(self.records@, r, subject@, self.records[r].feature@, day);
            }
            assert forall|j: int, k: int| 0 <= j < k < usage@.len() implies usage@[j].0@
                != usage@[k].0@ by {
                let rj = origin[j];
                let rk = origin[k];
                if usage@[j].0@ == usage@[k].0@ {
                    assert(record_matches(self.records@[rj], subject@, self.records[rk].feature@, day));
                }
            }
            assert forall|feature: Seq<char>| self.used(subject@, feature, day) > 0 implies exists|
                k: int,
            |
                0 <= k < usage@.len() && (#[trigger] usage@[k]).0@ == feature by {
                if forall|r: int|
                    0 <= r < self.records@.len() ==> !record_matches(
                        self.records@[r],
                        subject@,
                        feature,
                        day,
                    ) {
                    lemma_count_in_absent(self.records@, subject@, feature, day);
                } else {
                    let r = choose|r: int|
                        0 <= r < self.records@.len() && record_matches(
                            self.records@[r],
                            subject@,
                            feature,
                            day,
                        );
                    let first = lemma_first_row_exists(self.records@, r, subject@, feature, day);
                    assert(origin.contains(first));
                    let k = choose|k: int| 0 <= k < origin.len() && origin[k] == first;
                    assert(usage@[k].0@ == feature);
                }
            }
        }
        usage
    }
}

/// What a caller of `tier` is told of its quota on `day`: an unlimited
/// caller neither usage nor limits, a limited one both, a caller without
/// identity the limits alone.
pub fn usage_report(ledger: &UsageLedger, tier: &UserTier, day: u64) -> (report: UsageReport)
    ensures
        report.tier@ == tier_name_of(*tier),
        match *tier {
            UserTier::Pro => report.usage@.len() == 0 && report.limits@.len() == 0,
            UserTier::Free { device_id } => is_usage_of(*ledger, report.usage@, device_id@, day)
                && is_limit_table(report.limits@),
            UserTier::Anonymous => report.usage@.len() == 0 && is_limit_table(report.limits@),
        },
{
    match tier {
        UserTier::Pro => UsageReport { tier: "pro", usage: Vec::new(), limits: Vec::new() },
        UserTier::Free { device_id } => UsageReport {
            tier: "free",
            usage: ledger.usage_of(device_id.as_str(), day),
            limits: feature_limits(),
        },
        UserTier::Anonymous => UsageReport {
            tier: "anonymous",
            usage: Vec::new(),
            limits: feature_limits(),
        },
    }
}

/// Whether a request may change the service: any request where no secret
/// is configured, else one that presents the secret.
pub open spec fn admin_allowed(secret: Seq<char>, provided: Option<Seq<char>>) -> bool {
    secret.len() == 0 || match provided {
        Some(p) => p == secret,
        None => false,
    }
}

/// Whether a request that presents `provided` as the administrator's
/// secret may change the service.
pub fn check_admin_auth(secret: &str, provided: Option<&str>) -> (allowed: bool)
    ensures
        allowed == admin_allowed(
            secret@,
            match provided {
                Some(p) => Some(p@),
                None => None,
            },
        ),
{
    if secret.is_empty() {
        return true;
    }
    match provided {
        Some(p) => text_eq(p, secret),
        None => false,
    }
}

} // verus!
