//! Filtering and classification of fetched repository info.
//!
//! A repository qualifies for the report when its popularity count is at
//! or below the caller's threshold. A qualifying repository is classed in
//! one of three severity tiers by its count and flagged stale when its
//! latest activity lies more than the staleness window before now.
//! Entries keep the scan's order; a repository without fetched info never
//! yields an entry.

use vstd::prelude::*;

use crate::client::RepoInfo;
use crate::scanner::RepoId;
use crate::wrappers::{parse_rfc3339_epoch, rfc3339_epoch_of};

verus! {

/// Seconds in the staleness window: three 365-day years.
pub const STALE_WINDOW_SECONDS: i64 = 3 * 365 * 86400;

/// The report's three-level classification of a popularity count.
#[derive(Clone, Copy, Debug, PartialEq, Eq, Structural)]
pub enum Severity {
    Highest,
    Medium,
    Lowest,
}

/// Counts under 10 rank highest, counts from 10 under 50 medium, counts
/// of 50 and more lowest.
pub open spec fn severity_spec(count: u32) -> Severity {
    if count < 10 {
        Severity::Highest
    } else if count < 50 {
        Severity::Medium
    } else {
        Severity::Lowest
    }
}

/// Classifies a popularity count into its severity tier.
pub fn classify_severity(count: u32) -> (r: Severity)
    ensures
        r == severity_spec(count),
{
    if count < 10 {
        Severity::Highest
    } else if count < 50 {
        Severity::Medium
    } else {
        Severity::Lowest
    }
}

/// An activity timestamp is stale when it parses as RFC 3339 and its
/// moment lies more than the staleness window before `now`; bytes that do
/// not parse (the sentinel among them) are never stale.
pub open spec fn stale_spec(activity: Seq<u8>, now: int) -> bool {
    match rfc3339_epoch_of(activity) {
        Some(e) => e + STALE_WINDOW_SECONDS < now,
        None => false,
    }
}

/// Decides staleness of an activity timestamp against the moment `now`.
pub fn is_stale(activity: &[u8], now_epoch: i64) -> (r: bool)
    ensures
        r == stale_spec(activity@, now_epoch as int),
{
    match parse_rfc3339_epoch(activity) {
        Some(e) => (e as i128) + (STALE_WINDOW_SECONDS as i128) < (now_epoch as i128),
        None => false,
    }
}

/// One report line's data: the identifier, its count, its severity tier,
/// its staleness flag, and the raw timestamp.
pub struct ReportEntry {
    pub org: Vec<u8>,
    pub name: Vec<u8>,
    pub popularity: u32,
    pub severity: Severity,
    pub stale: bool,
    pub last_activity: Vec<u8>,
}

/// The mathematical image of a report entry.
pub struct EntryModel {
    pub org: Seq<u8>,
    pub name: Seq<u8>,
    pub popularity: u32,
    pub severity: Severity,
    pub stale: bool,
    pub last_activity: Seq<u8>,
}

impl View for ReportEntry {
    type V = EntryModel;

    open spec fn view(&self) -> EntryModel {
        EntryModel {
            org: self.org@,
            name: self.name@,
            popularity: self.popularity,
            severity: self.severity,
            stale: self.stale,
            last_activity: self.last_activity@,
        }
    }
}

/// The entry derived for one repository: present exactly when info was
/// fetched and the count is at or below the threshold; then it carries
/// the count's severity tier and the timestamp's staleness.
pub open spec fn entry_spec(
    id: (Seq<u8>, Seq<u8>),
    info: Option<(u32, Seq<u8>)>,
    max_stars: u32,
    now: int,
) -> Option<EntryModel> {
    match info {
        None => None,
        Some((count, activity)) => if count <= max_stars {
            Some(
                EntryModel {
                    org: id.0,
                    name: id.1,
                    popularity: count,
                    severity: severity_spec(count),
                    stale: stale_spec(activity, now),
                    last_activity: activity,
                },
            )
        } else {
            None
        },
    }
}

/// The mathematical image of one fetched item.
pub open spec fn item_model(item: (RepoId, Option<RepoInfo>)) -> (
    (Seq<u8>, Seq<u8>),
    Option<(u32, Seq<u8>)>,
) {
    (
        item.0@,
        match item.1 {
            None => None,
            Some(info) => Some((info.popularity, info.last_activity@)),
        },
    )
}

/// The mathematical image of a fetched item list.
pub open spec fn items_model(items: Seq<(RepoId, Option<RepoInfo>)>) -> Seq<
    ((Seq<u8>, Seq<u8>), Option<(u32, Seq<u8>)>),
> {
    items.map_values(|it: (RepoId, Option<RepoInfo>)| item_model(it))
}

/// The mathematical image of an entry list.
pub open spec fn entries_model(entries: Seq<ReportEntry>) -> Seq<EntryModel> {
    entries.map_values(|e: ReportEntry| e@)
}

/// The full report: one entry per qualifying fetched repository, in the
/// input's order.
pub open spec fn report_spec(
    items: Seq<((Seq<u8>, Seq<u8>), Option<(u32, Seq<u8>)>)>,
    max_stars: u32,
    now: int,
) -> Seq<EntryModel>
    decreases items.len(),
{
    if items.len() == 0 {
        Seq::empty()
    } else {
        (match entry_spec(items[0].0, items[0].1, max_stars, now) {
            Some(e) => seq![e],
            None => Seq::empty(),
        }) + report_spec(items.drop_first(), max_stars, now)
    }
}

/// Derives the report entry for one repository with fetched info.
pub fn evaluate_repo(id: &RepoId, info: &RepoInfo, max_stars: u32, now_epoch: i64) -> (r: Option<
    ReportEntry,
>)
    ensures
        r matches Some(e) ==> entry_spec(
            id@,
            Some((info.popularity, info.last_activity@)),
            max_stars,
            now_epoch as int,
        ) == Some(e@),
        r is None ==> entry_spec(
            id@,
            Some((info.popularity, info.last_activity@)),
            max_stars,
            now_epoch as int,
        ) is None,
{
    if crate::AI(info.popularity, max_stars) {
        let severity = classify_severity(info.popularity);
        let stale = is_stale(info.last_activity.as_slice(), now_epoch);
        Some(
            ReportEntry {
                org: crate::scanner::copy_bytes(&id.org),
                name: crate::scanner::copy_bytes(&id.name),
                popularity: info.popularity,
                severity,
                stale,
                last_activity: crate::scanner::copy_bytes(&info.last_activity),
            },
        )
    } else {
        None
    }
}

/// Builds the report for a list of fetched items: exactly the qualifying
/// repositories, in order, each classified and flagged.
pub fn build_report(items: &Vec<(RepoId, Option<RepoInfo>)>, max_stars: u32, now_epoch: i64) -> (r:
    Vec<ReportEntry>)
    ensures
        entries_model(r@) == report_spec(items_model(items@), max_stars, now_epoch as int),
{
    let ghost ms = items_model(items@);
    let ghost now = now_epoch as int;
    let mut out: Vec<ReportEntry> = Vec::new();
    let mut idx: usize = 0;
    proof {
        assert(ms.skip(0) =~= ms);
    }
    while idx < items.len()
        invariant
            idx <= items@.len(),
            ms == items_model(items@),
            now == now_epoch as int,
            entries_model(out@) + report_spec(ms.skip(idx as int), max_stars, now) == report_spec(
                ms,
                max_stars,
                now,
            ),
        decreases items@.len() - idx,
    {
        let ghost rest = ms.skip(idx as int);
        proof {
            assert(rest.len() == ms.len() - idx);
            assert(rest[0] == ms[idx as int]);
            assert(rest.drop_first() =~= ms.skip(idx as int + 1));
            assert(ms[idx as int] == item_model(items@[idx as int]));
        }
        let item = &items[idx];
        match &item.1 {
            None => {
                proof {
                    assert(entry_spec(rest[0].0, rest[0].1, max_stars, now) is None);
                    assert(report_spec(rest, max_stars, now) =~= report_spec(
                        rest.drop_first(),
                        max_stars,
                        now,
                    ));
                }
            },
            Some(info) => {
                match evaluate_repo(&item.0, info, max_stars, now_epoch) {
                    Some(entry) => {
                        proof {
                            assert(entry_spec(rest[0].0, rest[0].1, max_stars, now) == Some(
                                entry@,
                            ));
                            assert(report_spec(rest, max_stars, now) =~= seq![entry@]
                                + report_spec(rest.drop_first(), max_stars, now));
                            assert(entries_model(out@.push(entry)) =~= entries_model(out@).push(
                                entry@,
                            ));
                        }
                        out.push(entry);
                    },
                    None => {
                        proof {
                            assert(entry_spec(rest[0].0, rest[0].1, max_stars, now) is None);
                            assert(report_spec(rest, max_stars, now) =~= report_spec(
                                rest.drop_first(),
                                max_stars,
                                now,
                            ));
                        }
                    },
                }
            },
        }
        idx = idx + 1;
        proof {
            assert(entries_model(out@) + report_spec(ms.skip(idx as int), max_stars, now)
                =~= report_spec(ms, max_stars, now));
        }
    }
    proof {
        assert(ms.skip(idx as int) =~= Seq::<((Seq<u8>, Seq<u8>), Option<(u32, Seq<u8>)>)>::empty());
        assert(entries_model(out@) + report_spec(ms.skip(idx as int), max_stars, now)
            =~= entries_model(out@));
    }
    out
}

/// A repository with fetched info whose count equals the threshold yields
/// a report entry: the threshold boundary itself qualifies.
pub proof fn lemma_threshold_boundary(
    id: (Seq<u8>, Seq<u8>),
    count: u32,
    activity: Seq<u8>,
    max_stars: u32,
    now: int,
)
    requires
        count == max_stars,
    ensures
        entry_spec(id, Some((count, activity)), max_stars, now) is Some,
{
}

/// Staleness is exactly the window comparison: an activity moment more
/// than the staleness window before `now` is stale; one at the boundary
/// or after it is not.
pub proof fn lemma_stale_boundary(activity: Seq<u8>, e: i64, now: int)
    requires
        rfc3339_epoch_of(activity) == Some(e),
    ensures
        stale_spec(activity, now) == (e + STALE_WINDOW_SECONDS < now),
{
}

/// A timestamp that does not parse as RFC 3339 (the sentinel among them)
/// is never stale, whatever the moment `now`.
pub proof fn lemma_unparseable_never_stale(activity: Seq<u8>, now: int)
    requires
        rfc3339_epoch_of(activity) is None,
    ensures
        !stale_spec(activity, now),
{
}

/// `e` qualifies for threshold `max_stars` and carries its count's
/// severity tier and its timestamp's staleness against `now`.
pub open spec fn entry_classified(e: EntryModel, max_stars: u32, now: int) -> bool {
    &&& e.popularity <= max_stars
    &&& e.severity == severity_spec(e.popularity)
    &&& e.stale == stale_spec(e.last_activity, now)
}

/// Every entry of a report qualifies and is correctly classified: its
/// count is at or below the threshold, its severity tier is the count's
/// tier, and its staleness flag is the timestamp's staleness.
pub proof fn lemma_report_entries_classified(
    items: Seq<((Seq<u8>, Seq<u8>), Option<(u32, Seq<u8>)>)>,
    max_stars: u32,
    now: int,
)
    ensures
        forall|j: int| 0 <= j < report_spec(items, max_stars, now).len() ==> entry_classified(
            #[trigger] report_spec(items, max_stars, now)[j],
            max_stars,
            now,
        ),
    decreases items.len(),
{
    if items.len() == 0 {
    } else {
        let rest = items.drop_first();
        lemma_report_entries_classified(rest, max_stars, now);
        let head = entry_spec(items[0].0, items[0].1, max_stars, now);
        assert forall|j: int| 0 <= j < report_spec(items, max_stars, now).len() implies
            entry_classified(
            #[trigger] report_spec(items, max_stars, now)[j],
            max_stars,
            now,
        ) by {
            let shift: int = if head is Some {
                1
            } else {
                0
            };
            if head is Some && j == 0 {
                assert(report_spec(items, max_stars, now)[0] == head->Some_0);
            } else {
                assert(report_spec(items, max_stars, now)[j] == report_spec(
                    rest,
                    max_stars,
                    now,
                )[j - shift]);
            }
        }
    }
}

/// `e` stems from an item of `items` that carries fetched info and whose
/// derived entry is `e`.
pub open spec fn entry_originates(
    items: Seq<((Seq<u8>, Seq<u8>), Option<(u32, Seq<u8>)>)>,
    max_stars: u32,
    now: int,
    e: EntryModel,
) -> bool {
    exists|i: int|
        0 <= i < items.len() && (#[trigger] items[i]).1 is Some && entry_spec(
            items[i].0,
            items[i].1,
            max_stars,
            now,
        ) == Some(e)
}

/// A repository whose metadata fetch yielded no data never appears in the
/// report, whatever the threshold: every report entry stems from an item
/// that carries fetched info.
pub proof fn lemma_no_data_excluded(
    items: Seq<((Seq<u8>, Seq<u8>), Option<(u32, Seq<u8>)>)>,
    max_stars: u32,
    now: int,
)
    ensures
        forall|j: int| 0 <= j < report_spec(items, max_stars, now).len() ==> entry_originates(
            items,
            max_stars,
            now,
            #[trigger] report_spec(items, max_stars, now)[j],
        ),
    decreases items.len(),
{
    if items.len() == 0 {
    } else {
        let rest = items.drop_first();
        lemma_no_data_excluded(rest, max_stars, now);
        let head = entry_spec(items[0].0, items[0].1, max_stars, now);
        assert forall|j: int| 0 <= j < report_spec(items, max_stars, now).len() implies
            entry_originates(
            items,
            max_stars,
            now,
            #[trigger] report_spec(items, max_stars, now)[j],
        ) by {
            let shift: int = if head is Some {
                1
            } else {
                0
            };
            if head is Some && j == 0 {
                assert(report_spec(items, max_stars, now)[0] == head->Some_0);
                assert(0 <= 0 < items.len() && items[0].1 is Some && entry_spec(
                    items[0].0,
                    items[0].1,
                    max_stars,
                    now,
                ) == Some(report_spec(items, max_stars, now)[0]));
            } else {
                assert(report_spec(items, max_stars, now)[j] == report_spec(
                    rest,
                    max_stars,
                    now,
                )[j - shift]);
                assert(entry_originates(rest, max_stars, now, report_spec(rest, max_stars, now)[j
                    - shift]));
                let i0 = choose|i0: int|
                    0 <= i0 < rest.len() && (#[trigger] rest[i0]).1 is Some && entry_spec(
                        rest[i0].0,
                        rest[i0].1,
                        max_stars,
                        now,
                    ) == Some(report_spec(rest, max_stars, now)[j - shift]);
                assert(items[i0 + 1] == rest[i0]);
                assert(0 <= i0 + 1 < items.len() && items[i0 + 1].1 is Some && entry_spec(
                    items[i0 + 1].0,
                    items[i0 + 1].1,
                    max_stars,
                    now,
                ) == Some(report_spec(items, max_stars, now)[j]));
            }
        }
    }
}

} // verus!
