//! Disk reading filter and deduplication pipeline.
//!
//! Raw mounted-volume readings pass through an ordered rule list: entries
//! whose filesystem type matches a closed denylist of pseudo/virtual
//! filesystems are rejected (case-insensitively), as are mounts under
//! packaged-application, kernel, process, device, container-engine and
//! transient-runtime trees — except removable media surfaced under the
//! media sub-tree of the runtime tree — and entries reporting zero total
//! capacity. The surviving *filtered set* is reported verbatim, while the
//! *deduplicated set* — which collapses same-capacity entries of the one
//! filesystem type known to mount a single container at several points —
//! feeds only the aggregate capacity figures.

use vstd::prelude::*;
use crate::text::{ci_eq, eq_ignore_ascii_case, starts_with_str, str_eq};
use crate::percent::{usage_centi, usage_centi_pct};

verus! {

/// One mounted-volume reading, as handed in by the metrics capability.
pub struct DiskEntry {
    pub name: String,
    pub mount_point: String,
    pub file_system: String,
    pub total: u64,
    pub available: u64,
    pub removable: bool,
}

/// Mathematical image of a [`DiskEntry`].
pub struct DiskView {
    pub name: Seq<char>,
    pub mount_point: Seq<char>,
    pub file_system: Seq<char>,
    pub total: u64,
    pub available: u64,
    pub removable: bool,
}

impl View for DiskEntry {
    type V = DiskView;

    open spec fn view(&self) -> DiskView {
        DiskView {
            name: self.name@,
            mount_point: self.mount_point@,
            file_system: self.file_system@,
            total: self.total,
            available: self.available,
            removable: self.removable,
        }
    }
}

impl Clone for DiskEntry {
    fn clone(&self) -> (r: Self)
        ensures
            r@ == self@,
    {
        DiskEntry {
            name: self.name.clone(),
            mount_point: self.mount_point.clone(),
            file_system: self.file_system.clone(),
            total: self.total,
            available: self.available,
            removable: self.removable,
        }
    }
}

/// The filesystem type matches the closed denylist of pseudo/virtual
/// filesystem types, compared by exact case-insensitive equality.
pub open spec fn is_denylisted(fs: Seq<char>) -> bool {
    ||| ci_eq(fs, "tmpfs"@)
    ||| ci_eq(fs, "devtmpfs"@)
    ||| ci_eq(fs, "sysfs"@)
    ||| ci_eq(fs, "proc"@)
    ||| ci_eq(fs, "devpts"@)
    ||| ci_eq(fs, "securityfs"@)
    ||| ci_eq(fs, "cgroup"@)
    ||| ci_eq(fs, "cgroup2"@)
    ||| ci_eq(fs, "pstore"@)
    ||| ci_eq(fs, "debugfs"@)
    ||| ci_eq(fs, "hugetlbfs"@)
    ||| ci_eq(fs, "mqueue"@)
    ||| ci_eq(fs, "configfs"@)
    ||| ci_eq(fs, "fusectl"@)
    ||| ci_eq(fs, "fuse.portal"@)
    ||| ci_eq(fs, "binfmt_misc"@)
    ||| ci_eq(fs, "autofs"@)
    ||| ci_eq(fs, "efivarfs"@)
    ||| ci_eq(fs, "tracefs"@)
    ||| ci_eq(fs, "ramfs"@)
    ||| ci_eq(fs, "overlay"@)
    ||| ci_eq(fs, "squashfs"@)
    ||| ci_eq(fs, "nsfs"@)
    ||| ci_eq(fs, "fuse.snapfuse"@)
}

/// Decides whether `fs` names one of the denylisted filesystem types.
pub fn is_denylisted_fs(fs: &str) -> (r: bool)
    ensures
        r == is_denylisted(fs@),
{
    eq_ignore_ascii_case(fs, "tmpfs") || eq_ignore_ascii_case(fs, "devtmpfs")
        || eq_ignore_ascii_case(fs, "sysfs") || eq_ignore_ascii_case(fs, "proc")
        || eq_ignore_ascii_case(fs, "devpts") || eq_ignore_ascii_case(fs, "securityfs")
        || eq_ignore_ascii_case(fs, "cgroup") || eq_ignore_ascii_case(fs, "cgroup2")
        || eq_ignore_ascii_case(fs, "pstore") || eq_ignore_ascii_case(fs, "debugfs")
        || eq_ignore_ascii_case(fs, "hugetlbfs") || eq_ignore_ascii_case(fs, "mqueue")
        || eq_ignore_ascii_case(fs, "configfs") || eq_ignore_ascii_case(fs, "fusectl")
        || eq_ignore_ascii_case(fs, "fuse.portal") || eq_ignore_ascii_case(fs, "binfmt_misc")
        || eq_ignore_ascii_case(fs, "autofs") || eq_ignore_ascii_case(fs, "efivarfs")
        || eq_ignore_ascii_case(fs, "tracefs") || eq_ignore_ascii_case(fs, "ramfs")
        || eq_ignore_ascii_case(fs, "overlay") || eq_ignore_ascii_case(fs, "squashfs")
        || eq_ignore_ascii_case(fs, "nsfs") || eq_ignore_ascii_case(fs, "fuse.snapfuse")
}

/// A disk reading survives the exclusion rules: its filesystem type is not
/// denylisted, its mount point lies under none of the excluded trees (with
/// the media sub-tree of the runtime tree exempted), and it reports a
/// non-zero total capacity.
pub open spec fn keep_disk(d: DiskView) -> bool {
    &&& !is_denylisted(d.file_system)
    &&& !"/snap"@.is_prefix_of(d.mount_point)
    &&& !"/sys"@.is_prefix_of(d.mount_point)
    &&& !"/proc"@.is_prefix_of(d.mount_point)
    &&& d.mount_point != "/dev"@
    &&& ("/run"@.is_prefix_of(d.mount_point) ==> "/run/media"@.is_prefix_of(d.mount_point))
    &&& !"/var/lib/docker"@.is_prefix_of(d.mount_point)
    &&& d.total > 0
}

/// Decides whether a disk reading survives the exclusion rules.
pub fn keep_disk_exec(d: &DiskEntry) -> (r: bool)
    ensures
        r == keep_disk(d@),
{
    let fs = d.file_system.as_str();
    let mount = d.mount_point.as_str();
    if is_denylisted_fs(fs) {
        return false;
    }
    if starts_with_str(mount, "/snap") {
        return false;
    }
    if starts_with_str(mount, "/sys") || starts_with_str(mount, "/proc") || str_eq(mount, "/dev") {
        return false;
    }
    if starts_with_str(mount, "/run") && !starts_with_str(mount, "/run/media") {
        return false;
    }
    if starts_with_str(mount, "/var/lib/docker") {
        return false;
    }
    if d.total == 0 {
        return false;
    }
    true
}

/// The views of a sequence of disk readings.
pub open spec fn views_of(s: Seq<DiskEntry>) -> Seq<DiskView> {
    s.map_values(|d: DiskEntry| d@)
}

/// The filtered set: the readings surviving the exclusion rules, in their
/// original order, duplicates included.
pub open spec fn filter_views(s: Seq<DiskView>) -> Seq<DiskView> {
    s.filter(|d: DiskView| keep_disk(d))
}

proof fn lemma_filter_push(s: Seq<DiskView>, d: DiskView)
    ensures
        keep_disk(d) ==> filter_views(s.push(d)) == filter_views(s).push(d),
        !keep_disk(d) ==> filter_views(s.push(d)) == filter_views(s),
{
    reveal(Seq::filter);
    assert(s.push(d).drop_last() =~= s);
    assert(s.push(d).last() == d);
}

/// Applies the exclusion rules to a list of disk readings, keeping the
/// survivors in their original order.
pub fn filter_disks(disks: &Vec<DiskEntry>) -> (r: Vec<DiskEntry>)
    ensures
        views_of(r@) == filter_views(views_of(disks@)),
{
    let mut r: Vec<DiskEntry> = Vec::new();
    let n = disks.len();
    let mut i: usize = 0;
    while i < n
        invariant
            n == disks@.len(),
            i <= n,
            views_of(r@) == filter_views(views_of(disks@.take(i as int))),
        decreases n - i,
    {
        let ghost prev = views_of(r@);
        if keep_disk_exec(&disks[i]) {
            r.push(disks[i].clone());
        }
        proof {
            assert(disks@.take(i as int + 1) =~= disks@.take(i as int).push(disks@[i as int]));
            assert(views_of(disks@.take(i as int + 1)) =~= views_of(disks@.take(i as int)).push(
                disks@[i as int]@,
            ));
            lemma_filter_push(views_of(disks@.take(i as int)), disks@[i as int]@);
            if keep_disk(disks@[i as int]@) {
                assert(views_of(r@) =~= prev.push(disks@[i as int]@));
            }
        }
        i += 1;
    }
    proof {
        assert(disks@.take(n as int) =~= disks@);
    }
    r
}

/// The one filesystem type known to mount a single physical container at
/// several synthetic mount points, matched exactly (case-sensitively).
pub open spec fn is_dedup_type(fs: Seq<char>) -> bool {
    fs == "apfs"@
}

/// Some reading in `s` of the deduplicable filesystem type reports total
/// capacity `t`.
pub open spec fn seen_total(s: Seq<DiskView>, t: u64) -> bool {
    exists|j: int| 0 <= j < s.len() && is_dedup_type(s[j].file_system) && s[j].total == t
}

/// The deduplicated set: readings of the deduplicable filesystem type keep
/// only the first occurrence of each distinct total capacity; readings of
/// every other type are kept unconditionally.
pub open spec fn dedup_views(s: Seq<DiskView>) -> Seq<DiskView>
    decreases s.len(),
{
    if s.len() == 0 {
        Seq::empty()
    } else {
        let prefix = dedup_views(s.drop_last());
        let d = s.last();
        if is_dedup_type(d.file_system) && seen_total(s.drop_last(), d.total) {
            prefix
        } else {
            prefix.push(d)
        }
    }
}

fn contains_u64(v: &Vec<u64>, x: u64) -> (r: bool)
    ensures
        r == v@.contains(x),
{
    let n = v.len();
    let mut i: usize = 0;
    while i < n
        invariant
            n == v@.len(),
            i <= n,
            forall|j: int| 0 <= j < i ==> v@[j] != x,
        decreases n - i,
    {
        if v[i] == x {
            return true;
        }
        i += 1;
    }
    false
}

/// Collapses same-capacity readings of the deduplicable filesystem type,
/// keeping the first occurrence of each distinct total capacity.
pub fn dedup_disks(disks: &Vec<DiskEntry>) -> (r: Vec<DiskEntry>)
    ensures
        views_of(r@) == dedup_views(views_of(disks@)),
{
    let mut r: Vec<DiskEntry> = Vec::new();
    let mut seen: Vec<u64> = Vec::new();
    let n = disks.len();
    let mut i: usize = 0;
    while i < n
        invariant
            n == disks@.len(),
            i <= n,
            views_of(r@) == dedup_views(views_of(disks@.take(i as int))),
            forall|t: u64| seen@.contains(t) == seen_total(views_of(disks@.take(i as int)), t),
        decreases n - i,
    {
        let ghost taken = views_of(disks@.take(i as int));
        let ghost dv = disks@[i as int]@;
        let ghost prev = views_of(r@);
        let ghost prev_seen = seen@;
        let d = &disks[i];
        let dup_type = str_eq(d.file_system.as_str(), "apfs");
        let mut dropped = false;
        if dup_type {
            if contains_u64(&seen, d.total) {
                dropped = true;
            } else {
                seen.push(d.total);
                r.push(d.clone());
            }
        } else {
            r.push(d.clone());
        }
        proof {
            assert(disks@.take(i as int + 1) =~= disks@.take(i as int).push(disks@[i as int]));
            let taken1 = views_of(disks@.take(i as int + 1));
            assert(taken1 =~= taken.push(dv));
            assert(taken1.drop_last() =~= taken);
            assert(taken1.last() == dv);
            if dropped {
                assert(views_of(r@) == dedup_views(taken1));
            } else {
                assert(views_of(r@) =~= prev.push(dv));
                assert(views_of(r@) == dedup_views(taken1));
            }
            // the recorded totals describe the longer prefix as well
            assert forall|t: u64| seen@.contains(t) == seen_total(taken1, t) by {
                if dup_type && !prev_seen.contains(dv.total) {
                    assert(seen@ =~= prev_seen.push(dv.total));
                    if seen@.contains(t) {
                        let k = choose|k: int| 0 <= k < seen@.len() && seen@[k] == t;
                        if k < prev_seen.len() {
                            assert(prev_seen[k] == t);
                            assert(prev_seen.contains(t));
                        } else {
                            assert(t == dv.total);
                            assert(taken1[i as int] == dv);
                        }
                    }
                    if seen_total(taken1, t) {
                        let j = choose|j: int|
                            0 <= j < taken1.len() && is_dedup_type(taken1[j].file_system)
                                && taken1[j].total == t;
                        if j < taken.len() {
                            assert(seen_total(taken, t));
                            assert(prev_seen.contains(t));
                            let k = choose|k: int| 0 <= k < prev_seen.len() && prev_seen[k] == t;
                            assert(seen@[k] == t);
                        } else {
                            assert(t == dv.total);
                            assert(seen@[seen@.len() - 1] == t);
                        }
                    }
                } else {
                    if seen_total(taken1, t) && !seen_total(taken, t) {
                        let j = choose|j: int|
                            0 <= j < taken1.len() && is_dedup_type(taken1[j].file_system)
                                && taken1[j].total == t;
                        assert(j == taken.len());
                        assert(is_dedup_type(dv.file_system) && dv.total == t);
                        if dup_type {
                            assert(prev_seen.contains(dv.total));
                        }
                    }
                    if seen_total(taken, t) {
                        assert(seen_total(taken1, t));
                    }
                }
            }
        }
        i += 1;
    }
    proof {
        assert(disks@.take(n as int) =~= disks@);
    }
    r
}

/// `n` saturated to the representable range of a 64-bit unsigned counter.
pub open spec fn sat64(n: int) -> int {
    if n > u64::MAX {
        u64::MAX as int
    } else {
        n
    }
}

/// The exact sum of the total capacities of the readings in `s`.
pub open spec fn sum_total(s: Seq<DiskView>) -> int
    decreases s.len(),
{
    if s.len() == 0 {
        0
    } else {
        sum_total(s.drop_last()) + s.last().total
    }
}

/// The exact sum of the available capacities of the readings in `s`.
pub open spec fn sum_available(s: Seq<DiskView>) -> int
    decreases s.len(),
{
    if s.len() == 0 {
        0
    } else {
        sum_available(s.drop_last()) + s.last().available
    }
}

proof fn lemma_sum_total_nonneg(s: Seq<DiskView>)
    ensures
        sum_total(s) >= 0,
        sum_available(s) >= 0,
    decreases s.len(),
{
    if s.len() > 0 {
        lemma_sum_total_nonneg(s.drop_last());
    }
}

/// Adds up the total capacities of the given readings, saturating at the
/// largest 64-bit value instead of overflowing.
pub fn sum_disk_total(disks: &Vec<DiskEntry>) -> (r: u64)
    ensures
        r == sat64(sum_total(views_of(disks@))),
{
    let mut acc: u64 = 0;
    let n = disks.len();
    let mut i: usize = 0;
    while i < n
        invariant
            n == disks@.len(),
            i <= n,
            acc == sat64(sum_total(views_of(disks@.take(i as int)))),
        decreases n - i,
    {
        let ghost taken = views_of(disks@.take(i as int));
        acc = acc.saturating_add(disks[i].total);
        proof {
            assert(disks@.take(i as int + 1) =~= disks@.take(i as int).push(disks@[i as int]));
            let taken1 = views_of(disks@.take(i as int + 1));
            assert(taken1 =~= taken.push(disks@[i as int]@));
            assert(taken1.drop_last() =~= taken);
            lemma_sum_total_nonneg(taken);
        }
        i += 1;
    }
    proof {
        assert(disks@.take(n as int) =~= disks@);
    }
    acc
}

/// Adds up the available capacities of the given readings, saturating at
/// the largest 64-bit value instead of overflowing.
pub fn sum_disk_available(disks: &Vec<DiskEntry>) -> (r: u64)
    ensures
        r == sat64(sum_available(views_of(disks@))),
{
    let mut acc: u64 = 0;
    let n = disks.len();
    let mut i: usize = 0;
    while i < n
        invariant
            n == disks@.len(),
            i <= n,
            acc == sat64(sum_available(views_of(disks@.take(i as int)))),
        decreases n - i,
    {
        let ghost taken = views_of(disks@.take(i as int));
        acc = acc.saturating_add(disks[i].available);
        proof {
            assert(disks@.take(i as int + 1) =~= disks@.take(i as int).push(disks@[i as int]));
            let taken1 = views_of(disks@.take(i as int + 1));
            assert(taken1 =~= taken.push(disks@[i as int]@));
            assert(taken1.drop_last() =~= taken);
            lemma_sum_total_nonneg(taken);
        }
        i += 1;
    }
    proof {
        assert(disks@.take(n as int) =~= disks@);
    }
    acc
}

/// `a - b`, saturating at zero.
pub open spec fn sat_sub(a: u64, b: u64) -> u64 {
    if a >= b {
        (a - b) as u64
    } else {
        0
    }
}

/// One entry of the reported per-disk list.
pub struct DiskReport {
    pub name: String,
    pub mount_point: String,
    pub file_system: String,
    pub total: u64,
    pub used: u64,
    pub available: u64,
    pub usage_centi: u64,
    pub is_removable: bool,
}

/// Mathematical image of a [`DiskReport`].
pub struct DiskReportView {
    pub name: Seq<char>,
    pub mount_point: Seq<char>,
    pub file_system: Seq<char>,
    pub total: u64,
    pub used: u64,
    pub available: u64,
    pub usage_centi: u64,
    pub is_removable: bool,
}

impl View for DiskReport {
    type V = DiskReportView;

    open spec fn view(&self) -> DiskReportView {
        DiskReportView {
            name: self.name@,
            mount_point: self.mount_point@,
            file_system: self.file_system@,
            total: self.total,
            used: self.used,
            available: self.available,
            usage_centi: self.usage_centi,
            is_removable: self.is_removable,
        }
    }
}

/// The report derived from one surviving reading: used space is the total
/// less the available space (never below zero), and the usage ratio is the
/// zero-safe quotient of the two.
pub open spec fn report_of(d: DiskView) -> DiskReportView {
    DiskReportView {
        name: d.name,
        mount_point: d.mount_point,
        file_system: d.file_system,
        total: d.total,
        used: sat_sub(d.total, d.available),
        available: d.available,
        usage_centi: usage_centi_pct(sat_sub(d.total, d.available), d.total) as u64,
        is_removable: d.removable,
    }
}

/// Derives the per-disk report of one surviving reading.
pub fn make_disk_report(d: &DiskEntry) -> (r: DiskReport)
    ensures
        r@ == report_of(d@),
{
    let used = d.total.saturating_sub(d.available);
    let usage = usage_centi(used, d.total);
    DiskReport {
        name: d.name.clone(),
        mount_point: d.mount_point.clone(),
        file_system: d.file_system.clone(),
        total: d.total,
        used,
        available: d.available,
        usage_centi: usage,
        is_removable: d.removable,
    }
}

/// The views of a sequence of per-disk reports.
pub open spec fn report_views_of(s: Seq<DiskReport>) -> Seq<DiskReportView> {
    s.map_values(|d: DiskReport| d@)
}

/// The aggregate disk block of a snapshot: capacity figures summed over the
/// deduplicated set, beside the verbatim filtered per-disk list.
pub struct DiskBlock {
    pub total: u64,
    pub used: u64,
    pub available: u64,
    pub usage_centi: u64,
    pub disks: Vec<DiskReport>,
}

/// Mathematical image of a [`DiskBlock`].
pub struct DiskBlockView {
    pub total: u64,
    pub used: u64,
    pub available: u64,
    pub usage_centi: u64,
    pub disks: Seq<DiskReportView>,
}

impl View for DiskBlock {
    type V = DiskBlockView;

    open spec fn view(&self) -> DiskBlockView {
        DiskBlockView {
            total: self.total,
            used: self.used,
            available: self.available,
            usage_centi: self.usage_centi,
            disks: report_views_of(self.disks@),
        }
    }
}

/// The disk block derived from raw readings: the per-disk list reports the
/// filtered set verbatim, while total, used, available and usage come from
/// the deduplicated set.
pub open spec fn disk_block_spec(disks: Seq<DiskView>) -> DiskBlockView {
    let filtered = filter_views(disks);
    let deduped = dedup_views(filtered);
    let total = sat64(sum_total(deduped)) as u64;
    let available = sat64(sum_available(deduped)) as u64;
    let used = sat_sub(total, available);
    DiskBlockView {
        total,
        used,
        available,
        usage_centi: usage_centi_pct(used, total) as u64,
        disks: filtered.map_values(|d: DiskView| report_of(d)),
    }
}

/// Runs the whole disk pipeline: filters the raw readings, reports each
/// survivor, and sums capacities over the deduplicated set.
pub fn summarize_disks(disks: &Vec<DiskEntry>) -> (r: DiskBlock)
    ensures
        r@ == disk_block_spec(views_of(disks@)),
{
    let filtered = filter_disks(disks);
    let deduped = dedup_disks(&filtered);
    let total = sum_disk_total(&deduped);
    let available = sum_disk_available(&deduped);
    let used = total.saturating_sub(available);
    let usage = usage_centi(used, total);
    let mut reports: Vec<DiskReport> = Vec::new();
    let n = filtered.len();
    let mut j: usize = 0;
    while j < n
        invariant
            n == filtered@.len(),
            j <= n,
            report_views_of(reports@) == views_of(filtered@).take(j as int).map_values(
                |d: DiskView| report_of(d),
            ),
        decreases n - j,
    {
        let ghost prev = report_views_of(reports@);
        reports.push(make_disk_report(&filtered[j]));
        proof {
            assert(views_of(filtered@).take(j as int + 1) =~= views_of(filtered@).take(
                j as int,
            ).push(filtered@[j as int]@));
            assert(views_of(filtered@).take(j as int + 1).map_values(
                |d: DiskView| report_of(d),
            ) =~= prev.push(report_of(filtered@[j as int]@)));
            assert(report_views_of(reports@) =~= prev.push(report_of(filtered@[j as int]@)));
        }
        j += 1;
    }
    proof {
        assert(views_of(filtered@).take(n as int) =~= views_of(filtered@));
    }
    DiskBlock { total, used, available, usage_centi: usage, disks: reports }
}

/// Law: a reading that fails the exclusion rules never appears in the
/// filtered set.
pub proof fn lemma_rejected_absent(disks: Seq<DiskView>, d: DiskView)
    requires
        !keep_disk(d),
    ensures
        !filter_views(disks).contains(d),
{
    if filter_views(disks).contains(d) {
        let i = choose|i: int|
            0 <= i < filter_views(disks).len() && filter_views(disks)[i] == d;
        disks.lemma_filter_pred(|x: DiskView| keep_disk(x), i);
    }
}

/// Law: deduplication only drops readings; it never invents one.
pub proof fn lemma_dedup_subset(s: Seq<DiskView>, d: DiskView)
    requires
        dedup_views(s).contains(d),
    ensures
        s.contains(d),
    decreases s.len(),
{
    if s.len() > 0 {
        let pre = dedup_views(s.drop_last());
        let last = s.last();
        if is_dedup_type(last.file_system) && seen_total(s.drop_last(), last.total) {
            lemma_dedup_subset(s.drop_last(), d);
            let j = choose|j: int| 0 <= j < s.drop_last().len() && s.drop_last()[j] == d;
            assert(s[j] == d);
        } else {
            let k = choose|k: int|
                0 <= k < dedup_views(s).len() && dedup_views(s)[k] == d;
            if k == pre.len() {
                assert(s[s.len() - 1] == d);
            } else {
                assert(pre[k] == d);
                assert(pre.contains(d));
                lemma_dedup_subset(s.drop_last(), d);
                let j = choose|j: int| 0 <= j < s.drop_last().len() && s.drop_last()[j] == d;
                assert(s[j] == d);
            }
        }
    }
}

/// Law: a reading whose filesystem type matches the denylist is absent from
/// the filtered per-disk list and from the deduplicated set that the
/// aggregate totals are summed over.
pub proof fn lemma_denylisted_absent(disks: Seq<DiskView>, d: DiskView)
    requires
        is_denylisted(d.file_system),
    ensures
        !filter_views(disks).contains(d),
        !dedup_views(filter_views(disks)).contains(d),
{
    lemma_rejected_absent(disks, d);
    if dedup_views(filter_views(disks)).contains(d) {
        lemma_dedup_subset(filter_views(disks), d);
    }
}

/// Law: a reading with zero total capacity is rejected whatever its
/// filesystem type says.
pub proof fn lemma_zero_total_absent(disks: Seq<DiskView>, d: DiskView)
    requires
        d.total == 0,
    ensures
        !keep_disk(d),
        !filter_views(disks).contains(d),
{
    lemma_rejected_absent(disks, d);
}

/// Law: every entry of the filtered set survived the exclusion rules.
pub proof fn lemma_filtered_survive(disks: Seq<DiskView>, i: int)
    requires
        0 <= i < filter_views(disks).len(),
    ensures
        keep_disk(filter_views(disks)[i]),
{
    disks.lemma_filter_pred(|x: DiskView| keep_disk(x), i);
}

/// Law: deduplication keeps a reading of the deduplicable filesystem type
/// whenever no earlier reading of that type reports the same total
/// capacity, and keeps a reading of every other filesystem type
/// unconditionally.
pub proof fn lemma_dedup_keeps_first_occurrence(s: Seq<DiskView>, i: int)
    requires
        0 <= i < s.len(),
        !is_dedup_type(s[i].file_system) || !seen_total(s.take(i), s[i].total),
    ensures
        dedup_views(s).contains(s[i]),
    decreases s.len(),
{
    let pre = dedup_views(s.drop_last());
    if i == s.len() - 1 {
        assert(s.take(i) =~= s.drop_last());
        assert(dedup_views(s) == pre.push(s.last()));
        assert(dedup_views(s)[pre.len() as int] == s[i]);
    } else {
        assert(s.drop_last()[i] == s[i]);
        assert(s.drop_last().take(i) =~= s.take(i));
        lemma_dedup_keeps_first_occurrence(s.drop_last(), i);
        let k = choose|k: int| 0 <= k < pre.len() && pre[k] == s[i];
        if is_dedup_type(s.last().file_system) && seen_total(s.drop_last(), s.last().total) {
            assert(dedup_views(s)[k] == s[i]);
        } else {
            assert(dedup_views(s) == pre.push(s.last()));
            assert(dedup_views(s)[k] == s[i]);
        }
    }
}

/// Law: a mount under the media sub-tree of the transient runtime tree
/// passes every mount-point rule — so it is kept whenever its filesystem
/// type is not denylisted and it reports a non-zero capacity — while a
/// mount under the runtime tree outside the media sub-tree is always
/// rejected.
pub proof fn lemma_runtime_media_exemption(d: DiskView)
    ensures
        "/run/media"@.is_prefix_of(d.mount_point) && !is_denylisted(d.file_system) && d.total > 0
            ==> keep_disk(d),
        "/run"@.is_prefix_of(d.mount_point) && !"/run/media"@.is_prefix_of(d.mount_point)
            ==> !keep_disk(d),
{
    reveal_strlit("/run/media");
    reveal_strlit("/run");
    reveal_strlit("/snap");
    reveal_strlit("/sys");
    reveal_strlit("/proc");
    reveal_strlit("/dev");
    reveal_strlit("/var/lib/docker");
    let m = d.mount_point;
    if "/run/media"@.is_prefix_of(m) && !is_denylisted(d.file_system) && d.total > 0 {
        assert(m.len() >= 10);
        assert(m[1] == "/run/media"@[1]) by {
            assert("/run/media"@ =~= m.subrange(0, 10));
        }
        assert(m[1] == 'r');
        assert(!"/snap"@.is_prefix_of(m)) by {
            if "/snap"@.is_prefix_of(m) {
                assert("/snap"@ =~= m.subrange(0, 5));
                assert(m[1] == 's');
            }
        }
        assert(!"/sys"@.is_prefix_of(m)) by {
            if "/sys"@.is_prefix_of(m) {
                assert("/sys"@ =~= m.subrange(0, 4));
                assert(m[1] == 's');
            }
        }
        assert(!"/proc"@.is_prefix_of(m)) by {
            if "/proc"@.is_prefix_of(m) {
                assert("/proc"@ =~= m.subrange(0, 5));
                assert(m[1] == 'p');
            }
        }
        assert(m != "/dev"@) by {
            if m == "/dev"@ {
                assert(m.len() == 4);
            }
        }
        assert(!"/var/lib/docker"@.is_prefix_of(m)) by {
            if "/var/lib/docker"@.is_prefix_of(m) {
                assert("/var/lib/docker"@ =~= m.subrange(0, 15));
                assert(m[1] == 'v');
            }
        }
        assert(keep_disk(d));
    }
}

/// Law: among several surviving same-capacity readings of the deduplicable
/// filesystem type together with one same-capacity reading of a different
/// type, deduplication keeps only the first of the former and the latter
/// unconditionally, so the aggregate total counts the shared capacity
/// twice; the filtered list still carries all four readings.
pub proof fn lemma_dedup_shared_capacity(d1: DiskView, d2: DiskView, d3: DiskView, d4: DiskView)
    requires
        keep_disk(d1),
        keep_disk(d2),
        keep_disk(d3),
        keep_disk(d4),
        is_dedup_type(d1.file_system),
        is_dedup_type(d2.file_system),
        is_dedup_type(d3.file_system),
        !is_dedup_type(d4.file_system),
        d1.total == d2.total,
        d2.total == d3.total,
        d3.total == d4.total,
    ensures
        filter_views(seq![d1, d2, d3, d4]) == seq![d1, d2, d3, d4],
        dedup_views(seq![d1, d2, d3, d4]) == seq![d1, d4],
        sum_total(dedup_views(seq![d1, d2, d3, d4])) == d1.total + d4.total,
{
    reveal_with_fuel(dedup_views, 6);
    reveal_with_fuel(sum_total, 4);
    let s4 = seq![d1, d2, d3, d4];
    let s3 = seq![d1, d2, d3];
    let s2 = seq![d1, d2];
    let s1 = seq![d1];
    let s0 = Seq::<DiskView>::empty();
    assert(s4.drop_last() =~= s3);
    assert(s3.drop_last() =~= s2);
    assert(s2.drop_last() =~= s1);
    assert(s1.drop_last() =~= s0);
    // the filtered set keeps all four readings
    assert(filter_views(s4) == s4) by {
        reveal(Seq::filter);
        assert(filter_views(s1) =~= s1);
        assert(filter_views(s2) =~= s2);
        assert(filter_views(s3) =~= s3);
        assert(filter_views(s4) =~= s4);
    }
    // deduplication keeps the first deduplicable reading and the other type
    assert(!seen_total(s0, d1.total));
    assert(dedup_views(s1) =~= s1);
    assert(seen_total(s1, d2.total)) by {
        assert(is_dedup_type(s1[0].file_system) && s1[0].total == d2.total);
    }
    assert(dedup_views(s2) =~= s1);
    assert(seen_total(s2, d3.total)) by {
        assert(is_dedup_type(s2[0].file_system) && s2[0].total == d3.total);
    }
    assert(dedup_views(s3) =~= s1);
    assert(dedup_views(s4) =~= s1.push(d4));
    assert(dedup_views(s4) =~= seq![d1, d4]);
    // the shared capacity is counted exactly twice
    let kept = seq![d1, d4];
    assert(kept.drop_last() =~= s1);
    assert(sum_total(kept) == d1.total + d4.total);
}

} // verus!
