//! The rows stored for a report that a host posts.

use vstd::prelude::*;

verus! {

/// A disk as a host reports it.
#[derive(Debug)]
pub struct HttpDisks {
    pub name: String,
    pub mount_point: String,
    pub total_space: i64,
    pub avail_space: i64,
}

/// A disk as a report describes it: name, mount point, total and available
/// space.
#[derive(Debug)]
pub struct SDisks {
    pub name: String,
    pub mount_point: String,
    pub total_space: i64,
    pub avail_space: i64,
}

/// The memory figures a host reports.
#[derive(Debug)]
pub struct HttpMemory {
    pub total_virt: u64,
    pub avail_virt: u64,
    pub total_swap: u64,
    pub avail_swap: u64,
}

/// The I/O figures of one block device, as a host reports them.
#[derive(Debug)]
pub struct HttpIoStats {
    pub device_name: String,
    pub bytes_read: i64,
    pub bytes_wrtn: i64,
}

/// The CPU time counters a host reports.
#[derive(Debug)]
pub struct CpuStats {
    pub user: i64,
    pub nice: i64,
    pub system: i64,
    pub idle: i64,
    pub iowait: i64,
    pub irq: i64,
    pub softirq: i64,
    pub steal: i64,
    pub guest: i64,
    pub guest_nice: i64,
}

/// A host's report, as posted to `POST /speculare`. Its load averages,
/// which are floating-point numbers, are handled outside this library.
#[derive(Debug)]
pub struct HttpPostData {
    pub uuid: String,
    pub os: String,
    pub hostname: String,
    pub uptime: i64,
    pub cpu_freq: i64,
    pub disks: Vec<HttpDisks>,
    pub memory: HttpMemory,
}

/// A host's report, as posted to `POST /api/hosts`. Its load averages,
/// which are floating-point numbers, are handled outside this library.
#[derive(Debug)]
pub struct HttpPostHost {
    pub uuid: String,
    pub system: String,
    pub os_version: String,
    pub hostname: String,
    pub uptime: i64,
    pub cpu_stats: Option<CpuStats>,
    pub disks: Option<Vec<HttpDisks>>,
    pub iostats: Option<Vec<HttpIoStats>>,
    pub memory: Option<HttpMemory>,
    pub created_at: chrono::NaiveDateTime,
}

/// The row of a host.
#[derive(Debug)]
pub struct Host {
    pub os: String,
    pub hostname: String,
    pub uptime: i64,
    pub uuid: String,
    pub created_at: chrono::NaiveDateTime,
}

/// A row of CPU frequency.
#[derive(Debug)]
pub struct NewCpuInfo {
    pub cpu_freq: i64,
    pub host_uuid: String,
    pub created_at: chrono::NaiveDateTime,
}

/// A row of disk usage.
#[derive(Debug)]
pub struct NewDisks {
    pub disk_name: String,
    pub mount_point: String,
    pub total_space: i64,
    pub avail_space: i64,
    pub host_uuid: String,
    pub created_at: chrono::NaiveDateTime,
}

/// The rows stored for one report to `POST /speculare`, besides its load
/// averages.
#[derive(Debug)]
pub struct ReportRows {
    pub host: Host,
    pub cpu_info: NewCpuInfo,
    pub disks: Vec<NewDisks>,
}

/// `row` records disk `d` of host `host_uuid`, taken at `now`.
pub open spec fn disk_row(row: NewDisks, d: HttpDisks, host_uuid: Seq<char>, now: chrono::NaiveDateTime) -> bool {
    &&& row.disk_name@ == d.name@
    &&& row.mount_point@ == d.mount_point@
    &&& row.total_space == d.total_space
    &&& row.avail_space == d.avail_space
    &&& row.host_uuid@ == host_uuid
    &&& row.created_at == now
}

/// `rows` record, in order, the disks `disks` of host `host_uuid` at `now`.
pub open spec fn disk_rows(rows: Seq<NewDisks>, disks: Seq<HttpDisks>, host_uuid: Seq<char>, now: chrono::NaiveDateTime) -> bool {
    &&& rows.len() == disks.len()
    &&& forall|i: int| 0 <= i < rows.len() ==> disk_row(#[trigger] rows[i], disks[i], host_uuid, now)
}

/// The host row of a report taken at `now`.
pub fn construct_data(item: &HttpPostData, now: &chrono::NaiveDateTime) -> (r: Host)
    ensures
        r.os@ == item.os@,
        r.hostname@ == item.hostname@,
        r.uptime == item.uptime,
        r.uuid@ == item.uuid@,
        r.created_at == *now,
{
    Host {
        os: item.os.clone(),
        hostname: item.hostname.clone(),
        uptime: item.uptime,
        uuid: item.uuid.clone(),
        created_at: *now,
    }
}

/// The CPU frequency row of a report taken at `now`.
pub fn construct_cpuinfo(item: &HttpPostData, now: &chrono::NaiveDateTime) -> (r: NewCpuInfo)
    ensures
        r.cpu_freq == item.cpu_freq,
        r.host_uuid@ == item.uuid@,
        r.created_at == *now,
{
    NewCpuInfo { cpu_freq: item.cpu_freq, host_uuid: item.uuid.clone(), created_at: *now }
}

/// One disk row per reported disk, in the order reported.
fn disks_of(disks: &Vec<HttpDisks>, host_uuid: &String, now: &chrono::NaiveDateTime) -> (r: Vec<NewDisks>)
    ensures
        disk_rows(r@, disks@, host_uuid@, *now),
{
    let mut rows: Vec<NewDisks> = Vec::new();
    let mut i: usize = 0;
    while i < disks.len()
        invariant
            i <= disks@.len(),
            disk_rows(rows@, disks@.take(i as int), host_uuid@, *now),
        decreases disks@.len() - i,
    {
        let d = &disks[i];
        rows.push(NewDisks {
            disk_name: d.name.clone(),
            mount_point: d.mount_point.clone(),
            total_space: d.total_space,
            avail_space: d.avail_space,
            host_uuid: host_uuid.clone(),
            created_at: *now,
        });
        i = i + 1;
        proof {
            assert(disks@.take(i as int).drop_last() =~= disks@.take(i as int - 1));
        }
    }
    proof {
        assert(disks@.take(disks@.len() as int) =~= disks@);
    }
    rows
}

/// The disk rows of a report taken at `now`, one per reported disk.
pub fn construct_disks(item: &HttpPostData, now: &chrono::NaiveDateTime) -> (r: Vec<NewDisks>)
    ensures
        disk_rows(r@, item.disks@, item.uuid@, *now),
{
    disks_of(&item.disks, &item.uuid, now)
}

/// All rows stored for a report received at `now`, besides its load
/// averages: the host row, the CPU frequency row and the disk rows.
pub fn insert_rows(item: &HttpPostData, now: &chrono::NaiveDateTime) -> (r: ReportRows)
    ensures
        r.host.os@ == item.os@,
        r.host.hostname@ == item.hostname@,
        r.host.uptime == item.uptime,
        r.host.uuid@ == item.uuid@,
        r.host.created_at == *now,
        r.cpu_info.cpu_freq == item.cpu_freq,
        r.cpu_info.host_uuid@ == item.uuid@,
        r.cpu_info.created_at == *now,
        disk_rows(r.disks@, item.disks@, item.uuid@, *now),
{
    ReportRows {
        host: construct_data(item, now),
        cpu_info: construct_cpuinfo(item, now),
        disks: construct_disks(item, now),
    }
}

/// What a disk row holds: disk name, mount point, total and available
/// space, host and date.
pub type DiskEntry = (Seq<char>, Seq<char>, i64, i64, Seq<char>, chrono::NaiveDateTime);

/// The content of disk row `row`.
pub open spec fn row_entry(row: NewDisks) -> DiskEntry {
    (row.disk_name@, row.mount_point@, row.total_space, row.avail_space, row.host_uuid@, row.created_at)
}

/// The disk rows that report `h` yields, by content, in the order reported.
pub open spec fn reported_entries(h: HttpPostHost) -> Seq<DiskEntry> {
    match h.disks {
        None => Seq::empty(),
        Some(d) => d@.map_values(
            |x: HttpDisks| (x.name@, x.mount_point@, x.total_space, x.avail_space, h.uuid@, h.created_at),
        ),
    }
}

/// The disk rows of a batch of reports, by content: those of each report in
/// turn, in the order of the batch.
pub open spec fn batch_entries(items: Seq<HttpPostHost>) -> Seq<DiskEntry>
    decreases items.len(),
{
    if items.len() == 0 {
        Seq::empty()
    } else {
        batch_entries(items.drop_last()) + reported_entries(items.last())
    }
}

/// The disk rows of a batch are those of each report in turn, each row
/// holding the disk's fields and the uuid and date of the report it came
/// from.
pub proof fn lemma_batch_is_each_report_in_turn(items: Seq<HttpPostHost>)
    ensures
        batch_entries(items) == items.map_values(
            |h: HttpPostHost| match h.disks {
                None => Seq::<DiskEntry>::empty(),
                Some(d) => d@.map_values(
                    |x: HttpDisks| (x.name@, x.mount_point@, x.total_space, x.avail_space, h.uuid@, h.created_at),
                ),
            },
        ).flatten(),
    decreases items.len(),
{
    let f = |h: HttpPostHost| match h.disks {
        None => Seq::<DiskEntry>::empty(),
        Some(d) => d@.map_values(
            |x: HttpDisks| (x.name@, x.mount_point@, x.total_space, x.avail_space, h.uuid@, h.created_at),
        ),
    };
    if items.len() == 0 {
        assert(items.map_values(f) =~= Seq::<Seq<DiskEntry>>::empty());
    } else {
        let init = items.drop_last();
        let last = items.last();
        lemma_batch_is_each_report_in_turn(init);
        assert(init.push(last) =~= items);
        init.lemma_push_map_commute(f, last);
        init.map_values(f).lemma_flatten_push(f(last));
        assert(reported_entries(last) =~= f(last));
    }
}

/// Rows that record a report's disks hold, in order, what it reports.
proof fn lemma_rows_are_entries(rows: Seq<NewDisks>, h: HttpPostHost)
    requires
        h.disks matches Some(d) && disk_rows(rows, d@, h.uuid@, h.created_at),
    ensures
        rows.map_values(|r: NewDisks| row_entry(r)) == reported_entries(h),
{
    assert(rows.map_values(|r: NewDisks| row_entry(r)) =~= reported_entries(h));
}

/// The disk rows of a batch of reports, gathered into one list to be stored
/// at once: each report's rows in turn, stamped with that report's host and
/// date.
pub fn batch_disk_rows(items: &Vec<HttpPostHost>) -> (r: Vec<NewDisks>)
    ensures
        r@.map_values(|row: NewDisks| row_entry(row)) == batch_entries(items@),
{
    let mut all: Vec<NewDisks> = Vec::new();
    let mut i: usize = 0;
    while i < items.len()
        invariant
            i <= items@.len(),
            all@.map_values(|row: NewDisks| row_entry(row)) == batch_entries(items@.take(i as int)),
        decreases items@.len() - i,
    {
        let ghost before = all@;
        let item = &items[i];
        let rows = item.disk_rows();
        proof {
            assert(items@.take(i as int + 1).drop_last() =~= items@.take(i as int));
            assert(items@.take(i as int + 1).last() == *item);
        }
        match rows {
            Some(mut more) => {
                proof {
                    lemma_rows_are_entries(more@, *item);
                }
                let ghost added = more@;
                all.append(&mut more);
                proof {
                    assert(all@.map_values(|row: NewDisks| row_entry(row)) =~= before.map_values(
                        |row: NewDisks| row_entry(row),
                    ) + added.map_values(|row: NewDisks| row_entry(row)));
                }
            },
            None => {
                proof {
                    assert(reported_entries(*item) =~= Seq::<DiskEntry>::empty());
                    assert(batch_entries(items@.take(i as int)) + Seq::<DiskEntry>::empty()
                        =~= batch_entries(items@.take(i as int)));
                }
            },
        }
        i = i + 1;
    }
    proof {
        assert(items@.take(items@.len() as int) =~= items@);
    }
    all
}

impl HttpPostHost {
    /// The disk rows of the report, stamped with its own date: `None` when
    /// it reports no disks.
    pub fn disk_rows(&self) -> (r: Option<Vec<NewDisks>>)
        ensures
            self.disks is None ==> r is None,
            self.disks matches Some(d) ==> (r matches Some(rows)
                && disk_rows(rows@, d@, self.uuid@, self.created_at)),
    {
        match &self.disks {
            None => None,
            Some(disks) => Some(disks_of(disks, &self.uuid, &self.created_at)),
        }
    }
}

} // verus!
