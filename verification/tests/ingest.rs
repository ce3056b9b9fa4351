use chrono::NaiveDate;
use speculare_server::ingest::{
    batch_disk_rows, construct_cpuinfo, construct_data, construct_disks, insert_rows, HttpDisks, HttpIoStats, HttpMemory,
    HttpPostData, HttpPostHost,
};

fn now() -> chrono::NaiveDateTime {
    NaiveDate::from_ymd_opt(2021, 3, 4).unwrap().and_hms_opt(5, 6, 7).unwrap()
}

fn disk(name: &str, total: i64) -> HttpDisks {
    HttpDisks { name: name.to_string(), mount_point: format!("/mnt/{}", name), total_space: total, avail_space: total / 2 }
}

fn report() -> HttpPostData {
    HttpPostData {
        uuid: "host-1".to_string(),
        os: "Linux".to_string(),
        hostname: "box".to_string(),
        uptime: 42,
        cpu_freq: 2400,
        disks: vec![disk("sda", 100), disk("sdb", 300)],
        memory: HttpMemory { total_virt: 8, avail_virt: 4, total_swap: 2, avail_swap: 1 },
    }
}

#[test]
fn host_and_cpu_rows() {
    let item = report();
    let host = construct_data(&item, &now());
    assert_eq!((host.os.as_str(), host.hostname.as_str(), host.uptime, host.uuid.as_str()), ("Linux", "box", 42, "host-1"));
    assert_eq!(host.created_at, now());
    let cpu = construct_cpuinfo(&item, &now());
    assert_eq!((cpu.cpu_freq, cpu.host_uuid.as_str(), cpu.created_at), (2400, "host-1", now()));
}

#[test]
fn one_disk_row_per_disk_in_order() {
    let rows = construct_disks(&report(), &now());
    assert_eq!(rows.len(), 2);
    assert_eq!(rows[0].disk_name, "sda");
    assert_eq!(rows[0].mount_point, "/mnt/sda");
    assert_eq!((rows[1].total_space, rows[1].avail_space), (300, 150));
    assert!(rows.iter().all(|r| r.host_uuid == "host-1" && r.created_at == now()));
}

#[test]
fn report_rows_bundle() {
    let rows = insert_rows(&report(), &now());
    assert_eq!(rows.host.uuid, "host-1");
    assert_eq!(rows.cpu_info.cpu_freq, 2400);
    assert_eq!(rows.disks.len(), 2);
    let empty = HttpPostData { disks: vec![], ..report() };
    assert!(insert_rows(&empty, &now()).disks.is_empty());
}

#[test]
fn posted_host_disk_rows() {
    let mut h = HttpPostHost {
        uuid: "h2".to_string(),
        system: "Linux".to_string(),
        os_version: "5.10".to_string(),
        hostname: "n".to_string(),
        uptime: 1,
        cpu_stats: None,
        disks: None,
        iostats: Some(vec![HttpIoStats { device_name: "sda".to_string(), bytes_read: 1, bytes_wrtn: 2 }]),
        memory: None,
        created_at: now(),
    };
    assert!(h.disk_rows().is_none());
    h.disks = Some(vec![disk("vda", 10)]);
    let rows = h.disk_rows().unwrap();
    assert_eq!(rows.len(), 1);
    assert_eq!((rows[0].disk_name.as_str(), rows[0].host_uuid.as_str(), rows[0].created_at), ("vda", "h2", now()));
}

fn posted(uuid: &str, disks: Option<Vec<HttpDisks>>) -> HttpPostHost {
    HttpPostHost {
        uuid: uuid.to_string(),
        system: "Linux".to_string(),
        os_version: "6.1".to_string(),
        hostname: uuid.to_string(),
        uptime: 7,
        cpu_stats: None,
        disks,
        iostats: None,
        memory: None,
        created_at: now(),
    }
}

#[test]
fn batch_gathers_each_report_disks_in_turn() {
    let items = vec![
        posted("a", Some(vec![disk("sda", 10), disk("sdb", 20)])),
        posted("b", None),
        posted("c", Some(vec![disk("nvme0", 30)])),
    ];
    let rows = batch_disk_rows(&items);
    let got: Vec<(&str, &str, i64)> =
        rows.iter().map(|r| (r.disk_name.as_str(), r.host_uuid.as_str(), r.total_space)).collect();
    assert_eq!(got, vec![("sda", "a", 10), ("sdb", "a", 20), ("nvme0", "c", 30)]);
    assert!(batch_disk_rows(&vec![]).is_empty());
    assert!(batch_disk_rows(&vec![posted("d", None)]).is_empty());
}
