use core_service::log_retention::{purge_statement, retention_cutoff, retention_tables, MILLIS_PER_DAY};

#[test]
fn retention_covers_seven_tables_by_timestamp() {
    let tables = retention_tables();
    let names: Vec<&str> = tables.iter().map(|(t, _)| *t).collect();
    assert_eq!(
        names,
        vec![
            "dns_logs",
            "traffic_logs",
            "firewall_decisions",
            "performance_snapshots",
            "privacy_snapshots",
            "privacy_analytics",
            "audit_log"
        ]
    );
    assert!(tables.iter().all(|(_, c)| *c == "timestamp"));
}

#[test]
fn purge_statement_binds_the_cutoff() {
    assert_eq!(purge_statement("dns_logs", "timestamp"), "DELETE FROM dns_logs WHERE timestamp < ?");
}

#[test]
fn retention_cutoff_goes_back_whole_days() {
    assert_eq!(retention_cutoff(3 * MILLIS_PER_DAY, 2), Some("1970-01-02T00:00:00+00:00".to_string()));
    assert_eq!(retention_cutoff(0, 0), Some("1970-01-01T00:00:00+00:00".to_string()));
}

#[test]
fn retention_cutoff_outside_chrono_range_is_none() {
    assert_eq!(retention_cutoff(i64::MIN, 0), None);
}

use core_service::api_types::{traffic_csv, TrafficCsvRow};

fn csv_row(id: &str, domain: Option<&str>) -> TrafficCsvRow {
    TrafficCsvRow {
        id: id.to_string(),
        app_id: "app".to_string(),
        timestamp: "2024-01-01 00:00:00 UTC".to_string(),
        protocol: "Tcp".to_string(),
        remote_addr: "1.2.3.4:443".to_string(),
        domain: domain.map(|d| d.to_string()),
        route: "Direct".to_string(),
    }
}

#[test]
fn traffic_csv_has_header_and_one_line_per_row() {
    let rows = vec![csv_row("a", Some("example.com")), csv_row("b", None)];
    assert_eq!(
        traffic_csv(&rows),
        "id,app_id,timestamp,protocol,remote_addr,domain,route\n\
         a,app,2024-01-01 00:00:00 UTC,Tcp,1.2.3.4:443,example.com,Direct\n\
         b,app,2024-01-01 00:00:00 UTC,Tcp,1.2.3.4:443,,Direct\n"
    );
    assert_eq!(traffic_csv(&vec![]), "id,app_id,timestamp,protocol,remote_addr,domain,route\n");
}

use core_service::records::{backup_import_payload, base64_decode, BackupImport};

#[test]
fn base64_decode_reads_standard_base64() {
    assert_eq!(base64_decode("aGVsbG8="), Ok(b"hello".to_vec()));
    let err = base64_decode("not base64!").unwrap_err();
    assert!(err.starts_with("base64 decode: "));
    assert!(err.len() > "base64 decode: ".len());
}

#[test]
fn backup_import_payload_by_format() {
    match backup_import_payload(Some("encrypted"), "aGk=".to_string()) {
        Ok(BackupImport::Encrypted(b)) => assert_eq!(b, vec![104u8, 105u8]),
        _ => panic!("expected encrypted bytes"),
    }
    match backup_import_payload(None, "{\"version\":1}".to_string()) {
        Ok(BackupImport::Json(j)) => assert_eq!(j, "{\"version\":1}"),
        _ => panic!("expected a JSON bundle"),
    }
    match backup_import_payload(Some("json"), "aGk=".to_string()) {
        Ok(BackupImport::Json(j)) => assert_eq!(j, "aGk="),
        _ => panic!("expected a JSON bundle"),
    }
    assert!(matches!(backup_import_payload(Some("encrypted"), "%%%".to_string()), Err(_)));
}

use core_service::app_registry::icon_path_for_exe;
use core_service::enforcement::{apply_backend, resolve_mapping, EnforcementBackend};

#[test]
fn applied_backend_reads_back() {
    for b in [EnforcementBackend::Signed, EnforcementBackend::CustomKernel] {
        let stored = apply_backend(b).enforcement_backend;
        let plain = resolve_mapping(Some(stored), None).unwrap();
        assert!(plain.backend == b);
        let quoted = serde_json::to_string(stored).unwrap();
        let json = resolve_mapping(Some(quoted.as_str()), None).unwrap();
        assert!(json.backend == b);
    }
}

#[test]
fn icon_path_replaces_the_extension() {
    assert_eq!(icon_path_for_exe("/usr/bin/app.exe"), Some("/usr/bin/app.ico".to_string()));
    assert_eq!(icon_path_for_exe("/usr/bin/app"), Some("/usr/bin/app.ico".to_string()));
}

#[test]
fn icon_path_of_windows_executables() {
    assert_eq!(
        icon_path_for_exe("C:\\Program Files\\X\\app.exe"),
        Some("C:\\Program Files\\X\\app.ico".to_string())
    );
    assert_eq!(icon_path_for_exe("C:\\x.y\\app.tar.gz"), Some("C:\\x.y\\app.tar.ico".to_string()));
}

use core_service::paths::{resolve_binary as resolve_binary_at, BinaryProbe as Probe};

#[test]
fn binary_beside_an_executable_in_the_root_directory() {
    let probe = Probe {
        exe_dir: "/".to_string(),
        resources_is_dir: false,
        in_resources_exists: false,
        beside_exe_exists: true,
        override_exists: false,
        env_exists: false,
    };
    assert_eq!(resolve_binary_at("sing-box.exe", None, None, &probe), "/sing-box.exe");
}

use core_service::auth::new_token;
use core_service::digest::{backup_checksum, sha256_hex};

#[test]
fn digest_texts_have_fixed_lengths() {
    assert_eq!(sha256_hex(b"").len(), 64);
    assert_eq!(
        sha256_hex(b"abc"),
        "ba7816bf8f01cfea414140de5dae2223b00361a396177a9cb410ff61f20015ad"
    );
    assert_eq!(backup_checksum(b"abc"), "900150983cd24fb0d6963f7d28e17f72");
}

#[test]
fn new_token_is_a_version_4_identifier() {
    let t = new_token();
    let u = uuid::Uuid::parse_str(&t).unwrap();
    assert_eq!(u.get_version_num(), 4);
    assert_eq!(u.get_variant(), uuid::Variant::RFC4122);
}

use core_service::backup::items_to_write;
use core_service::records::providers_to_seed;

#[test]
fn providers_are_seeded_only_into_an_empty_store() {
    let seeded = providers_to_seed(0, 1, 2, 5);
    assert_eq!(seeded.len(), 2);
    assert_eq!(seeded[0].name, "cloudflare");
    assert_eq!(seeded[1].name, "quad9");
    assert!(providers_to_seed(3, 1, 2, 5).is_empty());
}

#[test]
fn import_writes_decodable_items_in_order() {
    assert_eq!(items_to_write(&[true, false, true, true, false]), vec![0, 2, 3]);
    assert!(items_to_write(&[false, false]).is_empty());
    assert!(items_to_write(&[]).is_empty());
}

use core_service::audit::policy_changed_entry as policy_entry;

#[test]
fn audit_details_escape_as_json() {
    let e = policy_entry(1, "a\tb\u{1}\\", &None, &Some("x\ny".to_string()), None, 5);
    assert_eq!(
        e.detail_json.unwrap(),
        "{\"field\":\"a\\tb\\u0001\\\\\",\"new\":\"x\\ny\",\"old\":null}"
    );
}
