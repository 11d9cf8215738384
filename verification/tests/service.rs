use std::sync::Arc;

use server_admin::config::ServerConfig;
use server_admin::server::{MyServerAdmin, RpcError, SysHandle};

const NOW: u64 = 1_700_000_000;

fn admin_with(name: &str, ip_port: &str, description: &str) -> MyServerAdmin {
    let cfg = ServerConfig::new(
        name.to_string(),
        "here".to_string(),
        ip_port.to_string(),
        description.to_string(),
    );
    MyServerAdmin::new(cfg)
}

#[test]
fn server_info_scenario() {
    let admin = admin_with("Srv1", "1.2.3.4:5000", "");
    let token = admin.config.token.clone();

    let info = admin.get_server_info(&token, NOW).expect("a fresh token must be admitted");
    assert_eq!(info.name, "Srv1");
    assert_eq!(info.description, "");
    assert_eq!(info.status, "ok");

    let refused = admin.get_server_info("", NOW);
    assert_eq!(refused.unwrap_err(), RpcError::Unauthenticated);
}

#[test]
fn every_procedure_is_gated() {
    let admin = admin_with("Srv1", "1.2.3.4:5000", "gated");
    let mut sys = SysHandle::new_all();
    let bad = "an.invalid.token";

    assert_eq!(admin.get_server_info(bad, NOW).unwrap_err(), RpcError::Unauthenticated);
    assert_eq!(admin.get_cpu_usage(&mut sys, bad, NOW).unwrap_err(), RpcError::Unauthenticated);
    assert_eq!(admin.get_memory_usage(&mut sys, bad, NOW).unwrap_err(), RpcError::Unauthenticated);
    assert_eq!(admin.get_disk_usage(bad, NOW).unwrap_err(), RpcError::Unauthenticated);
    assert_eq!(admin.get_network_usage(bad, NOW).unwrap_err(), RpcError::Unauthenticated);
}

#[test]
fn stale_token_is_refused_everywhere() {
    let admin = admin_with("Srv1", "1.2.3.4:5000", "stale");
    let other = admin_with("Srv2", "5.6.7.8:5000", "other");
    let foreign_token = other.config.token.clone();
    let mut sys = SysHandle::new_all();

    assert!(admin.get_server_info(&foreign_token, NOW).is_err());
    assert!(admin.get_cpu_usage(&mut sys, &foreign_token, NOW).is_err());
    assert!(admin.get_memory_usage(&mut sys, &foreign_token, NOW).is_err());
    assert!(admin.get_disk_usage(&foreign_token, NOW).is_err());
    assert!(admin.get_network_usage(&foreign_token, NOW).is_err());
}

#[test]
fn cpu_procedure_admits_fresh_token() {
    let admin = admin_with("Srv1", "1.2.3.4:5000", "");
    let token = admin.config.token.clone();
    let mut sys = SysHandle::new_all();
    assert!(admin.get_cpu_usage(&mut sys, &token, NOW).is_ok());
}

#[test]
fn memory_procedure_reports_consistent_ladder() {
    let admin = admin_with("Srv1", "1.2.3.4:5000", "");
    let token = admin.config.token.clone();
    let mut sys = SysHandle::new_all();

    let v = admin.get_memory_usage(&mut sys, &token, NOW).expect("live sample must render");
    assert_eq!(v.len(), 3);
    assert_eq!(v[0].digital_type, "KB");
    assert_eq!(v[1].digital_type, "MB");
    assert_eq!(v[2].digital_type, "GB");
    assert_eq!(v[1].total_memory, v[0].total_memory / 1024);
    assert_eq!(v[1].used_memory, v[0].used_memory / 1024);
    assert_eq!(v[2].total_memory, v[1].total_memory / 1024);
    assert_eq!(v[2].used_memory, v[1].used_memory / 1024);
    for entry in &v {
        assert_eq!(entry.free_memory, entry.total_memory - entry.used_memory);
    }
}

#[test]
fn network_procedure_reports_consistent_ladder() {
    let admin = admin_with("Srv1", "1.2.3.4:5000", "");
    let token = admin.config.token.clone();

    let v = admin.get_network_usage(&token, NOW).expect("live sample must render");
    assert_eq!(v.len(), 3);
    assert_eq!(v[0].digital_type, "KB");
    assert_eq!(v[1].digital_type, "MB");
    assert_eq!(v[2].digital_type, "GB");
    assert_eq!(v[1].total_received, v[0].total_received / 1024);
    assert_eq!(v[2].total_received, v[1].total_received / 1024);
    assert_eq!(v[1].total_transmitted, v[0].total_transmitted / 1024);
    assert_eq!(v[2].total_transmitted, v[1].total_transmitted / 1024);
}

#[test]
fn concurrent_cpu_and_memory_calls_serialize() {
    let admin = Arc::new(admin_with("Srv1", "1.2.3.4:5000", ""));
    let token = admin.config.token.clone();
    let system = Arc::new(tokio::sync::Mutex::new(SysHandle::new_all()));

    let runtime = tokio::runtime::Runtime::new().unwrap();
    runtime.block_on(async {
        let mut handles = Vec::new();
        for i in 0..8 {
            let admin = admin.clone();
            let system = system.clone();
            let token = token.clone();
            handles.push(tokio::spawn(async move {
                // the lock makes each refresh-then-read pair exclusive
                let mut sys = system.lock().await;
                if i % 2 == 0 {
                    assert!(admin.get_cpu_usage(&mut sys, &token, NOW).is_ok());
                } else {
                    let v = admin
                        .get_memory_usage(&mut sys, &token, NOW)
                        .expect("live sample must render");
                    // each call observes a self-consistent snapshot
                    assert_eq!(v.len(), 3);
                    for entry in &v {
                        assert_eq!(entry.free_memory, entry.total_memory - entry.used_memory);
                    }
                    assert_eq!(v[1].total_memory, v[0].total_memory / 1024);
                }
            }));
        }
        for handle in handles {
            handle.await.unwrap();
        }
    });
}

#[test]
fn disk_procedure_admits_fresh_token() {
    let admin = admin_with("Srv1", "1.2.3.4:5000", "");
    let token = admin.config.token.clone();
    assert!(admin.get_disk_usage(&token, NOW).is_ok());
}
